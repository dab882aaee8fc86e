//! Core of a build system's configuration-transition machinery: declaring
//! transitions, binding their identity, validating the user-supplied
//! implementation's call signature, freezing a bound definition into an
//! immutable runtime value, and walking a configured node's attributes to
//! enumerate its dependency edges by kind.

pub mod context;
pub mod labels;
pub mod options;
pub mod signature;
pub mod transition;
pub mod traversal;

pub use context::Tier;
pub use transition::declare_transition;
pub use transition::FrozenTransition;
pub use transition::Transition;
pub use transition::TransitionId;
pub use traversal::traverse_configured_attrs;
pub use traversal::ConfiguredAttrTraversal;
