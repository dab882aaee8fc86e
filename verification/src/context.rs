//! Severity tiers and structured context for errors produced by the
//! transition and traversal machinery.

use vstd::prelude::*;

verus! {

/// Severity of an error: caused by bad user input, by the environment, or by
/// an internal fault. A higher tier dominates a lower one when errors are
/// combined.
#[derive(Debug, Clone, Copy, PartialEq, Eq, Structural, PartialOrd, Ord, Hash)]
pub enum Tier {
    Input,
    Environment,
    Tier0,
}

/// Rank of a tier: `Tier0` (internal) dominates `Environment`, which
/// dominates `Input`.
pub open spec fn tier_rank(t: Tier) -> int {
    match t {
        Tier::Input => 0,
        Tier::Environment => 1,
        Tier::Tier0 => 2,
    }
}

/// What `Tier::combine` returns: the dominant tier of the two, the receiver
/// winning ties.
pub open spec fn combine_spec(t: Tier, other: Option<Tier>) -> Tier {
    match other {
        Option::None => t,
        Option::Some(o) => if tier_rank(o) > tier_rank(t) {
            o
        } else {
            t
        },
    }
}

impl Tier {
    /// Combine this tier with an optional other tier; the more severe of the
    /// two wins.
    pub fn combine(self, other: Option<Tier>) -> (r: Tier)
        ensures
            r == combine_spec(self, other),
    {
        match other {
            Option::None => self,
            Option::Some(o) => {
                match (self, o) {
                    (Tier::Tier0, _) => Tier::Tier0,
                    (_, Tier::Tier0) => Tier::Tier0,
                    (Tier::Environment, _) => Tier::Environment,
                    (_, Tier::Environment) => Tier::Environment,
                    (Tier::Input, Tier::Input) => Tier::Input,
                }
            },
        }
    }
}

/// Consumer-supplied structured context. Implementations decide whether
/// their context is shown in a rendered error message, and how two contexts
/// compare. By default a context is shown.
pub trait TypedContext: Sized {
    /// Whether two contexts of this type carry the same information.
    fn eq(&self, other: &Self) -> bool;

    /// Whether the context should be included in the error message.
    fn should_display(&self) -> (r: bool)
        ensures
            r,
    {
        true
    }
}

/// A span within a definition file, as the scripting runtime's syntax
/// library locates it. Opaque here: it is carried through unchanged.
#[verifier::external_type_specification]
#[verifier::external_body]
pub struct ExFileSpan(starlark_syntax::codemap::FileSpan);

/// Ghost model of a [`StarlarkContext`].
pub struct StarlarkContextModel {
    pub call_stack: Seq<char>,
    pub error_msg: Seq<char>,
    pub span: Option<starlark_syntax::codemap::FileSpan>,
}

/// The scripting-evaluation context of an error: the rendered call stack,
/// the error's own message, and the span it points at.
#[derive(Debug)]
pub struct StarlarkContext {
    pub call_stack: String,
    pub error_msg: String,
    pub span: Option<starlark_syntax::codemap::FileSpan>,
}

impl View for StarlarkContext {
    type V = StarlarkContextModel;

    open spec fn view(&self) -> StarlarkContextModel {
        StarlarkContextModel {
            call_stack: self.call_stack@,
            error_msg: self.error_msg@,
            span: self.span,
        }
    }
}

/// Relies on starlark_syntax::call_stack::CALL_STACK_TRACEBACK_PREFIX: the
/// constant heading line of a rendered call stack.
#[verifier::external_body]
fn traceback_prefix() -> (r: &'static str)
    ensures
        r@ == "Traceback (most recent call last):"@,
{
    starlark_syntax::call_stack::CALL_STACK_TRACEBACK_PREFIX
}

/// `text` with every leading repetition of `prefix` removed.
pub open spec fn stripped_of_prefix(text: Seq<char>, prefix: Seq<char>) -> Seq<char>
    decreases text.len(),
{
    if prefix.len() > 0 && text.len() >= prefix.len() && text.take(prefix.len() as int) == prefix {
        stripped_of_prefix(text.skip(prefix.len() as int), prefix)
    } else {
        text
    }
}

/// Remove every leading repetition of `prefix` from `text`.
fn strip_repeated_prefix(text: &str, prefix: &str) -> (r: String)
    ensures
        r@ == stripped_of_prefix(text@, prefix@),
{
    let plen = prefix.unicode_len();
    let mut rest = text.to_owned();
    loop
        invariant
            stripped_of_prefix(text@, prefix@) == stripped_of_prefix(rest@, prefix@),
            plen == prefix@.len(),
        ensures
            stripped_of_prefix(rest@, prefix@) == rest@,
        decreases rest@.len(),
    {
        if plen == 0 {
            break;
        }
        let rlen = rest.as_str().unicode_len();
        if rlen < plen {
            break;
        }
        let head = rest.as_str().substring_char(0, plen);
        if !head.to_owned().eq(&prefix.to_owned()) {
            proof {
                assert(rest@.take(plen as int) != prefix@);
            }
            break;
        }
        let tail = rest.as_str().substring_char(plen, rlen);
        proof {
            assert(tail@ == rest@.skip(plen as int));
        }
        rest = tail.to_owned();
    }
    rest
}

impl StarlarkContext {
    /// Concatenate a later evaluation context onto this one: the later call
    /// stack, shorn of its heading line, is appended to this call stack,
    /// and the later message and span win. Without a later context, this
    /// one is returned unchanged.
    ///
    /// Relies on the syntax library's constant heading line through
    /// `traceback_prefix`.
    pub fn concat(self, other: Option<StarlarkContext>) -> (r: StarlarkContext)
        ensures
            other is None ==> r@ == self@,
            other matches Some(ctx) ==> r@.call_stack == self@.call_stack + stripped_of_prefix(
                ctx@.call_stack,
                "Traceback (most recent call last):"@,
            ) && r@.error_msg == ctx@.error_msg && r@.span == ctx@.span,
    {
        match other {
            Option::None => self,
            Option::Some(ctx) => {
                let trimmed = strip_repeated_prefix(ctx.call_stack.as_str(), traceback_prefix());
                let mut call_stack = self.call_stack;
                call_stack.append(trimmed.as_str());
                StarlarkContext { call_stack, error_msg: ctx.error_msg, span: ctx.span }
            },
        }
    }
}

impl TypedContext for StarlarkContext {
    /// Whether two evaluation contexts carry the same text. The span is an
    /// opaque runtime value and does not take part.
    fn eq(&self, other: &Self) -> (r: bool)
        ensures
            r == (self@.call_stack == other@.call_stack && self@.error_msg == other@.error_msg),
    {
        self.call_stack.eq(&other.call_stack) && self.error_msg.eq(&other.error_msg)
    }
}

/// Ghost model of a [`ContextValue`].
pub enum ContextModel {
    Dyn(Seq<char>),
    Tier(Tier),
    Key(Seq<char>),
    StarlarkError(StarlarkContextModel),
}

/// One piece of context attached to an error: free-form text, a severity
/// tier, a stable category key, or a scripting-evaluation context.
#[derive(Debug)]
pub enum ContextValue {
    Dyn(String),
    Tier(Tier),
    Key(String),
    StarlarkError(StarlarkContext),
}

impl View for ContextValue {
    type V = ContextModel;

    open spec fn view(&self) -> ContextModel {
        match self {
            ContextValue::Dyn(t) => ContextModel::Dyn(t@),
            ContextValue::Tier(t) => ContextModel::Tier(*t),
            ContextValue::Key(t) => ContextModel::Key(t@),
            ContextValue::StarlarkError(c) => ContextModel::StarlarkError(c@),
        }
    }
}

impl DeepView for ContextValue {
    type V = ContextModel;

    open spec fn deep_view(&self) -> ContextModel {
        self.view()
    }
}

impl ContextValue {
    /// Whether the context should be included in the rendered error
    /// message: free-form text is, the bookkeeping kinds are not.
    pub fn should_display(&self) -> (r: bool)
        ensures
            r == (self@ is Dyn),
    {
        match self {
            ContextValue::Dyn(..) => true,
            ContextValue::Tier(_) => false,
            ContextValue::Key(..) => false,
            ContextValue::StarlarkError(..) => false,
        }
    }

    /// Check that two context values are the same, variant and content;
    /// callers only hand it values they expect to be equal.
    pub fn assert_eq(&self, other: &Self)
        requires
            self@ == other@,
    {
        match (self, other) {
            (ContextValue::Dyn(_), ContextValue::Dyn(_)) => {},
            (ContextValue::Tier(_), ContextValue::Tier(_)) => {},
            (ContextValue::Key(_), ContextValue::Key(_)) => {},
            (ContextValue::StarlarkError(_), ContextValue::StarlarkError(_)) => {},
            (_, _) => {
                proof {
                    assert(false);
                }
            },
        }
    }
}

impl From<String> for ContextValue {
    fn from(value: String) -> (r: Self) {
        ContextValue::Dyn(value)
    }
}

impl vstd::std_specs::convert::FromSpecImpl<String> for ContextValue {
    open spec fn obeys_from_spec() -> bool {
        true
    }

    open spec fn from_spec(value: String) -> Self {
        ContextValue::Dyn(value)
    }
}

impl From<&str> for ContextValue {
    fn from(value: &str) -> (r: Self)
        ensures
            r@ == ContextModel::Dyn(value@),
    {
        ContextValue::Dyn(value.to_owned())
    }
}

impl vstd::std_specs::convert::FromSpecImpl<&str> for ContextValue {
    open spec fn obeys_from_spec() -> bool {
        false
    }

    open spec fn from_spec(value: &str) -> Self {
        arbitrary()
    }
}

impl From<Tier> for ContextValue {
    fn from(value: Tier) -> (r: Self) {
        ContextValue::Tier(value)
    }
}

impl vstd::std_specs::convert::FromSpecImpl<Tier> for ContextValue {
    open spec fn obeys_from_spec() -> bool {
        true
    }

    open spec fn from_spec(value: Tier) -> Self {
        ContextValue::Tier(value)
    }
}

/// Ghost model of an [`Error`].
pub struct ErrorModel {
    pub message: Seq<char>,
    pub contexts: Seq<ContextModel>,
}

/// An error with structured context: the root message and the context
/// values attached to it, oldest first.
#[derive(Debug)]
pub struct Error {
    pub message: String,
    pub contexts: Vec<ContextValue>,
}

impl View for Error {
    type V = ErrorModel;

    open spec fn view(&self) -> ErrorModel {
        ErrorModel { message: self.message@, contexts: self.contexts.deep_view() }
    }
}

/// The dominant severity tier among a sequence of context values: the
/// most severe tier attached, if any tier is attached at all.
pub open spec fn tiers_combined(contexts: Seq<ContextModel>) -> Option<Tier>
    decreases contexts.len(),
{
    if contexts.len() == 0 {
        Option::None
    } else {
        let prev = tiers_combined(contexts.drop_last());
        match contexts.last() {
            ContextModel::Tier(t) => Option::Some(combine_spec(t, prev)),
            _ => prev,
        }
    }
}

/// The rendered message: each displayed context, newest first, then the
/// root message, joined by `: `.
pub open spec fn rendered(contexts: Seq<ContextModel>, message: Seq<char>) -> Seq<char>
    decreases contexts.len(),
{
    if contexts.len() == 0 {
        message
    } else {
        let inner = rendered(contexts.drop_last(), message);
        match contexts.last() {
            ContextModel::Dyn(t) => t + ": "@ + inner,
            _ => inner,
        }
    }
}

impl Error {
    /// An error with the given root message and no context.
    pub fn new(message: String) -> (r: Self)
        ensures
            r@.message == message@,
            r@.contexts == Seq::<ContextModel>::empty(),
    {
        let r = Error { message, contexts: Vec::new() };
        proof {
            assert(r@.contexts =~= Seq::<ContextModel>::empty());
        }
        r
    }

    /// Attach one more context value.
    pub fn context(self, value: ContextValue) -> (r: Self)
        ensures
            r@.message == self@.message,
            r@.contexts == self@.contexts.push(value@),
    {
        let mut contexts = self.contexts;
        let ghost before = contexts.deep_view();
        contexts.push(value);
        proof {
            assert(contexts.deep_view() =~= before.push(value@));
        }
        Error { message: self.message, contexts }
    }

    /// The dominant severity tier attached to this error, if any.
    pub fn get_tier(&self) -> (r: Option<Tier>)
        ensures
            r == tiers_combined(self@.contexts),
    {
        let ghost cs = self.contexts.deep_view();
        let mut acc: Option<Tier> = Option::None;
        let mut i: usize = 0;
        while i < self.contexts.len()
            invariant
                i <= self.contexts.len(),
                cs == self.contexts.deep_view(),
                acc == tiers_combined(cs.take(i as int)),
            decreases self.contexts.len() - i,
        {
            match &self.contexts[i] {
                ContextValue::Tier(t) => {
                    acc = Option::Some(t.combine(acc));
                },
                _ => {},
            }
            proof {
                assert(cs.take(i as int + 1).drop_last() =~= cs.take(i as int));
                assert(cs.take(i as int + 1).last() == cs[i as int]);
            }
            i += 1;
        }
        proof {
            assert(cs.take(self.contexts.len() as int) =~= cs);
        }
        acc
    }

    /// Render the error as text: each displayed context, newest first,
    /// then the root message, joined by `: `.
    pub fn render(&self) -> (r: String)
        ensures
            r@ == rendered(self@.contexts, self@.message),
    {
        let ghost cs = self.contexts.deep_view();
        let mut out = String::new();
        let mut i: usize = self.contexts.len();
        proof {
            assert(cs.take(i as int) =~= cs);
            assert(Seq::<char>::empty() + rendered(cs, self@.message) =~= rendered(
                cs,
                self@.message,
            ));
        }
        while i > 0
            invariant
                i <= self.contexts.len(),
                cs == self.contexts.deep_view(),
                rendered(cs, self@.message) == out@ + rendered(cs.take(i as int), self@.message),
            decreases i,
        {
            let ghost inner_all = rendered(cs.take(i as int), self@.message);
            proof {
                assert(cs.take(i as int).drop_last() =~= cs.take(i as int - 1));
                assert(cs.take(i as int).last() == cs[i as int - 1]);
            }
            match &self.contexts[i - 1] {
                ContextValue::Dyn(t) => {
                    let ghost before = out@;
                    out.append(t.as_str());
                    out.append(": ");
                    proof {
                        assert(out@ == before + t@ + ": "@);
                        assert(before + (t@ + ": "@ + rendered(
                            cs.take(i as int - 1),
                            self@.message,
                        )) =~= (before + t@ + ": "@) + rendered(
                            cs.take(i as int - 1),
                            self@.message,
                        ));
                    }
                },
                _ => {},
            }
            i -= 1;
        }
        proof {
            assert(cs.take(0) =~= Seq::<ContextModel>::empty());
        }
        out.append(self.message.as_str());
        out
    }
}

} // verus!
