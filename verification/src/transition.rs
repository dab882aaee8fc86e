//! Declaration, identity binding and freezing of configuration transitions.
//!
//! A transition is declared by a build-definition file: the declaration
//! captures the implementation, the named target-label references the
//! implementation needs, an optional list of attribute names it may read,
//! and whether the transition is split. The declared value has no identity
//! until the defining file's evaluator binds it to a name; the first binding
//! wins, and later bindings are no-ops. Freezing converts a bound definition
//! into an immutable runtime transition; freezing an unbound definition is a
//! defined failure.

use vstd::prelude::*;

use crate::labels::ImportPath;
use crate::labels::TargetLabel;
use crate::signature::expected_signature;
use crate::signature::mismatch_text;
use crate::signature::implementation_accepted;
use crate::signature::validate_transition_impl;
use crate::signature::Implementation;
use crate::signature::SignatureMismatch;
use crate::signature::SignatureModel;

verus! {

/// Ghost model of a [`TransitionId`].
pub struct TransitionIdModel {
    pub path: Seq<char>,
    pub name: Seq<char>,
}

/// The stable identity of a transition: the path of its defining file and
/// the name it was first bound to. Equality is structural, so identities can
/// be compared across evaluation runs.
#[derive(Debug)]
pub struct TransitionId {
    pub path: ImportPath,
    pub name: String,
}

impl View for TransitionId {
    type V = TransitionIdModel;

    open spec fn view(&self) -> TransitionIdModel {
        TransitionIdModel { path: self.path@, name: self.name@ }
    }
}

impl Clone for TransitionId {
    fn clone(&self) -> (r: Self)
        ensures
            r@ == self@,
    {
        TransitionId { path: self.path.clone(), name: self.name.clone() }
    }
}

impl PartialEq for TransitionId {
    fn eq(&self, other: &Self) -> (r: bool) {
        self.path.path.eq(&other.path.path) && self.name.eq(&other.name)
    }
}

impl vstd::std_specs::cmp::PartialEqSpecImpl for TransitionId {
    open spec fn obeys_eq_spec() -> bool {
        true
    }

    open spec fn eq_spec(&self, other: &Self) -> bool {
        self@ == other@
    }
}

/// The outcome of resolving one named label reference through the external
/// label-coercion service: the concrete target label, or the resolution
/// error's message.
#[derive(Debug)]
pub enum RefResolution {
    Resolved(TargetLabel),
    Failed(String),
}

impl View for RefResolution {
    type V = Result<Seq<char>, Seq<char>>;

    open spec fn view(&self) -> Result<Seq<char>, Seq<char>> {
        match self {
            RefResolution::Resolved(label) => Result::Ok(label@),
            RefResolution::Failed(message) => Result::Err(message@),
        }
    }
}

impl DeepView for RefResolution {
    type V = Result<Seq<char>, Seq<char>>;

    open spec fn deep_view(&self) -> Result<Seq<char>, Seq<char>> {
        self.view()
    }
}

/// Ghost model of a [`DeclarationError`].
pub enum DeclarationErrorModel {
    NonUniqueAttrs,
    LabelResolution { name: Seq<char>, message: Seq<char> },
    NotInDefinitionFile,
    Signature(SignatureModel, Option<SignatureModel>),
}

/// Why a declaration failed.
#[derive(Debug)]
pub enum DeclarationError {
    /// The attribute list contains a duplicate name.
    NonUniqueAttrs,
    /// One of the named label references did not resolve; carries the
    /// reference's name and the resolution error's message.
    LabelResolution { name: String, message: String },
    /// The declaration was made outside a definition-file context.
    NotInDefinitionFile,
    /// The implementation's signature does not fit the expected shape.
    Signature(SignatureMismatch),
}

impl View for DeclarationError {
    type V = DeclarationErrorModel;

    open spec fn view(&self) -> DeclarationErrorModel {
        match self {
            DeclarationError::NonUniqueAttrs => DeclarationErrorModel::NonUniqueAttrs,
            DeclarationError::LabelResolution { name, message } => (
                DeclarationErrorModel::LabelResolution { name: name@, message: message@ }
            ),
            DeclarationError::NotInDefinitionFile => DeclarationErrorModel::NotInDefinitionFile,
            DeclarationError::Signature(m) => DeclarationErrorModel::Signature(
                m.expected@,
                m.actual@,
            ),
        }
    }
}

/// Freezing or reading the identity of a definition that was never bound to
/// a name.
#[derive(Debug)]
pub struct IdentityNotBound;

impl IdentityNotBound {
    /// The failure, rendered for a rule author.
    pub fn message(&self) -> (r: String)
        ensures
            r@ == "Transition must be assigned to a variable, e.g. `android_cpus = transition(...)`"@,
    {
        String::from_str(
            "Transition must be assigned to a variable, e.g. `android_cpus = transition(...)`",
        )
    }
}

impl DeclarationError {
    /// The failure, rendered for a rule author. A label-resolution failure
    /// renders as the resolution error itself; a signature mismatch renders
    /// the expected signature and the actual type side by side.
    pub fn message(&self) -> (r: String)
        ensures
            self@ is NonUniqueAttrs ==> r@ == "Non-unique list of attrs"@,
            self@ is NotInDefinitionFile ==> r@
                == "`transition` can only be declared in .bzl files"@,
            self@ matches DeclarationErrorModel::LabelResolution { name, message } ==> r@
                == message,
            self@ matches DeclarationErrorModel::Signature(expected, actual) ==> r@
                == mismatch_text(expected, actual),
    {
        match self {
            DeclarationError::NonUniqueAttrs => String::from_str("Non-unique list of attrs"),
            DeclarationError::NotInDefinitionFile => String::from_str(
                "`transition` can only be declared in .bzl files",
            ),
            DeclarationError::LabelResolution { name: _, message } => message.clone(),
            DeclarationError::Signature(mismatch) => mismatch.render(),
        }
    }
}

/// Ghost model of a [`Transition`].
pub struct TransitionModel {
    pub id: Option<TransitionIdModel>,
    pub path: Seq<char>,
    pub implementation: Option<SignatureModel>,
    pub refs: Seq<(Seq<char>, Seq<char>)>,
    pub attrs: Option<Seq<Seq<char>>>,
    pub split: bool,
}

/// A declared, not yet frozen transition. Mutable only in that its identity
/// is set once, by the first binding.
#[derive(Debug)]
pub struct Transition {
    /// The identity assigned by the first binding, if any yet.
    pub id: Option<TransitionId>,
    /// The path of the file the declaration was evaluated in.
    pub path: ImportPath,
    /// The implementation callable, as the validator modelled it.
    pub implementation: Implementation,
    /// Named target-label references, resolved at declaration time, in
    /// declaration order. The declaring mapping keys them by name.
    pub refs: Vec<(String, TargetLabel)>,
    /// The attribute names the implementation may read, if capture is
    /// enabled; checked free of duplicates at declaration time.
    pub attrs: Option<Vec<String>>,
    /// Whether this is a split transition.
    pub split: bool,
}

impl View for Transition {
    type V = TransitionModel;

    open spec fn view(&self) -> TransitionModel {
        TransitionModel {
            id: match self.id {
                Option::None => Option::None,
                Option::Some(id) => Option::Some(id@),
            },
            path: self.path@,
            implementation: self.implementation@,
            refs: self.refs.deep_view(),
            attrs: self.attrs.deep_view(),
            split: self.split,
        }
    }
}

/// Ghost model of a [`FrozenTransition`].
pub struct FrozenTransitionModel {
    pub id: TransitionIdModel,
    pub implementation: Option<SignatureModel>,
    pub refs: Seq<(Seq<char>, Seq<char>)>,
    pub attrs: Option<Seq<Seq<char>>>,
    pub split: bool,
}

/// An immutable runtime transition, produced by freezing a bound
/// [`Transition`]. Never mutated; shared by reference among consumers.
#[derive(Debug)]
pub struct FrozenTransition {
    pub id: TransitionId,
    pub implementation: Implementation,
    pub refs: Vec<(String, TargetLabel)>,
    pub attrs: Option<Vec<String>>,
    pub split: bool,
}

impl View for FrozenTransition {
    type V = FrozenTransitionModel;

    open spec fn view(&self) -> FrozenTransitionModel {
        FrozenTransitionModel {
            id: self.id@,
            implementation: self.implementation@,
            refs: self.refs.deep_view(),
            attrs: self.attrs.deep_view(),
            split: self.split,
        }
    }
}

/// Whether a name occurs twice in an attribute list.
pub open spec fn has_duplicate(names: Seq<Seq<char>>) -> bool {
    exists|i: int, j: int| 0 <= i < j < names.len() && names[i] == names[j]
}

/// Whether a declared attribute list fails the uniqueness check.
pub open spec fn attrs_not_unique(attrs: Option<Seq<Seq<char>>>) -> bool {
    attrs matches Option::Some(names) && has_duplicate(names)
}

/// The index of the first reference whose resolution failed, if any.
pub open spec fn first_failed_ref(refs: Seq<(Seq<char>, Result<Seq<char>, Seq<char>>)>) -> int {
    choose|k: int|
        0 <= k < refs.len() && refs[k].1 is Err && (forall|k2: int| 0 <= k2 < k ==> refs[k2].1 is Ok)
}

/// Whether the reference names are pairwise distinct. They are by
/// construction: the declaration's refs come from a mapping.
pub open spec fn ref_names_unique(refs: Seq<(Seq<char>, Result<Seq<char>, Seq<char>>)>) -> bool {
    forall|i: int, j: int| 0 <= i < j < refs.len() ==> refs[i].0 != refs[j].0
}

/// Whether some reference failed to resolve.
pub open spec fn some_ref_failed(refs: Seq<(Seq<char>, Result<Seq<char>, Seq<char>>)>) -> bool {
    exists|k: int| 0 <= k < refs.len() && refs[k].1 is Err
}

/// The successfully resolved references, name to label, in order. Meaningful
/// when none failed.
pub open spec fn resolved_refs(refs: Seq<(Seq<char>, Result<Seq<char>, Seq<char>>)>) -> Seq<
    (Seq<char>, Seq<char>),
> {
    refs.map_values(|e: (Seq<char>, Result<Seq<char>, Seq<char>>)| (e.0, e.1->Ok_0))
}

/// Scan an attribute list for a duplicated name.
fn attrs_have_duplicate(names: &Vec<String>) -> (r: bool)
    ensures
        r == has_duplicate(names.deep_view()),
{
    let ghost nv = names.deep_view();
    let mut i: usize = 0;
    while i < names.len()
        invariant
            i <= names.len(),
            nv == names.deep_view(),
            forall|i2: int, j2: int| 0 <= i2 < j2 < names.len() && i2 < i ==> nv[i2] != nv[j2],
        decreases names.len() - i,
    {
        let mut j: usize = i + 1;
        while j < names.len()
            invariant
                i < j <= names.len(),
                nv == names.deep_view(),
                forall|j2: int| i < j2 < j ==> nv[i as int] != nv[j2],
            decreases names.len() - j,
        {
            if names[i].eq(&names[j]) {
                assert(nv[i as int] == nv[j as int]);
                return true;
            }
            j += 1;
        }
        i += 1;
    }
    false
}

/// Declare a transition.
///
/// `refs` carries, per named reference and in declaration order, the outcome
/// of resolving it through the external label-coercion service; the names
/// are distinct, as they come from a mapping. `definition_file` is the file
/// whose evaluation made the call, if the call was made from a
/// definition-file context at all.
///
/// The declaration fails, in this order of precedence, when the attribute
/// list has a duplicate name, when a reference failed to resolve (the first
/// failure in order is reported), when the call was made outside a
/// definition-file context, and when the implementation's signature does not
/// fit the shape derived from the attribute-capture and split flags. The
/// declared transition has no identity yet.
pub fn declare_transition(
    implementation: Implementation,
    refs: Vec<(String, RefResolution)>,
    attrs: Option<Vec<String>>,
    split: bool,
    definition_file: Option<ImportPath>,
) -> (r: Result<Transition, DeclarationError>)
    requires
        ref_names_unique(refs.deep_view()),
    ensures
        (r matches Result::Err(DeclarationError::NonUniqueAttrs)) <==> attrs_not_unique(
            attrs.deep_view(),
        ),
        !attrs_not_unique(attrs.deep_view()) ==> ((r matches Result::Err(
            DeclarationError::LabelResolution { .. },
        )) <==> some_ref_failed(refs.deep_view())),
        r matches Result::Err(DeclarationError::LabelResolution { name, message }) ==> {
            let k = first_failed_ref(refs.deep_view());
            &&& 0 <= k < refs.deep_view().len()
            &&& refs.deep_view()[k].1 is Err
            &&& forall|k2: int| 0 <= k2 < k ==> refs.deep_view()[k2].1 is Ok
            &&& name@ == refs.deep_view()[k].0
            &&& message@ == refs.deep_view()[k].1->Err_0
        },
        (!attrs_not_unique(attrs.deep_view()) && !some_ref_failed(refs.deep_view())) ==> ((r
            matches Result::Err(DeclarationError::NotInDefinitionFile)) <==> definition_file
            is None),
        (!attrs_not_unique(attrs.deep_view()) && !some_ref_failed(refs.deep_view())
            && definition_file is Some) ==> ((r matches Result::Err(
            DeclarationError::Signature(_),
        )) <==> !implementation_accepted(implementation@, attrs is Some, split)),
        r matches Result::Err(DeclarationError::Signature(m)) ==> m.expected@
            == expected_signature(attrs is Some, split) && m.actual@ == implementation@,
        (r is Ok) <==> (!attrs_not_unique(attrs.deep_view()) && !some_ref_failed(refs.deep_view())
            && definition_file is Some && implementation_accepted(
            implementation@,
            attrs is Some,
            split,
        )),
        r matches Result::Ok(t) ==> t@ == (TransitionModel {
            id: Option::None,
            path: definition_file.unwrap()@,
            implementation: implementation@,
            refs: resolved_refs(refs.deep_view()),
            attrs: attrs.deep_view(),
            split,
        }),
{
    let ghost rv = refs.deep_view();
    let duplicate = match &attrs {
        Option::Some(names) => attrs_have_duplicate(names),
        Option::None => false,
    };
    if duplicate {
        return Result::Err(DeclarationError::NonUniqueAttrs);
    }
    proof {
        assert(!attrs_not_unique(attrs.deep_view()));
    }
    let mut resolved: Vec<(String, TargetLabel)> = Vec::new();
    let mut k: usize = 0;
    while k < refs.len()
        invariant
            k <= refs.len(),
            rv == refs.deep_view(),
            !attrs_not_unique(attrs.deep_view()),
            forall|k2: int| 0 <= k2 < k ==> rv[k2].1 is Ok,
            resolved.deep_view() =~= resolved_refs(rv).take(k as int),
        decreases refs.len() - k,
    {
        let (name, outcome) = &refs[k];
        match outcome {
            RefResolution::Resolved(label) => {
                let ghost before = resolved.deep_view();
                resolved.push((name.clone(), label.clone()));
                proof {
                    assert(resolved.deep_view() =~= before.push(
                        (rv[k as int].0, rv[k as int].1->Ok_0),
                    ));
                    assert(resolved_refs(rv)[k as int] == (rv[k as int].0, rv[k as int].1->Ok_0));
                    assert(resolved.deep_view() =~= resolved_refs(rv).take(k as int + 1));
                }
            },
            RefResolution::Failed(message) => {
                proof {
                    assert(rv[k as int].1 is Err);
                    assert(first_failed_ref(rv) == k as int);
                }
                return Result::Err(
                    DeclarationError::LabelResolution {
                        name: name.clone(),
                        message: message.clone(),
                    },
                );
            },
        }
        k += 1;
    }
    let path = match definition_file {
        Option::None => {
            return Result::Err(DeclarationError::NotInDefinitionFile);
        },
        Option::Some(p) => p,
    };
    let attrs_enabled = attrs.is_some();
    match validate_transition_impl(&implementation, attrs_enabled, split) {
        Result::Ok(()) => {},
        Result::Err(mismatch) => {
            return Result::Err(DeclarationError::Signature(mismatch));
        },
    }
    let t = Transition { id: Option::None, path, implementation, refs: resolved, attrs, split };
    proof {
        assert(t@.refs =~= resolved_refs(rv));
    }
    Result::Ok(t)
}

/// What binding a name to a definition does to its model: assigns the
/// identity on the first binding, and nothing on any later one.
pub open spec fn export_model(m: TransitionModel, name: Seq<char>) -> TransitionModel {
    if m.id is Some {
        m
    } else {
        TransitionModel {
            id: Option::Some(TransitionIdModel { path: m.path, name }),
            ..m
        }
    }
}

/// What freezing does to the model: fails without an identity, and otherwise
/// carries every field into the immutable form unchanged.
pub open spec fn freeze_model(m: TransitionModel) -> Option<FrozenTransitionModel> {
    match m.id {
        Option::None => Option::None,
        Option::Some(id) => Option::Some(
            FrozenTransitionModel {
                id,
                implementation: m.implementation,
                refs: m.refs,
                attrs: m.attrs,
                split: m.split,
            },
        ),
    }
}

impl Transition {
    /// Record the name this definition is being bound to. The first binding
    /// assigns the identity; later bindings change nothing.
    pub fn export_as(&mut self, variable_name: &str)
        ensures
            final(self)@ == export_model(old(self)@, variable_name@),
    {
        if self.id.is_none() {
            self.id = Option::Some(
                TransitionId { path: self.path.clone(), name: variable_name.to_owned() },
            );
        }
    }

    /// The identity assigned by the first binding; an error if no binding
    /// has happened yet.
    pub fn transition_id(&self) -> (r: Result<TransitionId, IdentityNotBound>)
        ensures
            (r is Ok) <==> self@.id is Some,
            r matches Result::Ok(id) ==> id@ == self@.id.unwrap(),
    {
        match &self.id {
            Option::Some(id) => Result::Ok(id.clone()),
            Option::None => Result::Err(IdentityNotBound),
        }
    }

    /// Freeze this definition into its immutable runtime form. Fails exactly
    /// when no binding ever assigned an identity; otherwise purely
    /// structural, with no re-validation.
    pub fn freeze(self) -> (r: Result<FrozenTransition, IdentityNotBound>)
        ensures
            (r is Ok) <==> freeze_model(self@) is Some,
            r matches Result::Ok(f) ==> Option::Some(f@) == freeze_model(self@),
    {
        match self.id {
            Option::None => Result::Err(IdentityNotBound),
            Option::Some(id) => Result::Ok(
                FrozenTransition {
                    id,
                    implementation: self.implementation,
                    refs: self.refs,
                    attrs: self.attrs,
                    split: self.split,
                },
            ),
        }
    }
}

impl FrozenTransition {
    /// The transition's identity.
    pub fn id(&self) -> (r: &TransitionId)
        ensures
            r@ == self@.id,
    {
        &self.id
    }

    /// The transition's identity, in the fallible shape shared with the
    /// unfrozen form; always succeeds on a frozen transition.
    pub fn transition_id(&self) -> (r: Result<TransitionId, IdentityNotBound>)
        ensures
            r matches Result::Ok(id) && id@ == self@.id,
    {
        Result::Ok(self.id.clone())
    }

    /// The implementation callable.
    pub fn implementation(&self) -> (r: &Implementation)
        ensures
            r@ == self@.implementation,
    {
        &self.implementation
    }

    /// The resolved named references, in declaration order.
    pub fn refs(&self) -> (r: &Vec<(String, TargetLabel)>)
        ensures
            r.deep_view() == self@.refs,
    {
        &self.refs
    }

    /// The attribute names the implementation may read, if capture was
    /// enabled.
    pub fn attrs(&self) -> (r: &Option<Vec<String>>)
        ensures
            r.deep_view() == self@.attrs,
    {
        &self.attrs
    }

    /// Whether this is a split transition.
    pub fn is_split(&self) -> (r: bool)
        ensures
            r == self@.split,
    {
        self.split
    }
}

/// Binding a bound definition again changes nothing, however many times.
proof fn lemma_bound_unchanged(m: TransitionModel, names: Seq<Seq<char>>)
    requires
        m.id is Some,
    ensures
        export_all(m, names) == m,
    decreases names.len(),
{
    if names.len() > 0 {
        assert(export_model(m, names[0]) == m);
        lemma_bound_unchanged(m, names.drop_first());
    }
}

/// The model of binding a definition to a sequence of names, in order.
pub open spec fn export_all(m: TransitionModel, names: Seq<Seq<char>>) -> TransitionModel
    decreases names.len(),
{
    if names.len() == 0 {
        m
    } else {
        export_all(export_model(m, names[0]), names.drop_first())
    }
}

/// A definition bound to any number of names keeps the identity of the
/// first binding: its identity is the defining path and the first name,
/// whatever bindings follow.
pub proof fn lemma_first_export_wins(m: TransitionModel, names: Seq<Seq<char>>)
    requires
        m.id is None,
        names.len() > 0,
    ensures
        export_all(m, names).id == Option::Some(
            TransitionIdModel { path: m.path, name: names[0] },
        ),
{
    let bound = export_model(m, names[0]);
    assert(bound.id == Option::Some(TransitionIdModel { path: m.path, name: names[0] }));
    lemma_bound_unchanged(bound, names.drop_first());
}

/// Freezing an unbound definition fails; freezing it after binding a name
/// succeeds, and the frozen identity is exactly the bound one.
pub proof fn lemma_freeze_after_binding(m: TransitionModel, name: Seq<char>)
    requires
        m.id is None,
    ensures
        freeze_model(m) is None,
        freeze_model(export_model(m, name)) matches Option::Some(f) && f.id
            == (TransitionIdModel { path: m.path, name }),
{
}

} // verus!
