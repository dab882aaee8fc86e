//! The configured-attribute traversal protocol.
//!
//! Whenever a consumer needs a configured node's dependencies, it drives a
//! visitor over the node's configured attributes, one call per attribute
//! that may reference another entity, in the node's own deterministic
//! order. Edge kinds are opt-in: most consumers care only about "does this
//! node depend on that node" and handle the generic `dep` edge alone; the
//! default behaviour forwards plugin-annotated, execution-platform and
//! toolchain edges to `dep`, and ignores configuration references, plugin
//! instances, query attributes, source inputs and plain label references.
//!
//! Each visitor implementation carries a ghost model: `observed`, the
//! sequence of calls it has accepted so far as it interprets them, and
//! `response`, what one successful call of each kind appends to that
//! sequence. The traversal driver then guarantees exactly which calls a
//! visitor receives, and the default-delegation adapter's model is the
//! dep-projection stated by the protocol.

use vstd::prelude::*;

use crate::labels::ConfiguredProvidersLabel;
use crate::labels::PluginKind;
use crate::labels::PluginKindSet;
use crate::labels::SourcePath;
use crate::labels::TargetLabel;

verus! {

/// One resolved literal of a query attribute: the literal's text and the
/// configured label it resolved to.
#[derive(Debug)]
pub struct QueryLiteral {
    pub text: String,
    pub label: ConfiguredProvidersLabel,
}

impl View for QueryLiteral {
    type V = (Seq<char>, Seq<char>);

    open spec fn view(&self) -> (Seq<char>, Seq<char>) {
        (self.text@, self.label@)
    }
}

impl DeepView for QueryLiteral {
    type V = (Seq<char>, Seq<char>);

    open spec fn deep_view(&self) -> (Seq<char>, Seq<char>) {
        self.view()
    }
}

impl Clone for QueryLiteral {
    fn clone(&self) -> (r: Self)
        ensures
            r@ == self@,
    {
        QueryLiteral { text: self.text.clone(), label: self.label.clone() }
    }
}

/// The query-attribute payload: the query text's resolved literals, each
/// with the configured label it resolved to.
#[derive(Debug)]
pub struct ResolvedQueryLiterals {
    pub literals: Vec<QueryLiteral>,
}

impl View for ResolvedQueryLiterals {
    type V = Seq<(Seq<char>, Seq<char>)>;

    open spec fn view(&self) -> Seq<(Seq<char>, Seq<char>)> {
        self.literals.deep_view()
    }
}

impl DeepView for ResolvedQueryLiterals {
    type V = Seq<(Seq<char>, Seq<char>)>;

    open spec fn deep_view(&self) -> Seq<(Seq<char>, Seq<char>)> {
        self.view()
    }
}

impl Clone for ResolvedQueryLiterals {
    fn clone(&self) -> (r: Self)
        ensures
            r@ == self@,
    {
        let r = ResolvedQueryLiterals { literals: self.literals.clone() };
        proof {
            assert(r@ =~= self@);
        }
        r
    }
}

/// One configured attribute value that references another entity, by the
/// kind of edge it establishes.
#[derive(Debug)]
pub enum ConfiguredAttr {
    /// A generic dependency edge.
    Dep(ConfiguredProvidersLabel),
    /// A dependency annotated with the plugin kinds it must provide.
    DepWithPlugins(ConfiguredProvidersLabel, PluginKindSet),
    /// A dependency resolved under the execution platform's configuration.
    ExecDep(ConfiguredProvidersLabel),
    /// A dependency on a toolchain instance.
    ToolchainDep(ConfiguredProvidersLabel),
    /// A reference that affects configuration resolution but is not a build
    /// dependency.
    ConfigurationDep(TargetLabel),
    /// A dependency realized as a named plugin instance.
    PluginDep(TargetLabel, PluginKind),
    /// A query expression attribute with its resolved literals.
    Query(String, ResolvedQueryLiterals),
    /// A reference to a source file.
    Input(SourcePath),
    /// A label referenced without establishing a dependency edge.
    Label(ConfiguredProvidersLabel),
}

/// Ghost model of a [`ConfiguredAttr`], and of one visitor call.
pub enum AttrModel {
    Dep(Seq<char>),
    DepWithPlugins(Seq<char>, Seq<Seq<char>>),
    ExecDep(Seq<char>),
    ToolchainDep(Seq<char>),
    ConfigurationDep(Seq<char>),
    PluginDep(Seq<char>, Seq<char>),
    Query(Seq<char>, Seq<(Seq<char>, Seq<char>)>),
    Input(Seq<char>),
    Label(Seq<char>),
}

impl View for ConfiguredAttr {
    type V = AttrModel;

    open spec fn view(&self) -> AttrModel {
        match self {
            ConfiguredAttr::Dep(l) => AttrModel::Dep(l@),
            ConfiguredAttr::DepWithPlugins(l, ks) => AttrModel::DepWithPlugins(l@, ks@),
            ConfiguredAttr::ExecDep(l) => AttrModel::ExecDep(l@),
            ConfiguredAttr::ToolchainDep(l) => AttrModel::ToolchainDep(l@),
            ConfiguredAttr::ConfigurationDep(l) => AttrModel::ConfigurationDep(l@),
            ConfiguredAttr::PluginDep(l, k) => AttrModel::PluginDep(l@, k@),
            ConfiguredAttr::Query(q, ls) => AttrModel::Query(q@, ls@),
            ConfiguredAttr::Input(p) => AttrModel::Input(p@),
            ConfiguredAttr::Label(l) => AttrModel::Label(l@),
        }
    }
}

impl DeepView for ConfiguredAttr {
    type V = AttrModel;

    open spec fn deep_view(&self) -> AttrModel {
        self.view()
    }
}

impl Clone for ConfiguredAttr {
    fn clone(&self) -> (r: Self)
        ensures
            r@ == self@,
    {
        match self {
            ConfiguredAttr::Dep(l) => ConfiguredAttr::Dep(l.clone()),
            ConfiguredAttr::DepWithPlugins(l, ks) => ConfiguredAttr::DepWithPlugins(
                l.clone(),
                ks.clone(),
            ),
            ConfiguredAttr::ExecDep(l) => ConfiguredAttr::ExecDep(l.clone()),
            ConfiguredAttr::ToolchainDep(l) => ConfiguredAttr::ToolchainDep(l.clone()),
            ConfiguredAttr::ConfigurationDep(l) => ConfiguredAttr::ConfigurationDep(l.clone()),
            ConfiguredAttr::PluginDep(l, k) => ConfiguredAttr::PluginDep(l.clone(), k.clone()),
            ConfiguredAttr::Query(q, ls) => ConfiguredAttr::Query(q.clone(), ls.clone()),
            ConfiguredAttr::Input(p) => ConfiguredAttr::Input(p.clone()),
            ConfiguredAttr::Label(l) => ConfiguredAttr::Label(l.clone()),
        }
    }
}

/// A configured node, reduced to the attribute values a traversal visits,
/// in the node's own deterministic order.
#[derive(Debug)]
pub struct ConfiguredNode {
    pub attrs: Vec<ConfiguredAttr>,
}

impl View for ConfiguredNode {
    type V = Seq<AttrModel>;

    open spec fn view(&self) -> Seq<AttrModel> {
        self.attrs.deep_view()
    }
}

/// A visitor-reported failure; opaque to the protocol, which only
/// propagates the first one and stops.
#[derive(Debug)]
pub struct TraversalError {
    pub message: String,
}

impl View for TraversalError {
    type V = Seq<char>;

    open spec fn view(&self) -> Seq<char> {
        self.message@
    }
}

/// The per-call consumer protocol of a traversal pass.
///
/// `observed` is the implementation's own model of the calls it has
/// accepted; `response` fixes, per call kind, what one accepted call
/// appends to it. A call that fails leaves the model unchanged and aborts
/// the pass.
pub trait ConfiguredAttrTraversal: Sized {
    /// The calls this visitor has accepted, as this visitor interprets
    /// them.
    spec fn observed(&self) -> Seq<AttrModel>;

    /// What one accepted call appends to `observed`.
    spec fn response(call: AttrModel) -> Seq<AttrModel>;

    /// A generic dependency edge.
    fn dep(&mut self, dep: &ConfiguredProvidersLabel) -> (r: Result<(), TraversalError>)
        ensures
            r is Ok ==> final(self).observed() == old(self).observed() + Self::response(
                AttrModel::Dep(dep@),
            ),
            r is Err ==> final(self).observed() == old(self).observed(),
    ;

    /// A dependency edge annotated with required plugin kinds.
    fn dep_with_plugins(
        &mut self,
        dep: &ConfiguredProvidersLabel,
        plugins: &PluginKindSet,
    ) -> (r: Result<(), TraversalError>)
        ensures
            r is Ok ==> final(self).observed() == old(self).observed() + Self::response(
                AttrModel::DepWithPlugins(dep@, plugins@),
            ),
            r is Err ==> final(self).observed() == old(self).observed(),
    ;

    /// A dependency resolved under the execution platform's configuration.
    fn exec_dep(&mut self, dep: &ConfiguredProvidersLabel) -> (r: Result<(), TraversalError>)
        ensures
            r is Ok ==> final(self).observed() == old(self).observed() + Self::response(
                AttrModel::ExecDep(dep@),
            ),
            r is Err ==> final(self).observed() == old(self).observed(),
    ;

    /// A dependency on a toolchain instance.
    fn toolchain_dep(&mut self, dep: &ConfiguredProvidersLabel) -> (r: Result<(), TraversalError>)
        ensures
            r is Ok ==> final(self).observed() == old(self).observed() + Self::response(
                AttrModel::ToolchainDep(dep@),
            ),
            r is Err ==> final(self).observed() == old(self).observed(),
    ;

    /// A reference that affects configuration resolution only.
    fn configuration_dep(&mut self, dep: &TargetLabel) -> (r: Result<(), TraversalError>)
        ensures
            r is Ok ==> final(self).observed() == old(self).observed() + Self::response(
                AttrModel::ConfigurationDep(dep@),
            ),
            r is Err ==> final(self).observed() == old(self).observed(),
    ;

    /// A dependency realized as a named plugin instance.
    fn plugin_dep(&mut self, dep: &TargetLabel, kind: &PluginKind) -> (r: Result<
        (),
        TraversalError,
    >)
        ensures
            r is Ok ==> final(self).observed() == old(self).observed() + Self::response(
                AttrModel::PluginDep(dep@, kind@),
            ),
            r is Err ==> final(self).observed() == old(self).observed(),
    ;

    /// A query expression attribute with its resolved literals.
    fn query(&mut self, query: &str, resolved_literals: &ResolvedQueryLiterals) -> (r: Result<
        (),
        TraversalError,
    >)
        ensures
            r is Ok ==> final(self).observed() == old(self).observed() + Self::response(
                AttrModel::Query(query@, resolved_literals@),
            ),
            r is Err ==> final(self).observed() == old(self).observed(),
    ;

    /// A reference to a source file.
    fn input(&mut self, path: &SourcePath) -> (r: Result<(), TraversalError>)
        ensures
            r is Ok ==> final(self).observed() == old(self).observed() + Self::response(
                AttrModel::Input(path@),
            ),
            r is Err ==> final(self).observed() == old(self).observed(),
    ;

    /// A label referenced without establishing a dependency edge.
    fn label(&mut self, label: &ConfiguredProvidersLabel) -> (r: Result<(), TraversalError>)
        ensures
            r is Ok ==> final(self).observed() == old(self).observed() + Self::response(
                AttrModel::Label(label@),
            ),
            r is Err ==> final(self).observed() == old(self).observed(),
    ;
}

/// What a visitor of type `V` observes over a whole sequence of calls.
pub open spec fn responses<V: ConfiguredAttrTraversal>(calls: Seq<AttrModel>) -> Seq<AttrModel>
    decreases calls.len(),
{
    if calls.len() == 0 {
        Seq::empty()
    } else {
        V::response(calls[0]) + responses::<V>(calls.drop_first())
    }
}

/// Appending one call to a sequence appends its response to the observation.
proof fn lemma_responses_push<V: ConfiguredAttrTraversal>(calls: Seq<AttrModel>, call: AttrModel)
    ensures
        responses::<V>(calls.push(call)) == responses::<V>(calls) + V::response(call),
    decreases calls.len(),
{
    if calls.len() == 0 {
        assert(calls.push(call)[0] == call);
        assert(calls.push(call).drop_first() =~= Seq::<AttrModel>::empty());
        assert(responses::<V>(calls.push(call).drop_first()) == Seq::<AttrModel>::empty());
        assert(responses::<V>(calls.push(call)) == V::response(call) + Seq::<AttrModel>::empty());
        assert(V::response(call) + Seq::<AttrModel>::empty() =~= V::response(call));
        assert(responses::<V>(calls) + V::response(call) =~= V::response(call));
    } else {
        assert(calls.push(call).drop_first() =~= calls.drop_first().push(call));
        assert(calls.push(call)[0] == calls[0]);
        lemma_responses_push::<V>(calls.drop_first(), call);
        assert(responses::<V>(calls.push(call)) == V::response(calls[0]) + (responses::<V>(
            calls.drop_first(),
        ) + V::response(call)));
        assert(V::response(calls[0]) + (responses::<V>(calls.drop_first()) + V::response(call))
            =~= (V::response(calls[0]) + responses::<V>(calls.drop_first())) + V::response(call));
    }
}

/// After a failed pass, the visitor has observed some strict prefix of the
/// node's attributes, as interpreted by its own `response`.
pub open spec fn observed_prefix<V: ConfiguredAttrTraversal>(
    node: Seq<AttrModel>,
    before: Seq<AttrModel>,
    after: Seq<AttrModel>,
) -> bool {
    exists|k: int| 0 <= k < node.len() && after == before + responses::<V>(node.take(k))
}

/// Drive a visitor over a configured node's attributes, in the node's own
/// order, one call per attribute, stopping at the first failure.
///
/// On success the visitor has observed exactly the node's attribute
/// sequence, as interpreted by its own `response`; on failure it has
/// observed some strict prefix of it, the failing call having observed
/// nothing, and the first error is returned.
#[verifier::loop_isolation(false)]
pub fn traverse_configured_attrs<V: ConfiguredAttrTraversal>(
    node: &ConfiguredNode,
    visitor: &mut V,
) -> (r: Result<(), TraversalError>)
    ensures
        r is Ok ==> final(visitor).observed() == old(visitor).observed() + responses::<V>(node@),
        r is Err ==> observed_prefix::<V>(
            node@,
            old(visitor).observed(),
            final(visitor).observed(),
        ),
{
    let ghost orig = visitor.observed();
    let mut i: usize = 0;
    while i < node.attrs.len()
        invariant
            i <= node.attrs.len(),
            visitor.observed() == orig + responses::<V>(node@.take(i as int)),
        decreases node.attrs.len() - i,
    {
        let ghost before = node@.take(i as int);
        let outcome = match &node.attrs[i] {
            ConfiguredAttr::Dep(l) => visitor.dep(l),
            ConfiguredAttr::DepWithPlugins(l, ks) => visitor.dep_with_plugins(l, ks),
            ConfiguredAttr::ExecDep(l) => visitor.exec_dep(l),
            ConfiguredAttr::ToolchainDep(l) => visitor.toolchain_dep(l),
            ConfiguredAttr::ConfigurationDep(l) => visitor.configuration_dep(l),
            ConfiguredAttr::PluginDep(l, k) => visitor.plugin_dep(l, k),
            ConfiguredAttr::Query(q, ls) => visitor.query(q.as_str(), ls),
            ConfiguredAttr::Input(p) => visitor.input(p),
            ConfiguredAttr::Label(l) => visitor.label(l),
        };
        match outcome {
            Result::Ok(()) => {
                proof {
                    lemma_responses_push::<V>(before, node@[i as int]);
                    assert(node@.take(i as int + 1) =~= before.push(node@[i as int]));
                    assert(visitor.observed() == orig + responses::<V>(node@.take(i as int + 1)));
                }
            },
            Result::Err(e) => {
                proof {
                    let k = i as int;
                    assert(0 <= k < node@.len() && visitor.observed() == orig + responses::<V>(
                        node@.take(k),
                    ));
                    assert(observed_prefix::<V>(node@, orig, visitor.observed()));
                }
                return Result::Err(e);
            },
        }
        i += 1;
    }
    proof {
        assert(node@.take(node@.len() as int) =~= node@);
    }
    Result::Ok(())
}

/// The consumer side of the default behaviour: a visitor that handles only
/// the generic dependency edge. `seen` is the labels of the edges it has
/// accepted.
pub trait DepTraversal: Sized {
    /// The labels of the generic dependency edges this visitor has
    /// accepted.
    spec fn seen(&self) -> Seq<Seq<char>>;

    /// Accept one generic dependency edge.
    fn dep(&mut self, dep: &ConfiguredProvidersLabel) -> (r: Result<(), TraversalError>)
        ensures
            r is Ok ==> final(self).seen() == old(self).seen().push(dep@),
            r is Err ==> final(self).seen() == old(self).seen(),
    ;
}

/// What a dep-only visitor observes for one call, under the protocol's
/// default behaviour: plugin-annotated, execution-platform and toolchain
/// dependencies are forwarded to `dep` with the same label; configuration
/// references, plugin instances, query attributes, source inputs and plain
/// labels are ignored.
pub open spec fn default_response(call: AttrModel) -> Seq<AttrModel> {
    match call {
        AttrModel::Dep(l) => seq![AttrModel::Dep(l)],
        AttrModel::DepWithPlugins(l, _) => seq![AttrModel::Dep(l)],
        AttrModel::ExecDep(l) => seq![AttrModel::Dep(l)],
        AttrModel::ToolchainDep(l) => seq![AttrModel::Dep(l)],
        AttrModel::ConfigurationDep(_) => Seq::empty(),
        AttrModel::PluginDep(_, _) => Seq::empty(),
        AttrModel::Query(_, _) => Seq::empty(),
        AttrModel::Input(_) => Seq::empty(),
        AttrModel::Label(_) => Seq::empty(),
    }
}

/// [`default_response`] over a whole sequence of calls.
pub open spec fn default_responses(calls: Seq<AttrModel>) -> Seq<AttrModel>
    decreases calls.len(),
{
    if calls.len() == 0 {
        Seq::empty()
    } else {
        default_response(calls[0]) + default_responses(calls.drop_first())
    }
}

/// The adapter that gives a dep-only visitor the protocol's default
/// behaviour for every other edge kind.
#[derive(Debug)]
pub struct DefaultDelegation<V> {
    pub inner: V,
}

impl<V: DepTraversal> DefaultDelegation<V> {
    /// Wrap a dep-only visitor.
    pub fn new(inner: V) -> (r: Self)
        ensures
            r.inner == inner,
    {
        DefaultDelegation { inner }
    }

    /// Unwrap the visitor after a pass.
    pub fn into_inner(self) -> (r: V)
        ensures
            r == self.inner,
    {
        self.inner
    }
}

impl<V: DepTraversal> ConfiguredAttrTraversal for DefaultDelegation<V> {
    /// The calls the inner visitor accepted, each of which it saw as a
    /// generic dependency edge.
    open spec fn observed(&self) -> Seq<AttrModel> {
        self.inner.seen().map_values(|l: Seq<char>| AttrModel::Dep(l))
    }

    open spec fn response(call: AttrModel) -> Seq<AttrModel> {
        default_response(call)
    }

    fn dep(&mut self, dep: &ConfiguredProvidersLabel) -> (r: Result<(), TraversalError>) {
        let r = self.inner.dep(dep);
        proof {
            if r is Ok {
                assert(self.observed() =~= old(self).observed() + Self::response(
                    AttrModel::Dep(dep@),
                ));
            }
        }
        r
    }

    fn dep_with_plugins(
        &mut self,
        dep: &ConfiguredProvidersLabel,
        plugins: &PluginKindSet,
    ) -> (r: Result<(), TraversalError>) {
        let r = self.inner.dep(dep);
        proof {
            if r is Ok {
                assert(self.observed() =~= old(self).observed() + Self::response(
                    AttrModel::DepWithPlugins(dep@, plugins@),
                ));
            }
        }
        r
    }

    fn exec_dep(&mut self, dep: &ConfiguredProvidersLabel) -> (r: Result<(), TraversalError>) {
        let r = self.inner.dep(dep);
        proof {
            if r is Ok {
                assert(self.observed() =~= old(self).observed() + Self::response(
                    AttrModel::ExecDep(dep@),
                ));
            }
        }
        r
    }

    fn toolchain_dep(&mut self, dep: &ConfiguredProvidersLabel) -> (r: Result<(), TraversalError>) {
        let r = self.inner.dep(dep);
        proof {
            if r is Ok {
                assert(self.observed() =~= old(self).observed() + Self::response(
                    AttrModel::ToolchainDep(dep@),
                ));
            }
        }
        r
    }

    fn configuration_dep(&mut self, dep: &TargetLabel) -> (r: Result<(), TraversalError>)
        ensures
            r is Ok,
    {
        proof {
            assert(self.observed() =~= self.observed() + Self::response(
                AttrModel::ConfigurationDep(dep@),
            ));
        }
        Result::Ok(())
    }

    fn plugin_dep(&mut self, dep: &TargetLabel, kind: &PluginKind) -> (r: Result<
        (),
        TraversalError,
    >)
        ensures
            r is Ok,
    {
        proof {
            assert(self.observed() =~= self.observed() + Self::response(
                AttrModel::PluginDep(dep@, kind@),
            ));
        }
        Result::Ok(())
    }

    fn query(&mut self, query: &str, resolved_literals: &ResolvedQueryLiterals) -> (r: Result<
        (),
        TraversalError,
    >)
        ensures
            r is Ok,
    {
        proof {
            assert(self.observed() =~= self.observed() + Self::response(
                AttrModel::Query(query@, resolved_literals@),
            ));
        }
        Result::Ok(())
    }

    fn input(&mut self, path: &SourcePath) -> (r: Result<(), TraversalError>)
        ensures
            r is Ok,
    {
        proof {
            assert(self.observed() =~= self.observed() + Self::response(AttrModel::Input(path@)));
        }
        Result::Ok(())
    }

    fn label(&mut self, label: &ConfiguredProvidersLabel) -> (r: Result<(), TraversalError>) {
        proof {
            assert(self.observed() =~= self.observed() + Self::response(AttrModel::Label(label@)));
        }
        Result::Ok(())
    }
}

/// Behind the default delegation, a whole pass is observed exactly as its
/// default projection.
pub proof fn lemma_delegation_responses<V: DepTraversal>(calls: Seq<AttrModel>)
    ensures
        responses::<DefaultDelegation<V>>(calls) == default_responses(calls),
    decreases calls.len(),
{
    if calls.len() > 0 {
        lemma_delegation_responses::<V>(calls.drop_first());
    }
}

/// The labels a dep-only visitor is handed over a sequence of calls: one
/// per generic, plugin-annotated, execution-platform and toolchain
/// dependency, with that edge's own label, and none for the other kinds.
pub open spec fn dep_labels(calls: Seq<AttrModel>) -> Seq<Seq<char>>
    decreases calls.len(),
{
    if calls.len() == 0 {
        Seq::empty()
    } else {
        let rest = dep_labels(calls.drop_first());
        match calls[0] {
            AttrModel::Dep(l) => seq![l] + rest,
            AttrModel::DepWithPlugins(l, _) => seq![l] + rest,
            AttrModel::ExecDep(l) => seq![l] + rest,
            AttrModel::ToolchainDep(l) => seq![l] + rest,
            _ => rest,
        }
    }
}

/// Default delegation observes precisely the dependency labels of the
/// visited attributes: each generic, plugin-annotated, execution-platform
/// and toolchain dependency arrives at the dep-only visitor as a generic
/// edge with the same label, and configuration references, plugin
/// instances, query attributes, source inputs and plain labels never
/// arrive.
pub proof fn lemma_default_delegation_observes_deps(calls: Seq<AttrModel>)
    ensures
        default_responses(calls) == dep_labels(calls).map_values(
            |l: Seq<char>| AttrModel::Dep(l),
        ),
    decreases calls.len(),
{
    if calls.len() == 0 {
        assert(default_responses(calls) =~= dep_labels(calls).map_values(
            |l: Seq<char>| AttrModel::Dep(l),
        ));
    } else {
        lemma_default_delegation_observes_deps(calls.drop_first());
        assert(default_responses(calls) =~= dep_labels(calls).map_values(
            |l: Seq<char>| AttrModel::Dep(l),
        ));
    }
}

/// Traversal is repeatable: the calls a traversal makes are a function of
/// the node alone, so two passes over the same node with two fresh visitors
/// of the same kind observe identical sequences, in content and order.
pub proof fn lemma_traversal_repeatable<V: ConfiguredAttrTraversal>(
    node: Seq<AttrModel>,
    first_pass: Seq<AttrModel>,
    second_pass: Seq<AttrModel>,
)
    requires
        first_pass == responses::<V>(node),
        second_pass == responses::<V>(node),
    ensures
        first_pass == second_pass,
{
}

/// A dep-only visitor that records the labels it is handed, in order.
#[derive(Debug)]
pub struct DepRecorder {
    pub labels: Vec<ConfiguredProvidersLabel>,
}

impl DepRecorder {
    /// A fresh recorder with nothing seen.
    pub fn new() -> (r: Self)
        ensures
            r.seen() == Seq::<Seq<char>>::empty(),
    {
        let r = DepRecorder { labels: Vec::new() };
        proof {
            assert(r.seen() =~= Seq::<Seq<char>>::empty());
        }
        r
    }
}

impl DepTraversal for DepRecorder {
    open spec fn seen(&self) -> Seq<Seq<char>> {
        self.labels.deep_view()
    }

    fn dep(&mut self, dep: &ConfiguredProvidersLabel) -> (r: Result<(), TraversalError>)
        ensures
            r is Ok,
    {
        self.labels.push(dep.clone());
        proof {
            assert(self.seen() =~= old(self).seen().push(dep@));
        }
        Result::Ok(())
    }
}

/// A dep-only visitor that accepts a fixed number of edges and then fails
/// the pass, for exercising the first-error-wins abort.
#[derive(Debug)]
pub struct LimitedVisitor {
    pub capacity: usize,
    pub accepted: Vec<ConfiguredProvidersLabel>,
}

impl LimitedVisitor {
    /// A visitor that will accept `capacity` edges.
    pub fn new(capacity: usize) -> (r: Self)
        ensures
            r.seen() == Seq::<Seq<char>>::empty(),
            r.capacity == capacity,
    {
        let r = LimitedVisitor { capacity, accepted: Vec::new() };
        proof {
            assert(r.seen() =~= Seq::<Seq<char>>::empty());
        }
        r
    }
}

impl DepTraversal for LimitedVisitor {
    open spec fn seen(&self) -> Seq<Seq<char>> {
        self.accepted.deep_view()
    }

    fn dep(&mut self, dep: &ConfiguredProvidersLabel) -> (r: Result<(), TraversalError>)
        ensures
            r is Ok <==> old(self).accepted@.len() < old(self).capacity,
    {
        if self.accepted.len() < self.capacity {
            self.accepted.push(dep.clone());
            proof {
                assert(self.seen() =~= old(self).seen().push(dep@));
            }
            Result::Ok(())
        } else {
            Result::Err(TraversalError { message: String::from_str("visitor refused the edge") })
        }
    }
}

/// A visitor that records every call it receives, unchanged: its
/// observation is the call sequence itself.
#[derive(Debug)]
pub struct CallRecorder {
    pub calls: Vec<ConfiguredAttr>,
}

impl CallRecorder {
    /// A fresh recorder with nothing observed.
    pub fn new() -> (r: Self)
        ensures
            r.observed() == Seq::<AttrModel>::empty(),
    {
        let r = CallRecorder { calls: Vec::new() };
        proof {
            assert(r.observed() =~= Seq::<AttrModel>::empty());
        }
        r
    }
}

impl ConfiguredAttrTraversal for CallRecorder {
    open spec fn observed(&self) -> Seq<AttrModel> {
        self.calls.deep_view()
    }

    open spec fn response(call: AttrModel) -> Seq<AttrModel> {
        seq![call]
    }

    fn dep(&mut self, dep: &ConfiguredProvidersLabel) -> (r: Result<(), TraversalError>)
        ensures
            r is Ok,
    {
        self.calls.push(ConfiguredAttr::Dep(dep.clone()));
        proof {
            assert(self.observed() =~= old(self).observed() + seq![AttrModel::Dep(dep@)]);
        }
        Result::Ok(())
    }

    fn dep_with_plugins(
        &mut self,
        dep: &ConfiguredProvidersLabel,
        plugins: &PluginKindSet,
    ) -> (r: Result<(), TraversalError>)
        ensures
            r is Ok,
    {
        self.calls.push(ConfiguredAttr::DepWithPlugins(dep.clone(), plugins.clone()));
        proof {
            assert(self.observed() =~= old(self).observed() + seq![
                AttrModel::DepWithPlugins(dep@, plugins@),
            ]);
        }
        Result::Ok(())
    }

    fn exec_dep(&mut self, dep: &ConfiguredProvidersLabel) -> (r: Result<(), TraversalError>)
        ensures
            r is Ok,
    {
        self.calls.push(ConfiguredAttr::ExecDep(dep.clone()));
        proof {
            assert(self.observed() =~= old(self).observed() + seq![AttrModel::ExecDep(dep@)]);
        }
        Result::Ok(())
    }

    fn toolchain_dep(&mut self, dep: &ConfiguredProvidersLabel) -> (r: Result<(), TraversalError>)
        ensures
            r is Ok,
    {
        self.calls.push(ConfiguredAttr::ToolchainDep(dep.clone()));
        proof {
            assert(self.observed() =~= old(self).observed() + seq![AttrModel::ToolchainDep(dep@)]);
        }
        Result::Ok(())
    }

    fn configuration_dep(&mut self, dep: &TargetLabel) -> (r: Result<(), TraversalError>)
        ensures
            r is Ok,
    {
        self.calls.push(ConfiguredAttr::ConfigurationDep(dep.clone()));
        proof {
            assert(self.observed() =~= old(self).observed() + seq![
                AttrModel::ConfigurationDep(dep@),
            ]);
        }
        Result::Ok(())
    }

    fn plugin_dep(&mut self, dep: &TargetLabel, kind: &PluginKind) -> (r: Result<
        (),
        TraversalError,
    >)
        ensures
            r is Ok,
    {
        self.calls.push(ConfiguredAttr::PluginDep(dep.clone(), kind.clone()));
        proof {
            assert(self.observed() =~= old(self).observed() + seq![
                AttrModel::PluginDep(dep@, kind@),
            ]);
        }
        Result::Ok(())
    }

    fn query(&mut self, query: &str, resolved_literals: &ResolvedQueryLiterals) -> (r: Result<
        (),
        TraversalError,
    >)
        ensures
            r is Ok,
    {
        self.calls.push(ConfiguredAttr::Query(query.to_owned(), resolved_literals.clone()));
        proof {
            assert(self.observed() =~= old(self).observed() + seq![
                AttrModel::Query(query@, resolved_literals@),
            ]);
        }
        Result::Ok(())
    }

    fn input(&mut self, path: &SourcePath) -> (r: Result<(), TraversalError>)
        ensures
            r is Ok,
    {
        self.calls.push(ConfiguredAttr::Input(path.clone()));
        proof {
            assert(self.observed() =~= old(self).observed() + seq![AttrModel::Input(path@)]);
        }
        Result::Ok(())
    }

    fn label(&mut self, label: &ConfiguredProvidersLabel) -> (r: Result<(), TraversalError>)
        ensures
            r is Ok,
    {
        self.calls.push(ConfiguredAttr::Label(label.clone()));
        proof {
            assert(self.observed() =~= old(self).observed() + seq![AttrModel::Label(label@)]);
        }
        Result::Ok(())
    }
}

} // verus!
