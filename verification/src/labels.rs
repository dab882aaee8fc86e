//! Plain-value models of the identity types the transition and traversal
//! machinery carries around: target labels, configured provider labels,
//! plugin kinds, source paths and the path of a definition file. The
//! machinery never looks inside these values; it only stores, copies and
//! compares them, so each is modelled as the text that identifies it.

use vstd::prelude::*;

verus! {

/// An unconfigured target label (`cell//package:name`).
#[derive(Debug)]
pub struct TargetLabel {
    pub text: String,
}

impl View for TargetLabel {
    type V = Seq<char>;

    open spec fn view(&self) -> Seq<char> {
        self.text@
    }
}

impl DeepView for TargetLabel {
    type V = Seq<char>;

    open spec fn deep_view(&self) -> Seq<char> {
        self.text@
    }
}

impl Clone for TargetLabel {
    fn clone(&self) -> (r: Self)
        ensures
            r@ == self@,
    {
        TargetLabel { text: self.text.clone() }
    }
}

/// A configuration-bound provider label: the address of a dependency edge's
/// far end, providers included.
#[derive(Debug)]
pub struct ConfiguredProvidersLabel {
    pub text: String,
}

impl View for ConfiguredProvidersLabel {
    type V = Seq<char>;

    open spec fn view(&self) -> Seq<char> {
        self.text@
    }
}

impl DeepView for ConfiguredProvidersLabel {
    type V = Seq<char>;

    open spec fn deep_view(&self) -> Seq<char> {
        self.text@
    }
}

impl Clone for ConfiguredProvidersLabel {
    fn clone(&self) -> (r: Self)
        ensures
            r@ == self@,
    {
        ConfiguredProvidersLabel { text: self.text.clone() }
    }
}

/// The path of the definition file in which a transition is declared.
#[derive(Debug)]
pub struct ImportPath {
    pub path: String,
}

impl View for ImportPath {
    type V = Seq<char>;

    open spec fn view(&self) -> Seq<char> {
        self.path@
    }
}

impl DeepView for ImportPath {
    type V = Seq<char>;

    open spec fn deep_view(&self) -> Seq<char> {
        self.path@
    }
}

impl Clone for ImportPath {
    fn clone(&self) -> (r: Self)
        ensures
            r@ == self@,
    {
        ImportPath { path: self.path.clone() }
    }
}

/// A kind of plugin a dependency can provide.
#[derive(Debug)]
pub struct PluginKind {
    pub name: String,
}

impl View for PluginKind {
    type V = Seq<char>;

    open spec fn view(&self) -> Seq<char> {
        self.name@
    }
}

impl DeepView for PluginKind {
    type V = Seq<char>;

    open spec fn deep_view(&self) -> Seq<char> {
        self.name@
    }
}

impl Clone for PluginKind {
    fn clone(&self) -> (r: Self)
        ensures
            r@ == self@,
    {
        PluginKind { name: self.name.clone() }
    }
}

/// The set of plugin kinds a dependency edge must provide, in the order they
/// were declared.
#[derive(Debug)]
pub struct PluginKindSet {
    pub kinds: Vec<PluginKind>,
}

impl View for PluginKindSet {
    type V = Seq<Seq<char>>;

    open spec fn view(&self) -> Seq<Seq<char>> {
        self.kinds.deep_view()
    }
}

impl DeepView for PluginKindSet {
    type V = Seq<Seq<char>>;

    open spec fn deep_view(&self) -> Seq<Seq<char>> {
        self.kinds.deep_view()
    }
}

impl Clone for PluginKindSet {
    fn clone(&self) -> (r: Self)
        ensures
            r@ == self@,
    {
        let r = PluginKindSet { kinds: self.kinds.clone() };
        proof {
            assert(r@ =~= self@);
        }
        r
    }
}

/// A reference to a source file within the project.
#[derive(Debug)]
pub struct SourcePath {
    pub path: String,
}

impl View for SourcePath {
    type V = Seq<char>;

    open spec fn view(&self) -> Seq<char> {
        self.path@
    }
}

impl DeepView for SourcePath {
    type V = Seq<char>;

    open spec fn deep_view(&self) -> Seq<char> {
        self.path@
    }
}

impl Clone for SourcePath {
    fn clone(&self) -> (r: Self)
        ensures
            r@ == self@,
    {
        SourcePath { path: self.path.clone() }
    }
}

} // verus!
