//! AVM2 namespaces.

use vstd::prelude::*;

verus! {

/// The API version that a public namespace belongs to, by its index in the
/// list of Flash Player and AIR versions.
pub type ApiVersion = u32;

/// An AVM2 namespace: the wildcard namespace `*`, or one of the kinds of
/// namespace that the ABC format knows, each with its URI.
#[derive(Debug, Clone, PartialEq, Eq)]
pub enum Namespace {
    /// The wildcard namespace, which has no URI.
    Any,
    /// A public (package) namespace, with the API version it was made for.
    Namespace(String, ApiVersion),
    PackageInternal(String),
    Protected(String),
    Explicit(String),
    StaticProtected(String),
    Private(String),
}

impl Namespace {
    /// The URI of the namespace, or `None` for the wildcard namespace.
    pub open spec fn uri_opt_spec(self) -> Option<Seq<char>> {
        match self {
            Namespace::Any => None,
            Namespace::Namespace(uri, _) => Some(uri@),
            Namespace::PackageInternal(uri) => Some(uri@),
            Namespace::Protected(uri) => Some(uri@),
            Namespace::Explicit(uri) => Some(uri@),
            Namespace::StaticProtected(uri) => Some(uri@),
            Namespace::Private(uri) => Some(uri@),
        }
    }

    /// The URI of the namespace, the empty string for the wildcard namespace.
    pub open spec fn uri_spec(self) -> Seq<char> {
        match self.uri_opt_spec() {
            Some(uri) => uri,
            None => Seq::empty(),
        }
    }

    /// The wildcard namespace `*`.
    pub fn any() -> (ns: Namespace)
        ensures
            ns == Namespace::Any,
    {
        Namespace::Any
    }

    /// The public namespace of the package `uri`, for the given API version.
    pub fn package(uri: String, api_version: ApiVersion) -> (ns: Namespace)
        ensures
            ns == Namespace::Namespace(uri, api_version),
    {
        Namespace::Namespace(uri, api_version)
    }

    /// The URI of the namespace, or `None` for the wildcard namespace.
    pub fn as_uri_opt(&self) -> (uri: Option<String>)
        ensures
            match uri {
                Some(s) => self.uri_opt_spec() == Some(s@),
                None => self.uri_opt_spec() is None,
            },
            uri is None <==> *self is Any,
    {
        match self {
            Namespace::Any => None,
            Namespace::Namespace(uri, _) => Some(uri.clone()),
            Namespace::PackageInternal(uri) => Some(uri.clone()),
            Namespace::Protected(uri) => Some(uri.clone()),
            Namespace::Explicit(uri) => Some(uri.clone()),
            Namespace::StaticProtected(uri) => Some(uri.clone()),
            Namespace::Private(uri) => Some(uri.clone()),
        }
    }

    /// The URI of the namespace; the wildcard namespace gives the empty string.
    pub fn as_uri(&self) -> (uri: String)
        ensures
            uri@ == self.uri_spec(),
    {
        match self.as_uri_opt() {
            Some(uri) => uri,
            None => String::new(),
        }
    }

    /// A copy of the namespace.
    pub fn duplicate(&self) -> (ns: Namespace)
        ensures
            ns == *self,
    {
        match self {
            Namespace::Any => Namespace::Any,
            Namespace::Namespace(uri, version) => Namespace::Namespace(uri.clone(), *version),
            Namespace::PackageInternal(uri) => Namespace::PackageInternal(uri.clone()),
            Namespace::Protected(uri) => Namespace::Protected(uri.clone()),
            Namespace::Explicit(uri) => Namespace::Explicit(uri.clone()),
            Namespace::StaticProtected(uri) => Namespace::StaticProtected(uri.clone()),
            Namespace::Private(uri) => Namespace::Private(uri.clone()),
        }
    }
}

/// Every kind of namespace but the wildcard carries its URI, and that is
/// the URI it gives; the wildcard alone has none, and gives the empty
/// string.
pub proof fn lemma_uri_of_each_kind(uri: String, version: ApiVersion)
    ensures
        Namespace::Namespace(uri, version).uri_opt_spec() == Some(uri@),
        Namespace::PackageInternal(uri).uri_opt_spec() == Some(uri@),
        Namespace::Protected(uri).uri_opt_spec() == Some(uri@),
        Namespace::Explicit(uri).uri_opt_spec() == Some(uri@),
        Namespace::StaticProtected(uri).uri_opt_spec() == Some(uri@),
        Namespace::Private(uri).uri_opt_spec() == Some(uri@),
        Namespace::Namespace(uri, version).uri_spec() == uri@,
        Namespace::PackageInternal(uri).uri_spec() == uri@,
        Namespace::Protected(uri).uri_spec() == uri@,
        Namespace::Explicit(uri).uri_spec() == uri@,
        Namespace::StaticProtected(uri).uri_spec() == uri@,
        Namespace::Private(uri).uri_spec() == uri@,
        Namespace::Any.uri_opt_spec() is None,
        Namespace::Any.uri_spec() == Seq::<char>::empty(),
{
}

/// Only the wildcard namespace lacks a URI.
pub proof fn lemma_only_any_lacks_uri(ns: Namespace)
    ensures
        ns.uri_opt_spec() is None <==> ns is Any,
{
}

} // verus!
