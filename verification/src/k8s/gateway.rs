//! Routes of the Gateway API.

use vstd::prelude::*;

use crate::k8s::meta::{ObjectMeta, ObjectMetaView};

verus! {

/// How a path of a route is matched.
#[derive(Clone, Copy, Debug, PartialEq, Eq, Structural)]
pub enum HTTPRouteRulesMatchesPathType {
    Exact,
    PathPrefix,
    RegularExpression,
}

/// The Gateway that a route hangs on.
#[derive(Debug, PartialEq)]
pub struct HTTPRouteParentRefs {
    pub group: Option<String>,
    pub kind: Option<String>,
    pub namespace: Option<String>,
    pub name: String,
}

/// What [`HTTPRouteParentRefs`] holds.
#[verifier::ext_equal]
pub struct HTTPRouteParentRefsView {
    pub group: Option<Seq<char>>,
    pub kind: Option<Seq<char>>,
    pub namespace: Option<Seq<char>>,
    pub name: Seq<char>,
}

impl DeepView for HTTPRouteParentRefs {
    type V = HTTPRouteParentRefsView;

    open spec fn deep_view(&self) -> HTTPRouteParentRefsView {
        HTTPRouteParentRefsView {
            group: self.group.deep_view(),
            kind: self.kind.deep_view(),
            namespace: self.namespace.deep_view(),
            name: self.name@,
        }
    }
}

impl HTTPRouteParentRefsView {
    /// Every field empty or absent.
    pub open spec fn blank() -> HTTPRouteParentRefsView {
        HTTPRouteParentRefsView {
            group: None,
            kind: None,
            namespace: None,
            name: Seq::empty(),
        }
    }
}

impl Default for HTTPRouteParentRefs {
    fn default() -> (r: HTTPRouteParentRefs)
        ensures
            r.deep_view() == HTTPRouteParentRefsView::blank(),
    {
        HTTPRouteParentRefs {
            group: None,
            kind: None,
            namespace: None,
            name: String::new(),
        }
    }
}

/// The path that a rule matches.
#[derive(Debug, PartialEq)]
pub struct HTTPRouteRulesMatchesPath {
    pub type_: Option<HTTPRouteRulesMatchesPathType>,
    pub value: Option<String>,
}

/// What [`HTTPRouteRulesMatchesPath`] holds.
#[verifier::ext_equal]
pub struct HTTPRouteRulesMatchesPathView {
    pub type_: Option<HTTPRouteRulesMatchesPathType>,
    pub value: Option<Seq<char>>,
}

impl DeepView for HTTPRouteRulesMatchesPath {
    type V = HTTPRouteRulesMatchesPathView;

    open spec fn deep_view(&self) -> HTTPRouteRulesMatchesPathView {
        HTTPRouteRulesMatchesPathView {
            type_: self.type_,
            value: self.value.deep_view(),
        }
    }
}

impl HTTPRouteRulesMatchesPathView {
    /// Every field empty or absent.
    pub open spec fn blank() -> HTTPRouteRulesMatchesPathView {
        HTTPRouteRulesMatchesPathView {
            type_: None,
            value: None,
        }
    }
}

impl Default for HTTPRouteRulesMatchesPath {
    fn default() -> (r: HTTPRouteRulesMatchesPath)
        ensures
            r.deep_view() == HTTPRouteRulesMatchesPathView::blank(),
    {
        HTTPRouteRulesMatchesPath {
            type_: None,
            value: None,
        }
    }
}

/// What a rule matches.
#[derive(Debug, PartialEq)]
pub struct HTTPRouteRulesMatches {
    pub path: Option<HTTPRouteRulesMatchesPath>,
}

/// What [`HTTPRouteRulesMatches`] holds.
#[verifier::ext_equal]
pub struct HTTPRouteRulesMatchesView {
    pub path: Option<HTTPRouteRulesMatchesPathView>,
}

impl DeepView for HTTPRouteRulesMatches {
    type V = HTTPRouteRulesMatchesView;

    open spec fn deep_view(&self) -> HTTPRouteRulesMatchesView {
        HTTPRouteRulesMatchesView {
            path: self.path.deep_view(),
        }
    }
}

impl HTTPRouteRulesMatchesView {
    /// Every field empty or absent.
    pub open spec fn blank() -> HTTPRouteRulesMatchesView {
        HTTPRouteRulesMatchesView {
            path: None,
        }
    }
}

impl Default for HTTPRouteRulesMatches {
    fn default() -> (r: HTTPRouteRulesMatches)
        ensures
            r.deep_view() == HTTPRouteRulesMatchesView::blank(),
    {
        HTTPRouteRulesMatches {
            path: None,
        }
    }
}

/// What stands behind a rule.
#[derive(Debug, PartialEq)]
pub struct HTTPRouteRulesBackendRefs {
    pub name: String,
    pub port: Option<i32>,
    pub kind: Option<String>,
}

/// What [`HTTPRouteRulesBackendRefs`] holds.
#[verifier::ext_equal]
pub struct HTTPRouteRulesBackendRefsView {
    pub name: Seq<char>,
    pub port: Option<i32>,
    pub kind: Option<Seq<char>>,
}

impl DeepView for HTTPRouteRulesBackendRefs {
    type V = HTTPRouteRulesBackendRefsView;

    open spec fn deep_view(&self) -> HTTPRouteRulesBackendRefsView {
        HTTPRouteRulesBackendRefsView {
            name: self.name@,
            port: self.port,
            kind: self.kind.deep_view(),
        }
    }
}

impl HTTPRouteRulesBackendRefsView {
    /// Every field empty or absent.
    pub open spec fn blank() -> HTTPRouteRulesBackendRefsView {
        HTTPRouteRulesBackendRefsView {
            name: Seq::empty(),
            port: None,
            kind: None,
        }
    }
}

impl Default for HTTPRouteRulesBackendRefs {
    fn default() -> (r: HTTPRouteRulesBackendRefs)
        ensures
            r.deep_view() == HTTPRouteRulesBackendRefsView::blank(),
    {
        HTTPRouteRulesBackendRefs {
            name: String::new(),
            port: None,
            kind: None,
        }
    }
}

/// A rule of a route.
#[derive(Debug, PartialEq)]
pub struct HTTPRouteRules {
    pub matches: Option<Vec<HTTPRouteRulesMatches>>,
    pub backend_refs: Option<Vec<HTTPRouteRulesBackendRefs>>,
}

/// What [`HTTPRouteRules`] holds.
#[verifier::ext_equal]
pub struct HTTPRouteRulesView {
    pub matches: Option<Seq<HTTPRouteRulesMatchesView>>,
    pub backend_refs: Option<Seq<HTTPRouteRulesBackendRefsView>>,
}

impl DeepView for HTTPRouteRules {
    type V = HTTPRouteRulesView;

    open spec fn deep_view(&self) -> HTTPRouteRulesView {
        HTTPRouteRulesView {
            matches: self.matches.deep_view(),
            backend_refs: self.backend_refs.deep_view(),
        }
    }
}

impl HTTPRouteRulesView {
    /// Every field empty or absent.
    pub open spec fn blank() -> HTTPRouteRulesView {
        HTTPRouteRulesView {
            matches: None,
            backend_refs: None,
        }
    }
}

impl Default for HTTPRouteRules {
    fn default() -> (r: HTTPRouteRules)
        ensures
            r.deep_view() == HTTPRouteRulesView::blank(),
    {
        HTTPRouteRules {
            matches: None,
            backend_refs: None,
        }
    }
}

/// What a route is to be.
#[derive(Debug, PartialEq)]
pub struct HTTPRouteSpec {
    pub parent_refs: Option<Vec<HTTPRouteParentRefs>>,
    pub hostnames: Option<Vec<String>>,
    pub rules: Option<Vec<HTTPRouteRules>>,
}

/// What [`HTTPRouteSpec`] holds.
#[verifier::ext_equal]
pub struct HTTPRouteSpecView {
    pub parent_refs: Option<Seq<HTTPRouteParentRefsView>>,
    pub hostnames: Option<Seq<Seq<char>>>,
    pub rules: Option<Seq<HTTPRouteRulesView>>,
}

impl DeepView for HTTPRouteSpec {
    type V = HTTPRouteSpecView;

    open spec fn deep_view(&self) -> HTTPRouteSpecView {
        HTTPRouteSpecView {
            parent_refs: self.parent_refs.deep_view(),
            hostnames: self.hostnames.deep_view(),
            rules: self.rules.deep_view(),
        }
    }
}

impl HTTPRouteSpecView {
    /// Every field empty or absent.
    pub open spec fn blank() -> HTTPRouteSpecView {
        HTTPRouteSpecView {
            parent_refs: None,
            hostnames: None,
            rules: None,
        }
    }
}

impl Default for HTTPRouteSpec {
    fn default() -> (r: HTTPRouteSpec)
        ensures
            r.deep_view() == HTTPRouteSpecView::blank(),
    {
        HTTPRouteSpec {
            parent_refs: None,
            hostnames: None,
            rules: None,
        }
    }
}

/// A route of the Gateway API.
#[derive(Debug, PartialEq)]
pub struct HTTPRoute {
    pub metadata: ObjectMeta,
    pub spec: HTTPRouteSpec,
}

/// What [`HTTPRoute`] holds.
#[verifier::ext_equal]
pub struct HTTPRouteView {
    pub metadata: ObjectMetaView,
    pub spec: HTTPRouteSpecView,
}

impl DeepView for HTTPRoute {
    type V = HTTPRouteView;

    open spec fn deep_view(&self) -> HTTPRouteView {
        HTTPRouteView {
            metadata: self.metadata.deep_view(),
            spec: self.spec.deep_view(),
        }
    }
}

impl HTTPRouteView {
    /// Every field empty or absent.
    pub open spec fn blank() -> HTTPRouteView {
        HTTPRouteView {
            metadata: ObjectMetaView::blank(),
            spec: HTTPRouteSpecView::blank(),
        }
    }
}

impl Default for HTTPRoute {
    fn default() -> (r: HTTPRoute)
        ensures
            r.deep_view() == HTTPRouteView::blank(),
    {
        HTTPRoute {
            metadata: ObjectMeta::default(),
            spec: HTTPRouteSpec::default(),
        }
    }
}

} // verus!
