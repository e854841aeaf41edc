//! Services and Ingresses.

use vstd::prelude::*;

use crate::k8s::meta::{ObjectMeta, ObjectMetaView};
use crate::k8s::pods::{IntOrString, IntOrStringView};
use crate::string_map::StringMap;

verus! {

/// A port of a Service.
#[derive(Debug, PartialEq)]
pub struct ServicePort {
    pub name: Option<String>,
    pub port: i32,
    pub target_port: Option<IntOrString>,
    pub protocol: Option<String>,
}

/// What [`ServicePort`] holds.
#[verifier::ext_equal]
pub struct ServicePortView {
    pub name: Option<Seq<char>>,
    pub port: i32,
    pub target_port: Option<IntOrStringView>,
    pub protocol: Option<Seq<char>>,
}

impl DeepView for ServicePort {
    type V = ServicePortView;

    open spec fn deep_view(&self) -> ServicePortView {
        ServicePortView {
            name: self.name.deep_view(),
            port: self.port,
            target_port: self.target_port.deep_view(),
            protocol: self.protocol.deep_view(),
        }
    }
}

impl ServicePortView {
    /// Every field empty or absent.
    pub open spec fn blank() -> ServicePortView {
        ServicePortView {
            name: None,
            port: 0,
            target_port: None,
            protocol: None,
        }
    }
}

impl Default for ServicePort {
    fn default() -> (r: ServicePort)
        ensures
            r.deep_view() == ServicePortView::blank(),
    {
        ServicePort {
            name: None,
            port: 0,
            target_port: None,
            protocol: None,
        }
    }
}

/// What a Service is to be.
#[derive(Debug, PartialEq)]
pub struct ServiceSpec {
    pub selector: Option<StringMap>,
    pub type_: Option<String>,
    pub ports: Option<Vec<ServicePort>>,
}

/// What [`ServiceSpec`] holds.
#[verifier::ext_equal]
pub struct ServiceSpecView {
    pub selector: Option<Map<Seq<char>, Seq<char>>>,
    pub type_: Option<Seq<char>>,
    pub ports: Option<Seq<ServicePortView>>,
}

impl DeepView for ServiceSpec {
    type V = ServiceSpecView;

    open spec fn deep_view(&self) -> ServiceSpecView {
        ServiceSpecView {
            selector: self.selector.deep_view(),
            type_: self.type_.deep_view(),
            ports: self.ports.deep_view(),
        }
    }
}

impl ServiceSpecView {
    /// Every field empty or absent.
    pub open spec fn blank() -> ServiceSpecView {
        ServiceSpecView {
            selector: None,
            type_: None,
            ports: None,
        }
    }
}

impl Default for ServiceSpec {
    fn default() -> (r: ServiceSpec)
        ensures
            r.deep_view() == ServiceSpecView::blank(),
    {
        ServiceSpec {
            selector: None,
            type_: None,
            ports: None,
        }
    }
}

/// A Service.
#[derive(Debug, PartialEq)]
pub struct Service {
    pub metadata: ObjectMeta,
    pub spec: Option<ServiceSpec>,
}

/// What [`Service`] holds.
#[verifier::ext_equal]
pub struct ServiceView {
    pub metadata: ObjectMetaView,
    pub spec: Option<ServiceSpecView>,
}

impl DeepView for Service {
    type V = ServiceView;

    open spec fn deep_view(&self) -> ServiceView {
        ServiceView {
            metadata: self.metadata.deep_view(),
            spec: self.spec.deep_view(),
        }
    }
}

impl ServiceView {
    /// Every field empty or absent.
    pub open spec fn blank() -> ServiceView {
        ServiceView {
            metadata: ObjectMetaView::blank(),
            spec: None,
        }
    }
}

impl Default for Service {
    fn default() -> (r: Service)
        ensures
            r.deep_view() == ServiceView::blank(),
    {
        Service {
            metadata: ObjectMeta::default(),
            spec: None,
        }
    }
}

/// The port of a backend.
#[derive(Debug, PartialEq)]
pub struct ServiceBackendPort {
    pub number: Option<i32>,
}

/// What [`ServiceBackendPort`] holds.
#[verifier::ext_equal]
pub struct ServiceBackendPortView {
    pub number: Option<i32>,
}

impl DeepView for ServiceBackendPort {
    type V = ServiceBackendPortView;

    open spec fn deep_view(&self) -> ServiceBackendPortView {
        ServiceBackendPortView {
            number: self.number,
        }
    }
}

impl ServiceBackendPortView {
    /// Every field empty or absent.
    pub open spec fn blank() -> ServiceBackendPortView {
        ServiceBackendPortView {
            number: None,
        }
    }
}

impl Default for ServiceBackendPort {
    fn default() -> (r: ServiceBackendPort)
        ensures
            r.deep_view() == ServiceBackendPortView::blank(),
    {
        ServiceBackendPort {
            number: None,
        }
    }
}

/// A Service behind a path.
#[derive(Debug, PartialEq)]
pub struct IngressServiceBackend {
    pub name: String,
    pub port: Option<ServiceBackendPort>,
}

/// What [`IngressServiceBackend`] holds.
#[verifier::ext_equal]
pub struct IngressServiceBackendView {
    pub name: Seq<char>,
    pub port: Option<ServiceBackendPortView>,
}

impl DeepView for IngressServiceBackend {
    type V = IngressServiceBackendView;

    open spec fn deep_view(&self) -> IngressServiceBackendView {
        IngressServiceBackendView {
            name: self.name@,
            port: self.port.deep_view(),
        }
    }
}

impl IngressServiceBackendView {
    /// Every field empty or absent.
    pub open spec fn blank() -> IngressServiceBackendView {
        IngressServiceBackendView {
            name: Seq::empty(),
            port: None,
        }
    }
}

impl Default for IngressServiceBackend {
    fn default() -> (r: IngressServiceBackend)
        ensures
            r.deep_view() == IngressServiceBackendView::blank(),
    {
        IngressServiceBackend {
            name: String::new(),
            port: None,
        }
    }
}

/// What stands behind a path.
#[derive(Debug, PartialEq)]
pub struct IngressBackend {
    pub service: Option<IngressServiceBackend>,
}

/// What [`IngressBackend`] holds.
#[verifier::ext_equal]
pub struct IngressBackendView {
    pub service: Option<IngressServiceBackendView>,
}

impl DeepView for IngressBackend {
    type V = IngressBackendView;

    open spec fn deep_view(&self) -> IngressBackendView {
        IngressBackendView {
            service: self.service.deep_view(),
        }
    }
}

impl IngressBackendView {
    /// Every field empty or absent.
    pub open spec fn blank() -> IngressBackendView {
        IngressBackendView {
            service: None,
        }
    }
}

impl Default for IngressBackend {
    fn default() -> (r: IngressBackend)
        ensures
            r.deep_view() == IngressBackendView::blank(),
    {
        IngressBackend {
            service: None,
        }
    }
}

/// A path of a host.
#[derive(Debug, PartialEq)]
pub struct HTTPIngressPath {
    pub path: Option<String>,
    pub path_type: String,
    pub backend: IngressBackend,
}

/// What [`HTTPIngressPath`] holds.
#[verifier::ext_equal]
pub struct HTTPIngressPathView {
    pub path: Option<Seq<char>>,
    pub path_type: Seq<char>,
    pub backend: IngressBackendView,
}

impl DeepView for HTTPIngressPath {
    type V = HTTPIngressPathView;

    open spec fn deep_view(&self) -> HTTPIngressPathView {
        HTTPIngressPathView {
            path: self.path.deep_view(),
            path_type: self.path_type@,
            backend: self.backend.deep_view(),
        }
    }
}

impl HTTPIngressPathView {
    /// Every field empty or absent.
    pub open spec fn blank() -> HTTPIngressPathView {
        HTTPIngressPathView {
            path: None,
            path_type: Seq::empty(),
            backend: IngressBackendView::blank(),
        }
    }
}

impl Default for HTTPIngressPath {
    fn default() -> (r: HTTPIngressPath)
        ensures
            r.deep_view() == HTTPIngressPathView::blank(),
    {
        HTTPIngressPath {
            path: None,
            path_type: String::new(),
            backend: IngressBackend::default(),
        }
    }
}

/// The paths of a host.
#[derive(Debug, PartialEq)]
pub struct HTTPIngressRuleValue {
    pub paths: Vec<HTTPIngressPath>,
}

/// What [`HTTPIngressRuleValue`] holds.
#[verifier::ext_equal]
pub struct HTTPIngressRuleValueView {
    pub paths: Seq<HTTPIngressPathView>,
}

impl DeepView for HTTPIngressRuleValue {
    type V = HTTPIngressRuleValueView;

    open spec fn deep_view(&self) -> HTTPIngressRuleValueView {
        HTTPIngressRuleValueView {
            paths: self.paths.deep_view(),
        }
    }
}

impl HTTPIngressRuleValueView {
    /// Every field empty or absent.
    pub open spec fn blank() -> HTTPIngressRuleValueView {
        HTTPIngressRuleValueView {
            paths: Seq::empty(),
        }
    }
}

impl Default for HTTPIngressRuleValue {
    fn default() -> (r: HTTPIngressRuleValue)
        ensures
            r.deep_view() == HTTPIngressRuleValueView::blank(),
    {
        HTTPIngressRuleValue {
            paths: Vec::new(),
        }
    }
}

/// A host and its paths.
#[derive(Debug, PartialEq)]
pub struct IngressRule {
    pub host: Option<String>,
    pub http: Option<HTTPIngressRuleValue>,
}

/// What [`IngressRule`] holds.
#[verifier::ext_equal]
pub struct IngressRuleView {
    pub host: Option<Seq<char>>,
    pub http: Option<HTTPIngressRuleValueView>,
}

impl DeepView for IngressRule {
    type V = IngressRuleView;

    open spec fn deep_view(&self) -> IngressRuleView {
        IngressRuleView {
            host: self.host.deep_view(),
            http: self.http.deep_view(),
        }
    }
}

impl IngressRuleView {
    /// Every field empty or absent.
    pub open spec fn blank() -> IngressRuleView {
        IngressRuleView {
            host: None,
            http: None,
        }
    }
}

impl Default for IngressRule {
    fn default() -> (r: IngressRule)
        ensures
            r.deep_view() == IngressRuleView::blank(),
    {
        IngressRule {
            host: None,
            http: None,
        }
    }
}

/// The certificate of some hosts.
#[derive(Debug, PartialEq)]
pub struct IngressTLS {
    pub hosts: Option<Vec<String>>,
    pub secret_name: Option<String>,
}

/// What [`IngressTLS`] holds.
#[verifier::ext_equal]
pub struct IngressTLSView {
    pub hosts: Option<Seq<Seq<char>>>,
    pub secret_name: Option<Seq<char>>,
}

impl DeepView for IngressTLS {
    type V = IngressTLSView;

    open spec fn deep_view(&self) -> IngressTLSView {
        IngressTLSView {
            hosts: self.hosts.deep_view(),
            secret_name: self.secret_name.deep_view(),
        }
    }
}

impl IngressTLSView {
    /// Every field empty or absent.
    pub open spec fn blank() -> IngressTLSView {
        IngressTLSView {
            hosts: None,
            secret_name: None,
        }
    }
}

impl Default for IngressTLS {
    fn default() -> (r: IngressTLS)
        ensures
            r.deep_view() == IngressTLSView::blank(),
    {
        IngressTLS {
            hosts: None,
            secret_name: None,
        }
    }
}

/// What an Ingress is to be.
#[derive(Debug, PartialEq)]
pub struct IngressRoutes {
    pub ingress_class_name: Option<String>,
    pub rules: Option<Vec<IngressRule>>,
    pub tls: Option<Vec<IngressTLS>>,
}

/// What [`IngressRoutes`] holds.
#[verifier::ext_equal]
pub struct IngressRoutesView {
    pub ingress_class_name: Option<Seq<char>>,
    pub rules: Option<Seq<IngressRuleView>>,
    pub tls: Option<Seq<IngressTLSView>>,
}

impl DeepView for IngressRoutes {
    type V = IngressRoutesView;

    open spec fn deep_view(&self) -> IngressRoutesView {
        IngressRoutesView {
            ingress_class_name: self.ingress_class_name.deep_view(),
            rules: self.rules.deep_view(),
            tls: self.tls.deep_view(),
        }
    }
}

impl IngressRoutesView {
    /// Every field empty or absent.
    pub open spec fn blank() -> IngressRoutesView {
        IngressRoutesView {
            ingress_class_name: None,
            rules: None,
            tls: None,
        }
    }
}

impl Default for IngressRoutes {
    fn default() -> (r: IngressRoutes)
        ensures
            r.deep_view() == IngressRoutesView::blank(),
    {
        IngressRoutes {
            ingress_class_name: None,
            rules: None,
            tls: None,
        }
    }
}

/// An Ingress.
#[derive(Debug, PartialEq)]
pub struct Ingress {
    pub metadata: ObjectMeta,
    pub spec: Option<IngressRoutes>,
}

/// What [`Ingress`] holds.
#[verifier::ext_equal]
pub struct IngressView {
    pub metadata: ObjectMetaView,
    pub spec: Option<IngressRoutesView>,
}

impl DeepView for Ingress {
    type V = IngressView;

    open spec fn deep_view(&self) -> IngressView {
        IngressView {
            metadata: self.metadata.deep_view(),
            spec: self.spec.deep_view(),
        }
    }
}

impl IngressView {
    /// Every field empty or absent.
    pub open spec fn blank() -> IngressView {
        IngressView {
            metadata: ObjectMetaView::blank(),
            spec: None,
        }
    }
}

impl Default for Ingress {
    fn default() -> (r: Ingress)
        ensures
            r.deep_view() == IngressView::blank(),
    {
        Ingress {
            metadata: ObjectMeta::default(),
            spec: None,
        }
    }
}

} // verus!
