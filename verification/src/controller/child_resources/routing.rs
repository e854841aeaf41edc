//! The Service of an instance, and the Ingress or HTTPRoute that leads to it.

use vstd::prelude::*;

use crate::controller::child_resources::secrets::make_owned_meta;
use crate::crd::odoo_instance::{GatewayRef, GatewayRefView, OdooInstance, OdooInstanceView};
use crate::k8s::gateway::{HTTPRoute, HTTPRouteParentRefs, HTTPRouteParentRefsView, HTTPRouteRules, HTTPRouteRulesBackendRefs, HTTPRouteRulesBackendRefsView, HTTPRouteRulesMatches, HTTPRouteRulesMatchesPath, HTTPRouteRulesMatchesPathType, HTTPRouteRulesMatchesPathView, HTTPRouteRulesMatchesView, HTTPRouteRulesView, HTTPRouteSpec, HTTPRouteSpecView, HTTPRouteView};
use crate::k8s::meta::{ObjectMeta, ObjectMetaView, OwnerReference, OwnerReferenceView};
use crate::k8s::networking::{HTTPIngressPath, HTTPIngressPathView, HTTPIngressRuleValue, HTTPIngressRuleValueView, Ingress, IngressBackend, IngressBackendView, IngressRoutes, IngressRoutesView, IngressRule, IngressRuleView, IngressServiceBackend, IngressServiceBackendView, IngressTLS, IngressTLSView, IngressView, Service, ServiceBackendPort, ServiceBackendPortView, ServicePort, ServicePortView, ServiceSpec, ServiceSpecView, ServiceView};
use crate::k8s::pods::{IntOrString, IntOrStringView};
use crate::string_map::{KeyedMap, StringMap};
use crate::text::{copy_opt, copy_strings};

verus! {

// ── Service ─────────────────────────────────────────────────────────────────
/// A TCP port of the Service, which leads to the same port of the pods.
pub open spec fn tcp_port(name: Seq<char>, port: i32) -> ServicePortView {
    ServicePortView {
        name: Some(name),
        port,
        target_port: Some(IntOrStringView::Int(port)),
        protocol: Some("TCP"@),
    }
}

/// The ports of the Service: HTTP and websocket.
pub open spec fn service_ports() -> Seq<ServicePortView> {
    seq![tcp_port("http"@, 8069), tcp_port("websocket"@, 8072)]
}

/// The Service of an instance.
pub open spec fn service_of(
    ns: Seq<char>,
    name: Seq<char>,
    oref: OwnerReferenceView,
) -> ServiceView {
    let app = Map::<Seq<char>, Seq<char>>::empty().insert("app"@, name);
    ServiceView {
        metadata: ObjectMetaView {
            labels: Some(app),
            ..crate::controller::child_resources::secrets::owned_meta(ns, name, oref)
        },
        spec: Some(
            ServiceSpecView {
                selector: Some(app),
                type_: Some("ClusterIP"@),
                ports: Some(service_ports()),
            },
        ),
    }
}

fn make_tcp_port(name: &str, port: i32) -> (r: ServicePort)
    ensures
        r.deep_view() == tcp_port(name@, port),
{
    ServicePort {
        name: Some(name.to_string()),
        port,
        target_port: Some(IntOrString::Int(port)),
        protocol: Some("TCP".to_string()),
    }
}

/// The Service that an instance is to have.
pub fn desired_service(ns: &str, name: &str, oref: &OwnerReference) -> (r: Service)
    ensures
        r.deep_view() == service_of(ns@, name@, oref.deep_view()),
{
    let ports = vec![make_tcp_port("http", 8069), make_tcp_port("websocket", 8072)];
    assert(ports.deep_view() =~= service_ports());
    Service {
        metadata: ObjectMeta {
            labels: Some(KeyedMap::of("app", name)),
            ..make_owned_meta(ns, name, oref)
        },
        spec: Some(
            ServiceSpec {
                selector: Some(KeyedMap::of("app", name)),
                type_: Some("ClusterIP".to_string()),
                ports: Some(ports),
            },
        ),
    }
}

// ── Ingress ─────────────────────────────────────────────────────────────────
/// A path of a host, and the port of the Service that serves it.
pub open spec fn ingress_path(path: Seq<char>, service: Seq<char>, port: i32) -> HTTPIngressPathView {
    HTTPIngressPathView {
        path: Some(path),
        path_type: "Prefix"@,
        backend: IngressBackendView {
            service: Some(
                IngressServiceBackendView {
                    name: service,
                    port: Some(ServiceBackendPortView { number: Some(port) }),
                },
            ),
        },
    }
}

/// The rule of a host: the websocket first, then everything else.
pub open spec fn ingress_rule(host: Seq<char>, service: Seq<char>) -> IngressRuleView {
    IngressRuleView {
        host: Some(host),
        http: Some(
            HTTPIngressRuleValueView {
                paths: seq![
                    ingress_path("/websocket"@, service, 8072),
                    ingress_path("/"@, service, 8069),
                ],
            },
        ),
    }
}

/// The rules of some hosts, in order.
pub open spec fn ingress_rules(hosts: Seq<Seq<char>>, service: Seq<char>) -> Seq<IngressRuleView> {
    Seq::new(hosts.len(), |i: int| ingress_rule(hosts[i], service))
}

/// The Ingress of an instance.
pub open spec fn ingress_of(
    ns: Seq<char>,
    name: Seq<char>,
    instance: OdooInstanceView,
    oref: OwnerReferenceView,
) -> IngressView {
    let ingress = instance.spec.ingress;
    IngressView {
        metadata: ObjectMetaView {
            annotations: Some(
                match ingress.issuer {
                    Some(issuer) => Map::<Seq<char>, Seq<char>>::empty().insert(
                        "cert-manager.io/cluster-issuer"@,
                        issuer,
                    ),
                    None => Map::empty(),
                },
            ),
            ..crate::controller::child_resources::secrets::owned_meta(ns, name, oref)
        },
        spec: Some(
            IngressRoutesView {
                ingress_class_name: ingress.class,
                rules: Some(ingress_rules(ingress.hosts, name)),
                tls: Some(
                    seq![
                        IngressTLSView {
                            hosts: Some(ingress.hosts),
                            secret_name: Some(name + "-tls"@),
                        },
                    ],
                ),
            },
        ),
    }
}

fn make_ingress_path(path: &str, service: &str, port: i32) -> (r: HTTPIngressPath)
    ensures
        r.deep_view() == ingress_path(path@, service@, port),
{
    HTTPIngressPath {
        path: Some(path.to_string()),
        path_type: "Prefix".to_string(),
        backend: IngressBackend {
            service: Some(
                IngressServiceBackend {
                    name: service.to_string(),
                    port: Some(ServiceBackendPort { number: Some(port) }),
                },
            ),
        },
    }
}

fn make_ingress_rule(host: &str, service: &str) -> (r: IngressRule)
    ensures
        r.deep_view() == ingress_rule(host@, service@),
{
    let paths = vec![
        make_ingress_path("/websocket", service, 8072),
        make_ingress_path("/", service, 8069),
    ];
    assert(paths.deep_view() =~= ingress_rule(host@, service@).http->0.paths);
    IngressRule { host: Some(host.to_string()), http: Some(HTTPIngressRuleValue { paths }) }
}

/// The Ingress that an instance is to have where it names no Gateway.
pub fn desired_ingress(
    ns: &str,
    name: &str,
    instance: &OdooInstance,
    oref: &OwnerReference,
) -> (r: Ingress)
    ensures
        r.deep_view() == ingress_of(ns@, name@, instance.deep_view(), oref.deep_view()),
{
    let ingress = &instance.spec.ingress;
    let mut annotations: StringMap = KeyedMap::new();
    if let Some(issuer) = &ingress.issuer {
        annotations.insert("cert-manager.io/cluster-issuer".to_string(), issuer.clone());
    }
    let mut rules: Vec<IngressRule> = Vec::new();
    let mut i: usize = 0;
    while i < ingress.hosts.len()
        invariant
            i <= ingress.hosts.len(),
            rules.len() == i,
            forall|j: int|
                0 <= j < i ==> (#[trigger] rules@[j]).deep_view() == ingress_rule(
                    ingress.hosts@[j]@,
                    name@,
                ),
        decreases ingress.hosts.len() - i,
    {
        rules.push(make_ingress_rule(ingress.hosts[i].as_str(), name));
        i += 1;
    }
    assert(rules.deep_view() =~= ingress_rules(ingress.hosts.deep_view(), name@));
    let tls = vec![
        IngressTLS {
            hosts: Some(copy_strings(&ingress.hosts)),
            secret_name: Some(name.to_string().concat("-tls")),
        },
    ];
    assert(tls.deep_view() =~= seq![
        IngressTLSView {
            hosts: Some(ingress.hosts.deep_view()),
            secret_name: Some(name@ + "-tls"@),
        },
    ]);
    Ingress {
        metadata: ObjectMeta {
            annotations: Some(annotations),
            ..make_owned_meta(ns, name, oref)
        },
        spec: Some(
            IngressRoutes {
                ingress_class_name: copy_opt(&ingress.class),
                rules: Some(rules),
                tls: Some(tls),
            },
        ),
    }
}

// ── HTTPRoute ───────────────────────────────────────────────────────────────
/// A rule of a route: a path prefix, and the port of the Service that serves it.
pub open spec fn route_rule(path: Seq<char>, service: Seq<char>, port: i32) -> HTTPRouteRulesView {
    HTTPRouteRulesView {
        matches: Some(
            seq![
                HTTPRouteRulesMatchesView {
                    path: Some(
                        HTTPRouteRulesMatchesPathView {
                            type_: Some(HTTPRouteRulesMatchesPathType::PathPrefix),
                            value: Some(path),
                        },
                    ),
                },
            ],
        ),
        backend_refs: Some(
            seq![
                HTTPRouteRulesBackendRefsView {
                    name: service,
                    port: Some(port),
                    kind: Some("Service"@),
                },
            ],
        ),
    }
}

/// The route of an instance.
pub open spec fn http_route_of(
    ns: Seq<char>,
    name: Seq<char>,
    instance: OdooInstanceView,
    gateway_ref: GatewayRefView,
    oref: OwnerReferenceView,
) -> HTTPRouteView {
    HTTPRouteView {
        metadata: crate::controller::child_resources::secrets::owned_meta(ns, name, oref),
        spec: HTTPRouteSpecView {
            parent_refs: Some(
                seq![
                    HTTPRouteParentRefsView {
                        group: Some("gateway.networking.k8s.io"@),
                        kind: Some("Gateway"@),
                        namespace: Some(gateway_ref.namespace),
                        name: gateway_ref.name,
                    },
                ],
            ),
            hostnames: Some(instance.spec.ingress.hosts),
            rules: Some(
                seq![route_rule("/websocket"@, name, 8072), route_rule("/"@, name, 8069)],
            ),
        },
    }
}

fn make_route_rule(path: &str, service: &str, port: i32) -> (r: HTTPRouteRules)
    ensures
        r.deep_view() == route_rule(path@, service@, port),
{
    let matches = vec![
        HTTPRouteRulesMatches {
            path: Some(
                HTTPRouteRulesMatchesPath {
                    type_: Some(HTTPRouteRulesMatchesPathType::PathPrefix),
                    value: Some(path.to_string()),
                },
            ),
        },
    ];
    let backend_refs = vec![
        HTTPRouteRulesBackendRefs {
            name: service.to_string(),
            port: Some(port),
            kind: Some("Service".to_string()),
        },
    ];
    assert(matches.deep_view() =~= route_rule(path@, service@, port).matches->0);
    assert(backend_refs.deep_view() =~= route_rule(path@, service@, port).backend_refs->0);
    HTTPRouteRules { matches: Some(matches), backend_refs: Some(backend_refs) }
}

/// The HTTPRoute that an instance is to have on its Gateway.
pub fn desired_http_route(
    ns: &str,
    name: &str,
    instance: &OdooInstance,
    gateway_ref: &GatewayRef,
    oref: &OwnerReference,
) -> (r: HTTPRoute)
    ensures
        r.deep_view() == http_route_of(
            ns@,
            name@,
            instance.deep_view(),
            gateway_ref.deep_view(),
            oref.deep_view(),
        ),
{
    let parents = vec![
        HTTPRouteParentRefs {
            group: Some("gateway.networking.k8s.io".to_string()),
            kind: Some("Gateway".to_string()),
            namespace: Some(gateway_ref.namespace.clone()),
            name: gateway_ref.name.clone(),
        },
    ];
    let rules = vec![
        make_route_rule("/websocket", name, 8072),
        make_route_rule("/", name, 8069),
    ];
    proof {
        let expected = http_route_of(
            ns@,
            name@,
            instance.deep_view(),
            gateway_ref.deep_view(),
            oref.deep_view(),
        );
        assert(parents.deep_view() =~= expected.spec.parent_refs->0);
        assert(rules.deep_view() =~= expected.spec.rules->0);
    }
    HTTPRoute {
        metadata: make_owned_meta(ns, name, oref),
        spec: HTTPRouteSpec {
            parent_refs: Some(parents),
            hostnames: Some(copy_strings(&instance.spec.ingress.hosts)),
            rules: Some(rules),
        },
    }
}

// ── Which of the two ────────────────────────────────────────────────────────
/// What routes an instance, where the other kind is stale and to be deleted.
#[derive(Debug)]
pub enum RoutingPlan {
    /// Apply this Ingress, and delete a stale HTTPRoute.
    Ingress(Ingress),
    /// Apply this HTTPRoute, and delete a stale Ingress.
    HTTPRoute(HTTPRoute),
}

/// What [`RoutingPlan`] holds.
pub enum RoutingPlanView {
    Ingress(IngressView),
    HTTPRoute(HTTPRouteView),
}

impl DeepView for RoutingPlan {
    type V = RoutingPlanView;

    open spec fn deep_view(&self) -> RoutingPlanView {
        match self {
            RoutingPlan::Ingress(ingress) => RoutingPlanView::Ingress(ingress.deep_view()),
            RoutingPlan::HTTPRoute(route) => RoutingPlanView::HTTPRoute(route.deep_view()),
        }
    }
}

/// The routing of an instance: by its Gateway where it names one.
pub open spec fn routing_of(
    ns: Seq<char>,
    name: Seq<char>,
    instance: OdooInstanceView,
    oref: OwnerReferenceView,
) -> RoutingPlanView {
    match instance.spec.ingress.gateway_ref {
        Some(gateway_ref) => RoutingPlanView::HTTPRoute(
            http_route_of(ns, name, instance, gateway_ref, oref),
        ),
        None => RoutingPlanView::Ingress(ingress_of(ns, name, instance, oref)),
    }
}

/// The correct routing resource (Ingress or HTTPRoute) for an instance. Of the
/// other kind, what is left from an earlier mode is to be deleted.
pub fn routing_plan(
    ns: &str,
    name: &str,
    instance: &OdooInstance,
    oref: &OwnerReference,
) -> (r: RoutingPlan)
    ensures
        r.deep_view() == routing_of(ns@, name@, instance.deep_view(), oref.deep_view()),
{
    match &instance.spec.ingress.gateway_ref {
        Some(gateway_ref) => RoutingPlan::HTTPRoute(
            desired_http_route(ns, name, instance, gateway_ref, oref),
        ),
        None => RoutingPlan::Ingress(desired_ingress(ns, name, instance, oref)),
    }
}

/// The two kinds of object that route an instance.
#[derive(Clone, Copy, Debug, PartialEq, Eq, Structural)]
pub enum RoutingKind {
    Ingress,
    HTTPRoute,
}

/// The kind that a plan leaves stale: the one that it does not apply.
pub open spec fn stale_kind_of(plan: RoutingPlanView) -> RoutingKind {
    match plan {
        RoutingPlanView::Ingress(_) => RoutingKind::HTTPRoute,
        RoutingPlanView::HTTPRoute(_) => RoutingKind::Ingress,
    }
}

/// The kind to look for once a plan is applied: the one that it does not apply.
pub fn stale_kind(plan: &RoutingPlan) -> (r: RoutingKind)
    ensures
        r == stale_kind_of(plan.deep_view()),
{
    match plan {
        RoutingPlan::Ingress(_) => RoutingKind::HTTPRoute,
        RoutingPlan::HTTPRoute(_) => RoutingKind::Ingress,
    }
}

/// A routing object to delete.
#[derive(Debug, PartialEq)]
pub struct RoutingDeletion {
    pub kind: RoutingKind,
    pub name: String,
}

/// What [`RoutingDeletion`] holds.
#[verifier::ext_equal]
pub struct RoutingDeletionView {
    pub kind: RoutingKind,
    pub name: Seq<char>,
}

impl DeepView for RoutingDeletion {
    type V = RoutingDeletionView;

    open spec fn deep_view(&self) -> RoutingDeletionView {
        RoutingDeletionView { kind: self.kind, name: self.name@ }
    }
}

/// What is deleted once a plan is applied: the object of the other kind, and only
/// where it was found.
pub open spec fn stale_of(
    name: Seq<char>,
    plan: RoutingPlanView,
    found: bool,
) -> Option<RoutingDeletionView> {
    if found {
        Some(RoutingDeletionView { kind: stale_kind_of(plan), name })
    } else {
        None
    }
}

/// What to delete once a plan is applied. `found` says whether the object of the
/// [`stale_kind`] is there; it has the name of the instance.
pub fn stale_routing(name: &str, plan: &RoutingPlan, found: bool) -> (r: Option<RoutingDeletion>)
    ensures
        r.deep_view() == stale_of(name@, plan.deep_view(), found),
{
    if found {
        Some(RoutingDeletion { kind: stale_kind(plan), name: name.to_string() })
    } else {
        None
    }
}

// ── Laws ────────────────────────────────────────────────────────────────────
/// The metrics of the exporter stay inside the pod: no Service port, no path and
/// no route leads to port 9102, nor to any port but those of Odoo.
pub proof fn only_odoo_ports_are_exposed(
    ns: Seq<char>,
    name: Seq<char>,
    instance: OdooInstanceView,
    oref: OwnerReferenceView,
)
    ensures
        forall|i: int|
            0 <= i < service_ports().len() ==> (#[trigger] service_ports()[i]).port == 8069
                || service_ports()[i].port == 8072,
        service_of(ns, name, oref).spec->0.ports == Some(service_ports()),
        match routing_of(ns, name, instance, oref) {
            RoutingPlanView::Ingress(ingress) => {
                let rules = ingress.spec->0.rules->0;
                forall|i: int, j: int|
                    0 <= i < rules.len() && 0 <= j < (#[trigger] rules[i]).http->0.paths.len() ==> {
                        let port = (
                        #[trigger] rules[i].http->0.paths[j]).backend.service->0.port->0.number;
                        port == Some(8069i32) || port == Some(8072i32)
                    }
            },
            RoutingPlanView::HTTPRoute(route) => {
                let rules = route.spec.rules->0;
                forall|i: int|
                    0 <= i < rules.len() ==> {
                        let refs = (#[trigger] rules[i]).backend_refs->0;
                        refs.len() == 1 && (refs[0].port == Some(8069i32) || refs[0].port == Some(
                            8072i32,
                        ))
                    }
            },
        },
{
}

/// Whether an object of a kind and the name of the instance is there after a plan
/// was applied and the stale object was deleted, given which were there before.
pub open spec fn there_after(
    name: Seq<char>,
    plan: RoutingPlanView,
    before: spec_fn(RoutingKind) -> bool,
    kind: RoutingKind,
) -> bool {
    let applied = kind != stale_kind_of(plan);
    let deleted = stale_of(name, plan, before(stale_kind_of(plan))) == Some(
        RoutingDeletionView { kind, name },
    );
    (before(kind) || applied) && !deleted
}

/// Whatever was there before, exactly one of the two kinds is left: the HTTPRoute
/// where the instance names a Gateway, the Ingress otherwise. What is applied and
/// what is deleted have the name of the instance, and nothing is deleted that was
/// not found.
pub proof fn one_routing_object_is_left(
    ns: Seq<char>,
    name: Seq<char>,
    instance: OdooInstanceView,
    oref: OwnerReferenceView,
    before: spec_fn(RoutingKind) -> bool,
)
    ensures
        ({
            let plan = routing_of(ns, name, instance, oref);
            let gateway = instance.spec.ingress.gateway_ref is Some;
            &&& there_after(name, plan, before, RoutingKind::HTTPRoute) == gateway
            &&& there_after(name, plan, before, RoutingKind::Ingress) == !gateway
            &&& plan matches RoutingPlanView::Ingress(ingress) ==> ingress.metadata.name == Some(
                name,
            )
            &&& plan matches RoutingPlanView::HTTPRoute(route) ==> route.metadata.name == Some(name)
            &&& !before(stale_kind_of(plan)) ==> stale_of(
                name,
                plan,
                before(stale_kind_of(plan)),
            ) is None
        }),
{
}

/// An instance is routed in one way only: by an HTTPRoute exactly where it names
/// a Gateway, and the issuer then plays no part.
pub proof fn gateway_decides_routing(
    ns: Seq<char>,
    name: Seq<char>,
    instance: OdooInstanceView,
    oref: OwnerReferenceView,
    issuer: Option<Seq<char>>,
)
    ensures
        routing_of(ns, name, instance, oref) is HTTPRoute <==> instance.spec.ingress.gateway_ref
            is Some,
        instance.spec.ingress.gateway_ref is Some ==> routing_of(ns, name, instance, oref)
            == routing_of(
            ns,
            name,
            with_issuer(instance, issuer),
            oref,
        ),
{
}

/// An instance with another issuer.
pub open spec fn with_issuer(
    instance: OdooInstanceView,
    issuer: Option<Seq<char>>,
) -> OdooInstanceView {
    let spec = instance.spec;
    let ingress = crate::crd::odoo_instance::IngressSpecView { issuer, ..spec.ingress };
    OdooInstanceView {
        spec: crate::crd::odoo_instance::OdooInstanceSpecView { ingress, ..spec },
        ..instance
    }
}

/// An Ingress has one rule per host of the spec, in the order of the spec, and each
/// rule has the host that stands in its place. Under every host the websocket path
/// leads to port 8072 of the instance's Service, and everything else to port 8069.
pub proof fn every_host_is_routed(
    ns: Seq<char>,
    name: Seq<char>,
    instance: OdooInstanceView,
    oref: OwnerReferenceView,
)
    ensures
        ({
            let hosts = instance.spec.ingress.hosts;
            let rules = ingress_of(ns, name, instance, oref).spec->0.rules->0;
            &&& ingress_of(ns, name, instance, oref).spec is Some
            &&& ingress_of(ns, name, instance, oref).spec->0.rules is Some
            &&& rules.len() == hosts.len()
            &&& forall|i: int|
                0 <= i < hosts.len() ==> {
                    let paths = (#[trigger] rules[i]).http->0.paths;
                    &&& rules[i].host == Some(hosts[i])
                    &&& rules[i].http is Some
                    &&& paths.len() == 2
                    &&& paths[0].path == Some("/websocket"@)
                    &&& paths[0].path_type == "Prefix"@
                    &&& paths[0].backend.service matches Some(service) && service.name == name
                        && (service.port matches Some(port) && port.number == Some(8072i32))
                    &&& paths[1].path == Some("/"@)
                    &&& paths[1].path_type == "Prefix"@
                    &&& paths[1].backend.service matches Some(service) && service.name == name
                        && (service.port matches Some(port) && port.number == Some(8069i32))
                }
            &&& forall|host: Seq<char>|
                #![trigger hosts.contains(host)]
                hosts.contains(host) ==> exists|i: int|
                    0 <= i < rules.len() && (#[trigger] rules[i]).host == Some(host)
        }),
{
    let hosts = instance.spec.ingress.hosts;
    let rules = ingress_of(ns, name, instance, oref).spec->0.rules->0;
    assert forall|host: Seq<char>| hosts.contains(host) implies exists|i: int|
        0 <= i < rules.len() && (#[trigger] rules[i]).host == Some(host) by {
        let i = choose|i: int| 0 <= i < hosts.len() && hosts[i] == host;
        assert(rules[i].host == Some(host));
    }
}

/// An Ingress is of the class that the spec names, covers every host by one
/// certificate that is kept under the instance's name, and asks the issuer of the
/// spec for it, and nothing but that. It is named after the instance, and belongs to
/// it.
pub proof fn ingress_follows_the_spec(
    ns: Seq<char>,
    name: Seq<char>,
    instance: OdooInstanceView,
    oref: OwnerReferenceView,
)
    ensures
        ({
            let ingress = ingress_of(ns, name, instance, oref);
            let tls = ingress.spec->0.tls->0;
            &&& ingress.metadata.name == Some(name)
            &&& ingress.metadata.namespace == Some(ns)
            &&& ingress.metadata.owner_references == Some(seq![oref])
            &&& ingress.spec->0.ingress_class_name == instance.spec.ingress.class
            &&& ingress.spec->0.tls is Some
            &&& tls.len() == 1
            &&& tls[0].hosts == Some(instance.spec.ingress.hosts)
            &&& tls[0].secret_name == Some(name + "-tls"@)
            &&& ingress.metadata.annotations is Some
            &&& forall|key: Seq<char>|
                #![trigger ingress.metadata.annotations->0.contains_key(key)]
                ingress.metadata.annotations->0.contains_key(key) <==> key
                    == "cert-manager.io/cluster-issuer"@ && instance.spec.ingress.issuer is Some
            &&& instance.spec.ingress.issuer matches Some(issuer)
                ==> ingress.metadata.annotations->0["cert-manager.io/cluster-issuer"@] == issuer
        }),
{
}

/// A route hangs on the Gateway that the spec names, and on no other, answers for
/// the hosts of the spec, and leads the websocket path to port 8072 and everything
/// else to port 8069 of the instance's Service. It is named after the instance, and
/// belongs to it.
pub proof fn routes_follow_the_spec(
    ns: Seq<char>,
    name: Seq<char>,
    instance: OdooInstanceView,
    gateway_ref: GatewayRefView,
    oref: OwnerReferenceView,
)
    ensures
        ({
            let route = http_route_of(ns, name, instance, gateway_ref, oref);
            let parents = route.spec.parent_refs->0;
            let rules = route.spec.rules->0;
            &&& route.metadata.name == Some(name)
            &&& route.metadata.namespace == Some(ns)
            &&& route.metadata.owner_references == Some(seq![oref])
            &&& route.metadata.annotations is None
            &&& route.spec.hostnames == Some(instance.spec.ingress.hosts)
            &&& route.spec.parent_refs is Some
            &&& parents.len() == 1
            &&& parents[0].name == gateway_ref.name
            &&& parents[0].namespace == Some(gateway_ref.namespace)
            &&& parents[0].kind == Some("Gateway"@)
            &&& parents[0].group == Some("gateway.networking.k8s.io"@)
            &&& route.spec.rules is Some
            &&& rules.len() == 2
            &&& forall|i: int|
                0 <= i < 2 ==> {
                    let matches = (#[trigger] rules[i]).matches->0;
                    let backends = rules[i].backend_refs->0;
                    &&& rules[i].matches is Some
                    &&& matches.len() == 1
                    &&& matches[0].path matches Some(path) && path.type_ == Some(
                        HTTPRouteRulesMatchesPathType::PathPrefix,
                    ) && path.value == Some(
                        if i == 0 {
                            "/websocket"@
                        } else {
                            "/"@
                        },
                    )
                    &&& rules[i].backend_refs is Some
                    &&& backends.len() == 1
                    &&& backends[0].name == name
                    &&& backends[0].kind == Some("Service"@)
                    &&& backends[0].port == Some(
                        if i == 0 {
                            8072i32
                        } else {
                            8069i32
                        },
                    )
                }
        }),
{
}

/// The Gateway that the spec names is the one that the instance is routed by.
pub proof fn routing_uses_the_gateway_of_the_spec(
    ns: Seq<char>,
    name: Seq<char>,
    instance: OdooInstanceView,
    oref: OwnerReferenceView,
)
    ensures
        instance.spec.ingress.gateway_ref matches Some(gateway) ==> routing_of(
            ns,
            name,
            instance,
            oref,
        ) == RoutingPlanView::HTTPRoute(http_route_of(ns, name, instance, gateway, oref)),
        instance.spec.ingress.gateway_ref is None ==> routing_of(ns, name, instance, oref)
            == RoutingPlanView::Ingress(ingress_of(ns, name, instance, oref)),
{
}

/// The Service selects the pods of the instance by their `app` label and nothing
/// else, is reached inside the cluster only, and hands each of its two ports, 8069
/// for HTTP and 8072 for the websocket, on to the same port of the pod. It is named
/// after the instance, and belongs to it.
pub proof fn service_selects_the_instance(
    ns: Seq<char>,
    name: Seq<char>,
    oref: OwnerReferenceView,
)
    ensures
        ({
            let service = service_of(ns, name, oref);
            let selector = service.spec->0.selector->0;
            let labels = service.metadata.labels->0;
            let ports = service.spec->0.ports->0;
            &&& service.metadata.name == Some(name)
            &&& service.metadata.namespace == Some(ns)
            &&& service.metadata.owner_references == Some(seq![oref])
            &&& service.metadata.labels is Some
            &&& service.spec is Some
            &&& service.spec->0.selector is Some
            &&& forall|key: Seq<char>| #[trigger] selector.contains_key(key) <==> key == "app"@
            &&& selector["app"@] == name
            &&& forall|key: Seq<char>| #[trigger] labels.contains_key(key) <==> key == "app"@
            &&& labels["app"@] == name
            &&& service.spec->0.type_ == Some("ClusterIP"@)
            &&& service.spec->0.ports is Some
            &&& ports.len() == 2
            &&& ports[0].name == Some("http"@)
            &&& ports[0].port == 8069
            &&& ports[1].name == Some("websocket"@)
            &&& ports[1].port == 8072
            &&& forall|i: int|
                0 <= i < 2 ==> (#[trigger] ports[i]).target_port == Some(
                    IntOrStringView::Int(ports[i].port),
                ) && ports[i].protocol == Some("TCP"@)
        }),
{
}

/// The Ingress that is made answers for every host of the spec, each by a rule of its
/// own in its own place, and for no other.
pub proof fn made_ingresses_answer_for_every_host(
    ns: &str,
    name: &str,
    instance: OdooInstance,
    oref: OwnerReference,
    ingress: Ingress,
)
    requires
        call_ensures(desired_ingress, (ns, name, &instance, &oref), ingress),
    ensures
        ({
            let hosts = instance.deep_view().spec.ingress.hosts;
            let rules = ingress.deep_view().spec->0.rules->0;
            &&& rules.len() == hosts.len()
            &&& forall|i: int|
                0 <= i < hosts.len() ==> (#[trigger] rules[i]).host == Some(hosts[i])
        }),
{
    every_host_is_routed(ns@, name@, instance.deep_view(), oref.deep_view());
}

/// The objects that route an instance are made for the namespace, the name and the owner
/// that they are handed; what is stale is of the other kind, under the same name, and is
/// deleted exactly where it was found.
pub proof fn routing_is_made_of_what_it_is_handed(
    ns: &str,
    name: &str,
    instance: OdooInstance,
    oref: OwnerReference,
    gateway: GatewayRef,
    service: Service,
    route: HTTPRoute,
    plan: RoutingPlan,
    kind: RoutingKind,
    found: bool,
    deletion: Option<RoutingDeletion>,
)
    requires
        call_ensures(desired_service, (ns, name, &oref), service),
        call_ensures(desired_http_route, (ns, name, &instance, &gateway, &oref), route),
        call_ensures(routing_plan, (ns, name, &instance, &oref), plan),
        call_ensures(stale_kind, (&plan,), kind),
        call_ensures(stale_routing, (name, &plan, found), deletion),
    ensures
        service.deep_view().metadata.name == Some(name@),
        service.deep_view().metadata.namespace == Some(ns@),
        service.deep_view().metadata.owner_references == Some(seq![oref.deep_view()]),
        route.deep_view().metadata.name == Some(name@),
        route.deep_view().metadata.namespace == Some(ns@),
        route.deep_view().metadata.owner_references == Some(seq![oref.deep_view()]),
        route.deep_view().spec.hostnames == Some(instance.deep_view().spec.ingress.hosts),
        route.deep_view().spec.parent_refs matches Some(parents) && parents[0].name == gateway.name@
            && parents[0].namespace == Some(gateway.namespace@),
        instance.spec.ingress.gateway_ref is Some <==> plan is HTTPRoute,
        plan is HTTPRoute <==> kind == RoutingKind::Ingress,
        plan is Ingress <==> kind == RoutingKind::HTTPRoute,
        deletion is Some <==> found,
        deletion matches Some(deletion) ==> deletion.kind == kind && deletion.name@ == name@,
{
    assert(deletion is Some ==> deletion.deep_view() == Some(deletion->0.deep_view()));
    assert(instance.deep_view().spec.ingress.gateway_ref
        == instance.spec.ingress.gateway_ref.deep_view());
}

} // verus!
