//! The filestore claim of an instance.

use vstd::prelude::*;

use crate::controller::child_resources::secrets::make_owned_meta;
use crate::crd::odoo_instance::{Environment, OdooInstance, OdooInstanceView};
use crate::helpers::{parse_quantity, OperatorDefaults, OperatorDefaultsView};
use crate::k8s::meta::{OwnerReference, OwnerReferenceView};
use crate::k8s::storage::{PersistentVolumeClaim, PersistentVolumeClaimSpec, PersistentVolumeClaimSpecView, PersistentVolumeClaimView, TypedObjectReference, TypedObjectReferenceView, VolumeResourceRequirements, VolumeResourceRequirementsView};
use crate::string_map::KeyedMap;
use crate::text::{same, same_opt};

verus! {

/// The size that the filestore is to have.
pub open spec fn storage_size_of(
    instance: OdooInstanceView,
    defaults: OperatorDefaultsView,
) -> Seq<char> {
    match instance.spec.filestore {
        Some(f) => match f.storage_size {
            Some(size) => size,
            None => defaults.storage_size,
        },
        None => defaults.storage_size,
    }
}

/// The storage class that an instance asks for itself.
pub open spec fn own_storage_class(instance: OdooInstanceView) -> Option<Seq<char>> {
    match instance.spec.filestore {
        Some(f) => f.storage_class,
        None => None,
    }
}

/// The storage class that the filestore is to have.
pub open spec fn storage_class_of(
    instance: OdooInstanceView,
    defaults: OperatorDefaultsView,
) -> Seq<char> {
    match own_storage_class(instance) {
        Some(class) => class,
        None => defaults.storage_class,
    }
}

/// The size that a claim asks for, empty where it asks for none.
pub open spec fn requested_size(pvc: PersistentVolumeClaimView) -> Seq<char> {
    match pvc.spec {
        Some(spec) => match spec.resources {
            Some(resources) => match resources.requests {
                Some(requests) => match requests.get("storage"@) {
                    Some(size) => size,
                    None => Seq::empty(),
                },
                None => Seq::empty(),
            },
            None => Seq::empty(),
        },
        None => Seq::empty(),
    }
}

/// The number of bytes of a quantity, none where it is not one.
pub open spec fn bytes_or_none(quantity: Seq<char>) -> u64 {
    match crate::helpers::quantity_bytes(quantity) {
        Some(bytes) => bytes,
        None => 0,
    }
}

/// What to do about the filestore claim.
#[derive(Debug, PartialEq, Eq)]
pub enum FilestorePlan {
    /// There is none: create one.
    Create,
    /// Have it ask for this size.
    Expand(String),
    /// The spec asks for less than there is. Claims cannot shrink: warn.
    IgnoreShrink,
    /// It is as it should be.
    Keep,
}

/// What [`FilestorePlan`] holds.
pub enum FilestorePlanView {
    Create,
    Expand(Seq<char>),
    IgnoreShrink,
    Keep,
}

impl DeepView for FilestorePlan {
    type V = FilestorePlanView;

    open spec fn deep_view(&self) -> FilestorePlanView {
        match self {
            FilestorePlan::Create => FilestorePlanView::Create,
            FilestorePlan::Expand(size) => FilestorePlanView::Expand(size@),
            FilestorePlan::IgnoreShrink => FilestorePlanView::IgnoreShrink,
            FilestorePlan::Keep => FilestorePlanView::Keep,
        }
    }
}

/// The plan for a claim: it grows where the spec asks for more, and is otherwise
/// left alone.
pub open spec fn plan_of(
    instance: OdooInstanceView,
    defaults: OperatorDefaultsView,
    existing: Option<PersistentVolumeClaimView>,
) -> FilestorePlanView {
    match existing {
        None => FilestorePlanView::Create,
        Some(pvc) => {
            let size = storage_size_of(instance, defaults);
            let desired = bytes_or_none(size);
            let current = bytes_or_none(requested_size(pvc));
            if desired > current {
                FilestorePlanView::Expand(size)
            } else if desired < current && desired > 0 {
                FilestorePlanView::IgnoreShrink
            } else {
                FilestorePlanView::Keep
            }
        },
    }
}

fn storage_size<'a>(instance: &'a OdooInstance, defaults: &'a OperatorDefaults) -> (r: &'a str)
    ensures
        r@ == storage_size_of(instance.deep_view(), defaults.deep_view()),
{
    if let Some(f) = &instance.spec.filestore {
        if let Some(size) = &f.storage_size {
            return size.as_str();
        }
    }
    defaults.storage_size.as_str()
}

fn storage_class<'a>(instance: &'a OdooInstance, defaults: &'a OperatorDefaults) -> (r: &'a str)
    ensures
        r@ == storage_class_of(instance.deep_view(), defaults.deep_view()),
{
    if let Some(f) = &instance.spec.filestore {
        if let Some(class) = &f.storage_class {
            return class.as_str();
        }
    }
    defaults.storage_class.as_str()
}

/// The size that a claim asks for, empty where it asks for none.
pub fn current_size(pvc: &PersistentVolumeClaim) -> (r: String)
    ensures
        r@ == requested_size(pvc.deep_view()),
{
    if let Some(spec) = &pvc.spec {
        if let Some(resources) = &spec.resources {
            if let Some(requests) = &resources.requests {
                if let Some(size) = requests.get("storage") {
                    return size.clone();
                }
            }
        }
    }
    String::new()
}

fn bytes_of_quantity(quantity: &str) -> (r: u64)
    ensures
        r == bytes_or_none(quantity@),
{
    match parse_quantity(quantity) {
        Ok(bytes) => bytes,
        Err(_) => 0,
    }
}

/// What to do about the filestore claim, given the one that is there. A change
/// of the storage class is not done here; it takes a migration.
pub fn filestore_plan(
    instance: &OdooInstance,
    defaults: &OperatorDefaults,
    existing: Option<&PersistentVolumeClaim>,
) -> (r: FilestorePlan)
    ensures
        r.deep_view() == plan_of(
            instance.deep_view(),
            defaults.deep_view(),
            existing.deep_view(),
        ),
{
    let pvc = match existing {
        Some(pvc) => pvc,
        None => {
            return FilestorePlan::Create;
        },
    };
    let size = storage_size(instance, defaults);
    let desired: u64 = bytes_of_quantity(size);
    let current: u64 = bytes_of_quantity(current_size(pvc).as_str());
    if desired > current {
        FilestorePlan::Expand(size.to_string())
    } else if desired < current && desired > 0 {
        FilestorePlan::IgnoreShrink
    } else {
        FilestorePlan::Keep
    }
}

/// The filestore claim of an instance.
pub open spec fn claim_of(
    ns: Seq<char>,
    name: Seq<char>,
    instance: OdooInstanceView,
    defaults: OperatorDefaultsView,
    oref: OwnerReferenceView,
    source: Option<TypedObjectReferenceView>,
) -> PersistentVolumeClaimView {
    PersistentVolumeClaimView {
        metadata: crate::controller::child_resources::secrets::owned_meta(
            ns,
            name + "-filestore-pvc"@,
            oref,
        ),
        spec: Some(
            PersistentVolumeClaimSpecView {
                access_modes: Some(seq!["ReadWriteMany"@]),
                data_source_ref: source,
                resources: Some(
                    VolumeResourceRequirementsView {
                        requests: Some(
                            Map::<Seq<char>, Seq<char>>::empty().insert(
                                "storage"@,
                                storage_size_of(instance, defaults),
                            ),
                        ),
                    },
                ),
                storage_class_name: Some(storage_class_of(instance, defaults)),
            },
        ),
    }
}

/// What a new claim is filled from: the source that the caller brings goes before
/// the clone of production.
pub open spec fn source_choice(
    explicit: Option<TypedObjectReferenceView>,
    cloned: Option<TypedObjectReferenceView>,
) -> Option<TypedObjectReferenceView> {
    if explicit is Some {
        explicit
    } else {
        cloned
    }
}

/// What a new claim is filled from. `explicit` is what the caller brings, such as a
/// snapshot; `cloned` is what [`get_pvc_source`] found, and counts only without it.
pub fn filestore_source(
    explicit: Option<TypedObjectReference>,
    cloned: Option<TypedObjectReference>,
) -> (r: Option<TypedObjectReference>)
    ensures
        r.deep_view() == source_choice(explicit.deep_view(), cloned.deep_view()),
{
    match explicit {
        Some(source) => Some(source),
        None => cloned,
    }
}

/// The filestore claim to create, filled from `source` where there is one.
pub fn filestore_pvc(
    ns: &str,
    name: &str,
    instance: &OdooInstance,
    defaults: &OperatorDefaults,
    oref: &OwnerReference,
    source: Option<TypedObjectReference>,
) -> (r: PersistentVolumeClaim)
    ensures
        r.deep_view() == claim_of(
            ns@,
            name@,
            instance.deep_view(),
            defaults.deep_view(),
            oref.deep_view(),
            source.deep_view(),
        ),
{
    let modes = vec!["ReadWriteMany".to_string()];
    assert(modes.deep_view() =~= seq!["ReadWriteMany"@]);
    let pvc_name = name.to_string().concat("-filestore-pvc");
    PersistentVolumeClaim {
        metadata: make_owned_meta(ns, pvc_name.as_str(), oref),
        spec: Some(
            PersistentVolumeClaimSpec {
                access_modes: Some(modes),
                data_source_ref: source,
                resources: Some(
                    VolumeResourceRequirements {
                        requests: Some(
                            KeyedMap::of("storage", storage_size(instance, defaults)),
                        ),
                    },
                ),
                storage_class_name: Some(storage_class(instance, defaults).to_string()),
            },
        ),
    }
}

/// Where the filestore of the production instance is: its namespace and the name
/// of its claim. `None` where there is no such instance to clone.
pub open spec fn production_claim_of(ns: Seq<char>, instance: OdooInstanceView) -> Option<
    (Seq<char>, Seq<char>),
> {
    if instance.spec.environment != Environment::Staging {
        None
    } else {
        match instance.spec.production_instance_ref {
            Some(production) => Some(
                (
                    match production.namespace {
                        Some(namespace) => namespace,
                        None => ns,
                    },
                    production.name + "-filestore-pvc"@,
                ),
            ),
            None => None,
        }
    }
}

/// The claim of the production instance that a staging filestore is cloned from,
/// by namespace and name.
pub fn production_claim(ns: &str, instance: &OdooInstance) -> (r: Option<(String, String)>)
    ensures
        r.deep_view() == production_claim_of(ns@, instance.deep_view()),
{
    if instance.spec.environment != Environment::Staging {
        return None;
    }
    match &instance.spec.production_instance_ref {
        Some(production) => {
            let namespace = match &production.namespace {
                Some(namespace) => namespace.clone(),
                None => ns.to_string(),
            };
            let r = (namespace, production.name.clone().concat("-filestore-pvc"));
            assert(r.deep_view() == (r.0@, r.1@));
            Some(r)
        },
        None => None,
    }
}

/// The source of a cloned filestore, once the production claim was found: that
/// claim, where both have the same storage class.
///
/// The namespace is named only where it is another one. Naming the same one takes
/// a path of the API server that silently drops the whole reference.
pub open spec fn source_of(
    ns: Seq<char>,
    instance: OdooInstanceView,
    production: PersistentVolumeClaimView,
) -> Option<TypedObjectReferenceView> {
    let class = match production.spec {
        Some(spec) => spec.storage_class_name,
        None => None,
    };
    match production_claim_of(ns, instance) {
        Some((namespace, name)) => if own_storage_class(instance) == class {
            Some(
                TypedObjectReferenceView {
                    api_group: None,
                    kind: "PersistentVolumeClaim"@,
                    name,
                    namespace: if namespace == ns {
                        None
                    } else {
                        Some(namespace)
                    },
                },
            )
        } else {
            None
        },
        None => None,
    }
}

/// The reference by which a staging filestore is cloned from the claim of its
/// production instance. `None` where it has to be copied another way.
pub fn get_pvc_source(
    ns: &str,
    instance: &OdooInstance,
    production: &PersistentVolumeClaim,
) -> (r: Option<TypedObjectReference>)
    ensures
        r.deep_view() == source_of(ns@, instance.deep_view(), production.deep_view()),
{
    let (namespace, name) = match production_claim(ns, instance) {
        Some(claim) => claim,
        None => {
            return None;
        },
    };
    let own_class: Option<&String> = match &instance.spec.filestore {
        Some(f) => f.storage_class.as_ref(),
        None => None,
    };
    let class: Option<&String> = match &production.spec {
        Some(spec) => spec.storage_class_name.as_ref(),
        None => None,
    };
    if !same_opt(own_class, class) {
        return None;
    }
    let namespace = if same(namespace.as_str(), ns) {
        None
    } else {
        Some(namespace)
    };
    Some(
        TypedObjectReference {
            api_group: None,
            kind: "PersistentVolumeClaim".to_string(),
            name,
            namespace,
        },
    )
}

// ── Laws ────────────────────────────────────────────────────────────────────
/// A claim after it was made to ask for a size.
pub open spec fn resized(
    pvc: PersistentVolumeClaimView,
    size: Seq<char>,
) -> PersistentVolumeClaimView {
    let spec = pvc.spec.unwrap_or(PersistentVolumeClaimSpecView::blank());
    let resources = spec.resources.unwrap_or(VolumeResourceRequirementsView::blank());
    let requests = resources.requests.unwrap_or(Map::empty());
    PersistentVolumeClaimView {
        spec: Some(
            PersistentVolumeClaimSpecView {
                resources: Some(
                    VolumeResourceRequirementsView {
                        requests: Some(requests.insert("storage"@, size)),
                    },
                ),
                ..spec
            },
        ),
        ..pvc
    }
}

/// A claim only ever grows: where the plan is to change it, the new size is
/// greater than the one it asks for, and it is the one that the spec asks for.
pub proof fn filestore_only_grows(
    instance: OdooInstanceView,
    defaults: OperatorDefaultsView,
    pvc: PersistentVolumeClaimView,
)
    ensures
        plan_of(instance, defaults, Some(pvc)) matches FilestorePlanView::Expand(size) ==> {
            &&& size == storage_size_of(instance, defaults)
            &&& bytes_or_none(requested_size(resized(pvc, size))) > bytes_or_none(
                requested_size(pvc),
            )
        },
        !(plan_of(instance, defaults, Some(pvc)) is Create),
{
}

/// One pass settles the claim: neither a claim just created nor one just expanded
/// is changed again.
pub proof fn filestore_settles(
    ns: Seq<char>,
    name: Seq<char>,
    instance: OdooInstanceView,
    defaults: OperatorDefaultsView,
    oref: OwnerReferenceView,
    source: Option<TypedObjectReferenceView>,
    pvc: PersistentVolumeClaimView,
)
    ensures
        plan_of(
            instance,
            defaults,
            Some(claim_of(ns, name, instance, defaults, oref, source)),
        ) is Keep,
        plan_of(instance, defaults, Some(pvc)) matches FilestorePlanView::Expand(size) ==> plan_of(
            instance,
            defaults,
            Some(resized(pvc, size)),
        ) is Keep,
{
}

/// A claim that is not there yet is created, and filled from the caller's source
/// where there is one, else from the claim of production where it can be cloned,
/// else from nothing.
pub proof fn explicit_source_goes_first(
    ns: Seq<char>,
    name: Seq<char>,
    instance: OdooInstanceView,
    defaults: OperatorDefaultsView,
    oref: OwnerReferenceView,
    explicit: Option<TypedObjectReferenceView>,
    production: PersistentVolumeClaimView,
)
    ensures
        plan_of(instance, defaults, None) is Create,
        ({
            let found = source_of(ns, instance, production);
            let claim = claim_of(
                ns,
                name,
                instance,
                defaults,
                oref,
                source_choice(explicit, found),
            );
            claim.spec->0.data_source_ref == match explicit {
                Some(source) => Some(source),
                None => found,
            }
        }),
{
}

/// Only a staging instance is cloned, and never from a claim of another storage
/// class. A source in the same namespace never names it.
pub proof fn only_staging_is_cloned(
    ns: Seq<char>,
    instance: OdooInstanceView,
    production: PersistentVolumeClaimView,
)
    ensures
        source_of(ns, instance, production) matches Some(source) ==> {
            &&& instance.spec.environment == Environment::Staging
            &&& instance.spec.production_instance_ref is Some
            &&& own_storage_class(instance) == (match production.spec {
                Some(spec) => spec.storage_class_name,
                None => None,
            })
            &&& source.namespace != Some(ns)
        },
{
}

/// A created claim has the storage class that the spec sets and the size that the
/// spec sets; the operator's defaults stand in only for what the spec leaves open,
/// each by itself. It asks for shared access, is filled from the source that was
/// chosen, is named after the instance, and belongs to it.
pub proof fn created_claims_follow_the_spec(
    ns: Seq<char>,
    name: Seq<char>,
    instance: OdooInstanceView,
    defaults: OperatorDefaultsView,
    oref: OwnerReferenceView,
    source: Option<TypedObjectReferenceView>,
)
    ensures
        ({
            let claim = claim_of(ns, name, instance, defaults, oref, source);
            let spec = claim.spec->0;
            let requests = spec.resources->0.requests->0;
            &&& claim.metadata.name == Some(name + "-filestore-pvc"@)
            &&& claim.metadata.namespace == Some(ns)
            &&& claim.metadata.owner_references == Some(seq![oref])
            &&& claim.spec is Some
            &&& (instance.spec.filestore matches Some(f) && f.storage_class is Some)
                ==> spec.storage_class_name == instance.spec.filestore->0.storage_class
            &&& !(instance.spec.filestore matches Some(f) && f.storage_class is Some)
                ==> spec.storage_class_name == Some(defaults.storage_class)
            &&& spec.resources is Some
            &&& spec.resources->0.requests is Some
            &&& forall|key: Seq<char>| #[trigger]
                requests.contains_key(key) <==> key == "storage"@
            &&& (instance.spec.filestore matches Some(f) && f.storage_size is Some)
                ==> requests["storage"@] == instance.spec.filestore->0.storage_size->0
            &&& !(instance.spec.filestore matches Some(f) && f.storage_size is Some)
                ==> requests["storage"@] == defaults.storage_size
            &&& spec.access_modes == Some(seq!["ReadWriteMany"@])
            &&& spec.data_source_ref == source
        }),
{
}

/// A claim that is there is compared by the bytes that the two sizes stand for: the
/// one that the spec sets, or the operator's default where it sets none, and the one
/// that the claim asks for. What is no quantity counts as none, and a claim is never
/// warned about for the sake of such a one.
pub proof fn claims_are_compared_in_bytes(
    instance: OdooInstanceView,
    defaults: OperatorDefaultsView,
    pvc: PersistentVolumeClaimView,
)
    ensures
        ({
            let size = if instance.spec.filestore matches Some(f) && f.storage_size is Some {
                instance.spec.filestore->0.storage_size->0
            } else {
                defaults.storage_size
            };
            let asks = pvc.spec matches Some(spec) && (spec.resources matches Some(resources) && (
            resources.requests matches Some(requests) && requests.contains_key("storage"@)));
            let wanted: int = match crate::helpers::quantity_bytes(size) {
                Some(bytes) => bytes as int,
                None => 0,
            };
            let there: int = if !asks {
                0
            } else {
                match crate::helpers::quantity_bytes(
                    pvc.spec->0.resources->0.requests->0["storage"@],
                ) {
                    Some(bytes) => bytes as int,
                    None => 0,
                }
            };
            let plan = plan_of(instance, defaults, Some(pvc));
            &&& wanted > there ==> plan == FilestorePlanView::Expand(size)
            &&& 0 < wanted < there ==> plan == FilestorePlanView::IgnoreShrink
            &&& wanted == 0 || wanted == there ==> plan == FilestorePlanView::Keep
            &&& asks ==> requested_size(pvc) == pvc.spec->0.resources->0.requests->0["storage"@]
            &&& !asks ==> requested_size(pvc).len() == 0
        }),
{
    assert(crate::helpers::quantity_bytes(Seq::empty()) is None) by {
        assert(!crate::text::is_decimal(Seq::<char>::empty().take(0)));
    }
}

/// The claim that a staging filestore is cloned from is that of the production
/// instance that the spec names, in the namespace that it names, else in the
/// instance's own. A production instance is cloned from nothing, and so is one that
/// names none.
pub proof fn clones_come_from_the_named_production(
    ns: Seq<char>,
    instance: OdooInstanceView,
    production: PersistentVolumeClaimView,
)
    ensures
        production_claim_of(ns, instance) is Some <==> instance.spec.environment
            == Environment::Staging && instance.spec.production_instance_ref is Some,
        production_claim_of(ns, instance) matches Some(found) ==> {
            let named = instance.spec.production_instance_ref->0;
            &&& found.1 == named.name + "-filestore-pvc"@
            &&& named.namespace matches Some(namespace) ==> found.0 == namespace
            &&& named.namespace is None ==> found.0 == ns
        },
        source_of(ns, instance, production) is Some <==> production_claim_of(ns, instance) is Some
            && (match instance.spec.filestore {
            Some(f) => f.storage_class,
            None => None,
        }) == (match production.spec {
            Some(spec) => spec.storage_class_name,
            None => None,
        }),
        source_of(ns, instance, production) matches Some(source) ==> {
            let found = production_claim_of(ns, instance)->0;
            &&& source.api_group is None
            &&& source.kind == "PersistentVolumeClaim"@
            &&& source.name == found.1
            &&& found.0 == ns ==> source.namespace is None
            &&& found.0 != ns ==> source.namespace == Some(found.0)
        },
{
}

/// The claim that is made has the storage class of the spec, and the operator's default
/// only where the spec sets none.
pub proof fn made_claims_have_the_class_of_the_spec(
    ns: &str,
    name: &str,
    instance: OdooInstance,
    defaults: OperatorDefaults,
    oref: OwnerReference,
    source: Option<TypedObjectReference>,
    claim: PersistentVolumeClaim,
)
    requires
        call_ensures(filestore_pvc, (ns, name, &instance, &defaults, &oref, source), claim),
    ensures
        ({
            let class = claim.deep_view().spec->0.storage_class_name;
            let asked = instance.deep_view().spec.filestore;
            &&& claim.deep_view().spec is Some
            &&& (asked matches Some(f) && f.storage_class is Some) ==> class
                == asked->0.storage_class
            &&& !(asked matches Some(f) && f.storage_class is Some) ==> class == Some(
                defaults.storage_class@,
            )
        }),
{
}

/// A filestore that is not there is created; one that is there is never created again; a
/// source that the caller brings goes before any other; and the size that a claim asks
/// for is read as it stands.
pub proof fn filestores_are_planned_on_what_is_there(
    instance: OdooInstance,
    defaults: OperatorDefaults,
    existing: Option<&PersistentVolumeClaim>,
    plan: FilestorePlan,
    explicit: Option<TypedObjectReference>,
    cloned: Option<TypedObjectReference>,
    chosen: Option<TypedObjectReference>,
    pvc: PersistentVolumeClaim,
    size: String,
)
    requires
        call_ensures(filestore_plan, (&instance, &defaults, existing), plan),
        call_ensures(filestore_source, (explicit, cloned), chosen),
        call_ensures(current_size, (&pvc,), size),
    ensures
        plan is Create <==> existing is None,
        explicit is Some ==> chosen.deep_view() == explicit.deep_view(),
        explicit is None ==> chosen.deep_view() == cloned.deep_view(),
        (pvc.deep_view().spec matches Some(spec) && (spec.resources matches Some(resources) && (
        resources.requests matches Some(requests) && requests.contains_key("storage"@))))
            ==> size@ == pvc.deep_view().spec->0.resources->0.requests->0["storage"@],
        plan matches FilestorePlan::Expand(asked) ==> asked@ == if (
        instance.deep_view().spec.filestore matches Some(f) && f.storage_size is Some) {
            instance.deep_view().spec.filestore->0.storage_size->0
        } else {
            defaults.storage_size@
        },
{
    assert(existing is Some ==> existing.deep_view() == Some(existing->0.deep_view()));
    assert(plan is Expand ==> plan.deep_view() == FilestorePlanView::Expand(plan->Expand_0@));
    assert(explicit is Some ==> explicit.deep_view() is Some);
}

} // verus!
