//! Operator-level defaults for what an instance leaves open.

use vstd::prelude::*;

use crate::controller::helpers::is_empty;
use crate::crd::odoo_instance::{CronSpecView, FilestoreSpecView, GatewayRef, GatewayRefView, IngressSpecView, OdooInstance, OdooInstanceSpec, OdooInstanceSpecView};
use crate::helpers::{OperatorDefaults, OperatorDefaultsView};
use crate::k8s::opaque::{copy_tolerations, PodAffinity, PodToleration};
use crate::k8s::pods::{ResourceRequirements, ResourceRequirementsView};

verus! {

/// Changes to `spec.filestore`.
#[derive(Debug, PartialEq)]
pub struct FilestorePatch {
    pub storage_class: Option<String>,
    pub storage_size: Option<String>,
}

/// What [`FilestorePatch`] holds.
#[verifier::ext_equal]
pub struct FilestorePatchView {
    pub storage_class: Option<Seq<char>>,
    pub storage_size: Option<Seq<char>>,
}

impl DeepView for FilestorePatch {
    type V = FilestorePatchView;

    open spec fn deep_view(&self) -> FilestorePatchView {
        FilestorePatchView {
            storage_class: self.storage_class.deep_view(),
            storage_size: self.storage_size.deep_view(),
        }
    }
}

impl FilestorePatchView {
    /// Every field empty or absent.
    pub open spec fn blank() -> FilestorePatchView {
        FilestorePatchView {
            storage_class: None,
            storage_size: None,
        }
    }
}

impl Default for FilestorePatch {
    fn default() -> (r: FilestorePatch)
        ensures
            r.deep_view() == FilestorePatchView::blank(),
    {
        FilestorePatch {
            storage_class: None,
            storage_size: None,
        }
    }
}

/// Changes to `spec.ingress`.
#[derive(Debug, PartialEq)]
pub struct IngressPatch {
    pub issuer: Option<String>,
    pub class: Option<String>,
    pub gateway_ref: Option<GatewayRef>,
}

/// What [`IngressPatch`] holds.
#[verifier::ext_equal]
pub struct IngressPatchView {
    pub issuer: Option<Seq<char>>,
    pub class: Option<Seq<char>>,
    pub gateway_ref: Option<GatewayRefView>,
}

impl DeepView for IngressPatch {
    type V = IngressPatchView;

    open spec fn deep_view(&self) -> IngressPatchView {
        IngressPatchView {
            issuer: self.issuer.deep_view(),
            class: self.class.deep_view(),
            gateway_ref: self.gateway_ref.deep_view(),
        }
    }
}

impl IngressPatchView {
    /// Every field empty or absent.
    pub open spec fn blank() -> IngressPatchView {
        IngressPatchView {
            issuer: None,
            class: None,
            gateway_ref: None,
        }
    }
}

impl Default for IngressPatch {
    fn default() -> (r: IngressPatch)
        ensures
            r.deep_view() == IngressPatchView::blank(),
    {
        IngressPatch {
            issuer: None,
            class: None,
            gateway_ref: None,
        }
    }
}

/// Changes to `spec.cron`.
#[derive(Debug, PartialEq)]
pub struct CronPatch {
    pub resources: Option<ResourceRequirements>,
}

/// What [`CronPatch`] holds.
#[verifier::ext_equal]
pub struct CronPatchView {
    pub resources: Option<ResourceRequirementsView>,
}

impl DeepView for CronPatch {
    type V = CronPatchView;

    open spec fn deep_view(&self) -> CronPatchView {
        CronPatchView {
            resources: self.resources.deep_view(),
        }
    }
}

impl CronPatchView {
    /// Every field empty or absent.
    pub open spec fn blank() -> CronPatchView {
        CronPatchView {
            resources: None,
        }
    }
}

impl Default for CronPatch {
    fn default() -> (r: CronPatch)
        ensures
            r.deep_view() == CronPatchView::blank(),
    {
        CronPatch {
            resources: None,
        }
    }
}

/// Changes to the spec of an instance. What is absent stays as it is.
#[derive(Debug, PartialEq)]
pub struct SpecPatch {
    pub image: Option<String>,
    pub filestore: Option<FilestorePatch>,
    pub ingress: Option<IngressPatch>,
    pub resources: Option<ResourceRequirements>,
    pub affinity: Option<PodAffinity>,
    pub tolerations: Option<Vec<PodToleration>>,
    pub cron: Option<CronPatch>,
}

/// What [`SpecPatch`] holds.
#[verifier::ext_equal]
pub struct SpecPatchView {
    pub image: Option<Seq<char>>,
    pub filestore: Option<FilestorePatchView>,
    pub ingress: Option<IngressPatchView>,
    pub resources: Option<ResourceRequirementsView>,
    pub affinity: Option<PodAffinity>,
    pub tolerations: Option<Seq<PodToleration>>,
    pub cron: Option<CronPatchView>,
}

impl DeepView for SpecPatch {
    type V = SpecPatchView;

    open spec fn deep_view(&self) -> SpecPatchView {
        SpecPatchView {
            image: self.image.deep_view(),
            filestore: self.filestore.deep_view(),
            ingress: self.ingress.deep_view(),
            resources: self.resources.deep_view(),
            affinity: self.affinity,
            tolerations: match self.tolerations {
                Some(v) => Some(v@),
                None => None,
            },
            cron: self.cron.deep_view(),
        }
    }
}

impl SpecPatchView {
    /// Every field empty or absent.
    pub open spec fn blank() -> SpecPatchView {
        SpecPatchView {
            image: None,
            filestore: None,
            ingress: None,
            resources: None,
            affinity: None,
            tolerations: None,
            cron: None,
        }
    }
}

impl Default for SpecPatch {
    fn default() -> (r: SpecPatch)
        ensures
            r.deep_view() == SpecPatchView::blank(),
    {
        SpecPatch {
            image: None,
            filestore: None,
            ingress: None,
            resources: None,
            affinity: None,
            tolerations: None,
            cron: None,
        }
    }
}

/// The default, or what stands for it where the operator has none.
pub open spec fn or_built_in(default: Seq<char>, built_in: Seq<char>) -> Seq<char> {
    if default.len() == 0 {
        built_in
    } else {
        default
    }
}

/// A default for a field that is unset, where the operator has one.
pub open spec fn fill(field: Option<Seq<char>>, default: Seq<char>) -> Option<Seq<char>> {
    if field is None && default.len() != 0 {
        Some(default)
    } else {
        None
    }
}

/// The defaults for the filestore.
pub open spec fn filestore_defaults(
    spec: OdooInstanceSpecView,
    defaults: OperatorDefaultsView,
) -> FilestorePatchView {
    FilestorePatchView {
        storage_class: if spec.filestore matches Some(f) && f.storage_class is Some {
            None
        } else {
            Some(or_built_in(defaults.storage_class, "standard"@))
        },
        storage_size: if spec.filestore matches Some(f) && f.storage_size is Some {
            None
        } else {
            Some(or_built_in(defaults.storage_size, "2Gi"@))
        },
    }
}

/// The defaults for the routing.
pub open spec fn ingress_defaults(
    spec: OdooInstanceSpecView,
    defaults: OperatorDefaultsView,
) -> IngressPatchView {
    IngressPatchView {
        issuer: fill(spec.ingress.issuer, defaults.ingress_issuer),
        class: fill(spec.ingress.class, defaults.ingress_class),
        gateway_ref: if spec.ingress.gateway_ref is None && defaults.gateway_ref_name.len() != 0
            && defaults.gateway_ref_namespace.len() != 0 {
            Some(
                GatewayRefView {
                    name: defaults.gateway_ref_name,
                    namespace: defaults.gateway_ref_namespace,
                },
            )
        } else {
            None
        },
    }
}

/// What the web container is to have: what the spec sets, else the operator's
/// default.
pub open spec fn web_resources(
    spec: OdooInstanceSpecView,
    defaults: OperatorDefaultsView,
) -> Option<ResourceRequirementsView> {
    if spec.resources is Some {
        spec.resources
    } else {
        defaults.resources
    }
}

/// What the operator fills in: each field that is unset and that it has a
/// default for, and nothing else. Cron defaults to what web has.
pub open spec fn defaults_for(
    spec: OdooInstanceSpecView,
    defaults: OperatorDefaultsView,
) -> SpecPatchView {
    let filestore = filestore_defaults(spec, defaults);
    let ingress = ingress_defaults(spec, defaults);
    SpecPatchView {
        image: if spec.image is None {
            Some(or_built_in(defaults.odoo_image, "odoo:18.0"@))
        } else {
            None
        },
        filestore: if filestore == FilestorePatchView::blank() {
            None
        } else {
            Some(filestore)
        },
        ingress: if ingress == IngressPatchView::blank() {
            None
        } else {
            Some(ingress)
        },
        resources: if spec.resources is None {
            defaults.resources
        } else {
            None
        },
        affinity: if spec.affinity is None {
            defaults.affinity
        } else {
            None
        },
        tolerations: if spec.tolerations.len() == 0 && defaults.tolerations.len() != 0 {
            Some(defaults.tolerations)
        } else {
            None
        },
        cron: if spec.cron.resources is None && web_resources(spec, defaults) is Some {
            Some(CronPatchView { resources: web_resources(spec, defaults) })
        } else {
            None
        },
    }
}

fn fill_text(field: &Option<String>, default: &str) -> (r: Option<String>)
    ensures
        r.deep_view() == fill(field.deep_view(), default@),
{
    if field.is_none() && !is_empty(default) {
        Some(default.to_string())
    } else {
        None
    }
}

fn text_or_built_in(default: &str, built_in: &str) -> (r: String)
    ensures
        r@ == or_built_in(default@, built_in@),
{
    if is_empty(default) {
        built_in.to_string()
    } else {
        default.to_string()
    }
}

fn filestore_patch(spec: &OdooInstanceSpec, defaults: &OperatorDefaults) -> (r: Option<
    FilestorePatch,
>)
    ensures
        r.deep_view() == defaults_for(spec.deep_view(), defaults.deep_view()).filestore,
{
    let (has_class, has_size) = match &spec.filestore {
        Some(f) => (f.storage_class.is_some(), f.storage_size.is_some()),
        None => (false, false),
    };
    if has_class && has_size {
        return None;
    }
    Some(
        FilestorePatch {
            storage_class: if has_class {
                None
            } else {
                Some(text_or_built_in(defaults.storage_class.as_str(), "standard"))
            },
            storage_size: if has_size {
                None
            } else {
                Some(text_or_built_in(defaults.storage_size.as_str(), "2Gi"))
            },
        },
    )
}

fn ingress_patch(spec: &OdooInstanceSpec, defaults: &OperatorDefaults) -> (r: Option<IngressPatch>)
    ensures
        r.deep_view() == defaults_for(spec.deep_view(), defaults.deep_view()).ingress,
{
    let issuer = fill_text(&spec.ingress.issuer, defaults.ingress_issuer.as_str());
    let class = fill_text(&spec.ingress.class, defaults.ingress_class.as_str());
    let gateway_ref = if spec.ingress.gateway_ref.is_none() && !is_empty(
        defaults.gateway_ref_name.as_str(),
    ) && !is_empty(defaults.gateway_ref_namespace.as_str()) {
        Some(
            GatewayRef {
                name: defaults.gateway_ref_name.clone(),
                namespace: defaults.gateway_ref_namespace.clone(),
            },
        )
    } else {
        None
    };
    if issuer.is_none() && class.is_none() && gateway_ref.is_none() {
        None
    } else {
        Some(IngressPatch { issuer, class, gateway_ref })
    }
}

fn default_resources(
    field: &Option<ResourceRequirements>,
    default: &Option<ResourceRequirements>,
) -> (r: Option<ResourceRequirements>)
    ensures
        r.deep_view() == if field is None {
            default.deep_view()
        } else {
            None
        },
{
    match (field, default) {
        (None, Some(resources)) => Some(resources.clone()),
        _ => None,
    }
}

/// Operator-level defaults for the unset fields of a spec, as a merge patch of
/// it. `None` when there is nothing to fill in; otherwise the patch is to be
/// persisted and the instance looked at again.
pub fn apply_defaults(instance: &OdooInstance, defaults: &OperatorDefaults) -> (r: Option<
    SpecPatch,
>)
    ensures
        r.deep_view() == {
            let patch = defaults_for(instance.deep_view().spec, defaults.deep_view());
            if patch == SpecPatchView::blank() {
                None
            } else {
                Some(patch)
            }
        },
{
    let spec = &instance.spec;
    let image = if spec.image.is_none() {
        Some(text_or_built_in(defaults.odoo_image.as_str(), "odoo:18.0"))
    } else {
        None
    };
    let filestore = filestore_patch(spec, defaults);
    let ingress = ingress_patch(spec, defaults);
    let resources = default_resources(&spec.resources, &defaults.resources);
    let affinity: Option<PodAffinity> = if spec.affinity.is_none() {
        defaults.affinity.clone()
    } else {
        None
    };
    let tolerations: Option<Vec<PodToleration>> = if spec.tolerations.len() == 0
        && defaults.tolerations.len() != 0 {
        Some(copy_tolerations(&defaults.tolerations))
    } else {
        None
    };
    let web = if spec.resources.is_some() {
        &spec.resources
    } else {
        &defaults.resources
    };
    let cron = match default_resources(&spec.cron.resources, web) {
        Some(resources) => Some(CronPatch { resources: Some(resources) }),
        None => None,
    };
    if image.is_none() && filestore.is_none() && ingress.is_none() && resources.is_none()
        && affinity.is_none() && tolerations.is_none() && cron.is_none() {
        return None;
    }
    Some(SpecPatch { image, filestore, ingress, resources, affinity, tolerations, cron })
}

// ── Laws ────────────────────────────────────────────────────────────────────
/// A spec after a merge patch.
pub open spec fn patched(spec: OdooInstanceSpecView, patch: SpecPatchView) -> OdooInstanceSpecView {
    OdooInstanceSpecView {
        image: if patch.image is Some {
            patch.image
        } else {
            spec.image
        },
        filestore: match patch.filestore {
            Some(p) => Some(
                FilestoreSpecView {
                    storage_size: match p.storage_size {
                        Some(size) => Some(size),
                        None => match spec.filestore {
                            Some(f) => f.storage_size,
                            None => None,
                        },
                    },
                    storage_class: match p.storage_class {
                        Some(class) => Some(class),
                        None => match spec.filestore {
                            Some(f) => f.storage_class,
                            None => None,
                        },
                    },
                },
            ),
            None => spec.filestore,
        },
        ingress: match patch.ingress {
            Some(p) => IngressSpecView {
                issuer: if p.issuer is Some {
                    p.issuer
                } else {
                    spec.ingress.issuer
                },
                class: if p.class is Some {
                    p.class
                } else {
                    spec.ingress.class
                },
                gateway_ref: if p.gateway_ref is Some {
                    p.gateway_ref
                } else {
                    spec.ingress.gateway_ref
                },
                ..spec.ingress
            },
            None => spec.ingress,
        },
        resources: if patch.resources is Some {
            patch.resources
        } else {
            spec.resources
        },
        affinity: if patch.affinity is Some {
            patch.affinity
        } else {
            spec.affinity
        },
        tolerations: match patch.tolerations {
            Some(tolerations) => tolerations,
            None => spec.tolerations,
        },
        cron: match patch.cron {
            Some(p) => CronSpecView {
                resources: if p.resources is Some {
                    p.resources
                } else {
                    spec.cron.resources
                },
                ..spec.cron
            },
            None => spec.cron,
        },
        ..spec
    }
}

/// Filling in defaults is done once: after the patch there is nothing left to
/// fill in, and the image, the storage class and the storage size are set.
pub proof fn defaults_settle(spec: OdooInstanceSpecView, defaults: OperatorDefaultsView)
    ensures
        ({
            let after = patched(spec, defaults_for(spec, defaults));
            &&& defaults_for(after, defaults) == SpecPatchView::blank()
            &&& after.image is Some
            &&& after.filestore matches Some(f) && f.storage_class is Some && f.storage_size is Some
        }),
{
}

/// Cron defaults to the resources of web: where a spec sets none for cron, cron has
/// after the patch what web has, whether the spec or the operator says so.
pub proof fn cron_resources_default_to_web(
    spec: OdooInstanceSpecView,
    defaults: OperatorDefaultsView,
)
    requires
        spec.cron.resources is None,
    ensures
        ({
            let after = patched(spec, defaults_for(spec, defaults));
            &&& after.cron.resources == after.resources
            &&& spec.resources is Some ==> after.cron.resources == spec.resources
        }),
{
}

/// Defaults never override: what a spec sets stays as it was.
pub proof fn defaults_keep_what_is_set(spec: OdooInstanceSpecView, defaults: OperatorDefaultsView)
    ensures
        ({
            let after = patched(spec, defaults_for(spec, defaults));
            &&& spec.image is Some ==> after.image == spec.image
            &&& (spec.filestore matches Some(f) && f.storage_class is Some)
                ==> after.filestore->0.storage_class == spec.filestore->0.storage_class
            &&& (spec.filestore matches Some(f) && f.storage_size is Some)
                ==> after.filestore->0.storage_size == spec.filestore->0.storage_size
            &&& spec.ingress.issuer is Some ==> after.ingress.issuer == spec.ingress.issuer
            &&& spec.ingress.class is Some ==> after.ingress.class == spec.ingress.class
            &&& spec.ingress.gateway_ref is Some ==> after.ingress.gateway_ref
                == spec.ingress.gateway_ref
            &&& after.ingress.hosts == spec.ingress.hosts
            &&& spec.resources is Some ==> after.resources == spec.resources
            &&& spec.affinity is Some ==> after.affinity == spec.affinity
            &&& spec.tolerations.len() != 0 ==> after.tolerations == spec.tolerations
            &&& spec.cron.resources is Some ==> after.cron.resources == spec.cron.resources
            &&& after.cron.replicas == spec.cron.replicas
            &&& after.replicas == spec.replicas
            &&& after.database == spec.database
            &&& after.admin_password == spec.admin_password
            &&& after.admin_password_secret_ref == spec.admin_password_secret_ref
        }),
{
}

/// What a spec leaves open becomes the operator's default, each field by itself: the
/// image, the storage class and the storage size fall back further, to `odoo:18.0`,
/// `standard` and `2Gi`; a Gateway is filled in only whole; and where the operator has
/// no default either, the field stays open.
pub proof fn open_fields_get_the_operators_default(
    spec: OdooInstanceSpecView,
    defaults: OperatorDefaultsView,
)
    ensures
        ({
            let after = patched(spec, defaults_for(spec, defaults));
            let has_class = spec.filestore matches Some(f) && f.storage_class is Some;
            let has_size = spec.filestore matches Some(f) && f.storage_size is Some;
            let gateway = defaults.gateway_ref_name.len() > 0
                && defaults.gateway_ref_namespace.len() > 0;
            &&& spec.image is None ==> after.image == Some(
                if defaults.odoo_image.len() > 0 {
                    defaults.odoo_image
                } else {
                    "odoo:18.0"@
                },
            )
            &&& !has_class ==> after.filestore is Some && after.filestore->0.storage_class == Some(
                if defaults.storage_class.len() > 0 {
                    defaults.storage_class
                } else {
                    "standard"@
                },
            )
            &&& !has_size ==> after.filestore is Some && after.filestore->0.storage_size == Some(
                if defaults.storage_size.len() > 0 {
                    defaults.storage_size
                } else {
                    "2Gi"@
                },
            )
            &&& spec.ingress.issuer is None ==> after.ingress.issuer
                == if defaults.ingress_issuer.len() > 0 {
                Some(defaults.ingress_issuer)
            } else {
                None
            }
            &&& spec.ingress.class is None ==> after.ingress.class
                == if defaults.ingress_class.len() > 0 {
                Some(defaults.ingress_class)
            } else {
                None
            }
            &&& spec.ingress.gateway_ref is None && !gateway ==> after.ingress.gateway_ref is None
            &&& spec.ingress.gateway_ref is None && gateway ==> {
                &&& after.ingress.gateway_ref is Some
                &&& after.ingress.gateway_ref->0.name == defaults.gateway_ref_name
                &&& after.ingress.gateway_ref->0.namespace == defaults.gateway_ref_namespace
            }
            &&& spec.resources is None ==> after.resources == defaults.resources
            &&& spec.affinity is None ==> after.affinity == defaults.affinity
            &&& spec.tolerations.len() == 0 ==> after.tolerations =~= defaults.tolerations
            &&& spec.cron.resources is None && spec.resources is None ==> after.cron.resources
                == defaults.resources
        }),
{
}

/// A patch is made exactly where it would change something, and it is then what was
/// to be filled in. It sets nothing that the spec sets already.
pub proof fn patches_are_made_where_something_is_open(
    instance: OdooInstance,
    defaults: OperatorDefaults,
    made: Option<SpecPatch>,
)
    requires
        call_ensures(apply_defaults, (&instance, &defaults), made),
    ensures
        ({
            let spec = instance.deep_view().spec;
            let patch = made->0.deep_view();
            &&& made is None ==> patched(spec, defaults_for(spec, defaults.deep_view())) == spec
            &&& made is None ==> spec.image is Some && (spec.filestore matches Some(f)
                && f.storage_class is Some && f.storage_size is Some)
            &&& made is Some ==> {
                &&& patch == defaults_for(spec, defaults.deep_view())
                &&& patch != SpecPatchView::blank()
                &&& patch.image is Some <==> spec.image is None
                &&& spec.resources is Some ==> patch.resources is None
                &&& spec.affinity is Some ==> patch.affinity is None
                &&& spec.tolerations.len() > 0 ==> patch.tolerations is None
                &&& spec.cron.resources is Some ==> patch.cron is None
                &&& patch.ingress matches Some(ingress) ==> {
                    &&& ingress.issuer is Some ==> spec.ingress.issuer is None
                    &&& ingress.class is Some ==> spec.ingress.class is None
                    &&& ingress.gateway_ref is Some ==> spec.ingress.gateway_ref is None
                }
                &&& patch.filestore matches Some(filestore) ==> {
                    &&& filestore.storage_class is Some <==> !(spec.filestore matches Some(f)
                        && f.storage_class is Some)
                    &&& filestore.storage_size is Some <==> !(spec.filestore matches Some(f)
                        && f.storage_size is Some)
                }
            }
        }),
{
    assert(made is Some ==> made.deep_view() == Some(made->0.deep_view()));
}

} // verus!
