//! The Stopped phase.

use vstd::prelude::*;

use crate::crd::odoo_instance::OdooInstance;

verus! {

/// How many pods the serving Deployments of an instance are to have.
#[derive(Debug, PartialEq, Eq)]
pub struct ServingScale {
    pub namespace: String,
    pub web: i32,
    pub cron: i32,
}

/// What [`ServingScale`] holds.
#[verifier::ext_equal]
pub struct ServingScaleView {
    pub namespace: Seq<char>,
    pub web: i32,
    pub cron: i32,
}

impl DeepView for ServingScale {
    type V = ServingScaleView;

    open spec fn deep_view(&self) -> ServingScaleView {
        ServingScaleView { namespace: self.namespace@, web: self.web, cron: self.cron }
    }
}

/// Stopped: user set replicas to 0.
pub struct Stopped;

impl Stopped {
    /// What a stopped instance is scaled to: nothing serves.
    pub fn ensure(&self, instance: &OdooInstance) -> (r: ServingScale)
        ensures
            r.deep_view() == (ServingScaleView {
                namespace: instance.deep_view().metadata.namespace_or_empty(),
                web: 0,
                cron: 0,
            }),
    {
        ServingScale { namespace: instance.metadata.namespace_or_empty(), web: 0, cron: 0 }
    }
}

/// A stopped instance serves nothing, wherever it is: neither its web nor its cron
/// Deployment keeps a pod.
pub proof fn stopped_instances_serve_nothing(
    stopped: Stopped,
    instance: OdooInstance,
    scale: ServingScale,
)
    requires
        call_ensures(Stopped::ensure, (&stopped, &instance), scale),
    ensures
        scale.web == 0,
        scale.cron == 0,
        scale.namespace@ == instance.deep_view().metadata.namespace_or_empty(),
{
}

} // verus!
