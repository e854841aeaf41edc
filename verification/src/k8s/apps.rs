//! Deployments.

use vstd::prelude::*;

use crate::k8s::meta::{LabelSelector, LabelSelectorView, ObjectMeta, ObjectMetaView};
use crate::k8s::pods::{IntOrString, IntOrStringView, PodTemplateSpec, PodTemplateSpecView};

verus! {

/// The parameters of a rolling update.
#[derive(Debug, PartialEq)]
pub struct RollingUpdateDeployment {
    pub max_unavailable: Option<IntOrString>,
    pub max_surge: Option<IntOrString>,
}

/// What [`RollingUpdateDeployment`] holds.
#[verifier::ext_equal]
pub struct RollingUpdateDeploymentView {
    pub max_unavailable: Option<IntOrStringView>,
    pub max_surge: Option<IntOrStringView>,
}

impl DeepView for RollingUpdateDeployment {
    type V = RollingUpdateDeploymentView;

    open spec fn deep_view(&self) -> RollingUpdateDeploymentView {
        RollingUpdateDeploymentView {
            max_unavailable: self.max_unavailable.deep_view(),
            max_surge: self.max_surge.deep_view(),
        }
    }
}

impl RollingUpdateDeploymentView {
    /// Every field empty or absent.
    pub open spec fn blank() -> RollingUpdateDeploymentView {
        RollingUpdateDeploymentView {
            max_unavailable: None,
            max_surge: None,
        }
    }
}

impl Default for RollingUpdateDeployment {
    fn default() -> (r: RollingUpdateDeployment)
        ensures
            r.deep_view() == RollingUpdateDeploymentView::blank(),
    {
        RollingUpdateDeployment {
            max_unavailable: None,
            max_surge: None,
        }
    }
}

/// How a Deployment replaces its pods.
#[derive(Debug, PartialEq)]
pub struct DeploymentStrategy {
    pub type_: Option<String>,
    pub rolling_update: Option<RollingUpdateDeployment>,
}

/// What [`DeploymentStrategy`] holds.
#[verifier::ext_equal]
pub struct DeploymentStrategyView {
    pub type_: Option<Seq<char>>,
    pub rolling_update: Option<RollingUpdateDeploymentView>,
}

impl DeepView for DeploymentStrategy {
    type V = DeploymentStrategyView;

    open spec fn deep_view(&self) -> DeploymentStrategyView {
        DeploymentStrategyView {
            type_: self.type_.deep_view(),
            rolling_update: self.rolling_update.deep_view(),
        }
    }
}

impl DeploymentStrategyView {
    /// Every field empty or absent.
    pub open spec fn blank() -> DeploymentStrategyView {
        DeploymentStrategyView {
            type_: None,
            rolling_update: None,
        }
    }
}

impl Default for DeploymentStrategy {
    fn default() -> (r: DeploymentStrategy)
        ensures
            r.deep_view() == DeploymentStrategyView::blank(),
    {
        DeploymentStrategy {
            type_: None,
            rolling_update: None,
        }
    }
}

/// What a Deployment is to be.
#[derive(Debug, PartialEq)]
pub struct DeploymentSpec {
    pub replicas: Option<i32>,
    pub selector: LabelSelector,
    pub strategy: Option<DeploymentStrategy>,
    pub template: PodTemplateSpec,
}

/// What [`DeploymentSpec`] holds.
#[verifier::ext_equal]
pub struct DeploymentSpecView {
    pub replicas: Option<i32>,
    pub selector: LabelSelectorView,
    pub strategy: Option<DeploymentStrategyView>,
    pub template: PodTemplateSpecView,
}

impl DeepView for DeploymentSpec {
    type V = DeploymentSpecView;

    open spec fn deep_view(&self) -> DeploymentSpecView {
        DeploymentSpecView {
            replicas: self.replicas,
            selector: self.selector.deep_view(),
            strategy: self.strategy.deep_view(),
            template: self.template.deep_view(),
        }
    }
}

impl DeploymentSpecView {
    /// Every field empty or absent.
    pub open spec fn blank() -> DeploymentSpecView {
        DeploymentSpecView {
            replicas: None,
            selector: LabelSelectorView::blank(),
            strategy: None,
            template: PodTemplateSpecView::blank(),
        }
    }
}

impl Default for DeploymentSpec {
    fn default() -> (r: DeploymentSpec)
        ensures
            r.deep_view() == DeploymentSpecView::blank(),
    {
        DeploymentSpec {
            replicas: None,
            selector: LabelSelector::default(),
            strategy: None,
            template: PodTemplateSpec::default(),
        }
    }
}

/// What the Deployment controller has observed.
#[derive(Debug, PartialEq)]
pub struct DeploymentStatus {
    pub observed_generation: Option<i64>,
    pub replicas: Option<i32>,
    pub ready_replicas: Option<i32>,
}

/// What [`DeploymentStatus`] holds.
#[verifier::ext_equal]
pub struct DeploymentStatusView {
    pub observed_generation: Option<i64>,
    pub replicas: Option<i32>,
    pub ready_replicas: Option<i32>,
}

impl DeepView for DeploymentStatus {
    type V = DeploymentStatusView;

    open spec fn deep_view(&self) -> DeploymentStatusView {
        DeploymentStatusView {
            observed_generation: self.observed_generation,
            replicas: self.replicas,
            ready_replicas: self.ready_replicas,
        }
    }
}

impl DeploymentStatusView {
    /// Every field empty or absent.
    pub open spec fn blank() -> DeploymentStatusView {
        DeploymentStatusView {
            observed_generation: None,
            replicas: None,
            ready_replicas: None,
        }
    }
}

impl Default for DeploymentStatus {
    fn default() -> (r: DeploymentStatus)
        ensures
            r.deep_view() == DeploymentStatusView::blank(),
    {
        DeploymentStatus {
            observed_generation: None,
            replicas: None,
            ready_replicas: None,
        }
    }
}

/// A Deployment.
#[derive(Debug, PartialEq)]
pub struct Deployment {
    pub metadata: ObjectMeta,
    pub spec: Option<DeploymentSpec>,
    pub status: Option<DeploymentStatus>,
}

/// What [`Deployment`] holds.
#[verifier::ext_equal]
pub struct DeploymentView {
    pub metadata: ObjectMetaView,
    pub spec: Option<DeploymentSpecView>,
    pub status: Option<DeploymentStatusView>,
}

impl DeepView for Deployment {
    type V = DeploymentView;

    open spec fn deep_view(&self) -> DeploymentView {
        DeploymentView {
            metadata: self.metadata.deep_view(),
            spec: self.spec.deep_view(),
            status: self.status.deep_view(),
        }
    }
}

impl DeploymentView {
    /// Every field empty or absent.
    pub open spec fn blank() -> DeploymentView {
        DeploymentView {
            metadata: ObjectMetaView::blank(),
            spec: None,
            status: None,
        }
    }
}

impl Default for Deployment {
    fn default() -> (r: Deployment)
        ensures
            r.deep_view() == DeploymentView::blank(),
    {
        Deployment {
            metadata: ObjectMeta::default(),
            spec: None,
            status: None,
        }
    }
}

} // verus!
