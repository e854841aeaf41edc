//! Jobs.

use vstd::prelude::*;

use crate::k8s::meta::{ObjectMeta, ObjectMetaView};
use crate::k8s::pods::{PodTemplateSpec, PodTemplateSpecView};

verus! {

/// What a Job is to be.
#[derive(Debug, PartialEq)]
pub struct JobSpec {
    pub backoff_limit: Option<i32>,
    pub ttl_seconds_after_finished: Option<i32>,
    pub active_deadline_seconds: Option<i64>,
    pub template: PodTemplateSpec,
}

/// What [`JobSpec`] holds.
#[verifier::ext_equal]
pub struct JobSpecView {
    pub backoff_limit: Option<i32>,
    pub ttl_seconds_after_finished: Option<i32>,
    pub active_deadline_seconds: Option<i64>,
    pub template: PodTemplateSpecView,
}

impl DeepView for JobSpec {
    type V = JobSpecView;

    open spec fn deep_view(&self) -> JobSpecView {
        JobSpecView {
            backoff_limit: self.backoff_limit,
            ttl_seconds_after_finished: self.ttl_seconds_after_finished,
            active_deadline_seconds: self.active_deadline_seconds,
            template: self.template.deep_view(),
        }
    }
}

impl JobSpecView {
    /// Every field empty or absent.
    pub open spec fn blank() -> JobSpecView {
        JobSpecView {
            backoff_limit: None,
            ttl_seconds_after_finished: None,
            active_deadline_seconds: None,
            template: PodTemplateSpecView::blank(),
        }
    }
}

impl Default for JobSpec {
    fn default() -> (r: JobSpec)
        ensures
            r.deep_view() == JobSpecView::blank(),
    {
        JobSpec {
            backoff_limit: None,
            ttl_seconds_after_finished: None,
            active_deadline_seconds: None,
            template: PodTemplateSpec::default(),
        }
    }
}

/// A Job.
#[derive(Debug, PartialEq)]
pub struct Job {
    pub metadata: ObjectMeta,
    pub spec: Option<JobSpec>,
}

/// What [`Job`] holds.
#[verifier::ext_equal]
pub struct JobView {
    pub metadata: ObjectMetaView,
    pub spec: Option<JobSpecView>,
}

impl DeepView for Job {
    type V = JobView;

    open spec fn deep_view(&self) -> JobView {
        JobView {
            metadata: self.metadata.deep_view(),
            spec: self.spec.deep_view(),
        }
    }
}

impl JobView {
    /// Every field empty or absent.
    pub open spec fn blank() -> JobView {
        JobView {
            metadata: ObjectMetaView::blank(),
            spec: None,
        }
    }
}

impl Default for Job {
    fn default() -> (r: Job)
        ensures
            r.deep_view() == JobView::blank(),
    {
        Job {
            metadata: ObjectMeta::default(),
            spec: None,
        }
    }
}

} // verus!
