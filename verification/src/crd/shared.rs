//! What several resources share.

use vstd::prelude::*;

verus! {

/// A webhook to notify on job status changes.
#[derive(Debug, PartialEq)]
pub struct WebhookConfig {
    pub url: String,
}

/// What [`WebhookConfig`] holds.
#[verifier::ext_equal]
pub struct WebhookConfigView {
    pub url: Seq<char>,
}

impl DeepView for WebhookConfig {
    type V = WebhookConfigView;

    open spec fn deep_view(&self) -> WebhookConfigView {
        WebhookConfigView {
            url: self.url@,
        }
    }
}

} // verus!
