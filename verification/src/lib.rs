//! The decisions of an operator that runs Odoo instances on Kubernetes: which
//! objects an instance needs, what each of them says, when a change is admitted,
//! and when a staging database may sleep.

use vstd::prelude::*;

pub mod controller;
pub mod crd;
pub mod error;
pub mod helpers;
pub mod k8s;
pub mod postgres;
pub mod string_map;
pub mod text;
pub mod webhook;
