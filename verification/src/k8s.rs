//! The Kubernetes objects that the operator reads and writes, as plain values.

use vstd::prelude::*;

pub mod apps;
pub mod batch;
pub mod cnpg;
pub mod dynamic;
pub mod env;
pub mod gateway;
pub mod meta;
pub mod networking;
pub mod opaque;
pub mod pods;
pub mod storage;
pub mod volumes;
