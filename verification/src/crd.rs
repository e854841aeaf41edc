//! Custom resources.

use vstd::prelude::*;

pub mod monitoring;
pub mod odoo_instance;
pub mod rules;
pub mod shared;
