//! The Kubernetes objects that every OdooInstance needs, whatever its phase:
//! Secrets, the filestore claim, odoo.conf, Service, routing, Deployments.

pub mod conf;
pub mod defaults;
pub mod deployments;
pub mod filestore;
pub mod readonly;
pub mod routing;
pub mod scaling;
pub mod secrets;

pub use crate::controller::child_resources::defaults::apply_defaults;
pub use crate::controller::child_resources::deployments::cron_container;
pub use crate::controller::child_resources::filestore::get_pvc_source;
pub use crate::controller::child_resources::readonly::{readonly_sql_env, ro_secret_name};
pub use crate::controller::child_resources::scaling::{deployment_controlled_by, scale_deployment_if_current};
pub use crate::controller::child_resources::secrets::{read_odoo_credentials, resolve_admin_password};
