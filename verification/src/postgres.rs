//! PostgreSQL clusters.

use vstd::prelude::*;

verus! {

/// A PostgreSQL cluster and the account that the operator uses on it.
#[derive(Debug, PartialEq)]
pub struct PostgresClusterConfig {
    pub host: String,
    pub port: u16,
    pub admin_user: String,
    pub admin_password: String,
    /// Whether instances that name no cluster use this one.
    pub default: bool,
    /// Whether the cluster belongs to the tenant: its database and owning role
    /// exist already, and the operator neither creates nor drops them.
    pub adopted: bool,
}

/// What [`PostgresClusterConfig`] holds.
#[verifier::ext_equal]
pub struct PostgresClusterConfigView {
    pub host: Seq<char>,
    pub port: u16,
    pub admin_user: Seq<char>,
    pub admin_password: Seq<char>,
    pub default: bool,
    pub adopted: bool,
}

impl DeepView for PostgresClusterConfig {
    type V = PostgresClusterConfigView;

    open spec fn deep_view(&self) -> PostgresClusterConfigView {
        PostgresClusterConfigView {
            host: self.host@,
            port: self.port,
            admin_user: self.admin_user@,
            admin_password: self.admin_password@,
            default: self.default,
            adopted: self.adopted,
        }
    }
}

} // verus!
