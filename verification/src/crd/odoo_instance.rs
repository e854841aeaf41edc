//! The OdooInstance resource.

use vstd::prelude::*;

use crate::crd::shared::{WebhookConfig, WebhookConfigView};
use crate::k8s::env::{EnvVar, EnvVarView};
use crate::k8s::meta::{ObjectMeta, ObjectMetaView, Resource};
use crate::k8s::opaque::{EnvSource, PodAffinity, PodToleration, StatusCondition};
use crate::k8s::pods::{ResourceRequirements, ResourceRequirementsView};
use crate::string_map::StringMap;
use crate::text::same;

verus! {

/// GatewayRef identifies a Gateway API Gateway resource for HTTPRoute creation.
/// When set on [`IngressSpec`], the instance gets an HTTPRoute instead of an Ingress.
#[derive(Debug, PartialEq)]
pub struct GatewayRef {
    pub name: String,
    pub namespace: String,
}

/// What [`GatewayRef`] holds.
#[verifier::ext_equal]
pub struct GatewayRefView {
    pub name: Seq<char>,
    pub namespace: Seq<char>,
}

impl DeepView for GatewayRef {
    type V = GatewayRefView;

    open spec fn deep_view(&self) -> GatewayRefView {
        GatewayRefView {
            name: self.name@,
            namespace: self.namespace@,
        }
    }
}

impl Clone for GatewayRef {
    fn clone(&self) -> (r: GatewayRef)
        ensures
            r.deep_view() == self.deep_view(),
    {
        GatewayRef {
            name: self.name.clone(),
            namespace: self.namespace.clone(),
        }
    }
}

/// IngressSpec defines how the OdooInstance should be exposed.
#[derive(Debug, PartialEq)]
pub struct IngressSpec {
    pub hosts: Vec<String>,
    pub issuer: Option<String>,
    pub class: Option<String>,
    pub gateway_ref: Option<GatewayRef>,
}

/// What [`IngressSpec`] holds.
#[verifier::ext_equal]
pub struct IngressSpecView {
    pub hosts: Seq<Seq<char>>,
    pub issuer: Option<Seq<char>>,
    pub class: Option<Seq<char>>,
    pub gateway_ref: Option<GatewayRefView>,
}

impl DeepView for IngressSpec {
    type V = IngressSpecView;

    open spec fn deep_view(&self) -> IngressSpecView {
        IngressSpecView {
            hosts: self.hosts.deep_view(),
            issuer: self.issuer.deep_view(),
            class: self.class.deep_view(),
            gateway_ref: self.gateway_ref.deep_view(),
        }
    }
}

/// One mount of a source claim into an Odoo container.
///
/// The same claim is usually mounted more than once: the platform that owns it
/// lays out both the Odoo checkouts and a dependency tree on it, and the runtime
/// has to reproduce the absolute paths that the build step used.
#[derive(Debug, PartialEq)]
pub struct SourceVolumeMount {
    /// Absolute path inside the container.
    pub mount_path: String,
    /// Optional path within the volume to mount at `mount_path`.
    pub sub_path: Option<String>,
    /// Mount read-only.
    pub read_only: bool,
}

/// What [`SourceVolumeMount`] holds.
#[verifier::ext_equal]
pub struct SourceVolumeMountView {
    pub mount_path: Seq<char>,
    pub sub_path: Option<Seq<char>>,
    pub read_only: bool,
}

impl DeepView for SourceVolumeMount {
    type V = SourceVolumeMountView;

    open spec fn deep_view(&self) -> SourceVolumeMountView {
        SourceVolumeMountView {
            mount_path: self.mount_path@,
            sub_path: self.sub_path.deep_view(),
            read_only: self.read_only,
        }
    }
}

/// Points the instance at an externally managed volume that carries the Odoo
/// source tree, and says how to launch it: every container that executes Odoo
/// runs `python3 <odoo_bin> -c /etc/odoo/odoo.conf` with the claim mounted, in
/// place of the official image's `/entrypoint.sh odoo`.
///
/// The claim is never created by the operator; the owning platform populates it
/// before the instance runs.
#[derive(Debug, PartialEq)]
pub struct SourceVolumeSpec {
    /// Name of the existing PersistentVolumeClaim that holds the source tree.
    pub claim_name: String,
    /// How to mount that claim. Must be non-empty.
    pub mounts: Vec<SourceVolumeMount>,
    /// Absolute path to `odoo-bin` as seen through `mounts`.
    pub odoo_bin: String,
}

/// What [`SourceVolumeSpec`] holds.
#[verifier::ext_equal]
pub struct SourceVolumeSpecView {
    pub claim_name: Seq<char>,
    pub mounts: Seq<SourceVolumeMountView>,
    pub odoo_bin: Seq<char>,
}

impl DeepView for SourceVolumeSpec {
    type V = SourceVolumeSpecView;

    open spec fn deep_view(&self) -> SourceVolumeSpecView {
        SourceVolumeSpecView {
            claim_name: self.claim_name@,
            mounts: self.mounts.deep_view(),
            odoo_bin: self.odoo_bin@,
        }
    }
}

/// Shared custom addons, read-only to Odoo and managed by the hosting platform.
#[derive(Debug, PartialEq)]
pub struct CustomSourceVolumeSpec {
    pub claim_name: String,
    pub mounts: Vec<SourceVolumeMount>,
}

/// What [`CustomSourceVolumeSpec`] holds.
#[verifier::ext_equal]
pub struct CustomSourceVolumeSpecView {
    pub claim_name: Seq<char>,
    pub mounts: Seq<SourceVolumeMountView>,
}

impl DeepView for CustomSourceVolumeSpec {
    type V = CustomSourceVolumeSpecView;

    open spec fn deep_view(&self) -> CustomSourceVolumeSpecView {
        CustomSourceVolumeSpecView {
            claim_name: self.claim_name@,
            mounts: self.mounts.deep_view(),
        }
    }
}

/// Production HTTP telemetry only. The platform owns the immutable mapping
/// ConfigMap; the operator owns the exporter container and its fixed contract.
#[derive(Debug, PartialEq)]
pub struct MonitoringSpec {
    pub exporter_image: String,
    /// Content-addressed, immutable ConfigMap with `statsd-mapping.yml`.
    pub config_map_name: String,
    /// Exporter resource budget, in place of the default one.
    pub resources: Option<ResourceRequirements>,
}

/// What [`MonitoringSpec`] holds.
#[verifier::ext_equal]
pub struct MonitoringSpecView {
    pub exporter_image: Seq<char>,
    pub config_map_name: Seq<char>,
    pub resources: Option<ResourceRequirementsView>,
}

impl DeepView for MonitoringSpec {
    type V = MonitoringSpecView;

    open spec fn deep_view(&self) -> MonitoringSpecView {
        MonitoringSpecView {
            exporter_image: self.exporter_image@,
            config_map_name: self.config_map_name@,
            resources: self.resources.deep_view(),
        }
    }
}

/// Sources the Odoo master password from a Secret of the instance's namespace.
/// Exactly one of `admin_password` and `admin_password_secret_ref` is to be set.
#[derive(Debug, PartialEq)]
pub struct AdminPasswordSecretRef {
    pub name: String,
    pub key: String,
}

/// What [`AdminPasswordSecretRef`] holds.
#[verifier::ext_equal]
pub struct AdminPasswordSecretRefView {
    pub name: Seq<char>,
    pub key: Seq<char>,
}

impl DeepView for AdminPasswordSecretRef {
    type V = AdminPasswordSecretRefView;

    open spec fn deep_view(&self) -> AdminPasswordSecretRefView {
        AdminPasswordSecretRefView {
            name: self.name@,
            key: self.key@,
        }
    }
}

/// FilestoreSpec defines persistent storage for the Odoo filestore.
#[derive(Debug, PartialEq)]
pub struct FilestoreSpec {
    pub storage_size: Option<String>,
    pub storage_class: Option<String>,
}

/// What [`FilestoreSpec`] holds.
#[verifier::ext_equal]
pub struct FilestoreSpecView {
    pub storage_size: Option<Seq<char>>,
    pub storage_class: Option<Seq<char>>,
}

impl DeepView for FilestoreSpec {
    type V = FilestoreSpecView;

    open spec fn deep_view(&self) -> FilestoreSpecView {
        FilestoreSpecView {
            storage_size: self.storage_size.deep_view(),
            storage_class: self.storage_class.deep_view(),
        }
    }
}

/// What to do when the database of an initialized instance is found missing.
///
///   * `Ignore` leaves the decision to humans.
///   * `Recreate` drives the instance back to `Uninitialized`.
#[derive(Clone, Copy, Debug, Default, PartialEq, Eq, Structural)]
pub enum DatabaseMissingPolicy {
    #[default]
    Ignore,
    Recreate,
}

/// DatabaseSpec identifies which PostgreSQL cluster to use for this instance.
#[derive(Debug, PartialEq)]
pub struct DatabaseSpec {
    /// A `postgresql.cnpg.io/v1` Cluster of the namespace, or else a key of the
    /// operator's clusters file.
    pub cluster: Option<String>,
    pub name: Option<String>,
    pub missing_policy: DatabaseMissingPolicy,
    /// Whether to ensure the `unaccent` extension.
    pub unaccent: bool,
}

/// What [`DatabaseSpec`] holds.
#[verifier::ext_equal]
pub struct DatabaseSpecView {
    pub cluster: Option<Seq<char>>,
    pub name: Option<Seq<char>>,
    pub missing_policy: DatabaseMissingPolicy,
    pub unaccent: bool,
}

impl DeepView for DatabaseSpec {
    type V = DatabaseSpecView;

    open spec fn deep_view(&self) -> DatabaseSpecView {
        DatabaseSpecView {
            cluster: self.cluster.deep_view(),
            name: self.name.deep_view(),
            missing_policy: self.missing_policy,
            unaccent: self.unaccent,
        }
    }
}

/// Environment tags an OdooInstance as production or staging. The pod label
/// made of it decides which egress the network policies allow, so `Staging` is
/// the default: production has to be asked for.
#[derive(Clone, Copy, Debug, Default, PartialEq, Eq, Structural)]
pub enum Environment {
    #[default]
    Staging,
    Production,
}

impl Environment {
    /// The label value, in lower case.
    pub open spec fn label(self) -> Seq<char> {
        match self {
            Environment::Staging => "staging"@,
            Environment::Production => "production"@,
        }
    }

    /// Lowercase label value used in `bemade.org/environment`.
    pub fn as_label(&self) -> (r: &'static str)
        ensures
            r@ == self.label(),
    {
        match self {
            Environment::Staging => "staging",
            Environment::Production => "production",
        }
    }
}

/// The production `OdooInstance` that a staging instance is cloned from on first
/// initialization.
#[derive(Debug, PartialEq)]
pub struct ProductionInstanceRef {
    pub name: String,
    /// Must equal the target namespace, or be unset.
    pub namespace: Option<String>,
}

/// What [`ProductionInstanceRef`] holds.
#[verifier::ext_equal]
pub struct ProductionInstanceRefView {
    pub name: Seq<char>,
    pub namespace: Option<Seq<char>>,
}

impl DeepView for ProductionInstanceRef {
    type V = ProductionInstanceRefView;

    open spec fn deep_view(&self) -> ProductionInstanceRefView {
        ProductionInstanceRefView {
            name: self.name@,
            namespace: self.namespace.deep_view(),
        }
    }
}

/// The update strategy of the Odoo Deployments.
#[derive(Clone, Copy, Debug, Default, PartialEq, Eq, Structural)]
pub enum DeploymentStrategyType {
    #[default]
    Recreate,
    RollingUpdate,
}

/// The parameters of a rolling update.
#[derive(Debug, PartialEq)]
pub struct RollingUpdateSpec {
    pub max_unavailable: String,
    pub max_surge: String,
}

/// What [`RollingUpdateSpec`] holds.
#[verifier::ext_equal]
pub struct RollingUpdateSpecView {
    pub max_unavailable: Seq<char>,
    pub max_surge: Seq<char>,
}

impl DeepView for RollingUpdateSpec {
    type V = RollingUpdateSpecView;

    open spec fn deep_view(&self) -> RollingUpdateSpecView {
        RollingUpdateSpecView {
            max_unavailable: self.max_unavailable@,
            max_surge: self.max_surge@,
        }
    }
}

/// The share of pods that a rolling update may replace at once, unless set.
pub fn default_25_percent() -> (r: String)
    ensures
        r@ == "25%"@,
{
    "25%".to_string()
}

/// StrategySpec defines the Deployment update strategy.
#[derive(Debug, PartialEq)]
pub struct StrategySpec {
    pub strategy_type: DeploymentStrategyType,
    pub rolling_update: Option<RollingUpdateSpec>,
}

/// What [`StrategySpec`] holds.
#[verifier::ext_equal]
pub struct StrategySpecView {
    pub strategy_type: DeploymentStrategyType,
    pub rolling_update: Option<RollingUpdateSpecView>,
}

impl DeepView for StrategySpec {
    type V = StrategySpecView;

    open spec fn deep_view(&self) -> StrategySpecView {
        StrategySpecView {
            strategy_type: self.strategy_type,
            rolling_update: self.rolling_update.deep_view(),
        }
    }
}

/// An optional webhook callback for status change notifications.
#[derive(Debug, PartialEq)]
pub struct OdooWebhookConfig {
    pub url: String,
}

/// What [`OdooWebhookConfig`] holds.
#[verifier::ext_equal]
pub struct OdooWebhookConfigView {
    pub url: Seq<char>,
}

impl DeepView for OdooWebhookConfig {
    type V = OdooWebhookConfigView;

    open spec fn deep_view(&self) -> OdooWebhookConfigView {
        OdooWebhookConfigView {
            url: self.url@,
        }
    }
}

/// ProbesSpec configures the HTTP health check paths.
#[derive(Debug, PartialEq)]
pub struct ProbesSpec {
    pub startup_path: String,
    pub liveness_path: String,
    pub readiness_path: String,
}

/// What [`ProbesSpec`] holds.
#[verifier::ext_equal]
pub struct ProbesSpecView {
    pub startup_path: Seq<char>,
    pub liveness_path: Seq<char>,
    pub readiness_path: Seq<char>,
}

impl DeepView for ProbesSpec {
    type V = ProbesSpecView;

    open spec fn deep_view(&self) -> ProbesSpecView {
        ProbesSpecView {
            startup_path: self.startup_path@,
            liveness_path: self.liveness_path@,
            readiness_path: self.readiness_path@,
        }
    }
}

/// The health check path, unless set.
pub fn default_health_path() -> (r: String)
    ensures
        r@ == "/web/health"@,
{
    "/web/health".to_string()
}

/// The cron workload.
#[derive(Debug, PartialEq)]
pub struct CronSpec {
    pub replicas: i32,
    pub resources: Option<ResourceRequirements>,
}

/// What [`CronSpec`] holds.
#[verifier::ext_equal]
pub struct CronSpecView {
    pub replicas: i32,
    pub resources: Option<ResourceRequirementsView>,
}

impl DeepView for CronSpec {
    type V = CronSpecView;

    open spec fn deep_view(&self) -> CronSpecView {
        CronSpecView {
            replicas: self.replicas,
            resources: self.resources.deep_view(),
        }
    }
}

impl Default for CronSpec {
    fn default() -> (r: CronSpec)
        ensures
            r.deep_view() == (CronSpecView { replicas: 1, resources: None }),
    {
        CronSpec { replicas: default_replicas(), resources: None }
    }
}

/// Opts an instance into a read-only PostgreSQL role, whose password lives in the
/// Secret `<instance>-db-ro-password`.
#[derive(Debug, PartialEq)]
pub struct ReadOnlySqlAccessSpec {
    pub enabled: bool,
    /// Maximum number of simultaneous connections of the role.
    pub connection_limit: i32,
}

/// What [`ReadOnlySqlAccessSpec`] holds.
#[verifier::ext_equal]
pub struct ReadOnlySqlAccessSpecView {
    pub enabled: bool,
    pub connection_limit: i32,
}

impl DeepView for ReadOnlySqlAccessSpec {
    type V = ReadOnlySqlAccessSpecView;

    open spec fn deep_view(&self) -> ReadOnlySqlAccessSpecView {
        ReadOnlySqlAccessSpecView {
            enabled: self.enabled,
            connection_limit: self.connection_limit,
        }
    }
}

impl Default for ReadOnlySqlAccessSpec {
    fn default() -> (r: ReadOnlySqlAccessSpec)
        ensures
            r.deep_view() == (ReadOnlySqlAccessSpecView { enabled: false, connection_limit: 5 }),
    {
        ReadOnlySqlAccessSpec { enabled: false, connection_limit: default_ro_connection_limit() }
    }
}

/// The connection limit of the read-only role, unless set.
pub fn default_ro_connection_limit() -> (r: i32)
    ensures
        r == 5,
{
    5
}

/// InitSpec configures automatic database initialization when the instance first
/// reaches the Uninitialized phase.
#[derive(Debug, PartialEq)]
pub struct InitSpec {
    pub enabled: bool,
    pub modules: Vec<String>,
    /// Install demo data during database initialization.
    pub demo: bool,
    pub webhook: Option<WebhookConfig>,
}

/// What [`InitSpec`] holds.
#[verifier::ext_equal]
pub struct InitSpecView {
    pub enabled: bool,
    pub modules: Seq<Seq<char>>,
    pub demo: bool,
    pub webhook: Option<WebhookConfigView>,
}

impl DeepView for InitSpec {
    type V = InitSpecView;

    open spec fn deep_view(&self) -> InitSpecView {
        InitSpecView {
            enabled: self.enabled,
            modules: self.modules.deep_view(),
            demo: self.demo,
            webhook: self.webhook.deep_view(),
        }
    }
}

impl Default for InitSpec {
    fn default() -> (r: InitSpec)
        ensures
            r.deep_view() == (InitSpecView {
                enabled: true,
                modules: seq!["base"@],
                demo: false,
                webhook: None,
            }),
    {
        InitSpec {
            enabled: default_true(),
            modules: default_init_modules(),
            demo: false,
            webhook: None,
        }
    }
}

/// The value of a switch that is on unless set.
pub fn default_true() -> (r: bool)
    ensures
        r,
{
    true
}

/// The modules that an initialization installs, unless set.
pub fn default_init_modules() -> (r: Vec<String>)
    ensures
        r.deep_view() == seq!["base"@],
{
    let r = vec!["base".to_string()];
    assert(r.deep_view() =~= seq!["base"@]);
    r
}

/// The number of pods, unless set.
pub fn default_replicas() -> (r: i32)
    ensures
        r == 1,
{
    1
}

/// How the web and cron processes are spread over Deployments.
///
///   * `Separate` runs them in two Deployments.
///   * `Combined` runs both containers in one pod of one Deployment.
#[derive(Clone, Copy, Debug, Default, PartialEq, Eq, Structural)]
pub enum WorkloadLayout {
    #[default]
    Separate,
    Combined,
}

/// What sleep means for a staging instance that is scaled to zero or idle.
///
///   * `Hibernate` stops every pod and hibernates the database.
///   * `Warm` asks for web and database to be kept prepared. This library only
///     validates the mode: at zero replicas it sleeps as with `Hibernate`.
#[derive(Clone, Copy, Debug, Default, PartialEq, Eq, Structural)]
pub enum StagingSleepMode {
    #[default]
    Hibernate,
    Warm,
}

/// Opts a staging instance into sleeping while nothing uses it.
#[derive(Debug, PartialEq)]
pub struct StagingSleepSpec {
    /// The CNPG cluster, which `database.cluster` must name too.
    pub database_cluster: String,
    pub mode: StagingSleepMode,
}

/// What [`StagingSleepSpec`] holds.
#[verifier::ext_equal]
pub struct StagingSleepSpecView {
    pub database_cluster: Seq<char>,
    pub mode: StagingSleepMode,
}

impl DeepView for StagingSleepSpec {
    type V = StagingSleepSpecView;

    open spec fn deep_view(&self) -> StagingSleepSpecView {
        StagingSleepSpecView {
            database_cluster: self.database_cluster@,
            mode: self.mode,
        }
    }
}

impl StagingSleepSpec {
    /// Whether the two opt-ins are the same.
    pub fn same_as(&self, other: &StagingSleepSpec) -> (r: bool)
        ensures
            r == (self.deep_view() == other.deep_view()),
    {
        same(self.database_cluster.as_str(), other.database_cluster.as_str()) && self.mode
            == other.mode
    }
}

/// What an OdooInstance is to be.
#[derive(Debug, PartialEq)]
pub struct OdooInstanceSpec {
    pub image: Option<String>,
    pub image_pull_secret: Option<String>,
    /// Odoo master password, in plaintext.
    pub admin_password: Option<String>,
    /// Source the master password from a Secret. The rendered `odoo.conf` is then
    /// kept in a Secret rather than a ConfigMap.
    pub admin_password_secret_ref: Option<AdminPasswordSecretRef>,
    pub replicas: i32,
    pub workload_layout: WorkloadLayout,
    pub cron: CronSpec,
    pub ingress: IngressSpec,
    pub resources: Option<ResourceRequirements>,
    pub filestore: Option<FilestoreSpec>,
    pub config_options: Option<StringMap>,
    pub database: Option<DatabaseSpec>,
    pub init: InitSpec,
    pub environment: Environment,
    /// Clone this production instance on first initialization. Forbidden on
    /// production instances.
    pub production_instance_ref: Option<ProductionInstanceRef>,
    pub strategy: Option<StrategySpec>,
    pub webhook: Option<OdooWebhookConfig>,
    pub probes: Option<ProbesSpec>,
    pub affinity: Option<PodAffinity>,
    pub tolerations: Vec<PodToleration>,
    pub read_only_sql_access: Option<ReadOnlySqlAccessSpec>,
    pub staging_sleep: Option<StagingSleepSpec>,
    /// Environment variables merged over those of every container that executes
    /// Odoo, last wins by name.
    pub extra_env: Vec<EnvVar>,
    /// Sources of environment variables, appended to those of the same containers.
    pub extra_env_from: Vec<EnvSource>,
    pub source_volume: Option<SourceVolumeSpec>,
    pub custom_source_volume: Option<CustomSourceVolumeSpec>,
    pub monitoring: Option<MonitoringSpec>,
    pub run_as_user: Option<i64>,
    /// The group of every Odoo pod. `fsGroup` follows it, so that the filestore
    /// stays writable.
    pub run_as_group: Option<i64>,
}

/// What [`OdooInstanceSpec`] holds.
#[verifier::ext_equal]
pub struct OdooInstanceSpecView {
    pub image: Option<Seq<char>>,
    pub image_pull_secret: Option<Seq<char>>,
    pub admin_password: Option<Seq<char>>,
    pub admin_password_secret_ref: Option<AdminPasswordSecretRefView>,
    pub replicas: i32,
    pub workload_layout: WorkloadLayout,
    pub cron: CronSpecView,
    pub ingress: IngressSpecView,
    pub resources: Option<ResourceRequirementsView>,
    pub filestore: Option<FilestoreSpecView>,
    pub config_options: Option<Map<Seq<char>, Seq<char>>>,
    pub database: Option<DatabaseSpecView>,
    pub init: InitSpecView,
    pub environment: Environment,
    pub production_instance_ref: Option<ProductionInstanceRefView>,
    pub strategy: Option<StrategySpecView>,
    pub webhook: Option<OdooWebhookConfigView>,
    pub probes: Option<ProbesSpecView>,
    pub affinity: Option<PodAffinity>,
    pub tolerations: Seq<PodToleration>,
    pub read_only_sql_access: Option<ReadOnlySqlAccessSpecView>,
    pub staging_sleep: Option<StagingSleepSpecView>,
    pub extra_env: Seq<EnvVarView>,
    pub extra_env_from: Seq<EnvSource>,
    pub source_volume: Option<SourceVolumeSpecView>,
    pub custom_source_volume: Option<CustomSourceVolumeSpecView>,
    pub monitoring: Option<MonitoringSpecView>,
    pub run_as_user: Option<i64>,
    pub run_as_group: Option<i64>,
}

impl DeepView for OdooInstanceSpec {
    type V = OdooInstanceSpecView;

    open spec fn deep_view(&self) -> OdooInstanceSpecView {
        OdooInstanceSpecView {
            image: self.image.deep_view(),
            image_pull_secret: self.image_pull_secret.deep_view(),
            admin_password: self.admin_password.deep_view(),
            admin_password_secret_ref: self.admin_password_secret_ref.deep_view(),
            replicas: self.replicas,
            workload_layout: self.workload_layout,
            cron: self.cron.deep_view(),
            ingress: self.ingress.deep_view(),
            resources: self.resources.deep_view(),
            filestore: self.filestore.deep_view(),
            config_options: self.config_options.deep_view(),
            database: self.database.deep_view(),
            init: self.init.deep_view(),
            environment: self.environment,
            production_instance_ref: self.production_instance_ref.deep_view(),
            strategy: self.strategy.deep_view(),
            webhook: self.webhook.deep_view(),
            probes: self.probes.deep_view(),
            affinity: self.affinity,
            tolerations: self.tolerations@,
            read_only_sql_access: self.read_only_sql_access.deep_view(),
            staging_sleep: self.staging_sleep.deep_view(),
            extra_env: self.extra_env.deep_view(),
            extra_env_from: self.extra_env_from@,
            source_volume: self.source_volume.deep_view(),
            custom_source_volume: self.custom_source_volume.deep_view(),
            monitoring: self.monitoring.deep_view(),
            run_as_user: self.run_as_user,
            run_as_group: self.run_as_group,
        }
    }
}

/// uid the official Odoo Docker image runs as; the operator's default.
pub const DEFAULT_RUN_AS_USER: i64 = 100;

/// gid the official Odoo Docker image runs as; the operator's default.
pub const DEFAULT_RUN_AS_GROUP: i64 = 101;

impl OdooInstanceSpecView {
    /// The uid that the pods run as.
    pub open spec fn run_as_user_or_default(self) -> i64 {
        match self.run_as_user {
            Some(uid) => uid,
            None => DEFAULT_RUN_AS_USER,
        }
    }

    /// The gid that the pods run as.
    pub open spec fn run_as_group_or_default(self) -> i64 {
        match self.run_as_group {
            Some(gid) => gid,
            None => DEFAULT_RUN_AS_GROUP,
        }
    }
}

impl OdooInstanceSpec {
    /// Effective `runAsUser`: [`DEFAULT_RUN_AS_USER`] unless overridden.
    pub fn effective_run_as_user(&self) -> (r: i64)
        ensures
            r == self.deep_view().run_as_user_or_default(),
    {
        match self.run_as_user {
            Some(uid) => uid,
            None => DEFAULT_RUN_AS_USER,
        }
    }

    /// Effective `runAsGroup`: [`DEFAULT_RUN_AS_GROUP`] unless overridden. Also
    /// used as `fsGroup`.
    pub fn effective_run_as_group(&self) -> (r: i64)
        ensures
            r == self.deep_view().run_as_group_or_default(),
    {
        match self.run_as_group {
            Some(gid) => gid,
            None => DEFAULT_RUN_AS_GROUP,
        }
    }
}

/// The lifecycle state of an OdooInstance.
#[derive(Clone, Copy, Debug, PartialEq, Eq, Structural)]
pub enum OdooInstancePhase {
    Provisioning,
    Uninitialized,
    Initializing,
    InitFailed,
    Starting,
    Running,
    Degraded,
    Stopped,
    Upgrading,
    Restoring,
    CloningFromSource,
    BackingUp,
    MigratingFilestore,
    FinalizingFilestoreMigration,
    MigratingDatabase,
    FinalizingDatabaseMigration,
    Error,
}

impl OdooInstancePhase {
    /// The name of the phase.
    pub open spec fn name(self) -> Seq<char> {
        match self {
            OdooInstancePhase::Provisioning => "Provisioning"@,
            OdooInstancePhase::Uninitialized => "Uninitialized"@,
            OdooInstancePhase::Initializing => "Initializing"@,
            OdooInstancePhase::InitFailed => "InitFailed"@,
            OdooInstancePhase::Starting => "Starting"@,
            OdooInstancePhase::Running => "Running"@,
            OdooInstancePhase::Degraded => "Degraded"@,
            OdooInstancePhase::Stopped => "Stopped"@,
            OdooInstancePhase::Upgrading => "Upgrading"@,
            OdooInstancePhase::Restoring => "Restoring"@,
            OdooInstancePhase::CloningFromSource => "CloningFromSource"@,
            OdooInstancePhase::BackingUp => "BackingUp"@,
            OdooInstancePhase::MigratingFilestore => "MigratingFilestore"@,
            OdooInstancePhase::FinalizingFilestoreMigration => "FinalizingFilestoreMigration"@,
            OdooInstancePhase::MigratingDatabase => "MigratingDatabase"@,
            OdooInstancePhase::FinalizingDatabaseMigration => "FinalizingDatabaseMigration"@,
            OdooInstancePhase::Error => "Error"@,
        }
    }

    /// The name of the phase.
    pub fn as_str(&self) -> (r: &'static str)
        ensures
            r@ == self.name(),
    {
        match self {
            OdooInstancePhase::Provisioning => "Provisioning",
            OdooInstancePhase::Uninitialized => "Uninitialized",
            OdooInstancePhase::Initializing => "Initializing",
            OdooInstancePhase::InitFailed => "InitFailed",
            OdooInstancePhase::Starting => "Starting",
            OdooInstancePhase::Running => "Running",
            OdooInstancePhase::Degraded => "Degraded",
            OdooInstancePhase::Stopped => "Stopped",
            OdooInstancePhase::Upgrading => "Upgrading",
            OdooInstancePhase::Restoring => "Restoring",
            OdooInstancePhase::CloningFromSource => "CloningFromSource",
            OdooInstancePhase::BackingUp => "BackingUp",
            OdooInstancePhase::MigratingFilestore => "MigratingFilestore",
            OdooInstancePhase::FinalizingFilestoreMigration => "FinalizingFilestoreMigration",
            OdooInstancePhase::MigratingDatabase => "MigratingDatabase",
            OdooInstancePhase::FinalizingDatabaseMigration => "FinalizingDatabaseMigration",
            OdooInstancePhase::Error => "Error",
        }
    }
}

/// OdooInstanceStatus defines the observed state of OdooInstance.
#[derive(Debug, PartialEq)]
pub struct OdooInstanceStatus {
    pub phase: Option<OdooInstancePhase>,
    pub message: Option<String>,
    pub ready: bool,
    pub ready_replicas: i32,
    pub db_initialized: bool,
    pub url: Option<String>,
    pub last_backup: Option<String>,
    pub target_replicas: Option<i32>,
    /// Label selector of the pods, as text, for autoscalers.
    pub selector: Option<String>,
    pub conditions: Vec<StatusCondition>,
    pub migration_job_name: Option<String>,
    pub migration_pv_name: Option<String>,
    pub migration_previous_storage_class: Option<String>,
    pub active_cluster: Option<String>,
    pub db_migration_job_name: Option<String>,
    pub migration_previous_cluster: Option<String>,
}

/// What [`OdooInstanceStatus`] holds.
#[verifier::ext_equal]
pub struct OdooInstanceStatusView {
    pub phase: Option<OdooInstancePhase>,
    pub message: Option<Seq<char>>,
    pub ready: bool,
    pub ready_replicas: i32,
    pub db_initialized: bool,
    pub url: Option<Seq<char>>,
    pub last_backup: Option<Seq<char>>,
    pub target_replicas: Option<i32>,
    pub selector: Option<Seq<char>>,
    pub conditions: Seq<StatusCondition>,
    pub migration_job_name: Option<Seq<char>>,
    pub migration_pv_name: Option<Seq<char>>,
    pub migration_previous_storage_class: Option<Seq<char>>,
    pub active_cluster: Option<Seq<char>>,
    pub db_migration_job_name: Option<Seq<char>>,
    pub migration_previous_cluster: Option<Seq<char>>,
}

impl DeepView for OdooInstanceStatus {
    type V = OdooInstanceStatusView;

    open spec fn deep_view(&self) -> OdooInstanceStatusView {
        OdooInstanceStatusView {
            phase: self.phase,
            message: self.message.deep_view(),
            ready: self.ready,
            ready_replicas: self.ready_replicas,
            db_initialized: self.db_initialized,
            url: self.url.deep_view(),
            last_backup: self.last_backup.deep_view(),
            target_replicas: self.target_replicas,
            selector: self.selector.deep_view(),
            conditions: self.conditions@,
            migration_job_name: self.migration_job_name.deep_view(),
            migration_pv_name: self.migration_pv_name.deep_view(),
            migration_previous_storage_class: self.migration_previous_storage_class.deep_view(),
            active_cluster: self.active_cluster.deep_view(),
            db_migration_job_name: self.db_migration_job_name.deep_view(),
            migration_previous_cluster: self.migration_previous_cluster.deep_view(),
        }
    }
}

impl OdooInstanceStatusView {
    /// Every field empty or absent.
    pub open spec fn blank() -> OdooInstanceStatusView {
        OdooInstanceStatusView {
            phase: None,
            message: None,
            ready: false,
            ready_replicas: 0,
            db_initialized: false,
            url: None,
            last_backup: None,
            target_replicas: None,
            selector: None,
            conditions: Seq::empty(),
            migration_job_name: None,
            migration_pv_name: None,
            migration_previous_storage_class: None,
            active_cluster: None,
            db_migration_job_name: None,
            migration_previous_cluster: None,
        }
    }
}

impl Default for OdooInstanceStatus {
    fn default() -> (r: OdooInstanceStatus)
        ensures
            r.deep_view() == OdooInstanceStatusView::blank(),
    {
        OdooInstanceStatus {
            phase: None,
            message: None,
            ready: false,
            ready_replicas: 0,
            db_initialized: false,
            url: None,
            last_backup: None,
            target_replicas: None,
            selector: None,
            conditions: Vec::new(),
            migration_job_name: None,
            migration_pv_name: None,
            migration_previous_storage_class: None,
            active_cluster: None,
            db_migration_job_name: None,
            migration_previous_cluster: None,
        }
    }
}

/// An Odoo deployment, as its owner declares it and as it is.
#[derive(Debug, PartialEq)]
pub struct OdooInstance {
    pub metadata: ObjectMeta,
    pub spec: OdooInstanceSpec,
    pub status: Option<OdooInstanceStatus>,
}

/// What [`OdooInstance`] holds.
#[verifier::ext_equal]
pub struct OdooInstanceView {
    pub metadata: ObjectMetaView,
    pub spec: OdooInstanceSpecView,
    pub status: Option<OdooInstanceStatusView>,
}

impl DeepView for OdooInstance {
    type V = OdooInstanceView;

    open spec fn deep_view(&self) -> OdooInstanceView {
        OdooInstanceView {
            metadata: self.metadata.deep_view(),
            spec: self.spec.deep_view(),
            status: self.status.deep_view(),
        }
    }
}

impl Resource for OdooInstance {
    open spec fn api_version_view() -> Seq<char> {
        "bemade.org/v1alpha1"@
    }

    open spec fn kind_view() -> Seq<char> {
        "OdooInstance"@
    }

    open spec fn meta_view(&self) -> ObjectMetaView {
        self.metadata.deep_view()
    }

    fn api_version() -> (r: &'static str) {
        "bemade.org/v1alpha1"
    }

    fn kind() -> (r: &'static str) {
        "OdooInstance"
    }

    fn meta(&self) -> (r: &ObjectMeta) {
        &self.metadata
    }
}

impl OdooInstanceView {
    /// The name of the instance.
    pub open spec fn name(self) -> Seq<char> {
        self.metadata.name_any()
    }

    /// The phase of the instance, once it has one.
    pub open spec fn phase(self) -> Option<OdooInstancePhase> {
        match self.status {
            Some(status) => status.phase,
            None => None,
        }
    }
}

impl OdooInstance {
    /// The name of the instance.
    pub fn name_any(&self) -> (r: String)
        ensures
            r@ == self.deep_view().name(),
    {
        self.metadata.name_any()
    }

    /// The phase of the instance, once it has one.
    pub fn phase(&self) -> (r: Option<OdooInstancePhase>)
        ensures
            r == self.deep_view().phase(),
    {
        match &self.status {
            Some(status) => status.phase,
            None => None,
        }
    }
}

/// An instance is labelled with the environment that it says, in lower case, and the
/// two environments are told apart.
pub proof fn environments_are_told_apart(environment: Environment)
    ensures
        environment == Environment::Staging <==> environment.label() == "staging"@,
        environment == Environment::Production <==> environment.label() == "production"@,
{
    reveal_strlit("staging");
    reveal_strlit("production");
    assert("staging"@.len() != "production"@.len());
}

/// A phase is named as it is written, so that no two phases share a name.
pub proof fn phases_are_named_as_written(phase: OdooInstancePhase)
    ensures
        phase.name() == match phase {
            OdooInstancePhase::BackingUp => "BackingUp"@,
            OdooInstancePhase::CloningFromSource => "CloningFromSource"@,
            OdooInstancePhase::Degraded => "Degraded"@,
            OdooInstancePhase::Error => "Error"@,
            OdooInstancePhase::FinalizingDatabaseMigration => "FinalizingDatabaseMigration"@,
            OdooInstancePhase::FinalizingFilestoreMigration => "FinalizingFilestoreMigration"@,
            OdooInstancePhase::InitFailed => "InitFailed"@,
            OdooInstancePhase::Initializing => "Initializing"@,
            OdooInstancePhase::MigratingDatabase => "MigratingDatabase"@,
            OdooInstancePhase::MigratingFilestore => "MigratingFilestore"@,
            OdooInstancePhase::Provisioning => "Provisioning"@,
            OdooInstancePhase::Restoring => "Restoring"@,
            OdooInstancePhase::Running => "Running"@,
            OdooInstancePhase::Starting => "Starting"@,
            OdooInstancePhase::Stopped => "Stopped"@,
            OdooInstancePhase::Uninitialized => "Uninitialized"@,
            OdooInstancePhase::Upgrading => "Upgrading"@,
        },
{
}

/// The identity of the pods is the one that the spec sets; without one it is the
/// identity of the official image, uid 100 and gid 101, each by itself.
pub proof fn pods_run_as_the_spec_says(spec: OdooInstanceSpecView)
    ensures
        spec.run_as_user matches Some(uid) ==> spec.run_as_user_or_default() == uid,
        spec.run_as_user is None ==> spec.run_as_user_or_default() == 100,
        spec.run_as_group matches Some(gid) ==> spec.run_as_group_or_default() == gid,
        spec.run_as_group is None ==> spec.run_as_group_or_default() == 101,
{
}

/// The phase of an instance is what its status says, and it has none before it has a
/// status.
pub proof fn phases_come_from_the_status(instance: OdooInstanceView)
    ensures
        instance.status matches Some(status) ==> instance.phase() == status.phase,
        instance.status is None ==> instance.phase() is None,
        instance.name() == instance.metadata.name_any(),
{
}

/// What a field is where an object leaves it out: a quarter of the pods in a rolling
/// update, Odoo's own health page, one pod, five read-only connections, and a switch
/// that is on.
pub proof fn omitted_fields_have_these_values(
    share: String,
    path: String,
    replicas: i32,
    connections: i32,
    switch: bool,
    modules: Vec<String>,
)
    requires
        call_ensures(default_25_percent, (), share),
        call_ensures(default_health_path, (), path),
        call_ensures(default_replicas, (), replicas),
        call_ensures(default_ro_connection_limit, (), connections),
        call_ensures(default_true, (), switch),
        call_ensures(default_init_modules, (), modules),
    ensures
        share@ == seq!['2', '5', '%'],
        path@ == "/web/health"@,
        replicas == 1,
        connections == 5,
        switch,
        modules.deep_view().len() == 1,
        modules.deep_view()[0] == "base"@,
{
    reveal_strlit("25%");
    assert("25%"@ =~= seq!['2', '5', '%']);
}

/// A section that is left out: one cron pod with the resources of web, no read-only
/// access, and an initialization that installs `base` without demo data.
pub proof fn omitted_sections_have_these_values(
    cron: CronSpec,
    access: ReadOnlySqlAccessSpec,
    init: InitSpec,
)
    requires
        call_ensures(<CronSpec as Default>::default, (), cron),
        call_ensures(<ReadOnlySqlAccessSpec as Default>::default, (), access),
        call_ensures(<InitSpec as Default>::default, (), init),
    ensures
        cron.replicas == 1,
        cron.resources is None,
        !access.enabled,
        access.connection_limit == 5,
        init.enabled,
        !init.demo,
        init.modules.deep_view() == seq!["base"@],
        init.webhook is None,
{
}

/// The opt-in to sleep is the same as another exactly where both the mode and the
/// cluster are.
pub proof fn sleep_settings_are_compared_whole(
    a: StagingSleepSpec,
    b: StagingSleepSpec,
    same: bool,
)
    requires
        call_ensures(StagingSleepSpec::same_as, (&a, &b), same),
    ensures
        same <==> a.mode == b.mode && a.database_cluster@ == b.database_cluster@,
{
}

/// A fresh status says nothing: no phase, not ready, no pods, not initialized.
pub proof fn fresh_statuses_say_nothing(status: OdooInstanceStatus)
    requires
        call_ensures(<OdooInstanceStatus as Default>::default, (), status),
    ensures
        status.phase is None,
        status.message is None,
        !status.ready,
        status.ready_replicas == 0,
        !status.db_initialized,
        status.url is None,
        status.last_backup is None,
        status.target_replicas is None,
        status.selector is None,
        status.conditions@.len() == 0,
        status.migration_job_name is None,
        status.migration_pv_name is None,
        status.migration_previous_storage_class is None,
        status.active_cluster is None,
        status.db_migration_job_name is None,
        status.migration_previous_cluster is None,
{
    let seen = status.deep_view();
    assert(seen == OdooInstanceStatusView::blank());
}

} // verus!
