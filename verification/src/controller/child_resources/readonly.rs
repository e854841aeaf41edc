//! Read-only SQL access.

use vstd::prelude::*;

use crate::controller::child_resources::secrets::{make_fresh_credentials, read_secret_text, ReadOutcome};
use crate::controller::helpers::secret_env;
use crate::crd::odoo_instance::{OdooInstance, OdooInstanceView};
use crate::helpers::db_name;
use crate::k8s::env::{EnvVar, EnvVarView};
use crate::k8s::meta::{OwnerReference, OwnerReferenceView};
use crate::k8s::storage::Secret;

verus! {

/// Name of the Secret that holds the read-only role password.
pub fn ro_secret_name(instance_name: &str) -> (r: String)
    ensures
        r@ == instance_name@ + "-db-ro-password"@,
{
    instance_name.to_string().concat("-db-ro-password")
}

/// Whether an instance has asked for read-only access.
pub open spec fn readonly_enabled(instance: OdooInstanceView) -> bool {
    instance.spec.read_only_sql_access matches Some(access) && access.enabled
}

/// The variables that hand the read-only account to the web pod.
pub open spec fn readonly_env_of(instance: OdooInstanceView) -> Seq<EnvVarView> {
    let secret = instance.name() + "-db-ro-password"@;
    if readonly_enabled(instance) {
        seq![
            crate::controller::helpers::env_of_secret(
                "ODOO_RO_DB_USER"@,
                secret,
                "username"@,
            ),
            crate::controller::helpers::env_of_secret(
                "ODOO_RO_DB_PASSWORD"@,
                secret,
                "password"@,
            ),
        ]
    } else {
        seq![]
    }
}

/// Build the env vars that expose the read-only DB credentials to the web pod.
///
/// Two variables sourced from the `<instance>-db-ro-password` Secret when
/// `spec.readOnlySqlAccess.enabled` is true; otherwise none.
pub fn readonly_sql_env(instance: &OdooInstance) -> (r: Vec<EnvVar>)
    ensures
        r.deep_view() == readonly_env_of(instance.deep_view()),
{
    let enabled = match &instance.spec.read_only_sql_access {
        Some(access) => access.enabled,
        None => false,
    };
    let r = if enabled {
        let secret = ro_secret_name(instance.name_any().as_str());
        vec![
            secret_env("ODOO_RO_DB_USER", secret.as_str(), "username"),
            secret_env("ODOO_RO_DB_PASSWORD", secret.as_str(), "password"),
        ]
    } else {
        Vec::new()
    };
    assert(r.deep_view() =~= readonly_env_of(instance.deep_view()));
    r
}

/// The password in the Secret of the read-only role. It stays as it is until the
/// Secret is deleted.
pub fn readonly_password(existing: &Secret) -> (r: String)
    ensures
        r@ == crate::controller::child_resources::secrets::secret_text(
            existing.deep_view().data,
            "password"@,
        ),
{
    read_secret_text(&existing.data, "password")
}

/// The Secret of the read-only role, to be created once with a fresh password.
pub fn readonly_secret(
    ns: &str,
    name: &str,
    oref: &OwnerReference,
    ro_username: &str,
    password: &str,
) -> (r: Secret)
    ensures
        r.deep_view() == crate::controller::child_resources::secrets::fresh_credentials(
            ns@,
            name@ + "-db-ro-password"@,
            oref.deep_view(),
            ro_username@,
            password@,
        ),
{
    make_fresh_credentials(ns, ro_secret_name(name).as_str(), oref, ro_username, password)
}

/// What the read-only role is made from.
#[derive(Debug, PartialEq)]
pub struct ReadonlyRoleParams {
    pub ro_username: String,
    pub ro_password: String,
    pub owner_username: String,
    pub owner_password: String,
    pub db_name: String,
    pub connection_limit: i32,
}

/// What [`ReadonlyRoleParams`] holds.
#[verifier::ext_equal]
pub struct ReadonlyRoleParamsView {
    pub ro_username: Seq<char>,
    pub ro_password: Seq<char>,
    pub owner_username: Seq<char>,
    pub owner_password: Seq<char>,
    pub db_name: Seq<char>,
    pub connection_limit: i32,
}

impl DeepView for ReadonlyRoleParams {
    type V = ReadonlyRoleParamsView;

    open spec fn deep_view(&self) -> ReadonlyRoleParamsView {
        ReadonlyRoleParamsView {
            ro_username: self.ro_username@,
            ro_password: self.ro_password@,
            owner_username: self.owner_username@,
            owner_password: self.owner_password@,
            db_name: self.db_name@,
            connection_limit: self.connection_limit,
        }
    }
}

/// The connection limit of the read-only role, where the instance asks for one.
/// `None` where there is nothing to provision.
pub fn readonly_connection_limit(instance: &OdooInstance) -> (r: Option<i32>)
    ensures
        r == if readonly_enabled(instance.deep_view()) {
            Some(instance.deep_view().spec.read_only_sql_access->0.connection_limit)
        } else {
            None
        },
{
    match &instance.spec.read_only_sql_access {
        Some(access) => if access.enabled {
            Some(access.connection_limit)
        } else {
            None
        },
        None => None,
    }
}

/// What the read-only role of an instance is made from, given both accounts.
/// `None` where the instance asks for none.
pub fn readonly_role_params(
    instance: &OdooInstance,
    ro_username: &str,
    ro_password: &str,
    owner_username: &str,
    owner_password: &str,
) -> (r: Option<ReadonlyRoleParams>)
    ensures
        r.deep_view() == if readonly_enabled(instance.deep_view()) {
            Some(
                ReadonlyRoleParamsView {
                    ro_username: ro_username@,
                    ro_password: ro_password@,
                    owner_username: owner_username@,
                    owner_password: owner_password@,
                    db_name: crate::helpers::db_name_of(instance.deep_view()),
                    connection_limit: instance.deep_view().spec.read_only_sql_access->0.connection_limit,
                },
            )
        } else {
            None
        },
{
    match readonly_connection_limit(instance) {
        Some(connection_limit) => Some(
            ReadonlyRoleParams {
                ro_username: ro_username.to_string(),
                ro_password: ro_password.to_string(),
                owner_username: owner_username.to_string(),
                owner_password: owner_password.to_string(),
                db_name: db_name(instance),
                connection_limit,
            },
        ),
        None => None,
    }
}

/// Whether a deletion has left nothing behind: it was done, or there was nothing
/// to delete.
pub fn deletion_settled(outcome: ReadOutcome) -> (r: bool)
    ensures
        r == (outcome == ReadOutcome::Found || outcome == ReadOutcome::Refused(404)),
{
    match outcome {
        ReadOutcome::Found => true,
        ReadOutcome::Refused(code) => code == 404,
        ReadOutcome::Unreachable => false,
    }
}

// ── Laws ────────────────────────────────────────────────────────────────────
/// The web pod gets the read-only account exactly where the instance asks for it,
/// and both variables come from the Secret that is created for it.
pub proof fn readonly_env_reads_its_secret(
    ns: Seq<char>,
    instance: OdooInstanceView,
    oref: OwnerReferenceView,
    ro_username: Seq<char>,
    password: Seq<char>,
)
    ensures
        readonly_env_of(instance).len() == if readonly_enabled(instance) {
            2nat
        } else {
            0nat
        },
        ({
            let secret = crate::controller::child_resources::secrets::fresh_credentials(
                ns,
                instance.name() + "-db-ro-password"@,
                oref,
                ro_username,
                password,
            );
            forall|i: int|
                0 <= i < readonly_env_of(instance).len() ==> {
                    let source = (#[trigger] readonly_env_of(
                        instance,
                    )[i]).value_from->0.secret_key_ref->0;
                    &&& secret.metadata.name == Some(source.name)
                    &&& secret.string_data->0.contains_key(source.key)
                }
        }),
{
}

/// The web pod is handed the read-only account exactly where the spec asks for it: the
/// user and the password, each from its own key of the Secret that is named after the
/// instance.
pub proof fn readonly_account_comes_from_its_secret(instance: OdooInstanceView)
    ensures
        ({
            let env = readonly_env_of(instance);
            let asked = instance.spec.read_only_sql_access matches Some(access) && access.enabled;
            &&& !asked ==> env.len() == 0
            &&& asked ==> {
                let user = env[0].value_from->0.secret_key_ref->0;
                let password = env[1].value_from->0.secret_key_ref->0;
                &&& env.len() == 2
                &&& env[0].name == "ODOO_RO_DB_USER"@
                &&& env[0].value is None
                &&& env[0].value_from is Some
                &&& env[0].value_from->0.secret_key_ref is Some
                &&& user.name == instance.metadata.name_any() + "-db-ro-password"@
                &&& user.key == "username"@
                &&& user.optional is None
                &&& env[1].name == "ODOO_RO_DB_PASSWORD"@
                &&& env[1].value is None
                &&& env[1].value_from is Some
                &&& env[1].value_from->0.secret_key_ref is Some
                &&& password.name == user.name
                &&& password.key == "password"@
                &&& password.optional is None
            }
        }),
{
}

/// A read-only role is made exactly where the spec asks for it, of the two accounts
/// that it is given, on the instance's own database, with the limit that the spec sets.
pub proof fn readonly_role_follows_the_spec(
    instance: OdooInstance,
    ro_username: &str,
    ro_password: &str,
    owner_username: &str,
    owner_password: &str,
    limit: Option<i32>,
    made: Option<ReadonlyRoleParams>,
)
    requires
        call_ensures(readonly_connection_limit, (&instance,), limit),
        call_ensures(
            readonly_role_params,
            (&instance, ro_username, ro_password, owner_username, owner_password),
            made,
        ),
    ensures
        ({
            let asked = instance.spec.read_only_sql_access matches Some(access) && access.enabled;
            &&& limit is Some <==> asked
            &&& made is Some <==> asked
            &&& asked ==> {
                let params = made->0.deep_view();
                &&& limit == Some(instance.spec.read_only_sql_access->0.connection_limit)
                &&& params.connection_limit
                    == instance.spec.read_only_sql_access->0.connection_limit
                &&& params.ro_username == ro_username@
                &&& params.ro_password == ro_password@
                &&& params.owner_username == owner_username@
                &&& params.owner_password == owner_password@
                &&& params.db_name == crate::helpers::db_name_of(instance.deep_view())
            }
        }),
{
    assert(made is Some ==> made.deep_view() == Some(made->0.deep_view()));
    assert(instance.deep_view().spec.read_only_sql_access
        == instance.spec.read_only_sql_access.deep_view());
}

/// The Secret of the read-only role is named after the instance, holds the account that
/// it is made for, and its password is read back by its key.
pub proof fn readonly_secret_keeps_the_account(
    ns: &str,
    name: &str,
    oref: OwnerReference,
    ro_username: &str,
    password: &str,
    secret_name: String,
    secret: Secret,
    existing: Secret,
    read: String,
)
    requires
        call_ensures(ro_secret_name, (name,), secret_name),
        call_ensures(readonly_secret, (ns, name, &oref, ro_username, password), secret),
        call_ensures(readonly_password, (&existing,), read),
    ensures
        secret_name@ == name@ + "-db-ro-password"@,
        secret.deep_view().metadata.name == Some(secret_name@),
        secret.deep_view().metadata.namespace == Some(ns@),
        secret.deep_view().metadata.owner_references == Some(seq![oref.deep_view()]),
        secret.deep_view().string_data matches Some(texts) && texts.contains_key("username"@)
            && texts["username"@] == ro_username@ && texts.contains_key("password"@)
            && texts["password"@] == password@,
        forall|text: Seq<char>|
            (existing.deep_view().data matches Some(data) && data.contains_key("password"@)
                && data["password"@] == #[trigger] vstd::utf8::encode_utf8(text)) ==> read@ == text,
        !(existing.deep_view().data matches Some(data) && data.contains_key("password"@))
            ==> read@.len() == 0,
{
    reveal_strlit("username");
    reveal_strlit("password");
    assert("username"@[0] != "password"@[0]);
    assert forall|text: Seq<char>|
        (existing.deep_view().data matches Some(data) && data.contains_key("password"@)
            && data["password"@] == #[trigger] vstd::utf8::encode_utf8(text)) implies read@
        == text by {
        crate::text::utf8_reads_back(text);
    }
}

/// A deletion is settled exactly where it was done or there was nothing to delete; any
/// other answer, or none, leaves it open.
pub proof fn only_absence_settles_a_deletion(outcome: ReadOutcome, settled: bool)
    requires
        call_ensures(deletion_settled, (outcome,), settled),
    ensures
        settled <==> outcome == ReadOutcome::Found || outcome == ReadOutcome::Refused(404),
        outcome == ReadOutcome::Unreachable ==> !settled,
{
}

} // verus!
