//! Pull secrets, database credentials and the master password.

use vstd::prelude::*;

use crate::controller::helpers::is_empty;
use crate::crd::odoo_instance::{AdminPasswordSecretRef, AdminPasswordSecretRefView, OdooInstance};
use crate::error::{Error, ErrorView};
use crate::k8s::meta::{ObjectMeta, ObjectMetaView, OwnerReference, OwnerReferenceView};
use crate::k8s::storage::{Secret, SecretView};
use crate::postgres::PostgresClusterConfig;
use crate::string_map::{ByteMap, KeyedMap, StringMap};
use crate::text::{bytes_of, debug_string, text_of};

verus! {

// ── Objects that are created once ───────────────────────────────────────────
/// How reading an object ended.
#[derive(Clone, Copy, Debug, PartialEq, Eq, Structural)]
pub enum ReadOutcome {
    /// The object is there.
    Found,
    /// The server answered with an error of this HTTP status.
    Refused(u16),
    /// The server gave no answer.
    Unreachable,
}

/// What to do about an object that is created once and then left alone.
#[derive(Clone, Copy, Debug, PartialEq, Eq, Structural)]
pub enum CreateOnce {
    /// It is there.
    Keep,
    /// It is not there: create it.
    Create,
    /// Nothing is known of it: give up.
    Fail,
}

/// Decides on an object that is created once: only a server that says that it is
/// not there has it created.
pub fn create_once(outcome: ReadOutcome) -> (r: CreateOnce)
    ensures
        r == match outcome {
            ReadOutcome::Found => CreateOnce::Keep,
            ReadOutcome::Refused(code) => if code == 404 {
                CreateOnce::Create
            } else {
                CreateOnce::Fail
            },
            ReadOutcome::Unreachable => CreateOnce::Fail,
        },
{
    match outcome {
        ReadOutcome::Found => CreateOnce::Keep,
        ReadOutcome::Refused(code) => if code == 404 {
            CreateOnce::Create
        } else {
            CreateOnce::Fail
        },
        ReadOutcome::Unreachable => CreateOnce::Fail,
    }
}

/// Metadata of an object of the instance.
pub open spec fn owned_meta(
    ns: Seq<char>,
    name: Seq<char>,
    oref: OwnerReferenceView,
) -> ObjectMetaView {
    ObjectMetaView {
        name: Some(name),
        namespace: Some(ns),
        owner_references: Some(seq![oref]),
        ..ObjectMetaView::blank()
    }
}

/// Metadata of an object that goes when its instance goes.
pub(crate) fn make_owned_meta(ns: &str, name: &str, oref: &OwnerReference) -> (r: ObjectMeta)
    ensures
        r.deep_view() == owned_meta(ns@, name@, oref.deep_view()),
{
    let owners = vec![oref.clone()];
    assert(owners.deep_view() =~= seq![oref.deep_view()]);
    ObjectMeta {
        name: Some(name.to_string()),
        namespace: Some(ns.to_string()),
        owner_references: Some(owners),
        ..Default::default()
    }
}

// ── Image pull secret ───────────────────────────────────────────────────────
/// The pull secret that the instance's namespace needs a copy of, if any.
pub fn image_pull_secret_name(instance: &OdooInstance) -> (r: Option<String>)
    ensures
        r.deep_view() == match instance.deep_view().spec.image_pull_secret {
            Some(name) => if name.len() == 0 {
                None
            } else {
                Some(name)
            },
            None => None,
        },
{
    match &instance.spec.image_pull_secret {
        Some(name) => if is_empty(name.as_str()) {
            None
        } else {
            Some(name.clone())
        },
        None => None,
    }
}

/// A copy of a pull secret for the instance's namespace.
///
/// It has no owner: it survives the instance, so that other instances of the
/// namespace can share it.
pub fn mirrored_pull_secret(ns: &str, secret_name: &str, source: Secret) -> (r: Secret)
    ensures
        r.deep_view() == (SecretView {
            metadata: ObjectMetaView {
                name: Some(secret_name@),
                namespace: Some(ns@),
                ..ObjectMetaView::blank()
            },
            data: source.deep_view().data,
            type_: source.deep_view().type_,
            ..SecretView::blank()
        }),
{
    Secret {
        metadata: ObjectMeta {
            name: Some(secret_name.to_string()),
            namespace: Some(ns.to_string()),
            ..Default::default()
        },
        data: source.data,
        type_: source.type_,
        ..Default::default()
    }
}

// ── Database credentials ────────────────────────────────────────────────────
/// Name of the Secret with the credentials that Odoo connects with.
pub fn odoo_user_secret_name(name: &str) -> (r: String)
    ensures
        r@ == name@ + "-odoo-user"@,
{
    name.to_string().concat("-odoo-user")
}

/// The credentials of an account, as Secret data.
pub open spec fn credential_data(username: Seq<char>, password: Seq<char>) -> Map<
    Seq<char>,
    Seq<u8>,
> {
    Map::<Seq<char>, Seq<u8>>::empty().insert(
        "username"@,
        vstd::utf8::encode_utf8(username),
    ).insert("password"@, vstd::utf8::encode_utf8(password))
}

/// The credentials of an account, as text for the server to encode.
pub open spec fn credential_texts(username: Seq<char>, password: Seq<char>) -> Map<
    Seq<char>,
    Seq<char>,
> {
    Map::<Seq<char>, Seq<char>>::empty().insert("username"@, username).insert(
        "password"@,
        password,
    )
}

/// The `<instance>-odoo-user` Secret on an adopted cluster: the credentials of
/// the cluster, mirrored on every pass, since the cluster may rotate them.
/// `None` on a cluster of the operator's own, where the credentials are generated
/// once; see [`generated_user_secret`].
pub fn adopted_user_secret(
    ns: &str,
    name: &str,
    oref: &OwnerReference,
    pg: &PostgresClusterConfig,
) -> (r: Option<Secret>)
    ensures
        r.deep_view() == if pg.adopted {
            Some(
                SecretView {
                    metadata: owned_meta(ns@, name@ + "-odoo-user"@, oref.deep_view()),
                    data: Some(
                        credential_data(
                            pg.deep_view().admin_user,
                            pg.deep_view().admin_password,
                        ),
                    ),
                    ..SecretView::blank()
                },
            )
        } else {
            None
        },
{
    if !pg.adopted {
        return None;
    }
    let mut data: ByteMap = KeyedMap::new();
    data.insert("username".to_string(), bytes_of(pg.admin_user.as_str()));
    data.insert("password".to_string(), bytes_of(pg.admin_password.as_str()));
    Some(
        Secret {
            metadata: make_owned_meta(ns, odoo_user_secret_name(name).as_str(), oref),
            data: Some(data),
            ..Default::default()
        },
    )
}

/// A Secret with freshly made credentials.
pub open spec fn fresh_credentials(
    ns: Seq<char>,
    secret_name: Seq<char>,
    oref: OwnerReferenceView,
    username: Seq<char>,
    password: Seq<char>,
) -> SecretView {
    SecretView {
        metadata: owned_meta(ns, secret_name, oref),
        string_data: Some(credential_texts(username, password)),
        ..SecretView::blank()
    }
}

/// Builds a Secret with freshly made credentials.
pub(crate) fn make_fresh_credentials(
    ns: &str,
    secret_name: &str,
    oref: &OwnerReference,
    username: &str,
    password: &str,
) -> (r: Secret)
    ensures
        r.deep_view() == fresh_credentials(
            ns@,
            secret_name@,
            oref.deep_view(),
            username@,
            password@,
        ),
{
    let mut texts: StringMap = KeyedMap::of("username", username);
    texts.insert("password".to_string(), password.to_string());
    Secret {
        metadata: make_owned_meta(ns, secret_name, oref),
        string_data: Some(texts),
        ..Default::default()
    }
}

/// The `<instance>-odoo-user` Secret on a cluster of the operator's own. Created
/// once and never touched again: the PostgreSQL role is made to match it.
pub fn generated_user_secret(
    ns: &str,
    name: &str,
    oref: &OwnerReference,
    username: &str,
    password: &str,
) -> (r: Secret)
    ensures
        r.deep_view() == fresh_credentials(
            ns@,
            name@ + "-odoo-user"@,
            oref.deep_view(),
            username@,
            password@,
        ),
{
    make_fresh_credentials(ns, odoo_user_secret_name(name).as_str(), oref, username, password)
}

/// The text under a key of Secret data, empty where there is none.
pub open spec fn secret_text(data: Option<Map<Seq<char>, Seq<u8>>>, key: Seq<char>) -> Seq<char> {
    match data {
        Some(data) => match data.get(key) {
            Some(bytes) => crate::text::utf8_lossy(bytes),
            None => Seq::empty(),
        },
        None => Seq::empty(),
    }
}

/// The text under a key of Secret data, empty where there is none.
pub(crate) fn read_secret_text(data: &Option<ByteMap>, key: &str) -> (r: String)
    ensures
        r@ == secret_text(data.deep_view(), key@),
{
    match data {
        Some(data) => match data.get(key) {
            Some(bytes) => {
                assert(bytes.deep_view() =~= bytes@);
                text_of(bytes.as_slice())
            },
            None => String::new(),
        },
        None => String::new(),
    }
}

/// The account that the data of an `-odoo-user` Secret holds.
pub open spec fn credentials_in(
    data: Option<Map<Seq<char>, Seq<u8>>>,
    conventional_username: Seq<char>,
) -> (Seq<char>, Seq<char>) {
    let username = secret_text(data, "username"@);
    (
        if username.len() == 0 {
            conventional_username
        } else {
            username
        },
        secret_text(data, "password"@),
    )
}

/// Read the Odoo user credentials (username + password) from the instance's
/// `-odoo-user` Secret.
///
/// A missing or empty `username` key falls back to the naming convention, so a
/// Secret that only stores a password still resolves.
pub fn read_odoo_credentials(secret: &Secret, conventional_username: &str) -> (r: (String, String))
    ensures
        (r.0@, r.1@) == credentials_in(secret.deep_view().data, conventional_username@),
{
    let username = read_secret_text(&secret.data, "username");
    let username = if is_empty(username.as_str()) {
        conventional_username.to_string()
    } else {
        username
    };
    (username, read_secret_text(&secret.data, "password"))
}

/// Whether the operator creates the PostgreSQL role of the instance. Not on an
/// adopted cluster: its role exists already, and the account there could not
/// create one.
pub fn creates_postgres_role(pg: &PostgresClusterConfig) -> (r: bool)
    ensures
        r == !pg.deep_view().adopted,
{
    !pg.adopted
}

// ── Master password ─────────────────────────────────────────────────────────
/// Where the master password of an instance comes from.
#[derive(Debug)]
pub enum AdminPasswordSource<'a> {
    Plain(&'a String),
    Secret(&'a AdminPasswordSecretRef),
}

/// Where the Odoo master password comes from. Fails where the spec names no
/// source, rather than have an odoo.conf rendered without a password.
pub fn admin_password_source(instance: &OdooInstance) -> (r: Result<
    AdminPasswordSource<'_>,
    Error,
>)
    ensures
        match instance.deep_view().spec.admin_password {
            Some(plain) => r matches Ok(AdminPasswordSource::Plain(p)) && p@ == plain,
            None => match instance.deep_view().spec.admin_password_secret_ref {
                Some(secret_ref) => r matches Ok(AdminPasswordSource::Secret(s)) && s.deep_view()
                    == secret_ref,
                None => r matches Err(e) && e.deep_view() == ErrorView::Config(
                    "neither spec.adminPassword nor spec.adminPasswordSecretRef is set"@,
                ),
            },
        },
{
    if let Some(plain) = &instance.spec.admin_password {
        return Ok(AdminPasswordSource::Plain(plain));
    }
    match &instance.spec.admin_password_secret_ref {
        Some(secret_ref) => Ok(AdminPasswordSource::Secret(secret_ref)),
        None => Err(
            Error::config(
                "neither spec.adminPassword nor spec.adminPasswordSecretRef is set".to_string(),
            ),
        ),
    }
}

/// The error of a master password Secret that cannot be read, for a cause.
pub fn admin_secret_unreadable(secret_ref: &AdminPasswordSecretRef, cause: &str) -> (r: Error)
    ensures
        r.deep_view() == ErrorView::Config(
            "reading spec.adminPasswordSecretRef secret "@ + crate::text::debug_text(
                secret_ref.deep_view().name,
            ) + ": "@ + cause@,
        ),
{
    Error::config(
        "reading spec.adminPasswordSecretRef secret ".to_string().concat(
            debug_string(secret_ref.name.as_str()).as_str(),
        ).concat(": ").concat(cause),
    )
}

/// The master password that a Secret holds: under the key in its data, else
/// under the key in its texts.
pub open spec fn admin_password_in(
    secret_ref: AdminPasswordSecretRefView,
    secret: SecretView,
) -> Option<Seq<char>> {
    if secret.data matches Some(data) && data.contains_key(secret_ref.key) {
        Some(crate::text::utf8_lossy(secret.data->0[secret_ref.key]))
    } else if secret.string_data matches Some(texts) && texts.contains_key(secret_ref.key) {
        Some(secret.string_data->0[secret_ref.key])
    } else {
        None
    }
}

/// Resolve the Odoo master password from the Secret that the spec names. Fails
/// where the Secret lacks the key.
pub fn resolve_admin_password(secret_ref: &AdminPasswordSecretRef, secret: &Secret) -> (r: Result<
    String,
    Error,
>)
    ensures
        match admin_password_in(secret_ref.deep_view(), secret.deep_view()) {
            Some(password) => r matches Ok(p) && p@ == password,
            None => r matches Err(e) && e.deep_view() == ErrorView::Config(
                "secret "@ + crate::text::debug_text(secret_ref.deep_view().name) + " has no key "@
                    + crate::text::debug_text(secret_ref.deep_view().key)
                    + " (spec.adminPasswordSecretRef)"@,
            ),
        },
{
    if let Some(data) = &secret.data {
        if let Some(bytes) = data.get(secret_ref.key.as_str()) {
            assert(bytes.deep_view() =~= bytes@);
            return Ok(text_of(bytes.as_slice()));
        }
    }
    if let Some(texts) = &secret.string_data {
        if let Some(text) = texts.get(secret_ref.key.as_str()) {
            return Ok(text.clone());
        }
    }
    Err(
        Error::config(
            "secret ".to_string().concat(debug_string(secret_ref.name.as_str()).as_str()).concat(
                " has no key ",
            ).concat(debug_string(secret_ref.key.as_str()).as_str()).concat(
                " (spec.adminPasswordSecretRef)",
            ),
        ),
    )
}

// ── Laws ────────────────────────────────────────────────────────────────────
/// Odoo connects to an adopted cluster with that cluster's account: what is
/// mirrored into the `-odoo-user` Secret is read back from it.
pub proof fn mirrored_credentials_read_back(
    username: Seq<char>,
    password: Seq<char>,
    conventional_username: Seq<char>,
)
    ensures
        credentials_in(Some(credential_data(username, password)), conventional_username) == (
            if username.len() == 0 {
                conventional_username
            } else {
                username
            },
            password,
        ),
{
    crate::text::utf8_reads_back(username);
    crate::text::utf8_reads_back(password);
    reveal_strlit("username");
    reveal_strlit("password");
    assert("username"@[0] != "password"@[0]);
}

/// A Secret that only stores a password resolves to the conventional account.
pub proof fn password_alone_uses_convention(
    data: Map<Seq<char>, Seq<u8>>,
    conventional_username: Seq<char>,
)
    requires
        !data.contains_key("username"@),
    ensures
        credentials_in(Some(data), conventional_username).0 == conventional_username,
{
}

/// Whatever reading an object came to, it is created exactly where the server says
/// that it is not there, kept exactly where it is there, and any other answer, or
/// none, is no ground for either.
pub proof fn only_absence_has_an_object_created(outcome: ReadOutcome, decision: CreateOnce)
    requires
        call_ensures(create_once, (outcome,), decision),
    ensures
        decision == CreateOnce::Create <==> outcome == ReadOutcome::Refused(404),
        decision == CreateOnce::Keep <==> outcome == ReadOutcome::Found,
        outcome == ReadOutcome::Unreachable ==> decision == CreateOnce::Fail,
{
}

/// An object of the instance has the name and the namespace that it is given, goes
/// with the owner that it is given, and has nothing else to its name: no labels, no
/// annotations, and no identity before the server gives it one.
pub proof fn owned_objects_go_with_their_owner(
    ns: Seq<char>,
    name: Seq<char>,
    oref: OwnerReferenceView,
)
    ensures
        ({
            let meta = owned_meta(ns, name, oref);
            let owners = meta.owner_references->0;
            &&& meta.name == Some(name)
            &&& meta.namespace == Some(ns)
            &&& meta.owner_references is Some
            &&& owners.len() == 1
            &&& owners[0] == oref
            &&& meta.labels is None
            &&& meta.annotations is None
            &&& meta.generate_name is None
            &&& meta.uid is None
            &&& meta.resource_version is None
            &&& meta.generation is None
            &&& meta.deletion_timestamp is None
        }),
{
}

/// A pull secret is copied exactly where the spec names one that is not empty. The
/// copy has the data and the type of the source, under the name and in the namespace
/// that it is given, and belongs to nobody.
pub proof fn pull_secrets_are_copied_whole(
    instance: OdooInstance,
    named: Option<String>,
    ns: &str,
    secret_name: &str,
    source: Secret,
    copy: Secret,
)
    requires
        call_ensures(image_pull_secret_name, (&instance,), named),
        call_ensures(mirrored_pull_secret, (ns, secret_name, source), copy),
    ensures
        named is Some <==> instance.spec.image_pull_secret is Some
            && instance.spec.image_pull_secret->0@.len() > 0,
        named matches Some(name) ==> name@ == instance.spec.image_pull_secret->0@,
        copy.deep_view().data == source.deep_view().data,
        copy.deep_view().type_ == source.deep_view().type_,
        copy.deep_view().string_data is None,
        copy.deep_view().metadata.name == Some(secret_name@),
        copy.deep_view().metadata.namespace == Some(ns@),
        copy.deep_view().metadata.owner_references is None,
        copy.deep_view().metadata.labels is None,
        copy.deep_view().metadata.uid is None,
{
}

/// Odoo's account on an adopted cluster is that cluster's own: its Secret carries the
/// cluster's user and password, reads back as those, and no role is created for it. On
/// a cluster of the operator's own there is no such copy, and a role is created.
pub proof fn adopted_clusters_lend_their_account(
    ns: &str,
    name: &str,
    oref: OwnerReference,
    pg: PostgresClusterConfig,
    secret: Option<Secret>,
    creates: bool,
    conventional_username: Seq<char>,
)
    requires
        call_ensures(adopted_user_secret, (ns, name, &oref, &pg), secret),
        call_ensures(creates_postgres_role, (&pg,), creates),
    ensures
        creates <==> !pg.adopted,
        secret is Some <==> pg.adopted,
        secret matches Some(secret) ==> {
            let read = credentials_in(secret.deep_view().data, conventional_username);
            &&& secret.deep_view().metadata.name == Some(name@ + "-odoo-user"@)
            &&& secret.deep_view().metadata.namespace == Some(ns@)
            &&& secret.deep_view().metadata.owner_references == Some(seq![oref.deep_view()])
            &&& secret.deep_view().string_data is None
            &&& secret.deep_view().data matches Some(data) && forall|key: Seq<char>| #[trigger]
                data.contains_key(key) <==> key == "username"@ || key == "password"@
            &&& pg.admin_user@.len() > 0 ==> read.0 == pg.admin_user@
            &&& read.1 == pg.admin_password@
        },
{
    mirrored_credentials_read_back(pg.admin_user@, pg.admin_password@, conventional_username);
}

/// A Secret of fresh credentials holds the account that it is made for, and nothing
/// else, as text for the server to encode, under the name that the instance reads it
/// by.
pub proof fn fresh_accounts_are_kept_as_they_were_made(
    ns: Seq<char>,
    secret_name: Seq<char>,
    oref: OwnerReferenceView,
    username: Seq<char>,
    password: Seq<char>,
)
    ensures
        ({
            let secret = fresh_credentials(ns, secret_name, oref, username, password);
            let texts = secret.string_data->0;
            &&& secret.metadata.name == Some(secret_name)
            &&& secret.metadata.namespace == Some(ns)
            &&& secret.metadata.owner_references == Some(seq![oref])
            &&& secret.data is None
            &&& secret.type_ is None
            &&& secret.string_data is Some
            &&& forall|key: Seq<char>| #[trigger]
                texts.contains_key(key) <==> key == "username"@ || key == "password"@
            &&& texts["username"@] == username
            &&& texts["password"@] == password
        }),
{
    reveal_strlit("username");
    reveal_strlit("password");
    assert("username"@[0] != "password"@[0]);
}

/// The Secret of Odoo's own account has one name, whoever writes or reads it.
pub proof fn accounts_have_one_secret(
    ns: &str,
    name: &str,
    oref: OwnerReference,
    username: &str,
    password: &str,
    secret_name: String,
    secret: Secret,
)
    requires
        call_ensures(odoo_user_secret_name, (name,), secret_name),
        call_ensures(generated_user_secret, (ns, name, &oref, username, password), secret),
    ensures
        secret_name@ == name@ + "-odoo-user"@,
        secret.deep_view().metadata.name == Some(secret_name@),
        secret.deep_view().metadata.namespace == Some(ns@),
        secret.deep_view().metadata.owner_references == Some(seq![oref.deep_view()]),
        secret.deep_view().string_data matches Some(texts) && texts.contains_key("username"@)
            && texts["username"@] == username@ && texts.contains_key("password"@)
            && texts["password"@] == password@,
{
    reveal_strlit("username");
    reveal_strlit("password");
    assert("username"@[0] != "password"@[0]);
}

/// A key of a Secret reads as the text that its bytes encode; a key that is not there
/// reads as empty, and so does any key of a Secret without data. Both parts of an
/// account are read by their own keys.
pub proof fn secret_texts_are_read_by_key(
    data: Map<Seq<char>, Seq<u8>>,
    key: Seq<char>,
    text: Seq<char>,
    conventional_username: Seq<char>,
)
    ensures
        secret_text(Some(data.insert(key, vstd::utf8::encode_utf8(text))), key) == text,
        !data.contains_key(key) ==> secret_text(Some(data), key).len() == 0,
        secret_text(None, key).len() == 0,
        credentials_in(
            Some(data.insert("password"@, vstd::utf8::encode_utf8(text))),
            conventional_username,
        ).1 == text,
        text.len() > 0 ==> credentials_in(
            Some(data.insert("username"@, vstd::utf8::encode_utf8(text))),
            conventional_username,
        ).0 == text,
        text.len() == 0 ==> credentials_in(
            Some(data.insert("username"@, vstd::utf8::encode_utf8(text))),
            conventional_username,
        ).0 == conventional_username,
        credentials_in(None, conventional_username).0 == conventional_username,
        credentials_in(None, conventional_username).1.len() == 0,
{
    crate::text::utf8_reads_back(text);
}

/// The master password is the one that the spec sets; where it sets none, it is what
/// the named Secret holds under the named key; and an instance that says neither is
/// refused.
pub proof fn master_password_comes_from_the_spec(
    instance: OdooInstance,
    source: Result<AdminPasswordSource<'_>, Error>,
)
    requires
        call_ensures(admin_password_source, (&instance,), source),
    ensures
        instance.spec.admin_password matches Some(plain) ==> source matches Ok(
            AdminPasswordSource::Plain(password),
        ) && password@ == plain@,
        instance.spec.admin_password is None ==> (
        instance.spec.admin_password_secret_ref matches Some(named) ==> source matches Ok(
            AdminPasswordSource::Secret(found),
        ) && found.deep_view() == named.deep_view()),
        instance.spec.admin_password is None && instance.spec.admin_password_secret_ref is None
            ==> source is Err && source->Err_0.deep_view() == ErrorView::Config(
            "neither spec.adminPassword nor spec.adminPasswordSecretRef is set"@,
        ),
{
}

/// Of the Secret that the spec names, the key that the spec names is the master
/// password: its data goes before its texts, no other key plays a part, and a Secret
/// without that key is refused by a message that names both.
pub proof fn master_password_is_read_by_its_key(
    secret_ref: AdminPasswordSecretRef,
    secret: Secret,
    read: Result<String, Error>,
    cause: &str,
    unreadable: Error,
)
    requires
        call_ensures(resolve_admin_password, (&secret_ref, &secret), read),
        call_ensures(admin_secret_unreadable, (&secret_ref, cause), unreadable),
    ensures
        ({
            let key = secret_ref.key@;
            let in_data = secret.deep_view().data matches Some(data) && data.contains_key(key);
            let in_texts = secret.deep_view().string_data matches Some(texts)
                && texts.contains_key(key);
            &&& read is Ok <==> in_data || in_texts
            &&& in_data ==> (forall|text: Seq<char>|
                secret.deep_view().data->0[key] == #[trigger] vstd::utf8::encode_utf8(text)
                    ==> read->Ok_0@ == text)
            &&& !in_data && in_texts ==> read->Ok_0@ == secret.deep_view().string_data->0[key]
            &&& read is Err ==> read->Err_0.deep_view() == ErrorView::Config(
                "secret "@ + crate::text::debug_text(secret_ref.name@) + " has no key "@
                    + crate::text::debug_text(key) + " (spec.adminPasswordSecretRef)"@,
            )
            &&& unreadable.deep_view() == ErrorView::Config(
                "reading spec.adminPasswordSecretRef secret "@ + crate::text::debug_text(
                    secret_ref.name@,
                ) + ": "@ + cause@,
            )
        }),
{
    let key = secret_ref.key@;
    if secret.deep_view().data matches Some(data) && data.contains_key(key) {
        assert forall|text: Seq<char>|
            secret.deep_view().data->0[key] == #[trigger] vstd::utf8::encode_utf8(
                text,
            ) implies read->Ok_0@ == text by {
            crate::text::utf8_reads_back(text);
        }
    }
}

/// An account is read from the Secret that it is kept in: the user, or the conventional
/// one where none is kept, and the password.
pub proof fn accounts_are_read_from_their_secret(
    secret: Secret,
    conventional_username: &str,
    account: (String, String),
    username: Seq<char>,
    password: Seq<char>,
)
    requires
        call_ensures(read_odoo_credentials, (&secret, conventional_username), account),
        secret.deep_view().data matches Some(data) && data.contains_key("username"@)
            && data["username"@] == vstd::utf8::encode_utf8(username) && data.contains_key(
            "password"@,
        ) && data["password"@] == vstd::utf8::encode_utf8(password),
    ensures
        account.1@ == password,
        username.len() > 0 ==> account.0@ == username,
        username.len() == 0 ==> account.0@ == conventional_username@,
{
    crate::text::utf8_reads_back(username);
    crate::text::utf8_reads_back(password);
}

} // verus!
