//! The objects that carry odoo.conf.

use vstd::prelude::*;

use crate::controller::child_resources::secrets::{make_owned_meta, read_secret_text};
use crate::controller::helpers::{odoo_conf_in_secret, odoo_conf_name};
use crate::crd::odoo_instance::{OdooInstance, OdooInstanceView};
use crate::helpers::db_name;
use crate::k8s::meta::{OwnerReference, OwnerReferenceView};
use crate::k8s::storage::{ConfigMap, ConfigMapView, Secret, SecretView};
use crate::postgres::{PostgresClusterConfig, PostgresClusterConfigView};
use crate::string_map::{ByteMap, KeyedMap, StringMap};
use crate::text::{bytes_of, decimal_string};

verus! {

/// What an odoo.conf is rendered from.
#[derive(Debug, PartialEq)]
pub struct ConfInputs {
    pub username: String,
    pub password: String,
    /// The master password. Empty where the file is not to name one.
    pub admin_password: String,
    pub host: String,
    pub port: u16,
    pub db: String,
    pub config_options: Option<StringMap>,
    /// Whether the addon directories of the official image come first.
    pub prepend_std_addons: bool,
}

/// What [`ConfInputs`] holds.
#[verifier::ext_equal]
pub struct ConfInputsView {
    pub username: Seq<char>,
    pub password: Seq<char>,
    pub admin_password: Seq<char>,
    pub host: Seq<char>,
    pub port: u16,
    pub db: Seq<char>,
    pub config_options: Option<Map<Seq<char>, Seq<char>>>,
    pub prepend_std_addons: bool,
}

impl DeepView for ConfInputs {
    type V = ConfInputsView;

    open spec fn deep_view(&self) -> ConfInputsView {
        ConfInputsView {
            username: self.username@,
            password: self.password@,
            admin_password: self.admin_password@,
            host: self.host@,
            port: self.port,
            db: self.db@,
            config_options: self.config_options.deep_view(),
            prepend_std_addons: self.prepend_std_addons,
        }
    }
}

/// Whether the master password comes from a Secret, so that odoo.conf is kept in
/// one.
pub open spec fn conf_is_secret(instance: OdooInstanceView) -> bool {
    instance.spec.admin_password_secret_ref is Some
}

/// What the odoo.conf that the pods mount is rendered from.
///
/// A source-volume image is a toolchain: it has no addon directories of its own
/// to put first.
pub open spec fn conf_inputs_of(
    instance: OdooInstanceView,
    pg: PostgresClusterConfigView,
    username: Seq<char>,
    password: Seq<char>,
    admin_password: Seq<char>,
) -> ConfInputsView {
    ConfInputsView {
        username,
        password,
        admin_password,
        host: pg.host,
        port: pg.port,
        db: crate::helpers::db_name_of(instance),
        config_options: instance.spec.config_options,
        prepend_std_addons: instance.spec.source_volume is None,
    }
}

/// What the copy of odoo.conf in the ConfigMap is rendered from: no master
/// password where that comes from a Secret.
pub open spec fn config_map_inputs_of(
    instance: OdooInstanceView,
    pg: PostgresClusterConfigView,
    username: Seq<char>,
    password: Seq<char>,
    admin_password: Seq<char>,
) -> ConfInputsView {
    conf_inputs_of(
        instance,
        pg,
        username,
        password,
        if conf_is_secret(instance) {
            Seq::empty()
        } else {
            admin_password
        },
    )
}

/// What the odoo.conf that the pods mount is rendered from.
pub fn conf_inputs(
    instance: &OdooInstance,
    pg: &PostgresClusterConfig,
    username: &str,
    password: &str,
    admin_password: &str,
) -> (r: ConfInputs)
    ensures
        r.deep_view() == conf_inputs_of(
            instance.deep_view(),
            pg.deep_view(),
            username@,
            password@,
            admin_password@,
        ),
{
    ConfInputs {
        username: username.to_string(),
        password: password.to_string(),
        admin_password: admin_password.to_string(),
        host: pg.host.clone(),
        port: pg.port,
        db: db_name(instance),
        config_options: match &instance.spec.config_options {
            Some(options) => Some(options.clone()),
            None => None,
        },
        prepend_std_addons: instance.spec.source_volume.is_none(),
    }
}

/// What the copy of odoo.conf in the ConfigMap is rendered from. An empty master
/// password has the renderer leave that line out.
pub fn config_map_conf_inputs(
    instance: &OdooInstance,
    pg: &PostgresClusterConfig,
    username: &str,
    password: &str,
    admin_password: &str,
) -> (r: ConfInputs)
    ensures
        r.deep_view() == config_map_inputs_of(
            instance.deep_view(),
            pg.deep_view(),
            username@,
            password@,
            admin_password@,
        ),
{
    if odoo_conf_in_secret(instance) {
        ConfInputs {
            admin_password: String::new(),
            ..conf_inputs(instance, pg, username, password, admin_password)
        }
    } else {
        conf_inputs(instance, pg, username, password, admin_password)
    }
}

/// The ConfigMap of an instance: its copy of odoo.conf, and the keys that job
/// containers read.
pub open spec fn config_map_of(
    ns: Seq<char>,
    name: Seq<char>,
    instance: OdooInstanceView,
    pg: PostgresClusterConfigView,
    oref: OwnerReferenceView,
    username: Seq<char>,
    password: Seq<char>,
    conf: Seq<char>,
) -> ConfigMapView {
    ConfigMapView {
        metadata: crate::controller::child_resources::secrets::owned_meta(
            ns,
            name + "-odoo-conf"@,
            oref,
        ),
        data: Some(
            Map::<Seq<char>, Seq<char>>::empty().insert("odoo.conf"@, conf).insert(
                "db_host"@,
                pg.host,
            ).insert("db_port"@, crate::text::decimal(pg.port as nat)).insert(
                "db_name"@,
                crate::helpers::db_name_of(instance),
            ).insert("db_user"@, username).insert("db_password"@, password),
        ),
    }
}

/// The ConfigMap of an instance, around the text that
/// [`config_map_conf_inputs`] renders to. It is always written: jobs read the
/// `db_*` keys, wherever the pods mount odoo.conf from.
pub fn odoo_config_map(
    ns: &str,
    name: &str,
    instance: &OdooInstance,
    pg: &PostgresClusterConfig,
    oref: &OwnerReference,
    username: &str,
    password: &str,
    conf: &str,
) -> (r: ConfigMap)
    ensures
        r.deep_view() == config_map_of(
            ns@,
            name@,
            instance.deep_view(),
            pg.deep_view(),
            oref.deep_view(),
            username@,
            password@,
            conf@,
        ),
{
    let mut data: StringMap = KeyedMap::of("odoo.conf", conf);
    data.insert("db_host".to_string(), pg.host.clone());
    data.insert("db_port".to_string(), decimal_string(pg.port as u64));
    data.insert("db_name".to_string(), db_name(instance));
    data.insert("db_user".to_string(), username.to_string());
    data.insert("db_password".to_string(), password.to_string());
    ConfigMap {
        metadata: make_owned_meta(ns, odoo_conf_name(name).as_str(), oref),
        data: Some(data),
    }
}

/// The Secret with odoo.conf, where the pods mount one.
pub open spec fn conf_secret_of(
    ns: Seq<char>,
    name: Seq<char>,
    instance: OdooInstanceView,
    oref: OwnerReferenceView,
    conf: Seq<char>,
) -> Option<SecretView> {
    if conf_is_secret(instance) {
        Some(
            SecretView {
                metadata: crate::controller::child_resources::secrets::owned_meta(
                    ns,
                    name + "-odoo-conf"@,
                    oref,
                ),
                data: Some(
                    Map::<Seq<char>, Seq<u8>>::empty().insert(
                        "odoo.conf"@,
                        vstd::utf8::encode_utf8(conf),
                    ),
                ),
                ..SecretView::blank()
            },
        )
    } else {
        None
    }
}

/// The Secret with odoo.conf, around the text that [`conf_inputs`] renders to.
/// `None` where the pods mount the ConfigMap.
pub fn odoo_conf_secret(
    ns: &str,
    name: &str,
    instance: &OdooInstance,
    oref: &OwnerReference,
    conf: &str,
) -> (r: Option<Secret>)
    ensures
        r.deep_view() == conf_secret_of(
            ns@,
            name@,
            instance.deep_view(),
            oref.deep_view(),
            conf@,
        ),
{
    if !odoo_conf_in_secret(instance) {
        return None;
    }
    let mut data: ByteMap = KeyedMap::new();
    data.insert("odoo.conf".to_string(), bytes_of(conf));
    Some(
        Secret {
            metadata: make_owned_meta(ns, odoo_conf_name(name).as_str(), oref),
            data: Some(data),
            ..Default::default()
        },
    )
}

/// The odoo.conf in a ConfigMap, empty where there is none.
pub open spec fn conf_in_config_map(cm: ConfigMapView) -> Seq<char> {
    match cm.data {
        Some(data) => match data.get("odoo.conf"@) {
            Some(conf) => conf,
            None => Seq::empty(),
        },
        None => Seq::empty(),
    }
}

/// The odoo.conf of a Secret that the pods mount, for the rollout-trigger hash.
///
/// Hashing the mounted copy is what makes a change of the master password roll
/// the pods: the copy in the ConfigMap lacks it.
pub fn secret_conf_for_hash(secret: &Secret) -> (r: String)
    ensures
        r@ == crate::controller::child_resources::secrets::secret_text(
            secret.deep_view().data,
            "odoo.conf"@,
        ),
{
    read_secret_text(&secret.data, "odoo.conf")
}

/// The odoo.conf of a ConfigMap that the pods mount, for the rollout-trigger
/// hash.
pub fn config_map_conf_for_hash(cm: &ConfigMap) -> (r: String)
    ensures
        r@ == conf_in_config_map(cm.deep_view()),
{
    match &cm.data {
        Some(data) => match data.get("odoo.conf") {
            Some(conf) => conf.clone(),
            None => String::new(),
        },
        None => String::new(),
    }
}

// ── Laws ────────────────────────────────────────────────────────────────────
/// Where the master password comes from a Secret, it never reaches the
/// ConfigMap: what the ConfigMap is rendered from is the same for every master
/// password, and names none.
pub proof fn master_password_stays_out_of_config_map(
    instance: OdooInstanceView,
    pg: PostgresClusterConfigView,
    username: Seq<char>,
    password: Seq<char>,
    admin_password: Seq<char>,
    other_admin_password: Seq<char>,
)
    requires
        conf_is_secret(instance),
    ensures
        config_map_inputs_of(instance, pg, username, password, admin_password)
            == config_map_inputs_of(instance, pg, username, password, other_admin_password),
        config_map_inputs_of(
            instance,
            pg,
            username,
            password,
            admin_password,
        ).admin_password.len() == 0,
{
}

/// The hash is made of what the pods see: the text read back for it is the text
/// published in the object that the pods mount.
pub proof fn hashed_conf_is_mounted_conf(
    ns: Seq<char>,
    name: Seq<char>,
    instance: OdooInstanceView,
    pg: PostgresClusterConfigView,
    oref: OwnerReferenceView,
    username: Seq<char>,
    password: Seq<char>,
    conf: Seq<char>,
)
    ensures
        conf_is_secret(instance) ==> crate::controller::child_resources::secrets::secret_text(
            conf_secret_of(ns, name, instance, oref, conf)->0.data,
            "odoo.conf"@,
        ) == conf,
        !conf_is_secret(instance) ==> conf_secret_of(ns, name, instance, oref, conf) is None,
        conf_in_config_map(
            config_map_of(ns, name, instance, pg, oref, username, password, conf),
        ) == conf,
{
    crate::text::utf8_reads_back(conf);
    reveal_strlit("odoo.conf");
    reveal_strlit("db_host");
    reveal_strlit("db_port");
    reveal_strlit("db_name");
    reveal_strlit("db_user");
    reveal_strlit("db_password");
    assert("odoo.conf"@[0] == 'o');
    assert("db_host"@[0] == 'd');
    assert("db_port"@[0] == 'd');
    assert("db_name"@[0] == 'd');
    assert("db_user"@[0] == 'd');
    assert("db_password"@[0] == 'd');
}

/// The pods mount the object that is published: the odoo-conf volume names the
/// Secret where there is one, and the ConfigMap otherwise.
pub proof fn pods_mount_published_conf(
    ns: Seq<char>,
    instance: OdooInstanceView,
    pg: PostgresClusterConfigView,
    oref: OwnerReferenceView,
    username: Seq<char>,
    password: Seq<char>,
    conf: Seq<char>,
)
    ensures
        ({
            let volume = crate::controller::helpers::conf_volume_of(instance);
            match conf_secret_of(ns, instance.name(), instance, oref, conf) {
                Some(secret) => {
                    &&& volume.config_map is None
                    &&& volume.secret matches Some(source) && source.secret_name
                        == secret.metadata.name
                },
                None => {
                    &&& volume.secret is None
                    &&& volume.config_map matches Some(source) && Some(source.name)
                        == config_map_of(
                        ns,
                        instance.name(),
                        instance,
                        pg,
                        oref,
                        username,
                        password,
                        conf,
                    ).metadata.name
                },
            }
        }),
{
}

/// The odoo.conf that the pods mount is rendered from the account and the master
/// password that it is given, the cluster's address, the instance's own database and
/// its own options; the addon directories of the official image come first exactly
/// where there is no source volume. The copy in the ConfigMap differs in the master
/// password alone, and only where that comes from a Secret.
pub proof fn conf_is_rendered_from_the_instance(
    instance: OdooInstanceView,
    pg: PostgresClusterConfigView,
    username: Seq<char>,
    password: Seq<char>,
    admin_password: Seq<char>,
)
    ensures
        ({
            let mounted = conf_inputs_of(instance, pg, username, password, admin_password);
            let copied = config_map_inputs_of(instance, pg, username, password, admin_password);
            &&& mounted.username == username
            &&& mounted.password == password
            &&& mounted.admin_password == admin_password
            &&& mounted.host == pg.host
            &&& mounted.port == pg.port
            &&& mounted.db == if instance.spec.database matches Some(d) && d.name is Some {
                instance.spec.database->0.name->0
            } else {
                "odoo_"@ + instance.metadata.uid_or_empty()
            }
            &&& mounted.config_options == instance.spec.config_options
            &&& mounted.prepend_std_addons <==> instance.spec.source_volume is None
            &&& instance.spec.admin_password_secret_ref is None ==> copied == mounted
            &&& instance.spec.admin_password_secret_ref is Some
                ==> copied.admin_password.len() == 0
            &&& copied == (ConfInputsView { admin_password: copied.admin_password, ..mounted })
        }),
{
}

/// The ConfigMap carries the text that was rendered, and for the jobs the address, the
/// database and the account, each under its own key, and nothing else. It is named
/// after the instance, and belongs to it.
pub proof fn config_map_carries_conf_and_account(
    ns: Seq<char>,
    name: Seq<char>,
    instance: OdooInstanceView,
    pg: PostgresClusterConfigView,
    oref: OwnerReferenceView,
    username: Seq<char>,
    password: Seq<char>,
    conf: Seq<char>,
)
    ensures
        ({
            let map = config_map_of(ns, name, instance, pg, oref, username, password, conf);
            let data = map.data->0;
            &&& map.metadata.name == Some(name + "-odoo-conf"@)
            &&& map.metadata.namespace == Some(ns)
            &&& map.metadata.owner_references == Some(seq![oref])
            &&& map.data is Some
            &&& forall|key: Seq<char>| #[trigger]
                data.contains_key(key) <==> key == "odoo.conf"@ || key == "db_host"@ || key
                    == "db_port"@ || key == "db_name"@ || key == "db_user"@ || key
                    == "db_password"@
            &&& data["odoo.conf"@] == conf
            &&& data["db_host"@] == pg.host
            &&& data["db_port"@] == crate::text::decimal(pg.port as nat)
            &&& data["db_name"@] == if instance.spec.database matches Some(d) && d.name is Some {
                instance.spec.database->0.name->0
            } else {
                "odoo_"@ + instance.metadata.uid_or_empty()
            }
            &&& data["db_user"@] == username
            &&& data["db_password"@] == password
        }),
{
    reveal_strlit("odoo.conf");
    reveal_strlit("db_host");
    reveal_strlit("db_port");
    reveal_strlit("db_name");
    reveal_strlit("db_user");
    reveal_strlit("db_password");
    assert("odoo.conf"@[0] == 'o' && "db_host"@[0] == 'd');
    assert("db_host"@[3] == 'h' && "db_port"@[3] == 'p' && "db_name"@[3] == 'n'
        && "db_user"@[3] == 'u' && "db_password"@[3] == 'p');
    assert("db_port"@.len() == 7 && "db_password"@.len() == 11 && "odoo.conf"@.len() == 9);
}

/// A Secret with odoo.conf is made exactly where the master password comes from a
/// Secret. It carries the text that was rendered, in UTF-8, and nothing else, is named
/// after the instance, and belongs to it.
pub proof fn conf_secret_carries_conf_alone(
    ns: Seq<char>,
    name: Seq<char>,
    instance: OdooInstanceView,
    oref: OwnerReferenceView,
    conf: Seq<char>,
)
    ensures
        ({
            let made = conf_secret_of(ns, name, instance, oref, conf);
            &&& made is Some <==> instance.spec.admin_password_secret_ref is Some
            &&& made matches Some(secret) ==> {
                let data = secret.data->0;
                &&& secret.metadata.name == Some(name + "-odoo-conf"@)
                &&& secret.metadata.namespace == Some(ns)
                &&& secret.metadata.owner_references == Some(seq![oref])
                &&& secret.string_data is None
                &&& secret.type_ is None
                &&& secret.data is Some
                &&& forall|key: Seq<char>| #[trigger]
                    data.contains_key(key) <==> key == "odoo.conf"@
                &&& data["odoo.conf"@] == vstd::utf8::encode_utf8(conf)
            }
        }),
{
}

/// The text that is hashed is what stands under `odoo.conf`, and nothing else of the
/// object plays a part; an object without it counts as empty.
pub proof fn hash_reads_the_conf_alone(data: Map<Seq<char>, Seq<char>>, cm: ConfigMapView)
    requires
        cm.data == Some(data),
    ensures
        data.contains_key("odoo.conf"@) ==> conf_in_config_map(cm) == data["odoo.conf"@],
        !data.contains_key("odoo.conf"@) ==> conf_in_config_map(cm).len() == 0,
        conf_in_config_map((ConfigMapView { data: None, ..cm })).len() == 0,
{
}

/// What is hashed is the odoo.conf that stands in the object that the pods mount.
pub proof fn hashes_are_made_of_the_conf(
    secret: Secret,
    cm: ConfigMap,
    hidden: String,
    shown: String,
)
    requires
        call_ensures(secret_conf_for_hash, (&secret,), hidden),
        call_ensures(config_map_conf_for_hash, (&cm,), shown),
    ensures
        forall|text: Seq<char>|
            (secret.deep_view().data matches Some(data) && data.contains_key("odoo.conf"@)
                && data["odoo.conf"@] == #[trigger] vstd::utf8::encode_utf8(text)) ==> hidden@
                == text,
        !(secret.deep_view().data matches Some(data) && data.contains_key("odoo.conf"@))
            ==> hidden@.len() == 0,
        (cm.deep_view().data matches Some(data) && data.contains_key("odoo.conf"@)) ==> shown@
            == cm.deep_view().data->0["odoo.conf"@],
        !(cm.deep_view().data matches Some(data) && data.contains_key("odoo.conf"@))
            ==> shown@.len() == 0,
{
    assert forall|text: Seq<char>|
        (secret.deep_view().data matches Some(data) && data.contains_key("odoo.conf"@)
            && data["odoo.conf"@] == #[trigger] vstd::utf8::encode_utf8(text)) implies hidden@
        == text by {
        crate::text::utf8_reads_back(text);
    }
}

/// The two objects are made of what they are handed: the text, the account, the address
/// and the owner, each in its place.
pub proof fn conf_objects_are_made_of_what_they_are_handed(
    ns: &str,
    name: &str,
    instance: OdooInstance,
    pg: PostgresClusterConfig,
    oref: OwnerReference,
    username: &str,
    password: &str,
    admin_password: &str,
    conf: &str,
    inputs: ConfInputs,
    copied: ConfInputs,
    map: ConfigMap,
    secret: Option<Secret>,
)
    requires
        call_ensures(conf_inputs, (&instance, &pg, username, password, admin_password), inputs),
        call_ensures(
            config_map_conf_inputs,
            (&instance, &pg, username, password, admin_password),
            copied,
        ),
        call_ensures(
            odoo_config_map,
            (ns, name, &instance, &pg, &oref, username, password, conf),
            map,
        ),
        call_ensures(odoo_conf_secret, (ns, name, &instance, &oref, conf), secret),
    ensures
        inputs.username@ == username@,
        inputs.password@ == password@,
        inputs.admin_password@ == admin_password@,
        inputs.host@ == pg.host@,
        inputs.port == pg.port,
        copied.username@ == username@,
        copied.password@ == password@,
        instance.spec.admin_password_secret_ref is Some ==> copied.admin_password@.len() == 0,
        instance.spec.admin_password_secret_ref is None ==> copied.admin_password@
            == admin_password@,
        map.deep_view().metadata.namespace == Some(ns@),
        map.deep_view().metadata.name == Some(name@ + "-odoo-conf"@),
        map.deep_view().data matches Some(data) && data["odoo.conf"@] == conf@ && data["db_user"@]
            == username@ && data["db_password"@] == password@ && data["db_host"@] == pg.host@,
        secret is Some <==> instance.spec.admin_password_secret_ref is Some,
        secret matches Some(secret) ==> secret.deep_view().metadata.namespace == Some(ns@)
            && secret.deep_view().metadata.name == Some(name@ + "-odoo-conf"@) && (
        secret.deep_view().data matches Some(data) && data["odoo.conf"@]
            == vstd::utf8::encode_utf8(conf@)),
{
    config_map_carries_conf_and_account(
        ns@,
        name@,
        instance.deep_view(),
        pg.deep_view(),
        oref.deep_view(),
        username@,
        password@,
        conf@,
    );
    assert(secret is Some ==> secret.deep_view() == Some(secret->0.deep_view()));
}

} // verus!
