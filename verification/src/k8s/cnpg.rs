//! CNPG clusters: what the operator reads of a `postgresql.cnpg.io/v1` Cluster.

use vstd::prelude::*;

use crate::k8s::dynamic::{json_array_length, json_boolean, json_integer, json_string, DynamicObject, DynamicObjectView};
use crate::k8s::meta::{ObjectMeta, ObjectMetaView};
use crate::text::decimal_string;

verus! {

/// A status condition of a cluster, as far as it is one.
#[derive(Debug, PartialEq)]
pub struct ClusterCondition {
    pub type_: Option<String>,
    pub status: Option<String>,
}

/// What [`ClusterCondition`] holds.
#[verifier::ext_equal]
pub struct ClusterConditionView {
    pub type_: Option<Seq<char>>,
    pub status: Option<Seq<char>>,
}

impl DeepView for ClusterCondition {
    type V = ClusterConditionView;

    open spec fn deep_view(&self) -> ClusterConditionView {
        ClusterConditionView { type_: self.type_.deep_view(), status: self.status.deep_view() }
    }
}

/// A cluster. A field that is missing in the object, or not of its type, is
/// absent here.
#[derive(Debug, PartialEq)]
pub struct CnpgCluster {
    pub metadata: ObjectMeta,
    /// `spec.instances`
    pub instances: Option<i64>,
    /// `spec.replica.enabled`
    pub replica_enabled: Option<bool>,
    /// `status.readyInstances`
    pub ready_instances: Option<i64>,
    /// `status.currentPrimary`
    pub current_primary: Option<String>,
    /// `status.conditions`
    pub conditions: Option<Vec<ClusterCondition>>,
}

/// What [`CnpgCluster`] holds.
#[verifier::ext_equal]
pub struct CnpgClusterView {
    pub metadata: ObjectMetaView,
    pub instances: Option<i64>,
    pub replica_enabled: Option<bool>,
    pub ready_instances: Option<i64>,
    pub current_primary: Option<Seq<char>>,
    pub conditions: Option<Seq<ClusterConditionView>>,
}

impl DeepView for CnpgCluster {
    type V = CnpgClusterView;

    open spec fn deep_view(&self) -> CnpgClusterView {
        CnpgClusterView {
            metadata: self.metadata.deep_view(),
            instances: self.instances,
            replica_enabled: self.replica_enabled,
            ready_instances: self.ready_instances,
            current_primary: self.current_primary.deep_view(),
            conditions: self.conditions.deep_view(),
        }
    }
}

/// Where a field of a status condition stands.
pub open spec fn condition_pointer(i: nat, field: Seq<char>) -> Seq<char> {
    "/status/conditions/"@ + crate::text::decimal(i) + "/"@ + field
}

/// A status condition of a JSON document.
pub open spec fn condition_at(data: serde_json::Value, i: nat) -> ClusterConditionView {
    ClusterConditionView {
        type_: crate::k8s::dynamic::json_strings(data).get(condition_pointer(i, "type"@)),
        status: crate::k8s::dynamic::json_strings(data).get(condition_pointer(i, "status"@)),
    }
}

/// The cluster that an object describes.
pub open spec fn cluster_of(object: DynamicObjectView) -> CnpgClusterView {
    CnpgClusterView {
        metadata: object.metadata,
        instances: crate::k8s::dynamic::json_integers(object.data).get("/spec/instances"@),
        replica_enabled: crate::k8s::dynamic::json_booleans(object.data).get(
            "/spec/replica/enabled"@,
        ),
        ready_instances: crate::k8s::dynamic::json_integers(object.data).get(
            "/status/readyInstances"@,
        ),
        current_primary: crate::k8s::dynamic::json_strings(object.data).get(
            "/status/currentPrimary"@,
        ),
        conditions: match crate::k8s::dynamic::json_array_lengths(object.data).get(
            "/status/conditions"@,
        ) {
            Some(n) => Some(Seq::new(n as nat, |i: int| condition_at(object.data, i as nat))),
            None => None,
        },
    }
}

fn condition_field(data: &serde_json::Value, i: usize, field: &str) -> (r: Option<String>)
    ensures
        r.deep_view() == crate::k8s::dynamic::json_strings(*data).get(
            condition_pointer(i as nat, field@),
        ),
{
    let index = decimal_string(i as u64);
    let pointer = "/status/conditions/".to_string().concat(index.as_str()).concat("/").concat(
        field,
    );
    json_string(data, pointer.as_str())
}

fn read_conditions(data: &serde_json::Value) -> (r: Option<Vec<ClusterCondition>>)
    ensures
        r.deep_view() == (match crate::k8s::dynamic::json_array_lengths(*data).get(
            "/status/conditions"@,
        ) {
            Some(n) => Some(Seq::new(n as nat, |i: int| condition_at(*data, i as nat))),
            None => None,
        }),
{
    let n: usize = match json_array_length(data, "/status/conditions") {
        Some(n) => n,
        None => {
            return None;
        },
    };
    let mut out: Vec<ClusterCondition> = Vec::new();
    let mut i: usize = 0;
    while i < n
        invariant
            i <= n,
            out@.len() == i,
            forall|j: int|
                0 <= j < i ==> (#[trigger] out@[j]).deep_view() == condition_at(*data, j as nat),
        decreases n - i,
    {
        out.push(
            ClusterCondition {
                type_: condition_field(data, i, "type"),
                status: condition_field(data, i, "status"),
            },
        );
        i += 1;
    }
    assert(out.deep_view() =~= Seq::new(n as nat, |i: int| condition_at(*data, i as nat)));
    Some(out)
}

impl CnpgCluster {
    /// Reads the cluster that an object describes.
    pub fn read(object: DynamicObject) -> (r: CnpgCluster)
        ensures
            r.deep_view() == cluster_of(object.deep_view()),
    {
        let data = &object.data;
        let instances = json_integer(data, "/spec/instances");
        let replica_enabled = json_boolean(data, "/spec/replica/enabled");
        let ready_instances = json_integer(data, "/status/readyInstances");
        let current_primary = json_string(data, "/status/currentPrimary");
        let conditions = read_conditions(data);
        CnpgCluster {
            metadata: object.metadata,
            instances,
            replica_enabled,
            ready_instances,
            current_primary,
            conditions,
        }
    }
}

// ── Laws ────────────────────────────────────────────────────────────────────
/// A cluster is read field by field, each from its own place in the document: the
/// number of instances and the replica switch from the spec, the ready instances, the
/// primary and every condition, in order, from the status. Its metadata is the object's.
pub proof fn clusters_are_read_by_their_places(object: DynamicObjectView, i: int)
    ensures
        ({
            let cluster = cluster_of(object);
            let integers = crate::k8s::dynamic::json_integers(object.data);
            let texts = crate::k8s::dynamic::json_strings(object.data);
            let lengths = crate::k8s::dynamic::json_array_lengths(object.data);
            let n = lengths["/status/conditions"@];
            &&& cluster.metadata == object.metadata
            &&& cluster.instances == integers.get("/spec/instances"@)
            &&& cluster.replica_enabled == crate::k8s::dynamic::json_booleans(object.data).get(
                "/spec/replica/enabled"@,
            )
            &&& cluster.ready_instances == integers.get("/status/readyInstances"@)
            &&& cluster.current_primary == texts.get("/status/currentPrimary"@)
            &&& cluster.conditions is Some <==> lengths.contains_key("/status/conditions"@)
            &&& cluster.conditions matches Some(conditions) ==> conditions.len() == n
            &&& cluster.conditions is Some && 0 <= i < n ==> {
                let place = "/status/conditions/"@ + crate::text::decimal(i as nat);
                let condition = cluster.conditions->0[i];
                &&& condition.type_ == texts.get(place + "/"@ + "type"@)
                &&& condition.status == texts.get(place + "/"@ + "status"@)
            }
        }),
{
}

} // verus!
