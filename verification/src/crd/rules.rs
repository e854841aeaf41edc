//! The rules that the schema of OdooInstance puts on every object, on CREATE as
//! on UPDATE.

use vstd::prelude::*;

use crate::crd::odoo_instance::{Environment, OdooInstanceSpec, OdooInstanceSpecView, SourceVolumeMount, SourceVolumeMountView};
use crate::text::{contains_space, starts_with_slash};

verus! {

/// Whether a path is absolute.
pub open spec fn is_absolute(path: Seq<char>) -> bool {
    path.len() > 0 && path[0] == '/'
}

/// Whether every mount goes to an absolute path.
pub open spec fn all_absolute(mounts: Seq<SourceVolumeMountView>) -> bool {
    forall|i: int| 0 <= i < mounts.len() ==> is_absolute((#[trigger] mounts[i]).mount_path)
}

/// Whether every mount is read-only.
pub open spec fn all_read_only(mounts: Seq<SourceVolumeMountView>) -> bool {
    forall|i: int| 0 <= i < mounts.len() ==> (#[trigger] mounts[i]).read_only
}

/// The message of a rule that does not hold.
pub open spec fn broken(holds: bool, message: Seq<char>) -> Seq<Seq<char>> {
    if holds {
        seq![]
    } else {
        seq![message]
    }
}

/// The message of each rule that a spec breaks, in the order of the rules.
pub open spec fn violations_of(spec: OdooInstanceSpecView) -> Seq<Seq<char>> {
    broken(
        spec.environment != Environment::Production || spec.production_instance_ref is None,
        "spec.productionInstanceRef is forbidden on production instances"@,
    ) + broken(
        spec.admin_password is Some != spec.admin_password_secret_ref is Some,
        "exactly one of spec.adminPassword and spec.adminPasswordSecretRef must be set"@,
    ) + broken(
        spec.source_volume matches Some(v) ==> v.mounts.len() > 0,
        "spec.sourceVolume.mounts must not be empty"@,
    ) + broken(
        spec.custom_source_volume matches Some(v) ==> v.mounts.len() > 0,
        "spec.customSourceVolume.mounts must not be empty"@,
    ) + broken(
        spec.custom_source_volume matches Some(v) ==> all_absolute(v.mounts) && all_read_only(
            v.mounts,
        ),
        "spec.customSourceVolume mounts must be absolute and read-only"@,
    ) + broken(
        spec.source_volume matches Some(v) ==> is_absolute(v.odoo_bin),
        "spec.sourceVolume.odooBin must be an absolute path"@,
    ) + broken(
        spec.source_volume matches Some(v) ==> all_absolute(v.mounts),
        "spec.sourceVolume.mounts[].mountPath must be an absolute path"@,
    ) + broken(
        spec.monitoring is None || spec.environment == Environment::Production,
        "spec.monitoring is supported only for Production"@,
    ) + broken(
        spec.source_volume matches Some(v) ==> !crate::text::has_space(v.odoo_bin),
        "spec.sourceVolume.odooBin must not contain whitespace"@,
    )
}

fn mounts_absolute(mounts: &Vec<SourceVolumeMount>) -> (r: bool)
    ensures
        r == all_absolute(mounts.deep_view()),
{
    let ghost seen = mounts.deep_view();
    let mut i: usize = 0;
    while i < mounts.len()
        invariant
            i <= mounts.len(),
            seen == mounts.deep_view(),
            forall|j: int| 0 <= j < i ==> is_absolute((#[trigger] seen[j]).mount_path),
        decreases mounts.len() - i,
    {
        assert(seen[i as int] == mounts@[i as int].deep_view());
        if !starts_with_slash(mounts[i].mount_path.as_str()) {
            assert(!is_absolute(seen[i as int].mount_path));
            return false;
        }
        i += 1;
    }
    true
}

fn mounts_read_only(mounts: &Vec<SourceVolumeMount>) -> (r: bool)
    ensures
        r == all_read_only(mounts.deep_view()),
{
    let ghost seen = mounts.deep_view();
    let mut i: usize = 0;
    while i < mounts.len()
        invariant
            i <= mounts.len(),
            seen == mounts.deep_view(),
            forall|j: int| 0 <= j < i ==> (#[trigger] seen[j]).read_only,
        decreases mounts.len() - i,
    {
        assert(seen[i as int] == mounts@[i as int].deep_view());
        if !mounts[i].read_only {
            assert(!seen[i as int].read_only);
            return false;
        }
        i += 1;
    }
    true
}

fn check(out: &mut Vec<String>, holds: bool, message: &str)
    ensures
        final(out).deep_view() == old(out).deep_view() + broken(holds, message@),
{
    let ghost before = out.deep_view();
    if !holds {
        out.push(message.to_string());
    }
    assert(out.deep_view() =~= before + broken(holds, message@));
}

/// The message of each rule that a spec breaks, in the order of the rules.
///
/// `odooBin` reaches shell scripts through a variable that the shell splits into
/// words. Quoting it there is impossible, so whitespace in it is refused here.
pub fn schema_violations(spec: &OdooInstanceSpec) -> (r: Vec<String>)
    ensures
        r.deep_view() == violations_of(spec.deep_view()),
{
    let production = spec.environment == Environment::Production;
    let source = &spec.source_volume;
    let custom = &spec.custom_source_volume;
    let mut out: Vec<String> = Vec::new();
    assert(out.deep_view() =~= seq![]);
    check(
        &mut out,
        !production || spec.production_instance_ref.is_none(),
        "spec.productionInstanceRef is forbidden on production instances",
    );
    check(
        &mut out,
        spec.admin_password.is_some() != spec.admin_password_secret_ref.is_some(),
        "exactly one of spec.adminPassword and spec.adminPasswordSecretRef must be set",
    );
    let source_mounted = match source {
        Some(v) => v.mounts.len() > 0,
        None => true,
    };
    check(&mut out, source_mounted, "spec.sourceVolume.mounts must not be empty");
    let custom_mounted = match custom {
        Some(v) => v.mounts.len() > 0,
        None => true,
    };
    check(&mut out, custom_mounted, "spec.customSourceVolume.mounts must not be empty");
    let custom_safe = match custom {
        Some(v) => mounts_absolute(&v.mounts) && mounts_read_only(&v.mounts),
        None => true,
    };
    check(
        &mut out,
        custom_safe,
        "spec.customSourceVolume mounts must be absolute and read-only",
    );
    let bin_absolute = match source {
        Some(v) => starts_with_slash(v.odoo_bin.as_str()),
        None => true,
    };
    check(&mut out, bin_absolute, "spec.sourceVolume.odooBin must be an absolute path");
    let source_absolute = match source {
        Some(v) => mounts_absolute(&v.mounts),
        None => true,
    };
    check(
        &mut out,
        source_absolute,
        "spec.sourceVolume.mounts[].mountPath must be an absolute path",
    );
    check(
        &mut out,
        spec.monitoring.is_none() || production,
        "spec.monitoring is supported only for Production",
    );
    let bin_unbroken = match source {
        Some(v) => !contains_space(v.odoo_bin.as_str()),
        None => true,
    };
    check(&mut out, bin_unbroken, "spec.sourceVolume.odooBin must not contain whitespace");
    out
}

// ── Laws ────────────────────────────────────────────────────────────────────
/// A spec that breaks no rule keeps each of them.
proof fn no_violation_no_break(spec: OdooInstanceSpecView)
    requires
        violations_of(spec).len() == 0,
    ensures
        spec.environment != Environment::Production || spec.production_instance_ref is None,
        spec.admin_password is Some != spec.admin_password_secret_ref is Some,
        spec.source_volume matches Some(v) ==> {
            &&& v.mounts.len() > 0
            &&& all_absolute(v.mounts)
            &&& is_absolute(v.odoo_bin)
            &&& !crate::text::has_space(v.odoo_bin)
        },
        spec.custom_source_volume matches Some(v) ==> {
            &&& v.mounts.len() > 0
            &&& all_absolute(v.mounts)
            &&& all_read_only(v.mounts)
        },
        spec.monitoring is None || spec.environment == Environment::Production,
{
}

/// An accepted object runs neutralization with the subcommand right behind the
/// executable, in both modes: the rules on `odooBin` are enough for that.
pub proof fn accepted_objects_neutralize(instance: crate::crd::odoo_instance::OdooInstanceView)
    requires
        violations_of(instance.spec).len() == 0,
    ensures
        ({
            let argv = crate::controller::helpers::neutralize_argv(instance);
            match instance.spec.source_volume {
                None => argv == seq!["odoo"@, "neutralize"@],
                Some(sv) => argv == seq![
                    "python3"@,
                    sv.odoo_bin,
                    "neutralize"@,
                    "-c"@,
                    crate::controller::helpers::ODOO_CONF_PATH@,
                ],
            }
        }),
{
    no_violation_no_break(instance.spec);
    crate::controller::helpers::subcommand_follows_executable(instance);
}

/// An accepted object has exactly one source of its master password, so the
/// webhook does not refuse it for that.
pub proof fn accepted_objects_have_one_password(
    instance: crate::crd::odoo_instance::OdooInstanceView,
)
    requires
        violations_of(instance.spec).len() == 0,
    ensures
        crate::webhook::password_denial(instance) is None,
{
    no_violation_no_break(instance.spec);
}

/// Monitoring is taken or refused, never ignored: in an accepted object that asks
/// for it, the web pod is monitored.
pub proof fn accepted_monitoring_is_applied(
    instance: crate::crd::odoo_instance::OdooInstanceView,
)
    requires
        violations_of(instance.spec).len() == 0,
    ensures
        instance.spec.monitoring is Some ==> crate::controller::monitoring::is_monitored(instance),
{
    no_violation_no_break(instance.spec);
}

/// A text is in the joint of two lists exactly where it is in one of them.
proof fn in_either(a: Seq<Seq<char>>, b: Seq<Seq<char>>, m: Seq<char>)
    ensures
        (a + b).contains(m) <==> a.contains(m) || b.contains(m),
{
    if a.contains(m) {
        let i = choose|i: int| 0 <= i < a.len() && a[i] == m;
        assert((a + b)[i] == m);
    }
    if b.contains(m) {
        let i = choose|i: int| 0 <= i < b.len() && b[i] == m;
        assert((a + b)[a.len() + i] == m);
    }
    if (a + b).contains(m) {
        let i = choose|i: int| 0 <= i < (a + b).len() && (a + b)[i] == m;
        if i < a.len() {
            assert(a[i] == m);
        } else {
            assert(b[i - a.len()] == m);
        }
    }
}

/// A message is in the list of one rule exactly where that rule does not hold and the
/// message is its own.
proof fn in_broken(holds: bool, message: Seq<char>, m: Seq<char>)
    ensures
        broken(holds, message).contains(m) <==> !holds && m == message,
{
    if !holds {
        assert(seq![message][0] == message);
    }
}

/// The message of each rule is in the list exactly where that rule does not hold.
proof fn messages_stand_for_rules(spec: OdooInstanceSpecView)
    ensures
        ({
            let named = violations_of(spec);
            &&& named.contains(
                "spec.productionInstanceRef is forbidden on production instances"@,
            ) <==> !(spec.environment != Environment::Production || spec.production_instance_ref
                is None)
            &&& named.contains(
                "exactly one of spec.adminPassword and spec.adminPasswordSecretRef must be set"@,
            ) <==> !(spec.admin_password is Some != spec.admin_password_secret_ref is Some)
            &&& named.contains("spec.sourceVolume.mounts must not be empty"@) <==> !(
            spec.source_volume matches Some(v) ==> v.mounts.len() > 0)
            &&& named.contains("spec.customSourceVolume.mounts must not be empty"@) <==> !(
            spec.custom_source_volume matches Some(v) ==> v.mounts.len() > 0)
            &&& named.contains(
                "spec.customSourceVolume mounts must be absolute and read-only"@,
            ) <==> !(spec.custom_source_volume matches Some(v) ==> all_absolute(v.mounts)
                && all_read_only(v.mounts))
            &&& named.contains("spec.sourceVolume.odooBin must be an absolute path"@) <==> !(
            spec.source_volume matches Some(v) ==> is_absolute(v.odoo_bin))
            &&& named.contains(
                "spec.sourceVolume.mounts[].mountPath must be an absolute path"@,
            ) <==> !(spec.source_volume matches Some(v) ==> all_absolute(v.mounts))
            &&& named.contains("spec.monitoring is supported only for Production"@) <==> !(
            spec.monitoring is None || spec.environment == Environment::Production)
            &&& named.contains("spec.sourceVolume.odooBin must not contain whitespace"@) <==> !(
            spec.source_volume matches Some(v) ==> !crate::text::has_space(v.odoo_bin))
        }),
{
    let m0 = "spec.productionInstanceRef is forbidden on production instances"@;
    let m1 = "exactly one of spec.adminPassword and spec.adminPasswordSecretRef must be set"@;
    let m2 = "spec.sourceVolume.mounts must not be empty"@;
    let m3 = "spec.customSourceVolume.mounts must not be empty"@;
    let m4 = "spec.customSourceVolume mounts must be absolute and read-only"@;
    let m5 = "spec.sourceVolume.odooBin must be an absolute path"@;
    let m6 = "spec.sourceVolume.mounts[].mountPath must be an absolute path"@;
    let m7 = "spec.monitoring is supported only for Production"@;
    let m8 = "spec.sourceVolume.odooBin must not contain whitespace"@;
    reveal_strlit("spec.productionInstanceRef is forbidden on production instances");
    reveal_strlit("exactly one of spec.adminPassword and spec.adminPasswordSecretRef must be set");
    reveal_strlit("spec.sourceVolume.mounts must not be empty");
    reveal_strlit("spec.customSourceVolume.mounts must not be empty");
    reveal_strlit("spec.customSourceVolume mounts must be absolute and read-only");
    reveal_strlit("spec.sourceVolume.odooBin must be an absolute path");
    reveal_strlit("spec.sourceVolume.mounts[].mountPath must be an absolute path");
    reveal_strlit("spec.monitoring is supported only for Production");
    reveal_strlit("spec.sourceVolume.odooBin must not contain whitespace");
    assert(m0.len() == 63 && m1.len() == 77 && m2.len() == 42 && m3.len() == 48 && m4.len() == 61
        && m5.len() == 50 && m6.len() == 61 && m7.len() == 48 && m8.len() == 53);
    assert(m3[5] == 'c' && m7[5] == 'm' && m4[5] == 'c' && m6[5] == 's');
    let c0 = spec.environment != Environment::Production || spec.production_instance_ref is None;
    let c1 = spec.admin_password is Some != spec.admin_password_secret_ref is Some;
    let c2 = spec.source_volume matches Some(v) ==> v.mounts.len() > 0;
    let c3 = spec.custom_source_volume matches Some(v) ==> v.mounts.len() > 0;
    let c4 = spec.custom_source_volume matches Some(v) ==> all_absolute(v.mounts) && all_read_only(
        v.mounts,
    );
    let c5 = spec.source_volume matches Some(v) ==> is_absolute(v.odoo_bin);
    let c6 = spec.source_volume matches Some(v) ==> all_absolute(v.mounts);
    let c7 = spec.monitoring is None || spec.environment == Environment::Production;
    let c8 = spec.source_volume matches Some(v) ==> !crate::text::has_space(v.odoo_bin);
    assert forall|m: Seq<char>| #[trigger] violations_of(spec).contains(m) <==> (!c0 && m == m0)
        || (!c1 && m == m1) || (!c2 && m == m2) || (!c3 && m == m3) || (!c4 && m == m4) || (!c5
        && m == m5) || (!c6 && m == m6) || (!c7 && m == m7) || (!c8 && m == m8) by {
        let s0 = broken(c0, m0);
        let s1 = s0 + broken(c1, m1);
        let s2 = s1 + broken(c2, m2);
        let s3 = s2 + broken(c3, m3);
        let s4 = s3 + broken(c4, m4);
        let s5 = s4 + broken(c5, m5);
        let s6 = s5 + broken(c6, m6);
        let s7 = s6 + broken(c7, m7);
        in_broken(c0, m0, m);
        in_broken(c1, m1, m);
        in_broken(c2, m2, m);
        in_broken(c3, m3, m);
        in_broken(c4, m4, m);
        in_broken(c5, m5, m);
        in_broken(c6, m6, m);
        in_broken(c7, m7, m);
        in_broken(c8, m8, m);
        in_either(s0, broken(c1, m1), m);
        in_either(s1, broken(c2, m2), m);
        in_either(s2, broken(c3, m3), m);
        in_either(s3, broken(c4, m4), m);
        in_either(s4, broken(c5, m5), m);
        in_either(s5, broken(c6, m6), m);
        in_either(s6, broken(c7, m7), m);
        in_either(s7, broken(c8, m8), m);
    }
}

/// Each rule is named exactly where it is broken, whatever else is: a production
/// instance names no production instance; there is exactly one source of the master
/// password; source claims are mounted somewhere, under absolute paths, the custom one
/// read-only; `odooBin` is an absolute path without white space; and only production is
/// monitored.
pub proof fn broken_rules_are_named(spec: OdooInstanceSpecView)
    ensures
        ({
            let named = violations_of(spec);
            &&& named.contains(
                "spec.productionInstanceRef is forbidden on production instances"@,
            ) <==> spec.environment == Environment::Production && spec.production_instance_ref
                is Some
            &&& named.contains(
                "exactly one of spec.adminPassword and spec.adminPasswordSecretRef must be set"@,
            ) <==> (spec.admin_password is Some && spec.admin_password_secret_ref is Some) || (
            spec.admin_password is None && spec.admin_password_secret_ref is None)
            &&& named.contains("spec.sourceVolume.mounts must not be empty"@) <==> (
            spec.source_volume matches Some(v) && v.mounts.len() == 0)
            &&& named.contains("spec.customSourceVolume.mounts must not be empty"@) <==> (
            spec.custom_source_volume matches Some(v) && v.mounts.len() == 0)
            &&& named.contains(
                "spec.customSourceVolume mounts must be absolute and read-only"@,
            ) <==> (spec.custom_source_volume matches Some(v) && exists|i: int|
                0 <= i < v.mounts.len() && (!(#[trigger] v.mounts[i]).read_only
                    || v.mounts[i].mount_path.len() == 0 || v.mounts[i].mount_path[0] != '/'))
            &&& named.contains("spec.sourceVolume.odooBin must be an absolute path"@) <==> (
            spec.source_volume matches Some(v) && (v.odoo_bin.len() == 0 || v.odoo_bin[0] != '/'))
            &&& named.contains(
                "spec.sourceVolume.mounts[].mountPath must be an absolute path"@,
            ) <==> (spec.source_volume matches Some(v) && exists|i: int|
                0 <= i < v.mounts.len() && ((#[trigger] v.mounts[i]).mount_path.len() == 0
                    || v.mounts[i].mount_path[0] != '/'))
            &&& named.contains("spec.monitoring is supported only for Production"@)
                <==> spec.monitoring is Some && spec.environment == Environment::Staging
            &&& named.contains("spec.sourceVolume.odooBin must not contain whitespace"@) <==> (
            spec.source_volume matches Some(v) && exists|i: int|
                0 <= i < v.odoo_bin.len() && ((#[trigger] v.odoo_bin[i]) as int == 32 || 9
                    <= v.odoo_bin[i] as int <= 13))
        }),
{
    messages_stand_for_rules(spec);
    if let Some(v) = spec.source_volume {
        crate::text::white_space_is_ascii(v.odoo_bin);
    }
}

/// What is left of a list and one more.
proof fn filter_one_more(s: Seq<Seq<char>>, m: Seq<char>, left: spec_fn(Seq<char>) -> bool)
    ensures
        s.push(m).filter(left) == s.filter(left) + broken(!left(m), m),
{
    reveal(Seq::filter);
    assert(s.push(m).drop_last() =~= s);
    assert(s.push(m).filter(left) =~= s.filter(left) + broken(!left(m), m));
}

/// The rules are named in this order, each once at most: the list is what is left of
/// the nine messages when those of the rules that hold are left out.
pub proof fn broken_rules_are_named_in_order(spec: OdooInstanceSpecView, all: Seq<Seq<char>>)
    requires
        all == seq![
            "spec.productionInstanceRef is forbidden on production instances"@,
            "exactly one of spec.adminPassword and spec.adminPasswordSecretRef must be set"@,
            "spec.sourceVolume.mounts must not be empty"@,
            "spec.customSourceVolume.mounts must not be empty"@,
            "spec.customSourceVolume mounts must be absolute and read-only"@,
            "spec.sourceVolume.odooBin must be an absolute path"@,
            "spec.sourceVolume.mounts[].mountPath must be an absolute path"@,
            "spec.monitoring is supported only for Production"@,
            "spec.sourceVolume.odooBin must not contain whitespace"@,
        ],
    ensures
        violations_of(spec) == all.filter(|m: Seq<char>| violations_of(spec).contains(m)),
{
    messages_stand_for_rules(spec);
    let left = |m: Seq<char>| violations_of(spec).contains(m);
    filter_one_more(all.take(0), all[0], left);
    filter_one_more(all.take(1), all[1], left);
    filter_one_more(all.take(2), all[2], left);
    filter_one_more(all.take(3), all[3], left);
    filter_one_more(all.take(4), all[4], left);
    filter_one_more(all.take(5), all[5], left);
    filter_one_more(all.take(6), all[6], left);
    filter_one_more(all.take(7), all[7], left);
    filter_one_more(all.take(8), all[8], left);
    assert(all.take(9) =~= all);
    assert(all.take(0).filter(left) =~= Seq::empty()) by {
        reveal(Seq::filter);
    }
    assert(all.take(1) =~= all.take(0).push(all[0]));
    assert(all.take(2) =~= all.take(1).push(all[1]));
    assert(all.take(3) =~= all.take(2).push(all[2]));
    assert(all.take(4) =~= all.take(3).push(all[3]));
    assert(all.take(5) =~= all.take(4).push(all[4]));
    assert(all.take(6) =~= all.take(5).push(all[5]));
    assert(all.take(7) =~= all.take(6).push(all[6]));
    assert(all.take(8) =~= all.take(7).push(all[7]));
    assert(all.take(9) =~= all.take(8).push(all[8]));
    let s0 = broken(!left(all[0]), all[0]);
    let s1 = s0 + broken(!left(all[1]), all[1]);
    let s2 = s1 + broken(!left(all[2]), all[2]);
    let s3 = s2 + broken(!left(all[3]), all[3]);
    let s4 = s3 + broken(!left(all[4]), all[4]);
    let s5 = s4 + broken(!left(all[5]), all[5]);
    let s6 = s5 + broken(!left(all[6]), all[6]);
    let s7 = s6 + broken(!left(all[7]), all[7]);
    let s8 = s7 + broken(!left(all[8]), all[8]);
    assert(all.take(1).filter(left) =~= s0);
    assert(all.take(2).filter(left) =~= s1);
    assert(all.take(3).filter(left) =~= s2);
    assert(all.take(4).filter(left) =~= s3);
    assert(all.take(5).filter(left) =~= s4);
    assert(all.take(6).filter(left) =~= s5);
    assert(all.take(7).filter(left) =~= s6);
    assert(all.take(8).filter(left) =~= s7);
    assert(all.take(9).filter(left) =~= s8);
    assert(violations_of(spec) == s8);
}

} // verus!
