//! The patterns that the schema of OdooInstance puts on `spec.monitoring`.

use vstd::prelude::*;

use crate::crd::odoo_instance::{MonitoringSpec, MonitoringSpecView};
use crate::text::chars_of;

verus! {

/// Whether a character is a decimal digit.
pub open spec fn is_digit(c: char) -> bool {
    '0' <= c <= '9'
}

/// Whether a character is a lowercase hexadecimal digit.
pub open spec fn is_hex_digit(c: char) -> bool {
    is_digit(c) || 'a' <= c <= 'f'
}

/// Whether a text is a SHA-256 digest in hexadecimal.
pub open spec fn is_digest(s: Seq<char>) -> bool {
    s.len() == 64 && forall|i: int| 0 <= i < s.len() ==> is_hex_digit(#[trigger] s[i])
}

/// Whether a text is absent or names Docker Hub.
pub open spec fn is_registry(s: Seq<char>) -> bool {
    s.len() == 0 || s == "docker.io/"@
}

/// The reference of an exporter image: its registry, its version and its digest.
pub open spec fn exporter_reference(
    registry: Seq<char>,
    major: Seq<char>,
    minor: Seq<char>,
    patch: Seq<char>,
    digest: Seq<char>,
) -> Seq<char> {
    registry + "prom/statsd-exporter:v"@ + major + "."@ + minor + "."@ + patch + "@sha256:"@
        + digest
}

/// Whether the parts of a reference are what they have to be.
pub open spec fn reference_parts(
    registry: Seq<char>,
    major: Seq<char>,
    minor: Seq<char>,
    patch: Seq<char>,
    digest: Seq<char>,
) -> bool {
    &&& is_registry(registry)
    &&& crate::text::is_decimal(major)
    &&& crate::text::is_decimal(minor)
    &&& crate::text::is_decimal(patch)
    &&& is_digest(digest)
}

/// Whether an image is an official exporter release, pinned by its digest.
pub open spec fn is_exporter_image(image: Seq<char>) -> bool {
    &&& image.len() <= 256
    &&& exists|
        registry: Seq<char>,
        major: Seq<char>,
        minor: Seq<char>,
        patch: Seq<char>,
        digest: Seq<char>,
    | #[trigger]
        reference_parts(registry, major, minor, patch, digest) && image == exporter_reference(
            registry,
            major,
            minor,
            patch,
            digest,
        )
}

/// Whether a character may stand at the ends of a ConfigMap's name.
pub open spec fn is_name_end(c: char) -> bool {
    is_digit(c) || 'a' <= c <= 'z'
}

/// Whether a text is the name of a ConfigMap: a DNS label.
pub open spec fn is_config_map_name(s: Seq<char>) -> bool {
    &&& 1 <= s.len() <= 63
    &&& is_name_end(s[0])
    &&& is_name_end(s.last())
    &&& forall|i: int| 0 <= i < s.len() ==> is_name_end(#[trigger] s[i]) || s[i] == '-'
}

// ── Where the parts stand ───────────────────────────────────────────────────
/// Whether a text stands at a place of another.
pub open spec fn stands_at(s: Seq<char>, at: int, text: Seq<char>) -> bool {
    0 <= at && at + text.len() <= s.len() && s.subrange(at, at + text.len()) == text
}

/// Whether the digits from a place on end at another.
pub open spec fn digits_end_at(s: Seq<char>, at: int, end: int) -> bool {
    &&& 0 <= at <= end <= s.len()
    &&& forall|i: int| at <= i < end ==> is_digit(#[trigger] s[i])
    &&& end < s.len() ==> !is_digit(s[end])
}

/// How long the registry of a reference is.
pub open spec fn registry_len(s: Seq<char>) -> int {
    if stands_at(s, 0, "docker.io/"@) {
        10
    } else {
        0
    }
}

/// The registry is absent or names Docker Hub, whatever the text holds.
proof fn registry_is_one(s: Seq<char>)
    ensures
        registry_len(s) <= s.len(),
        is_registry(s.take(registry_len(s))),
{
    reveal_strlit("docker.io/");
    assert(s.take(10) == s.subrange(0, 10));
}

/// The parts of a reference stand where a reader that goes from left to right
/// finds them.
proof fn parts_stand(
    s: Seq<char>,
    registry: Seq<char>,
    major: Seq<char>,
    minor: Seq<char>,
    patch: Seq<char>,
    digest: Seq<char>,
)
    requires
        reference_parts(registry, major, minor, patch, digest),
        s == exporter_reference(registry, major, minor, patch, digest),
    ensures
        ({
            let a = registry.len() as int;
            let b = a + 22;
            let c = b + major.len();
            let d = c + 1 + minor.len();
            let e = d + 1 + patch.len();
            &&& registry_len(s) == a
            &&& stands_at(s, a, "prom/statsd-exporter:v"@)
            &&& digits_end_at(s, b, c)
            &&& stands_at(s, c, "."@)
            &&& digits_end_at(s, c + 1, d)
            &&& stands_at(s, d, "."@)
            &&& digits_end_at(s, d + 1, e)
            &&& stands_at(s, e, "@sha256:"@)
            &&& s.len() == e + 8 + 64
            &&& s.take(a) == registry
            &&& s.subrange(b, c) == major
            &&& s.subrange(c + 1, d) == minor
            &&& s.subrange(d + 1, e) == patch
            &&& s.skip(e + 8) == digest
        }),
{
    reveal_strlit("docker.io/");
    reveal_strlit("prom/statsd-exporter:v");
    reveal_strlit(".");
    reveal_strlit("@sha256:");
    let a = registry.len() as int;
    let b = a + 22;
    let c = b + major.len();
    let d = c + 1 + minor.len();
    let e = d + 1 + patch.len();
    assert(s.take(a) =~= registry);
    assert(s.subrange(a, b) =~= "prom/statsd-exporter:v"@);
    assert(s.subrange(b, c) =~= major);
    assert(s.subrange(c, c + 1) =~= "."@);
    assert(s.subrange(c + 1, d) =~= minor);
    assert(s.subrange(d, d + 1) =~= "."@);
    assert(s.subrange(d + 1, e) =~= patch);
    assert(s.subrange(e, e + 8) =~= "@sha256:"@);
    assert(s.skip(e + 8) =~= digest);
    assert forall|i: int| b <= i < c implies is_digit(#[trigger] s[i]) by {
        assert(s[i] == major[i - b]);
    }
    assert forall|i: int| c + 1 <= i < d implies is_digit(#[trigger] s[i]) by {
        assert(s[i] == minor[i - c - 1]);
    }
    assert forall|i: int| d + 1 <= i < e implies is_digit(#[trigger] s[i]) by {
        assert(s[i] == patch[i - d - 1]);
    }
    assert(s[c] == s.subrange(c, c + 1)[0]);
    assert(s[d] == s.subrange(d, d + 1)[0]);
    assert(s[e] == s.subrange(e, e + 8)[0]);
    if a == 0 {
        assert(s[0] == s.subrange(a, b)[0]);
        if stands_at(s, 0, "docker.io/"@) {
            assert(s[0] == s.subrange(0, 10)[0]);
        }
    } else {
        assert(s.subrange(0, 10) =~= registry);
    }
}

/// The digits from a place on end at one place only.
proof fn digits_end_once(s: Seq<char>, at: int, a: int, b: int)
    requires
        digits_end_at(s, at, a),
        digits_end_at(s, at, b),
    ensures
        a == b,
{
    if a < b {
        assert(is_digit(s[a]));
    } else if b < a {
        assert(is_digit(s[b]));
    }
}

/// An allowed image has one registry, one version and one digest: the reference
/// reads back as the parts that it was made of.
pub proof fn exporter_reference_reads_back(
    registry: Seq<char>,
    major: Seq<char>,
    minor: Seq<char>,
    patch: Seq<char>,
    digest: Seq<char>,
    other_registry: Seq<char>,
    other_major: Seq<char>,
    other_minor: Seq<char>,
    other_patch: Seq<char>,
    other_digest: Seq<char>,
)
    requires
        reference_parts(registry, major, minor, patch, digest),
        reference_parts(other_registry, other_major, other_minor, other_patch, other_digest),
        exporter_reference(registry, major, minor, patch, digest) == exporter_reference(
            other_registry,
            other_major,
            other_minor,
            other_patch,
            other_digest,
        ),
    ensures
        registry == other_registry,
        major == other_major,
        minor == other_minor,
        patch == other_patch,
        digest == other_digest,
{
    let s = exporter_reference(registry, major, minor, patch, digest);
    parts_stand(s, registry, major, minor, patch, digest);
    parts_stand(s, other_registry, other_major, other_minor, other_patch, other_digest);
    let b = registry.len() as int + 22;
    digits_end_once(s, b, b + major.len(), b + other_major.len());
    let c = b + major.len();
    digits_end_once(s, c + 1, c + 1 + minor.len(), c + 1 + other_minor.len());
    let d = c + 1 + minor.len();
    digits_end_once(s, d + 1, d + 1 + patch.len(), d + 1 + other_patch.len());
}

// ── Reading ─────────────────────────────────────────────────────────────────
fn text_stands(chars: &Vec<char>, at: usize, text: &str) -> (r: bool)
    ensures
        r == stands_at(chars@, at as int, text@),
{
    let wanted = chars_of(text);
    if at > chars.len() || wanted.len() > chars.len() - at {
        return false;
    }
    let ghost part = chars@.subrange(at as int, at + text@.len());
    let mut i: usize = 0;
    while i < wanted.len()
        invariant
            i <= wanted.len(),
            wanted@ == text@,
            at + wanted.len() <= chars.len(),
            part == chars@.subrange(at as int, at + text@.len()),
            forall|j: int| 0 <= j < i ==> part[j] == #[trigger] text@[j],
        decreases wanted.len() - i,
    {
        assert(part[i as int] == chars@[at + i]);
        if chars[at + i] != wanted[i] {
            assert(part[i as int] != text@[i as int]);
            return false;
        }
        i += 1;
    }
    assert(part =~= text@);
    true
}

fn digits_end(chars: &Vec<char>, at: usize) -> (r: usize)
    requires
        at <= chars.len(),
    ensures
        digits_end_at(chars@, at as int, r as int),
{
    let mut i: usize = at;
    while i < chars.len() && '0' <= chars[i] && chars[i] <= '9'
        invariant
            at <= i <= chars.len(),
            forall|j: int| at <= j < i ==> is_digit(#[trigger] chars@[j]),
        decreases chars.len() - i,
    {
        i += 1;
    }
    i
}

fn registry_end(chars: &Vec<char>) -> (r: usize)
    ensures
        r == registry_len(chars@),
{
    if text_stands(chars, 0, "docker.io/") {
        10
    } else {
        0
    }
}

fn digest_from(chars: &Vec<char>, at: usize) -> (r: bool)
    requires
        at <= chars.len(),
    ensures
        r == is_digest(chars@.skip(at as int)),
{
    let ghost digest = chars@.skip(at as int);
    if chars.len() - at != 64 {
        return false;
    }
    let mut i: usize = at;
    while i < chars.len()
        invariant
            at <= i <= chars.len(),
            digest == chars@.skip(at as int),
            forall|j: int| 0 <= j < i - at ==> is_hex_digit(#[trigger] digest[j]),
        decreases chars.len() - i,
    {
        let c = chars[i];
        assert(digest[i - at] == c);
        if !(('0' <= c && c <= '9') || ('a' <= c && c <= 'f')) {
            assert(!is_hex_digit(digest[i - at]));
            return false;
        }
        i += 1;
    }
    true
}

/// Where the parts of an image end, as far as they are there.
fn version_end(chars: &Vec<char>) -> (r: Option<(usize, usize, usize, usize)>)
    ensures
        match r {
            Some((a, c, d, e)) => {
                &&& a == registry_len(chars@)
                &&& stands_at(chars@, a as int, "prom/statsd-exporter:v"@)
                &&& digits_end_at(chars@, a + 22, c as int)
                &&& a + 22 < c
                &&& stands_at(chars@, c as int, "."@)
                &&& digits_end_at(chars@, c + 1, d as int)
                &&& c + 1 < d
                &&& stands_at(chars@, d as int, "."@)
                &&& digits_end_at(chars@, d + 1, e as int)
                &&& d + 1 < e
                &&& stands_at(chars@, e as int, "@sha256:"@)
            },
            None => !exists|
                registry: Seq<char>,
                major: Seq<char>,
                minor: Seq<char>,
                patch: Seq<char>,
                digest: Seq<char>,
            | #[trigger]
                reference_parts(registry, major, minor, patch, digest) && chars@
                    == exporter_reference(registry, major, minor, patch, digest),
        },
{
    proof {
        reveal_strlit("prom/statsd-exporter:v");
        reveal_strlit(".");
        reveal_strlit("@sha256:");
        registry_is_one(chars@);
        assert forall|
            registry: Seq<char>,
            major: Seq<char>,
            minor: Seq<char>,
            patch: Seq<char>,
            digest: Seq<char>,
        | #[trigger]
            reference_parts(registry, major, minor, patch, digest) && chars@ == exporter_reference(
                registry,
                major,
                minor,
                patch,
                digest,
            ) implies {
            let a = registry_len(chars@);
            &&& stands_at(chars@, a, "prom/statsd-exporter:v"@)
            &&& forall|c: int| #[trigger]
                digits_end_at(chars@, a + 22, c) ==> {
                    &&& a + 22 < c
                    &&& stands_at(chars@, c, "."@)
                    &&& forall|d: int| #[trigger]
                        digits_end_at(chars@, c + 1, d) ==> {
                            &&& c + 1 < d
                            &&& stands_at(chars@, d, "."@)
                            &&& forall|e: int| #[trigger]
                                digits_end_at(chars@, d + 1, e) ==> d + 1 < e && stands_at(
                                    chars@,
                                    e,
                                    "@sha256:"@,
                                )
                        }
                }
        } by {
            parts_stand(chars@, registry, major, minor, patch, digest);
            let a = registry_len(chars@);
            let b = a + 22;
            assert forall|c: int| #[trigger] digits_end_at(chars@, b, c) implies c == b
                + major.len() by {
                digits_end_once(chars@, b, c, b + major.len());
            }
            let c = b + major.len();
            assert forall|d: int| #[trigger] digits_end_at(chars@, c + 1, d) implies d == c + 1
                + minor.len() by {
                digits_end_once(chars@, c + 1, d, c + 1 + minor.len());
            }
            let d = c + 1 + minor.len();
            assert forall|e: int| #[trigger] digits_end_at(chars@, d + 1, e) implies e == d + 1
                + patch.len() by {
                digits_end_once(chars@, d + 1, e, d + 1 + patch.len());
            }
        }
    }
    let a = registry_end(chars);
    if !text_stands(chars, a, "prom/statsd-exporter:v") {
        return None;
    }
    let c = digits_end(chars, a + 22);
    if c == a + 22 || !text_stands(chars, c, ".") {
        return None;
    }
    let d = digits_end(chars, c + 1);
    if d == c + 1 || !text_stands(chars, d, ".") {
        return None;
    }
    let e = digits_end(chars, d + 1);
    if e == d + 1 || !text_stands(chars, e, "@sha256:") {
        return None;
    }
    Some((a, c, d, e))
}

/// Tests whether an image is an official exporter release, pinned by its digest:
/// `(docker.io/)?prom/statsd-exporter:v<major>.<minor>.<patch>@sha256:<digest>`.
pub fn exporter_image_allowed(image: &str) -> (r: bool)
    ensures
        r == is_exporter_image(image@),
{
    let chars = chars_of(image);
    if chars.len() > 256 {
        return false;
    }
    let (a, c, d, e) = match version_end(&chars) {
        Some(ends) => ends,
        None => {
            return false;
        },
    };
    proof {
        reveal_strlit("@sha256:");
    }
    let pinned = digest_from(&chars, e + 8);
    proof {
        let s = image@;
        if pinned {
            reveal_strlit("prom/statsd-exporter:v");
            reveal_strlit(".");
            registry_is_one(s);
            let registry = s.take(a as int);
            let major = s.subrange(a + 22, c as int);
            let minor = s.subrange(c + 1, d as int);
            let patch = s.subrange(d + 1, e as int);
            let digest = s.skip(e + 8);
            assert(reference_parts(registry, major, minor, patch, digest));
            assert(s =~= registry + s.subrange(a as int, a + 22) + major + s.subrange(
                c as int,
                c + 1,
            ) + minor + s.subrange(d as int, d + 1) + patch + s.subrange(e as int, e + 8) + digest);
        } else if is_exporter_image(s) {
            let (registry, major, minor, patch, digest) = choose|
                registry: Seq<char>,
                major: Seq<char>,
                minor: Seq<char>,
                patch: Seq<char>,
                digest: Seq<char>,
            | #[trigger]
                reference_parts(registry, major, minor, patch, digest) && s == exporter_reference(
                    registry,
                    major,
                    minor,
                    patch,
                    digest,
                );
            parts_stand(s, registry, major, minor, patch, digest);
            let b = a as int + 22;
            digits_end_once(s, b, c as int, b + major.len());
            digits_end_once(s, c + 1, d as int, c + 1 + minor.len());
            digits_end_once(s, d + 1, e as int, d + 1 + patch.len());
        }
    }
    pinned
}

/// Tests whether a text is the name of a ConfigMap.
pub fn config_map_name_allowed(name: &str) -> (r: bool)
    ensures
        r == is_config_map_name(name@),
{
    let chars = chars_of(name);
    if chars.len() == 0 || chars.len() > 63 {
        return false;
    }
    let mut i: usize = 0;
    while i < chars.len()
        invariant
            i <= chars.len(),
            chars@ == name@,
            forall|j: int|
                0 <= j < i ==> is_name_end(#[trigger] name@[j]) || (name@[j] == '-' && 0 < j
                    < name@.len() - 1),
        decreases chars.len() - i,
    {
        let c = chars[i];
        let inside = 0 < i && i < chars.len() - 1;
        if !(('0' <= c && c <= '9') || ('a' <= c && c <= 'z') || (c == '-' && inside)) {
            assert(!is_name_end(name@[i as int]));
            return false;
        }
        i += 1;
    }
    true
}

/// Whether a monitoring spec keeps to both patterns.
pub open spec fn is_monitoring_allowed(monitoring: MonitoringSpecView) -> bool {
    is_exporter_image(monitoring.exporter_image) && is_config_map_name(monitoring.config_map_name)
}

/// Tests whether a monitoring spec keeps to both patterns of the schema.
pub fn monitoring_allowed(monitoring: &MonitoringSpec) -> (r: bool)
    ensures
        r == is_monitoring_allowed(monitoring.deep_view()),
{
    exporter_image_allowed(monitoring.exporter_image.as_str()) && config_map_name_allowed(
        monitoring.config_map_name.as_str(),
    )
}

// ── Laws ────────────────────────────────────────────────────────────────────
/// An image is allowed exactly where it is a release of the official exporter, with
/// three numbers, pinned by 64 lowercase hexadecimal digits of SHA-256, from Docker Hub
/// by name or by default, in at most 256 characters.
pub proof fn only_pinned_releases_are_allowed(image: Seq<char>)
    ensures
        is_exporter_image(image) <==> image.len() <= 256 && exists|
            registry: Seq<char>,
            major: Seq<char>,
            minor: Seq<char>,
            patch: Seq<char>,
            digest: Seq<char>,
        |
            (registry.len() == 0 || registry == "docker.io/"@) && major.len() > 0 && minor.len()
                > 0 && patch.len() > 0 && digest.len() == 64 && (forall|i: int|
                0 <= i < major.len() ==> '0' <= #[trigger] major[i] <= '9') && (forall|i: int|
                0 <= i < minor.len() ==> '0' <= #[trigger] minor[i] <= '9') && (forall|i: int|
                0 <= i < patch.len() ==> '0' <= #[trigger] patch[i] <= '9') && (forall|i: int|
                0 <= i < 64 ==> '0' <= #[trigger] digest[i] <= '9' || 'a' <= digest[i] <= 'f')
                && image == #[trigger] (registry + "prom/statsd-exporter:v"@ + major + "."@ + minor
                + "."@ + patch + "@sha256:"@ + digest),
{
    if is_exporter_image(image) {
        let (registry, major, minor, patch, digest) = choose|
            registry: Seq<char>,
            major: Seq<char>,
            minor: Seq<char>,
            patch: Seq<char>,
            digest: Seq<char>,
        | #[trigger]
            reference_parts(registry, major, minor, patch, digest) && image == exporter_reference(
                registry,
                major,
                minor,
                patch,
                digest,
            );
        assert(image == registry + "prom/statsd-exporter:v"@ + major + "."@ + minor + "."@ + patch
            + "@sha256:"@ + digest);
        assert forall|i: int| 0 <= i < 64 implies '0' <= #[trigger] digest[i] <= '9' || 'a'
            <= digest[i] <= 'f' by {
            assert(is_hex_digit(digest[i]));
        }
    } else if image.len() <= 256 {
        assert forall|
            registry: Seq<char>,
            major: Seq<char>,
            minor: Seq<char>,
            patch: Seq<char>,
            digest: Seq<char>,
        |
            (registry.len() == 0 || registry == "docker.io/"@) && major.len() > 0 && minor.len()
                > 0 && patch.len() > 0 && digest.len() == 64 && (forall|i: int|
                0 <= i < major.len() ==> '0' <= #[trigger] major[i] <= '9') && (forall|i: int|
                0 <= i < minor.len() ==> '0' <= #[trigger] minor[i] <= '9') && (forall|i: int|
                0 <= i < patch.len() ==> '0' <= #[trigger] patch[i] <= '9') && (forall|i: int|
                0 <= i < 64 ==> '0' <= #[trigger] digest[i] <= '9' || 'a' <= digest[i] <= 'f')
        implies image != #[trigger] (registry + "prom/statsd-exporter:v"@ + major + "."@ + minor
            + "."@ + patch + "@sha256:"@ + digest) by {
            assert forall|i: int| 0 <= i < 64 implies is_hex_digit(#[trigger] digest[i]) by {
                assert('0' <= digest[i] <= '9' || 'a' <= digest[i] <= 'f');
            }
            assert(reference_parts(registry, major, minor, patch, digest));
        }
    }
}

/// A ConfigMap is named by a DNS label: up to 63 lowercase letters, digits and hyphens,
/// with no hyphen at either end.
pub proof fn config_maps_are_named_by_labels(name: Seq<char>)
    ensures
        is_config_map_name(name) <==> 0 < name.len() < 64 && name[0] != '-' && name.last() != '-'
            && forall|i: int|
            0 <= i < name.len() ==> 'a' <= #[trigger] name[i] <= 'z' || '0' <= name[i] <= '9'
                || name[i] == '-',
{
}

/// A monitoring section is allowed exactly where its image and its ConfigMap both are.
pub proof fn monitoring_takes_both_patterns(monitoring: MonitoringSpecView)
    ensures
        is_monitoring_allowed(monitoring) <==> is_exporter_image(monitoring.exporter_image)
            && is_config_map_name(monitoring.config_map_name),
{
}

} // verus!
