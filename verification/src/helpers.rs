//! Defaults, database names and quantities.

use vstd::prelude::*;

use crate::crd::odoo_instance::{OdooInstance, OdooInstanceView};
use crate::k8s::opaque::{PodAffinity, PodToleration};
use crate::k8s::pods::{ResourceRequirements, ResourceRequirementsView};
use crate::text::{chars_of, decimal_number};

verus! {

/// What the operator fills in where an instance leaves something open. An empty
/// text stands for no default.
#[derive(Debug, PartialEq)]
pub struct OperatorDefaults {
    pub odoo_image: String,
    pub storage_class: String,
    pub storage_size: String,
    pub ingress_class: String,
    pub ingress_issuer: String,
    pub gateway_ref_name: String,
    pub gateway_ref_namespace: String,
    pub resources: Option<ResourceRequirements>,
    pub affinity: Option<PodAffinity>,
    pub tolerations: Vec<PodToleration>,
    pub staging_smtp_host: String,
    pub staging_smtp_port: u16,
    pub staging_smtp_encryption: String,
}

/// What [`OperatorDefaults`] holds.
#[verifier::ext_equal]
pub struct OperatorDefaultsView {
    pub odoo_image: Seq<char>,
    pub storage_class: Seq<char>,
    pub storage_size: Seq<char>,
    pub ingress_class: Seq<char>,
    pub ingress_issuer: Seq<char>,
    pub gateway_ref_name: Seq<char>,
    pub gateway_ref_namespace: Seq<char>,
    pub resources: Option<ResourceRequirementsView>,
    pub affinity: Option<PodAffinity>,
    pub tolerations: Seq<PodToleration>,
    pub staging_smtp_host: Seq<char>,
    pub staging_smtp_port: u16,
    pub staging_smtp_encryption: Seq<char>,
}

impl DeepView for OperatorDefaults {
    type V = OperatorDefaultsView;

    open spec fn deep_view(&self) -> OperatorDefaultsView {
        OperatorDefaultsView {
            odoo_image: self.odoo_image@,
            storage_class: self.storage_class@,
            storage_size: self.storage_size@,
            ingress_class: self.ingress_class@,
            ingress_issuer: self.ingress_issuer@,
            gateway_ref_name: self.gateway_ref_name@,
            gateway_ref_namespace: self.gateway_ref_namespace@,
            resources: self.resources.deep_view(),
            affinity: self.affinity,
            tolerations: self.tolerations@,
            staging_smtp_host: self.staging_smtp_host@,
            staging_smtp_port: self.staging_smtp_port,
            staging_smtp_encryption: self.staging_smtp_encryption@,
        }
    }
}

impl OperatorDefaultsView {
    /// Every field empty or absent.
    pub open spec fn blank() -> OperatorDefaultsView {
        OperatorDefaultsView {
            odoo_image: Seq::empty(),
            storage_class: Seq::empty(),
            storage_size: Seq::empty(),
            ingress_class: Seq::empty(),
            ingress_issuer: Seq::empty(),
            gateway_ref_name: Seq::empty(),
            gateway_ref_namespace: Seq::empty(),
            resources: None,
            affinity: None,
            tolerations: Seq::empty(),
            staging_smtp_host: Seq::empty(),
            staging_smtp_port: 0,
            staging_smtp_encryption: Seq::empty(),
        }
    }
}

impl Default for OperatorDefaults {
    fn default() -> (r: OperatorDefaults)
        ensures
            r.deep_view() == OperatorDefaultsView::blank(),
    {
        OperatorDefaults {
            odoo_image: String::new(),
            storage_class: String::new(),
            storage_size: String::new(),
            ingress_class: String::new(),
            ingress_issuer: String::new(),
            gateway_ref_name: String::new(),
            gateway_ref_namespace: String::new(),
            resources: None,
            affinity: None,
            tolerations: Vec::new(),
            staging_smtp_host: String::new(),
            staging_smtp_port: 0,
            staging_smtp_encryption: String::new(),
        }
    }
}

/// The name of the database of an instance: the one that it asks for, else one
/// made of its identity.
pub open spec fn db_name_of(instance: OdooInstanceView) -> Seq<char> {
    match instance.spec.database {
        Some(database) => match database.name {
            Some(name) => name,
            None => "odoo_"@ + instance.metadata.uid_or_empty(),
        },
        None => "odoo_"@ + instance.metadata.uid_or_empty(),
    }
}

/// The name of the database of an instance.
pub fn db_name(instance: &OdooInstance) -> (r: String)
    ensures
        r@ == db_name_of(instance.deep_view()),
{
    if let Some(database) = &instance.spec.database {
        if let Some(name) = &database.name {
            return name.clone();
        }
    }
    "odoo_".to_string().concat(instance.metadata.uid_or_empty().as_str())
}

// ── Quantities ──────────────────────────────────────────────────────────────
/// The factor that the suffix of a quantity stands for, and the length of the
/// suffix.
pub open spec fn quantity_unit(s: Seq<char>) -> (nat, int) {
    if s.len() < 2 || s[s.len() - 1] != 'i' {
        (1, 0)
    } else if s[s.len() - 2] == 'K' {
        (0x400, 2)
    } else if s[s.len() - 2] == 'M' {
        (0x10_0000, 2)
    } else if s[s.len() - 2] == 'G' {
        (0x4000_0000, 2)
    } else if s[s.len() - 2] == 'T' {
        (0x100_0000_0000, 2)
    } else {
        (1, 0)
    }
}

/// The number of bytes that a quantity stands for: decimal digits, then one of
/// the suffixes `Ki`, `Mi`, `Gi` and `Ti` or none.
pub open spec fn quantity_value(s: Seq<char>) -> Option<nat> {
    let unit = quantity_unit(s);
    let digits = s.take(s.len() - unit.1);
    if crate::text::is_decimal(digits) {
        Some(crate::text::decimal_value(digits) * unit.0)
    } else {
        None
    }
}

/// The number of bytes of a quantity, where it is one that fits.
pub open spec fn quantity_bytes(s: Seq<char>) -> Option<u64> {
    match quantity_value(s) {
        Some(n) => if n <= u64::MAX {
            Some(n as u64)
        } else {
            None
        },
        None => None,
    }
}

/// Reads a quantity as a number of bytes.
pub fn parse_quantity(s: &str) -> (r: Result<u64, String>)
    ensures
        r is Ok <==> quantity_bytes(s@) is Some,
        r matches Ok(n) ==> Some(n) == quantity_bytes(s@),
        r matches Err(e) ==> e@ == "not a quantity: "@ + s@,
{
    let chars = chars_of(s);
    let n: usize = chars.len();
    let mut factor: u64 = 1;
    let mut digits: usize = n;
    if n >= 2 && chars[n - 1] == 'i' {
        if chars[n - 2] == 'K' {
            factor = 0x400;
            digits = n - 2;
        } else if chars[n - 2] == 'M' {
            factor = 0x10_0000;
            digits = n - 2;
        } else if chars[n - 2] == 'G' {
            factor = 0x4000_0000;
            digits = n - 2;
        } else if chars[n - 2] == 'T' {
            factor = 0x100_0000_0000;
            digits = n - 2;
        }
    }
    let head = vstd::slice::slice_subrange(chars.as_slice(), 0, digits);
    proof {
        assert(quantity_unit(s@) == (factor as nat, n - digits));
        assert(head@ =~= s@.take(digits as int));
    }
    if let Some(number) = decimal_number(head) {
        if let Some(bytes) = number.checked_mul(factor) {
            return Ok(bytes);
        }
    } else {
        proof {
            let value = crate::text::decimal_value(head@);
            assert(value > u64::MAX && factor >= 1 ==> value * factor > u64::MAX)
                by (nonlinear_arith);
        }
    }
    Err("not a quantity: ".to_string().concat(s))
}

// ── Laws ────────────────────────────────────────────────────────────────────
/// A run of digits counts bytes, and each suffix counts 1024 times the one before
/// it: bytes, `Ki`, `Mi`, `Gi`, `Ti`. What does not fit in 64 bits is no quantity.
pub proof fn suffixes_count_in_1024(digits: Seq<char>)
    requires
        crate::text::is_decimal(digits),
    ensures
        ({
            let n = crate::text::decimal_value(digits);
            &&& n <= u64::MAX ==> quantity_bytes(digits) == Some(n as u64)
            &&& n > u64::MAX ==> quantity_bytes(digits) is None
            &&& n * 1024 <= u64::MAX ==> quantity_bytes(digits + seq!['K', 'i']) == Some((n * 1024) as u64)
            &&& n * 1024 > u64::MAX ==> quantity_bytes(digits + seq!['K', 'i']) is None
            &&& n * 1024 * 1024 <= u64::MAX ==> quantity_bytes(digits + seq!['M', 'i']) == Some((n * 1024 * 1024) as u64)
            &&& n * 1024 * 1024 > u64::MAX ==> quantity_bytes(digits + seq!['M', 'i']) is None
            &&& n * 1024 * 1024 * 1024 <= u64::MAX ==> quantity_bytes(digits + seq!['G', 'i']) == Some((n * 1024 * 1024 * 1024) as u64)
            &&& n * 1024 * 1024 * 1024 > u64::MAX ==> quantity_bytes(digits + seq!['G', 'i']) is None
            &&& n * 1024 * 1024 * 1024 * 1024 <= u64::MAX ==> quantity_bytes(digits + seq!['T', 'i']) == Some((n * 1024 * 1024 * 1024 * 1024) as u64)
            &&& n * 1024 * 1024 * 1024 * 1024 > u64::MAX ==> quantity_bytes(digits + seq!['T', 'i']) is None
        }),
{
    let n = crate::text::decimal_value(digits);
    assert(digits[digits.len() - 1] <= '9' && '9' < 'i');
    assert(digits.take(digits.len() - 0) =~= digits);
    assert(quantity_value(digits) == Some(n));
    let s = digits + seq!['K', 'i'];
    assert(s[s.len() - 1] == 'i' && s[s.len() - 2] == 'K');
    assert(s.take(s.len() - 2) =~= digits);
    assert(quantity_value(s) == Some(n * 0x400));
    let s = digits + seq!['M', 'i'];
    assert(s[s.len() - 1] == 'i' && s[s.len() - 2] == 'M');
    assert(s.take(s.len() - 2) =~= digits);
    assert(quantity_value(s) == Some(n * 0x10_0000));
    let s = digits + seq!['G', 'i'];
    assert(s[s.len() - 1] == 'i' && s[s.len() - 2] == 'G');
    assert(s.take(s.len() - 2) =~= digits);
    assert(quantity_value(s) == Some(n * 0x4000_0000));
    let s = digits + seq!['T', 'i'];
    assert(s[s.len() - 1] == 'i' && s[s.len() - 2] == 'T');
    assert(s.take(s.len() - 2) =~= digits);
    assert(quantity_value(s) == Some(n * 0x100_0000_0000));
}

/// Nothing else is a quantity: whatever is read as one is a nonempty run of digits,
/// or that and one of the four suffixes.
pub proof fn quantities_are_digits_and_a_suffix(s: Seq<char>)
    requires
        quantity_bytes(s) is Some,
    ensures
        crate::text::is_decimal(s) || (s.len() > 2 && crate::text::is_decimal(s.take(s.len() - 2))
            && s[s.len() - 1] == 'i' && (s[s.len() - 2] == 'K' || s[s.len() - 2] == 'M'
            || s[s.len() - 2] == 'G' || s[s.len() - 2] == 'T')),
{
    assert(s.take(s.len() as int) =~= s);
}

/// A database is named as the instance asks, and only where it asks for no name after
/// the instance's identity, so that two instances share none by default.
pub proof fn databases_are_named_apart(a: OdooInstanceView, b: OdooInstanceView)
    ensures
        a.spec.database matches Some(database) && database.name is Some ==> db_name_of(a)
            == a.spec.database->0.name->0,
        (a.spec.database is None || a.spec.database->0.name is None) ==> db_name_of(a)
            == "odoo_"@ + a.metadata.uid_or_empty(),
        (a.spec.database is None || a.spec.database->0.name is None) && (b.spec.database is None
            || b.spec.database->0.name is None) && a.metadata.uid_or_empty()
            != b.metadata.uid_or_empty() ==> db_name_of(a) != db_name_of(b),
{
    if db_name_of(a) == db_name_of(b) && (a.spec.database is None || a.spec.database->0.name
        is None) && (b.spec.database is None || b.spec.database->0.name is None) {
        let (u, v) = (a.metadata.uid_or_empty(), b.metadata.uid_or_empty());
        assert(("odoo_"@ + u).skip("odoo_"@.len() as int) =~= u);
        assert(("odoo_"@ + v).skip("odoo_"@.len() as int) =~= v);
    }
}

/// An operator without settings has no default for anything.
pub proof fn no_settings_are_no_defaults(defaults: OperatorDefaults)
    requires
        call_ensures(<OperatorDefaults as Default>::default, (), defaults),
    ensures
        defaults.odoo_image@.len() == 0,
        defaults.storage_class@.len() == 0,
        defaults.storage_size@.len() == 0,
        defaults.ingress_class@.len() == 0,
        defaults.ingress_issuer@.len() == 0,
        defaults.gateway_ref_name@.len() == 0,
        defaults.gateway_ref_namespace@.len() == 0,
        defaults.resources is None,
        defaults.affinity is None,
        defaults.tolerations@.len() == 0,
        defaults.staging_smtp_host@.len() == 0,
        defaults.staging_smtp_port == 0,
        defaults.staging_smtp_encryption@.len() == 0,
{
    let seen = defaults.deep_view();
    assert(seen == OperatorDefaultsView::blank());
}

} // verus!
