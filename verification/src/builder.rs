//! The certificate parameter builder: from subject identity, role, subject
//! alternative names and validity duration to the complete, role-correct
//! parameter set, and from there (through the trusted signing boundary) to a
//! self-signed certificate.

use vstd::prelude::*;

use crate::ca::CA;
use crate::der::Extension;
use crate::der::ExtensionView;
use crate::der::basic_constraints_leaf_extension;
use crate::der::bit_string_9_bit;
use crate::der::der_seq_bool;
use crate::der::encode_basic_constraints_leaf;
use crate::der::encode_key_usage;
use crate::der::key_usage_extension;
use crate::der::lemma_key_usage_bits;
use crate::der::oid_basic_constraints;
use crate::der::oid_key_usage;
use crate::error::CertifyError;
use crate::ip::IpAddress;
use crate::ip::parse_ip_spec;
use crate::keys::KeyMaterial;
use crate::outside;
use crate::outside::ia5_ok;
use crate::outside::max_unix_timestamp;
use crate::outside::min_unix_timestamp;
use crate::outside::serializable_timestamp;

verus! {

/// The signature algorithm a certificate's keypair is generated for and
/// signed with.
#[derive(Debug, Clone, Copy, PartialEq, Eq, Structural)]
pub enum CertSigAlgo {
    EcDsa,
    ED25519,
}

/// The role a certificate is issued for; it decides the extension set and
/// the default validity duration.
#[derive(Debug, Clone, PartialEq, Eq, Structural)]
pub enum CertType {
    Client,
    Server,
    CA,
}

/// One subject-alternative-name entry: a DNS name or an IP address.
pub enum SubjectAltName {
    DnsName(String),
    IpAddress(IpAddress),
}

#[verifier::ext_equal]
pub enum SanView {
    DnsName(Seq<char>),
    IpAddress(IpAddress),
}

impl View for SubjectAltName {
    type V = SanView;

    open spec fn view(&self) -> SanView {
        match self {
            SubjectAltName::DnsName(s) => SanView::DnsName(s@),
            SubjectAltName::IpAddress(ip) => SanView::IpAddress(*ip),
        }
    }
}

/// An extended-key-usage purpose; only the three purposes this issuer emits.
#[derive(Debug, Clone, Copy, PartialEq, Eq, Structural)]
pub enum ExtendedKeyUsage {
    Any,
    ClientAuth,
    ServerAuth,
}

/// Whether the certificate is marked as a CA, and with which path length
/// constraint.
#[derive(Debug, Clone, Copy, PartialEq, Eq, Structural)]
pub enum CaConstraint {
    Unspecified,
    Constrained(u8),
}

/// The complete specification of a to-be-issued certificate: validity
/// window (unix seconds), subject alternative names, the three distinguished
/// name attributes in order (Country, Organization, CommonName), extended
/// key usages, CA marking and the custom extensions. Key identifiers are
/// always derived by SHA-512 at the signing boundary.
pub struct CertParams {
    pub not_before: i64,
    pub not_after: i64,
    pub subject_alt_names: Vec<SubjectAltName>,
    pub country: String,
    pub organization: String,
    pub common: String,
    pub extended_key_usages: Vec<ExtendedKeyUsage>,
    pub ca_constraint: CaConstraint,
    pub custom_extensions: Vec<Extension>,
}

#[verifier::ext_equal]
pub struct CertParamsView {
    pub not_before: int,
    pub not_after: int,
    pub subject_alt_names: Seq<SanView>,
    pub country: Seq<char>,
    pub organization: Seq<char>,
    pub common: Seq<char>,
    pub extended_key_usages: Seq<ExtendedKeyUsage>,
    pub ca_constraint: CaConstraint,
    pub custom_extensions: Seq<ExtensionView>,
}

impl View for CertParams {
    type V = CertParamsView;

    open spec fn view(&self) -> CertParamsView {
        CertParamsView {
            not_before: self.not_before as int,
            not_after: self.not_after as int,
            subject_alt_names: self.subject_alt_names@.map_values(|s: SubjectAltName| s@),
            country: self.country@,
            organization: self.organization@,
            common: self.common@,
            extended_key_usages: self.extended_key_usages@,
            ca_constraint: self.ca_constraint,
            custom_extensions: self.custom_extensions@.map_values(|e: Extension| e@),
        }
    }
}

/// The subject identity, requested names and addresses, validity duration
/// and signature algorithm a certificate is built from.
pub struct CertInfo {
    pub domain_names: Vec<String>,
    pub ip_address: Vec<IpAddress>,
    pub country: String,
    pub organization: String,
    pub common: String,
    pub days: Option<i64>,
    pub sig_algo: CertSigAlgo,
}

#[verifier::ext_equal]
pub struct CertInfoView {
    pub domain_names: Seq<Seq<char>>,
    pub ip_address: Seq<IpAddress>,
    pub country: Seq<char>,
    pub organization: Seq<char>,
    pub common: Seq<char>,
    pub days: Option<i64>,
    pub sig_algo: CertSigAlgo,
}

impl View for CertInfo {
    type V = CertInfoView;

    open spec fn view(&self) -> CertInfoView {
        CertInfoView {
            domain_names: self.domain_names@.map_values(|d: String| d@),
            ip_address: self.ip_address@,
            country: self.country@,
            organization: self.organization@,
            common: self.common@,
            days: self.days,
            sig_algo: self.sig_algo,
        }
    }
}

/// Default validity in days for a leaf certificate.
pub const CERT_DEFAULT_DURATION: i64 = 180;

/// Default validity in days for a CA certificate (about ten years).
pub const CA_DEFAULT_DURATION: i64 = 10 * 365;

/// Seconds in a day.
pub const SECONDS_PER_DAY: i64 = 86400;

/// Largest validity-day magnitude the builder accepts; keeps the
/// second-level window arithmetic inside `i64` for every representable
/// clock reading.
pub const MAX_VALIDITY_DAYS: i64 = 100_000_000_000_000;

/// The default validity duration of the given role: 3650 days for a CA,
/// 180 days for a leaf.
pub open spec fn default_days(cert_type: CertType) -> i64 {
    match cert_type {
        CertType::CA => CA_DEFAULT_DURATION,
        _ => CERT_DEFAULT_DURATION,
    }
}

/// The validity duration actually used: the explicit day count when one is
/// given (whatever its magnitude or sign), else the role's default.
pub open spec fn chosen_days(days: Option<i64>, cert_type: CertType) -> i64 {
    match days {
        Some(d) => d,
        None => default_days(cert_type),
    }
}

/// The day count is small enough that the validity arithmetic cannot
/// overflow, whatever the clock reads.
pub open spec fn days_in_range(days: Option<i64>) -> bool {
    match days {
        Some(d) => -MAX_VALIDITY_DAYS <= d <= MAX_VALIDITY_DAYS,
        None => true,
    }
}

/// The validity window computed from `not_before` fits in `i64`.
pub open spec fn validity_fits(days: Option<i64>, cert_type: CertType, not_before: i64) -> bool {
    &&& i64::MIN <= chosen_days(days, cert_type) * SECONDS_PER_DAY <= i64::MAX
    &&& i64::MIN <= not_before + chosen_days(days, cert_type) * SECONDS_PER_DAY <= i64::MAX
}

/// Both validity bounds of the parameter set lie in the window the signing
/// backend can serialize; outside it, signing is refused with
/// `CertifyError::InvalidCertificate`.
pub open spec fn window_serializable(p: CertParamsView) -> bool {
    serializable_timestamp(p.not_before) && serializable_timestamp(p.not_after)
}

/// The chosen day count is so large in magnitude that the resulting window
/// lies outside the serializable range for every possible clock reading:
/// issuance is then guaranteed to fail.
pub open spec fn window_never_fits(days: Option<i64>, cert_type: CertType) -> bool {
    ||| chosen_days(days, cert_type) * SECONDS_PER_DAY > max_unix_timestamp()
    ||| chosen_days(days, cert_type) * SECONDS_PER_DAY < -max_unix_timestamp()
}

/// Every domain name in the list is a seven-bit string.
pub open spec fn domains_ia5(domains: Seq<Seq<char>>) -> bool {
    forall|i: int| 0 <= i < domains.len() ==> ia5_ok(#[trigger] domains[i])
}

/// Every DNS entry among the subject alternative names is a seven-bit
/// string.
pub open spec fn params_dns_ia5(p: CertParamsView) -> bool {
    forall|i: int|
        0 <= i < p.subject_alt_names.len() ==> (#[trigger] p.subject_alt_names[i] matches
        SanView::DnsName(d) ==> ia5_ok(d))
}

/// The subject-alternative-name list of the built parameters: one DNS entry
/// per domain name, in order, followed by one entry per IP address, in
/// order.
pub open spec fn built_sans(info: CertInfoView) -> Seq<SanView> {
    info.domain_names.map_values(|d: Seq<char>| SanView::DnsName(d)) + info.ip_address.map_values(
        |ip: IpAddress| SanView::IpAddress(ip),
    )
}

/// The extended key usages of the given role.
pub open spec fn built_ekus(cert_type: CertType) -> Seq<ExtendedKeyUsage> {
    match cert_type {
        CertType::CA => seq![ExtendedKeyUsage::Any],
        CertType::Client => seq![ExtendedKeyUsage::ClientAuth],
        CertType::Server => seq![ExtendedKeyUsage::ServerAuth],
    }
}

/// The custom extensions of the given role: a CA carries only its key-usage
/// bits; a leaf carries the not-a-CA marker followed by its key-usage bits.
pub open spec fn built_extensions(cert_type: CertType) -> Seq<ExtensionView> {
    match cert_type {
        CertType::CA => seq![key_usage_extension(true)],
        _ => seq![basic_constraints_leaf_extension(), key_usage_extension(false)],
    }
}

/// The CA marking of the given role: a CA is constrained to a path length
/// of 16; a leaf is left unmarked here (it carries the explicit not-a-CA
/// extension instead).
pub open spec fn built_ca_constraint(cert_type: CertType) -> CaConstraint {
    match cert_type {
        CertType::CA => CaConstraint::Constrained(16u8),
        _ => CaConstraint::Unspecified,
    }
}

/// The complete parameter set built for the given subject, role and clock
/// reading.
pub open spec fn built_params(info: CertInfoView, cert_type: CertType, not_before: i64)
    -> CertParamsView {
    CertParamsView {
        not_before: not_before as int,
        not_after: not_before + chosen_days(info.days, cert_type) * SECONDS_PER_DAY,
        subject_alt_names: built_sans(info),
        country: info.country,
        organization: info.organization,
        common: info.common,
        extended_key_usages: built_ekus(cert_type),
        ca_constraint: built_ca_constraint(cert_type),
        custom_extensions: built_extensions(cert_type),
    }
}

/// A bounded day count and a representable clock reading keep the window
/// arithmetic inside `i64`.
pub proof fn lemma_days_fit(days: Option<i64>, cert_type: CertType, not_before: i64)
    requires
        days_in_range(days),
        min_unix_timestamp() <= not_before as int <= max_unix_timestamp(),
    ensures
        validity_fits(days, cert_type, not_before),
{
    let c = chosen_days(days, cert_type);
    assert(-MAX_VALIDITY_DAYS <= c <= MAX_VALIDITY_DAYS);
    assert(c * SECONDS_PER_DAY <= MAX_VALIDITY_DAYS * SECONDS_PER_DAY
        && -MAX_VALIDITY_DAYS * SECONDS_PER_DAY <= c * SECONDS_PER_DAY) by (nonlinear_arith)
        requires
            -MAX_VALIDITY_DAYS <= c <= MAX_VALIDITY_DAYS,
    ;
}

/// Domain names that are all seven-bit give built parameters whose DNS
/// entries are all seven-bit.
pub proof fn lemma_built_dns_ia5(info: CertInfoView, cert_type: CertType, not_before: i64)
    requires
        domains_ia5(info.domain_names),
    ensures
        params_dns_ia5(built_params(info, cert_type, not_before)),
{
    let sans = built_params(info, cert_type, not_before).subject_alt_names;
    assert forall|i: int|
        0 <= i < sans.len() implies (#[trigger] sans[i] matches SanView::DnsName(d) ==> ia5_ok(
        d,
    )) by {
        let dlen = info.domain_names.len() as int;
        if i < dlen {
            assert(sans[i] == SanView::DnsName(info.domain_names[i]));
            assert(ia5_ok(info.domain_names[i]));
        } else {
            assert(sans[i] == SanView::IpAddress(info.ip_address[i - dlen]));
        }
    }
}

/// Decide `domains_ia5` at run time: true exactly when every name in the
/// list is a seven-bit string, the condition under which it can become a
/// DNS subject-alternative-name entry.
pub fn domains_are_ia5(domains: &Vec<String>) -> (r: bool)
    ensures
        r == domains_ia5(domains@.map_values(|d: String| d@)),
{
    let ghost dv = domains@.map_values(|d: String| d@);
    let mut i: usize = 0;
    while i < domains.len()
        invariant
            i <= domains@.len(),
            dv == domains@.map_values(|d: String| d@),
            forall|k: int| 0 <= k < i ==> ia5_ok(#[trigger] dv[k]),
        decreases domains@.len() - i,
    {
        if !domains[i].as_str().is_ascii() {
            proof {
                assert(!ia5_ok(dv[i as int]));
            }
            return false;
        }
        proof {
            assert(ia5_ok(dv[i as int]));
        }
        i += 1;
    }
    true
}

/// Basic Constraints policy. For the Server and Client roles the built
/// parameters carry no CA marking and, as their first custom extension, the
/// explicit not-a-CA Basic Constraints body SEQUENCE { BOOLEAN false }; for
/// the CA role they carry the CA marking with path length 16 and no custom
/// extension under the Basic Constraints OID.
pub proof fn lemma_basic_constraints_policy(
    info: CertInfoView,
    cert_type: CertType,
    not_before: i64,
)
    ensures
        ({
            let p = built_params(info, cert_type, not_before);
            match cert_type {
                CertType::CA => p.ca_constraint == CaConstraint::Constrained(16u8) && forall|
                    i: int,
                |
                    0 <= i < p.custom_extensions.len() ==> (#[trigger] p.custom_extensions[i]).oid
                        != oid_basic_constraints(),
                _ => p.ca_constraint == CaConstraint::Unspecified && p.custom_extensions[0]
                    == basic_constraints_leaf_extension() && p.custom_extensions[0].content
                    == der_seq_bool(false),
            }
        }),
{
    let p = built_params(info, cert_type, not_before);
    match cert_type {
        CertType::CA => {
            assert(oid_key_usage()[3] == 15 && oid_basic_constraints()[3] == 19);
            assert(p.custom_extensions.len() == 1);
            assert(p.custom_extensions[0].oid != oid_basic_constraints());
        },
        _ => {},
    }
}

/// Key Usage policy. For the Server and Client roles the key-usage bit
/// string of the built parameters has exactly bits 0, 1 and 2 set
/// (digitalSignature, nonRepudiation, keyEncipherment); for the CA role it
/// has exactly bits 5 and 6 set (keyCertSign, cRLSign). The extension is
/// critical in every role.
pub proof fn lemma_key_usage_policy(
    info: CertInfoView,
    cert_type: CertType,
    not_before: i64,
    i: int,
)
    requires
        0 <= i < 9,
    ensures
        ({
            let p = built_params(info, cert_type, not_before);
            match cert_type {
                CertType::CA => p.custom_extensions[0] == key_usage_extension(true)
                    && bit_string_9_bit(p.custom_extensions[0].content, i) == (i == 5 || i == 6),
                _ => p.custom_extensions[1] == key_usage_extension(false) && bit_string_9_bit(
                    p.custom_extensions[1].content,
                    i,
                ) == (i == 0 || i == 1 || i == 2),
            }
        }),
{
    match cert_type {
        CertType::CA => lemma_key_usage_bits(true, i),
        _ => lemma_key_usage_bits(false, i),
    }
}

/// CA policy, of exactly the parameter set `ca_cert` signs (the built CA
/// parameters with the extended key usages cleared): the CA marking is
/// constrained to path length 16, the one custom extension is the critical
/// key-usage bit string with exactly bits 5 and 6 (keyCertSign, cRLSign)
/// set, no extension stands under the Basic Constraints OID, and the
/// extended-key-usage list is empty — the purposes are set and then
/// deliberately cleared before signing, a compatibility choice preserved as
/// specified.
pub proof fn lemma_ca_signed_policy(info: CertInfoView, not_before: i64, i: int)
    requires
        0 <= i < 9,
    ensures
        ({
            let p = (CertParamsView {
                extended_key_usages: Seq::empty(),
                ..built_params(info, CertType::CA, not_before)
            });
            &&& p.ca_constraint == CaConstraint::Constrained(16u8)
            &&& p.extended_key_usages.len() == 0
            &&& p.custom_extensions.len() == 1
            &&& p.custom_extensions[0] == key_usage_extension(true)
            &&& p.custom_extensions[0].critical
            &&& bit_string_9_bit(p.custom_extensions[0].content, i) == (i == 5 || i == 6)
            &&& forall|k: int|
                0 <= k < p.custom_extensions.len() ==> (#[trigger] p.custom_extensions[k]).oid
                    != oid_basic_constraints()
        }),
{
    lemma_basic_constraints_policy(info, CertType::CA, not_before);
    lemma_key_usage_policy(info, CertType::CA, not_before, i);
}

/// Validity policy. The built window always spans exactly the chosen day
/// count: the explicit count when one is given (365 days give 365 * 86400
/// seconds), else the role default — 3650 days for a CA, 180 days for a
/// leaf.
pub proof fn lemma_validity_window(info: CertInfoView, cert_type: CertType, not_before: i64)
    ensures
        ({
            let p = built_params(info, cert_type, not_before);
            p.not_after - p.not_before == chosen_days(info.days, cert_type) * SECONDS_PER_DAY
        }),
        info.days matches Some(d) ==> built_params(info, cert_type, not_before).not_after
            - built_params(info, cert_type, not_before).not_before == d * 86400,
        info.days is None && cert_type is CA ==> built_params(info, cert_type, not_before).not_after
            - built_params(info, cert_type, not_before).not_before == 3650 * 86400,
        info.days is None && !(cert_type is CA) ==> built_params(
            info,
            cert_type,
            not_before,
        ).not_after - built_params(info, cert_type, not_before).not_before == 180 * 86400,
{
}

impl CertInfo {
    /// Assemble the build inputs: each IP address string is parsed into its
    /// plain value (an unparseable address is a caller error and is ruled
    /// out up front), domain names and addresses are kept in the given
    /// order, and the identity strings become the Country, Organization and
    /// CommonName attributes.
    pub fn new(
        domains: Vec<String>,
        ips: Vec<String>,
        country: &str,
        org: &str,
        cn: &str,
        days: Option<i64>,
        sig_algo: CertSigAlgo,
    ) -> (r: CertInfo)
        requires
            forall|i: int| 0 <= i < ips@.len() ==> parse_ip_spec((#[trigger] ips@[i])@) is Some,
        ensures
            r@ == (CertInfoView {
                domain_names: domains@.map_values(|d: String| d@),
                ip_address: ips@.map_values(|s: String| parse_ip_spec(s@).unwrap()),
                country: country@,
                organization: org@,
                common: cn@,
                days: days,
                sig_algo: sig_algo,
            }),
    {
        let mut addrs: Vec<IpAddress> = Vec::new();
        let mut i: usize = 0;
        while i < ips.len()
            invariant
                i <= ips@.len(),
                addrs@.len() == i,
                forall|k: int|
                    0 <= k < ips@.len() ==> parse_ip_spec((#[trigger] ips@[k])@) is Some,
                forall|k: int|
                    0 <= k < i ==> #[trigger] addrs@[k] == parse_ip_spec(ips@[k]@).unwrap(),
            decreases ips@.len() - i,
        {
            addrs.push(IpAddress::parse(ips[i].as_str()).unwrap());
            i += 1;
        }
        let r = CertInfo {
            domain_names: domains,
            ip_address: addrs,
            country: String::from_str(country),
            organization: String::from_str(org),
            common: String::from_str(cn),
            days,
            sig_algo,
        };
        proof {
            assert(r@ =~~= (CertInfoView {
                domain_names: domains@.map_values(|d: String| d@),
                ip_address: ips@.map_values(|s: String| parse_ip_spec(s@).unwrap()),
                country: country@,
                organization: org@,
                common: cn@,
                days: days,
                sig_algo: sig_algo,
            }));
        }
        r
    }

    /// Build the full parameter set for the given role from the clock
    /// reading `not_before`: the validity window (role default or explicit
    /// day count), the ordered subject alternative names, the distinguished
    /// name and the role's extension policy.
    pub fn build_cert_params(&self, cert_type: CertType, not_before: i64) -> (r: CertParams)
        requires
            validity_fits(self@.days, cert_type, not_before),
        ensures
            r@ == built_params(self@, cert_type, not_before),
    {
        let default_days: i64 = match &cert_type {
            CertType::CA => CA_DEFAULT_DURATION,
            _ => CERT_DEFAULT_DURATION,
        };
        let days: i64 = match self.days {
            Some(d) => d,
            None => default_days,
        };
        assert(days == chosen_days(self@.days, cert_type));
        let not_after: i64 = not_before + days * SECONDS_PER_DAY;

        let mut sans: Vec<SubjectAltName> = Vec::new();
        let mut i: usize = 0;
        while i < self.domain_names.len()
            invariant
                i <= self.domain_names@.len(),
                sans@.len() == i,
                forall|k: int|
                    0 <= k < i ==> (#[trigger] sans@[k])@ == SanView::DnsName(
                        self@.domain_names[k],
                    ),
            decreases self.domain_names@.len() - i,
        {
            sans.push(SubjectAltName::DnsName(self.domain_names[i].clone()));
            i += 1;
        }
        let dcount = i;
        let mut j: usize = 0;
        while j < self.ip_address.len()
            invariant
                j <= self.ip_address@.len(),
                dcount == self.domain_names@.len(),
                sans@.len() == dcount + j,
                forall|k: int|
                    0 <= k < dcount ==> (#[trigger] sans@[k])@ == SanView::DnsName(
                        self@.domain_names[k],
                    ),
                forall|k: int|
                    dcount <= k < dcount + j ==> (#[trigger] sans@[k])@ == SanView::IpAddress(
                        self@.ip_address[k - dcount],
                    ),
            decreases self.ip_address@.len() - j,
        {
            sans.push(SubjectAltName::IpAddress(self.ip_address[j]));
            j += 1;
        }

        let mut ekus: Vec<ExtendedKeyUsage> = Vec::new();
        let mut custom: Vec<Extension> = Vec::new();
        let ca_constraint: CaConstraint = match &cert_type {
            CertType::CA => {
                ekus.push(ExtendedKeyUsage::Any);
                custom.push(encode_key_usage(true));
                CaConstraint::Constrained(16)
            },
            CertType::Client => {
                ekus.push(ExtendedKeyUsage::ClientAuth);
                custom.push(encode_basic_constraints_leaf());
                custom.push(encode_key_usage(false));
                CaConstraint::Unspecified
            },
            CertType::Server => {
                ekus.push(ExtendedKeyUsage::ServerAuth);
                custom.push(encode_basic_constraints_leaf());
                custom.push(encode_key_usage(false));
                CaConstraint::Unspecified
            },
        };

        let r = CertParams {
            not_before,
            not_after,
            subject_alt_names: sans,
            country: self.country.clone(),
            organization: self.organization.clone(),
            common: self.common.clone(),
            extended_key_usages: ekus,
            ca_constraint,
            custom_extensions: custom,
        };
        proof {
            assert(r@.subject_alt_names =~= built_sans(self@));
            assert(r@.extended_key_usages =~= built_ekus(cert_type));
            assert(r@.custom_extensions =~~= built_extensions(cert_type));
            assert(r@ =~~= built_params(self@, cert_type, not_before));
        }
        r
    }

    /// Build CA parameters from the current clock, clear the extended key
    /// usages (a CA carries only the Basic-Constraints and Key-Usage
    /// signals; the purposes are set and then deliberately cleared, a
    /// compatibility choice preserved as specified), and self-sign them
    /// into a CA.
    pub fn ca_cert(&self, keypair: KeyMaterial) -> (r: Result<CA, CertifyError>)
        requires
            days_in_range(self@.days),
            domains_ia5(self@.domain_names),
        ensures
            r matches Ok(ca) ==> {
                &&& ca.data is None
                &&& ca.cert.key_der@ == keypair.der@
                &&& exists|nb: i64|
                    #![trigger built_params(self@, CertType::CA, nb)]
                    min_unix_timestamp() <= nb as int <= max_unix_timestamp()
                        && ca.cert.signed@ == Some(
                        (CertParamsView {
                            extended_key_usages: Seq::empty(),
                            ..built_params(self@, CertType::CA, nb)
                        }),
                    )
            },
            window_never_fits(self@.days, CertType::CA) ==> (r matches Err(e) && e
                is InvalidCertificate),
            r matches Err(e) ==> e is InvalidCertificate || e is RcgenError,
    {
        let not_before = outside::now_unix();
        proof {
            lemma_days_fit(self@.days, CertType::CA, not_before);
            lemma_built_dns_ia5(self@, CertType::CA, not_before);
        }
        let mut params = self.build_cert_params(CertType::CA, not_before);
        params.extended_key_usages = Vec::new();
        proof {
            assert(params@ =~~= (CertParamsView {
                extended_key_usages: Seq::empty(),
                ..built_params(self@, CertType::CA, not_before)
            }));
        }
        let r = CA::from_params(params, keypair);
        proof {
            lemma_window_outcome(self@, CertType::CA, not_before);
        }
        r
    }

    /// Build client parameters from the current clock and self-sign them.
    pub fn client_cert(&self, keypair: KeyMaterial) -> (r: Result<Cert, CertifyError>)
        requires
            days_in_range(self@.days),
            domains_ia5(self@.domain_names),
        ensures
            r matches Ok(c) ==> c.key_der@ == keypair.der@ && exists|nb: i64|
                #![trigger built_params(self@, CertType::Client, nb)]
                min_unix_timestamp() <= nb as int <= max_unix_timestamp() && c.signed@ == Some(
                    built_params(self@, CertType::Client, nb),
                ),
            window_never_fits(self@.days, CertType::Client) ==> (r matches Err(e) && e
                is InvalidCertificate),
            r matches Err(e) ==> e is InvalidCertificate || e is RcgenError,
    {
        let not_before = outside::now_unix();
        proof {
            lemma_days_fit(self@.days, CertType::Client, not_before);
            lemma_built_dns_ia5(self@, CertType::Client, not_before);
        }
        let params = self.build_cert_params(CertType::Client, not_before);
        let r = Cert::from_params(params, keypair);
        proof {
            lemma_window_outcome(self@, CertType::Client, not_before);
        }
        r
    }

    /// Build server parameters from the current clock and self-sign them.
    pub fn server_cert(&self, keypair: KeyMaterial) -> (r: Result<Cert, CertifyError>)
        requires
            days_in_range(self@.days),
            domains_ia5(self@.domain_names),
        ensures
            r matches Ok(c) ==> c.key_der@ == keypair.der@ && exists|nb: i64|
                #![trigger built_params(self@, CertType::Server, nb)]
                min_unix_timestamp() <= nb as int <= max_unix_timestamp() && c.signed@ == Some(
                    built_params(self@, CertType::Server, nb),
                ),
            window_never_fits(self@.days, CertType::Server) ==> (r matches Err(e) && e
                is InvalidCertificate),
            r matches Err(e) ==> e is InvalidCertificate || e is RcgenError,
    {
        let not_before = outside::now_unix();
        proof {
            lemma_days_fit(self@.days, CertType::Server, not_before);
            lemma_built_dns_ia5(self@, CertType::Server, not_before);
        }
        let params = self.build_cert_params(CertType::Server, not_before);
        let r = Cert::from_params(params, keypair);
        proof {
            lemma_window_outcome(self@, CertType::Server, not_before);
        }
        r
    }
}

/// A day count whose window fits no clock reading gives built parameters
/// whose window is never serializable, whatever the clock read.
proof fn lemma_window_outcome(info: CertInfoView, cert_type: CertType, not_before: i64)
    requires
        min_unix_timestamp() <= not_before as int <= max_unix_timestamp(),
    ensures
        window_never_fits(info.days, cert_type) ==> !window_serializable(
            built_params(info, cert_type, not_before),
        ),
{
}

/// A signed certificate: the backend's certificate and keypair, plus the
/// plain bytes the contracts speak of — the certificate's DER encoding and
/// the key's PKCS#8 document. `signed` records, for specification only,
/// the parameter set the certificate was signed with; it is `None` for a
/// certificate whose parameters the backend itself parsed from PEM text.
pub struct Cert {
    pub certificate: rcgen::Certificate,
    pub keypair: rcgen::KeyPair,
    pub cert_der: Vec<u8>,
    pub key_der: Vec<u8>,
    pub signed: Ghost<Option<CertParamsView>>,
}

impl Cert {
    /// Self-sign the given parameters with the given key. On success the
    /// certificate keeps the key's DER document unchanged and records
    /// exactly the given parameter set; the library's own error,
    /// `InvalidCertificate`, is returned precisely when a validity bound
    /// lies outside the serializable window, and everything else that can
    /// go wrong is the signing backend's.
    pub fn from_params(params: CertParams, keypair: KeyMaterial) -> (r: Result<
        Cert,
        CertifyError,
    >)
        requires
            params_dns_ia5(params@),
        ensures
            r matches Ok(c) ==> c.key_der@ == keypair.der@ && c.signed@ == Some(params@),
            (r matches Err(e) && e is InvalidCertificate) <==> !window_serializable(params@),
            r matches Err(e) ==> e is InvalidCertificate || e is RcgenError,
    {
        let rp = to_rcgen(&params)?;
        match outside::self_sign(&rp, &keypair.key) {
            Ok((certificate, cert_der)) => Ok(
                Cert {
                    certificate,
                    keypair: keypair.key,
                    cert_der,
                    key_der: keypair.der,
                    signed: Ghost(Some(params@)),
                },
            ),
            Err(e) => Err(CertifyError::RcgenError(e)),
        }
    }

    /// Self-sign parameters the backend itself parsed (a loaded CA). The
    /// resulting certificate keeps the key's DER document unchanged; its
    /// parameter set is not modelled.
    pub(crate) fn from_rcgen_params(rp: rcgen::CertificateParams, keypair: KeyMaterial) -> (r:
        Result<Cert, CertifyError>)
        ensures
            r matches Ok(c) ==> c.key_der@ == keypair.der@ && c.signed@ is None,
            r matches Err(e) ==> e is RcgenError,
    {
        match outside::self_sign(&rp, &keypair.key) {
            Ok((certificate, cert_der)) => Ok(
                Cert {
                    certificate,
                    keypair: keypair.key,
                    cert_der,
                    key_der: keypair.der,
                    signed: Ghost(None),
                },
            ),
            Err(e) => Err(CertifyError::RcgenError(e)),
        }
    }
}

/// Hand the built parameter set to the signing backend, field by field.
/// Fails, with the library's own error, exactly when a validity bound lies
/// outside the serializable window.
pub(crate) fn to_rcgen(p: &CertParams) -> (r: Result<rcgen::CertificateParams, CertifyError>)
    requires
        params_dns_ia5(p@),
    ensures
        r is Ok <==> window_serializable(p@),
        r matches Err(e) ==> e is InvalidCertificate,
{
    let mut rp = outside::params_default();
    if !outside::params_set_validity(&mut rp, p.not_before, p.not_after) {
        return Err(CertifyError::InvalidCertificate);
    }
    let mut i: usize = 0;
    while i < p.subject_alt_names.len()
        invariant
            params_dns_ia5(p@),
            i <= p.subject_alt_names@.len(),
        decreases p.subject_alt_names@.len() - i,
    {
        match &p.subject_alt_names[i] {
            SubjectAltName::DnsName(s) => {
                proof {
                    assert(p@.subject_alt_names[i as int] matches SanView::DnsName(d) ==> ia5_ok(
                        d,
                    ));
                }
                outside::params_push_san_dns(&mut rp, s.as_str());
            },
            SubjectAltName::IpAddress(ip) => {
                outside::params_push_san_ip(&mut rp, ip);
            },
        }
        i += 1;
    }
    outside::params_set_dn(&mut rp, p.country.as_str(), p.organization.as_str(), p.common.as_str());
    outside::params_set_key_id_sha512(&mut rp);
    let mut j: usize = 0;
    while j < p.extended_key_usages.len()
        invariant
            j <= p.extended_key_usages@.len(),
        decreases p.extended_key_usages@.len() - j,
    {
        outside::params_push_eku(&mut rp, &p.extended_key_usages[j]);
        j += 1;
    }
    match p.ca_constraint {
        CaConstraint::Unspecified => {},
        CaConstraint::Constrained(n) => outside::params_set_is_ca(&mut rp, n),
    }
    let mut k: usize = 0;
    while k < p.custom_extensions.len()
        invariant
            k <= p.custom_extensions@.len(),
        decreases p.custom_extensions@.len() - k,
    {
        outside::params_push_custom_extension(&mut rp, &p.custom_extensions[k]);
        k += 1;
    }
    Ok(rp)
}

} // verus!
