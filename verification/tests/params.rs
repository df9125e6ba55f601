//! The certificate parameter model: role-dependent extension policy,
//! validity windows, subject-alternative-name order, and the DER extension
//! encodings cross-checked against an independent DER writer.

use certify::CertInfo;
use certify::CertSigAlgo;
use certify::CertType;
use certify::IpAddress;
use certify::SubjectAltName;
use certify::builder::CaConstraint;
use certify::builder::ExtendedKeyUsage;
use certify::der::encode_basic_constraints_leaf;
use certify::der::encode_key_usage;

fn sample_info(days: Option<i64>) -> CertInfo {
    CertInfo::new(
        vec!["app.domain.com".to_string()],
        vec!["127.0.0.1".to_string(), "::1".to_string()],
        "US",
        "Domain Domain Inc.",
        "API Server",
        days,
        CertSigAlgo::ED25519,
    )
}

#[test]
fn leaf_roles_carry_not_ca_and_leaf_key_usage() {
    for cert_type in [CertType::Server, CertType::Client] {
        let p = sample_info(None).build_cert_params(cert_type, 1_700_000_000);
        assert!(matches!(p.ca_constraint, CaConstraint::Unspecified));
        assert_eq!(p.custom_extensions.len(), 2);
        // Basic Constraints, OID 2.5.29.19, not critical: SEQUENCE { BOOLEAN false }
        assert_eq!(p.custom_extensions[0].oid, vec![2, 5, 29, 19]);
        assert_eq!(p.custom_extensions[0].content, vec![0x30, 0x03, 0x01, 0x01, 0x00]);
        assert!(!p.custom_extensions[0].critical);
        // Key Usage, OID 2.5.29.15, critical: nine bits with 0, 1, 2 set
        assert_eq!(p.custom_extensions[1].oid, vec![2, 5, 29, 15]);
        assert_eq!(p.custom_extensions[1].content, vec![0x03, 0x03, 0x07, 0xe0, 0x00]);
        assert!(p.custom_extensions[1].critical);
    }
}

#[test]
fn ca_role_carries_path_length_and_ca_key_usage() {
    let p = sample_info(None).build_cert_params(CertType::CA, 1_700_000_000);
    assert!(matches!(p.ca_constraint, CaConstraint::Constrained(16)));
    assert_eq!(p.custom_extensions.len(), 1);
    // Key Usage, OID 2.5.29.15, critical: nine bits with 5 and 6 set
    assert_eq!(p.custom_extensions[0].oid, vec![2, 5, 29, 15]);
    assert_eq!(p.custom_extensions[0].content, vec![0x03, 0x03, 0x07, 0x06, 0x00]);
    assert!(p.custom_extensions[0].critical);
}

#[test]
fn extended_key_usage_follows_role() {
    let info = sample_info(None);
    let server = info.build_cert_params(CertType::Server, 0);
    assert_eq!(server.extended_key_usages, vec![ExtendedKeyUsage::ServerAuth]);
    let client = info.build_cert_params(CertType::Client, 0);
    assert_eq!(client.extended_key_usages, vec![ExtendedKeyUsage::ClientAuth]);
    let ca = info.build_cert_params(CertType::CA, 0);
    assert_eq!(ca.extended_key_usages, vec![ExtendedKeyUsage::Any]);
}

#[test]
fn explicit_days_override_defaults() {
    let p = sample_info(Some(365)).build_cert_params(CertType::Server, 1_700_000_000);
    assert_eq!(p.not_before, 1_700_000_000);
    assert_eq!(p.not_after - p.not_before, 365 * 86400);
    let p = sample_info(Some(365)).build_cert_params(CertType::CA, 1_700_000_000);
    assert_eq!(p.not_after - p.not_before, 365 * 86400);
}

#[test]
fn default_days_are_3650_for_ca_and_180_for_leaves() {
    let info = sample_info(None);
    let ca = info.build_cert_params(CertType::CA, 1_700_000_000);
    assert_eq!(ca.not_after - ca.not_before, 3650 * 86400);
    let server = info.build_cert_params(CertType::Server, 1_700_000_000);
    assert_eq!(server.not_after - server.not_before, 180 * 86400);
    let client = info.build_cert_params(CertType::Client, 1_700_000_000);
    assert_eq!(client.not_after - client.not_before, 180 * 86400);
}

#[test]
fn zero_and_negative_days_pass_through() {
    let p = sample_info(Some(0)).build_cert_params(CertType::Server, 1_700_000_000);
    assert_eq!(p.not_after, p.not_before);
    let p = sample_info(Some(-1)).build_cert_params(CertType::Server, 1_700_000_000);
    assert_eq!(p.not_after - p.not_before, -86400);
}

#[test]
fn san_list_keeps_domains_then_addresses() {
    let p = sample_info(None).build_cert_params(CertType::Server, 1_700_000_000);
    assert_eq!(p.subject_alt_names.len(), 3);
    assert!(matches!(
        &p.subject_alt_names[0],
        SubjectAltName::DnsName(d) if d == "app.domain.com"
    ));
    assert!(matches!(
        p.subject_alt_names[1],
        SubjectAltName::IpAddress(IpAddress::V4(127, 0, 0, 1))
    ));
    assert!(matches!(
        p.subject_alt_names[2],
        SubjectAltName::IpAddress(IpAddress::V6(0, 0, 0, 0, 0, 0, 0, 1))
    ));
}

#[test]
fn identity_fields_are_kept() {
    let p = sample_info(None).build_cert_params(CertType::Server, 1_700_000_000);
    assert_eq!(p.country, "US");
    assert_eq!(p.organization, "Domain Domain Inc.");
    assert_eq!(p.common, "API Server");
}

#[test]
fn domain_name_ascii_check() {
    assert!(certify::builder::domains_are_ia5(&vec![
        "app.domain.com".to_string(),
        "x".to_string()
    ]));
    assert!(!certify::builder::domains_are_ia5(&vec![
        "dömäin.example".to_string()
    ]));
}

#[test]
fn key_usage_matches_reference_encoder() {
    // the same nine-bit strings, written by an independent DER library
    let mut leaf_bits = bit_vec::BitVec::from_elem(9, false);
    leaf_bits.set(0, true);
    leaf_bits.set(1, true);
    leaf_bits.set(2, true);
    let leaf_der = yasna::construct_der(|writer| {
        writer.write_bitvec(&leaf_bits);
    });
    assert_eq!(encode_key_usage(false).content, leaf_der);

    let mut ca_bits = bit_vec::BitVec::from_elem(9, false);
    ca_bits.set(5, true);
    ca_bits.set(6, true);
    let ca_der = yasna::construct_der(|writer| {
        writer.write_bitvec(&ca_bits);
    });
    assert_eq!(encode_key_usage(true).content, ca_der);
}

#[test]
fn basic_constraints_matches_reference_encoder() {
    let der = yasna::construct_der(|writer| {
        writer.write_sequence(|writer| {
            writer.next().write_bool(false);
        });
    });
    assert_eq!(encode_basic_constraints_leaf().content, der);
}

#[test]
fn extension_encoders_set_oid_and_criticality() {
    let ku = encode_key_usage(false);
    assert_eq!(ku.oid, vec![2, 5, 29, 15]);
    assert!(ku.critical);
    let bc = encode_basic_constraints_leaf();
    assert_eq!(bc.oid, vec![2, 5, 29, 19]);
    assert!(!bc.critical);
}
