//! The issued certificates, decoded with an independent X.509 parser:
//! subject and issuer names, Basic Constraints, Key Usage bits, Extended
//! Key Usage and subject alternative names, per role.

use certify::CertSigAlgo;
use certify::CertifyError;
use certify::CA;
use certify::generate_ca;
use certify::generate_cert;
use x509_parser::certificate::X509Certificate;
use x509_parser::extensions::GeneralName;

fn der_of(pem_text: &str) -> Vec<u8> {
    pem::parse(pem_text).unwrap().into_contents()
}

fn acme_ca() -> Result<(String, String), CertifyError> {
    generate_ca("US", "Acme, Inc.", "acme", CertSigAlgo::ED25519, None, None)
}

fn with_cert<T>(pem_text: &str, f: impl FnOnce(&X509Certificate) -> T) -> T {
    let der = der_of(pem_text);
    let (rest, cert) = x509_parser::parse_x509_certificate(&der).unwrap();
    assert!(rest.is_empty());
    f(&cert)
}

#[test]
fn ca_certificate_decodes_to_ca_policy() {
    let (ca_pem, _) = acme_ca().unwrap();
    with_cert(&ca_pem, |cert| {
        assert_eq!(format!("{}", cert.subject()), "C=US, O=Acme, Inc., CN=acme");
        // self-signed: issuer equals subject
        assert_eq!(
            format!("{}", cert.issuer()),
            format!("{}", cert.subject())
        );

        let bc = cert.basic_constraints().unwrap().unwrap();
        assert!(bc.value.ca);
        assert_eq!(bc.value.path_len_constraint, Some(16));

        let ku = cert.key_usage().unwrap().unwrap();
        assert!(ku.value.key_cert_sign());
        assert!(ku.value.crl_sign());
        assert!(!ku.value.digital_signature());
        assert!(!ku.value.non_repudiation());
        assert!(!ku.value.key_encipherment());
        assert!(!ku.value.data_encipherment());
        assert!(!ku.value.key_agreement());
        assert!(!ku.value.encipher_only());
        assert!(!ku.value.decipher_only());

        // the extended key usages are cleared on a CA
        assert!(cert.extended_key_usage().unwrap().is_none());

        // default CA validity: 3650 days, starting at the clock reading
        let v = cert.validity();
        assert_eq!(
            v.not_after.timestamp() - v.not_before.timestamp(),
            3650 * 86400
        );
        assert!(v.not_before.timestamp() > 1_500_000_000);
    });
}

#[test]
fn server_certificate_decodes_to_leaf_policy() {
    let (ca_pem, ca_key) = acme_ca().unwrap();
    let ca = CA::load(&ca_pem, &ca_key).unwrap();
    let (cert_pem, _) = generate_cert(
        &ca,
        vec!["server.acme.com".to_string()],
        "US",
        "Acme, Inc.",
        "server.acme.com",
        CertSigAlgo::ED25519,
        None,
        false,
        Some(365),
    )
    .unwrap();
    with_cert(&cert_pem, |cert| {
        // issued by the CA's subject
        assert_eq!(format!("{}", cert.issuer()), "C=US, O=Acme, Inc., CN=acme");

        let bc = cert.basic_constraints().unwrap().unwrap();
        assert!(!bc.value.ca);

        let ku = cert.key_usage().unwrap().unwrap();
        assert!(ku.value.digital_signature());
        assert!(ku.value.non_repudiation());
        assert!(ku.value.key_encipherment());
        assert!(!ku.value.data_encipherment());
        assert!(!ku.value.key_agreement());
        assert!(!ku.value.key_cert_sign());
        assert!(!ku.value.crl_sign());
        assert!(!ku.value.encipher_only());
        assert!(!ku.value.decipher_only());

        let eku = cert.extended_key_usage().unwrap().unwrap();
        assert!(eku.value.server_auth);
        assert!(!eku.value.client_auth);
        assert!(!eku.value.any);

        // domain names first, then the two loopback addresses
        let san = cert.subject_alternative_name().unwrap().unwrap();
        let names = &san.value.general_names;
        assert_eq!(names.len(), 3);
        assert!(matches!(names[0], GeneralName::DNSName("server.acme.com")));
        assert!(matches!(names[1], GeneralName::IPAddress(&[127, 0, 0, 1])));
        assert!(matches!(
            names[2],
            GeneralName::IPAddress(&[0, 0, 0, 0, 0, 0, 0, 0, 0, 0, 0, 0, 0, 0, 0, 1])
        ));

        // an explicit day count overrides the default exactly
        let v = cert.validity();
        assert_eq!(
            v.not_after.timestamp() - v.not_before.timestamp(),
            365 * 86400
        );
    });
}

#[test]
fn client_certificate_decodes_to_client_policy() {
    let (ca_pem, ca_key) = acme_ca().unwrap();
    let ca = CA::load(&ca_pem, &ca_key).unwrap();
    let (cert_pem, _) = generate_cert(
        &ca,
        vec!["device.acme.com".to_string()],
        "US",
        "Acme, Inc.",
        "device",
        CertSigAlgo::ED25519,
        None,
        true,
        None,
    )
    .unwrap();
    with_cert(&cert_pem, |cert| {
        let bc = cert.basic_constraints().unwrap().unwrap();
        assert!(!bc.value.ca);

        let ku = cert.key_usage().unwrap().unwrap();
        assert!(ku.value.digital_signature());
        assert!(ku.value.non_repudiation());
        assert!(ku.value.key_encipherment());
        assert!(!ku.value.key_cert_sign());
        assert!(!ku.value.crl_sign());

        let eku = cert.extended_key_usage().unwrap().unwrap();
        assert!(eku.value.client_auth);
        assert!(!eku.value.server_auth);
        assert!(!eku.value.any);

        // default leaf validity: 180 days
        let v = cert.validity();
        assert_eq!(
            v.not_after.timestamp() - v.not_before.timestamp(),
            180 * 86400
        );
    });
}
