//! DER encoding of the two custom X.509 extensions that every issued
//! certificate carries: the Key Usage bit string (OID 2.5.29.15, critical)
//! and the leaf "not a CA" Basic Constraints body (OID 2.5.29.19).
//!
//! Both encodings are fixed five-octet values; they are stated here as spec
//! functions and produced by verified code.

use vstd::prelude::*;

verus! {

/// A custom X.509 extension: an object identifier, a DER-encoded body and a
/// criticality flag.
pub struct Extension {
    pub oid: Vec<u64>,
    pub content: Vec<u8>,
    pub critical: bool,
}

pub struct ExtensionView {
    pub oid: Seq<u64>,
    pub content: Seq<u8>,
    pub critical: bool,
}

impl View for Extension {
    type V = ExtensionView;

    open spec fn view(&self) -> ExtensionView {
        ExtensionView { oid: self.oid@, content: self.content@, critical: self.critical }
    }
}

/// Which of the nine key-usage bits is set for a CA certificate and for a
/// leaf certificate: a CA gets keyCertSign (5) and cRLSign (6); a leaf gets
/// digitalSignature (0), nonRepudiation (1) and keyEncipherment (2).
pub open spec fn key_usage_bit(is_ca: bool, i: int) -> bool {
    if is_ca {
        i == 5 || i == 6
    } else {
        i == 0 || i == 1 || i == 2
    }
}

/// The first content octet of the key-usage bit string (bits 0 to 7, most
/// significant bit first): 0000_0110 for a CA, 1110_0000 for a leaf.
pub open spec fn key_usage_byte(is_ca: bool) -> u8 {
    if is_ca {
        0x06u8
    } else {
        0xe0u8
    }
}

/// A DER BIT STRING of exactly nine bits: tag 0x03, length 3, then one octet
/// giving seven unused trailing bits, then the two content octets.
pub open spec fn bit_string_9(b0: u8, b1: u8) -> Seq<u8> {
    seq![0x03u8, 0x03u8, 0x07u8, b0, b1]
}

/// The DER body of the key-usage extension: a nine-bit BIT STRING whose
/// ninth bit is always clear.
pub open spec fn key_usage_der(is_ca: bool) -> Seq<u8> {
    bit_string_9(key_usage_byte(is_ca), 0x00u8)
}

/// A DER SEQUENCE holding a single BOOLEAN.
pub open spec fn der_seq_bool(v: bool) -> Seq<u8> {
    seq![0x30u8, 0x03u8, 0x01u8, 0x01u8, if v { 0xffu8 } else { 0x00u8 }]
}

/// The DER body of the leaf Basic Constraints extension: SEQUENCE { BOOLEAN
/// false }, that is cA = false.
pub open spec fn basic_constraints_leaf_der() -> Seq<u8> {
    der_seq_bool(false)
}

/// Bit `i` of octet `b`, counting the most significant bit as bit 0.
pub open spec fn octet_bit(b: u8, i: int) -> bool
    recommends
        0 <= i < 8,
{
    b & (1u8 << ((7 - i) as u8)) != 0
}

/// Bit `i` of a nine-bit DER BIT STRING laid out as `bit_string_9`.
pub open spec fn bit_string_9_bit(der: Seq<u8>, i: int) -> bool
    recommends
        der.len() == 5,
        0 <= i < 9,
{
    if i < 8 {
        octet_bit(der[3], i)
    } else {
        octet_bit(der[4], i - 8)
    }
}

/// The key-usage encoding sets exactly the bits that `key_usage_bit` names:
/// bits 5 and 6 for a CA certificate, bits 0, 1 and 2 for a leaf, and no
/// others.
pub proof fn lemma_key_usage_bits(is_ca: bool, i: int)
    requires
        0 <= i < 9,
    ensures
        bit_string_9_bit(key_usage_der(is_ca), i) == key_usage_bit(is_ca, i),
{
    if i < 8 {
        let j = (7 - i) as u8;
        assert(j <= 7 ==> ((0x06u8 & (1u8 << j) != 0) == (j == 1 || j == 2))) by (bit_vector);
        assert(j <= 7 ==> ((0xe0u8 & (1u8 << j) != 0) == (j == 5 || j == 6 || j == 7)))
            by (bit_vector);
    } else {
        assert(0x00u8 & (1u8 << 7u8) == 0) by (bit_vector);
    }
}

/// Object identifier 2.5.29.15, the Key Usage extension.
pub open spec fn oid_key_usage() -> Seq<u64> {
    seq![2u64, 5u64, 29u64, 15u64]
}

/// Object identifier 2.5.29.19, the Basic Constraints extension.
pub open spec fn oid_basic_constraints() -> Seq<u64> {
    seq![2u64, 5u64, 29u64, 19u64]
}

/// The complete key-usage extension for the given role: OID 2.5.29.15,
/// critical, with the nine-bit usage string as body.
pub open spec fn key_usage_extension(is_ca: bool) -> ExtensionView {
    ExtensionView { oid: oid_key_usage(), content: key_usage_der(is_ca), critical: true }
}

/// The complete leaf Basic Constraints extension: OID 2.5.29.19, not
/// critical, with body cA = false.
pub open spec fn basic_constraints_leaf_extension() -> ExtensionView {
    ExtensionView {
        oid: oid_basic_constraints(),
        content: basic_constraints_leaf_der(),
        critical: false,
    }
}

/// Build the key-usage extension for a CA or a leaf certificate.
pub fn encode_key_usage(is_ca: bool) -> (r: Extension)
    ensures
        r@ == key_usage_extension(is_ca),
{
    let mut oid: Vec<u64> = Vec::new();
    oid.push(2);
    oid.push(5);
    oid.push(29);
    oid.push(15);
    let mut content: Vec<u8> = Vec::new();
    content.push(0x03);
    content.push(0x03);
    content.push(0x07);
    content.push(if is_ca { 0x06 } else { 0xe0 });
    content.push(0x00);
    proof {
        assert(oid@ =~= oid_key_usage());
        assert(content@ =~= key_usage_der(is_ca));
    }
    Extension { oid, content, critical: true }
}

/// Build the leaf Basic Constraints extension, which marks the certificate
/// as not being a CA.
pub fn encode_basic_constraints_leaf() -> (r: Extension)
    ensures
        r@ == basic_constraints_leaf_extension(),
{
    let mut oid: Vec<u64> = Vec::new();
    oid.push(2);
    oid.push(5);
    oid.push(29);
    oid.push(19);
    let mut content: Vec<u8> = Vec::new();
    content.push(0x30);
    content.push(0x03);
    content.push(0x01);
    content.push(0x01);
    content.push(0x00);
    proof {
        assert(oid@ =~= oid_basic_constraints());
        assert(content@ =~= basic_constraints_leaf_der());
    }
    Extension { oid, content, critical: false }
}

} // verus!
