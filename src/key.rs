use vstd::prelude::*;

verus! {

/// Bits 76 to 79 of a key's 128-bit pattern: the version field of a UUID.
pub open spec fn version_field(bits: u128) -> u128 {
    (bits >> 76u128) & 0xfu128
}

/// Bits 62 and 63 of a key's 128-bit pattern: the variant field of a UUID.
pub open spec fn variant_field(bits: u128) -> u128 {
    (bits >> 62u128) & 0x3u128
}

/// Whether a bit pattern has the shape of a random (version 4, RFC 4122) UUID.
pub open spec fn is_random_uuid(bits: u128) -> bool {
    version_field(bits) == 4 && variant_field(bits) == 2
}

/// Relies on uuid::Uuid::new_v4, read back through Uuid::as_u128: random bits
/// with the version field set to 4 and the variant field set to RFC 4122.
#[verifier::external_body]
fn random_uuid_bits() -> (r: u128)
    ensures
        is_random_uuid(r),
{
    uuid::Uuid::new_v4().as_u128()
}

/// Relies on uuid::Uuid::nil, read back through Uuid::as_u128: all 128 bits are zero.
#[verifier::external_body]
fn nil_uuid_bits() -> (r: u128)
    ensures
        r == 0,
{
    uuid::Uuid::nil().as_u128()
}

/// An opaque 128-bit identifier under which a vault stores a value.
///
/// Two keys are equal exactly when their bit patterns are equal.
#[derive(Clone, Copy, Hash, PartialEq, Eq, Debug, Structural)]
pub struct VaultKey {
    key: u128,
}

impl View for VaultKey {
    type V = u128;

    closed spec fn view(&self) -> u128 {
        self.key
    }
}

/// Two keys are equal exactly when their bit patterns are equal.
pub proof fn lemma_key_equality(a: VaultKey, b: VaultKey)
    ensures
        a == b <==> a@ == b@,
{
}

/// A random UUID is never the all-zero pattern.
pub proof fn lemma_random_uuid_not_zero(bits: u128)
    requires
        is_random_uuid(bits),
    ensures
        bits != 0,
{
    assert(((bits >> 76u128) & 0xfu128) == 4u128 ==> bits != 0u128) by (bit_vector);
}

impl VaultKey {
    /// Creates a new, effectively unique key from a random UUID.
    ///
    /// The result is never the zero key.
    pub fn new() -> (r: VaultKey)
        ensures
            is_random_uuid(r@),
            r@ != 0,
    {
        let bits = random_uuid_bits();
        proof {
            lemma_random_uuid_not_zero(bits);
        }
        VaultKey { key: bits }
    }

    /// The key's 128-bit pattern.
    pub(crate) fn bits(&self) -> (r: u128)
        ensures
            r == self@,
    {
        self.key
    }

    /// Creates the fixed, all-zero sentinel key.
    pub fn zero() -> (r: VaultKey)
        ensures
            r@ == 0,
    {
        VaultKey { key: nil_uuid_bits() }
    }
}

} // verus!
