use vstd::prelude::*;

verus! {

/// The unsigned integer that four bytes encode, least significant first.
pub open spec fn le_u32_spec(b0: u8, b1: u8, b2: u8, b3: u8) -> int {
    b0 + 256 * b1 + 65536 * b2 + 16777216 * b3
}

/// The unsigned integer that four bytes encode, least significant first.
pub fn u32_from_le_bytes(b0: u8, b1: u8, b2: u8, b3: u8) -> (r: u32)
    ensures
        r == le_u32_spec(b0, b1, b2, b3),
{
    b0 as u32 + 256 * (b1 as u32) + 65536 * (b2 as u32) + 16777216 * (b3 as u32)
}

/// Relies on gstd::msg::id: the id of the message being handled, as its 32 bytes.
#[verifier::external_body]
fn message_id() -> (r: [u8; 32]) {
    gstd::msg::id().into_bytes()
}

/// Relies on gstd::exec::random (gcore's): a 32-byte random hash for
/// `subject`; the block number beside it is dropped. gcore always returns `Ok`.
#[verifier::external_body]
fn random_hash(subject: [u8; 32]) -> (r: [u8; 32]) {
    let (hash, _block_number) = gstd::exec::random(subject).expect("random call failed");
    hash
}

/// A fresh random number: the first four bytes, least significant first, of
/// the runtime's random hash seeded by the id of the message being handled.
pub fn get_random_u32() -> (r: u32) {
    let salt = message_id();
    let hash = random_hash(salt);
    u32_from_le_bytes(hash[0], hash[1], hash[2], hash[3])
}

} // verus!
