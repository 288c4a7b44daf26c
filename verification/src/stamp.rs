//! What a new message gets from outside: an identifier and the time.

use vstd::prelude::*;

verus! {

/// The identifier and the creation time of a message.
#[derive(Clone, Copy, Debug, PartialEq, Eq, Structural)]
pub struct Stamp {
    /// The 128 bits of a UUID, first byte highest.
    pub id: u128,
    /// Milliseconds since the Unix epoch, negative before it.
    pub at: i64,
}

/// The bits of a UUID that hold its version and its variant.
pub const VERSION_VARIANT_MASK: u128 = 0x0000_0000_0000_F000_C000_0000_0000_0000u128;

/// Those bits in a random (version 4) UUID of the RFC 4122 variant.
pub const RANDOM_RFC4122: u128 = 0x0000_0000_0000_4000_8000_0000_0000_0000u128;

/// Whether `id` is marked as a random UUID.
pub open spec fn is_random_id(id: u128) -> bool {
    id & VERSION_VARIANT_MASK == RANDOM_RFC4122
}

/// Trusted: `uuid::Uuid::new_v4`, read out with `Uuid::as_u128`. The value is random
/// but for the version and variant bits, which the generator sets.
#[verifier::external_body]
fn new_v4() -> (id: u128)
    ensures
        is_random_id(id),
{
    uuid::Uuid::new_v4().as_u128()
}

/// Trusted: `std::time::SystemTime::now`, turned into a `chrono::DateTime<Utc>` by
/// chrono's `From<SystemTime>` and read out with `DateTime::timestamp_millis`. The
/// conversion takes a clock that stands before 1970 as it takes any other, and gives
/// a negative number for it; it has a result for every time within some 262,000 years
/// of 1970, and no system clock reads beyond that. Nothing is known of the value.
#[verifier::external_body]
fn now() -> (at: i64)
{
    chrono::DateTime::<chrono::Utc>::from(std::time::SystemTime::now()).timestamp_millis()
}

impl Stamp {
    /// A stamp for a message that is created now.
    pub fn fresh() -> (r: Stamp)
        ensures
            is_random_id(r.id),
    {
        let id: u128 = new_v4();
        let at: i64 = now();
        Stamp { id, at }
    }
}

} // verus!
