//! What a seeding run takes from other crates: identifiers, salts and password
//! hashes, made-up names, a number of days, and the JSON text of a list.
//!
//! Verus takes the contracts in this file on trust.

use vstd::prelude::*;

verus! {

/// The bits of an identifier that hold its version and its variant.
pub const VERSION_AND_VARIANT_BITS: u128 = 0x0000_0000_0000_f000_c000_0000_0000_0000;

/// Those bits in a random identifier: version 4, variant `10`.
pub const RANDOM_VERSION_AND_VARIANT: u128 = 0x0000_0000_0000_4000_8000_0000_0000_0000;

/// Whether `id` is marked as a random (version 4) UUID.
pub open spec fn is_random_id(id: u128) -> bool {
    id & VERSION_AND_VARIANT_BITS == RANDOM_VERSION_AND_VARIANT
}

/// The PHC string that `argon2`, with its default parameters, computes for a
/// password and a salt in base 64; none where it refuses them.
pub uninterp spec fn argon2_hash(password: Seq<char>, salt: Seq<char>) -> Option<Seq<char>>;

/// The compact JSON text of an array of strings, as `serde_json` writes it.
pub uninterp spec fn json_array_text(items: Seq<Seq<char>>) -> Seq<char>;

/// A new random identifier: `uuid::Uuid::new_v4`, as the number that
/// `Uuid::as_u128` gives.
///
/// Not proved: `new_v4` sets the four version bits to 4 and the two variant
/// bits to `10`, whatever the random bits are.
#[verifier::external_body]
pub(crate) fn fresh_id() -> (id: u128)
    ensures
        is_random_id(id),
{
    uuid::Uuid::new_v4().as_u128()
}

/// A new random salt: the text of `SaltString::generate` over `OsRng`, both of
/// `argon2::password_hash`. Nothing is claimed of it.
#[verifier::external_body]
pub(crate) fn fresh_salt() -> (salt: String) {
    let mut rng = argon2::password_hash::rand_core::OsRng;
    argon2::password_hash::SaltString::generate(&mut rng).as_str().to_string()
}

/// The password hash of `argon2::Argon2::default()`, by
/// `PasswordHasher::hash_password`, written out as a PHC string.
///
/// Not proved: the result is a function of the password and the salt alone,
/// here named `argon2_hash`, and a hash that was computed is not empty: a PHC
/// string begins with `$`.
#[verifier::external_body]
pub(crate) fn hash_password(password: &str, salt: &str) -> (hash: Option<String>)
    ensures
        match hash {
            Some(text) => argon2_hash(password@, salt@) == Some(text@),
            None => argon2_hash(password@, salt@) is None,
        },
        hash matches Some(text) ==> text@.len() > 0,
{
    let salt = argon2::password_hash::SaltString::from_b64(salt).ok()?;
    let hasher = argon2::Argon2::default();
    let hash = argon2::password_hash::PasswordHasher::hash_password(
        &hasher,
        password.as_bytes(),
        &salt,
    ).ok()?;
    Some(hash.to_string())
}

/// A made-up e-mail address: `fake`'s `SafeEmail` in English. Nothing is
/// claimed of it.
#[verifier::external_body]
pub(crate) fn fake_email() -> (address: String) {
    fake::Fake::fake::<String>(&fake::faker::internet::en::SafeEmail())
}

/// A made-up company name: `fake`'s `CompanyName` in English. Nothing is
/// claimed of it.
#[verifier::external_body]
pub(crate) fn fake_company() -> (name: String) {
    fake::Fake::fake::<String>(&fake::faker::company::en::CompanyName())
}

/// A made-up city name: `fake`'s `CityName` in English. Nothing is claimed of
/// it.
#[verifier::external_body]
pub(crate) fn fake_city() -> (name: String) {
    fake::Fake::fake::<String>(&fake::faker::address::en::CityName())
}

/// A random number of days from 0 to 255: `rand::random::<u8>`. Nothing is
/// claimed of it but its type.
#[verifier::external_body]
pub(crate) fn random_days() -> (days: u8) {
    rand::random::<u8>()
}

/// The compact JSON text of `items` as an array of strings: the `to_string` of
/// the `serde_json::Value` made from them.
///
/// Not proved: the text is a function of the items alone, here named
/// `json_array_text`.
#[verifier::external_body]
pub(crate) fn json_array(items: &Vec<String>) -> (text: String)
    ensures
        text@ == json_array_text(items.deep_view()),
{
    serde_json::Value::from(items.clone()).to_string()
}

} // verus!
