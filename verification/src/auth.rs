//! Password checking and credential generation.
use crate::wire::{decimal, push_char, push_zero_padded, zero_padded};
use rand::Rng;
use vstd::prelude::*;

verus! {

/// Whether argon2 accepts `password` against the PHC string `stored_hash`
/// (false when `stored_hash` is not a PHC string).
pub uninterp spec fn phc_verifies(password: Seq<char>, stored_hash: Seq<char>) -> bool;

/// `PasswordHash::new` followed by `Argon2::default().verify_password`.
/// Trusted: the answer depends on the two strings alone (the parameters come
/// from the PHC string) and is `false` when `stored_hash` does not parse; in
/// particular an empty text, or one that does not begin with `$`, never
/// parses.
#[verifier::external_body]
fn argon2_verify(password: &str, stored_hash: &str) -> (ok: bool)
    ensures
        ok == phc_verifies(password@, stored_hash@),
        stored_hash@.len() == 0 || stored_hash@[0] != '$' ==> !ok,
{
    match argon2::PasswordHash::new(stored_hash) {
        Ok(h) => argon2::PasswordVerifier::verify_password(
            &argon2::Argon2::default(),
            password.as_bytes(),
            &h,
        ).is_ok(),
        Err(_) => false,
    }
}

/// The longest password Argon2 hashes, in bytes (`argon2::MAX_PWD_LEN`).
pub const MAX_PASSWORD_BYTES: u64 = 0xFFFF_FFFF;

/// `Argon2::default().hash_password` (Argon2id) with a salt from
/// `SaltString::generate(OsRng)`, rendered as a PHC string. Trusted: a hash
/// it produces verifies the same password (the round trip argon2's
/// documentation gives). With the default parameters and a generated
/// 16-byte salt, the only error the source can return is `PwdTooLong`, for a
/// password of more than `MAX_PWD_LEN` bytes. The salt is random, so nothing
/// else is stated of the text.
#[verifier::external_body]
fn argon2_hash(password: &str) -> (h: Option<String>)
    ensures
        h is Some <==> vstd::utf8::encode_utf8(password@).len() <= MAX_PASSWORD_BYTES,
        h matches Some(s) ==> phc_verifies(password@, s@),
{
    let salt = argon2::password_hash::SaltString::generate(
        &mut argon2::password_hash::rand_core::OsRng,
    );
    match argon2::PasswordHasher::hash_password(
        &argon2::Argon2::default(),
        password.as_bytes(),
        &salt,
    ) {
        Ok(h) => Some(h.to_string()),
        Err(_) => None,
    }
}

/// `thread_rng().gen_range(low..high)`. Trusted: the result lies in the
/// range; which value comes is chance. `gen_range` panics on an empty range,
/// which `requires` excludes.
#[verifier::external_body]
fn random_in_range(low: u32, high: u32) -> (r: u32)
    requires
        low < high,
    ensures
        low <= r < high,
{
    rand::thread_rng().gen_range(low..high)
}

/// Verifies a plaintext password against the Argon2id PHC hash a host
/// registered with.
pub fn verify_password(submitted_password: &str, stored_hash: &str) -> (ok: bool)
    ensures
        ok == phc_verifies(submitted_password@, stored_hash@),
        stored_hash@.len() == 0 || stored_hash@[0] != '$' ==> !ok,
{
    argon2_verify(submitted_password, stored_hash)
}

/// The Argon2id PHC hash a host registers with, which verifies the
/// password; `None` exactly when the password is longer than Argon2 takes
/// (more than `MAX_PASSWORD_BYTES` bytes of UTF-8).
pub fn hash_password(password: &str) -> (h: Option<String>)
    ensures
        h is Some <==> vstd::utf8::encode_utf8(password@).len() <= MAX_PASSWORD_BYTES,
        h matches Some(s) ==> phc_verifies(password@, s@),
{
    argon2_hash(password)
}

/// Host ids are drawn from this half-open range.
pub const HOST_ID_LOW: u32 = 100_000_000;

/// Upper end (excluded) of the host id range.
pub const HOST_ID_HIGH: u32 = 999_999_999;

/// Whether `id` is the text of a host id: a number of the id range written
/// with nine digits.
pub open spec fn is_host_id_text(id: Seq<char>) -> bool {
    exists|n: u32| HOST_ID_LOW <= n < HOST_ID_HIGH && id == zero_padded(n as nat, 9)
}

/// A random 9-digit host id.
pub fn generate_host_id() -> (id: String)
    ensures
        is_host_id_text(id@),
        id@.len() == 9,
        forall|i: int| 0 <= i < 9 ==> '0' <= #[trigger] id@[i] <= '9',
{
    let n = random_in_range(HOST_ID_LOW, HOST_ID_HIGH);
    let mut id = String::new();
    push_zero_padded(&mut id, n as u64, 9);
    proof {
        reveal_with_fuel(crate::wire::pow10, 10);
        crate::wire::lemma_decimal_len_bound(n as nat, 9, crate::wire::pow10(9));
        crate::wire::lemma_decimal_len_lower(n as nat, 9);
        crate::wire::lemma_decimal_digits(n as nat);
        assert(crate::wire::pow10(9) == 1_000_000_000);
        assert(crate::wire::pow10(8) == 100_000_000);
        assert(id@ == decimal(n as nat));
    }
    id
}

/// The characters passwords are made of: letters and digits that cannot be
/// mistaken for one another.
pub open spec fn password_alphabet() -> Seq<char> {
    "ABCDEFGHJKLMNPQRSTUVWXYZ23456789"@
}

/// Number of characters in a password.
pub const PASSWORD_LEN: usize = 6;

/// A random 6-character password over the unambiguous alphabet.
pub fn generate_password() -> (pw: String)
    ensures
        pw@.len() == 6,
        forall|i: int| 0 <= i < 6 ==> password_alphabet().contains(#[trigger] pw@[i]),
{
    let chars = "ABCDEFGHJKLMNPQRSTUVWXYZ23456789";
    proof {
        reveal_strlit("ABCDEFGHJKLMNPQRSTUVWXYZ23456789");
    }
    let mut pw = String::new();
    let mut k: usize = 0;
    while k < PASSWORD_LEN
        invariant
            k <= PASSWORD_LEN,
            chars@ == password_alphabet(),
            chars@.len() == 32,
            pw@.len() == k,
            forall|i: int| 0 <= i < k ==> password_alphabet().contains(#[trigger] pw@[i]),
        decreases PASSWORD_LEN - k,
    {
        let idx = random_in_range(0, 32);
        let c = chars.get_char(idx as usize);
        let ghost before = pw@;
        push_char(&mut pw, c);
        proof {
            assert(pw@[k as int] == c);
            assert(password_alphabet()[idx as int] == c);
            assert forall|i: int| 0 <= i < k + 1 implies password_alphabet().contains(
                #[trigger] pw@[i],
            ) by {
                if i < k {
                    assert(pw@[i] == before[i]);
                } else {
                    assert(password_alphabet()[idx as int] == pw@[i]);
                }
            }
        }
        k += 1;
    }
    pw
}

/// A fresh host id and one-time password.
pub fn generate_credentials() -> (c: (String, String))
    ensures
        is_host_id_text(c.0@),
        c.1@.len() == 6,
        forall|i: int| 0 <= i < 6 ==> password_alphabet().contains(#[trigger] c.1@[i]),
{
    (generate_host_id(), generate_password())
}

} // verus!
