//! The shared password.
//!
//! Every request that changes something carries a `password` field, which must be the
//! configured password.  Where that is empty, no password is asked for.

use vstd::prelude::*;
use vstd::string::*;
use vstd::utf8::*;

use crate::config::ServerConfig;
use crate::reply;
use crate::reply::{error_reply, Reply};

verus! {

/// Whether `provided` opens a server with the password `expected`.
pub open spec fn admits(expected: Seq<char>, provided: Seq<char>) -> bool {
    expected.len() == 0 || provided == expected
}

/// What is said where the password is wrong.
pub const WRONG_PASSWORD: &'static str = "Incorrect password.";

/// Whether the request is to be allowed: no password is configured, or `provided` is it.
pub fn is_password_valid(config: &ServerConfig, provided: &str) -> (r: bool)
    ensures
        r == admits(config.password@, provided@),
{
    let expected: &str = config.password.as_str();
    if expected.is_empty() {
        return true;
    }
    proof {
        encode_utf8_decode_utf8(expected@);
        encode_utf8_decode_utf8(provided@);
    }
    constant_time_eq(expected.as_bytes(), provided.as_bytes())
}

/// Refuses the request with `403 Forbidden` where its password is wrong.
pub fn check_password(config: &ServerConfig, provided: &str) -> (r: Option<Reply>)
    ensures
        match r {
            Some(page) => !admits(config.password@, provided@) && page@ == reply::error_view(
                403,
                WRONG_PASSWORD@,
            ),
            None => admits(config.password@, provided@),
        },
{
    if is_password_valid(config, provided) {
        None
    } else {
        Some(error_reply(403, WRONG_PASSWORD))
    }
}

/// Whether two byte sequences are the same, compared without an early exit.
pub fn constant_time_eq(a: &[u8], b: &[u8]) -> (r: bool)
    ensures
        r == (a@ == b@),
{
    if a.len() != b.len() {
        // The bytes are read all the same.
        let mut _dummy: u8 = 0;
        for i in 0..a.len() {
            _dummy = _dummy | a[i];
        }
        return false;
    }
    let mut diff: u8 = 0;
    assert(a@.take(0) =~= b@.take(0));
    for i in 0..a.len()
        invariant
            a@.len() == b@.len(),
            diff == 0 <==> a@.take(i as int) == b@.take(i as int),
    {
        let x: u8 = a[i];
        let y: u8 = b[i];
        let ghost before = diff;
        diff = diff | (x ^ y);
        proof {
            assert(before | (x ^ y) == 0u8 <==> before == 0u8 && x == y) by (bit_vector);
            assert(a@.take(i + 1) =~= a@.take(i as int).push(x));
            assert(b@.take(i + 1) =~= b@.take(i as int).push(y));
            if a@.take(i + 1) == b@.take(i + 1) {
                assert(a@.take(i + 1)[i as int] == b@.take(i + 1)[i as int]);
                assert(a@.take(i as int) =~= a@.take(i + 1).drop_last());
                assert(b@.take(i as int) =~= b@.take(i + 1).drop_last());
            }
        }
    }
    assert(a@.take(a@.len() as int) =~= a@);
    assert(b@.take(b@.len() as int) =~= b@);
    diff == 0
}

} // verus!
