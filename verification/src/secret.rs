//! Random credential strings.

use vstd::prelude::*;
use vstd::string::*;
use crate::credentials::{is_reserved, plain};

verus! {

/// Every character of `s` occurs in `charset`.
pub open spec fn drawn_from(s: Seq<char>, charset: Seq<char>) -> bool {
    forall|i: int| 0 <= i < s.len() ==> charset.contains(#[trigger] s[i])
}

/// Why no secret was generated.
#[derive(Clone, Copy, PartialEq, Eq, Structural, Debug)]
pub enum SecretError {
    /// The character set is empty.
    InvalidCharset,
}

/// `random_string::generate`: a string of `length` characters, each of them
/// picked at random from those of `charset`. It panics on an empty
/// `charset`, and it reserves `length` bytes before it starts.
#[verifier::external_body]
fn random_chars(length: usize, charset: &str) -> (out: String)
    requires
        charset@.len() > 0,
        length <= isize::MAX,
    ensures
        out@.len() == length,
        drawn_from(out@, charset@),
{
    random_string::generate(length, charset)
}

/// A random string of exactly `length` characters drawn from `charset`,
/// with replacement. An empty `charset` is the only reason to fail.
pub fn generate(length: usize, charset: &str) -> (secret: Result<String, SecretError>)
    requires
        length <= isize::MAX,
    ensures
        match secret {
            Ok(s) => charset@.len() > 0 && s@.len() == length && drawn_from(s@, charset@),
            Err(e) => charset@.len() == 0 && e == SecretError::InvalidCharset,
        },
{
    if charset.unicode_len() == 0 {
        Err(SecretError::InvalidCharset)
    } else {
        Ok(random_chars(length, charset))
    }
}

/// The number of characters of a session secret.
pub const SESSION_SECRET_LENGTH: usize = 32;

/// The characters that a session secret is drawn from.
pub const SESSION_CHARSET: &'static str = "abcdefghijklmnopqrstuvwsyz1234567890!@#$%^&*()";

/// What holds of every session secret.
pub open spec fn is_session_secret(s: Seq<char>) -> bool {
    s.len() == SESSION_SECRET_LENGTH && drawn_from(s, SESSION_CHARSET@)
}

/// A fresh session secret.
pub fn session_secret() -> (secret: String)
    ensures
        is_session_secret(secret@),
        plain(secret@),
{
    proof {
        lemma_session_charset();
    }
    let secret = random_chars(SESSION_SECRET_LENGTH, SESSION_CHARSET);
    proof {
        lemma_session_secret_is_plain(secret@);
    }
    secret
}

proof fn lemma_session_charset()
    ensures
        SESSION_CHARSET@.len() == 46,
        plain(SESSION_CHARSET@),
{
    reveal_strlit("abcdefghijklmnopqrstuvwsyz1234567890!@#$%^&*()");
}

/// A session secret holds no character that a credential value may not hold.
pub proof fn lemma_session_secret_is_plain(s: Seq<char>)
    requires
        is_session_secret(s),
    ensures
        plain(s),
{
    lemma_session_charset();
    assert forall|i: int| 0 <= i < s.len() implies !is_reserved(#[trigger] s[i]) by {
        let c = s[i];
        assert(SESSION_CHARSET@.contains(c));
        let k: int = choose|k: int| 0 <= k < SESSION_CHARSET@.len() && SESSION_CHARSET@[k] == c;
        assert(!is_reserved(SESSION_CHARSET@[k]));
    }
}

} // verus!
