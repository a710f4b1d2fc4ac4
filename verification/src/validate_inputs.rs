use vstd::prelude::*;
use vstd::string::StrSliceExecFns;

verus! {

// ---------------------------------------------------------------------------
// Character classes
// ---------------------------------------------------------------------------

pub open spec fn is_ascii_letter(c: char) -> bool {
    ('a' as u32) <= (c as u32) <= ('z' as u32) || ('A' as u32) <= (c as u32) <= ('Z' as u32)
}

pub open spec fn is_ascii_digit(c: char) -> bool {
    ('0' as u32) <= (c as u32) <= ('9' as u32)
}

/// Characters admitted after the leading letter of a username: an ASCII
/// alphanumeric, or any character from '.' through '_' in ASCII order
/// (which adds '.', '/', ':' through '@', '[' through '_').
pub open spec fn is_username_tail_char(c: char) -> bool {
    is_ascii_letter(c) || is_ascii_digit(c) || ('.' as u32) <= (c as u32) <= ('_' as u32)
}

// ---------------------------------------------------------------------------
// Validity of the three client-supplied fields
// ---------------------------------------------------------------------------

/// A well-formed username: one ASCII letter followed by 2 to 20
/// username-tail characters.
pub open spec fn valid_username_spec(s: Seq<char>) -> bool {
    &&& 3 <= s.len() <= 21
    &&& is_ascii_letter(s[0])
    &&& forall|i: int| 1 <= i < s.len() ==> is_username_tail_char(#[trigger] s[i])
}

/// A well-formed phone number: a leading '0' followed by exactly 9
/// ASCII digits.
pub open spec fn valid_phone_spec(s: Seq<char>) -> bool {
    &&& s.len() == 10
    &&& s[0] == '0'
    &&& forall|i: int| 1 <= i < s.len() ==> is_ascii_digit(#[trigger] s[i])
}

/// The length bound a password must meet before the strength estimator
/// is even consulted: 8 to 64 characters (code points, not bytes).
///
/// This is the only part of password acceptability the library can pin
/// down: the strength score that zxcvbn assigns is not a function of the
/// password alone (its scorer reads the system clock's current year to
/// rate year and date tokens), so nothing is stated about it beyond its
/// 0-4 range.
pub open spec fn valid_password_length(s: Seq<char>) -> bool {
    8 <= s.len() <= 64
}

// ---------------------------------------------------------------------------
// Executable validators
// ---------------------------------------------------------------------------

fn char_is_ascii_letter(c: char) -> (r: bool)
    ensures
        r == is_ascii_letter(c),
{
    let u = c as u32;
    (97 <= u && u <= 122) || (65 <= u && u <= 90)
}

fn char_is_username_tail(c: char) -> (r: bool)
    ensures
        r == is_username_tail_char(c),
{
    let u = c as u32;
    (97 <= u && u <= 122) || (46 <= u && u <= 95)
}

fn char_is_ascii_digit(c: char) -> (r: bool)
    ensures
        r == is_ascii_digit(c),
{
    let u = c as u32;
    48 <= u && u <= 57
}

/// Decides whether a username is well formed.
pub fn validate_username(username: &str) -> (r: bool)
    ensures
        r == valid_username_spec(username@),
{
    let n = username.unicode_len();
    if n < 3 || n > 21 {
        return false;
    }
    if !char_is_ascii_letter(username.get_char(0)) {
        return false;
    }
    let mut i: usize = 1;
    while i < n
        invariant
            1 <= i <= n,
            n == username@.len(),
            3 <= n <= 21,
            forall|j: int| 1 <= j < i ==> is_username_tail_char(#[trigger] username@[j]),
        decreases n - i,
    {
        if !char_is_username_tail(username.get_char(i)) {
            return false;
        }
        i = i + 1;
    }
    true
}

/// Decides whether a phone number is well formed.
pub fn validate_phone(phone: &str) -> (r: bool)
    ensures
        r == valid_phone_spec(phone@),
{
    let n = phone.unicode_len();
    if n != 10 {
        return false;
    }
    if phone.get_char(0) != '0' {
        return false;
    }
    let mut i: usize = 1;
    while i < n
        invariant
            1 <= i <= n,
            n == phone@.len(),
            n == 10,
            forall|j: int| 1 <= j < i ==> is_ascii_digit(#[trigger] phone@[j]),
        decreases n - i,
    {
        if !char_is_ascii_digit(phone.get_char(i)) {
            return false;
        }
        i = i + 1;
    }
    true
}

// ---------------------------------------------------------------------------
// Password strength, through the zxcvbn estimator
// ---------------------------------------------------------------------------

#[verifier::external_type_specification]
#[verifier::external_body]
pub struct ExZxcvbnError(zxcvbn::ZxcvbnError);

/// Relies on zxcvbn::zxcvbn: on success it hands back the estimator's
/// 0-4 strength score.  The score is not a function of the password
/// alone — the scorer reads the system clock's current year — so only
/// its range is stated.  The call fails on a blank password (kept out by
/// the precondition) or when the system clock reads as out of range, and
/// nothing is promised of the error case; a clock stepping backwards in
/// the middle of the call can make the estimator's own timing
/// subtraction panic, an environmental failure like running out of
/// memory.
#[verifier::external_body]
fn password_score(password: &str) -> (r: Result<u8, zxcvbn::ZxcvbnError>)
    requires
        password@.len() > 0,
    ensures
        r is Ok ==> r->Ok_0 <= 4,
{
    match zxcvbn::zxcvbn(password, &[]) {
        Ok(entropy) => Ok(entropy.score()),
        Err(e) => Err(e),
    }
}

/// Decides whether a password of the given strength score is acceptable:
/// the exact policy — 8 to 64 characters and a score of at least 3 —
/// once the estimator's answer is in hand.
pub fn password_meets_policy(password: &str, score: u8) -> (r: bool)
    ensures
        r == (valid_password_length(password@) && score >= 3),
{
    let n = password.unicode_len();
    8 <= n && n <= 64 && score >= 3
}

/// Decides whether a password is acceptable.  A password outside the
/// 8-to-64-character bound is always refused, before the estimator is
/// consulted.  Beyond that the decision is fail-closed: a password is
/// accepted only when the strength estimator answered with a score of at
/// least 3, and rejected when the estimator fails.
pub fn validate_password(password: &str) -> (r: bool)
    ensures
        !valid_password_length(password@) ==> r == false,
{
    let n = password.unicode_len();
    if n < 8 || n > 64 {
        return false;
    }
    match password_score(password) {
        Ok(score) => password_meets_policy(password, score),
        Err(_) => false,
    }
}

} // verus!
