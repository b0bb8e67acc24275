//! Password policy and input validation.
//!
//! A password is accepted only if it is at least [`MIN_PASSWORD_LENGTH`]
//! characters long and contains at least one uppercase letter, one lowercase
//! letter, one digit, and one character that is neither letter nor digit.
//! Email syntax is checked by an outside validator; both checks are pure and
//! run before any hashing or persistence work.

use vstd::prelude::*;

verus! {

use crate::error::AuthError;

/// Minimum accepted password length, in characters.
pub const MIN_PASSWORD_LENGTH: usize = 8;

// Names for the Unicode character classes that the policy counts; each is
// given meaning by the trusted wrapper below it.
pub uninterp spec fn uppercase_char(c: char) -> bool;

pub uninterp spec fn lowercase_char(c: char) -> bool;

pub uninterp spec fn numeric_char(c: char) -> bool;

pub uninterp spec fn alphanumeric_char(c: char) -> bool;

/// Relies on char::is_uppercase: whether the character has the Unicode
/// uppercase property.
#[verifier::external_body]
fn char_is_uppercase(c: char) -> (r: bool)
    ensures
        r == uppercase_char(c),
{
    c.is_uppercase()
}

/// Relies on char::is_lowercase: whether the character has the Unicode
/// lowercase property.
#[verifier::external_body]
fn char_is_lowercase(c: char) -> (r: bool)
    ensures
        r == lowercase_char(c),
{
    c.is_lowercase()
}

/// Relies on char::is_numeric: whether the character is a Unicode number.
#[verifier::external_body]
fn char_is_numeric(c: char) -> (r: bool)
    ensures
        r == numeric_char(c),
{
    c.is_numeric()
}

/// Relies on char::is_alphanumeric: whether the character is a Unicode letter
/// or number; the policy calls everything else a special character.
#[verifier::external_body]
fn char_is_alphanumeric(c: char) -> (r: bool)
    ensures
        r == alphanumeric_char(c),
{
    c.is_alphanumeric()
}

pub open spec fn has_uppercase(s: Seq<char>) -> bool {
    exists|i: int| 0 <= i < s.len() && #[trigger] uppercase_char(s[i])
}

pub open spec fn has_lowercase(s: Seq<char>) -> bool {
    exists|i: int| 0 <= i < s.len() && #[trigger] lowercase_char(s[i])
}

pub open spec fn has_numeric(s: Seq<char>) -> bool {
    exists|i: int| 0 <= i < s.len() && #[trigger] numeric_char(s[i])
}

pub open spec fn has_special(s: Seq<char>) -> bool {
    exists|i: int| 0 <= i < s.len() && !(#[trigger] alphanumeric_char(s[i]))
}

/// What the policy accepts: long enough, and all four character classes
/// present.
pub open spec fn password_strong(s: Seq<char>) -> bool {
    &&& s.len() >= MIN_PASSWORD_LENGTH
    &&& has_uppercase(s)
    &&& has_lowercase(s)
    &&& has_numeric(s)
    &&& has_special(s)
}

/// The four class flags observed over a prefix of the password.
struct ClassScan {
    has_upper: bool,
    has_lower: bool,
    has_digit: bool,
    has_special: bool,
}

impl ClassScan {
    spec fn matches_prefix(&self, s: Seq<char>, n: int) -> bool {
        &&& self.has_upper == has_uppercase(s.take(n))
        &&& self.has_lower == has_lowercase(s.take(n))
        &&& self.has_digit == has_numeric(s.take(n))
        &&& self.has_special == has_special(s.take(n))
    }

    spec fn all(&self) -> bool {
        self.has_upper && self.has_lower && self.has_digit && self.has_special
    }
}

proof fn lemma_take_extend(s: Seq<char>, n: int)
    requires
        0 <= n < s.len(),
    ensures
        has_uppercase(s.take(n + 1)) == (has_uppercase(s.take(n)) || uppercase_char(s[n])),
        has_lowercase(s.take(n + 1)) == (has_lowercase(s.take(n)) || lowercase_char(s[n])),
        has_numeric(s.take(n + 1)) == (has_numeric(s.take(n)) || numeric_char(s[n])),
        has_special(s.take(n + 1)) == (has_special(s.take(n)) || !alphanumeric_char(s[n])),
{
    assert(s.take(n + 1) =~= s.take(n).push(s[n]));
    let t = s.take(n + 1);
    let p = s.take(n);
    assert(t[n] == s[n]);
    assert forall|i: int| 0 <= i < n implies t[i] == p[i] by {}
    if has_uppercase(p) {
        let i = choose|i: int| 0 <= i < p.len() && #[trigger] uppercase_char(p[i]);
        assert(uppercase_char(t[i]));
    }
    if uppercase_char(s[n]) {
        assert(uppercase_char(t[n]));
    }
    if has_uppercase(t) && !uppercase_char(s[n]) {
        let i = choose|i: int| 0 <= i < t.len() && #[trigger] uppercase_char(t[i]);
        assert(uppercase_char(p[i]));
    }
    if has_lowercase(p) {
        let i = choose|i: int| 0 <= i < p.len() && #[trigger] lowercase_char(p[i]);
        assert(lowercase_char(t[i]));
    }
    if lowercase_char(s[n]) {
        assert(lowercase_char(t[n]));
    }
    if has_lowercase(t) && !lowercase_char(s[n]) {
        let i = choose|i: int| 0 <= i < t.len() && #[trigger] lowercase_char(t[i]);
        assert(lowercase_char(p[i]));
    }
    if has_numeric(p) {
        let i = choose|i: int| 0 <= i < p.len() && #[trigger] numeric_char(p[i]);
        assert(numeric_char(t[i]));
    }
    if numeric_char(s[n]) {
        assert(numeric_char(t[n]));
    }
    if has_numeric(t) && !numeric_char(s[n]) {
        let i = choose|i: int| 0 <= i < t.len() && #[trigger] numeric_char(t[i]);
        assert(numeric_char(p[i]));
    }
    if has_special(p) {
        let i = choose|i: int| 0 <= i < p.len() && !(#[trigger] alphanumeric_char(p[i]));
        assert(!alphanumeric_char(t[i]));
    }
    if !alphanumeric_char(s[n]) {
        assert(!alphanumeric_char(t[n]));
    }
    if has_special(t) && alphanumeric_char(s[n]) {
        let i = choose|i: int| 0 <= i < t.len() && !(#[trigger] alphanumeric_char(t[i]));
        assert(!alphanumeric_char(p[i]));
    }
}

/// Scans the whole password once and reports which classes were seen.
fn scan_classes(password: &str) -> (r: ClassScan)
    ensures
        r.has_upper == has_uppercase(password@),
        r.has_lower == has_lowercase(password@),
        r.has_digit == has_numeric(password@),
        r.has_special == has_special(password@),
{
    let n = password.unicode_len();
    let mut scan = ClassScan { has_upper: false, has_lower: false, has_digit: false, has_special: false };
    assert(password@.take(0) =~= Seq::<char>::empty());
    let mut i: usize = 0;
    while i < n
        invariant
            n == password@.len(),
            i <= n,
            scan.matches_prefix(password@, i as int),
        decreases n - i,
    {
        let c = password.get_char(i);
        proof {
            lemma_take_extend(password@, i as int);
        }
        scan = ClassScan {
            has_upper: scan.has_upper || char_is_uppercase(c),
            has_lower: scan.has_lower || char_is_lowercase(c),
            has_digit: scan.has_digit || char_is_numeric(c),
            has_special: scan.has_special || char_is_alphanumeric(c) == false,
        };
        i = i + 1;
    }
    assert(password@.take(n as int) =~= password@);
    scan
}

/// Validates password strength, reporting a short-password reason separately
/// from a missing-class reason.
///
/// Rejects every password shorter than [`MIN_PASSWORD_LENGTH`] characters, and
/// every password missing one of the four character classes; accepts all
/// others.
pub fn validate_password(password: &str) -> (r: Result<(), AuthError>)
    ensures
        r is Ok <==> password_strong(password@),
        password@.len() < MIN_PASSWORD_LENGTH ==> (r matches Err(AuthError::WeakPassword(m))
            && m@ == "Password must be at least 8 characters"@),
        password@.len() >= MIN_PASSWORD_LENGTH && !password_strong(password@) ==> (r matches Err(
            AuthError::WeakPassword(m),
        )
            && m@
            == "Password must contain at least one uppercase letter, one lowercase letter, one digit, and one special character"@),
{
    let n = password.unicode_len();
    if n < MIN_PASSWORD_LENGTH {
        return Err(
            AuthError::WeakPassword(String::from_str("Password must be at least 8 characters")),
        );
    }
    let scan = scan_classes(password);
    if !scan.has_upper || !scan.has_lower || !scan.has_digit || !scan.has_special {
        return Err(
            AuthError::WeakPassword(
                String::from_str(
                    "Password must contain at least one uppercase letter, one lowercase letter, one digit, and one special character",
                ),
            ),
        );
    }
    Ok(())
}

/// Why a password failed the strength rules.
#[derive(Debug, Clone, Copy, PartialEq, Eq, Structural)]
pub enum PasswordRuleError {
    TooShort,
    MissingClass,
}

impl PasswordRuleError {
    pub open spec fn spec_code(&self) -> Seq<char> {
        match self {
            PasswordRuleError::TooShort => "password_too_short"@,
            PasswordRuleError::MissingClass => "weak_password"@,
        }
    }

    /// Stable identifier of the rule that failed.
    pub fn code(&self) -> (r: String)
        ensures
            r@ == self.spec_code(),
    {
        match self {
            PasswordRuleError::TooShort => String::from_str("password_too_short"),
            PasswordRuleError::MissingClass => String::from_str("weak_password"),
        }
    }
}

/// Validator for password strength requirements, scanning the password once
/// and stopping as soon as all four character classes have been observed.
pub fn validate_password_strength(password: &str) -> (r: Result<(), PasswordRuleError>)
    ensures
        r is Ok <==> password_strong(password@),
        password@.len() < MIN_PASSWORD_LENGTH ==> r == Err::<(), PasswordRuleError>(
            PasswordRuleError::TooShort,
        ),
        password@.len() >= MIN_PASSWORD_LENGTH && !password_strong(password@) ==> r == Err::<
            (),
            PasswordRuleError,
        >(PasswordRuleError::MissingClass),
{
    let n = password.unicode_len();
    if n < MIN_PASSWORD_LENGTH {
        return Err(PasswordRuleError::TooShort);
    }
    let mut scan = ClassScan { has_upper: false, has_lower: false, has_digit: false, has_special: false };
    assert(password@.take(0) =~= Seq::<char>::empty());
    let mut i: usize = 0;
    while i < n
        invariant
            n == password@.len(),
            n >= MIN_PASSWORD_LENGTH,
            i <= n,
            scan.matches_prefix(password@, i as int),
            !scan.all(),
        decreases n - i,
    {
        let c = password.get_char(i);
        proof {
            lemma_take_extend(password@, i as int);
        }
        scan = ClassScan {
            has_upper: scan.has_upper || char_is_uppercase(c),
            has_lower: scan.has_lower || char_is_lowercase(c),
            has_digit: scan.has_digit || char_is_numeric(c),
            has_special: scan.has_special || char_is_alphanumeric(c) == false,
        };
        i = i + 1;
        if scan.has_upper && scan.has_lower && scan.has_digit && scan.has_special {
            proof {
                lemma_class_prefix_implies_whole(password@, i as int);
            }
            return Ok(());
        }
    }
    assert(password@.take(n as int) =~= password@);
    Err(PasswordRuleError::MissingClass)
}

proof fn lemma_class_prefix_implies_whole(s: Seq<char>, n: int)
    requires
        0 <= n <= s.len(),
    ensures
        has_uppercase(s.take(n)) ==> has_uppercase(s),
        has_lowercase(s.take(n)) ==> has_lowercase(s),
        has_numeric(s.take(n)) ==> has_numeric(s),
        has_special(s.take(n)) ==> has_special(s),
{
    let p = s.take(n);
    if has_uppercase(p) {
        let i = choose|i: int| 0 <= i < p.len() && #[trigger] uppercase_char(p[i]);
        assert(uppercase_char(s[i]));
    }
    if has_lowercase(p) {
        let i = choose|i: int| 0 <= i < p.len() && #[trigger] lowercase_char(p[i]);
        assert(lowercase_char(s[i]));
    }
    if has_numeric(p) {
        let i = choose|i: int| 0 <= i < p.len() && #[trigger] numeric_char(p[i]);
        assert(numeric_char(s[i]));
    }
    if has_special(p) {
        let i = choose|i: int| 0 <= i < p.len() && !(#[trigger] alphanumeric_char(p[i]));
        assert(!alphanumeric_char(s[i]));
    }
}

// Name for what the outside email validator accepts; given meaning by the
// wrapper below.
pub uninterp spec fn email_accepted(s: Seq<char>) -> bool;

/// Relies on validator's ValidateEmail::validate_email: whether the string is
/// an RFC-shaped email address.
#[verifier::external_body]
pub fn is_valid_email(email: &str) -> (r: bool)
    ensures
        r == email_accepted(email@),
{
    validator::ValidateEmail::validate_email(&email)
}

/// Validates that a full name contains no number and is at most 255 characters.
pub fn validate_full_name(name: &str) -> (r: Result<(), String>)
    ensures
        r is Ok <==> (name@.len() <= 255 && !has_numeric(name@)),
        name@.len() > 255 ==> (r matches Err(m) && m@ == "Full name must not exceed 255 characters"@),
        name@.len() <= 255 && has_numeric(name@) ==> (r matches Err(m) && m@
            == "Full name must not contain numbers"@),
{
    let n = name.unicode_len();
    if n > 255 {
        return Err(String::from_str("Full name must not exceed 255 characters"));
    }
    let scan = scan_classes(name);
    if scan.has_digit {
        return Err(String::from_str("Full name must not contain numbers"));
    }
    Ok(())
}

/// Validates that a bio is at most 255 characters.
pub fn validate_bio(bio: &str) -> (r: Result<(), String>)
    ensures
        r is Ok <==> bio@.len() <= 255,
        bio@.len() > 255 ==> (r matches Err(m) && m@ == "Bio must not exceed 255 characters"@),
{
    let n = bio.unicode_len();
    if n > 255 {
        return Err(String::from_str("Bio must not exceed 255 characters"));
    }
    Ok(())
}

} // verus!
