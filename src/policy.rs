//! The password policy: the single rule set shared by the validator and the
//! generator.
use vstd::prelude::*;

verus! {

/// The first clause of the password policy that a candidate fails, in the
/// fixed order length, uppercase, lowercase, digit, special character.
#[derive(Debug, Clone, Copy, PartialEq, Eq, Structural)]
pub enum PolicyViolation {
    TooShort,
    MissingUppercase,
    MissingLowercase,
    MissingDigit,
    MissingSpecial,
}

/// Least number of bytes in an acceptable password.
pub const MIN_PASSWORD_LEN: usize = 8;

pub open spec fn is_upper(c: char) -> bool {
    'A' <= c && c <= 'Z'
}

pub open spec fn is_lower(c: char) -> bool {
    'a' <= c && c <= 'z'
}

pub open spec fn is_digit(c: char) -> bool {
    '0' <= c && c <= '9'
}

/// The special characters `! @ # $ % ^ & *`.
pub open spec fn is_special(c: char) -> bool {
    c == '!' || c == '@' || c == '#' || c == '$' || c == '%' || c == '^' || c == '&' || c == '*'
}

pub open spec fn has_upper(p: Seq<char>) -> bool {
    exists|i: int| 0 <= i < p.len() && #[trigger] is_upper(p[i])
}

pub open spec fn has_lower(p: Seq<char>) -> bool {
    exists|i: int| 0 <= i < p.len() && #[trigger] is_lower(p[i])
}

pub open spec fn has_digit(p: Seq<char>) -> bool {
    exists|i: int| 0 <= i < p.len() && #[trigger] is_digit(p[i])
}

pub open spec fn has_special(p: Seq<char>) -> bool {
    exists|i: int| 0 <= i < p.len() && #[trigger] is_special(p[i])
}

/// Length of a password as stored: the number of bytes of its UTF-8 encoding.
pub open spec fn byte_len(p: Seq<char>) -> nat {
    vstd::utf8::encode_utf8(p).len()
}

/// The first policy clause that `p` fails, if any.
pub open spec fn first_violation(p: Seq<char>) -> Option<PolicyViolation> {
    if byte_len(p) < MIN_PASSWORD_LEN {
        Some(PolicyViolation::TooShort)
    } else if !has_upper(p) {
        Some(PolicyViolation::MissingUppercase)
    } else if !has_lower(p) {
        Some(PolicyViolation::MissingLowercase)
    } else if !has_digit(p) {
        Some(PolicyViolation::MissingDigit)
    } else if !has_special(p) {
        Some(PolicyViolation::MissingSpecial)
    } else {
        None
    }
}

pub open spec fn meets_policy(p: Seq<char>) -> bool {
    first_violation(p) is None
}

/// What validation of `p` returns.
pub open spec fn validation_of(p: Seq<char>) -> Result<(), PolicyViolation> {
    match first_violation(p) {
        Some(v) => Err(v),
        None => Ok(()),
    }
}

impl PolicyViolation {
    pub open spec fn message_spec(self) -> Seq<char> {
        match self {
            PolicyViolation::TooShort => "Password must be at least 8 characters long."@,
            PolicyViolation::MissingUppercase =>
                "Password must contain at least one uppercase letter."@,
            PolicyViolation::MissingLowercase =>
                "Password must contain at least one lowercase letter."@,
            PolicyViolation::MissingDigit => "Password must contain at least one digit."@,
            PolicyViolation::MissingSpecial =>
                "Password must contain at least one special character (!@#$%^&*)."@,
        }
    }

    /// The reason shown to the user.
    pub fn message(&self) -> (r: String)
        ensures
            r@ == self.message_spec(),
    {
        match self {
            PolicyViolation::TooShort => String::from_str(
                "Password must be at least 8 characters long.",
            ),
            PolicyViolation::MissingUppercase => String::from_str(
                "Password must contain at least one uppercase letter.",
            ),
            PolicyViolation::MissingLowercase => String::from_str(
                "Password must contain at least one lowercase letter.",
            ),
            PolicyViolation::MissingDigit => String::from_str(
                "Password must contain at least one digit.",
            ),
            PolicyViolation::MissingSpecial => String::from_str(
                "Password must contain at least one special character (!@#$%^&*).",
            ),
        }
    }
}

pub fn is_upper_char(c: char) -> (r: bool)
    ensures
        r == is_upper(c),
{
    'A' <= c && c <= 'Z'
}

pub fn is_lower_char(c: char) -> (r: bool)
    ensures
        r == is_lower(c),
{
    'a' <= c && c <= 'z'
}

pub fn is_digit_char(c: char) -> (r: bool)
    ensures
        r == is_digit(c),
{
    '0' <= c && c <= '9'
}

pub fn is_special_char(c: char) -> (r: bool)
    ensures
        r == is_special(c),
{
    c == '!' || c == '@' || c == '#' || c == '$' || c == '%' || c == '^' || c == '&' || c == '*'
}

/// Checks `password` against the policy and reports the first clause it
/// fails.
pub fn validate_audience_password(password: &str) -> (r: Result<(), PolicyViolation>)
    ensures
        r == validation_of(password@),
{
    if password.as_bytes().len() < MIN_PASSWORD_LEN {
        return Err(PolicyViolation::TooShort);
    }
    let n = password.unicode_len();
    let mut up = false;
    let mut low = false;
    let mut dig = false;
    let mut spe = false;
    let mut i: usize = 0;
    while i < n
        invariant
            n == password@.len(),
            i <= n,
            up == exists|j: int| 0 <= j < i && #[trigger] is_upper(password@[j]),
            low == exists|j: int| 0 <= j < i && #[trigger] is_lower(password@[j]),
            dig == exists|j: int| 0 <= j < i && #[trigger] is_digit(password@[j]),
            spe == exists|j: int| 0 <= j < i && #[trigger] is_special(password@[j]),
        decreases n - i,
    {
        let c = password.get_char(i);
        up = up || is_upper_char(c);
        low = low || is_lower_char(c);
        dig = dig || is_digit_char(c);
        spe = spe || is_special_char(c);
        i = i + 1;
    }
    if !up {
        Err(PolicyViolation::MissingUppercase)
    } else if !low {
        Err(PolicyViolation::MissingLowercase)
    } else if !dig {
        Err(PolicyViolation::MissingDigit)
    } else if !spe {
        Err(PolicyViolation::MissingSpecial)
    } else {
        Ok(())
    }
}

} // verus!
