use vstd::prelude::*;
use vstd::string::StrSliceExecFns;

verus! {

/// Whether a character may appear in a display name: ASCII letters, the
/// Latin-1 letter ranges, Unicode whitespace, apostrophe and hyphen.
pub open spec fn is_name_char(c: char) -> bool {
    let u = c as u32;
    (0x41 <= u && u <= 0x5A)  // A-Z
    || (0x61 <= u && u <= 0x7A)  // a-z
    || (0xC0 <= u && u <= 0xD6)  // Latin-1 uppercase letters
    || (0xD8 <= u && u <= 0xF6)  // Latin-1 letters around the two slashed Os
    || (0xF8 <= u && u <= 0xFF)  // Latin-1 lowercase letters
    || u == 0x27  // apostrophe
    || u == 0x2D  // hyphen
    || is_space_char(c)
}

/// The Unicode whitespace characters.
pub open spec fn is_space_char(c: char) -> bool {
    let u = c as u32;
    (0x09 <= u && u <= 0x0D)  // tab, line feed, vertical tab, form feed, carriage return
    || u == 0x20  // space
    || u == 0x85  // next line
    || u == 0xA0  // no-break space
    || u == 0x1680  // ogham space mark
    || (0x2000 <= u && u <= 0x200A)  // en quad through hair space
    || u == 0x2028  // line separator
    || u == 0x2029  // paragraph separator
    || u == 0x202F  // narrow no-break space
    || u == 0x205F  // medium mathematical space
    || u == 0x3000  // ideographic space
}

/// A display name is acceptable when it is 2 to 50 characters long and each
/// character is a letter of the ranges above, whitespace, apostrophe or
/// hyphen.
pub open spec fn display_name_ok(s: Seq<char>) -> bool {
    2 <= s.len() <= 50 && (forall|i: int| 0 <= i < s.len() ==> is_name_char(s[i]))
}

/// Decides whether a string is an acceptable display name.
pub fn is_valid_display_name(display_name: &str) -> (r: bool)
    ensures
        r == display_name_ok(display_name@),
{
    let n = display_name.unicode_len();
    if n < 2 || n > 50 {
        return false;
    }
    let mut i: usize = 0;
    while i < n
        invariant
            0 <= i <= n,
            n == display_name@.len(),
            2 <= n <= 50,
            forall|j: int| 0 <= j < i ==> is_name_char(display_name@[j]),
        decreases n - i,
    {
        let c = display_name.get_char(i);
        let u = c as u32;
        let letter = (0x41 <= u && u <= 0x5A) || (0x61 <= u && u <= 0x7A)
            || (0xC0 <= u && u <= 0xD6) || (0xD8 <= u && u <= 0xF6) || (0xF8 <= u && u <= 0xFF);
        let punct = u == 0x27 || u == 0x2D;
        let space = (0x09 <= u && u <= 0x0D) || u == 0x20 || u == 0x85 || u == 0xA0
            || u == 0x1680 || (0x2000 <= u && u <= 0x200A) || u == 0x2028 || u == 0x2029
            || u == 0x202F || u == 0x205F || u == 0x3000;
        if !(letter || punct || space) {
            return false;
        }
        i = i + 1;
    }
    true
}

/// What the email validator accepts. An address is checked against an
/// HTML5-style email grammar under the RFC 5321 length limits on the local
/// and domain parts, with internationalized domain names folded to ASCII
/// first; the outcome depends on the characters of the address alone.
pub uninterp spec fn email_ok(s: Seq<char>) -> bool;

/// Decides whether a string is a syntactically valid email address.
///
/// Relies on validator's ValidateEmail::validate_email for &str: the result
/// is a function of the string alone, and an empty string is rejected.
#[verifier::external_body]
pub fn is_valid_email(email: &str) -> (r: bool)
    ensures
        r == email_ok(email@),
        email@.len() == 0 ==> !r,
{
    validator::ValidateEmail::validate_email(&email)
}

} // verus!
