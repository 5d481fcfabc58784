//! The contextual messages of the registration page, chosen from the query
//! parameters that the recovery redirects carry. The page rendering itself
//! sits outside the library.

use vstd::prelude::*;
use vstd::string::StrSliceExecFns;

verus! {

/// String equality over the characters of two string slices.
fn str_eq(a: &str, b: &str) -> (r: bool)
    ensures
        r == (a@ == b@),
{
    let n = a.unicode_len();
    if n != b.unicode_len() {
        return false;
    }
    let mut i: usize = 0;
    while i < n
        invariant
            0 <= i <= n,
            n == a@.len(),
            n == b@.len(),
            forall|j: int| 0 <= j < i ==> a@[j] == b@[j],
        decreases n - i,
    {
        if a.get_char(i) != b.get_char(i) {
            return false;
        }
        i = i + 1;
    }
    proof {
        assert(a@ =~= b@);
    }
    true
}

/// The messages the registration page shows.
pub struct RegisterPageContext {
    pub success_message: Option<&'static str>,
    pub error_message: Option<&'static str>,
}

/// Chooses the registration page's contextual messages: a success note when
/// the client arrives from a completed recovery, an error note when the
/// recovery link was refused.
pub fn register_page(success: Option<&str>, error: Option<&str>) -> (r: RegisterPageContext)
    ensures
        (r.success_message matches Some(m) && m@ == "Account recovery successful. Please reset your passkey."@)
            <==> (success matches Some(s) && s@ == "true"@),
        (r.error_message matches Some(m) && m@ == "Invalid or expired recovery link. Please try again."@)
            <==> (error matches Some(e) && e@ == "recovery_failed"@),
        r.success_message is None <==> !(success matches Some(s) && s@ == "true"@),
        r.error_message is None <==> !(error matches Some(e) && e@ == "recovery_failed"@),
{
    let success_message = match success {
        Some(s) => if str_eq(s, "true") {
            Some("Account recovery successful. Please reset your passkey.")
        } else {
            None
        },
        None => None,
    };
    let error_message = match error {
        Some(e) => if str_eq(e, "recovery_failed") {
            Some("Invalid or expired recovery link. Please try again.")
        } else {
            None
        },
        None => None,
    };
    RegisterPageContext { success_message, error_message }
}

} // verus!
