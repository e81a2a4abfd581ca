use crate::domain::types::string::FromUnchecked;
use vstd::prelude::*;

verus! {

/// Whether `email_address::EmailAddress::is_valid` accepts the text.
pub uninterp spec fn email_address_is_valid(s: Seq<char>) -> bool;

/// `email_address::EmailAddress::is_valid`: the claim is that the answer is
/// `email_address_is_valid` of the text, and that an accepted address holds an
/// `@` (the crate splits the address at its last `@` and refuses text without
/// one).
#[verifier::external_body]
fn email_is_valid(s: &str) -> (r: bool)
    ensures
        r == email_address_is_valid(s@),
        r ==> exists|i: int| 0 <= i < s@.len() && s@[i] == '@',
{
    email_address::EmailAddress::is_valid(s)
}

/// An e-mail address.
#[derive(Debug)]
pub struct Email(String);

impl View for Email {
    type V = Seq<char>;

    closed spec fn view(&self) -> Seq<char> {
        self.0@
    }
}

impl FromUnchecked<String> for Email {
    fn from_unchecked(value: String) -> (r: Email)
        ensures
            r@ == value@,
    {
        Email(value)
    }
}

impl Email {
    /// The address when `email_address` accepts it; otherwise the message
    /// `不正なメールアドレスです`.
    pub fn try_from_string(value: String) -> (r: Result<Email, String>)
        ensures
            match r {
                Ok(e) => email_address_is_valid(value@) && e@ == value@,
                Err(m) => !email_address_is_valid(value@) && m@ == "不正なメールアドレスです"@,
            },
    {
        if !email_is_valid(value.as_str()) {
            return Err(String::from_str("不正なメールアドレスです"));
        }
        Ok(Email(value))
    }

    pub fn as_str(&self) -> (r: &str)
        ensures
            r@ == self@,
    {
        self.0.as_str()
    }

    pub fn into_string(self) -> (r: String)
        ensures
            r@ == self@,
    {
        self.0
    }
}

} // verus!
