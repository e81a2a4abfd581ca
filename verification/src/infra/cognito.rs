use crate::domain::types::email::Email;
use crate::errors::{AppError, AppResult, ErrorView, Kind};
use vstd::hash_map::StringHashMap;
use vstd::prelude::*;

verus! {

/// An attribute of a user in the user pool.
pub struct UserAttribute {
    pub name: String,
    pub value: Option<String>,
}

/// The e-mail found by reading the attributes in order from `acc`: the value of
/// the last `email` attribute, or nothing when an `email` attribute comes
/// without a value before the end.
pub open spec fn email_scan(attrs: Seq<UserAttribute>, acc: Seq<char>) -> Option<Seq<char>>
    decreases attrs.len(),
{
    if attrs.len() == 0 {
        Some(acc)
    } else if attrs[0].name@ == "email"@ {
        match attrs[0].value {
            None => None,
            Some(v) => email_scan(attrs.drop_first(), v@),
        }
    } else {
        email_scan(attrs.drop_first(), acc)
    }
}

/// The e-mail among a user's attributes: the value of the last `email`
/// attribute, empty when there is none; an `email` attribute without a value
/// is the internal error `email missing`.
pub fn email_from_attributes(attrs: &Vec<UserAttribute>) -> (r: AppResult<String>)
    ensures
        match email_scan(attrs@, Seq::empty()) {
            Some(e) => r matches Ok(s) && s@ == e,
            None => r matches Err(err) && err@ == (ErrorView {
                kind: Kind::Internal,
                msg: Some("email missing"@),
                src: None,
            }),
        },
{
    let mut email = String::new();
    let mut i: usize = 0;
    proof {
        assert(attrs@.skip(0) =~= attrs@);
        assert(email@ =~= Seq::<char>::empty());
    }
    while i < attrs.len()
        invariant
            i <= attrs@.len(),
            email_scan(attrs@, Seq::empty()) == email_scan(attrs@.skip(i as int), email@),
        decreases attrs@.len() - i,
    {
        let attr = &attrs[i];
        proof {
            assert(attrs@.skip(i as int)[0] == attrs@[i as int]);
            assert(attrs@.skip(i as int).drop_first() =~= attrs@.skip(i + 1));
        }
        if crate::text::str_equal(attr.name.as_str(), "email") {
            match &attr.value {
                None => {
                    return Err(Kind::Internal.with(String::from_str("email missing")));
                },
                Some(v) => {
                    email = v.clone();
                },
            }
        }
        i = i + 1;
    }
    proof {
        assert(attrs@.skip(i as int) =~= Seq::<UserAttribute>::empty());
    }
    Ok(email)
}

/// The attributes of a new administrator: the e-mail, marked as verified.
pub fn new_user_attributes(email: Email) -> (r: Vec<(String, String)>)
    ensures
        r@.len() == 2,
        r@[0].0@ == "email"@ && r@[0].1@ == email@,
        r@[1].0@ == "email_verified"@ && r@[1].1@ == "true"@,
{
    let mut v = Vec::new();
    v.push((String::from_str("email"), email.into_string()));
    v.push((String::from_str("email_verified"), String::from_str("true")));
    v
}

/// A failed `AdminGetUser`: an unknown user is `NotFound`; anything else is an
/// internal error with its text.
pub fn get_user_error(is_user_not_found: bool, text: String) -> (r: AppError)
    ensures
        is_user_not_found ==> r@ == (ErrorView { kind: Kind::NotFound, msg: None, src: None }),
        !is_user_not_found ==> r@ == (ErrorView { kind: Kind::Internal, msg: None, src: Some(text@) }),
{
    if is_user_not_found {
        Kind::NotFound.into_err()
    } else {
        Kind::Internal.from_src(text)
    }
}

/// The value of a claim of an identity token: text, or anything else.
pub enum ClaimValue {
    Text(String),
    Other,
}

/// The claims of a verified identity token.
pub struct Claims(pub StringHashMap<ClaimValue>);

/// The text of a claim, when it is text.
pub open spec fn claim_text(claims: Map<Seq<char>, ClaimValue>, key: Seq<char>) -> Option<Seq<char>> {
    if claims.contains_key(key) {
        match claims[key] {
            ClaimValue::Text(s) => Some(s@),
            ClaimValue::Other => None,
        }
    } else {
        None
    }
}

impl Claims {
    /// The text of the claim `key`, when there is one and it is text.
    pub fn get_str_val(&self, key: &str) -> (r: Option<String>)
        ensures
            crate::errors::opt_view(r) == claim_text(self.0@, key@),
    {
        match self.0.get(key) {
            Some(ClaimValue::Text(s)) => Some(s.clone()),
            _ => None,
        }
    }

    /// The user name (`cognito:username`).
    pub fn username(&self) -> (r: Option<String>)
        ensures
            crate::errors::opt_view(r) == claim_text(self.0@, "cognito:username"@),
    {
        self.get_str_val("cognito:username")
    }

    /// The e-mail (`email`).
    pub fn email(&self) -> (r: Option<String>)
        ensures
            crate::errors::opt_view(r) == claim_text(self.0@, "email"@),
    {
        self.get_str_val("email")
    }
}

} // verus!
