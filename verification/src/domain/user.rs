use crate::domain::types::string::{check_length, length_error, length_ok, FromUnchecked};
use crate::domain::types::time::{now, Date, LocalDateTime, NANOS_PER_SEC};
use crate::domain::HasId;
use crate::text::str_equal;
use vstd::prelude::*;

verus! {

/// What the identifiers of users are typed by.
#[derive(Debug)]
pub struct UserEntity;

pub type Id = crate::domain::Id<UserEntity>;

/// A user of the service.
#[derive(Debug)]
pub struct User {
    pub id: Id,
    pub name: Name,
    pub birthdate: Date,
    pub gender: Gender,
    pub created_at: LocalDateTime,
    pub updated_at: LocalDateTime,
}

impl User {
    /// A new user, created and updated now: both times are the one reading of
    /// the clock.
    pub fn new(id: Id, name: Name, birthdate: Date, gender: Gender) -> (r: User)
        ensures
            r.id@ == id@,
            r.name@ == name@,
            r.birthdate@ == birthdate@,
            r.gender == gender,
            r.created_at@ == r.updated_at@,
            r.created_at@.1 < NANOS_PER_SEC,
            r.updated_at@.1 < NANOS_PER_SEC,
    {
        let t = now();
        User { id, name, birthdate, gender, created_at: t, updated_at: t }
    }

    /// The same user with a new name, birthdate and gender, updated now; the
    /// identifier and the creation time stay.
    pub fn update(self, name: Name, birthdate: Date, gender: Gender) -> (r: User)
        ensures
            r.id@ == self.id@,
            r.created_at@ == self.created_at@,
            r.name@ == name@,
            r.birthdate@ == birthdate@,
            r.gender == gender,
            r.updated_at@.1 < NANOS_PER_SEC,
    {
        self.update_at(name, birthdate, gender, now())
    }
}

impl User {
    /// A new user, created and updated at `now`.
    pub fn new_at(id: Id, name: Name, birthdate: Date, gender: Gender, now: LocalDateTime) -> (r: User)
        ensures
            r.id@ == id@,
            r.name@ == name@,
            r.birthdate@ == birthdate@,
            r.gender == gender,
            r.created_at@ == now@,
            r.updated_at@ == now@,
    {
        User { id, name, birthdate, gender, created_at: now, updated_at: now }
    }

    /// The same user with a new name, birthdate and gender, updated at `now`;
    /// the identifier and the creation time stay.
    pub fn update_at(self, name: Name, birthdate: Date, gender: Gender, now: LocalDateTime) -> (r: User)
        ensures
            r.id@ == self.id@,
            r.created_at@ == self.created_at@,
            r.name@ == name@,
            r.birthdate@ == birthdate@,
            r.gender == gender,
            r.updated_at@ == now@,
    {
        User { name, birthdate, gender, updated_at: now, ..self }
    }
}

impl HasId for User {
    type Entity = UserEntity;

    open spec fn spec_id(&self) -> Seq<char> {
        self.id@
    }

    fn id(&self) -> (r: &Id) {
        &self.id
    }
}

/// The name of a user, from 1 to 255 characters.
#[derive(Debug)]
pub struct Name(String);

impl View for Name {
    type V = Seq<char>;

    closed spec fn view(&self) -> Seq<char> {
        self.0@
    }
}

impl FromUnchecked<String> for Name {
    fn from_unchecked(value: String) -> (r: Name)
        ensures
            r@ == value@,
    {
        Name(value)
    }
}

impl Name {
    /// The name when its length is from 1 to 255 characters.
    pub fn try_from_string(value: String) -> (r: Result<Name, String>)
        ensures
            match r {
                Ok(n) => n@ == value@ && length_ok(value@, 1, 255),
                Err(e) => !length_ok(value@, 1, 255) && e@ == length_error("ユーザー名"@, 1, 255),
            },
    {
        match check_length(value, "ユーザー名", 1, 255) {
            Ok(v) => Ok(Name(v)),
            Err(e) => Err(e),
        }
    }

    pub fn as_str(&self) -> (r: &str)
        ensures
            r@ == self@,
    {
        self.0.as_str()
    }

    pub fn into_string(self) -> (r: String)
        ensures
            r@ == self@,
    {
        self.0
    }
}

/// The gender of a user.
#[derive(Debug, Clone, Copy, PartialEq, Eq, Structural)]
pub enum Gender {
    Male,
    Female,
}

/// How a gender is shown: `男性` or `女性`.
pub open spec fn gender_label(g: Gender) -> Seq<char> {
    match g {
        Gender::Male => "男性"@,
        Gender::Female => "女性"@,
    }
}

/// How a gender is stored: the variant's name.
pub open spec fn gender_name(g: Gender) -> Seq<char> {
    match g {
        Gender::Male => "Male"@,
        Gender::Female => "Female"@,
    }
}

/// Reading a gender: its label or its name; anything else is refused with the
/// message `error: VariantNotFound`.
pub open spec fn gender_parse(s: Seq<char>) -> Result<Gender, Seq<char>> {
    if s == "男性"@ || s == "Male"@ {
        Ok(Gender::Male)
    } else if s == "女性"@ || s == "Female"@ {
        Ok(Gender::Female)
    } else {
        Err("error: VariantNotFound"@)
    }
}

impl Gender {
    /// Every gender, in the order they are declared.
    pub fn all() -> (r: Vec<Gender>)
        ensures
            r@ == seq![Gender::Male, Gender::Female],
    {
        let mut v = Vec::new();
        v.push(Gender::Male);
        v.push(Gender::Female);
        v
    }

    /// The label shown for the gender.
    pub fn label(&self) -> (r: &'static str)
        ensures
            r@ == gender_label(*self),
    {
        match self {
            Gender::Male => "男性",
            Gender::Female => "女性",
        }
    }

    /// The name under which the gender is stored.
    pub fn into_string(self) -> (r: String)
        ensures
            r@ == gender_name(self),
    {
        match self {
            Gender::Male => String::from_str("Male"),
            Gender::Female => String::from_str("Female"),
        }
    }

    /// Reads a gender from its label or its name.
    pub fn try_from_string(value: String) -> (r: Result<Gender, String>)
        ensures
            match r {
                Ok(g) => gender_parse(value@) == Ok::<Gender, Seq<char>>(g),
                Err(e) => gender_parse(value@) == Err::<Gender, Seq<char>>(e@),
            },
    {
        let s = value.as_str();
        if str_equal(s, "男性") || str_equal(s, "Male") {
            Ok(Gender::Male)
        } else if str_equal(s, "女性") || str_equal(s, "Female") {
            Ok(Gender::Female)
        } else {
            Err(String::from_str("error: VariantNotFound"))
        }
    }
}

/// A gender's label, and its stored name, each read back give the gender.
pub proof fn lemma_gender_roundtrip(g: Gender)
    ensures
        gender_parse(gender_label(g)) == Ok::<Gender, Seq<char>>(g),
        gender_parse(gender_name(g)) == Ok::<Gender, Seq<char>>(g),
{
    reveal_strlit("男性");
    reveal_strlit("女性");
    reveal_strlit("Male");
    reveal_strlit("Female");
    assert("女性"@[0] != "男性"@[0]);
    assert("女性"@ != "男性"@);
    assert("女性"@.len() != "Male"@.len());
    assert("Female"@.len() != "男性"@.len());
    assert("Female"@.len() != "Male"@.len());
    assert("Female"@ != "Male"@);
}

} // verus!
