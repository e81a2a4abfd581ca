use crate::domain::types::time::{
    chrono_parse_rfc3339, chrono_parse_ymd, chrono_rfc3339_text, date_text, no_single_local_time,
    offset_valid, LocalDateTime,
    ParseFromRfc3339, ToRfc3339,
};
use crate::domain::types::time;
use crate::domain::user::{gender_label, Gender};
use vstd::prelude::*;
use vstd::std_specs::convert::FromSpecImpl;

verus! {

/// The answer of an operation that only succeeds or not.
#[derive(Debug, Clone, Copy, PartialEq, Eq, Structural)]
pub struct BoolPayload {
    pub is_ok: bool,
}

impl From<bool> for BoolPayload {
    fn from(v: bool) -> (r: BoolPayload) {
        BoolPayload { is_ok: v }
    }
}

impl FromSpecImpl<bool> for BoolPayload {
    open spec fn obeys_from_spec() -> bool {
        true
    }

    open spec fn from_spec(v: bool) -> BoolPayload {
        BoolPayload { is_ok: v }
    }
}

/// A list of items, with their total count where it is known.
#[derive(Debug)]
pub struct ListPayload<T> {
    pub items: Vec<T>,
    pub total_count: Option<u64>,
}

impl<T> ListPayload<T> {
    /// The items, with no total count.
    pub fn from_items(items: Vec<T>) -> (r: ListPayload<T>)
        ensures
            r.items@ == items@,
            r.total_count is None,
    {
        ListPayload { items, total_count: None }
    }
}

/// One item.
#[derive(Debug)]
pub struct ItemPayload<T> {
    pub item: T,
}

impl<T> ItemPayload<T> {
    pub fn from_item(item: T) -> (r: ItemPayload<T>)
        ensures
            r.item == item,
    {
        ItemPayload { item }
    }
}

/// A calendar date as the API reads and writes it: `YYYY-MM-DD`.
#[derive(Debug)]
pub struct Date(pub time::Date);

impl Date {
    /// Reads a date; the error is chrono's message.
    pub fn parse(value: &str) -> (r: Result<Date, String>)
        ensures
            match r {
                Ok(d) => chrono_parse_ymd(value@) == Ok::<(int, int, int), Seq<char>>(d.0@),
                Err(e) => chrono_parse_ymd(value@) == Err::<(int, int, int), Seq<char>>(e@),
            },
    {
        match time::Date::parse_from_rfc3339(value) {
            Ok(d) => Ok(Date(d)),
            Err(e) => Err(e),
        }
    }

    /// Writes the date.
    pub fn to_value(&self) -> (r: String)
        ensures
            r@ == date_text(self.0@, '-'),
    {
        self.0.to_rfc3339()
    }
}

/// A point in time as the API reads and writes it: RFC 3339.
#[derive(Debug)]
pub struct DateTime(pub LocalDateTime);

impl DateTime {
    /// Reads a time as a local time of the machine (see
    /// `LocalDateTime::parse_from_rfc3339`); the error is chrono's message, or
    /// `no_single_local_time` for a wall-clock time with no single local time.
    pub fn parse(value: &str) -> (r: Result<DateTime, String>)
        ensures
            r matches Ok(t) ==> chrono_parse_rfc3339(value@) matches Ok(p) && t.0@.1 == p.1 && exists|
                o: int,
            | #[trigger] offset_valid(o) && t.0@.0 + t.0@.2 == p.0 + o,
            r matches Err(e) ==> match chrono_parse_rfc3339(value@) {
                Err(m) => e@ == m,
                Ok(_) => e@ == no_single_local_time(),
            },
    {
        match LocalDateTime::parse_from_rfc3339(value) {
            Ok(d) => Ok(DateTime(d)),
            Err(e) => Err(e),
        }
    }

    /// Writes the time.
    pub fn to_value(&self) -> (r: String)
        ensures
            r@ == chrono_rfc3339_text(self.0@),
    {
        self.0.to_rfc3339()
    }
}

/// A gender as the API shows it: the value and its label.
#[derive(Debug)]
pub struct GenderValue {
    value: Gender,
}

impl GenderValue {
    pub fn from_gender(value: Gender) -> (r: GenderValue)
        ensures
            r.spec_value() == value,
    {
        GenderValue { value }
    }

    pub closed spec fn spec_value(&self) -> Gender {
        self.value
    }

    pub fn value(&self) -> (r: Gender)
        ensures
            r == self.spec_value(),
    {
        self.value
    }

    /// The label of the gender, as people read it.
    pub fn label(&self) -> (r: String)
        ensures
            r@ == gender_label(self.spec_value()),
    {
        String::from_str(self.value.label())
    }
}

} // verus!
