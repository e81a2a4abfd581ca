use crate::domain::types::time::{
    chrono_calendar_date, chrono_num_seconds_between, date_text, date_slash_of,
    now, seconds_since, LocalDateTime,
};
use crate::text::{nat_digits, nat_to_string};
use vstd::prelude::*;

verus! {

/// How long ago something happened, in words: "just now" under a minute, then
/// whole minutes under an hour, whole hours under a day, else the date
/// (`YYYY/MM/DD`).
pub open spec fn elapsed_text(seconds: int, date: Seq<char>) -> Seq<char> {
    if seconds < 60 {
        "たった今"@
    } else if seconds / 60 < 60 {
        nat_digits((seconds / 60) as nat) + "分前"@
    } else if seconds / 3600 < 24 {
        nat_digits((seconds / 3600) as nat) + "時間前"@
    } else {
        date
    }
}

/// How long before `now` the instant `date` lies, in words (see `elapsed_text`).
pub fn duration_date_string_at(now: &LocalDateTime, date: &LocalDateTime) -> (r: String)
    ensures
        r@ == elapsed_text(
            chrono_num_seconds_between(now@, date@),
            date_text(chrono_calendar_date(date@.0, date@.2), '/'),
        ),
{
    let secs = seconds_since(now, date);
    if secs < 60 {
        String::from_str("たった今")
    } else if secs / 60 < 60 {
        let m = nat_to_string((secs / 60) as u64);
        m.concat("分前")
    } else if secs / 3600 < 24 {
        let h = nat_to_string((secs / 3600) as u64);
        h.concat("時間前")
    } else {
        date_slash_of(date)
    }
}

/// How long before the current time the instant `date` lies, in words.
pub fn duration_date_string(date: &LocalDateTime) -> (r: String)
    ensures
        exists|n: (int, int, int)|
            r@ == elapsed_text(
                #[trigger] chrono_num_seconds_between(n, date@),
                date_text(chrono_calendar_date(date@.0, date@.2), '/'),
            ),
{
    let n = now();
    duration_date_string_at(&n, date)
}

} // verus!
