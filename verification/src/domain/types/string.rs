use crate::text::{nat_digits, nat_to_string};
use vstd::prelude::*;

verus! {

/// Making a value from raw material without the checks that its usual
/// constructor makes.
pub trait FromUnchecked<T>: Sized {
    fn from_unchecked(value: T) -> Self;
}

/// Text whose length, in characters, lies within `[min, max]`.
pub open spec fn length_ok(s: Seq<char>, min: nat, max: nat) -> bool {
    min <= s.len() <= max
}

/// The message given for text of the wrong length: "`label` must have from
/// `min` to `max` characters".
pub open spec fn length_error(label: Seq<char>, min: nat, max: nat) -> Seq<char> {
    label + "は"@ + nat_digits(min) + "文字以上"@ + nat_digits(max) + "文字以下で入力してください"@
}

/// Keeps `value` when its length lies within `[min, max]`; otherwise gives the
/// message that says so.
pub fn check_length(value: String, label: &str, min: u64, max: u64) -> (r: Result<String, String>)
    ensures
        match r {
            Ok(v) => v@ == value@ && length_ok(value@, min as nat, max as nat),
            Err(e) => !length_ok(value@, min as nat, max as nat) && e@ == length_error(
                label@,
                min as nat,
                max as nat,
            ),
        },
{
    let len = value.as_str().unicode_len() as u64;
    if min <= len && len <= max {
        Ok(value)
    } else {
        let m = String::from_str(label);
        let m = m.concat("は");
        let m = m.concat(nat_to_string(min).as_str());
        let m = m.concat("文字以上");
        let m = m.concat(nat_to_string(max).as_str());
        Err(m.concat("文字以下で入力してください"))
    }
}

} // verus!
