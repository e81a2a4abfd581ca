use crate::errors::{error_text, kind_name, AppError, Kind};
use crate::text::{nat_digits, nat_to_string};
use vstd::prelude::*;

verus! {

/// Where in the source an error was raised.
pub struct ErrorLocation {
    pub file: String,
    pub line: u32,
    pub column: u32,
}

/// How serious an error is reported to be.
#[derive(Debug, Clone, Copy, PartialEq, Eq, Structural)]
pub enum Level {
    Error,
    Warning,
    Info,
}

/// Internal errors are errors; not-found is information; every other kind is
/// a warning.
pub open spec fn level_of(kind: Kind) -> Level {
    match kind {
        Kind::Internal => Level::Error,
        Kind::NotFound => Level::Info,
        _ => Level::Warning,
    }
}

/// The level of a report, kind by kind: an internal error is an error, a
/// missing thing is information, and a bad request, a missing or refused
/// authorisation and a duplicate are warnings.
pub proof fn lemma_level_table(kind: Kind)
    ensures
        kind is Internal ==> level_of(kind) == Level::Error,
        kind is NotFound ==> level_of(kind) == Level::Info,
        kind is BadRequest ==> level_of(kind) == Level::Warning,
        kind is Unauthorized ==> level_of(kind) == Level::Warning,
        kind is Forbidden ==> level_of(kind) == Level::Warning,
        kind is Duplicate ==> level_of(kind) == Level::Warning,
{
}

/// A value attached to a report.
pub enum ExtraValue {
    Text(String),
    Number(i64),
}

/// What is reported of an error to the error tracker.
pub struct ErrorEvent {
    pub level: Level,
    pub exception_type: String,
    pub exception_value: String,
    pub message: String,
    pub tags: Vec<(String, String)>,
    pub extra: Vec<(String, ExtraValue)>,
}

/// `file:line:column`.
pub open spec fn location_text(file: Seq<char>, line: nat, column: nat) -> Seq<char> {
    file + ":"@ + nat_digits(line) + ":"@ + nat_digits(column)
}

/// `[location] Kind: text`.
pub open spec fn event_message(location: Seq<char>, kind: Kind, text: Seq<char>) -> Seq<char> {
    "["@ + location + "] "@ + kind_name(kind) + ": "@ + text
}

pub open spec fn pairs_view(v: Seq<(String, String)>) -> Seq<(Seq<char>, Seq<char>)> {
    v.map_values(|p: (String, String)| (p.0@, p.1@))
}

/// A report's extra value, as plain content: text or a number.
pub open spec fn extra_view(v: ExtraValue) -> Result<Seq<char>, int> {
    match v {
        ExtraValue::Text(s) => Ok(s@),
        ExtraValue::Number(n) => Err(n as int),
    }
}

pub open spec fn extras_view(v: Seq<(String, ExtraValue)>) -> Seq<(Seq<char>, Result<Seq<char>, int>)> {
    v.map_values(|p: (String, ExtraValue)| (p.0@, extra_view(p.1)))
}

/// The extras of a report: location, file, line, column, then the error's
/// message and the text of its cause where it has them.
pub open spec fn event_extras(err: crate::errors::ErrorView, file: Seq<char>, line: nat, column: nat) -> Seq<
    (Seq<char>, Result<Seq<char>, int>),
> {
    let base = seq![
        ("location"@, Ok::<Seq<char>, int>(location_text(file, line, column))),
        ("file"@, Ok::<Seq<char>, int>(file)),
        ("line"@, Err::<Seq<char>, int>(line as int)),
        ("column"@, Err::<Seq<char>, int>(column as int)),
    ];
    let with_msg = match err.msg {
        Some(m) => base.push(("error.message"@, Ok::<Seq<char>, int>(m))),
        None => base,
    };
    match err.src {
        Some(s) => with_msg.push(("error.source"@, Ok::<Seq<char>, int>(s))),
        None => with_msg,
    }
}

fn location_string(loc: &ErrorLocation) -> (r: String)
    ensures
        r@ == location_text(loc.file@, loc.line as nat, loc.column as nat),
{
    let s = loc.file.clone();
    let s = s.concat(":");
    let s = s.concat(nat_to_string(loc.line as u64).as_str());
    let s = s.concat(":");
    s.concat(nat_to_string(loc.column as u64).as_str())
}

/// The report of an error raised at `location`; nothing is reported when
/// running locally.
pub fn error_event(err: &AppError, location: &ErrorLocation, is_local: bool) -> (r: Option<
    ErrorEvent,
>)
    ensures
        is_local ==> r is None,
        !is_local ==> (r matches Some(ev) && {
            let loc = location_text(location.file@, location.line as nat, location.column as nat);
            &&& ev.level == level_of(err.kind)
            &&& (err.kind is Internal ==> ev.level == Level::Error)
            &&& (err.kind is NotFound ==> ev.level == Level::Info)
            &&& (err.kind is BadRequest || err.kind is Unauthorized || err.kind is Forbidden
                || err.kind is Duplicate ==> ev.level == Level::Warning)
            &&& ev.exception_type@ == kind_name(err.kind)
            &&& ev.exception_value@ == error_text(err@)
            &&& ev.message@ == event_message(loc, err.kind, error_text(err@))
            &&& pairs_view(ev.tags@) == seq![
                ("error.kind"@, kind_name(err.kind)),
                ("error.file"@, location.file@),
                ("error.line"@, nat_digits(location.line as nat)),
            ]
            &&& extras_view(ev.extra@) == event_extras(
                err@,
                location.file@,
                location.line as nat,
                location.column as nat,
            )
        }),
{
    if is_local {
        return None;
    }
    let level = match err.kind {
        Kind::Internal => Level::Error,
        Kind::NotFound => Level::Info,
        _ => Level::Warning,
    };
    let loc = location_string(location);
    let text = err.text();
    let kind = err.kind.name();
    let message = String::from_str("[");
    let message = message.concat(loc.as_str());
    let message = message.concat("] ");
    let message = message.concat(kind);
    let message = message.concat(": ");
    let message = message.concat(text.as_str());
    let mut tags: Vec<(String, String)> = Vec::new();
    tags.push((String::from_str("error.kind"), String::from_str(kind)));
    tags.push((String::from_str("error.file"), location.file.clone()));
    tags.push((String::from_str("error.line"), nat_to_string(location.line as u64)));
    let mut extra: Vec<(String, ExtraValue)> = Vec::new();
    extra.push((String::from_str("location"), ExtraValue::Text(loc)));
    extra.push((String::from_str("file"), ExtraValue::Text(location.file.clone())));
    extra.push((String::from_str("line"), ExtraValue::Number(location.line as i64)));
    extra.push((String::from_str("column"), ExtraValue::Number(location.column as i64)));
    match &err.msg {
        Some(m) => {
            extra.push((String::from_str("error.message"), ExtraValue::Text(m.clone())));
        },
        None => {},
    }
    match &err.src {
        Some(s) => {
            extra.push((String::from_str("error.source"), ExtraValue::Text(s.clone())));
        },
        None => {},
    }
    let ev = ErrorEvent {
        level,
        exception_type: String::from_str(kind),
        exception_value: text,
        message,
        tags,
        extra,
    };
    proof {
        assert(pairs_view(ev.tags@) =~= seq![
            ("error.kind"@, kind_name(err.kind)),
            ("error.file"@, location.file@),
            ("error.line"@, nat_digits(location.line as nat)),
        ]);
        assert(extras_view(ev.extra@) =~= event_extras(
            err@,
            location.file@,
            location.line as nat,
            location.column as nat,
        ));
    }
    Some(ev)
}

} // verus!
