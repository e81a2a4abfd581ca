use crate::errors::{AppError, ErrorView, Kind};
use vstd::prelude::*;

verus! {

/// How sending a mail failed, as the mail service reports it: an error of
/// the service, written out, with the message it carries if any; or any other
/// failure, written out.
pub enum SesFailure {
    Service { detail: String, message: Option<String> },
    Other { detail: String },
}

/// The text an unsent mail is reported with.
pub open spec fn ses_failure_text(f: SesFailure) -> Seq<char> {
    match f {
        SesFailure::Service { detail, message } => "SES ServiceError: "@ + detail@ + " - "@
            + match message {
            Some(m) => m@,
            None => "unknown"@,
        },
        SesFailure::Other { detail } => "SES Error: "@ + detail@,
    }
}

/// An unsent mail is an internal error with the text of the failure.
pub fn ses_error(f: SesFailure) -> (r: AppError)
    ensures
        r@ == (ErrorView { kind: Kind::Internal, msg: Some(ses_failure_text(f)), src: None }),
{
    let text = match f {
        SesFailure::Service { detail, message } => {
            let s = String::from_str("SES ServiceError: ");
            let s = s.concat(detail.as_str());
            let s = s.concat(" - ");
            match message {
                Some(m) => s.concat(m.as_str()),
                None => s.concat("unknown"),
            }
        },
        SesFailure::Other { detail } => {
            let s = String::from_str("SES Error: ");
            s.concat(detail.as_str())
        },
    };
    Kind::Internal.with(text)
}

/// A piece of mail content could not be built: an internal error with the
/// builder's text.
pub fn build_error(text: String) -> (r: AppError)
    ensures
        r@ == (ErrorView { kind: Kind::Internal, msg: Some(text@), src: None }),
{
    Kind::Internal.with(text)
}

} // verus!
