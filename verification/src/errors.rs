use vstd::prelude::*;

verus! {

/// What went wrong, as callers of the library classify it.
#[derive(Debug, Clone, Copy, PartialEq, Eq, Structural)]
pub enum Kind {
    BadRequest,
    Unauthorized,
    Forbidden,
    NotFound,
    Duplicate,
    Internal,
}

/// The name of a kind, as it is shown to people and to the error tracker.
pub open spec fn kind_name(kind: Kind) -> Seq<char> {
    match kind {
        Kind::BadRequest => "BadRequest"@,
        Kind::Unauthorized => "Unauthorized"@,
        Kind::Forbidden => "Forbidden"@,
        Kind::NotFound => "NotFound"@,
        Kind::Duplicate => "Duplicate"@,
        Kind::Internal => "Internal"@,
    }
}

/// An error of the application: its kind, an optional message written by the
/// code that raised it, and the text of the lower-level error that caused it.
#[derive(Debug)]
pub struct AppError {
    pub kind: Kind,
    pub msg: Option<String>,
    pub src: Option<String>,
}

pub type AppResult<T> = Result<T, AppError>;

pub open spec fn opt_view(o: Option<String>) -> Option<Seq<char>> {
    match o {
        Some(s) => Some(s@),
        None => None,
    }
}

/// The plain content of an error, in which two errors are compared.
pub struct ErrorView {
    pub kind: Kind,
    pub msg: Option<Seq<char>>,
    pub src: Option<Seq<char>>,
}

impl View for AppError {
    type V = ErrorView;

    open spec fn view(&self) -> ErrorView {
        ErrorView { kind: self.kind, msg: opt_view(self.msg), src: opt_view(self.src) }
    }
}

pub fn clone_opt_string(o: &Option<String>) -> (r: Option<String>)
    ensures
        opt_view(r) == opt_view(*o),
{
    match o {
        Some(s) => Some(s.clone()),
        None => None,
    }
}

impl Kind {
    pub fn name(&self) -> (r: &'static str)
        ensures
            r@ == kind_name(*self),
    {
        match self {
            Kind::BadRequest => {
                proof { reveal_strlit("BadRequest"); }
                "BadRequest"
            },
            Kind::Unauthorized => {
                proof { reveal_strlit("Unauthorized"); }
                "Unauthorized"
            },
            Kind::Forbidden => {
                proof { reveal_strlit("Forbidden"); }
                "Forbidden"
            },
            Kind::NotFound => {
                proof { reveal_strlit("NotFound"); }
                "NotFound"
            },
            Kind::Duplicate => {
                proof { reveal_strlit("Duplicate"); }
                "Duplicate"
            },
            Kind::Internal => {
                proof { reveal_strlit("Internal"); }
                "Internal"
            },
        }
    }

    /// An error of this kind with a message.
    pub fn with(self, msg: String) -> (e: AppError)
        ensures
            e@ == (ErrorView { kind: self, msg: Some(msg@), src: None }),
    {
        AppError { kind: self, msg: Some(msg), src: None }
    }

    /// An error of this kind caused by a lower-level error, given by its text.
    pub fn from_src(self, src: String) -> (e: AppError)
        ensures
            e@ == (ErrorView { kind: self, msg: None, src: Some(src@) }),
    {
        AppError { kind: self, msg: None, src: Some(src) }
    }

    /// An error of this kind with neither message nor cause.
    pub fn into_err(self) -> (e: AppError)
        ensures
            e@ == (ErrorView { kind: self, msg: None, src: None }),
    {
        AppError { kind: self, msg: None, src: None }
    }

    /// The same as `into_err`.
    pub fn default(self) -> (e: AppError)
        ensures
            e@ == (ErrorView { kind: self, msg: None, src: None }),
    {
        self.into_err()
    }
}

/// The text that describes an error: its message, else the text of its cause,
/// else the name of its kind.
pub open spec fn error_text(e: ErrorView) -> Seq<char> {
    match e.msg {
        Some(m) => m,
        None => match e.src {
            Some(s) => s,
            None => kind_name(e.kind),
        },
    }
}

impl AppError {
    /// The same error with the text of a lower-level cause attached.
    pub fn with_src(self, src: String) -> (e: AppError)
        ensures
            e@ == (ErrorView { kind: self@.kind, msg: self@.msg, src: Some(src@) }),
    {
        AppError { kind: self.kind, msg: self.msg, src: Some(src) }
    }

    pub fn duplicate(&self) -> (e: AppError)
        ensures
            e@ == self@,
    {
        AppError { kind: self.kind, msg: clone_opt_string(&self.msg), src: clone_opt_string(&self.src) }
    }

    /// The text that describes this error (see `error_text`).
    pub fn text(&self) -> (r: String)
        ensures
            r@ == error_text(self@),
    {
        match &self.msg {
            Some(m) => m.clone(),
            None => match &self.src {
                Some(s) => s.clone(),
                None => String::from_str(self.kind.name()),
            },
        }
    }
}

/// Turns a `NotFound` error into an absent value; keeps every other outcome.
pub fn not_found_to_none<T>(r: AppResult<T>) -> (out: AppResult<Option<T>>)
    ensures
        match r {
            Ok(v) => out == Ok::<Option<T>, AppError>(Some(v)),
            Err(e) => if e.kind == Kind::NotFound {
                out == Ok::<Option<T>, AppError>(None)
            } else {
                out == Err::<Option<T>, AppError>(e)
            },
        },
{
    match r {
        Ok(v) => Ok(Some(v)),
        Err(e) => {
            if e.kind == Kind::NotFound {
                Ok(None)
            } else {
                Err(e)
            }
        },
    }
}

} // verus!
