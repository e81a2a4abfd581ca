pub mod row;

use crate::errors::{AppError, ErrorView, Kind};
use vstd::prelude::*;

verus! {

/// How a database statement failed.
pub enum DbFailure {
    /// An insert affected no row.
    RecordNotInserted,
    /// An update affected no row.
    RecordNotUpdated,
    /// A unique constraint refused the row.
    UniqueViolation,
    /// Anything else, by its text.
    Other(String),
}

/// The text a failure is reported with.
pub open spec fn failure_text(f: DbFailure) -> Seq<char> {
    match f {
        DbFailure::RecordNotInserted => "RecordNotInserted"@,
        DbFailure::RecordNotUpdated => "RecordNotUpdated"@,
        DbFailure::UniqueViolation => "UniqueConstraintViolation"@,
        DbFailure::Other(t) => t@,
    }
}

fn failure_into_text(f: DbFailure) -> (r: String)
    ensures
        r@ == failure_text(f),
{
    match f {
        DbFailure::RecordNotInserted => String::from_str("RecordNotInserted"),
        DbFailure::RecordNotUpdated => String::from_str("RecordNotUpdated"),
        DbFailure::UniqueViolation => String::from_str("UniqueConstraintViolation"),
        DbFailure::Other(t) => t,
    }
}

/// A failed insert: a unique violation is a duplicate, an insert of no row an
/// internal error `record not inserted`, anything else an internal error with
/// the failure's text.
pub fn map_insert_error(f: DbFailure) -> (r: AppError)
    ensures
        match f {
            DbFailure::UniqueViolation => r@ == (ErrorView { kind: Kind::Duplicate, msg: None, src: None }),
            DbFailure::RecordNotInserted => r@ == (ErrorView {
                kind: Kind::Internal,
                msg: Some("record not inserted"@),
                src: None,
            }),
            _ => r@ == (ErrorView { kind: Kind::Internal, msg: None, src: Some(failure_text(f)) }),
        },
{
    match f {
        DbFailure::UniqueViolation => Kind::Duplicate.default(),
        DbFailure::RecordNotInserted => Kind::Internal.with(String::from_str("record not inserted")),
        _ => Kind::Internal.from_src(failure_into_text(f)),
    }
}

/// A failed update: an update of no row means there is no such record;
/// anything else is an internal error with the failure's text.
pub fn map_update_error(f: DbFailure) -> (r: AppError)
    ensures
        match f {
            DbFailure::RecordNotUpdated => r@ == (ErrorView { kind: Kind::NotFound, msg: None, src: None }),
            _ => r@ == (ErrorView { kind: Kind::Internal, msg: None, src: Some(failure_text(f)) }),
        },
{
    match f {
        DbFailure::RecordNotUpdated => Kind::NotFound.default(),
        _ => Kind::Internal.from_src(failure_into_text(f)),
    }
}

} // verus!

verus! {

/// A database transaction that is committed or rolled back at most once;
/// one that is still held when the guard is given up is rolled back.
pub struct TransactionGuard<T> {
    inner: Option<T>,
}

impl<T> TransactionGuard<T> {
    /// A guard holding the transaction `tx`.
    pub fn new(tx: T) -> (r: TransactionGuard<T>)
        ensures
            r.spec_inner() == Some(tx),
    {
        TransactionGuard { inner: Some(tx) }
    }

    /// The transaction still held, if any.
    pub closed spec fn spec_inner(&self) -> Option<T> {
        self.inner
    }

    /// The transaction, to run statements in; the guard must still hold it.
    pub fn as_ref(&self) -> (r: &T)
        requires
            self.spec_inner() is Some,
        ensures
            *r == self.spec_inner()->0,
    {
        match &self.inner {
            Some(tx) => tx,
            None => vstd::pervasive::unreached(),
        }
    }

    /// Takes the transaction to commit or roll it back; the guard must still
    /// hold it, and holds nothing after.
    pub fn take_to_end(&mut self) -> (r: T)
        requires
            old(self).spec_inner() is Some,
        ensures
            r == old(self).spec_inner()->0,
            final(self).spec_inner() is None,
    {
        match self.inner.take() {
            Some(tx) => tx,
            None => vstd::pervasive::unreached(),
        }
    }

    /// What is to be rolled back when the guard is given up: the transaction
    /// if it was never ended. The guard holds nothing after.
    pub fn take_on_drop(&mut self) -> (r: Option<T>)
        ensures
            r == old(self).spec_inner(),
            final(self).spec_inner() is None,
    {
        self.inner.take()
    }
}

} // verus!
