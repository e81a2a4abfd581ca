use crate::domain::user;
use crate::errors::{opt_view, AppError};
use vstd::prelude::*;

verus! {

/// What the authentication service knows of a user.
#[derive(Debug)]
pub struct UserPrincipal {
    pub uid: Option<String>,
    pub email: Option<String>,
    pub provider_ids: Vec<String>,
    pub last_login_at: Option<i64>,
}

pub open spec fn strings_view(v: Seq<String>) -> Seq<Seq<char>> {
    v.map_values(|s: String| s@)
}

/// The plain content of a principal.
pub struct PrincipalView {
    pub uid: Option<Seq<char>>,
    pub email: Option<Seq<char>>,
    pub provider_ids: Seq<Seq<char>>,
    pub last_login_at: Option<i64>,
}

impl View for UserPrincipal {
    type V = PrincipalView;

    open spec fn view(&self) -> PrincipalView {
        PrincipalView {
            uid: opt_view(self.uid),
            email: opt_view(self.email),
            provider_ids: strings_view(self.provider_ids@),
            last_login_at: self.last_login_at,
        }
    }
}

impl UserPrincipal {
    /// Whether the principal carries a user identifier.
    pub fn has_any_id(&self) -> (r: bool)
        ensures
            r == self.uid.is_some(),
    {
        self.uid.is_some()
    }

    /// The user identifier that the principal carries, if any.
    pub fn user_id(&self) -> (r: Option<user::Id>)
        ensures
            r.is_some() == self.uid.is_some(),
            r matches Some(id) ==> id@ == self.uid->0@,
    {
        match &self.uid {
            Some(v) => Some(user::Id::from_str(v.as_str())),
            None => None,
        }
    }
}

/// Where errors are reported, such as an error tracker.
pub trait ErrorNotifier {
    fn send(&self, err: AppError);
}

/// The error notifier of a process: set once, after which the first one set
/// stays.
pub struct NotifierSlot<N> {
    notifier: Option<N>,
}

impl<N> NotifierSlot<N> {
    /// A slot with no notifier.
    pub fn new() -> (r: NotifierSlot<N>)
        ensures
            r.spec_notifier() is None,
    {
        NotifierSlot { notifier: None }
    }

    pub closed spec fn spec_notifier(&self) -> Option<N> {
        self.notifier
    }

    /// The notifier, if one was set.
    pub fn get(&self) -> (r: Option<&N>)
        ensures
            match self.spec_notifier() {
                Some(n) => r == Some(&n),
                None => r is None,
            },
    {
        match &self.notifier {
            Some(n) => Some(n),
            None => None,
        }
    }
}

/// The notifier after setting `notifier` where `current` was set.
pub open spec fn after_set<N>(current: Option<N>, notifier: N) -> Option<N> {
    match current {
        Some(n) => Some(n),
        None => Some(notifier),
    }
}

/// Sets the notifier unless one is set already, in which case the call
/// changes nothing.
pub fn set_global_error_notifier<N>(slot: &mut NotifierSlot<N>, notifier: N)
    ensures
        final(slot).spec_notifier() == after_set(old(slot).spec_notifier(), notifier),
{
    if slot.notifier.is_none() {
        slot.notifier = Some(notifier);
    }
}

/// Sends a copy of `err` to the notifier, if one is set; does nothing
/// otherwise.
pub fn notify_error<N: ErrorNotifier>(slot: &NotifierSlot<N>, err: &AppError) {
    match slot.get() {
        Some(n) => n.send(err.duplicate()),
        None => {},
    }
}

/// Once a notifier is set, setting another keeps the first: the first set
/// on an empty slot is the one that stays, whatever is set after it.
pub proof fn lemma_first_notifier_stays<N>(first: N, second: N)
    ensures
        after_set(after_set(None, first), second) == Some(first),
        forall|n: N| after_set(Some(n), second) == Some(n),
{
}

} // verus!
