use crate::adapter::{strings_view, PrincipalView, UserPrincipal};
use crate::domain::user;
use crate::errors::{opt_view, AppError, AppResult, ErrorView, Kind};
use vstd::prelude::*;

verus! {

/// Stands in for the authentication service where none is configured: every
/// non-empty token is the identifier of its user.
#[derive(Debug, Clone, Copy)]
pub struct MockAdapter;

impl MockAdapter {
    pub fn new() -> (r: MockAdapter) {
        MockAdapter
    }

    /// The identifier of the user a token names: the token itself, when it is
    /// not empty.
    pub fn verify(&self, token: &str) -> (r: AppResult<user::Id>)
        ensures
            match r {
                Ok(id) => token@.len() > 0 && id@ == token@,
                Err(e) => token@.len() == 0 && e@ == (ErrorView {
                    kind: Kind::BadRequest,
                    msg: Some("token is empty"@),
                    src: None,
                }),
            },
    {
        if token.unicode_len() == 0 {
            return Err(Kind::BadRequest.with(String::from_str("token is empty")));
        }
        Ok(user::Id::from_str(token))
    }

    /// Deleting a user always succeeds.
    pub fn delete(&self, _user_id: &user::Id) -> (r: AppResult<()>)
        ensures
            r is Ok,
    {
        Ok(())
    }
}

impl Default for MockAdapter {
    fn default() -> (r: MockAdapter) {
        MockAdapter::new()
    }
}

/// A provider linked to an account, as the identity toolkit reports it.
pub struct ProviderUserInfo {
    pub provider_id: Option<String>,
}

/// An account, as the identity toolkit's `getAccountInfo` reports it.
pub struct AccountInfo {
    pub local_id: Option<String>,
    pub email: Option<String>,
    pub provider_user_info: Option<Vec<ProviderUserInfo>>,
    pub last_login_at: Option<i64>,
}

/// The identifiers of the providers that have one, in order.
pub open spec fn provider_ids_of(infos: Seq<ProviderUserInfo>) -> Seq<Seq<char>>
    decreases infos.len(),
{
    if infos.len() == 0 {
        Seq::empty()
    } else {
        let rest = provider_ids_of(infos.drop_last());
        match infos.last().provider_id {
            Some(p) => rest.push(p@),
            None => rest,
        }
    }
}

/// The principal for the first account of an answer.
pub open spec fn principal_of(a: AccountInfo) -> PrincipalView {
    PrincipalView {
        uid: opt_view(a.local_id),
        email: opt_view(a.email),
        provider_ids: match a.provider_user_info {
            Some(v) => provider_ids_of(v@),
            None => Seq::empty(),
        },
        last_login_at: a.last_login_at,
    }
}

/// The provider identifiers of a list in which every provider has one are
/// those identifiers, in order; a provider without one adds nothing.
pub proof fn lemma_provider_ids_named(infos: Seq<ProviderUserInfo>)
    ensures
        (forall|i: int| 0 <= i < infos.len() ==> (#[trigger] infos[i]).provider_id is Some) ==> provider_ids_of(infos)
            == infos.map_values(|p: ProviderUserInfo| p.provider_id->0@),
        (forall|i: int| 0 <= i < infos.len() ==> (#[trigger] infos[i]).provider_id is None) ==> provider_ids_of(infos)
            == Seq::<Seq<char>>::empty(),
    decreases infos.len(),
{
    if infos.len() > 0 {
        let init = infos.drop_last();
        lemma_provider_ids_named(init);
        if forall|i: int| 0 <= i < infos.len() ==> (#[trigger] infos[i]).provider_id is Some {
            assert forall|i: int| 0 <= i < init.len() implies (#[trigger] init[i]).provider_id is Some by {
                assert(init[i] == infos[i]);
            }
            assert(infos.last() == infos[infos.len() - 1]);
            assert(infos.map_values(|p: ProviderUserInfo| p.provider_id->0@) =~= init.map_values(
                |p: ProviderUserInfo| p.provider_id->0@,
            ).push(infos.last().provider_id->0@));
        }
        if forall|i: int| 0 <= i < infos.len() ==> (#[trigger] infos[i]).provider_id is None {
            assert forall|i: int| 0 <= i < init.len() implies (#[trigger] init[i]).provider_id is None by {
                assert(init[i] == infos[i]);
            }
            assert(infos.last() == infos[infos.len() - 1]);
        }
    }
}

fn provider_ids(infos: &Vec<ProviderUserInfo>) -> (r: Vec<String>)
    ensures
        strings_view(r@) == provider_ids_of(infos@),
{
    let mut out: Vec<String> = Vec::new();
    let mut i: usize = 0;
    while i < infos.len()
        invariant
            i <= infos@.len(),
            strings_view(out@) == provider_ids_of(infos@.take(i as int)),
        decreases infos@.len() - i,
    {
        proof {
            assert(infos@.take(i + 1).drop_last() =~= infos@.take(i as int));
            assert(infos@.take(i + 1).last() == infos@[i as int]);
        }
        match &infos[i].provider_id {
            Some(p) => {
                out.push(p.clone());
                proof {
                    assert(strings_view(out@) =~= provider_ids_of(infos@.take(i as int)).push(p@));
                }
            },
            None => {},
        }
        i = i + 1;
    }
    proof {
        assert(infos@.take(infos@.len() as int) =~= infos@);
    }
    out
}

/// What the identity toolkit's answer says of a user: no accounts, or none at
/// all, is `user not found`; otherwise the first account's identifier, e-mail,
/// provider identifiers and last login. (The first account must carry an
/// identifier; the toolkit's own client panics otherwise.)
pub fn principal_from_accounts(users: Option<Vec<AccountInfo>>) -> (r: AppResult<UserPrincipal>)
    requires
        users matches Some(v) ==> (v@.len() > 0 ==> v@[0].local_id is Some),
    ensures
        users is Some && users->0@.len() > 0 ==> (r matches Ok(p) && p@ == principal_of(
            users->0@[0],
        )),
        r matches Ok(p) ==> users is Some && users->0@.len() > 0 && {
            let a = users->0@[0];
            &&& opt_view(p.uid) == opt_view(a.local_id)
            &&& opt_view(p.email) == opt_view(a.email)
            &&& p.last_login_at == a.last_login_at
            &&& (a.provider_user_info is None ==> p.provider_ids@.len() == 0)
            &&& (a.provider_user_info matches Some(v) ==> strings_view(p.provider_ids@) == provider_ids_of(v@))
        },
        !(users is Some && users->0@.len() > 0) ==> (r matches Err(e) && e@ == (ErrorView {
            kind: Kind::NotFound,
            msg: Some("user not found"@),
            src: None,
        })),
{
    match users {
        Some(users) => {
            if users.len() == 0 {
                return Err(Kind::NotFound.with(String::from_str("user not found")));
            }
            let user = &users[0];
            let uid = match &user.local_id {
                Some(id) => id.clone(),
                None => vstd::pervasive::unreached(),
            };
            let email = crate::errors::clone_opt_string(&user.email);
            let ids = match &user.provider_user_info {
                Some(v) => provider_ids(v),
                None => Vec::new(),
            };
            let p = UserPrincipal {
                uid: Some(uid),
                email,
                provider_ids: ids,
                last_login_at: user.last_login_at,
            };
            assert(p@.uid == principal_of(users@[0]).uid);
            assert(p@.email == principal_of(users@[0]).email);
            assert(p@.provider_ids == principal_of(users@[0]).provider_ids);
            assert(p@.last_login_at == principal_of(users@[0]).last_login_at);
            Ok(p)
        },
        None => Err(Kind::NotFound.with(String::from_str("user not found"))),
    }
}

/// A failed account deletion: a bad request from the toolkit means there is no
/// such user; anything else is an internal error with its text.
pub fn delete_account_error(is_bad_request: bool, text: String) -> (r: AppError)
    ensures
        is_bad_request ==> r@ == (ErrorView { kind: Kind::NotFound, msg: None, src: None }),
        !is_bad_request ==> r@ == (ErrorView { kind: Kind::Internal, msg: None, src: Some(text@) }),
{
    if is_bad_request {
        Kind::NotFound.default()
    } else {
        Kind::Internal.from_src(text)
    }
}

} // verus!
