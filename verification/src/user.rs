//! Current-user normalization.

use vstd::prelude::*;
use vstd::seq_lib::*;
use crate::fields::UserFields;
use crate::NormalizeError;

verus! {

/// ID used to represent a house / home; an opaque key, never parsed.
#[derive(Debug, Clone, PartialEq, Eq)]
pub struct HomeId(pub String);

/// User info for the currently authenticated user.
#[derive(Debug, Clone, PartialEq, Eq)]
pub struct User {
    /// Login name of the user.
    pub login: String,
    /// User id.
    pub user_id: String,
    /// (Legal) name of the user.
    pub name: String,
    /// Account types, as a list.
    pub account_type: Vec<String>,
    /// IDs of available homes.
    pub homes: Vec<HomeId>,
}

/// The element function of the home-id list: null elements are skipped,
/// present ids become keys.
pub open spec fn home_node_of(e: Option<String>) -> Option<HomeId> {
    match e {
        Some(id) => Some(HomeId(id)),
        None => None,
    }
}

/// The element function as a value, so that every statement about the list
/// model speaks of one function.
pub open spec fn home_id_fn() -> spec_fn(Option<String>) -> Option<HomeId> {
    |e: Option<String>| home_node_of(e)
}

/// The home-id list of a user: null elements skipped, order kept.
pub open spec fn home_ids_of(s: Seq<Option<String>>) -> Seq<HomeId> {
    s.filter_map(home_id_fn())
}

fn home_id_list(ids: Vec<Option<String>>) -> (r: Vec<HomeId>)
    ensures
        r@ == home_ids_of(ids@),
{
    let ghost orig = ids@;
    let mut rest = ids;
    let mut out: Vec<HomeId> = Vec::new();
    let ghost k: int = 0;
    while rest.len() != 0
        invariant
            0 <= k <= orig.len(),
            rest@ == orig.skip(k),
            out@ == home_ids_of(orig.take(k)),
        decreases rest@.len(),
    {
        let e = rest.remove(0);
        proof {
            assert(e == orig[k]);
            assert(rest@ =~= orig.skip(k + 1));
            orig.lemma_filter_map_take_succ(home_id_fn(), k);
        }
        match e {
            Some(id) => {
                out.push(HomeId(id));
                proof {
                    assert(out@ =~= home_ids_of(orig.take(k + 1)));
                }
            },
            None => {
                proof {
                    assert(out@ =~= home_ids_of(orig.take(k + 1)));
                }
            },
        }
        proof {
            k = k + 1;
        }
    }
    proof {
        assert(orig.take(k) =~= orig);
    }
    out
}

impl User {
    /// Normalize the current-user response.
    ///
    /// Login, user id and name are mandatory; the account-type list is taken
    /// as-is and null home ids are skipped.
    pub fn new(f: UserFields) -> (r: Result<User, NormalizeError>)
        ensures
            r is Ok <==> f.login is Some && f.user_id is Some && f.name is Some,
            r matches Err(e) ==> e == NormalizeError::MissingMandatoryField,
            r matches Ok(u) ==> u.login == f.login->0,
            r matches Ok(u) ==> u.user_id == f.user_id->0,
            r matches Ok(u) ==> u.name == f.name->0,
            r matches Ok(u) ==> u.account_type == f.account_type,
            r matches Ok(u) ==> u.homes@ == home_ids_of(f.homes@),
    {
        let UserFields { login, user_id, name, account_type, homes } = f;
        let login = match login {
            Some(l) => l,
            None => {
                return Err(NormalizeError::MissingMandatoryField);
            },
        };
        let user_id = match user_id {
            Some(i) => i,
            None => {
                return Err(NormalizeError::MissingMandatoryField);
            },
        };
        let name = match name {
            Some(n) => n,
            None => {
                return Err(NormalizeError::MissingMandatoryField);
            },
        };
        Ok(User { login, user_id, name, account_type, homes: home_id_list(homes) })
    }
}

} // verus!
