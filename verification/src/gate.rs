//! Request gate: the per-request verification that admits or rejects an API
//! call.
//!
//! The presented token is decoded expecting kind `access`; on success the
//! referenced account is resolved, and must still exist and not be
//! soft-deleted — a valid signature alone is not sufficient, so that a deleted
//! account's previously issued tokens stop working before their nominal
//! expiry. Authorization performs exactly one read of the store and never
//! mutates it.

use vstd::prelude::*;

verus! {

use crate::store::{account_in, id_taken, AccountRecord, AuthStore};
use crate::token::{decode_jwt_with_type, token_of, Claims, TokenError, TokenType};

/// Why a request was rejected. Every reason is reported as the same
/// unauthorized outcome.
#[derive(Debug, Clone, Copy, PartialEq, Eq, Structural)]
pub enum GateError {
    Unauthorized,
}

/// The identity attached to the request context for downstream handlers.
#[derive(Debug)]
pub struct Identity {
    pub user_id: String,
    pub claims: Claims,
}

/// With unique account ids, any account carrying this id is the one found.
proof fn lemma_unique_id_account(accs: Seq<AccountRecord>, a: AccountRecord, id: Seq<char>)
    requires
        forall|x: int, y: int|
            0 <= x < y < accs.len() ==> (#[trigger] accs[x]).id@ != (#[trigger] accs[y]).id@,
        account_in(accs, a),
        a.id@ == id,
    ensures
        forall|i: int| 0 <= i < accs.len() && (#[trigger] accs[i]).id@ == id ==> accs[i] == a,
{
    let j = choose|j: int| 0 <= j < accs.len() && #[trigger] accs[j] == a;
    assert forall|i: int|
        0 <= i < accs.len() && (#[trigger] accs[i]).id@ == id implies accs[i] == a by {
        if i < j {
            assert(accs[i].id@ != accs[j].id@);
        } else if j < i {
            assert(accs[j].id@ != accs[i].id@);
        }
    }
}

/// Authorize a request: decode the token expecting kind `access`, then admit
/// only if the referenced account still exists and is not soft-deleted.
pub fn authorize(store: &AuthStore, token: &str, jwt_secret: &str) -> (r: Result<
    Identity,
    GateError,
>)
    requires
        store.wf(),
    ensures
        r matches Err(e) ==> e == GateError::Unauthorized,
        r matches Ok(ident) ==> exists|a: AccountRecord|
            {
                &&& account_in(store.accounts_model(), a)
                &&& a.id@ == ident.user_id@
                &&& !a.is_deleted
            },
        forall|sub: Seq<char>, iat: int, exp: int, kind: Seq<char>, jti: Seq<char>|
            token@ == #[trigger] token_of(sub, iat, exp, kind, jti, jwt_secret@) ==> {
                &&& (kind != TokenType::Access.spec_str() ==> r is Err)
                &&& (!id_taken(store.accounts_model(), sub) ==> r is Err)
                &&& (forall|i: int|
                    0 <= i < store.accounts_model().len() && (#[trigger] store.accounts_model()[i]).id@
                        == sub && store.accounts_model()[i].is_deleted ==> r is Err)
                &&& (r matches Ok(ident) ==> ident.user_id@ == sub && ident.claims.sub@ == sub)
            },
{
    let claims = match decode_jwt_with_type(token, jwt_secret, TokenType::Access) {
        Ok(c) => c,
        Err(_) => {
            return Err(GateError::Unauthorized);
        },
    };
    let user = match store.find_user_by_id(claims.sub.as_str()) {
        Some(u) => u,
        None => {
            return Err(GateError::Unauthorized);
        },
    };
    proof {
        lemma_unique_id_account(store.accounts_model(), user, claims.sub@);
    }
    if user.is_deleted {
        return Err(GateError::Unauthorized);
    }
    Ok(Identity { user_id: user.id, claims })
}

} // verus!
