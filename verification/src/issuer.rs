//! Session issuer: orchestrates the password policy, the credential hasher,
//! the token codec and the refresh token ledger to implement register, login,
//! refresh and logout.
//!
//! Every failure leaves the store exactly as it was: no partial state is ever
//! visible. Unknown email and wrong password yield the same
//! `InvalidCredentials`; so do an absent, already-used, mismatched or expired
//! refresh token record, so that an attacker cannot distinguish the cases. A
//! structurally wrong token kind alone is reported as `InvalidTokenType`.

use vstd::prelude::*;

verus! {

use crate::digest::{hash_token, token_digest};
use crate::error::AuthError;
use crate::hasher::{hash_password, password_verifies, verify_password};
use crate::policy::{email_accepted, is_valid_email, password_strong, validate_password};
use crate::store::{
    account_in, email_taken, hash_taken, id_taken, spec_mark_used, token_hash_unused, token_in,
    used_monotonic, AccountRecord, AuthStore, TokenRecord,
};
use crate::strutil::str_eq;
use crate::token::{
    access_token_for, create_jwt, create_refresh_token, decode_jwt_with_type, new_uuid, now_ts,
    refresh_token_for, token_of, TokenError, TokenType, REFRESH_TOKEN_LIFETIME_SECS,
};

/// The value returned by every successful auth event: an access token, a
/// refresh token, and the account they were issued for.
pub type SessionTokens = (String, String, AccountRecord);

/// Both halves of the store are exactly as they were.
pub open spec fn store_unchanged(pre: AuthStore, post: AuthStore) -> bool {
    &&& post.accounts_model() == pre.accounts_model()
    &&& post.tokens_model() == pre.tokens_model()
}

/// A fresh refresh token record was appended for subject `sub`: unconsumed,
/// keyed by digest `d`, expiring one refresh lifetime after its creation.
pub open spec fn record_stored(
    pre_toks: Seq<TokenRecord>,
    post_toks: Seq<TokenRecord>,
    sub: Seq<char>,
    d: Seq<char>,
) -> bool {
    exists|rec: TokenRecord|
        {
            &&& post_toks == pre_toks.push(rec)
            &&& rec.user_id@ == sub
            &&& rec.token_hash@ == d
            &&& !rec.used
            &&& rec.expires_at == rec.created_at + REFRESH_TOKEN_LIFETIME_SECS
        }
}

/// What a successful registration did: the account was appended with the
/// given email and a hash that verifies the given password, and a fresh
/// access/refresh pair was issued for it, the refresh token recorded in the
/// ledger by its digest.
pub open spec fn register_success(
    pre: AuthStore,
    post: AuthStore,
    email: Seq<char>,
    password: Seq<char>,
    secret: Seq<char>,
    out: SessionTokens,
) -> bool {
    &&& email_accepted(email)
    &&& password_strong(password)
    &&& !email_taken(pre.accounts_model(), email)
    &&& out.2.email@ == email
    &&& out.2.is_active
    &&& !out.2.is_deleted
    &&& password_verifies(password, out.2.password_hash@)
    &&& post.accounts_model() == pre.accounts_model().push(out.2)
    &&& access_token_for(out.0@, out.2.id@, secret)
    &&& refresh_token_for(out.1@, out.2.id@, secret)
    &&& record_stored(pre.tokens_model(), post.tokens_model(), out.2.id@, token_digest(out.1@))
}

/// Register: validate the email shape and the password policy, reject an email
/// that already has an account, hash the password, create the account, and
/// issue and record a token pair. Every failure leaves the store unchanged.
pub fn register_user(
    store: &mut AuthStore,
    email: &str,
    password: &str,
    jwt_secret: &str,
) -> (r: Result<SessionTokens, AuthError>)
    requires
        old(store).wf(),
    ensures
        final(store).wf(),
        !email_accepted(email@) ==> (r matches Err(e) && e == AuthError::InvalidEmail),
        email_accepted(email@) && !password_strong(password@) ==> (r matches Err(e)
            && e is WeakPassword),
        email_accepted(email@) && password_strong(password@) && email_taken(
            old(store).accounts_model(),
            email@,
        ) ==> (r matches Err(e) && e == AuthError::EmailAlreadyExists),
        r matches Err(e) && e == AuthError::InvalidEmail ==> !email_accepted(email@),
        r matches Err(e) && e is WeakPassword ==> !password_strong(password@),
        r matches Err(e) && e == AuthError::EmailAlreadyExists ==> email_accepted(email@)
            && password_strong(password@) && email_taken(old(store).accounts_model(), email@),
        r is Err ==> store_unchanged(*old(store), *final(store)),
        used_monotonic(old(store).tokens_model(), final(store).tokens_model()),
        r matches Ok(out) ==> register_success(
            *old(store),
            *final(store),
            email@,
            password@,
            jwt_secret@,
            out,
        ),
{
    if !is_valid_email(email) {
        return Err(AuthError::InvalidEmail);
    }
    if let Err(e) = validate_password(password) {
        return Err(e);
    }
    if store.find_user_by_email(email).is_some() {
        return Err(AuthError::EmailAlreadyExists);
    }
    let hashed = match hash_password(password) {
        Ok(h) => h,
        Err(e) => {
            return Err(e);
        },
    };
    let user_id = new_uuid();
    if store.find_user_by_id(user_id.as_str()).is_some() {
        return Err(AuthError::DatabaseError(String::from_str("account id collision")));
    }
    let access = match create_jwt(user_id.as_str(), jwt_secret) {
        Ok(t) => t,
        Err(e) => {
            return Err(e);
        },
    };
    let refresh = match create_refresh_token(user_id.as_str(), jwt_secret) {
        Ok(t) => t,
        Err(e) => {
            return Err(e);
        },
    };
    let th = hash_token(refresh.as_str());
    if store.find_token_by_hash(th.as_str()).is_some() {
        return Err(AuthError::DatabaseError(String::from_str("token digest collision")));
    }
    let now = now_ts();
    if now < 0 || now > i64::MAX - REFRESH_TOKEN_LIFETIME_SECS as i64 {
        return Err(
            AuthError::TokenCreationError(String::from_str("Invalid timestamp calculation")),
        );
    }
    let expires_at = now + REFRESH_TOKEN_LIFETIME_SECS as i64;
    let user = match store.create_user(user_id, email.to_owned(), hashed, now) {
        Ok(u) => u,
        Err(_) => {
            return Err(AuthError::DatabaseError(String::from_str("account creation failed")));
        },
    };
    match store.create_token(new_uuid(), user.id.clone(), th, expires_at, now) {
        Ok(_) => {},
        Err(_) => {
            return Err(AuthError::DatabaseError(String::from_str("token storage failed")));
        },
    }
    Ok((access, refresh, user))
}

/// What a successful login did: the returned account was already in the store
/// under the given email, its stored hash verifies the given password, the
/// accounts are untouched, and a fresh pair was issued and recorded.
pub open spec fn login_success(
    pre: AuthStore,
    post: AuthStore,
    email: Seq<char>,
    password: Seq<char>,
    secret: Seq<char>,
    out: SessionTokens,
) -> bool {
    &&& account_in(pre.accounts_model(), out.2)
    &&& out.2.email@ == email
    &&& password_verifies(password, out.2.password_hash@)
    &&& post.accounts_model() == pre.accounts_model()
    &&& access_token_for(out.0@, out.2.id@, secret)
    &&& refresh_token_for(out.1@, out.2.id@, secret)
    &&& record_stored(pre.tokens_model(), post.tokens_model(), out.2.id@, token_digest(out.1@))
}

/// Login: an unknown email and a wrong password yield the identical
/// `InvalidCredentials` outcome — the caller can never learn whether the email
/// exists. On success a fresh pair is issued and recorded.
pub fn login_user(
    store: &mut AuthStore,
    email: &str,
    password: &str,
    jwt_secret: &str,
) -> (r: Result<SessionTokens, AuthError>)
    requires
        old(store).wf(),
    ensures
        final(store).wf(),
        final(store).accounts_model() == old(store).accounts_model(),
        !email_taken(old(store).accounts_model(), email@) ==> (r matches Err(e) && e
            == AuthError::InvalidCredentials),
        forall|i: int|
            0 <= i < old(store).accounts_model().len() && (#[trigger] old(
                store,
            ).accounts_model()[i]).email@ == email@ && !password_verifies(
                password@,
                old(store).accounts_model()[i].password_hash@,
            ) ==> (r matches Err(e) && e == AuthError::InvalidCredentials),
        r matches Err(e) && e == AuthError::InvalidCredentials ==> (!email_taken(
            old(store).accounts_model(),
            email@,
        ) || exists|i: int|
            {
                &&& 0 <= i < old(store).accounts_model().len()
                &&& (#[trigger] old(store).accounts_model()[i]).email@ == email@
                &&& !password_verifies(password@, old(store).accounts_model()[i].password_hash@)
            }),
        r is Err ==> store_unchanged(*old(store), *final(store)),
        used_monotonic(old(store).tokens_model(), final(store).tokens_model()),
        r matches Ok(out) ==> login_success(
            *old(store),
            *final(store),
            email@,
            password@,
            jwt_secret@,
            out,
        ),
{
    let user = match store.find_user_by_email(email) {
        Some(u) => u,
        None => {
            return Err(AuthError::InvalidCredentials);
        },
    };
    if let Err(e) = verify_password(password, user.password_hash.as_str()) {
        proof {
            lemma_unique_email_account(store.accounts_model(), user, email@);
        }
        return Err(e);
    }
    proof {
        lemma_unique_email_account(store.accounts_model(), user, email@);
    }
    let access = match create_jwt(user.id.as_str(), jwt_secret) {
        Ok(t) => t,
        Err(e) => {
            return Err(e);
        },
    };
    let refresh = match create_refresh_token(user.id.as_str(), jwt_secret) {
        Ok(t) => t,
        Err(e) => {
            return Err(e);
        },
    };
    let th = hash_token(refresh.as_str());
    if store.find_token_by_hash(th.as_str()).is_some() {
        return Err(AuthError::DatabaseError(String::from_str("token digest collision")));
    }
    let now = now_ts();
    if now < 0 || now > i64::MAX - REFRESH_TOKEN_LIFETIME_SECS as i64 {
        return Err(
            AuthError::TokenCreationError(String::from_str("Invalid timestamp calculation")),
        );
    }
    let expires_at = now + REFRESH_TOKEN_LIFETIME_SECS as i64;
    match store.create_token(new_uuid(), user.id.clone(), th, expires_at, now) {
        Ok(_) => {},
        Err(_) => {
            return Err(AuthError::DatabaseError(String::from_str("token storage failed")));
        },
    }
    Ok((access, refresh, user))
}

/// With unique emails, any account carrying this email is the one found.
proof fn lemma_unique_email_account(accs: Seq<AccountRecord>, a: AccountRecord, email: Seq<char>)
    requires
        forall|x: int, y: int|
            0 <= x < y < accs.len() ==> (#[trigger] accs[x]).email@ != (#[trigger] accs[y]).email@,
        account_in(accs, a),
        a.email@ == email,
    ensures
        forall|i: int|
            0 <= i < accs.len() && (#[trigger] accs[i]).email@ == email ==> accs[i] == a,
{
    let j = choose|j: int| 0 <= j < accs.len() && #[trigger] accs[j] == a;
    assert forall|i: int|
        0 <= i < accs.len() && (#[trigger] accs[i]).email@ == email implies accs[i] == a by {
        if i < j {
            assert(accs[i].email@ != accs[j].email@);
        } else if j < i {
            assert(accs[j].email@ != accs[i].email@);
        }
    }
}

/// With unique digests, any record carrying this digest is the one found.
proof fn lemma_unique_hash_record(toks: Seq<TokenRecord>, t: TokenRecord, d: Seq<char>)
    requires
        forall|x: int, y: int|
            0 <= x < y < toks.len() ==> (#[trigger] toks[x]).token_hash@ != (#[trigger] toks[y]).token_hash@,
        token_in(toks, t),
        t.token_hash@ == d,
    ensures
        forall|i: int|
            0 <= i < toks.len() && (#[trigger] toks[i]).token_hash@ == d ==> toks[i] == t,
{
    let j = choose|j: int| 0 <= j < toks.len() && #[trigger] toks[j] == t;
    assert forall|i: int|
        0 <= i < toks.len() && (#[trigger] toks[i]).token_hash@ == d implies toks[i] == t by {
        if i < j {
            assert(toks[i].token_hash@ != toks[j].token_hash@);
        } else if j < i {
            assert(toks[j].token_hash@ != toks[i].token_hash@);
        }
    }
}

/// What a successful refresh did: rotation. The one unconsumed record keyed by
/// the presented token's digest, bound to the returned account and unexpired
/// at `now`, was atomically marked used, and a fresh pair was issued for the
/// same account, the new refresh token recorded under a different digest.
pub open spec fn refresh_rotation(
    pre: AuthStore,
    post: AuthStore,
    d: Seq<char>,
    secret: Seq<char>,
    now: i64,
    out: SessionTokens,
) -> bool {
    &&& post.accounts_model() == pre.accounts_model()
    &&& account_in(pre.accounts_model(), out.2)
    &&& access_token_for(out.0@, out.2.id@, secret)
    &&& refresh_token_for(out.1@, out.2.id@, secret)
    &&& token_digest(out.1@) != d
    &&& exists|i: int|
        {
            &&& 0 <= i < pre.tokens_model().len()
            &&& (#[trigger] pre.tokens_model()[i]).token_hash@ == d
            &&& !pre.tokens_model()[i].used
            &&& pre.tokens_model()[i].user_id@ == out.2.id@
            &&& pre.tokens_model()[i].expires_at >= now
            &&& record_stored(
                pre.tokens_model().update(i, spec_mark_used(pre.tokens_model()[i])),
                post.tokens_model(),
                out.2.id@,
                token_digest(out.1@),
            )
        }
}

/// Refresh at a given ledger clock `now`: decode expecting kind `refresh`
/// (a structurally wrong kind is `InvalidTokenType`; any other decode failure
/// is `InvalidCredentials`), look the digest up in the ledger, reject an
/// absent, consumed, mismatched or expired record as `InvalidCredentials`,
/// then atomically consume the old record and issue and record a new pair.
/// Rotation is unconditional on every success; every failure leaves the store
/// unchanged.
pub fn refresh_access_token_at(
    store: &mut AuthStore,
    refresh_token: &str,
    jwt_secret: &str,
    now: i64,
) -> (r: Result<SessionTokens, AuthError>)
    requires
        old(store).wf(),
    ensures
        final(store).wf(),
        r is Err ==> store_unchanged(*old(store), *final(store)),
        used_monotonic(old(store).tokens_model(), final(store).tokens_model()),
        r matches Ok(out) ==> refresh_rotation(
            *old(store),
            *final(store),
            token_digest(refresh_token@),
            jwt_secret@,
            now,
            out,
        ),
        forall|sub: Seq<char>, iat: int, exp: int, kind: Seq<char>, jti: Seq<char>|
            refresh_token@ == #[trigger] token_of(sub, iat, exp, kind, jti, jwt_secret@) ==> {
                &&& (kind != TokenType::Refresh.spec_str() ==> (r matches Err(e) && (e
                    == AuthError::InvalidTokenType || e == AuthError::InvalidCredentials)))
                &&& (kind == TokenType::Refresh.spec_str() ==> {
                    let d = token_digest(refresh_token@);
                    let toks = old(store).tokens_model();
                    &&& (!hash_taken(toks, d) ==> (r matches Err(e) && e
                        == AuthError::InvalidCredentials))
                    &&& (forall|i: int|
                        0 <= i < toks.len() && (#[trigger] toks[i]).token_hash@ == d
                            && toks[i].used ==> (r matches Err(e) && e
                            == AuthError::InvalidCredentials))
                    &&& (forall|i: int|
                        0 <= i < toks.len() && (#[trigger] toks[i]).token_hash@ == d
                            && toks[i].user_id@ != sub ==> (r matches Err(e) && e
                            == AuthError::InvalidCredentials))
                    &&& (forall|i: int|
                        0 <= i < toks.len() && (#[trigger] toks[i]).token_hash@ == d
                            && toks[i].expires_at < now ==> (r matches Err(e) && e
                            == AuthError::InvalidCredentials))
                    &&& (hash_taken(toks, d) && !id_taken(old(store).accounts_model(), sub) ==> (
                    r matches Err(e) && e == AuthError::InvalidCredentials))
                    &&& !(r matches Err(e) && e == AuthError::InvalidTokenType)
                    &&& (r matches Ok(out) ==> out.2.id@ == sub)
                })
            },
{
    let claims = match decode_jwt_with_type(refresh_token, jwt_secret, TokenType::Refresh) {
        Ok(c) => c,
        Err(TokenError::InvalidTokenType) => {
            return Err(AuthError::InvalidTokenType);
        },
        Err(_) => {
            return Err(AuthError::InvalidCredentials);
        },
    };
    let th = hash_token(refresh_token);
    let record = match store.find_token_by_hash(th.as_str()) {
        Some(t) => t,
        None => {
            return Err(AuthError::InvalidCredentials);
        },
    };
    proof {
        lemma_unique_hash_record(store.tokens_model(), record, th@);
    }
    if record.used {
        return Err(AuthError::InvalidCredentials);
    }
    if !str_eq(record.user_id.as_str(), claims.sub.as_str()) {
        return Err(AuthError::InvalidCredentials);
    }
    if record.expires_at < now {
        return Err(AuthError::InvalidCredentials);
    }
    let user = match store.find_user_by_id(claims.sub.as_str()) {
        Some(u) => u,
        None => {
            return Err(AuthError::InvalidCredentials);
        },
    };
    let access = match create_jwt(user.id.as_str(), jwt_secret) {
        Ok(t) => t,
        Err(e) => {
            return Err(e);
        },
    };
    let new_refresh = match create_refresh_token(user.id.as_str(), jwt_secret) {
        Ok(t) => t,
        Err(e) => {
            return Err(e);
        },
    };
    let new_th = hash_token(new_refresh.as_str());
    if str_eq(new_th.as_str(), th.as_str()) {
        return Err(AuthError::DatabaseError(String::from_str("token digest collision")));
    }
    if store.find_token_by_hash(new_th.as_str()).is_some() {
        return Err(AuthError::DatabaseError(String::from_str("token digest collision")));
    }
    if now > i64::MAX - REFRESH_TOKEN_LIFETIME_SECS as i64 {
        return Err(
            AuthError::TokenCreationError(String::from_str("Invalid timestamp calculation")),
        );
    }
    let expires_at = now + REFRESH_TOKEN_LIFETIME_SECS as i64;
    let won = store.set_token_used(th.as_str());
    if !won {
        return Err(AuthError::InvalidCredentials);
    }
    match store.create_token(new_uuid(), user.id.clone(), new_th, expires_at, now) {
        Ok(_) => {},
        Err(_) => {
            return Err(AuthError::DatabaseError(String::from_str("token storage failed")));
        },
    }
    Ok((access, new_refresh, user))
}

/// Refresh against the ambient clock: reads the time once and applies
/// [`refresh_access_token_at`].
pub fn refresh_access_token(
    store: &mut AuthStore,
    refresh_token: &str,
    jwt_secret: &str,
) -> (r: Result<SessionTokens, AuthError>)
    requires
        old(store).wf(),
    ensures
        final(store).wf(),
        r is Err ==> store_unchanged(*old(store), *final(store)),
        used_monotonic(old(store).tokens_model(), final(store).tokens_model()),
        r matches Ok(out) ==> exists|now: i64|
            refresh_rotation(
                *old(store),
                *final(store),
                token_digest(refresh_token@),
                jwt_secret@,
                now,
                out,
            ),
        forall|sub: Seq<char>, iat: int, exp: int, kind: Seq<char>, jti: Seq<char>|
            refresh_token@ == #[trigger] token_of(sub, iat, exp, kind, jti, jwt_secret@) ==> {
                &&& (kind != TokenType::Refresh.spec_str() ==> (r matches Err(e) && (e
                    == AuthError::InvalidTokenType || e == AuthError::InvalidCredentials)))
                &&& (kind == TokenType::Refresh.spec_str() ==> {
                    let d = token_digest(refresh_token@);
                    let toks = old(store).tokens_model();
                    &&& (!hash_taken(toks, d) ==> (r matches Err(e) && e
                        == AuthError::InvalidCredentials))
                    &&& (forall|i: int|
                        0 <= i < toks.len() && (#[trigger] toks[i]).token_hash@ == d
                            && toks[i].used ==> (r matches Err(e) && e
                            == AuthError::InvalidCredentials))
                    &&& !(r matches Err(e) && e == AuthError::InvalidTokenType)
                    &&& (r matches Ok(out) ==> out.2.id@ == sub)
                })
            },
{
    let now = now_ts();
    refresh_access_token_at(store, refresh_token, jwt_secret, now)
}

/// What logout leaves behind: if the ledger held an unconsumed record for the
/// digest it is now consumed, otherwise nothing changed; either way no record
/// for the digest remains consumable.
pub open spec fn logout_post(pre: AuthStore, post: AuthStore, d: Seq<char>) -> bool {
    &&& post.accounts_model() == pre.accounts_model()
    &&& (!token_hash_unused(pre.tokens_model(), d) ==> post.tokens_model() == pre.tokens_model())
    &&& (token_hash_unused(pre.tokens_model(), d) ==> exists|i: int|
        {
            &&& 0 <= i < pre.tokens_model().len()
            &&& (#[trigger] pre.tokens_model()[i]).token_hash@ == d
            &&& !pre.tokens_model()[i].used
            &&& post.tokens_model() == pre.tokens_model().update(
                i,
                spec_mark_used(pre.tokens_model()[i]),
            )
        })
    &&& !token_hash_unused(post.tokens_model(), d)
}

/// Logout: best-effort consumption of the presented refresh token. Absence or
/// an already-used record is not an error — logout is idempotent and never
/// fails.
pub fn invalidate_refresh_token(store: &mut AuthStore, refresh_token: &str) -> (r: Result<
    (),
    AuthError,
>)
    requires
        old(store).wf(),
    ensures
        final(store).wf(),
        r is Ok,
        used_monotonic(old(store).tokens_model(), final(store).tokens_model()),
        logout_post(*old(store), *final(store), token_digest(refresh_token@)),
{
    let th = hash_token(refresh_token);
    let won = store.set_token_used(th.as_str());
    proof {
        let pre = old(store).tokens_model();
        let post = store.tokens_model();
        let d = th@;
        if won {
            let i = choose|i: int|
                {
                    &&& 0 <= i < pre.len()
                    &&& (#[trigger] pre[i]).token_hash@ == d
                    &&& !pre[i].used
                    &&& post == pre.update(i, spec_mark_used(pre[i]))
                };
            if token_hash_unused(post, d) {
                let j = choose|j: int|
                    0 <= j < post.len() && (#[trigger] post[j]).token_hash@ == d && !post[j].used;
                assert(j != i);
                assert(pre[j].token_hash@ == d && !pre[j].used);
                if j < i {
                    assert(pre[j].token_hash@ != pre[i].token_hash@);
                } else {
                    assert(pre[i].token_hash@ != pre[j].token_hash@);
                }
            }
        }
    }
    Ok(())
}

} // verus!
