//! The laws of the session lifecycle, proved from the contracts that the
//! library states — nothing here looks inside any function body.

use vstd::prelude::*;

verus! {

use crate::digest::token_digest;
use crate::error::AuthError;
use crate::issuer::{
    logout_post, refresh_rotation, register_success, record_stored, SessionTokens,
};
use crate::store::{
    consume_post, email_taken, spec_mark_used, token_hash_unused, token_hash_used, AuthStore,
    TokenRecord,
};
use crate::policy::{email_accepted, password_strong};
use crate::token::{
    decode_outcome_consistent, decode_with_type_consistent, token_of, ClaimsView, TokenError,
    TokenType,
};

/// The two token kinds carry distinct discriminators.
pub proof fn lemma_token_kinds_distinct()
    ensures
        TokenType::Access.spec_str() != TokenType::Refresh.spec_str(),
{
    reveal_strlit("access");
    reveal_strlit("refresh");
    assert(TokenType::Access.spec_str().len() == 6);
    assert(TokenType::Refresh.spec_str().len() == 7);
}

/// Round trip: decoding a token that was issued for subject `sub` with kind
/// `kind` under the same secret gives back exactly that subject and kind (and
/// the issued timestamps); the only admissible failure is expiry.
pub proof fn lemma_token_round_trip(
    sub: Seq<char>,
    iat: int,
    exp: int,
    kind: TokenType,
    jti: Seq<char>,
    secret: Seq<char>,
    r: Result<ClaimsView, TokenError>,
)
    requires
        decode_outcome_consistent(
            token_of(sub, iat, exp, kind.spec_str(), jti, secret),
            secret,
            r,
        ),
    ensures
        r matches Ok(c) ==> c.sub == sub && c.token_type == kind.spec_str() && c.iat == iat
            && c.exp == exp,
        r matches Err(e) ==> e == TokenError::Expired,
{
    let t = token_of(sub, iat, exp, kind.spec_str(), jti, secret);
    assert(t == token_of(sub, iat, exp, kind.spec_str(), jti, secret));
}

/// Kind confusion: a token issued with one kind, decoded expecting the other
/// kind, is always rejected — with `InvalidTokenType`, unless it had already
/// failed as expired.
pub proof fn lemma_kind_confusion(
    sub: Seq<char>,
    iat: int,
    exp: int,
    issued: TokenType,
    expected: TokenType,
    jti: Seq<char>,
    secret: Seq<char>,
    r: Result<ClaimsView, TokenError>,
)
    requires
        issued != expected,
        decode_with_type_consistent(
            token_of(sub, iat, exp, issued.spec_str(), jti, secret),
            secret,
            expected,
            r,
        ),
    ensures
        r is Err,
        r matches Err(e) ==> e == TokenError::InvalidTokenType || e == TokenError::Expired,
{
    lemma_token_kinds_distinct();
    let t = token_of(sub, iat, exp, issued.spec_str(), jti, secret);
    assert(t == token_of(sub, iat, exp, issued.spec_str(), jti, secret));
    assert(issued.spec_str() != expected.spec_str());
}

/// Registering the same email twice: a successful registration leaves the
/// email taken, so the contract of register forces `EmailAlreadyExists` on the
/// second call.
pub proof fn lemma_register_twice(
    pre: AuthStore,
    mid: AuthStore,
    email: Seq<char>,
    password: Seq<char>,
    secret: Seq<char>,
    out: SessionTokens,
    r2: Result<SessionTokens, AuthError>,
)
    requires
        register_success(pre, mid, email, password, secret, out),
        email_accepted(email) && password_strong(password) && email_taken(
            mid.accounts_model(),
            email,
        ) ==> (r2 matches Err(e) && e == AuthError::EmailAlreadyExists),
    ensures
        email_taken(mid.accounts_model(), email),
        r2 matches Err(e) && e == AuthError::EmailAlreadyExists,
{
    let accs = mid.accounts_model();
    assert(accs == pre.accounts_model().push(out.2));
    assert(accs[accs.len() - 1] == out.2);
    assert((accs[accs.len() - 1]).email@ == email);
}

/// Login with an unknown email and login with a wrong password yield the
/// identical `InvalidCredentials` outcome.
pub proof fn lemma_login_uniform_failure(
    pre: AuthStore,
    email_a: Seq<char>,
    ra: Result<SessionTokens, AuthError>,
    email_b: Seq<char>,
    password_b: Seq<char>,
    k: int,
    rb: Result<SessionTokens, AuthError>,
)
    requires
        !email_taken(pre.accounts_model(), email_a),
        !email_taken(pre.accounts_model(), email_a) ==> (ra matches Err(e) && e
            == AuthError::InvalidCredentials),
        0 <= k < pre.accounts_model().len(),
        pre.accounts_model()[k].email@ == email_b,
        !crate::hasher::password_verifies(
            password_b,
            pre.accounts_model()[k].password_hash@,
        ),
        forall|i: int|
            0 <= i < pre.accounts_model().len() && (#[trigger] pre.accounts_model()[i]).email@
                == email_b && !crate::hasher::password_verifies(
                password_b,
                pre.accounts_model()[i].password_hash@,
            ) ==> (rb matches Err(e) && e == AuthError::InvalidCredentials),
    ensures
        ra matches Err(e) && e == AuthError::InvalidCredentials,
        rb matches Err(e) && e == AuthError::InvalidCredentials,
        ra->Err_0 == rb->Err_0,
{
    assert(pre.accounts_model()[k].email@ == email_b);
}

/// Refresh single use: after a successful rotation the old record is
/// consumed, so the contract of refresh forces `InvalidCredentials` on a
/// second refresh with the original token.
pub proof fn lemma_refresh_single_use(
    pre: AuthStore,
    mid: AuthStore,
    d: Seq<char>,
    secret: Seq<char>,
    now: i64,
    out: SessionTokens,
    r2: Result<SessionTokens, AuthError>,
)
    requires
        refresh_rotation(pre, mid, d, secret, now, out),
        forall|i: int|
            0 <= i < mid.tokens_model().len() && (#[trigger] mid.tokens_model()[i]).token_hash@
                == d && mid.tokens_model()[i].used ==> (r2 matches Err(e) && e
                == AuthError::InvalidCredentials),
    ensures
        token_hash_used(mid.tokens_model(), d),
        r2 matches Err(e) && e == AuthError::InvalidCredentials,
{
    let toks = pre.tokens_model();
    let i = choose|i: int|
        {
            &&& 0 <= i < pre.tokens_model().len()
            &&& (#[trigger] pre.tokens_model()[i]).token_hash@ == d
            &&& !pre.tokens_model()[i].used
            &&& pre.tokens_model()[i].user_id@ == out.2.id@
            &&& pre.tokens_model()[i].expires_at >= now
            &&& record_stored(
                pre.tokens_model().update(i, spec_mark_used(pre.tokens_model()[i])),
                mid.tokens_model(),
                out.2.id@,
                token_digest(out.1@),
            )
        };
    let upd = toks.update(i, spec_mark_used(toks[i]));
    let rec = choose|rec: TokenRecord|
        {
            &&& mid.tokens_model() == upd.push(rec)
            &&& rec.user_id@ == out.2.id@
            &&& rec.token_hash@ == token_digest(out.1@)
            &&& !rec.used
            &&& rec.expires_at == rec.created_at + crate::token::REFRESH_TOKEN_LIFETIME_SECS
        };
    assert(mid.tokens_model()[i] == upd[i]);
    assert((mid.tokens_model()[i]).token_hash@ == d && mid.tokens_model()[i].used);
}

/// The ledger race: of two consumptions of the same digest, at most one wins —
/// two simultaneous refresh attempts can never both rotate.
pub proof fn lemma_consume_single_winner(
    s0: Seq<TokenRecord>,
    s1: Seq<TokenRecord>,
    s2: Seq<TokenRecord>,
    d: Seq<char>,
    w1: bool,
    w2: bool,
)
    requires
        forall|x: int, y: int|
            0 <= x < y < s0.len() ==> (#[trigger] s0[x]).token_hash@ != (#[trigger] s0[y]).token_hash@,
        consume_post(s0, s1, d, w1),
        consume_post(s1, s2, d, w2),
    ensures
        !(w1 && w2),
{
    if w1 && w2 {
        let i = choose|i: int|
            {
                &&& 0 <= i < s0.len()
                &&& (#[trigger] s0[i]).token_hash@ == d
                &&& !s0[i].used
                &&& s1 == s0.update(i, spec_mark_used(s0[i]))
            };
        assert(token_hash_unused(s1, d));
        let j = choose|j: int|
            0 <= j < s1.len() && (#[trigger] s1[j]).token_hash@ == d && !s1[j].used;
        assert(j != i);
        assert(s1[j] == s0[j]);
        if j < i {
            assert(s0[j].token_hash@ != s0[i].token_hash@);
        } else {
            assert(s0[i].token_hash@ != s0[j].token_hash@);
        }
    }
}

/// Logout is idempotent: a second logout with the same token never errors (the
/// contract of logout always returns success) and leaves the store exactly as
/// the first left it.
pub proof fn lemma_logout_idempotent(s0: AuthStore, s1: AuthStore, s2: AuthStore, d: Seq<char>)
    requires
        logout_post(s0, s1, d),
        logout_post(s1, s2, d),
    ensures
        s2.tokens_model() == s1.tokens_model(),
        s2.accounts_model() == s1.accounts_model(),
{
    assert(!token_hash_unused(s1.tokens_model(), d));
}

} // verus!
