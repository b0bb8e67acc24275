//! In-memory persistence collaborator: the account table and the refresh
//! token ledger.
//!
//! The core depends only on this narrow interface — find an account by email
//! or id, create an account, create a refresh token record, find a record by
//! digest, mark a record used, delete expired records. Uniqueness of emails,
//! account ids and token digests is the store's invariant, standing in for the
//! unique constraints of a relational store; `set_token_used` is a single
//! atomic conditional update (mark used only if currently unused), so that two
//! concurrent refresh attempts on one token race safely.

use vstd::prelude::*;

verus! {

use crate::strutil::str_eq;

/// Identity record: unique id, unique email (case-sensitive as stored),
/// password hash, role, active flag, soft-delete flag, created/updated
/// timestamps (epoch seconds).
#[derive(Debug)]
pub struct AccountRecord {
    pub id: String,
    pub email: String,
    pub password_hash: String,
    pub role: String,
    pub is_active: bool,
    pub is_deleted: bool,
    pub created_at: i64,
    pub updated_at: i64,
}

impl Clone for AccountRecord {
    fn clone(&self) -> (r: Self)
        ensures
            r == *self,
    {
        AccountRecord {
            id: self.id.clone(),
            email: self.email.clone(),
            password_hash: self.password_hash.clone(),
            role: self.role.clone(),
            is_active: self.is_active,
            is_deleted: self.is_deleted,
            created_at: self.created_at,
            updated_at: self.updated_at,
        }
    }
}

/// Persistent record of an issued refresh token, keyed by the digest of the
/// raw token value (the raw value is never persisted): owning account id,
/// expiry timestamp, single-use consumption flag, created timestamp.
#[derive(Debug)]
pub struct TokenRecord {
    pub id: String,
    pub user_id: String,
    pub token_hash: String,
    pub expires_at: i64,
    pub used: bool,
    pub created_at: i64,
}

impl Clone for TokenRecord {
    fn clone(&self) -> (r: Self)
        ensures
            r == *self,
    {
        TokenRecord {
            id: self.id.clone(),
            user_id: self.user_id.clone(),
            token_hash: self.token_hash.clone(),
            expires_at: self.expires_at,
            used: self.used,
            created_at: self.created_at,
        }
    }
}

/// The record after consumption: the same record with `used` set.
pub open spec fn spec_mark_used(t: TokenRecord) -> TokenRecord {
    TokenRecord {
        id: t.id,
        user_id: t.user_id,
        token_hash: t.token_hash,
        expires_at: t.expires_at,
        used: true,
        created_at: t.created_at,
    }
}

/// Storage failure surfaced by the store: a uniqueness constraint was hit.
#[derive(Debug, Clone, Copy, PartialEq, Eq, Structural)]
pub enum StoreError {
    EmailTaken,
    IdTaken,
    HashTaken,
}

pub open spec fn email_taken(accs: Seq<AccountRecord>, email: Seq<char>) -> bool {
    exists|i: int| 0 <= i < accs.len() && (#[trigger] accs[i]).email@ == email
}

pub open spec fn id_taken(accs: Seq<AccountRecord>, id: Seq<char>) -> bool {
    exists|i: int| 0 <= i < accs.len() && (#[trigger] accs[i]).id@ == id
}

pub open spec fn account_in(accs: Seq<AccountRecord>, a: AccountRecord) -> bool {
    exists|i: int| 0 <= i < accs.len() && #[trigger] accs[i] == a
}

pub open spec fn hash_taken(toks: Seq<TokenRecord>, d: Seq<char>) -> bool {
    exists|i: int| 0 <= i < toks.len() && (#[trigger] toks[i]).token_hash@ == d
}

pub open spec fn token_in(toks: Seq<TokenRecord>, t: TokenRecord) -> bool {
    exists|i: int| 0 <= i < toks.len() && #[trigger] toks[i] == t
}

/// Some record with this digest exists and has been consumed.
pub open spec fn token_hash_used(toks: Seq<TokenRecord>, d: Seq<char>) -> bool {
    exists|i: int|
        0 <= i < toks.len() && (#[trigger] toks[i]).token_hash@ == d && toks[i].used
}

/// Some record with this digest exists and is still unconsumed.
pub open spec fn token_hash_unused(toks: Seq<TokenRecord>, d: Seq<char>) -> bool {
    exists|i: int|
        0 <= i < toks.len() && (#[trigger] toks[i]).token_hash@ == d && !toks[i].used
}

/// Consumption is monotonic: a digest whose record was consumed never has an
/// unconsumed record again (`used` transitions false to true only).
pub open spec fn used_monotonic(pre: Seq<TokenRecord>, post: Seq<TokenRecord>) -> bool {
    forall|d: Seq<char>| #[trigger]
        token_hash_used(pre, d) ==> !token_hash_unused(post, d)
}

/// The ledger transition that `set_token_used` performs: a compare-and-set
/// that wins exactly when an unconsumed record with the digest exists, marking
/// that one record used and touching nothing else.
pub open spec fn consume_post(
    pre: Seq<TokenRecord>,
    post: Seq<TokenRecord>,
    d: Seq<char>,
    won: bool,
) -> bool {
    &&& (won <==> token_hash_unused(pre, d))
    &&& (!won ==> post == pre)
    &&& (won ==> exists|i: int|
        {
            &&& 0 <= i < pre.len()
            &&& (#[trigger] pre[i]).token_hash@ == d
            &&& !pre[i].used
            &&& post == pre.update(i, spec_mark_used(pre[i]))
        })
}

/// The in-memory account table and refresh token ledger.
pub struct AuthStore {
    accounts: Vec<AccountRecord>,
    tokens: Vec<TokenRecord>,
}

impl AuthStore {
    pub closed spec fn accounts_model(&self) -> Seq<AccountRecord> {
        self.accounts@
    }

    pub closed spec fn tokens_model(&self) -> Seq<TokenRecord> {
        self.tokens@
    }

    /// Well-formedness: emails, account ids and token digests are unique, as
    /// the storage engine's constraints guarantee.
    pub open spec fn wf(&self) -> bool {
        &&& forall|i: int, j: int|
            0 <= i < j < self.accounts_model().len() ==> (#[trigger] self.accounts_model()[i]).email@
                != (#[trigger] self.accounts_model()[j]).email@
        &&& forall|i: int, j: int|
            0 <= i < j < self.accounts_model().len() ==> (#[trigger] self.accounts_model()[i]).id@
                != (#[trigger] self.accounts_model()[j]).id@
        &&& forall|i: int, j: int|
            0 <= i < j < self.tokens_model().len() ==> (#[trigger] self.tokens_model()[i]).token_hash@
                != (#[trigger] self.tokens_model()[j]).token_hash@
    }

    pub fn new() -> (r: AuthStore)
        ensures
            r.wf(),
            r.accounts_model() == Seq::<AccountRecord>::empty(),
            r.tokens_model() == Seq::<TokenRecord>::empty(),
    {
        AuthStore { accounts: Vec::new(), tokens: Vec::new() }
    }

    pub fn find_user_by_email(&self, email: &str) -> (r: Option<AccountRecord>)
        ensures
            r is Some <==> email_taken(self.accounts_model(), email@),
            r matches Some(a) ==> account_in(self.accounts_model(), a) && a.email@ == email@,
    {
        let n = self.accounts.len();
        let mut i: usize = 0;
        while i < n
            invariant
                n == self.accounts@.len(),
                i <= n,
                forall|j: int| 0 <= j < i ==> (#[trigger] self.accounts@[j]).email@ != email@,
            decreases n - i,
        {
            if str_eq(self.accounts[i].email.as_str(), email) {
                return Some(self.accounts[i].clone());
            }
            i = i + 1;
        }
        None
    }

    pub fn find_user_by_id(&self, user_id: &str) -> (r: Option<AccountRecord>)
        ensures
            r is Some <==> id_taken(self.accounts_model(), user_id@),
            r matches Some(a) ==> account_in(self.accounts_model(), a) && a.id@ == user_id@,
    {
        let n = self.accounts.len();
        let mut i: usize = 0;
        while i < n
            invariant
                n == self.accounts@.len(),
                i <= n,
                forall|j: int| 0 <= j < i ==> (#[trigger] self.accounts@[j]).id@ != user_id@,
            decreases n - i,
        {
            if str_eq(self.accounts[i].id.as_str(), user_id) {
                return Some(self.accounts[i].clone());
            }
            i = i + 1;
        }
        None
    }

    /// Creates an account, atomically checking the uniqueness constraints, as
    /// an insert under a unique index does.
    pub fn create_user(
        &mut self,
        id: String,
        email: String,
        password_hash: String,
        now: i64,
    ) -> (r: Result<AccountRecord, StoreError>)
        requires
            old(self).wf(),
        ensures
            final(self).wf(),
            final(self).tokens_model() == old(self).tokens_model(),
            r is Ok <==> (!email_taken(old(self).accounts_model(), email@) && !id_taken(
                old(self).accounts_model(),
                id@,
            )),
            email_taken(old(self).accounts_model(), email@) ==> r == Err::<
                AccountRecord,
                StoreError,
            >(StoreError::EmailTaken),
            r is Err ==> final(self).accounts_model() == old(self).accounts_model(),
            r matches Ok(a) ==> {
                &&& a.id == id
                &&& a.email == email
                &&& a.password_hash == password_hash
                &&& a.role@ == "user"@
                &&& a.is_active
                &&& !a.is_deleted
                &&& a.created_at == now
                &&& a.updated_at == now
                &&& final(self).accounts_model() == old(self).accounts_model().push(a)
            },
    {
        if self.find_user_by_email(email.as_str()).is_some() {
            return Err(StoreError::EmailTaken);
        }
        if self.find_user_by_id(id.as_str()).is_some() {
            return Err(StoreError::IdTaken);
        }
        let rec = AccountRecord {
            id,
            email,
            password_hash,
            role: String::from_str("user"),
            is_active: true,
            is_deleted: false,
            created_at: now,
            updated_at: now,
        };
        let out = rec.clone();
        self.accounts.push(rec);
        proof {
            let accs = self.accounts_model();
            let pre = old(self).accounts_model();
            assert(accs == pre.push(out));
            assert(self.tokens_model() == old(self).tokens_model());
            assert forall|i: int, j: int| 0 <= i < j < accs.len() implies (#[trigger] accs[i]).email@
                != (#[trigger] accs[j]).email@ && accs[i].id@ != accs[j].id@ by {
                if j < pre.len() {
                    assert(accs[i] == pre[i] && accs[j] == pre[j]);
                    assert(pre[i].email@ != pre[j].email@ && pre[i].id@ != pre[j].id@);
                } else {
                    assert(accs[i] == pre[i]);
                    assert(accs[j] == out);
                    assert(!email_taken(pre, out.email@));
                    assert(!id_taken(pre, out.id@));
                }
            }
            assert forall|i: int, j: int| 0 <= i < j < self.tokens_model().len() implies (
            #[trigger] self.tokens_model()[i]).token_hash@ != (#[trigger] self.tokens_model()[j]).token_hash@ by {
                assert((old(self).tokens_model()[i]).token_hash@ != (old(
                    self,
                ).tokens_model()[j]).token_hash@);
            }
        }
        Ok(out)
    }

    pub fn find_token_by_hash(&self, token_hash: &str) -> (r: Option<TokenRecord>)
        ensures
            r is Some <==> hash_taken(self.tokens_model(), token_hash@),
            r matches Some(t) ==> token_in(self.tokens_model(), t) && t.token_hash@
                == token_hash@,
    {
        let n = self.tokens.len();
        let mut i: usize = 0;
        while i < n
            invariant
                n == self.tokens@.len(),
                i <= n,
                forall|j: int| 0 <= j < i ==> (#[trigger] self.tokens@[j]).token_hash@ != token_hash@,
            decreases n - i,
        {
            if str_eq(self.tokens[i].token_hash.as_str(), token_hash) {
                return Some(self.tokens[i].clone());
            }
            i = i + 1;
        }
        None
    }

    /// Stores a new refresh token record, atomically checking the digest
    /// uniqueness constraint.
    pub fn create_token(
        &mut self,
        id: String,
        user_id: String,
        token_hash: String,
        expires_at: i64,
        now: i64,
    ) -> (r: Result<TokenRecord, StoreError>)
        requires
            old(self).wf(),
        ensures
            final(self).wf(),
            final(self).accounts_model() == old(self).accounts_model(),
            r is Ok <==> !hash_taken(old(self).tokens_model(), token_hash@),
            r is Err ==> r == Err::<TokenRecord, StoreError>(StoreError::HashTaken)
                && final(self).tokens_model() == old(self).tokens_model(),
            r matches Ok(t) ==> {
                &&& t.id == id
                &&& t.user_id == user_id
                &&& t.token_hash == token_hash
                &&& t.expires_at == expires_at
                &&& !t.used
                &&& t.created_at == now
                &&& final(self).tokens_model() == old(self).tokens_model().push(t)
            },
            used_monotonic(old(self).tokens_model(), final(self).tokens_model()),
    {
        if self.find_token_by_hash(token_hash.as_str()).is_some() {
            return Err(StoreError::HashTaken);
        }
        let rec = TokenRecord {
            id,
            user_id,
            token_hash,
            expires_at,
            used: false,
            created_at: now,
        };
        let out = rec.clone();
        self.tokens.push(rec);
        proof {
            let toks = self.tokens_model();
            let pre = old(self).tokens_model();
            assert(toks == pre.push(out));
            assert(self.accounts_model() == old(self).accounts_model());
            assert forall|i: int, j: int| 0 <= i < j < toks.len() implies (#[trigger] toks[i]).token_hash@
                != (#[trigger] toks[j]).token_hash@ by {
                if j < pre.len() {
                    assert(toks[i] == pre[i] && toks[j] == pre[j]);
                    assert(pre[i].token_hash@ != pre[j].token_hash@);
                } else {
                    assert(toks[i] == pre[i]);
                    assert(toks[j] == out);
                    assert(!hash_taken(pre, out.token_hash@));
                }
            }
            assert forall|i: int, j: int| 0 <= i < j < self.accounts_model().len() implies (
            #[trigger] self.accounts_model()[i]).email@ != (#[trigger] self.accounts_model()[j]).email@
                && self.accounts_model()[i].id@ != self.accounts_model()[j].id@ by {
                assert((old(self).accounts_model()[i]).email@ != (old(
                    self,
                ).accounts_model()[j]).email@);
                assert((old(self).accounts_model()[i]).id@ != (old(self).accounts_model()[j]).id@);
            }
            assert forall|d: Seq<char>| #[trigger] token_hash_used(pre, d) implies !token_hash_unused(
                toks,
                d,
            ) by {
                let i = choose|i: int|
                    0 <= i < pre.len() && (#[trigger] pre[i]).token_hash@ == d && pre[i].used;
                if token_hash_unused(toks, d) {
                    let j = choose|j: int|
                        0 <= j < toks.len() && (#[trigger] toks[j]).token_hash@ == d
                            && !toks[j].used;
                    if j < pre.len() {
                        assert(pre[j].token_hash@ == d && !pre[j].used);
                        assert(i != j);
                        assert(pre[i].token_hash@ != pre[j].token_hash@);
                    } else {
                        assert(toks[j] == out);
                        assert(hash_taken(pre, out.token_hash@));
                    }
                }
            }
        }
        Ok(out)
    }

    /// Marks the record with this digest as used, only if it is currently
    /// unused: a single atomic conditional update (compare-and-set), so that of
    /// two concurrent consumers exactly one observes success.
    pub fn set_token_used(&mut self, token_hash: &str) -> (won: bool)
        requires
            old(self).wf(),
        ensures
            final(self).wf(),
            final(self).accounts_model() == old(self).accounts_model(),
            won <==> token_hash_unused(old(self).tokens_model(), token_hash@),
            !won ==> final(self).tokens_model() == old(self).tokens_model(),
            won ==> exists|i: int|
                {
                    &&& 0 <= i < old(self).tokens_model().len()
                    &&& (#[trigger] old(self).tokens_model()[i]).token_hash@ == token_hash@
                    &&& !old(self).tokens_model()[i].used
                    &&& final(self).tokens_model() == old(self).tokens_model().update(
                        i,
                        spec_mark_used(old(self).tokens_model()[i]),
                    )
                },
            used_monotonic(old(self).tokens_model(), final(self).tokens_model()),
            consume_post(old(self).tokens_model(), final(self).tokens_model(), token_hash@, won),
            token_hash_used(final(self).tokens_model(), token_hash@) <==> (token_hash_used(
                old(self).tokens_model(),
                token_hash@,
            ) || won),
    {
        let idx = match self.find_token_index(token_hash) {
            Some(i) => i,
            None => {
                return false;
            },
        };
        if self.tokens[idx].used {
            proof {
                let pre = self.tokens_model();
                if token_hash_unused(pre, token_hash@) {
                    let j = choose|j: int|
                        0 <= j < pre.len() && (#[trigger] pre[j]).token_hash@ == token_hash@
                            && !pre[j].used;
                    assert(j != idx);
                    assert(pre[j].token_hash@ != pre[idx as int].token_hash@);
                }
            }
            return false;
        }
        let rec = TokenRecord {
            id: self.tokens[idx].id.clone(),
            user_id: self.tokens[idx].user_id.clone(),
            token_hash: self.tokens[idx].token_hash.clone(),
            expires_at: self.tokens[idx].expires_at,
            used: true,
            created_at: self.tokens[idx].created_at,
        };
        proof {
            assert(rec == spec_mark_used(old(self).tokens_model()[idx as int]));
        }
        self.tokens[idx] = rec;
        proof {
            let toks = self.tokens_model();
            let pre = old(self).tokens_model();
            assert(self.accounts_model() == old(self).accounts_model());
            assert(toks == pre.update(idx as int, spec_mark_used(pre[idx as int])));
            assert forall|a: int, b: int| 0 <= a < b < toks.len() implies (#[trigger] toks[a]).token_hash@
                != (#[trigger] toks[b]).token_hash@ by {
                assert(toks[a].token_hash@ == pre[a].token_hash@);
                assert(toks[b].token_hash@ == pre[b].token_hash@);
                assert(pre[a].token_hash@ != pre[b].token_hash@);
            }
            assert forall|a: int, b: int| 0 <= a < b < pre.len() implies (#[trigger] pre[a]).token_hash@
                != (#[trigger] pre[b]).token_hash@ by {}
            assert(token_hash_unused(pre, token_hash@));
            lemma_consume_monotonic(pre, toks, idx as int);
            assert(toks[idx as int].token_hash@ == token_hash@ && toks[idx as int].used);
        }
        true
    }

    /// Deletes every record whose expiry has passed; returns how many were
    /// removed. Run by an out-of-core scheduled sweep, never by the request
    /// path.
    pub fn delete_expired_tokens(&mut self, now: i64) -> (count: usize)
        requires
            old(self).wf(),
        ensures
            final(self).wf(),
            final(self).accounts_model() == old(self).accounts_model(),
            final(self).tokens_model() == old(self).tokens_model().filter(unexpired_pred(now)),
            count == old(self).tokens_model().len() - final(self).tokens_model().len(),
            used_monotonic(old(self).tokens_model(), final(self).tokens_model()),
    {
        let ghost pred = unexpired_pred(now);
        let n = self.tokens.len();
        let mut kept: Vec<TokenRecord> = Vec::new();
        let mut i: usize = 0;
        proof {
            assert(old(self).tokens@.take(0).filter(pred) =~= Seq::<TokenRecord>::empty());
        }
        while i < n
            invariant
                n == self.tokens@.len(),
                i <= n,
                self.tokens@ == old(self).tokens@,
                pred == unexpired_pred(now),
                kept@ == self.tokens@.take(i as int).filter(pred),
            decreases n - i,
        {
            proof {
                let pre = self.tokens@;
                assert(pre.take(i as int + 1) =~= pre.take(i as int).push(pre[i as int]));
                lemma_filter_push(pre.take(i as int), pred, pre[i as int]);
                assert(pred(pre[i as int]) == (pre[i as int].expires_at >= now));
            }
            if self.tokens[i].expires_at >= now {
                kept.push(self.tokens[i].clone());
            }
            i = i + 1;
        }
        proof {
            assert(self.tokens@.take(n as int) =~= self.tokens@);
        }
        let new_len = kept.len();
        let removed = n - new_len;
        self.tokens = kept;
        proof {
            let toks = self.tokens_model();
            let pre = old(self).tokens_model();
            assert(self.accounts_model() == old(self).accounts_model());
            assert(toks == pre.filter(pred));
            assert(toks.len() <= pre.len()) by {
                pre.lemma_filter_len(pred);
            }
            assert forall|a: int, b: int| 0 <= a < b < toks.len() implies (#[trigger] toks[a]).token_hash@
                != (#[trigger] toks[b]).token_hash@ by {
                lemma_filter_sub_indices(pre, pred, a, b);
                let (i2, j2) = choose|i2: int, j2: int|
                    0 <= i2 < j2 < pre.len() && #[trigger] pre[i2] == pre.filter(pred)[a]
                        && #[trigger] pre[j2] == pre.filter(pred)[b];
                assert(pre[i2].token_hash@ != pre[j2].token_hash@);
            }
            assert forall|d: Seq<char>| #[trigger] token_hash_used(pre, d) implies !token_hash_unused(
                toks,
                d,
            ) by {
                if token_hash_unused(toks, d) {
                    let j = choose|j: int|
                        0 <= j < toks.len() && (#[trigger] toks[j]).token_hash@ == d
                            && !toks[j].used;
                    lemma_filter_membership(pre, pred, j);
                    let k = choose|k: int| 0 <= k < pre.len() && #[trigger] pre[k] == pre.filter(pred)[j];
                    let i2 = choose|i2: int|
                        0 <= i2 < pre.len() && (#[trigger] pre[i2]).token_hash@ == d
                            && pre[i2].used;
                    assert(pre[k].token_hash@ == d && !pre[k].used);
                    assert(i2 != k);
                    assert(pre[i2].token_hash@ != pre[k].token_hash@);
                }
            }
            assert forall|i2: int, j2: int| 0 <= i2 < j2 < self.accounts_model().len() implies (
            #[trigger] self.accounts_model()[i2]).email@ != (#[trigger] self.accounts_model()[j2]).email@
                && self.accounts_model()[i2].id@ != self.accounts_model()[j2].id@ by {
                assert((old(self).accounts_model()[i2]).email@ != (old(
                    self,
                ).accounts_model()[j2]).email@);
                assert((old(self).accounts_model()[i2]).id@ != (old(self).accounts_model()[j2]).id@);
            }
        }
        removed
    }

    /// Sets the soft-delete flag of an account; models the account mutations
    /// performed by operations outside this core. Returns whether the account
    /// was found.
    pub fn set_account_deleted(&mut self, user_id: &str) -> (found: bool)
        requires
            old(self).wf(),
        ensures
            final(self).wf(),
            final(self).tokens_model() == old(self).tokens_model(),
            found <==> id_taken(old(self).accounts_model(), user_id@),
            !found ==> final(self).accounts_model() == old(self).accounts_model(),
            found ==> exists|i: int|
                {
                    &&& 0 <= i < old(self).accounts_model().len()
                    &&& (#[trigger] old(self).accounts_model()[i]).id@ == user_id@
                    &&& final(self).accounts_model() == old(self).accounts_model().update(
                        i,
                        spec_set_deleted(old(self).accounts_model()[i]),
                    )
                },
    {
        let idx = match self.find_account_index(user_id) {
            Some(i) => i,
            None => {
                return false;
            },
        };
        let rec = AccountRecord {
            id: self.accounts[idx].id.clone(),
            email: self.accounts[idx].email.clone(),
            password_hash: self.accounts[idx].password_hash.clone(),
            role: self.accounts[idx].role.clone(),
            is_active: self.accounts[idx].is_active,
            is_deleted: true,
            created_at: self.accounts[idx].created_at,
            updated_at: self.accounts[idx].updated_at,
        };
        proof {
            assert(rec == spec_set_deleted(old(self).accounts_model()[idx as int]));
        }
        self.accounts[idx] = rec;
        proof {
            let accs = self.accounts_model();
            let pre = old(self).accounts_model();
            assert(self.tokens_model() == old(self).tokens_model());
            assert(accs == pre.update(idx as int, spec_set_deleted(pre[idx as int])));
            assert forall|a: int, b: int| 0 <= a < b < accs.len() implies (#[trigger] accs[a]).email@
                != (#[trigger] accs[b]).email@ && accs[a].id@ != accs[b].id@ by {
                assert(accs[a].email@ == pre[a].email@ && accs[a].id@ == pre[a].id@);
                assert(accs[b].email@ == pre[b].email@ && accs[b].id@ == pre[b].id@);
                assert(pre[a].email@ != pre[b].email@ && pre[a].id@ != pre[b].id@);
            }
            assert forall|i: int, j: int| 0 <= i < j < self.tokens_model().len() implies (
            #[trigger] self.tokens_model()[i]).token_hash@ != (#[trigger] self.tokens_model()[j]).token_hash@ by {
                assert((old(self).tokens_model()[i]).token_hash@ != (old(
                    self,
                ).tokens_model()[j]).token_hash@);
            }
        }
        true
    }

    /// Index of the record with this digest, if any.
    fn find_token_index(&self, token_hash: &str) -> (r: Option<usize>)
        ensures
            r matches Some(i) ==> 0 <= i < self.tokens_model().len()
                && self.tokens_model()[i as int].token_hash@ == token_hash@,
            r is None ==> !hash_taken(self.tokens_model(), token_hash@),
    {
        let n = self.tokens.len();
        let mut i: usize = 0;
        while i < n
            invariant
                n == self.tokens@.len(),
                i <= n,
                forall|j: int| 0 <= j < i ==> (#[trigger] self.tokens@[j]).token_hash@ != token_hash@,
            decreases n - i,
        {
            if str_eq(self.tokens[i].token_hash.as_str(), token_hash) {
                return Some(i);
            }
            i = i + 1;
        }
        None
    }

    /// Index of the account with this id, if any.
    fn find_account_index(&self, user_id: &str) -> (r: Option<usize>)
        ensures
            r matches Some(i) ==> 0 <= i < self.accounts_model().len()
                && self.accounts_model()[i as int].id@ == user_id@,
            r is None ==> !id_taken(self.accounts_model(), user_id@),
    {
        let n = self.accounts.len();
        let mut i: usize = 0;
        while i < n
            invariant
                n == self.accounts@.len(),
                i <= n,
                forall|j: int| 0 <= j < i ==> (#[trigger] self.accounts@[j]).id@ != user_id@,
            decreases n - i,
        {
            if str_eq(self.accounts[i].id.as_str(), user_id) {
                return Some(i);
            }
            i = i + 1;
        }
        None
    }
}

/// The records kept by the expiry sweep: those not yet expired at `now`.
pub open spec fn unexpired_pred(now: i64) -> spec_fn(TokenRecord) -> bool {
    |t: TokenRecord| t.expires_at >= now
}

/// The account after a soft delete: the same record with `is_deleted` set.
pub open spec fn spec_set_deleted(a: AccountRecord) -> AccountRecord {
    AccountRecord {
        id: a.id,
        email: a.email,
        password_hash: a.password_hash,
        role: a.role,
        is_active: a.is_active,
        is_deleted: true,
        created_at: a.created_at,
        updated_at: a.updated_at,
    }
}

/// Filtering distributes over push.
proof fn lemma_filter_push<A>(s: Seq<A>, pred: spec_fn(A) -> bool, x: A)
    ensures
        s.push(x).filter(pred) == if pred(x) {
            s.filter(pred).push(x)
        } else {
            s.filter(pred)
        },
{
    reveal_with_fuel(Seq::filter, 2);
    assert(s.push(x).drop_last() =~= s);
    assert(s.push(x).last() == x);
}

proof fn lemma_consume_monotonic(pre: Seq<TokenRecord>, post: Seq<TokenRecord>, i: int)
    requires
        0 <= i < pre.len(),
        post == pre.update(i, spec_mark_used(pre[i])),
        forall|a: int, b: int|
            0 <= a < b < pre.len() ==> (#[trigger] pre[a]).token_hash@ != (#[trigger] pre[b]).token_hash@,
    ensures
        used_monotonic(pre, post),
{
    assert forall|d: Seq<char>| #[trigger] token_hash_used(pre, d) implies !token_hash_unused(
        post,
        d,
    ) by {
        let a = choose|a: int|
            0 <= a < pre.len() && (#[trigger] pre[a]).token_hash@ == d && pre[a].used;
        if token_hash_unused(post, d) {
            let b = choose|b: int|
                0 <= b < post.len() && (#[trigger] post[b]).token_hash@ == d && !post[b].used;
            assert(post[b].token_hash@ == pre[b].token_hash@);
            assert(a != b);
        }
    }
}

/// Every element of a filtered sequence occurs in the original.
proof fn lemma_filter_membership<A>(s: Seq<A>, pred: spec_fn(A) -> bool, j: int)
    requires
        0 <= j < s.filter(pred).len(),
    ensures
        exists|k: int| 0 <= k < s.len() && #[trigger] s[k] == s.filter(pred)[j],
    decreases s.len(),
{
    reveal_with_fuel(Seq::filter, 2);
    if s.len() > 0 {
        let prefix = s.drop_last();
        if pred(s.last()) && j == s.filter(pred).len() - 1 {
            assert(s[s.len() - 1] == s.filter(pred)[j]);
        } else {
            lemma_filter_membership(prefix, pred, j);
            let k = choose|k: int| 0 <= k < prefix.len() && #[trigger] prefix[k] == prefix.filter(pred)[j];
            assert(s[k] == s.filter(pred)[j]);
        }
    }
}

/// Two distinct positions of a filtered sequence come from two distinct
/// positions of the original, in order.
proof fn lemma_filter_sub_indices<A>(s: Seq<A>, pred: spec_fn(A) -> bool, a: int, b: int)
    requires
        0 <= a < b < s.filter(pred).len(),
    ensures
        exists|i: int, j: int|
            0 <= i < j < s.len() && #[trigger] s[i] == s.filter(pred)[a] && #[trigger] s[j]
                == s.filter(pred)[b],
    decreases s.len(),
{
    reveal_with_fuel(Seq::filter, 2);
    if s.len() > 0 {
        let prefix = s.drop_last();
        if pred(s.last()) && b == s.filter(pred).len() - 1 {
            lemma_filter_membership(prefix, pred, a);
            let i = choose|i: int| 0 <= i < prefix.len() && #[trigger] prefix[i] == prefix.filter(pred)[a];
            assert(s[i] == s.filter(pred)[a]);
            assert(s[s.len() - 1] == s.filter(pred)[b]);
        } else {
            lemma_filter_sub_indices(prefix, pred, a, b);
            let (i, j) = choose|i: int, j: int|
                0 <= i < j < prefix.len() && #[trigger] prefix[i] == prefix.filter(pred)[a]
                    && #[trigger] prefix[j] == prefix.filter(pred)[b];
            assert(s[i] == s.filter(pred)[a] && s[j] == s.filter(pred)[b]);
        }
    }
}

} // verus!
