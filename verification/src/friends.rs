//! Friend-graph decisions and list pagination.
//!
//! The friend graph itself lives with the persistence collaborator; what
//! stands here are the decisions taken over its answers — whether a request
//! may be sent or accepted, what a deletion outcome means — and the pure
//! pagination of a fetched list.

use vstd::prelude::*;

verus! {

use crate::cursor::{cursor_encoding, encode_cursor};
use crate::error::AppError;
use crate::strutil::str_eq;

/// A friendship edge: requester, recipient, and a status of `pending` or
/// `accepted`.
#[derive(Debug)]
pub struct FriendshipModel {
    pub id: String,
    pub user_id: String,
    pub friend_id: String,
    pub status: String,
    pub created_at: i64,
    pub updated_at: i64,
}

/// Query parameters of the friend-list endpoint.
#[derive(Debug)]
pub struct GetFriendsQuery {
    pub cursor: Option<String>,
    pub limit: Option<i32>,
}

/// One friend or request joined with profile data, as a list row.
#[derive(Debug)]
pub struct FriendEntry {
    pub user_id: String,
    pub full_name: Option<String>,
    pub avatar_url: Option<String>,
    pub status: String,
    pub created_at: i64,
}

impl Clone for FriendEntry {
    fn clone(&self) -> (r: Self)
        ensures
            r == *self,
    {
        FriendEntry {
            user_id: self.user_id.clone(),
            full_name: match &self.full_name {
                Some(s) => Some(s.clone()),
                None => None,
            },
            avatar_url: match &self.avatar_url {
                Some(s) => Some(s.clone()),
                None => None,
            },
            status: self.status.clone(),
            created_at: self.created_at,
        }
    }
}

/// A page of friends with the cursor under which to ask for the next page.
#[derive(Debug)]
pub struct PaginatedFriendsResponse {
    pub data: Vec<FriendEntry>,
    pub next_cursor: Option<String>,
    pub has_more: bool,
}

/// Whether a friend request may be created: not to oneself, and only where no
/// edge exists yet in either direction.
pub fn request_friend_decision(
    user_id: &str,
    target_id: &str,
    existing: Option<&FriendshipModel>,
) -> (r: Result<(), AppError>)
    ensures
        r is Ok <==> (user_id@ != target_id@ && existing is None),
        user_id@ == target_id@ ==> (r matches Err(AppError::BadRequest(m)) && m@
            == "Cannot add yourself"@),
        user_id@ != target_id@ && existing is Some ==> (r matches Err(AppError::BadRequest(m))
            && m@ == "Friendship or request already exists"@),
{
    if str_eq(user_id, target_id) {
        return Err(AppError::BadRequest(String::from_str("Cannot add yourself")));
    }
    if existing.is_some() {
        return Err(AppError::BadRequest(String::from_str("Friendship or request already exists")));
    }
    Ok(())
}

/// Whether a pending request may be accepted by `user_id`: only the recipient
/// of a pending edge may, and acceptance names the edge to update.
pub fn accept_friend_decision(user_id: &str, existing: Option<&FriendshipModel>) -> (r: Result<
    String,
    AppError,
>)
    ensures
        existing is None ==> (r matches Err(AppError::BadRequest(m)) && m@
            == "Friend request not found"@),
        existing matches Some(f) ==> {
            &&& f.status@ == "accepted"@ ==> (r matches Err(AppError::BadRequest(m)) && m@
                == "Already friends"@)
            &&& f.status@ != "accepted"@ && f.friend_id@ != user_id@ ==> (r matches Err(
                AppError::BadRequest(m),
            ) && m@ == "You can only accept requests sent to you"@)
            &&& f.status@ != "accepted"@ && f.friend_id@ == user_id@ ==> (r matches Ok(id) && id@
                == f.id@)
        },
{
    let f = match existing {
        Some(f) => f,
        None => {
            return Err(AppError::BadRequest(String::from_str("Friend request not found")));
        },
    };
    if str_eq(f.status.as_str(), "accepted") {
        return Err(AppError::BadRequest(String::from_str("Already friends")));
    }
    if !str_eq(f.friend_id.as_str(), user_id) {
        return Err(
            AppError::BadRequest(String::from_str("You can only accept requests sent to you")),
        );
    }
    Ok(f.id.clone())
}

/// What a deletion outcome means: removing nothing is the caller's error.
pub fn remove_friend_decision(deleted_count: u64) -> (r: Result<(), AppError>)
    ensures
        r is Ok <==> deleted_count > 0,
        deleted_count == 0 ==> (r matches Err(AppError::BadRequest(m)) && m@
            == "Friendship not found"@),
{
    if deleted_count == 0 {
        return Err(AppError::BadRequest(String::from_str("Friendship not found")));
    }
    Ok(())
}

/// The page size actually used: the caller's wish, defaulting to 20 and capped
/// at 100.
pub open spec fn spec_effective_limit(limit: Option<i32>) -> int {
    match limit {
        Some(l) => if l < 100 {
            l as int
        } else {
            100
        },
        None => 20,
    }
}

pub fn effective_limit(limit: Option<i32>) -> (r: i32)
    ensures
        r == spec_effective_limit(limit),
{
    match limit {
        Some(l) => if l < 100 {
            l
        } else {
            100
        },
        None => 20,
    }
}

/// The name under which a row is addressed in a cursor: its full name, or
/// empty where none is set.
pub open spec fn spec_cursor_name(o: Option<String>) -> Seq<char> {
    match o {
        Some(s) => s@,
        None => Seq::<char>::empty(),
    }
}

/// Pages a fetched list: up to `limit` rows are returned; fetching one row
/// more than asked reveals whether more exist, and in that case the cursor of
/// the last returned row is handed out for the next page.
pub fn paginate_friends(friends: &Vec<FriendEntry>, limit: usize) -> (r: PaginatedFriendsResponse)
    ensures
        r.has_more == (friends@.len() > limit),
        r.data@.len() == if friends@.len() > limit {
            limit as int
        } else {
            friends@.len() as int
        },
        forall|i: int| 0 <= i < r.data@.len() ==> r.data@[i] == friends@[i],
        (r.next_cursor is Some) == (r.has_more && r.data@.len() > 0),
        r.next_cursor matches Some(c) ==> c@ == cursor_encoding(
            spec_cursor_name(r.data@.last().full_name),
            r.data@.last().user_id@,
        ),
{
    let n = friends.len();
    let take = if n > limit {
        limit
    } else {
        n
    };
    let mut data: Vec<FriendEntry> = Vec::new();
    let mut i: usize = 0;
    while i < take
        invariant
            take <= friends@.len(),
            i <= take,
            data@.len() == i as int,
            forall|j: int| 0 <= j < i ==> data@[j] == friends@[j],
        decreases take - i,
    {
        data.push(friends[i].clone());
        i = i + 1;
    }
    let has_more = n > limit;
    let next_cursor: Option<String> = if has_more && data.len() > 0 {
        let last = &data[data.len() - 1];
        let name_ref: &str = match &last.full_name {
            Some(s) => s.as_str(),
            None => "",
        };
        proof {
            reveal_strlit("");
            assert(name_ref@ =~= spec_cursor_name(last.full_name));
        }
        Some(encode_cursor(name_ref, last.user_id.as_str()))
    } else {
        None
    };
    PaginatedFriendsResponse { data, next_cursor, has_more }
}

} // verus!
