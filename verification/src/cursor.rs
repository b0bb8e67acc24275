//! Opaque pagination cursors: base64 of `"full name|user id"`.

use vstd::prelude::*;

verus! {

use crate::error::AppError;
use vstd::utf8::encode_utf8;

// Name for the base64 standard rendering of a byte sequence; given meaning by
// the wrappers below.
pub uninterp spec fn b64_encoding(bytes: Seq<u8>) -> Seq<char>;

// Name for what the outside UUID parser accepts.
pub uninterp spec fn uuid_accepted(s: Seq<char>) -> bool;

/// Relies on base64's STANDARD engine encode: a deterministic rendering of the
/// bytes.
#[verifier::external_body]
fn b64_encode(bytes: &[u8]) -> (r: String)
    ensures
        r@ == b64_encoding(bytes@),
{
    base64::Engine::encode(&base64::engine::general_purpose::STANDARD, bytes)
}

/// Relies on base64's STANDARD engine decode, the inverse of encode: a string
/// that encode produced decodes back to exactly the bytes it encoded.
#[verifier::external_body]
fn b64_decode(s: &str) -> (r: Result<Vec<u8>, ()>)
    ensures
        forall|bs: Seq<u8>|
            s@ == #[trigger] b64_encoding(bs) ==> r is Ok && (r matches Ok(v) ==> v@ == bs),
{
    base64::Engine::decode(&base64::engine::general_purpose::STANDARD, s).map_err(|_| ())
}

/// Relies on String::from_utf8: succeeds exactly on valid UTF-8, yielding the
/// characters those bytes encode.
#[verifier::external_body]
fn bytes_to_string(v: Vec<u8>) -> (r: Result<String, ()>)
    ensures
        r matches Ok(s) ==> encode_utf8(s@) == v@,
        forall|cs: Seq<char>| v@ == #[trigger] encode_utf8(cs) ==> r is Ok,
{
    String::from_utf8(v).map_err(|_| ())
}

/// Relies on uuid::Uuid::parse_str: whether the string is a well-formed UUID.
#[verifier::external_body]
fn uuid_is_valid(s: &str) -> (r: bool)
    ensures
        r == uuid_accepted(s@),
{
    uuid::Uuid::parse_str(s).is_ok()
}

/// The cursor that encodes a page position.
pub open spec fn cursor_encoding(full_name: Seq<char>, user_id: Seq<char>) -> Seq<char> {
    b64_encoding(encode_utf8(full_name + "|"@ + user_id))
}

pub fn encode_cursor(full_name: &str, user_id: &str) -> (r: String)
    ensures
        r@ == cursor_encoding(full_name@, user_id@),
{
    let mut data = String::from_str(full_name);
    data.append("|");
    data.append(user_id);
    proof {
        assert(data@ == full_name@ + "|"@ + user_id@);
    }
    b64_encode(data.as_str().as_bytes())
}

/// The shapes of name and id that a cursor can round-trip: both free of the
/// separator, the id a well-formed UUID.
pub open spec fn decodable_cursor_parts(full_name: Seq<char>, user_id: Seq<char>) -> bool {
    &&& !full_name.contains('|')
    &&& !user_id.contains('|')
    &&& uuid_accepted(user_id)
}

/// In `name|id` with separator-free name and id, the separator position is
/// unique and splitting there recovers the parts.
proof fn lemma_pipe_split(s: Seq<char>, full_name: Seq<char>, user_id: Seq<char>)
    requires
        s == full_name + "|"@ + user_id,
        !full_name.contains('|'),
        !user_id.contains('|'),
    ensures
        s.len() == full_name.len() + 1 + user_id.len(),
        s[full_name.len() as int] == '|',
        forall|j: int| 0 <= j < s.len() && j != full_name.len() ==> s[j] != '|',
        s.subrange(0, full_name.len() as int) == full_name,
        s.subrange(full_name.len() as int + 1, s.len() as int) == user_id,
{
    reveal_strlit("|");
    assert("|"@ =~= seq!['|']);
    assert(s.subrange(0, full_name.len() as int) =~= full_name);
    assert(s.subrange(full_name.len() as int + 1, s.len() as int) =~= user_id);
    assert forall|j: int| 0 <= j < s.len() && j != full_name.len() implies s[j] != '|' by {
        if j < full_name.len() {
            assert(s[j] == full_name[j]);
            if s[j] == '|' {
                assert(full_name.contains('|'));
            }
        } else {
            assert(s[j] == user_id[j - full_name.len() - 1]);
            if s[j] == '|' {
                assert(user_id.contains('|'));
            }
        }
    }
}

/// Decodes a cursor back into the full name and the user id, rejecting
/// anything that is not base64 of UTF-8 text holding exactly one separator and
/// a well-formed UUID; a cursor that encodes separator-free parts with a
/// well-formed UUID is always accepted, and yields exactly those parts.
pub fn decode_cursor(cursor: &str) -> (r: Result<(String, String), AppError>)
    ensures
        r matches Err(e) ==> e is BadRequest,
        r matches Ok(parts) ==> {
            &&& uuid_accepted(parts.1@)
            &&& !parts.0@.contains('|')
            &&& !parts.1@.contains('|')
            &&& forall|bs: Seq<u8>|
                cursor@ == #[trigger] b64_encoding(bs) ==> bs == encode_utf8(
                    parts.0@ + "|"@ + parts.1@,
                )
        },
        forall|full_name: Seq<char>, user_id: Seq<char>|
            cursor@ == #[trigger] cursor_encoding(full_name, user_id) && decodable_cursor_parts(
                full_name,
                user_id,
            ) ==> (r matches Ok(parts) && parts.0@ == full_name && parts.1@ == user_id),
{
    let decoded = match b64_decode(cursor) {
        Ok(v) => v,
        Err(_) => {
            proof {
                assert forall|full_name: Seq<char>, user_id: Seq<char>|
                    cursor@ == #[trigger] cursor_encoding(full_name, user_id)
                        && decodable_cursor_parts(full_name, user_id) implies false by {
                    assert(cursor@ == b64_encoding(encode_utf8(full_name + "|"@ + user_id)));
                }
            }
            return Err(AppError::BadRequest(String::from_str("Invalid cursor format")));
        },
    };
    let ghost decoded_bytes = decoded@;
    let text = match bytes_to_string(decoded) {
        Ok(s) => s,
        Err(_) => {
            proof {
                assert forall|full_name: Seq<char>, user_id: Seq<char>|
                    cursor@ == #[trigger] cursor_encoding(full_name, user_id)
                        && decodable_cursor_parts(full_name, user_id) implies false by {
                    assert(cursor@ == b64_encoding(encode_utf8(full_name + "|"@ + user_id)));
                    assert(decoded_bytes == encode_utf8(full_name + "|"@ + user_id));
                }
            }
            return Err(AppError::BadRequest(String::from_str("Invalid cursor encoding")));
        },
    };
    proof {
        assert(encode_utf8(text@) == decoded_bytes);
        assert forall|full_name: Seq<char>, user_id: Seq<char>|
            cursor@ == #[trigger] cursor_encoding(full_name, user_id) && decodable_cursor_parts(
                full_name,
                user_id,
            ) implies text@ == full_name + "|"@ + user_id by {
            assert(cursor@ == b64_encoding(encode_utf8(full_name + "|"@ + user_id)));
            assert(decoded_bytes == encode_utf8(full_name + "|"@ + user_id));
            vstd::utf8::encode_utf8_decode_utf8(text@);
            vstd::utf8::encode_utf8_decode_utf8(full_name + "|"@ + user_id);
        }
    }
    let s = text.as_str();
    let n = s.unicode_len();
    proof {
        reveal_strlit("|");
    }
    let mut pipe: Option<usize> = None;
    let mut extra_pipe: bool = false;
    let mut i: usize = 0;
    while i < n
        invariant
            n == s@.len(),
            i <= n,
            extra_pipe ==> exists|a: int, b: int|
                0 <= a < b < i && #[trigger] s@[a] == '|' && #[trigger] s@[b] == '|',
            !extra_pipe ==> (pipe matches Some(p) ==> p < i && s@[p as int] == '|' && (forall|j: int|
                0 <= j < i && j != p ==> s@[j] != '|')),
            pipe is None ==> !extra_pipe && (forall|j: int| 0 <= j < i ==> s@[j] != '|'),
        decreases n - i,
    {
        let c = s.get_char(i);
        if c == '|' {
            match pipe {
                Some(p) => {
                    proof {
                        if !extra_pipe {
                            assert(s@[p as int] == '|' && s@[i as int] == '|' && p < i);
                        }
                    }
                    extra_pipe = true;
                },
                None => {
                    if !extra_pipe {
                        pipe = Some(i);
                    }
                },
            }
        }
        i = i + 1;
    }
    if extra_pipe {
        proof {
            assert forall|full_name: Seq<char>, user_id: Seq<char>|
                cursor@ == #[trigger] cursor_encoding(full_name, user_id)
                    && decodable_cursor_parts(full_name, user_id) implies false by {
                lemma_pipe_split(s@, full_name, user_id);
                let (a, b) = choose|a: int, b: int|
                    0 <= a < b < n && #[trigger] s@[a] == '|' && #[trigger] s@[b] == '|';
                assert(a == full_name.len() && b == full_name.len());
            }
        }
        return Err(AppError::BadRequest(String::from_str("Invalid cursor structure")));
    }
    let p = match pipe {
        Some(p) => p,
        None => {
            proof {
                assert forall|full_name: Seq<char>, user_id: Seq<char>|
                    cursor@ == #[trigger] cursor_encoding(full_name, user_id)
                        && decodable_cursor_parts(full_name, user_id) implies false by {
                    lemma_pipe_split(s@, full_name, user_id);
                    assert(s@[full_name.len() as int] == '|');
                }
            }
            return Err(AppError::BadRequest(String::from_str("Invalid cursor structure")));
        },
    };
    let name = s.substring_char(0, p).to_owned();
    let id = s.substring_char(p + 1, n).to_owned();
    proof {
        assert forall|full_name: Seq<char>, user_id: Seq<char>|
            cursor@ == #[trigger] cursor_encoding(full_name, user_id) && decodable_cursor_parts(
                full_name,
                user_id,
            ) implies name@ == full_name && id@ == user_id by {
            lemma_pipe_split(s@, full_name, user_id);
            assert(p == full_name.len());
            assert(name@ == s@.subrange(0, full_name.len() as int));
            assert(id@ == s@.subrange(full_name.len() as int + 1, n as int));
        }
    }
    if !uuid_is_valid(id.as_str()) {
        return Err(AppError::BadRequest(String::from_str("Invalid user ID in cursor")));
    }
    proof {
        assert(name@ + "|"@ + id@ =~= s@);
        if name@.contains('|') {
            let j = choose|j: int| 0 <= j < name@.len() && name@[j] == '|';
            assert(s@[j] == '|');
        }
        if id@.contains('|') {
            let j = choose|j: int| 0 <= j < id@.len() && id@[j] == '|';
            assert(s@[p + 1 + j] == '|');
        }
        assert forall|bs: Seq<u8>| cursor@ == #[trigger] b64_encoding(bs) implies bs
            == encode_utf8(name@ + "|"@ + id@) by {
            assert(bs == decoded_bytes);
            assert(name@ + "|"@ + id@ == text@);
        }
    }
    Ok((name, id))
}

} // verus!
