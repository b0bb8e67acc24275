//! Avatar upload rules: which uploads are admitted and where they are stored.
//!
//! The image re-encoding and the object-storage upload are outside concerns;
//! the rules — which content types are allowed, the size and pixel bounds that
//! prevent memory exhaustion, and how object keys and public URLs are built —
//! stand here.

use vstd::prelude::*;

verus! {

use crate::error::AppError;
use crate::strutil::str_eq;

/// The largest accepted upload, in bytes (5 MiB).
pub const MAX_AVATAR_SIZE: usize = 5 * 1024 * 1024;

/// The largest accepted image area, in pixels (25 megapixels, about
/// 5000 x 5000): dimensions are checked before decoding, so an adversarial
/// header cannot force a huge allocation.
pub const MAX_PIXELS: u32 = 25000000;

/// The body of the avatar-upload response.
#[derive(Debug)]
pub struct AvatarResponse {
    pub avatar_url: String,
}

/// The content types an avatar may carry.
pub open spec fn spec_allowed_content_type(ct: Seq<char>) -> bool {
    ct == "image/jpeg"@ || ct == "image/png"@ || ct == "image/gif"@ || ct == "image/webp"@
}

pub fn allowed_content_type(content_type: &str) -> (r: bool)
    ensures
        r == spec_allowed_content_type(content_type@),
{
    str_eq(content_type, "image/jpeg") || str_eq(content_type, "image/png") || str_eq(
        content_type,
        "image/gif",
    ) || str_eq(content_type, "image/webp")
}

/// The file extension under which a content type is stored.
pub open spec fn spec_extension_for(ct: Seq<char>) -> Seq<char> {
    if ct == "image/jpeg"@ || ct == "image/jpg"@ {
        "jpg"@
    } else if ct == "image/png"@ {
        "png"@
    } else if ct == "image/gif"@ {
        "gif"@
    } else if ct == "image/webp"@ {
        "webp"@
    } else {
        "bin"@
    }
}

pub fn extension_for(content_type: &str) -> (r: &str)
    ensures
        r@ == spec_extension_for(content_type@),
{
    if str_eq(content_type, "image/jpeg") || str_eq(content_type, "image/jpg") {
        "jpg"
    } else if str_eq(content_type, "image/png") {
        "png"
    } else if str_eq(content_type, "image/gif") {
        "gif"
    } else if str_eq(content_type, "image/webp") {
        "webp"
    } else {
        "bin"
    }
}

/// Admits an upload only with an allowed content type and within the size
/// bound.
pub fn check_avatar_upload(content_type: &str, size: usize) -> (r: Result<(), AppError>)
    ensures
        r is Ok <==> (spec_allowed_content_type(content_type@) && size <= MAX_AVATAR_SIZE),
        !spec_allowed_content_type(content_type@) ==> (r matches Err(AppError::BadRequest(m))
            && m@ == "Invalid file type. Allowed: JPEG, PNG, GIF, WebP"@),
        spec_allowed_content_type(content_type@) && size > MAX_AVATAR_SIZE ==> (r matches Err(
            AppError::BadRequest(m),
        ) && m@ == "File too large. Maximum size is 5MB"@),
{
    if !allowed_content_type(content_type) {
        return Err(
            AppError::BadRequest(String::from_str("Invalid file type. Allowed: JPEG, PNG, GIF, WebP")),
        );
    }
    if size > MAX_AVATAR_SIZE {
        return Err(AppError::BadRequest(String::from_str("File too large. Maximum size is 5MB")));
    }
    Ok(())
}

/// Whether an image's area stays within the pixel bound; checked from the
/// header alone, before any decoding.
pub fn pixel_limit_ok(width: u32, height: u32) -> (r: bool)
    ensures
        r == (width * height <= MAX_PIXELS),
{
    proof {
        assert((width as int) * (height as int) <= 0xffff_ffff * 0xffff_ffff) by (nonlinear_arith)
            requires
                width <= 0xffff_ffffu32,
                height <= 0xffff_ffffu32,
        ;
    }
    (width as u64) * (height as u64) <= MAX_PIXELS as u64
}

/// The object key under which an avatar is stored: renamed to a fresh
/// identifier so uploads never collide.
pub fn avatar_object_key(user_id: &str, file_id: &str, extension: &str) -> (r: String)
    ensures
        r@ == "avatars/"@ + user_id@ + "/"@ + file_id@ + "."@ + extension@,
{
    let mut key = String::from_str("avatars/");
    key.append(user_id);
    key.append("/");
    key.append(file_id);
    key.append(".");
    key.append(extension);
    key
}

/// How many trailing separators the public base URL carries.
pub open spec fn spec_trailing_slashes(s: Seq<char>) -> int
    decreases s.len(),
{
    if s.len() > 0 && s.last() == '/' {
        1 + spec_trailing_slashes(s.drop_last())
    } else {
        0
    }
}

/// The public URL of a stored object: the base with its trailing separators
/// removed, one separator, and the key.
pub fn avatar_public_url(public_url: &str, key: &str) -> (r: String)
    ensures
        r@ == public_url@.take(public_url@.len() - spec_trailing_slashes(public_url@)) + "/"@
            + key@,
{
    let n = public_url.unicode_len();
    let mut end: usize = n;
    proof {
        assert(public_url@.take(n as int) =~= public_url@);
    }
    while end > 0 && public_url.get_char(end - 1) == '/'
        invariant
            n == public_url@.len(),
            end <= n,
            spec_trailing_slashes(public_url@) == (n - end) + spec_trailing_slashes(
                public_url@.take(end as int),
            ),
        decreases end,
    {
        proof {
            let t = public_url@.take(end as int);
            assert(t.last() == public_url@[end - 1]);
            assert(t.drop_last() =~= public_url@.take(end - 1));
        }
        end = end - 1;
    }
    proof {
        let t = public_url@.take(end as int);
        if end > 0 {
            assert(t.last() == public_url@[end - 1]);
        }
        assert(spec_trailing_slashes(t) == 0);
        assert(public_url@.take(end as int) == public_url@.take(
            public_url@.len() - spec_trailing_slashes(public_url@),
        ));
    }
    let mut url = public_url.substring_char(0, end).to_owned();
    url.append("/");
    url.append(key);
    url
}

} // verus!
