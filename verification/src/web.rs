//! The small rules of the HTTP surface: caching and deletion consent.

use vstd::prelude::*;
use vstd::string::*;
use crate::error::AppError;
use crate::text::{ends_with, same_text, starts_with};

verus! {

broadcast use vstd::string::group_string_axioms;

/// Reads: one request replenished every 50 milliseconds (20 a second)...
pub const READ_PERIOD_MILLIS: u64 = 50;

/// ...with bursts of up to 40 per client address.
pub const READ_BURST: u32 = 40;

/// Writes: one request replenished every second...
pub const WRITE_PERIOD_SECONDS: u64 = 1;

/// ...with bursts of up to 6 per client address.
pub const WRITE_BURST: u32 = 6;

/// The largest request body accepted, in bytes.
pub const BODY_LIMIT_BYTES: usize = 256 * 1024;

/// The `Content-Disposition` of a receipt export:
/// `attachment; filename="<id>-receipt.<extension>"`.
pub open spec fn attachment_for(id: Seq<char>, extension: Seq<char>) -> Seq<char> {
    "attachment; filename=\""@ + id + "-receipt."@ + extension + "\""@
}

/// The `Content-Disposition` header value of a receipt export.
pub fn receipt_attachment(id: &str, extension: &str) -> (v: String)
    ensures
        v@ == attachment_for(id@, extension@),
{
    let mut v = String::new();
    v.append("attachment; filename=\"");
    v.append(id);
    v.append("-receipt.");
    v.append(extension);
    v.append("\"");
    v
}

/// The `Cache-Control` policy of a request path: fingerprinted assets are
/// immutable for a year, images are cached for a day, all else revalidates.
pub open spec fn cache_rule(path: Seq<char>) -> Seq<char> {
    if "/assets/"@.is_prefix_of(path) {
        "public, max-age=31536000, immutable"@
    } else if ".webp"@.is_suffix_of(path) || ".svg"@.is_suffix_of(path) {
        "public, max-age=86400"@
    } else {
        "no-cache"@
    }
}

/// The `Cache-Control` value for a request path.
pub fn cache_control(path: &str) -> (v: &'static str)
    ensures
        v@ == cache_rule(path@),
{
    if starts_with(path, "/assets/") {
        "public, max-age=31536000, immutable"
    } else if ends_with(path, ".webp") || ends_with(path, ".svg") {
        "public, max-age=86400"
    } else {
        "no-cache"
    }
}

/// Permanent deletion goes ahead only when the caller typed `DELETE`.
pub fn confirm_deletion(confirmation: &str) -> (r: Result<(), AppError>)
    ensures
        r is Ok <==> confirmation@ == "DELETE"@,
        r matches Err(e) ==> e matches AppError::BadRequest(m) && m@
            == "Type DELETE to confirm permanent deletion."@,
{
    if same_text(confirmation, "DELETE") {
        Ok(())
    } else {
        Err(AppError::BadRequest("Type DELETE to confirm permanent deletion.".to_owned()))
    }
}

} // verus!
