//! The blob gateway's compute: URL derivation, the signing request body, and
//! the reading of the signing response.
//!
//! The gateway's wire traffic itself is I/O and lives outside the library;
//! what stands here is everything about it that is a pure function — which
//! URL a blob lives under, what the signing endpoint is asked, and what a
//! signing response means.

use vstd::prelude::*;
use vstd::string::StringExecFns;
use crate::errors::StorageError;
use crate::record::opt_text_view;

verus! {

/// Whether an HTTP status code counts as success (2xx); an upload with any
/// other status is a storage failure.
pub fn is_success_status(code: u16) -> (r: bool)
    ensures
        r == (200 <= code && code < 300),
{
    200 <= code && code < 300
}

/// The object URL a blob is uploaded to.
pub open spec fn spec_object_url(base: Seq<char>, bucket: Seq<char>, filename: Seq<char>) -> Seq<
    char,
> {
    base + "/storage/v1/object/"@ + bucket + "/"@ + filename
}

/// The public URL a blob is downloaded from.
pub open spec fn spec_public_object_url(
    base: Seq<char>,
    bucket: Seq<char>,
    filename: Seq<char>,
) -> Seq<char> {
    base + "/storage/v1/object/public/"@ + bucket + "/"@ + filename
}

/// The signing endpoint for a blob.
pub open spec fn spec_sign_url(base: Seq<char>, bucket: Seq<char>, filename: Seq<char>) -> Seq<
    char,
> {
    base + "/storage/v1/object/sign/"@ + bucket + "/"@ + filename
}

/// The durable link stored on the record: the signed suffix the gateway
/// returned, under the gateway's base URL.
pub open spec fn spec_audio_link(base: Seq<char>, suffix: Seq<char>) -> Seq<char> {
    base + "/storage/v1/"@ + suffix
}

/// Derives the URL a blob is uploaded to.
pub fn object_url(base: &str, bucket: &str, filename: &str) -> (r: String)
    ensures
        r@ == spec_object_url(base@, bucket@, filename@),
{
    let mut s = String::new();
    s.append(base);
    s.append("/storage/v1/object/");
    s.append(bucket);
    s.append("/");
    s.append(filename);
    assert(s@ =~= spec_object_url(base@, bucket@, filename@));
    s
}

/// Derives the public URL a blob is downloaded from.
pub fn public_object_url(base: &str, bucket: &str, filename: &str) -> (r: String)
    ensures
        r@ == spec_public_object_url(base@, bucket@, filename@),
{
    let mut s = String::new();
    s.append(base);
    s.append("/storage/v1/object/public/");
    s.append(bucket);
    s.append("/");
    s.append(filename);
    assert(s@ =~= spec_public_object_url(base@, bucket@, filename@));
    s
}

/// Derives the signing endpoint for a blob.
pub fn sign_url(base: &str, bucket: &str, filename: &str) -> (r: String)
    ensures
        r@ == spec_sign_url(base@, bucket@, filename@),
{
    let mut s = String::new();
    s.append(base);
    s.append("/storage/v1/object/sign/");
    s.append(bucket);
    s.append("/");
    s.append(filename);
    assert(s@ =~= spec_sign_url(base@, bucket@, filename@));
    s
}

/// Derives the link stored on the record from the signed suffix.
pub fn audio_link_url(base: &str, suffix: &str) -> (r: String)
    ensures
        r@ == spec_audio_link(base@, suffix@),
{
    let mut s = String::new();
    s.append(base);
    s.append("/storage/v1/");
    s.append(suffix);
    assert(s@ =~= spec_audio_link(base@, suffix@));
    s
}

/// The body sent to the signing endpoint: a 90-day expiry.
pub fn signed_url_request_body() -> (r: String)
    ensures
        r@ == "{\"expiresIn\":7776000}"@,
{
    "{\"expiresIn\":7776000}".to_owned()
}

/// The text under `key` at the top level of the JSON document `doc`, if
/// `doc` parses, holds `key`, and holds text there.
pub uninterp spec fn json_str_field(doc: Seq<char>, key: Seq<char>) -> Option<Seq<char>>;

/// Relies on serde_json: `from_str` parses the document, `Value::get` looks
/// up a top-level key, `Value::as_str` reads the field as text. The outcome
/// is a function of the document and the key alone.
#[verifier::external_body]
fn json_string_field(body: &str, key: &str) -> (r: Option<String>)
    ensures
        r matches Some(s) ==> json_str_field(body@, key@) == Some(s@),
        r is None ==> json_str_field(body@, key@) is None,
{
    match serde_json::from_str::<serde_json::Value>(body) {
        Ok(v) => match v.get(key) {
            Some(f) => f.as_str().map(|s| s.to_string()),
            None => None,
        },
        Err(_) => None,
    }
}

/// The error text of a failed signing: the gateway's own message where it
/// sent one, a fixed text where it did not.
pub open spec fn spec_sign_error_message(message: Option<Seq<char>>) -> Seq<char> {
    match message {
        Some(m) => m,
        None => "signing failed"@,
    }
}

/// What a signing response's two fields mean: a present `signedURL` is the
/// success value; a missing one is a storage failure carrying the gateway's
/// `message`, or a fixed text where even that is missing.
pub fn signed_url_of_fields(signed_url: Option<String>, message: Option<String>) -> (r: Result<
    String,
    StorageError,
>)
    ensures
        match signed_url {
            Some(u) => r matches Ok(ru) && ru@ == u@,
            None => r matches Err(e) && e.message@ == spec_sign_error_message(
                opt_text_view(message),
            ),
        },
{
    match signed_url {
        Some(u) => Ok(u),
        None => {
            let m = match message {
                Some(m) => m,
                None => "signing failed".to_owned(),
            };
            Err(StorageError::new(m))
        },
    }
}

/// Reads the signing endpoint's response body: the `signedURL` field on
/// success, else a storage error carrying the body's `message` field.
pub fn signed_url_from_response(body: &str) -> (r: Result<String, StorageError>)
    ensures
        match json_str_field(body@, "signedURL"@) {
            Some(u) => r matches Ok(ru) && ru@ == u,
            None => r matches Err(e) && e.message@ == spec_sign_error_message(
                json_str_field(body@, "message"@),
            ),
        },
{
    let signed = json_string_field(body, "signedURL");
    let message = json_string_field(body, "message");
    signed_url_of_fields(signed, message)
}

} // verus!
