//! Turning an icon file into an embeddable data URL.  The bytes are read by
//! the unverified shell; the encoding and the media-type guess are made by
//! outside crates behind trusted contracts, and the URL is assembled here.

use vstd::prelude::*;
use vstd::string::*;

use base64::Engine;

verus! {

/// The base64 text (standard alphabet, padded) of the given bytes.
pub uninterp spec fn base64_of(bytes: Seq<u8>) -> Seq<char>;

/// The media type guessed from a path's extension alone;
/// `application/octet-stream` when none is known.
pub uninterp spec fn mime_of(path: Seq<char>) -> Seq<char>;

/// Relies on base64's `STANDARD` engine: `encode` returns the padded
/// base64 text of its input, four characters for every started group of
/// three bytes, and depends on the bytes alone.
#[verifier::external_body]
fn base64_encode(bytes: &Vec<u8>) -> (r: String)
    requires
        4 * ((bytes@.len() + 2) / 3) <= usize::MAX,
    ensures
        r@ == base64_of(bytes@),
        r@.len() == 4 * ((bytes@.len() + 2) / 3),
{
    base64::engine::general_purpose::STANDARD.encode(bytes.as_slice())
}

/// Relies on mime_guess's `from_path`: the guess is a pure function of the
/// path, and `first_or_octet_stream` always yields a nonempty type name.
#[verifier::external_body]
fn mime_type_of(path: &str) -> (r: String)
    ensures
        r@ == mime_of(path@),
        r@.len() > 0,
{
    let mime = mime_guess::from_path(path).first_or_octet_stream();
    let name: &str = mime.as_ref();
    name.to_owned()
}

/// The data URL embedding an image file: its guessed media type and the
/// base64 text of its bytes.
pub fn image_to_base64(path: &String, bytes: &Vec<u8>) -> (r: String)
    requires
        4 * ((bytes@.len() + 2) / 3) <= usize::MAX,
    ensures
        r@ == "data:"@ + mime_of(path@) + ";base64,"@ + base64_of(bytes@),
{
    let mut r = String::from_str("data:");
    let mime = mime_type_of(path.as_str());
    r.append(mime.as_str());
    r.append(";base64,");
    let encoded = base64_encode(bytes);
    r.append(encoded.as_str());
    r
}

} // verus!
