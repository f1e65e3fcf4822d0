//! Images as `data:` URLs, for embedding a capture in a page.

use base64::Engine;
use vstd::prelude::*;

verus! {

/// The base64 text of a byte sequence in the standard alphabet, with padding:
/// what the `STANDARD` engine of the `base64` crate writes for it.
pub uninterp spec fn base64_standard(bytes: Seq<u8>) -> Seq<char>;

/// Encodes bytes as base64 with `Engine::encode` of the `base64` crate, on its
/// `STANDARD` engine. The contract claims that the text depends on the bytes
/// alone, and gives that text its name. (The encoder fails only where the
/// length of the text does not fit a `usize`, which no slice is long enough to
/// cause.)
#[verifier::external_body]
fn encode_base64(bytes: &[u8]) -> (encoded: String)
    ensures
        encoded@ == base64_standard(bytes@),
{
    base64::engine::general_purpose::STANDARD.encode(bytes)
}

/// The `data:` URL of a PNG image whose base64 text is `encoded`.
pub open spec fn png_data_url(encoded: Seq<char>) -> Seq<char> {
    "data:image/png;base64,"@ + encoded
}

/// Writes the `data:` URL of a PNG image from the base64 text of its bytes.
pub fn data_url_from_base64(encoded: &str) -> (url: String)
    ensures
        url@ == png_data_url(encoded@),
{
    let mut url = "data:image/png;base64,".to_owned();
    url.append(encoded);
    url
}

/// Writes the `data:` URL of a PNG image from its bytes.
pub fn image_data_url(image: &[u8]) -> (url: String)
    ensures
        url@ == png_data_url(base64_standard(image@)),
{
    let encoded = encode_base64(image);
    data_url_from_base64(encoded.as_str())
}

} // verus!
