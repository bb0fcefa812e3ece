//! Portrait images as data URLs.

use base64::prelude::BASE64_STANDARD;
use base64::Engine;
use vstd::prelude::*;
use vstd::string::*;

verus! {

/// The text that the standard base64 alphabet with padding gives for a
/// sequence of bytes.
pub uninterp spec fn base64_standard(data: Seq<u8>) -> Seq<char>;

/// Length of the base64 text of `len` bytes: four characters for every three
/// bytes or part of them.
pub open spec fn base64_len(len: nat) -> nat {
    (len / 3) * 4 + if len % 3 > 0 {
        4nat
    } else {
        0nat
    }
}

/// What a data URL of a PNG image begins with.
pub open spec fn data_url_prefix() -> Seq<char> {
    "data:image/png;base64,"@
}

/// Calls `Engine::encode` on `BASE64_STANDARD`: claims that the text depends
/// on the bytes alone. The call panics where the length of the text
/// overflows or the text cannot be allocated; such inputs are left out.
#[verifier::external_body]
fn encode_base64(data: &[u8]) -> (text: String)
    requires
        base64_len(data@.len()) <= isize::MAX,
    ensures
        text@ == base64_standard(data@),
{
    BASE64_STANDARD.encode(data)
}

/// Whether the base64 text of `len` bytes can be allocated.
pub fn fits_base64(len: usize) -> (b: bool)
    ensures
        b == (base64_len(len as nat) <= isize::MAX),
{
    let whole: usize = len / 3;
    let padded: usize = if len % 3 > 0 {
        4
    } else {
        0
    };
    whole <= (isize::MAX as usize - padded) / 4
}

/// The data URL of a PNG image with the given bytes: the prefix, then the
/// bytes in base64.
pub fn image_data_url(data: &[u8]) -> (url: String)
    requires
        base64_len(data@.len()) <= isize::MAX,
    ensures
        url@ == data_url_prefix() + base64_standard(data@),
{
    let text = encode_base64(data);
    String::from_str("data:image/png;base64,").concat(text.as_str())
}

/// The data URL of a PNG image, or `None` where the image is so large that
/// its base64 text cannot be allocated.
pub fn other_read_image(data: &[u8]) -> (url: Option<String>)
    ensures
        url is Some <==> base64_len(data@.len()) <= isize::MAX,
        url is Some ==> url->0@ == data_url_prefix() + base64_standard(data@),
{
    if fits_base64(data.len()) {
        Some(image_data_url(data))
    } else {
        None
    }
}

} // verus!
