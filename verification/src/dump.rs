//! Rendering a whole DICOM document as standard DICOM JSON, and the
//! value-preview truncation used when datasets are dumped as text.

use crate::errors::ExchangeError;
use vstd::prelude::*;
use vstd::string::StringSliceAdditionalSpecFns;
use vstd::utf8::decode_utf8;
use vstd::utf8::encode_utf8_decode_utf8;
use vstd::utf8::is_char_boundary;

verus! {

/// The standard DICOM JSON rendering of a DICOM file's bytes, as the
/// `dicom` crates produce it: `None` when the bytes are not a readable
/// DICOM file. A function of the file bytes alone.
pub uninterp spec fn dicom_json(bytes: Seq<u8>) -> Option<Seq<char>>;

/// Renders a DICOM file's bytes as DICOM JSON.
///
/// Relies on `from_reader` of `dicom-object` and on `to_string` of
/// `dicom-json`: the rendering is a function of the file bytes alone.
#[verifier::external_body]
fn render_json_raw(bytes: &Vec<u8>) -> (r: Result<String, ExchangeError>)
    ensures
        r matches Ok(s) ==> dicom_json(bytes@) == Some(s@),
        r matches Err(e) ==> dicom_json(bytes@) is None && e is InvalidDocument,
{
    let obj = dicom::object::from_reader(bytes.as_slice())
        .map_err(|_| ExchangeError::InvalidDocument)?;
    dicom_json::to_string(&obj).map_err(|_| ExchangeError::InvalidDocument)
}

/// Renders a DICOM file's bytes as standard DICOM JSON (lossless,
/// including sequences and pixel data): succeeds exactly when the bytes
/// are a readable DICOM file, and returns that rendering.
pub fn dump_to_json(bytes: &Vec<u8>) -> (r: Result<String, ExchangeError>)
    ensures
        r matches Ok(s) ==> dicom_json(bytes@) == Some(s@),
        r matches Err(e) ==> dicom_json(bytes@) is None && e is InvalidDocument,
{
    render_json_raw(bytes)
}

/// Shortens a value preview to at most `limit` bytes of its UTF-8
/// form; a longer input is cut at that byte index and an ellipsis
/// appended. The cut index must fall on a character boundary — slicing
/// inside a character has no text meaning.
pub fn truncate(input: &str, limit: usize) -> (r: String)
    requires
        input.spec_bytes().len() <= limit || is_char_boundary(input.spec_bytes(), limit as int),
    ensures
        input.spec_bytes().len() <= limit ==> r@ == input@,
        input.spec_bytes().len() > limit ==> r@ == decode_utf8(
            input.spec_bytes().subrange(0, limit as int),
        ) + "…"@,
{
    let byte_len = input.as_bytes().len();
    if byte_len <= limit {
        input.to_owned()
    } else {
        let (prefix, _) = input.split_at(limit);
        proof {
            encode_utf8_decode_utf8(prefix@);
            assert(prefix.spec_bytes() =~= input.spec_bytes().subrange(0, limit as int));
            assert(decode_utf8(input.spec_bytes().subrange(0, limit as int)) == prefix@);
        }
        let mut truncated = String::from_str(prefix);
        truncated.append("…");
        truncated
    }
}

} // verus!
