//! The computations behind the udev rule callout helpers: comparing two
//! property strings, and recovering a property value that udev rules carry
//! in unpadded base32 (their character set being restricted). The printing
//! of the results is the callout programs' own; what is computed here is
//! the exact output line.

use vstd::prelude::*;
use vstd::string::StringExecFns;
use vstd::string::StringSliceAdditionalSpecFns;
use vstd::utf8::encode_utf8;
use vstd::utf8::valid_utf8;

use crate::errors::{ErrorView, StratisError};

verus! {

/// What unpadded base32 decoding yields on a byte string: the decoded
/// bytes, or nothing when the input is not valid unpadded base32.
pub uninterp spec fn base32_nopad_decoded(input: Seq<u8>) -> Option<Seq<u8>>;

/// Relies on `data_encoding::BASE32_NOPAD.decode`: RFC 4648 base32 without
/// padding, a function of the input bytes alone; it fails exactly on
/// inputs that are not valid unpadded base32. The error text is the
/// decode error's.
#[verifier::external_body]
fn decode_base32(encoded: &str) -> (r: Result<Vec<u8>, String>)
    ensures
        r matches Ok(v) ==> base32_nopad_decoded(encoded.spec_bytes()) == Some(v@),
        r is Err ==> base32_nopad_decoded(encoded.spec_bytes()) is None,
{
    data_encoding::BASE32_NOPAD.decode(encoded.as_bytes()).map_err(|e| format!("{e}"))
}

/// Relies on `String::from_utf8`: succeeds exactly on byte strings that
/// are valid UTF-8, and returns the string those bytes encode. The error
/// text is the conversion error's.
#[verifier::external_body]
fn bytes_to_string(bytes: Vec<u8>) -> (r: Result<String, String>)
    ensures
        r matches Ok(s) ==> valid_utf8(bytes@) && encode_utf8(s@) == bytes@,
        r is Err ==> !valid_utf8(bytes@),
{
    String::from_utf8(bytes).map_err(|e| format!("{e}"))
}

/// Whether a base32-carried value decodes to text: valid unpadded base32
/// whose decoded bytes are valid UTF-8.
pub open spec fn decodes_to_text(input: Seq<u8>) -> bool {
    base32_nopad_decoded(input) matches Some(b) && valid_utf8(b)
}

/// Recover a property value carried in unpadded base32 and render the
/// `name=value` line that hands it back to udev. Fails, with an `Invalid`
/// error, exactly when the input is not valid unpadded base32 or its
/// decoded bytes are not valid UTF-8.
pub fn base32_decode(var_name: &str, encoded: &str) -> (r: Result<String, StratisError>)
    ensures
        r is Ok <==> decodes_to_text(encoded.spec_bytes()),
        r matches Ok(line) ==> exists|decoded: Seq<char>|
            #![auto]
            base32_nopad_decoded(encoded.spec_bytes()) == Some(encode_utf8(decoded)) && line@
                == var_name@ + "="@ + decoded,
        r matches Err(e) ==> e@ is Invalid,
{
    let bytes = match decode_base32(encoded) {
        Ok(v) => v,
        Err(m) => {
            return Err(StratisError::Invalid(m));
        },
    };
    let text = match bytes_to_string(bytes) {
        Ok(s) => s,
        Err(m) => {
            return Err(StratisError::Invalid(m));
        },
    };
    let line = String::from_str(var_name).concat("=").concat(text.as_str());
    proof {
        assert(base32_nopad_decoded(encoded.spec_bytes()) == Some(encode_utf8(text@)) && line@
            == var_name@ + "="@ + text@);
    }
    Ok(line)
}

/// Compare two strings and give the line a udev rule expects on stdout:
/// `0` when they match and `1` when they do not.
pub fn string_compare(arg1: &str, arg2: &str) -> (r: String)
    ensures
        r@ == (if arg1@ == arg2@ {
            "0"@
        } else {
            "1"@
        }),
{
    if arg1.to_owned() == arg2.to_owned() {
        String::from_str("0")
    } else {
        String::from_str("1")
    }
}

} // verus!
