//! Reading a file as text: what to return for what the platform handed
//! back.

use crate::error::{open_error, Fault, IoError};
use vstd::prelude::*;
use vstd::utf8::{decode_utf8, valid_utf8};

verus! {

/// `FromUtf8Error` of the standard library, which `String::from_utf8`
/// returns for bytes that it rejects. Nothing here looks inside it.
#[verifier::external_type_specification]
#[verifier::external_body]
pub struct ExFromUtf8Error(std::string::FromUtf8Error);

/// `String::from_utf8` of the standard library: it succeeds exactly on
/// bytes that are valid UTF-8, and the string it then returns holds the
/// characters that those bytes encode.
pub assume_specification[ String::from_utf8 ](vec: Vec<u8>) -> (res: Result<
    String,
    std::string::FromUtf8Error,
>)
    ensures
        res is Ok <==> valid_utf8(vec@),
        res matches Ok(s) ==> s@ == decode_utf8(vec@),
;

/// The text of a file, given what fetching its bytes brought: the fault
/// turned into an error where the file could not be opened, else the bytes
/// decoded as UTF-8, or `DecodeError` where they are not valid UTF-8.
pub open spec fn text_of(fetched: Result<Seq<u8>, Fault>) -> Result<Seq<char>, IoError> {
    match fetched {
        Err(fault) => Err(open_error(fault)),
        Ok(bytes) => if valid_utf8(bytes) {
            Ok(decode_utf8(bytes))
        } else {
            Err(IoError::DecodeError)
        },
    }
}

/// What `fetched` holds, with the bytes as a sequence.
pub open spec fn fetched_view(fetched: Result<Vec<u8>, Fault>) -> Result<Seq<u8>, Fault> {
    match fetched {
        Ok(bytes) => Ok(bytes@),
        Err(fault) => Err(fault),
    }
}

/// The content of a file as one string.
///
/// `fetched` is what opening the file and reading it to its end brought:
/// all its bytes, or the fault that stopped the open or the read. A fault
/// gives `PermissionDenied` where access was refused and `NotFound`
/// otherwise, as for a missing file; bytes that are not valid UTF-8 give
/// `DecodeError`; any other bytes give their text.
pub fn read_content(fetched: Result<Vec<u8>, Fault>) -> (out: Result<String, IoError>)
    ensures
        match text_of(fetched_view(fetched)) {
            Ok(text) => out matches Ok(s) && s@ == text,
            Err(err) => out == Err::<String, IoError>(err),
        },
{
    match fetched {
        Err(fault) => Err(IoError::from_open_fault(fault)),
        Ok(bytes) => match String::from_utf8(bytes) {
            Ok(text) => Ok(text),
            Err(_) => Err(IoError::DecodeError),
        },
    }
}

/// Whether a file is there to be read, given how the attempt to open it
/// for reading ended.
pub fn read_content_two(opened: Result<(), Fault>) -> (readable: bool)
    ensures
        readable == (opened is Ok),
{
    opened.is_ok()
}

} // verus!
