//! The resolution forwarder. A resolve invocation ends in a request to the
//! remote resolver service: the transaction's IR bytecode hex-encoded, a
//! fixed encoding tag, the IR version, and the coerced arguments. Sending
//! the request is outside the library; building it and mapping the
//! service's outcome back to the caller are verified here.

use vstd::prelude::*;
use crate::errors::{ToolError, ToolErrorV};
use crate::model::{result_view, ArgValue, ArgValueV};

verus! {

/// The lowercase hexadecimal digit of a nibble value.
pub open spec fn hex_digit(n: int) -> char {
    if n == 0 {
        '0'
    } else if n == 1 {
        '1'
    } else if n == 2 {
        '2'
    } else if n == 3 {
        '3'
    } else if n == 4 {
        '4'
    } else if n == 5 {
        '5'
    } else if n == 6 {
        '6'
    } else if n == 7 {
        '7'
    } else if n == 8 {
        '8'
    } else if n == 9 {
        '9'
    } else if n == 10 {
        'a'
    } else if n == 11 {
        'b'
    } else if n == 12 {
        'c'
    } else if n == 13 {
        'd'
    } else if n == 14 {
        'e'
    } else {
        'f'
    }
}

/// The lowercase hexadecimal encoding of a byte sequence: two digits per
/// byte, high nibble first.
pub open spec fn hex_of(b: Seq<u8>) -> Seq<char>
    decreases b.len(),
{
    if b.len() == 0 {
        Seq::empty()
    } else {
        hex_of(b.drop_last()) + seq![
            hex_digit(b.last() as int / 16),
            hex_digit(b.last() as int % 16),
        ]
    }
}

/// Relies on `hex::encode`: lowercase hexadecimal, two digits for each
/// byte, high nibble first.
#[verifier::external_body]
fn hex_encode(bytes: &Vec<u8>) -> (r: String)
    ensures
        r@ == hex_of(bytes@),
{
    String::from(hex::encode(bytes.as_slice()))
}

/// The request forwarded to the resolver service.
#[derive(Clone, Debug)]
pub struct ResolutionRequest {
    pub bytecode: String,
    pub encoding: String,
    pub version: String,
    pub args: Vec<(String, ArgValue)>,
}

/// Mathematical view of a [`ResolutionRequest`].
#[verifier::ext_equal]
pub struct ResolutionRequestV {
    pub bytecode: Seq<char>,
    pub encoding: Seq<char>,
    pub version: Seq<char>,
    pub args: Seq<(Seq<char>, ArgValueV)>,
}

impl View for ResolutionRequest {
    type V = ResolutionRequestV;

    open spec fn view(&self) -> ResolutionRequestV {
        ResolutionRequestV {
            bytecode: self.bytecode@,
            encoding: self.encoding@,
            version: self.version@,
            args: self.args.deep_view(),
        }
    }
}

impl DeepView for ResolutionRequest {
    type V = ResolutionRequestV;

    open spec fn deep_view(&self) -> ResolutionRequestV {
        self@
    }
}

/// Builds the resolution request: the IR bytes hex-encoded, the fixed
/// `"hex"` encoding tag, and the version and coerced arguments carried
/// through unchanged.
pub fn build_resolution_request(ir: &Vec<u8>, version: String, args: Vec<(String, ArgValue)>) -> (r:
    ResolutionRequest)
    ensures
        r@.bytecode == hex_of(ir@),
        r@.encoding == "hex"@,
        r@.version == version@,
        r@.args == args.deep_view(),
{
    ResolutionRequest {
        bytecode: hex_encode(ir),
        encoding: String::from_str("hex"),
        version,
        args,
    }
}

/// Maps the resolver service's outcome back to the caller: a success's
/// transaction payload is returned unchanged, and a failure's message is
/// wrapped verbatim in a resolution error.
pub fn resolution_reply(outcome: Result<String, String>) -> (r: Result<String, ToolError>)
    ensures
        result_view(r) == match result_view(outcome) {
            Ok(tx) => Ok::<Seq<char>, ToolErrorV>(tx),
            Err(m) => Err(ToolErrorV::Resolution { message: m }),
        },
{
    match outcome {
        Ok(tx) => Ok(tx),
        Err(m) => Err(ToolError::Resolution { message: m }),
    }
}

} // verus!
