//! Size expressions such as `1 MB` or `512 KiB`, read by the `human_size` crate.

use vstd::prelude::*;
use vstd::utf8::is_ascii_chars;
use crate::error::PassError;

verus! {

/// The error with which `human_size` refuses a size expression.
#[verifier::external_type_specification]
#[verifier::external_body]
pub struct ExParsingError(human_size::ParsingError);

/// The number of bytes that `human_size` reads from a size expression: the
/// value times its multiple, as `SpecificSize::to_bytes` gives it. `None`
/// where the crate refuses the text.
pub uninterp spec fn size_in_bytes(text: Seq<char>) -> Option<u64>;

/// Parses `text` as a `human_size::Size` and converts it with `to_bytes`.
/// The result depends on the text alone. Only ASCII text is handed over: the
/// crate splits the text at a character count, which is a byte offset only
/// there.
#[verifier::external_body]
fn parse_size(text: &str) -> (r: Result<u64, human_size::ParsingError>)
    requires
        is_ascii_chars(text@),
    ensures
        r is Ok <==> size_in_bytes(text@) is Some,
        r matches Ok(bytes) ==> size_in_bytes(text@) == Some(bytes),
{
    match text.parse::<human_size::Size>() {
        Ok(size) => Ok(size.to_bytes()),
        Err(e) => Err(e),
    }
}

/// The minimum size that a size expression stands for. An expression with a
/// character outside ASCII is no size expression.
pub open spec fn min_size_of(text: Seq<char>) -> Result<u64, PassError> {
    if !is_ascii_chars(text) {
        Err(PassError::InvalidMinSize)
    } else {
        match size_in_bytes(text) {
            Some(bytes) => Ok(bytes),
            None => Err(PassError::InvalidMinSize),
        }
    }
}

/// Reads a size expression as a number of bytes.
pub fn parse_min_size(text: &str) -> (r: Result<u64, PassError>)
    ensures
        r == min_size_of(text@),
{
    if !text.is_ascii() {
        return Err(PassError::InvalidMinSize);
    }
    match parse_size(text) {
        Ok(bytes) => Ok(bytes),
        Err(_) => Err(PassError::InvalidMinSize),
    }
}

} // verus!
