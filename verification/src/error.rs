//! The refusals of the readers and the decoders.

use vstd::prelude::*;

verus! {

/// Why a read or a decode step was refused.
///
/// Every failure is final for the step that raised it: the callers in this
/// crate hand the value on unchanged and never retry.
#[derive(Debug, Clone, Copy, PartialEq, Eq)]
pub enum ErrorType {
    /// The sync pattern is not `0xFFF`, or the layer is not Layer III.
    InvalidHeader,
    /// The requested bit range reaches past the end of the byte sequence.
    OutOfIndex,
    /// More than 32 bits were requested at once, or the side information
    /// claims more main data than the stream and the reservoir hold.
    Overflow,
    /// The layer bits are `00`.
    UnknownLayer,
    /// The version value is neither 0 nor 1.
    UnknownVersion,
    /// No bitrate table holds the (version, layer, index) combination.
    UnknownBitrate,
    /// No frequency table holds the (version, index) combination.
    UnknownFrequency,
    /// The channel-mode value is above 3.
    UnknownMode,
    /// `big_values` is above 288.
    BigValuesOutOfRange,
    /// Window switching is set and the block type is 0.
    BlockTypeForbidden,
}

/// An outcome agrees with its model: the same refusal, or a value whose
/// view is the model's value.
pub open spec fn decoded_as<T: View>(
    result: Result<T, ErrorType>,
    model: Result<T::V, ErrorType>,
) -> bool {
    match (result, model) {
        (Ok(value), Ok(view)) => value@ == view,
        (Err(error), Err(refusal)) => error == refusal,
        _ => false,
    }
}

} // verus!
