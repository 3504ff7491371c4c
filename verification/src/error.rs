//! Error kinds reported by the decoders.

use vstd::prelude::*;

verus! {

/// The tagged unions of the grammar, named in [`DecodeError::UnknownVariant`].
#[derive(Clone, Copy, Debug, PartialEq, Eq)]
pub enum Kind {
    Bool,
    Option,
    NetworkId,
    BodyId,
    BodyPart,
    Junction,
    Junctions,
    AssetId,
    AssetInstance,
    Fungibility,
    WildFungibility,
    WildAsset,
    AssetFilter,
    AssetTransferFilter,
    WeightLimit,
    OriginKind,
    XcmError,
    MaybeErrorCode,
    Response,
    Hint,
    Instruction,
    VersionedInteriorLocation,
    VersionedXcm,
}

/// Why a decode stopped. A decode either yields a whole value or one of
/// these; it never yields part of a value.
#[derive(Clone, Copy, Debug, PartialEq, Eq)]
pub enum DecodeError {
    /// The input ended before a required field or element was complete.
    IncompleteInput,
    /// A discriminant byte names no variant of the union being decoded.
    UnknownVariant(Kind, u8),
    /// A version envelope carries a known tag whose payload is decoded only
    /// structurally and cannot be rendered in detail.
    UnsupportedVersion(u8),
    /// An integer on the wire does not fit the width of its field.
    OutOfRange,
}

/// The outcome of a spec-level parser: the value and the position after it.
pub type Parsed<T> = Result<(T, int), DecodeError>;

/// Whether a parser stopped for want of input.
pub open spec fn is_incomplete<T>(r: Parsed<T>) -> bool {
    r == Err::<(T, int), _>(DecodeError::IncompleteInput)
}

/// The outcome of an executable decoder.
pub type Decoded<T> = Result<(T, usize), DecodeError>;

/// The mathematical reading of an executable decoder's outcome.
pub open spec fn decoded<T: View>(r: Decoded<T>) -> Parsed<T::V> {
    match r {
        Ok((v, end)) => Ok((v@, end as int)),
        Err(e) => Err(e),
    }
}

/// The mathematical reading of a decoder's outcome when the value is
/// optional.
pub open spec fn decoded_opt<T: View>(r: Decoded<Option<T>>) -> Parsed<Option<T::V>> {
    match r {
        Ok((Some(v), end)) => Ok((Some(v@), end as int)),
        Ok((None, end)) => Ok((None, end as int)),
        Err(e) => Err(e),
    }
}

} // verus!
