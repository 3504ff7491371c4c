//! The grammar of the version envelopes and of the bridged message.

use vstd::prelude::*;
use crate::error::{DecodeError, Decoded, Kind, Parsed, decoded};
use crate::codec::wire::{copy_range, decode_variant, parse_variant};
use crate::codec::junction::{decode_junctions, parse_junctions};
use crate::codec::instruction::{decode_xcm, parse_xcm};
use crate::codec::legacy::{
    lemma_legacy_junctions_progress, skip_legacy_junctions, walk_legacy_junctions,
};
use crate::codec::legacy_program::{lemma_legacy_xcm_progress, skip_legacy_xcm, walk_legacy_xcm};
use crate::model::envelope::{
    BridgeMessage, BridgeMessageView, VersionedInteriorLocation, VersionedInteriorLocationView,
    VersionedXcm, VersionedXcmView,
};

verus! {

/// The version tag of an envelope of the union `kind`: 3, 4 or 5.
pub open spec fn parse_version(s: Seq<u8>, pos: int, kind: Kind) -> Parsed<u8> {
    match parse_variant(s, pos, kind, 6) {
        Err(e) => Err(e),
        Ok((v, p)) => if v >= 3 {
            Ok((v, p))
        } else {
            Err(DecodeError::UnknownVariant(kind, v))
        },
    }
}

/// A version tag, then the junctions in the grammar of that version.
pub open spec fn parse_versioned_interior_location(s: Seq<u8>, pos: int) -> Parsed<
    VersionedInteriorLocationView,
> {
    match parse_version(s, pos, Kind::VersionedInteriorLocation) {
        Err(e) => Err(e),
        Ok((version, p)) => if version == 5 {
            match parse_junctions(s, p) {
                Err(e) => Err(e),
                Ok((interior, q)) => Ok((VersionedInteriorLocationView::V5(interior), q)),
            }
        } else {
            match skip_legacy_junctions(s, p) {
                Err(e) => Err(e),
                Ok((_, q)) => Ok(
                    (
                        VersionedInteriorLocationView::Unsupported {
                            version,
                            encoded: s.subrange(p, q),
                        },
                        q,
                    ),
                ),
            }
        },
    }
}

/// A version tag, then a program in the grammar of that version.
pub open spec fn parse_versioned_xcm(s: Seq<u8>, pos: int) -> Parsed<VersionedXcmView> {
    match parse_version(s, pos, Kind::VersionedXcm) {
        Err(e) => Err(e),
        Ok((version, p)) => if version == 5 {
            match parse_xcm(s, p) {
                Err(e) => Err(e),
                Ok((xcm, q)) => Ok((VersionedXcmView::V5(xcm), q)),
            }
        } else {
            match skip_legacy_xcm(s, p, version == 3) {
                Err(e) => Err(e),
                Ok((_, q)) => Ok(
                    (VersionedXcmView::Unsupported { version, encoded: s.subrange(p, q) }, q),
                ),
            }
        },
    }
}

/// The destination, then the message, with nothing between them.
pub open spec fn parse_bridge_message(s: Seq<u8>, pos: int) -> Parsed<BridgeMessageView> {
    match parse_versioned_interior_location(s, pos) {
        Err(e) => Err(e),
        Ok((universal_dest, p)) => match parse_versioned_xcm(s, p) {
            Err(e) => Err(e),
            Ok((message, q)) => Ok((BridgeMessageView { universal_dest, message }, q)),
        },
    }
}

/// Reads the version tag of an envelope of the union `kind`.
pub fn decode_version(input: &[u8], pos: usize, kind: Kind) -> (r: Decoded<u8>)
    ensures
        decoded(r) == parse_version(input@, pos as int, kind),
{
    let (v, p) = decode_variant(input, pos, kind, 6)?;
    if v >= 3 {
        Ok((v, p))
    } else {
        Err(DecodeError::UnknownVariant(kind, v))
    }
}

/// Reads a versioned destination that begins at `pos`.
pub fn decode_versioned_interior_location(input: &[u8], pos: usize) -> (r: Decoded<
    VersionedInteriorLocation,
>)
    ensures
        decoded(r) == parse_versioned_interior_location(input@, pos as int),
{
    let (version, p) = decode_version(input, pos, Kind::VersionedInteriorLocation)?;
    if version == 5 {
        let (interior, q) = decode_junctions(input, p)?;
        Ok((VersionedInteriorLocation::V5(interior), q))
    } else {
        let q = walk_legacy_junctions(input, p)?;
        proof {
            lemma_legacy_junctions_progress(input@, p as int);
        }
        let encoded = copy_range(input, p, q);
        Ok((VersionedInteriorLocation::Unsupported { version, encoded }, q))
    }
}

/// Reads a versioned program that begins at `pos`.
pub fn decode_versioned_xcm(input: &[u8], pos: usize) -> (r: Decoded<VersionedXcm>)
    ensures
        decoded(r) == parse_versioned_xcm(input@, pos as int),
{
    let (version, p) = decode_version(input, pos, Kind::VersionedXcm)?;
    if version == 5 {
        let (xcm, q) = decode_xcm(input, p)?;
        Ok((VersionedXcm::V5(xcm), q))
    } else {
        let q = walk_legacy_xcm(input, p, version == 3)?;
        proof {
            lemma_legacy_xcm_progress(input@, p as int, version == 3);
        }
        let encoded = copy_range(input, p, q);
        Ok((VersionedXcm::Unsupported { version, encoded }, q))
    }
}

/// Reads a bridged message that begins at `pos`: the destination, then the
/// message. On success the whole message is returned with the position
/// after it; on failure nothing of it is.
pub fn decode_bridge_message(input: &[u8], pos: usize) -> (r: Decoded<BridgeMessage>)
    ensures
        decoded(r) == parse_bridge_message(input@, pos as int),
{
    let (universal_dest, p) = decode_versioned_interior_location(input, pos)?;
    let (message, q) = decode_versioned_xcm(input, p)?;
    Ok((BridgeMessage { universal_dest, message }, q))
}

} // verus!
