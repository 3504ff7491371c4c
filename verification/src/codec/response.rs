//! The grammar of weights, error codes and responses.

use vstd::prelude::*;
use crate::error::{DecodeError, Decoded, Kind, Parsed, decoded, decoded_opt};
use crate::codec::wire::{
    decode_bytes, decode_compact, decode_compact_u32, decode_compact_u64, decode_u32, decode_u64,
    decode_variant, parse_bytes, parse_compact, parse_compact_u32, parse_compact_u64, parse_u32,
    parse_u64, parse_variant,
};
use crate::codec::junction::{
    decode_location, lemma_repeat_err, lemma_repeat_next, lemma_repeat_none, lemma_views_push,
    parse_location, parse_repeat,
};
use crate::codec::asset::{decode_assets, parse_assets};
use crate::model::junction::views;
use crate::model::response::{
    Hint, HintView, MaybeErrorCode, MaybeErrorCodeView, OriginKind, PalletInfo, PalletInfoView,
    QueryResponseInfo, QueryResponseInfoView, Response, ResponseView, Weight, WeightLimit,
    XcmError,
};

verus! {

/// Two compact 64-bit integers: time, then proof size.
pub open spec fn parse_weight(s: Seq<u8>, pos: int) -> Parsed<Weight> {
    match parse_compact_u64(s, pos) {
        Err(e) => Err(e),
        Ok((ref_time, p)) => match parse_compact_u64(s, p) {
            Err(e) => Err(e),
            Ok((proof_size, q)) => Ok((Weight { ref_time, proof_size }, q)),
        },
    }
}

/// An optional weight: absent, or present and followed by it.
pub open spec fn parse_opt_weight(s: Seq<u8>, pos: int) -> Parsed<Option<Weight>> {
    match parse_variant(s, pos, Kind::Option, 2) {
        Err(e) => Err(e),
        Ok((d, p)) => if d == 0 {
            Ok((None, p))
        } else {
            match parse_weight(s, p) {
                Err(e) => Err(e),
                Ok((w, q)) => Ok((Some(w), q)),
            }
        },
    }
}

/// A weight limit: its discriminant, then the fields of that variant.
pub open spec fn parse_weight_limit(s: Seq<u8>, pos: int) -> Parsed<WeightLimit> {
    match parse_variant(s, pos, Kind::WeightLimit, 2) {
        Err(e) => Err(e),
        Ok((d, p)) => if d == 0 {
            Ok((WeightLimit::Unlimited, p))
        } else {
            match parse_weight(s, p) {
                Err(e) => Err(e),
                Ok((w, q)) => Ok((WeightLimit::Limited(w), q)),
            }
        },
    }
}

/// An origin kind: its discriminant, then the fields of that variant.
pub open spec fn parse_origin_kind(s: Seq<u8>, pos: int) -> Parsed<OriginKind> {
    match parse_variant(s, pos, Kind::OriginKind, 4) {
        Err(e) => Err(e),
        Ok((d, p)) => match d {
            0 => Ok((OriginKind::Native, p)),
            1 => Ok((OriginKind::SovereignAccount, p)),
            2 => Ok((OriginKind::Superuser, p)),
            _ => Ok((OriginKind::Xcm, p)),
        },
    }
}

/// An executor error: its discriminant, then the fields of that variant.
pub open spec fn parse_xcm_error(s: Seq<u8>, pos: int) -> Parsed<XcmError> {
    match parse_variant(s, pos, Kind::XcmError, 41) {
        Err(e) => Err(e),
        Ok((d, p)) => match d {
            0 => Ok((XcmError::Overflow, p)),
            1 => Ok((XcmError::Unimplemented, p)),
            2 => Ok((XcmError::UntrustedReserveLocation, p)),
            3 => Ok((XcmError::UntrustedTeleportLocation, p)),
            4 => Ok((XcmError::LocationFull, p)),
            5 => Ok((XcmError::LocationNotInvertible, p)),
            6 => Ok((XcmError::BadOrigin, p)),
            7 => Ok((XcmError::InvalidLocation, p)),
            8 => Ok((XcmError::AssetNotFound, p)),
            9 => Ok((XcmError::FailedToTransactAsset, p)),
            10 => Ok((XcmError::NotWithdrawable, p)),
            11 => Ok((XcmError::LocationCannotHold, p)),
            12 => Ok((XcmError::ExceedsMaxMessageSize, p)),
            13 => Ok((XcmError::DestinationUnsupported, p)),
            14 => Ok((XcmError::Transport, p)),
            15 => Ok((XcmError::Unroutable, p)),
            16 => Ok((XcmError::UnknownClaim, p)),
            17 => Ok((XcmError::FailedToDecode, p)),
            18 => Ok((XcmError::MaxWeightInvalid, p)),
            19 => Ok((XcmError::NotHoldingFees, p)),
            20 => Ok((XcmError::TooExpensive, p)),
            21 => match parse_u64(s, p) {
                Err(e) => Err(e),
                Ok((code, q)) => Ok((XcmError::Trap(code), q)),
            },
            22 => Ok((XcmError::ExpectationFalse, p)),
            23 => Ok((XcmError::PalletNotFound, p)),
            24 => Ok((XcmError::NameMismatch, p)),
            25 => Ok((XcmError::VersionIncompatible, p)),
            26 => Ok((XcmError::HoldingWouldOverflow, p)),
            27 => Ok((XcmError::ExportError, p)),
            28 => Ok((XcmError::ReanchorFailed, p)),
            29 => Ok((XcmError::NoDeal, p)),
            30 => Ok((XcmError::FeesNotMet, p)),
            31 => Ok((XcmError::LockError, p)),
            32 => Ok((XcmError::NoPermission, p)),
            33 => Ok((XcmError::Unanchored, p)),
            34 => Ok((XcmError::NotDepositable, p)),
            35 => Ok((XcmError::TooManyAssets, p)),
            36 => Ok((XcmError::UnhandledXcmVersion, p)),
            37 => match parse_weight(s, p) {
                Err(e) => Err(e),
                Ok((w, q)) => Ok((XcmError::WeightLimitReached(w), q)),
            },
            38 => Ok((XcmError::Barrier, p)),
            39 => Ok((XcmError::WeightNotComputable, p)),
            _ => Ok((XcmError::ExceedsStackLimit, p)),
        },
    }
}

/// An optional pair of an instruction index and the error raised there.
pub open spec fn parse_opt_error(s: Seq<u8>, pos: int) -> Parsed<Option<(u32, XcmError)>> {
    match parse_variant(s, pos, Kind::Option, 2) {
        Err(e) => Err(e),
        Ok((d, p)) => if d == 0 {
            Ok((None, p))
        } else {
            match parse_u32(s, p) {
                Err(e) => Err(e),
                Ok((index, q)) => match parse_xcm_error(s, q) {
                    Err(e) => Err(e),
                    Ok((error, r)) => Ok((Some((index, error)), r)),
                },
            }
        },
    }
}

/// A compact length, then that many bytes.
pub open spec fn parse_byte_vec(s: Seq<u8>, pos: int) -> Parsed<Seq<u8>> {
    match parse_compact(s, pos) {
        Err(e) => Err(e),
        Ok((n, p)) => parse_bytes(s, p, n as nat),
    }
}

/// A dispatch outcome: its discriminant, then the fields of that variant.
pub open spec fn parse_maybe_error_code(s: Seq<u8>, pos: int) -> Parsed<MaybeErrorCodeView> {
    match parse_variant(s, pos, Kind::MaybeErrorCode, 3) {
        Err(e) => Err(e),
        Ok((d, p)) => match d {
            0 => Ok((MaybeErrorCodeView::Success, p)),
            1 => match parse_byte_vec(s, p) {
                Err(e) => Err(e),
                Ok((code, q)) => Ok((MaybeErrorCodeView::Error(code), q)),
            },
            _ => match parse_byte_vec(s, p) {
                Err(e) => Err(e),
                Ok((code, q)) => Ok((MaybeErrorCodeView::TruncatedError(code), q)),
            },
        },
    }
}

/// The three compact 32-bit parts of a version.
pub open spec fn parse_semver(s: Seq<u8>, pos: int) -> Parsed<(u32, u32, u32)> {
    match parse_compact_u32(s, pos) {
        Err(e) => Err(e),
        Ok((major, p)) => match parse_compact_u32(s, p) {
            Err(e) => Err(e),
            Ok((minor, q)) => match parse_compact_u32(s, q) {
                Err(e) => Err(e),
                Ok((patch, r)) => Ok(((major, minor, patch), r)),
            },
        },
    }
}

/// A pallet description: its fields in their order.
pub open spec fn parse_pallet_info(s: Seq<u8>, pos: int) -> Parsed<PalletInfoView> {
    match parse_compact_u32(s, pos) {
        Err(e) => Err(e),
        Ok((index, p)) => match parse_byte_vec(s, p) {
            Err(e) => Err(e),
            Ok((name, q)) => match parse_byte_vec(s, q) {
                Err(e) => Err(e),
                Ok((module_name, r)) => match parse_semver(s, r) {
                    Err(e) => Err(e),
                    Ok((v, t)) => Ok(
                        (
                            PalletInfoView {
                                index,
                                name,
                                module_name,
                                major: v.0,
                                minor: v.1,
                                patch: v.2,
                            },
                            t,
                        ),
                    ),
                },
            },
        },
    }
}

/// The parser of one pallet description, as a value.
pub open spec fn pallet_info_parser() -> spec_fn(Seq<u8>, int) -> Parsed<PalletInfoView> {
    |s: Seq<u8>, pos: int| parse_pallet_info(s, pos)
}

/// A compact count, then that many pallet descriptions.
pub open spec fn parse_pallet_infos(s: Seq<u8>, pos: int) -> Parsed<Seq<PalletInfoView>> {
    match parse_compact(s, pos) {
        Err(e) => Err(e),
        Ok((count, p)) => parse_repeat(pallet_info_parser(), s, p, count as nat),
    }
}

/// A response: its discriminant, then the fields of that variant.
pub open spec fn parse_response(s: Seq<u8>, pos: int) -> Parsed<ResponseView> {
    match parse_variant(s, pos, Kind::Response, 6) {
        Err(e) => Err(e),
        Ok((d, p)) => match d {
            0 => Ok((ResponseView::Null, p)),
            1 => match parse_assets(s, p) {
                Err(e) => Err(e),
                Ok((assets, q)) => Ok((ResponseView::Assets(assets), q)),
            },
            2 => match parse_opt_error(s, p) {
                Err(e) => Err(e),
                Ok((result, q)) => Ok((ResponseView::ExecutionResult(result), q)),
            },
            3 => match parse_u32(s, p) {
                Err(e) => Err(e),
                Ok((v, q)) => Ok((ResponseView::Version(v), q)),
            },
            4 => match parse_pallet_infos(s, p) {
                Err(e) => Err(e),
                Ok((infos, q)) => Ok((ResponseView::PalletsInfo(infos), q)),
            },
            _ => match parse_maybe_error_code(s, p) {
                Err(e) => Err(e),
                Ok((code, q)) => Ok((ResponseView::DispatchResult(code), q)),
            },
        },
    }
}

/// A description of where to answer: its fields in their order.
pub open spec fn parse_query_response_info(s: Seq<u8>, pos: int) -> Parsed<
    QueryResponseInfoView,
> {
    match parse_location(s, pos) {
        Err(e) => Err(e),
        Ok((destination, p)) => match parse_compact_u64(s, p) {
            Err(e) => Err(e),
            Ok((query_id, q)) => match parse_weight(s, q) {
                Err(e) => Err(e),
                Ok((max_weight, r)) => Ok(
                    (QueryResponseInfoView { destination, query_id, max_weight }, r),
                ),
            },
        },
    }
}

/// A hint: its discriminant, then the fields of that variant.
pub open spec fn parse_hint(s: Seq<u8>, pos: int) -> Parsed<HintView> {
    match parse_variant(s, pos, Kind::Hint, 1) {
        Err(e) => Err(e),
        Ok((d, p)) => match parse_location(s, p) {
            Err(e) => Err(e),
            Ok((location, q)) => Ok((HintView::AssetClaimer { location }, q)),
        },
    }
}

/// The parser of one hint, as a value.
pub open spec fn hint_parser() -> spec_fn(Seq<u8>, int) -> Parsed<HintView> {
    |s: Seq<u8>, pos: int| parse_hint(s, pos)
}

/// A compact count, then that many hints.
pub open spec fn parse_hints(s: Seq<u8>, pos: int) -> Parsed<Seq<HintView>> {
    match parse_compact(s, pos) {
        Err(e) => Err(e),
        Ok((count, p)) => parse_repeat(hint_parser(), s, p, count as nat),
    }
}

/// Reads a weight that begins at `pos`.
pub fn decode_weight(input: &[u8], pos: usize) -> (r: Decoded<Weight>)
    ensures
        decoded(r) == parse_weight(input@, pos as int),
{
    let (ref_time, p) = decode_compact_u64(input, pos)?;
    let (proof_size, q) = decode_compact_u64(input, p)?;
    Ok((Weight { ref_time, proof_size }, q))
}

/// Reads an optional weight that begins at `pos`.
pub fn decode_opt_weight(input: &[u8], pos: usize) -> (r: Decoded<Option<Weight>>)
    ensures
        decoded_opt(r) == parse_opt_weight(input@, pos as int),
{
    let (d, p) = decode_variant(input, pos, Kind::Option, 2)?;
    if d == 0 {
        Ok((None, p))
    } else {
        let (w, q) = decode_weight(input, p)?;
        Ok((Some(w), q))
    }
}

/// Reads a weight limit that begins at `pos`.
pub fn decode_weight_limit(input: &[u8], pos: usize) -> (r: Decoded<WeightLimit>)
    ensures
        decoded(r) == parse_weight_limit(input@, pos as int),
{
    let (d, p) = decode_variant(input, pos, Kind::WeightLimit, 2)?;
    if d == 0 {
        Ok((WeightLimit::Unlimited, p))
    } else {
        let (w, q) = decode_weight(input, p)?;
        Ok((WeightLimit::Limited(w), q))
    }
}

/// Reads an origin kind that begins at `pos`.
pub fn decode_origin_kind(input: &[u8], pos: usize) -> (r: Decoded<OriginKind>)
    ensures
        decoded(r) == parse_origin_kind(input@, pos as int),
{
    let (d, p) = decode_variant(input, pos, Kind::OriginKind, 4)?;
    match d {
        0 => Ok((OriginKind::Native, p)),
        1 => Ok((OriginKind::SovereignAccount, p)),
        2 => Ok((OriginKind::Superuser, p)),
        _ => Ok((OriginKind::Xcm, p)),
    }
}

/// Reads an executor error that begins at `pos`.
pub fn decode_xcm_error(input: &[u8], pos: usize) -> (r: Decoded<XcmError>)
    ensures
        decoded(r) == parse_xcm_error(input@, pos as int),
{
    let (d, p) = decode_variant(input, pos, Kind::XcmError, 41)?;
    match d {
        0 => Ok((XcmError::Overflow, p)),
        1 => Ok((XcmError::Unimplemented, p)),
        2 => Ok((XcmError::UntrustedReserveLocation, p)),
        3 => Ok((XcmError::UntrustedTeleportLocation, p)),
        4 => Ok((XcmError::LocationFull, p)),
        5 => Ok((XcmError::LocationNotInvertible, p)),
        6 => Ok((XcmError::BadOrigin, p)),
        7 => Ok((XcmError::InvalidLocation, p)),
        8 => Ok((XcmError::AssetNotFound, p)),
        9 => Ok((XcmError::FailedToTransactAsset, p)),
        10 => Ok((XcmError::NotWithdrawable, p)),
        11 => Ok((XcmError::LocationCannotHold, p)),
        12 => Ok((XcmError::ExceedsMaxMessageSize, p)),
        13 => Ok((XcmError::DestinationUnsupported, p)),
        14 => Ok((XcmError::Transport, p)),
        15 => Ok((XcmError::Unroutable, p)),
        16 => Ok((XcmError::UnknownClaim, p)),
        17 => Ok((XcmError::FailedToDecode, p)),
        18 => Ok((XcmError::MaxWeightInvalid, p)),
        19 => Ok((XcmError::NotHoldingFees, p)),
        20 => Ok((XcmError::TooExpensive, p)),
        21 => {
            let (code, q) = decode_u64(input, p)?;
            Ok((XcmError::Trap(code), q))
        },
        22 => Ok((XcmError::ExpectationFalse, p)),
        23 => Ok((XcmError::PalletNotFound, p)),
        24 => Ok((XcmError::NameMismatch, p)),
        25 => Ok((XcmError::VersionIncompatible, p)),
        26 => Ok((XcmError::HoldingWouldOverflow, p)),
        27 => Ok((XcmError::ExportError, p)),
        28 => Ok((XcmError::ReanchorFailed, p)),
        29 => Ok((XcmError::NoDeal, p)),
        30 => Ok((XcmError::FeesNotMet, p)),
        31 => Ok((XcmError::LockError, p)),
        32 => Ok((XcmError::NoPermission, p)),
        33 => Ok((XcmError::Unanchored, p)),
        34 => Ok((XcmError::NotDepositable, p)),
        35 => Ok((XcmError::TooManyAssets, p)),
        36 => Ok((XcmError::UnhandledXcmVersion, p)),
        37 => {
            let (w, q) = decode_weight(input, p)?;
            Ok((XcmError::WeightLimitReached(w), q))
        },
        38 => Ok((XcmError::Barrier, p)),
        39 => Ok((XcmError::WeightNotComputable, p)),
        _ => Ok((XcmError::ExceedsStackLimit, p)),
    }
}

/// Reads an optional pair of an index and an error that begins at `pos`.
pub fn decode_opt_error(input: &[u8], pos: usize) -> (r: Decoded<Option<(u32, XcmError)>>)
    ensures
        r matches Ok((v, end)) ==> parse_opt_error(input@, pos as int) == Ok::<_, DecodeError>(
            (v, end as int),
        ),
        r matches Err(e) ==> parse_opt_error(input@, pos as int) == Err::<
            (Option<(u32, XcmError)>, int),
            _,
        >(e),
{
    let (d, p) = decode_variant(input, pos, Kind::Option, 2)?;
    if d == 0 {
        Ok((None, p))
    } else {
        let (index, q) = decode_u32(input, p)?;
        let (error, r) = decode_xcm_error(input, q)?;
        Ok((Some((index, error)), r))
    }
}

/// Reads a compact length, then that many bytes.
pub fn decode_byte_vec(input: &[u8], pos: usize) -> (r: Decoded<Vec<u8>>)
    ensures
        decoded(r) == parse_byte_vec(input@, pos as int),
{
    let (n, p) = decode_compact(input, pos)?;
    if n > usize::MAX as u128 {
        assert(input@.len() == input.len());
        return Err(DecodeError::IncompleteInput);
    }
    decode_bytes(input, p, n as usize)
}

/// Reads a dispatch outcome that begins at `pos`.
pub fn decode_maybe_error_code(input: &[u8], pos: usize) -> (r: Decoded<MaybeErrorCode>)
    ensures
        decoded(r) == parse_maybe_error_code(input@, pos as int),
{
    let (d, p) = decode_variant(input, pos, Kind::MaybeErrorCode, 3)?;
    match d {
        0 => Ok((MaybeErrorCode::Success, p)),
        1 => {
            let (code, q) = decode_byte_vec(input, p)?;
            Ok((MaybeErrorCode::Error(code), q))
        },
        _ => {
            let (code, q) = decode_byte_vec(input, p)?;
            Ok((MaybeErrorCode::TruncatedError(code), q))
        },
    }
}

fn decode_semver(input: &[u8], pos: usize) -> (r: Result<((u32, u32, u32), usize), DecodeError>)
    ensures
        r matches Ok((v, end)) ==> parse_semver(input@, pos as int) == Ok::<_, DecodeError>(
            (v, end as int),
        ),
        r matches Err(e) ==> parse_semver(input@, pos as int) == Err::<((u32, u32, u32), int), _>(
            e,
        ),
{
    let (major, p) = decode_compact_u32(input, pos)?;
    let (minor, q) = decode_compact_u32(input, p)?;
    let (patch, r) = decode_compact_u32(input, q)?;
    Ok(((major, minor, patch), r))
}

/// Reads a pallet description that begins at `pos`.
pub fn decode_pallet_info(input: &[u8], pos: usize) -> (r: Decoded<PalletInfo>)
    ensures
        decoded(r) == parse_pallet_info(input@, pos as int),
{
    let (index, p) = decode_compact_u32(input, pos)?;
    let (name, q) = decode_byte_vec(input, p)?;
    let (module_name, r) = decode_byte_vec(input, q)?;
    let (v, t) = decode_semver(input, r)?;
    Ok((PalletInfo { index, name, module_name, major: v.0, minor: v.1, patch: v.2 }, t))
}

/// Reads a compact count, then that many pallet descriptions.
pub fn decode_pallet_infos(input: &[u8], pos: usize) -> (r: Result<
    (Vec<PalletInfo>, usize),
    DecodeError,
>)
    ensures
        r matches Ok((v, end)) ==> parse_pallet_infos(input@, pos as int) == Ok::<_, DecodeError>(
            (views(v@), end as int),
        ),
        r matches Err(e) ==> parse_pallet_infos(input@, pos as int) == Err::<
            (Seq<PalletInfoView>, int),
            _,
        >(e),
{
    let (count, start) = decode_compact(input, pos)?;
    let mut out: Vec<PalletInfo> = Vec::new();
    let mut p: usize = start;
    let mut i: u128 = 0;
    proof {
        lemma_repeat_none(pallet_info_parser(), input@, start as int);
        lemma_views_push(out@, arbitrary());
    }
    while i < count
        invariant
            i <= count,
            parse_compact(input@, pos as int) == Ok::<_, DecodeError>((count, start as int)),
            parse_repeat(pallet_info_parser(), input@, start as int, i as nat) == Ok::<
                _,
                DecodeError,
            >((views(out@), p as int)),
        decreases count - i,
    {
        proof {
            lemma_repeat_next(pallet_info_parser(), input@, start as int, i as nat);
        }
        match decode_pallet_info(input, p) {
            Err(e) => {
                proof {
                    lemma_repeat_err(
                        pallet_info_parser(),
                        input@,
                        start as int,
                        (i + 1) as nat,
                        count as nat,
                    );
                }
                return Err(e);
            },
            Ok((info, q)) => {
                proof {
                    lemma_views_push(out@, info);
                }
                out.push(info);
                p = q;
                i = i + 1;
            },
        }
    }
    Ok((out, p))
}

/// Reads a response that begins at `pos`.
pub fn decode_response(input: &[u8], pos: usize) -> (r: Decoded<Response>)
    ensures
        decoded(r) == parse_response(input@, pos as int),
{
    let (d, p) = decode_variant(input, pos, Kind::Response, 6)?;
    match d {
        0 => Ok((Response::Null, p)),
        1 => {
            let (assets, q) = decode_assets(input, p)?;
            Ok((Response::Assets(assets), q))
        },
        2 => {
            let (result, q) = decode_opt_error(input, p)?;
            Ok((Response::ExecutionResult(result), q))
        },
        3 => {
            let (v, q) = decode_u32(input, p)?;
            Ok((Response::Version(v), q))
        },
        4 => {
            let (infos, q) = decode_pallet_infos(input, p)?;
            Ok((Response::PalletsInfo(infos), q))
        },
        _ => {
            let (code, q) = decode_maybe_error_code(input, p)?;
            Ok((Response::DispatchResult(code), q))
        },
    }
}

/// Reads a description of where to answer that begins at `pos`.
pub fn decode_query_response_info(input: &[u8], pos: usize) -> (r: Decoded<QueryResponseInfo>)
    ensures
        decoded(r) == parse_query_response_info(input@, pos as int),
{
    let (destination, p) = decode_location(input, pos)?;
    let (query_id, q) = decode_compact_u64(input, p)?;
    let (max_weight, r) = decode_weight(input, q)?;
    Ok((QueryResponseInfo { destination, query_id, max_weight }, r))
}

/// Reads a hint that begins at `pos`.
pub fn decode_hint(input: &[u8], pos: usize) -> (r: Decoded<Hint>)
    ensures
        decoded(r) == parse_hint(input@, pos as int),
{
    let (_d, p) = decode_variant(input, pos, Kind::Hint, 1)?;
    let (location, q) = decode_location(input, p)?;
    Ok((Hint::AssetClaimer { location }, q))
}

/// Reads a compact count, then that many hints.
pub fn decode_hints(input: &[u8], pos: usize) -> (r: Result<(Vec<Hint>, usize), DecodeError>)
    ensures
        r matches Ok((v, end)) ==> parse_hints(input@, pos as int) == Ok::<_, DecodeError>(
            (views(v@), end as int),
        ),
        r matches Err(e) ==> parse_hints(input@, pos as int) == Err::<(Seq<HintView>, int), _>(e),
{
    let (count, start) = decode_compact(input, pos)?;
    let mut out: Vec<Hint> = Vec::new();
    let mut p: usize = start;
    let mut i: u128 = 0;
    proof {
        lemma_repeat_none(hint_parser(), input@, start as int);
        lemma_views_push(out@, arbitrary());
    }
    while i < count
        invariant
            i <= count,
            parse_compact(input@, pos as int) == Ok::<_, DecodeError>((count, start as int)),
            parse_repeat(hint_parser(), input@, start as int, i as nat) == Ok::<_, DecodeError>(
                (views(out@), p as int),
            ),
        decreases count - i,
    {
        proof {
            lemma_repeat_next(hint_parser(), input@, start as int, i as nat);
        }
        match decode_hint(input, p) {
            Err(e) => {
                proof {
                    lemma_repeat_err(
                        hint_parser(),
                        input@,
                        start as int,
                        (i + 1) as nat,
                        count as nat,
                    );
                }
                return Err(e);
            },
            Ok((hint, q)) => {
                proof {
                    lemma_views_push(out@, hint);
                }
                out.push(hint);
                p = q;
                i = i + 1;
            },
        }
    }
    Ok((out, p))
}

} // verus!
