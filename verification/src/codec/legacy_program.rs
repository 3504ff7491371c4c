//! The instructions and programs of versions 3 and 4, walked without
//! building a value. There are 48 instructions, numbered as the first 48 of
//! version 5 and with the same fields, but that `Transact` carries a weight
//! where version 5 has an optional one.

use vstd::prelude::*;
use crate::error::{DecodeError, Kind, Parsed};
use crate::codec::wire::{
    decode_array, decode_bool, decode_compact, decode_compact_u32, decode_compact_u64,
    decode_variant, parse_bool, parse_bytes, parse_compact, parse_compact_u32, parse_compact_u64,
    parse_variant, remaining,
};
use crate::codec::response::{
    decode_byte_vec, decode_maybe_error_code, decode_origin_kind, decode_weight,
    decode_weight_limit, parse_byte_vec, parse_maybe_error_code, parse_origin_kind, parse_weight,
    parse_weight_limit,
};
use crate::codec::progress::{group_progress, lemma_compact_progress};
use crate::codec::legacy::{
    forget, group_legacy_progress, skip_legacy_asset, skip_legacy_asset_filter,
    skip_legacy_assets, skip_legacy_junction, skip_legacy_junctions, skip_legacy_location,
    skip_legacy_network_id, skip_legacy_opt_error, skip_legacy_opt_location,
    skip_legacy_query_response_info, skip_legacy_response, walk_legacy_asset,
    walk_legacy_asset_filter, walk_legacy_assets, walk_legacy_junction, walk_legacy_junctions,
    walk_legacy_location, walk_legacy_network_id, walk_legacy_opt_error,
    walk_legacy_opt_location, walk_legacy_query_response_info, walk_legacy_response, walked,
};

verus! {

/// The walk over an instruction of version 3 or 4 that carries no program
/// and whose discriminant lies between 0 and 8, from after the
/// discriminant `d`.
#[verifier::opaque]
pub open spec fn skip_legacy_plain_a(s: Seq<u8>, p: int, d: u8, v3: bool) -> Parsed<()> {
    match d {
        // WithdrawAsset
        0 => skip_legacy_assets(s, p, v3),
        // ReserveAssetDeposited
        1 => skip_legacy_assets(s, p, v3),
        // ReceiveTeleportedAsset
        2 => skip_legacy_assets(s, p, v3),
        // QueryResponse
        3 => match forget(parse_compact_u64(s, p)) {
            Err(e) => Err(e),
            Ok((_, end1)) => match skip_legacy_response(s, end1, v3) {
                Err(e) => Err(e),
                Ok((_, end2)) => match forget(parse_weight(s, end2)) {
                    Err(e) => Err(e),
                    Ok((_, end3)) => skip_legacy_opt_location(s, end3),
                },
            },
        },
        // TransferAsset
        4 => match skip_legacy_assets(s, p, v3) {
            Err(e) => Err(e),
            Ok((_, end1)) => skip_legacy_location(s, end1),
        },
        // Transact
        6 => match forget(parse_origin_kind(s, p)) {
            Err(e) => Err(e),
            Ok((_, end1)) => match forget(parse_weight(s, end1)) {
                Err(e) => Err(e),
                Ok((_, end2)) => forget(parse_byte_vec(s, end2)),
            },
        },
        // HrmpNewChannelOpenRequest
        7 => match forget(parse_compact_u32(s, p)) {
            Err(e) => Err(e),
            Ok((_, end1)) => match forget(parse_compact_u32(s, end1)) {
                Err(e) => Err(e),
                Ok((_, end2)) => forget(parse_compact_u32(s, end2)),
            },
        },
        // HrmpChannelAccepted
        8 => forget(parse_compact_u32(s, p)),
        _ => Err(DecodeError::UnknownVariant(Kind::Instruction, d)),
    }
}

/// The walk over an instruction of version 3 or 4 that carries no program
/// and whose discriminant lies between 9 and 17, from after the
/// discriminant `d`.
#[verifier::opaque]
pub open spec fn skip_legacy_plain_b(s: Seq<u8>, p: int, d: u8, v3: bool) -> Parsed<()> {
    match d {
        // HrmpChannelClosing
        9 => match forget(parse_compact_u32(s, p)) {
            Err(e) => Err(e),
            Ok((_, end1)) => match forget(parse_compact_u32(s, end1)) {
                Err(e) => Err(e),
                Ok((_, end2)) => forget(parse_compact_u32(s, end2)),
            },
        },
        // ClearOrigin
        10 => Ok(((), p)),
        // DescendOrigin
        11 => skip_legacy_junctions(s, p),
        // ReportError
        12 => skip_legacy_query_response_info(s, p),
        // DepositAsset
        13 => match skip_legacy_asset_filter(s, p, v3) {
            Err(e) => Err(e),
            Ok((_, end1)) => skip_legacy_location(s, end1),
        },
        // ExchangeAsset
        15 => match skip_legacy_asset_filter(s, p, v3) {
            Err(e) => Err(e),
            Ok((_, end1)) => match skip_legacy_assets(s, end1, v3) {
                Err(e) => Err(e),
                Ok((_, end2)) => forget(parse_bool(s, end2)),
            },
        },
        _ => Err(DecodeError::UnknownVariant(Kind::Instruction, d)),
    }
}

/// The walk over an instruction of version 3 or 4 that carries no program
/// and whose discriminant lies between 18 and 26, from after the
/// discriminant `d`.
#[verifier::opaque]
pub open spec fn skip_legacy_plain_c(s: Seq<u8>, p: int, d: u8, v3: bool) -> Parsed<()> {
    match d {
        // ReportHolding
        18 => match skip_legacy_query_response_info(s, p) {
            Err(e) => Err(e),
            Ok((_, end1)) => skip_legacy_asset_filter(s, end1, v3),
        },
        // BuyExecution
        19 => match skip_legacy_asset(s, p, v3) {
            Err(e) => Err(e),
            Ok((_, end1)) => forget(parse_weight_limit(s, end1)),
        },
        // RefundSurplus
        20 => Ok(((), p)),
        // ClearError
        23 => Ok(((), p)),
        // ClaimAsset
        24 => match skip_legacy_assets(s, p, v3) {
            Err(e) => Err(e),
            Ok((_, end1)) => skip_legacy_location(s, end1),
        },
        // Trap
        25 => forget(parse_compact_u64(s, p)),
        // SubscribeVersion
        26 => match forget(parse_compact_u64(s, p)) {
            Err(e) => Err(e),
            Ok((_, end1)) => forget(parse_weight(s, end1)),
        },
        _ => Err(DecodeError::UnknownVariant(Kind::Instruction, d)),
    }
}

/// The walk over an instruction of version 3 or 4 that carries no program
/// and whose discriminant lies between 27 and 35, from after the
/// discriminant `d`.
#[verifier::opaque]
pub open spec fn skip_legacy_plain_d(s: Seq<u8>, p: int, d: u8, v3: bool) -> Parsed<()> {
    match d {
        // UnsubscribeVersion
        27 => Ok(((), p)),
        // BurnAsset
        28 => skip_legacy_assets(s, p, v3),
        // ExpectAsset
        29 => skip_legacy_assets(s, p, v3),
        // ExpectOrigin
        30 => skip_legacy_opt_location(s, p),
        // ExpectError
        31 => skip_legacy_opt_error(s, p),
        // ExpectTransactStatus
        32 => forget(parse_maybe_error_code(s, p)),
        // QueryPallet
        33 => match forget(parse_byte_vec(s, p)) {
            Err(e) => Err(e),
            Ok((_, end1)) => skip_legacy_query_response_info(s, end1),
        },
        // ExpectPallet
        34 => match forget(parse_compact_u32(s, p)) {
            Err(e) => Err(e),
            Ok((_, end1)) => match forget(parse_byte_vec(s, end1)) {
                Err(e) => Err(e),
                Ok((_, end2)) => match forget(parse_byte_vec(s, end2)) {
                    Err(e) => Err(e),
                    Ok((_, end3)) => match forget(parse_compact_u32(s, end3)) {
                        Err(e) => Err(e),
                        Ok((_, end4)) => forget(parse_compact_u32(s, end4)),
                    },
                },
            },
        },
        // ReportTransactStatus
        35 => skip_legacy_query_response_info(s, p),
        _ => Err(DecodeError::UnknownVariant(Kind::Instruction, d)),
    }
}

/// The walk over an instruction of version 3 or 4 that carries no program
/// and whose discriminant lies between 36 and 43, from after the
/// discriminant `d`.
#[verifier::opaque]
pub open spec fn skip_legacy_plain_e(s: Seq<u8>, p: int, d: u8, v3: bool) -> Parsed<()> {
    match d {
        // ClearTransactStatus
        36 => Ok(((), p)),
        // UniversalOrigin
        37 => skip_legacy_junction(s, p),
        // LockAsset
        39 => match skip_legacy_asset(s, p, v3) {
            Err(e) => Err(e),
            Ok((_, end1)) => skip_legacy_location(s, end1),
        },
        // UnlockAsset
        40 => match skip_legacy_asset(s, p, v3) {
            Err(e) => Err(e),
            Ok((_, end1)) => skip_legacy_location(s, end1),
        },
        // NoteUnlockable
        41 => match skip_legacy_asset(s, p, v3) {
            Err(e) => Err(e),
            Ok((_, end1)) => skip_legacy_location(s, end1),
        },
        // RequestUnlock
        42 => match skip_legacy_asset(s, p, v3) {
            Err(e) => Err(e),
            Ok((_, end1)) => skip_legacy_location(s, end1),
        },
        // SetFeesMode
        43 => forget(parse_bool(s, p)),
        _ => Err(DecodeError::UnknownVariant(Kind::Instruction, d)),
    }
}

/// The walk over an instruction of version 3 or 4 that carries no program
/// and whose discriminant lies between 44 and 47, from after the
/// discriminant `d`.
#[verifier::opaque]
pub open spec fn skip_legacy_plain_f(s: Seq<u8>, p: int, d: u8, v3: bool) -> Parsed<()> {
    match d {
        // SetTopic
        44 => forget(parse_bytes(s, p, 32)),
        // ClearTopic
        45 => Ok(((), p)),
        // AliasOrigin
        46 => skip_legacy_location(s, p),
        // UnpaidExecution
        47 => match forget(parse_weight_limit(s, p)) {
            Err(e) => Err(e),
            Ok((_, end1)) => skip_legacy_opt_location(s, end1),
        },
        _ => Err(DecodeError::UnknownVariant(Kind::Instruction, d)),
    }
}

/// The walk over an instruction of version 3 or 4 that carries no program,
/// from after its discriminant `d`.
pub open spec fn skip_legacy_plain_instruction(s: Seq<u8>, p: int, d: u8, v3: bool) -> Parsed<()> {
    if d <= 8 {
        skip_legacy_plain_a(s, p, d, v3)
    } else if d <= 17 {
        skip_legacy_plain_b(s, p, d, v3)
    } else if d <= 26 {
        skip_legacy_plain_c(s, p, d, v3)
    } else if d <= 35 {
        skip_legacy_plain_d(s, p, d, v3)
    } else if d <= 43 {
        skip_legacy_plain_e(s, p, d, v3)
    } else {
        skip_legacy_plain_f(s, p, d, v3)
    }
}

/// Whether the instruction of version 3 or 4 with discriminant `d` carries
/// a nested program.
pub open spec fn legacy_carries_program(d: u8) -> bool {
    d == 5 || d == 14 || d == 16 || d == 17 || d == 21 || d == 22 || d == 38
}

/// The walk over the fields that stand before the nested program of an
/// instruction of version 3 or 4, from after its discriminant `d`.
#[verifier::opaque]
pub open spec fn skip_legacy_nesting_head(s: Seq<u8>, p: int, d: u8, v3: bool) -> Parsed<()> {
    match d {
        // TransferReserveAsset
        5 => match skip_legacy_assets(s, p, v3) {
            Err(e) => Err(e),
            Ok((_, end1)) => skip_legacy_location(s, end1),
        },
        // DepositReserveAsset
        14 => match skip_legacy_asset_filter(s, p, v3) {
            Err(e) => Err(e),
            Ok((_, end1)) => skip_legacy_location(s, end1),
        },
        // InitiateReserveWithdraw
        16 => match skip_legacy_asset_filter(s, p, v3) {
            Err(e) => Err(e),
            Ok((_, end1)) => skip_legacy_location(s, end1),
        },
        // InitiateTeleport
        17 => match skip_legacy_asset_filter(s, p, v3) {
            Err(e) => Err(e),
            Ok((_, end1)) => skip_legacy_location(s, end1),
        },
        // SetErrorHandler
        21 => Ok(((), p)),
        // SetAppendix
        22 => Ok(((), p)),
        // ExportMessage
        38 => match skip_legacy_network_id(s, p) {
            Err(e) => Err(e),
            Ok((_, end1)) => skip_legacy_junctions(s, end1),
        },
        _ => Err(DecodeError::UnknownVariant(Kind::Instruction, d)),
    }
}

/// The walk over one instruction of version 3 (`v3`) or 4.
pub open spec fn skip_legacy_instruction(s: Seq<u8>, pos: int, v3: bool) -> Parsed<()>
    decreases remaining(s, pos), 0nat,
    via skip_legacy_instruction_terminates
{
    match parse_variant(s, pos, Kind::Instruction, 48) {
        Err(e) => Err(e),
        Ok((d, p)) => if legacy_carries_program(d) {
            match skip_legacy_nesting_head(s, p, d, v3) {
                Err(e) => Err(e),
                Ok((_, q)) => skip_legacy_xcm(s, q, v3),
            }
        } else {
            skip_legacy_plain_instruction(s, p, d, v3)
        },
    }
}

/// The walk over a program of version 3 (`v3`) or 4: a compact count, then
/// that many instructions.
pub open spec fn skip_legacy_xcm(s: Seq<u8>, pos: int, v3: bool) -> Parsed<()>
    decreases remaining(s, pos), 0nat,
    via skip_legacy_xcm_terminates
{
    match parse_compact(s, pos) {
        Err(e) => Err(e),
        Ok((count, p)) => skip_legacy_program(s, p, count as nat, v3),
    }
}

/// The walk over `n` instructions one after the other. A walk never ends
/// before it begins (see [`lemma_legacy_instruction_progress`]); the test
/// for that is what makes this definition well-founded, and it never fails.
pub open spec fn skip_legacy_program(s: Seq<u8>, pos: int, n: nat, v3: bool) -> Parsed<()>
    decreases remaining(s, pos), n + 1,
{
    if n == 0 {
        Ok(((), pos))
    } else {
        match skip_legacy_program(s, pos, (n - 1) as nat, v3) {
            Err(e) => Err(e),
            Ok((_, p)) => if p < pos {
                Err(DecodeError::IncompleteInput)
            } else {
                skip_legacy_instruction(s, p, v3)
            },
        }
    }
}

/// The fields before a nested program end at or after their start and
/// within the input.
pub proof fn lemma_legacy_nesting_head_progress(s: Seq<u8>, p: int, d: u8, v3: bool)
    requires
        0 <= p <= s.len(),
    ensures
        skip_legacy_nesting_head(s, p, d, v3) matches Ok((_, q)) ==> p <= q <= s.len(),
{
    broadcast use group_progress, group_legacy_progress;

    reveal(skip_legacy_nesting_head);
}

#[via_fn]
proof fn skip_legacy_instruction_terminates(s: Seq<u8>, pos: int, v3: bool) {
    if 0 <= pos < s.len() {
        lemma_legacy_nesting_head_progress(s, pos + 1, s[pos], v3);
    }
}

#[via_fn]
proof fn skip_legacy_xcm_terminates(s: Seq<u8>, pos: int, v3: bool) {
    broadcast use lemma_compact_progress;

}

/// Once a prefix of a walk over instructions fails, every longer walk fails
/// alike.
pub proof fn lemma_legacy_program_err(s: Seq<u8>, pos: int, i: nat, n: nat, v3: bool)
    requires
        i <= n,
        skip_legacy_program(s, pos, i, v3) is Err,
    ensures
        skip_legacy_program(s, pos, n, v3) == skip_legacy_program(s, pos, i, v3),
    decreases n - i,
{
    if i < n {
        lemma_legacy_program_err(s, pos, i, (n - 1) as nat, v3);
    }
}

/// An instruction without a nested program ends at or after the end of its
/// discriminant and within the input.
pub proof fn lemma_legacy_plain_instruction_progress(s: Seq<u8>, p: int, d: u8, v3: bool)
    requires
        0 <= p <= s.len(),
    ensures
        skip_legacy_plain_instruction(s, p, d, v3) matches Ok((_, q)) ==> p <= q <= s.len(),
{
    broadcast use group_progress, group_legacy_progress;

    reveal(skip_legacy_plain_a);
    reveal(skip_legacy_plain_b);
    reveal(skip_legacy_plain_c);
    reveal(skip_legacy_plain_d);
    reveal(skip_legacy_plain_e);
    reveal(skip_legacy_plain_f);
}

/// A walk over an instruction ends after its start and within the input.
pub proof fn lemma_legacy_instruction_progress(s: Seq<u8>, pos: int, v3: bool)
    ensures
        skip_legacy_instruction(s, pos, v3) matches Ok((_, end)) ==> pos < end <= s.len(),
    decreases remaining(s, pos), 0nat,
{
    if 0 <= pos < s.len() {
        let d = s[pos];
        if legacy_carries_program(d) {
            lemma_legacy_nesting_head_progress(s, pos + 1, d, v3);
            if let Ok((_, q)) = skip_legacy_nesting_head(s, pos + 1, d, v3) {
                lemma_legacy_xcm_progress(s, q, v3);
            }
        } else {
            lemma_legacy_plain_instruction_progress(s, pos + 1, d, v3);
        }
    }
}

/// A walk over a program ends after its start and within the input.
pub proof fn lemma_legacy_xcm_progress(s: Seq<u8>, pos: int, v3: bool)
    ensures
        skip_legacy_xcm(s, pos, v3) matches Ok((_, end)) ==> pos < end <= s.len(),
    decreases remaining(s, pos), 0nat,
{
    broadcast use lemma_compact_progress;

    if let Ok((count, p)) = parse_compact(s, pos) {
        lemma_legacy_program_progress(s, p, count as nat, v3);
    }
}

/// A walk over `n` instructions ends within the input, at or after its
/// start.
pub proof fn lemma_legacy_program_progress(s: Seq<u8>, pos: int, n: nat, v3: bool)
    requires
        0 <= pos <= s.len(),
    ensures
        skip_legacy_program(s, pos, n, v3) matches Ok((_, end)) ==> pos <= end <= s.len(),
    decreases remaining(s, pos), n + 1,
{
    if n > 0 {
        lemma_legacy_program_progress(s, pos, (n - 1) as nat, v3);
        if let Ok((_, p)) = skip_legacy_program(s, pos, (n - 1) as nat, v3) {
            lemma_legacy_instruction_progress(s, p, v3);
        }
    }
}

fn walk_legacy_plain_a(input: &[u8], p: usize, d: u8, v3: bool) -> (r: Result<
    usize,
    DecodeError,
>)
    ensures
        walked(r) == skip_legacy_plain_a(input@, p as int, d, v3),
{
    reveal(skip_legacy_plain_a);
    match d {
        0 => {
            let end1 = walk_legacy_assets(input, p, v3)?;
            Ok(end1)
        },
        1 => {
            let end1 = walk_legacy_assets(input, p, v3)?;
            Ok(end1)
        },
        2 => {
            let end1 = walk_legacy_assets(input, p, v3)?;
            Ok(end1)
        },
        3 => {
            let (_query_id, end1) = decode_compact_u64(input, p)?;
            let end2 = walk_legacy_response(input, end1, v3)?;
            let (_max_weight, end3) = decode_weight(input, end2)?;
            let end4 = walk_legacy_opt_location(input, end3)?;
            Ok(end4)
        },
        4 => {
            let end1 = walk_legacy_assets(input, p, v3)?;
            let end2 = walk_legacy_location(input, end1)?;
            Ok(end2)
        },
        6 => {
            let (_origin_kind, end1) = decode_origin_kind(input, p)?;
            let (_require_weight_at_most, end2) = decode_weight(input, end1)?;
            let (_call, end3) = decode_byte_vec(input, end2)?;
            Ok(end3)
        },
        7 => {
            let (_sender, end1) = decode_compact_u32(input, p)?;
            let (_max_message_size, end2) = decode_compact_u32(input, end1)?;
            let (_max_capacity, end3) = decode_compact_u32(input, end2)?;
            Ok(end3)
        },
        8 => {
            let (_recipient, end1) = decode_compact_u32(input, p)?;
            Ok(end1)
        },
        _ => Err(DecodeError::UnknownVariant(Kind::Instruction, d)),
    }
}

fn walk_legacy_plain_b(input: &[u8], p: usize, d: u8, v3: bool) -> (r: Result<
    usize,
    DecodeError,
>)
    ensures
        walked(r) == skip_legacy_plain_b(input@, p as int, d, v3),
{
    reveal(skip_legacy_plain_b);
    match d {
        9 => {
            let (_initiator, end1) = decode_compact_u32(input, p)?;
            let (_sender, end2) = decode_compact_u32(input, end1)?;
            let (_recipient, end3) = decode_compact_u32(input, end2)?;
            Ok(end3)
        },
        10 => Ok(p),
        11 => {
            let end1 = walk_legacy_junctions(input, p)?;
            Ok(end1)
        },
        12 => {
            let end1 = walk_legacy_query_response_info(input, p)?;
            Ok(end1)
        },
        13 => {
            let end1 = walk_legacy_asset_filter(input, p, v3)?;
            let end2 = walk_legacy_location(input, end1)?;
            Ok(end2)
        },
        15 => {
            let end1 = walk_legacy_asset_filter(input, p, v3)?;
            let end2 = walk_legacy_assets(input, end1, v3)?;
            let (_maximal, end3) = decode_bool(input, end2)?;
            Ok(end3)
        },
        _ => Err(DecodeError::UnknownVariant(Kind::Instruction, d)),
    }
}

fn walk_legacy_plain_c(input: &[u8], p: usize, d: u8, v3: bool) -> (r: Result<
    usize,
    DecodeError,
>)
    ensures
        walked(r) == skip_legacy_plain_c(input@, p as int, d, v3),
{
    reveal(skip_legacy_plain_c);
    match d {
        18 => {
            let end1 = walk_legacy_query_response_info(input, p)?;
            let end2 = walk_legacy_asset_filter(input, end1, v3)?;
            Ok(end2)
        },
        19 => {
            let end1 = walk_legacy_asset(input, p, v3)?;
            let (_weight_limit, end2) = decode_weight_limit(input, end1)?;
            Ok(end2)
        },
        20 => Ok(p),
        23 => Ok(p),
        24 => {
            let end1 = walk_legacy_assets(input, p, v3)?;
            let end2 = walk_legacy_location(input, end1)?;
            Ok(end2)
        },
        25 => {
            let (_code, end1) = decode_compact_u64(input, p)?;
            Ok(end1)
        },
        26 => {
            let (_query_id, end1) = decode_compact_u64(input, p)?;
            let (_max_response_weight, end2) = decode_weight(input, end1)?;
            Ok(end2)
        },
        _ => Err(DecodeError::UnknownVariant(Kind::Instruction, d)),
    }
}

fn walk_legacy_plain_d(input: &[u8], p: usize, d: u8, v3: bool) -> (r: Result<
    usize,
    DecodeError,
>)
    ensures
        walked(r) == skip_legacy_plain_d(input@, p as int, d, v3),
{
    reveal(skip_legacy_plain_d);
    match d {
        27 => Ok(p),
        28 => {
            let end1 = walk_legacy_assets(input, p, v3)?;
            Ok(end1)
        },
        29 => {
            let end1 = walk_legacy_assets(input, p, v3)?;
            Ok(end1)
        },
        30 => {
            let end1 = walk_legacy_opt_location(input, p)?;
            Ok(end1)
        },
        31 => {
            let end1 = walk_legacy_opt_error(input, p)?;
            Ok(end1)
        },
        32 => {
            let (_status, end1) = decode_maybe_error_code(input, p)?;
            Ok(end1)
        },
        33 => {
            let (_module_name, end1) = decode_byte_vec(input, p)?;
            let end2 = walk_legacy_query_response_info(input, end1)?;
            Ok(end2)
        },
        34 => {
            let (_index, end1) = decode_compact_u32(input, p)?;
            let (_name, end2) = decode_byte_vec(input, end1)?;
            let (_module_name, end3) = decode_byte_vec(input, end2)?;
            let (_crate_major, end4) = decode_compact_u32(input, end3)?;
            let (_min_crate_minor, end5) = decode_compact_u32(input, end4)?;
            Ok(end5)
        },
        35 => {
            let end1 = walk_legacy_query_response_info(input, p)?;
            Ok(end1)
        },
        _ => Err(DecodeError::UnknownVariant(Kind::Instruction, d)),
    }
}

fn walk_legacy_plain_e(input: &[u8], p: usize, d: u8, v3: bool) -> (r: Result<
    usize,
    DecodeError,
>)
    ensures
        walked(r) == skip_legacy_plain_e(input@, p as int, d, v3),
{
    reveal(skip_legacy_plain_e);
    match d {
        36 => Ok(p),
        37 => {
            let end1 = walk_legacy_junction(input, p)?;
            Ok(end1)
        },
        39 => {
            let end1 = walk_legacy_asset(input, p, v3)?;
            let end2 = walk_legacy_location(input, end1)?;
            Ok(end2)
        },
        40 => {
            let end1 = walk_legacy_asset(input, p, v3)?;
            let end2 = walk_legacy_location(input, end1)?;
            Ok(end2)
        },
        41 => {
            let end1 = walk_legacy_asset(input, p, v3)?;
            let end2 = walk_legacy_location(input, end1)?;
            Ok(end2)
        },
        42 => {
            let end1 = walk_legacy_asset(input, p, v3)?;
            let end2 = walk_legacy_location(input, end1)?;
            Ok(end2)
        },
        43 => {
            let (_jit_withdraw, end1) = decode_bool(input, p)?;
            Ok(end1)
        },
        _ => Err(DecodeError::UnknownVariant(Kind::Instruction, d)),
    }
}

fn walk_legacy_plain_f(input: &[u8], p: usize, d: u8, v3: bool) -> (r: Result<
    usize,
    DecodeError,
>)
    ensures
        walked(r) == skip_legacy_plain_f(input@, p as int, d, v3),
{
    reveal(skip_legacy_plain_f);
    match d {
        44 => {
            let (_topic, end1) = decode_array::<32>(input, p)?;
            Ok(end1)
        },
        45 => Ok(p),
        46 => {
            let end1 = walk_legacy_location(input, p)?;
            Ok(end1)
        },
        47 => {
            let (_weight_limit, end1) = decode_weight_limit(input, p)?;
            let end2 = walk_legacy_opt_location(input, end1)?;
            Ok(end2)
        },
        _ => Err(DecodeError::UnknownVariant(Kind::Instruction, d)),
    }
}

fn walk_legacy_plain_instruction(input: &[u8], p: usize, d: u8, v3: bool) -> (r: Result<
    usize,
    DecodeError,
>)
    ensures
        walked(r) == skip_legacy_plain_instruction(input@, p as int, d, v3),
{
    if d <= 8 {
        walk_legacy_plain_a(input, p, d, v3)
    } else if d <= 17 {
        walk_legacy_plain_b(input, p, d, v3)
    } else if d <= 26 {
        walk_legacy_plain_c(input, p, d, v3)
    } else if d <= 35 {
        walk_legacy_plain_d(input, p, d, v3)
    } else if d <= 43 {
        walk_legacy_plain_e(input, p, d, v3)
    } else {
        walk_legacy_plain_f(input, p, d, v3)
    }
}

fn walk_legacy_nesting_head(input: &[u8], p: usize, d: u8, v3: bool) -> (r: Result<
    usize,
    DecodeError,
>)
    ensures
        walked(r) == skip_legacy_nesting_head(input@, p as int, d, v3),
{
    reveal(skip_legacy_nesting_head);
    match d {
        5 => {
            let end1 = walk_legacy_assets(input, p, v3)?;
            let end2 = walk_legacy_location(input, end1)?;
            Ok(end2)
        },
        14 => {
            let end1 = walk_legacy_asset_filter(input, p, v3)?;
            let end2 = walk_legacy_location(input, end1)?;
            Ok(end2)
        },
        16 => {
            let end1 = walk_legacy_asset_filter(input, p, v3)?;
            let end2 = walk_legacy_location(input, end1)?;
            Ok(end2)
        },
        17 => {
            let end1 = walk_legacy_asset_filter(input, p, v3)?;
            let end2 = walk_legacy_location(input, end1)?;
            Ok(end2)
        },
        21 => Ok(p),
        22 => Ok(p),
        38 => {
            let end1 = walk_legacy_network_id(input, p)?;
            let end2 = walk_legacy_junctions(input, end1)?;
            Ok(end2)
        },
        _ => Err(DecodeError::UnknownVariant(Kind::Instruction, d)),
    }
}

/// Walks over one instruction of version 3 (`v3`) or 4, and with it over any
/// program nested in it. The depth of the recursion is at most the nesting
/// depth of the input, which is at most half its length.
pub fn walk_legacy_instruction(input: &[u8], pos: usize, v3: bool) -> (r: Result<
    usize,
    DecodeError,
>)
    ensures
        walked(r) == skip_legacy_instruction(input@, pos as int, v3),
    decreases input.len() - pos,
{
    let (d, p) = decode_variant(input, pos, Kind::Instruction, 48)?;
    if d == 5 || d == 14 || d == 16 || d == 17 || d == 21 || d == 22 || d == 38 {
        let q = walk_legacy_nesting_head(input, p, d, v3)?;
        proof {
            lemma_legacy_nesting_head_progress(input@, p as int, d, v3);
        }
        walk_legacy_xcm(input, q, v3)
    } else {
        walk_legacy_plain_instruction(input, p, d, v3)
    }
}

/// Walks over a program of version 3 (`v3`) or 4 and returns the position
/// after it.
pub fn walk_legacy_xcm(input: &[u8], pos: usize, v3: bool) -> (r: Result<usize, DecodeError>)
    ensures
        walked(r) == skip_legacy_xcm(input@, pos as int, v3),
    decreases input.len() - pos,
{
    broadcast use lemma_compact_progress;

    let (count, start) = decode_compact(input, pos)?;
    let mut p: usize = start;
    let mut i: u128 = 0;
    while i < count
        invariant
            i <= count,
            pos < start <= p <= input.len(),
            parse_compact(input@, pos as int) == Ok::<_, DecodeError>((count, start as int)),
            skip_legacy_program(input@, start as int, i as nat, v3) == Ok::<_, DecodeError>(
                ((), p as int),
            ),
        decreases count - i,
    {
        proof {
            lemma_legacy_instruction_progress(input@, p as int, v3);
        }
        match walk_legacy_instruction(input, p, v3) {
            Err(e) => {
                proof {
                    lemma_legacy_program_err(
                        input@,
                        start as int,
                        (i + 1) as nat,
                        count as nat,
                        v3,
                    );
                }
                return Err(e);
            },
            Ok(q) => {
                p = q;
                i = i + 1;
            },
        }
    }
    Ok(p)
}

} // verus!
