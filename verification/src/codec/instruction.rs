//! The grammar of instructions and programs. An instruction may carry a
//! program, so the two are defined together.

use vstd::prelude::*;
use crate::error::{DecodeError, Decoded, Kind, Parsed, decoded};
use crate::codec::wire::{
    decode_array, decode_bool, decode_compact, decode_compact_u32, decode_compact_u64,
    decode_variant, parse_bool, parse_bytes, parse_compact, parse_compact_u32, parse_compact_u64,
    parse_variant, remaining,
};
use crate::codec::junction::{
    decode_junction, decode_junctions, decode_location, decode_network_id, decode_opt_junctions,
    decode_opt_location, lemma_views_push, parse_junction, parse_junctions, parse_location,
    parse_network_id, parse_opt_junctions, parse_opt_location,
};
use crate::codec::asset::{
    decode_asset, decode_asset_filter, decode_asset_transfer_filters, decode_assets,
    decode_opt_asset_transfer_filter, parse_asset, parse_asset_filter,
    parse_asset_transfer_filters, parse_assets, parse_opt_asset_transfer_filter,
};
use crate::codec::response::{
    decode_byte_vec, decode_hints, decode_maybe_error_code, decode_opt_error, decode_opt_weight,
    decode_origin_kind, decode_query_response_info, decode_response, decode_weight,
    decode_weight_limit, parse_byte_vec, parse_hints, parse_maybe_error_code, parse_opt_error,
    parse_opt_weight, parse_origin_kind, parse_query_response_info, parse_response, parse_weight,
    parse_weight_limit,
};
use crate::codec::progress::{group_progress, lemma_compact_progress};
use crate::model::junction::{JunctionView, LocationView, NetworkIdView, views};
use crate::model::asset::{AssetFilterView, AssetTransferFilterView, AssetView};
use crate::model::instruction::{Instruction, InstructionView, Xcm, lemma_program_view};

verus! {

/// The instructions without a nested program whose discriminants lie
/// between 0 and 8, read from after the discriminant `d`.
#[verifier::opaque]
pub open spec fn parse_plain_a(s: Seq<u8>, p: int, d: u8) -> Parsed<InstructionView> {
    match d {
        0 => match parse_assets(s, p) {
            Err(e) => Err(e),
            Ok((assets, end1)) => Ok(
                (InstructionView::WithdrawAsset(assets), end1),
            ),
        },
        1 => match parse_assets(s, p) {
            Err(e) => Err(e),
            Ok((assets, end1)) => Ok(
                (InstructionView::ReserveAssetDeposited(assets), end1),
            ),
        },
        2 => match parse_assets(s, p) {
            Err(e) => Err(e),
            Ok((assets, end1)) => Ok(
                (InstructionView::ReceiveTeleportedAsset(assets), end1),
            ),
        },
        3 => match parse_compact_u64(s, p) {
            Err(e) => Err(e),
            Ok((query_id, end1)) => match parse_response(s, end1) {
                Err(e) => Err(e),
                Ok((response, end2)) => match parse_weight(s, end2) {
                    Err(e) => Err(e),
                    Ok((max_weight, end3)) => match parse_opt_location(s, end3) {
                        Err(e) => Err(e),
                        Ok((querier, end4)) => Ok(
                            (InstructionView::QueryResponse {
                                query_id,
                                response,
                                max_weight,
                                querier,
                            }, end4),
                        ),
                    },
                },
            },
        },
        4 => match parse_assets(s, p) {
            Err(e) => Err(e),
            Ok((assets, end1)) => match parse_location(s, end1) {
                Err(e) => Err(e),
                Ok((beneficiary, end2)) => Ok(
                    (InstructionView::TransferAsset { assets, beneficiary }, end2),
                ),
            },
        },
        6 => match parse_origin_kind(s, p) {
            Err(e) => Err(e),
            Ok((origin_kind, end1)) => match parse_opt_weight(s, end1) {
                Err(e) => Err(e),
                Ok((fallback_max_weight, end2)) => match parse_byte_vec(s, end2) {
                    Err(e) => Err(e),
                    Ok((call, end3)) => Ok(
                        (InstructionView::Transact {
                            origin_kind,
                            fallback_max_weight,
                            call,
                        }, end3),
                    ),
                },
            },
        },
        7 => match parse_compact_u32(s, p) {
            Err(e) => Err(e),
            Ok((sender, end1)) => match parse_compact_u32(s, end1) {
                Err(e) => Err(e),
                Ok((max_message_size, end2)) => match parse_compact_u32(s, end2) {
                    Err(e) => Err(e),
                    Ok((max_capacity, end3)) => Ok(
                        (InstructionView::HrmpNewChannelOpenRequest {
                            sender,
                            max_message_size,
                            max_capacity,
                        }, end3),
                    ),
                },
            },
        },
        8 => match parse_compact_u32(s, p) {
            Err(e) => Err(e),
            Ok((recipient, end1)) => Ok(
                (InstructionView::HrmpChannelAccepted { recipient }, end1),
            ),
        },
        _ => Err(DecodeError::UnknownVariant(Kind::Instruction, d)),
    }
}

/// The instructions without a nested program whose discriminants lie
/// between 9 and 17, read from after the discriminant `d`.
#[verifier::opaque]
pub open spec fn parse_plain_b(s: Seq<u8>, p: int, d: u8) -> Parsed<InstructionView> {
    match d {
        9 => match parse_compact_u32(s, p) {
            Err(e) => Err(e),
            Ok((initiator, end1)) => match parse_compact_u32(s, end1) {
                Err(e) => Err(e),
                Ok((sender, end2)) => match parse_compact_u32(s, end2) {
                    Err(e) => Err(e),
                    Ok((recipient, end3)) => Ok(
                        (InstructionView::HrmpChannelClosing {
                            initiator,
                            sender,
                            recipient,
                        }, end3),
                    ),
                },
            },
        },
        10 => Ok((InstructionView::ClearOrigin, p)),
        11 => match parse_junctions(s, p) {
            Err(e) => Err(e),
            Ok((interior, end1)) => Ok(
                (InstructionView::DescendOrigin(interior), end1),
            ),
        },
        12 => match parse_query_response_info(s, p) {
            Err(e) => Err(e),
            Ok((info, end1)) => Ok(
                (InstructionView::ReportError(info), end1),
            ),
        },
        13 => match parse_asset_filter(s, p) {
            Err(e) => Err(e),
            Ok((assets, end1)) => match parse_location(s, end1) {
                Err(e) => Err(e),
                Ok((beneficiary, end2)) => Ok(
                    (InstructionView::DepositAsset { assets, beneficiary }, end2),
                ),
            },
        },
        15 => match parse_asset_filter(s, p) {
            Err(e) => Err(e),
            Ok((give, end1)) => match parse_assets(s, end1) {
                Err(e) => Err(e),
                Ok((want, end2)) => match parse_bool(s, end2) {
                    Err(e) => Err(e),
                    Ok((maximal, end3)) => Ok(
                        (InstructionView::ExchangeAsset { give, want, maximal }, end3),
                    ),
                },
            },
        },
        _ => Err(DecodeError::UnknownVariant(Kind::Instruction, d)),
    }
}

/// The instructions without a nested program whose discriminants lie
/// between 18 and 26, read from after the discriminant `d`.
#[verifier::opaque]
pub open spec fn parse_plain_c(s: Seq<u8>, p: int, d: u8) -> Parsed<InstructionView> {
    match d {
        18 => match parse_query_response_info(s, p) {
            Err(e) => Err(e),
            Ok((response_info, end1)) => match parse_asset_filter(s, end1) {
                Err(e) => Err(e),
                Ok((assets, end2)) => Ok(
                    (InstructionView::ReportHolding { response_info, assets }, end2),
                ),
            },
        },
        19 => match parse_asset(s, p) {
            Err(e) => Err(e),
            Ok((fees, end1)) => match parse_weight_limit(s, end1) {
                Err(e) => Err(e),
                Ok((weight_limit, end2)) => Ok(
                    (InstructionView::BuyExecution { fees, weight_limit }, end2),
                ),
            },
        },
        20 => Ok((InstructionView::RefundSurplus, p)),
        23 => Ok((InstructionView::ClearError, p)),
        24 => match parse_assets(s, p) {
            Err(e) => Err(e),
            Ok((assets, end1)) => match parse_location(s, end1) {
                Err(e) => Err(e),
                Ok((ticket, end2)) => Ok(
                    (InstructionView::ClaimAsset { assets, ticket }, end2),
                ),
            },
        },
        25 => match parse_compact_u64(s, p) {
            Err(e) => Err(e),
            Ok((code, end1)) => Ok(
                (InstructionView::Trap(code), end1),
            ),
        },
        26 => match parse_compact_u64(s, p) {
            Err(e) => Err(e),
            Ok((query_id, end1)) => match parse_weight(s, end1) {
                Err(e) => Err(e),
                Ok((max_response_weight, end2)) => Ok(
                    (InstructionView::SubscribeVersion { query_id, max_response_weight }, end2),
                ),
            },
        },
        _ => Err(DecodeError::UnknownVariant(Kind::Instruction, d)),
    }
}

/// The instructions without a nested program whose discriminants lie
/// between 27 and 35, read from after the discriminant `d`.
#[verifier::opaque]
pub open spec fn parse_plain_d(s: Seq<u8>, p: int, d: u8) -> Parsed<InstructionView> {
    match d {
        27 => Ok((InstructionView::UnsubscribeVersion, p)),
        28 => match parse_assets(s, p) {
            Err(e) => Err(e),
            Ok((assets, end1)) => Ok(
                (InstructionView::BurnAsset(assets), end1),
            ),
        },
        29 => match parse_assets(s, p) {
            Err(e) => Err(e),
            Ok((assets, end1)) => Ok(
                (InstructionView::ExpectAsset(assets), end1),
            ),
        },
        30 => match parse_opt_location(s, p) {
            Err(e) => Err(e),
            Ok((origin, end1)) => Ok(
                (InstructionView::ExpectOrigin(origin), end1),
            ),
        },
        31 => match parse_opt_error(s, p) {
            Err(e) => Err(e),
            Ok((error, end1)) => Ok(
                (InstructionView::ExpectError(error), end1),
            ),
        },
        32 => match parse_maybe_error_code(s, p) {
            Err(e) => Err(e),
            Ok((status, end1)) => Ok(
                (InstructionView::ExpectTransactStatus(status), end1),
            ),
        },
        33 => match parse_byte_vec(s, p) {
            Err(e) => Err(e),
            Ok((module_name, end1)) => match parse_query_response_info(s, end1) {
                Err(e) => Err(e),
                Ok((response_info, end2)) => Ok(
                    (InstructionView::QueryPallet { module_name, response_info }, end2),
                ),
            },
        },
        34 => match parse_compact_u32(s, p) {
            Err(e) => Err(e),
            Ok((index, end1)) => match parse_byte_vec(s, end1) {
                Err(e) => Err(e),
                Ok((name, end2)) => match parse_byte_vec(s, end2) {
                    Err(e) => Err(e),
                    Ok((module_name, end3)) => match parse_compact_u32(s, end3) {
                        Err(e) => Err(e),
                        Ok((crate_major, end4)) => match parse_compact_u32(s, end4) {
                            Err(e) => Err(e),
                            Ok((min_crate_minor, end5)) => Ok(
                                (InstructionView::ExpectPallet {
                                    index,
                                    name,
                                    module_name,
                                    crate_major,
                                    min_crate_minor,
                                }, end5),
                            ),
                        },
                    },
                },
            },
        },
        35 => match parse_query_response_info(s, p) {
            Err(e) => Err(e),
            Ok((info, end1)) => Ok(
                (InstructionView::ReportTransactStatus(info), end1),
            ),
        },
        _ => Err(DecodeError::UnknownVariant(Kind::Instruction, d)),
    }
}

/// The instructions without a nested program whose discriminants lie
/// between 36 and 43, read from after the discriminant `d`.
#[verifier::opaque]
pub open spec fn parse_plain_e(s: Seq<u8>, p: int, d: u8) -> Parsed<InstructionView> {
    match d {
        36 => Ok((InstructionView::ClearTransactStatus, p)),
        37 => match parse_junction(s, p) {
            Err(e) => Err(e),
            Ok((junction, end1)) => Ok(
                (InstructionView::UniversalOrigin(junction), end1),
            ),
        },
        39 => match parse_asset(s, p) {
            Err(e) => Err(e),
            Ok((asset, end1)) => match parse_location(s, end1) {
                Err(e) => Err(e),
                Ok((unlocker, end2)) => Ok(
                    (InstructionView::LockAsset { asset, unlocker }, end2),
                ),
            },
        },
        40 => match parse_asset(s, p) {
            Err(e) => Err(e),
            Ok((asset, end1)) => match parse_location(s, end1) {
                Err(e) => Err(e),
                Ok((target, end2)) => Ok(
                    (InstructionView::UnlockAsset { asset, target }, end2),
                ),
            },
        },
        41 => match parse_asset(s, p) {
            Err(e) => Err(e),
            Ok((asset, end1)) => match parse_location(s, end1) {
                Err(e) => Err(e),
                Ok((owner, end2)) => Ok(
                    (InstructionView::NoteUnlockable { asset, owner }, end2),
                ),
            },
        },
        42 => match parse_asset(s, p) {
            Err(e) => Err(e),
            Ok((asset, end1)) => match parse_location(s, end1) {
                Err(e) => Err(e),
                Ok((locker, end2)) => Ok(
                    (InstructionView::RequestUnlock { asset, locker }, end2),
                ),
            },
        },
        43 => match parse_bool(s, p) {
            Err(e) => Err(e),
            Ok((jit_withdraw, end1)) => Ok(
                (InstructionView::SetFeesMode { jit_withdraw }, end1),
            ),
        },
        _ => Err(DecodeError::UnknownVariant(Kind::Instruction, d)),
    }
}

/// The instructions without a nested program whose discriminants lie
/// between 44 and 51, read from after the discriminant `d`.
#[verifier::opaque]
pub open spec fn parse_plain_f(s: Seq<u8>, p: int, d: u8) -> Parsed<InstructionView> {
    match d {
        44 => match parse_bytes(s, p, 32) {
            Err(e) => Err(e),
            Ok((topic, end1)) => Ok(
                (InstructionView::SetTopic(topic), end1),
            ),
        },
        45 => Ok((InstructionView::ClearTopic, p)),
        46 => match parse_location(s, p) {
            Err(e) => Err(e),
            Ok((origin, end1)) => Ok(
                (InstructionView::AliasOrigin(origin), end1),
            ),
        },
        47 => match parse_weight_limit(s, p) {
            Err(e) => Err(e),
            Ok((weight_limit, end1)) => match parse_opt_location(s, end1) {
                Err(e) => Err(e),
                Ok((check_origin, end2)) => Ok(
                    (InstructionView::UnpaidExecution { weight_limit, check_origin }, end2),
                ),
            },
        },
        48 => match parse_asset(s, p) {
            Err(e) => Err(e),
            Ok((asset, end1)) => Ok(
                (InstructionView::PayFees { asset }, end1),
            ),
        },
        51 => match parse_hints(s, p) {
            Err(e) => Err(e),
            Ok((hints, end1)) => Ok(
                (InstructionView::SetHints { hints }, end1),
            ),
        },
        _ => Err(DecodeError::UnknownVariant(Kind::Instruction, d)),
    }
}

/// An instruction without a nested program, read from after its
/// discriminant `d`.
pub open spec fn parse_plain_instruction(s: Seq<u8>, p: int, d: u8) -> Parsed<InstructionView> {
    if d <= 8 {
        parse_plain_a(s, p, d)
    } else if d <= 17 {
        parse_plain_b(s, p, d)
    } else if d <= 26 {
        parse_plain_c(s, p, d)
    } else if d <= 35 {
        parse_plain_d(s, p, d)
    } else if d <= 43 {
        parse_plain_e(s, p, d)
    } else {
        parse_plain_f(s, p, d)
    }
}

/// Whether the instruction with discriminant `d` carries a nested program.
pub open spec fn carries_program(d: u8) -> bool {
    d == 5 || d == 14 || d == 16 || d == 17 || d == 21 || d == 22 || d == 38 || d == 49 || d == 50
}

/// The fields of an instruction that stand before its nested program.
#[allow(inconsistent_fields)]
pub enum NestingHead {
    TransferReserveAsset { assets: Seq<AssetView>, dest: LocationView },
    DepositReserveAsset { assets: AssetFilterView, dest: LocationView },
    InitiateReserveWithdraw { assets: AssetFilterView, reserve: LocationView },
    InitiateTeleport { assets: AssetFilterView, dest: LocationView },
    SetErrorHandler,
    SetAppendix,
    ExportMessage { network: NetworkIdView, destination: Seq<JunctionView> },
    InitiateTransfer {
        destination: LocationView,
        remote_fees: Option<AssetTransferFilterView>,
        preserve_origin: bool,
        assets: Seq<AssetTransferFilterView>,
    },
    ExecuteWithOrigin { descendant_origin: Option<Seq<JunctionView>> },
}

/// The instruction made of `head` and the program `xcm` nested in it.
pub open spec fn attach(head: NestingHead, xcm: Seq<InstructionView>) -> InstructionView {
    match head {
        NestingHead::TransferReserveAsset { assets, dest } => {
            InstructionView::TransferReserveAsset { assets, dest, xcm }
        },
        NestingHead::DepositReserveAsset { assets, dest } => {
            InstructionView::DepositReserveAsset { assets, dest, xcm }
        },
        NestingHead::InitiateReserveWithdraw { assets, reserve } => {
            InstructionView::InitiateReserveWithdraw { assets, reserve, xcm }
        },
        NestingHead::InitiateTeleport { assets, dest } => {
            InstructionView::InitiateTeleport { assets, dest, xcm }
        },
        NestingHead::SetErrorHandler => InstructionView::SetErrorHandler(xcm),
        NestingHead::SetAppendix => InstructionView::SetAppendix(xcm),
        NestingHead::ExportMessage { network, destination } => {
            InstructionView::ExportMessage { network, destination, xcm }
        },
        NestingHead::InitiateTransfer { destination, remote_fees, preserve_origin, assets } => {
            InstructionView::InitiateTransfer {
                destination,
                remote_fees,
                preserve_origin,
                assets,
                remote_xcm: xcm,
            }
        },
        NestingHead::ExecuteWithOrigin { descendant_origin } => {
            InstructionView::ExecuteWithOrigin { descendant_origin, xcm }
        },
    }
}

/// The fields before the nested program, for an instruction that carries
/// one, read from after its discriminant `d`.
#[verifier::opaque]
pub open spec fn parse_nesting_head(s: Seq<u8>, p: int, d: u8) -> Parsed<NestingHead> {
    match d {
        5 => match parse_assets(s, p) {
            Err(e) => Err(e),
            Ok((assets, end1)) => match parse_location(s, end1) {
                Err(e) => Err(e),
                Ok((dest, end2)) => Ok(
                    (NestingHead::TransferReserveAsset { assets, dest }, end2),
                ),
            },
        },
        14 => match parse_asset_filter(s, p) {
            Err(e) => Err(e),
            Ok((assets, end1)) => match parse_location(s, end1) {
                Err(e) => Err(e),
                Ok((dest, end2)) => Ok(
                    (NestingHead::DepositReserveAsset { assets, dest }, end2),
                ),
            },
        },
        16 => match parse_asset_filter(s, p) {
            Err(e) => Err(e),
            Ok((assets, end1)) => match parse_location(s, end1) {
                Err(e) => Err(e),
                Ok((reserve, end2)) => Ok(
                    (NestingHead::InitiateReserveWithdraw { assets, reserve }, end2),
                ),
            },
        },
        17 => match parse_asset_filter(s, p) {
            Err(e) => Err(e),
            Ok((assets, end1)) => match parse_location(s, end1) {
                Err(e) => Err(e),
                Ok((dest, end2)) => Ok(
                    (NestingHead::InitiateTeleport { assets, dest }, end2),
                ),
            },
        },
        21 => Ok((NestingHead::SetErrorHandler, p)),
        22 => Ok((NestingHead::SetAppendix, p)),
        38 => match parse_network_id(s, p) {
            Err(e) => Err(e),
            Ok((network, end1)) => match parse_junctions(s, end1) {
                Err(e) => Err(e),
                Ok((destination, end2)) => Ok(
                    (NestingHead::ExportMessage { network, destination }, end2),
                ),
            },
        },
        49 => match parse_location(s, p) {
            Err(e) => Err(e),
            Ok((destination, end1)) => match parse_opt_asset_transfer_filter(s, end1) {
                Err(e) => Err(e),
                Ok((remote_fees, end2)) => match parse_bool(s, end2) {
                    Err(e) => Err(e),
                    Ok((preserve_origin, end3)) => match parse_asset_transfer_filters(s, end3) {
                        Err(e) => Err(e),
                        Ok((assets, end4)) => Ok(
                            (NestingHead::InitiateTransfer {
                                destination,
                                remote_fees,
                                preserve_origin,
                                assets,
                            }, end4),
                        ),
                    },
                },
            },
        },
        50 => match parse_opt_junctions(s, p) {
            Err(e) => Err(e),
            Ok((descendant_origin, end1)) => Ok(
                (NestingHead::ExecuteWithOrigin { descendant_origin }, end1),
            ),
        },
        _ => Err(DecodeError::UnknownVariant(Kind::Instruction, d)),
    }
}

/// One instruction: its discriminant, then its fields in their declared
/// order. A nested program is always the last field.
pub open spec fn parse_instruction(s: Seq<u8>, pos: int) -> Parsed<InstructionView>
    decreases remaining(s, pos), 0nat,
    via parse_instruction_terminates
{
    match parse_variant(s, pos, Kind::Instruction, 52) {
        Err(e) => Err(e),
        Ok((d, p)) => if carries_program(d) {
            match parse_nesting_head(s, p, d) {
                Err(e) => Err(e),
                Ok((head, q)) => match parse_xcm(s, q) {
                    Err(e) => Err(e),
                    Ok((xcm, end)) => Ok((attach(head, xcm), end)),
                },
            }
        } else {
            parse_plain_instruction(s, p, d)
        },
    }
}

/// A program: a compact count, then that many instructions.
pub open spec fn parse_xcm(s: Seq<u8>, pos: int) -> Parsed<Seq<InstructionView>>
    decreases remaining(s, pos), 0nat,
    via parse_xcm_terminates
{
    match parse_compact(s, pos) {
        Err(e) => Err(e),
        Ok((count, p)) => parse_program(s, p, count as nat),
    }
}

/// `n` instructions one after the other. An instruction never ends before
/// it begins (see [`lemma_instruction_progress`]); the test for that is what
/// makes this definition well-founded, and it never fails.
pub open spec fn parse_program(s: Seq<u8>, pos: int, n: nat) -> Parsed<Seq<InstructionView>>
    decreases remaining(s, pos), n + 1,
{
    if n == 0 {
        Ok((Seq::empty(), pos))
    } else {
        match parse_program(s, pos, (n - 1) as nat) {
            Err(e) => Err(e),
            Ok((items, p)) => if p < pos {
                Err(DecodeError::IncompleteInput)
            } else {
                match parse_instruction(s, p) {
                    Err(e) => Err(e),
                    Ok((item, q)) => Ok((items.push(item), q)),
                }
            },
        }
    }
}

/// The fields before a nested program end at or after their start and
/// within the input.
pub proof fn lemma_nesting_head_progress(s: Seq<u8>, p: int, d: u8)
    requires
        0 <= p <= s.len(),
    ensures
        parse_nesting_head(s, p, d) matches Ok((_, q)) ==> p <= q <= s.len(),
{
    broadcast use group_progress;

    reveal(parse_nesting_head);
}

#[via_fn]
proof fn parse_instruction_terminates(s: Seq<u8>, pos: int) {
    if 0 <= pos < s.len() {
        lemma_nesting_head_progress(s, pos + 1, s[pos]);
    }
}

#[via_fn]
proof fn parse_xcm_terminates(s: Seq<u8>, pos: int) {
    broadcast use lemma_compact_progress;

}

/// A program of no instruction reads nothing.
pub proof fn lemma_program_none(s: Seq<u8>, pos: int)
    ensures
        parse_program(s, pos, 0) == Ok::<_, DecodeError>((Seq::<InstructionView>::empty(), pos)),
{
}

/// A program of `n + 1` instructions is one of `n` followed by one more.
pub proof fn lemma_program_next(s: Seq<u8>, pos: int, n: nat)
    ensures
        parse_program(s, pos, n + 1) == match parse_program(s, pos, n) {
            Err(e) => Err(e),
            Ok((items, p)) => if p < pos {
                Err(DecodeError::IncompleteInput)
            } else {
                match parse_instruction(s, p) {
                    Err(e) => Err(e),
                    Ok((item, q)) => Ok((items.push(item), q)),
                }
            },
        },
{
}

/// Once a prefix of a program fails, every longer program fails alike.
pub proof fn lemma_program_err(s: Seq<u8>, pos: int, i: nat, n: nat)
    requires
        i <= n,
        parse_program(s, pos, i) is Err,
    ensures
        parse_program(s, pos, n) == parse_program(s, pos, i),
    decreases n - i,
{
    if i < n {
        lemma_program_err(s, pos, i, (n - 1) as nat);
        lemma_program_next(s, pos, (n - 1) as nat);
    }
}

/// An instruction that is read ends after its start and within the input.
pub broadcast proof fn lemma_instruction_progress(s: Seq<u8>, pos: int)
    ensures
        (#[trigger] parse_instruction(s, pos)) matches Ok((_, end)) ==> pos < end <= s.len(),
    decreases remaining(s, pos), 0nat,
{
    if 0 <= pos < s.len() {
        let d = s[pos];
        if carries_program(d) {
            lemma_nesting_head_progress(s, pos + 1, d);
            if let Ok((head, q)) = parse_nesting_head(s, pos + 1, d) {
                lemma_xcm_progress(s, q);
            }
        } else {
            lemma_plain_instruction_progress(s, pos + 1, d);
        }
    }
}

/// An instruction without a nested program ends at or after the end of its
/// discriminant and within the input.
pub proof fn lemma_plain_instruction_progress(s: Seq<u8>, p: int, d: u8)
    requires
        0 <= p <= s.len(),
    ensures
        parse_plain_instruction(s, p, d) matches Ok((_, q)) ==> p <= q <= s.len(),
{
    broadcast use group_progress;

    reveal(parse_plain_a);
    reveal(parse_plain_b);
    reveal(parse_plain_c);
    reveal(parse_plain_d);
    reveal(parse_plain_e);
    reveal(parse_plain_f);
}

/// A program that is read ends after its start and within the input.
pub broadcast proof fn lemma_xcm_progress(s: Seq<u8>, pos: int)
    ensures
        (#[trigger] parse_xcm(s, pos)) matches Ok((_, end)) ==> pos < end <= s.len(),
    decreases remaining(s, pos), 0nat,
{
    broadcast use lemma_compact_progress;

    if let Ok((count, p)) = parse_compact(s, pos) {
        lemma_program_progress(s, p, count as nat);
    }
}

/// A run of `n` instructions yields `n` items and ends within the input,
/// after its start unless it is empty.
pub proof fn lemma_program_progress(s: Seq<u8>, pos: int, n: nat)
    requires
        0 <= pos <= s.len(),
    ensures
        parse_program(s, pos, n) matches Ok((items, end)) ==> {
            &&& items.len() == n
            &&& pos <= end <= s.len()
            &&& (n > 0 ==> pos < end)
        },
    decreases remaining(s, pos), n + 1,
{
    if n > 0 {
        lemma_program_progress(s, pos, (n - 1) as nat);
        if let Ok((items, p)) = parse_program(s, pos, (n - 1) as nat) {
            lemma_instruction_progress(s, p);
        }
    }
}

fn decode_plain_a(input: &[u8], p: usize, d: u8) -> (r: Decoded<Instruction>)
    ensures
        decoded(r) == parse_plain_a(input@, p as int, d),
{
    reveal(parse_plain_a);
    match d {
        0 => {
            let (assets, end1) = decode_assets(input, p)?;
            Ok((Instruction::WithdrawAsset(assets), end1))
        },
        1 => {
            let (assets, end1) = decode_assets(input, p)?;
            Ok((Instruction::ReserveAssetDeposited(assets), end1))
        },
        2 => {
            let (assets, end1) = decode_assets(input, p)?;
            Ok((Instruction::ReceiveTeleportedAsset(assets), end1))
        },
        3 => {
            let (query_id, end1) = decode_compact_u64(input, p)?;
            let (response, end2) = decode_response(input, end1)?;
            let (max_weight, end3) = decode_weight(input, end2)?;
            let (querier, end4) = decode_opt_location(input, end3)?;
            Ok((Instruction::QueryResponse { query_id, response, max_weight, querier }, end4))
        },
        4 => {
            let (assets, end1) = decode_assets(input, p)?;
            let (beneficiary, end2) = decode_location(input, end1)?;
            Ok((Instruction::TransferAsset { assets, beneficiary }, end2))
        },
        6 => {
            let (origin_kind, end1) = decode_origin_kind(input, p)?;
            let (fallback_max_weight, end2) = decode_opt_weight(input, end1)?;
            let (call, end3) = decode_byte_vec(input, end2)?;
            Ok((Instruction::Transact { origin_kind, fallback_max_weight, call }, end3))
        },
        7 => {
            let (sender, end1) = decode_compact_u32(input, p)?;
            let (max_message_size, end2) = decode_compact_u32(input, end1)?;
            let (max_capacity, end3) = decode_compact_u32(input, end2)?;
            Ok((Instruction::HrmpNewChannelOpenRequest {
                sender,
                max_message_size,
                max_capacity,
            }, end3))
        },
        8 => {
            let (recipient, end1) = decode_compact_u32(input, p)?;
            Ok((Instruction::HrmpChannelAccepted { recipient }, end1))
        },
        _ => Err(DecodeError::UnknownVariant(Kind::Instruction, d)),
    }
}

fn decode_plain_b(input: &[u8], p: usize, d: u8) -> (r: Decoded<Instruction>)
    ensures
        decoded(r) == parse_plain_b(input@, p as int, d),
{
    reveal(parse_plain_b);
    match d {
        9 => {
            let (initiator, end1) = decode_compact_u32(input, p)?;
            let (sender, end2) = decode_compact_u32(input, end1)?;
            let (recipient, end3) = decode_compact_u32(input, end2)?;
            Ok((Instruction::HrmpChannelClosing { initiator, sender, recipient }, end3))
        },
        10 => Ok((Instruction::ClearOrigin, p)),
        11 => {
            let (interior, end1) = decode_junctions(input, p)?;
            Ok((Instruction::DescendOrigin(interior), end1))
        },
        12 => {
            let (info, end1) = decode_query_response_info(input, p)?;
            Ok((Instruction::ReportError(info), end1))
        },
        13 => {
            let (assets, end1) = decode_asset_filter(input, p)?;
            let (beneficiary, end2) = decode_location(input, end1)?;
            Ok((Instruction::DepositAsset { assets, beneficiary }, end2))
        },
        15 => {
            let (give, end1) = decode_asset_filter(input, p)?;
            let (want, end2) = decode_assets(input, end1)?;
            let (maximal, end3) = decode_bool(input, end2)?;
            Ok((Instruction::ExchangeAsset { give, want, maximal }, end3))
        },
        _ => Err(DecodeError::UnknownVariant(Kind::Instruction, d)),
    }
}

fn decode_plain_c(input: &[u8], p: usize, d: u8) -> (r: Decoded<Instruction>)
    ensures
        decoded(r) == parse_plain_c(input@, p as int, d),
{
    reveal(parse_plain_c);
    match d {
        18 => {
            let (response_info, end1) = decode_query_response_info(input, p)?;
            let (assets, end2) = decode_asset_filter(input, end1)?;
            Ok((Instruction::ReportHolding { response_info, assets }, end2))
        },
        19 => {
            let (fees, end1) = decode_asset(input, p)?;
            let (weight_limit, end2) = decode_weight_limit(input, end1)?;
            Ok((Instruction::BuyExecution { fees, weight_limit }, end2))
        },
        20 => Ok((Instruction::RefundSurplus, p)),
        23 => Ok((Instruction::ClearError, p)),
        24 => {
            let (assets, end1) = decode_assets(input, p)?;
            let (ticket, end2) = decode_location(input, end1)?;
            Ok((Instruction::ClaimAsset { assets, ticket }, end2))
        },
        25 => {
            let (code, end1) = decode_compact_u64(input, p)?;
            Ok((Instruction::Trap(code), end1))
        },
        26 => {
            let (query_id, end1) = decode_compact_u64(input, p)?;
            let (max_response_weight, end2) = decode_weight(input, end1)?;
            Ok((Instruction::SubscribeVersion { query_id, max_response_weight }, end2))
        },
        _ => Err(DecodeError::UnknownVariant(Kind::Instruction, d)),
    }
}

fn decode_plain_d(input: &[u8], p: usize, d: u8) -> (r: Decoded<Instruction>)
    ensures
        decoded(r) == parse_plain_d(input@, p as int, d),
{
    reveal(parse_plain_d);
    match d {
        27 => Ok((Instruction::UnsubscribeVersion, p)),
        28 => {
            let (assets, end1) = decode_assets(input, p)?;
            Ok((Instruction::BurnAsset(assets), end1))
        },
        29 => {
            let (assets, end1) = decode_assets(input, p)?;
            Ok((Instruction::ExpectAsset(assets), end1))
        },
        30 => {
            let (origin, end1) = decode_opt_location(input, p)?;
            Ok((Instruction::ExpectOrigin(origin), end1))
        },
        31 => {
            let (error, end1) = decode_opt_error(input, p)?;
            Ok((Instruction::ExpectError(error), end1))
        },
        32 => {
            let (status, end1) = decode_maybe_error_code(input, p)?;
            Ok((Instruction::ExpectTransactStatus(status), end1))
        },
        33 => {
            let (module_name, end1) = decode_byte_vec(input, p)?;
            let (response_info, end2) = decode_query_response_info(input, end1)?;
            Ok((Instruction::QueryPallet { module_name, response_info }, end2))
        },
        34 => {
            let (index, end1) = decode_compact_u32(input, p)?;
            let (name, end2) = decode_byte_vec(input, end1)?;
            let (module_name, end3) = decode_byte_vec(input, end2)?;
            let (crate_major, end4) = decode_compact_u32(input, end3)?;
            let (min_crate_minor, end5) = decode_compact_u32(input, end4)?;
            Ok((Instruction::ExpectPallet {
                index,
                name,
                module_name,
                crate_major,
                min_crate_minor,
            }, end5))
        },
        35 => {
            let (info, end1) = decode_query_response_info(input, p)?;
            Ok((Instruction::ReportTransactStatus(info), end1))
        },
        _ => Err(DecodeError::UnknownVariant(Kind::Instruction, d)),
    }
}

fn decode_plain_e(input: &[u8], p: usize, d: u8) -> (r: Decoded<Instruction>)
    ensures
        decoded(r) == parse_plain_e(input@, p as int, d),
{
    reveal(parse_plain_e);
    match d {
        36 => Ok((Instruction::ClearTransactStatus, p)),
        37 => {
            let (junction, end1) = decode_junction(input, p)?;
            Ok((Instruction::UniversalOrigin(junction), end1))
        },
        39 => {
            let (asset, end1) = decode_asset(input, p)?;
            let (unlocker, end2) = decode_location(input, end1)?;
            Ok((Instruction::LockAsset { asset, unlocker }, end2))
        },
        40 => {
            let (asset, end1) = decode_asset(input, p)?;
            let (target, end2) = decode_location(input, end1)?;
            Ok((Instruction::UnlockAsset { asset, target }, end2))
        },
        41 => {
            let (asset, end1) = decode_asset(input, p)?;
            let (owner, end2) = decode_location(input, end1)?;
            Ok((Instruction::NoteUnlockable { asset, owner }, end2))
        },
        42 => {
            let (asset, end1) = decode_asset(input, p)?;
            let (locker, end2) = decode_location(input, end1)?;
            Ok((Instruction::RequestUnlock { asset, locker }, end2))
        },
        43 => {
            let (jit_withdraw, end1) = decode_bool(input, p)?;
            Ok((Instruction::SetFeesMode { jit_withdraw }, end1))
        },
        _ => Err(DecodeError::UnknownVariant(Kind::Instruction, d)),
    }
}

fn decode_plain_f(input: &[u8], p: usize, d: u8) -> (r: Decoded<Instruction>)
    ensures
        decoded(r) == parse_plain_f(input@, p as int, d),
{
    reveal(parse_plain_f);
    match d {
        44 => {
            let (topic, end1) = decode_array::<32>(input, p)?;
            Ok((Instruction::SetTopic(topic), end1))
        },
        45 => Ok((Instruction::ClearTopic, p)),
        46 => {
            let (origin, end1) = decode_location(input, p)?;
            Ok((Instruction::AliasOrigin(origin), end1))
        },
        47 => {
            let (weight_limit, end1) = decode_weight_limit(input, p)?;
            let (check_origin, end2) = decode_opt_location(input, end1)?;
            Ok((Instruction::UnpaidExecution { weight_limit, check_origin }, end2))
        },
        48 => {
            let (asset, end1) = decode_asset(input, p)?;
            Ok((Instruction::PayFees { asset }, end1))
        },
        51 => {
            let (hints, end1) = decode_hints(input, p)?;
            Ok((Instruction::SetHints { hints }, end1))
        },
        _ => Err(DecodeError::UnknownVariant(Kind::Instruction, d)),
    }
}

fn decode_plain_instruction(input: &[u8], p: usize, d: u8) -> (r: Decoded<Instruction>)
    ensures
        decoded(r) == parse_plain_instruction(input@, p as int, d),
{
    if d <= 8 {
        decode_plain_a(input, p, d)
    } else if d <= 17 {
        decode_plain_b(input, p, d)
    } else if d <= 26 {
        decode_plain_c(input, p, d)
    } else if d <= 35 {
        decode_plain_d(input, p, d)
    } else if d <= 43 {
        decode_plain_e(input, p, d)
    } else {
        decode_plain_f(input, p, d)
    }
}

/// Reads one instruction, and with it any program nested in it. The depth
/// of the recursion is at most the nesting depth of the input, which is at
/// most half its length.
pub fn decode_instruction(input: &[u8], pos: usize) -> (r: Decoded<Instruction>)
    ensures
        decoded(r) == parse_instruction(input@, pos as int),
    decreases input.len() - pos,
{
    broadcast use group_progress;

    reveal(parse_nesting_head);
    let (d, p) = decode_variant(input, pos, Kind::Instruction, 52)?;
    match d {
        5 => {
            let (assets, end1) = decode_assets(input, p)?;
            let (dest, end2) = decode_location(input, end1)?;
            let (xcm, end3) = decode_xcm(input, end2)?;
            Ok((Instruction::TransferReserveAsset { assets, dest, xcm }, end3))
        },
        14 => {
            let (assets, end1) = decode_asset_filter(input, p)?;
            let (dest, end2) = decode_location(input, end1)?;
            let (xcm, end3) = decode_xcm(input, end2)?;
            Ok((Instruction::DepositReserveAsset { assets, dest, xcm }, end3))
        },
        16 => {
            let (assets, end1) = decode_asset_filter(input, p)?;
            let (reserve, end2) = decode_location(input, end1)?;
            let (xcm, end3) = decode_xcm(input, end2)?;
            Ok((Instruction::InitiateReserveWithdraw { assets, reserve, xcm }, end3))
        },
        17 => {
            let (assets, end1) = decode_asset_filter(input, p)?;
            let (dest, end2) = decode_location(input, end1)?;
            let (xcm, end3) = decode_xcm(input, end2)?;
            Ok((Instruction::InitiateTeleport { assets, dest, xcm }, end3))
        },
        21 => {
            let (xcm, end1) = decode_xcm(input, p)?;
            Ok((Instruction::SetErrorHandler(xcm), end1))
        },
        22 => {
            let (xcm, end1) = decode_xcm(input, p)?;
            Ok((Instruction::SetAppendix(xcm), end1))
        },
        38 => {
            let (network, end1) = decode_network_id(input, p)?;
            let (destination, end2) = decode_junctions(input, end1)?;
            let (xcm, end3) = decode_xcm(input, end2)?;
            Ok((Instruction::ExportMessage { network, destination, xcm }, end3))
        },
        49 => {
            let (destination, end1) = decode_location(input, p)?;
            let (remote_fees, end2) = decode_opt_asset_transfer_filter(input, end1)?;
            let (preserve_origin, end3) = decode_bool(input, end2)?;
            let (assets, end4) = decode_asset_transfer_filters(input, end3)?;
            let (remote_xcm, end5) = decode_xcm(input, end4)?;
            Ok((Instruction::InitiateTransfer {
                destination,
                remote_fees,
                preserve_origin,
                assets,
                remote_xcm,
            }, end5))
        },
        50 => {
            let (descendant_origin, end1) = decode_opt_junctions(input, p)?;
            let (xcm, end2) = decode_xcm(input, end1)?;
            Ok((Instruction::ExecuteWithOrigin { descendant_origin, xcm }, end2))
        },
        _ => decode_plain_instruction(input, p, d),
    }
}

/// Reads a program: a compact count, then that many instructions.
pub fn decode_xcm(input: &[u8], pos: usize) -> (r: Decoded<Xcm>)
    ensures
        decoded(r) == parse_xcm(input@, pos as int),
    decreases input.len() - pos,
{
    broadcast use lemma_compact_progress;

    let (count, start) = decode_compact(input, pos)?;
    let mut out: Vec<Instruction> = Vec::new();
    let mut p: usize = start;
    let mut i: u128 = 0;
    proof {
        lemma_program_none(input@, start as int);
        lemma_views_push(out@, arbitrary());
    }
    while i < count
        invariant
            i <= count,
            pos < start <= p <= input.len(),
            parse_compact(input@, pos as int) == Ok::<_, DecodeError>((count, start as int)),
            parse_program(input@, start as int, i as nat) == Ok::<_, DecodeError>(
                (views(out@), p as int),
            ),
        decreases count - i,
    {
        proof {
            lemma_program_next(input@, start as int, i as nat);
            lemma_instruction_progress(input@, p as int);
        }
        match decode_instruction(input, p) {
            Err(e) => {
                proof {
                    lemma_program_err(input@, start as int, (i + 1) as nat, count as nat);
                }
                return Err(e);
            },
            Ok((instruction, q)) => {
                proof {
                    lemma_views_push(out@, instruction);
                }
                out.push(instruction);
                p = q;
                i = i + 1;
            },
        }
    }
    proof {
        lemma_program_view(out);
    }
    Ok((Xcm(out), p))
}

} // verus!
