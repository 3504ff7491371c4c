//! Instructions and programs as text.

use vstd::prelude::*;
use crate::model::junction::views;
use crate::model::instruction::{Instruction, InstructionView, Xcm, lemma_program_view};
use crate::text::basic::{
    bool_text, bytes_to_hex, decimal, format_bool, format_list, format_number, hex_text, list_text,
    texts,
};
use crate::text::junction::{
    format_junction, format_junctions, format_location, format_network_id, format_opt_junctions,
    format_opt_location, junction_text, junctions_text, location_text, network_id_text,
    opt_junctions_text, opt_location_text,
};
use crate::text::asset::{
    asset_filter_text, asset_text, asset_transfer_filters_text, assets_text, format_asset,
    format_asset_filter, format_asset_transfer_filters, format_assets,
    format_opt_asset_transfer_filter, opt_asset_transfer_filter_text,
};
use crate::text::response::{
    format_hints, format_maybe_error_code, format_opt_error, format_opt_weight, format_origin_kind,
    format_query_response_info, format_response, format_weight, format_weight_limit, hints_text,
    maybe_error_code_text, opt_error_text, opt_weight_text, origin_kind_text,
    query_response_info_text, response_text, weight_limit_text, weight_text,
};

verus! {

/// The text of an instruction without a shown program whose discriminant lies
/// between 0 and 8; of any other, what the next such function gives.
#[verifier::opaque]
pub open spec fn plain_text_a(x: InstructionView) -> Seq<char> {
    match x {
        InstructionView::WithdrawAsset(assets) => "WithdrawAsset("@ + assets_text(assets) + ")"@,
        InstructionView::ReserveAssetDeposited(assets) => {
            "ReserveAssetDeposited("@ + assets_text(assets) + ")"@
        },
        InstructionView::ReceiveTeleportedAsset(assets) => {
            "ReceiveTeleportedAsset("@ + assets_text(assets) + ")"@
        },
        InstructionView::QueryResponse { query_id, response, max_weight, querier } => {
            "QueryResponse { query_id: "@
                + decimal(query_id as nat)
                + ", response: "@
                + response_text(response)
                + ", max_weight: "@
                + weight_text(max_weight)
                + ", querier: "@
                + opt_location_text(querier)
                + " }"@
        },
        InstructionView::TransferAsset { assets, beneficiary } => {
            "TransferAsset { assets: "@
                + assets_text(assets)
                + ", beneficiary: "@
                + location_text(beneficiary)
                + " }"@
        },
        InstructionView::Transact { origin_kind, fallback_max_weight, call } => {
            "Transact { origin_kind: "@
                + origin_kind_text(origin_kind)
                + ", fallback_max_weight: "@
                + opt_weight_text(fallback_max_weight)
                + ", call: "@
                + hex_text(call)
                + " }"@
        },
        InstructionView::HrmpNewChannelOpenRequest { sender, max_message_size, max_capacity } => {
            "HrmpNewChannelOpenRequest { sender: "@
                + decimal(sender as nat)
                + ", max_message_size: "@
                + decimal(max_message_size as nat)
                + ", max_capacity: "@
                + decimal(max_capacity as nat)
                + " }"@
        },
        InstructionView::HrmpChannelAccepted { recipient } => {
            "HrmpChannelAccepted { recipient: "@ + decimal(recipient as nat) + " }"@
        },
        _ => plain_text_b(x),
    }
}

/// The text of an instruction without a shown program whose discriminant lies
/// between 9 and 17; of any other, what the next such function gives.
#[verifier::opaque]
pub open spec fn plain_text_b(x: InstructionView) -> Seq<char> {
    match x {
        InstructionView::HrmpChannelClosing { initiator, sender, recipient } => {
            "HrmpChannelClosing { initiator: "@
                + decimal(initiator as nat)
                + ", sender: "@
                + decimal(sender as nat)
                + ", recipient: "@
                + decimal(recipient as nat)
                + " }"@
        },
        InstructionView::ClearOrigin => "ClearOrigin"@,
        InstructionView::DescendOrigin(interior) => {
            "DescendOrigin("@ + junctions_text(interior) + ")"@
        },
        InstructionView::ReportError(info) => {
            "ReportError("@ + query_response_info_text(info) + ")"@
        },
        InstructionView::DepositAsset { assets, beneficiary } => {
            "DepositAsset { assets: "@
                + asset_filter_text(assets)
                + ", beneficiary: "@
                + location_text(beneficiary)
                + " }"@
        },
        InstructionView::ExchangeAsset { give, want, maximal } => {
            "ExchangeAsset { give: "@
                + asset_filter_text(give)
                + ", want: "@
                + assets_text(want)
                + ", maximal: "@
                + bool_text(maximal)
                + " }"@
        },
        InstructionView::InitiateReserveWithdraw { assets, reserve, xcm: _ } => {
            "InitiateReserveWithdraw { assets: "@
                + asset_filter_text(assets)
                + ", reserve: "@
                + location_text(reserve)
                + ", xcm: ... }"@
        },
        InstructionView::InitiateTeleport { assets, dest, xcm: _ } => {
            "InitiateTeleport { assets: "@
                + asset_filter_text(assets)
                + ", dest: "@
                + location_text(dest)
                + ", xcm: ... }"@
        },
        _ => plain_text_c(x),
    }
}

/// The text of an instruction without a shown program whose discriminant lies
/// between 18 and 26; of any other, what the next such function gives.
#[verifier::opaque]
pub open spec fn plain_text_c(x: InstructionView) -> Seq<char> {
    match x {
        InstructionView::ReportHolding { response_info, assets } => {
            "ReportHolding { response_info: { destination: "@
                + location_text(response_info.destination)
                + ", query_id: "@
                + decimal(response_info.query_id as nat)
                + ", max_weight: "@
                + weight_text(response_info.max_weight)
                + " }, assets: "@
                + asset_filter_text(assets)
                + " }"@
        },
        InstructionView::BuyExecution { fees, weight_limit } => {
            "BuyExecution { fees: "@
                + asset_text(fees)
                + ", weight_limit: "@
                + weight_limit_text(weight_limit)
                + " }"@
        },
        InstructionView::RefundSurplus => "RefundSurplus"@,
        InstructionView::ClearError => "ClearError"@,
        InstructionView::ClaimAsset { assets, ticket } => {
            "ClaimAsset { assets: "@
                + assets_text(assets)
                + ", ticket: "@
                + location_text(ticket)
                + " }"@
        },
        InstructionView::Trap(code) => "Trap("@ + decimal(code as nat) + ")"@,
        InstructionView::SubscribeVersion { query_id, max_response_weight } => {
            "SubscribeVersion { query_id: "@
                + decimal(query_id as nat)
                + ", max_response_weight: "@
                + weight_text(max_response_weight)
                + " }"@
        },
        _ => plain_text_d(x),
    }
}

/// The text of an instruction without a shown program whose discriminant lies
/// between 27 and 35; of any other, what the next such function gives.
#[verifier::opaque]
pub open spec fn plain_text_d(x: InstructionView) -> Seq<char> {
    match x {
        InstructionView::UnsubscribeVersion => "UnsubscribeVersion"@,
        InstructionView::BurnAsset(assets) => "BurnAsset("@ + assets_text(assets) + ")"@,
        InstructionView::ExpectAsset(assets) => "ExpectAsset("@ + assets_text(assets) + ")"@,
        InstructionView::ExpectOrigin(origin) => {
            "ExpectOrigin("@ + opt_location_text(origin) + ")"@
        },
        InstructionView::ExpectError(error) => "ExpectError("@ + opt_error_text(error) + ")"@,
        InstructionView::ExpectTransactStatus(status) => {
            "ExpectTransactStatus("@ + maybe_error_code_text(status) + ")"@
        },
        InstructionView::QueryPallet { module_name, response_info } => {
            "QueryPallet { module_name: "@
                + hex_text(module_name)
                + ", response_info: "@
                + query_response_info_text(response_info)
                + " }"@
        },
        InstructionView::ExpectPallet {
            index,
            name,
            module_name,
            crate_major,
            min_crate_minor,
        } => {
            "ExpectPallet { index: "@
                + decimal(index as nat)
                + ", name: "@
                + hex_text(name)
                + ", module_name: "@
                + hex_text(module_name)
                + ", crate_major: "@
                + decimal(crate_major as nat)
                + ", min_crate_minor: "@
                + decimal(min_crate_minor as nat)
                + " }"@
        },
        InstructionView::ReportTransactStatus(info) => {
            "ReportTransactStatus("@ + query_response_info_text(info) + ")"@
        },
        _ => plain_text_e(x),
    }
}

/// The text of an instruction without a shown program whose discriminant lies
/// between 36 and 43; of any other, what the next such function gives.
#[verifier::opaque]
pub open spec fn plain_text_e(x: InstructionView) -> Seq<char> {
    match x {
        InstructionView::ClearTransactStatus => "ClearTransactStatus"@,
        InstructionView::UniversalOrigin(junction) => {
            "UniversalOrigin("@ + junction_text(junction) + ")"@
        },
        InstructionView::LockAsset { asset, unlocker } => {
            "LockAsset { asset: "@
                + asset_text(asset)
                + ", unlocker: "@
                + location_text(unlocker)
                + " }"@
        },
        InstructionView::UnlockAsset { asset, target } => {
            "UnlockAsset { asset: "@
                + asset_text(asset)
                + ", target: "@
                + location_text(target)
                + " }"@
        },
        InstructionView::NoteUnlockable { asset, owner } => {
            "NoteUnlockable { asset: "@
                + asset_text(asset)
                + ", owner: "@
                + location_text(owner)
                + " }"@
        },
        InstructionView::RequestUnlock { asset, locker } => {
            "RequestUnlock { asset: "@
                + asset_text(asset)
                + ", locker: "@
                + location_text(locker)
                + " }"@
        },
        InstructionView::SetFeesMode { jit_withdraw } => {
            "SetFeesMode { jit_withdraw: "@ + bool_text(jit_withdraw) + " }"@
        },
        _ => plain_text_f(x),
    }
}

/// The text of an instruction without a shown program whose discriminant lies
/// between 44 and 51; of any other, no text.
#[verifier::opaque]
pub open spec fn plain_text_f(x: InstructionView) -> Seq<char> {
    match x {
        InstructionView::SetTopic(topic) => "SetTopic("@ + hex_text(topic) + ")"@,
        InstructionView::ClearTopic => "ClearTopic"@,
        InstructionView::AliasOrigin(origin) => "AliasOrigin("@ + location_text(origin) + ")"@,
        InstructionView::UnpaidExecution { weight_limit, check_origin } => {
            "UnpaidExecution { weight_limit: "@
                + weight_limit_text(weight_limit)
                + ", check_origin: "@
                + opt_location_text(check_origin)
                + " }"@
        },
        InstructionView::PayFees { asset } => "PayFees { asset: "@ + asset_text(asset) + " }"@,
        InstructionView::SetHints { hints } => "SetHints { hints: "@ + hints_text(hints) + " }"@,
        _ => Seq::empty(),
    }
}

/// The text of an instruction that shows no nested program: its name and
/// its fields in their declared order. The program nested in
/// `InitiateReserveWithdraw` and in `InitiateTeleport` is left out, and
/// three dots stand in its place.
pub open spec fn plain_text(x: InstructionView) -> Seq<char> {
    plain_text_a(x)
}

/// The text of an instruction: its name and its fields in their declared
/// order, a nested program in full.
pub open spec fn instruction_text(x: InstructionView) -> Seq<char>
    decreases x, 0nat,
{
    match x {
        InstructionView::TransferReserveAsset { assets, dest, xcm } => {
            "TransferReserveAsset { assets: "@
                + assets_text(assets)
                + ", dest: "@
                + location_text(dest)
                + ", xcm: "@
                + program_text(xcm)
                + " }"@
        },
        InstructionView::DepositReserveAsset { assets, dest, xcm } => {
            "DepositReserveAsset { assets: "@
                + asset_filter_text(assets)
                + ", dest: "@
                + location_text(dest)
                + ", xcm: "@
                + program_text(xcm)
                + " }"@
        },
        InstructionView::SetErrorHandler(xcm) => "SetErrorHandler("@ + program_text(xcm) + ")"@,
        InstructionView::SetAppendix(xcm) => "SetAppendix("@ + program_text(xcm) + ")"@,
        InstructionView::ExportMessage { network, destination, xcm } => {
            "ExportMessage { network: "@
                + network_id_text(network)
                + ", destination: "@
                + junctions_text(destination)
                + ", xcm: "@
                + program_text(xcm)
                + " }"@
        },
        InstructionView::InitiateTransfer {
            destination,
            remote_fees,
            preserve_origin,
            assets,
            remote_xcm,
        } => {
            "InitiateTransfer { destination: "@
                + location_text(destination)
                + ", remote_fees: "@
                + opt_asset_transfer_filter_text(remote_fees)
                + ", preserve_origin: "@
                + bool_text(preserve_origin)
                + ", assets: "@
                + asset_transfer_filters_text(assets)
                + ", remote_xcm: "@
                + program_text(remote_xcm)
                + " }"@
        },
        InstructionView::ExecuteWithOrigin { descendant_origin, xcm } => {
            "ExecuteWithOrigin { descendant_origin: "@
                + opt_junctions_text(descendant_origin)
                + ", xcm: "@
                + program_text(xcm)
                + " }"@
        },
        _ => plain_text(x),
    }
}

/// The text of each instruction of a program.
pub open spec fn instruction_texts(xs: Seq<InstructionView>) -> Seq<Seq<char>>
    decreases xs, 0nat,
{
    Seq::new(
        xs.len(),
        |k: int|
            if 0 <= k < xs.len() {
                instruction_text(xs[k])
            } else {
                Seq::empty()
            },
    )
}

/// A program: the list of its instructions behind the name `Xcm`.
pub open spec fn program_text(xs: Seq<InstructionView>) -> Seq<char>
    decreases xs, 1nat,
{
    "Xcm("@ + list_text(instruction_texts(xs)) + ")"@
}

fn format_plain_a(x: &Instruction) -> (r: String)
    ensures
        r@ == plain_text_a(x@),
{
    reveal(plain_text_a);
    match x {
        Instruction::WithdrawAsset(assets) => {
            let mut text = String::from_str("WithdrawAsset(");
            let part0 = format_assets(assets);
            text.append(part0.as_str());
            text.append(")");
            text
        },
        Instruction::ReserveAssetDeposited(assets) => {
            let mut text = String::from_str("ReserveAssetDeposited(");
            let part0 = format_assets(assets);
            text.append(part0.as_str());
            text.append(")");
            text
        },
        Instruction::ReceiveTeleportedAsset(assets) => {
            let mut text = String::from_str("ReceiveTeleportedAsset(");
            let part0 = format_assets(assets);
            text.append(part0.as_str());
            text.append(")");
            text
        },
        Instruction::QueryResponse { query_id, response, max_weight, querier } => {
            let mut text = String::from_str("QueryResponse { query_id: ");
            let part0 = format_number(*query_id as u128);
            text.append(part0.as_str());
            text.append(", response: ");
            let part1 = format_response(response);
            text.append(part1.as_str());
            text.append(", max_weight: ");
            let part2 = format_weight(max_weight);
            text.append(part2.as_str());
            text.append(", querier: ");
            let part3 = format_opt_location(querier);
            text.append(part3.as_str());
            text.append(" }");
            text
        },
        Instruction::TransferAsset { assets, beneficiary } => {
            let mut text = String::from_str("TransferAsset { assets: ");
            let part0 = format_assets(assets);
            text.append(part0.as_str());
            text.append(", beneficiary: ");
            let part1 = format_location(beneficiary);
            text.append(part1.as_str());
            text.append(" }");
            text
        },
        Instruction::Transact { origin_kind, fallback_max_weight, call } => {
            let mut text = String::from_str("Transact { origin_kind: ");
            let part0 = format_origin_kind(origin_kind);
            text.append(part0.as_str());
            text.append(", fallback_max_weight: ");
            let part1 = format_opt_weight(fallback_max_weight);
            text.append(part1.as_str());
            text.append(", call: ");
            let part2 = bytes_to_hex(call.as_slice());
            text.append(part2.as_str());
            text.append(" }");
            text
        },
        Instruction::HrmpNewChannelOpenRequest { sender, max_message_size, max_capacity } => {
            let mut text = String::from_str("HrmpNewChannelOpenRequest { sender: ");
            let part0 = format_number(*sender as u128);
            text.append(part0.as_str());
            text.append(", max_message_size: ");
            let part1 = format_number(*max_message_size as u128);
            text.append(part1.as_str());
            text.append(", max_capacity: ");
            let part2 = format_number(*max_capacity as u128);
            text.append(part2.as_str());
            text.append(" }");
            text
        },
        Instruction::HrmpChannelAccepted { recipient } => {
            let mut text = String::from_str("HrmpChannelAccepted { recipient: ");
            let part0 = format_number(*recipient as u128);
            text.append(part0.as_str());
            text.append(" }");
            text
        },
        _ => format_plain_b(x),
    }
}

fn format_plain_b(x: &Instruction) -> (r: String)
    ensures
        r@ == plain_text_b(x@),
{
    reveal(plain_text_b);
    match x {
        Instruction::HrmpChannelClosing { initiator, sender, recipient } => {
            let mut text = String::from_str("HrmpChannelClosing { initiator: ");
            let part0 = format_number(*initiator as u128);
            text.append(part0.as_str());
            text.append(", sender: ");
            let part1 = format_number(*sender as u128);
            text.append(part1.as_str());
            text.append(", recipient: ");
            let part2 = format_number(*recipient as u128);
            text.append(part2.as_str());
            text.append(" }");
            text
        },
        Instruction::ClearOrigin => String::from_str("ClearOrigin"),
        Instruction::DescendOrigin(interior) => {
            let mut text = String::from_str("DescendOrigin(");
            let part0 = format_junctions(interior);
            text.append(part0.as_str());
            text.append(")");
            text
        },
        Instruction::ReportError(info) => {
            let mut text = String::from_str("ReportError(");
            let part0 = format_query_response_info(info);
            text.append(part0.as_str());
            text.append(")");
            text
        },
        Instruction::DepositAsset { assets, beneficiary } => {
            let mut text = String::from_str("DepositAsset { assets: ");
            let part0 = format_asset_filter(assets);
            text.append(part0.as_str());
            text.append(", beneficiary: ");
            let part1 = format_location(beneficiary);
            text.append(part1.as_str());
            text.append(" }");
            text
        },
        Instruction::ExchangeAsset { give, want, maximal } => {
            let mut text = String::from_str("ExchangeAsset { give: ");
            let part0 = format_asset_filter(give);
            text.append(part0.as_str());
            text.append(", want: ");
            let part1 = format_assets(want);
            text.append(part1.as_str());
            text.append(", maximal: ");
            let part2 = format_bool(*maximal);
            text.append(part2.as_str());
            text.append(" }");
            text
        },
        Instruction::InitiateReserveWithdraw { assets, reserve, xcm: _ } => {
            let mut text = String::from_str("InitiateReserveWithdraw { assets: ");
            let part0 = format_asset_filter(assets);
            text.append(part0.as_str());
            text.append(", reserve: ");
            let part1 = format_location(reserve);
            text.append(part1.as_str());
            text.append(", xcm: ... }");
            text
        },
        Instruction::InitiateTeleport { assets, dest, xcm: _ } => {
            let mut text = String::from_str("InitiateTeleport { assets: ");
            let part0 = format_asset_filter(assets);
            text.append(part0.as_str());
            text.append(", dest: ");
            let part1 = format_location(dest);
            text.append(part1.as_str());
            text.append(", xcm: ... }");
            text
        },
        _ => format_plain_c(x),
    }
}

fn format_plain_c(x: &Instruction) -> (r: String)
    ensures
        r@ == plain_text_c(x@),
{
    reveal(plain_text_c);
    match x {
        Instruction::ReportHolding { response_info, assets } => {
            let mut text = String::from_str("ReportHolding { response_info: { destination: ");
            let part0 = format_location(&response_info.destination);
            text.append(part0.as_str());
            text.append(", query_id: ");
            let part1 = format_number(*&response_info.query_id as u128);
            text.append(part1.as_str());
            text.append(", max_weight: ");
            let part2 = format_weight(&response_info.max_weight);
            text.append(part2.as_str());
            text.append(" }, assets: ");
            let part3 = format_asset_filter(assets);
            text.append(part3.as_str());
            text.append(" }");
            text
        },
        Instruction::BuyExecution { fees, weight_limit } => {
            let mut text = String::from_str("BuyExecution { fees: ");
            let part0 = format_asset(fees);
            text.append(part0.as_str());
            text.append(", weight_limit: ");
            let part1 = format_weight_limit(weight_limit);
            text.append(part1.as_str());
            text.append(" }");
            text
        },
        Instruction::RefundSurplus => String::from_str("RefundSurplus"),
        Instruction::ClearError => String::from_str("ClearError"),
        Instruction::ClaimAsset { assets, ticket } => {
            let mut text = String::from_str("ClaimAsset { assets: ");
            let part0 = format_assets(assets);
            text.append(part0.as_str());
            text.append(", ticket: ");
            let part1 = format_location(ticket);
            text.append(part1.as_str());
            text.append(" }");
            text
        },
        Instruction::Trap(code) => {
            let mut text = String::from_str("Trap(");
            let part0 = format_number(*code as u128);
            text.append(part0.as_str());
            text.append(")");
            text
        },
        Instruction::SubscribeVersion { query_id, max_response_weight } => {
            let mut text = String::from_str("SubscribeVersion { query_id: ");
            let part0 = format_number(*query_id as u128);
            text.append(part0.as_str());
            text.append(", max_response_weight: ");
            let part1 = format_weight(max_response_weight);
            text.append(part1.as_str());
            text.append(" }");
            text
        },
        _ => format_plain_d(x),
    }
}

fn format_plain_d(x: &Instruction) -> (r: String)
    ensures
        r@ == plain_text_d(x@),
{
    reveal(plain_text_d);
    match x {
        Instruction::UnsubscribeVersion => String::from_str("UnsubscribeVersion"),
        Instruction::BurnAsset(assets) => {
            let mut text = String::from_str("BurnAsset(");
            let part0 = format_assets(assets);
            text.append(part0.as_str());
            text.append(")");
            text
        },
        Instruction::ExpectAsset(assets) => {
            let mut text = String::from_str("ExpectAsset(");
            let part0 = format_assets(assets);
            text.append(part0.as_str());
            text.append(")");
            text
        },
        Instruction::ExpectOrigin(origin) => {
            let mut text = String::from_str("ExpectOrigin(");
            let part0 = format_opt_location(origin);
            text.append(part0.as_str());
            text.append(")");
            text
        },
        Instruction::ExpectError(error) => {
            let mut text = String::from_str("ExpectError(");
            let part0 = format_opt_error(error);
            text.append(part0.as_str());
            text.append(")");
            text
        },
        Instruction::ExpectTransactStatus(status) => {
            let mut text = String::from_str("ExpectTransactStatus(");
            let part0 = format_maybe_error_code(status);
            text.append(part0.as_str());
            text.append(")");
            text
        },
        Instruction::QueryPallet { module_name, response_info } => {
            let mut text = String::from_str("QueryPallet { module_name: ");
            let part0 = bytes_to_hex(module_name.as_slice());
            text.append(part0.as_str());
            text.append(", response_info: ");
            let part1 = format_query_response_info(response_info);
            text.append(part1.as_str());
            text.append(" }");
            text
        },
        Instruction::ExpectPallet { index, name, module_name, crate_major, min_crate_minor } => {
            let mut text = String::from_str("ExpectPallet { index: ");
            let part0 = format_number(*index as u128);
            text.append(part0.as_str());
            text.append(", name: ");
            let part1 = bytes_to_hex(name.as_slice());
            text.append(part1.as_str());
            text.append(", module_name: ");
            let part2 = bytes_to_hex(module_name.as_slice());
            text.append(part2.as_str());
            text.append(", crate_major: ");
            let part3 = format_number(*crate_major as u128);
            text.append(part3.as_str());
            text.append(", min_crate_minor: ");
            let part4 = format_number(*min_crate_minor as u128);
            text.append(part4.as_str());
            text.append(" }");
            text
        },
        Instruction::ReportTransactStatus(info) => {
            let mut text = String::from_str("ReportTransactStatus(");
            let part0 = format_query_response_info(info);
            text.append(part0.as_str());
            text.append(")");
            text
        },
        _ => format_plain_e(x),
    }
}

fn format_plain_e(x: &Instruction) -> (r: String)
    ensures
        r@ == plain_text_e(x@),
{
    reveal(plain_text_e);
    match x {
        Instruction::ClearTransactStatus => String::from_str("ClearTransactStatus"),
        Instruction::UniversalOrigin(junction) => {
            let mut text = String::from_str("UniversalOrigin(");
            let part0 = format_junction(junction);
            text.append(part0.as_str());
            text.append(")");
            text
        },
        Instruction::LockAsset { asset, unlocker } => {
            let mut text = String::from_str("LockAsset { asset: ");
            let part0 = format_asset(asset);
            text.append(part0.as_str());
            text.append(", unlocker: ");
            let part1 = format_location(unlocker);
            text.append(part1.as_str());
            text.append(" }");
            text
        },
        Instruction::UnlockAsset { asset, target } => {
            let mut text = String::from_str("UnlockAsset { asset: ");
            let part0 = format_asset(asset);
            text.append(part0.as_str());
            text.append(", target: ");
            let part1 = format_location(target);
            text.append(part1.as_str());
            text.append(" }");
            text
        },
        Instruction::NoteUnlockable { asset, owner } => {
            let mut text = String::from_str("NoteUnlockable { asset: ");
            let part0 = format_asset(asset);
            text.append(part0.as_str());
            text.append(", owner: ");
            let part1 = format_location(owner);
            text.append(part1.as_str());
            text.append(" }");
            text
        },
        Instruction::RequestUnlock { asset, locker } => {
            let mut text = String::from_str("RequestUnlock { asset: ");
            let part0 = format_asset(asset);
            text.append(part0.as_str());
            text.append(", locker: ");
            let part1 = format_location(locker);
            text.append(part1.as_str());
            text.append(" }");
            text
        },
        Instruction::SetFeesMode { jit_withdraw } => {
            let mut text = String::from_str("SetFeesMode { jit_withdraw: ");
            let part0 = format_bool(*jit_withdraw);
            text.append(part0.as_str());
            text.append(" }");
            text
        },
        _ => format_plain_f(x),
    }
}

fn format_plain_f(x: &Instruction) -> (r: String)
    ensures
        r@ == plain_text_f(x@),
{
    reveal(plain_text_f);
    proof {
        reveal_strlit("");
    }
    match x {
        Instruction::SetTopic(topic) => {
            let mut text = String::from_str("SetTopic(");
            let part0 = bytes_to_hex(topic.as_slice());
            text.append(part0.as_str());
            text.append(")");
            text
        },
        Instruction::ClearTopic => String::from_str("ClearTopic"),
        Instruction::AliasOrigin(origin) => {
            let mut text = String::from_str("AliasOrigin(");
            let part0 = format_location(origin);
            text.append(part0.as_str());
            text.append(")");
            text
        },
        Instruction::UnpaidExecution { weight_limit, check_origin } => {
            let mut text = String::from_str("UnpaidExecution { weight_limit: ");
            let part0 = format_weight_limit(weight_limit);
            text.append(part0.as_str());
            text.append(", check_origin: ");
            let part1 = format_opt_location(check_origin);
            text.append(part1.as_str());
            text.append(" }");
            text
        },
        Instruction::PayFees { asset } => {
            let mut text = String::from_str("PayFees { asset: ");
            let part0 = format_asset(asset);
            text.append(part0.as_str());
            text.append(" }");
            text
        },
        Instruction::SetHints { hints } => {
            let mut text = String::from_str("SetHints { hints: ");
            let part0 = format_hints(hints);
            text.append(part0.as_str());
            text.append(" }");
            text
        },
        _ => {
            let text = String::from_str("");
            assert(text@ =~= Seq::<char>::empty());
            text
        },
    }
}

/// Formats an instruction, and with it any program nested in it that is
/// shown.
pub fn format_instruction(x: &Instruction) -> (r: String)
    ensures
        r@ == instruction_text(x@),
    decreases x,
{
    match x {
        Instruction::TransferReserveAsset { assets, dest, xcm } => {
            let mut text = String::from_str("TransferReserveAsset { assets: ");
            let part0 = format_assets(assets);
            text.append(part0.as_str());
            text.append(", dest: ");
            let part1 = format_location(dest);
            text.append(part1.as_str());
            text.append(", xcm: ");
            let part2 = format_xcm(xcm);
            text.append(part2.as_str());
            text.append(" }");
            text
        },
        Instruction::DepositReserveAsset { assets, dest, xcm } => {
            let mut text = String::from_str("DepositReserveAsset { assets: ");
            let part0 = format_asset_filter(assets);
            text.append(part0.as_str());
            text.append(", dest: ");
            let part1 = format_location(dest);
            text.append(part1.as_str());
            text.append(", xcm: ");
            let part2 = format_xcm(xcm);
            text.append(part2.as_str());
            text.append(" }");
            text
        },
        Instruction::SetErrorHandler(xcm) => {
            let mut text = String::from_str("SetErrorHandler(");
            let part0 = format_xcm(xcm);
            text.append(part0.as_str());
            text.append(")");
            text
        },
        Instruction::SetAppendix(xcm) => {
            let mut text = String::from_str("SetAppendix(");
            let part0 = format_xcm(xcm);
            text.append(part0.as_str());
            text.append(")");
            text
        },
        Instruction::ExportMessage { network, destination, xcm } => {
            let mut text = String::from_str("ExportMessage { network: ");
            let part0 = format_network_id(network);
            text.append(part0.as_str());
            text.append(", destination: ");
            let part1 = format_junctions(destination);
            text.append(part1.as_str());
            text.append(", xcm: ");
            let part2 = format_xcm(xcm);
            text.append(part2.as_str());
            text.append(" }");
            text
        },
        Instruction::InitiateTransfer {
            destination,
            remote_fees,
            preserve_origin,
            assets,
            remote_xcm,
        } => {
            let mut text = String::from_str("InitiateTransfer { destination: ");
            let part0 = format_location(destination);
            text.append(part0.as_str());
            text.append(", remote_fees: ");
            let part1 = format_opt_asset_transfer_filter(remote_fees);
            text.append(part1.as_str());
            text.append(", preserve_origin: ");
            let part2 = format_bool(*preserve_origin);
            text.append(part2.as_str());
            text.append(", assets: ");
            let part3 = format_asset_transfer_filters(assets);
            text.append(part3.as_str());
            text.append(", remote_xcm: ");
            let part4 = format_xcm(remote_xcm);
            text.append(part4.as_str());
            text.append(" }");
            text
        },
        Instruction::ExecuteWithOrigin { descendant_origin, xcm } => {
            let mut text = String::from_str("ExecuteWithOrigin { descendant_origin: ");
            let part0 = format_opt_junctions(descendant_origin);
            text.append(part0.as_str());
            text.append(", xcm: ");
            let part1 = format_xcm(xcm);
            text.append(part1.as_str());
            text.append(" }");
            text
        },
        _ => format_plain_a(x),
    }
}

/// Formats each instruction of a program.
pub fn format_each_instruction(items: &Vec<Instruction>) -> (r: Vec<String>)
    ensures
        texts(r@) == instruction_texts(views(items@)),
    decreases items,
{
    let mut out: Vec<String> = Vec::new();
    let mut i: usize = 0;
    while i < items.len()
        invariant
            i <= items.len(),
            out@.len() == i,
            forall|j: int| 0 <= j < i ==> out@[j]@ == instruction_text((#[trigger] items@[j])@),
        decreases items.len() - i,
    {
        let part = format_instruction(&items[i]);
        out.push(part);
        i = i + 1;
    }
    assert(texts(out@) =~= instruction_texts(views(items@)));
    out
}

/// Formats a program.
pub fn format_xcm(x: &Xcm) -> (r: String)
    ensures
        r@ == program_text(x@),
    decreases x,
{
    let mut text = String::from_str("Xcm(");
    let each = format_each_instruction(&x.0);
    proof {
        lemma_program_view(x.0);
    }
    let part0 = format_list(&each);
    text.append(part0.as_str());
    text.append(")");
    text
}

} // verus!
