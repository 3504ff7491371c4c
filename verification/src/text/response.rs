//! Weights, error codes and responses as text.

use vstd::prelude::*;
use crate::model::junction::{opt_view, views};
use crate::model::response::{
    Hint, HintView, MaybeErrorCode, MaybeErrorCodeView, OriginKind, PalletInfo, PalletInfoView,
    QueryResponseInfo, QueryResponseInfoView, Response, ResponseView, Weight, WeightLimit,
    XcmError,
};
use crate::text::basic::{
    bytes_to_hex, decimal, format_list, format_number, hex_text, list_text, texts,
};
use crate::text::junction::{format_location, location_text};
use crate::text::asset::{assets_text, format_assets};

verus! {

/// A weight with its fields in their order.
pub open spec fn weight_text(x: Weight) -> Seq<char> {
    "Weight { ref_time: "@
        + decimal(x.ref_time as nat)
        + ", proof_size: "@
        + decimal(x.proof_size as nat)
        + " }"@
}

/// An optional weight as `None` or `Some(..)`.
pub open spec fn opt_weight_text(x: Option<Weight>) -> Seq<char> {
    match x {
        None => "None"@,
        Some(v) => "Some("@ + weight_text(v) + ")"@,
    }
}

/// A limit on weight, or none.
pub open spec fn weight_limit_text(x: WeightLimit) -> Seq<char> {
    match x {
        WeightLimit::Unlimited => "Unlimited"@,
        WeightLimit::Limited(weight) => "Limited("@ + weight_text(weight) + ")"@,
    }
}

/// The kind of origin of a call.
pub open spec fn origin_kind_text(x: OriginKind) -> Seq<char> {
    match x {
        OriginKind::Native => "Native"@,
        OriginKind::SovereignAccount => "SovereignAccount"@,
        OriginKind::Superuser => "Superuser"@,
        OriginKind::Xcm => "Xcm"@,
    }
}

/// An error by its name. The two errors whose text is not on the wire show an
/// empty text.
pub open spec fn xcm_error_text(x: XcmError) -> Seq<char> {
    match x {
        XcmError::Overflow => "Overflow"@,
        XcmError::Unimplemented => "Unimplemented"@,
        XcmError::UntrustedReserveLocation => "UntrustedReserveLocation"@,
        XcmError::UntrustedTeleportLocation => "UntrustedTeleportLocation"@,
        XcmError::LocationFull => "LocationFull"@,
        XcmError::LocationNotInvertible => "LocationNotInvertible"@,
        XcmError::BadOrigin => "BadOrigin"@,
        XcmError::InvalidLocation => "InvalidLocation"@,
        XcmError::AssetNotFound => "AssetNotFound"@,
        XcmError::FailedToTransactAsset => "FailedToTransactAsset(\"\")"@,
        XcmError::NotWithdrawable => "NotWithdrawable"@,
        XcmError::LocationCannotHold => "LocationCannotHold"@,
        XcmError::ExceedsMaxMessageSize => "ExceedsMaxMessageSize"@,
        XcmError::DestinationUnsupported => "DestinationUnsupported"@,
        XcmError::Transport => "Transport(\"\")"@,
        XcmError::Unroutable => "Unroutable"@,
        XcmError::UnknownClaim => "UnknownClaim"@,
        XcmError::FailedToDecode => "FailedToDecode"@,
        XcmError::MaxWeightInvalid => "MaxWeightInvalid"@,
        XcmError::NotHoldingFees => "NotHoldingFees"@,
        XcmError::TooExpensive => "TooExpensive"@,
        XcmError::Trap(code) => "Trap("@ + decimal(code as nat) + ")"@,
        XcmError::ExpectationFalse => "ExpectationFalse"@,
        XcmError::PalletNotFound => "PalletNotFound"@,
        XcmError::NameMismatch => "NameMismatch"@,
        XcmError::VersionIncompatible => "VersionIncompatible"@,
        XcmError::HoldingWouldOverflow => "HoldingWouldOverflow"@,
        XcmError::ExportError => "ExportError"@,
        XcmError::ReanchorFailed => "ReanchorFailed"@,
        XcmError::NoDeal => "NoDeal"@,
        XcmError::FeesNotMet => "FeesNotMet"@,
        XcmError::LockError => "LockError"@,
        XcmError::NoPermission => "NoPermission"@,
        XcmError::Unanchored => "Unanchored"@,
        XcmError::NotDepositable => "NotDepositable"@,
        XcmError::TooManyAssets => "TooManyAssets"@,
        XcmError::UnhandledXcmVersion => "UnhandledXcmVersion"@,
        XcmError::WeightLimitReached(weight) => "WeightLimitReached("@ + weight_text(weight) + ")"@,
        XcmError::Barrier => "Barrier"@,
        XcmError::WeightNotComputable => "WeightNotComputable"@,
        XcmError::ExceedsStackLimit => "ExceedsStackLimit"@,
    }
}

/// An optional pair of an instruction index and an error.
pub open spec fn opt_error_text(x: Option<(u32, XcmError)>) -> Seq<char> {
    match x {
        None => "None"@,
        Some(v) => "Some(("@ + decimal(v.0 as nat) + ", "@ + xcm_error_text(v.1) + "))"@,
    }
}

/// The outcome of a dispatched call; an error code is in hexadecimal.
pub open spec fn maybe_error_code_text(x: MaybeErrorCodeView) -> Seq<char> {
    match x {
        MaybeErrorCodeView::Success => "Success"@,
        MaybeErrorCodeView::Error(code) => "Error("@ + hex_text(code) + ")"@,
        MaybeErrorCodeView::TruncatedError(code) => "TruncatedError("@ + hex_text(code) + ")"@,
    }
}

/// A pallet with its fields in their order; names are in hexadecimal.
pub open spec fn pallet_info_text(x: PalletInfoView) -> Seq<char> {
    "PalletInfo { index: "@
        + decimal(x.index as nat)
        + ", name: "@
        + hex_text(x.name)
        + ", module_name: "@
        + hex_text(x.module_name)
        + ", major: "@
        + decimal(x.major as nat)
        + ", minor: "@
        + decimal(x.minor as nat)
        + ", patch: "@
        + decimal(x.patch as nat)
        + " }"@
}

/// The text of each pallet info of a sequence.
pub open spec fn pallet_info_texts(xs: Seq<PalletInfoView>) -> Seq<Seq<char>> {
    Seq::new(xs.len(), |i: int| pallet_info_text(xs[i]))
}

/// Pallets in their order, as a list.
pub open spec fn pallet_infos_text(x: Seq<PalletInfoView>) -> Seq<char> {
    list_text(pallet_info_texts(x))
}

/// The answer to a query.
pub open spec fn response_text(x: ResponseView) -> Seq<char> {
    match x {
        ResponseView::Null => "Null"@,
        ResponseView::Assets(assets) => "Assets("@ + assets_text(assets) + ")"@,
        ResponseView::ExecutionResult(result) => {
            "ExecutionResult("@ + opt_error_text(result) + ")"@
        },
        ResponseView::Version(version) => "Version("@ + decimal(version as nat) + ")"@,
        ResponseView::PalletsInfo(infos) => "PalletsInfo("@ + pallet_infos_text(infos) + ")"@,
        ResponseView::DispatchResult(code) => {
            "DispatchResult("@ + maybe_error_code_text(code) + ")"@
        },
    }
}

/// Where and how to answer a query, with its fields in their order.
pub open spec fn query_response_info_text(x: QueryResponseInfoView) -> Seq<char> {
    "QueryResponseInfo { destination: "@
        + location_text(x.destination)
        + ", query_id: "@
        + decimal(x.query_id as nat)
        + ", max_weight: "@
        + weight_text(x.max_weight)
        + " }"@
}

/// A hint with its fields.
pub open spec fn hint_text(x: HintView) -> Seq<char> {
    match x {
        HintView::AssetClaimer { location } => {
            "AssetClaimer { location: "@ + location_text(location) + " }"@
        },
    }
}

/// The text of each hint of a sequence.
pub open spec fn hint_texts(xs: Seq<HintView>) -> Seq<Seq<char>> {
    Seq::new(xs.len(), |i: int| hint_text(xs[i]))
}

/// Hints in their order, as a list.
pub open spec fn hints_text(x: Seq<HintView>) -> Seq<char> {
    list_text(hint_texts(x))
}

/// Formats a weight.
pub fn format_weight(x: &Weight) -> (r: String)
    ensures
        r@ == weight_text(x@),
{
    let mut text = String::from_str("Weight { ref_time: ");
    let part0 = format_number(*&x.ref_time as u128);
    text.append(part0.as_str());
    text.append(", proof_size: ");
    let part1 = format_number(*&x.proof_size as u128);
    text.append(part1.as_str());
    text.append(" }");
    text
}

/// Formats an optional weight.
pub fn format_opt_weight(x: &Option<Weight>) -> (r: String)
    ensures
        r@ == opt_weight_text(opt_view(*x)),
{
    match x {
        None => String::from_str("None"),
        Some(v) => {
            let mut text = String::from_str("Some(");
            let part0 = format_weight(v);
            text.append(part0.as_str());
            text.append(")");
            text
        },
    }
}

/// Formats a weight limit.
pub fn format_weight_limit(x: &WeightLimit) -> (r: String)
    ensures
        r@ == weight_limit_text(x@),
{
    match x {
        WeightLimit::Unlimited => String::from_str("Unlimited"),
        WeightLimit::Limited(weight) => {
            let mut text = String::from_str("Limited(");
            let part0 = format_weight(weight);
            text.append(part0.as_str());
            text.append(")");
            text
        },
    }
}

/// Formats an origin kind.
pub fn format_origin_kind(x: &OriginKind) -> (r: String)
    ensures
        r@ == origin_kind_text(x@),
{
    match x {
        OriginKind::Native => String::from_str("Native"),
        OriginKind::SovereignAccount => String::from_str("SovereignAccount"),
        OriginKind::Superuser => String::from_str("Superuser"),
        OriginKind::Xcm => String::from_str("Xcm"),
    }
}

/// Formats an executor error.
pub fn format_xcm_error(x: &XcmError) -> (r: String)
    ensures
        r@ == xcm_error_text(x@),
{
    match x {
        XcmError::Overflow => String::from_str("Overflow"),
        XcmError::Unimplemented => String::from_str("Unimplemented"),
        XcmError::UntrustedReserveLocation => String::from_str("UntrustedReserveLocation"),
        XcmError::UntrustedTeleportLocation => String::from_str("UntrustedTeleportLocation"),
        XcmError::LocationFull => String::from_str("LocationFull"),
        XcmError::LocationNotInvertible => String::from_str("LocationNotInvertible"),
        XcmError::BadOrigin => String::from_str("BadOrigin"),
        XcmError::InvalidLocation => String::from_str("InvalidLocation"),
        XcmError::AssetNotFound => String::from_str("AssetNotFound"),
        XcmError::FailedToTransactAsset => String::from_str("FailedToTransactAsset(\"\")"),
        XcmError::NotWithdrawable => String::from_str("NotWithdrawable"),
        XcmError::LocationCannotHold => String::from_str("LocationCannotHold"),
        XcmError::ExceedsMaxMessageSize => String::from_str("ExceedsMaxMessageSize"),
        XcmError::DestinationUnsupported => String::from_str("DestinationUnsupported"),
        XcmError::Transport => String::from_str("Transport(\"\")"),
        XcmError::Unroutable => String::from_str("Unroutable"),
        XcmError::UnknownClaim => String::from_str("UnknownClaim"),
        XcmError::FailedToDecode => String::from_str("FailedToDecode"),
        XcmError::MaxWeightInvalid => String::from_str("MaxWeightInvalid"),
        XcmError::NotHoldingFees => String::from_str("NotHoldingFees"),
        XcmError::TooExpensive => String::from_str("TooExpensive"),
        XcmError::Trap(code) => {
            let mut text = String::from_str("Trap(");
            let part0 = format_number(*code as u128);
            text.append(part0.as_str());
            text.append(")");
            text
        },
        XcmError::ExpectationFalse => String::from_str("ExpectationFalse"),
        XcmError::PalletNotFound => String::from_str("PalletNotFound"),
        XcmError::NameMismatch => String::from_str("NameMismatch"),
        XcmError::VersionIncompatible => String::from_str("VersionIncompatible"),
        XcmError::HoldingWouldOverflow => String::from_str("HoldingWouldOverflow"),
        XcmError::ExportError => String::from_str("ExportError"),
        XcmError::ReanchorFailed => String::from_str("ReanchorFailed"),
        XcmError::NoDeal => String::from_str("NoDeal"),
        XcmError::FeesNotMet => String::from_str("FeesNotMet"),
        XcmError::LockError => String::from_str("LockError"),
        XcmError::NoPermission => String::from_str("NoPermission"),
        XcmError::Unanchored => String::from_str("Unanchored"),
        XcmError::NotDepositable => String::from_str("NotDepositable"),
        XcmError::TooManyAssets => String::from_str("TooManyAssets"),
        XcmError::UnhandledXcmVersion => String::from_str("UnhandledXcmVersion"),
        XcmError::WeightLimitReached(weight) => {
            let mut text = String::from_str("WeightLimitReached(");
            let part0 = format_weight(weight);
            text.append(part0.as_str());
            text.append(")");
            text
        },
        XcmError::Barrier => String::from_str("Barrier"),
        XcmError::WeightNotComputable => String::from_str("WeightNotComputable"),
        XcmError::ExceedsStackLimit => String::from_str("ExceedsStackLimit"),
    }
}

/// Formats an optional pair of an index and an error.
pub fn format_opt_error(x: &Option<(u32, XcmError)>) -> (r: String)
    ensures
        r@ == opt_error_text(*x),
{
    match x {
        None => String::from_str("None"),
        Some(v) => {
            let mut text = String::from_str("Some((");
            let part0 = format_number(v.0 as u128);
            text.append(part0.as_str());
            text.append(", ");
            let part1 = format_xcm_error(&v.1);
            text.append(part1.as_str());
            text.append("))");
            text
        },
    }
}

/// Formats a dispatch outcome.
pub fn format_maybe_error_code(x: &MaybeErrorCode) -> (r: String)
    ensures
        r@ == maybe_error_code_text(x@),
{
    match x {
        MaybeErrorCode::Success => String::from_str("Success"),
        MaybeErrorCode::Error(code) => {
            let mut text = String::from_str("Error(");
            let part0 = bytes_to_hex(code.as_slice());
            text.append(part0.as_str());
            text.append(")");
            text
        },
        MaybeErrorCode::TruncatedError(code) => {
            let mut text = String::from_str("TruncatedError(");
            let part0 = bytes_to_hex(code.as_slice());
            text.append(part0.as_str());
            text.append(")");
            text
        },
    }
}

/// Formats a pallet description.
pub fn format_pallet_info(x: &PalletInfo) -> (r: String)
    ensures
        r@ == pallet_info_text(x@),
{
    let mut text = String::from_str("PalletInfo { index: ");
    let part0 = format_number(*&x.index as u128);
    text.append(part0.as_str());
    text.append(", name: ");
    let part1 = bytes_to_hex(&x.name.as_slice());
    text.append(part1.as_str());
    text.append(", module_name: ");
    let part2 = bytes_to_hex(&x.module_name.as_slice());
    text.append(part2.as_str());
    text.append(", major: ");
    let part3 = format_number(*&x.major as u128);
    text.append(part3.as_str());
    text.append(", minor: ");
    let part4 = format_number(*&x.minor as u128);
    text.append(part4.as_str());
    text.append(", patch: ");
    let part5 = format_number(*&x.patch as u128);
    text.append(part5.as_str());
    text.append(" }");
    text
}

fn format_each_pallet_info(items: &[PalletInfo]) -> (r: Vec<String>)
    ensures
        texts(r@) == pallet_info_texts(views(items@)),
{
    let mut out: Vec<String> = Vec::new();
    let mut i: usize = 0;
    while i < items.len()
        invariant
            i <= items.len(),
            out@.len() == i,
            forall|j: int| 0 <= j < i ==> out@[j]@ == pallet_info_text((#[trigger] items@[j])@),
        decreases items.len() - i,
    {
        let part = format_pallet_info(&items[i]);
        out.push(part);
        i = i + 1;
    }
    assert(texts(out@) =~= pallet_info_texts(views(items@)));
    out
}

/// Formats a list of pallet descriptions.
pub fn format_pallet_infos(x: &Vec<PalletInfo>) -> (r: String)
    ensures
        r@ == pallet_infos_text(views(x@)),
{
    let each = format_each_pallet_info(x.as_slice());
    format_list(&each)
}

/// Formats a response.
pub fn format_response(x: &Response) -> (r: String)
    ensures
        r@ == response_text(x@),
{
    match x {
        Response::Null => String::from_str("Null"),
        Response::Assets(assets) => {
            let mut text = String::from_str("Assets(");
            let part0 = format_assets(assets);
            text.append(part0.as_str());
            text.append(")");
            text
        },
        Response::ExecutionResult(result) => {
            let mut text = String::from_str("ExecutionResult(");
            let part0 = format_opt_error(result);
            text.append(part0.as_str());
            text.append(")");
            text
        },
        Response::Version(version) => {
            let mut text = String::from_str("Version(");
            let part0 = format_number(*version as u128);
            text.append(part0.as_str());
            text.append(")");
            text
        },
        Response::PalletsInfo(infos) => {
            let mut text = String::from_str("PalletsInfo(");
            let part0 = format_pallet_infos(infos);
            text.append(part0.as_str());
            text.append(")");
            text
        },
        Response::DispatchResult(code) => {
            let mut text = String::from_str("DispatchResult(");
            let part0 = format_maybe_error_code(code);
            text.append(part0.as_str());
            text.append(")");
            text
        },
    }
}

/// Formats a description of where to answer.
pub fn format_query_response_info(x: &QueryResponseInfo) -> (r: String)
    ensures
        r@ == query_response_info_text(x@),
{
    let mut text = String::from_str("QueryResponseInfo { destination: ");
    let part0 = format_location(&x.destination);
    text.append(part0.as_str());
    text.append(", query_id: ");
    let part1 = format_number(*&x.query_id as u128);
    text.append(part1.as_str());
    text.append(", max_weight: ");
    let part2 = format_weight(&x.max_weight);
    text.append(part2.as_str());
    text.append(" }");
    text
}

/// Formats a hint.
pub fn format_hint(x: &Hint) -> (r: String)
    ensures
        r@ == hint_text(x@),
{
    match x {
        Hint::AssetClaimer { location } => {
            let mut text = String::from_str("AssetClaimer { location: ");
            let part0 = format_location(location);
            text.append(part0.as_str());
            text.append(" }");
            text
        },
    }
}

fn format_each_hint(items: &[Hint]) -> (r: Vec<String>)
    ensures
        texts(r@) == hint_texts(views(items@)),
{
    let mut out: Vec<String> = Vec::new();
    let mut i: usize = 0;
    while i < items.len()
        invariant
            i <= items.len(),
            out@.len() == i,
            forall|j: int| 0 <= j < i ==> out@[j]@ == hint_text((#[trigger] items@[j])@),
        decreases items.len() - i,
    {
        let part = format_hint(&items[i]);
        out.push(part);
        i = i + 1;
    }
    assert(texts(out@) =~= hint_texts(views(items@)));
    out
}

/// Formats a list of hints.
pub fn format_hints(x: &Vec<Hint>) -> (r: String)
    ensures
        r@ == hints_text(views(x@)),
{
    let each = format_each_hint(x.as_slice());
    format_list(&each)
}

} // verus!
