//! Assets and asset filters as text.

use vstd::prelude::*;
use crate::model::junction::{LocationView, opt_view, views};
use crate::model::asset::{
    Asset, AssetFilter, AssetFilterView, AssetId, AssetInstance, AssetInstanceView,
    AssetTransferFilter, AssetTransferFilterView, AssetView, Assets, Fungibility, FungibilityView,
    WildAsset, WildAssetView, WildFungibility,
};
use crate::text::basic::{
    bytes_to_hex, decimal, format_list, format_number, hex_text, list_text, texts,
};
use crate::text::junction::{format_location, location_text};

verus! {

/// An instance by its index, or by its bytes in hexadecimal.
pub open spec fn asset_instance_text(x: AssetInstanceView) -> Seq<char> {
    match x {
        AssetInstanceView::Undefined => "Undefined"@,
        AssetInstanceView::Index(index) => "Index("@ + decimal(index as nat) + ")"@,
        AssetInstanceView::Array4(bytes) => "Array4("@ + hex_text(bytes) + ")"@,
        AssetInstanceView::Array8(bytes) => "Array8("@ + hex_text(bytes) + ")"@,
        AssetInstanceView::Array16(bytes) => "Array16("@ + hex_text(bytes) + ")"@,
        AssetInstanceView::Array32(bytes) => "Array32("@ + hex_text(bytes) + ")"@,
    }
}

/// An amount in decimal, or an instance.
pub open spec fn fungibility_text(x: FungibilityView) -> Seq<char> {
    match x {
        FungibilityView::Fungible(amount) => "Fungible("@ + decimal(amount as nat) + ")"@,
        FungibilityView::NonFungible(instance) => {
            "NonFungible("@ + asset_instance_text(instance) + ")"@
        },
    }
}

/// Fungibility without an amount or instance.
pub open spec fn wild_fungibility_text(x: WildFungibility) -> Seq<char> {
    match x {
        WildFungibility::Fungible => "Fungible"@,
        WildFungibility::NonFungible => "NonFungible"@,
    }
}

/// The class of an asset: its location behind the name `AssetId`.
pub open spec fn asset_id_text(x: LocationView) -> Seq<char> {
    "AssetId("@ + location_text(x) + ")"@
}

/// An asset with its fields in their order.
pub open spec fn asset_text(x: AssetView) -> Seq<char> {
    "Asset { id: "@ + asset_id_text(x.id) + ", fun: "@ + fungibility_text(x.fun) + " }"@
}

/// The text of each asset of a sequence.
pub open spec fn asset_texts(xs: Seq<AssetView>) -> Seq<Seq<char>> {
    Seq::new(xs.len(), |i: int| asset_text(xs[i]))
}

/// Assets in their order, each as [`asset_text`] has it.
pub open spec fn assets_text(x: Seq<AssetView>) -> Seq<char> {
    "Assets("@ + list_text(asset_texts(x)) + ")"@
}

/// A filter for all assets, or all of one class.
pub open spec fn wild_asset_text(x: WildAssetView) -> Seq<char> {
    match x {
        WildAssetView::All => "All"@,
        WildAssetView::AllOf { id, fun } => {
            "AllOf { id: "@ + asset_id_text(id) + ", fun: "@ + wild_fungibility_text(fun) + " }"@
        },
        WildAssetView::AllCounted(count) => "AllCounted("@ + decimal(count as nat) + ")"@,
        WildAssetView::AllOfCounted { id, fun, count } => {
            "AllOfCounted { id: "@
                + asset_id_text(id)
                + ", fun: "@
                + wild_fungibility_text(fun)
                + ", count: "@
                + decimal(count as nat)
                + " }"@
        },
    }
}

/// A filter by given assets or by a wildcard.
pub open spec fn asset_filter_text(x: AssetFilterView) -> Seq<char> {
    match x {
        AssetFilterView::Definite(assets) => "Definite("@ + assets_text(assets) + ")"@,
        AssetFilterView::Wild(wild) => "Wild("@ + wild_asset_text(wild) + ")"@,
    }
}

/// A filter with the kind of transfer to make.
pub open spec fn asset_transfer_filter_text(x: AssetTransferFilterView) -> Seq<char> {
    match x {
        AssetTransferFilterView::Teleport(filter) => {
            "Teleport("@ + asset_filter_text(filter) + ")"@
        },
        AssetTransferFilterView::ReserveDeposit(filter) => {
            "ReserveDeposit("@ + asset_filter_text(filter) + ")"@
        },
        AssetTransferFilterView::ReserveWithdraw(filter) => {
            "ReserveWithdraw("@ + asset_filter_text(filter) + ")"@
        },
    }
}

/// An optional asset transfer filter as `None` or `Some(..)`.
pub open spec fn opt_asset_transfer_filter_text(x: Option<AssetTransferFilterView>) -> Seq<char> {
    match x {
        None => "None"@,
        Some(v) => "Some("@ + asset_transfer_filter_text(v) + ")"@,
    }
}

/// The text of each asset transfer filter of a sequence.
pub open spec fn asset_transfer_filter_texts(xs: Seq<AssetTransferFilterView>) -> Seq<Seq<char>> {
    Seq::new(xs.len(), |i: int| asset_transfer_filter_text(xs[i]))
}

/// Transfer filters in their order, as a list.
pub open spec fn asset_transfer_filters_text(x: Seq<AssetTransferFilterView>) -> Seq<char> {
    list_text(asset_transfer_filter_texts(x))
}

/// Formats an asset instance.
pub fn format_asset_instance(x: &AssetInstance) -> (r: String)
    ensures
        r@ == asset_instance_text(x@),
{
    match x {
        AssetInstance::Undefined => String::from_str("Undefined"),
        AssetInstance::Index(index) => {
            let mut text = String::from_str("Index(");
            let part0 = format_number(*index);
            text.append(part0.as_str());
            text.append(")");
            text
        },
        AssetInstance::Array4(bytes) => {
            let mut text = String::from_str("Array4(");
            let part0 = bytes_to_hex(bytes.as_slice());
            text.append(part0.as_str());
            text.append(")");
            text
        },
        AssetInstance::Array8(bytes) => {
            let mut text = String::from_str("Array8(");
            let part0 = bytes_to_hex(bytes.as_slice());
            text.append(part0.as_str());
            text.append(")");
            text
        },
        AssetInstance::Array16(bytes) => {
            let mut text = String::from_str("Array16(");
            let part0 = bytes_to_hex(bytes.as_slice());
            text.append(part0.as_str());
            text.append(")");
            text
        },
        AssetInstance::Array32(bytes) => {
            let mut text = String::from_str("Array32(");
            let part0 = bytes_to_hex(bytes.as_slice());
            text.append(part0.as_str());
            text.append(")");
            text
        },
    }
}

/// Formats a fungibility.
pub fn format_fungibility(x: &Fungibility) -> (r: String)
    ensures
        r@ == fungibility_text(x@),
{
    match x {
        Fungibility::Fungible(amount) => {
            let mut text = String::from_str("Fungible(");
            let part0 = format_number(*amount);
            text.append(part0.as_str());
            text.append(")");
            text
        },
        Fungibility::NonFungible(instance) => {
            let mut text = String::from_str("NonFungible(");
            let part0 = format_asset_instance(instance);
            text.append(part0.as_str());
            text.append(")");
            text
        },
    }
}

/// Formats a kind of fungibility.
pub fn format_wild_fungibility(x: &WildFungibility) -> (r: String)
    ensures
        r@ == wild_fungibility_text(x@),
{
    match x {
        WildFungibility::Fungible => String::from_str("Fungible"),
        WildFungibility::NonFungible => String::from_str("NonFungible"),
    }
}

/// Formats an asset class.
pub fn format_asset_id(x: &AssetId) -> (r: String)
    ensures
        r@ == asset_id_text(x@),
{
    let mut text = String::from_str("AssetId(");
    let part0 = format_location(&x.0);
    text.append(part0.as_str());
    text.append(")");
    text
}

/// Formats an asset.
pub fn format_asset(x: &Asset) -> (r: String)
    ensures
        r@ == asset_text(x@),
{
    let mut text = String::from_str("Asset { id: ");
    let part0 = format_asset_id(&x.id);
    text.append(part0.as_str());
    text.append(", fun: ");
    let part1 = format_fungibility(&x.fun);
    text.append(part1.as_str());
    text.append(" }");
    text
}

fn format_each_asset(items: &[Asset]) -> (r: Vec<String>)
    ensures
        texts(r@) == asset_texts(views(items@)),
{
    let mut out: Vec<String> = Vec::new();
    let mut i: usize = 0;
    while i < items.len()
        invariant
            i <= items.len(),
            out@.len() == i,
            forall|j: int| 0 <= j < i ==> out@[j]@ == asset_text((#[trigger] items@[j])@),
        decreases items.len() - i,
    {
        let part = format_asset(&items[i]);
        out.push(part);
        i = i + 1;
    }
    assert(texts(out@) =~= asset_texts(views(items@)));
    out
}

/// Formats assets, each by [`format_asset`], in their order.
pub fn format_assets(x: &Assets) -> (r: String)
    ensures
        r@ == assets_text(x@),
{
    let mut text = String::from_str("Assets(");
    let each = format_each_asset(x.0.as_slice());
    let part0 = format_list(&each);
    text.append(part0.as_str());
    text.append(")");
    text
}

/// Formats a wildcard.
pub fn format_wild_asset(x: &WildAsset) -> (r: String)
    ensures
        r@ == wild_asset_text(x@),
{
    match x {
        WildAsset::All => String::from_str("All"),
        WildAsset::AllOf { id, fun } => {
            let mut text = String::from_str("AllOf { id: ");
            let part0 = format_asset_id(id);
            text.append(part0.as_str());
            text.append(", fun: ");
            let part1 = format_wild_fungibility(fun);
            text.append(part1.as_str());
            text.append(" }");
            text
        },
        WildAsset::AllCounted(count) => {
            let mut text = String::from_str("AllCounted(");
            let part0 = format_number(*count as u128);
            text.append(part0.as_str());
            text.append(")");
            text
        },
        WildAsset::AllOfCounted { id, fun, count } => {
            let mut text = String::from_str("AllOfCounted { id: ");
            let part0 = format_asset_id(id);
            text.append(part0.as_str());
            text.append(", fun: ");
            let part1 = format_wild_fungibility(fun);
            text.append(part1.as_str());
            text.append(", count: ");
            let part2 = format_number(*count as u128);
            text.append(part2.as_str());
            text.append(" }");
            text
        },
    }
}

/// Formats an asset filter.
pub fn format_asset_filter(x: &AssetFilter) -> (r: String)
    ensures
        r@ == asset_filter_text(x@),
{
    match x {
        AssetFilter::Definite(assets) => {
            let mut text = String::from_str("Definite(");
            let part0 = format_assets(assets);
            text.append(part0.as_str());
            text.append(")");
            text
        },
        AssetFilter::Wild(wild) => {
            let mut text = String::from_str("Wild(");
            let part0 = format_wild_asset(wild);
            text.append(part0.as_str());
            text.append(")");
            text
        },
    }
}

/// Formats a transfer filter.
pub fn format_asset_transfer_filter(x: &AssetTransferFilter) -> (r: String)
    ensures
        r@ == asset_transfer_filter_text(x@),
{
    match x {
        AssetTransferFilter::Teleport(filter) => {
            let mut text = String::from_str("Teleport(");
            let part0 = format_asset_filter(filter);
            text.append(part0.as_str());
            text.append(")");
            text
        },
        AssetTransferFilter::ReserveDeposit(filter) => {
            let mut text = String::from_str("ReserveDeposit(");
            let part0 = format_asset_filter(filter);
            text.append(part0.as_str());
            text.append(")");
            text
        },
        AssetTransferFilter::ReserveWithdraw(filter) => {
            let mut text = String::from_str("ReserveWithdraw(");
            let part0 = format_asset_filter(filter);
            text.append(part0.as_str());
            text.append(")");
            text
        },
    }
}

/// Formats an optional transfer filter.
pub fn format_opt_asset_transfer_filter(x: &Option<AssetTransferFilter>) -> (r: String)
    ensures
        r@ == opt_asset_transfer_filter_text(opt_view(*x)),
{
    match x {
        None => String::from_str("None"),
        Some(v) => {
            let mut text = String::from_str("Some(");
            let part0 = format_asset_transfer_filter(v);
            text.append(part0.as_str());
            text.append(")");
            text
        },
    }
}

fn format_each_asset_transfer_filter(items: &[AssetTransferFilter]) -> (r: Vec<String>)
    ensures
        texts(r@) == asset_transfer_filter_texts(views(items@)),
{
    let mut out: Vec<String> = Vec::new();
    let mut i: usize = 0;
    while i < items.len()
        invariant
            i <= items.len(),
            out@.len() == i,
            forall|j: int| 0 <= j < i
                ==> out@[j]@ == asset_transfer_filter_text((#[trigger] items@[j])@),
        decreases items.len() - i,
    {
        let part = format_asset_transfer_filter(&items[i]);
        out.push(part);
        i = i + 1;
    }
    assert(texts(out@) =~= asset_transfer_filter_texts(views(items@)));
    out
}

/// Formats a list of transfer filters.
pub fn format_asset_transfer_filters(x: &Vec<AssetTransferFilter>) -> (r: String)
    ensures
        r@ == asset_transfer_filters_text(views(x@)),
{
    let each = format_each_asset_transfer_filter(x.as_slice());
    format_list(&each)
}

} // verus!
