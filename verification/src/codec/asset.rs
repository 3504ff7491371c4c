//! The grammar of assets and asset filters.

use vstd::prelude::*;
use crate::error::{DecodeError, Decoded, Kind, Parsed, decoded, decoded_opt};
use crate::codec::wire::{
    decode_array, decode_compact, decode_compact_u32, decode_variant, parse_bytes, parse_compact,
    parse_compact_u32, parse_variant,
};
use crate::codec::junction::{
    decode_location, lemma_repeat_err, lemma_repeat_next, lemma_repeat_none, lemma_views_push,
    parse_location, parse_repeat,
};
use crate::model::junction::views;
use crate::model::asset::{
    Asset, AssetFilter, AssetFilterView, AssetId, AssetInstance, AssetInstanceView,
    AssetTransferFilter, AssetTransferFilterView, AssetView, Assets, Fungibility, FungibilityView,
    WildAsset, WildAssetView, WildFungibility,
};

verus! {

/// An asset instance: its discriminant, then the fields of that variant.
pub open spec fn parse_asset_instance(s: Seq<u8>, pos: int) -> Parsed<AssetInstanceView> {
    match parse_variant(s, pos, Kind::AssetInstance, 6) {
        Err(e) => Err(e),
        Ok((d, p)) => match d {
            0 => Ok((AssetInstanceView::Undefined, p)),
            1 => match parse_compact(s, p) {
                Err(e) => Err(e),
                Ok((i, q)) => Ok((AssetInstanceView::Index(i), q)),
            },
            2 => match parse_bytes(s, p, 4) {
                Err(e) => Err(e),
                Ok((a, q)) => Ok((AssetInstanceView::Array4(a), q)),
            },
            3 => match parse_bytes(s, p, 8) {
                Err(e) => Err(e),
                Ok((a, q)) => Ok((AssetInstanceView::Array8(a), q)),
            },
            4 => match parse_bytes(s, p, 16) {
                Err(e) => Err(e),
                Ok((a, q)) => Ok((AssetInstanceView::Array16(a), q)),
            },
            _ => match parse_bytes(s, p, 32) {
                Err(e) => Err(e),
                Ok((a, q)) => Ok((AssetInstanceView::Array32(a), q)),
            },
        },
    }
}

/// A fungibility: its discriminant, then the fields of that variant.
pub open spec fn parse_fungibility(s: Seq<u8>, pos: int) -> Parsed<FungibilityView> {
    match parse_variant(s, pos, Kind::Fungibility, 2) {
        Err(e) => Err(e),
        Ok((d, p)) => if d == 0 {
            match parse_compact(s, p) {
                Err(e) => Err(e),
                Ok((amount, q)) => Ok((FungibilityView::Fungible(amount), q)),
            }
        } else {
            match parse_asset_instance(s, p) {
                Err(e) => Err(e),
                Ok((instance, q)) => Ok((FungibilityView::NonFungible(instance), q)),
            }
        },
    }
}

/// A kind of fungibility: its discriminant, then the fields of that variant.
pub open spec fn parse_wild_fungibility(s: Seq<u8>, pos: int) -> Parsed<WildFungibility> {
    match parse_variant(s, pos, Kind::WildFungibility, 2) {
        Err(e) => Err(e),
        Ok((d, p)) => if d == 0 {
            Ok((WildFungibility::Fungible, p))
        } else {
            Ok((WildFungibility::NonFungible, p))
        },
    }
}

/// An asset: its fields in their order.
pub open spec fn parse_asset(s: Seq<u8>, pos: int) -> Parsed<AssetView> {
    match parse_location(s, pos) {
        Err(e) => Err(e),
        Ok((id, p)) => match parse_fungibility(s, p) {
            Err(e) => Err(e),
            Ok((fun, q)) => Ok((AssetView { id, fun }, q)),
        },
    }
}

/// The parser of one asset, as a value.
pub open spec fn asset_parser() -> spec_fn(Seq<u8>, int) -> Parsed<AssetView> {
    |s: Seq<u8>, pos: int| parse_asset(s, pos)
}

/// A compact count, then that many assets.
pub open spec fn parse_assets(s: Seq<u8>, pos: int) -> Parsed<Seq<AssetView>> {
    match parse_compact(s, pos) {
        Err(e) => Err(e),
        Ok((count, p)) => parse_repeat(asset_parser(), s, p, count as nat),
    }
}

/// A wildcard: its discriminant, then the fields of that variant.
pub open spec fn parse_wild_asset(s: Seq<u8>, pos: int) -> Parsed<WildAssetView> {
    match parse_variant(s, pos, Kind::WildAsset, 4) {
        Err(e) => Err(e),
        Ok((d, p)) => match d {
            0 => Ok((WildAssetView::All, p)),
            1 => match parse_location(s, p) {
                Err(e) => Err(e),
                Ok((id, q)) => match parse_wild_fungibility(s, q) {
                    Err(e) => Err(e),
                    Ok((fun, r)) => Ok((WildAssetView::AllOf { id, fun }, r)),
                },
            },
            2 => match parse_compact_u32(s, p) {
                Err(e) => Err(e),
                Ok((count, q)) => Ok((WildAssetView::AllCounted(count), q)),
            },
            _ => match parse_location(s, p) {
                Err(e) => Err(e),
                Ok((id, q)) => match parse_wild_fungibility(s, q) {
                    Err(e) => Err(e),
                    Ok((fun, r)) => match parse_compact_u32(s, r) {
                        Err(e) => Err(e),
                        Ok((count, t)) => Ok((WildAssetView::AllOfCounted { id, fun, count }, t)),
                    },
                },
            },
        },
    }
}

/// An asset filter: its discriminant, then the fields of that variant.
pub open spec fn parse_asset_filter(s: Seq<u8>, pos: int) -> Parsed<AssetFilterView> {
    match parse_variant(s, pos, Kind::AssetFilter, 2) {
        Err(e) => Err(e),
        Ok((d, p)) => if d == 0 {
            match parse_assets(s, p) {
                Err(e) => Err(e),
                Ok((assets, q)) => Ok((AssetFilterView::Definite(assets), q)),
            }
        } else {
            match parse_wild_asset(s, p) {
                Err(e) => Err(e),
                Ok((wild, q)) => Ok((AssetFilterView::Wild(wild), q)),
            }
        },
    }
}

/// A transfer filter: its discriminant, then the fields of that variant.
pub open spec fn parse_asset_transfer_filter(s: Seq<u8>, pos: int) -> Parsed<
    AssetTransferFilterView,
> {
    match parse_variant(s, pos, Kind::AssetTransferFilter, 3) {
        Err(e) => Err(e),
        Ok((d, p)) => match parse_asset_filter(s, p) {
            Err(e) => Err(e),
            Ok((f, q)) => match d {
                0 => Ok((AssetTransferFilterView::Teleport(f), q)),
                1 => Ok((AssetTransferFilterView::ReserveDeposit(f), q)),
                _ => Ok((AssetTransferFilterView::ReserveWithdraw(f), q)),
            },
        },
    }
}

/// An optional transfer filter: absent, or present and followed by it.
pub open spec fn parse_opt_asset_transfer_filter(s: Seq<u8>, pos: int) -> Parsed<
    Option<AssetTransferFilterView>,
> {
    match parse_variant(s, pos, Kind::Option, 2) {
        Err(e) => Err(e),
        Ok((d, p)) => if d == 0 {
            Ok((None, p))
        } else {
            match parse_asset_transfer_filter(s, p) {
                Err(e) => Err(e),
                Ok((f, q)) => Ok((Some(f), q)),
            }
        },
    }
}

/// The parser of one transfer filter, as a value.
pub open spec fn asset_transfer_filter_parser() -> spec_fn(Seq<u8>, int) -> Parsed<
    AssetTransferFilterView,
> {
    |s: Seq<u8>, pos: int| parse_asset_transfer_filter(s, pos)
}

/// A compact count, then that many transfer filters.
pub open spec fn parse_asset_transfer_filters(s: Seq<u8>, pos: int) -> Parsed<
    Seq<AssetTransferFilterView>,
> {
    match parse_compact(s, pos) {
        Err(e) => Err(e),
        Ok((count, p)) => parse_repeat(asset_transfer_filter_parser(), s, p, count as nat),
    }
}

/// Reads an asset instance that begins at `pos`.
pub fn decode_asset_instance(input: &[u8], pos: usize) -> (r: Decoded<AssetInstance>)
    ensures
        decoded(r) == parse_asset_instance(input@, pos as int),
{
    let (d, p) = decode_variant(input, pos, Kind::AssetInstance, 6)?;
    match d {
        0 => Ok((AssetInstance::Undefined, p)),
        1 => {
            let (i, q) = decode_compact(input, p)?;
            Ok((AssetInstance::Index(i), q))
        },
        2 => {
            let (a, q) = decode_array::<4>(input, p)?;
            Ok((AssetInstance::Array4(a), q))
        },
        3 => {
            let (a, q) = decode_array::<8>(input, p)?;
            Ok((AssetInstance::Array8(a), q))
        },
        4 => {
            let (a, q) = decode_array::<16>(input, p)?;
            Ok((AssetInstance::Array16(a), q))
        },
        _ => {
            let (a, q) = decode_array::<32>(input, p)?;
            Ok((AssetInstance::Array32(a), q))
        },
    }
}

/// Reads a fungibility that begins at `pos`.
pub fn decode_fungibility(input: &[u8], pos: usize) -> (r: Decoded<Fungibility>)
    ensures
        decoded(r) == parse_fungibility(input@, pos as int),
{
    let (d, p) = decode_variant(input, pos, Kind::Fungibility, 2)?;
    if d == 0 {
        let (amount, q) = decode_compact(input, p)?;
        Ok((Fungibility::Fungible(amount), q))
    } else {
        let (instance, q) = decode_asset_instance(input, p)?;
        Ok((Fungibility::NonFungible(instance), q))
    }
}

/// Reads a kind of fungibility that begins at `pos`.
pub fn decode_wild_fungibility(input: &[u8], pos: usize) -> (r: Decoded<WildFungibility>)
    ensures
        decoded(r) == parse_wild_fungibility(input@, pos as int),
{
    let (d, p) = decode_variant(input, pos, Kind::WildFungibility, 2)?;
    if d == 0 {
        Ok((WildFungibility::Fungible, p))
    } else {
        Ok((WildFungibility::NonFungible, p))
    }
}

/// Reads an asset that begins at `pos`.
pub fn decode_asset(input: &[u8], pos: usize) -> (r: Decoded<Asset>)
    ensures
        decoded(r) == parse_asset(input@, pos as int),
{
    let (id, p) = decode_location(input, pos)?;
    let (fun, q) = decode_fungibility(input, p)?;
    Ok((Asset { id: AssetId(id), fun }, q))
}

/// Reads assets: a compact count, then that many assets.
pub fn decode_assets(input: &[u8], pos: usize) -> (r: Decoded<Assets>)
    ensures
        decoded(r) == parse_assets(input@, pos as int),
{
    let (count, start) = decode_compact(input, pos)?;
    let mut out: Vec<Asset> = Vec::new();
    let mut p: usize = start;
    let mut i: u128 = 0;
    proof {
        lemma_repeat_none(asset_parser(), input@, start as int);
        lemma_views_push(out@, arbitrary());
    }
    while i < count
        invariant
            i <= count,
            parse_compact(input@, pos as int) == Ok::<_, DecodeError>((count, start as int)),
            parse_repeat(asset_parser(), input@, start as int, i as nat) == Ok::<_, DecodeError>(
                (views(out@), p as int),
            ),
        decreases count - i,
    {
        proof {
            lemma_repeat_next(asset_parser(), input@, start as int, i as nat);
        }
        match decode_asset(input, p) {
            Err(e) => {
                proof {
                    lemma_repeat_err(
                        asset_parser(),
                        input@,
                        start as int,
                        (i + 1) as nat,
                        count as nat,
                    );
                }
                return Err(e);
            },
            Ok((asset, q)) => {
                proof {
                    lemma_views_push(out@, asset);
                }
                out.push(asset);
                p = q;
                i = i + 1;
            },
        }
    }
    Ok((Assets(out), p))
}

/// Reads a wildcard that begins at `pos`.
pub fn decode_wild_asset(input: &[u8], pos: usize) -> (r: Decoded<WildAsset>)
    ensures
        decoded(r) == parse_wild_asset(input@, pos as int),
{
    let (d, p) = decode_variant(input, pos, Kind::WildAsset, 4)?;
    match d {
        0 => Ok((WildAsset::All, p)),
        1 => {
            let (id, q) = decode_location(input, p)?;
            let (fun, r) = decode_wild_fungibility(input, q)?;
            Ok((WildAsset::AllOf { id: AssetId(id), fun }, r))
        },
        2 => {
            let (count, q) = decode_compact_u32(input, p)?;
            Ok((WildAsset::AllCounted(count), q))
        },
        _ => {
            let (id, q) = decode_location(input, p)?;
            let (fun, r) = decode_wild_fungibility(input, q)?;
            let (count, t) = decode_compact_u32(input, r)?;
            Ok((WildAsset::AllOfCounted { id: AssetId(id), fun, count }, t))
        },
    }
}

/// Reads an asset filter that begins at `pos`.
pub fn decode_asset_filter(input: &[u8], pos: usize) -> (r: Decoded<AssetFilter>)
    ensures
        decoded(r) == parse_asset_filter(input@, pos as int),
{
    let (d, p) = decode_variant(input, pos, Kind::AssetFilter, 2)?;
    if d == 0 {
        let (assets, q) = decode_assets(input, p)?;
        Ok((AssetFilter::Definite(assets), q))
    } else {
        let (wild, q) = decode_wild_asset(input, p)?;
        Ok((AssetFilter::Wild(wild), q))
    }
}

/// Reads a transfer filter that begins at `pos`.
pub fn decode_asset_transfer_filter(input: &[u8], pos: usize) -> (r: Decoded<AssetTransferFilter>)
    ensures
        decoded(r) == parse_asset_transfer_filter(input@, pos as int),
{
    let (d, p) = decode_variant(input, pos, Kind::AssetTransferFilter, 3)?;
    let (f, q) = decode_asset_filter(input, p)?;
    match d {
        0 => Ok((AssetTransferFilter::Teleport(f), q)),
        1 => Ok((AssetTransferFilter::ReserveDeposit(f), q)),
        _ => Ok((AssetTransferFilter::ReserveWithdraw(f), q)),
    }
}

/// Reads an optional transfer filter that begins at `pos`.
pub fn decode_opt_asset_transfer_filter(input: &[u8], pos: usize) -> (r: Decoded<
    Option<AssetTransferFilter>,
>)
    ensures
        decoded_opt(r) == parse_opt_asset_transfer_filter(input@, pos as int),
{
    let (d, p) = decode_variant(input, pos, Kind::Option, 2)?;
    if d == 0 {
        Ok((None, p))
    } else {
        let (f, q) = decode_asset_transfer_filter(input, p)?;
        Ok((Some(f), q))
    }
}

/// Reads a compact count, then that many transfer filters.
pub fn decode_asset_transfer_filters(input: &[u8], pos: usize) -> (r: Result<
    (Vec<AssetTransferFilter>, usize),
    DecodeError,
>)
    ensures
        match r {
            Ok((v, end)) => parse_asset_transfer_filters(input@, pos as int) == Ok::<
                _,
                DecodeError,
            >((views(v@), end as int)),
            Err(e) => parse_asset_transfer_filters(input@, pos as int) == Err::<
                (Seq<AssetTransferFilterView>, int),
                _,
            >(e),
        },
{
    let (count, start) = decode_compact(input, pos)?;
    let mut out: Vec<AssetTransferFilter> = Vec::new();
    let mut p: usize = start;
    let mut i: u128 = 0;
    proof {
        lemma_repeat_none(asset_transfer_filter_parser(), input@, start as int);
        lemma_views_push(out@, arbitrary());
    }
    while i < count
        invariant
            i <= count,
            parse_compact(input@, pos as int) == Ok::<_, DecodeError>((count, start as int)),
            parse_repeat(asset_transfer_filter_parser(), input@, start as int, i as nat) == Ok::<
                _,
                DecodeError,
            >((views(out@), p as int)),
        decreases count - i,
    {
        proof {
            lemma_repeat_next(asset_transfer_filter_parser(), input@, start as int, i as nat);
        }
        match decode_asset_transfer_filter(input, p) {
            Err(e) => {
                proof {
                    lemma_repeat_err(
                        asset_transfer_filter_parser(),
                        input@,
                        start as int,
                        (i + 1) as nat,
                        count as nat,
                    );
                }
                return Err(e);
            },
            Ok((f, q)) => {
                proof {
                    lemma_views_push(out@, f);
                }
                out.push(f);
                p = q;
                i = i + 1;
            },
        }
    }
    Ok((out, p))
}

} // verus!
