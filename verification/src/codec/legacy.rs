//! The grammar of versions 3 and 4, walked without building a value. It
//! differs from that of version 5 in few places: a network may besides be
//! one of three test networks, with the discriminants 4, 5 and 6; in
//! version 3 the class of an asset is a union of a location and of 32 bytes;
//! and the errors are numbered without `TooManyAssets`.

use vstd::prelude::*;
use crate::error::{DecodeError, Kind, Parsed};
use crate::codec::wire::{
    decode_array, decode_compact, decode_compact_u32, decode_compact_u64, decode_u32, decode_u64,
    decode_u8, decode_variant, parse_bytes, parse_compact, parse_compact_u32, parse_compact_u64,
    parse_u32, parse_u64, parse_u8, parse_variant,
};
use crate::codec::asset::{
    decode_fungibility, decode_wild_fungibility, parse_fungibility, parse_wild_fungibility,
};
use crate::codec::response::{
    decode_maybe_error_code, decode_pallet_infos, decode_weight, parse_maybe_error_code,
    parse_pallet_infos, parse_weight,
};
use crate::codec::junction::{
    decode_junction, decode_network_id, lemma_repeat_err, lemma_repeat_next, lemma_repeat_none,
    parse_junction, parse_network_id, parse_repeat,
};
use crate::codec::progress::{
    advances, lemma_asset_instance_progress, lemma_compact_progress, lemma_junction_progress,
    lemma_maybe_error_code_progress, lemma_network_id_progress, lemma_pallet_infos_progress,
    lemma_repeat_bounds, lemma_weight_progress,
};

verus! {

/// The mathematical reading of the outcome of a walk: the position reached.
pub open spec fn walked(r: Result<usize, DecodeError>) -> Parsed<()> {
    match r {
        Ok(end) => Ok(((), end as int)),
        Err(e) => Err(e),
    }
}

/// What is left of a parse when its value is dropped.
pub open spec fn forget<T>(r: Parsed<T>) -> Parsed<()> {
    match r {
        Ok((_, end)) => Ok(((), end)),
        Err(e) => Err(e),
    }
}

/// A network of version 3 or 4, walked over.
pub open spec fn skip_legacy_network_id(s: Seq<u8>, pos: int) -> Parsed<()> {
    match parse_variant(s, pos, Kind::NetworkId, 11) {
        Err(e) => Err(e),
        Ok((d, p)) => if d == 4 || d == 5 || d == 6 {
            Ok(((), p))
        } else {
            forget(parse_network_id(s, pos))
        },
    }
}

/// An optional network of version 3 or 4, walked over.
pub open spec fn skip_legacy_opt_network_id(s: Seq<u8>, pos: int) -> Parsed<()> {
    match parse_variant(s, pos, Kind::Option, 2) {
        Err(e) => Err(e),
        Ok((d, p)) => if d == 0 {
            Ok(((), p))
        } else {
            skip_legacy_network_id(s, p)
        },
    }
}

/// A junction of version 3 or 4, walked over.
pub open spec fn skip_legacy_junction(s: Seq<u8>, pos: int) -> Parsed<()> {
    match parse_variant(s, pos, Kind::Junction, 10) {
        Err(e) => Err(e),
        Ok((d, p)) => match d {
            1 => match skip_legacy_opt_network_id(s, p) {
                Err(e) => Err(e),
                Ok((_, q)) => forget(parse_bytes(s, q, 32)),
            },
            2 => match skip_legacy_opt_network_id(s, p) {
                Err(e) => Err(e),
                Ok((_, q)) => forget(parse_compact_u64(s, q)),
            },
            3 => match skip_legacy_opt_network_id(s, p) {
                Err(e) => Err(e),
                Ok((_, q)) => forget(parse_bytes(s, q, 20)),
            },
            9 => skip_legacy_network_id(s, p),
            _ => forget(parse_junction(s, pos)),
        },
    }
}

/// The walk over one junction, as a value.
pub open spec fn legacy_junction_skipper() -> spec_fn(Seq<u8>, int) -> Parsed<()> {
    |s: Seq<u8>, pos: int| skip_legacy_junction(s, pos)
}

/// A junctions of version 3 or 4, walked over.
pub open spec fn skip_legacy_junctions(s: Seq<u8>, pos: int) -> Parsed<()> {
    match parse_variant(s, pos, Kind::Junctions, 9) {
        Err(e) => Err(e),
        Ok((n, p)) => forget(parse_repeat(legacy_junction_skipper(), s, p, n as nat)),
    }
}

/// A walk over legacy junctions ends after its start and within the input.
pub broadcast proof fn lemma_legacy_junctions_progress(s: Seq<u8>, pos: int)
    ensures
        (#[trigger] skip_legacy_junctions(s, pos)) matches Ok((_, end)) ==> pos < end <= s.len(),
{
    broadcast use lemma_compact_progress, lemma_junction_progress, lemma_network_id_progress;

    if 0 <= pos < s.len() {
        assert(advances(legacy_junction_skipper(), s));
        lemma_repeat_bounds(legacy_junction_skipper(), s, pos + 1, s[pos] as nat);
    }
}

/// Walks over a network of version 3 or 4.
pub fn walk_legacy_network_id(input: &[u8], pos: usize) -> (r: Result<usize, DecodeError>)
    ensures
        walked(r) == skip_legacy_network_id(input@, pos as int),
{
    let (d, p) = decode_variant(input, pos, Kind::NetworkId, 11)?;
    if d == 4 || d == 5 || d == 6 {
        Ok(p)
    } else {
        let (_n, q) = decode_network_id(input, pos)?;
        Ok(q)
    }
}

/// Walks over an optional network of version 3 or 4.
pub fn walk_legacy_opt_network_id(input: &[u8], pos: usize) -> (r: Result<usize, DecodeError>)
    ensures
        walked(r) == skip_legacy_opt_network_id(input@, pos as int),
{
    let (d, p) = decode_variant(input, pos, Kind::Option, 2)?;
    if d == 0 {
        Ok(p)
    } else {
        walk_legacy_network_id(input, p)
    }
}

/// Walks over a junction of version 3 or 4.
pub fn walk_legacy_junction(input: &[u8], pos: usize) -> (r: Result<usize, DecodeError>)
    ensures
        walked(r) == skip_legacy_junction(input@, pos as int),
{
    let (d, p) = decode_variant(input, pos, Kind::Junction, 10)?;
    match d {
        1 => {
            let q = walk_legacy_opt_network_id(input, p)?;
            let (_id, r) = decode_array::<32>(input, q)?;
            Ok(r)
        },
        2 => {
            let q = walk_legacy_opt_network_id(input, p)?;
            let (_index, r) = decode_compact_u64(input, q)?;
            Ok(r)
        },
        3 => {
            let q = walk_legacy_opt_network_id(input, p)?;
            let (_key, r) = decode_array::<20>(input, q)?;
            Ok(r)
        },
        9 => walk_legacy_network_id(input, p),
        _ => {
            let (_j, q) = decode_junction(input, pos)?;
            Ok(q)
        },
    }
}

/// Walks over the junctions of a version 3 or 4 interior location and
/// returns the position after them.
pub fn walk_legacy_junctions(input: &[u8], pos: usize) -> (r: Result<usize, DecodeError>)
    ensures
        walked(r) == skip_legacy_junctions(input@, pos as int),
{
    let (n, start) = decode_variant(input, pos, Kind::Junctions, 9)?;
    let mut p: usize = start;
    let mut i: u8 = 0;
    let ghost mut items: Seq<()> = Seq::empty();
    proof {
        lemma_repeat_none(legacy_junction_skipper(), input@, start as int);
    }
    while i < n
        invariant
            i <= n,
            parse_variant(input@, pos as int, Kind::Junctions, 9) == Ok::<_, DecodeError>(
                (n, start as int),
            ),
            parse_repeat(legacy_junction_skipper(), input@, start as int, i as nat) == Ok::<
                _,
                DecodeError,
            >((items, p as int)),
        decreases n - i,
    {
        proof {
            lemma_repeat_next(legacy_junction_skipper(), input@, start as int, i as nat);
        }
        match walk_legacy_junction(input, p) {
            Err(e) => {
                proof {
                    lemma_repeat_err(
                        legacy_junction_skipper(),
                        input@,
                        start as int,
                        (i + 1) as nat,
                        n as nat,
                    );
                }
                return Err(e);
            },
            Ok(q) => {
                proof {
                    items = items.push(());
                }
                p = q;
                i = i + 1;
            },
        }
    }
    Ok(p)
}

/// A location of version 3 or 4, walked over.
pub open spec fn skip_legacy_location(s: Seq<u8>, pos: int) -> Parsed<()> {
    match parse_u8(s, pos) {
        Err(e) => Err(e),
        Ok((_, p)) => skip_legacy_junctions(s, p),
    }
}

/// An optional location of version 3 or 4, walked over.
pub open spec fn skip_legacy_opt_location(s: Seq<u8>, pos: int) -> Parsed<()> {
    match parse_variant(s, pos, Kind::Option, 2) {
        Err(e) => Err(e),
        Ok((d, p)) => if d == 0 {
            Ok(((), p))
        } else {
            skip_legacy_location(s, p)
        },
    }
}

/// The class of an asset, walked over. In version 3 (`v3`) it is a union
/// of a location and of 32 bytes; in version 4 it is a location.
pub open spec fn skip_legacy_asset_id(s: Seq<u8>, pos: int, v3: bool) -> Parsed<()> {
    if v3 {
        match parse_variant(s, pos, Kind::AssetId, 2) {
            Err(e) => Err(e),
            Ok((d, p)) => if d == 0 {
                skip_legacy_location(s, p)
            } else {
                forget(parse_bytes(s, p, 32))
            },
        }
    } else {
        skip_legacy_location(s, pos)
    }
}

/// An asset of version 3 or 4, walked over.
pub open spec fn skip_legacy_asset(s: Seq<u8>, pos: int, v3: bool) -> Parsed<()> {
    match skip_legacy_asset_id(s, pos, v3) {
        Err(e) => Err(e),
        Ok((_, p)) => forget(parse_fungibility(s, p)),
    }
}

/// The walk over one asset, as a value.
pub open spec fn legacy_asset_skipper(v3: bool) -> spec_fn(Seq<u8>, int) -> Parsed<()> {
    |s: Seq<u8>, pos: int| skip_legacy_asset(s, pos, v3)
}

/// Assets of version 3 or 4, walked over: a compact count, then that many.
pub open spec fn skip_legacy_assets(s: Seq<u8>, pos: int, v3: bool) -> Parsed<()> {
    match parse_compact(s, pos) {
        Err(e) => Err(e),
        Ok((count, p)) => forget(parse_repeat(legacy_asset_skipper(v3), s, p, count as nat)),
    }
}

/// A wildcard of version 3 or 4, walked over.
pub open spec fn skip_legacy_wild_asset(s: Seq<u8>, pos: int, v3: bool) -> Parsed<()> {
    match parse_variant(s, pos, Kind::WildAsset, 4) {
        Err(e) => Err(e),
        Ok((d, p)) => match d {
            0 => Ok(((), p)),
            1 => match skip_legacy_asset_id(s, p, v3) {
                Err(e) => Err(e),
                Ok((_, q)) => forget(parse_wild_fungibility(s, q)),
            },
            2 => forget(parse_compact_u32(s, p)),
            _ => match skip_legacy_asset_id(s, p, v3) {
                Err(e) => Err(e),
                Ok((_, q)) => match parse_wild_fungibility(s, q) {
                    Err(e) => Err(e),
                    Ok((_, r)) => forget(parse_compact_u32(s, r)),
                },
            },
        },
    }
}

/// An asset filter of version 3 or 4, walked over.
pub open spec fn skip_legacy_asset_filter(s: Seq<u8>, pos: int, v3: bool) -> Parsed<()> {
    match parse_variant(s, pos, Kind::AssetFilter, 2) {
        Err(e) => Err(e),
        Ok((d, p)) => if d == 0 {
            skip_legacy_assets(s, p, v3)
        } else {
            skip_legacy_wild_asset(s, p, v3)
        },
    }
}

/// An executor error of version 3 or 4, walked over. There are 40 of them;
/// the one with discriminant 21 carries 8 bytes and the one with 36 a
/// weight.
pub open spec fn skip_legacy_error(s: Seq<u8>, pos: int) -> Parsed<()> {
    match parse_variant(s, pos, Kind::XcmError, 40) {
        Err(e) => Err(e),
        Ok((d, p)) => if d == 21 {
            forget(parse_u64(s, p))
        } else if d == 36 {
            forget(parse_weight(s, p))
        } else {
            Ok(((), p))
        },
    }
}

/// An optional pair of an index and an error of version 3 or 4, walked over.
pub open spec fn skip_legacy_opt_error(s: Seq<u8>, pos: int) -> Parsed<()> {
    match parse_variant(s, pos, Kind::Option, 2) {
        Err(e) => Err(e),
        Ok((d, p)) => if d == 0 {
            Ok(((), p))
        } else {
            match parse_u32(s, p) {
                Err(e) => Err(e),
                Ok((_, q)) => skip_legacy_error(s, q),
            }
        },
    }
}

/// A response of version 3 or 4, walked over.
pub open spec fn skip_legacy_response(s: Seq<u8>, pos: int, v3: bool) -> Parsed<()> {
    match parse_variant(s, pos, Kind::Response, 6) {
        Err(e) => Err(e),
        Ok((d, p)) => match d {
            0 => Ok(((), p)),
            1 => skip_legacy_assets(s, p, v3),
            2 => skip_legacy_opt_error(s, p),
            3 => forget(parse_u32(s, p)),
            4 => forget(parse_pallet_infos(s, p)),
            _ => forget(parse_maybe_error_code(s, p)),
        },
    }
}

/// A description of where to answer, of version 3 or 4, walked over.
pub open spec fn skip_legacy_query_response_info(s: Seq<u8>, pos: int) -> Parsed<()> {
    match skip_legacy_location(s, pos) {
        Err(e) => Err(e),
        Ok((_, p)) => match parse_compact_u64(s, p) {
            Err(e) => Err(e),
            Ok((_, q)) => forget(parse_weight(s, q)),
        },
    }
}

/// [`skip_legacy_network_id`] makes progress.
pub broadcast proof fn lemma_legacy_network_id_progress(s: Seq<u8>, pos: int)
    ensures
        (#[trigger] skip_legacy_network_id(s, pos)) matches Ok((_, end)) ==> pos < end <= s.len(),
{
    broadcast use lemma_network_id_progress;

}

/// [`skip_legacy_junction`] makes progress.
pub broadcast proof fn lemma_legacy_junction_progress(s: Seq<u8>, pos: int)
    ensures
        (#[trigger] skip_legacy_junction(s, pos)) matches Ok((_, end)) ==> pos < end <= s.len(),
{
    broadcast use lemma_compact_progress, lemma_junction_progress, lemma_network_id_progress;

}

/// [`skip_legacy_location`] makes progress.
pub broadcast proof fn lemma_legacy_location_progress(s: Seq<u8>, pos: int)
    ensures
        (#[trigger] skip_legacy_location(s, pos)) matches Ok((_, end)) ==> pos < end <= s.len(),
{
    broadcast use lemma_legacy_junctions_progress;

}

/// [`skip_legacy_opt_location`] makes progress.
pub broadcast proof fn lemma_legacy_opt_location_progress(s: Seq<u8>, pos: int)
    ensures
        (#[trigger] skip_legacy_opt_location(s, pos)) matches Ok((_, end)) ==> pos < end
            <= s.len(),
{
    broadcast use lemma_legacy_location_progress;

}

/// [`skip_legacy_asset`] makes progress.
pub broadcast proof fn lemma_legacy_asset_progress(s: Seq<u8>, pos: int, v3: bool)
    ensures
        (#[trigger] skip_legacy_asset(s, pos, v3)) matches Ok((_, end)) ==> pos < end <= s.len(),
{
    broadcast use
        lemma_legacy_location_progress,
        lemma_compact_progress,
        lemma_asset_instance_progress,
    ;

}

/// [`skip_legacy_assets`] makes progress.
pub broadcast proof fn lemma_legacy_assets_progress(s: Seq<u8>, pos: int, v3: bool)
    ensures
        (#[trigger] skip_legacy_assets(s, pos, v3)) matches Ok((_, end)) ==> pos < end <= s.len(),
{
    broadcast use lemma_compact_progress, lemma_legacy_asset_progress;

    if let Ok((count, p)) = parse_compact(s, pos) {
        assert(advances(legacy_asset_skipper(v3), s));
        lemma_repeat_bounds(legacy_asset_skipper(v3), s, p, count as nat);
    }
}

/// [`skip_legacy_asset_filter`] makes progress.
pub broadcast proof fn lemma_legacy_asset_filter_progress(s: Seq<u8>, pos: int, v3: bool)
    ensures
        (#[trigger] skip_legacy_asset_filter(s, pos, v3)) matches Ok((_, end)) ==> pos < end
            <= s.len(),
{
    broadcast use
        lemma_legacy_assets_progress,
        lemma_legacy_location_progress,
        lemma_compact_progress,
    ;

}

/// [`skip_legacy_opt_error`] makes progress.
pub broadcast proof fn lemma_legacy_opt_error_progress(s: Seq<u8>, pos: int)
    ensures
        (#[trigger] skip_legacy_opt_error(s, pos)) matches Ok((_, end)) ==> pos < end <= s.len(),
{
    broadcast use lemma_weight_progress;

}

/// [`skip_legacy_response`] makes progress.
pub broadcast proof fn lemma_legacy_response_progress(s: Seq<u8>, pos: int, v3: bool)
    ensures
        (#[trigger] skip_legacy_response(s, pos, v3)) matches Ok((_, end)) ==> pos < end
            <= s.len(),
{
    broadcast use
        lemma_legacy_assets_progress,
        lemma_legacy_opt_error_progress,
        lemma_pallet_infos_progress,
        lemma_maybe_error_code_progress,
    ;

}

/// [`skip_legacy_query_response_info`] makes progress.
pub broadcast proof fn lemma_legacy_query_response_info_progress(s: Seq<u8>, pos: int)
    ensures
        (#[trigger] skip_legacy_query_response_info(s, pos)) matches Ok((_, end)) ==> pos < end
            <= s.len(),
{
    broadcast use lemma_legacy_location_progress, lemma_compact_progress, lemma_weight_progress;

}

/// The progress lemmas of this module.
pub broadcast group group_legacy_progress {
    lemma_legacy_network_id_progress,
    lemma_legacy_junction_progress,
    lemma_legacy_junctions_progress,
    lemma_legacy_location_progress,
    lemma_legacy_opt_location_progress,
    lemma_legacy_asset_progress,
    lemma_legacy_assets_progress,
    lemma_legacy_asset_filter_progress,
    lemma_legacy_opt_error_progress,
    lemma_legacy_response_progress,
    lemma_legacy_query_response_info_progress,
}

/// Walks over a location of version 3 or 4.
pub fn walk_legacy_location(input: &[u8], pos: usize) -> (r: Result<usize, DecodeError>)
    ensures
        walked(r) == skip_legacy_location(input@, pos as int),
{
    let (_parents, p) = decode_u8(input, pos)?;
    walk_legacy_junctions(input, p)
}

/// Walks over an optional location of version 3 or 4.
pub fn walk_legacy_opt_location(input: &[u8], pos: usize) -> (r: Result<usize, DecodeError>)
    ensures
        walked(r) == skip_legacy_opt_location(input@, pos as int),
{
    let (d, p) = decode_variant(input, pos, Kind::Option, 2)?;
    if d == 0 {
        Ok(p)
    } else {
        walk_legacy_location(input, p)
    }
}

/// Walks over the class of an asset of version 3 (`v3`) or 4.
pub fn walk_legacy_asset_id(input: &[u8], pos: usize, v3: bool) -> (r: Result<usize, DecodeError>)
    ensures
        walked(r) == skip_legacy_asset_id(input@, pos as int, v3),
{
    if v3 {
        let (d, p) = decode_variant(input, pos, Kind::AssetId, 2)?;
        if d == 0 {
            walk_legacy_location(input, p)
        } else {
            let (_name, q) = decode_array::<32>(input, p)?;
            Ok(q)
        }
    } else {
        walk_legacy_location(input, pos)
    }
}

/// Walks over an asset of version 3 (`v3`) or 4.
pub fn walk_legacy_asset(input: &[u8], pos: usize, v3: bool) -> (r: Result<usize, DecodeError>)
    ensures
        walked(r) == skip_legacy_asset(input@, pos as int, v3),
{
    let p = walk_legacy_asset_id(input, pos, v3)?;
    let (_fun, q) = decode_fungibility(input, p)?;
    Ok(q)
}

/// Walks over assets of version 3 (`v3`) or 4.
pub fn walk_legacy_assets(input: &[u8], pos: usize, v3: bool) -> (r: Result<usize, DecodeError>)
    ensures
        walked(r) == skip_legacy_assets(input@, pos as int, v3),
{
    let (count, start) = decode_compact(input, pos)?;
    let mut p: usize = start;
    let mut i: u128 = 0;
    let ghost mut items: Seq<()> = Seq::empty();
    proof {
        lemma_repeat_none(legacy_asset_skipper(v3), input@, start as int);
    }
    while i < count
        invariant
            i <= count,
            parse_compact(input@, pos as int) == Ok::<_, DecodeError>((count, start as int)),
            parse_repeat(legacy_asset_skipper(v3), input@, start as int, i as nat) == Ok::<
                _,
                DecodeError,
            >((items, p as int)),
        decreases count - i,
    {
        proof {
            lemma_repeat_next(legacy_asset_skipper(v3), input@, start as int, i as nat);
        }
        match walk_legacy_asset(input, p, v3) {
            Err(e) => {
                proof {
                    lemma_repeat_err(
                        legacy_asset_skipper(v3),
                        input@,
                        start as int,
                        (i + 1) as nat,
                        count as nat,
                    );
                }
                return Err(e);
            },
            Ok(q) => {
                proof {
                    items = items.push(());
                }
                p = q;
                i = i + 1;
            },
        }
    }
    Ok(p)
}

/// Walks over a wildcard of version 3 (`v3`) or 4.
pub fn walk_legacy_wild_asset(input: &[u8], pos: usize, v3: bool) -> (r: Result<
    usize,
    DecodeError,
>)
    ensures
        walked(r) == skip_legacy_wild_asset(input@, pos as int, v3),
{
    let (d, p) = decode_variant(input, pos, Kind::WildAsset, 4)?;
    match d {
        0 => Ok(p),
        1 => {
            let q = walk_legacy_asset_id(input, p, v3)?;
            let (_fun, r) = decode_wild_fungibility(input, q)?;
            Ok(r)
        },
        2 => {
            let (_count, q) = decode_compact_u32(input, p)?;
            Ok(q)
        },
        _ => {
            let q = walk_legacy_asset_id(input, p, v3)?;
            let (_fun, r) = decode_wild_fungibility(input, q)?;
            let (_count, t) = decode_compact_u32(input, r)?;
            Ok(t)
        },
    }
}

/// Walks over an asset filter of version 3 (`v3`) or 4.
pub fn walk_legacy_asset_filter(input: &[u8], pos: usize, v3: bool) -> (r: Result<
    usize,
    DecodeError,
>)
    ensures
        walked(r) == skip_legacy_asset_filter(input@, pos as int, v3),
{
    let (d, p) = decode_variant(input, pos, Kind::AssetFilter, 2)?;
    if d == 0 {
        walk_legacy_assets(input, p, v3)
    } else {
        walk_legacy_wild_asset(input, p, v3)
    }
}

/// Walks over an executor error of version 3 or 4.
pub fn walk_legacy_error(input: &[u8], pos: usize) -> (r: Result<usize, DecodeError>)
    ensures
        walked(r) == skip_legacy_error(input@, pos as int),
{
    let (d, p) = decode_variant(input, pos, Kind::XcmError, 40)?;
    if d == 21 {
        let (_code, q) = decode_u64(input, p)?;
        Ok(q)
    } else if d == 36 {
        let (_weight, q) = decode_weight(input, p)?;
        Ok(q)
    } else {
        Ok(p)
    }
}

/// Walks over an optional pair of an index and an error of version 3 or 4.
pub fn walk_legacy_opt_error(input: &[u8], pos: usize) -> (r: Result<usize, DecodeError>)
    ensures
        walked(r) == skip_legacy_opt_error(input@, pos as int),
{
    let (d, p) = decode_variant(input, pos, Kind::Option, 2)?;
    if d == 0 {
        Ok(p)
    } else {
        let (_index, q) = decode_u32(input, p)?;
        walk_legacy_error(input, q)
    }
}

/// Walks over a response of version 3 (`v3`) or 4.
pub fn walk_legacy_response(input: &[u8], pos: usize, v3: bool) -> (r: Result<usize, DecodeError>)
    ensures
        walked(r) == skip_legacy_response(input@, pos as int, v3),
{
    let (d, p) = decode_variant(input, pos, Kind::Response, 6)?;
    match d {
        0 => Ok(p),
        1 => walk_legacy_assets(input, p, v3),
        2 => walk_legacy_opt_error(input, p),
        3 => {
            let (_version, q) = decode_u32(input, p)?;
            Ok(q)
        },
        4 => {
            let (_infos, q) = decode_pallet_infos(input, p)?;
            Ok(q)
        },
        _ => {
            let (_code, q) = decode_maybe_error_code(input, p)?;
            Ok(q)
        },
    }
}

/// Walks over a description of where to answer, of version 3 or 4.
pub fn walk_legacy_query_response_info(input: &[u8], pos: usize) -> (r: Result<
    usize,
    DecodeError,
>)
    ensures
        walked(r) == skip_legacy_query_response_info(input@, pos as int),
{
    let p = walk_legacy_location(input, pos)?;
    let (_id, q) = decode_compact_u64(input, p)?;
    let (_weight, r) = decode_weight(input, q)?;
    Ok(r)
}

} // verus!
