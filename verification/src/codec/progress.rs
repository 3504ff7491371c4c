//! Progress: a parser that succeeds ends after the position at which it
//! began and within the input. The lemmas are ambient, so that a proof about
//! a composite parser sees them of each of its parts.

use vstd::prelude::*;
use crate::error::Parsed;
use crate::codec::wire::{parse_compact, parse_compact_nat};
use crate::codec::junction::{
    junction_parser, lemma_repeat_next, lemma_repeat_none, parse_body_id, parse_body_part,
    parse_junction, parse_junctions, parse_location, parse_network_id, parse_opt_junctions,
    parse_opt_location, parse_repeat,
};
use crate::codec::asset::{
    asset_parser, asset_transfer_filter_parser, parse_asset, parse_asset_filter,
    parse_asset_instance, parse_asset_transfer_filter, parse_asset_transfer_filters, parse_assets,
    parse_opt_asset_transfer_filter, parse_wild_asset,
};
use crate::codec::response::{
    hint_parser, pallet_info_parser, parse_byte_vec, parse_hint, parse_hints,
    parse_maybe_error_code, parse_opt_error, parse_pallet_info, parse_pallet_infos,
    parse_query_response_info, parse_response, parse_weight, parse_xcm_error,
};

verus! {

/// Whether `elem` makes progress wherever it succeeds on `s`.
pub open spec fn advances<T>(elem: spec_fn(Seq<u8>, int) -> Parsed<T>, s: Seq<u8>) -> bool {
    forall|p: int| (#[trigger] elem(s, p)) matches Ok((_, q)) ==> p < q <= s.len()
}

/// A repetition yields as many items as were asked for and ends within the
/// input, after its start unless it is empty.
pub proof fn lemma_repeat_bounds<T>(
    elem: spec_fn(Seq<u8>, int) -> Parsed<T>,
    s: Seq<u8>,
    pos: int,
    n: nat,
)
    requires
        0 <= pos <= s.len(),
        advances(elem, s),
    ensures
        parse_repeat(elem, s, pos, n) matches Ok((items, end)) ==> {
            &&& items.len() == n
            &&& pos <= end <= s.len()
            &&& (n > 0 ==> pos < end)
        },
    decreases n,
{
    if n == 0 {
        lemma_repeat_none(elem, s, pos);
    } else {
        lemma_repeat_bounds(elem, s, pos, (n - 1) as nat);
        lemma_repeat_next(elem, s, pos, (n - 1) as nat);
    }
}

/// [`parse_compact_nat`] makes progress.
pub broadcast proof fn lemma_compact_progress(s: Seq<u8>, pos: int)
    ensures
        (#[trigger] parse_compact_nat(s, pos)) matches Ok((_, end)) ==> pos < end <= s.len(),
{
}

/// [`parse_network_id`] makes progress.
pub broadcast proof fn lemma_network_id_progress(s: Seq<u8>, pos: int)
    ensures
        (#[trigger] parse_network_id(s, pos)) matches Ok((_, end)) ==> pos < end <= s.len(),
{
}

/// [`parse_body_id`] makes progress.
pub broadcast proof fn lemma_body_id_progress(s: Seq<u8>, pos: int)
    ensures
        (#[trigger] parse_body_id(s, pos)) matches Ok((_, end)) ==> pos < end <= s.len(),
{
}

/// [`parse_body_part`] makes progress.
pub broadcast proof fn lemma_body_part_progress(s: Seq<u8>, pos: int)
    ensures
        (#[trigger] parse_body_part(s, pos)) matches Ok((_, end)) ==> pos < end <= s.len(),
{
}

/// [`parse_junction`] makes progress.
pub broadcast proof fn lemma_junction_progress(s: Seq<u8>, pos: int)
    ensures
        (#[trigger] parse_junction(s, pos)) matches Ok((_, end)) ==> pos < end <= s.len(),
{
    broadcast use lemma_network_id_progress, lemma_body_id_progress, lemma_body_part_progress;

}

/// [`parse_junctions`] makes progress.
pub broadcast proof fn lemma_junctions_progress(s: Seq<u8>, pos: int)
    ensures
        (#[trigger] parse_junctions(s, pos)) matches Ok((items, end)) ==> {
            &&& pos < end <= s.len()
            &&& items.len() == s[pos]
            &&& items.len() <= 8
        },
{
    broadcast use lemma_junction_progress;

    if 0 <= pos < s.len() {
        assert(advances(junction_parser(), s));
        lemma_repeat_bounds(junction_parser(), s, pos + 1, s[pos] as nat);
    }
}

/// [`parse_location`] makes progress.
pub broadcast proof fn lemma_location_progress(s: Seq<u8>, pos: int)
    ensures
        (#[trigger] parse_location(s, pos)) matches Ok((_, end)) ==> pos < end <= s.len(),
{
    broadcast use lemma_junctions_progress;

}

/// [`parse_opt_location`] makes progress.
pub broadcast proof fn lemma_opt_location_progress(s: Seq<u8>, pos: int)
    ensures
        (#[trigger] parse_opt_location(s, pos)) matches Ok((_, end)) ==> pos < end <= s.len(),
{
    broadcast use lemma_location_progress;

}

/// [`parse_opt_junctions`] makes progress.
pub broadcast proof fn lemma_opt_junctions_progress(s: Seq<u8>, pos: int)
    ensures
        (#[trigger] parse_opt_junctions(s, pos)) matches Ok((_, end)) ==> pos < end <= s.len(),
{
    broadcast use lemma_junctions_progress;

}

/// [`parse_asset_instance`] makes progress.
pub broadcast proof fn lemma_asset_instance_progress(s: Seq<u8>, pos: int)
    ensures
        (#[trigger] parse_asset_instance(s, pos)) matches Ok((_, end)) ==> pos < end <= s.len(),
{
}

/// [`parse_asset`] makes progress.
pub broadcast proof fn lemma_asset_progress(s: Seq<u8>, pos: int)
    ensures
        (#[trigger] parse_asset(s, pos)) matches Ok((_, end)) ==> pos < end <= s.len(),
{
    broadcast use lemma_location_progress, lemma_asset_instance_progress;

}

/// [`parse_assets`] makes progress.
pub broadcast proof fn lemma_assets_progress(s: Seq<u8>, pos: int)
    ensures
        (#[trigger] parse_assets(s, pos)) matches Ok((_, end)) ==> pos < end <= s.len(),
{
    broadcast use lemma_asset_progress;

    if let Ok((count, p)) = parse_compact(s, pos) {
        assert(advances(asset_parser(), s));
        lemma_repeat_bounds(asset_parser(), s, p, count as nat);
    }
}

/// [`parse_wild_asset`] makes progress.
pub broadcast proof fn lemma_wild_asset_progress(s: Seq<u8>, pos: int)
    ensures
        (#[trigger] parse_wild_asset(s, pos)) matches Ok((_, end)) ==> pos < end <= s.len(),
{
    broadcast use lemma_location_progress;

}

/// [`parse_asset_filter`] makes progress.
pub broadcast proof fn lemma_asset_filter_progress(s: Seq<u8>, pos: int)
    ensures
        (#[trigger] parse_asset_filter(s, pos)) matches Ok((_, end)) ==> pos < end <= s.len(),
{
    broadcast use lemma_assets_progress, lemma_wild_asset_progress;

}

/// [`parse_asset_transfer_filter`] makes progress.
pub broadcast proof fn lemma_asset_transfer_filter_progress(s: Seq<u8>, pos: int)
    ensures
        (#[trigger] parse_asset_transfer_filter(s, pos)) matches Ok((_, end)) ==> pos < end
            <= s.len(),
{
    broadcast use lemma_asset_filter_progress;

}

/// [`parse_opt_asset_transfer_filter`] makes progress.
pub broadcast proof fn lemma_opt_asset_transfer_filter_progress(s: Seq<u8>, pos: int)
    ensures
        (#[trigger] parse_opt_asset_transfer_filter(s, pos)) matches Ok((_, end)) ==> pos < end
            <= s.len(),
{
    broadcast use lemma_asset_transfer_filter_progress;

}

/// [`parse_asset_transfer_filters`] makes progress.
pub broadcast proof fn lemma_asset_transfer_filters_progress(s: Seq<u8>, pos: int)
    ensures
        (#[trigger] parse_asset_transfer_filters(s, pos)) matches Ok((_, end)) ==> pos < end
            <= s.len(),
{
    broadcast use lemma_asset_transfer_filter_progress;

    if let Ok((count, p)) = parse_compact(s, pos) {
        assert(advances(asset_transfer_filter_parser(), s));
        lemma_repeat_bounds(asset_transfer_filter_parser(), s, p, count as nat);
    }
}

/// [`parse_weight`] makes progress.
pub broadcast proof fn lemma_weight_progress(s: Seq<u8>, pos: int)
    ensures
        (#[trigger] parse_weight(s, pos)) matches Ok((_, end)) ==> pos < end <= s.len(),
{
}

/// [`parse_xcm_error`] makes progress.
pub broadcast proof fn lemma_xcm_error_progress(s: Seq<u8>, pos: int)
    ensures
        (#[trigger] parse_xcm_error(s, pos)) matches Ok((_, end)) ==> pos < end <= s.len(),
{
    broadcast use lemma_weight_progress;

}

/// [`parse_opt_error`] makes progress.
pub broadcast proof fn lemma_opt_error_progress(s: Seq<u8>, pos: int)
    ensures
        (#[trigger] parse_opt_error(s, pos)) matches Ok((_, end)) ==> pos < end <= s.len(),
{
    broadcast use lemma_xcm_error_progress;

}

/// [`parse_byte_vec`] makes progress.
pub broadcast proof fn lemma_byte_vec_progress(s: Seq<u8>, pos: int)
    ensures
        (#[trigger] parse_byte_vec(s, pos)) matches Ok((_, end)) ==> pos < end <= s.len(),
{
}

/// [`parse_maybe_error_code`] makes progress.
pub broadcast proof fn lemma_maybe_error_code_progress(s: Seq<u8>, pos: int)
    ensures
        (#[trigger] parse_maybe_error_code(s, pos)) matches Ok((_, end)) ==> pos < end <= s.len(),
{
    broadcast use lemma_byte_vec_progress;

}

/// [`parse_pallet_info`] makes progress.
pub broadcast proof fn lemma_pallet_info_progress(s: Seq<u8>, pos: int)
    ensures
        (#[trigger] parse_pallet_info(s, pos)) matches Ok((_, end)) ==> pos < end <= s.len(),
{
    broadcast use lemma_byte_vec_progress;

}

/// [`parse_pallet_infos`] makes progress.
pub broadcast proof fn lemma_pallet_infos_progress(s: Seq<u8>, pos: int)
    ensures
        (#[trigger] parse_pallet_infos(s, pos)) matches Ok((_, end)) ==> pos < end <= s.len(),
{
    broadcast use lemma_pallet_info_progress;

    if let Ok((count, p)) = parse_compact(s, pos) {
        assert(advances(pallet_info_parser(), s));
        lemma_repeat_bounds(pallet_info_parser(), s, p, count as nat);
    }
}

/// [`parse_response`] makes progress.
pub broadcast proof fn lemma_response_progress(s: Seq<u8>, pos: int)
    ensures
        (#[trigger] parse_response(s, pos)) matches Ok((_, end)) ==> pos < end <= s.len(),
{
    broadcast use
        lemma_assets_progress,
        lemma_opt_error_progress,
        lemma_pallet_infos_progress,
        lemma_maybe_error_code_progress,
    ;

}

/// [`parse_query_response_info`] makes progress.
pub broadcast proof fn lemma_query_response_info_progress(s: Seq<u8>, pos: int)
    ensures
        (#[trigger] parse_query_response_info(s, pos)) matches Ok((_, end)) ==> pos < end
            <= s.len(),
{
    broadcast use lemma_location_progress, lemma_weight_progress;

}

/// [`parse_hint`] makes progress.
pub broadcast proof fn lemma_hint_progress(s: Seq<u8>, pos: int)
    ensures
        (#[trigger] parse_hint(s, pos)) matches Ok((_, end)) ==> pos < end <= s.len(),
{
    broadcast use lemma_location_progress;

}

/// [`parse_hints`] makes progress.
pub broadcast proof fn lemma_hints_progress(s: Seq<u8>, pos: int)
    ensures
        (#[trigger] parse_hints(s, pos)) matches Ok((_, end)) ==> pos < end <= s.len(),
{
    broadcast use lemma_hint_progress;

    if let Ok((count, p)) = parse_compact(s, pos) {
        assert(advances(hint_parser(), s));
        lemma_repeat_bounds(hint_parser(), s, p, count as nat);
    }
}

/// The progress lemmas of this module.
pub broadcast group group_progress {
    lemma_compact_progress,
    lemma_network_id_progress,
    lemma_body_id_progress,
    lemma_body_part_progress,
    lemma_junction_progress,
    lemma_junctions_progress,
    lemma_location_progress,
    lemma_opt_location_progress,
    lemma_opt_junctions_progress,
    lemma_asset_instance_progress,
    lemma_asset_progress,
    lemma_assets_progress,
    lemma_wild_asset_progress,
    lemma_asset_filter_progress,
    lemma_asset_transfer_filter_progress,
    lemma_opt_asset_transfer_filter_progress,
    lemma_asset_transfer_filters_progress,
    lemma_weight_progress,
    lemma_xcm_error_progress,
    lemma_opt_error_progress,
    lemma_byte_vec_progress,
    lemma_maybe_error_code_progress,
    lemma_pallet_info_progress,
    lemma_pallet_infos_progress,
    lemma_response_progress,
    lemma_query_response_info_progress,
    lemma_hint_progress,
    lemma_hints_progress,
}

} // verus!
