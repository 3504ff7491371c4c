//! Truncation: what a parser that succeeds on an input does on a prefix of
//! that input. Where the prefix holds all that the parser read, the outcome
//! is the same; where it does not, the outcome is `IncompleteInput`, and
//! never a shorter value. The lemmas are ambient, so that a proof about a
//! composite parser sees them of each of its parts.

use vstd::prelude::*;
use crate::error::{DecodeError, Parsed};
use crate::codec::wire::{
    le_nat, parse_bytes, parse_compact, parse_compact_nat, parse_u32, parse_u64,
};
use crate::codec::junction::{
    junction_parser, lemma_repeat_next, lemma_repeat_none, parse_body_id, parse_body_part,
    parse_junction, parse_junctions, parse_location, parse_network_id, parse_opt_junctions,
    parse_opt_location, parse_opt_network_id, parse_repeat,
};
use crate::codec::asset::{
    asset_parser, asset_transfer_filter_parser, parse_asset, parse_asset_filter,
    parse_asset_instance, parse_asset_transfer_filter, parse_asset_transfer_filters, parse_assets,
    parse_fungibility, parse_opt_asset_transfer_filter, parse_wild_asset,
};
use crate::codec::response::{
    hint_parser, pallet_info_parser, parse_byte_vec, parse_hint, parse_hints,
    parse_maybe_error_code, parse_opt_error, parse_opt_weight, parse_pallet_info,
    parse_pallet_infos, parse_query_response_info, parse_response, parse_weight,
    parse_weight_limit, parse_xcm_error,
};
use crate::codec::progress::{
    advances, lemma_asset_filter_progress, lemma_asset_instance_progress, lemma_asset_progress,
    lemma_asset_transfer_filter_progress, lemma_assets_progress, lemma_body_id_progress,
    lemma_body_part_progress, lemma_byte_vec_progress, lemma_compact_progress,
    lemma_hint_progress, lemma_junction_progress, lemma_junctions_progress,
    lemma_location_progress, lemma_maybe_error_code_progress, lemma_network_id_progress,
    lemma_opt_error_progress, lemma_pallet_info_progress, lemma_pallet_infos_progress,
    lemma_repeat_bounds, lemma_weight_progress, lemma_wild_asset_progress,
    lemma_xcm_error_progress,
};

verus! {

/// The outcome `r` of a parser when only the first `k` bytes of its input
/// are left: unchanged where the parser ended within them, incomplete where
/// it did not.
pub open spec fn cut<T>(r: Parsed<T>, k: int) -> Parsed<T> {
    match r {
        Ok((v, end)) => if end <= k {
            Ok((v, end))
        } else {
            Err(DecodeError::IncompleteInput)
        },
        Err(e) => Err(e),
    }
}

/// Whether `elem`, wherever it succeeds on `s`, does on the first `k` bytes
/// of `s` what [`cut`] says.
pub open spec fn cut_stable<T>(
    elem: spec_fn(Seq<u8>, int) -> Parsed<T>,
    s: Seq<u8>,
    k: int,
) -> bool {
    forall|p: int| elem(s, p) is Ok ==> #[trigger] elem(s.take(k), p) == cut(elem(s, p), k)
}

/// A little-endian value within a prefix is that of the whole input.
pub proof fn lemma_le_nat_cut(s: Seq<u8>, from: int, to: int, k: int)
    requires
        0 <= from,
        to <= k <= s.len(),
    ensures
        le_nat(s.take(k), from, to) == le_nat(s, from, to),
    decreases to - from,
{
    if from < to {
        lemma_le_nat_cut(s, from + 1, to, k);
    }
}

/// [`parse_bytes`] on a prefix of the input.
pub broadcast proof fn lemma_bytes_cut(s: Seq<u8>, pos: int, n: nat, k: int)
    requires
        0 <= k <= s.len(),
    ensures
        parse_bytes(s, pos, n) is Ok ==> #[trigger] parse_bytes(s.take(k), pos, n) == cut(
            parse_bytes(s, pos, n),
            k,
        ),
{
    if 0 <= pos && pos + n <= k {
        assert(s.take(k).subrange(pos, pos + n) =~= s.subrange(pos, pos + n));
    }
}

/// [`parse_u32`] on a prefix of the input.
pub broadcast proof fn lemma_u32_cut(s: Seq<u8>, pos: int, k: int)
    requires
        0 <= k <= s.len(),
    ensures
        parse_u32(s, pos) is Ok ==> #[trigger] parse_u32(s.take(k), pos) == cut(
            parse_u32(s, pos),
            k,
        ),
{
    if 0 <= pos && pos + 4 <= k {
        lemma_le_nat_cut(s, pos, pos + 4, k);
    }
}

/// [`parse_u64`] on a prefix of the input.
pub broadcast proof fn lemma_u64_cut(s: Seq<u8>, pos: int, k: int)
    requires
        0 <= k <= s.len(),
    ensures
        parse_u64(s, pos) is Ok ==> #[trigger] parse_u64(s.take(k), pos) == cut(
            parse_u64(s, pos),
            k,
        ),
{
    if 0 <= pos && pos + 8 <= k {
        lemma_le_nat_cut(s, pos, pos + 8, k);
    }
}

/// [`parse_compact_nat`] on a prefix of the input.
pub broadcast proof fn lemma_compact_nat_cut(s: Seq<u8>, pos: int, k: int)
    requires
        0 <= k <= s.len(),
    ensures
        parse_compact_nat(s, pos) is Ok ==> #[trigger] parse_compact_nat(s.take(k), pos) == cut(
            parse_compact_nat(s, pos),
            k,
        ),
{
    if 0 <= pos < k {
        if pos + 2 <= k {
            lemma_le_nat_cut(s, pos, pos + 2, k);
        }
        if pos + 4 <= k {
            lemma_le_nat_cut(s, pos, pos + 4, k);
        }
        let end = pos + 1 + (s[pos] / 4 + 4);
        if end <= k {
            lemma_le_nat_cut(s, pos + 1, end, k);
        }
    }
}

/// A repetition on a prefix of the input: unchanged where it ended within
/// the prefix, incomplete where it did not.
pub proof fn lemma_repeat_cut<T>(
    elem: spec_fn(Seq<u8>, int) -> Parsed<T>,
    s: Seq<u8>,
    pos: int,
    n: nat,
    k: int,
)
    requires
        0 <= pos <= k <= s.len(),
        advances(elem, s),
        cut_stable(elem, s, k),
    ensures
        parse_repeat(elem, s, pos, n) is Ok ==> parse_repeat(elem, s.take(k), pos, n) == cut(
            parse_repeat(elem, s, pos, n),
            k,
        ),
    decreases n,
{
    if n == 0 {
        lemma_repeat_none(elem, s, pos);
        lemma_repeat_none(elem, s.take(k), pos);
    } else {
        let m = (n - 1) as nat;
        lemma_repeat_next(elem, s, pos, m);
        lemma_repeat_next(elem, s.take(k), pos, m);
        lemma_repeat_cut(elem, s, pos, m, k);
        lemma_repeat_bounds(elem, s, pos, m);
        lemma_repeat_bounds(elem, s, pos, n);
    }
}

/// [`parse_network_id`] on a prefix of the input.
pub broadcast proof fn lemma_network_id_cut(s: Seq<u8>, pos: int, k: int)
    requires
        0 <= k <= s.len(),
    ensures
        parse_network_id(s, pos) is Ok ==> #[trigger] parse_network_id(s.take(k), pos) == cut(
            parse_network_id(s, pos),
            k,
        ),
{
    broadcast use lemma_compact_progress, lemma_bytes_cut, lemma_u64_cut, lemma_compact_nat_cut;

}

/// [`parse_opt_network_id`] on a prefix of the input.
pub broadcast proof fn lemma_opt_network_id_cut(s: Seq<u8>, pos: int, k: int)
    requires
        0 <= k <= s.len(),
    ensures
        parse_opt_network_id(s, pos) is Ok ==> #[trigger] parse_opt_network_id(s.take(k), pos)
            == cut(parse_opt_network_id(s, pos), k),
{
    broadcast use lemma_network_id_progress, lemma_network_id_cut;

}

/// [`parse_body_id`] on a prefix of the input.
pub broadcast proof fn lemma_body_id_cut(s: Seq<u8>, pos: int, k: int)
    requires
        0 <= k <= s.len(),
    ensures
        parse_body_id(s, pos) is Ok ==> #[trigger] parse_body_id(s.take(k), pos) == cut(
            parse_body_id(s, pos),
            k,
        ),
{
    broadcast use lemma_compact_progress, lemma_bytes_cut, lemma_compact_nat_cut;

}

/// [`parse_body_part`] on a prefix of the input.
pub broadcast proof fn lemma_body_part_cut(s: Seq<u8>, pos: int, k: int)
    requires
        0 <= k <= s.len(),
    ensures
        parse_body_part(s, pos) is Ok ==> #[trigger] parse_body_part(s.take(k), pos) == cut(
            parse_body_part(s, pos),
            k,
        ),
{
    broadcast use lemma_compact_progress, lemma_compact_nat_cut;

}

/// [`parse_junction`] on a prefix of the input.
pub broadcast proof fn lemma_junction_cut(s: Seq<u8>, pos: int, k: int)
    requires
        0 <= k <= s.len(),
    ensures
        parse_junction(s, pos) is Ok ==> #[trigger] parse_junction(s.take(k), pos) == cut(
            parse_junction(s, pos),
            k,
        ),
{
    broadcast use
        lemma_network_id_progress,
        lemma_compact_progress,
        lemma_body_id_progress,
        lemma_body_part_progress,
        lemma_opt_network_id_cut,
        lemma_network_id_cut,
        lemma_bytes_cut,
        lemma_compact_nat_cut,
        lemma_body_id_cut,
        lemma_body_part_cut,
    ;

}

/// The parser of one junction makes progress and is stable under
/// truncation.
proof fn lemma_junction_parser_stable(s: Seq<u8>, k: int)
    requires
        0 <= k <= s.len(),
    ensures
        advances(junction_parser(), s),
        cut_stable(junction_parser(), s, k),
{
    broadcast use lemma_junction_progress, lemma_junction_cut;

}

/// [`parse_junctions`] on a prefix of the input.
pub broadcast proof fn lemma_junctions_cut(s: Seq<u8>, pos: int, k: int)
    requires
        0 <= k <= s.len(),
    ensures
        parse_junctions(s, pos) is Ok ==> #[trigger] parse_junctions(s.take(k), pos) == cut(
            parse_junctions(s, pos),
            k,
        ),
{
    if 0 <= pos < s.len() {
        lemma_junction_parser_stable(s, k);
        lemma_repeat_bounds(junction_parser(), s, pos + 1, s[pos] as nat);
        if pos < k {
            lemma_repeat_cut(junction_parser(), s, pos + 1, s[pos] as nat, k);
        }
    }
}

/// [`parse_location`] on a prefix of the input.
pub broadcast proof fn lemma_location_cut(s: Seq<u8>, pos: int, k: int)
    requires
        0 <= k <= s.len(),
    ensures
        parse_location(s, pos) is Ok ==> #[trigger] parse_location(s.take(k), pos) == cut(
            parse_location(s, pos),
            k,
        ),
{
    broadcast use lemma_junctions_progress, lemma_junctions_cut;

}

/// [`parse_opt_location`] on a prefix of the input.
pub broadcast proof fn lemma_opt_location_cut(s: Seq<u8>, pos: int, k: int)
    requires
        0 <= k <= s.len(),
    ensures
        parse_opt_location(s, pos) is Ok ==> #[trigger] parse_opt_location(s.take(k), pos) == cut(
            parse_opt_location(s, pos),
            k,
        ),
{
    broadcast use lemma_location_progress, lemma_location_cut;

}

/// [`parse_opt_junctions`] on a prefix of the input.
pub broadcast proof fn lemma_opt_junctions_cut(s: Seq<u8>, pos: int, k: int)
    requires
        0 <= k <= s.len(),
    ensures
        parse_opt_junctions(s, pos) is Ok ==> #[trigger] parse_opt_junctions(s.take(k), pos) == cut(
            parse_opt_junctions(s, pos),
            k,
        ),
{
    broadcast use lemma_junctions_progress, lemma_junctions_cut;

}

/// [`parse_asset_instance`] on a prefix of the input.
pub broadcast proof fn lemma_asset_instance_cut(s: Seq<u8>, pos: int, k: int)
    requires
        0 <= k <= s.len(),
    ensures
        parse_asset_instance(s, pos) is Ok ==> #[trigger] parse_asset_instance(s.take(k), pos)
            == cut(parse_asset_instance(s, pos), k),
{
    broadcast use lemma_compact_progress, lemma_compact_nat_cut, lemma_bytes_cut;

}

/// [`parse_fungibility`] on a prefix of the input.
pub broadcast proof fn lemma_fungibility_cut(s: Seq<u8>, pos: int, k: int)
    requires
        0 <= k <= s.len(),
    ensures
        parse_fungibility(s, pos) is Ok ==> #[trigger] parse_fungibility(s.take(k), pos) == cut(
            parse_fungibility(s, pos),
            k,
        ),
{
    broadcast use
        lemma_compact_progress,
        lemma_asset_instance_progress,
        lemma_compact_nat_cut,
        lemma_asset_instance_cut,
    ;

}

/// [`parse_asset`] on a prefix of the input.
pub broadcast proof fn lemma_asset_cut(s: Seq<u8>, pos: int, k: int)
    requires
        0 <= k <= s.len(),
    ensures
        parse_asset(s, pos) is Ok ==> #[trigger] parse_asset(s.take(k), pos) == cut(
            parse_asset(s, pos),
            k,
        ),
{
    broadcast use
        lemma_location_progress,
        lemma_compact_progress,
        lemma_asset_instance_progress,
        lemma_location_cut,
        lemma_fungibility_cut,
    ;

}

/// The parser of one asset makes progress and is stable under
/// truncation.
proof fn lemma_asset_parser_stable(s: Seq<u8>, k: int)
    requires
        0 <= k <= s.len(),
    ensures
        advances(asset_parser(), s),
        cut_stable(asset_parser(), s, k),
{
    broadcast use lemma_asset_progress, lemma_asset_cut;

}

/// [`parse_assets`] on a prefix of the input.
pub broadcast proof fn lemma_assets_cut(s: Seq<u8>, pos: int, k: int)
    requires
        0 <= k <= s.len(),
    ensures
        parse_assets(s, pos) is Ok ==> #[trigger] parse_assets(s.take(k), pos) == cut(
            parse_assets(s, pos),
            k,
        ),
{
    broadcast use lemma_compact_progress, lemma_compact_nat_cut;

    if let Ok((count, p)) = parse_compact(s, pos) {
        lemma_asset_parser_stable(s, k);
        lemma_repeat_bounds(asset_parser(), s, p, count as nat);
        if p <= k {
            lemma_repeat_cut(asset_parser(), s, p, count as nat, k);
        }
    }
}

/// [`parse_wild_asset`] on a prefix of the input.
pub broadcast proof fn lemma_wild_asset_cut(s: Seq<u8>, pos: int, k: int)
    requires
        0 <= k <= s.len(),
    ensures
        parse_wild_asset(s, pos) is Ok ==> #[trigger] parse_wild_asset(s.take(k), pos) == cut(
            parse_wild_asset(s, pos),
            k,
        ),
{
    broadcast use
        lemma_location_progress,
        lemma_compact_progress,
        lemma_location_cut,
        lemma_compact_nat_cut,
    ;

}

/// [`parse_asset_filter`] on a prefix of the input.
pub broadcast proof fn lemma_asset_filter_cut(s: Seq<u8>, pos: int, k: int)
    requires
        0 <= k <= s.len(),
    ensures
        parse_asset_filter(s, pos) is Ok ==> #[trigger] parse_asset_filter(s.take(k), pos) == cut(
            parse_asset_filter(s, pos),
            k,
        ),
{
    broadcast use
        lemma_assets_progress,
        lemma_wild_asset_progress,
        lemma_assets_cut,
        lemma_wild_asset_cut,
    ;

}

/// [`parse_asset_transfer_filter`] on a prefix of the input.
pub broadcast proof fn lemma_asset_transfer_filter_cut(s: Seq<u8>, pos: int, k: int)
    requires
        0 <= k <= s.len(),
    ensures
        parse_asset_transfer_filter(s, pos) is Ok ==> #[trigger] parse_asset_transfer_filter(
            s.take(k),
            pos,
        ) == cut(parse_asset_transfer_filter(s, pos), k),
{
    broadcast use lemma_asset_filter_progress, lemma_asset_filter_cut;

}

/// [`parse_opt_asset_transfer_filter`] on a prefix of the input.
pub broadcast proof fn lemma_opt_asset_transfer_filter_cut(s: Seq<u8>, pos: int, k: int)
    requires
        0 <= k <= s.len(),
    ensures
        parse_opt_asset_transfer_filter(s, pos) is Ok
            ==> #[trigger] parse_opt_asset_transfer_filter(s.take(k), pos) == cut(
            parse_opt_asset_transfer_filter(s, pos),
            k,
        ),
{
    broadcast use lemma_asset_transfer_filter_progress, lemma_asset_transfer_filter_cut;

}

/// The parser of one asset transfer filter makes progress and is stable under
/// truncation.
proof fn lemma_asset_transfer_filter_parser_stable(s: Seq<u8>, k: int)
    requires
        0 <= k <= s.len(),
    ensures
        advances(asset_transfer_filter_parser(), s),
        cut_stable(asset_transfer_filter_parser(), s, k),
{
    broadcast use lemma_asset_transfer_filter_progress, lemma_asset_transfer_filter_cut;

}

/// [`parse_asset_transfer_filters`] on a prefix of the input.
pub broadcast proof fn lemma_asset_transfer_filters_cut(s: Seq<u8>, pos: int, k: int)
    requires
        0 <= k <= s.len(),
    ensures
        parse_asset_transfer_filters(s, pos) is Ok ==> #[trigger] parse_asset_transfer_filters(
            s.take(k),
            pos,
        ) == cut(parse_asset_transfer_filters(s, pos), k),
{
    broadcast use lemma_compact_progress, lemma_compact_nat_cut;

    if let Ok((count, p)) = parse_compact(s, pos) {
        lemma_asset_transfer_filter_parser_stable(s, k);
        lemma_repeat_bounds(asset_transfer_filter_parser(), s, p, count as nat);
        if p <= k {
            lemma_repeat_cut(asset_transfer_filter_parser(), s, p, count as nat, k);
        }
    }
}

/// [`parse_weight`] on a prefix of the input.
pub broadcast proof fn lemma_weight_cut(s: Seq<u8>, pos: int, k: int)
    requires
        0 <= k <= s.len(),
    ensures
        parse_weight(s, pos) is Ok ==> #[trigger] parse_weight(s.take(k), pos) == cut(
            parse_weight(s, pos),
            k,
        ),
{
    broadcast use lemma_compact_progress, lemma_compact_nat_cut;

}

/// [`parse_opt_weight`] on a prefix of the input.
pub broadcast proof fn lemma_opt_weight_cut(s: Seq<u8>, pos: int, k: int)
    requires
        0 <= k <= s.len(),
    ensures
        parse_opt_weight(s, pos) is Ok ==> #[trigger] parse_opt_weight(s.take(k), pos) == cut(
            parse_opt_weight(s, pos),
            k,
        ),
{
    broadcast use lemma_weight_progress, lemma_weight_cut;

}

/// [`parse_weight_limit`] on a prefix of the input.
pub broadcast proof fn lemma_weight_limit_cut(s: Seq<u8>, pos: int, k: int)
    requires
        0 <= k <= s.len(),
    ensures
        parse_weight_limit(s, pos) is Ok ==> #[trigger] parse_weight_limit(s.take(k), pos) == cut(
            parse_weight_limit(s, pos),
            k,
        ),
{
    broadcast use lemma_weight_progress, lemma_weight_cut;

}

/// [`parse_xcm_error`] on a prefix of the input.
pub broadcast proof fn lemma_xcm_error_cut(s: Seq<u8>, pos: int, k: int)
    requires
        0 <= k <= s.len(),
    ensures
        parse_xcm_error(s, pos) is Ok ==> #[trigger] parse_xcm_error(s.take(k), pos) == cut(
            parse_xcm_error(s, pos),
            k,
        ),
{
    broadcast use lemma_weight_progress, lemma_u64_cut, lemma_weight_cut;

}

/// [`parse_opt_error`] on a prefix of the input.
pub broadcast proof fn lemma_opt_error_cut(s: Seq<u8>, pos: int, k: int)
    requires
        0 <= k <= s.len(),
    ensures
        parse_opt_error(s, pos) is Ok ==> #[trigger] parse_opt_error(s.take(k), pos) == cut(
            parse_opt_error(s, pos),
            k,
        ),
{
    broadcast use lemma_xcm_error_progress, lemma_u32_cut, lemma_xcm_error_cut;

}

/// [`parse_byte_vec`] on a prefix of the input.
pub broadcast proof fn lemma_byte_vec_cut(s: Seq<u8>, pos: int, k: int)
    requires
        0 <= k <= s.len(),
    ensures
        parse_byte_vec(s, pos) is Ok ==> #[trigger] parse_byte_vec(s.take(k), pos) == cut(
            parse_byte_vec(s, pos),
            k,
        ),
{
    broadcast use lemma_compact_progress, lemma_compact_nat_cut, lemma_bytes_cut;

}

/// [`parse_maybe_error_code`] on a prefix of the input.
pub broadcast proof fn lemma_maybe_error_code_cut(s: Seq<u8>, pos: int, k: int)
    requires
        0 <= k <= s.len(),
    ensures
        parse_maybe_error_code(s, pos) is Ok ==> #[trigger] parse_maybe_error_code(s.take(k), pos)
            == cut(parse_maybe_error_code(s, pos), k),
{
    broadcast use lemma_byte_vec_progress, lemma_byte_vec_cut;

}

/// [`parse_pallet_info`] on a prefix of the input.
pub broadcast proof fn lemma_pallet_info_cut(s: Seq<u8>, pos: int, k: int)
    requires
        0 <= k <= s.len(),
    ensures
        parse_pallet_info(s, pos) is Ok ==> #[trigger] parse_pallet_info(s.take(k), pos) == cut(
            parse_pallet_info(s, pos),
            k,
        ),
{
    broadcast use
        lemma_compact_progress,
        lemma_byte_vec_progress,
        lemma_compact_nat_cut,
        lemma_byte_vec_cut,
    ;

}

/// The parser of one pallet info makes progress and is stable under
/// truncation.
proof fn lemma_pallet_info_parser_stable(s: Seq<u8>, k: int)
    requires
        0 <= k <= s.len(),
    ensures
        advances(pallet_info_parser(), s),
        cut_stable(pallet_info_parser(), s, k),
{
    broadcast use lemma_pallet_info_progress, lemma_pallet_info_cut;

}

/// [`parse_pallet_infos`] on a prefix of the input.
pub broadcast proof fn lemma_pallet_infos_cut(s: Seq<u8>, pos: int, k: int)
    requires
        0 <= k <= s.len(),
    ensures
        parse_pallet_infos(s, pos) is Ok ==> #[trigger] parse_pallet_infos(s.take(k), pos) == cut(
            parse_pallet_infos(s, pos),
            k,
        ),
{
    broadcast use lemma_compact_progress, lemma_compact_nat_cut;

    if let Ok((count, p)) = parse_compact(s, pos) {
        lemma_pallet_info_parser_stable(s, k);
        lemma_repeat_bounds(pallet_info_parser(), s, p, count as nat);
        if p <= k {
            lemma_repeat_cut(pallet_info_parser(), s, p, count as nat, k);
        }
    }
}

/// [`parse_response`] on a prefix of the input.
pub broadcast proof fn lemma_response_cut(s: Seq<u8>, pos: int, k: int)
    requires
        0 <= k <= s.len(),
    ensures
        parse_response(s, pos) is Ok ==> #[trigger] parse_response(s.take(k), pos) == cut(
            parse_response(s, pos),
            k,
        ),
{
    broadcast use
        lemma_assets_progress,
        lemma_opt_error_progress,
        lemma_pallet_infos_progress,
        lemma_maybe_error_code_progress,
        lemma_assets_cut,
        lemma_opt_error_cut,
        lemma_u32_cut,
        lemma_pallet_infos_cut,
        lemma_maybe_error_code_cut,
    ;

}

/// [`parse_query_response_info`] on a prefix of the input.
pub broadcast proof fn lemma_query_response_info_cut(s: Seq<u8>, pos: int, k: int)
    requires
        0 <= k <= s.len(),
    ensures
        parse_query_response_info(s, pos) is Ok ==> #[trigger] parse_query_response_info(
            s.take(k),
            pos,
        ) == cut(parse_query_response_info(s, pos), k),
{
    broadcast use
        lemma_location_progress,
        lemma_compact_progress,
        lemma_weight_progress,
        lemma_location_cut,
        lemma_compact_nat_cut,
        lemma_weight_cut,
    ;

}

/// [`parse_hint`] on a prefix of the input.
pub broadcast proof fn lemma_hint_cut(s: Seq<u8>, pos: int, k: int)
    requires
        0 <= k <= s.len(),
    ensures
        parse_hint(s, pos) is Ok ==> #[trigger] parse_hint(s.take(k), pos) == cut(
            parse_hint(s, pos),
            k,
        ),
{
    broadcast use lemma_location_progress, lemma_location_cut;

}

/// The parser of one hint makes progress and is stable under
/// truncation.
proof fn lemma_hint_parser_stable(s: Seq<u8>, k: int)
    requires
        0 <= k <= s.len(),
    ensures
        advances(hint_parser(), s),
        cut_stable(hint_parser(), s, k),
{
    broadcast use lemma_hint_progress, lemma_hint_cut;

}

/// [`parse_hints`] on a prefix of the input.
pub broadcast proof fn lemma_hints_cut(s: Seq<u8>, pos: int, k: int)
    requires
        0 <= k <= s.len(),
    ensures
        parse_hints(s, pos) is Ok ==> #[trigger] parse_hints(s.take(k), pos) == cut(
            parse_hints(s, pos),
            k,
        ),
{
    broadcast use lemma_compact_progress, lemma_compact_nat_cut;

    if let Ok((count, p)) = parse_compact(s, pos) {
        lemma_hint_parser_stable(s, k);
        lemma_repeat_bounds(hint_parser(), s, p, count as nat);
        if p <= k {
            lemma_repeat_cut(hint_parser(), s, p, count as nat, k);
        }
    }
}

/// The truncation lemmas of this module.
pub broadcast group group_cut {
    lemma_bytes_cut,
    lemma_u32_cut,
    lemma_u64_cut,
    lemma_compact_nat_cut,
    lemma_network_id_cut,
    lemma_opt_network_id_cut,
    lemma_body_id_cut,
    lemma_body_part_cut,
    lemma_junction_cut,
    lemma_junctions_cut,
    lemma_location_cut,
    lemma_opt_location_cut,
    lemma_opt_junctions_cut,
    lemma_asset_instance_cut,
    lemma_fungibility_cut,
    lemma_asset_cut,
    lemma_assets_cut,
    lemma_wild_asset_cut,
    lemma_asset_filter_cut,
    lemma_asset_transfer_filter_cut,
    lemma_opt_asset_transfer_filter_cut,
    lemma_asset_transfer_filters_cut,
    lemma_weight_cut,
    lemma_opt_weight_cut,
    lemma_weight_limit_cut,
    lemma_xcm_error_cut,
    lemma_opt_error_cut,
    lemma_byte_vec_cut,
    lemma_maybe_error_code_cut,
    lemma_pallet_info_cut,
    lemma_pallet_infos_cut,
    lemma_response_cut,
    lemma_query_response_info_cut,
    lemma_hint_cut,
    lemma_hints_cut,
}

} // verus!
