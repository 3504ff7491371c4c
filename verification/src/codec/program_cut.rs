//! Truncation of instructions and programs: on a prefix of the input an
//! instruction or program that was read either is read as before or is
//! incomplete.

use vstd::prelude::*;
use crate::codec::wire::{parse_compact, remaining};
use crate::codec::instruction::{
    carries_program, lemma_instruction_progress, lemma_nesting_head_progress, lemma_program_next,
    lemma_program_none, lemma_program_progress, lemma_xcm_progress, parse_instruction,
    parse_nesting_head, parse_plain_a, parse_plain_b, parse_plain_c, parse_plain_d, parse_plain_e,
    parse_plain_f, parse_plain_instruction, parse_program, parse_xcm,
};
use crate::codec::progress::{
    lemma_asset_filter_progress, lemma_asset_progress, lemma_asset_transfer_filters_progress,
    lemma_assets_progress, lemma_byte_vec_progress, lemma_compact_progress, lemma_hints_progress,
    lemma_junction_progress, lemma_junctions_progress, lemma_location_progress,
    lemma_maybe_error_code_progress, lemma_network_id_progress,
    lemma_opt_asset_transfer_filter_progress, lemma_opt_error_progress,
    lemma_opt_junctions_progress, lemma_opt_location_progress, lemma_query_response_info_progress,
    lemma_response_progress, lemma_weight_progress,
};
use crate::codec::cut::{
    cut, lemma_asset_cut, lemma_asset_filter_cut, lemma_asset_transfer_filters_cut,
    lemma_assets_cut, lemma_byte_vec_cut, lemma_bytes_cut, lemma_compact_nat_cut, lemma_hints_cut,
    lemma_junction_cut, lemma_junctions_cut, lemma_location_cut, lemma_maybe_error_code_cut,
    lemma_network_id_cut, lemma_opt_asset_transfer_filter_cut, lemma_opt_error_cut,
    lemma_opt_junctions_cut, lemma_opt_location_cut, lemma_opt_weight_cut,
    lemma_query_response_info_cut, lemma_response_cut, lemma_weight_cut, lemma_weight_limit_cut,
};

verus! {

#[verifier::rlimit(60)]
proof fn lemma_plain_a_cut(s: Seq<u8>, p: int, d: u8, k: int)
    requires
        0 <= p <= k <= s.len(),
    ensures
        parse_plain_a(s, p, d) is Ok
            ==> parse_plain_a(s.take(k), p, d) == cut(parse_plain_a(s, p, d), k),
{
    broadcast use
        lemma_assets_progress,
        lemma_compact_progress,
        lemma_response_progress,
        lemma_weight_progress,
        lemma_opt_location_progress,
        lemma_location_progress,
        lemma_byte_vec_progress,
        lemma_assets_cut,
        lemma_compact_nat_cut,
        lemma_response_cut,
        lemma_weight_cut,
        lemma_opt_location_cut,
        lemma_location_cut,
        lemma_opt_weight_cut,
        lemma_byte_vec_cut,
    ;

    reveal(parse_plain_a);
}

#[verifier::rlimit(60)]
proof fn lemma_plain_b_cut(s: Seq<u8>, p: int, d: u8, k: int)
    requires
        0 <= p <= k <= s.len(),
    ensures
        parse_plain_b(s, p, d) is Ok
            ==> parse_plain_b(s.take(k), p, d) == cut(parse_plain_b(s, p, d), k),
{
    broadcast use
        lemma_compact_progress,
        lemma_junctions_progress,
        lemma_query_response_info_progress,
        lemma_asset_filter_progress,
        lemma_location_progress,
        lemma_assets_progress,
        lemma_compact_nat_cut,
        lemma_junctions_cut,
        lemma_query_response_info_cut,
        lemma_asset_filter_cut,
        lemma_location_cut,
        lemma_assets_cut,
    ;

    reveal(parse_plain_b);
}

#[verifier::rlimit(60)]
proof fn lemma_plain_c_cut(s: Seq<u8>, p: int, d: u8, k: int)
    requires
        0 <= p <= k <= s.len(),
    ensures
        parse_plain_c(s, p, d) is Ok
            ==> parse_plain_c(s.take(k), p, d) == cut(parse_plain_c(s, p, d), k),
{
    broadcast use
        lemma_query_response_info_progress,
        lemma_asset_filter_progress,
        lemma_asset_progress,
        lemma_weight_progress,
        lemma_assets_progress,
        lemma_location_progress,
        lemma_compact_progress,
        lemma_query_response_info_cut,
        lemma_asset_filter_cut,
        lemma_asset_cut,
        lemma_weight_limit_cut,
        lemma_assets_cut,
        lemma_location_cut,
        lemma_compact_nat_cut,
        lemma_weight_cut,
    ;

    reveal(parse_plain_c);
}

#[verifier::rlimit(60)]
proof fn lemma_plain_d_cut(s: Seq<u8>, p: int, d: u8, k: int)
    requires
        0 <= p <= k <= s.len(),
    ensures
        parse_plain_d(s, p, d) is Ok
            ==> parse_plain_d(s.take(k), p, d) == cut(parse_plain_d(s, p, d), k),
{
    broadcast use
        lemma_assets_progress,
        lemma_opt_location_progress,
        lemma_opt_error_progress,
        lemma_maybe_error_code_progress,
        lemma_byte_vec_progress,
        lemma_query_response_info_progress,
        lemma_compact_progress,
        lemma_assets_cut,
        lemma_opt_location_cut,
        lemma_opt_error_cut,
        lemma_maybe_error_code_cut,
        lemma_byte_vec_cut,
        lemma_query_response_info_cut,
        lemma_compact_nat_cut,
    ;

    reveal(parse_plain_d);
}

#[verifier::rlimit(60)]
proof fn lemma_plain_e_cut(s: Seq<u8>, p: int, d: u8, k: int)
    requires
        0 <= p <= k <= s.len(),
    ensures
        parse_plain_e(s, p, d) is Ok
            ==> parse_plain_e(s.take(k), p, d) == cut(parse_plain_e(s, p, d), k),
{
    broadcast use
        lemma_junction_progress,
        lemma_asset_progress,
        lemma_location_progress,
        lemma_junction_cut,
        lemma_asset_cut,
        lemma_location_cut,
    ;

    reveal(parse_plain_e);
}

#[verifier::rlimit(60)]
proof fn lemma_plain_f_cut(s: Seq<u8>, p: int, d: u8, k: int)
    requires
        0 <= p <= k <= s.len(),
    ensures
        parse_plain_f(s, p, d) is Ok
            ==> parse_plain_f(s.take(k), p, d) == cut(parse_plain_f(s, p, d), k),
{
    broadcast use
        lemma_location_progress,
        lemma_weight_progress,
        lemma_opt_location_progress,
        lemma_asset_progress,
        lemma_hints_progress,
        lemma_bytes_cut,
        lemma_location_cut,
        lemma_weight_limit_cut,
        lemma_opt_location_cut,
        lemma_asset_cut,
        lemma_hints_cut,
    ;

    reveal(parse_plain_f);
}

/// An instruction without a nested program, on a prefix of the input.
pub proof fn lemma_plain_instruction_cut(s: Seq<u8>, p: int, d: u8, k: int)
    requires
        0 <= p <= k <= s.len(),
    ensures
        parse_plain_instruction(s, p, d) is Ok ==> parse_plain_instruction(s.take(k), p, d) == cut(
            parse_plain_instruction(s, p, d),
            k,
        ),
{
    lemma_plain_a_cut(s, p, d, k);
    lemma_plain_b_cut(s, p, d, k);
    lemma_plain_c_cut(s, p, d, k);
    lemma_plain_d_cut(s, p, d, k);
    lemma_plain_e_cut(s, p, d, k);
    lemma_plain_f_cut(s, p, d, k);
}

#[verifier::rlimit(60)]
proof fn lemma_nesting_head_5_cut(s: Seq<u8>, p: int, k: int)
    requires
        0 <= p <= k <= s.len(),
    ensures
        parse_nesting_head(s, p, 5) is Ok ==> parse_nesting_head(s.take(k), p, 5) == cut(
            parse_nesting_head(s, p, 5),
            k,
        ),
{
    broadcast use
        lemma_assets_progress,
        lemma_location_progress,
        lemma_assets_cut,
        lemma_location_cut,
    ;

    reveal(parse_nesting_head);
}

#[verifier::rlimit(60)]
proof fn lemma_nesting_head_14_cut(s: Seq<u8>, p: int, k: int)
    requires
        0 <= p <= k <= s.len(),
    ensures
        parse_nesting_head(s, p, 14) is Ok ==> parse_nesting_head(s.take(k), p, 14) == cut(
            parse_nesting_head(s, p, 14),
            k,
        ),
{
    broadcast use
        lemma_asset_filter_progress,
        lemma_location_progress,
        lemma_asset_filter_cut,
        lemma_location_cut,
    ;

    reveal(parse_nesting_head);
}

#[verifier::rlimit(60)]
proof fn lemma_nesting_head_16_cut(s: Seq<u8>, p: int, k: int)
    requires
        0 <= p <= k <= s.len(),
    ensures
        parse_nesting_head(s, p, 16) is Ok ==> parse_nesting_head(s.take(k), p, 16) == cut(
            parse_nesting_head(s, p, 16),
            k,
        ),
{
    broadcast use
        lemma_asset_filter_progress,
        lemma_location_progress,
        lemma_asset_filter_cut,
        lemma_location_cut,
    ;

    reveal(parse_nesting_head);
}

#[verifier::rlimit(60)]
proof fn lemma_nesting_head_17_cut(s: Seq<u8>, p: int, k: int)
    requires
        0 <= p <= k <= s.len(),
    ensures
        parse_nesting_head(s, p, 17) is Ok ==> parse_nesting_head(s.take(k), p, 17) == cut(
            parse_nesting_head(s, p, 17),
            k,
        ),
{
    broadcast use
        lemma_asset_filter_progress,
        lemma_location_progress,
        lemma_asset_filter_cut,
        lemma_location_cut,
    ;

    reveal(parse_nesting_head);
}

#[verifier::rlimit(60)]
proof fn lemma_nesting_head_21_cut(s: Seq<u8>, p: int, k: int)
    requires
        0 <= p <= k <= s.len(),
    ensures
        parse_nesting_head(s, p, 21) is Ok ==> parse_nesting_head(s.take(k), p, 21) == cut(
            parse_nesting_head(s, p, 21),
            k,
        ),
{
    reveal(parse_nesting_head);
}

#[verifier::rlimit(60)]
proof fn lemma_nesting_head_22_cut(s: Seq<u8>, p: int, k: int)
    requires
        0 <= p <= k <= s.len(),
    ensures
        parse_nesting_head(s, p, 22) is Ok ==> parse_nesting_head(s.take(k), p, 22) == cut(
            parse_nesting_head(s, p, 22),
            k,
        ),
{
    reveal(parse_nesting_head);
}

#[verifier::rlimit(60)]
proof fn lemma_nesting_head_38_cut(s: Seq<u8>, p: int, k: int)
    requires
        0 <= p <= k <= s.len(),
    ensures
        parse_nesting_head(s, p, 38) is Ok ==> parse_nesting_head(s.take(k), p, 38) == cut(
            parse_nesting_head(s, p, 38),
            k,
        ),
{
    broadcast use
        lemma_network_id_progress,
        lemma_junctions_progress,
        lemma_network_id_cut,
        lemma_junctions_cut,
    ;

    reveal(parse_nesting_head);
}

#[verifier::rlimit(60)]
proof fn lemma_nesting_head_49_cut(s: Seq<u8>, p: int, k: int)
    requires
        0 <= p <= k <= s.len(),
    ensures
        parse_nesting_head(s, p, 49) is Ok ==> parse_nesting_head(s.take(k), p, 49) == cut(
            parse_nesting_head(s, p, 49),
            k,
        ),
{
    broadcast use
        lemma_location_progress,
        lemma_opt_asset_transfer_filter_progress,
        lemma_asset_transfer_filters_progress,
        lemma_location_cut,
        lemma_opt_asset_transfer_filter_cut,
        lemma_asset_transfer_filters_cut,
    ;

    reveal(parse_nesting_head);
}

#[verifier::rlimit(60)]
proof fn lemma_nesting_head_50_cut(s: Seq<u8>, p: int, k: int)
    requires
        0 <= p <= k <= s.len(),
    ensures
        parse_nesting_head(s, p, 50) is Ok ==> parse_nesting_head(s.take(k), p, 50) == cut(
            parse_nesting_head(s, p, 50),
            k,
        ),
{
    broadcast use lemma_opt_junctions_progress, lemma_opt_junctions_cut;

    reveal(parse_nesting_head);
}

/// The fields before a nested program, on a prefix of the input.
pub proof fn lemma_nesting_head_cut(s: Seq<u8>, p: int, d: u8, k: int)
    requires
        0 <= p <= k <= s.len(),
    ensures
        parse_nesting_head(s, p, d) is Ok ==> parse_nesting_head(s.take(k), p, d) == cut(
            parse_nesting_head(s, p, d),
            k,
        ),
{
    if d == 5 {
        lemma_nesting_head_5_cut(s, p, k);
    } else if d == 14 {
        lemma_nesting_head_14_cut(s, p, k);
    } else if d == 16 {
        lemma_nesting_head_16_cut(s, p, k);
    } else if d == 17 {
        lemma_nesting_head_17_cut(s, p, k);
    } else if d == 21 {
        lemma_nesting_head_21_cut(s, p, k);
    } else if d == 22 {
        lemma_nesting_head_22_cut(s, p, k);
    } else if d == 38 {
        lemma_nesting_head_38_cut(s, p, k);
    } else if d == 49 {
        lemma_nesting_head_49_cut(s, p, k);
    } else if d == 50 {
        lemma_nesting_head_50_cut(s, p, k);
    } else {
        reveal(parse_nesting_head);
    }
}

/// An instruction on a prefix of the input.
pub proof fn lemma_instruction_cut(s: Seq<u8>, pos: int, k: int)
    requires
        0 <= k <= s.len(),
    ensures
        parse_instruction(s, pos) is Ok ==> parse_instruction(s.take(k), pos) == cut(
            parse_instruction(s, pos),
            k,
        ),
    decreases remaining(s, pos), 0nat,
{
    lemma_instruction_progress(s, pos);
    if 0 <= pos < k {
        let d = s[pos];
        if carries_program(d) {
            lemma_nesting_head_cut(s, pos + 1, d, k);
            lemma_nesting_head_progress(s, pos + 1, d);
            if let Ok((head, q)) = parse_nesting_head(s, pos + 1, d) {
                lemma_xcm_progress(s, q);
                lemma_xcm_cut(s, q, k);
            }
        } else {
            lemma_plain_instruction_cut(s, pos + 1, d, k);
        }
    }
}

/// A program on a prefix of the input.
pub proof fn lemma_xcm_cut(s: Seq<u8>, pos: int, k: int)
    requires
        0 <= k <= s.len(),
    ensures
        parse_xcm(s, pos) is Ok ==> parse_xcm(s.take(k), pos) == cut(parse_xcm(s, pos), k),
    decreases remaining(s, pos), 0nat,
{
    broadcast use lemma_compact_progress, lemma_compact_nat_cut;

    if let Ok((count, p)) = parse_compact(s, pos) {
        lemma_program_progress(s, p, count as nat);
        if p <= k {
            lemma_program_cut(s, p, count as nat, k);
        }
    }
}

/// A run of `n` instructions on a prefix of the input.
pub proof fn lemma_program_cut(s: Seq<u8>, pos: int, n: nat, k: int)
    requires
        0 <= pos <= k <= s.len(),
    ensures
        parse_program(s, pos, n) is Ok ==> parse_program(s.take(k), pos, n) == cut(
            parse_program(s, pos, n),
            k,
        ),
    decreases remaining(s, pos), n + 1,
{
    if n == 0 {
        lemma_program_none(s, pos);
        lemma_program_none(s.take(k), pos);
    } else {
        let m = (n - 1) as nat;
        lemma_program_next(s, pos, m);
        lemma_program_next(s.take(k), pos, m);
        lemma_program_cut(s, pos, m, k);
        lemma_program_progress(s, pos, m);
        lemma_program_progress(s, pos, n);
        if let Ok((items, p)) = parse_program(s, pos, m) {
            lemma_instruction_progress(s, p);
            lemma_instruction_cut(s, p, k);
        }
    }
}

} // verus!
