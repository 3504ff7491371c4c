//! Laws of the grammar and of the text, proved of every input.

use vstd::prelude::*;
use crate::error::{DecodeError, Kind, Parsed, is_incomplete};
use crate::codec::instruction::{
    lemma_program_err, lemma_program_next, parse_instruction, parse_program, parse_xcm,
};
use crate::codec::junction::{
    junction_parser, lemma_repeat_next, lemma_repeat_none, parse_junction, parse_junctions,
    parse_repeat,
};
use crate::codec::wire::parse_compact;
use crate::codec::asset::{
    asset_parser, asset_transfer_filter_parser, parse_asset_transfer_filters, parse_assets,
};
use crate::codec::response::{
    hint_parser, pallet_info_parser, parse_byte_vec, parse_hints, parse_pallet_infos,
};
use crate::codec::envelope::parse_bridge_message;
use crate::codec::progress::{advances, group_progress, lemma_compact_progress, lemma_repeat_bounds};
use crate::codec::cut::{
    lemma_asset_transfer_filters_cut, lemma_assets_cut, lemma_byte_vec_cut, lemma_hints_cut,
    lemma_junctions_cut, lemma_pallet_infos_cut,
};
use crate::codec::program_cut::lemma_xcm_cut;
use crate::codec::instruction::{lemma_program_progress, lemma_xcm_progress};

use crate::model::instruction::InstructionView;
use crate::model::junction::JunctionView;
use crate::text::basic::{decimal, hex_text};
use crate::text::junction::junction_text;

verus! {

/// Where the item at index `i` of a repetition begins: where the first `i`
/// items end.
pub open spec fn item_start<T>(
    elem: spec_fn(Seq<u8>, int) -> Parsed<T>,
    s: Seq<u8>,
    pos: int,
    i: nat,
) -> int {
    match parse_repeat(elem, s, pos, i) {
        Ok((_, p)) => p,
        Err(_) => pos,
    }
}

/// A repetition that succeeds reads its items one after the other: each
/// shorter repetition yields the first items, and the item at index `i` is
/// what `elem` reads where the first `i` items end.
pub proof fn law_repeat_reads_each_item<T>(
    elem: spec_fn(Seq<u8>, int) -> Parsed<T>,
    s: Seq<u8>,
    pos: int,
    n: nat,
    i: nat,
)
    requires
        parse_repeat(elem, s, pos, n) is Ok,
        i < n,
    ensures
        ({
            let items = parse_repeat(elem, s, pos, n)->Ok_0.0;
            &&& items.len() == n
            &&& parse_repeat(elem, s, pos, i) == Ok::<_, DecodeError>(
                (items.take(i as int), item_start(elem, s, pos, i)),
            )
            &&& elem(s, item_start(elem, s, pos, i)) == Ok::<_, DecodeError>(
                (items[i as int], item_start(elem, s, pos, i + 1)),
            )
            &&& item_start(elem, s, pos, 0) == pos
            &&& item_start(elem, s, pos, n) == parse_repeat(elem, s, pos, n)->Ok_0.1
        }),
    decreases n,
{
    lemma_repeat_none(elem, s, pos);
    lemma_repeat_next(elem, s, pos, (n - 1) as nat);
    let shorter = parse_repeat(elem, s, pos, (n - 1) as nat)->Ok_0.0;
    let items = parse_repeat(elem, s, pos, n)->Ok_0.0;
    if n == 1 {
        assert(items.take(0) =~= Seq::<T>::empty());
    } else if i + 1 < n {
        law_repeat_reads_each_item(elem, s, pos, (n - 1) as nat, i);
        assert(items.take(i as int) =~= shorter.take(i as int));
    } else {
        law_repeat_reads_each_item(elem, s, pos, (n - 1) as nat, (n - 2) as nat);
        assert(items.take(i as int) =~= shorter);
    }
}

/// Junctions of arity `n` are read as exactly `n` junctions, one after the
/// other from behind the discriminant, and as many are returned.
pub proof fn law_junctions_arity(s: Seq<u8>, pos: int, i: nat)
    requires
        parse_junctions(s, pos) is Ok,
        i < s[pos],
    ensures
        ({
            let (items, end) = parse_junctions(s, pos)->Ok_0;
            let n = s[pos] as nat;
            &&& 1 <= n <= 8
            &&& items.len() == n
            &&& parse_junction(s, item_start(junction_parser(), s, pos + 1, i)) == Ok::<
                _,
                DecodeError,
            >((items[i as int], item_start(junction_parser(), s, pos + 1, i + 1)))
            &&& item_start(junction_parser(), s, pos + 1, 0) == pos + 1
            &&& item_start(junction_parser(), s, pos + 1, n) == end
        }),
{
    law_repeat_reads_each_item(junction_parser(), s, pos + 1, s[pos] as nat, i);
}

/// Junctions of arity zero take one byte, whatever follows it.
pub proof fn law_here_takes_one_byte(s: Seq<u8>, pos: int)
    requires
        0 <= pos < s.len(),
        s[pos] == 0,
    ensures
        parse_junctions(s, pos) == Ok::<_, DecodeError>((Seq::<JunctionView>::empty(), pos + 1)),
{
    lemma_repeat_none(junction_parser(), s, pos + 1);
}

/// The text of a general key whose length is at most 32 shows the first
/// `length` bytes of its data and no other: two keys that agree on those
/// bytes have the same text.
pub proof fn law_general_key_text(length: u8, data: Seq<u8>, other: Seq<u8>)
    requires
        length <= 32,
        data.len() == 32,
        other.len() == 32,
        data.take(length as int) == other.take(length as int),
    ensures
        junction_text(JunctionView::GeneralKey { length, data }) == "GeneralKey { length: "@
            + decimal(length as nat) + ", data: "@ + hex_text(data.take(length as int)) + " }"@,
        junction_text(JunctionView::GeneralKey { length, data }) == junction_text(
            JunctionView::GeneralKey { length, data: other },
        ),
        hex_text(data.take(length as int)).len() == "0x"@.len() + 2 * length,
{
}

/// A discriminant beyond the last instruction is reported as an unknown
/// variant.
pub proof fn law_unknown_instruction(s: Seq<u8>, pos: int)
    requires
        0 <= pos < s.len(),
        s[pos] >= 52,
    ensures
        parse_instruction(s, pos) == Err::<(InstructionView, int), _>(
            DecodeError::UnknownVariant(Kind::Instruction, s[pos]),
        ),
{
}

/// A program in which an instruction has an unknown discriminant is not
/// read in part: the whole program is reported as that unknown variant.
pub proof fn law_unknown_instruction_fails_program(s: Seq<u8>, pos: int, i: nat)
    requires
        parse_compact(s, pos) is Ok,
        i < parse_compact(s, pos)->Ok_0.0,
        parse_program(s, parse_compact(s, pos)->Ok_0.1, i) is Ok,
        ({
            let at = parse_program(s, parse_compact(s, pos)->Ok_0.1, i)->Ok_0.1;
            0 <= at < s.len() && s[at] >= 52
        }),
    ensures
        ({
            let at = parse_program(s, parse_compact(s, pos)->Ok_0.1, i)->Ok_0.1;
            parse_xcm(s, pos) == Err::<(Seq<InstructionView>, int), _>(
                DecodeError::UnknownVariant(Kind::Instruction, s[at]),
            )
        }),
{
    let (count, start) = parse_compact(s, pos)->Ok_0;
    let at = parse_program(s, start, i)->Ok_0.1;
    law_unknown_instruction(s, at);
    lemma_program_progress(s, start, i);
    lemma_program_next(s, start, i);
    lemma_program_err(s, start, i + 1, count as nat);
}

/// Assets that are read are as many as their count says, and on an input
/// cut anywhere before their end, the last asset included, they are
/// incomplete: never fewer assets.
pub proof fn law_assets_truncated(s: Seq<u8>, pos: int, k: int)
    requires
        parse_assets(s, pos) is Ok,
        0 <= k < parse_assets(s, pos)->Ok_0.1,
    ensures
        parse_assets(s, pos)->Ok_0.0.len() == parse_compact(s, pos)->Ok_0.0,
        is_incomplete(parse_assets(s.take(k), pos)),
{
    broadcast use group_progress;

    let (count, p) = parse_compact(s, pos)->Ok_0;
    assert(advances(asset_parser(), s));
    lemma_repeat_bounds(asset_parser(), s, p, count as nat);
    lemma_assets_cut(s, pos, k);
}

/// A program that is read holds as many instructions as its count says,
/// and on an input cut anywhere before its end, the last instruction
/// included, it is incomplete: never a shorter program.
pub proof fn law_program_truncated(s: Seq<u8>, pos: int, k: int)
    requires
        parse_xcm(s, pos) is Ok,
        0 <= k < parse_xcm(s, pos)->Ok_0.1,
    ensures
        parse_xcm(s, pos)->Ok_0.0.len() == parse_compact(s, pos)->Ok_0.0,
        is_incomplete(parse_xcm(s.take(k), pos)),
{
    broadcast use lemma_compact_progress;

    let (count, p) = parse_compact(s, pos)->Ok_0;
    lemma_program_progress(s, p, count as nat);
    lemma_xcm_progress(s, pos);
    lemma_xcm_cut(s, pos, k);
}

/// Transfer filters, as [`law_assets_truncated`] has it of assets.
pub proof fn law_asset_transfer_filters_truncated(s: Seq<u8>, pos: int, k: int)
    requires
        parse_asset_transfer_filters(s, pos) is Ok,
        0 <= k < parse_asset_transfer_filters(s, pos)->Ok_0.1,
    ensures
        parse_asset_transfer_filters(s, pos)->Ok_0.0.len() == parse_compact(s, pos)->Ok_0.0,
        is_incomplete(parse_asset_transfer_filters(s.take(k), pos)),
{
    broadcast use group_progress;

    let (count, p) = parse_compact(s, pos)->Ok_0;
    assert(advances(asset_transfer_filter_parser(), s));
    lemma_repeat_bounds(asset_transfer_filter_parser(), s, p, count as nat);
    lemma_asset_transfer_filters_cut(s, pos, k);
}

/// Pallet descriptions, as [`law_assets_truncated`] has it of assets.
pub proof fn law_pallet_infos_truncated(s: Seq<u8>, pos: int, k: int)
    requires
        parse_pallet_infos(s, pos) is Ok,
        0 <= k < parse_pallet_infos(s, pos)->Ok_0.1,
    ensures
        parse_pallet_infos(s, pos)->Ok_0.0.len() == parse_compact(s, pos)->Ok_0.0,
        is_incomplete(parse_pallet_infos(s.take(k), pos)),
{
    broadcast use group_progress;

    let (count, p) = parse_compact(s, pos)->Ok_0;
    assert(advances(pallet_info_parser(), s));
    lemma_repeat_bounds(pallet_info_parser(), s, p, count as nat);
    lemma_pallet_infos_cut(s, pos, k);
}

/// Hints, as [`law_assets_truncated`] has it of assets.
pub proof fn law_hints_truncated(s: Seq<u8>, pos: int, k: int)
    requires
        parse_hints(s, pos) is Ok,
        0 <= k < parse_hints(s, pos)->Ok_0.1,
    ensures
        parse_hints(s, pos)->Ok_0.0.len() == parse_compact(s, pos)->Ok_0.0,
        is_incomplete(parse_hints(s.take(k), pos)),
{
    broadcast use group_progress;

    let (count, p) = parse_compact(s, pos)->Ok_0;
    assert(advances(hint_parser(), s));
    lemma_repeat_bounds(hint_parser(), s, p, count as nat);
    lemma_hints_cut(s, pos, k);
}

/// Bytes behind a length, as [`law_assets_truncated`] has it of assets.
pub proof fn law_byte_vec_truncated(s: Seq<u8>, pos: int, k: int)
    requires
        parse_byte_vec(s, pos) is Ok,
        0 <= k < parse_byte_vec(s, pos)->Ok_0.1,
    ensures
        parse_byte_vec(s, pos)->Ok_0.0.len() == parse_compact(s, pos)->Ok_0.0,
        is_incomplete(parse_byte_vec(s.take(k), pos)),
{
    broadcast use group_progress;

    lemma_byte_vec_cut(s, pos, k);
}

/// A bridged message of version 5 on an input cut anywhere before its end
/// is incomplete: no part of it is returned.
pub proof fn law_bridge_message_truncated(s: Seq<u8>, pos: int, k: int)
    requires
        parse_bridge_message(s, pos) is Ok,
        parse_bridge_message(s, pos)->Ok_0.0.universal_dest is V5,
        parse_bridge_message(s, pos)->Ok_0.0.message is V5,
        0 <= k < parse_bridge_message(s, pos)->Ok_0.1,
    ensures
        is_incomplete(parse_bridge_message(s.take(k), pos)),
{
    broadcast use group_progress;

    let mid = parse_junctions(s, pos + 1)->Ok_0.1;
    lemma_xcm_progress(s, mid + 1);
    if 0 <= pos < k {
        lemma_junctions_cut(s, pos + 1, k);
        if mid < k {
            lemma_xcm_cut(s, mid + 1, k);
        }
    }
}

} // verus!
