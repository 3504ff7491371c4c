//! The grammar of locations.

use vstd::prelude::*;
use crate::error::{DecodeError, Decoded, Kind, Parsed, decoded, decoded_opt};
use crate::codec::wire::{
    decode_array, decode_compact, decode_compact_u32, decode_compact_u64, decode_u64, decode_u8,
    decode_variant, parse_bytes, parse_compact, parse_compact_u32, parse_compact_u64, parse_u64,
    parse_u8, parse_variant,
};
use crate::model::junction::{
    BodyId, BodyIdView, BodyPart, Junction, JunctionView, Junctions, Location, LocationView,
    NetworkId, NetworkIdView, views,
};

verus! {

/// `n` elements one after the other, each read by `elem`.
#[verifier::opaque]
pub open spec fn parse_repeat<T>(
    elem: spec_fn(Seq<u8>, int) -> Parsed<T>,
    s: Seq<u8>,
    pos: int,
    n: nat,
) -> Parsed<Seq<T>>
    decreases n,
{
    if n == 0 {
        Ok((Seq::empty(), pos))
    } else {
        match parse_repeat(elem, s, pos, (n - 1) as nat) {
            Err(e) => Err(e),
            Ok((items, p)) => match elem(s, p) {
                Err(e) => Err(e),
                Ok((item, q)) => Ok((items.push(item), q)),
            },
        }
    }
}

/// A repetition of no element reads nothing.
pub proof fn lemma_repeat_none<T>(elem: spec_fn(Seq<u8>, int) -> Parsed<T>, s: Seq<u8>, pos: int)
    ensures
        parse_repeat(elem, s, pos, 0) == Ok::<_, DecodeError>((Seq::<T>::empty(), pos)),
{
    reveal(parse_repeat);
}

/// A repetition of `n + 1` elements is one of `n` followed by one more.
pub proof fn lemma_repeat_next<T>(
    elem: spec_fn(Seq<u8>, int) -> Parsed<T>,
    s: Seq<u8>,
    pos: int,
    n: nat,
)
    ensures
        parse_repeat(elem, s, pos, n + 1) == match parse_repeat(elem, s, pos, n) {
            Err(e) => Err(e),
            Ok((items, p)) => match elem(s, p) {
                Err(e) => Err(e),
                Ok((item, q)) => Ok((items.push(item), q)),
            },
        },
{
    reveal(parse_repeat);
}

/// The views of a sequence with one more element.
pub proof fn lemma_views_push<T: View>(items: Seq<T>, item: T)
    ensures
        views(items.push(item)) == views(items).push(item@),
        views(Seq::<T>::empty()) == Seq::<T::V>::empty(),
{
    assert(views(items.push(item)) =~= views(items).push(item@));
    assert(views(Seq::<T>::empty()) =~= Seq::<T::V>::empty());
}

/// Once a prefix of a repetition fails, every longer repetition fails alike.
pub proof fn lemma_repeat_err<T>(
    elem: spec_fn(Seq<u8>, int) -> Parsed<T>,
    s: Seq<u8>,
    pos: int,
    i: nat,
    n: nat,
)
    requires
        i <= n,
        parse_repeat(elem, s, pos, i) is Err,
    ensures
        parse_repeat(elem, s, pos, n) == parse_repeat(elem, s, pos, i),
    decreases n - i,
{
    if i < n {
        lemma_repeat_err(elem, s, pos, i, (n - 1) as nat);
        lemma_repeat_next(elem, s, pos, (n - 1) as nat);
    }
}

/// A network: its discriminant, then the fields of that variant.
pub open spec fn parse_network_id(s: Seq<u8>, pos: int) -> Parsed<NetworkIdView> {
    match parse_variant(s, pos, Kind::NetworkId, 11) {
        Err(e) => Err(e),
        Ok((d, p)) => match d {
            0 => match parse_bytes(s, p, 32) {
                Err(e) => Err(e),
                Ok((hash, q)) => Ok((NetworkIdView::ByGenesis(hash), q)),
            },
            1 => match parse_u64(s, p) {
                Err(e) => Err(e),
                Ok((block_number, q)) => match parse_bytes(s, q, 32) {
                    Err(e) => Err(e),
                    Ok((block_hash, r)) => Ok(
                        (NetworkIdView::ByFork { block_number, block_hash }, r),
                    ),
                },
            },
            2 => Ok((NetworkIdView::Polkadot, p)),
            3 => Ok((NetworkIdView::Kusama, p)),
            7 => match parse_compact_u64(s, p) {
                Err(e) => Err(e),
                Ok((chain_id, q)) => Ok((NetworkIdView::Ethereum { chain_id }, q)),
            },
            8 => Ok((NetworkIdView::BitcoinCore, p)),
            9 => Ok((NetworkIdView::BitcoinCash, p)),
            10 => Ok((NetworkIdView::PolkadotBulletin, p)),
            _ => Err(DecodeError::UnknownVariant(Kind::NetworkId, d)),
        },
    }
}

/// An optional network: absent, or present and followed by it.
pub open spec fn parse_opt_network_id(s: Seq<u8>, pos: int) -> Parsed<Option<NetworkIdView>> {
    match parse_variant(s, pos, Kind::Option, 2) {
        Err(e) => Err(e),
        Ok((d, p)) => if d == 0 {
            Ok((None, p))
        } else {
            match parse_network_id(s, p) {
                Err(e) => Err(e),
                Ok((n, q)) => Ok((Some(n), q)),
            }
        },
    }
}

/// A body: its discriminant, then the fields of that variant.
pub open spec fn parse_body_id(s: Seq<u8>, pos: int) -> Parsed<BodyIdView> {
    match parse_variant(s, pos, Kind::BodyId, 10) {
        Err(e) => Err(e),
        Ok((d, p)) => match d {
            0 => Ok((BodyIdView::Unit, p)),
            1 => match parse_bytes(s, p, 4) {
                Err(e) => Err(e),
                Ok((name, q)) => Ok((BodyIdView::Moniker(name), q)),
            },
            2 => match parse_compact_u32(s, p) {
                Err(e) => Err(e),
                Ok((i, q)) => Ok((BodyIdView::Index(i), q)),
            },
            3 => Ok((BodyIdView::Executive, p)),
            4 => Ok((BodyIdView::Technical, p)),
            5 => Ok((BodyIdView::Legislative, p)),
            6 => Ok((BodyIdView::Judicial, p)),
            7 => Ok((BodyIdView::Defense, p)),
            8 => Ok((BodyIdView::Administration, p)),
            _ => Ok((BodyIdView::Treasury, p)),
        },
    }
}

/// Two compact 32-bit integers: a numerator and a denominator.
pub open spec fn parse_ratio(s: Seq<u8>, pos: int) -> Parsed<(u32, u32)> {
    match parse_compact_u32(s, pos) {
        Err(e) => Err(e),
        Ok((nom, q)) => match parse_compact_u32(s, q) {
            Err(e) => Err(e),
            Ok((denom, r)) => Ok(((nom, denom), r)),
        },
    }
}

/// A part of a body: its discriminant, then the fields of that variant.
pub open spec fn parse_body_part(s: Seq<u8>, pos: int) -> Parsed<BodyPart> {
    match parse_variant(s, pos, Kind::BodyPart, 5) {
        Err(e) => Err(e),
        Ok((d, p)) => match d {
            0 => Ok((BodyPart::Voice, p)),
            1 => match parse_compact_u32(s, p) {
                Err(e) => Err(e),
                Ok((count, q)) => Ok((BodyPart::Members { count }, q)),
            },
            2 => match parse_ratio(s, p) {
                Err(e) => Err(e),
                Ok((f, q)) => Ok((BodyPart::Fraction { nom: f.0, denom: f.1 }, q)),
            },
            3 => match parse_ratio(s, p) {
                Err(e) => Err(e),
                Ok((f, q)) => Ok((BodyPart::AtLeastProportion { nom: f.0, denom: f.1 }, q)),
            },
            _ => match parse_ratio(s, p) {
                Err(e) => Err(e),
                Ok((f, q)) => Ok((BodyPart::MoreThanProportion { nom: f.0, denom: f.1 }, q)),
            },
        },
    }
}

/// A junction: its discriminant, then the fields of that variant.
pub open spec fn parse_junction(s: Seq<u8>, pos: int) -> Parsed<JunctionView> {
    match parse_variant(s, pos, Kind::Junction, 10) {
        Err(e) => Err(e),
        Ok((d, p)) => match d {
            0 => match parse_compact_u32(s, p) {
                Err(e) => Err(e),
                Ok((id, q)) => Ok((JunctionView::Parachain(id), q)),
            },
            1 => match parse_opt_network_id(s, p) {
                Err(e) => Err(e),
                Ok((network, q)) => match parse_bytes(s, q, 32) {
                    Err(e) => Err(e),
                    Ok((id, r)) => Ok((JunctionView::AccountId32 { network, id }, r)),
                },
            },
            2 => match parse_opt_network_id(s, p) {
                Err(e) => Err(e),
                Ok((network, q)) => match parse_compact_u64(s, q) {
                    Err(e) => Err(e),
                    Ok((index, r)) => Ok((JunctionView::AccountIndex64 { network, index }, r)),
                },
            },
            3 => match parse_opt_network_id(s, p) {
                Err(e) => Err(e),
                Ok((network, q)) => match parse_bytes(s, q, 20) {
                    Err(e) => Err(e),
                    Ok((key, r)) => Ok((JunctionView::AccountKey20 { network, key }, r)),
                },
            },
            4 => match parse_u8(s, p) {
                Err(e) => Err(e),
                Ok((i, q)) => Ok((JunctionView::PalletInstance(i), q)),
            },
            5 => match parse_compact(s, p) {
                Err(e) => Err(e),
                Ok((i, q)) => Ok((JunctionView::GeneralIndex(i), q)),
            },
            6 => match parse_u8(s, p) {
                Err(e) => Err(e),
                Ok((length, q)) => match parse_bytes(s, q, 32) {
                    Err(e) => Err(e),
                    Ok((data, r)) => Ok((JunctionView::GeneralKey { length, data }, r)),
                },
            },
            7 => Ok((JunctionView::OnlyChild, p)),
            8 => match parse_body_id(s, p) {
                Err(e) => Err(e),
                Ok((id, q)) => match parse_body_part(s, q) {
                    Err(e) => Err(e),
                    Ok((part, r)) => Ok((JunctionView::Plurality { id, part }, r)),
                },
            },
            _ => match parse_network_id(s, p) {
                Err(e) => Err(e),
                Ok((network, q)) => Ok((JunctionView::GlobalConsensus(network), q)),
            },
        },
    }
}

/// The parser of one junction, as a value.
pub open spec fn junction_parser() -> spec_fn(Seq<u8>, int) -> Parsed<JunctionView> {
    |s: Seq<u8>, pos: int| parse_junction(s, pos)
}

/// The discriminant gives the number of junctions; that many follow, with no
/// length prefix.
pub open spec fn parse_junctions(s: Seq<u8>, pos: int) -> Parsed<Seq<JunctionView>> {
    match parse_variant(s, pos, Kind::Junctions, 9) {
        Err(e) => Err(e),
        Ok((n, p)) => parse_repeat(junction_parser(), s, p, n as nat),
    }
}

/// A location: its fields in their order.
pub open spec fn parse_location(s: Seq<u8>, pos: int) -> Parsed<LocationView> {
    match parse_u8(s, pos) {
        Err(e) => Err(e),
        Ok((parents, p)) => match parse_junctions(s, p) {
            Err(e) => Err(e),
            Ok((interior, q)) => Ok((LocationView { parents, interior }, q)),
        },
    }
}

/// An optional location: absent, or present and followed by it.
pub open spec fn parse_opt_location(s: Seq<u8>, pos: int) -> Parsed<Option<LocationView>> {
    match parse_variant(s, pos, Kind::Option, 2) {
        Err(e) => Err(e),
        Ok((d, p)) => if d == 0 {
            Ok((None, p))
        } else {
            match parse_location(s, p) {
                Err(e) => Err(e),
                Ok((l, q)) => Ok((Some(l), q)),
            }
        },
    }
}

/// Optional junctions: absent, or present and followed by them.
pub open spec fn parse_opt_junctions(s: Seq<u8>, pos: int) -> Parsed<Option<Seq<JunctionView>>> {
    match parse_variant(s, pos, Kind::Option, 2) {
        Err(e) => Err(e),
        Ok((d, p)) => if d == 0 {
            Ok((None, p))
        } else {
            match parse_junctions(s, p) {
                Err(e) => Err(e),
                Ok((j, q)) => Ok((Some(j), q)),
            }
        },
    }
}

/// Reads a network that begins at `pos`.
pub fn decode_network_id(input: &[u8], pos: usize) -> (r: Decoded<NetworkId>)
    ensures
        decoded(r) == parse_network_id(input@, pos as int),
{
    let (d, p) = decode_variant(input, pos, Kind::NetworkId, 11)?;
    match d {
        0 => {
            let (hash, q) = decode_array::<32>(input, p)?;
            Ok((NetworkId::ByGenesis(hash), q))
        },
        1 => {
            let (block_number, q) = decode_u64(input, p)?;
            let (block_hash, r) = decode_array::<32>(input, q)?;
            Ok((NetworkId::ByFork { block_number, block_hash }, r))
        },
        2 => Ok((NetworkId::Polkadot, p)),
        3 => Ok((NetworkId::Kusama, p)),
        7 => {
            let (chain_id, q) = decode_compact_u64(input, p)?;
            Ok((NetworkId::Ethereum { chain_id }, q))
        },
        8 => Ok((NetworkId::BitcoinCore, p)),
        9 => Ok((NetworkId::BitcoinCash, p)),
        10 => Ok((NetworkId::PolkadotBulletin, p)),
        _ => Err(DecodeError::UnknownVariant(Kind::NetworkId, d)),
    }
}

/// Reads an optional network that begins at `pos`.
pub fn decode_opt_network_id(input: &[u8], pos: usize) -> (r: Decoded<Option<NetworkId>>)
    ensures
        decoded_opt(r) == parse_opt_network_id(input@, pos as int),
{
    let (d, p) = decode_variant(input, pos, Kind::Option, 2)?;
    if d == 0 {
        Ok((None, p))
    } else {
        let (n, q) = decode_network_id(input, p)?;
        Ok((Some(n), q))
    }
}

/// Reads a body that begins at `pos`.
pub fn decode_body_id(input: &[u8], pos: usize) -> (r: Decoded<BodyId>)
    ensures
        decoded(r) == parse_body_id(input@, pos as int),
{
    let (d, p) = decode_variant(input, pos, Kind::BodyId, 10)?;
    match d {
        0 => Ok((BodyId::Unit, p)),
        1 => {
            let (name, q) = decode_array::<4>(input, p)?;
            Ok((BodyId::Moniker(name), q))
        },
        2 => {
            let (i, q) = decode_compact_u32(input, p)?;
            Ok((BodyId::Index(i), q))
        },
        3 => Ok((BodyId::Executive, p)),
        4 => Ok((BodyId::Technical, p)),
        5 => Ok((BodyId::Legislative, p)),
        6 => Ok((BodyId::Judicial, p)),
        7 => Ok((BodyId::Defense, p)),
        8 => Ok((BodyId::Administration, p)),
        _ => Ok((BodyId::Treasury, p)),
    }
}

fn decode_ratio(input: &[u8], pos: usize) -> (r: Result<((u32, u32), usize), DecodeError>)
    ensures
        match r {
            Ok((v, end)) => parse_ratio(input@, pos as int) == Ok::<_, DecodeError>(
                (v, end as int),
            ),
            Err(e) => parse_ratio(input@, pos as int) == Err::<((u32, u32), int), _>(e),
        },
{
    let (nom, q) = decode_compact_u32(input, pos)?;
    let (denom, r) = decode_compact_u32(input, q)?;
    Ok(((nom, denom), r))
}

/// Reads a part of a body that begins at `pos`.
pub fn decode_body_part(input: &[u8], pos: usize) -> (r: Decoded<BodyPart>)
    ensures
        decoded(r) == parse_body_part(input@, pos as int),
{
    let (d, p) = decode_variant(input, pos, Kind::BodyPart, 5)?;
    match d {
        0 => Ok((BodyPart::Voice, p)),
        1 => {
            let (count, q) = decode_compact_u32(input, p)?;
            Ok((BodyPart::Members { count }, q))
        },
        2 => {
            let (f, q) = decode_ratio(input, p)?;
            Ok((BodyPart::Fraction { nom: f.0, denom: f.1 }, q))
        },
        3 => {
            let (f, q) = decode_ratio(input, p)?;
            Ok((BodyPart::AtLeastProportion { nom: f.0, denom: f.1 }, q))
        },
        _ => {
            let (f, q) = decode_ratio(input, p)?;
            Ok((BodyPart::MoreThanProportion { nom: f.0, denom: f.1 }, q))
        },
    }
}

/// Reads a junction that begins at `pos`.
pub fn decode_junction(input: &[u8], pos: usize) -> (r: Decoded<Junction>)
    ensures
        decoded(r) == parse_junction(input@, pos as int),
{
    let (d, p) = decode_variant(input, pos, Kind::Junction, 10)?;
    match d {
        0 => {
            let (id, q) = decode_compact_u32(input, p)?;
            Ok((Junction::Parachain(id), q))
        },
        1 => {
            let (network, q) = decode_opt_network_id(input, p)?;
            let (id, r) = decode_array::<32>(input, q)?;
            Ok((Junction::AccountId32 { network, id }, r))
        },
        2 => {
            let (network, q) = decode_opt_network_id(input, p)?;
            let (index, r) = decode_compact_u64(input, q)?;
            Ok((Junction::AccountIndex64 { network, index }, r))
        },
        3 => {
            let (network, q) = decode_opt_network_id(input, p)?;
            let (key, r) = decode_array::<20>(input, q)?;
            Ok((Junction::AccountKey20 { network, key }, r))
        },
        4 => {
            let (i, q) = decode_u8(input, p)?;
            Ok((Junction::PalletInstance(i), q))
        },
        5 => {
            let (i, q) = decode_compact(input, p)?;
            Ok((Junction::GeneralIndex(i), q))
        },
        6 => {
            let (length, q) = decode_u8(input, p)?;
            let (data, r) = decode_array::<32>(input, q)?;
            Ok((Junction::GeneralKey { length, data }, r))
        },
        7 => Ok((Junction::OnlyChild, p)),
        8 => {
            let (id, q) = decode_body_id(input, p)?;
            let (part, r) = decode_body_part(input, q)?;
            Ok((Junction::Plurality { id, part }, r))
        },
        _ => {
            let (network, q) = decode_network_id(input, p)?;
            Ok((Junction::GlobalConsensus(network), q))
        },
    }
}

/// Reads the junction after the first `k` of `n`, which began at `start`
/// and ended at `p`.
fn decode_next_junction(
    input: &[u8],
    start: usize,
    k: u8,
    n: u8,
    p: usize,
    Ghost(items): Ghost<Seq<JunctionView>>,
) -> (r: Decoded<Junction>)
    requires
        k < n,
        parse_repeat(junction_parser(), input@, start as int, k as nat) == Ok::<_, DecodeError>(
            (items, p as int),
        ),
    ensures
        match r {
            Ok((j, q)) => parse_repeat(junction_parser(), input@, start as int, (k + 1) as nat)
                == Ok::<_, DecodeError>((items.push(j@), q as int)),
            Err(e) => parse_repeat(junction_parser(), input@, start as int, n as nat) == Err::<
                (Seq<JunctionView>, int),
                _,
            >(e),
        },
{
    proof {
        lemma_repeat_next(junction_parser(), input@, start as int, k as nat);
    }
    match decode_junction(input, p) {
        Ok(x) => Ok(x),
        Err(e) => {
            proof {
                lemma_repeat_err(junction_parser(), input@, start as int, (k + 1) as nat, n as nat);
            }
            Err(e)
        },
    }
}

fn pack1(a: Junction) -> (r: Junctions)
    ensures
        r@ == Seq::<JunctionView>::empty().push(a@),
{
    let steps: [Junction; 1] = [a];
    assert(views(steps@) =~= Seq::<JunctionView>::empty().push(a@));
    Junctions::X1(steps)
}

fn pack2(a: Junction, b: Junction) -> (r: Junctions)
    ensures
        r@ == Seq::<JunctionView>::empty().push(a@).push(b@),
{
    let steps: [Junction; 2] = [a, b];
    assert(views(steps@) =~= Seq::<JunctionView>::empty().push(a@).push(b@));
    Junctions::X2(steps)
}

fn pack3(a: Junction, b: Junction, c: Junction) -> (r: Junctions)
    ensures
        r@ == Seq::<JunctionView>::empty().push(a@).push(b@).push(c@),
{
    let steps: [Junction; 3] = [a, b, c];
    assert(views(steps@) =~= Seq::<JunctionView>::empty().push(a@).push(b@).push(c@));
    Junctions::X3(steps)
}

fn pack4(a: Junction, b: Junction, c: Junction, d: Junction) -> (r: Junctions)
    ensures
        r@ == Seq::<JunctionView>::empty().push(a@).push(b@).push(c@).push(d@),
{
    let steps: [Junction; 4] = [a, b, c, d];
    assert(views(steps@) =~= Seq::<JunctionView>::empty().push(a@).push(b@).push(c@).push(d@));
    Junctions::X4(steps)
}

fn pack5(a: Junction, b: Junction, c: Junction, d: Junction, e: Junction) -> (r: Junctions)
    ensures
        r@ == Seq::<JunctionView>::empty().push(a@).push(b@).push(c@).push(d@).push(e@),
{
    let steps: [Junction; 5] = [a, b, c, d, e];
    assert(views(steps@) =~= Seq::<JunctionView>::empty().push(a@).push(b@)
        .push(c@).push(d@).push(e@));
    Junctions::X5(steps)
}

fn pack6(
    a: Junction,
    b: Junction,
    c: Junction,
    d: Junction,
    e: Junction,
    f: Junction,
) -> (r: Junctions)
    ensures
        r@ == Seq::<JunctionView>::empty().push(a@).push(b@).push(c@).push(d@).push(e@).push(f@),
{
    let steps: [Junction; 6] = [a, b, c, d, e, f];
    assert(views(steps@) =~= Seq::<JunctionView>::empty().push(a@).push(b@)
        .push(c@).push(d@).push(e@).push(f@));
    Junctions::X6(steps)
}

fn pack7(
    a: Junction,
    b: Junction,
    c: Junction,
    d: Junction,
    e: Junction,
    f: Junction,
    g: Junction,
) -> (r: Junctions)
    ensures
        r@ == Seq::<JunctionView>::empty().push(a@).push(b@)
            .push(c@).push(d@).push(e@).push(f@)
            .push(g@),
{
    let steps: [Junction; 7] = [a, b, c, d, e, f, g];
    assert(views(steps@) =~= Seq::<JunctionView>::empty().push(a@).push(b@)
        .push(c@).push(d@).push(e@).push(f@)
        .push(g@));
    Junctions::X7(steps)
}

fn pack8(
    a: Junction,
    b: Junction,
    c: Junction,
    d: Junction,
    e: Junction,
    f: Junction,
    g: Junction,
    h: Junction,
) -> (r: Junctions)
    ensures
        r@ == Seq::<JunctionView>::empty().push(a@).push(b@)
            .push(c@).push(d@).push(e@).push(f@)
            .push(g@).push(h@),
{
    let steps: [Junction; 8] = [a, b, c, d, e, f, g, h];
    assert(views(steps@) =~= Seq::<JunctionView>::empty().push(a@).push(b@)
        .push(c@).push(d@).push(e@).push(f@)
        .push(g@).push(h@));
    Junctions::X8(steps)
}

/// Reads junctions: the discriminant gives their number, and that many
/// follow.
pub fn decode_junctions(input: &[u8], pos: usize) -> (r: Decoded<Junctions>)
    ensures
        decoded(r) == parse_junctions(input@, pos as int),
{
    let (n, start) = decode_variant(input, pos, Kind::Junctions, 9)?;
    let p: usize = start;
    let ghost mut items = Seq::<JunctionView>::empty();
    proof {
        lemma_repeat_none(junction_parser(), input@, start as int);
    }
    if n == 0 {
        assert(views(Junctions::Here.steps()) =~= Seq::<JunctionView>::empty());
        return Ok((Junctions::Here, p));
    }
    let (a, p) = decode_next_junction(input, start, 0, n, p, Ghost(items))?;
    if n == 1 {
        return Ok((pack1(a), p));
    }
    proof {
        items = items.push(a@);
    }
    let (b, p) = decode_next_junction(input, start, 1, n, p, Ghost(items))?;
    if n == 2 {
        return Ok((pack2(a, b), p));
    }
    proof {
        items = items.push(b@);
    }
    let (c, p) = decode_next_junction(input, start, 2, n, p, Ghost(items))?;
    if n == 3 {
        return Ok((pack3(a, b, c), p));
    }
    proof {
        items = items.push(c@);
    }
    let (d, p) = decode_next_junction(input, start, 3, n, p, Ghost(items))?;
    if n == 4 {
        return Ok((pack4(a, b, c, d), p));
    }
    proof {
        items = items.push(d@);
    }
    let (e, p) = decode_next_junction(input, start, 4, n, p, Ghost(items))?;
    if n == 5 {
        return Ok((pack5(a, b, c, d, e), p));
    }
    proof {
        items = items.push(e@);
    }
    let (f, p) = decode_next_junction(input, start, 5, n, p, Ghost(items))?;
    if n == 6 {
        return Ok((pack6(a, b, c, d, e, f), p));
    }
    proof {
        items = items.push(f@);
    }
    let (g, p) = decode_next_junction(input, start, 6, n, p, Ghost(items))?;
    if n == 7 {
        return Ok((pack7(a, b, c, d, e, f, g), p));
    }
    proof {
        items = items.push(g@);
    }
    let (h, p) = decode_next_junction(input, start, 7, n, p, Ghost(items))?;
    Ok((pack8(a, b, c, d, e, f, g, h), p))
}

/// Reads a location that begins at `pos`.
pub fn decode_location(input: &[u8], pos: usize) -> (r: Decoded<Location>)
    ensures
        decoded(r) == parse_location(input@, pos as int),
{
    let (parents, p) = decode_u8(input, pos)?;
    let (interior, q) = decode_junctions(input, p)?;
    Ok((Location { parents, interior }, q))
}

/// Reads an optional location that begins at `pos`.
pub fn decode_opt_location(input: &[u8], pos: usize) -> (r: Decoded<Option<Location>>)
    ensures
        decoded_opt(r) == parse_opt_location(input@, pos as int),
{
    let (d, p) = decode_variant(input, pos, Kind::Option, 2)?;
    if d == 0 {
        Ok((None, p))
    } else {
        let (l, q) = decode_location(input, p)?;
        Ok((Some(l), q))
    }
}

/// Reads optional junctions that begin at `pos`.
pub fn decode_opt_junctions(input: &[u8], pos: usize) -> (r: Decoded<Option<Junctions>>)
    ensures
        decoded_opt(r) == parse_opt_junctions(input@, pos as int),
{
    let (d, p) = decode_variant(input, pos, Kind::Option, 2)?;
    if d == 0 {
        Ok((None, p))
    } else {
        let (j, q) = decode_junctions(input, p)?;
        Ok((Some(j), q))
    }
}

} // verus!
