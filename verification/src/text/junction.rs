//! Locations as text.

use vstd::prelude::*;
use vstd::slice::slice_subrange;
use crate::model::junction::{
    BodyId, BodyIdView, BodyPart, Junction, JunctionView, Junctions, Location, LocationView,
    NetworkId, NetworkIdView, opt_view, views,
};
use crate::text::basic::{
    bytes_to_hex, decimal, format_list, format_number, hex_text, list_text, texts,
};

verus! {

/// The bytes of a general key that carry meaning: the first `length` of
/// `data`, or all of `data` where `length` exceeds it.
pub open spec fn key_bytes(length: u8, data: Seq<u8>) -> Seq<u8> {
    if length <= data.len() {
        data.take(length as int)
    } else {
        data
    }
}

/// A network by its name, or by a block hash in hexadecimal.
pub open spec fn network_id_text(x: NetworkIdView) -> Seq<char> {
    match x {
        NetworkIdView::ByGenesis(hash) => "ByGenesis("@ + hex_text(hash) + ")"@,
        NetworkIdView::ByFork { block_number, block_hash } => {
            "ByFork { block_number: "@
                + decimal(block_number as nat)
                + ", block_hash: "@
                + hex_text(block_hash)
                + " }"@
        },
        NetworkIdView::Polkadot => "Polkadot"@,
        NetworkIdView::Kusama => "Kusama"@,
        NetworkIdView::Ethereum { chain_id } => {
            "Ethereum { chain_id: "@ + decimal(chain_id as nat) + " }"@
        },
        NetworkIdView::BitcoinCore => "BitcoinCore"@,
        NetworkIdView::BitcoinCash => "BitcoinCash"@,
        NetworkIdView::PolkadotBulletin => "PolkadotBulletin"@,
    }
}

/// An optional network id as `None` or `Some(..)`.
pub open spec fn opt_network_id_text(x: Option<NetworkIdView>) -> Seq<char> {
    match x {
        None => "None"@,
        Some(v) => "Some("@ + network_id_text(v) + ")"@,
    }
}

/// The body of a plurality.
pub open spec fn body_id_text(x: BodyIdView) -> Seq<char> {
    match x {
        BodyIdView::Unit => "Unit"@,
        BodyIdView::Moniker(name) => "Moniker("@ + hex_text(name) + ")"@,
        BodyIdView::Index(index) => "Index("@ + decimal(index as nat) + ")"@,
        BodyIdView::Executive => "Executive"@,
        BodyIdView::Technical => "Technical"@,
        BodyIdView::Legislative => "Legislative"@,
        BodyIdView::Judicial => "Judicial"@,
        BodyIdView::Defense => "Defense"@,
        BodyIdView::Administration => "Administration"@,
        BodyIdView::Treasury => "Treasury"@,
    }
}

/// The part of a body of a plurality.
pub open spec fn body_part_text(x: BodyPart) -> Seq<char> {
    match x {
        BodyPart::Voice => "Voice"@,
        BodyPart::Members { count } => "Members { count: "@ + decimal(count as nat) + " }"@,
        BodyPart::Fraction { nom, denom } => {
            "Fraction { nom: "@ + decimal(nom as nat) + ", denom: "@ + decimal(denom as nat) + " }"@
        },
        BodyPart::AtLeastProportion { nom, denom } => {
            "AtLeastProportion { nom: "@
                + decimal(nom as nat)
                + ", denom: "@
                + decimal(denom as nat)
                + " }"@
        },
        BodyPart::MoreThanProportion { nom, denom } => {
            "MoreThanProportion { nom: "@
                + decimal(nom as nat)
                + ", denom: "@
                + decimal(denom as nat)
                + " }"@
        },
    }
}

/// One junction. Keys and hashes are in hexadecimal; of a general key only the
/// meaningful bytes are shown.
pub open spec fn junction_text(x: JunctionView) -> Seq<char> {
    match x {
        JunctionView::Parachain(id) => "Parachain("@ + decimal(id as nat) + ")"@,
        JunctionView::AccountId32 { network, id } => {
            "AccountId32 { network: "@
                + opt_network_id_text(network)
                + ", id: "@
                + hex_text(id)
                + " }"@
        },
        JunctionView::AccountIndex64 { network, index } => {
            "AccountIndex64 { network: "@
                + opt_network_id_text(network)
                + ", index: "@
                + decimal(index as nat)
                + " }"@
        },
        JunctionView::AccountKey20 { network, key } => {
            "AccountKey20 { network: "@
                + opt_network_id_text(network)
                + ", key: "@
                + hex_text(key)
                + " }"@
        },
        JunctionView::PalletInstance(index) => "PalletInstance("@ + decimal(index as nat) + ")"@,
        JunctionView::GeneralIndex(index) => "GeneralIndex("@ + decimal(index as nat) + ")"@,
        JunctionView::GeneralKey { length, data } => {
            "GeneralKey { length: "@ + decimal(length as nat) + ", data: "@ + hex_text(
                key_bytes(length, data),
            ) + " }"@
        },
        JunctionView::OnlyChild => "OnlyChild"@,
        JunctionView::Plurality { id, part } => {
            "Plurality { id: "@ + body_id_text(id) + ", part: "@ + body_part_text(part) + " }"@
        },
        JunctionView::GlobalConsensus(network) => {
            "GlobalConsensus("@ + network_id_text(network) + ")"@
        },
    }
}

/// The text of each junction of a sequence.
pub open spec fn junction_texts(xs: Seq<JunctionView>) -> Seq<Seq<char>> {
    Seq::new(xs.len(), |i: int| junction_text(xs[i]))
}

/// Junctions as `Here`, or as `X` and their number before the list of them.
pub open spec fn junctions_text(x: Seq<JunctionView>) -> Seq<char> {
    if x.len() == 0 {
        "Here"@
    } else {
        "X"@ + decimal(x.len()) + "("@ + list_text(junction_texts(x)) + ")"@
    }
}

/// Optional junctions as `None` or `Some(..)`.
pub open spec fn opt_junctions_text(x: Option<Seq<JunctionView>>) -> Seq<char> {
    match x {
        None => "None"@,
        Some(v) => "Some("@ + junctions_text(v) + ")"@,
    }
}

/// A location with its fields in their order.
pub open spec fn location_text(x: LocationView) -> Seq<char> {
    "Location { parents: "@
        + decimal(x.parents as nat)
        + ", interior: "@
        + junctions_text(x.interior)
        + " }"@
}

/// An optional location as `None` or `Some(..)`.
pub open spec fn opt_location_text(x: Option<LocationView>) -> Seq<char> {
    match x {
        None => "None"@,
        Some(v) => "Some("@ + location_text(v) + ")"@,
    }
}

/// The meaningful bytes of a general key.
fn key_part(length: u8, data: &[u8; 32]) -> (r: &[u8])
    ensures
        r@ == key_bytes(length, data@),
{
    let all = data.as_slice();
    if length as usize <= all.len() {
        slice_subrange(all, 0, length as usize)
    } else {
        all
    }
}

/// Formats a network.
pub fn format_network_id(x: &NetworkId) -> (r: String)
    ensures
        r@ == network_id_text(x@),
{
    match x {
        NetworkId::ByGenesis(hash) => {
            let mut text = String::from_str("ByGenesis(");
            let part0 = bytes_to_hex(hash.as_slice());
            text.append(part0.as_str());
            text.append(")");
            text
        },
        NetworkId::ByFork { block_number, block_hash } => {
            let mut text = String::from_str("ByFork { block_number: ");
            let part0 = format_number(*block_number as u128);
            text.append(part0.as_str());
            text.append(", block_hash: ");
            let part1 = bytes_to_hex(block_hash.as_slice());
            text.append(part1.as_str());
            text.append(" }");
            text
        },
        NetworkId::Polkadot => String::from_str("Polkadot"),
        NetworkId::Kusama => String::from_str("Kusama"),
        NetworkId::Ethereum { chain_id } => {
            let mut text = String::from_str("Ethereum { chain_id: ");
            let part0 = format_number(*chain_id as u128);
            text.append(part0.as_str());
            text.append(" }");
            text
        },
        NetworkId::BitcoinCore => String::from_str("BitcoinCore"),
        NetworkId::BitcoinCash => String::from_str("BitcoinCash"),
        NetworkId::PolkadotBulletin => String::from_str("PolkadotBulletin"),
    }
}

/// Formats an optional network.
pub fn format_opt_network_id(x: &Option<NetworkId>) -> (r: String)
    ensures
        r@ == opt_network_id_text(opt_view(*x)),
{
    match x {
        None => String::from_str("None"),
        Some(v) => {
            let mut text = String::from_str("Some(");
            let part0 = format_network_id(v);
            text.append(part0.as_str());
            text.append(")");
            text
        },
    }
}

/// Formats a body.
pub fn format_body_id(x: &BodyId) -> (r: String)
    ensures
        r@ == body_id_text(x@),
{
    match x {
        BodyId::Unit => String::from_str("Unit"),
        BodyId::Moniker(name) => {
            let mut text = String::from_str("Moniker(");
            let part0 = bytes_to_hex(name.as_slice());
            text.append(part0.as_str());
            text.append(")");
            text
        },
        BodyId::Index(index) => {
            let mut text = String::from_str("Index(");
            let part0 = format_number(*index as u128);
            text.append(part0.as_str());
            text.append(")");
            text
        },
        BodyId::Executive => String::from_str("Executive"),
        BodyId::Technical => String::from_str("Technical"),
        BodyId::Legislative => String::from_str("Legislative"),
        BodyId::Judicial => String::from_str("Judicial"),
        BodyId::Defense => String::from_str("Defense"),
        BodyId::Administration => String::from_str("Administration"),
        BodyId::Treasury => String::from_str("Treasury"),
    }
}

/// Formats a part of a body.
pub fn format_body_part(x: &BodyPart) -> (r: String)
    ensures
        r@ == body_part_text(x@),
{
    match x {
        BodyPart::Voice => String::from_str("Voice"),
        BodyPart::Members { count } => {
            let mut text = String::from_str("Members { count: ");
            let part0 = format_number(*count as u128);
            text.append(part0.as_str());
            text.append(" }");
            text
        },
        BodyPart::Fraction { nom, denom } => {
            let mut text = String::from_str("Fraction { nom: ");
            let part0 = format_number(*nom as u128);
            text.append(part0.as_str());
            text.append(", denom: ");
            let part1 = format_number(*denom as u128);
            text.append(part1.as_str());
            text.append(" }");
            text
        },
        BodyPart::AtLeastProportion { nom, denom } => {
            let mut text = String::from_str("AtLeastProportion { nom: ");
            let part0 = format_number(*nom as u128);
            text.append(part0.as_str());
            text.append(", denom: ");
            let part1 = format_number(*denom as u128);
            text.append(part1.as_str());
            text.append(" }");
            text
        },
        BodyPart::MoreThanProportion { nom, denom } => {
            let mut text = String::from_str("MoreThanProportion { nom: ");
            let part0 = format_number(*nom as u128);
            text.append(part0.as_str());
            text.append(", denom: ");
            let part1 = format_number(*denom as u128);
            text.append(part1.as_str());
            text.append(" }");
            text
        },
    }
}

/// Formats a junction.
pub fn format_junction(x: &Junction) -> (r: String)
    ensures
        r@ == junction_text(x@),
{
    match x {
        Junction::Parachain(id) => {
            let mut text = String::from_str("Parachain(");
            let part0 = format_number(*id as u128);
            text.append(part0.as_str());
            text.append(")");
            text
        },
        Junction::AccountId32 { network, id } => {
            let mut text = String::from_str("AccountId32 { network: ");
            let part0 = format_opt_network_id(network);
            text.append(part0.as_str());
            text.append(", id: ");
            let part1 = bytes_to_hex(id.as_slice());
            text.append(part1.as_str());
            text.append(" }");
            text
        },
        Junction::AccountIndex64 { network, index } => {
            let mut text = String::from_str("AccountIndex64 { network: ");
            let part0 = format_opt_network_id(network);
            text.append(part0.as_str());
            text.append(", index: ");
            let part1 = format_number(*index as u128);
            text.append(part1.as_str());
            text.append(" }");
            text
        },
        Junction::AccountKey20 { network, key } => {
            let mut text = String::from_str("AccountKey20 { network: ");
            let part0 = format_opt_network_id(network);
            text.append(part0.as_str());
            text.append(", key: ");
            let part1 = bytes_to_hex(key.as_slice());
            text.append(part1.as_str());
            text.append(" }");
            text
        },
        Junction::PalletInstance(index) => {
            let mut text = String::from_str("PalletInstance(");
            let part0 = format_number(*index as u128);
            text.append(part0.as_str());
            text.append(")");
            text
        },
        Junction::GeneralIndex(index) => {
            let mut text = String::from_str("GeneralIndex(");
            let part0 = format_number(*index);
            text.append(part0.as_str());
            text.append(")");
            text
        },
        Junction::GeneralKey { length, data } => {
            let mut text = String::from_str("GeneralKey { length: ");
            let part0 = format_number(*length as u128);
            text.append(part0.as_str());
            text.append(", data: ");
            let part1 = bytes_to_hex(key_part(*length, data));
            text.append(part1.as_str());
            text.append(" }");
            text
        },
        Junction::OnlyChild => String::from_str("OnlyChild"),
        Junction::Plurality { id, part } => {
            let mut text = String::from_str("Plurality { id: ");
            let part0 = format_body_id(id);
            text.append(part0.as_str());
            text.append(", part: ");
            let part1 = format_body_part(part);
            text.append(part1.as_str());
            text.append(" }");
            text
        },
        Junction::GlobalConsensus(network) => {
            let mut text = String::from_str("GlobalConsensus(");
            let part0 = format_network_id(network);
            text.append(part0.as_str());
            text.append(")");
            text
        },
    }
}

fn format_each_junction(items: &[Junction]) -> (r: Vec<String>)
    ensures
        texts(r@) == junction_texts(views(items@)),
{
    let mut out: Vec<String> = Vec::new();
    let mut i: usize = 0;
    while i < items.len()
        invariant
            i <= items.len(),
            out@.len() == i,
            forall|j: int| 0 <= j < i ==> out@[j]@ == junction_text((#[trigger] items@[j])@),
        decreases items.len() - i,
    {
        let part = format_junction(&items[i]);
        out.push(part);
        i = i + 1;
    }
    assert(texts(out@) =~= junction_texts(views(items@)));
    out
}

/// Formats junctions, each by [`format_junction`], in their order.
pub fn format_junctions(x: &Junctions) -> (r: String)
    ensures
        r@ == junctions_text(x@),
{
    let items = x.as_slice();
    if items.len() == 0 {
        String::from_str("Here")
    } else {
        let mut text = String::from_str("X");
        let part0 = format_number(items.len() as u128);
        text.append(part0.as_str());
        text.append("(");
        let each = format_each_junction(items);
        let part1 = format_list(&each);
        text.append(part1.as_str());
        text.append(")");
        text
    }
}

/// Formats optional junctions.
pub fn format_opt_junctions(x: &Option<Junctions>) -> (r: String)
    ensures
        r@ == opt_junctions_text(opt_view(*x)),
{
    match x {
        None => String::from_str("None"),
        Some(v) => {
            let mut text = String::from_str("Some(");
            let part0 = format_junctions(v);
            text.append(part0.as_str());
            text.append(")");
            text
        },
    }
}

/// Formats a location.
pub fn format_location(x: &Location) -> (r: String)
    ensures
        r@ == location_text(x@),
{
    let mut text = String::from_str("Location { parents: ");
    let part0 = format_number(*&x.parents as u128);
    text.append(part0.as_str());
    text.append(", interior: ");
    let part1 = format_junctions(&x.interior);
    text.append(part1.as_str());
    text.append(" }");
    text
}

/// Formats an optional location.
pub fn format_opt_location(x: &Option<Location>) -> (r: String)
    ensures
        r@ == opt_location_text(opt_view(*x)),
{
    match x {
        None => String::from_str("None"),
        Some(v) => {
            let mut text = String::from_str("Some(");
            let part0 = format_location(v);
            text.append(part0.as_str());
            text.append(")");
            text
        },
    }
}

} // verus!
