//! Locations: the hierarchical path of the grammar, its steps (junctions)
//! and the identifiers a step can carry.

use vstd::prelude::*;

verus! {

/// The element-wise view of a sequence of values.
pub open spec fn views<T: View>(s: Seq<T>) -> Seq<T::V> {
    s.map_values(|x: T| x@)
}

/// The view of an optional value.
pub open spec fn opt_view<T: View>(o: Option<T>) -> Option<T::V> {
    match o {
        Some(x) => Some(x@),
        None => None,
    }
}

/// A global consensus system.
#[derive(Clone, Debug, PartialEq, Eq)]
pub enum NetworkId {
    ByGenesis([u8; 32]),
    ByFork { block_number: u64, block_hash: [u8; 32] },
    Polkadot,
    Kusama,
    Ethereum { chain_id: u64 },
    BitcoinCore,
    BitcoinCash,
    PolkadotBulletin,
}

/// The view of [`NetworkId`].
pub enum NetworkIdView {
    ByGenesis(Seq<u8>),
    ByFork { block_number: u64, block_hash: Seq<u8> },
    Polkadot,
    Kusama,
    Ethereum { chain_id: u64 },
    BitcoinCore,
    BitcoinCash,
    PolkadotBulletin,
}

impl View for NetworkId {
    type V = NetworkIdView;

    open spec fn view(&self) -> NetworkIdView {
        match *self {
            NetworkId::ByGenesis(hash) => NetworkIdView::ByGenesis(hash@),
            NetworkId::ByFork { block_number, block_hash } => NetworkIdView::ByFork {
                block_number,
                block_hash: block_hash@,
            },
            NetworkId::Polkadot => NetworkIdView::Polkadot,
            NetworkId::Kusama => NetworkIdView::Kusama,
            NetworkId::Ethereum { chain_id } => NetworkIdView::Ethereum { chain_id },
            NetworkId::BitcoinCore => NetworkIdView::BitcoinCore,
            NetworkId::BitcoinCash => NetworkIdView::BitcoinCash,
            NetworkId::PolkadotBulletin => NetworkIdView::PolkadotBulletin,
        }
    }
}

/// A body of a plurality.
#[derive(Clone, Debug, PartialEq, Eq)]
pub enum BodyId {
    Unit,
    Moniker([u8; 4]),
    Index(u32),
    Executive,
    Technical,
    Legislative,
    Judicial,
    Defense,
    Administration,
    Treasury,
}

/// The view of [`BodyId`].
pub enum BodyIdView {
    Unit,
    Moniker(Seq<u8>),
    Index(u32),
    Executive,
    Technical,
    Legislative,
    Judicial,
    Defense,
    Administration,
    Treasury,
}

impl View for BodyId {
    type V = BodyIdView;

    open spec fn view(&self) -> BodyIdView {
        match *self {
            BodyId::Unit => BodyIdView::Unit,
            BodyId::Moniker(name) => BodyIdView::Moniker(name@),
            BodyId::Index(i) => BodyIdView::Index(i),
            BodyId::Executive => BodyIdView::Executive,
            BodyId::Technical => BodyIdView::Technical,
            BodyId::Legislative => BodyIdView::Legislative,
            BodyId::Judicial => BodyIdView::Judicial,
            BodyId::Defense => BodyIdView::Defense,
            BodyId::Administration => BodyIdView::Administration,
            BodyId::Treasury => BodyIdView::Treasury,
        }
    }
}

/// A part of a body of a plurality.
#[derive(Clone, Copy, Debug, PartialEq, Eq)]
pub enum BodyPart {
    Voice,
    Members { count: u32 },
    Fraction { nom: u32, denom: u32 },
    AtLeastProportion { nom: u32, denom: u32 },
    MoreThanProportion { nom: u32, denom: u32 },
}

impl View for BodyPart {
    type V = BodyPart;

    open spec fn view(&self) -> BodyPart {
        *self
    }
}

/// One step of a location.
#[derive(Clone, Debug, PartialEq, Eq)]
#[allow(inconsistent_fields)]
pub enum Junction {
    Parachain(u32),
    AccountId32 { network: Option<NetworkId>, id: [u8; 32] },
    AccountIndex64 { network: Option<NetworkId>, index: u64 },
    AccountKey20 { network: Option<NetworkId>, key: [u8; 20] },
    PalletInstance(u8),
    GeneralIndex(u128),
    /// Only the first `length` bytes of `data` carry meaning; the rest is
    /// padding.
    GeneralKey { length: u8, data: [u8; 32] },
    OnlyChild,
    Plurality { id: BodyId, part: BodyPart },
    GlobalConsensus(NetworkId),
}

/// The view of [`Junction`].
#[allow(inconsistent_fields)]
pub enum JunctionView {
    Parachain(u32),
    AccountId32 { network: Option<NetworkIdView>, id: Seq<u8> },
    AccountIndex64 { network: Option<NetworkIdView>, index: u64 },
    AccountKey20 { network: Option<NetworkIdView>, key: Seq<u8> },
    PalletInstance(u8),
    GeneralIndex(u128),
    GeneralKey { length: u8, data: Seq<u8> },
    OnlyChild,
    Plurality { id: BodyIdView, part: BodyPart },
    GlobalConsensus(NetworkIdView),
}

impl View for Junction {
    type V = JunctionView;

    open spec fn view(&self) -> JunctionView {
        match *self {
            Junction::Parachain(id) => JunctionView::Parachain(id),
            Junction::AccountId32 { network, id } => JunctionView::AccountId32 {
                network: opt_view(network),
                id: id@,
            },
            Junction::AccountIndex64 { network, index } => JunctionView::AccountIndex64 {
                network: opt_view(network),
                index,
            },
            Junction::AccountKey20 { network, key } => JunctionView::AccountKey20 {
                network: opt_view(network),
                key: key@,
            },
            Junction::PalletInstance(i) => JunctionView::PalletInstance(i),
            Junction::GeneralIndex(i) => JunctionView::GeneralIndex(i),
            Junction::GeneralKey { length, data } => JunctionView::GeneralKey {
                length,
                data: data@,
            },
            Junction::OnlyChild => JunctionView::OnlyChild,
            Junction::Plurality { id, part } => JunctionView::Plurality { id: id@, part },
            Junction::GlobalConsensus(network) => JunctionView::GlobalConsensus(network@),
        }
    }
}

/// The interior of a location: no step, or between one and eight. The
/// variant fixes the number of steps.
#[derive(Clone, Debug, PartialEq, Eq)]
pub enum Junctions {
    Here,
    X1([Junction; 1]),
    X2([Junction; 2]),
    X3([Junction; 3]),
    X4([Junction; 4]),
    X5([Junction; 5]),
    X6([Junction; 6]),
    X7([Junction; 7]),
    X8([Junction; 8]),
}

impl Junctions {
    /// The steps in order.
    pub open spec fn steps(&self) -> Seq<Junction> {
        match *self {
            Junctions::Here => Seq::empty(),
            Junctions::X1(a) => a@,
            Junctions::X2(a) => a@,
            Junctions::X3(a) => a@,
            Junctions::X4(a) => a@,
            Junctions::X5(a) => a@,
            Junctions::X6(a) => a@,
            Junctions::X7(a) => a@,
            Junctions::X8(a) => a@,
        }
    }

    /// The steps in order, as a slice.
    pub fn as_slice(&self) -> (r: &[Junction])
        ensures
            r@ == self.steps(),
            r@.len() <= 8,
    {
        match self {
            Junctions::Here => {
                let r: &[Junction] = &[];
                assert(r@ =~= Seq::empty());
                r
            },
            Junctions::X1(a) => a.as_slice(),
            Junctions::X2(a) => a.as_slice(),
            Junctions::X3(a) => a.as_slice(),
            Junctions::X4(a) => a.as_slice(),
            Junctions::X5(a) => a.as_slice(),
            Junctions::X6(a) => a.as_slice(),
            Junctions::X7(a) => a.as_slice(),
            Junctions::X8(a) => a.as_slice(),
        }
    }
}

/// A sequence of at most eight steps; its length stands for the variant.
impl View for Junctions {
    type V = Seq<JunctionView>;

    open spec fn view(&self) -> Seq<JunctionView> {
        views(self.steps())
    }
}

/// A path: a number of steps up, then the steps down.
#[derive(Clone, Debug, PartialEq, Eq)]
pub struct Location {
    pub parents: u8,
    pub interior: Junctions,
}

/// The view of [`Location`].
pub struct LocationView {
    pub parents: u8,
    pub interior: Seq<JunctionView>,
}

impl View for Location {
    type V = LocationView;

    open spec fn view(&self) -> LocationView {
        LocationView { parents: self.parents, interior: self.interior@ }
    }
}

} // verus!
