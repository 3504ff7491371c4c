//! Assets, and the filters that select them.

use vstd::prelude::*;
use crate::model::junction::{Location, LocationView, views};

verus! {

/// The identity of one non-fungible item within its class.
#[derive(Clone, Debug, PartialEq, Eq)]
pub enum AssetInstance {
    Undefined,
    Index(u128),
    Array4([u8; 4]),
    Array8([u8; 8]),
    Array16([u8; 16]),
    Array32([u8; 32]),
}

/// The view of [`AssetInstance`].
pub enum AssetInstanceView {
    Undefined,
    Index(u128),
    Array4(Seq<u8>),
    Array8(Seq<u8>),
    Array16(Seq<u8>),
    Array32(Seq<u8>),
}

impl View for AssetInstance {
    type V = AssetInstanceView;

    open spec fn view(&self) -> AssetInstanceView {
        match *self {
            AssetInstance::Undefined => AssetInstanceView::Undefined,
            AssetInstance::Index(i) => AssetInstanceView::Index(i),
            AssetInstance::Array4(a) => AssetInstanceView::Array4(a@),
            AssetInstance::Array8(a) => AssetInstanceView::Array8(a@),
            AssetInstance::Array16(a) => AssetInstanceView::Array16(a@),
            AssetInstance::Array32(a) => AssetInstanceView::Array32(a@),
        }
    }
}

/// An amount of a fungible asset, or one instance of a non-fungible one.
#[derive(Clone, Debug, PartialEq, Eq)]
pub enum Fungibility {
    Fungible(u128),
    NonFungible(AssetInstance),
}

/// The view of [`Fungibility`].
pub enum FungibilityView {
    Fungible(u128),
    NonFungible(AssetInstanceView),
}

impl View for Fungibility {
    type V = FungibilityView;

    open spec fn view(&self) -> FungibilityView {
        match *self {
            Fungibility::Fungible(amount) => FungibilityView::Fungible(amount),
            Fungibility::NonFungible(instance) => FungibilityView::NonFungible(instance@),
        }
    }
}

/// Fungibility without an amount or instance.
#[derive(Clone, Copy, Debug, PartialEq, Eq)]
pub enum WildFungibility {
    Fungible,
    NonFungible,
}

impl View for WildFungibility {
    type V = WildFungibility;

    open spec fn view(&self) -> WildFungibility {
        *self
    }
}

/// The class of an asset, named by a location.
#[derive(Clone, Debug, PartialEq, Eq)]
pub struct AssetId(pub Location);

impl View for AssetId {
    type V = LocationView;

    open spec fn view(&self) -> LocationView {
        self.0@
    }
}

/// An asset: its class and how much of it, or which instance.
#[derive(Clone, Debug, PartialEq, Eq)]
pub struct Asset {
    pub id: AssetId,
    pub fun: Fungibility,
}

/// The view of [`Asset`].
pub struct AssetView {
    pub id: LocationView,
    pub fun: FungibilityView,
}

impl View for Asset {
    type V = AssetView;

    open spec fn view(&self) -> AssetView {
        AssetView { id: self.id@, fun: self.fun@ }
    }
}

/// Assets in the order in which they were decoded. Nothing is assumed of
/// their order, and one may occur twice.
#[derive(Clone, Debug, PartialEq, Eq)]
pub struct Assets(pub Vec<Asset>);

impl View for Assets {
    type V = Seq<AssetView>;

    open spec fn view(&self) -> Seq<AssetView> {
        views(self.0@)
    }
}

/// A wildcard over assets.
#[derive(Clone, Debug, PartialEq, Eq)]
pub enum WildAsset {
    All,
    AllOf { id: AssetId, fun: WildFungibility },
    AllCounted(u32),
    AllOfCounted { id: AssetId, fun: WildFungibility, count: u32 },
}

/// The view of [`WildAsset`].
pub enum WildAssetView {
    All,
    AllOf { id: LocationView, fun: WildFungibility },
    AllCounted(u32),
    AllOfCounted { id: LocationView, fun: WildFungibility, count: u32 },
}

impl View for WildAsset {
    type V = WildAssetView;

    open spec fn view(&self) -> WildAssetView {
        match *self {
            WildAsset::All => WildAssetView::All,
            WildAsset::AllOf { id, fun } => WildAssetView::AllOf { id: id@, fun },
            WildAsset::AllCounted(count) => WildAssetView::AllCounted(count),
            WildAsset::AllOfCounted { id, fun, count } => WildAssetView::AllOfCounted {
                id: id@,
                fun,
                count,
            },
        }
    }
}

/// A choice of assets: those given, or those a wildcard matches.
#[derive(Clone, Debug, PartialEq, Eq)]
pub enum AssetFilter {
    Definite(Assets),
    Wild(WildAsset),
}

/// The view of [`AssetFilter`].
pub enum AssetFilterView {
    Definite(Seq<AssetView>),
    Wild(WildAssetView),
}

impl View for AssetFilter {
    type V = AssetFilterView;

    open spec fn view(&self) -> AssetFilterView {
        match *self {
            AssetFilter::Definite(assets) => AssetFilterView::Definite(assets@),
            AssetFilter::Wild(wild) => AssetFilterView::Wild(wild@),
        }
    }
}

/// A choice of assets together with the way to transfer them.
#[derive(Clone, Debug, PartialEq, Eq)]
pub enum AssetTransferFilter {
    Teleport(AssetFilter),
    ReserveDeposit(AssetFilter),
    ReserveWithdraw(AssetFilter),
}

/// The view of [`AssetTransferFilter`].
pub enum AssetTransferFilterView {
    Teleport(AssetFilterView),
    ReserveDeposit(AssetFilterView),
    ReserveWithdraw(AssetFilterView),
}

impl View for AssetTransferFilter {
    type V = AssetTransferFilterView;

    open spec fn view(&self) -> AssetTransferFilterView {
        match *self {
            AssetTransferFilter::Teleport(f) => AssetTransferFilterView::Teleport(f@),
            AssetTransferFilter::ReserveDeposit(f) => AssetTransferFilterView::ReserveDeposit(f@),
            AssetTransferFilter::ReserveWithdraw(f) => AssetTransferFilterView::ReserveWithdraw(f@),
        }
    }
}

} // verus!
