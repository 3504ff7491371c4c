//! Weights, error codes and the responses to queries.

use vstd::prelude::*;
use crate::model::asset::{AssetView, Assets};
use crate::model::junction::{Location, LocationView, views};

verus! {

/// An amount of computation: time and proof size.
#[derive(Clone, Copy, Debug, PartialEq, Eq)]
pub struct Weight {
    pub ref_time: u64,
    pub proof_size: u64,
}

impl View for Weight {
    type V = Weight;

    open spec fn view(&self) -> Weight {
        *self
    }
}

/// A limit on the weight to spend, or none.
#[derive(Clone, Copy, Debug, PartialEq, Eq)]
pub enum WeightLimit {
    Unlimited,
    Limited(Weight),
}

impl View for WeightLimit {
    type V = WeightLimit;

    open spec fn view(&self) -> WeightLimit {
        *self
    }
}

/// The kind of origin with which a call is dispatched.
#[derive(Clone, Copy, Debug, PartialEq, Eq)]
pub enum OriginKind {
    Native,
    SovereignAccount,
    Superuser,
    Xcm,
}

impl View for OriginKind {
    type V = OriginKind;

    open spec fn view(&self) -> OriginKind {
        *self
    }
}

/// An error of the executor, as it is reported in a message. The variants
/// are listed in the order of their discriminants, 0 to 40.
#[derive(Clone, Copy, Debug, PartialEq, Eq)]
pub enum XcmError {
    Overflow,
    Unimplemented,
    UntrustedReserveLocation,
    UntrustedTeleportLocation,
    LocationFull,
    LocationNotInvertible,
    BadOrigin,
    InvalidLocation,
    AssetNotFound,
    /// Its text is not part of the wire format; it is always empty.
    FailedToTransactAsset,
    NotWithdrawable,
    LocationCannotHold,
    ExceedsMaxMessageSize,
    DestinationUnsupported,
    /// Its text is not part of the wire format; it is always empty.
    Transport,
    Unroutable,
    UnknownClaim,
    FailedToDecode,
    MaxWeightInvalid,
    NotHoldingFees,
    TooExpensive,
    Trap(u64),
    ExpectationFalse,
    PalletNotFound,
    NameMismatch,
    VersionIncompatible,
    HoldingWouldOverflow,
    ExportError,
    ReanchorFailed,
    NoDeal,
    FeesNotMet,
    LockError,
    NoPermission,
    Unanchored,
    NotDepositable,
    TooManyAssets,
    UnhandledXcmVersion,
    WeightLimitReached(Weight),
    Barrier,
    WeightNotComputable,
    ExceedsStackLimit,
}

impl View for XcmError {
    type V = XcmError;

    open spec fn view(&self) -> XcmError {
        *self
    }
}

/// The outcome of a dispatched call.
#[derive(Clone, Debug, PartialEq, Eq)]
pub enum MaybeErrorCode {
    Success,
    Error(Vec<u8>),
    TruncatedError(Vec<u8>),
}

/// The view of [`MaybeErrorCode`].
pub enum MaybeErrorCodeView {
    Success,
    Error(Seq<u8>),
    TruncatedError(Seq<u8>),
}

impl View for MaybeErrorCode {
    type V = MaybeErrorCodeView;

    open spec fn view(&self) -> MaybeErrorCodeView {
        match *self {
            MaybeErrorCode::Success => MaybeErrorCodeView::Success,
            MaybeErrorCode::Error(code) => MaybeErrorCodeView::Error(code@),
            MaybeErrorCode::TruncatedError(code) => MaybeErrorCodeView::TruncatedError(code@),
        }
    }
}

/// What is known of a pallet: its index, its names and its version.
#[derive(Clone, Debug, PartialEq, Eq)]
pub struct PalletInfo {
    pub index: u32,
    pub name: Vec<u8>,
    pub module_name: Vec<u8>,
    pub major: u32,
    pub minor: u32,
    pub patch: u32,
}

/// The view of [`PalletInfo`].
pub struct PalletInfoView {
    pub index: u32,
    pub name: Seq<u8>,
    pub module_name: Seq<u8>,
    pub major: u32,
    pub minor: u32,
    pub patch: u32,
}

impl View for PalletInfo {
    type V = PalletInfoView;

    open spec fn view(&self) -> PalletInfoView {
        PalletInfoView {
            index: self.index,
            name: self.name@,
            module_name: self.module_name@,
            major: self.major,
            minor: self.minor,
            patch: self.patch,
        }
    }
}

/// The answer to a query.
#[derive(Clone, Debug, PartialEq, Eq)]
pub enum Response {
    Null,
    Assets(Assets),
    ExecutionResult(Option<(u32, XcmError)>),
    Version(u32),
    PalletsInfo(Vec<PalletInfo>),
    DispatchResult(MaybeErrorCode),
}

/// The view of [`Response`].
pub enum ResponseView {
    Null,
    Assets(Seq<AssetView>),
    ExecutionResult(Option<(u32, XcmError)>),
    Version(u32),
    PalletsInfo(Seq<PalletInfoView>),
    DispatchResult(MaybeErrorCodeView),
}

impl View for Response {
    type V = ResponseView;

    open spec fn view(&self) -> ResponseView {
        match *self {
            Response::Null => ResponseView::Null,
            Response::Assets(assets) => ResponseView::Assets(assets@),
            Response::ExecutionResult(result) => ResponseView::ExecutionResult(result),
            Response::Version(v) => ResponseView::Version(v),
            Response::PalletsInfo(infos) => ResponseView::PalletsInfo(views(infos@)),
            Response::DispatchResult(code) => ResponseView::DispatchResult(code@),
        }
    }
}

/// Where and how to answer a query.
#[derive(Clone, Debug, PartialEq, Eq)]
pub struct QueryResponseInfo {
    pub destination: Location,
    pub query_id: u64,
    pub max_weight: Weight,
}

/// The view of [`QueryResponseInfo`].
pub struct QueryResponseInfoView {
    pub destination: LocationView,
    pub query_id: u64,
    pub max_weight: Weight,
}

impl View for QueryResponseInfo {
    type V = QueryResponseInfoView;

    open spec fn view(&self) -> QueryResponseInfoView {
        QueryResponseInfoView {
            destination: self.destination@,
            query_id: self.query_id,
            max_weight: self.max_weight,
        }
    }
}

/// Advice to the executor.
#[derive(Clone, Debug, PartialEq, Eq)]
pub enum Hint {
    AssetClaimer { location: Location },
}

/// The view of [`Hint`].
pub enum HintView {
    AssetClaimer { location: LocationView },
}

impl View for Hint {
    type V = HintView;

    open spec fn view(&self) -> HintView {
        match *self {
            Hint::AssetClaimer { location } => HintView::AssetClaimer { location: location@ },
        }
    }
}

} // verus!
