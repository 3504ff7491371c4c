//! Instructions and programs.

use vstd::prelude::*;
use crate::model::junction::{
    Junction, JunctionView, Junctions, Location, LocationView, NetworkId, NetworkIdView, opt_view,
    views,
};
use crate::model::asset::{
    Asset, AssetFilter, AssetFilterView, AssetTransferFilter, AssetTransferFilterView, AssetView,
    Assets,
};
use crate::model::response::{
    Hint, HintView, MaybeErrorCode, MaybeErrorCodeView, OriginKind, QueryResponseInfo,
    QueryResponseInfoView, Response, ResponseView, Weight, WeightLimit, XcmError,
};

verus! {

/// A program: instructions in the order in which they are to run.
#[derive(Debug, PartialEq, Eq)]
pub struct Xcm(pub Vec<Instruction>);

/// One instruction. The variants are listed in the order of their
/// discriminants, 0 to 51. Some carry a program of their own.
#[derive(Debug, PartialEq, Eq)]
#[allow(inconsistent_fields)]
pub enum Instruction {
    WithdrawAsset(Assets),
    ReserveAssetDeposited(Assets),
    ReceiveTeleportedAsset(Assets),
    QueryResponse {
        query_id: u64,
        response: Response,
        max_weight: Weight,
        querier: Option<Location>,
    },
    TransferAsset { assets: Assets, beneficiary: Location },
    TransferReserveAsset { assets: Assets, dest: Location, xcm: Xcm },
    Transact { origin_kind: OriginKind, fallback_max_weight: Option<Weight>, call: Vec<u8> },
    HrmpNewChannelOpenRequest { sender: u32, max_message_size: u32, max_capacity: u32 },
    HrmpChannelAccepted { recipient: u32 },
    HrmpChannelClosing { initiator: u32, sender: u32, recipient: u32 },
    ClearOrigin,
    DescendOrigin(Junctions),
    ReportError(QueryResponseInfo),
    DepositAsset { assets: AssetFilter, beneficiary: Location },
    DepositReserveAsset { assets: AssetFilter, dest: Location, xcm: Xcm },
    ExchangeAsset { give: AssetFilter, want: Assets, maximal: bool },
    InitiateReserveWithdraw { assets: AssetFilter, reserve: Location, xcm: Xcm },
    InitiateTeleport { assets: AssetFilter, dest: Location, xcm: Xcm },
    ReportHolding { response_info: QueryResponseInfo, assets: AssetFilter },
    BuyExecution { fees: Asset, weight_limit: WeightLimit },
    RefundSurplus,
    SetErrorHandler(Xcm),
    SetAppendix(Xcm),
    ClearError,
    ClaimAsset { assets: Assets, ticket: Location },
    Trap(u64),
    SubscribeVersion { query_id: u64, max_response_weight: Weight },
    UnsubscribeVersion,
    BurnAsset(Assets),
    ExpectAsset(Assets),
    ExpectOrigin(Option<Location>),
    ExpectError(Option<(u32, XcmError)>),
    ExpectTransactStatus(MaybeErrorCode),
    QueryPallet { module_name: Vec<u8>, response_info: QueryResponseInfo },
    ExpectPallet {
        index: u32,
        name: Vec<u8>,
        module_name: Vec<u8>,
        crate_major: u32,
        min_crate_minor: u32,
    },
    ReportTransactStatus(QueryResponseInfo),
    ClearTransactStatus,
    UniversalOrigin(Junction),
    ExportMessage { network: NetworkId, destination: Junctions, xcm: Xcm },
    LockAsset { asset: Asset, unlocker: Location },
    UnlockAsset { asset: Asset, target: Location },
    NoteUnlockable { asset: Asset, owner: Location },
    RequestUnlock { asset: Asset, locker: Location },
    SetFeesMode { jit_withdraw: bool },
    SetTopic([u8; 32]),
    ClearTopic,
    AliasOrigin(Location),
    UnpaidExecution { weight_limit: WeightLimit, check_origin: Option<Location> },
    PayFees { asset: Asset },
    InitiateTransfer {
        destination: Location,
        remote_fees: Option<AssetTransferFilter>,
        preserve_origin: bool,
        assets: Vec<AssetTransferFilter>,
        remote_xcm: Xcm,
    },
    ExecuteWithOrigin { descendant_origin: Option<Junctions>, xcm: Xcm },
    SetHints { hints: Vec<Hint> },
}

/// The view of [`Instruction`].
#[allow(inconsistent_fields)]
pub enum InstructionView {
    WithdrawAsset(Seq<AssetView>),
    ReserveAssetDeposited(Seq<AssetView>),
    ReceiveTeleportedAsset(Seq<AssetView>),
    QueryResponse {
        query_id: u64,
        response: ResponseView,
        max_weight: Weight,
        querier: Option<LocationView>,
    },
    TransferAsset { assets: Seq<AssetView>, beneficiary: LocationView },
    TransferReserveAsset { assets: Seq<AssetView>, dest: LocationView, xcm: Seq<InstructionView> },
    Transact { origin_kind: OriginKind, fallback_max_weight: Option<Weight>, call: Seq<u8> },
    HrmpNewChannelOpenRequest { sender: u32, max_message_size: u32, max_capacity: u32 },
    HrmpChannelAccepted { recipient: u32 },
    HrmpChannelClosing { initiator: u32, sender: u32, recipient: u32 },
    ClearOrigin,
    DescendOrigin(Seq<JunctionView>),
    ReportError(QueryResponseInfoView),
    DepositAsset { assets: AssetFilterView, beneficiary: LocationView },
    DepositReserveAsset { assets: AssetFilterView, dest: LocationView, xcm: Seq<InstructionView> },
    ExchangeAsset { give: AssetFilterView, want: Seq<AssetView>, maximal: bool },
    InitiateReserveWithdraw {
        assets: AssetFilterView,
        reserve: LocationView,
        xcm: Seq<InstructionView>,
    },
    InitiateTeleport { assets: AssetFilterView, dest: LocationView, xcm: Seq<InstructionView> },
    ReportHolding { response_info: QueryResponseInfoView, assets: AssetFilterView },
    BuyExecution { fees: AssetView, weight_limit: WeightLimit },
    RefundSurplus,
    SetErrorHandler(Seq<InstructionView>),
    SetAppendix(Seq<InstructionView>),
    ClearError,
    ClaimAsset { assets: Seq<AssetView>, ticket: LocationView },
    Trap(u64),
    SubscribeVersion { query_id: u64, max_response_weight: Weight },
    UnsubscribeVersion,
    BurnAsset(Seq<AssetView>),
    ExpectAsset(Seq<AssetView>),
    ExpectOrigin(Option<LocationView>),
    ExpectError(Option<(u32, XcmError)>),
    ExpectTransactStatus(MaybeErrorCodeView),
    QueryPallet { module_name: Seq<u8>, response_info: QueryResponseInfoView },
    ExpectPallet {
        index: u32,
        name: Seq<u8>,
        module_name: Seq<u8>,
        crate_major: u32,
        min_crate_minor: u32,
    },
    ReportTransactStatus(QueryResponseInfoView),
    ClearTransactStatus,
    UniversalOrigin(JunctionView),
    ExportMessage {
        network: NetworkIdView,
        destination: Seq<JunctionView>,
        xcm: Seq<InstructionView>,
    },
    LockAsset { asset: AssetView, unlocker: LocationView },
    UnlockAsset { asset: AssetView, target: LocationView },
    NoteUnlockable { asset: AssetView, owner: LocationView },
    RequestUnlock { asset: AssetView, locker: LocationView },
    SetFeesMode { jit_withdraw: bool },
    SetTopic(Seq<u8>),
    ClearTopic,
    AliasOrigin(LocationView),
    UnpaidExecution { weight_limit: WeightLimit, check_origin: Option<LocationView> },
    PayFees { asset: AssetView },
    InitiateTransfer {
        destination: LocationView,
        remote_fees: Option<AssetTransferFilterView>,
        preserve_origin: bool,
        assets: Seq<AssetTransferFilterView>,
        remote_xcm: Seq<InstructionView>,
    },
    ExecuteWithOrigin { descendant_origin: Option<Seq<JunctionView>>, xcm: Seq<InstructionView> },
    SetHints { hints: Seq<HintView> },
}

/// The view of an instruction; a nested program is viewed instruction by
/// instruction.
pub open spec fn instruction_view(i: Instruction) -> InstructionView
    decreases i,
{
    match i {
        Instruction::WithdrawAsset(assets) => InstructionView::WithdrawAsset(assets@),
        Instruction::ReserveAssetDeposited(assets) => {
            InstructionView::ReserveAssetDeposited(assets@)
        },
        Instruction::ReceiveTeleportedAsset(assets) => {
            InstructionView::ReceiveTeleportedAsset(assets@)
        },
        Instruction::QueryResponse { query_id, response, max_weight, querier } => {
            InstructionView::QueryResponse {
                query_id,
                response: response@,
                max_weight,
                querier: opt_view(querier),
            }
        },
        Instruction::TransferAsset { assets, beneficiary } => {
            InstructionView::TransferAsset { assets: assets@, beneficiary: beneficiary@ }
        },
        Instruction::TransferReserveAsset { assets, dest, xcm } => {
            InstructionView::TransferReserveAsset {
                assets: assets@,
                dest: dest@,
                xcm: program_view(xcm.0),
            }
        },
        Instruction::Transact { origin_kind, fallback_max_weight, call } => {
            InstructionView::Transact { origin_kind, fallback_max_weight, call: call@ }
        },
        Instruction::HrmpNewChannelOpenRequest { sender, max_message_size, max_capacity } => {
            InstructionView::HrmpNewChannelOpenRequest { sender, max_message_size, max_capacity }
        },
        Instruction::HrmpChannelAccepted { recipient } => {
            InstructionView::HrmpChannelAccepted { recipient }
        },
        Instruction::HrmpChannelClosing { initiator, sender, recipient } => {
            InstructionView::HrmpChannelClosing { initiator, sender, recipient }
        },
        Instruction::ClearOrigin => InstructionView::ClearOrigin,
        Instruction::DescendOrigin(interior) => InstructionView::DescendOrigin(interior@),
        Instruction::ReportError(info) => InstructionView::ReportError(info@),
        Instruction::DepositAsset { assets, beneficiary } => {
            InstructionView::DepositAsset { assets: assets@, beneficiary: beneficiary@ }
        },
        Instruction::DepositReserveAsset { assets, dest, xcm } => {
            InstructionView::DepositReserveAsset {
                assets: assets@,
                dest: dest@,
                xcm: program_view(xcm.0),
            }
        },
        Instruction::ExchangeAsset { give, want, maximal } => {
            InstructionView::ExchangeAsset { give: give@, want: want@, maximal }
        },
        Instruction::InitiateReserveWithdraw { assets, reserve, xcm } => {
            InstructionView::InitiateReserveWithdraw {
                assets: assets@,
                reserve: reserve@,
                xcm: program_view(xcm.0),
            }
        },
        Instruction::InitiateTeleport { assets, dest, xcm } => {
            InstructionView::InitiateTeleport {
                assets: assets@,
                dest: dest@,
                xcm: program_view(xcm.0),
            }
        },
        Instruction::ReportHolding { response_info, assets } => {
            InstructionView::ReportHolding { response_info: response_info@, assets: assets@ }
        },
        Instruction::BuyExecution { fees, weight_limit } => {
            InstructionView::BuyExecution { fees: fees@, weight_limit }
        },
        Instruction::RefundSurplus => InstructionView::RefundSurplus,
        Instruction::SetErrorHandler(xcm) => InstructionView::SetErrorHandler(program_view(xcm.0)),
        Instruction::SetAppendix(xcm) => InstructionView::SetAppendix(program_view(xcm.0)),
        Instruction::ClearError => InstructionView::ClearError,
        Instruction::ClaimAsset { assets, ticket } => {
            InstructionView::ClaimAsset { assets: assets@, ticket: ticket@ }
        },
        Instruction::Trap(code) => InstructionView::Trap(code),
        Instruction::SubscribeVersion { query_id, max_response_weight } => {
            InstructionView::SubscribeVersion { query_id, max_response_weight }
        },
        Instruction::UnsubscribeVersion => InstructionView::UnsubscribeVersion,
        Instruction::BurnAsset(assets) => InstructionView::BurnAsset(assets@),
        Instruction::ExpectAsset(assets) => InstructionView::ExpectAsset(assets@),
        Instruction::ExpectOrigin(origin) => InstructionView::ExpectOrigin(opt_view(origin)),
        Instruction::ExpectError(error) => InstructionView::ExpectError(error),
        Instruction::ExpectTransactStatus(status) => InstructionView::ExpectTransactStatus(status@),
        Instruction::QueryPallet { module_name, response_info } => {
            InstructionView::QueryPallet {
                module_name: module_name@,
                response_info: response_info@,
            }
        },
        Instruction::ExpectPallet { index, name, module_name, crate_major, min_crate_minor } => {
            InstructionView::ExpectPallet {
                index,
                name: name@,
                module_name: module_name@,
                crate_major,
                min_crate_minor,
            }
        },
        Instruction::ReportTransactStatus(info) => InstructionView::ReportTransactStatus(info@),
        Instruction::ClearTransactStatus => InstructionView::ClearTransactStatus,
        Instruction::UniversalOrigin(junction) => InstructionView::UniversalOrigin(junction@),
        Instruction::ExportMessage { network, destination, xcm } => {
            InstructionView::ExportMessage {
                network: network@,
                destination: destination@,
                xcm: program_view(xcm.0),
            }
        },
        Instruction::LockAsset { asset, unlocker } => {
            InstructionView::LockAsset { asset: asset@, unlocker: unlocker@ }
        },
        Instruction::UnlockAsset { asset, target } => {
            InstructionView::UnlockAsset { asset: asset@, target: target@ }
        },
        Instruction::NoteUnlockable { asset, owner } => {
            InstructionView::NoteUnlockable { asset: asset@, owner: owner@ }
        },
        Instruction::RequestUnlock { asset, locker } => {
            InstructionView::RequestUnlock { asset: asset@, locker: locker@ }
        },
        Instruction::SetFeesMode { jit_withdraw } => InstructionView::SetFeesMode { jit_withdraw },
        Instruction::SetTopic(topic) => InstructionView::SetTopic(topic@),
        Instruction::ClearTopic => InstructionView::ClearTopic,
        Instruction::AliasOrigin(origin) => InstructionView::AliasOrigin(origin@),
        Instruction::UnpaidExecution { weight_limit, check_origin } => {
            InstructionView::UnpaidExecution { weight_limit, check_origin: opt_view(check_origin) }
        },
        Instruction::PayFees { asset } => InstructionView::PayFees { asset: asset@ },
        Instruction::InitiateTransfer {
            destination,
            remote_fees,
            preserve_origin,
            assets,
            remote_xcm,
        } => {
            InstructionView::InitiateTransfer {
                destination: destination@,
                remote_fees: opt_view(remote_fees),
                preserve_origin,
                assets: views(assets@),
                remote_xcm: program_view(remote_xcm.0),
            }
        },
        Instruction::ExecuteWithOrigin { descendant_origin, xcm } => {
            InstructionView::ExecuteWithOrigin {
                descendant_origin: opt_view(descendant_origin),
                xcm: program_view(xcm.0),
            }
        },
        Instruction::SetHints { hints } => InstructionView::SetHints { hints: views(hints@) },
    }
}

/// The view of a program held in a vector.
pub open spec fn program_view(v: Vec<Instruction>) -> Seq<InstructionView>
    decreases v,
{
    Seq::new(
        v@.len(),
        |k: int|
            if 0 <= k < v@.len() {
                instruction_view(v@[k])
            } else {
                InstructionView::ClearOrigin
            },
    )
}

impl View for Instruction {
    type V = InstructionView;

    open spec fn view(&self) -> InstructionView {
        instruction_view(*self)
    }
}

impl View for Xcm {
    type V = Seq<InstructionView>;

    open spec fn view(&self) -> Seq<InstructionView> {
        program_view(self.0)
    }
}

/// The view of a program is the views of its instructions.
pub proof fn lemma_program_view(v: Vec<Instruction>)
    ensures
        program_view(v) == views(v@),
{
    assert(program_view(v) =~= views(v@));
}

} // verus!
