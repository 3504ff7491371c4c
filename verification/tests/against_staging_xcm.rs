use std::sync::Arc;

use parity_scale_codec::Encode;
use staging_xcm::v5::{
    Asset as RefAsset, AssetFilter as RefAssetFilter, AssetId as RefAssetId,
    AssetInstance as RefAssetInstance, AssetTransferFilter as RefAssetTransferFilter,
    Assets as RefAssets, BodyId as RefBodyId, BodyPart as RefBodyPart, Error as RefError,
    Fungibility as RefFungibility, Hint as RefHint, Instruction as RefInstruction,
    Junction as RefJunction, Junctions as RefJunctions, Location as RefLocation,
    MaybeErrorCode as RefMaybeErrorCode, NetworkId as RefNetworkId, OriginKind as RefOriginKind,
    PalletInfo as RefPalletInfo, QueryResponseInfo as RefQueryResponseInfo,
    Response as RefResponse, Weight as RefWeight, WeightLimit as RefWeightLimit,
    WildAsset as RefWildAsset, WildFungibility as RefWildFungibility, Xcm as RefXcm,
};
use staging_xcm::v3::{
    AssetId as V3AssetId, Error as V3Error, Fungibility as V3Fungibility,
    Instruction as V3Instruction, Junction as V3Junction, Junctions as V3Junctions,
    MultiAsset as V3Asset, MultiAssetFilter as V3AssetFilter, MultiAssets as V3Assets,
    MultiLocation as V3Location, NetworkId as V3NetworkId, Response as V3Response,
    WildMultiAsset as V3WildAsset, Xcm as V3Xcm,
};
use staging_xcm::v4::{
    Asset as V4Asset, AssetFilter as V4AssetFilter, AssetId as V4AssetId, Assets as V4Assets,
    Fungibility as V4Fungibility, Instruction as V4Instruction, Junction as V4Junction,
    Junctions as V4Junctions, Location as V4Location, NetworkId as V4NetworkId,
    Response as V4Response, WildAsset as V4WildAsset, Xcm as V4Xcm,
};
use staging_xcm::{VersionedInteriorLocation as RefDest, VersionedXcm as RefMessage};
use xcm_decoder::codec::envelope::{
    decode_bridge_message, decode_versioned_interior_location, decode_versioned_xcm,
};
use xcm_decoder::codec::instruction::{decode_instruction, decode_xcm};
use xcm_decoder::codec::junction::{decode_junction, decode_junctions, decode_location};
use xcm_decoder::codec::response::decode_xcm_error;
use xcm_decoder::model::envelope::{VersionedInteriorLocation, VersionedXcm};
use xcm_decoder::text::envelope::{render_destination, render_instructions};
use xcm_decoder::text::instruction::format_instruction;
use xcm_decoder::text::junction::{format_junction, format_junctions, format_location};
use xcm_decoder::text::response::format_xcm_error;

fn place() -> RefLocation {
    RefLocation {
        parents: 1,
        interior: RefJunctions::X3(Arc::new([
            RefJunction::Parachain(1000),
            RefJunction::PalletInstance(50),
            RefJunction::GeneralIndex(1984),
        ])),
    }
}

fn coin(amount: u128) -> RefAsset {
    RefAsset { id: RefAssetId(place()), fun: RefFungibility::Fungible(amount) }
}

fn coins() -> RefAssets {
    RefAssets::from(vec![
        coin(70_000),
        RefAsset {
            id: RefAssetId(RefLocation { parents: 0, interior: RefJunctions::Here }),
            fun: RefFungibility::NonFungible(RefAssetInstance::Index(9)),
        },
    ])
}

fn reply() -> RefQueryResponseInfo {
    RefQueryResponseInfo {
        destination: place(),
        query_id: 77,
        max_weight: RefWeight::from_parts(1_000_000, 65_536),
    }
}

fn inner() -> RefXcm<()> {
    RefXcm(vec![RefInstruction::ClearOrigin, RefInstruction::Trap(5)])
}

/// Instructions that `staging_xcm` shows, through `Debug`, as this library
/// shows them: they hold no byte string and no bounded vector, and none is
/// shown with its program left out.
fn plain_instructions() -> Vec<RefInstruction<()>> {
    vec![
        RefInstruction::WithdrawAsset(coins()),
        RefInstruction::ReserveAssetDeposited(coins()),
        RefInstruction::ReceiveTeleportedAsset(coins()),
        RefInstruction::QueryResponse {
            query_id: 1 << 40,
            response: RefResponse::ExecutionResult(Some((3, RefError::Trap(8)))),
            max_weight: RefWeight::from_parts(5, 6),
            querier: Some(place()),
        },
        RefInstruction::QueryResponse {
            query_id: 0,
            response: RefResponse::Version(5),
            max_weight: RefWeight::from_parts(0, 0),
            querier: None,
        },
        RefInstruction::QueryResponse {
            query_id: 2,
            response: RefResponse::Assets(coins()),
            max_weight: RefWeight::from_parts(u64::MAX, 1 << 33),
            querier: None,
        },
        RefInstruction::QueryResponse {
            query_id: 2,
            response: RefResponse::DispatchResult(RefMaybeErrorCode::Success),
            max_weight: RefWeight::from_parts(1, 1),
            querier: None,
        },
        RefInstruction::QueryResponse {
            query_id: 2,
            response: RefResponse::Null,
            max_weight: RefWeight::from_parts(1, 1),
            querier: None,
        },
        RefInstruction::TransferAsset { assets: coins(), beneficiary: place() },
        RefInstruction::TransferReserveAsset { assets: coins(), dest: place(), xcm: inner() },
        RefInstruction::HrmpNewChannelOpenRequest {
            sender: 1,
            max_message_size: 1 << 20,
            max_capacity: u32::MAX,
        },
        RefInstruction::HrmpChannelAccepted { recipient: 2000 },
        RefInstruction::HrmpChannelClosing { initiator: 1, sender: 2, recipient: 3 },
        RefInstruction::ClearOrigin,
        RefInstruction::DescendOrigin(place().interior),
        RefInstruction::ReportError(reply()),
        RefInstruction::DepositAsset {
            assets: RefAssetFilter::Wild(RefWildAsset::All),
            beneficiary: place(),
        },
        RefInstruction::DepositAsset {
            assets: RefAssetFilter::Definite(coins()),
            beneficiary: place(),
        },
        RefInstruction::DepositReserveAsset {
            assets: RefAssetFilter::Wild(RefWildAsset::AllCounted(3)),
            dest: place(),
            xcm: inner(),
        },
        RefInstruction::ExchangeAsset {
            give: RefAssetFilter::Wild(RefWildAsset::AllOf {
                id: RefAssetId(place()),
                fun: RefWildFungibility::Fungible,
            }),
            want: coins(),
            maximal: true,
        },
        RefInstruction::ExchangeAsset {
            give: RefAssetFilter::Wild(RefWildAsset::AllOfCounted {
                id: RefAssetId(place()),
                fun: RefWildFungibility::NonFungible,
                count: 4,
            }),
            want: coins(),
            maximal: false,
        },
        RefInstruction::BuyExecution {
            fees: coin(1),
            weight_limit: RefWeightLimit::Limited(RefWeight::from_parts(9, 10)),
        },
        RefInstruction::BuyExecution { fees: coin(1), weight_limit: RefWeightLimit::Unlimited },
        RefInstruction::RefundSurplus,
        RefInstruction::SetErrorHandler(inner()),
        RefInstruction::SetAppendix(RefXcm(vec![RefInstruction::SetAppendix(inner())])),
        RefInstruction::SetAppendix(RefXcm(vec![])),
        RefInstruction::ClearError,
        RefInstruction::ClaimAsset { assets: coins(), ticket: place() },
        RefInstruction::Trap(u64::MAX),
        RefInstruction::SubscribeVersion {
            query_id: 5,
            max_response_weight: RefWeight::from_parts(7, 8),
        },
        RefInstruction::UnsubscribeVersion,
        RefInstruction::BurnAsset(coins()),
        RefInstruction::ExpectAsset(coins()),
        RefInstruction::ExpectOrigin(Some(place())),
        RefInstruction::ExpectOrigin(None),
        RefInstruction::ExpectError(Some((4, RefError::WeightLimitReached(RefWeight::from_parts(1, 2))))),
        RefInstruction::ExpectError(None),
        RefInstruction::ExpectTransactStatus(RefMaybeErrorCode::Success),
        RefInstruction::ReportTransactStatus(reply()),
        RefInstruction::ClearTransactStatus,
        RefInstruction::UniversalOrigin(RefJunction::GlobalConsensus(RefNetworkId::Kusama)),
        RefInstruction::UniversalOrigin(RefJunction::GlobalConsensus(RefNetworkId::Ethereum {
            chain_id: 11155111,
        })),
        RefInstruction::UniversalOrigin(RefJunction::Plurality {
            id: RefBodyId::Index(7),
            part: RefBodyPart::MoreThanProportion { nom: 2, denom: 3 },
        }),
        RefInstruction::UniversalOrigin(RefJunction::Plurality {
            id: RefBodyId::Treasury,
            part: RefBodyPart::Members { count: 12 },
        }),
        RefInstruction::UniversalOrigin(RefJunction::AccountIndex64 {
            network: Some(RefNetworkId::PolkadotBulletin),
            index: 1 << 50,
        }),
        RefInstruction::ExportMessage {
            network: RefNetworkId::BitcoinCash,
            destination: place().interior,
            xcm: inner(),
        },
        RefInstruction::LockAsset { asset: coin(2), unlocker: place() },
        RefInstruction::UnlockAsset { asset: coin(3), target: place() },
        RefInstruction::NoteUnlockable { asset: coin(4), owner: place() },
        RefInstruction::RequestUnlock { asset: coin(5), locker: place() },
        RefInstruction::SetFeesMode { jit_withdraw: true },
        RefInstruction::ClearTopic,
        RefInstruction::AliasOrigin(place()),
        RefInstruction::UnpaidExecution {
            weight_limit: RefWeightLimit::Unlimited,
            check_origin: Some(place()),
        },
        RefInstruction::PayFees { asset: coin(6) },
        RefInstruction::ExecuteWithOrigin { descendant_origin: Some(place().interior), xcm: inner() },
        RefInstruction::ExecuteWithOrigin { descendant_origin: None, xcm: inner() },
    ]
}

/// Instructions that this library shows otherwise than `staging_xcm` does.
fn other_instructions() -> Vec<RefInstruction<()>> {
    vec![
        RefInstruction::Transact {
            origin_kind: RefOriginKind::SovereignAccount,
            fallback_max_weight: Some(RefWeight::from_parts(3, 4)),
            call: vec![1u8, 2, 3].into(),
        },
        RefInstruction::InitiateReserveWithdraw {
            assets: RefAssetFilter::Wild(RefWildAsset::All),
            reserve: place(),
            xcm: inner(),
        },
        RefInstruction::InitiateTeleport {
            assets: RefAssetFilter::Wild(RefWildAsset::All),
            dest: place(),
            xcm: inner(),
        },
        RefInstruction::ReportHolding {
            response_info: reply(),
            assets: RefAssetFilter::Wild(RefWildAsset::All),
        },
        RefInstruction::ExpectTransactStatus(RefMaybeErrorCode::Error(vec![1u8, 2].try_into().unwrap())),
        RefInstruction::ExpectTransactStatus(RefMaybeErrorCode::TruncatedError(
            vec![1u8; 128].try_into().unwrap(),
        )),
        RefInstruction::QueryPallet { module_name: vec![b'x'; 5], response_info: reply() },
        RefInstruction::ExpectPallet {
            index: 3,
            name: vec![b'a', b'b'],
            module_name: vec![b'c'],
            crate_major: 1,
            min_crate_minor: 2,
        },
        RefInstruction::SetTopic([7u8; 32]),
        RefInstruction::QueryResponse {
            query_id: 2,
            response: RefResponse::PalletsInfo(
                vec![
                    RefPalletInfo::new(1, vec![b'a'], vec![b'b', b'c'], 1, 2, 3).unwrap(),
                    RefPalletInfo::new(2, vec![], vec![], 4, 5, 6).unwrap(),
                ]
                .try_into()
                .unwrap(),
            ),
            max_weight: RefWeight::from_parts(1, 1),
            querier: None,
        },
        RefInstruction::InitiateTransfer {
            destination: place(),
            remote_fees: Some(RefAssetTransferFilter::Teleport(RefAssetFilter::Wild(
                RefWildAsset::All,
            ))),
            preserve_origin: true,
            assets: vec![
                RefAssetTransferFilter::ReserveDeposit(RefAssetFilter::Definite(coins())),
                RefAssetTransferFilter::ReserveWithdraw(RefAssetFilter::Wild(RefWildAsset::All)),
            ]
            .try_into()
            .unwrap(),
            remote_xcm: inner(),
        },
        RefInstruction::SetHints {
            hints: vec![RefHint::AssetClaimer { location: place() }].try_into().unwrap(),
        },
        RefInstruction::UniversalOrigin(RefJunction::AccountId32 {
            network: Some(RefNetworkId::ByGenesis([3u8; 32])),
            id: [4u8; 32],
        }),
        RefInstruction::UniversalOrigin(RefJunction::AccountKey20 {
            network: Some(RefNetworkId::ByFork { block_number: 9, block_hash: [5u8; 32] }),
            key: [6u8; 20],
        }),
        RefInstruction::UniversalOrigin(RefJunction::GeneralKey { length: 3, data: [8u8; 32] }),
        RefInstruction::UniversalOrigin(RefJunction::Plurality {
            id: RefBodyId::Moniker([1, 2, 3, 4]),
            part: RefBodyPart::Voice,
        }),
        RefInstruction::BurnAsset(RefAssets::from(vec![
            RefAsset {
                id: RefAssetId(place()),
                fun: RefFungibility::NonFungible(RefAssetInstance::Array4([1; 4])),
            },
            RefAsset {
                id: RefAssetId(place()),
                fun: RefFungibility::NonFungible(RefAssetInstance::Array8([2; 8])),
            },
            RefAsset {
                id: RefAssetId(place()),
                fun: RefFungibility::NonFungible(RefAssetInstance::Array16([3; 16])),
            },
            RefAsset {
                id: RefAssetId(place()),
                fun: RefFungibility::NonFungible(RefAssetInstance::Array32([4; 32])),
            },
            RefAsset {
                id: RefAssetId(place()),
                fun: RefFungibility::NonFungible(RefAssetInstance::Undefined),
            },
        ])),
    ]
}

#[test]
fn each_encoded_instruction_is_read_to_its_end() {
    let mut all = plain_instructions();
    all.extend(other_instructions());
    for instruction in all {
        let mut bytes = instruction.encode();
        let end = bytes.len();
        bytes.extend_from_slice(&[0xff, 0xff]);
        let read = decode_instruction(&bytes, 0);
        assert!(read.is_ok(), "{:?}: {:?}", instruction, read);
        assert_eq!(read.unwrap().1, end, "{:?}", instruction);
    }
}

#[test]
fn encoded_instructions_cover_every_discriminant() {
    let mut seen = [false; 52];
    let mut all = plain_instructions();
    all.extend(other_instructions());
    for instruction in all {
        seen[instruction.encode()[0] as usize] = true;
    }
    for (d, s) in seen.iter().enumerate() {
        assert!(*s, "no instruction with discriminant {}", d);
    }
}

#[test]
fn plain_instructions_are_shown_as_their_debug_text() {
    for instruction in plain_instructions() {
        let bytes = instruction.encode();
        let (ours, _) = decode_instruction(&bytes, 0).unwrap();
        assert_eq!(format_instruction(&ours), format!("{:?}", instruction));
    }
}

#[test]
fn an_encoded_program_is_read_and_shown_line_by_line() {
    let program = RefXcm(plain_instructions());
    let bytes = program.encode();
    let (ours, end) = decode_xcm(&bytes, 0).unwrap();
    assert_eq!(end, bytes.len());
    assert_eq!(ours.0.len(), program.0.len());
    let lines = render_instructions(&VersionedXcm::V5(ours)).unwrap();
    for (i, line) in lines.iter().enumerate() {
        assert_eq!(*line, format!("[{}] {:?}", i, program.0[i]));
    }
}

#[test]
fn an_encoded_message_is_read_whole() {
    let dest = RefDest::V5(place().interior);
    let message = RefMessage::<()>::V5(RefXcm(plain_instructions()));
    let mut bytes = dest.encode();
    bytes.extend(message.encode());
    let (ours, end) = decode_bridge_message(&bytes, 0).unwrap();
    assert_eq!(end, bytes.len());
    assert_eq!(
        render_destination(&ours.universal_dest),
        Ok(format!("Destination: {:?}", place().interior))
    );
    assert!(matches!(ours.universal_dest, VersionedInteriorLocation::V5(_)));
    assert_eq!(render_instructions(&ours.message).unwrap().len(), plain_instructions().len());
}

#[test]
fn every_encoded_error_is_read_and_named() {
    let errors = vec![
        RefError::Overflow,
        RefError::Unimplemented,
        RefError::UntrustedReserveLocation,
        RefError::UntrustedTeleportLocation,
        RefError::LocationFull,
        RefError::LocationNotInvertible,
        RefError::BadOrigin,
        RefError::InvalidLocation,
        RefError::AssetNotFound,
        RefError::FailedToTransactAsset(""),
        RefError::NotWithdrawable,
        RefError::LocationCannotHold,
        RefError::ExceedsMaxMessageSize,
        RefError::DestinationUnsupported,
        RefError::Transport(""),
        RefError::Unroutable,
        RefError::UnknownClaim,
        RefError::FailedToDecode,
        RefError::MaxWeightInvalid,
        RefError::NotHoldingFees,
        RefError::TooExpensive,
        RefError::Trap(1 << 40),
        RefError::ExpectationFalse,
        RefError::PalletNotFound,
        RefError::NameMismatch,
        RefError::VersionIncompatible,
        RefError::HoldingWouldOverflow,
        RefError::ExportError,
        RefError::ReanchorFailed,
        RefError::NoDeal,
        RefError::FeesNotMet,
        RefError::LockError,
        RefError::NoPermission,
        RefError::Unanchored,
        RefError::NotDepositable,
        RefError::TooManyAssets,
        RefError::UnhandledXcmVersion,
        RefError::WeightLimitReached(RefWeight::from_parts(3, 4)),
        RefError::Barrier,
        RefError::WeightNotComputable,
        RefError::ExceedsStackLimit,
    ];
    assert_eq!(errors.len(), 41);
    for (d, error) in errors.iter().enumerate() {
        let bytes = error.encode();
        assert_eq!(bytes[0] as usize, d);
        let (ours, end) = decode_xcm_error(&bytes, 0).unwrap();
        assert_eq!(end, bytes.len());
        assert_eq!(format_xcm_error(&ours), format!("{:?}", error));
    }
}

#[test]
fn encoded_locations_are_read_and_shown() {
    let location = place();
    let bytes = location.encode();
    let (ours, end) = decode_location(&bytes, 0).unwrap();
    assert_eq!(end, bytes.len());
    assert_eq!(format_location(&ours), format!("{:?}", location));
    let eight = RefJunctions::X8(Arc::new([
        RefJunction::Parachain(1),
        RefJunction::OnlyChild,
        RefJunction::PalletInstance(3),
        RefJunction::GeneralIndex(4),
        RefJunction::GlobalConsensus(RefNetworkId::Polkadot),
        RefJunction::GlobalConsensus(RefNetworkId::BitcoinCore),
        RefJunction::AccountIndex64 { network: None, index: 7 },
        RefJunction::Plurality { id: RefBodyId::Unit, part: RefBodyPart::Voice },
    ]));
    let bytes = eight.encode();
    let (ours, end) = decode_junctions(&bytes, 0).unwrap();
    assert_eq!(end, bytes.len());
    assert_eq!(format_junctions(&ours), format!("{:?}", eight));
    let bodies = [
        RefBodyId::Unit,
        RefBodyId::Index(1 << 20),
        RefBodyId::Executive,
        RefBodyId::Technical,
        RefBodyId::Legislative,
        RefBodyId::Judicial,
        RefBodyId::Defense,
        RefBodyId::Administration,
        RefBodyId::Treasury,
    ];
    let parts = [
        RefBodyPart::Voice,
        RefBodyPart::Members { count: 5 },
        RefBodyPart::Fraction { nom: 1, denom: 2 },
        RefBodyPart::AtLeastProportion { nom: 3, denom: 4 },
        RefBodyPart::MoreThanProportion { nom: 5, denom: 6 },
    ];
    for id in bodies {
        for part in parts {
            let junction = RefJunction::Plurality { id, part };
            let bytes = junction.encode();
            let (ours, end) = decode_junction(&bytes, 0).unwrap();
            assert_eq!(end, bytes.len());
            assert_eq!(format_junction(&ours), format!("{:?}", junction));
        }
    }
}

#[test]
fn interiors_of_earlier_versions_are_walked_to_their_end() {
    let encodings = vec![
        RefDest::V4(V4Junctions::X3(Arc::new([
            V4Junction::GlobalConsensus(V4NetworkId::Westend),
            V4Junction::AccountId32 { network: Some(V4NetworkId::Rococo), id: [1; 32] },
            V4Junction::AccountKey20 { network: Some(V4NetworkId::Wococo), key: [2; 20] },
        ])))
        .encode(),
        RefDest::V4(V4Junctions::Here).encode(),
        RefDest::V3(V3Junctions::X2(
            V3Junction::AccountIndex64 { network: Some(V3NetworkId::Westend), index: 1 << 40 },
            V3Junction::GeneralKey { length: 2, data: [3; 32] },
        ))
        .encode(),
        RefDest::V3(V3Junctions::X3(
            V3Junction::GlobalConsensus(V3NetworkId::Ethereum { chain_id: 5 }),
            V3Junction::Parachain(2000),
            V3Junction::AccountId32 { network: None, id: [9; 32] },
        ))
        .encode(),
    ];
    for mut bytes in encodings {
        let end = bytes.len();
        bytes.extend_from_slice(&[5, 0]);
        let (ours, at) = decode_versioned_interior_location(&bytes, 0).unwrap();
        assert_eq!(at, end);
        assert_eq!(
            ours,
            VersionedInteriorLocation::Unsupported {
                version: bytes[0],
                encoded: bytes[1..end].to_vec()
            }
        );
        for cut in 0..end {
            assert_eq!(
                decode_versioned_interior_location(&bytes[..cut], 0),
                Err(xcm_decoder::error::DecodeError::IncompleteInput)
            );
        }
    }
}

#[test]
fn programs_of_earlier_versions_are_walked_to_their_end() {
    let place4 = V4Location {
        parents: 1,
        interior: V4Junctions::X2(Arc::new([
            V4Junction::GlobalConsensus(V4NetworkId::Rococo),
            V4Junction::AccountKey20 { network: Some(V4NetworkId::Westend), key: [7; 20] },
        ])),
    };
    let coin4 = V4Asset { id: V4AssetId(place4.clone()), fun: V4Fungibility::Fungible(5) };
    let program4 = V4Xcm::<()>(vec![
        V4Instruction::WithdrawAsset(V4Assets::from(vec![coin4.clone()])),
        V4Instruction::BuyExecution {
            fees: coin4.clone(),
            weight_limit: RefWeightLimit::Limited(RefWeight::from_parts(1, 2)),
        },
        V4Instruction::Transact {
            origin_kind: RefOriginKind::Native,
            require_weight_at_most: RefWeight::from_parts(1 << 40, 2),
            call: vec![1u8, 2, 3].into(),
        },
        V4Instruction::DepositAsset {
            assets: V4AssetFilter::Wild(V4WildAsset::AllCounted(2)),
            beneficiary: place4.clone(),
        },
        V4Instruction::DepositReserveAsset {
            assets: V4AssetFilter::Definite(V4Assets::from(vec![coin4.clone()])),
            dest: place4.clone(),
            xcm: V4Xcm(vec![V4Instruction::ClearOrigin]),
        },
        V4Instruction::SetAppendix(V4Xcm(vec![
            V4Instruction::RefundSurplus,
            V4Instruction::ExpectError(Some((
                1,
                V3Error::WeightLimitReached(RefWeight::from_parts(3, 4)),
            ))),
            V4Instruction::ExpectError(Some((2, V3Error::ExceedsStackLimit))),
            V4Instruction::ExpectError(Some((3, V3Error::Trap(9)))),
        ])),
        V4Instruction::QueryResponse {
            query_id: 3,
            response: V4Response::Assets(V4Assets::from(vec![coin4.clone()])),
            max_weight: RefWeight::from_parts(5, 6),
            querier: Some(place4.clone()),
        },
        V4Instruction::ExportMessage {
            network: V4NetworkId::Wococo,
            destination: place4.interior.clone(),
            xcm: V4Xcm(vec![V4Instruction::Trap(1)]),
        },
        V4Instruction::SetTopic([1; 32]),
        V4Instruction::UnpaidExecution {
            weight_limit: RefWeightLimit::Unlimited,
            check_origin: Some(place4.clone()),
        },
    ]);
    let place3 = V3Location {
        parents: 0,
        interior: V3Junctions::X1(V3Junction::GlobalConsensus(V3NetworkId::Westend)),
    };
    let named3 = V3Asset { id: V3AssetId::Abstract([3; 32]), fun: V3Fungibility::Fungible(1) };
    let placed3 = V3Asset { id: V3AssetId::Concrete(place3), fun: V3Fungibility::Fungible(2) };
    let program3 = V3Xcm::<()>(vec![
        V3Instruction::ReserveAssetDeposited(V3Assets::from(vec![placed3.clone(), named3.clone()])),
        V3Instruction::ClearOrigin,
        V3Instruction::BuyExecution { fees: named3.clone(), weight_limit: RefWeightLimit::Unlimited },
        V3Instruction::DepositAsset {
            assets: V3AssetFilter::Wild(V3WildAsset::AllOf {
                id: V3AssetId::Abstract([4; 32]),
                fun: staging_xcm::v3::WildFungibility::Fungible,
            }),
            beneficiary: place3,
        },
        V3Instruction::QueryResponse {
            query_id: 1,
            response: V3Response::ExecutionResult(Some((1, V3Error::Barrier))),
            max_weight: RefWeight::from_parts(1, 1),
            querier: None,
        },
        V3Instruction::InitiateTeleport {
            assets: V3AssetFilter::Definite(V3Assets::from(vec![placed3])),
            dest: place3,
            xcm: V3Xcm(vec![V3Instruction::ClearTopic]),
        },
    ]);
    let encodings = vec![RefMessage::V4(program4).encode(), RefMessage::V3(program3).encode()];
    for mut bytes in encodings {
        let end = bytes.len();
        bytes.push(0xee);
        let (ours, at) = decode_versioned_xcm(&bytes, 0).unwrap();
        assert_eq!(at, end);
        assert_eq!(
            ours,
            VersionedXcm::Unsupported { version: bytes[0], encoded: bytes[1..end].to_vec() }
        );
        assert_eq!(
            render_instructions(&ours),
            Err(xcm_decoder::error::DecodeError::UnsupportedVersion(bytes[0]))
        );
        for cut in 0..end {
            assert_eq!(
                decode_versioned_xcm(&bytes[..cut], 0),
                Err(xcm_decoder::error::DecodeError::IncompleteInput)
            );
        }
    }
}
