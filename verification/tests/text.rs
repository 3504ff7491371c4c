use xcm_decoder::model::asset::{
    Asset, AssetFilter, AssetId, AssetInstance, AssetTransferFilter, Assets, Fungibility,
    WildAsset, WildFungibility,
};
use xcm_decoder::model::envelope::{VersionedInteriorLocation, VersionedXcm};
use xcm_decoder::model::instruction::{Instruction, Xcm};
use xcm_decoder::model::junction::{Junction, Junctions, Location};
use xcm_decoder::model::response::{
    Hint, MaybeErrorCode, OriginKind, PalletInfo, QueryResponseInfo, Response, Weight,
    WeightLimit, XcmError,
};
use xcm_decoder::text::asset::{format_asset, format_asset_filter, format_assets};
use xcm_decoder::text::basic::{bytes_to_hex, format_bool, format_list, format_number};
use xcm_decoder::text::envelope::{render_destination, render_instructions};
use xcm_decoder::text::instruction::{format_instruction, format_xcm};
use xcm_decoder::text::response::{format_response, format_xcm_error};
use xcm_decoder::error::DecodeError;

fn here() -> Location {
    Location { parents: 0, interior: Junctions::Here }
}

fn coin(amount: u128) -> Asset {
    Asset { id: AssetId(here()), fun: Fungibility::Fungible(amount) }
}

fn reply() -> QueryResponseInfo {
    QueryResponseInfo {
        destination: here(),
        query_id: 7,
        max_weight: Weight { ref_time: 1, proof_size: 2 },
    }
}

#[test]
fn bytes_are_shown_as_lower_case_hexadecimal() {
    assert_eq!(bytes_to_hex(&[]), "0x");
    assert_eq!(bytes_to_hex(&[0x00, 0xff, 0x1a, 0xb2]), "0x00ff1ab2");
    assert_eq!(bytes_to_hex(&[0x0a, 0xbc, 0xde, 0xf0, 0x12, 0x34, 0x56, 0x78, 0x9a]), "0x0abcdef0123456789a");
    let all: Vec<u8> = (0u8..=255).collect();
    let shown = bytes_to_hex(&all);
    assert_eq!(shown.len(), 2 + 512);
    for (i, b) in all.iter().enumerate() {
        assert_eq!(shown[2 + 2 * i..4 + 2 * i], format!("{:02x}", b));
    }
}

#[test]
fn numbers_are_shown_in_decimal() {
    assert_eq!(format_number(0), "0");
    assert_eq!(format_number(9), "9");
    assert_eq!(format_number(10), "10");
    assert_eq!(format_number(1_234_567_890), "1234567890");
    assert_eq!(format_number(u64::MAX as u128), "18446744073709551615");
    assert_eq!(format_number(u128::MAX), "340282366920938463463374607431768211455");
    assert_eq!(format_bool(true), "true");
    assert_eq!(format_bool(false), "false");
}

#[test]
fn lists_are_bracketed_and_comma_separated() {
    assert_eq!(format_list(&vec![]), "[]");
    assert_eq!(format_list(&vec!["a".to_string()]), "[a]");
    assert_eq!(
        format_list(&vec!["a".to_string(), "".to_string(), "c d".to_string()]),
        "[a, , c d]"
    );
}

#[test]
fn assets_are_shown_one_by_one_in_their_order() {
    assert_eq!(
        format_asset(&coin(42)),
        "Asset { id: AssetId(Location { parents: 0, interior: Here }), fun: Fungible(42) }"
    );
    assert_eq!(format_assets(&Assets(vec![])), "Assets([])");
    let twice = Assets(vec![coin(2), coin(1), coin(2)]);
    assert_eq!(
        format_assets(&twice),
        format!("Assets([{}, {}, {}])", format_asset(&coin(2)), format_asset(&coin(1)), format_asset(&coin(2)))
    );
    let instance = Asset {
        id: AssetId(here()),
        fun: Fungibility::NonFungible(AssetInstance::Array4([1, 2, 3, 4])),
    };
    assert_eq!(
        format_asset(&instance),
        "Asset { id: AssetId(Location { parents: 0, interior: Here }), fun: NonFungible(Array4(0x01020304)) }"
    );
    assert_eq!(
        format_asset_filter(&AssetFilter::Wild(WildAsset::AllOfCounted {
            id: AssetId(here()),
            fun: WildFungibility::NonFungible,
            count: 3
        })),
        "Wild(AllOfCounted { id: AssetId(Location { parents: 0, interior: Here }), fun: NonFungible, count: 3 })"
    );
}

#[test]
fn instructions_with_their_own_form_are_shown_in_it() {
    assert_eq!(
        format_instruction(&Instruction::WithdrawAsset(Assets(vec![coin(42)]))),
        "WithdrawAsset(Assets([Asset { id: AssetId(Location { parents: 0, interior: Here }), fun: Fungible(42) }]))"
    );
    assert_eq!(
        format_instruction(&Instruction::DepositAsset {
            assets: AssetFilter::Wild(WildAsset::All),
            beneficiary: here()
        }),
        "DepositAsset { assets: Wild(All), beneficiary: Location { parents: 0, interior: Here } }"
    );
    assert_eq!(
        format_instruction(&Instruction::BuyExecution {
            fees: coin(5),
            weight_limit: WeightLimit::Unlimited
        }),
        "BuyExecution { fees: Asset { id: AssetId(Location { parents: 0, interior: Here }), fun: Fungible(5) }, weight_limit: Unlimited }"
    );
    assert_eq!(
        format_instruction(&Instruction::SetTopic([0x11; 32])),
        format!("SetTopic(0x{})", "11".repeat(32))
    );
    assert_eq!(
        format_instruction(&Instruction::DescendOrigin(Junctions::X1([Junction::Parachain(7)]))),
        "DescendOrigin(X1([Parachain(7)]))"
    );
    assert_eq!(
        format_instruction(&Instruction::UniversalOrigin(Junction::AccountKey20 {
            network: None,
            key: [0xcd; 20]
        })),
        format!("UniversalOrigin(AccountKey20 {{ network: None, key: 0x{} }})", "cd".repeat(20))
    );
    assert_eq!(
        format_instruction(&Instruction::ReportHolding {
            response_info: reply(),
            assets: AssetFilter::Wild(WildAsset::All)
        }),
        "ReportHolding { response_info: { destination: Location { parents: 0, interior: Here }, query_id: 7, max_weight: Weight { ref_time: 1, proof_size: 2 } }, assets: Wild(All) }"
    );
    assert_eq!(
        format_instruction(&Instruction::QueryResponse {
            query_id: 9,
            response: Response::Version(5),
            max_weight: Weight { ref_time: 3, proof_size: 4 },
            querier: Some(here())
        }),
        "QueryResponse { query_id: 9, response: Version(5), max_weight: Weight { ref_time: 3, proof_size: 4 }, querier: Some(Location { parents: 0, interior: Here }) }"
    );
}

#[test]
fn the_program_of_two_instructions_is_left_out() {
    let nested = || Xcm(vec![Instruction::ClearOrigin, Instruction::Trap(1)]);
    assert_eq!(
        format_instruction(&Instruction::InitiateReserveWithdraw {
            assets: AssetFilter::Wild(WildAsset::All),
            reserve: here(),
            xcm: nested()
        }),
        "InitiateReserveWithdraw { assets: Wild(All), reserve: Location { parents: 0, interior: Here }, xcm: ... }"
    );
    assert_eq!(
        format_instruction(&Instruction::InitiateTeleport {
            assets: AssetFilter::Definite(Assets(vec![])),
            dest: here(),
            xcm: nested()
        }),
        "InitiateTeleport { assets: Definite(Assets([])), dest: Location { parents: 0, interior: Here }, xcm: ... }"
    );
}

#[test]
fn other_nested_programs_are_shown_in_full() {
    let nested = Xcm(vec![
        Instruction::ClearOrigin,
        Instruction::SetAppendix(Xcm(vec![Instruction::Trap(1)])),
    ]);
    assert_eq!(format_xcm(&nested), "Xcm([ClearOrigin, SetAppendix(Xcm([Trap(1)]))])");
    assert_eq!(format_xcm(&Xcm(vec![])), "Xcm([])");
    assert_eq!(
        format_instruction(&Instruction::SetErrorHandler(nested)),
        "SetErrorHandler(Xcm([ClearOrigin, SetAppendix(Xcm([Trap(1)]))]))"
    );
    assert_eq!(
        format_instruction(&Instruction::InitiateTransfer {
            destination: here(),
            remote_fees: None,
            preserve_origin: false,
            assets: vec![AssetTransferFilter::Teleport(AssetFilter::Wild(WildAsset::All))],
            remote_xcm: Xcm(vec![Instruction::RefundSurplus])
        }),
        "InitiateTransfer { destination: Location { parents: 0, interior: Here }, remote_fees: None, preserve_origin: false, assets: [Teleport(Wild(All))], remote_xcm: Xcm([RefundSurplus]) }"
    );
}

#[test]
fn byte_strings_in_any_instruction_are_hexadecimal() {
    assert_eq!(
        format_instruction(&Instruction::Transact {
            origin_kind: OriginKind::Native,
            fallback_max_weight: None,
            call: vec![1, 2, 0xff]
        }),
        "Transact { origin_kind: Native, fallback_max_weight: None, call: 0x0102ff }"
    );
    assert_eq!(
        format_instruction(&Instruction::ExpectPallet {
            index: 1,
            name: b"ab".to_vec(),
            module_name: vec![],
            crate_major: 2,
            min_crate_minor: 3
        }),
        "ExpectPallet { index: 1, name: 0x6162, module_name: 0x, crate_major: 2, min_crate_minor: 3 }"
    );
    assert_eq!(
        format_instruction(&Instruction::ExpectTransactStatus(MaybeErrorCode::TruncatedError(vec![9]))),
        "ExpectTransactStatus(TruncatedError(0x09))"
    );
    assert_eq!(
        format_response(&Response::PalletsInfo(vec![PalletInfo {
            index: 1,
            name: vec![0x61],
            module_name: vec![0x62],
            major: 1,
            minor: 2,
            patch: 3
        }])),
        "PalletsInfo([PalletInfo { index: 1, name: 0x61, module_name: 0x62, major: 1, minor: 2, patch: 3 }])"
    );
    assert_eq!(
        format_instruction(&Instruction::SetHints {
            hints: vec![Hint::AssetClaimer { location: here() }]
        }),
        "SetHints { hints: [AssetClaimer { location: Location { parents: 0, interior: Here } }] }"
    );
}

#[test]
fn errors_are_shown_by_name() {
    assert_eq!(format_xcm_error(&XcmError::Overflow), "Overflow");
    assert_eq!(format_xcm_error(&XcmError::FailedToTransactAsset), "FailedToTransactAsset(\"\")");
    assert_eq!(format_xcm_error(&XcmError::Transport), "Transport(\"\")");
    assert_eq!(format_xcm_error(&XcmError::Trap(3)), "Trap(3)");
    assert_eq!(
        format_instruction(&Instruction::ExpectError(Some((2, XcmError::Barrier)))),
        "ExpectError(Some((2, Barrier)))"
    );
}

#[test]
fn lines_carry_the_index_of_their_instruction() {
    let program: Vec<Instruction> = (0..12).map(|i| Instruction::Trap(i)).collect();
    let lines = render_instructions(&VersionedXcm::V5(Xcm(program))).unwrap();
    assert_eq!(lines.len(), 12);
    assert_eq!(lines[0], "[0] Trap(0)");
    assert_eq!(lines[9], "[9] Trap(9)");
    assert_eq!(lines[11], "[11] Trap(11)");
    assert_eq!(render_instructions(&VersionedXcm::V5(Xcm(vec![]))), Ok(vec![]));
}

#[test]
fn other_versions_have_no_lines() {
    assert_eq!(
        render_destination(&VersionedInteriorLocation::V5(Junctions::Here)),
        Ok("Destination: Here".to_string())
    );
    assert_eq!(
        render_destination(&VersionedInteriorLocation::Unsupported { version: 3, encoded: vec![0] }),
        Err(DecodeError::UnsupportedVersion(3))
    );
    assert_eq!(
        render_instructions(&VersionedXcm::Unsupported { version: 4, encoded: vec![] }),
        Err(DecodeError::UnsupportedVersion(4))
    );
}
