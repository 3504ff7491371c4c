use xcm_decoder::codec::envelope::{
    decode_bridge_message, decode_versioned_interior_location, decode_versioned_xcm,
};
use xcm_decoder::codec::instruction::{decode_instruction, decode_xcm};
use xcm_decoder::error::{DecodeError, Kind};
use xcm_decoder::model::asset::{Asset, AssetId, Assets, Fungibility};
use xcm_decoder::model::envelope::{BridgeMessage, VersionedInteriorLocation, VersionedXcm};
use xcm_decoder::model::instruction::{Instruction, Xcm};
use xcm_decoder::model::junction::{Junction, Junctions, Location};
use xcm_decoder::text::envelope::{render_destination, render_instructions};

fn sample() -> Vec<u8> {
    vec![5, 1, 0, 0xa1, 0x0f, 5, 4, 0, 4, 0, 0, 0, 0xa8]
}

fn sample_message() -> BridgeMessage {
    BridgeMessage {
        universal_dest: VersionedInteriorLocation::V5(Junctions::X1([Junction::Parachain(1000)])),
        message: VersionedXcm::V5(Xcm(vec![Instruction::WithdrawAsset(Assets(vec![Asset {
            id: AssetId(Location { parents: 0, interior: Junctions::Here }),
            fun: Fungibility::Fungible(42),
        }]))])),
    }
}

#[test]
fn bridge_message_decodes_destination_then_message() {
    assert_eq!(decode_bridge_message(&sample(), 0), Ok((sample_message(), 13)));
}

#[test]
fn bridge_message_renders_destination_and_indexed_instructions() {
    let (message, _) = decode_bridge_message(&sample(), 0).unwrap();
    assert_eq!(
        render_destination(&message.universal_dest),
        Ok("Destination: X1([Parachain(1000)])".to_string())
    );
    assert_eq!(
        render_instructions(&message.message),
        Ok(vec![
            "[0] WithdrawAsset(Assets([Asset { id: AssetId(Location { parents: 0, interior: Here }), fun: Fungible(42) }]))"
                .to_string()
        ])
    );
}

#[test]
fn bridge_message_may_begin_after_a_prefix() {
    let mut bytes = vec![0x34, 0x00];
    bytes.extend(sample());
    bytes.push(0xee);
    assert_eq!(decode_bridge_message(&bytes, 2), Ok((sample_message(), 15)));
}

#[test]
fn every_truncation_of_a_message_is_incomplete() {
    let bytes = sample();
    for cut in 0..bytes.len() {
        assert_eq!(decode_bridge_message(&bytes[..cut], 0), Err(DecodeError::IncompleteInput));
    }
}

#[test]
fn truncation_inside_the_last_element_of_a_counted_sequence_is_incomplete() {
    let assets_then_more = [8u8, 0, 0, 0, 0xa8, 1, 1, 0, 0xa1, 0x0f, 0, 4];
    assert!(xcm_decoder::codec::asset::decode_assets(&assets_then_more, 0).is_ok());
    for cut in 5..assets_then_more.len() {
        assert_eq!(
            xcm_decoder::codec::asset::decode_assets(&assets_then_more[..cut], 0),
            Err(DecodeError::IncompleteInput)
        );
    }
}

#[test]
fn unknown_instruction_discriminant_yields_no_instructions() {
    assert_eq!(
        decode_instruction(&[52], 0),
        Err(DecodeError::UnknownVariant(Kind::Instruction, 52))
    );
    assert_eq!(
        decode_instruction(&[200, 0, 0], 0),
        Err(DecodeError::UnknownVariant(Kind::Instruction, 200))
    );
    let second_is_unknown = [8u8, 10, 200];
    assert_eq!(
        decode_xcm(&second_is_unknown, 0),
        Err(DecodeError::UnknownVariant(Kind::Instruction, 200))
    );
    let in_envelope = [5u8, 0, 5, 8, 10, 77];
    assert_eq!(
        decode_bridge_message(&in_envelope, 0),
        Err(DecodeError::UnknownVariant(Kind::Instruction, 77))
    );
}

#[test]
fn unknown_version_tags_are_rejected() {
    assert_eq!(
        decode_versioned_interior_location(&[2, 0], 0),
        Err(DecodeError::UnknownVariant(Kind::VersionedInteriorLocation, 2))
    );
    assert_eq!(
        decode_versioned_interior_location(&[6, 0], 0),
        Err(DecodeError::UnknownVariant(Kind::VersionedInteriorLocation, 6))
    );
    assert_eq!(
        decode_versioned_xcm(&[0, 0], 0),
        Err(DecodeError::UnknownVariant(Kind::VersionedXcm, 0))
    );
}

#[test]
fn earlier_versions_are_walked_and_reported_as_unsupported() {
    // Version 4, X1(GlobalConsensus(Westend)), then a version 5 message.
    let bytes = [4u8, 1, 9, 4, 5, 4, 10];
    let (message, end) = decode_bridge_message(&bytes, 0).unwrap();
    assert_eq!(end, 7);
    assert_eq!(
        message.universal_dest,
        VersionedInteriorLocation::Unsupported { version: 4, encoded: vec![1, 9, 4] }
    );
    assert_eq!(message.message, VersionedXcm::V5(Xcm(vec![Instruction::ClearOrigin])));
    assert_eq!(render_destination(&message.universal_dest), Err(DecodeError::UnsupportedVersion(4)));
    assert_eq!(render_instructions(&message.message), Ok(vec!["[0] ClearOrigin".to_string()]));
}

#[test]
fn a_network_of_an_earlier_version_is_unknown_in_version_five() {
    assert_eq!(
        decode_versioned_interior_location(&[5, 1, 9, 4], 0),
        Err(DecodeError::UnknownVariant(Kind::NetworkId, 4))
    );
    assert!(decode_versioned_interior_location(&[3, 1, 9, 4], 0).is_ok());
}

#[test]
fn a_message_of_an_earlier_version_is_walked_and_kept_as_bytes() {
    let bytes = [5u8, 0, 3, 4, 10, 99];
    let (message, end) = decode_bridge_message(&bytes, 0).unwrap();
    assert_eq!(end, 5);
    assert_eq!(message.universal_dest, VersionedInteriorLocation::V5(Junctions::Here));
    assert_eq!(message.message, VersionedXcm::Unsupported { version: 3, encoded: vec![4, 10] });
    assert_eq!(render_instructions(&message.message), Err(DecodeError::UnsupportedVersion(3)));
    // An instruction that only version 5 has is unknown in version 4.
    assert_eq!(
        decode_bridge_message(&[5u8, 0, 4, 4, 48, 0, 0, 0, 0], 0),
        Err(DecodeError::UnknownVariant(Kind::Instruction, 48))
    );
    assert_eq!(decode_bridge_message(&[5u8, 0, 4, 8, 10], 0), Err(DecodeError::IncompleteInput));
}
