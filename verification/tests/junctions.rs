use xcm_decoder::codec::junction::{
    decode_junction, decode_junctions, decode_location, decode_network_id, decode_opt_location,
};
use xcm_decoder::error::{DecodeError, Kind};
use xcm_decoder::model::junction::{BodyId, BodyPart, Junction, Junctions, Location, NetworkId};
use xcm_decoder::text::junction::{format_junction, format_junctions, format_location};

#[test]
fn here_takes_one_byte_and_leaves_the_next_field() {
    let bytes = [0u8, 0xde, 0xad, 0xbe, 0xef];
    assert_eq!(decode_junctions(&bytes, 0), Ok((Junctions::Here, 1)));
    let later = [7u8, 7, 0, 1, 4, 9];
    assert_eq!(decode_junctions(&later, 2), Ok((Junctions::Here, 3)));
    assert_eq!(
        decode_junctions(&later, 3),
        Ok((Junctions::X1([Junction::PalletInstance(9)]), 6))
    );
}

#[test]
fn junctions_of_arity_n_read_n_junctions() {
    // X3: Parachain(1000), PalletInstance(50), GeneralIndex(1984), then another field.
    let bytes = [3u8, 0, 0xa1, 0x0f, 4, 50, 5, 0x01, 0x1f, 0x77];
    let first = decode_junction(&bytes, 1).unwrap();
    let second = decode_junction(&bytes, first.1).unwrap();
    let third = decode_junction(&bytes, second.1).unwrap();
    assert_eq!(first, (Junction::Parachain(1000), 4));
    assert_eq!(second, (Junction::PalletInstance(50), 6));
    assert_eq!(third, (Junction::GeneralIndex(1984), 9));
    assert_eq!(
        decode_junctions(&bytes, 0),
        Ok((Junctions::X3([first.0, second.0, third.0]), third.1))
    );
}

#[test]
fn junctions_of_every_arity_hold_as_many_steps() {
    for n in 0u8..=8 {
        let mut bytes = vec![n];
        for i in 0..n {
            bytes.extend_from_slice(&[4, i]);
        }
        bytes.push(0x55);
        let (junctions, end) = decode_junctions(&bytes, 0).unwrap();
        assert_eq!(end, 1 + 2 * n as usize);
        assert_eq!(junctions.as_slice().len(), n as usize);
        for (i, step) in junctions.as_slice().iter().enumerate() {
            assert_eq!(*step, Junction::PalletInstance(i as u8));
        }
        for cut in 0..end {
            assert_eq!(decode_junctions(&bytes[..cut], 0), Err(DecodeError::IncompleteInput));
        }
    }
}

#[test]
fn junctions_beyond_eight_are_unknown() {
    assert_eq!(
        decode_junctions(&[9, 7, 7, 7, 7, 7, 7, 7, 7, 7], 0),
        Err(DecodeError::UnknownVariant(Kind::Junctions, 9))
    );
    assert_eq!(
        decode_junction(&[10], 0),
        Err(DecodeError::UnknownVariant(Kind::Junction, 10))
    );
    assert_eq!(
        decode_junctions(&[2, 7, 10], 0),
        Err(DecodeError::UnknownVariant(Kind::Junction, 10))
    );
}

#[test]
fn every_junction_is_read_field_by_field() {
    let mut account = vec![1u8, 1, 2];
    account.extend_from_slice(&[0x11; 32]);
    assert_eq!(
        decode_junction(&account, 0),
        Ok((Junction::AccountId32 { network: Some(NetworkId::Polkadot), id: [0x11; 32] }, 35))
    );
    assert_eq!(
        decode_junction(&[2, 0, 0x15, 0x01], 0),
        Ok((Junction::AccountIndex64 { network: None, index: 69 }, 4))
    );
    let mut key = vec![3u8, 1, 7, 0x04];
    key.extend_from_slice(&[0x22; 20]);
    assert_eq!(
        decode_junction(&key, 0),
        Ok((
            Junction::AccountKey20 {
                network: Some(NetworkId::Ethereum { chain_id: 1 }),
                key: [0x22; 20]
            },
            24
        ))
    );
    let mut general = vec![6u8, 2, 0xaa, 0xbb];
    general.extend_from_slice(&[0; 30]);
    let mut data = [0u8; 32];
    data[0] = 0xaa;
    data[1] = 0xbb;
    assert_eq!(decode_junction(&general, 0), Ok((Junction::GeneralKey { length: 2, data }, 34)));
    assert_eq!(decode_junction(&[7], 0), Ok((Junction::OnlyChild, 1)));
    assert_eq!(
        decode_junction(&[8, 1, b'a', b'b', b'c', b'd', 2, 4, 8], 0),
        Ok((
            Junction::Plurality {
                id: BodyId::Moniker([b'a', b'b', b'c', b'd']),
                part: BodyPart::Fraction { nom: 1, denom: 2 }
            },
            9
        ))
    );
    let mut fork = vec![9u8, 1, 5, 0, 0, 0, 0, 0, 0, 0];
    fork.extend_from_slice(&[0x33; 32]);
    assert_eq!(
        decode_junction(&fork, 0),
        Ok((
            Junction::GlobalConsensus(NetworkId::ByFork {
                block_number: 5,
                block_hash: [0x33; 32]
            }),
            42
        ))
    );
}

#[test]
fn networks_between_kusama_and_ethereum_are_unknown() {
    for d in [4u8, 5, 6, 11, 200] {
        assert_eq!(
            decode_network_id(&[d], 0),
            Err(DecodeError::UnknownVariant(Kind::NetworkId, d))
        );
    }
    assert_eq!(decode_network_id(&[8], 0), Ok((NetworkId::BitcoinCore, 1)));
    assert_eq!(decode_network_id(&[9], 0), Ok((NetworkId::BitcoinCash, 1)));
    assert_eq!(decode_network_id(&[10], 0), Ok((NetworkId::PolkadotBulletin, 1)));
}

#[test]
fn optional_fields_are_a_union_of_two() {
    assert_eq!(decode_opt_location(&[0], 0), Ok((None, 1)));
    assert_eq!(
        decode_opt_location(&[1, 2, 0], 0),
        Ok((Some(Location { parents: 2, interior: Junctions::Here }), 3))
    );
    assert_eq!(
        decode_opt_location(&[2, 2, 0], 0),
        Err(DecodeError::UnknownVariant(Kind::Option, 2))
    );
    assert_eq!(decode_opt_location(&[1, 2], 0), Err(DecodeError::IncompleteInput));
}

#[test]
fn a_compact_field_beyond_its_width_is_out_of_range() {
    // Parachain takes 32 bits; the compact integer holds 2^32.
    assert_eq!(
        decode_junction(&[0, 0x07, 0, 0, 0, 0, 1], 0),
        Err(DecodeError::OutOfRange)
    );
    assert_eq!(decode_location(&[0, 1, 0, 0x07, 0, 0, 0, 0, 1], 0), Err(DecodeError::OutOfRange));
}

#[test]
fn general_key_shows_only_its_meaningful_bytes() {
    let mut data = [0u8; 32];
    for (i, b) in data.iter_mut().enumerate() {
        *b = 0xe0 + i as u8;
    }
    for length in 0u8..=32 {
        let shown = format_junction(&Junction::GeneralKey { length, data });
        let expected = format!(
            "GeneralKey {{ length: {}, data: 0x{} }}",
            length,
            hex::encode(&data[..length as usize])
        );
        assert_eq!(shown, expected);
        let mut padded_otherwise = data;
        for b in padded_otherwise[length as usize..].iter_mut() {
            *b = 0x5a;
        }
        assert_eq!(format_junction(&Junction::GeneralKey { length, data: padded_otherwise }), shown);
    }
    assert_eq!(
        format_junction(&Junction::GeneralKey { length: 3, data }),
        "GeneralKey { length: 3, data: 0xe0e1e2 }"
    );
    assert_eq!(
        format_junction(&Junction::GeneralKey { length: 0, data }),
        "GeneralKey { length: 0, data: 0x }"
    );
}

#[test]
fn general_key_with_a_length_beyond_its_data_shows_all_of_it() {
    let data = [0x0f; 32];
    assert_eq!(
        format_junction(&Junction::GeneralKey { length: 200, data }),
        format!("GeneralKey {{ length: 200, data: 0x{} }}", "0f".repeat(32))
    );
}

#[test]
fn keys_and_hashes_are_shown_in_hexadecimal() {
    assert_eq!(
        format_junction(&Junction::AccountKey20 { network: None, key: [0xab; 20] }),
        format!("AccountKey20 {{ network: None, key: 0x{} }}", "ab".repeat(20))
    );
    assert_eq!(
        format_junction(&Junction::AccountId32 {
            network: Some(NetworkId::Kusama),
            id: [0x01; 32]
        }),
        format!("AccountId32 {{ network: Some(Kusama), id: 0x{} }}", "01".repeat(32))
    );
    assert_eq!(
        format_junction(&Junction::GlobalConsensus(NetworkId::ByGenesis([0xfe; 32]))),
        format!("GlobalConsensus(ByGenesis(0x{}))", "fe".repeat(32))
    );
    assert_eq!(
        format_junction(&Junction::AccountIndex64 {
            network: Some(NetworkId::ByFork { block_number: 12, block_hash: [0; 32] }),
            index: 3
        }),
        format!(
            "AccountIndex64 {{ network: Some(ByFork {{ block_number: 12, block_hash: 0x{} }}), index: 3 }}",
            "00".repeat(32)
        )
    );
    assert_eq!(
        format_junction(&Junction::Plurality {
            id: BodyId::Moniker([0xde, 0xad, 0xbe, 0xef]),
            part: BodyPart::AtLeastProportion { nom: 2, denom: 3 }
        }),
        "Plurality { id: Moniker(0xdeadbeef), part: AtLeastProportion { nom: 2, denom: 3 } }"
    );
}

#[test]
fn junctions_are_shown_in_their_order() {
    assert_eq!(format_junctions(&Junctions::Here), "Here");
    assert_eq!(format_junctions(&Junctions::X1([Junction::Parachain(1000)])), "X1([Parachain(1000)])");
    assert_eq!(
        format_junctions(&Junctions::X3([
            Junction::OnlyChild,
            Junction::GeneralIndex(u128::MAX),
            Junction::PalletInstance(0)
        ])),
        "X3([OnlyChild, GeneralIndex(340282366920938463463374607431768211455), PalletInstance(0)])"
    );
    assert_eq!(
        format_location(&Location { parents: 255, interior: Junctions::X1([Junction::OnlyChild]) }),
        "Location { parents: 255, interior: X1([OnlyChild]) }"
    );
}
