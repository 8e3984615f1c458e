use pcsc_host::card::{card_info, ed25519_public_key, list_cards, CardReading, KeyError, KeyMaterial};
use pcsc_host::error::{CardFault, PcscHostError};

fn ed25519(data: Vec<u8>) -> KeyMaterial {
    KeyMaterial::Ecc { eddsa: true, ed25519: true, data }
}

fn reading(serial: u32, key: KeyMaterial) -> CardReading {
    CardReading {
        manufacturer_name: "Yubico AB".to_string(),
        application: 0x01,
        version: 0x0304,
        manufacturer: 0x0006,
        serial,
        key,
    }
}

#[test]
fn ed25519_key_is_handed_out() {
    let key: Vec<u8> = (1..=32).collect();
    assert_eq!(ed25519_public_key(&ed25519(key.clone())), Ok(key));
}

#[test]
fn rsa_and_other_curves_are_unsupported() {
    assert_eq!(ed25519_public_key(&KeyMaterial::Rsa), Err(KeyError::UnsupportedAlgo));
    let other = KeyMaterial::Ecc { eddsa: false, ed25519: false, data: vec![0; 65] };
    assert_eq!(ed25519_public_key(&other), Err(KeyError::UnsupportedAlgo));
    let ecdh = KeyMaterial::Ecc { eddsa: false, ed25519: true, data: vec![0; 32] };
    assert_eq!(ed25519_public_key(&ecdh), Err(KeyError::UnsupportedAlgo));
}

#[test]
fn short_ed25519_key_is_malformed() {
    assert_eq!(ed25519_public_key(&ed25519(vec![7; 31])), Err(KeyError::Malformed));
}

#[test]
fn card_info_formats_identity() {
    let key = vec![5u8; 32];
    let info = card_info(&reading(0x22363706, ed25519(key.clone()))).unwrap();
    assert_eq!(info.manufacturer, "Yubico AB");
    assert_eq!(info.serial_number, "22363706");
    assert_eq!(info.aid, "D2760001240103040006223637060000");
    assert_eq!(info.signing_algo, "ed25519");
    assert_eq!(info.pubkey_bytes, key);
}

#[test]
fn card_info_serial_is_lower_case_and_padded() {
    let info = card_info(&reading(0xABC, ed25519(vec![0; 32]))).unwrap();
    assert_eq!(info.serial_number, "00000abc");
    assert_eq!(info.aid, "D276000124010304000600000ABC0000");
}

#[test]
fn listing_with_no_reader_is_empty() {
    let r = list_cards(Err(CardFault::NoReader("No reader found.".to_string())));
    assert_eq!(r, Ok(vec![]));
}

#[test]
fn listing_with_no_cards_is_empty() {
    assert_eq!(list_cards(Ok(vec![])), Ok(vec![]));
}

#[test]
fn listing_other_enumeration_failure_is_internal() {
    let r = list_cards(Err(CardFault::Other("context error".to_string())));
    assert_eq!(r, Err(PcscHostError::InternalError("context error".to_string())));
}

#[test]
fn listing_skips_unsupported_keys_and_keeps_order() {
    let r = list_cards(Ok(vec![
        Ok(reading(1, ed25519(vec![1; 32]))),
        Ok(reading(2, KeyMaterial::Rsa)),
        Ok(reading(3, ed25519(vec![3; 32]))),
    ]))
    .unwrap();
    assert_eq!(r.len(), 2);
    assert_eq!(r[0].serial_number, "00000001");
    assert_eq!(r[1].serial_number, "00000003");
    assert_eq!(r[1].pubkey_bytes, vec![3; 32]);
}

#[test]
fn listing_stops_at_unreadable_card() {
    let r = list_cards(Ok(vec![
        Ok(reading(1, ed25519(vec![1; 32]))),
        Err(CardFault::Other("card removed".to_string())),
        Ok(reading(3, ed25519(vec![3; 32]))),
    ]));
    assert_eq!(r, Err(PcscHostError::InternalError("card removed".to_string())));
}

#[test]
fn listing_stops_at_malformed_key() {
    let r = list_cards(Ok(vec![Ok(reading(1, ed25519(vec![1; 3])))]));
    assert_eq!(r, Err(PcscHostError::InternalError("key on card is malformed".to_string())));
}
