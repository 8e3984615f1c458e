use pcsc_host::aid::{resolve, CardIdentifier};
use pcsc_host::error::PcscHostError;

const AID: &str = "D2760001240103040006223637060000";

#[test]
fn resolve_bare_identifier() {
    let id = resolve(AID).unwrap();
    assert_eq!(
        id.bytes,
        vec![0xD2, 0x76, 0x00, 0x01, 0x24, 0x01, 0x03, 0x04, 0x00, 0x06, 0x22, 0x36, 0x37, 0x06, 0x00, 0x00]
    );
    assert_eq!(id.manufacturer, 0x0006);
    assert_eq!(id.serial, 0x22363706);
    assert_eq!(id.ident(), "0006:22363706");
    assert_eq!(id.to_hex(), AID);
}

#[test]
fn resolve_uri_form_gives_same_identifier() {
    let bare = resolve(AID).unwrap();
    let uri = resolve("pgpcard://D2760001240103040006223637060000").unwrap();
    assert_eq!(bare, uri);
}

#[test]
fn resolve_is_case_insensitive() {
    let upper = resolve(AID).unwrap();
    let lower = resolve("d2760001240103040006223637060000").unwrap();
    let mixed = resolve("pgpcard://d2760001240103040006223637060000").unwrap();
    assert_eq!(upper, lower);
    assert_eq!(upper, mixed);
}

#[test]
fn resolve_wrong_length_fails() {
    assert!(matches!(resolve("D27600"), Err(PcscHostError::AIDParseError(_))));
    assert!(matches!(resolve(""), Err(PcscHostError::AIDParseError(_))));
    assert!(matches!(resolve("D27600012401030400062236370600000"), Err(PcscHostError::AIDParseError(_))));
}

#[test]
fn resolve_non_hex_fails() {
    assert!(matches!(resolve("ZZ760001240103040006223637060000"), Err(PcscHostError::AIDParseError(_))));
    assert!(matches!(resolve("D27600012401030400062236370600 0"), Err(PcscHostError::AIDParseError(_))));
}

#[test]
fn resolve_wrong_scheme_fails() {
    assert!(matches!(resolve("pgpcrd://D2760001240103040006223637060000"), Err(PcscHostError::AIDParseError(_))));
    assert!(matches!(resolve("http://D2760001240103040006223637060000"), Err(PcscHostError::AIDParseError(_))));
}

#[test]
fn resolve_rejects_non_openpgp_layout() {
    // 32 hex digits, but not the OpenPGP registered application id
    assert!(matches!(resolve("A0000001240103040006223637060000"), Err(PcscHostError::AIDParseError(_))));
    // trailing bytes must be zero
    assert!(matches!(resolve("D2760001240103040006223637060001"), Err(PcscHostError::AIDParseError(_))));
}

#[test]
fn identifier_short_form_pads_digits() {
    let id = CardIdentifier {
        bytes: vec![0xD2, 0x76, 0x00, 0x01, 0x24, 0x01, 0x02, 0x00, 0x00, 0x2A, 0x00, 0x00, 0x00, 0x0B, 0x00, 0x00],
        manufacturer: 0x002A,
        serial: 0x0B,
    };
    assert_eq!(id.ident(), "002A:0000000B");
    assert_eq!(id.to_hex(), "D276000124010200002A0000000B0000");
}
