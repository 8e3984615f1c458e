use vstd::prelude::*;
use vstd::string::StringExecFns;
use crate::error::{CardFault, PcscHostError};
use crate::hex::{hex_fixed, push_hex_fixed};

verus! {

/// The public key of a card's signing slot, as far as this library reads it.
#[derive(Clone, Debug, PartialEq, Eq)]
pub enum KeyMaterial {
    Rsa,
    Ecc { eddsa: bool, ed25519: bool, data: Vec<u8> },
}

/// Why a card's signing key is not offered.
#[derive(Clone, Copy, Debug, PartialEq, Eq, Structural)]
pub enum KeyError {
    /// The key is not an ed25519 key.
    UnsupportedAlgo,
    /// The key is said to be ed25519 but its data is not 32 bytes.
    Malformed,
}

/// What one card tells about itself, without a PIN.
#[derive(Clone, Debug, PartialEq, Eq)]
pub struct CardReading {
    pub manufacturer_name: String,
    pub application: u8,
    pub version: u16,
    pub manufacturer: u16,
    pub serial: u32,
    pub key: KeyMaterial,
}

/// One entry of a card listing.
#[derive(Clone, Debug, PartialEq, Eq)]
pub struct OpenpgpCardInfo {
    pub manufacturer: String,
    pub serial_number: String,
    pub aid: String,
    pub signing_algo: String,
    pub pubkey_bytes: Vec<u8>,
}

pub struct InfoView {
    pub manufacturer: Seq<char>,
    pub serial_number: Seq<char>,
    pub aid: Seq<char>,
    pub signing_algo: Seq<char>,
    pub pubkey_bytes: Seq<u8>,
}

impl View for OpenpgpCardInfo {
    type V = InfoView;

    open spec fn view(&self) -> InfoView {
        InfoView {
            manufacturer: self.manufacturer@,
            serial_number: self.serial_number@,
            aid: self.aid@,
            signing_algo: self.signing_algo@,
            pubkey_bytes: self.pubkey_bytes@,
        }
    }
}

/// The raw ed25519 public key in `m`, if it holds one.
pub open spec fn ed25519_key(m: KeyMaterial) -> Result<Seq<u8>, KeyError> {
    match m {
        KeyMaterial::Ecc { eddsa, ed25519, data } => {
            if !eddsa || !ed25519 {
                Err(KeyError::UnsupportedAlgo)
            } else if data@.len() != 32 {
                Err(KeyError::Malformed)
            } else {
                Ok(data@)
            }
        },
        KeyMaterial::Rsa => Err(KeyError::UnsupportedAlgo),
    }
}

/// The full application identifier, written as 32 upper-case hexadecimal
/// digits without spaces.
pub open spec fn aid_string(r: CardReading) -> Seq<char> {
    "D276000124"@ + hex_fixed(r.application as nat, 2, true) + hex_fixed(r.version as nat, 4, true)
        + hex_fixed(r.manufacturer as nat, 4, true) + hex_fixed(r.serial as nat, 8, true) + "0000"@
}

/// The listing entry for a card, or why its key is not offered.
pub open spec fn info_of(r: CardReading) -> Result<InfoView, KeyError> {
    match ed25519_key(r.key) {
        Ok(k) => Ok(
            InfoView {
                manufacturer: r.manufacturer_name@,
                serial_number: hex_fixed(r.serial as nat, 8, false),
                aid: aid_string(r),
                signing_algo: "ed25519"@,
                pubkey_bytes: k,
            },
        ),
        Err(e) => Err(e),
    }
}

/// The diagnostic for a card whose ed25519 key has the wrong length.
pub open spec fn malformed_key() -> Seq<char> {
    "key on card is malformed"@
}

/// The listing of cards read in order: a card whose key is not ed25519 is
/// left out; the first failure to read a card, or a malformed key, ends the
/// listing with an internal error carrying this text.
pub open spec fn listing(rs: Seq<Result<CardReading, CardFault>>) -> Result<Seq<InfoView>, Seq<char>>
    decreases rs.len(),
{
    if rs.len() == 0 {
        Ok(Seq::empty())
    } else {
        match listing(rs.drop_last()) {
            Err(d) => Err(d),
            Ok(prev) => match rs.last() {
                Err(f) => Err(f.spec_detail()),
                Ok(r) => match info_of(r) {
                    Ok(v) => Ok(prev.push(v)),
                    Err(KeyError::UnsupportedAlgo) => Ok(prev),
                    Err(KeyError::Malformed) => Err(malformed_key()),
                },
            },
        }
    }
}

proof fn lemma_listing_err_stays(rs: Seq<Result<CardReading, CardFault>>, j: int)
    requires
        0 <= j <= rs.len(),
        listing(rs.subrange(0, j)) is Err,
    ensures
        listing(rs) == listing(rs.subrange(0, j)),
    decreases rs.len() - j,
{
    if j < rs.len() {
        let next = rs.subrange(0, j + 1);
        assert(next.drop_last() =~= rs.subrange(0, j));
        lemma_listing_err_stays(rs, j + 1);
    } else {
        assert(rs.subrange(0, j) =~= rs);
    }
}

/// Checks that `m` is an ed25519 key and hands out its 32 raw bytes.
pub fn ed25519_public_key(m: &KeyMaterial) -> (r: Result<Vec<u8>, KeyError>)
    ensures
        match (r, ed25519_key(*m)) {
            (Ok(v), Ok(k)) => v@ == k,
            (Err(e), Err(k)) => e == k,
            _ => false,
        },
{
    match m {
        KeyMaterial::Ecc { eddsa, ed25519, data } => {
            if !*eddsa || !*ed25519 {
                Err(KeyError::UnsupportedAlgo)
            } else if data.len() != 32 {
                Err(KeyError::Malformed)
            } else {
                Ok(data.clone())
            }
        },
        KeyMaterial::Rsa => Err(KeyError::UnsupportedAlgo),
    }
}

/// Builds the listing entry for one card.
pub fn card_info(r: &CardReading) -> (res: Result<OpenpgpCardInfo, KeyError>)
    ensures
        match (res, info_of(*r)) {
            (Ok(i), Ok(v)) => i@ == v,
            (Err(e), Err(k)) => e == k,
            _ => false,
        },
{
    let key = match ed25519_public_key(&r.key) {
        Ok(k) => k,
        Err(e) => return Err(e),
    };
    let mut serial_number = String::new();
    push_hex_fixed(&mut serial_number, r.serial, 8, false);
    let mut aid = "D276000124".to_owned();
    push_hex_fixed(&mut aid, r.application as u32, 2, true);
    push_hex_fixed(&mut aid, r.version as u32, 4, true);
    push_hex_fixed(&mut aid, r.manufacturer as u32, 4, true);
    push_hex_fixed(&mut aid, r.serial, 8, true);
    aid.append("0000");
    let info = OpenpgpCardInfo {
        manufacturer: r.manufacturer_name.clone(),
        serial_number,
        aid,
        signing_algo: "ed25519".to_owned(),
        pubkey_bytes: key,
    };
    assert(info@.aid =~= aid_string(*r));
    Ok(info)
}

/// The listing entry for one card: `None` when its key is not ed25519, an
/// internal error when the key is malformed.
pub fn card_entry(r: &CardReading) -> (res: Result<Option<OpenpgpCardInfo>, PcscHostError>)
    ensures
        match (res, info_of(*r)) {
            (Ok(Some(i)), Ok(v)) => i@ == v,
            (Ok(None), Err(KeyError::UnsupportedAlgo)) => true,
            (Err(PcscHostError::InternalError(d)), Err(KeyError::Malformed)) => d@ == malformed_key(),
            _ => false,
        },
{
    match card_info(r) {
        Ok(info) => Ok(Some(info)),
        Err(KeyError::UnsupportedAlgo) => Ok(None),
        Err(KeyError::Malformed) => Err(PcscHostError::InternalError("key on card is malformed".to_owned())),
    }
}

/// Assembles the answer to a listing request from what enumeration found.
/// No reader at all is an empty listing, not an error.
pub fn list_cards(enumerated: Result<Vec<Result<CardReading, CardFault>>, CardFault>) -> (res: Result<Vec<OpenpgpCardInfo>, PcscHostError>)
    ensures
        enumerated matches Err(CardFault::NoReader(_)) ==> (res matches Ok(v) && v@.len() == 0),
        (enumerated matches Ok(rs) && rs@.len() == 0) ==> (res matches Ok(v) && v@.len() == 0),
        match enumerated {
            Err(f) => f is NoReader || (res matches Err(PcscHostError::InternalError(d)) && d@ == f.spec_detail()),
            Ok(rs) => match (res, listing(rs@)) {
                (Ok(v), Ok(l)) => v@.map_values(|i: OpenpgpCardInfo| i@) == l,
                (Err(PcscHostError::InternalError(d)), Err(l)) => d@ == l,
                _ => false,
            },
        },
{
    let readings = match enumerated {
        Ok(rs) => rs,
        Err(CardFault::NoReader(_)) => return Ok(Vec::new()),
        Err(f) => return Err(PcscHostError::InternalError(f.detail())),
    };
    let mut cards: Vec<OpenpgpCardInfo> = Vec::new();
    let mut i: usize = 0;
    assert(readings@.subrange(0, 0) =~= Seq::<Result<CardReading, CardFault>>::empty());
    assert(cards@.map_values(|c: OpenpgpCardInfo| c@) =~= Seq::<InfoView>::empty());
    while i < readings.len()
        invariant
            enumerated == Ok::<Vec<Result<CardReading, CardFault>>, CardFault>(readings),
            i <= readings@.len(),
            listing(readings@.subrange(0, i as int)) == Ok::<Seq<InfoView>, Seq<char>>(
                cards@.map_values(|c: OpenpgpCardInfo| c@)),
        decreases readings@.len() - i,
    {
        let ghost prefix = readings@.subrange(0, i + 1);
        assert(prefix.drop_last() =~= readings@.subrange(0, i as int));
        match &readings[i] {
            Err(f) => {
                proof {
                    lemma_listing_err_stays(readings@, i + 1);
                }
                return Err(PcscHostError::InternalError(f.detail()));
            },
            Ok(r) => match card_entry(r) {
                Ok(Some(info)) => {
                    cards.push(info);
                    assert(cards@.map_values(|c: OpenpgpCardInfo| c@) =~= listing(prefix)->Ok_0);
                },
                Ok(None) => {},
                Err(e) => {
                    proof {
                        lemma_listing_err_stays(readings@, i + 1);
                    }
                    return Err(e);
                },
            },
        }
        i = i + 1;
    }
    assert(readings@.subrange(0, readings@.len() as int) =~= readings@);
    Ok(cards)
}

} // verus!
