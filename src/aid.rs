use vstd::prelude::*;
use vstd::string::StrSliceExecFns;
use openpgp_card::card_do::ApplicationIdentifier;
use crate::error::PcscHostError;
use crate::hex::{
    all_hex, bytes_of_hex, hex_fixed, hex_of_bytes, hex_value, hex_value_of, is_hex_digit,
    push_char, push_hex_bytes, push_hex_fixed,
};

verus! {

/// The URI form of an identifier: this prefix, then the hexadecimal AID.
pub open spec fn uri_prefix() -> Seq<char> {
    seq!['p', 'g', 'p', 'c', 'a', 'r', 'd', ':', '/', '/']
}

/// The hexadecimal part of a token: what follows the URI prefix, if there is
/// one, else the whole token.
pub open spec fn aid_text(t: Seq<char>) -> Seq<char> {
    if t.len() >= 10 && t.subrange(0, 10) == uri_prefix() {
        t.subrange(10, t.len() as int)
    } else {
        t
    }
}

/// Big-endian value of two bytes of `b` starting at `i`.
pub open spec fn be16_at(b: Seq<u8>, i: int) -> nat {
    b[i] as nat * 256 + b[i + 1] as nat
}

/// Big-endian value of four bytes of `b` starting at `i`.
pub open spec fn be32_at(b: Seq<u8>, i: int) -> nat {
    be16_at(b, i) * 65536 + be16_at(b, i + 2)
}

/// The layout of an OpenPGP application identifier: the registered
/// application id D2 76 00 01 24, the application byte, two version bytes,
/// two manufacturer bytes, four serial bytes, and two zero bytes.
pub open spec fn aid_layout(b: Seq<u8>) -> bool {
    &&& b.len() == 16
    &&& b[0] == 0xd2u8 && b[1] == 0x76u8 && b[2] == 0u8 && b[3] == 1u8 && b[4] == 0x24u8
    &&& b[14] == 0u8 && b[15] == 0u8
}

/// Whether a token names a card: 32 hexadecimal digits, bare or after the
/// URI prefix, that spell an application identifier.
pub open spec fn resolves(t: Seq<char>) -> bool {
    let h = aid_text(t);
    &&& h.len() == 32
    &&& all_hex(h)
    &&& aid_layout(bytes_of_hex(h))
}

/// The application identifier of one card, as its 16 bytes together with the
/// manufacturer number and serial number that they hold.
#[derive(Clone, Debug, PartialEq, Eq)]
pub struct CardIdentifier {
    pub bytes: Vec<u8>,
    pub manufacturer: u16,
    pub serial: u32,
}

impl CardIdentifier {
    pub open spec fn wf(&self) -> bool {
        &&& aid_layout(self.bytes@)
        &&& self.manufacturer as nat == be16_at(self.bytes@, 8)
        &&& self.serial as nat == be32_at(self.bytes@, 10)
    }

    /// The short form that names the card to the backend: the manufacturer as
    /// four upper-case hexadecimal digits, a colon, the serial as eight.
    pub open spec fn spec_ident(&self) -> Seq<char> {
        hex_fixed(self.manufacturer as nat, 4, true).push(':') + hex_fixed(self.serial as nat, 8, true)
    }

    /// The full identifier as 32 upper-case hexadecimal digits.
    pub open spec fn spec_hex(&self) -> Seq<char> {
        hex_of_bytes(self.bytes@, true)
    }

    pub fn ident(&self) -> (r: String)
        ensures
            r@ == self.spec_ident(),
    {
        let mut r = String::new();
        push_hex_fixed(&mut r, self.manufacturer as u32, 4, true);
        push_char(&mut r, ':');
        push_hex_fixed(&mut r, self.serial, 8, true);
        r
    }

    pub fn to_hex(&self) -> (r: String)
        ensures
            r@ == self.spec_hex(),
    {
        let mut r = String::new();
        push_hex_bytes(&mut r, self.bytes.as_slice(), true);
        r
    }
}

/// Relies on openpgp_card's `ApplicationIdentifier::try_from(&[u8])`, which
/// accepts exactly the layout of `aid_layout` and reads the manufacturer and
/// serial numbers big-endian from bytes 8-9 and 10-13.
#[verifier::external_body]
fn parse_application_id(b: &[u8]) -> (r: Option<(u16, u32)>)
    ensures
        r is Some <==> aid_layout(b@),
        r matches Some((m, s)) ==> m as nat == be16_at(b@, 8) && s as nat == be32_at(b@, 10),
{
    ApplicationIdentifier::try_from(b).ok().map(|a| (a.manufacturer(), a.serial()))
}

/// Parses a token naming a card: 32 hexadecimal digits in either case, bare
/// or as `pgpcard://<digits>`. Every other token is an `AIDParseError`.
pub fn resolve(token: &str) -> (r: Result<CardIdentifier, PcscHostError>)
    ensures
        r is Ok <==> resolves(token@),
        r matches Ok(id) ==> id.wf() && id.bytes@ == bytes_of_hex(aid_text(token@)),
        r matches Err(e) ==> e is AIDParseError,
{
    let n = token.unicode_len();
    let mut start: usize = 0;
    if n >= 10 {
        let prefix: [char; 10] = ['p', 'g', 'p', 'c', 'a', 'r', 'd', ':', '/', '/'];
        let mut k: usize = 0;
        let mut same = true;
        while k < 10
            invariant
                k <= 10,
                n == token@.len(),
                n >= 10,
                prefix@ == uri_prefix(),
                same <==> forall|j: int| 0 <= j < k ==> token@[j] == #[trigger] uri_prefix()[j],
            decreases 10 - k,
        {
            if token.get_char(k) != prefix[k] {
                same = false;
            }
            k = k + 1;
        }
        if same {
            assert(token@.subrange(0, 10) =~= uri_prefix());
        } else {
            assert(token@.subrange(0, 10) != uri_prefix()) by {
                if token@.subrange(0, 10) == uri_prefix() {
                    assert forall|j: int| 0 <= j < 10 implies token@[j] == #[trigger] uri_prefix()[j] by {
                        assert(token@.subrange(0, 10)[j] == token@[j]);
                    }
                }
            }
        }
        if same {
            start = 10;
        }
    }
    let ghost h = aid_text(token@);
    assert(h =~= token@.subrange(start as int, n as int));
    if n - start != 32 {
        return Err(PcscHostError::AIDParseError("OpenPGP AID must be 32-digit hex string".to_owned()));
    }
    let mut bytes: Vec<u8> = Vec::new();
    let mut i: usize = 0;
    while i < 16
        invariant
            i <= 16,
            n == token@.len(),
            start + 32 == n,
            h == token@.subrange(start as int, n as int),
            all_hex(h.subrange(0, 2 * i)),
            bytes@ == bytes_of_hex(h.subrange(0, 2 * i)),
        decreases 16 - i,
    {
        let c1 = token.get_char(start + 2 * i);
        let c2 = token.get_char(start + 2 * i + 1);
        if !(('0' <= c1 && c1 <= '9') || ('a' <= c1 && c1 <= 'f') || ('A' <= c1 && c1 <= 'F'))
            || !(('0' <= c2 && c2 <= '9') || ('a' <= c2 && c2 <= 'f') || ('A' <= c2 && c2 <= 'F')) {
            proof {
                if all_hex(h) {
                    assert(is_hex_digit(h[2 * i as int]));
                    assert(is_hex_digit(h[2 * i + 1]));
                }
            }
            return Err(PcscHostError::AIDParseError("non-hex character found in identifier".to_owned()));
        }
        let v1 = hex_value_of(c1);
        let v2 = hex_value_of(c2);
        bytes.push(v1 * 16 + v2);
        proof {
            let hs = h.subrange(0, 2 * i + 2);
            assert(hs[2 * i as int] == c1);
            assert(hs[2 * i + 1] == c2);
            assert forall|j: int| 0 <= j < hs.len() implies is_hex_digit(#[trigger] hs[j]) by {
                if j < 2 * i {
                    assert(hs[j] == h.subrange(0, 2 * i)[j]);
                }
            }
            assert(bytes@ =~= bytes_of_hex(hs));
        }
        i = i + 1;
    }
    assert(h.subrange(0, 32) =~= h);
    match parse_application_id(bytes.as_slice()) {
        Some((manufacturer, serial)) => Ok(CardIdentifier { bytes, manufacturer, serial }),
        None => Err(PcscHostError::AIDParseError("not an OpenPGP application identifier".to_owned())),
    }
}

/// Whether two characters are the same hexadecimal digit, in either case.
pub open spec fn same_digit(a: char, b: char) -> bool {
    is_hex_digit(a) && is_hex_digit(b) && hex_value(a) == hex_value(b)
}

/// A bare identifier and its URI form name the same card, and neither the
/// case of the digits nor the form changes whether a token resolves or what
/// it resolves to.
pub proof fn lemma_forms_and_case_agree(t: Seq<char>, u: Seq<char>)
    requires
        t.len() == 32,
        u.len() == 32,
        forall|i: int| 0 <= i < 32 ==> same_digit(#[trigger] t[i], u[i]),
    ensures
        aid_text(uri_prefix() + t) == t,
        aid_text(t) == t,
        resolves(t) <==> resolves(uri_prefix() + u),
        bytes_of_hex(aid_text(t)) == bytes_of_hex(aid_text(uri_prefix() + u)),
{
    let w = uri_prefix() + t;
    assert(w.subrange(0, 10) =~= uri_prefix());
    assert(w.subrange(10, w.len() as int) =~= t);
    let wu = uri_prefix() + u;
    assert(wu.subrange(0, 10) =~= uri_prefix());
    assert(wu.subrange(10, wu.len() as int) =~= u);
    assert(t.subrange(0, 10) != uri_prefix()) by {
        assert(is_hex_digit(t[7]));
        assert(uri_prefix()[7] == ':');
        assert(t.subrange(0, 10)[7] == t[7]);
    }
    assert(all_hex(t));
    assert(all_hex(u)) by {
        assert forall|i: int| 0 <= i < u.len() implies is_hex_digit(#[trigger] u[i]) by {
            assert(same_digit(t[i], u[i]));
        }
    }
    assert(bytes_of_hex(t) =~= bytes_of_hex(u)) by {
        assert forall|i: int| 0 <= i < 16 implies #[trigger] bytes_of_hex(t)[i] == bytes_of_hex(u)[i] by {
            assert(same_digit(t[2 * i], u[2 * i]));
            assert(same_digit(t[2 * i + 1], u[2 * i + 1]));
        }
    }
}

} // verus!
