use vstd::prelude::*;
use vstd::arithmetic::div_mod::lemma_fundamental_div_mod;

verus! {

/// The byte order of the four-byte length prefix. Both ends of the pipe run on
/// the same host, so the caller passes the host's own order.
#[derive(Clone, Copy, Debug, PartialEq, Eq, Structural)]
pub enum ByteOrder {
    Little,
    Big,
}

/// The largest payload accepted or produced, in bytes.
pub const MAX_FRAME_LEN: u32 = 67108864;

#[derive(Clone, Copy, Debug, PartialEq, Eq, Structural)]
pub enum FrameError {
    /// The length prefix announces more than `MAX_FRAME_LEN` bytes.
    Oversized,
    /// The input ends inside a length prefix or inside a payload.
    Truncated,
}

/// What one read from the input yields.
#[derive(Debug)]
pub enum FrameRead {
    /// The input is closed before a new frame starts: the normal way to stop.
    EndOfInput,
    /// One whole frame: its payload, and how many input bytes it took.
    Frame { payload: Vec<u8>, consumed: usize },
}

/// The four bytes of `v`, least significant first.
pub open spec fn le_bytes(v: nat) -> Seq<u8> {
    seq![(v % 256) as u8, (v / 256 % 256) as u8, (v / 65536 % 256) as u8, (v / 16777216 % 256) as u8]
}

/// The four-byte prefix that encodes `v` in the given order.
pub open spec fn header_bytes(v: nat, order: ByteOrder) -> Seq<u8> {
    match order {
        ByteOrder::Little => le_bytes(v),
        ByteOrder::Big => le_bytes(v).reverse(),
    }
}

/// The number that four bytes encode, least significant first.
pub open spec fn le_value(b: Seq<u8>) -> nat {
    b[0] as nat + 256 * (b[1] as nat) + 65536 * (b[2] as nat) + 16777216 * (b[3] as nat)
}

/// The number that a four-byte prefix encodes in the given order.
pub open spec fn header_value(b: Seq<u8>, order: ByteOrder) -> nat {
    match order {
        ByteOrder::Little => le_value(b),
        ByteOrder::Big => le_value(b.reverse()),
    }
}

/// The whole frame for `payload`: length prefix, then the payload.
pub open spec fn frame_bytes(payload: Seq<u8>, order: ByteOrder) -> Seq<u8> {
    header_bytes(payload.len(), order) + payload
}

/// The outcome of reading one frame from the start of `input`:
/// `None` for end of input, else the payload and the bytes taken.
pub open spec fn read_outcome(input: Seq<u8>, order: ByteOrder) -> Result<Option<(Seq<u8>, nat)>, FrameError> {
    if input.len() == 0 {
        Ok(None)
    } else if input.len() < 4 {
        Err(FrameError::Truncated)
    } else {
        let n = header_value(input.subrange(0, 4), order);
        if n > MAX_FRAME_LEN {
            Err(FrameError::Oversized)
        } else if input.len() < 4 + n {
            Err(FrameError::Truncated)
        } else {
            Ok(Some((input.subrange(4, 4 + n as int), 4 + n)))
        }
    }
}

impl FrameRead {
    pub open spec fn outcome(&self) -> Option<(Seq<u8>, nat)> {
        match self {
            FrameRead::EndOfInput => None,
            FrameRead::Frame { payload, consumed } => Some((payload@, *consumed as nat)),
        }
    }
}

proof fn lemma_le_round_trip(v: nat)
    requires
        v < 0x1_0000_0000,
    ensures
        le_value(le_bytes(v)) == v,
{
    lemma_fundamental_div_mod(v as int, 256);
    lemma_fundamental_div_mod(v as int / 256, 256);
    lemma_fundamental_div_mod(v as int / 256 / 256, 256);
    vstd::arithmetic::div_mod::lemma_div_denominator(v as int, 256, 256);
    vstd::arithmetic::div_mod::lemma_div_denominator(v as int, 65536, 256);
    assert(v / 16777216 < 256) by {
        vstd::arithmetic::div_mod::lemma_div_is_ordered(v as int, 0xffff_ffff, 16777216);
    }
}

/// Encodes `v` as a four-byte prefix.
pub fn encode_header(v: u32, order: ByteOrder) -> (r: Vec<u8>)
    ensures
        r@ == header_bytes(v as nat, order),
{
    let b0 = (v % 256) as u8;
    let b1 = (v / 256 % 256) as u8;
    let b2 = (v / 65536 % 256) as u8;
    let b3 = (v / 16777216 % 256) as u8;
    match order {
        ByteOrder::Little => {
            let r = vec![b0, b1, b2, b3];
            assert(r@ =~= le_bytes(v as nat));
            r
        },
        ByteOrder::Big => {
            let r = vec![b3, b2, b1, b0];
            assert(r@ =~= le_bytes(v as nat).reverse());
            r
        },
    }
}

fn combine(lo: u8, a1: u8, a2: u8, hi: u8) -> (r: u32)
    ensures
        r as nat == le_value(seq![lo, a1, a2, hi]),
{
    assert(hi as nat * 16777216 + a2 as nat * 65536 + a1 as nat * 256 + lo as nat <= 0xffff_ffff) by (nonlinear_arith)
        requires
            (hi as nat) < 256, (a2 as nat) < 256, (a1 as nat) < 256, (lo as nat) < 256;
    (lo as u32) + 256 * (a1 as u32) + 65536 * (a2 as u32) + 16777216 * (hi as u32)
}

/// Decodes a four-byte prefix.
pub fn decode_header(b: &[u8], order: ByteOrder) -> (r: u32)
    requires
        b@.len() == 4,
    ensures
        r as nat == header_value(b@, order),
{
    match order {
        ByteOrder::Little => {
            assert(b@ =~= seq![b@[0], b@[1], b@[2], b@[3]]);
            combine(b[0], b[1], b[2], b[3])
        },
        ByteOrder::Big => {
            assert(b@.reverse() =~= seq![b@[3], b@[2], b@[1], b@[0]]);
            combine(b[3], b[2], b[1], b[0])
        },
    }
}

/// Checks a length prefix that was read whole: the payload length it announces.
pub fn frame_length(header: &[u8], order: ByteOrder) -> (r: Result<usize, FrameError>)
    requires
        header@.len() == 4,
    ensures
        header_value(header@, order) <= MAX_FRAME_LEN <==> r is Ok,
        r is Ok ==> r->Ok_0 as nat == header_value(header@, order),
        r is Err ==> r == Err::<usize, FrameError>(FrameError::Oversized),
{
    let n = decode_header(header, order);
    if n > MAX_FRAME_LEN {
        Err(FrameError::Oversized)
    } else {
        Ok(n as usize)
    }
}

/// Frames `payload`: the length prefix, then the payload itself.
pub fn write_frame(payload: &[u8], order: ByteOrder) -> (r: Result<Vec<u8>, FrameError>)
    ensures
        payload@.len() > MAX_FRAME_LEN <==> r is Err,
        r is Err ==> r == Err::<Vec<u8>, FrameError>(FrameError::Oversized),
        r is Ok ==> r->Ok_0@ == frame_bytes(payload@, order),
{
    if payload.len() > MAX_FRAME_LEN as usize {
        return Err(FrameError::Oversized);
    }
    let mut out = encode_header(payload.len() as u32, order);
    let mut i: usize = 0;
    while i < payload.len()
        invariant
            i <= payload@.len(),
            out@ == header_bytes(payload@.len(), order) + payload@.subrange(0, i as int),
        decreases payload@.len() - i,
    {
        out.push(payload[i]);
        proof {
            assert(payload@.subrange(0, i + 1) =~= payload@.subrange(0, i as int).push(payload@[i as int]));
        }
        i = i + 1;
    }
    assert(payload@.subrange(0, payload@.len() as int) =~= payload@);
    Ok(out)
}

/// Reads one frame from the start of `input`.
pub fn read_frame(input: &[u8], order: ByteOrder) -> (r: Result<FrameRead, FrameError>)
    ensures
        match (r, read_outcome(input@, order)) {
            (Ok(f), Ok(o)) => f.outcome() == o,
            (Err(e), Err(o)) => e == o,
            _ => false,
        },
{
    if input.len() == 0 {
        return Ok(FrameRead::EndOfInput);
    }
    if input.len() < 4 {
        return Err(FrameError::Truncated);
    }
    let header = vstd::slice::slice_subrange(input, 0, 4);
    let n = decode_header(header, order);
    if n > MAX_FRAME_LEN {
        return Err(FrameError::Oversized);
    }
    let n = n as usize;
    if input.len() - 4 < n {
        return Err(FrameError::Truncated);
    }
    let end: usize = 4 + n;
    let mut payload: Vec<u8> = Vec::new();
    let mut i: usize = 0;
    while i < n
        invariant
            i <= n,
            end == 4 + n,
            end <= input@.len(),
            payload@ == input@.subrange(4, 4 + i),
        decreases n - i,
    {
        payload.push(input[4 + i]);
        assert(input@.subrange(4, 4 + i + 1) =~= input@.subrange(4, 4 + i).push(input@[4 + i]));
        i = i + 1;
    }
    Ok(FrameRead::Frame { payload, consumed: end })
}

/// A framed payload reads back as itself, whatever follows it in the input,
/// and the read takes exactly the prefix and the payload.
pub proof fn lemma_frame_round_trip(payload: Seq<u8>, rest: Seq<u8>, order: ByteOrder)
    requires
        payload.len() <= MAX_FRAME_LEN,
    ensures
        read_outcome(frame_bytes(payload, order) + rest, order) == Ok::<Option<(Seq<u8>, nat)>, FrameError>(
            Some((payload, 4 + payload.len()))),
{
    let input = frame_bytes(payload, order) + rest;
    let h = header_bytes(payload.len(), order);
    assert(input.subrange(0, 4) =~= h);
    lemma_le_round_trip(payload.len());
    if order == ByteOrder::Big {
        assert(h.reverse() =~= le_bytes(payload.len()));
    }
    assert(input.subrange(4, 4 + payload.len() as int) =~= payload);
}

} // verus!
