//! Frames on the low-latency byte stream: a four-byte header (0x80 with the
//! opcode in the low nibble, one unused byte, the payload length as a
//! little-endian u16), then the payload. The transport keeps the bytes in
//! order but not their boundaries, so the parser buffers partial frames.

use vstd::prelude::*;

verus! {

/// Bytes of a frame header.
pub const HEADER_LEN: usize = 4;

/// Largest payload a frame can carry.
pub const MAX_PAYLOAD: usize = 65535;

#[derive(Clone, Copy, Debug, PartialEq, Eq, Structural)]
pub enum Opcode {
    Text,
    /// An envelope.
    Binary,
    Ping,
    Pong,
}

pub open spec fn opcode_value(o: Opcode) -> nat {
    match o {
        Opcode::Text => 1,
        Opcode::Binary => 2,
        Opcode::Ping => 9,
        Opcode::Pong => 10,
    }
}

pub open spec fn opcode_of(v: nat) -> Option<Opcode> {
    if v == 1 {
        Some(Opcode::Text)
    } else if v == 2 {
        Some(Opcode::Binary)
    } else if v == 9 {
        Some(Opcode::Ping)
    } else if v == 10 {
        Some(Opcode::Pong)
    } else {
        None
    }
}

impl Opcode {
    pub fn value(&self) -> (r: u8)
        ensures
            r as nat == opcode_value(*self),
    {
        match self {
            Opcode::Text => 1,
            Opcode::Binary => 2,
            Opcode::Ping => 9,
            Opcode::Pong => 10,
        }
    }

    pub fn of_value(v: u8) -> (r: Option<Opcode>)
        ensures
            r == opcode_of(v as nat),
    {
        if v == 1 {
            Some(Opcode::Text)
        } else if v == 2 {
            Some(Opcode::Binary)
        } else if v == 9 {
            Some(Opcode::Ping)
        } else if v == 10 {
            Some(Opcode::Pong)
        } else {
            None
        }
    }
}

/// Why a chunk could not be parsed.
#[derive(Clone, Copy, Debug, PartialEq, Eq, Structural)]
pub enum FrameError {
    /// A header whose marker or opcode is unknown.
    InvalidHeader,
}

/// Whether the first four bytes of `s` form a header.
pub open spec fn header_ok(s: Seq<u8>) -> bool {
    s.len() >= 4 && s[0] / 16 == 8 && opcode_of((s[0] % 16) as nat) is Some
}

/// The payload length that the header at the front of `s` announces.
pub open spec fn payload_len(s: Seq<u8>) -> nat {
    (s[2] + 256 * s[3]) as nat
}

/// The frames that `s` holds from its front, what is left after them, and
/// whether that stopped at a bad header.
pub struct Scan {
    pub frames: Seq<(Opcode, Seq<u8>)>,
    pub rest: Seq<u8>,
    pub ok: bool,
}

pub open spec fn scan(s: Seq<u8>) -> Scan
    decreases s.len(),
{
    if s.len() < 4 {
        Scan { frames: seq![], rest: s, ok: true }
    } else if !header_ok(s) {
        Scan { frames: seq![], rest: s, ok: false }
    } else if s.len() < 4 + payload_len(s) {
        Scan { frames: seq![], rest: s, ok: true }
    } else {
        let n = 4 + payload_len(s);
        let r = scan(s.subrange(n as int, s.len() as int));
        Scan {
            frames: seq![(opcode_of((s[0] % 16) as nat).unwrap(), s.subrange(4, n as int))] + r.frames,
            rest: r.rest,
            ok: r.ok,
        }
    }
}

/// A buffer that holds no complete frame and no bad header.
pub open spec fn pending(s: Seq<u8>) -> bool {
    scan(s) == (Scan { frames: seq![], rest: s, ok: true })
}

/// One call of the parser: from the buffered bytes and a chunk, the frames
/// handed out and the new buffer. A bad header drops everything buffered.
pub open spec fn parse_step(buffer: Seq<u8>, chunk: Seq<u8>) -> (Seq<(Opcode, Seq<u8>)>, Seq<u8>) {
    let sc = scan(buffer + chunk);
    if sc.ok {
        (sc.frames, sc.rest)
    } else {
        (seq![], seq![])
    }
}

/// The frames handed out by feeding `chunks` in order, from `buffer`.
pub open spec fn feed(buffer: Seq<u8>, chunks: Seq<Seq<u8>>) -> Seq<(Opcode, Seq<u8>)>
    decreases chunks.len(),
{
    if chunks.len() == 0 {
        seq![]
    } else {
        let (f, b) = parse_step(buffer, chunks[0]);
        f + feed(b, chunks.drop_first())
    }
}

/// The chunks joined into one stream.
pub open spec fn joined(chunks: Seq<Seq<u8>>) -> Seq<u8>
    decreases chunks.len(),
{
    if chunks.len() == 0 {
        seq![]
    } else {
        chunks[0] + joined(chunks.drop_first())
    }
}

/// The wire form of one frame.
pub open spec fn frame_bytes(o: Opcode, payload: Seq<u8>) -> Seq<u8> {
    seq![(128 + opcode_value(o)) as u8, 0u8, (payload.len() % 256) as u8, (payload.len() / 256) as u8]
        + payload
}

/// Scanning continues across a join: the frames of `a + b` are those of `a`
/// followed by those of what `a` left over joined with `b`.
pub proof fn lemma_scan_append(a: Seq<u8>, b: Seq<u8>)
    ensures
        scan(a).ok ==> scan(a + b) == (Scan {
            frames: scan(a).frames + scan(scan(a).rest + b).frames,
            rest: scan(scan(a).rest + b).rest,
            ok: scan(scan(a).rest + b).ok,
        }),
        !scan(a).ok ==> !scan(a + b).ok,
    decreases a.len(),
{
    let ab = a + b;
    if a.len() < 4 {
        assert(scan(a).frames + scan(a + b).frames =~= scan(a + b).frames);
    } else {
        assert(ab[0] == a[0] && ab[2] == a[2] && ab[3] == a[3]);
        if !header_ok(a) {
        } else if a.len() < 4 + payload_len(a) {
            assert(scan(a).frames + scan(a + b).frames =~= scan(a + b).frames);
        } else {
            let n = 4 + payload_len(a);
            let a2 = a.subrange(n as int, a.len() as int);
            assert(ab.subrange(n as int, ab.len() as int) =~= a2 + b);
            assert(ab.subrange(4, n as int) =~= a.subrange(4, n as int));
            lemma_scan_append(a2, b);
            if scan(a2).ok {
                assert(scan(a).frames + scan(scan(a).rest + b).frames =~= scan(ab).frames);
            }
        }
    }
}

/// What a scan leaves over is pending.
pub proof fn lemma_scan_rest_pending(s: Seq<u8>)
    requires
        scan(s).ok,
    ensures
        pending(scan(s).rest),
    decreases s.len(),
{
    if s.len() >= 4 && header_ok(s) && s.len() >= 4 + payload_len(s) {
        let n = 4 + payload_len(s);
        lemma_scan_rest_pending(s.subrange(n as int, s.len() as int));
    }
}

/// Split invariance: however a well-formed stream is cut into chunks, the
/// parser hands out the same frames, in the same order, as from the stream
/// in one piece.
pub proof fn lemma_split_invariance(chunks: Seq<Seq<u8>>)
    requires
        scan(joined(chunks)).ok,
    ensures
        feed(seq![], chunks) == scan(joined(chunks)).frames,
{
    assert(Seq::<u8>::empty() + joined(chunks) =~= joined(chunks));
    lemma_feed(seq![], chunks);
}

proof fn lemma_feed(buffer: Seq<u8>, chunks: Seq<Seq<u8>>)
    requires
        pending(buffer),
        scan(buffer + joined(chunks)).ok,
    ensures
        feed(buffer, chunks) == scan(buffer + joined(chunks)).frames,
    decreases chunks.len(),
{
    if chunks.len() == 0 {
        assert(buffer + joined(chunks) =~= buffer);
    } else {
        let c = chunks[0];
        let r = chunks.drop_first();
        let a = buffer + c;
        assert(buffer + joined(chunks) =~= a + joined(r));
        lemma_scan_append(a, joined(r));
        lemma_scan_rest_pending(a);
        lemma_feed(scan(a).rest, r);
    }
}

/// The frames of a parser result, payloads as sequences.
pub open spec fn frames_view(v: Seq<(Opcode, Vec<u8>)>) -> Seq<(Opcode, Seq<u8>)> {
    v.map_values(|f: (Opcode, Vec<u8>)| (f.0, f.1@))
}

/// What a parser call handed out.
pub open spec fn handed_out(o: Option<Vec<(Opcode, Vec<u8>)>>) -> Seq<(Opcode, Seq<u8>)> {
    match o {
        Some(v) => frames_view(v@),
        None => seq![],
    }
}

/// The stateful parser: it keeps the bytes of a frame not yet complete.
pub struct FrameParser {
    buffer: Vec<u8>,
}

impl View for FrameParser {
    type V = Seq<u8>;

    closed spec fn view(&self) -> Seq<u8> {
        self.buffer@
    }
}

impl FrameParser {
    pub open spec fn wf(&self) -> bool {
        pending(self@)
    }

    pub fn new() -> (r: FrameParser)
        ensures
            r@ == Seq::<u8>::empty(),
            r.wf(),
    {
        FrameParser { buffer: Vec::new() }
    }

    /// Adds `incoming` to the buffered bytes and hands out every frame now
    /// complete, in order: `None` when there is none. On a bad header the
    /// chunk is refused and the buffer emptied, so the next chunk starts
    /// afresh.
    pub fn parse(&mut self, incoming: &[u8]) -> (r: Result<Option<Vec<(Opcode, Vec<u8>)>>, FrameError>)
        requires
            old(self).wf(),
        ensures
            final(self).wf(),
            final(self)@ == parse_step(old(self)@, incoming@).1,
            r is Ok <==> scan(old(self)@ + incoming@).ok,
            r matches Ok(o) ==> handed_out(o) == parse_step(old(self)@, incoming@).0,
            r matches Ok(Some(v)) ==> v@.len() > 0,
            r is Err ==> r == Err::<Option<Vec<(Opcode, Vec<u8>)>>, FrameError>(
                FrameError::InvalidHeader,
            ),
    {
        let mut i: usize = 0;
        while i < incoming.len()
            invariant
                i <= incoming@.len(),
                self.buffer@ == old(self)@ + incoming@.subrange(0, i as int),
            decreases incoming@.len() - i,
        {
            self.buffer.push(incoming[i]);
            i = i + 1;
            assert(self.buffer@ =~= old(self)@ + incoming@.subrange(0, i as int));
        }
        assert(incoming@.subrange(0, incoming@.len() as int) =~= incoming@);
        let ghost data = self.buffer@;
        let len = self.buffer.len();
        let mut frames: Vec<(Opcode, Vec<u8>)> = Vec::new();
        let mut pos: usize = 0;
        assert(data.subrange(0, len as int) =~= data);
        assert(frames_view(frames@) + scan(data).frames =~= scan(data).frames);
        loop
            invariant
                pos <= len,
                len == data.len(),
                self.buffer@ == data,
                scan(data) == (Scan {
                    frames: frames_view(frames@) + scan(data.subrange(pos as int, len as int)).frames,
                    rest: scan(data.subrange(pos as int, len as int)).rest,
                    ok: scan(data.subrange(pos as int, len as int)).ok,
                }),
            ensures
                pos <= len,
                scan(data) == (Scan {
                    frames: frames_view(frames@),
                    rest: data.subrange(pos as int, len as int),
                    ok: true,
                }) || (!scan(data).ok && len - pos >= 4 && !header_ok(
                    data.subrange(pos as int, len as int),
                )),
            decreases len - pos,
        {
            let ghost t = data.subrange(pos as int, len as int);
            if len - pos < HEADER_LEN {
                assert(frames_view(frames@) + seq![] =~= frames_view(frames@));
                break;
            }
            let b0 = self.buffer[pos];
            assert(t[0] == b0 && t[2] == data[pos + 2] && t[3] == data[pos + 3]);
            let op = if b0 / 16 == 8 {
                Opcode::of_value(b0 % 16)
            } else {
                None
            };
            let op = match op {
                Some(o) => o,
                None => {
                    break;
                },
            };
            let n = self.buffer[pos + 2] as usize + 256 * (self.buffer[pos + 3] as usize);
            if len - pos - HEADER_LEN < n {
                assert(frames_view(frames@) + seq![] =~= frames_view(frames@));
                break;
            }
            let start = pos + HEADER_LEN;
            let end = start + n;
            let payload = vstd::slice::slice_to_vec(
                vstd::slice::slice_subrange(self.buffer.as_slice(), start, end),
            );
            let ghost before = frames@;
            frames.push((op, payload));
            assert(t.subrange(4, 4 + n) =~= data.subrange(start as int, end as int));
            assert(t.subrange(4 + n, t.len() as int) =~= data.subrange(end as int, len as int));
            assert(frames_view(frames@) =~= frames_view(before).push((op, payload@)));
            assert(frames_view(frames@) + scan(data.subrange(end as int, len as int)).frames
                =~= frames_view(before) + scan(t).frames);
            pos = end;
        }
        if !(len - pos < HEADER_LEN) {
            let b0 = self.buffer[pos];
            assert(data.subrange(pos as int, len as int)[0] == b0);
            let known = b0 / 16 == 8 && Opcode::of_value(b0 % 16).is_some();
            if !known {
                self.buffer = Vec::new();
                proof {
                    lemma_scan_append(old(self)@, incoming@);
                }
                return Err(FrameError::InvalidHeader);
            }
        }
        let rest = vstd::slice::slice_to_vec(vstd::slice::slice_subrange(self.buffer.as_slice(), pos, len));
        self.buffer = rest;
        proof {
            lemma_scan_rest_pending(data);
        }
        if frames.len() == 0 {
            Ok(None)
        } else {
            Ok(Some(frames))
        }
    }
}

/// The wire form of one frame.
pub fn encode_frame(o: Opcode, payload: &[u8]) -> (r: Vec<u8>)
    requires
        payload@.len() <= MAX_PAYLOAD,
    ensures
        r@ == frame_bytes(o, payload@),
{
    let mut r: Vec<u8> = Vec::new();
    r.push(128 + o.value());
    r.push(0);
    r.push((payload.len() % 256) as u8);
    r.push((payload.len() / 256) as u8);
    let ghost head = r@;
    let mut i: usize = 0;
    while i < payload.len()
        invariant
            i <= payload@.len(),
            r@ == head + payload@.subrange(0, i as int),
        decreases payload@.len() - i,
    {
        r.push(payload[i]);
        i = i + 1;
        assert(r@ =~= head + payload@.subrange(0, i as int));
    }
    assert(payload@.subrange(0, payload@.len() as int) =~= payload@);
    assert(r@ =~= frame_bytes(o, payload@));
    r
}

} // verus!
