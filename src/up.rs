//! Envelopes received from the robot: hello, telemetry and status, in the
//! protobuf wire format. Decoding follows protobuf: fields in any order, the
//! last occurrence of a scalar wins, a nested message merges into the one
//! before, absent fields take their defaults, unknown fields are skipped.

use vstd::prelude::*;
use vstd::string::StringSliceAdditionalSpecFns;
use vstd::utf8::{decode_utf8, encode_utf8, encode_utf8_decode_utf8, encode_utf8_valid_utf8, valid_utf8};
use crate::envelope::ApiError;
use crate::wire::{
    append_bytes, bytes_field, field_at, field_enc, field_ok, i32_code, lemma_field_at, lemma_i32_round_trip, i32_of, i32_value, i32_wire, item_view, opt_uint,
    read_field, u32_of, u32_value, u64_of, varint_field, write_bytes_field, write_opt_uint,
    write_varint_field, Field, FieldItem, WireItem, WireValue,
};

verus! {

/// Where the robot listens for the low-latency channel.
#[derive(Clone, Copy, Debug, PartialEq, Eq, Structural)]
pub struct KcpServerStatus {
    pub server_port: u32,
}

/// The device that a status payload describes.
#[derive(Clone, Copy, Debug, PartialEq, Eq, Structural)]
pub enum StatusKind {
    Base,
    Arm,
    LinearLift,
    RotateLift,
}

/// A device status, carried as its encoded payload.
#[derive(Clone, Debug, PartialEq, Eq)]
pub struct Status {
    pub kind: StatusKind,
    pub payload: Vec<u8>,
}

/// One envelope from the robot.
#[derive(Clone, Debug, PartialEq, Eq)]
pub struct ApiUp {
    pub protocol_major_version: u32,
    pub protocol_minor_version: u32,
    pub session_id: u64,
    /// A report frequency code (see `ReportFrequency::code`).
    pub report_frequency: i32,
    pub robot_type: i32,
    /// A diagnostic the robot pushes unprompted.
    pub log: Option<String>,
    /// The robot's clock, as its encoded message.
    pub time_stamp: Option<Vec<u8>>,
    pub kcp_server_status: Option<KcpServerStatus>,
    pub status: Option<Status>,
}

/// What an `ApiUp` stands for.
pub struct UpModel {
    pub major: u32,
    pub minor: u32,
    pub session_id: u64,
    pub report_frequency: i32,
    pub robot_type: i32,
    pub log: Option<Seq<char>>,
    pub time_stamp: Option<Seq<u8>>,
    pub kcp_server_status: Option<KcpServerStatus>,
    pub status: Option<(StatusKind, Seq<u8>)>,
}

impl View for ApiUp {
    type V = UpModel;

    open spec fn view(&self) -> UpModel {
        UpModel {
            major: self.protocol_major_version,
            minor: self.protocol_minor_version,
            session_id: self.session_id,
            report_frequency: self.report_frequency,
            robot_type: self.robot_type,
            log: match self.log {
                Some(l) => Some(l@),
                None => None,
            },
            time_stamp: match self.time_stamp {
                Some(t) => Some(t@),
                None => None,
            },
            kcp_server_status: self.kcp_server_status,
            status: match self.status {
                Some(st) => Some((st.kind, st.payload@)),
                None => None,
            },
        }
    }
}

pub const LOG_FIELD: u64 = 6;
pub const TIME_STAMP_FIELD: u64 = 7;
pub const KCP_SERVER_STATUS_FIELD: u64 = 8;

/// The field number of a status for `k`.
pub open spec fn status_field(k: StatusKind) -> nat {
    match k {
        StatusKind::Base => 9,
        StatusKind::Arm => 10,
        StatusKind::LinearLift => 11,
        StatusKind::RotateLift => 12,
    }
}

/// The status kind carried in field `num`, if any.
pub open spec fn status_of_field(num: nat) -> Option<StatusKind> {
    if num == 9 {
        Some(StatusKind::Base)
    } else if num == 10 {
        Some(StatusKind::Arm)
    } else if num == 11 {
        Some(StatusKind::LinearLift)
    } else if num == 12 {
        Some(StatusKind::RotateLift)
    } else {
        None
    }
}

impl StatusKind {
    pub fn field(&self) -> (r: u64)
        ensures
            r as nat == status_field(*self),
    {
        match self {
            StatusKind::Base => 9,
            StatusKind::Arm => 10,
            StatusKind::LinearLift => 11,
            StatusKind::RotateLift => 12,
        }
    }

    pub fn of_field(num: u64) -> (r: Option<StatusKind>)
        ensures
            r == status_of_field(num as nat),
    {
        if num == 9 {
            Some(StatusKind::Base)
        } else if num == 10 {
            Some(StatusKind::Arm)
        } else if num == 11 {
            Some(StatusKind::LinearLift)
        } else if num == 12 {
            Some(StatusKind::RotateLift)
        } else {
            None
        }
    }
}

/// One field of the low-latency port message applied to `k`.
pub open spec fn kcp_status_step(k: KcpServerStatus, f: Field) -> Option<KcpServerStatus> {
    if f.num == 1 {
        match f.value {
            WireValue::Varint(v) => Some(KcpServerStatus { server_port: u32_of(v) }),
            _ => None,
        }
    } else {
        Some(k)
    }
}

pub open spec fn kcp_status_from(s: Seq<u8>, pos: nat, k: KcpServerStatus) -> Option<KcpServerStatus>
    decreases s.len() - pos,
{
    if pos >= s.len() {
        Some(k)
    } else {
        match field_at(s, pos) {
            None => None,
            Some((f, q)) => if q <= pos || q > s.len() {
                None
            } else {
                match kcp_status_step(k, f) {
                    None => None,
                    Some(k2) => kcp_status_from(s, q, k2),
                }
            },
        }
    }
}

/// An up envelope with every field at its default.
pub open spec fn default_up() -> UpModel {
    UpModel {
        major: 0,
        minor: 0,
        session_id: 0,
        report_frequency: 0,
        robot_type: 0,
        log: None,
        time_stamp: None,
        kcp_server_status: None,
        status: None,
    }
}

/// One field of an up envelope applied to `u`. The log must be UTF-8; the
/// time stamp and status payloads merge by concatenation (the status only
/// while its kind stays the same), the port message by merging.
pub open spec fn up_step(u: UpModel, f: Field) -> Option<UpModel> {
    if 1 <= f.num <= 5 {
        match f.value {
            WireValue::Varint(v) => Some(
                if f.num == 1 {
                    UpModel { major: u32_of(v), ..u }
                } else if f.num == 2 {
                    UpModel { minor: u32_of(v), ..u }
                } else if f.num == 3 {
                    UpModel { session_id: u64_of(v), ..u }
                } else if f.num == 4 {
                    UpModel { report_frequency: i32_of(v), ..u }
                } else {
                    UpModel { robot_type: i32_of(v), ..u }
                },
            ),
            _ => None,
        }
    } else if f.num == 6 {
        match f.value {
            WireValue::Len(b) => if valid_utf8(b) {
                Some(UpModel { log: Some(decode_utf8(b)), ..u })
            } else {
                None
            },
            _ => None,
        }
    } else if f.num == 7 {
        match f.value {
            WireValue::Len(b) => Some(
                UpModel {
                    time_stamp: Some(
                        match u.time_stamp {
                            Some(t) => t + b,
                            None => b,
                        },
                    ),
                    ..u
                },
            ),
            _ => None,
        }
    } else if f.num == 8 {
        match f.value {
            WireValue::Len(b) => match kcp_status_from(
                b,
                0,
                match u.kcp_server_status {
                    Some(k) => k,
                    None => KcpServerStatus { server_port: 0 },
                },
            ) {
                Some(k) => Some(UpModel { kcp_server_status: Some(k), ..u }),
                None => None,
            },
            _ => None,
        }
    } else {
        match status_of_field(f.num) {
            Some(k) => match f.value {
                WireValue::Len(p) => Some(
                    UpModel {
                        status: Some(
                            match u.status {
                                Some((k2, q)) => if k2 == k {
                                    (k, q + p)
                                } else {
                                    (k, p)
                                },
                                None => (k, p),
                            },
                        ),
                        ..u
                    },
                ),
                _ => None,
            },
            None => Some(u),
        }
    }
}

pub open spec fn up_from(s: Seq<u8>, pos: nat, u: UpModel) -> Option<UpModel>
    decreases s.len() - pos,
{
    if pos >= s.len() {
        Some(u)
    } else {
        match field_at(s, pos) {
            None => None,
            Some((f, q)) => if q <= pos || q > s.len() {
                None
            } else {
                match up_step(u, f) {
                    None => None,
                    Some(u2) => up_from(s, q, u2),
                }
            },
        }
    }
}

/// The up envelope that `s` holds, if it holds one.
pub open spec fn parse_up(s: Seq<u8>) -> Option<UpModel> {
    up_from(s, 0, default_up())
}

/// Empty bytes are an envelope with every field at its default; its major
/// version is zero.
pub proof fn lemma_empty_up_is_default()
    ensures
        parse_up(Seq::empty()) == Some(default_up()),
{
}

/// An integer field as a writer leaves it: left out when zero.
pub open spec fn opt_int(num: nat, i: i32) -> Seq<u8> {
    if i == 0 {
        Seq::empty()
    } else {
        varint_field(num, i32_code(i))
    }
}

/// The wire form of an up envelope: each field not at its default, in
/// field order.
pub open spec fn up_bytes(u: UpModel) -> Seq<u8> {
    opt_uint(1, u.major as nat) + opt_uint(2, u.minor as nat) + opt_uint(3, u.session_id as nat)
        + opt_int(4, u.report_frequency) + opt_int(5, u.robot_type) + match u.log {
        Some(l) => bytes_field(6, encode_utf8(l)),
        None => Seq::empty(),
    } + match u.time_stamp {
        Some(t) => bytes_field(7, t),
        None => Seq::empty(),
    } + match u.kcp_server_status {
        Some(k) => bytes_field(8, opt_uint(1, k.server_port as nat)),
        None => Seq::empty(),
    } + match u.status {
        Some((k, p)) => bytes_field(status_field(k), p),
        None => Seq::empty(),
    }
}

/// Relies on std::str::from_utf8: it accepts exactly the valid UTF-8 byte
/// strings, and the text it returns is made of those bytes.
#[verifier::external_body]
fn utf8_text(b: &[u8]) -> (r: Option<&str>)
    ensures
        r is Some <==> valid_utf8(b@),
        r matches Some(t) ==> t.spec_bytes() == b@,
{
    std::str::from_utf8(b).ok()
}

fn merge_kcp_status(b: &[u8], k: KcpServerStatus) -> (r: Option<KcpServerStatus>)
    ensures
        r == kcp_status_from(b@, 0, k),
{
    let mut acc = k;
    let mut pos: usize = 0;
    while pos < b.len()
        invariant
            pos <= b@.len(),
            kcp_status_from(b@, 0, k) == kcp_status_from(b@, pos as nat, acc),
        decreases b@.len() - pos,
    {
        let (f, q) = match read_field(b, pos) {
            Some(x) => x,
            None => return None,
        };
        if f.num == 1 {
            match f.item {
                WireItem::Varint(v) => {
                    acc = KcpServerStatus { server_port: u32_value(v) };
                },
                _ => return None,
            }
        }
        pos = q;
    }
    Some(acc)
}

fn up_apply(u: ApiUp, f: &FieldItem, b: &[u8]) -> (r: Option<ApiUp>)
    requires
        f.item matches WireItem::Len(a, z) ==> a <= z <= b@.len(),
    ensures
        match r {
            Some(x) => up_step(u@, item_view(b@, *f)) == Some(x@),
            None => up_step(u@, item_view(b@, *f)) is None,
        },
{
    let mut u = u;
    if 1 <= f.num && f.num <= 5 {
        match f.item {
            WireItem::Varint(v) => {
                if f.num == 1 {
                    u.protocol_major_version = u32_value(v);
                } else if f.num == 2 {
                    u.protocol_minor_version = u32_value(v);
                } else if f.num == 3 {
                    u.session_id = v;
                } else if f.num == 4 {
                    u.report_frequency = i32_value(v);
                } else {
                    u.robot_type = i32_value(v);
                }
                Some(u)
            },
            _ => None,
        }
    } else if f.num == LOG_FIELD {
        match f.item {
            WireItem::Len(a, z) => match utf8_text(vstd::slice::slice_subrange(b, a, z)) {
                Some(t) => {
                    proof {
                        encode_utf8_decode_utf8(t@);
                    }
                    u.log = Some(t.to_owned());
                    Some(u)
                },
                None => None,
            },
            _ => None,
        }
    } else if f.num == TIME_STAMP_FIELD {
        match f.item {
            WireItem::Len(a, z) => {
                let part = vstd::slice::slice_subrange(b, a, z);
                let mut ts = match u.time_stamp {
                    Some(t) => t,
                    None => Vec::new(),
                };
                let ghost before = ts@;
                append_bytes(&mut ts, part);
                assert(before.len() == 0 ==> ts@ =~= part@);
                u.time_stamp = Some(ts);
                Some(u)
            },
            _ => None,
        }
    } else if f.num == KCP_SERVER_STATUS_FIELD {
        match f.item {
            WireItem::Len(a, z) => {
                let base = match u.kcp_server_status {
                    Some(k) => k,
                    None => KcpServerStatus { server_port: 0 },
                };
                match merge_kcp_status(vstd::slice::slice_subrange(b, a, z), base) {
                    Some(k) => {
                        u.kcp_server_status = Some(k);
                        Some(u)
                    },
                    None => None,
                }
            },
            _ => None,
        }
    } else {
        match StatusKind::of_field(f.num) {
            Some(k) => match f.item {
                WireItem::Len(a, z) => {
                    let part = vstd::slice::slice_subrange(b, a, z);
                    let mut payload = match u.status {
                        Some(st) => if st.kind == k {
                            st.payload
                        } else {
                            Vec::new()
                        },
                        None => Vec::new(),
                    };
                    let ghost before = payload@;
                    append_bytes(&mut payload, part);
                    assert(before.len() == 0 ==> payload@ =~= part@);
                    u.status = Some(Status { kind: k, payload });
                    Some(u)
                },
                _ => None,
            },
            None => Some(u),
        }
    }
}

/// Reads an up envelope; fails with `ApiError::Decode` exactly when the
/// bytes hold none. Empty bytes are an envelope with every field at its
/// default.
pub fn decode_up(b: &[u8]) -> (r: Result<ApiUp, ApiError>)
    ensures
        match r {
            Ok(u) => parse_up(b@) == Some(u@),
            Err(e) => parse_up(b@) is None && e == ApiError::Decode,
        },
{
    let mut acc = ApiUp {
        protocol_major_version: 0,
        protocol_minor_version: 0,
        session_id: 0,
        report_frequency: 0,
        robot_type: 0,
        log: None,
        time_stamp: None,
        kcp_server_status: None,
        status: None,
    };
    let mut pos: usize = 0;
    while pos < b.len()
        invariant
            pos <= b@.len(),
            parse_up(b@) == up_from(b@, pos as nat, acc@),
        decreases b@.len() - pos,
    {
        let (f, q) = match read_field(b, pos) {
            Some(x) => x,
            None => return Err(ApiError::Decode),
        };
        acc = match up_apply(acc, &f, b) {
            Some(a) => a,
            None => return Err(ApiError::Decode),
        };
        pos = q;
    }
    Ok(acc)
}

/// The wire form of `u`.
pub fn encode_up(u: &ApiUp) -> (r: Vec<u8>)
    ensures
        r@ == up_bytes(u@),
{
    let mut buf: Vec<u8> = Vec::new();
    write_opt_uint(&mut buf, 1, u.protocol_major_version as u64);
    write_opt_uint(&mut buf, 2, u.protocol_minor_version as u64);
    write_opt_uint(&mut buf, 3, u.session_id);
    let ghost a3 = buf@;
    if u.report_frequency != 0 {
        write_varint_field(&mut buf, 4, i32_wire(u.report_frequency));
    }
    assert(buf@ =~= a3 + opt_int(4, u.report_frequency));
    let ghost a4 = buf@;
    if u.robot_type != 0 {
        write_varint_field(&mut buf, 5, i32_wire(u.robot_type));
    }
    assert(buf@ =~= a4 + opt_int(5, u.robot_type));
    let ghost a5 = buf@;
    match &u.log {
        Some(l) => write_bytes_field(&mut buf, LOG_FIELD, l.as_str().as_bytes()),
        None => {},
    }
    let ghost a6 = buf@;
    match &u.time_stamp {
        Some(t) => write_bytes_field(&mut buf, TIME_STAMP_FIELD, t.as_slice()),
        None => {},
    }
    let ghost a7 = buf@;
    match u.kcp_server_status {
        Some(k) => {
            let mut inner: Vec<u8> = Vec::new();
            write_opt_uint(&mut inner, 1, k.server_port as u64);
            assert(inner@ =~= opt_uint(1, k.server_port as nat));
            write_bytes_field(&mut buf, KCP_SERVER_STATUS_FIELD, inner.as_slice());
        },
        None => {},
    }
    let ghost a8 = buf@;
    match &u.status {
        Some(st) => write_bytes_field(&mut buf, st.kind.field(), st.payload.as_slice()),
        None => {},
    }
    assert(buf@ =~= up_bytes(u@));
    buf
}

/// Log and payloads short enough for their length to be written.
pub open spec fn up_wf(u: UpModel) -> bool {
    &&& u.log matches Some(l) ==> encode_utf8(l).len() < 0x1_0000_0000_0000_0000nat
    &&& u.time_stamp matches Some(t) ==> t.len() < 0x1_0000_0000_0000_0000nat
    &&& u.status matches Some((_, p)) ==> p.len() < 0x1_0000_0000_0000_0000nat
}

/// Reading one written part (a field, or nothing for a default) moves the
/// fold from `a` at `pos` to `a2` after the part.
proof fn lemma_up_part(s: Seq<u8>, pos: nat, part: Seq<u8>, f: Option<Field>, t: Seq<u8>, a: UpModel, a2: UpModel)
    requires
        pos <= s.len(),
        s.subrange(pos as int, s.len() as int) == part + t,
        match f {
            Some(fl) => part == field_enc(fl) && field_ok(fl) && up_step(a, fl) == Some(a2),
            None => part.len() == 0 && a2 == a,
        },
    ensures
        up_from(s, pos, a) == up_from(s, pos + part.len(), a2),
        pos + part.len() <= s.len(),
        s.subrange((pos + part.len()) as int, s.len() as int) == t,
{
    match f {
        Some(fl) => {
            lemma_field_at(s, pos, fl, t);
        },
        None => {
            assert(part + t =~= t);
        },
    }
}

pub open spec fn int_part(num: nat, v: nat) -> Option<Field> {
    if v == 0 {
        None
    } else {
        Some(Field { num, value: WireValue::Varint(v) })
    }
}

proof fn lemma_kcp_status_round_trip(port: u32)
    ensures
        kcp_status_from(opt_uint(1, port as nat), 0, KcpServerStatus { server_port: 0 }) == Some(
            KcpServerStatus { server_port: port },
        ),
        opt_uint(1, port as nat).len() < 0x1_0000_0000_0000_0000nat,
{
    let s = opt_uint(1, port as nat);
    if port != 0 {
        let f = Field { num: 1, value: WireValue::Varint(port as nat) };
        assert(s.subrange(0, s.len() as int) =~= field_enc(f) + Seq::<u8>::empty());
        lemma_field_at(s, 0, f, Seq::empty());
        assert(opt_uint(1, port as nat) == field_enc(f));
        assert(kcp_status_step(KcpServerStatus { server_port: 0 }, f) == Some(
            KcpServerStatus { server_port: port },
        ));
        assert(kcp_status_from(s, 0, KcpServerStatus { server_port: 0 }) == kcp_status_from(
            s,
            s.len(),
            KcpServerStatus { server_port: port },
        ));
    } else {
        assert(s.len() == 0);
    }
    reveal(varint_field);
    crate::varint::lemma_varint_len_bound(8);
    crate::varint::lemma_varint_len_bound(port as nat);
}

/// Every up envelope reads back, from its wire form, as itself.
#[verifier::rlimit(60)]
pub proof fn lemma_up_round_trip(u: UpModel)
    requires
        up_wf(u),
    ensures
        parse_up(up_bytes(u)) == Some(u),
{
    let s = up_bytes(u);
    let e = Seq::<u8>::empty();
    let o1 = opt_uint(1, u.major as nat);
    let o2 = opt_uint(2, u.minor as nat);
    let o3 = opt_uint(3, u.session_id as nat);
    let o4 = opt_int(4, u.report_frequency);
    let o5 = opt_int(5, u.robot_type);
    let o6 = match u.log {
        Some(l) => bytes_field(6, encode_utf8(l)),
        None => Seq::empty(),
    };
    let o7 = match u.time_stamp {
        Some(t) => bytes_field(7, t),
        None => Seq::empty(),
    };
    let o8 = match u.kcp_server_status {
        Some(k) => bytes_field(8, opt_uint(1, k.server_port as nat)),
        None => Seq::empty(),
    };
    let o9 = match u.status {
        Some((k, p)) => bytes_field(status_field(k), p),
        None => Seq::empty(),
    };
    assert(s.subrange(0, s.len() as int) =~= o1 + (o2 + (o3 + (o4 + (o5 + (o6 + (o7 + (o8 + (o9
        + e)))))))));
    let a0 = default_up();
    let a1 = UpModel { major: u.major, ..a0 };
    let a2 = UpModel { minor: u.minor, ..a1 };
    let a3 = UpModel { session_id: u.session_id, ..a2 };
    let a4 = UpModel { report_frequency: u.report_frequency, ..a3 };
    let a5 = UpModel { robot_type: u.robot_type, ..a4 };
    let a6 = UpModel { log: u.log, ..a5 };
    let a7 = UpModel { time_stamp: u.time_stamp, ..a6 };
    let a8 = UpModel { kcp_server_status: u.kcp_server_status, ..a7 };
    lemma_i32_round_trip(u.report_frequency);
    lemma_i32_round_trip(u.robot_type);
    lemma_up_part(s, 0, o1, int_part(1, u.major as nat), o2 + (o3 + (o4 + (o5 + (o6 + (o7 + (o8 + (o9 + e))))))), a0, a1);
    let p1 = o1.len();
    lemma_up_part(s, p1, o2, int_part(2, u.minor as nat), o3 + (o4 + (o5 + (o6 + (o7 + (o8 + (o9 + e)))))), a1, a2);
    let p2 = p1 + o2.len();
    lemma_up_part(s, p2, o3, int_part(3, u.session_id as nat), o4 + (o5 + (o6 + (o7 + (o8 + (o9 + e))))), a2, a3);
    let p3 = p2 + o3.len();
    lemma_up_part(s, p3, o4, int_part(4, i32_code(u.report_frequency)), o5 + (o6 + (o7 + (o8 + (o9 + e)))), a3, a4);
    let p4 = p3 + o4.len();
    lemma_up_part(s, p4, o5, int_part(5, i32_code(u.robot_type)), o6 + (o7 + (o8 + (o9 + e))), a4, a5);
    let p5 = p4 + o5.len();
    let f6 = match u.log {
        Some(l) => {
            encode_utf8_valid_utf8(l);
            encode_utf8_decode_utf8(l);
            Some(Field { num: 6, value: WireValue::Len(encode_utf8(l)) })
        },
        None => None,
    };
    lemma_up_part(s, p5, o6, f6, o7 + (o8 + (o9 + e)), a5, a6);
    let p6 = p5 + o6.len();
    let f7 = match u.time_stamp {
        Some(t) => Some(Field { num: 7, value: WireValue::Len(t) }),
        None => None,
    };
    lemma_up_part(s, p6, o7, f7, o8 + (o9 + e), a6, a7);
    let p7 = p6 + o7.len();
    let f8 = match u.kcp_server_status {
        Some(k) => {
            lemma_kcp_status_round_trip(k.server_port);
            Some(Field { num: 8, value: WireValue::Len(opt_uint(1, k.server_port as nat)) })
        },
        None => None,
    };
    lemma_up_part(s, p7, o8, f8, o9 + e, a7, a8);
    let p8 = p7 + o8.len();
    let f9 = match u.status {
        Some((k, p)) => Some(Field { num: status_field(k), value: WireValue::Len(p) }),
        None => None,
    };
    assert(UpModel { status: u.status, ..a8 } == u);
    lemma_up_part(s, p8, o9, f9, e, a8, u);
}

} // verus!
