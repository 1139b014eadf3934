//! Envelopes sent to the robot: one command per envelope, in the protobuf
//! wire format. Decoding follows protobuf: fields in any order, the last
//! occurrence of a scalar wins, a nested message merges into the one before,
//! absent scalars take their defaults, unknown fields are skipped.

use vstd::prelude::*;
use crate::envelope::ApiError;
use crate::varint::lemma_varint_len_bound;
use crate::wire::{
    append_bytes, bytes_field, field_at, i32_code, i32_of, i32_value, i32_wire,
    item_view, lemma_field_at, lemma_i32_round_trip, opt_uint, read_field, u32_of, u32_value,
    varint_field, write_bytes_field, write_opt_uint, write_varint_field, Field, FieldItem, WireItem,
    WireValue,
};

verus! {

/// Settings of the low-latency transport that the robot is asked to use.
#[derive(Clone, Copy, Debug, PartialEq, Eq, Structural)]
pub struct KcpConfig {
    pub window_size_snd_wnd: u32,
    pub window_size_rcv_wnd: u32,
    pub interval_ms: u32,
    pub no_delay: bool,
    pub nc: bool,
    pub resend: u32,
}

/// Request to open the low-latency channel towards `client_peer_port`.
#[derive(Clone, Copy, Debug, PartialEq, Eq, Structural)]
pub struct EnableKcp {
    pub client_peer_port: u32,
    pub kcp_config: Option<KcpConfig>,
}

/// The device that a command payload is for.
#[derive(Clone, Copy, Debug, PartialEq, Eq, Structural)]
pub enum CommandKind {
    Base,
    Arm,
    LinearLift,
    RotateLift,
    SecondaryDevice,
}

/// One envelope for the robot.
#[derive(Clone, Debug, PartialEq, Eq)]
pub enum ApiDown {
    EnableKcp(EnableKcp),
    /// A report frequency code (see `ReportFrequency::code`).
    SetReportFrequency(i32),
    /// A device command, carried as its encoded payload.
    Command(CommandKind, Vec<u8>),
    /// First traffic on a fresh low-latency channel.
    PlaceholderMessage(bool),
}

/// What an `ApiDown` stands for.
pub enum DownModel {
    EnableKcp(EnableKcp),
    SetReportFrequency(i32),
    Command(CommandKind, Seq<u8>),
    PlaceholderMessage(bool),
}

impl View for ApiDown {
    type V = DownModel;

    open spec fn view(&self) -> DownModel {
        match self {
            ApiDown::EnableKcp(e) => DownModel::EnableKcp(*e),
            ApiDown::SetReportFrequency(f) => DownModel::SetReportFrequency(*f),
            ApiDown::Command(k, p) => DownModel::Command(*k, p@),
            ApiDown::PlaceholderMessage(b) => DownModel::PlaceholderMessage(*b),
        }
    }
}

pub const ENABLE_KCP_FIELD: u64 = 1;
pub const REPORT_FREQUENCY_FIELD: u64 = 2;
pub const PLACEHOLDER_FIELD: u64 = 8;

/// The field number of a command for `k`.
pub open spec fn command_field(k: CommandKind) -> nat {
    match k {
        CommandKind::Base => 3,
        CommandKind::Arm => 4,
        CommandKind::LinearLift => 5,
        CommandKind::RotateLift => 6,
        CommandKind::SecondaryDevice => 7,
    }
}

/// The command kind carried in field `num`, if any.
pub open spec fn command_of_field(num: nat) -> Option<CommandKind> {
    if num == 3 {
        Some(CommandKind::Base)
    } else if num == 4 {
        Some(CommandKind::Arm)
    } else if num == 5 {
        Some(CommandKind::LinearLift)
    } else if num == 6 {
        Some(CommandKind::RotateLift)
    } else if num == 7 {
        Some(CommandKind::SecondaryDevice)
    } else {
        None
    }
}

impl CommandKind {
    pub fn field(&self) -> (r: u64)
        ensures
            r as nat == command_field(*self),
    {
        match self {
            CommandKind::Base => 3,
            CommandKind::Arm => 4,
            CommandKind::LinearLift => 5,
            CommandKind::RotateLift => 6,
            CommandKind::SecondaryDevice => 7,
        }
    }

    pub fn of_field(num: u64) -> (r: Option<CommandKind>)
        ensures
            r == command_of_field(num as nat),
    {
        if num == 3 {
            Some(CommandKind::Base)
        } else if num == 4 {
            Some(CommandKind::Arm)
        } else if num == 5 {
            Some(CommandKind::LinearLift)
        } else if num == 6 {
            Some(CommandKind::RotateLift)
        } else if num == 7 {
            Some(CommandKind::SecondaryDevice)
        } else {
            None
        }
    }
}

pub open spec fn bool_code(b: bool) -> nat {
    if b {
        1
    } else {
        0
    }
}

fn bool_value(b: bool) -> (r: u64)
    ensures
        r as nat == bool_code(b),
{
    if b {
        1
    } else {
        0
    }
}

pub open spec fn default_kcp_config() -> KcpConfig {
    KcpConfig {
        window_size_snd_wnd: 0,
        window_size_rcv_wnd: 0,
        interval_ms: 0,
        no_delay: false,
        nc: false,
        resend: 0,
    }
}

/// One field of the transport settings applied to `c`.
pub open spec fn kcp_config_step(c: KcpConfig, f: Field) -> Option<KcpConfig> {
    if 1 <= f.num <= 6 {
        match f.value {
            WireValue::Varint(v) => Some(
                if f.num == 1 {
                    KcpConfig { window_size_snd_wnd: u32_of(v), ..c }
                } else if f.num == 2 {
                    KcpConfig { window_size_rcv_wnd: u32_of(v), ..c }
                } else if f.num == 3 {
                    KcpConfig { interval_ms: u32_of(v), ..c }
                } else if f.num == 4 {
                    KcpConfig { no_delay: v != 0, ..c }
                } else if f.num == 5 {
                    KcpConfig { nc: v != 0, ..c }
                } else {
                    KcpConfig { resend: u32_of(v), ..c }
                },
            ),
            _ => None,
        }
    } else {
        Some(c)
    }
}

/// The transport settings read from `pos` on, merged into `c`.
pub open spec fn kcp_config_from(s: Seq<u8>, pos: nat, c: KcpConfig) -> Option<KcpConfig>
    decreases s.len() - pos,
{
    if pos >= s.len() {
        Some(c)
    } else {
        match field_at(s, pos) {
            None => None,
            Some((f, q)) => if q <= pos || q > s.len() {
                None
            } else {
                match kcp_config_step(c, f) {
                    None => None,
                    Some(c2) => kcp_config_from(s, q, c2),
                }
            },
        }
    }
}

pub open spec fn default_enable_kcp() -> EnableKcp {
    EnableKcp { client_peer_port: 0, kcp_config: None }
}

/// One field of an activation request applied to `e`.
pub open spec fn enable_kcp_step(e: EnableKcp, f: Field) -> Option<EnableKcp> {
    if f.num == 1 {
        match f.value {
            WireValue::Varint(v) => Some(EnableKcp { client_peer_port: u32_of(v), ..e }),
            _ => None,
        }
    } else if f.num == 2 {
        match f.value {
            WireValue::Len(p) => match kcp_config_from(
                p,
                0,
                match e.kcp_config {
                    Some(c) => c,
                    None => default_kcp_config(),
                },
            ) {
                Some(c) => Some(EnableKcp { kcp_config: Some(c), ..e }),
                None => None,
            },
            _ => None,
        }
    } else {
        Some(e)
    }
}

/// The activation request read from `pos` on, merged into `e`.
pub open spec fn enable_kcp_from(s: Seq<u8>, pos: nat, e: EnableKcp) -> Option<EnableKcp>
    decreases s.len() - pos,
{
    if pos >= s.len() {
        Some(e)
    } else {
        match field_at(s, pos) {
            None => None,
            Some((f, q)) => if q <= pos || q > s.len() {
                None
            } else {
                match enable_kcp_step(e, f) {
                    None => None,
                    Some(e2) => enable_kcp_from(s, q, e2),
                }
            },
        }
    }
}

/// One field of a down envelope applied to the command read so far. The
/// command is a oneof: a new variant replaces the old one; the same message
/// variant again merges into it.
pub open spec fn down_step(d: Option<DownModel>, f: Field) -> Option<Option<DownModel>> {
    if f.num == 1 {
        match f.value {
            WireValue::Len(p) => match enable_kcp_from(
                p,
                0,
                match d {
                    Some(DownModel::EnableKcp(e)) => e,
                    _ => default_enable_kcp(),
                },
            ) {
                Some(e) => Some(Some(DownModel::EnableKcp(e))),
                None => None,
            },
            _ => None,
        }
    } else if f.num == 2 {
        match f.value {
            WireValue::Varint(v) => Some(Some(DownModel::SetReportFrequency(i32_of(v)))),
            _ => None,
        }
    } else if f.num == 8 {
        match f.value {
            WireValue::Varint(v) => Some(Some(DownModel::PlaceholderMessage(v != 0))),
            _ => None,
        }
    } else {
        match command_of_field(f.num) {
            Some(k) => match f.value {
                WireValue::Len(p) => Some(
                    Some(
                        match d {
                            Some(DownModel::Command(k2, q)) => if k2 == k {
                                DownModel::Command(k, q + p)
                            } else {
                                DownModel::Command(k, p)
                            },
                            _ => DownModel::Command(k, p),
                        },
                    ),
                ),
                _ => None,
            },
            None => Some(d),
        }
    }
}

pub open spec fn down_from(s: Seq<u8>, pos: nat, d: Option<DownModel>) -> Option<Option<DownModel>>
    decreases s.len() - pos,
{
    if pos >= s.len() {
        Some(d)
    } else {
        match field_at(s, pos) {
            None => None,
            Some((f, q)) => if q <= pos || q > s.len() {
                None
            } else {
                match down_step(d, f) {
                    None => None,
                    Some(d2) => down_from(s, q, d2),
                }
            },
        }
    }
}

/// What `s` decodes to: `None` if it is no down envelope, `Some(None)` for an
/// envelope with no command set.
pub open spec fn parse_down(s: Seq<u8>) -> Option<Option<DownModel>> {
    down_from(s, 0, None)
}

/// Encoded settings: each value that is not zero, in field order.
pub open spec fn kcp_config_bytes(c: KcpConfig) -> Seq<u8> {
    opt_uint(1, c.window_size_snd_wnd as nat) + (opt_uint(2, c.window_size_rcv_wnd as nat) + (opt_uint(
        3,
        c.interval_ms as nat,
    ) + (opt_uint(4, bool_code(c.no_delay)) + (opt_uint(5, bool_code(c.nc)) + opt_uint(
        6,
        c.resend as nat,
    )))))
}

/// Encoded activation request: the port unless zero, then the settings if set.
pub open spec fn enable_kcp_bytes(e: EnableKcp) -> Seq<u8> {
    opt_uint(1, e.client_peer_port as nat) + match e.kcp_config {
        Some(c) => bytes_field(2, kcp_config_bytes(c)),
        None => Seq::empty(),
    }
}

/// The wire form of a down envelope: the one field of its variant.
pub open spec fn down_bytes(d: DownModel) -> Seq<u8> {
    match d {
        DownModel::EnableKcp(e) => bytes_field(1, enable_kcp_bytes(e)),
        DownModel::SetReportFrequency(f) => varint_field(2, i32_code(f)),
        DownModel::Command(k, p) => bytes_field(command_field(k), p),
        DownModel::PlaceholderMessage(b) => varint_field(8, bool_code(b)),
    }
}

fn encode_kcp_config(c: &KcpConfig) -> (r: Vec<u8>)
    ensures
        r@ == kcp_config_bytes(*c),
{
    let mut buf: Vec<u8> = Vec::new();
    write_opt_uint(&mut buf, 1, c.window_size_snd_wnd as u64);
    write_opt_uint(&mut buf, 2, c.window_size_rcv_wnd as u64);
    write_opt_uint(&mut buf, 3, c.interval_ms as u64);
    write_opt_uint(&mut buf, 4, bool_value(c.no_delay));
    write_opt_uint(&mut buf, 5, bool_value(c.nc));
    write_opt_uint(&mut buf, 6, c.resend as u64);
    assert(buf@ =~= kcp_config_bytes(*c));
    buf
}

fn encode_enable_kcp(e: &EnableKcp) -> (r: Vec<u8>)
    ensures
        r@ == enable_kcp_bytes(*e),
{
    let mut buf: Vec<u8> = Vec::new();
    write_opt_uint(&mut buf, 1, e.client_peer_port as u64);
    match &e.kcp_config {
        Some(c) => {
            let cfg = encode_kcp_config(c);
            write_bytes_field(&mut buf, 2, cfg.as_slice());
        },
        None => {},
    }
    assert(buf@ =~= enable_kcp_bytes(*e));
    buf
}

/// The wire form of `d`.
pub fn encode_down(d: &ApiDown) -> (r: Vec<u8>)
    ensures
        r@ == down_bytes(d@),
{
    let mut buf: Vec<u8> = Vec::new();
    match d {
        ApiDown::EnableKcp(e) => {
            let pl = encode_enable_kcp(e);
            write_bytes_field(&mut buf, ENABLE_KCP_FIELD, pl.as_slice());
        },
        ApiDown::SetReportFrequency(f) => {
            write_varint_field(&mut buf, REPORT_FREQUENCY_FIELD, i32_wire(*f));
        },
        ApiDown::Command(k, p) => {
            write_bytes_field(&mut buf, k.field(), p.as_slice());
        },
        ApiDown::PlaceholderMessage(b) => {
            write_varint_field(&mut buf, PLACEHOLDER_FIELD, bool_value(*b));
        },
    }
    assert(buf@ =~= down_bytes(d@));
    buf
}

fn kcp_config_apply(c: KcpConfig, f: &FieldItem, b: &[u8]) -> (r: Option<KcpConfig>)
    ensures
        r == kcp_config_step(c, item_view(b@, *f)),
{
    if 1 <= f.num && f.num <= 6 {
        match f.item {
            WireItem::Varint(v) => Some(
                if f.num == 1 {
                    KcpConfig { window_size_snd_wnd: u32_value(v), ..c }
                } else if f.num == 2 {
                    KcpConfig { window_size_rcv_wnd: u32_value(v), ..c }
                } else if f.num == 3 {
                    KcpConfig { interval_ms: u32_value(v), ..c }
                } else if f.num == 4 {
                    KcpConfig { no_delay: v != 0, ..c }
                } else if f.num == 5 {
                    KcpConfig { nc: v != 0, ..c }
                } else {
                    KcpConfig { resend: u32_value(v), ..c }
                },
            ),
            _ => None,
        }
    } else {
        Some(c)
    }
}

/// Reads transport settings from `b`, merged into `c`.
fn merge_kcp_config(b: &[u8], c: KcpConfig) -> (r: Option<KcpConfig>)
    ensures
        r == kcp_config_from(b@, 0, c),
{
    let mut acc = c;
    let mut pos: usize = 0;
    while pos < b.len()
        invariant
            pos <= b@.len(),
            kcp_config_from(b@, 0, c) == kcp_config_from(b@, pos as nat, acc),
        decreases b@.len() - pos,
    {
        let (f, q) = match read_field(b, pos) {
            Some(x) => x,
            None => return None,
        };
        acc = match kcp_config_apply(acc, &f, b) {
            Some(a) => a,
            None => return None,
        };
        pos = q;
    }
    Some(acc)
}

fn enable_kcp_apply(e: EnableKcp, f: &FieldItem, b: &[u8]) -> (r: Option<EnableKcp>)
    requires
        f.item matches WireItem::Len(a, z) ==> a <= z <= b@.len(),
    ensures
        r == enable_kcp_step(e, item_view(b@, *f)),
{
    if f.num == 1 {
        match f.item {
            WireItem::Varint(v) => Some(EnableKcp { client_peer_port: u32_value(v), ..e }),
            _ => None,
        }
    } else if f.num == 2 {
        match f.item {
            WireItem::Len(a, z) => {
                let base = match e.kcp_config {
                    Some(c) => c,
                    None => KcpConfig {
                        window_size_snd_wnd: 0,
                        window_size_rcv_wnd: 0,
                        interval_ms: 0,
                        no_delay: false,
                        nc: false,
                        resend: 0,
                    },
                };
                match merge_kcp_config(vstd::slice::slice_subrange(b, a, z), base) {
                    Some(c) => Some(EnableKcp { kcp_config: Some(c), ..e }),
                    None => None,
                }
            },
            _ => None,
        }
    } else {
        Some(e)
    }
}

fn merge_enable_kcp(b: &[u8], e: EnableKcp) -> (r: Option<EnableKcp>)
    ensures
        r == enable_kcp_from(b@, 0, e),
{
    let mut acc = e;
    let mut pos: usize = 0;
    while pos < b.len()
        invariant
            pos <= b@.len(),
            enable_kcp_from(b@, 0, e) == enable_kcp_from(b@, pos as nat, acc),
        decreases b@.len() - pos,
    {
        let (f, q) = match read_field(b, pos) {
            Some(x) => x,
            None => return None,
        };
        acc = match enable_kcp_apply(acc, &f, b) {
            Some(a) => a,
            None => return None,
        };
        pos = q;
    }
    Some(acc)
}

pub open spec fn down_view(d: Option<ApiDown>) -> Option<DownModel> {
    match d {
        Some(x) => Some(x@),
        None => None,
    }
}

fn down_apply(d: Option<ApiDown>, f: &FieldItem, b: &[u8]) -> (r: Option<Option<ApiDown>>)
    requires
        f.item matches WireItem::Len(a, z) ==> a <= z <= b@.len(),
    ensures
        match r {
            Some(x) => down_step(down_view(d), item_view(b@, *f)) == Some(down_view(x)),
            None => down_step(down_view(d), item_view(b@, *f)) is None,
        },
{
    if f.num == ENABLE_KCP_FIELD {
        match f.item {
            WireItem::Len(a, z) => {
                let base = match d {
                    Some(ApiDown::EnableKcp(e)) => e,
                    _ => EnableKcp { client_peer_port: 0, kcp_config: None },
                };
                match merge_enable_kcp(vstd::slice::slice_subrange(b, a, z), base) {
                    Some(e) => Some(Some(ApiDown::EnableKcp(e))),
                    None => None,
                }
            },
            _ => None,
        }
    } else if f.num == REPORT_FREQUENCY_FIELD {
        match f.item {
            WireItem::Varint(v) => Some(Some(ApiDown::SetReportFrequency(i32_value(v)))),
            _ => None,
        }
    } else if f.num == PLACEHOLDER_FIELD {
        match f.item {
            WireItem::Varint(v) => Some(Some(ApiDown::PlaceholderMessage(v != 0))),
            _ => None,
        }
    } else {
        match CommandKind::of_field(f.num) {
            Some(k) => match f.item {
                WireItem::Len(a, z) => {
                    let part = vstd::slice::slice_subrange(b, a, z);
                    match d {
                        Some(ApiDown::Command(k2, q)) => if k2 == k {
                            let mut merged = q;
                            append_bytes(&mut merged, part);
                            Some(Some(ApiDown::Command(k, merged)))
                        } else {
                            Some(Some(ApiDown::Command(k, vstd::slice::slice_to_vec(part))))
                        },
                        _ => Some(Some(ApiDown::Command(k, vstd::slice::slice_to_vec(part)))),
                    }
                },
                _ => None,
            },
            None => Some(d),
        }
    }
}

/// Reads a down envelope: `Ok(None)` for one with no command set; fails with
/// `ApiError::Decode` exactly when the bytes hold none.
pub fn decode_down(b: &[u8]) -> (r: Result<Option<ApiDown>, ApiError>)
    ensures
        match r {
            Ok(d) => parse_down(b@) == Some(down_view(d)),
            Err(e) => parse_down(b@) is None && e == ApiError::Decode,
        },
{
    let mut acc: Option<ApiDown> = None;
    let mut pos: usize = 0;
    while pos < b.len()
        invariant
            pos <= b@.len(),
            down_from(b@, 0, None) == down_from(b@, pos as nat, down_view(acc)),
        decreases b@.len() - pos,
    {
        let (f, q) = match read_field(b, pos) {
            Some(x) => x,
            None => return Err(ApiError::Decode),
        };
        acc = match down_apply(acc, &f, b) {
            Some(a) => a,
            None => return Err(ApiError::Decode),
        };
        pos = q;
    }
    Ok(acc)
}

/// Command payloads short enough for their length to be written.
pub open spec fn down_wf(d: DownModel) -> bool {
    match d {
        DownModel::Command(_, p) => p.len() < 0x1_0000_0000_0000_0000nat,
        _ => true,
    }
}

proof fn lemma_opt_uint_len(num: nat, v: nat)
    requires
        num <= 8,
        v <= u32::MAX,
    ensures
        opt_uint(num, v).len() <= 0x2_0000_0000nat,
{
    reveal(varint_field);
    lemma_varint_len_bound(num * 8);
    lemma_varint_len_bound(v);
}

proof fn lemma_kcp_field(s: Seq<u8>, pos: nat, num: nat, v: nat, t: Seq<u8>, a: KcpConfig, a2: KcpConfig)
    requires
        pos <= s.len(),
        s.subrange(pos as int, s.len() as int) == opt_uint(num, v) + t,
        1 <= num <= 6,
        v <= u32::MAX,
        kcp_config_step(a, Field { num, value: WireValue::Varint(v) }) == Some(a2),
        v == 0 ==> a2 == a,
    ensures
        kcp_config_from(s, pos, a) == kcp_config_from(s, pos + opt_uint(num, v).len(), a2),
        pos + opt_uint(num, v).len() <= s.len(),
        s.subrange((pos + opt_uint(num, v).len()) as int, s.len() as int) == t,
{
    if v != 0 {
        let f = Field { num, value: WireValue::Varint(v) };
        lemma_field_at(s, pos, f, t);
    } else {
        assert(opt_uint(num, v) + t =~= t);
    }
}

proof fn lemma_kcp_config_round_trip(c: KcpConfig)
    ensures
        kcp_config_from(kcp_config_bytes(c), 0, default_kcp_config()) == Some(c),
        kcp_config_bytes(c).len() <= 0x10_0000_0000nat,
{
    let s = kcp_config_bytes(c);
    let e = Seq::<u8>::empty();
    let o1 = opt_uint(1, c.window_size_snd_wnd as nat);
    let o2 = opt_uint(2, c.window_size_rcv_wnd as nat);
    let o3 = opt_uint(3, c.interval_ms as nat);
    let o4 = opt_uint(4, bool_code(c.no_delay));
    let o5 = opt_uint(5, bool_code(c.nc));
    let o6 = opt_uint(6, c.resend as nat);
    assert(s.subrange(0, s.len() as int) =~= o1 + (o2 + (o3 + (o4 + (o5 + (o6 + e))))));
    let a0 = default_kcp_config();
    let a1 = KcpConfig { window_size_snd_wnd: c.window_size_snd_wnd, ..a0 };
    let a2 = KcpConfig { window_size_rcv_wnd: c.window_size_rcv_wnd, ..a1 };
    let a3 = KcpConfig { interval_ms: c.interval_ms, ..a2 };
    let a4 = KcpConfig { no_delay: c.no_delay, ..a3 };
    let a5 = KcpConfig { nc: c.nc, ..a4 };
    lemma_kcp_field(s, 0, 1, c.window_size_snd_wnd as nat, o2 + (o3 + (o4 + (o5 + (o6 + e)))), a0, a1);
    let p1 = o1.len();
    lemma_kcp_field(s, p1, 2, c.window_size_rcv_wnd as nat, o3 + (o4 + (o5 + (o6 + e))), a1, a2);
    let p2 = p1 + o2.len();
    lemma_kcp_field(s, p2, 3, c.interval_ms as nat, o4 + (o5 + (o6 + e)), a2, a3);
    let p3 = p2 + o3.len();
    lemma_kcp_field(s, p3, 4, bool_code(c.no_delay), o5 + (o6 + e), a3, a4);
    let p4 = p3 + o4.len();
    lemma_kcp_field(s, p4, 5, bool_code(c.nc), o6 + e, a4, a5);
    let p5 = p4 + o5.len();
    lemma_kcp_field(s, p5, 6, c.resend as nat, e, a5, c);
    lemma_opt_uint_len(1, c.window_size_snd_wnd as nat);
    lemma_opt_uint_len(2, c.window_size_rcv_wnd as nat);
    lemma_opt_uint_len(3, c.interval_ms as nat);
    lemma_opt_uint_len(4, bool_code(c.no_delay));
    lemma_opt_uint_len(5, bool_code(c.nc));
    lemma_opt_uint_len(6, c.resend as nat);
}

proof fn lemma_enable_kcp_round_trip(en: EnableKcp)
    ensures
        enable_kcp_from(enable_kcp_bytes(en), 0, default_enable_kcp()) == Some(en),
        enable_kcp_bytes(en).len() <= 0x100_0000_0000nat,
{
    let s = enable_kcp_bytes(en);
    let e = Seq::<u8>::empty();
    let o1 = opt_uint(1, en.client_peer_port as nat);
    let o2 = match en.kcp_config {
        Some(c) => bytes_field(2, kcp_config_bytes(c)),
        None => Seq::empty(),
    };
    assert(s.subrange(0, s.len() as int) =~= o1 + (o2 + e));
    let a0 = default_enable_kcp();
    let a1 = EnableKcp { client_peer_port: en.client_peer_port, ..a0 };
    let p1 = o1.len();
    if en.client_peer_port != 0 {
        lemma_field_at(s, 0, Field { num: 1, value: WireValue::Varint(en.client_peer_port as nat) }, o2 + e);
    } else {
        assert(o1 + (o2 + e) =~= o2 + e);
    }
    assert(s.subrange(p1 as int, s.len() as int) == o2 + e);
    assert(enable_kcp_from(s, 0, a0) == enable_kcp_from(s, p1, a1));
    lemma_opt_uint_len(1, en.client_peer_port as nat);
    match en.kcp_config {
        Some(c) => {
            lemma_kcp_config_round_trip(c);
            let f = Field { num: 2, value: WireValue::Len(kcp_config_bytes(c)) };
            lemma_field_at(s, p1, f, e);
            assert(enable_kcp_step(a1, f) == Some(en));
            assert(enable_kcp_from(s, p1, a1) == enable_kcp_from(s, s.len(), en));
            reveal(bytes_field);
            lemma_varint_len_bound(2 * 8 + 2);
            lemma_varint_len_bound(kcp_config_bytes(c).len());
        },
        None => {
            assert(o2 + e =~= e);
            assert(a1 == en);
        },
    }
}

/// Every down envelope reads back, from its wire form, as itself.
pub proof fn lemma_down_round_trip(d: DownModel)
    requires
        down_wf(d),
    ensures
        parse_down(down_bytes(d)) == Some(Some(d)),
{
    let s = down_bytes(d);
    let e = Seq::<u8>::empty();
    assert(s.subrange(0, s.len() as int) =~= s + e);
    match d {
        DownModel::EnableKcp(en) => {
            lemma_enable_kcp_round_trip(en);
            let f = Field { num: 1, value: WireValue::Len(enable_kcp_bytes(en)) };
            lemma_field_at(s, 0, f, e);
            assert(down_step(None, f) == Some(Some(d)));
            assert(down_from(s, 0, None) == down_from(s, s.len(), Some(d)));
        },
        DownModel::SetReportFrequency(f) => {
            lemma_i32_round_trip(f);
            lemma_field_at(s, 0, Field { num: 2, value: WireValue::Varint(i32_code(f)) }, e);
        },
        DownModel::Command(k, p) => {
            lemma_field_at(s, 0, Field { num: command_field(k), value: WireValue::Len(p) }, e);
        },
        DownModel::PlaceholderMessage(b) => {
            lemma_field_at(s, 0, Field { num: 8, value: WireValue::Varint(bool_code(b)) }, e);
        },
    }
}

} // verus!
