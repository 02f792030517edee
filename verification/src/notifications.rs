//! Push notifications over SignalR's binary MessagePack protocol: the
//! update kinds, the messages, their length-prefixed framing, and the
//! per-socket handshake.

use vstd::prelude::*;
use crate::error::AppError;
use crate::text::{
    chars_of, ends_with, eq_ignore_ascii_case, eq_ignore_ascii_case_str, has_prefix, has_suffix, owned,
    strip_prefix,
};
use crate::util::{parse_u64, unsigned_numeral_value};

verus! {

// --- update kinds ---

/// What changed, as Bitwarden clients number it.
#[derive(Clone, Copy, PartialEq, Eq, Structural)]
pub enum UpdateType {
    SyncCipherUpdate,
    SyncCipherCreate,
    SyncLoginDelete,
    SyncFolderDelete,
    SyncCiphers,
    SyncVault,
    SyncOrgKeys,
    SyncFolderCreate,
    SyncFolderUpdate,
    SyncCipherDelete,
    SyncSettings,
    LogOut,
    SyncSendCreate,
    SyncSendUpdate,
    SyncSendDelete,
}

impl UpdateType {
    pub open spec fn spec_code(self) -> u8 {
        match self {
            UpdateType::SyncCipherUpdate => 0,
            UpdateType::SyncCipherCreate => 1,
            UpdateType::SyncLoginDelete => 2,
            UpdateType::SyncFolderDelete => 3,
            UpdateType::SyncCiphers => 4,
            UpdateType::SyncVault => 5,
            UpdateType::SyncOrgKeys => 6,
            UpdateType::SyncFolderCreate => 7,
            UpdateType::SyncFolderUpdate => 8,
            UpdateType::SyncCipherDelete => 9,
            UpdateType::SyncSettings => 10,
            UpdateType::LogOut => 11,
            UpdateType::SyncSendCreate => 12,
            UpdateType::SyncSendUpdate => 13,
            UpdateType::SyncSendDelete => 14,
        }
    }

    /// The number clients know this update by.
    pub fn code(self) -> (r: u8)
        ensures
            r == self.spec_code(),
    {
        match self {
            UpdateType::SyncCipherUpdate => 0,
            UpdateType::SyncCipherCreate => 1,
            UpdateType::SyncLoginDelete => 2,
            UpdateType::SyncFolderDelete => 3,
            UpdateType::SyncCiphers => 4,
            UpdateType::SyncVault => 5,
            UpdateType::SyncOrgKeys => 6,
            UpdateType::SyncFolderCreate => 7,
            UpdateType::SyncFolderUpdate => 8,
            UpdateType::SyncCipherDelete => 9,
            UpdateType::SyncSettings => 10,
            UpdateType::LogOut => 11,
            UpdateType::SyncSendCreate => 12,
            UpdateType::SyncSendUpdate => 13,
            UpdateType::SyncSendDelete => 14,
        }
    }
}

/// Each update kind goes out under the number Bitwarden clients give it:
/// cipher update 0, cipher create 1, login delete 2, folder delete 3,
/// ciphers 4, vault 5, organization keys 6, folder create 7, folder update
/// 8, cipher delete 9, settings 10, log out 11, send create 12, send update
/// 13, send delete 14.
pub proof fn law_update_codes_are_bitwarden_numbers()
    ensures
        UpdateType::SyncCipherUpdate.spec_code() == 0,
        UpdateType::SyncCipherCreate.spec_code() == 1,
        UpdateType::SyncLoginDelete.spec_code() == 2,
        UpdateType::SyncFolderDelete.spec_code() == 3,
        UpdateType::SyncCiphers.spec_code() == 4,
        UpdateType::SyncVault.spec_code() == 5,
        UpdateType::SyncOrgKeys.spec_code() == 6,
        UpdateType::SyncFolderCreate.spec_code() == 7,
        UpdateType::SyncFolderUpdate.spec_code() == 8,
        UpdateType::SyncCipherDelete.spec_code() == 9,
        UpdateType::SyncSettings.spec_code() == 10,
        UpdateType::LogOut.spec_code() == 11,
        UpdateType::SyncSendCreate.spec_code() == 12,
        UpdateType::SyncSendUpdate.spec_code() == 13,
        UpdateType::SyncSendDelete.spec_code() == 14,
        forall|u: UpdateType| #[trigger] u.spec_code() <= 14,
{
}

/// Distinct updates have distinct numbers.
pub proof fn law_update_codes_distinct(a: UpdateType, b: UpdateType)
    requires
        a != b,
    ensures
        a.spec_code() != b.spec_code(),
{
}

// --- messages ---

/// A MessagePack value of the kinds these messages use.
pub enum MsgValue {
    Nil,
    Boolean(bool),
    Integer(i64),
    Text(String),
    Array(Vec<MsgValue>),
    Pairs(Vec<(MsgValue, MsgValue)>),
}

/// A text value.
pub open spec fn is_text(v: MsgValue, t: Seq<char>) -> bool {
    match v {
        MsgValue::Text(s) => s@ == t,
        _ => false,
    }
}

/// The SignalR message type of an invocation, and of a ping.
pub const INVOCATION: i64 = 1;
pub const PING: i64 = 6;

/// The argument of a `ReceiveMessage` invocation: a map of `ContextId`,
/// `Type` and `Payload`, in that order.
pub open spec fn is_notification_argument(
    v: MsgValue,
    notification_type: u8,
    context_id: Seq<char>,
    payload: MsgValue,
) -> bool {
    match v {
        MsgValue::Pairs(entries) => {
            &&& entries@.len() == 3
            &&& is_text(entries@[0].0, "ContextId"@)
            &&& is_text(entries@[0].1, context_id)
            &&& is_text(entries@[1].0, "Type"@)
            &&& entries@[1].1 == MsgValue::Integer(notification_type as i64)
            &&& is_text(entries@[2].0, "Payload"@)
            &&& entries@[2].1 == payload
        },
        _ => false,
    }
}

/// A SignalR invocation of the clients' `ReceiveMessage` with no headers
/// and no invocation id (no answer is expected).
pub open spec fn is_notification(
    v: MsgValue,
    notification_type: u8,
    context_id: Seq<char>,
    payload: MsgValue,
) -> bool {
    match v {
        MsgValue::Array(items) => {
            &&& items@.len() == 5
            &&& items@[0] == MsgValue::Integer(INVOCATION)
            &&& (match items@[1] {
                MsgValue::Pairs(h) => h@.len() == 0,
                _ => false,
            })
            &&& items@[2] == MsgValue::Nil
            &&& is_text(items@[3], "ReceiveMessage"@)
            &&& (match items@[4] {
                MsgValue::Array(args) => args@.len() == 1 && is_notification_argument(
                    args@[0],
                    notification_type,
                    context_id,
                    payload,
                ),
                _ => false,
            })
        },
        _ => false,
    }
}

/// The message that tells a client what changed.
pub fn create_notification(notification_type: u8, context_id: &str, payload: MsgValue) -> (r:
    MsgValue)
    ensures
        is_notification(r, notification_type, context_id@, payload),
{
    let mut entries: Vec<(MsgValue, MsgValue)> = Vec::new();
    entries.push((MsgValue::Text(owned("ContextId")), MsgValue::Text(owned(context_id))));
    entries.push((MsgValue::Text(owned("Type")), MsgValue::Integer(notification_type as i64)));
    entries.push((MsgValue::Text(owned("Payload")), payload));
    let mut args: Vec<MsgValue> = Vec::new();
    args.push(MsgValue::Pairs(entries));
    let mut items: Vec<MsgValue> = Vec::new();
    items.push(MsgValue::Integer(INVOCATION));
    items.push(MsgValue::Pairs(Vec::new()));
    items.push(MsgValue::Nil);
    items.push(MsgValue::Text(owned("ReceiveMessage")));
    items.push(MsgValue::Array(args));
    MsgValue::Array(items)
}

/// A SignalR ping.
pub fn create_ping() -> (r: MsgValue)
    ensures
        match r {
            MsgValue::Array(items) => items@.len() == 1 && items@[0] == MsgValue::Integer(PING),
            _ => false,
        },
{
    let mut items: Vec<MsgValue> = Vec::new();
    items.push(MsgValue::Integer(PING));
    MsgValue::Array(items)
}

// --- encoding and framing ---

/// The bytes `rmpv::encode::write_value` writes for a value.
pub uninterp spec fn msgpack_of(v: MsgValue) -> Seq<u8>;

/// The same value as the `rmpv` crate represents it.
#[verifier::external_body]
fn to_rmpv(v: &MsgValue) -> rmpv::Value {
    match v {
        MsgValue::Nil => rmpv::Value::Nil,
        MsgValue::Boolean(b) => rmpv::Value::Boolean(*b),
        MsgValue::Integer(i) => rmpv::Value::from(*i),
        MsgValue::Text(s) => rmpv::Value::from(s.as_str()),
        MsgValue::Array(a) => rmpv::Value::Array(a.iter().map(to_rmpv).collect()),
        MsgValue::Pairs(m) => rmpv::Value::Map(m.iter().map(|(k, x)| (to_rmpv(k), to_rmpv(x))).collect()),
    }
}

/// The rmpv value type.
#[verifier::external_type_specification]
#[verifier::external_body]
pub struct ExRmpvValue(rmpv::Value);

/// `rmpv::encode::write_value` into a fresh buffer. Writing to a `Vec`
/// cannot fail, and the bytes depend on the value alone.
#[verifier::external_body]
fn encode_msgpack(v: &MsgValue) -> (r: Vec<u8>)
    ensures
        r@ == msgpack_of(*v),
{
    let mut buf: Vec<u8> = Vec::new();
    let _ = rmpv::encode::write_value(&mut buf, &to_rmpv(v));
    buf
}

/// The variable-length prefix of SignalR's binary message format: seven
/// bits at a time, least significant first, the high bit set on every byte
/// but the last.
pub open spec fn varint(n: nat) -> Seq<u8>
    decreases n,
{
    if n < 128 {
        seq![n as u8]
    } else {
        seq![(n % 128 + 128) as u8] + varint(n / 128)
    }
}

/// Read a prefix: the value, and how many bytes it took.
pub open spec fn varint_decode(s: Seq<u8>) -> Option<(nat, nat)>
    decreases s.len(),
{
    if s.len() == 0 {
        None
    } else if s[0] < 128 {
        Some((s[0] as nat, 1))
    } else {
        match varint_decode(s.drop_first()) {
            Some((v, k)) => Some(((s[0] - 128) as nat + 128 * v, k + 1)),
            None => None,
        }
    }
}

/// The length prefix of a message of `len` bytes.
pub fn varint_prefix(len: usize) -> (r: Vec<u8>)
    ensures
        r@ == varint(len as nat),
{
    let mut out: Vec<u8> = Vec::new();
    let mut cur = len;
    loop
        invariant_except_break
            out@ + varint(cur as nat) == varint(len as nat),
        ensures
            out@ == varint(len as nat),
        decreases cur,
    {
        if cur < 128 {
            out.push(cur as u8);
            assert(out@ =~= varint(len as nat));
            break;
        }
        let ghost before = out@;
        out.push((cur % 128 + 128) as u8);
        assert(varint(cur as nat) == seq![(cur % 128 + 128) as u8] + varint((cur / 128) as nat));
        assert(before + varint(cur as nat) =~= out@ + varint((cur / 128) as nat));
        cur = cur / 128;
    }
    out
}

/// A message as sent on the socket: its MessagePack bytes after their
/// length prefix.
pub open spec fn framed(message: Seq<u8>) -> Seq<u8> {
    varint(message.len()) + message
}

/// Encode a value as one framed message.
pub fn serialize_msgpack(value: &MsgValue) -> (r: Vec<u8>)
    ensures
        r@ == framed(msgpack_of(*value)),
{
    let body = encode_msgpack(value);
    let mut out = varint_prefix(body.len());
    let mut rest = body;
    out.append(&mut rest);
    assert(out@ =~= framed(msgpack_of(*value)));
    out
}

/// Reading a prefix gives back the number it was written for, whatever
/// follows it.
pub proof fn law_varint_round_trip(n: nat, rest: Seq<u8>)
    ensures
        varint_decode(varint(n) + rest) == Some((n, varint(n).len())),
    decreases n,
{
    let s = varint(n) + rest;
    if n < 128 {
        assert(s[0] == n as u8);
    } else {
        let b = (n % 128 + 128) as u8;
        assert(varint(n) == seq![b] + varint(n / 128));
        assert(s.drop_first() =~= varint(n / 128) + rest);
        law_varint_round_trip(n / 128, rest);
        assert(s[0] == b);
    }
}

/// A framed message is read back whole: its prefix gives the message's
/// length, and the message follows the prefix.
pub proof fn law_frame_round_trip(message: Seq<u8>)
    ensures
        varint_decode(framed(message)) matches Some((len, k)) && len == message.len()
            && framed(message).subrange(k as int, framed(message).len() as int) == message,
{
    law_varint_round_trip(message.len(), message);
    let k = varint(message.len()).len();
    assert(framed(message).subrange(k as int, framed(message).len() as int) =~= message);
}

// --- sockets ---

/// What a socket remembers across hibernation.
#[derive(Clone, Copy, PartialEq, Eq, Structural)]
pub struct ConnectionState {
    pub handshake_complete: bool,
}

/// The answer to a client's handshake: `{}` and the record separator.
pub fn handshake_accept() -> (r: Vec<u8>)
    ensures
        r@ == seq![0x7bu8, 0x7du8, 0x1eu8],
{
    let mut r: Vec<u8> = Vec::new();
    r.push(0x7b);
    r.push(0x7d);
    r.push(0x1e);
    assert(r@ =~= seq![0x7bu8, 0x7du8, 0x1eu8]);
    r
}

/// What to do with a client's message.
#[derive(PartialEq, Eq, Structural)]
pub enum SocketAction {
    /// Answer the handshake.
    AcceptHandshake,
    /// Nothing to do: after the handshake clients only ping.
    Ignore,
}

/// The state `on_client_message` leaves.
pub open spec fn on_client_message_spec(state: Option<ConnectionState>) -> (ConnectionState, SocketAction) {
    match state {
        Some(s) if s.handshake_complete => (s, SocketAction::Ignore),
        _ => (ConnectionState { handshake_complete: true }, SocketAction::AcceptHandshake),
    }
}

/// A client's first message, whatever it holds, is its handshake and is
/// accepted; later messages are ignored. A socket with no saved state has
/// not completed the handshake.
pub fn on_client_message(state: Option<ConnectionState>) -> (r: (ConnectionState, SocketAction))
    ensures
        r == on_client_message_spec(state),
{
    match state {
        Some(s) => if s.handshake_complete {
            (s, SocketAction::Ignore)
        } else {
            (ConnectionState { handshake_complete: true }, SocketAction::AcceptHandshake)
        },
        None => (ConnectionState { handshake_complete: true }, SocketAction::AcceptHandshake),
    }
}

/// Notifications and pings go only to sockets that completed the
/// handshake.
pub fn receives_messages(state: Option<ConnectionState>) -> (r: bool)
    ensures
        r == (state matches Some(s) && s.handshake_complete),
{
    match state {
        Some(s) => s.handshake_complete,
        None => false,
    }
}

/// Whatever state a socket was in, after a message from its client it
/// receives notifications; the handshake is answered at most once.
pub proof fn law_handshake_opens_socket(state: Option<ConnectionState>)
    ensures
        on_client_message_spec(state).0.handshake_complete,
        on_client_message_spec(Some(on_client_message_spec(state).0)).1 == SocketAction::Ignore,
{
}

/// Seconds between pings when the environment does not set them.
pub const DEFAULT_PING_INTERVAL_SECS: u64 = 15;

/// The ping interval: the `PING_INTERVAL_SECS` setting when it is an
/// unsigned number, else the default.
pub fn ping_interval(setting: Option<&str>) -> (r: u64)
    ensures
        match setting {
            Some(s) => match unsigned_numeral_value(s@) {
                Some(v) => if v <= u64::MAX {
                    r == v as u64
                } else {
                    r == DEFAULT_PING_INTERVAL_SECS
                },
                None => r == DEFAULT_PING_INTERVAL_SECS,
            },
            None => r == DEFAULT_PING_INTERVAL_SECS,
        },
{
    match setting {
        Some(s) => match parse_u64(s) {
            Some(v) => v,
            None => DEFAULT_PING_INTERVAL_SECS,
        },
        None => DEFAULT_PING_INTERVAL_SECS,
    }
}

/// A request to the notifier opens a socket when its `Upgrade` header is
/// `websocket` in any ASCII case.
pub fn is_websocket_upgrade(upgrade: Option<&str>) -> (r: bool)
    ensures
        r == (upgrade matches Some(u) && eq_ignore_ascii_case(u@, "websocket"@)),
{
    match upgrade {
        Some(u) => eq_ignore_ascii_case_str(u, "websocket"),
        None => false,
    }
}

/// The internal path on which the notifier takes notifications to send.
pub const NOTIFY_PATH: &'static str = "/notify";

/// Whether a request path is the notify endpoint.
pub fn is_notify_path(path: &str) -> (r: bool)
    ensures
        r == has_suffix(path@, NOTIFY_PATH@),
{
    let v = chars_of(path);
    ends_with(&v, NOTIFY_PATH)
}

/// The access token of a hub connection: the `access_token` query
/// parameter, else the bearer token of the `Authorization` header.
pub fn hub_token(query_token: Option<String>, authorization: Option<&str>) -> (r: Result<String, AppError>)
    ensures
        match query_token {
            Some(t) => r == Ok::<String, AppError>(t),
            None => match authorization {
                Some(h) if has_prefix(h@, "Bearer "@) => r matches Ok(t) && t@ == h@.skip(7),
                _ => r matches Err(AppError::Unauthorized(m)) && m@ == "Missing access token"@,
            },
        },
{
    proof {
        reveal_strlit("Bearer ");
    }
    if let Some(t) = query_token {
        return Ok(t);
    }
    if let Some(h) = authorization {
        if let Some(t) = strip_prefix(h, "Bearer ") {
            return Ok(owned(t));
        }
    }
    Err(AppError::Unauthorized(owned("Missing access token")))
}

} // verus!
