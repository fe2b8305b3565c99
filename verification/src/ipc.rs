//! The IPC protocol between the bar and its clients: a message is a JSON body
//! framed by its length as a little-endian `u64`.

use vstd::prelude::*;

use crate::i3::click::I3ClickEvent;
use crate::text::{IntErrorKind, int_error_text, parse_usize, parse_usize_spec, str_eq};

verus! {

/// The length of the header in front of each IPC message.
pub const IPC_HEADER_LEN: usize = 8;

/// `256` to the power `k`.
pub open spec fn pow256(k: nat) -> nat
    decreases k,
{
    if k == 0 {
        1
    } else {
        256 * pow256((k - 1) as nat)
    }
}

/// The `k` least significant bytes of `n`, least significant first.
pub open spec fn le_bytes(n: nat, k: nat) -> Seq<u8>
    decreases k,
{
    if k == 0 {
        Seq::empty()
    } else {
        seq![(n % 256) as u8] + le_bytes(n / 256, (k - 1) as nat)
    }
}

/// The number whose little-endian bytes are `s`.
pub open spec fn le_value(s: Seq<u8>) -> nat
    decreases s.len(),
{
    if s.len() == 0 {
        0
    } else {
        s[0] as nat + 256 * le_value(s.drop_first())
    }
}

/// An IPC frame: the length of the body as eight little-endian bytes, then
/// the body.
pub open spec fn ipc_frame(body: Seq<u8>) -> Seq<u8> {
    le_bytes(body.len(), 8) + body
}

proof fn lemma_le_bytes(n: nat, k: nat)
    requires
        n < pow256(k),
    ensures
        le_bytes(n, k).len() == k,
        le_value(le_bytes(n, k)) == n,
    decreases k,
{
    if k > 0 {
        let b = le_bytes(n, k);
        assert(n / 256 < pow256((k - 1) as nat)) by (nonlinear_arith)
            requires
                n < 256 * pow256((k - 1) as nat),
        ;
        lemma_le_bytes(n / 256, (k - 1) as nat);
        assert(b.drop_first() =~= le_bytes(n / 256, (k - 1) as nat));
    }
}

proof fn lemma_le_value_bound(s: Seq<u8>)
    ensures
        le_value(s) < pow256(s.len()),
    decreases s.len(),
{
    if s.len() > 0 {
        lemma_le_value_bound(s.drop_first());
        let t = le_value(s.drop_first());
        let p = pow256((s.len() - 1) as nat);
        assert(s[0] as nat + 256 * t < 256 * p) by (nonlinear_arith)
            requires
                t < p,
                s[0] < 256,
        ;
    }
}

proof fn lemma_pow256_8()
    ensures
        pow256(8) == 0x1_0000_0000_0000_0000,
{
    reveal_with_fuel(pow256, 9);
}

/// A frame holds its body's length in its header, and the body after it.
pub proof fn lemma_ipc_frame_roundtrip(body: Seq<u8>)
    requires
        body.len() <= u64::MAX,
    ensures
        ipc_frame(body).len() == IPC_HEADER_LEN + body.len(),
        le_value(ipc_frame(body).take(IPC_HEADER_LEN as int)) == body.len(),
        ipc_frame(body).skip(IPC_HEADER_LEN as int) == body,
{
    lemma_pow256_8();
    lemma_le_bytes(body.len(), 8);
    assert(ipc_frame(body).take(8) =~= le_bytes(body.len(), 8));
    assert(ipc_frame(body).skip(8) =~= body);
}

/// Frames a message body for the IPC socket.
pub fn encode_ipc_msg(body: &[u8]) -> (r: Vec<u8>)
    ensures
        r@ == ipc_frame(body@),
{
    let n = body.len() as u64;
    let mut v: u64 = n;
    let mut out: Vec<u8> = Vec::new();
    let mut i: usize = 0;
    while i < IPC_HEADER_LEN
        invariant
            i <= 8,
            n == body@.len(),
            le_bytes(n as nat, 8) == out@ + le_bytes(v as nat, (8 - i) as nat),
        decreases 8 - i,
    {
        proof {
            assert(le_bytes(v as nat, (8 - i) as nat) == seq![(v % 256) as u8] + le_bytes(
                (v / 256) as nat,
                (8 - i - 1) as nat,
            ));
            assert(out@ + le_bytes(v as nat, (8 - i) as nat) =~= out@.push((v % 256) as u8) + le_bytes(
                (v / 256) as nat,
                (8 - i - 1) as nat,
            ));
        }
        out.push((v % 256) as u8);
        v = v / 256;
        i = i + 1;
    }
    assert(out@ =~= le_bytes(n as nat, 8));
    let ghost header = out@;
    let mut j: usize = 0;
    while j < body.len()
        invariant
            j <= body@.len(),
            out@ =~= header + body@.take(j as int),
        decreases body@.len() - j,
    {
        out.push(body[j]);
        j = j + 1;
        assert(out@ =~= header + body@.take(j as int));
    }
    assert(body@.take(j as int) =~= body@);
    out
}

/// Reads the body length from the header of an IPC frame.
pub fn decode_ipc_header(header: &[u8]) -> (n: u64)
    requires
        header@.len() == IPC_HEADER_LEN,
    ensures
        n == le_value(header@),
{
    let mut acc: u64 = 0;
    let mut i: usize = IPC_HEADER_LEN;
    proof {
        lemma_pow256_8();
        assert(header@.skip(8) =~= Seq::<u8>::empty());
    }
    while i > 0
        invariant
            i <= 8,
            header@.len() == 8,
            acc == le_value(header@.skip(i as int)),
            pow256(8) == 0x1_0000_0000_0000_0000,
        decreases i,
    {
        i = i - 1;
        proof {
            let s = header@.skip(i as int);
            assert(s.drop_first() =~= header@.skip(i + 1));
            lemma_le_value_bound(s);
            assert(pow256(s.len()) <= pow256(8)) by {
                lemma_pow256_mono(s.len(), 8);
            }
        }
        acc = header[i] as u64 + 256 * acc;
    }
    assert(header@.skip(0) =~= header@);
    acc
}

proof fn lemma_pow256_mono(a: nat, b: nat)
    requires
        a <= b,
    ensures
        pow256(a) <= pow256(b),
    decreases b,
{
    if a < b {
        lemma_pow256_mono(a, (b - 1) as nat);
    }
}

/// An event sent to an item over IPC.
#[derive(Debug, Clone)]
pub enum IpcBarEvent {
    Click(I3ClickEvent),
    Signal,
    Custom(Vec<String>),
}

/// A request sent to the bar over IPC.
#[derive(Debug, Clone)]
pub enum IpcMessage {
    Info,
    RefreshAll,
    GetBar,
    GetConfig,
    GetTheme,
    /// A new theme, as JSON text.
    SetTheme(String),
    BarEvent { instance: String, event: IpcBarEvent },
    Shutdown,
}

/// The outcome of a request.
#[derive(Debug, Clone, PartialEq, Eq)]
pub enum IpcResult {
    Success(Option<String>),
    Failure(String),
}

/// The bar's answer to a request.
#[derive(Debug, Clone, PartialEq, Eq)]
pub enum IpcReply {
    Result(IpcResult),
    /// Help text (with ANSI escapes).
    Help(String),
    /// A JSON value, as text.
    Value(String),
}

/// What an item answers to a custom IPC event.
#[derive(Debug, Clone, PartialEq, Eq)]
pub enum CustomResponse {
    /// Help text (with ANSI escapes).
    Help(String),
    /// A JSON value, as text.
    Json(String),
}

/// The reply to a `BarEvent` request: `sent` is the outcome of handing the
/// event to the item, and `response` is present for a custom event, holding
/// what the item answered, if it answered.
pub fn bar_event_reply(sent: Result<(), String>, response: Option<Option<CustomResponse>>) -> (r: IpcReply)
    ensures
        match sent {
            Err(e) => r == IpcReply::Result(IpcResult::Failure(e)),
            Ok(()) => match response {
                None => r == IpcReply::Result(IpcResult::Success(None)),
                Some(None) => r matches IpcReply::Result(IpcResult::Failure(m))
                    && m@ == "bar item not listening for response"@,
                Some(Some(CustomResponse::Help(h))) => r == IpcReply::Help(h),
                Some(Some(CustomResponse::Json(v))) => r == IpcReply::Value(v),
            },
        },
{
    match sent {
        Err(e) => IpcReply::Result(IpcResult::Failure(e)),
        Ok(()) => match response {
            None => IpcReply::Result(IpcResult::Success(None)),
            Some(None) => IpcReply::Result(
                IpcResult::Failure(String::from_str("bar item not listening for response")),
            ),
            Some(Some(CustomResponse::Help(h))) => IpcReply::Help(h),
            Some(Some(CustomResponse::Json(v))) => IpcReply::Value(v),
        },
    }
}

/// The first place whose name is `name`, in a list of places and names.
pub open spec fn first_named(names: Seq<(usize, String)>, name: Seq<char>) -> Option<int> {
    if exists|k: int| 0 <= k < names.len() && (#[trigger] names[k]).1@ == name {
        Some(choose|k: int| 0 <= k < names.len() && (#[trigger] names[k]).1@ == name
            && forall|m: int| 0 <= m < k ==> (#[trigger] names[m]).1@ != name)
    } else {
        None
    }
}

/// Which item an IPC request is for: `instance` is an index if it reads as
/// one, else the name of an item (the first one with that name).
pub fn resolve_instance(instance: &str, names: &Vec<(usize, String)>) -> (r: Result<usize, String>)
    ensures
        match parse_usize_spec(instance@) {
            Ok(v) => r == Ok::<usize, String>(v as usize),
            Err(k) => match first_named(names@, instance@) {
                Some(m) => r == Ok::<usize, String>(names@[m].0),
                None => r matches Err(e) && e@ == "failed to parse ipc instance property: "@
                    + int_error_text(k),
            },
        },
{
    match parse_usize(instance) {
        Ok(v) => Ok(v),
        Err(k) => {
            let mut m: usize = 0;
            while m < names.len()
                invariant
                    m <= names@.len(),
                    parse_usize_spec(instance@) == Err::<nat, IntErrorKind>(k),
                    forall|t: int| 0 <= t < m ==> (#[trigger] names@[t]).1@ != instance@,
                decreases names@.len() - m,
            {
                if str_eq(names[m].1.as_str(), instance) {
                    proof {
                        assert(names@[m as int].1@ == instance@);
                        let w = first_named(names@, instance@).unwrap();
                        assert(0 <= w < names@.len() && names@[w].1@ == instance@);
                        if w < m {
                            assert(names@[w].1@ != instance@);
                        } else if w > m {
                            assert(names@[m as int].1@ != instance@);
                        }
                        assert(first_named(names@, instance@) == Some(m as int));
                    }
                    return Ok(names[m].0);
                }
                m = m + 1;
            }
            let mut e = String::from_str("failed to parse ipc instance property: ");
            let msg = k.message();
            e.append(msg.as_str());
            Err(e)
        },
    }
}

} // verus!
