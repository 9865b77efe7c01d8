//! The fetch bridge.
//!
//! The native entry point receives four script-supplied values: a URL
//! string, a byte buffer, and an untrusted offset and length locating the
//! request body inside that buffer.  The body is decoded as a JSON object
//! with a string `method` field.  A host capability gate then decides the
//! rest: with the transport capability absent the call resolves to the
//! deterministic stub response `{ok: false, body: "{}"}` without any network
//! activity; with it present the caller is handed a [`FetchSession`] that
//! walks the open/read/close handle protocol of the host transport one
//! decision at a time, closing the handle on every path that opened one.
//!
//! Transport-level failures (a failed open, a failed read, a body that is
//! not UTF-8) uniformly degrade to the stub response instead of propagating,
//! so the script-visible contract is the same whether the capability is
//! missing or merely failing.

use vstd::prelude::*;
use vstd::string::StringExecFns;
use vstd::utf8::decode_utf8;
use vstd::utf8::valid_utf8;

use crate::errors::BridgeError;
use crate::json::escape_json_string;
use crate::json::json_escaped;
use crate::json::json_string_field;
use crate::json::decode_string_field;
use crate::json::utf8_to_string;
use crate::slice::copy_view;
use crate::slice::validate;

verus! {

/// The fetch capability: its one native entry point is [`fetchio_request`].
#[derive(Debug, Clone, Copy, PartialEq, Eq, Structural)]
pub struct FetchIO;

/// A script-engine argument after marshalling to native memory: the engine's
/// value representation itself stays outside the bridge, which sees only
/// these plain shapes.
#[derive(Debug, PartialEq, Eq)]
pub enum ScriptArg {
    /// A string value.
    Str(String),
    /// A byte buffer value.
    Bytes(Vec<u8>),
    /// An unsigned integer value.
    Uint(usize),
}

/// The options of one fetch request, decoded from the request body.
#[derive(Debug, PartialEq, Eq)]
pub struct FetchOptions {
    pub method: String,
}

/// The JSON object `{"method":"..."}` that carries `method` to the host
/// transport, with the method escaped as inside any JSON string.
pub open spec fn options_json(method: Seq<char>) -> Seq<char> {
    "{\"method\":\""@ + json_escaped(method) + "\"}"@
}

impl FetchOptions {
    /// Options for a request with the given method.
    pub fn new(method: &str) -> (r: Self)
        ensures
            r.method@ == method@,
    {
        FetchOptions { method: method.to_owned() }
    }

    /// Serializes the options as the compact JSON object
    /// `{"method":"..."}`.
    pub fn to_string(&self) -> (r: String)
        ensures
            r@ == options_json(self.method@),
    {
        let mut out: String = "{\"method\":\"".to_owned();
        let escaped = escape_json_string(self.method.as_str());
        out.append(escaped.as_str());
        out.append("\"}");
        proof {
            assert(out@ =~= options_json(self.method@));
        }
        out
    }
}

/// The structured answer of one fetch call, surfaced to the script engine
/// as a native object value.
#[derive(Debug, PartialEq, Eq)]
pub struct FetchResponse {
    pub ok: bool,
    pub body: String,
}

/// The degraded answer: the capability was unavailable or the transport
/// failed, and the call resolves to `{ok: false, body: "{}"}`.
pub open spec fn stub_response(r: FetchResponse) -> bool {
    !r.ok && r.body@ == "{}"@
}

/// The answer built from a transport body: the decoded text when the bytes
/// are UTF-8, the stub response otherwise.
pub open spec fn body_response(bytes: Seq<u8>, r: FetchResponse) -> bool {
    if valid_utf8(bytes) {
        r.ok && r.body@ == decode_utf8(bytes)
    } else {
        stub_response(r)
    }
}

/// Where a fetch exchange with the host transport stands.
#[derive(Debug, PartialEq, Eq)]
pub enum SessionState {
    /// Nothing happened yet; the handle is to be opened with these values.
    Ready { url: String, options: FetchOptions },
    /// The handle is open; the body is to be read.
    Opened,
    /// Reading is over; the handle must still be closed.
    Closing { response: FetchResponse },
    /// The exchange is finished and the answer is fixed.
    Done { response: FetchResponse },
}

/// One fetch exchange against the host transport's open/read/close handle
/// protocol.
///
/// The bridge decides, the embedding performs: each `on_*` method takes the
/// outcome of one host operation and moves the session forward.  `opened`
/// and `closed` record whether a handle was ever obtained and whether it
/// was released; [`FetchSession::wf`] ties them to the state, so a finished
/// session has released its handle exactly when it obtained one.
#[derive(Debug, PartialEq, Eq)]
pub struct FetchSession {
    pub state: SessionState,
    pub opened: bool,
    pub closed: bool,
}

impl FetchSession {
    /// The handle discipline: a handle is held exactly between a successful
    /// open and the close, and a finished exchange has closed its handle
    /// exactly when it opened one.
    pub open spec fn wf(self) -> bool {
        match self.state {
            SessionState::Ready { .. } => !self.opened && !self.closed,
            SessionState::Opened => self.opened && !self.closed,
            SessionState::Closing { .. } => self.opened && !self.closed,
            SessionState::Done { .. } => self.closed == self.opened,
        }
    }

    /// The values the host transport's `open` is to be called with: the URL
    /// and the serialized request options.
    pub fn open_args(&self) -> (r: (String, String))
        requires
            self.state is Ready,
        ensures
            r.0@ == self.state->Ready_url@,
            r.1@ == options_json(self.state->Ready_options.method@),
    {
        match &self.state {
            SessionState::Ready { url, options } => (url.clone(), options.to_string()),
            _ => unreached(),
        }
    }

    /// The host transport handed back an open handle.
    pub fn on_open_ok(&mut self)
        requires
            old(self).state is Ready,
            old(self).wf(),
        ensures
            final(self).wf(),
            final(self).state is Opened,
            final(self).opened,
            !final(self).closed,
    {
        self.state = SessionState::Opened;
        self.opened = true;
    }

    /// The host transport could not open a handle: no resource was
    /// obtained, so none is to be released, and the call degrades to the
    /// stub response.
    pub fn on_open_err(&mut self)
        requires
            old(self).state is Ready,
            old(self).wf(),
        ensures
            final(self).wf(),
            final(self).state matches SessionState::Done { response } && stub_response(response),
            final(self).opened == old(self).opened,
            final(self).closed == old(self).closed,
    {
        self.state = SessionState::Done {
            response: FetchResponse { ok: false, body: "{}".to_owned() },
        };
    }

    /// The whole response body was read; the handle still has to be
    /// closed.  A body that is not UTF-8 degrades to the stub response.
    pub fn on_body(&mut self, bytes: Vec<u8>)
        requires
            old(self).state is Opened,
            old(self).wf(),
        ensures
            final(self).wf(),
            final(self).state matches SessionState::Closing { response } && body_response(
                bytes@,
                response,
            ),
            final(self).opened == old(self).opened,
            final(self).closed == old(self).closed,
    {
        let response = match utf8_to_string(bytes) {
            Some(text) => FetchResponse { ok: true, body: text },
            None => FetchResponse { ok: false, body: "{}".to_owned() },
        };
        self.state = SessionState::Closing { response };
    }

    /// Reading the body failed; the handle still has to be closed, and the
    /// call degrades to the stub response.
    pub fn on_read_err(&mut self)
        requires
            old(self).state is Opened,
            old(self).wf(),
        ensures
            final(self).wf(),
            final(self).state matches SessionState::Closing { response } && stub_response(
                response,
            ),
            final(self).opened == old(self).opened,
            final(self).closed == old(self).closed,
    {
        self.state = SessionState::Closing {
            response: FetchResponse { ok: false, body: "{}".to_owned() },
        };
    }

    /// The host transport released the handle.  The well-formedness of the
    /// session rules a second close out: `Closing` holds an unreleased
    /// handle, and only this step sets `closed`.
    pub fn on_close_done(&mut self)
        requires
            old(self).state is Closing,
            old(self).wf(),
        ensures
            final(self).wf(),
            final(self).state matches SessionState::Done { response } && response == old(
                self,
            ).state->Closing_response,
            final(self).closed,
            !old(self).closed,
            final(self).opened == old(self).opened,
    {
        let mut taken = SessionState::Opened;
        core::mem::swap(&mut taken, &mut self.state);
        match taken {
            SessionState::Closing { response } => {
                self.state = SessionState::Done { response };
                self.closed = true;
            },
            _ => unreached(),
        }
    }

    /// The fixed answer of a finished exchange.
    pub fn into_response(self) -> (r: FetchResponse)
        requires
            self.state is Done,
        ensures
            r == self.state->Done_response,
    {
        match self.state {
            SessionState::Done { response } => response,
            _ => unreached(),
        }
    }
}

/// Resource-safety law: however a fetch exchange ran, once it is finished
/// it has closed the host handle if and only if it ever opened one — no
/// leak on any path, and no close without an open.
pub proof fn lemma_handle_discipline(s: FetchSession)
    requires
        s.wf(),
        s.state is Done,
    ensures
        s.closed <==> s.opened,
{
}

/// What one fetch call answers.
#[derive(Debug, PartialEq, Eq)]
pub enum FetchOutcome {
    /// The answer is already fixed; no host transport is involved.
    Done(FetchResponse),
    /// The capability gate is enabled: the host transport is to be
    /// exercised by driving this session.
    Transport(FetchSession),
}

/// The four arguments carry a string, a byte buffer and two unsigned
/// integers, in that order.
pub open spec fn well_typed_args(args: Seq<ScriptArg>) -> bool {
    &&& args.len() == 4
    &&& args[0] is Str
    &&& args[1] is Bytes
    &&& args[2] is Uint
    &&& args[3] is Uint
}

/// What [`fetchio_request`] decides for four well-typed arguments.
pub open spec fn fetch_decision(
    args: Seq<ScriptArg>,
    gate_enabled: bool,
    r: Result<FetchOutcome, BridgeError>,
) -> bool
    recommends
        well_typed_args(args),
{
    let url = args[0]->Str_0@;
    let buf = args[1]->Bytes_0@;
    let off = args[2]->Uint_0;
    let len = args[3]->Uint_0;
    if off + len > buf.len() {
        r == Err::<FetchOutcome, BridgeError>(BridgeError::OutOfBounds)
    } else {
        match json_string_field(buf.subrange(off as int, off + len), "method"@) {
            Option::None => r == Err::<FetchOutcome, BridgeError>(BridgeError::Decode),
            Option::Some(m) => {
                if gate_enabled {
                    &&& r matches Ok(o)
                    &&& o matches FetchOutcome::Transport(s)
                    &&& s.wf()
                    &&& !s.opened
                    &&& !s.closed
                    &&& s.state matches SessionState::Ready { url: u, options }
                    &&& u@ == url
                    &&& options.method@ == m
                } else {
                    &&& r matches Ok(o)
                    &&& o matches FetchOutcome::Done(resp)
                    &&& stub_response(resp)
                }
            },
        }
    }
}

/// The native entry point of the fetch capability.
///
/// Exactly four arguments are accepted — URL, buffer, offset, length — and
/// a wrong count fails with `ArgumentCount` carrying the count received.
/// The body window is validated before any use and its bytes are decoded as
/// a JSON object with a string `method` field; a window out of bounds fails
/// with `OutOfBounds` and a body that does not decode fails with `Decode`,
/// in both cases before the capability configuration is consulted.  While
/// the transport capability is disabled the call resolves to the stub
/// response `{ok: false, body: "{}"}` whatever the URL and method; while it
/// is enabled the caller receives the transport session to drive.
pub fn fetchio_request(args: &Vec<ScriptArg>, gate_enabled: bool) -> (r: Result<
    FetchOutcome,
    BridgeError,
>)
    ensures
        args@.len() != 4 ==> r == Err::<FetchOutcome, BridgeError>(
            BridgeError::ArgumentCount { received: args@.len() as usize },
        ),
        args@.len() == 4 && !well_typed_args(args@) ==> r == Err::<FetchOutcome, BridgeError>(
            BridgeError::WrongType,
        ),
        well_typed_args(args@) ==> fetch_decision(args@, gate_enabled, r),
{
    if args.len() != 4 {
        return Err(BridgeError::ArgumentCount { received: args.len() });
    }
    let url: &String = match &args[0] {
        ScriptArg::Str(u) => u,
        _ => {
            return Err(BridgeError::WrongType);
        },
    };
    let buffer: &Vec<u8> = match &args[1] {
        ScriptArg::Bytes(b) => b,
        _ => {
            return Err(BridgeError::WrongType);
        },
    };
    let offset: usize = match &args[2] {
        ScriptArg::Uint(v) => *v,
        _ => {
            return Err(BridgeError::WrongType);
        },
    };
    let length: usize = match &args[3] {
        ScriptArg::Uint(v) => *v,
        _ => {
            return Err(BridgeError::WrongType);
        },
    };
    let view = match validate(buffer.len(), offset, length) {
        Ok(v) => v,
        Err(e) => {
            return Err(e);
        },
    };
    let body = copy_view(buffer, view);
    let method: String = match decode_string_field(&body, "method") {
        Some(m) => m,
        None => {
            return Err(BridgeError::Decode);
        },
    };
    if gate_enabled {
        Ok(
            FetchOutcome::Transport(
                FetchSession {
                    state: SessionState::Ready { url: url.clone(), options: FetchOptions { method } },
                    opened: false,
                    closed: false,
                },
            ),
        )
    } else {
        Ok(FetchOutcome::Done(FetchResponse { ok: false, body: "{}".to_owned() }))
    }
}

} // verus!
