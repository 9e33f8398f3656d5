//! The console's transport to the agent: the plain HTTP/1.1 framing of its
//! requests and answers, and the reconnect policy of its authenticated
//! streams.

use vstd::prelude::*;
use crate::error::CliError;
use crate::text::{
    IntErrorKind, chars_of, concat_str, decimal, decimal_exec, int_error_message, int_error_text,
    is_ws, is_whitespace, lines, lines_exec, parse_unsigned, parse_unsigned_detailed, split_once,
    split_once_exec, starts_with, starts_with_exec, string_of, to_ascii_lowercase,
    to_ascii_lowercase_exec, trim, trim_vec, unsigned_error, words,
};

verus! {

/// The streams that the console follows.
#[derive(Debug, Clone, PartialEq, Eq)]
pub enum StreamChannel {
    Console,
    Notifications,
    Operation { id: String },
}

impl StreamChannel {
    /// The route of the stream.
    pub open spec fn path_text(self) -> Seq<char> {
        match self {
            StreamChannel::Console => "/v1/console/stream"@,
            StreamChannel::Notifications => "/v1/notifications/stream"@,
            StreamChannel::Operation { id } => "/v1/operations/"@ + id@ + "/stream"@,
        }
    }

    /// The route of the stream.
    pub fn path(&self) -> (res: String)
        ensures
            res@ == self.path_text(),
    {
        match self {
            StreamChannel::Console => concat_str(String::new(), "/v1/console/stream"),
            StreamChannel::Notifications => concat_str(String::new(), "/v1/notifications/stream"),
            StreamChannel::Operation { id } => {
                let t = concat_str(String::new(), "/v1/operations/");
                let t = concat_str(t, id.as_str());
                concat_str(t, "/stream")
            },
        }
    }

    /// The stream follows one operation.
    pub fn is_operation(&self) -> (res: bool)
        ensures
            res == (*self is Operation),
    {
        match self {
            StreamChannel::Operation { .. } => true,
            _ => false,
        }
    }

    /// The route that gives an operation's current snapshot, fetched before
    /// its stream reconnects; other streams fetch nothing.
    pub fn snapshot_path(&self) -> (res: Option<String>)
        ensures
            match *self {
                StreamChannel::Operation { id } => res matches Some(p) && p@ == "/v1/operations/"@
                    + id@,
                _ => res is None,
            },
    {
        match self {
            StreamChannel::Operation { id } => Some(
                concat_str(concat_str(String::new(), "/v1/operations/"), id.as_str()),
            ),
            _ => None,
        }
    }
}

/// The state of an agent operation.
#[derive(Debug, Clone, Copy, PartialEq, Eq)]
pub enum OperationState {
    Queued,
    Running,
    Succeeded,
    Failed,
    Cancelled,
}

/// An operation in this state will not change again.
pub open spec fn terminal(state: OperationState) -> bool {
    state is Succeeded || state is Failed || state is Cancelled
}

/// An operation in this state will not change again.
pub fn is_terminal(state: OperationState) -> (res: bool)
    ensures
        res == terminal(state),
{
    match state {
        OperationState::Succeeded | OperationState::Failed | OperationState::Cancelled => true,
        _ => false,
    }
}

/// The label that the console shows for an operation's state.
pub fn operation_state(state: OperationState) -> (res: &'static str)
    ensures
        res@ == match state {
            OperationState::Queued => "QUEUED"@,
            OperationState::Running => "RUNNING"@,
            OperationState::Succeeded => "SUCCEEDED"@,
            OperationState::Failed => "FAILED"@,
            OperationState::Cancelled => "CANCELLED"@,
        },
{
    match state {
        OperationState::Queued => "QUEUED",
        OperationState::Running => "RUNNING",
        OperationState::Succeeded => "SUCCEEDED",
        OperationState::Failed => "FAILED",
        OperationState::Cancelled => "CANCELLED",
    }
}

/// The kinds of stream failure that the console tells apart.
#[derive(Debug, Clone, Copy, PartialEq, Eq)]
pub enum StreamFailure {
    ConnectionClosed,
    AlreadyClosed,
    Io,
    Other,
}

/// A failure after which the stream is opened again.
pub fn is_reconnectable(error: StreamFailure) -> (res: bool)
    ensures
        res == !(error is Other),
{
    match error {
        StreamFailure::ConnectionClosed | StreamFailure::AlreadyClosed | StreamFailure::Io => true,
        StreamFailure::Other => false,
    }
}

/// The wait before reconnect attempt `attempt`, in milliseconds: 100 ms,
/// doubled per further attempt, at most 2 s.
pub open spec fn delay_ms(attempt: nat) -> nat {
    let shift: nat = if attempt <= 1 {
        0
    } else if attempt - 1 > 5 {
        5
    } else {
        (attempt - 1) as nat
    };
    let grown = 100 * vstd::arithmetic::power2::pow2(shift);
    if grown > 2000 {
        2000
    } else {
        grown
    }
}

/// The wait before reconnect attempt `attempt`, in milliseconds.
pub fn reconnect_delay(attempt: u32) -> (res: u64)
    ensures
        res == delay_ms(attempt as nat),
{
    let shift: u32 = if attempt <= 1 {
        0
    } else if attempt - 1 > 5 {
        5
    } else {
        attempt - 1
    };
    let mut grown: u64 = 100;
    let mut k: u32 = 0;
    proof {
        vstd::arithmetic::power2::lemma2_to64();
    }
    while k < shift
        invariant
            k <= shift <= 5,
            grown == 100 * vstd::arithmetic::power2::pow2(k as nat),
        decreases shift - k,
    {
        proof {
            vstd::arithmetic::power2::lemma_pow2_unfold((k + 1) as nat);
            vstd::arithmetic::power2::lemma2_to64();
            vstd::arithmetic::power2::lemma_pow2_strictly_increases(k as nat, 5);
        }
        grown = grown * 2;
        k += 1;
    }
    if grown > 2000 {
        2000
    } else {
        grown
    }
}

/// The reconnect wait never shrinks from one attempt to the next, and
/// never exceeds 2 s.
pub proof fn law_reconnect_delay_grows_to_a_cap(a: nat, b: nat)
    requires
        a <= b,
    ensures
        delay_ms(a) <= delay_ms(b),
        delay_ms(b) <= 2000,
        delay_ms(1) == 100,
{
    let sa: nat = if a <= 1 {
        0
    } else if a - 1 > 5 {
        5
    } else {
        (a - 1) as nat
    };
    let sb: nat = if b <= 1 {
        0
    } else if b - 1 > 5 {
        5
    } else {
        (b - 1) as nat
    };
    assert(sa <= sb);
    if sa < sb {
        vstd::arithmetic::power2::lemma_pow2_strictly_increases(sa, sb);
    }
    vstd::arithmetic::power2::lemma2_to64();
}

/// What a stream does with the next thing that arrives on it.
#[derive(Debug, Clone, Copy, PartialEq, Eq)]
pub enum StreamEvent {
    /// A text message; `terminal_operation` says whether it is an operation
    /// snapshot in a terminal state.
    Text { terminal_operation: bool },
    /// A ping that asks for a pong.
    Ping,
    /// Any other frame, which is skipped.
    Ignored,
    /// The agent closed the stream.
    Closed,
    /// The stream failed.
    Failed { failure: StreamFailure },
    /// The stream ended.
    Ended,
}

/// What the stream does next.
#[derive(Debug, Clone, Copy, PartialEq, Eq)]
pub enum StreamAction {
    /// Hand the message to the reader.
    Deliver,
    /// Answer the ping and read on.
    Pong,
    /// Read on.
    Continue,
    /// Drop the socket and connect again.
    Reconnect,
    /// The stream is over: its operation reached a terminal state.
    Finish,
    /// The stream failed for good.
    Fail,
}

/// One step of an authenticated stream: a text is delivered, and an
/// operation snapshot in a terminal state is remembered; once that was
/// seen, any end of the socket finishes the stream; before that, a close,
/// an end or a reconnectable failure reconnects and any other failure is
/// final. Gives the action and whether a terminal snapshot has been seen.
pub fn stream_step(channel_is_operation: bool, terminal_seen: bool, event: StreamEvent) -> (res: (
    StreamAction,
    bool,
))
    ensures
        match event {
            StreamEvent::Text { terminal_operation } => res == (
                StreamAction::Deliver,
                terminal_seen || (channel_is_operation && terminal_operation),
            ),
            StreamEvent::Ping => res == (StreamAction::Pong, terminal_seen),
            StreamEvent::Ignored => res == (StreamAction::Continue, terminal_seen),
            StreamEvent::Closed | StreamEvent::Ended => res == (
                if terminal_seen {
                    StreamAction::Finish
                } else {
                    StreamAction::Reconnect
                },
                terminal_seen,
            ),
            StreamEvent::Failed { failure } => res == (
                if terminal_seen {
                    StreamAction::Finish
                } else if failure is Other {
                    StreamAction::Fail
                } else {
                    StreamAction::Reconnect
                },
                terminal_seen,
            ),
        },
{
    match event {
        StreamEvent::Text { terminal_operation } => (
            StreamAction::Deliver,
            terminal_seen || (channel_is_operation && terminal_operation),
        ),
        StreamEvent::Ping => (StreamAction::Pong, terminal_seen),
        StreamEvent::Ignored => (StreamAction::Continue, terminal_seen),
        StreamEvent::Closed | StreamEvent::Ended => {
            if terminal_seen {
                (StreamAction::Finish, terminal_seen)
            } else {
                (StreamAction::Reconnect, terminal_seen)
            }
        },
        StreamEvent::Failed { failure } => {
            if terminal_seen {
                (StreamAction::Finish, terminal_seen)
            } else if is_reconnectable(failure) {
                (StreamAction::Reconnect, terminal_seen)
            } else {
                (StreamAction::Fail, terminal_seen)
            }
        },
    }
}

/// The reconnect attempt count after a failed connection: one more,
/// saturating.
pub fn attempt_after_failure(attempt: u32) -> (res: u32)
    ensures
        res == if attempt == u32::MAX {
            attempt as int
        } else {
            attempt + 1
        },
{
    attempt.saturating_add(1)
}

/// The headers that announce a request body.
pub open spec fn body_head(content_type: Option<Seq<char>>, body_len: Option<nat>) -> Seq<char> {
    match body_len {
        Some(n) => {
            let typed = match content_type {
                Some(t) => "Content-Type: "@ + t + "\r\n"@,
                None => Seq::empty(),
            };
            typed + "Content-Length: "@ + decimal(n) + "\r\n"@
        },
        None => Seq::empty(),
    }
}

/// The head of a request: request line, host, bearer token, and, for a
/// request with a body, its type and length.
pub open spec fn request_head(
    method: Seq<char>,
    target: Seq<char>,
    authority: Seq<char>,
    token: Seq<char>,
    content_type: Option<Seq<char>>,
    body_len: Option<nat>,
) -> Seq<char> {
    method + " "@ + target + " HTTP/1.1\r\nHost: "@ + authority + "\r\nAuthorization: Bearer "@
        + token + "\r\nConnection: close\r\n"@ + body_head(content_type, body_len) + "\r\n"@
}

/// The head of a request to the agent.
pub fn request_header(
    method: &str,
    target: &str,
    authority: &str,
    token: &str,
    content_type: Option<&str>,
    body_len: Option<usize>,
) -> (res: String)
    ensures
        res@ == request_head(
            method@,
            target@,
            authority@,
            token@,
            match content_type {
                Some(t) => Some(t@),
                None => None,
            },
            match body_len {
                Some(n) => Some(n as nat),
                None => None,
            },
        ),
{
    let mut h = concat_str(String::new(), method);
    h = concat_str(h, " ");
    h = concat_str(h, target);
    h = concat_str(h, " HTTP/1.1\r\nHost: ");
    h = concat_str(h, authority);
    h = concat_str(h, "\r\nAuthorization: Bearer ");
    h = concat_str(h, token);
    h = concat_str(h, "\r\nConnection: close\r\n");
    let ghost before_body = h@;
    match body_len {
        Some(n) => {
            match content_type {
                Some(t) => {
                    h = concat_str(h, "Content-Type: ");
                    h = concat_str(h, t);
                    h = concat_str(h, "\r\n");
                },
                None => {},
            }
            h = concat_str(h, "Content-Length: ");
            let digits = string_of(decimal_exec(n as u64).as_slice());
            h = concat_str(h, digits.as_str());
            h = concat_str(h, "\r\n");
        },
        None => {},
    }
    h = concat_str(h, "\r\n");
    assert(h@ =~= request_head(
        method@,
        target@,
        authority@,
        token@,
        match content_type {
            Some(t) => Some(t@),
            None => None,
        },
        match body_len {
            Some(n) => Some(n as nat),
            None => None,
        },
    ));
    h
}

/// `\r\n\r\n` starts at index `i` of `bytes`.
pub open spec fn blank_line_at(bytes: Seq<u8>, i: int) -> bool {
    0 <= i && i + 4 <= bytes.len() && bytes[i] == 13u8 && bytes[i + 1] == 10u8 && bytes[i + 2]
        == 13u8 && bytes[i + 3] == 10u8
}

/// The index where the head of an answer ends: the first `\r\n\r\n`.
pub fn header_end(bytes: &[u8]) -> (res: Option<usize>)
    ensures
        match res {
            Some(i) => blank_line_at(bytes@, i as int) && forall|j: int|
                0 <= j < i ==> !blank_line_at(bytes@, j),
            None => forall|j: int| 0 <= j < bytes@.len() ==> !blank_line_at(bytes@, j),
        },
{
    if bytes.len() < 4 {
        return None;
    }
    let mut i: usize = 0;
    while i <= bytes.len() - 4
        invariant
            bytes.len() >= 4,
            i <= bytes.len() - 3,
            forall|j: int| 0 <= j < i ==> !blank_line_at(bytes@, j),
        decreases bytes.len() - i,
    {
        if bytes[i] == 13 && bytes[i + 1] == 10 && bytes[i + 2] == 13 && bytes[i + 3] == 10 {
            return Some(i);
        }
        i += 1;
    }
    None
}

/// The body of an answer whose head ends at `end`: everything after the
/// blank line, cut to the announced length where one was announced.
pub fn response_body(response: &[u8], end: usize, content_length: Option<usize>) -> (res: Vec<u8>)
    requires
        end + 4 <= response.len(),
    ensures
        res@ == match content_length {
            Some(n) => if n <= response@.len() - (end + 4) {
                response@.subrange(end + 4, end + 4 + n)
            } else {
                response@.subrange(end + 4, response@.len() as int)
            },
            None => response@.subrange(end + 4, response@.len() as int),
        },
{
    let start = end + 4;
    let stop = match content_length {
        Some(n) => if n <= response.len() - start {
            start + n
        } else {
            response.len()
        },
        None => response.len(),
    };
    let mut out: Vec<u8> = Vec::new();
    let mut i = start;
    while i < stop
        invariant
            start <= i <= stop <= response.len(),
            out@ == response@.subrange(start as int, i as int),
        decreases stop - i,
    {
        out.push(response[i]);
        assert(response@.subrange(start as int, i + 1) =~= response@.subrange(
            start as int,
            i as int,
        ).push(response@[i as int]));
        i += 1;
    }
    out
}

/// The first line of `ls` whose lower-cased text starts with `p`.
pub open spec fn first_line_starting(ls: Seq<Seq<char>>, p: Seq<char>) -> Option<Seq<char>>
    decreases ls.len(),
{
    if ls.len() == 0 {
        None
    } else if starts_with(to_ascii_lowercase(ls[0]), p) {
        Some(ls[0])
    } else {
        first_line_starting(ls.drop_first(), p)
    }
}

/// What the `Content-Length` header of a head says: no length where there
/// is no such header; the length where its value is a number; an error
/// naming the parse failure otherwise.
pub open spec fn content_length_of(headers: Seq<char>) -> Result<Option<int>, Seq<char>> {
    match first_line_starting(lines(headers), "content-length:"@) {
        None => Ok(None),
        Some(line) => match split_once(line, seq![':']) {
            None => Err("content-length header was malformed"@),
            Some((_, value)) => match parse_unsigned(trim(value), usize::MAX as int) {
                Some(n) => Ok(Some(n)),
                None => Err(
                    "content-length header was malformed: "@ + int_error_text(
                        unsigned_error(trim(value), usize::MAX as int).unwrap(),
                    ),
                ),
            },
        },
    }
}

fn find_line_starting(ls: &Vec<Vec<char>>, p: &[char]) -> (res: Option<usize>)
    ensures
        match res {
            Some(k) => k < ls.len() && first_line_starting(ls.deep_view(), p@) == Some(
                ls.deep_view()[k as int],
            ),
            None => first_line_starting(ls.deep_view(), p@) is None,
        },
{
    let ghost all = ls.deep_view();
    let mut i: usize = 0;
    assert(all.skip(0) =~= all);
    while i < ls.len()
        invariant
            all == ls.deep_view(),
            i <= ls.len(),
            first_line_starting(all, p@) == first_line_starting(all.skip(i as int), p@),
        decreases ls.len() - i,
    {
        assert(all[i as int] == ls@[i as int]@);
        assert(all.skip(i as int)[0] == all[i as int]);
        assert(all.skip(i as int).drop_first() =~= all.skip(i + 1));
        let lowered = to_ascii_lowercase_exec(ls[i].as_slice());
        if starts_with_exec(lowered.as_slice(), p) {
            return Some(i);
        }
        i += 1;
    }
    assert(all.skip(ls.len() as int).len() == 0);
    None
}

/// What the `Content-Length` header of a head says.
pub fn parse_content_length(headers: &str) -> (res: Result<Option<usize>, String>)
    ensures
        match content_length_of(headers@) {
            Ok(None) => res == Ok::<Option<usize>, String>(None),
            Ok(Some(n)) => res == Ok::<Option<usize>, String>(Some(n as usize)),
            Err(m) => res matches Err(e) && e@ == m,
        },
{
    let ls = lines_exec(chars_of(headers).as_slice());
    let prefix = chars_of("content-length:");
    let k = match find_line_starting(&ls, prefix.as_slice()) {
        None => return Ok(None),
        Some(k) => k,
    };
    proof {
        assert(ls.deep_view()[k as int] == ls@[k as int]@);
    }
    let colon = vec![':'];
    assert(colon@ == seq![':']);
    let value = match split_once_exec(ls[k].as_slice(), colon.as_slice()) {
        None => return Err(concat_str(String::new(), "content-length header was malformed")),
        Some((_, after)) => trim_vec(after.as_slice()),
    };
    match parse_unsigned_detailed(value.as_slice(), usize::MAX as u64) {
        Ok(n) => Ok(Some(n as usize)),
        Err(kind) => {
            let t = concat_str(String::new(), "content-length header was malformed: ");
            Err(concat_str(t, int_error_message(kind)))
        },
    }
}

/// The status code of an answer's head: the second word of its first
/// line, as a `u16`.
pub open spec fn status_of(headers: Seq<char>) -> Result<int, Seq<char>> {
    let ls = lines(headers);
    if ls.len() == 0 || words(ls[0]).len() < 2 {
        Err("response status line was malformed"@)
    } else {
        let code = words(ls[0])[1];
        match parse_unsigned(code, u16::MAX as int) {
            Some(v) => Ok(v),
            None => Err(
                "response status line was malformed: "@ + int_error_text(
                    unsigned_error(code, u16::MAX as int).unwrap(),
                ),
            ),
        }
    }
}

/// The status code of an answer's head.
pub fn response_status(headers: &str) -> (res: Result<u16, String>)
    ensures
        match status_of(headers@) {
            Ok(v) => res == Ok::<u16, String>(v as u16),
            Err(m) => res matches Err(e) && e@ == m,
        },
{
    let ls = lines_exec(chars_of(headers).as_slice());
    if ls.len() == 0 {
        return Err(concat_str(String::new(), "response status line was malformed"));
    }
    proof {
        assert(ls.deep_view()[0] == ls@[0]@);
    }
    let ws = crate::text::words_exec(ls[0].as_slice());
    if ws.len() < 2 {
        return Err(concat_str(String::new(), "response status line was malformed"));
    }
    proof {
        assert(ws.deep_view()[1] == ws@[1]@);
    }
    match parse_unsigned_detailed(ws[1].as_slice(), 65535) {
        Ok(v) => Ok(v as u16),
        Err(kind) => {
            let t = concat_str(String::new(), "response status line was malformed: ");
            Err(concat_str(t, int_error_message(kind)))
        },
    }
}

} // verus!
