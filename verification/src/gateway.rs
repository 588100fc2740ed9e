//! The gateway's three operations: health, readiness and tokenize.
//!
//! Each is a function from what the caller has read (a readiness flag, a
//! snapshot of the published table, a request) to a status and a body. None
//! of them writes anything.

use vstd::prelude::*;
use crate::table::{encodable, encode_text, encoding_of, Table, MAX_INPUT_BYTES};

verus! {

/// The status of a reply.
#[derive(Clone, Copy, Debug, PartialEq, Eq, Structural)]
pub enum Status {
    /// The operation was served.
    Success,
    /// The operation cannot be served in the present state.
    ServiceUnavailable,
}

impl Status {
    /// The numeric status code that stands for this status.
    pub open spec fn spec_code(self) -> u16 {
        match self {
            Status::Success => 200,
            Status::ServiceUnavailable => 503,
        }
    }

    /// The numeric status code that stands for this status.
    pub fn code(self) -> (code: u16)
        ensures
            code == self.spec_code(),
    {
        match self {
            Status::Success => 200,
            Status::ServiceUnavailable => 503,
        }
    }
}

/// A request to tokenize `input`. `model` is accepted and has no effect on
/// which table serves the request.
#[derive(Clone, Debug)]
pub struct TokenizeRequest {
    pub input: String,
    pub model: Option<String>,
}

/// The token ids of an input and the display form of each id.
#[derive(Clone, Debug)]
pub struct TokenizeResponse {
    pub ids: Vec<usize>,
    pub tokens: Vec<String>,
}

/// The mathematical content of a response.
pub struct ResponseView {
    pub ids: Seq<usize>,
    pub tokens: Seq<Seq<char>>,
}

impl View for TokenizeResponse {
    type V = ResponseView;

    open spec fn view(&self) -> ResponseView {
        ResponseView {
            ids: self.ids@,
            tokens: Seq::new(self.tokens@.len(), |i: int| self.tokens@[i]@),
        }
    }
}

/// The character of a decimal digit.
pub open spec fn digit_char(digit: nat) -> char {
    if digit == 0 {
        '0'
    } else if digit == 1 {
        '1'
    } else if digit == 2 {
        '2'
    } else if digit == 3 {
        '3'
    } else if digit == 4 {
        '4'
    } else if digit == 5 {
        '5'
    } else if digit == 6 {
        '6'
    } else if digit == 7 {
        '7'
    } else if digit == 8 {
        '8'
    } else {
        '9'
    }
}

/// A number in decimal, without sign or leading zeros.
pub open spec fn decimal(n: nat) -> Seq<char>
    decreases n,
{
    if n < 10 {
        seq![digit_char(n)]
    } else {
        decimal(n / 10).push(digit_char(n % 10))
    }
}

/// The display form of a token id: the id in decimal between square brackets.
pub open spec fn display_form(id: usize) -> Seq<char> {
    seq!['['] + decimal(id as nat) + seq![']']
}

/// The response that is owed for a sequence of ids.
pub open spec fn populated(ids: Seq<usize>) -> ResponseView {
    ResponseView { ids, tokens: Seq::new(ids.len(), |i: int| display_form(ids[i])) }
}

/// The response that stands for "no result".
pub open spec fn unavailable() -> ResponseView {
    ResponseView { ids: Seq::empty(), tokens: Seq::empty() }
}

/// What tokenize owes for a snapshot of the published table and an input.
pub open spec fn tokenize_outcome(
    snapshot: Option<Table>,
    input: Seq<char>,
) -> (Status, ResponseView) {
    match snapshot {
        Some(table) => (Status::Success, populated(encoding_of(table, input))),
        None => (Status::ServiceUnavailable, unavailable()),
    }
}

/// What the readiness probe owes for a readiness flag.
pub open spec fn readiness_of(ready: bool) -> (Status, Seq<char>) {
    if ready {
        (Status::Success, "ready"@)
    } else {
        (Status::ServiceUnavailable, "warming"@)
    }
}

fn digit_text(digit: usize) -> (text: &'static str)
    requires
        digit < 10,
    ensures
        text@ == seq![digit_char(digit as nat)],
{
    proof {
        reveal_strlit("0");
        reveal_strlit("1");
        reveal_strlit("2");
        reveal_strlit("3");
        reveal_strlit("4");
        reveal_strlit("5");
        reveal_strlit("6");
        reveal_strlit("7");
        reveal_strlit("8");
        reveal_strlit("9");
    }
    let text = if digit == 0 {
        "0"
    } else if digit == 1 {
        "1"
    } else if digit == 2 {
        "2"
    } else if digit == 3 {
        "3"
    } else if digit == 4 {
        "4"
    } else if digit == 5 {
        "5"
    } else if digit == 6 {
        "6"
    } else if digit == 7 {
        "7"
    } else if digit == 8 {
        "8"
    } else {
        "9"
    };
    assert(text@ =~= seq![digit_char(digit as nat)]);
    text
}

/// Appends a number in decimal to a string.
pub fn append_decimal(out: &mut String, n: usize)
    ensures
        final(out)@ == old(out)@ + decimal(n as nat),
    decreases n,
{
    if n >= 10 {
        append_decimal(out, n / 10);
        out.append(digit_text(n % 10));
        assert(final(out)@ =~= old(out)@ + decimal(n as nat));
    } else {
        out.append(digit_text(n));
    }
}

/// The display form of one token id.
pub fn token_text(id: usize) -> (text: String)
    ensures
        text@ == display_form(id),
{
    proof {
        reveal_strlit("[");
        reveal_strlit("]");
    }
    let mut text = String::from_str("[");
    append_decimal(&mut text, id);
    text.append("]");
    assert(text@ =~= display_form(id));
    text
}

/// The response for the ids of an input: the ids as they are, and the
/// display form of each, in the same order.
pub fn respond(ids: Vec<usize>) -> (response: TokenizeResponse)
    ensures
        response@ == populated(ids@),
        response.tokens@.len() == response.ids@.len(),
{
    let mut tokens: Vec<String> = Vec::new();
    let mut i: usize = 0;
    while i < ids.len()
        invariant
            i <= ids.len(),
            tokens@.len() == i,
            forall|j: int| 0 <= j < i ==> (#[trigger] tokens@[j])@ == display_form(ids@[j]),
        decreases ids.len() - i,
    {
        tokens.push(token_text(ids[i]));
        i += 1;
    }
    let response = TokenizeResponse { ids, tokens };
    assert(response@.tokens =~= populated(response.ids@).tokens);
    response
}

/// The liveness probe: served in every state, with a fixed body.
pub fn health() -> (reply: (Status, &'static str))
    ensures
        reply.0 == Status::Success,
        reply.1@ == "ok"@,
{
    (Status::Success, "ok")
}

/// The readiness probe: a projection of the readiness flag.
pub fn ready(slot_ready: bool) -> (reply: (Status, &'static str))
    ensures
        (reply.0, reply.1@) == readiness_of(slot_ready),
{
    if slot_ready {
        (Status::Success, "ready")
    } else {
        (Status::ServiceUnavailable, "warming")
    }
}

/// Whether the request's input is short enough to be tokenized.
pub fn accepts(request: &TokenizeRequest) -> (fits: bool)
    ensures
        fits == encodable(request.input@),
{
    request.input.as_str().as_bytes().len() <= MAX_INPUT_BYTES
}

/// Tokenizes the request's input on a snapshot of the published table.
///
/// With no table in the snapshot the reply is unavailable and empty. With a
/// table it holds the ids of the input on that table and the display form of
/// each. The request's `model` changes nothing.
pub fn tokenize(snapshot: &Option<Table>, request: &TokenizeRequest) -> (reply: (
    Status,
    TokenizeResponse,
))
    requires
        snapshot is Some ==> encodable(request.input@),
    ensures
        (reply.0, reply.1@) == tokenize_outcome(*snapshot, request.input@),
        reply.1.tokens@.len() == reply.1.ids@.len(),
{
    match snapshot {
        Some(table) => {
            let ids = encode_text(table, request.input.as_str());
            (Status::Success, respond(ids))
        },
        None => {
            let response = TokenizeResponse { ids: Vec::new(), tokens: Vec::new() };
            assert(response@.tokens =~= unavailable().tokens);
            (Status::ServiceUnavailable, response)
        },
    }
}

/// Tokenizes the request's input where that can be done: `None` where a
/// table is there and the input is too long for it, else the reply of
/// `tokenize`.
pub fn try_tokenize(snapshot: &Option<Table>, request: &TokenizeRequest) -> (reply:
    Option<(Status, TokenizeResponse)>)
    ensures
        reply is None <==> snapshot is Some && !encodable(request.input@),
        match reply {
            Some(reply) => {
                &&& (reply.0, reply.1@) == tokenize_outcome(*snapshot, request.input@)
                &&& reply.1.tokens@.len() == reply.1.ids@.len()
            },
            None => true,
        },
{
    if snapshot.is_none() || accepts(request) {
        Some(tokenize(snapshot, request))
    } else {
        None
    }
}

} // verus!
