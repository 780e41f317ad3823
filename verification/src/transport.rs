use vstd::prelude::*;
use vstd::string::*;
use crate::text::{contains_substr, seq_contains};

verus! {

/// Whether the declared acceptable content types ask for the streaming
/// framing: they do exactly when they mention the streaming media type.
pub open spec fn wants_streaming(accept: Seq<char>) -> bool {
    seq_contains(accept, "text/event-stream"@)
}

/// Reads the acceptable content types for the streaming media type.
pub fn accepts_streaming(accept: &str) -> (r: bool)
    ensures
        r == wants_streaming(accept@),
{
    contains_substr(accept, "text/event-stream")
}

/// How a computed response body leaves the server: as one streaming event
/// (`data: <body>` closed by a blank line), or as the body itself. Exactly
/// one event per request either way.
pub open spec fn frame_v(body: Seq<char>, streaming: bool) -> Seq<char> {
    if streaming {
        "data: "@ + body + "\n\n"@
    } else {
        body
    }
}

/// Frames a response body for the chosen transport.
pub fn frame_response(body: String, streaming: bool) -> (r: String)
    ensures
        r@ == frame_v(body@, streaming),
{
    if streaming {
        let mut out = String::from_str("data: ");
        out.append(body.as_str());
        out.append("\n\n");
        proof {
            assert(out@ =~= frame_v(body@, true));
        }
        out
    } else {
        body
    }
}

/// The one-time event the companion endpoint streams to older clients,
/// announcing where messages are submitted.
pub open spec fn endpoint_event_text() -> Seq<char> {
    "event: endpoint\ndata: {\"endpoint\": \"/messages\"}\n\n"@
}

pub fn endpoint_event() -> (r: String)
    ensures
        r@ == endpoint_event_text(),
{
    String::from_str("event: endpoint\ndata: {\"endpoint\": \"/messages\"}\n\n")
}

/// Law: both framings carry the same bytes — the plain framing is the body
/// itself, and the streaming framing embeds it unchanged between the `data: `
/// prefix and the closing blank line.
pub proof fn lemma_framings_carry_same_body(body: Seq<char>)
    ensures
        frame_v(body, false) == body,
        frame_v(body, true) == "data: "@ + body + "\n\n"@,
        frame_v(body, true).subrange(6, 6 + body.len() as int) == frame_v(body, false),
{
    reveal_strlit("data: ");
    reveal_strlit("\n\n");
    assert(frame_v(body, true).subrange(6, 6 + body.len() as int) =~= body);
}

} // verus!
