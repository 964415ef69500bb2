//! The output relay's per-read decision and the event naming scheme.
//!
//! The relay drains the PTY master's read side. For each read it decides,
//! from the byte count alone, whether to publish an output chunk (as
//! best-effort text) or — on a zero-byte read, meaning end-of-stream — the
//! final exit marker, after which the session's table entry is to be erased.

use vstd::prelude::*;
use vstd::string::StringExecFns;

verus! {

/// What the text of a byte chunk is under best-effort decoding: invalid
/// sequences are replaced rather than failing. The text depends on the bytes
/// alone.
pub uninterp spec fn lossy_text_of(bytes: Seq<u8>) -> Seq<char>;

/// Relies on String::from_utf8_lossy: decodes the bytes as UTF-8, replacing
/// invalid sequences; the result is a function of the bytes alone.
#[verifier::external_body]
fn lossy_text(bytes: &[u8]) -> (r: String)
    ensures
        r@ == lossy_text_of(bytes@),
{
    String::from_utf8_lossy(bytes).into_owned()
}

/// The name of a session's event stream: a fixed prefix joined with the id.
pub open spec fn event_name_of(id: Seq<char>) -> Seq<char> {
    "pty_data_"@ + id
}

/// Build the event-stream name for a session id. Distinct ids give distinct
/// names, so streams of different sessions never mix.
pub fn pty_event_name(id: &str) -> (r: String)
    ensures
        r@ == event_name_of(id@),
{
    String::from_str("pty_data_").concat(id)
}

/// Event-stream names are injective in the session id: two sessions share a
/// stream only if they share an id, so output of distinct sessions — and of
/// a removed session's successor under a fresh id — never mixes.
pub proof fn law_event_names_injective(a: Seq<char>, b: Seq<char>)
    ensures
        event_name_of(a) == event_name_of(b) ==> a == b,
{
    if event_name_of(a) == event_name_of(b) {
        let p = "pty_data_"@.len() as int;
        assert(a =~= event_name_of(a).subrange(p, event_name_of(a).len() as int));
        assert(b =~= event_name_of(b).subrange(p, event_name_of(b).len() as int));
    }
}

/// The final chunk announcing that the child process has exited.
pub open spec fn exit_marker() -> Seq<char> {
    "\r\n[Process exited]\r\n"@
}

/// One relay decision: publish an output chunk and keep draining, or publish
/// the exit marker and erase the session.
pub enum RelayStep {
    /// A chunk of terminal output, to be published on the session's stream.
    Output(String),
    /// End-of-stream: the marker to publish last, before the table entry is
    /// erased.
    Exited(String),
}

/// Decide what one read of the PTY produced. A read of one or more bytes is
/// an output chunk carrying their best-effort text; a zero-byte read is
/// end-of-stream and yields the exit marker.
pub fn relay_step(bytes: &[u8]) -> (r: RelayStep)
    ensures
        bytes@.len() > 0 ==> (r matches RelayStep::Output(s) && s@ == lossy_text_of(bytes@)),
        bytes@.len() == 0 ==> (r matches RelayStep::Exited(s) && s@ == exit_marker()),
{
    if bytes.len() > 0 {
        RelayStep::Output(lossy_text(bytes))
    } else {
        RelayStep::Exited(String::from_str("\r\n[Process exited]\r\n"))
    }
}

} // verus!
