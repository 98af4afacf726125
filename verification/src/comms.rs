//! The typed envelope every task puts on the bus.
//!
//! A message names its recipient (`target`), its semantic (`kind`), and
//! carries an opaque serialized payload. The envelope is self-describing:
//! nothing about it needs sequencing state to interpret, because delivery
//! order across different senders is not guaranteed.

use vstd::prelude::*;
use vstd::string::StringExecFns;

verus! {

/// What serde_json's string encoding produces for the given characters.
/// The exact text is a function of the characters alone; nothing in this
/// crate depends on what it looks like, only on it parsing back losslessly.
pub uninterp spec fn json_string_of(s: Seq<char>) -> Seq<char>;

/// What serde_json's string parser yields for the given characters: the
/// decoded characters, or nothing when the text is not a JSON string.
pub uninterp spec fn json_parsed(s: Seq<char>) -> Option<Seq<char>>;

/// Relies on serde_json::to_string on a string slice: the encoding is a
/// function of the characters alone, never fails for a string, and
/// serde_json::from_str parses it back to the same characters.
#[verifier::external_body]
fn encode_payload(s: &str) -> (r: String)
    ensures
        r@ == json_string_of(s@),
        json_parsed(r@) == Some(s@),
{
    match serde_json::to_string(s) {
        Ok(r) => r,
        Err(_) => String::new(),
    }
}

/// Relies on serde_json::from_str::<String>: whether text parses as a JSON
/// string, and to what, depends on its characters alone.
#[verifier::external_body]
fn decode_payload(s: &str) -> (r: Option<String>)
    ensures
        r matches Some(t) ==> json_parsed(s@) == Some(t@),
        r is None ==> json_parsed(s@) is None,
{
    serde_json::from_str::<String>(s).ok()
}

/// One message on the bus.
pub struct BusMessage {
    /// Who the message is for: `"all"` for every minion, `"overlord"` for
    /// the supervisor itself, or a minion identifier.
    pub target: String,
    /// The message's semantic, e.g. `"shutdown"`.
    pub kind: String,
    /// An opaque serialized value; only the kind-specific handler reads it.
    pub json_payload: String,
}

/// The message drives the whole system down: addressed to every minion,
/// asking for shutdown.
pub open spec fn is_shutdown_all(m: BusMessage) -> bool {
    m.target@ == "all"@ && m.kind@ == "shutdown"@
}

/// The message is a minion's final report: addressed to the overlord, of the
/// exit kind, its payload the encoding of the minion's identifier.
pub open spec fn is_exit_report(m: BusMessage, id: Seq<char>) -> bool {
    &&& m.target@ == "overlord"@
    &&& m.kind@ == "minion_is_done"@
    &&& m.json_payload@ == json_string_of(id)
}

impl BusMessage {
    /// Builds an envelope around a plain-text payload, which
    /// [`BusMessage::payload`] recovers unchanged.
    pub fn new(target: String, kind: String, payload: &str) -> (m: BusMessage)
        ensures
            m.target@ == target@,
            m.kind@ == kind@,
            m.json_payload@ == json_string_of(payload@),
            json_parsed(m.json_payload@) == Some(payload@),
    {
        BusMessage { target, kind, json_payload: encode_payload(payload) }
    }

    /// The shutdown broadcast: `target` `"all"`, `kind` `"shutdown"`, an
    /// empty payload.
    pub fn shutdown_all() -> (m: BusMessage)
        ensures
            is_shutdown_all(m),
            json_parsed(m.json_payload@) == Some(""@),
    {
        BusMessage::new(
            String::from_str("all"),
            String::from_str("shutdown"),
            "",
        )
    }

    /// The mandatory final report a minion sends upstream before it returns.
    pub fn exit_report(id: &str) -> (m: BusMessage)
        ensures
            is_exit_report(m, id@),
            json_parsed(m.json_payload@) == Some(id@),
    {
        BusMessage::new(
            String::from_str("overlord"),
            String::from_str("minion_is_done"),
            id,
        )
    }

    /// Decodes the payload; on an envelope built by [`BusMessage::new`] this
    /// yields exactly the text the sender put in.
    pub fn payload(&self) -> (p: Option<String>)
        ensures
            p matches Some(t) ==> json_parsed(self.json_payload@) == Some(t@),
            p is None ==> json_parsed(self.json_payload@) is None,
    {
        decode_payload(self.json_payload.as_str())
    }
}

impl Clone for BusMessage {
    /// A clone carries the same target, kind and payload.
    fn clone(&self) -> (m: Self)
        ensures
            m == *self,
    {
        BusMessage {
            target: self.target.clone(),
            kind: self.kind.clone(),
            json_payload: self.json_payload.clone(),
        }
    }
}

/// Compares two string slices by their characters.
pub fn str_eq(a: &str, b: &str) -> (r: bool)
    ensures
        r == (a@ == b@),
{
    let sa = String::from_str(a);
    let sb = String::from_str(b);
    sa == sb
}

} // verus!
