//! The hub of live websocket subscribers. Each client carries a message
//! filter (a regular expression over the outgoing message text) and an
//! optional device binding; the hub decides which clients a message goes
//! to. The runtime shell owns the sockets and performs the actual sends.

use vstd::prelude::*;

use crate::ids::DeviceId;

verus! {

/// A text message bound for one websocket client.
#[derive(Debug)]
pub struct StringMessage(pub String);

/// An error answer serialized out to a websocket client.
#[derive(Debug)]
pub struct WebsocketError {
    pub error: String,
}

/// An opaque compiled regular expression of the `regex` crate.
#[verifier::external_type_specification]
#[verifier::external_body]
pub struct ExRegex(regex::Regex);

/// Whether the `regex` crate accepts this pattern; compilation is a
/// function of the pattern alone.
pub uninterp spec fn regex_compiles(pattern: Seq<char>) -> bool;

/// Relies on `regex::Regex::new`: compiling a pattern succeeds or fails by
/// the pattern alone.
#[verifier::external_body]
fn compile_filter(pattern: &str) -> (r: Option<regex::Regex>)
    ensures
        (r is Some) == regex_compiles(pattern@),
{
    regex::Regex::new(pattern).ok()
}

/// Relies on `regex::Regex::is_match`. Nothing is assumed of the result:
/// the compiled expression is opaque here, and every caller's contract
/// holds whichever way the match goes.
#[verifier::external_body]
fn filter_matches(re: &regex::Regex, text: &str) -> bool {
    re.is_match(text)
}

/// The filter a connecting client gets when it names none: match all.
pub fn filter_or_default(requested: Option<String>) -> (r: String)
    ensures
        requested matches Some(f) ==> r == f,
        requested is None ==> r@ == seq!['.', '*'],
{
    match requested {
        Some(f) => f,
        None => {
            let s = String::from_str(".*");
            proof {
                assert(".*"@ =~= seq!['.', '*']) by {
                    reveal_strlit(".*");
                }
            }
            s
        },
    }
}

/// One registered client: its id, its message filter, and the device it is
/// bound to (none means all devices).
pub struct WsClient {
    pub client_id: u64,
    pub pattern: String,
    pub filter: Option<regex::Regex>,
    pub device_number: Option<DeviceId>,
}

/// A message about `msg_device` may reach a client bound to
/// `client_device`: clients without a binding see every device.
pub open spec fn device_ok(client_device: Option<DeviceId>, msg_device: Option<DeviceId>) -> bool {
    client_device is None || client_device == msg_device
}

/// The registry of connected websocket clients.
pub struct WebsocketManager {
    pub clients: Vec<WsClient>,
    pub next_id: u64,
}

impl WebsocketManager {
    /// Client ids are strictly increasing (so unique), all below `next_id`,
    /// and a filter is held exactly for patterns the engine accepted.
    pub open spec fn wf(self) -> bool {
        &&& forall|i: int, j: int|
            #![trigger self.clients@[i], self.clients@[j]]
            0 <= i < j < self.clients@.len() ==> self.clients@[i].client_id
                < self.clients@[j].client_id
        &&& forall|i: int|
            0 <= i < self.clients@.len() ==> (#[trigger] self.clients@[i]).client_id < self.next_id
        &&& forall|i: int|
            0 <= i < self.clients@.len() ==> ((#[trigger] self.clients@[i]).filter is Some)
                == regex_compiles(self.clients@[i].pattern@)
    }

    /// An empty hub.
    pub fn new() -> (r: WebsocketManager)
        ensures
            r.wf(),
            r.clients@.len() == 0,
    {
        WebsocketManager { clients: Vec::new(), next_id: 0 }
    }

    /// Registers a connecting client with its filter pattern and optional
    /// device binding, and hands back its id. A pattern the engine rejects
    /// leaves the client without a filter: it then matches nothing.
    pub fn register(&mut self, pattern: String, device_number: Option<DeviceId>) -> (r: u64)
        requires
            old(self).wf(),
            old(self).next_id < 0xffff_ffff_ffff_ffff,
        ensures
            final(self).wf(),
            r == old(self).next_id,
            final(self).next_id == old(self).next_id + 1,
            final(self).clients@.len() == old(self).clients@.len() + 1,
            forall|i: int|
                0 <= i < old(self).clients@.len() ==> #[trigger] final(self).clients@[i]
                    == old(self).clients@[i],
            final(self).clients@.last().client_id == r,
            final(self).clients@.last().pattern == pattern,
            final(self).clients@.last().device_number == device_number,
    {
        let filter = compile_filter(pattern.as_str());
        let id = self.next_id;
        self.clients.push(WsClient { client_id: id, pattern, filter, device_number });
        self.next_id = self.next_id + 1;
        id
    }

    /// Removes a disconnecting client by id; unknown ids change nothing.
    pub fn unregister(&mut self, client_id: u64)
        requires
            old(self).wf(),
        ensures
            final(self).wf(),
            final(self).next_id == old(self).next_id,
            forall|i: int|
                0 <= i < final(self).clients@.len() ==> (#[trigger] final(self).clients@[i]).client_id
                    != client_id,
    {
        let mut i: usize = 0;
        while i < self.clients.len()
            invariant
                old(self).wf(),
                self.wf(),
                i <= self.clients@.len(),
                self.next_id == old(self).next_id,
                forall|j: int|
                    0 <= j < i ==> (#[trigger] self.clients@[j]).client_id != client_id,
            decreases self.clients@.len() - i,
        {
            if self.clients[i].client_id == client_id {
                let ghost before = self.clients@;
                self.clients.remove(i);
                proof {
                    assert forall|j: int|
                        0 <= j < self.clients@.len() implies (#[trigger] self.clients@[j]).client_id
                        != client_id by {
                        if j < i {
                            assert(self.clients@[j] == before[j]);
                        } else {
                            assert(self.clients@[j] == before[j + 1]);
                            assert(before[i as int].client_id < before[j + 1].client_id);
                        }
                    }
                }
                return ;
            }
            i = i + 1;
        }
    }

    /// Picks the clients a message about `msg_device` goes to: those whose
    /// device binding admits it and whose filter matches the message text,
    /// as positions in the client list, in order. Which filters match is the
    /// regex engine's call; whatever it says, every chosen client's device
    /// binding admits the message.
    pub fn delivery_targets(&self, text: &str, msg_device: Option<DeviceId>) -> (r: Vec<usize>)
        requires
            self.wf(),
        ensures
            forall|k: int|
                #![trigger r@[k]]
                0 <= k < r@.len() ==> {
                    &&& r@[k] < self.clients@.len()
                    &&& device_ok(self.clients@[r@[k] as int].device_number, msg_device)
                    &&& self.clients@[r@[k] as int].filter is Some
                },
            forall|k1: int, k2: int|
                #![trigger r@[k1], r@[k2]]
                0 <= k1 < k2 < r@.len() ==> r@[k1] < r@[k2],
    {
        let mut out: Vec<usize> = Vec::new();
        let mut i: usize = 0;
        while i < self.clients.len()
            invariant
                self.wf(),
                i <= self.clients@.len(),
                forall|k: int|
                    #![trigger out@[k]]
                    0 <= k < out@.len() ==> {
                        &&& out@[k] < i
                        &&& device_ok(self.clients@[out@[k] as int].device_number, msg_device)
                        &&& self.clients@[out@[k] as int].filter is Some
                    },
                forall|k1: int, k2: int|
                    #![trigger out@[k1], out@[k2]]
                    0 <= k1 < k2 < out@.len() ==> out@[k1] < out@[k2],
            decreases self.clients@.len() - i,
        {
            let client = &self.clients[i];
            let device_admits = match (&client.device_number, &msg_device) {
                (None, _) => true,
                (Some(a), Some(b)) => *a == *b,
                (Some(_), None) => false,
            };
            if device_admits {
                if let Some(re) = &client.filter {
                    if filter_matches(re, text) {
                        out.push(i);
                    }
                }
            }
            i = i + 1;
        }
        out
    }
}

} // verus!
