//! The recording manager: at most one recording per device, each bound to a
//! log-writer handle and a file whose name carries the device id and the UTC
//! start time. The worker that drains a session's frame broadcast decides
//! here which records go to which log channel.
//!
//! The manager owns a registry of session guards. Its invariant couples the
//! `is_active` flag to the presence of the writer handle: a guard holds a
//! writer exactly while its session is active. The writer's type is a
//! parameter — the runtime shell instantiates it with its real log-writer
//! handle; nothing here ever needs to look inside one.

use vstd::prelude::*;

use crate::errors::{ErrorKind, ManagerError};
use crate::ids::{device_id_chars, device_id_string, DeviceId, DeviceKind};
use crate::messages::{auto_data_eq, is_synthesis_of, profile_eq, synthesize_auto_device_data,
    ParsedMessage};
use crate::timefmt::{format_timestamp, timestamp_chars, TimeParts};
use crate::vehicle::VehicleSnapshot;

verus! {

/// Capacity of every actor mailbox.
pub const MAILBOX_CAPACITY: usize = 10;

/// Capacity of the session-status broadcast.
pub const STATUS_CHANNEL_CAPACITY: usize = 100;

/// The public record of one recording interval.
#[derive(Debug)]
pub struct RecordingSession {
    pub device_id: DeviceId,
    pub file_path: String,
    pub is_active: bool,
    pub start_time: TimeParts,
    pub device_type: DeviceKind,
}

impl Clone for RecordingSession {
    /// A clone is spec-equal to the original.
    fn clone(&self) -> (r: Self)
        ensures
            r == *self,
    {
        RecordingSession {
            device_id: self.device_id,
            file_path: self.file_path.clone(),
            is_active: self.is_active,
            start_time: self.start_time,
            device_type: self.device_type,
        }
    }
}

/// One registry entry: the session record paired with the optional open
/// log-writer handle.
pub struct SessionGuard<W> {
    pub session: RecordingSession,
    pub writer: Option<W>,
}

impl<W> SessionGuard<W> {
    /// The writer is present exactly while the session is active.
    pub open spec fn wf(self) -> bool {
        self.session.is_active <==> (self.writer is Some)
    }
}

/// The recording manager's state: the base directory and the per-device
/// session guards.
pub struct RecordingManager<W> {
    pub base_path: String,
    pub sessions: Vec<SessionGuard<W>>,
}

/// The characters of the per-session file name:
/// `device_{id}_{YYYYMMDD_HHMMSS}.mcap`.
pub open spec fn recording_file_name_chars(id: u128, t: TimeParts) -> Seq<char> {
    seq!['d', 'e', 'v', 'i', 'c', 'e', '_'] + device_id_chars(id) + seq!['_'] + timestamp_chars(t)
        + seq!['.', 'm', 'c', 'a', 'p']
}

/// The characters of the full file path under the base directory.
pub open spec fn recording_file_path_chars(base: Seq<char>, id: u128, t: TimeParts) -> Seq<char> {
    base + seq!['/'] + recording_file_name_chars(id, t)
}

/// Renders the per-session file name.
pub fn recording_file_name(id: DeviceId, t: &TimeParts) -> (r: String)
    requires
        t.wf(),
    ensures
        r@ == recording_file_name_chars(id.value, *t),
{
    proof {
        reveal_strlit("device_");
        reveal_strlit("_");
        reveal_strlit(".mcap");
    }
    let mut s = String::from_str("device_");
    proof {
        assert(s@ =~= seq!['d', 'e', 'v', 'i', 'c', 'e', '_']);
    }
    let uuid = device_id_string(id);
    s.append(uuid.as_str());
    s.append("_");
    let ts = format_timestamp(t);
    s.append(ts.as_str());
    s.append(".mcap");
    proof {
        assert("_"@ =~= seq!['_']) by {
            reveal_strlit("_");
        }
        assert(".mcap"@ =~= seq!['.', 'm', 'c', 'a', 'p']) by {
            reveal_strlit(".mcap");
        }
        assert(s@ =~= recording_file_name_chars(id.value, *t));
    }
    s
}

/// Renders the full file path under `base`.
pub fn recording_file_path(base: &String, id: DeviceId, t: &TimeParts) -> (r: String)
    requires
        t.wf(),
    ensures
        r@ == recording_file_path_chars(base@, id.value, *t),
{
    proof {
        reveal_strlit("/");
    }
    let mut s = base.clone();
    s.append("/");
    let name = recording_file_name(id, t);
    s.append(name.as_str());
    proof {
        assert("/"@ =~= seq!['/']) by {
            reveal_strlit("/");
        }
        assert(s@ =~= recording_file_path_chars(base@, id.value, *t));
    }
    s
}

/// The characters of a per-device log topic: `/device_{id}/{channel}`.
pub open spec fn device_topic_chars(id: u128, channel: Seq<char>) -> Seq<char> {
    seq!['/', 'd', 'e', 'v', 'i', 'c', 'e', '_'] + device_id_chars(id) + seq!['/'] + channel
}

/// Renders the single-beam channel topic `/device_{id}/Ping1D`.
pub fn topic_ping1d(id: DeviceId) -> (r: String)
    ensures
        r@ == device_topic_chars(id.value, seq!['P', 'i', 'n', 'g', '1', 'D']),
{
    let mut s = topic_prefix(id);
    proof {
        reveal_strlit("Ping1D");
    }
    s.append("Ping1D");
    proof {
        assert("Ping1D"@ =~= seq!['P', 'i', 'n', 'g', '1', 'D']) by {
            reveal_strlit("Ping1D");
        }
        assert(s@ =~= device_topic_chars(id.value, seq!['P', 'i', 'n', 'g', '1', 'D']));
    }
    s
}

/// Renders the imaging channel topic `/device_{id}/Ping360`.
pub fn topic_ping360(id: DeviceId) -> (r: String)
    ensures
        r@ == device_topic_chars(id.value, seq!['P', 'i', 'n', 'g', '3', '6', '0']),
{
    let mut s = topic_prefix(id);
    proof {
        reveal_strlit("Ping360");
    }
    s.append("Ping360");
    proof {
        assert("Ping360"@ =~= seq!['P', 'i', 'n', 'g', '3', '6', '0']) by {
            reveal_strlit("Ping360");
        }
        assert(s@ =~= device_topic_chars(id.value, seq!['P', 'i', 'n', 'g', '3', '6', '0']));
    }
    s
}

/// Renders the telemetry channel topic `/device_{id}/VehicleData`.
pub fn topic_vehicle_data(id: DeviceId) -> (r: String)
    ensures
        r@ == device_topic_chars(
            id.value,
            seq!['V', 'e', 'h', 'i', 'c', 'l', 'e', 'D', 'a', 't', 'a'],
        ),
{
    let mut s = topic_prefix(id);
    proof {
        reveal_strlit("VehicleData");
    }
    s.append("VehicleData");
    proof {
        assert("VehicleData"@ =~= seq!['V', 'e', 'h', 'i', 'c', 'l', 'e', 'D', 'a', 't', 'a']) by {
            reveal_strlit("VehicleData");
        }
        assert(s@ =~= device_topic_chars(
            id.value,
            seq!['V', 'e', 'h', 'i', 'c', 'l', 'e', 'D', 'a', 't', 'a'],
        ));
    }
    s
}

/// Renders the shared topic prefix `/device_{id}/`.
fn topic_prefix(id: DeviceId) -> (r: String)
    ensures
        r@ == seq!['/', 'd', 'e', 'v', 'i', 'c', 'e', '_'] + device_id_chars(id.value) + seq!['/'],
{
    proof {
        reveal_strlit("/device_");
        reveal_strlit("/");
    }
    let mut s = String::from_str("/device_");
    proof {
        assert(s@ =~= seq!['/', 'd', 'e', 'v', 'i', 'c', 'e', '_']);
    }
    let uuid = device_id_string(id);
    s.append(uuid.as_str());
    s.append("/");
    proof {
        assert("/"@ =~= seq!['/']) by {
            reveal_strlit("/");
        }
        assert(s@ =~= seq!['/', 'd', 'e', 'v', 'i', 'c', 'e', '_'] + device_id_chars(id.value)
            + seq!['/']);
    }
    s
}

impl<W> RecordingManager<W> {
    /// Entries are unique by device id, and every guard couples its flag to
    /// its writer.
    pub open spec fn wf(self) -> bool {
        &&& forall|i: int, j: int|
            #![trigger self.sessions@[i], self.sessions@[j]]
            0 <= i < j < self.sessions@.len() ==> self.sessions@[i].session.device_id
                != self.sessions@[j].session.device_id
        &&& forall|i: int| 0 <= i < self.sessions@.len() ==> (#[trigger] self.sessions@[i]).wf()
    }

    /// Some entry records this device.
    pub open spec fn contains_device(self, id: DeviceId) -> bool {
        exists|i: int|
            0 <= i < self.sessions@.len() && (#[trigger] self.sessions@[i]).session.device_id == id
    }

    /// The device's recording is currently active.
    pub open spec fn device_active(self, id: DeviceId) -> bool {
        exists|i: int|
            0 <= i < self.sessions@.len() && (#[trigger] self.sessions@[i]).session.device_id == id
                && self.sessions@[i].session.is_active
    }

    /// A fresh manager over a base directory.
    pub fn new(base_path: String) -> (r: RecordingManager<W>)
        ensures
            r.wf(),
            r.sessions@.len() == 0,
            r.base_path == base_path,
    {
        RecordingManager { base_path, sessions: Vec::new() }
    }

    /// Finds the index of the entry recording `id`, if any.
    pub fn index_of_device(&self, id: DeviceId) -> (r: Option<usize>)
        ensures
            r matches Some(i) ==> i < self.sessions@.len() && self.sessions@[i as int].session.device_id
                == id,
            (r is Some) <==> self.contains_device(id),
    {
        let mut i: usize = 0;
        while i < self.sessions.len()
            invariant
                i <= self.sessions@.len(),
                forall|j: int|
                    0 <= j < i ==> (#[trigger] self.sessions@[j]).session.device_id != id,
            decreases self.sessions@.len() - i,
        {
            if self.sessions[i].session.device_id == id {
                return Some(i);
            }
            i = i + 1;
        }
        None
    }

    /// Whether a session for `id` exists at all (active or draining).
    pub fn has_session(&self, id: DeviceId) -> (r: bool)
        ensures
            r == self.contains_device(id),
    {
        self.index_of_device(id).is_some()
    }

    /// Starts a recording: rejects a device that already has a session with
    /// `Busy` and leaves everything unchanged; otherwise binds the opened
    /// writer into a new active guard whose file path is
    /// `{base}/device_{id}_{YYYYMMDD_HHMMSS}.mcap` for the given UTC start
    /// time, and returns the session record.
    pub fn start_recording(
        &mut self,
        id: DeviceId,
        kind: DeviceKind,
        ts: TimeParts,
        writer: W,
    ) -> (r: Result<RecordingSession, ManagerError>)
        requires
            old(self).wf(),
            ts.wf(),
        ensures
            final(self).wf(),
            final(self).base_path == old(self).base_path,
            (r is Ok) <==> !old(self).contains_device(id),
            r matches Err(e) ==> e.kind == ErrorKind::Busy && *final(self) == *old(self),
            r matches Ok(s) ==> {
                &&& s.device_id == id
                &&& s.device_type == kind
                &&& s.start_time == ts
                &&& s.is_active
                &&& s.file_path@ == recording_file_path_chars(old(self).base_path@, id.value, ts)
                &&& final(self).sessions@ == old(self).sessions@.push(
                    SessionGuard { session: s, writer: Some(writer) },
                )
            },
    {
        if self.has_session(id) {
            return Err(
                ManagerError::new(ErrorKind::Busy, String::from_str("device is already recording")),
            );
        }
        let file_path = recording_file_path(&self.base_path, id, &ts);
        let session = RecordingSession {
            device_id: id,
            file_path,
            is_active: true,
            start_time: ts,
            device_type: kind,
        };
        let out = session.clone();
        self.sessions.push(SessionGuard { session, writer: Some(writer) });
        Ok(out)
    }

    /// Stops a recording: succeeds exactly for a device whose session is
    /// still active, flips it inactive, and surrenders the writer handle so
    /// the caller can flush and close it. A device without a session — or
    /// stopped a second time — gets `NotFound`, and nothing changes.
    pub fn stop_recording(&mut self, id: DeviceId) -> (r: Result<(RecordingSession, W), ManagerError>)
        requires
            old(self).wf(),
        ensures
            final(self).wf(),
            final(self).base_path == old(self).base_path,
            (r is Ok) <==> old(self).device_active(id),
            r matches Err(e) ==> e.kind == ErrorKind::NotFound && *final(self) == *old(self),
            r matches Ok(sw) ==> exists|i: int|
                {
                    &&& 0 <= i < old(self).sessions@.len()
                    &&& (#[trigger] old(self).sessions@[i]).session.device_id == id
                    &&& old(self).sessions@[i].session.is_active
                    &&& old(self).sessions@[i].writer == Some(sw.1)
                    &&& sw.0 == (RecordingSession {
                        is_active: false,
                        ..old(self).sessions@[i].session
                    })
                    &&& final(self).sessions@ == old(self).sessions@.update(
                        i,
                        SessionGuard { session: sw.0, writer: None },
                    )
                },
    {
        let idx = match self.index_of_device(id) {
            Some(i) => i,
            None => {
                return Err(
                    ManagerError::new(
                        ErrorKind::NotFound,
                        String::from_str("no recording session for this device"),
                    ),
                );
            },
        };
        if !self.sessions[idx].session.is_active {
            proof {
                assert forall|i: int|
                    0 <= i < self.sessions@.len() && (#[trigger] self.sessions@[i]).session.device_id
                        == id implies !self.sessions@[i].session.is_active by {
                    if i != idx {
                        assert(self.sessions@[i].session.device_id
                            != self.sessions@[idx as int].session.device_id);
                    }
                }
            }
            return Err(
                ManagerError::new(
                    ErrorKind::NotFound,
                    String::from_str("no recording session for this device"),
                ),
            );
        }
        let ghost before = self.sessions@;
        let guard = &mut self.sessions[idx];
        guard.session.is_active = false;
        let writer = guard.writer.take();
        let session = guard.session.clone();
        let w = writer.unwrap();
        proof {
            assert(before[idx as int].session.device_id == id);
            assert(self.sessions@ =~= before.update(
                idx as int,
                SessionGuard { session: self.sessions@[idx as int].session, writer: None },
            ));
        }
        Ok((session, w))
    }

    /// The session record for one device, if it has one.
    pub fn get_recording_status(&self, id: DeviceId) -> (r: Option<RecordingSession>)
        ensures
            (r is Some) <==> self.contains_device(id),
            r matches Some(s) ==> exists|i: int|
                0 <= i < self.sessions@.len() && (#[trigger] self.sessions@[i]).session == s
                    && s.device_id == id,
    {
        match self.index_of_device(id) {
            Some(i) => Some(self.sessions[i].session.clone()),
            None => None,
        }
    }

    /// Every session record, in registry order.
    pub fn get_all_recording_status(&self) -> (r: Vec<RecordingSession>)
        ensures
            r@.len() == self.sessions@.len(),
            forall|i: int|
                0 <= i < r@.len() ==> #[trigger] r@[i] == self.sessions@[i].session,
    {
        let mut out: Vec<RecordingSession> = Vec::new();
        let mut i: usize = 0;
        while i < self.sessions.len()
            invariant
                i <= self.sessions@.len(),
                out@.len() == i,
                forall|j: int| 0 <= j < i ==> #[trigger] out@[j] == self.sessions@[j].session,
            decreases self.sessions@.len() - i,
        {
            out.push(self.sessions[i].session.clone());
            i = i + 1;
        }
        out
    }

    /// The worker's per-iteration check: keep running while the session is
    /// active; once it is stopped (or gone), drop the registry entry and
    /// exit. Returns whether to continue.
    pub fn worker_poll(&mut self, id: DeviceId) -> (r: bool)
        requires
            old(self).wf(),
        ensures
            final(self).wf(),
            final(self).base_path == old(self).base_path,
            r == old(self).device_active(id),
            r ==> *final(self) == *old(self),
            !r ==> !final(self).contains_device(id),
            (!r && !old(self).contains_device(id)) ==> *final(self) == *old(self),
            (!r && old(self).contains_device(id)) ==> exists|i: int|
                {
                    &&& 0 <= i < old(self).sessions@.len()
                    &&& (#[trigger] old(self).sessions@[i]).session.device_id == id
                    &&& final(self).sessions@ == old(self).sessions@.remove(i)
                },
    {
        let idx = match self.index_of_device(id) {
            Some(i) => i,
            None => {
                return false;
            },
        };
        if self.sessions[idx].session.is_active {
            proof {
                assert(old(self).device_active(id));
            }
            return true;
        }
        proof {
            assert forall|i: int|
                0 <= i < self.sessions@.len() && (#[trigger] self.sessions@[i]).session.device_id
                    == id implies !self.sessions@[i].session.is_active by {
                if i != idx {
                    assert(self.sessions@[i].session.device_id
                        != self.sessions@[idx as int].session.device_id);
                }
            }
        }
        let ghost before = self.sessions@;
        self.sessions.remove(idx);
        proof {
            assert forall|j: int|
                0 <= j < self.sessions@.len() implies (#[trigger] self.sessions@[j]).session.device_id
                != id by {
                if j < idx {
                    assert(self.sessions@[j] == before[j]);
                } else {
                    assert(self.sessions@[j] == before[j + 1]);
                }
            }
        }
        false
    }
}

/// One record bound for the session's log file.
#[derive(Debug)]
pub enum LogRecord {
    /// A single-beam profile, on the `Ping1D` channel.
    SonarPing1D(crate::messages::Ping1DProfile),
    /// An auto-scan record, on the `Ping360` channel.
    SonarPing360(crate::messages::Ping360AutoDeviceData),
    /// The fused telemetry snapshot, on the `VehicleData` channel.
    Vehicle(VehicleSnapshot),
}

/// Decides what one received frame contributes to the log. An auto-scan
/// record is logged as-is; a single-step reply is normalized first; a
/// profile goes to the single-beam channel; everything else is ignored.
/// After every logged sonar frame the vehicle snapshot — if populated — is
/// logged too; with no snapshot yet, only sonar channels see records.
pub fn worker_records(msg: &ParsedMessage, vehicle: &Option<VehicleSnapshot>) -> (r: Vec<LogRecord>)
    ensures
        *msg matches ParsedMessage::Other(_) ==> r@.len() == 0,
        !(*msg matches ParsedMessage::Other(_)) ==> r@.len() == (if *vehicle is Some {
            2int
        } else {
            1int
        }),
        *msg matches ParsedMessage::Profile(p) ==> (r@[0] matches LogRecord::SonarPing1D(q)
            && profile_eq(q, p)),
        *msg matches ParsedMessage::AutoDeviceData(d) ==> (r@[0] matches LogRecord::SonarPing360(a)
            && auto_data_eq(a, d)),
        *msg matches ParsedMessage::DeviceData(d) ==> (r@[0] matches LogRecord::SonarPing360(a)
            && is_synthesis_of(a, d)),
        *vehicle matches Some(v) ==> (!(*msg matches ParsedMessage::Other(_)) ==> r@[1]
            == LogRecord::Vehicle(v)),
        *vehicle is None ==> forall|i: int|
            0 <= i < r@.len() ==> !((#[trigger] r@[i]) matches LogRecord::Vehicle(_)),
{
    let mut out: Vec<LogRecord> = Vec::new();
    match msg {
        ParsedMessage::Profile(p) => {
            out.push(LogRecord::SonarPing1D(p.clone()));
        },
        ParsedMessage::AutoDeviceData(d) => {
            out.push(LogRecord::SonarPing360(d.clone()));
        },
        ParsedMessage::DeviceData(d) => {
            out.push(LogRecord::SonarPing360(synthesize_auto_device_data(d)));
        },
        ParsedMessage::Other(_) => {
            return out;
        },
    }
    if let Some(v) = vehicle {
        out.push(LogRecord::Vehicle(*v));
    }
    out
}

/// A command submitted to the recording manager's mailbox.
#[derive(Clone, Copy, Debug, PartialEq, Eq, Structural)]
pub enum RecordingManagerCommand {
    StartRecording(DeviceId),
    StopRecording(DeviceId),
    GetRecordingStatus(DeviceId),
    GetAllRecordingStatus,
    GetSubscriber,
}

/// A recording manager's answer. The subscriber handle itself lives with
/// the runtime shell; the `RecordingManager` variant tells it to attach one.
#[derive(Debug)]
pub enum Answer {
    RecordingSession(RecordingSession),
    RecordingStatus(Option<RecordingSession>),
    AllRecordingStatus(Vec<RecordingSession>),
    RecordingManager,
}

/// What one mailbox command asks of the actor loop: the status queries are
/// answered here from the registry; starting, stopping and subscribing
/// need the shell's file and channel work first.
#[derive(Debug)]
pub enum CommandAction {
    /// Open the file and call `start_recording` with the writer.
    Start(DeviceId),
    /// Call `stop_recording` and close the returned writer.
    Stop(DeviceId),
    /// Attach a receiver of the status broadcast.
    Subscribe,
    /// Already answered from the registry.
    Query(Answer),
}

impl<W> RecordingManager<W> {
    /// Dispatches one mailbox command: status queries are answered on the
    /// spot, exactly as `get_recording_status` and
    /// `get_all_recording_status` would answer them; the rest name the
    /// side effect the shell must perform.
    pub fn plan_command(&self, cmd: &RecordingManagerCommand) -> (r: CommandAction)
        ensures
            *cmd matches RecordingManagerCommand::StartRecording(id) ==> r
                == CommandAction::Start(id),
            *cmd matches RecordingManagerCommand::StopRecording(id) ==> r
                == CommandAction::Stop(id),
            *cmd == RecordingManagerCommand::GetSubscriber ==> r == CommandAction::Subscribe,
            *cmd matches RecordingManagerCommand::GetRecordingStatus(id) ==> (r
                matches CommandAction::Query(a) && a matches Answer::RecordingStatus(s) && ((
            s is Some) <==> self.contains_device(id)) && (s matches Some(sess) ==> sess.device_id
                == id && exists|i: int|
                0 <= i < self.sessions@.len() && (#[trigger] self.sessions@[i]).session == sess)),
            *cmd == RecordingManagerCommand::GetAllRecordingStatus ==> (r
                matches CommandAction::Query(a) && a matches Answer::AllRecordingStatus(v)
                && v@.len() == self.sessions@.len() && forall|i: int|
                0 <= i < v@.len() ==> #[trigger] v@[i] == self.sessions@[i].session),
    {
        match cmd {
            RecordingManagerCommand::StartRecording(id) => CommandAction::Start(*id),
            RecordingManagerCommand::StopRecording(id) => CommandAction::Stop(*id),
            RecordingManagerCommand::GetRecordingStatus(id) => CommandAction::Query(
                Answer::RecordingStatus(self.get_recording_status(*id)),
            ),
            RecordingManagerCommand::GetAllRecordingStatus => CommandAction::Query(
                Answer::AllRecordingStatus(self.get_all_recording_status()),
            ),
            RecordingManagerCommand::GetSubscriber => CommandAction::Subscribe,
        }
    }
}

/// A stopped session cannot be stopped again: the second call reports
/// `NotFound`, whatever happened in between short of a fresh start.
pub proof fn lemma_stop_twice_fails<W>(s0: RecordingManager<W>, s1: RecordingManager<W>, id: DeviceId, i: int)
    requires
        s0.wf(),
        0 <= i < s0.sessions@.len(),
        s0.sessions@[i].session.device_id == id,
        s0.sessions@[i].session.is_active,
        s1.sessions@ == s0.sessions@.update(
            i,
            SessionGuard {
                session: RecordingSession { is_active: false, ..s0.sessions@[i].session },
                writer: None,
            },
        ),
    ensures
        !s1.device_active(id),
{
    assert forall|j: int|
        0 <= j < s1.sessions@.len() && (#[trigger] s1.sessions@[j]).session.device_id
            == id implies !s1.sessions@[j].session.is_active by {
        if j != i {
            assert(s1.sessions@[j] == s0.sessions@[j]);
            assert(s0.sessions@[j].session.device_id != s0.sessions@[i].session.device_id);
        }
    }
}

/// At most one recording-registry entry carries any given device id.
pub proof fn lemma_recording_id_unique<W>(s: RecordingManager<W>, i: int, j: int)
    requires
        s.wf(),
        0 <= i < s.sessions@.len(),
        0 <= j < s.sessions@.len(),
        s.sessions@[i].session.device_id == s.sessions@[j].session.device_id,
    ensures
        i == j,
{
}

/// In every well-formed registry a session is active exactly while its
/// log-writer handle is present.
pub proof fn lemma_active_iff_writer<W>(s: RecordingManager<W>, i: int)
    requires
        s.wf(),
        0 <= i < s.sessions@.len(),
    ensures
        s.sessions@[i].session.is_active <==> (s.sessions@[i].writer is Some),
{
}

} // verus!
