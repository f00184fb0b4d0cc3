//! The device manager's mailbox commands, and the routing rule the
//! websocket layer uses to tag each answer with the device it concerns.

use vstd::prelude::*;

use crate::codec::Frame;
use crate::ids::{DeviceId, DeviceKind, TransportSpec};

verus! {

/// A command submitted to the device manager's mailbox.
#[derive(Debug)]
pub enum Request {
    /// Discover devices on serial and network transports.
    AutoCreate,
    /// Create a session over the named transport.
    Create(TransportSpec),
    /// Destroy a session.
    Delete(DeviceId),
    /// List every registered device.
    List,
    /// The cached information of one device.
    Info(DeviceId),
    /// Forward a one-shot protocol request to one device's session.
    Ping(DeviceId, Frame),
    /// Start the session's continuous streaming mode.
    EnableContinuousMode(DeviceId),
    /// Stop the session's continuous streaming mode.
    DisableContinuousMode(DeviceId),
    /// Hand out the session's mailbox handle.
    GetDeviceHandler(DeviceId),
    /// Change a device's settings.
    ModifyDevice(DeviceId, DeviceKind),
}

/// The device a command concerns, where it names one: answers to such
/// commands are tagged with it on the broadcast to subscribers.
pub fn request_device_id(req: &Request) -> (r: Option<DeviceId>)
    ensures
        r == (match *req {
            Request::AutoCreate => None::<DeviceId>,
            Request::Create(_) => None::<DeviceId>,
            Request::List => None::<DeviceId>,
            Request::Delete(id) => Some(id),
            Request::Info(id) => Some(id),
            Request::Ping(id, _) => Some(id),
            Request::EnableContinuousMode(id) => Some(id),
            Request::DisableContinuousMode(id) => Some(id),
            Request::GetDeviceHandler(id) => Some(id),
            Request::ModifyDevice(id, _) => Some(id),
        }),
{
    match req {
        Request::AutoCreate => None,
        Request::Create(_) => None,
        Request::List => None,
        Request::Delete(id) => Some(*id),
        Request::Info(id) => Some(*id),
        Request::Ping(id, _) => Some(*id),
        Request::EnableContinuousMode(id) => Some(*id),
        Request::DisableContinuousMode(id) => Some(*id),
        Request::GetDeviceHandler(id) => Some(*id),
        Request::ModifyDevice(id, _) => Some(*id),
    }
}

} // verus!
