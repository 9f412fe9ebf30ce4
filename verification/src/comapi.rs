//! The coarse listener facade: one object that resolves the default
//! output device, holds its volume registration, and tears everything
//! down in one idempotent stop.

use vstd::prelude::*;

use crate::channel::sender_clone;
use crate::collection::DeviceEnumerator;
use crate::device::{AudioDevice, VolumeChangeEvent};
use crate::enums::{DataFlow, Role};
use crate::errors::{ErrorKind, WindowsAudioError};

verus! {

/// A diagnostic notification sink: it acknowledges every callback and
/// forwards nothing. Each handler returns the success flag handed back to
/// the platform, which is always success — a sink that reports failure
/// risks being silently unregistered.
pub struct NoticationClient {}

impl NoticationClient {
    pub fn on_device_state_changed(&self, _device_id: &str, _new_state: u32) -> (handled: bool)
        ensures
            handled,
    {
        true
    }

    pub fn on_device_added(&self, _device_id: &str) -> (handled: bool)
        ensures
            handled,
    {
        true
    }

    pub fn on_device_removed(&self, _device_id: &str) -> (handled: bool)
        ensures
            handled,
    {
        true
    }

    pub fn on_default_device_changed(
        &self,
        _raw_flow: i32,
        _raw_role: i32,
        _device_id: &str,
    ) -> (handled: bool)
        ensures
            handled,
    {
        true
    }

    pub fn on_property_value_changed(&self, _device_id: &str) -> (handled: bool)
        ensures
            handled,
    {
        true
    }
}

/// Listens for volume changes on the default output device: resolving the
/// device, registering on it, and forwarding every notification into one
/// channel. `stop` releases every registration and is safe to repeat.
#[derive(Debug)]
pub struct AudioEventListener {
    devices: Vec<AudioDevice>,
    channel: async_std::channel::Sender<Result<VolumeChangeEvent, WindowsAudioError>>,
}

impl AudioEventListener {
    /// The devices whose volume registrations this listener holds.
    pub closed spec fn spec_devices(&self) -> Seq<AudioDevice> {
        self.devices@
    }

    /// How many registrations the listener holds live.
    pub open spec fn spec_active_registrations(&self) -> nat {
        self.spec_devices().len()
    }

    /// Resolves the default output device and starts listening to its
    /// volume changes, forwarding them into `channel`. Fails exactly as
    /// the default-device lookup does; on success it holds one active
    /// registration.
    pub fn new(
        channel: async_std::channel::Sender<Result<VolumeChangeEvent, WindowsAudioError>>,
        system: &DeviceEnumerator,
    ) -> (listener: Result<AudioEventListener, WindowsAudioError>)
        requires
            system.wf(),
        ensures
            system.spec_default_index(DataFlow::Render, Role::Console) is None ==> (
            listener matches Err(e) && e.kind == ErrorKind::NoDefaultDevice),
            system.spec_default_index(DataFlow::Render, Role::Console) matches Some(idx) ==> (
            listener matches Ok(l) && l.spec_devices().len() == 1
                && l.spec_devices()[0].id == system.spec_endpoints()[idx as int].id
                && l.spec_devices()[0].spec_listening()),
    {
        match system.get_default_device(DataFlow::Render) {
            Err(e) => Err(e),
            Ok(device) => {
                let mut listener = AudioEventListener { devices: Vec::new(), channel };
                listener.register_volume_change(device);
                Ok(listener)
            },
        }
    }

    /// Resolves the current default output device to a fresh handle.
    pub fn get_default_output_device(&self, system: &DeviceEnumerator) -> (resolved: Result<
        AudioDevice,
        WindowsAudioError,
    >)
        requires
            system.wf(),
        ensures
            system.spec_default_index(DataFlow::Render, Role::Console) is None ==> (
            resolved matches Err(e) && e.kind == ErrorKind::NoDefaultDevice),
            system.spec_default_index(DataFlow::Render, Role::Console) matches Some(idx) ==> (
            resolved matches Ok(device) && (idx as int) < system.spec_endpoints().len()
                && device.id == system.spec_endpoints()[idx as int].id
                && device.friendly_name == system.spec_endpoints()[idx as int].friendly_name),
    {
        system.get_default_device(DataFlow::Render)
    }

    /// Takes a device handle, registers a volume sink on it that forwards
    /// into the listener's channel, and keeps the handle alive.
    fn register_volume_change(&mut self, device: AudioDevice)
        ensures
            final(self).spec_devices().len() == old(self).spec_devices().len() + 1,
            final(self).spec_devices().subrange(0, old(self).spec_devices().len() as int) == old(
                self,
            ).spec_devices(),
            final(self).spec_devices().last().id == device.id,
            final(self).spec_devices().last().spec_listening(),
    {
        let mut device = device;
        let sender = sender_clone(&self.channel);
        device.register_volume_change(sender);
        self.devices.push(device);
        proof {
            assert(self.devices@.subrange(0, old(self).devices@.len() as int) =~= old(
                self,
            ).devices@);
        }
    }

    /// Unregisters every volume registration and releases the handles.
    /// Idempotent: stopping an already-stopped listener changes nothing.
    pub fn stop(&mut self)
        ensures
            final(self).spec_devices() == Seq::<AudioDevice>::empty(),
            final(self).spec_active_registrations() == 0,
    {
        while self.devices.len() > 0
            decreases self.devices@.len(),
        {
            let device = self.devices.pop();
            match device {
                Some(mut device) => {
                    device.stop_listening();
                },
                None => {},
            }
        }
        proof {
            assert(self.devices@ =~= Seq::<AudioDevice>::empty());
        }
    }

    /// How many registrations are live.
    pub fn listener_count(&self) -> (count: usize)
        ensures
            count == self.spec_active_registrations(),
    {
        self.devices.len()
    }
}

} // verus!
