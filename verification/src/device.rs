//! One resolved audio endpoint: identity, mute control, and the per-device
//! volume-notification registration.

use vstd::prelude::*;

use crate::channel::{channel_bounded, sender_try_send};
use crate::collection::{spec_has_endpoint, spec_slot, DeviceEnumerator};
use crate::enums::Role;
use crate::errors::{ErrorKind, WindowsAudioError};
use crate::queue::EventQueue;

verus! {

use vstd::string::StringExecFns;

/// A typed volume notification.
///
/// The platform reports volumes as 32-bit floating-point levels; the crate
/// carries each level opaquely as its raw bit pattern, and the caller that
/// displays a level reinterprets the bits at the edge.
#[derive(Clone, Debug)]
pub struct VolumeChangeEvent {
    pub mute: bool,
    /// Master volume level, as raw bits.
    pub volume: u32,
    /// One level per channel, as raw bits, exactly as many as the
    /// notification declared.
    pub channel_volumes: Vec<u32>,
}

/// A raw volume notification is convertible exactly when its declared
/// channel count is positive and no larger than the payload handed over.
pub open spec fn spec_volume_payload_valid(channel_count: u32, payload_len: nat) -> bool {
    1 <= channel_count as int && channel_count as int <= payload_len as int
}

/// Reads a raw volume notification into a typed event.
///
/// The notification declares how many per-channel levels it carries;
/// exactly that many are read from the payload. A count of zero or one
/// beyond the payload marks the notification malformed, and yields a
/// `ConversionFailed` error instead of an event.
pub fn volume_change_event(
    mute: bool,
    volume: u32,
    channel_count: u32,
    channel_volumes: &Vec<u32>,
) -> (msg: Result<VolumeChangeEvent, WindowsAudioError>)
    ensures
        spec_volume_payload_valid(channel_count, channel_volumes@.len()) ==> (msg matches Ok(e)
            && e.mute == mute
            && e.volume == volume
            && e.channel_volumes@ == channel_volumes@.subrange(0, channel_count as int)),
        !spec_volume_payload_valid(channel_count, channel_volumes@.len()) ==> (msg matches Err(e)
            && e.kind == ErrorKind::ConversionFailed
            && e.message@ == "volume notification channel count does not match its payload"@),
{
    if channel_count == 0 || channel_count as usize > channel_volumes.len() {
        return Err(WindowsAudioError::new(
            ErrorKind::ConversionFailed,
            String::from_str("volume notification channel count does not match its payload"),
        ));
    }
    let count = channel_count as usize;
    let mut levels: Vec<u32> = Vec::new();
    let mut i: usize = 0;
    while i < count
        invariant
            i <= count,
            count <= channel_volumes@.len(),
            levels@ == channel_volumes@.subrange(0, i as int),
        decreases count - i,
    {
        levels.push(channel_volumes[i]);
        assert(levels@ =~= channel_volumes@.subrange(0, i + 1));
        i = i + 1;
    }
    Ok(VolumeChangeEvent { mute, volume, channel_volumes: levels })
}

/// Queue-backed counterpart of [`VolumeCallbackClient::on_notify`]: reads a
/// raw volume notification and offers the outcome — event or conversion
/// failure — to a consumer queue. A malformed notification yields exactly
/// one failed item and leaves the queue open, so the next valid
/// notification still goes through.
pub fn deliver_volume_notification(
    queue: &mut EventQueue<Result<VolumeChangeEvent, WindowsAudioError>>,
    mute: bool,
    volume: u32,
    channel_count: u32,
    channel_volumes: &Vec<u32>,
) -> (delivered: bool)
    requires
        old(queue).wf(),
    ensures
        final(queue).wf(),
        delivered == EventQueue::<Result<VolumeChangeEvent, WindowsAudioError>>::spec_accepts(
            old(queue)@,
            old(queue).spec_capacity(),
            old(queue).spec_closed(),
        ),
        !delivered ==> final(queue)@ == old(queue)@,
        delivered ==> final(queue)@.len() == old(queue)@.len() + 1
            && final(queue)@.subrange(0, old(queue)@.len() as int) == old(queue)@,
        delivered && spec_volume_payload_valid(channel_count, channel_volumes@.len())
            ==> (final(queue)@.last() matches Ok(e)
                && e.mute == mute
                && e.volume == volume
                && e.channel_volumes@ == channel_volumes@.subrange(0, channel_count as int)),
        delivered && !spec_volume_payload_valid(channel_count, channel_volumes@.len())
            ==> (final(queue)@.last() matches Err(e) && e.kind == ErrorKind::ConversionFailed),
        final(queue).spec_capacity() == old(queue).spec_capacity(),
        final(queue).spec_closed() == old(queue).spec_closed(),
{
    let msg = volume_change_event(mute, volume, channel_count, channel_volumes);
    let delivered = queue.offer(msg);
    delivered
}

/// The callback object registered against one endpoint's volume-control
/// surface. Invocations arrive on platform worker threads; each one is
/// converted and forwarded without blocking, and the callback always
/// reports success to the platform, carrying any failure in the event
/// payload instead.
#[derive(Debug)]
pub struct VolumeCallbackClient {
    channel: async_std::channel::Sender<Result<VolumeChangeEvent, WindowsAudioError>>,
}

impl VolumeCallbackClient {
    /// The sending half this sink forwards into.
    pub closed spec fn spec_channel(&self) -> async_std::channel::Sender<
        Result<VolumeChangeEvent, WindowsAudioError>,
    > {
        self.channel
    }

    pub fn new(
        channel: async_std::channel::Sender<Result<VolumeChangeEvent, WindowsAudioError>>,
    ) -> (client: VolumeCallbackClient)
        ensures
            client.spec_channel() == channel,
    {
        VolumeCallbackClient { channel }
    }

    /// Handles one raw volume notification: converts it and offers the
    /// outcome to the consumer channel, never blocking the callback
    /// thread. Returns the item that was offered, which is the converted
    /// event exactly when the notification was well-formed.
    pub fn on_notify(
        &self,
        mute: bool,
        volume: u32,
        channel_count: u32,
        channel_volumes: &Vec<u32>,
    ) -> (msg: Result<VolumeChangeEvent, WindowsAudioError>)
        ensures
            spec_volume_payload_valid(channel_count, channel_volumes@.len()) ==> (msg matches Ok(e)
                && e.mute == mute
                && e.volume == volume
                && e.channel_volumes@ == channel_volumes@.subrange(0, channel_count as int)),
            !spec_volume_payload_valid(channel_count, channel_volumes@.len()) ==> (msg matches Err(e)
                && e.kind == ErrorKind::ConversionFailed),
    {
        let msg = volume_change_event(mute, volume, channel_count, channel_volumes);
        let offered = match &msg {
            Ok(e) => Ok(e.clone()),
            Err(e) => Err(e.clone()),
        };
        let _ = sender_try_send(&self.channel, offered);
        msg
    }
}

/// One resolved endpoint: an immutable identity snapshot plus the model of
/// its control surface, owning at most one active volume-notification
/// registration at a time.
#[derive(Debug)]
pub struct AudioDevice {
    pub id: String,
    pub friendly_name: String,
    pub muted: bool,
    pub volume_listener: Option<VolumeCallbackClient>,
}

impl AudioDevice {
    /// Whether the endpoint is muted in this handle's control-surface model.
    pub open spec fn spec_muted(&self) -> bool {
        self.muted
    }

    /// Whether a volume-notification registration is active.
    pub open spec fn spec_listening(&self) -> bool {
        self.volume_listener is Some
    }

    /// Number of volume registrations this handle holds: zero or one,
    /// never more.
    pub open spec fn spec_active_registrations(&self) -> nat {
        if self.spec_listening() {
            1
        } else {
            0
        }
    }

    /// Wraps one resolved endpoint. The identity snapshot is taken at
    /// resolution time; a later rename is not reflected.
    pub fn new(id: String, friendly_name: String) -> (device: AudioDevice)
        ensures
            device.id == id,
            device.friendly_name == friendly_name,
            !device.spec_muted(),
            !device.spec_listening(),
    {
        AudioDevice { id, friendly_name, muted: false, volume_listener: None }
    }

    /// Reads the mute flag and writes its negation. Last-writer-wins with
    /// respect to concurrent external changes; the flag is externally
    /// owned state that this handle models.
    pub fn toggle_mute(&mut self)
        ensures
            final(self).spec_muted() == !old(self).spec_muted(),
            final(self).id == old(self).id,
            final(self).friendly_name == old(self).friendly_name,
            final(self).spec_listening() == old(self).spec_listening(),
    {
        self.muted = !self.muted;
    }

    pub fn is_muted(&self) -> (muted: bool)
        ensures
            muted == self.spec_muted(),
    {
        self.muted
    }

    pub fn is_listening(&self) -> (listening: bool)
        ensures
            listening == self.spec_listening(),
    {
        self.volume_listener.is_some()
    }

    /// Registers a volume-notification sink sending into `channel`.
    /// Replacement semantics: an already-active registration is
    /// unregistered first, so the handle never holds two at once, and the
    /// previous channel gains no further events from this handle.
    pub fn register_volume_change(
        &mut self,
        channel: async_std::channel::Sender<Result<VolumeChangeEvent, WindowsAudioError>>,
    )
        ensures
            final(self).volume_listener matches Some(client) && client.spec_channel() == channel,
            final(self).id == old(self).id,
            final(self).friendly_name == old(self).friendly_name,
            final(self).spec_muted() == old(self).spec_muted(),
    {
        if self.volume_listener.is_some() {
            self.stop_listening();
        }
        self.volume_listener = Some(VolumeCallbackClient { channel });
    }

    /// Starts a fresh volume-event stream of the given capacity and
    /// returns its receiving half. Calling it again replaces the previous
    /// registration; exactly one is active afterwards.
    pub fn start_volume_events(&mut self, capacity: usize) -> (receiver:
        async_std::channel::Receiver<Result<VolumeChangeEvent, WindowsAudioError>>)
        requires
            capacity >= 1,
        ensures
            final(self).spec_listening(),
            final(self).id == old(self).id,
            final(self).friendly_name == old(self).friendly_name,
            final(self).spec_muted() == old(self).spec_muted(),
    {
        let (sender, receiver) = channel_bounded(capacity);
        self.register_volume_change(sender);
        receiver
    }

    /// Unregisters the active volume registration, if any; a no-op
    /// otherwise. Safe to call any number of times.
    pub fn stop_listening(&mut self)
        ensures
            !final(self).spec_listening(),
            final(self).id == old(self).id,
            final(self).friendly_name == old(self).friendly_name,
            final(self).spec_muted() == old(self).spec_muted(),
    {
        self.volume_listener = None;
    }

    /// Forwards one raw volume notification through the active
    /// registration, if any. Models the platform invoking the registered
    /// callback; an inactive handle receives nothing.
    pub fn notify_volume(
        &self,
        mute: bool,
        volume: u32,
        channel_count: u32,
        channel_volumes: &Vec<u32>,
    ) -> (forwarded: bool)
        ensures
            forwarded == self.spec_listening(),
    {
        match &self.volume_listener {
            Some(client) => {
                let _ = client.on_notify(mute, volume, channel_count, channel_volumes);
                true
            },
            None => false,
        }
    }

    /// Requests that this endpoint become the default for the given role.
    /// The platform's policy surface decides; a handle whose endpoint is
    /// no longer in the table is rejected with `PermissionOrStateError`.
    pub fn set_default(&self, role: Role, system: &mut DeviceEnumerator) -> (outcome: Result<
        (),
        WindowsAudioError,
    >)
        requires
            old(system).wf(),
        ensures
            final(system).wf(),
            final(system).spec_endpoints() == old(system).spec_endpoints(),
            final(system).spec_registered() == old(system).spec_registered(),
            !spec_has_endpoint(old(system).spec_endpoints(), self.id@) ==> (outcome matches Err(e)
                && e.kind == ErrorKind::PermissionOrStateError) && *final(system) == *old(system),
            spec_has_endpoint(old(system).spec_endpoints(), self.id@) ==> outcome is Ok && (
            exists|i: int|
                0 <= i < old(system).spec_endpoints().len()
                    && (#[trigger] old(system).spec_endpoints()[i]).id@ == self.id@
                    && final(system).spec_defaults() == old(system).spec_defaults().update(
                    spec_slot(old(system).spec_endpoints()[i].flow, role),
                    Some(i as usize),
                )),
    {
        system.set_default_endpoint(self.id.as_str(), role)
    }

    /// Whether two handles resolve the same endpoint: identity is the
    /// endpoint id alone.
    pub fn same_endpoint(&self, other: &AudioDevice) -> (same: bool)
        ensures
            same == (self.id@ == other.id@),
    {
        self.id == other.id
    }
}

/// A device handle never holds more than one active volume registration:
/// starting events again replaces the previous registration instead of
/// adding a second one.
pub proof fn lemma_single_volume_registration(device: AudioDevice)
    ensures
        device.spec_active_registrations() <= 1,
{
}

} // verus!
