//! Endpoint enumeration: the device table, filtered collection snapshots,
//! default-device lookup, and the collection-level notification sink with
//! its registration registry.

use vstd::prelude::*;

use crate::channel::{channel_bounded, sender_try_send};
use crate::device::AudioDevice;
use crate::enums::{DataFlow, DeviceState, Role, DEVICE_STATEMASK_ALL, DEVICE_STATE_ACTIVE,
    DEVICE_STATE_DISABLED, DEVICE_STATE_NOTPRESENT, DEVICE_STATE_UNPLUGGED};
use crate::errors::{ErrorKind, WindowsAudioError};
use crate::queue::EventQueue;

verus! {

use vstd::string::StrSliceExecFns;
use vstd::string::StringExecFns;

/// One row of the endpoint table: the identity and classification of a
/// device as the platform reports it.
pub struct EndpointInfo {
    pub id: String,
    pub friendly_name: String,
    pub flow: DataFlow,
    pub state: DeviceState,
}

impl EndpointInfo {
    /// A well-formed row names a concrete endpoint: a nonempty id, a
    /// concrete direction, and exactly one state bit.
    pub open spec fn wf(&self) -> bool {
        &&& self.id@.len() > 0
        &&& self.flow != DataFlow::All
        &&& (self.state.bits == DEVICE_STATE_ACTIVE
            || self.state.bits == DEVICE_STATE_DISABLED
            || self.state.bits == DEVICE_STATE_NOTPRESENT
            || self.state.bits == DEVICE_STATE_UNPLUGGED)
    }

    pub fn is_wf(&self) -> (well_formed: bool)
        ensures
            well_formed == self.wf(),
    {
        self.id.as_str().unicode_len() > 0 && !(self.flow == DataFlow::All) && (
        self.state.bits == DEVICE_STATE_ACTIVE
            || self.state.bits == DEVICE_STATE_DISABLED
            || self.state.bits == DEVICE_STATE_NOTPRESENT
            || self.state.bits == DEVICE_STATE_UNPLUGGED)
    }
}

/// An exact copy of a table row.
fn copy_endpoint(endpoint: &EndpointInfo) -> (copy: EndpointInfo)
    ensures
        copy == *endpoint,
{
    EndpointInfo {
        id: endpoint.id.clone(),
        friendly_name: endpoint.friendly_name.clone(),
        flow: endpoint.flow,
        state: endpoint.state,
    }
}

/// Whether an endpoint passes a collection filter: its direction matches
/// (`All` matches every direction) and its state bit is in the mask.
pub open spec fn spec_matches_filter(
    endpoint: EndpointInfo,
    dataflow: DataFlow,
    state_mask: DeviceState,
) -> bool {
    (dataflow == DataFlow::All || endpoint.flow == dataflow)
        && state_mask.spec_intersects(endpoint.state)
}

/// The rows of a table that pass a filter, in table order.
pub open spec fn spec_filtered_endpoints(
    endpoints: Seq<EndpointInfo>,
    dataflow: DataFlow,
    state_mask: DeviceState,
) -> Seq<EndpointInfo> {
    endpoints.filter(|e: EndpointInfo| spec_matches_filter(e, dataflow, state_mask))
}

/// How many rows of a table pass a filter.
pub open spec fn spec_count_matching(
    endpoints: Seq<EndpointInfo>,
    dataflow: DataFlow,
    state_mask: DeviceState,
) -> nat
    decreases endpoints.len(),
{
    if endpoints.len() == 0 {
        0
    } else {
        spec_count_matching(endpoints.drop_last(), dataflow, state_mask) + if spec_matches_filter(
            endpoints.last(),
            dataflow,
            state_mask,
        ) {
            1nat
        } else {
            0nat
        }
    }
}

/// A collection snapshot holds exactly the matching rows, so its count
/// equals the number of endpoints whose direction and state match the
/// filter at enumeration time.
pub proof fn lemma_collection_count_matches_filter(
    endpoints: Seq<EndpointInfo>,
    dataflow: DataFlow,
    state_mask: DeviceState,
)
    ensures
        spec_filtered_endpoints(endpoints, dataflow, state_mask).len() == spec_count_matching(
            endpoints,
            dataflow,
            state_mask,
        ),
    decreases endpoints.len(),
{
    reveal_with_fuel(Seq::filter, 2);
    if endpoints.len() > 0 {
        lemma_collection_count_matches_filter(endpoints.drop_last(), dataflow, state_mask);
    }
}

/// Whether some row of the table carries the given endpoint id.
pub open spec fn spec_has_endpoint(endpoints: Seq<EndpointInfo>, device_id: Seq<char>) -> bool {
    exists|i: int| 0 <= i < endpoints.len() && (#[trigger] endpoints[i]).id@ == device_id
}

/// A typed collection-level notification.
#[derive(Clone, Debug)]
pub enum DeviceNotificationEvent {
    StateChanged(String, DeviceState),
    Added(String),
    Removed(String),
    DefaultChanged(String, DataFlow, Role),
}

/// What a raw default-device change converts to: the typed event when both
/// raw values are defined, nothing otherwise.
pub open spec fn spec_default_changed_message(
    device_id: String,
    raw_flow: i32,
    raw_role: i32,
) -> Option<DeviceNotificationEvent> {
    match (DataFlow::spec_from_raw(raw_flow), Role::spec_from_raw(raw_role)) {
        (Some(flow), Some(role)) => Some(
            DeviceNotificationEvent::DefaultChanged(device_id, flow, role),
        ),
        _ => None,
    }
}

/// Reads a raw state-change notification into a typed event. Undefined
/// state bits are dropped, as the platform's own mask read does.
pub fn state_changed_event(device_id: String, new_state: u32) -> (event: DeviceNotificationEvent)
    ensures
        event == (DeviceNotificationEvent::StateChanged(
            device_id,
            DeviceState { bits: new_state & DEVICE_STATEMASK_ALL },
        )),
{
    DeviceNotificationEvent::StateChanged(device_id, DeviceState::from_bits_truncate(new_state))
}

/// Reads a raw default-device change into a typed event; an undefined flow
/// or role value yields a `ConversionFailed` error instead.
pub fn default_changed_event(device_id: String, raw_flow: i32, raw_role: i32) -> (msg: Result<
    DeviceNotificationEvent,
    WindowsAudioError,
>)
    ensures
        spec_default_changed_message(device_id, raw_flow, raw_role) matches Some(event)
            ==> msg == Ok::<DeviceNotificationEvent, WindowsAudioError>(event),
        spec_default_changed_message(device_id, raw_flow, raw_role) is None ==> (msg matches Err(e)
            && e.kind == ErrorKind::ConversionFailed
            && e.message@ == "default device change carried an unknown flow or role value"@),
{
    let flow = DataFlow::from_raw(raw_flow);
    let role = Role::from_raw(raw_role);
    match (flow, role) {
        (Some(flow), Some(role)) => Ok(
            DeviceNotificationEvent::DefaultChanged(device_id, flow, role),
        ),
        _ => Err(
            WindowsAudioError::new(
                ErrorKind::ConversionFailed,
                String::from_str("default device change carried an unknown flow or role value"),
            ),
        ),
    }
}

/// Queue-backed delivery of a state-change notification: converts and
/// offers, never blocking.
pub fn deliver_state_changed(
    queue: &mut EventQueue<Result<DeviceNotificationEvent, WindowsAudioError>>,
    device_id: String,
    new_state: u32,
) -> (delivered: bool)
    requires
        old(queue).wf(),
    ensures
        final(queue).wf(),
        delivered == EventQueue::<Result<DeviceNotificationEvent, WindowsAudioError>>::spec_accepts(
            old(queue)@,
            old(queue).spec_capacity(),
            old(queue).spec_closed(),
        ),
        final(queue)@ == EventQueue::<Result<DeviceNotificationEvent, WindowsAudioError>>::spec_offer(
            old(queue)@,
            old(queue).spec_capacity(),
            old(queue).spec_closed(),
            Ok(DeviceNotificationEvent::StateChanged(
                device_id,
                (DeviceState { bits: new_state & DEVICE_STATEMASK_ALL }),
            )),
        ),
        final(queue).spec_capacity() == old(queue).spec_capacity(),
        final(queue).spec_closed() == old(queue).spec_closed(),
{
    let event = state_changed_event(device_id, new_state);
    queue.offer(Ok(event))
}

/// Queue-backed delivery of a device-added notification.
pub fn deliver_device_added(
    queue: &mut EventQueue<Result<DeviceNotificationEvent, WindowsAudioError>>,
    device_id: String,
) -> (delivered: bool)
    requires
        old(queue).wf(),
    ensures
        final(queue).wf(),
        delivered == EventQueue::<Result<DeviceNotificationEvent, WindowsAudioError>>::spec_accepts(
            old(queue)@,
            old(queue).spec_capacity(),
            old(queue).spec_closed(),
        ),
        final(queue)@ == EventQueue::<Result<DeviceNotificationEvent, WindowsAudioError>>::spec_offer(
            old(queue)@,
            old(queue).spec_capacity(),
            old(queue).spec_closed(),
            Ok(DeviceNotificationEvent::Added(device_id)),
        ),
        final(queue).spec_capacity() == old(queue).spec_capacity(),
        final(queue).spec_closed() == old(queue).spec_closed(),
{
    queue.offer(Ok(DeviceNotificationEvent::Added(device_id)))
}

/// Queue-backed delivery of a device-removed notification.
pub fn deliver_device_removed(
    queue: &mut EventQueue<Result<DeviceNotificationEvent, WindowsAudioError>>,
    device_id: String,
) -> (delivered: bool)
    requires
        old(queue).wf(),
    ensures
        final(queue).wf(),
        delivered == EventQueue::<Result<DeviceNotificationEvent, WindowsAudioError>>::spec_accepts(
            old(queue)@,
            old(queue).spec_capacity(),
            old(queue).spec_closed(),
        ),
        final(queue)@ == EventQueue::<Result<DeviceNotificationEvent, WindowsAudioError>>::spec_offer(
            old(queue)@,
            old(queue).spec_capacity(),
            old(queue).spec_closed(),
            Ok(DeviceNotificationEvent::Removed(device_id)),
        ),
        final(queue).spec_capacity() == old(queue).spec_capacity(),
        final(queue).spec_closed() == old(queue).spec_closed(),
{
    queue.offer(Ok(DeviceNotificationEvent::Removed(device_id)))
}

/// Queue-backed delivery of a default-device change: a raw value that does
/// not convert yields exactly one `ConversionFailed` item and leaves the
/// queue open, so later notifications still go through.
pub fn deliver_default_changed(
    queue: &mut EventQueue<Result<DeviceNotificationEvent, WindowsAudioError>>,
    device_id: String,
    raw_flow: i32,
    raw_role: i32,
) -> (delivered: bool)
    requires
        old(queue).wf(),
    ensures
        final(queue).wf(),
        delivered == EventQueue::<Result<DeviceNotificationEvent, WindowsAudioError>>::spec_accepts(
            old(queue)@,
            old(queue).spec_capacity(),
            old(queue).spec_closed(),
        ),
        spec_default_changed_message(device_id, raw_flow, raw_role) matches Some(event)
            ==> final(queue)@ == EventQueue::<
            Result<DeviceNotificationEvent, WindowsAudioError>,
        >::spec_offer(
            old(queue)@,
            old(queue).spec_capacity(),
            old(queue).spec_closed(),
            Ok(event),
        ),
        spec_default_changed_message(device_id, raw_flow, raw_role) is None && delivered
            ==> final(queue)@.len() == old(queue)@.len() + 1
            && final(queue)@.subrange(0, old(queue)@.len() as int) == old(queue)@
            && (final(queue)@.last() matches Err(e) && e.kind == ErrorKind::ConversionFailed),
        !delivered ==> final(queue)@ == old(queue)@,
        final(queue).spec_capacity() == old(queue).spec_capacity(),
        final(queue).spec_closed() == old(queue).spec_closed(),
{
    let msg = default_changed_event(device_id, raw_flow, raw_role);
    queue.offer(msg)
}

/// The callback object registered against the platform's device
/// enumerator. Invocations arrive on platform worker threads; each one is
/// converted and forwarded into the channel without blocking, and the
/// callback always reports success to the platform — a payload that does
/// not convert travels as a failed item, never as a callback failure.
pub struct NotificationClient {
    /// Identity of this sink within the registration registry.
    pub sink_id: u64,
    pub channel: async_std::channel::Sender<Result<DeviceNotificationEvent, WindowsAudioError>>,
}

impl NotificationClient {
    pub fn new(
        sink_id: u64,
        channel: async_std::channel::Sender<Result<DeviceNotificationEvent, WindowsAudioError>>,
    ) -> (client: NotificationClient)
        ensures
            client.sink_id == sink_id,
            client.channel == channel,
    {
        NotificationClient { sink_id, channel }
    }

    /// Offers one converted outcome to the channel, cloning it so the
    /// caller still receives the converted value.
    fn forward(&self, msg: &Result<DeviceNotificationEvent, WindowsAudioError>) {
        let offered = match msg {
            Ok(event) => Ok(event.clone()),
            Err(error) => Err(error.clone()),
        };
        let _ = sender_try_send(&self.channel, offered);
    }

    /// Handles a raw state-change callback. Returns the item offered to
    /// the channel: always the typed event, as every raw state converts.
    pub fn on_device_state_changed(&self, device_id: String, new_state: u32) -> (msg: Result<
        DeviceNotificationEvent,
        WindowsAudioError,
    >)
        ensures
            msg == Ok::<DeviceNotificationEvent, WindowsAudioError>(
                DeviceNotificationEvent::StateChanged(
                    device_id,
                    (DeviceState { bits: new_state & DEVICE_STATEMASK_ALL }),
                ),
            ),
    {
        let msg = Ok(state_changed_event(device_id, new_state));
        self.forward(&msg);
        msg
    }

    /// Handles a raw device-added callback.
    pub fn on_device_added(&self, device_id: String) -> (msg: Result<
        DeviceNotificationEvent,
        WindowsAudioError,
    >)
        ensures
            msg == Ok::<DeviceNotificationEvent, WindowsAudioError>(
                DeviceNotificationEvent::Added(device_id),
            ),
    {
        let msg = Ok(DeviceNotificationEvent::Added(device_id));
        self.forward(&msg);
        msg
    }

    /// Handles a raw device-removed callback.
    pub fn on_device_removed(&self, device_id: String) -> (msg: Result<
        DeviceNotificationEvent,
        WindowsAudioError,
    >)
        ensures
            msg == Ok::<DeviceNotificationEvent, WindowsAudioError>(
                DeviceNotificationEvent::Removed(device_id),
            ),
    {
        let msg = Ok(DeviceNotificationEvent::Removed(device_id));
        self.forward(&msg);
        msg
    }

    /// Handles a raw default-device change callback. An undefined flow or
    /// role value is forwarded as one `ConversionFailed` item — the
    /// notification is surfaced, not dropped, and the callback still
    /// reports success to the platform.
    pub fn on_default_device_changed(
        &self,
        raw_flow: i32,
        raw_role: i32,
        device_id: String,
    ) -> (msg: Result<DeviceNotificationEvent, WindowsAudioError>)
        ensures
            spec_default_changed_message(device_id, raw_flow, raw_role) matches Some(event)
                ==> msg == Ok::<DeviceNotificationEvent, WindowsAudioError>(event),
            spec_default_changed_message(device_id, raw_flow, raw_role) is None ==> (msg matches Err(e)
                && e.kind == ErrorKind::ConversionFailed),
    {
        let msg = default_changed_event(device_id, raw_flow, raw_role);
        self.forward(&msg);
        msg
    }

    /// Handles a callback whose raw payload could not even be decoded to
    /// text: the failure travels as one `ConversionFailed` item — a
    /// notification is surfaced, never silently lost — and the callback
    /// still reports success to the platform.
    pub fn on_undecodable_payload(&self) -> (msg: Result<
        DeviceNotificationEvent,
        WindowsAudioError,
    >)
        ensures
            msg matches Err(e) && e.kind == ErrorKind::ConversionFailed
                && e.message@ == "notification payload could not be decoded"@,
    {
        let msg = Err(
            WindowsAudioError::new(
                ErrorKind::ConversionFailed,
                String::from_str("notification payload could not be decoded"),
            ),
        );
        self.forward(&msg);
        msg
    }

    /// Property-value changes are deliberately not forwarded; the
    /// callback acknowledges them and drops them.
    pub fn on_property_value_changed(&self) {
    }
}

/// An enumerated, filtered snapshot of endpoints. Membership and count are
/// fixed at enumeration time; the snapshot does not follow later device
/// changes.
pub struct DeviceCollection {
    pub dataflow: DataFlow,
    pub state_mask: DeviceState,
    pub endpoints: Vec<EndpointInfo>,
}

impl DeviceCollection {
    /// The snapshot is small enough to count in the platform's 32-bit
    /// count type.
    pub open spec fn wf(&self) -> bool {
        self.endpoints@.len() <= u32::MAX
    }

    /// How many endpoints the snapshot holds.
    pub fn length(&self) -> (count: u32)
        requires
            self.wf(),
        ensures
            count == self.endpoints@.len(),
    {
        self.endpoints.len() as u32
    }

    /// Resolves the endpoint at `index` to a fresh handle. An index at or
    /// past the count fails with `IndexOutOfRange`; it never panics. Two
    /// calls with the same index resolve the same endpoint id.
    pub fn get(&self, index: u32) -> (resolved: Result<AudioDevice, WindowsAudioError>)
        requires
            self.wf(),
        ensures
            index < self.endpoints@.len() ==> (resolved matches Ok(device)
                && device.id == self.endpoints@[index as int].id
                && device.friendly_name == self.endpoints@[index as int].friendly_name
                && !device.spec_listening()
                && !device.spec_muted()),
            index >= self.endpoints@.len() ==> (resolved matches Err(e)
                && e.kind == ErrorKind::IndexOutOfRange),
    {
        if (index as usize) < self.endpoints.len() {
            let row = &self.endpoints[index as usize];
            Ok(AudioDevice::new(row.id.clone(), row.friendly_name.clone()))
        } else {
            Err(
                WindowsAudioError::new(
                    ErrorKind::IndexOutOfRange,
                    String::from_str("device index out of range"),
                ),
            )
        }
    }
}

/// Raw slot of a default-device designation: one slot per concrete
/// direction and role, render slots first.
pub open spec fn spec_slot(dataflow: DataFlow, role: Role) -> int
    recommends
        dataflow != DataFlow::All,
{
    (if dataflow == DataFlow::Render {
        0int
    } else {
        3int
    }) + (match role {
        Role::Console => 0int,
        Role::Multimedia => 1int,
        Role::Communications => 2int,
    })
}

fn slot_index(dataflow: DataFlow, role: Role) -> (slot: usize)
    requires
        dataflow != DataFlow::All,
    ensures
        slot == spec_slot(dataflow, role),
        slot < 6,
{
    let base: usize = if let DataFlow::Render = dataflow {
        0
    } else {
        3
    };
    let offset: usize = match role {
        Role::Console => 0,
        Role::Multimedia => 1,
        Role::Communications => 2,
    };
    base + offset
}

/// The device-enumeration surface: the endpoint table, the default-device
/// designations, and the registry of registered notification sinks.
///
/// The live platform owns this state; here it is held as data, so that
/// lookup, filtering and registration decisions are checkable and a
/// caller can drive the same surface with simulated changes.
pub struct DeviceEnumerator {
    endpoints: Vec<EndpointInfo>,
    defaults: Vec<Option<usize>>,
    clients: Vec<NotificationClient>,
}

impl DeviceEnumerator {
    /// The endpoint table, in enumeration order.
    pub closed spec fn spec_endpoints(&self) -> Seq<EndpointInfo> {
        self.endpoints@
    }

    /// The six default-device slots, indexed by [`spec_slot`].
    pub closed spec fn spec_defaults(&self) -> Seq<Option<usize>> {
        self.defaults@
    }

    /// The sink ids currently registered, in registration order.
    pub closed spec fn spec_registered(&self) -> Seq<u64> {
        self.clients@.map_values(|c: NotificationClient| c.sink_id)
    }

    /// Whether a sink id is currently registered.
    pub open spec fn spec_is_registered(&self, sink_id: u64) -> bool {
        self.spec_registered().contains(sink_id)
    }

    /// The designated default endpoint's table index for a direction and
    /// role, if one is designated.
    pub closed spec fn spec_default_index(&self, dataflow: DataFlow, role: Role) -> Option<usize>
        recommends
            dataflow != DataFlow::All,
    {
        self.defaults@[spec_slot(dataflow, role)]
    }

    /// Invariants: well-formed rows with distinct ids, a table countable
    /// in 32 bits, six default slots each pointing into the table, and
    /// distinct registered sink ids.
    pub closed spec fn wf(&self) -> bool {
        &&& self.endpoints@.len() <= u32::MAX
        &&& (forall|i: int|
            0 <= i < self.endpoints@.len() ==> (#[trigger] self.endpoints@[i]).wf())
        &&& (forall|i: int, j: int|
            0 <= i < j < self.endpoints@.len() ==> (#[trigger] self.endpoints@[i]).id@ != (
            #[trigger] self.endpoints@[j]).id@)
        &&& self.defaults@.len() == 6
        &&& (forall|s: int|
            0 <= s < 6 ==> ((#[trigger] self.defaults@[s]) matches Some(idx) ==> (idx as int)
                < self.endpoints@.len()))
        &&& (forall|i: int, j: int|
            0 <= i < j < self.clients@.len() ==> (#[trigger] self.clients@[i]).sink_id != (
            #[trigger] self.clients@[j]).sink_id)
    }

    /// A fresh surface: no endpoints, no defaults, no registered sinks.
    pub fn new() -> (enumerator: DeviceEnumerator)
        ensures
            enumerator.wf(),
            enumerator.spec_endpoints() == Seq::<EndpointInfo>::empty(),
            enumerator.spec_registered() == Seq::<u64>::empty(),
            forall|dataflow: DataFlow, role: Role|
                dataflow != DataFlow::All ==> #[trigger] enumerator.spec_default_index(
                    dataflow,
                    role,
                ) is None,
    {
        let mut defaults: Vec<Option<usize>> = Vec::new();
        defaults.push(None);
        defaults.push(None);
        defaults.push(None);
        defaults.push(None);
        defaults.push(None);
        defaults.push(None);
        let enumerator = DeviceEnumerator { endpoints: Vec::new(), defaults, clients: Vec::new() };
        proof {
            assert(enumerator.spec_registered() =~= Seq::<u64>::empty());
        }
        enumerator
    }

    /// How many endpoints the table holds.
    pub fn endpoint_count(&self) -> (count: usize)
        ensures
            count == self.spec_endpoints().len(),
    {
        self.endpoints.len()
    }

    /// How many notification sinks are registered.
    pub fn registration_count(&self) -> (count: usize)
        ensures
            count == self.spec_registered().len(),
    {
        self.clients.len()
    }

    /// Appends one endpoint row. The row is taken only when it is
    /// well-formed, its id is not already in the table, and the table can
    /// still be counted in 32 bits; otherwise nothing changes.
    pub fn add_endpoint(&mut self, endpoint: EndpointInfo) -> (added: bool)
        requires
            old(self).wf(),
        ensures
            final(self).wf(),
            added == (endpoint.wf() && !spec_has_endpoint(
                old(self).spec_endpoints(),
                endpoint.id@,
            ) && old(self).spec_endpoints().len() < u32::MAX),
            added ==> final(self).spec_endpoints() == old(self).spec_endpoints().push(endpoint),
            !added ==> *final(self) == *old(self),
            final(self).spec_defaults() == old(self).spec_defaults(),
            final(self).spec_registered() == old(self).spec_registered(),
    {
        if !endpoint.is_wf() {
            return false;
        }
        if self.endpoints.len() >= u32::MAX as usize {
            return false;
        }
        let mut i: usize = 0;
        while i < self.endpoints.len()
            invariant
                i <= self.endpoints@.len(),
                forall|j: int| 0 <= j < i ==> (#[trigger] self.endpoints@[j]).id@ != endpoint.id@,
            decreases self.endpoints@.len() - i,
        {
            if self.endpoints[i].id == endpoint.id {
                return false;
            }
            i = i + 1;
        }
        self.endpoints.push(endpoint);
        true
    }

    /// Resolves an endpoint id to a fresh device handle.
    ///
    /// An empty id is rejected as `InvalidArgument` before any lookup; an
    /// id not in the table fails with `NotFound`; otherwise the matching
    /// row is resolved.
    pub fn get_device(&self, device_id: &str) -> (resolved: Result<AudioDevice, WindowsAudioError>)
        requires
            self.wf(),
        ensures
            device_id@.len() == 0 ==> (resolved matches Err(e) && e.kind
                == ErrorKind::InvalidArgument),
            device_id@.len() > 0 && spec_has_endpoint(self.spec_endpoints(), device_id@)
                ==> (resolved matches Ok(device) && device.id@ == device_id@ && (exists|i: int|
                0 <= i < self.spec_endpoints().len() && (#[trigger] self.spec_endpoints()[i]).id@
                    == device_id@ && device.friendly_name
                    == self.spec_endpoints()[i].friendly_name) && !device.spec_listening()
                && !device.spec_muted()),
            device_id@.len() > 0 && !spec_has_endpoint(self.spec_endpoints(), device_id@)
                ==> (resolved matches Err(e) && e.kind == ErrorKind::NotFound),
    {
        if device_id.unicode_len() == 0 {
            return Err(
                WindowsAudioError::new(
                    ErrorKind::InvalidArgument,
                    String::from_str("device id must not be empty"),
                ),
            );
        }
        let key = String::from_str(device_id);
        let mut i: usize = 0;
        while i < self.endpoints.len()
            invariant
                i <= self.endpoints@.len(),
                key@ == device_id@,
                forall|j: int| 0 <= j < i ==> (#[trigger] self.endpoints@[j]).id@ != device_id@,
            decreases self.endpoints@.len() - i,
        {
            if self.endpoints[i].id == key {
                let row = &self.endpoints[i];
                return Ok(AudioDevice::new(row.id.clone(), row.friendly_name.clone()));
            }
            i = i + 1;
        }
        Err(
            WindowsAudioError::new(
                ErrorKind::NotFound,
                String::from_str("no endpoint carries the given id"),
            ),
        )
    }

    /// Enumerates a filtered snapshot. The snapshot holds exactly the
    /// rows whose direction and state match the criteria, in table order,
    /// and stays fixed however the table changes afterwards.
    pub fn get_collection(&self, dataflow: DataFlow, state_mask: DeviceState) -> (collection:
        Result<DeviceCollection, WindowsAudioError>)
        requires
            self.wf(),
        ensures
            collection matches Ok(c) && c.dataflow == dataflow && c.state_mask == state_mask
                && c.endpoints@ == spec_filtered_endpoints(
                self.spec_endpoints(),
                dataflow,
                state_mask,
            ) && c.wf(),
    {
        let mut snapshot: Vec<EndpointInfo> = Vec::new();
        let mut i: usize = 0;
        proof {
            assert(self.endpoints@.subrange(0, 0) =~= Seq::<EndpointInfo>::empty());
            reveal_with_fuel(Seq::filter, 1);
        }
        while i < self.endpoints.len()
            invariant
                i <= self.endpoints@.len(),
                self.endpoints@.len() <= u32::MAX,
                snapshot@ == spec_filtered_endpoints(
                    self.endpoints@.subrange(0, i as int),
                    dataflow,
                    state_mask,
                ),
                snapshot@.len() <= i,
            decreases self.endpoints@.len() - i,
        {
            let row = &self.endpoints[i];
            proof {
                lemma_filtered_push(
                    self.endpoints@.subrange(0, i as int),
                    self.endpoints@[i as int],
                    dataflow,
                    state_mask,
                );
                assert(self.endpoints@.subrange(0, i as int).push(self.endpoints@[i as int]) =~= self.endpoints@.subrange(0, i as int + 1));
            }
            if (dataflow == DataFlow::All || row.flow == dataflow) && state_mask.intersects(
                row.state,
            ) {
                snapshot.push(copy_endpoint(row));
            }
            i = i + 1;
        }
        proof {
            assert(self.endpoints@.subrange(0, self.endpoints@.len() as int) =~= self.endpoints@);
        }
        Ok(DeviceCollection { dataflow, state_mask, endpoints: snapshot })
    }

    /// Resolves the default endpoint for a direction (console role, as
    /// the platform's default lookup uses).
    ///
    /// `All` is not a direction a default can be read for and is rejected
    /// as `InvalidArgument`; a direction with no designated default fails
    /// with `NoDefaultDevice`, distinct from every other failure.
    pub fn get_default_device(&self, dataflow: DataFlow) -> (resolved: Result<
        AudioDevice,
        WindowsAudioError,
    >)
        requires
            self.wf(),
        ensures
            dataflow == DataFlow::All ==> (resolved matches Err(e) && e.kind
                == ErrorKind::InvalidArgument),
            dataflow != DataFlow::All && self.spec_default_index(dataflow, Role::Console) is None
                ==> (resolved matches Err(e) && e.kind == ErrorKind::NoDefaultDevice),
            dataflow != DataFlow::All ==> (self.spec_default_index(dataflow, Role::Console) matches Some(idx)
                ==> (resolved matches Ok(device) && (idx as int) < self.spec_endpoints().len()
                && device.id == self.spec_endpoints()[idx as int].id && device.friendly_name
                == self.spec_endpoints()[idx as int].friendly_name && !device.spec_listening()
                && !device.spec_muted())),
    {
        if let DataFlow::All = dataflow {
            return Err(
                WindowsAudioError::new(
                    ErrorKind::InvalidArgument,
                    String::from_str("a default device is read for one direction"),
                ),
            );
        }
        let slot = slot_index(dataflow, Role::Console);
        match self.defaults[slot] {
            None => Err(
                WindowsAudioError::new(
                    ErrorKind::NoDefaultDevice,
                    String::from_str("no default device is designated for this direction"),
                ),
            ),
            Some(idx) => {
                let row = &self.endpoints[idx];
                Ok(AudioDevice::new(row.id.clone(), row.friendly_name.clone()))
            },
        }
    }

    /// Designates the endpoint with the given id as the default for its
    /// own direction under the given role. An id not in the table is the
    /// platform's rejection surface and fails with
    /// `PermissionOrStateError`.
    pub fn set_default_endpoint(&mut self, device_id: &str, role: Role) -> (outcome: Result<
        (),
        WindowsAudioError,
    >)
        requires
            old(self).wf(),
        ensures
            final(self).wf(),
            final(self).spec_endpoints() == old(self).spec_endpoints(),
            final(self).spec_registered() == old(self).spec_registered(),
            !spec_has_endpoint(old(self).spec_endpoints(), device_id@) ==> (outcome matches Err(e)
                && e.kind == ErrorKind::PermissionOrStateError) && *final(self) == *old(self),
            spec_has_endpoint(old(self).spec_endpoints(), device_id@) ==> outcome is Ok && (
            exists|i: int|
                0 <= i < old(self).spec_endpoints().len() && (#[trigger] old(self).spec_endpoints()[i]).id@ == device_id@
                    && final(self).spec_defaults() == old(self).spec_defaults().update(
                    spec_slot(old(self).spec_endpoints()[i].flow, role),
                    Some(i as usize),
                )),
    {
        let key = String::from_str(device_id);
        let mut i: usize = 0;
        while i < self.endpoints.len()
            invariant
                i <= self.endpoints@.len(),
                key@ == device_id@,
                *self == *old(self),
                forall|j: int| 0 <= j < i ==> (#[trigger] self.endpoints@[j]).id@ != device_id@,
            decreases self.endpoints@.len() - i,
        {
            if self.endpoints[i].id == key {
                let flow = self.endpoints[i].flow;
                let slot = slot_index(flow, role);
                self.defaults.set(slot, Some(i));
                return Ok(());
            }
            i = i + 1;
        }
        Err(
            WindowsAudioError::new(
                ErrorKind::PermissionOrStateError,
                String::from_str("the platform rejected the default-device change"),
            ),
        )
    }

    /// Registers a notification sink. A sink id already in the registry
    /// is rejected as `InvalidArgument`: one registration per sink.
    pub fn register_notification(&mut self, client: NotificationClient) -> (outcome: Result<
        (),
        WindowsAudioError,
    >)
        requires
            old(self).wf(),
        ensures
            final(self).wf(),
            final(self).spec_endpoints() == old(self).spec_endpoints(),
            final(self).spec_defaults() == old(self).spec_defaults(),
            old(self).spec_is_registered(client.sink_id) ==> (outcome matches Err(e) && e.kind
                == ErrorKind::InvalidArgument) && *final(self) == *old(self),
            !old(self).spec_is_registered(client.sink_id) ==> outcome is Ok
                && final(self).spec_registered() == old(self).spec_registered().push(client.sink_id),
    {
        let mut i: usize = 0;
        while i < self.clients.len()
            invariant
                i <= self.clients@.len(),
                forall|j: int| 0 <= j < i ==> (#[trigger] self.clients@[j]).sink_id != client.sink_id,
            decreases self.clients@.len() - i,
        {
            if self.clients[i].sink_id == client.sink_id {
                proof {
                    assert(self.spec_registered()[i as int] == client.sink_id);
                }
                return Err(
                    WindowsAudioError::new(
                        ErrorKind::InvalidArgument,
                        String::from_str("a sink with this id is already registered"),
                    ),
                );
            }
            i = i + 1;
        }
        proof {
            assert forall|j: int|
                0 <= j < old(self).spec_registered().len() implies old(self).spec_registered()[j]
                != client.sink_id by {
                assert(old(self).spec_registered()[j] == self.clients@[j].sink_id);
            }
        }
        self.clients.push(client);
        proof {
            assert(self.spec_registered() =~= old(self).spec_registered().push(client.sink_id));
        }
        Ok(())
    }

    /// Unregisters a sink by id. Unregistering a sink that was never
    /// registered, or was already unregistered, is a silent no-op, never
    /// an error: teardown paths may race with an explicit close.
    pub fn unregister_notification(&mut self, sink_id: u64) -> (outcome: Result<
        (),
        WindowsAudioError,
    >)
        requires
            old(self).wf(),
        ensures
            final(self).wf(),
            outcome is Ok,
            final(self).spec_endpoints() == old(self).spec_endpoints(),
            final(self).spec_defaults() == old(self).spec_defaults(),
            final(self).spec_registered() == old(self).spec_registered().remove_value(sink_id),
            !final(self).spec_is_registered(sink_id),
            !old(self).spec_is_registered(sink_id) ==> *final(self) == *old(self),
    {
        let ghost m = self.spec_registered();
        let mut i: usize = 0;
        while i < self.clients.len()
            invariant
                i <= self.clients@.len(),
                *self == *old(self),
                forall|j: int| 0 <= j < i ==> (#[trigger] self.clients@[j]).sink_id != sink_id,
            decreases self.clients@.len() - i,
        {
            if self.clients[i].sink_id == sink_id {
                proof {
                    assert(m[i as int] == sink_id);
                    assert(m.contains(sink_id));
                    m.index_of_first_ensures(sink_id);
                    assert forall|j: int| 0 <= j < i implies m[j] != sink_id by {
                        assert(m[j] == self.clients@[j].sink_id);
                    }
                    match m.index_of_first(sink_id) {
                        Some(k) => {
                            if k < i as int {
                                assert(m[k] != sink_id);
                            }
                            if k > i as int {
                                assert(m[i as int] != sink_id);
                            }
                            assert(k == i as int);
                        },
                        None => {},
                    }
                }
                self.clients.remove(i);
                proof {
                    assert(self.spec_registered() =~= m.remove(i as int)) by {
                        assert forall|t: int|
                            0 <= t < self.clients@.len() implies self.spec_registered()[t]
                            == m.remove(i as int)[t] by {
                            assert(self.spec_registered()[t] == self.clients@[t].sink_id);
                        }
                    }
                    assert(m.remove_value(sink_id) == m.remove(i as int));
                    assert forall|t: int|
                        0 <= t < self.spec_registered().len() implies self.spec_registered()[t]
                        != sink_id by {
                        if t >= i as int {
                            assert(m.remove(i as int)[t] == m[t + 1]);
                            assert(m[t + 1] == old(self).clients@[t + 1].sink_id);
                        }
                    }
                }
                return Ok(());
            }
            i = i + 1;
        }
        proof {
            assert forall|j: int| 0 <= j < m.len() implies m[j] != sink_id by {
                assert(m[j] == self.clients@[j].sink_id);
            }
            assert(!m.contains(sink_id));
            m.index_of_first_ensures(sink_id);
            match m.index_of_first(sink_id) {
                Some(_k) => {
                    assert(m.contains(sink_id));
                },
                None => {},
            }
            assert(m.remove_value(sink_id) == m);
        }
        Ok(())
    }

    /// Opens a collection-level event stream: builds a sink over a fresh
    /// bounded channel, registers it under `sink_id`, and returns the
    /// receiving half. The sink id must not already be registered.
    pub fn start_events(&mut self, sink_id: u64, capacity: usize) -> (stream: Result<
        async_std::channel::Receiver<Result<DeviceNotificationEvent, WindowsAudioError>>,
        WindowsAudioError,
    >)
        requires
            old(self).wf(),
            capacity >= 1,
        ensures
            final(self).wf(),
            final(self).spec_endpoints() == old(self).spec_endpoints(),
            final(self).spec_defaults() == old(self).spec_defaults(),
            old(self).spec_is_registered(sink_id) ==> (stream matches Err(e) && e.kind
                == ErrorKind::InvalidArgument) && *final(self) == *old(self),
            !old(self).spec_is_registered(sink_id) ==> stream is Ok
                && final(self).spec_registered() == old(self).spec_registered().push(sink_id),
    {
        let (sender, receiver) = channel_bounded(capacity);
        let client = NotificationClient::new(sink_id, sender);
        match self.register_notification(client) {
            Ok(_) => Ok(receiver),
            Err(e) => Err(e),
        }
    }

    /// Drives every registered sink with one raw state-change callback,
    /// in registration order, as the platform does when a device's state
    /// changes.
    pub fn notify_device_state_changed(&self, device_id: &str, new_state: u32) {
        let mut i: usize = 0;
        while i < self.clients.len()
            invariant
                i <= self.clients@.len(),
            decreases self.clients@.len() - i,
        {
            let _ = self.clients[i].on_device_state_changed(String::from_str(device_id), new_state);
            i = i + 1;
        }
    }

    /// Drives every registered sink with one device-added callback.
    pub fn notify_device_added(&self, device_id: &str) {
        let mut i: usize = 0;
        while i < self.clients.len()
            invariant
                i <= self.clients@.len(),
            decreases self.clients@.len() - i,
        {
            let _ = self.clients[i].on_device_added(String::from_str(device_id));
            i = i + 1;
        }
    }

    /// Drives every registered sink with one device-removed callback.
    pub fn notify_device_removed(&self, device_id: &str) {
        let mut i: usize = 0;
        while i < self.clients.len()
            invariant
                i <= self.clients@.len(),
            decreases self.clients@.len() - i,
        {
            let _ = self.clients[i].on_device_removed(String::from_str(device_id));
            i = i + 1;
        }
    }

    /// Drives every registered sink with one default-device change
    /// callback.
    pub fn notify_default_device_changed(&self, raw_flow: i32, raw_role: i32, device_id: &str) {
        let mut i: usize = 0;
        while i < self.clients.len()
            invariant
                i <= self.clients@.len(),
            decreases self.clients@.len() - i,
        {
            let _ = self.clients[i].on_default_device_changed(
                raw_flow,
                raw_role,
                String::from_str(device_id),
            );
            i = i + 1;
        }
    }
}

/// Pushing an element and filtering is filtering and then deciding the
/// pushed element.
proof fn lemma_filtered_push(
    endpoints: Seq<EndpointInfo>,
    endpoint: EndpointInfo,
    dataflow: DataFlow,
    state_mask: DeviceState,
)
    ensures
        spec_filtered_endpoints(endpoints.push(endpoint), dataflow, state_mask)
            == if spec_matches_filter(endpoint, dataflow, state_mask) {
            spec_filtered_endpoints(endpoints, dataflow, state_mask).push(endpoint)
        } else {
            spec_filtered_endpoints(endpoints, dataflow, state_mask)
        },
{
    reveal_with_fuel(Seq::filter, 2);
    assert(endpoints.push(endpoint).drop_last() =~= endpoints);
    assert(endpoints.push(endpoint).last() == endpoint);
}

/// Tearing a stream down restores the registry: registering a sink that
/// was not registered and then unregistering it leaves exactly the
/// registrations that existed before.
pub proof fn lemma_register_unregister_roundtrip(registered: Seq<u64>, sink_id: u64)
    requires
        !registered.contains(sink_id),
    ensures
        registered.push(sink_id).remove_value(sink_id) == registered,
{
    let s = registered.push(sink_id);
    assert(s[registered.len() as int] == sink_id);
    assert(s.contains(sink_id));
    s.index_of_first_ensures(sink_id);
    match s.index_of_first(sink_id) {
        Some(k) => {
            if k < registered.len() {
                assert(s[k] == registered[k]);
                assert(registered.contains(sink_id));
            }
            assert(k == registered.len());
            assert(s.remove(k) =~= registered);
        },
        None => {},
    }
}

/// Unregistering is idempotent on a registry of distinct sinks: removing
/// a sink a second time finds nothing and changes nothing.
pub proof fn lemma_unregister_idempotent(registered: Seq<u64>, sink_id: u64)
    requires
        forall|i: int, j: int|
            0 <= i < j < registered.len() ==> (#[trigger] registered[i]) != (
            #[trigger] registered[j]),
    ensures
        registered.remove_value(sink_id).remove_value(sink_id) == registered.remove_value(sink_id),
{
    registered.index_of_first_ensures(sink_id);
    match registered.index_of_first(sink_id) {
        None => {},
        Some(k) => {
            let once = registered.remove(k);
            assert forall|t: int| 0 <= t < once.len() implies once[t] != sink_id by {
                if t < k {
                    assert(once[t] == registered[t]);
                } else {
                    assert(once[t] == registered[t + 1]);
                }
            }
            assert(!once.contains(sink_id));
            once.index_of_first_ensures(sink_id);
            match once.index_of_first(sink_id) {
                Some(_t) => {
                    assert(once.contains(sink_id));
                },
                None => {},
            }
            assert(once.remove_value(sink_id) == once);
        },
    }
}

} // verus!
