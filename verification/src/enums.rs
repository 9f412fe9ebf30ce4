//! Direction, role and state classifications for audio endpoints, with the
//! raw platform encodings they are read from and written to.

use vstd::prelude::*;

verus! {

/// Raw state bit: the endpoint is present and streaming-capable.
pub const DEVICE_STATE_ACTIVE: u32 = 0x1;

/// Raw state bit: the endpoint has been disabled by the user.
pub const DEVICE_STATE_DISABLED: u32 = 0x2;

/// Raw state bit: the endpoint's device is not present.
pub const DEVICE_STATE_NOTPRESENT: u32 = 0x4;

/// Raw state bit: the endpoint's jack is unplugged.
pub const DEVICE_STATE_UNPLUGGED: u32 = 0x8;

/// Union of every defined state bit.
pub const DEVICE_STATEMASK_ALL: u32 = 0xF;

/// Direction classification of an endpoint: playback, recording, or both.
#[derive(Clone, Copy, Debug, PartialEq, Eq, Structural)]
pub enum DataFlow {
    Render,
    Capture,
    All,
}

impl DataFlow {
    /// The raw value the platform uses for this flow.
    pub open spec fn spec_to_raw(self) -> i32 {
        match self {
            DataFlow::Render => 0,
            DataFlow::Capture => 1,
            DataFlow::All => 2,
        }
    }

    /// The flow a raw platform value stands for, if any.
    pub open spec fn spec_from_raw(raw: i32) -> Option<DataFlow> {
        if raw == 0 {
            Some(DataFlow::Render)
        } else if raw == 1 {
            Some(DataFlow::Capture)
        } else if raw == 2 {
            Some(DataFlow::All)
        } else {
            None
        }
    }

    pub fn to_raw(self) -> (raw: i32)
        ensures
            raw == self.spec_to_raw(),
    {
        match self {
            DataFlow::Render => 0,
            DataFlow::Capture => 1,
            DataFlow::All => 2,
        }
    }

    pub fn from_raw(raw: i32) -> (flow: Option<DataFlow>)
        ensures
            flow == Self::spec_from_raw(raw),
    {
        if raw == 0 {
            Some(DataFlow::Render)
        } else if raw == 1 {
            Some(DataFlow::Capture)
        } else if raw == 2 {
            Some(DataFlow::All)
        } else {
            None
        }
    }
}

/// Usage class a default endpoint is designated for.
#[derive(Clone, Copy, Debug, PartialEq, Eq, Structural)]
pub enum Role {
    Console,
    Multimedia,
    Communications,
}

impl Role {
    /// The raw value the platform uses for this role.
    pub open spec fn spec_to_raw(self) -> i32 {
        match self {
            Role::Console => 0,
            Role::Multimedia => 1,
            Role::Communications => 2,
        }
    }

    /// The role a raw platform value stands for, if any.
    pub open spec fn spec_from_raw(raw: i32) -> Option<Role> {
        if raw == 0 {
            Some(Role::Console)
        } else if raw == 1 {
            Some(Role::Multimedia)
        } else if raw == 2 {
            Some(Role::Communications)
        } else {
            None
        }
    }

    pub fn to_raw(self) -> (raw: i32)
        ensures
            raw == self.spec_to_raw(),
    {
        match self {
            Role::Console => 0,
            Role::Multimedia => 1,
            Role::Communications => 2,
        }
    }

    pub fn from_raw(raw: i32) -> (role: Option<Role>)
        ensures
            role == Self::spec_from_raw(raw),
    {
        if raw == 0 {
            Some(Role::Console)
        } else if raw == 1 {
            Some(Role::Multimedia)
        } else if raw == 2 {
            Some(Role::Communications)
        } else {
            None
        }
    }
}

/// A set of endpoint states, kept as the platform's bitmask encoding.
///
/// A single endpoint is in exactly one state (one bit); a filter is any
/// union of state bits.
#[derive(Clone, Copy, Debug, PartialEq, Eq, Structural)]
pub struct DeviceState {
    pub bits: u32,
}

impl DeviceState {
    /// A raw mask is valid when it holds no undefined bits.
    pub open spec fn spec_valid_bits(raw: u32) -> bool {
        raw & DEVICE_STATEMASK_ALL == raw
    }

    pub fn active() -> (s: DeviceState)
        ensures
            s.bits == DEVICE_STATE_ACTIVE,
    {
        DeviceState { bits: DEVICE_STATE_ACTIVE }
    }

    pub fn disabled() -> (s: DeviceState)
        ensures
            s.bits == DEVICE_STATE_DISABLED,
    {
        DeviceState { bits: DEVICE_STATE_DISABLED }
    }

    pub fn not_present() -> (s: DeviceState)
        ensures
            s.bits == DEVICE_STATE_NOTPRESENT,
    {
        DeviceState { bits: DEVICE_STATE_NOTPRESENT }
    }

    pub fn unplugged() -> (s: DeviceState)
        ensures
            s.bits == DEVICE_STATE_UNPLUGGED,
    {
        DeviceState { bits: DEVICE_STATE_UNPLUGGED }
    }

    /// The mask matching every state.
    pub fn all() -> (s: DeviceState)
        ensures
            s.bits == DEVICE_STATEMASK_ALL,
    {
        DeviceState { bits: DEVICE_STATEMASK_ALL }
    }

    /// The raw bitmask of this set.
    pub fn bits(self) -> (raw: u32)
        ensures
            raw == self.bits,
    {
        self.bits
    }

    /// Reads a raw mask exactly: `None` when it holds undefined bits.
    pub fn from_bits(raw: u32) -> (s: Option<DeviceState>)
        ensures
            Self::spec_valid_bits(raw) ==> s == Some(DeviceState { bits: raw }),
            !Self::spec_valid_bits(raw) ==> s is None,
    {
        if raw & DEVICE_STATEMASK_ALL == raw {
            Some(DeviceState { bits: raw })
        } else {
            None
        }
    }

    /// Reads a raw mask, dropping any undefined bits.
    pub fn from_bits_truncate(raw: u32) -> (s: DeviceState)
        ensures
            s.bits == raw & DEVICE_STATEMASK_ALL,
    {
        DeviceState { bits: raw & DEVICE_STATEMASK_ALL }
    }

    /// Whether every state in `other` is also in `self`.
    pub open spec fn spec_contains(self, other: DeviceState) -> bool {
        self.bits & other.bits == other.bits
    }

    pub fn contains(self, other: DeviceState) -> (r: bool)
        ensures
            r == self.spec_contains(other),
    {
        self.bits & other.bits == other.bits
    }

    /// Whether some state is in both sets.
    pub open spec fn spec_intersects(self, other: DeviceState) -> bool {
        self.bits & other.bits != 0
    }

    pub fn intersects(self, other: DeviceState) -> (r: bool)
        ensures
            r == self.spec_intersects(other),
    {
        self.bits & other.bits != 0
    }

    /// The union of the two sets.
    pub fn union(self, other: DeviceState) -> (s: DeviceState)
        ensures
            s.bits == self.bits | other.bits,
    {
        DeviceState { bits: self.bits | other.bits }
    }

    /// The display name of a single state bit (or of the full mask).
    ///
    /// Only the five defined values have a name; other unions are excluded,
    /// as the caller is expected to pass one state read from an endpoint.
    pub fn py_name(self) -> (name: &'static str)
        requires
            self.bits == DEVICE_STATE_ACTIVE
                || self.bits == DEVICE_STATE_DISABLED
                || self.bits == DEVICE_STATE_NOTPRESENT
                || self.bits == DEVICE_STATE_UNPLUGGED
                || self.bits == DEVICE_STATEMASK_ALL,
        ensures
            self.bits == DEVICE_STATE_ACTIVE ==> name@ == "ACTIVE"@,
            self.bits == DEVICE_STATE_DISABLED ==> name@ == "DISABLED"@,
            self.bits == DEVICE_STATE_NOTPRESENT ==> name@ == "NOT_PRESENT"@,
            self.bits == DEVICE_STATE_UNPLUGGED ==> name@ == "UNPLUGGED"@,
            self.bits == DEVICE_STATEMASK_ALL ==> name@ == "ALL"@,
    {
        if self.bits == DEVICE_STATE_ACTIVE {
            "ACTIVE"
        } else if self.bits == DEVICE_STATE_DISABLED {
            "DISABLED"
        } else if self.bits == DEVICE_STATE_NOTPRESENT {
            "NOT_PRESENT"
        } else if self.bits == DEVICE_STATE_UNPLUGGED {
            "UNPLUGGED"
        } else {
            "ALL"
        }
    }
}

} // verus!
