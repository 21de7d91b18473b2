//! The host simulator's plugin interface: key, sound and handle codes, the
//! per-tick vehicle state, and the event trait that a plugin implements.
use vstd::prelude::*;

verus! {

/// What `get_plugin_version` returns: the interface version this plugin follows.
pub const ATS_VERSION: i32 = 0x00020000;

/// Number of panel slots the host hands to `elapse`.
pub const PANEL_SIZE: usize = 256;

/// Number of sound slots the host hands to `elapse`.
pub const SOUND_SIZE: usize = 256;

/// Host key codes.
#[derive(Clone, Copy, Debug, PartialEq, Eq, Structural)]
pub enum AtsKey {
    S,
    A1,
    A2,
    B1,
    B2,
    C1,
    C2,
    D,
    E,
    F,
    G,
    H,
    I,
    J,
    K,
    L,
    /// A code outside `0..=15`.
    Unknown,
}

pub open spec fn key_of_code(v: int) -> AtsKey {
    if v == 0 { AtsKey::S }
    else if v == 1 { AtsKey::A1 }
    else if v == 2 { AtsKey::A2 }
    else if v == 3 { AtsKey::B1 }
    else if v == 4 { AtsKey::B2 }
    else if v == 5 { AtsKey::C1 }
    else if v == 6 { AtsKey::C2 }
    else if v == 7 { AtsKey::D }
    else if v == 8 { AtsKey::E }
    else if v == 9 { AtsKey::F }
    else if v == 10 { AtsKey::G }
    else if v == 11 { AtsKey::H }
    else if v == 12 { AtsKey::I }
    else if v == 13 { AtsKey::J }
    else if v == 14 { AtsKey::K }
    else if v == 15 { AtsKey::L }
    else { AtsKey::Unknown }
}

impl From<i32> for AtsKey {
    fn from(value: i32) -> (r: Self)
        ensures
            r == key_of_code(value as int),
    {
        match value {
            0 => AtsKey::S,
            1 => AtsKey::A1,
            2 => AtsKey::A2,
            3 => AtsKey::B1,
            4 => AtsKey::B2,
            5 => AtsKey::C1,
            6 => AtsKey::C2,
            7 => AtsKey::D,
            8 => AtsKey::E,
            9 => AtsKey::F,
            10 => AtsKey::G,
            11 => AtsKey::H,
            12 => AtsKey::I,
            13 => AtsKey::J,
            14 => AtsKey::K,
            15 => AtsKey::L,
            _ => AtsKey::Unknown,
        }
    }
}

impl vstd::std_specs::convert::FromSpecImpl<i32> for AtsKey {
    open spec fn obeys_from_spec() -> bool {
        true
    }

    open spec fn from_spec(v: i32) -> AtsKey {
        key_of_code(v as int)
    }
}

/// Position of the brake valve when a run starts.
#[derive(Clone, Copy, Debug, PartialEq, Eq, Structural)]
pub enum AtsInit {
    /// Handle removed (code 2).
    Removed,
    /// Emergency position (code 1).
    Emg,
    /// Service position (code 0).
    Svc,
    /// Any other code.
    Unknown,
}

pub open spec fn init_of_code(v: int) -> AtsInit {
    if v == 0 { AtsInit::Svc }
    else if v == 1 { AtsInit::Emg }
    else if v == 2 { AtsInit::Removed }
    else { AtsInit::Unknown }
}

impl From<i32> for AtsInit {
    fn from(value: i32) -> (r: Self)
        ensures
            r == init_of_code(value as int),
    {
        match value {
            0 => AtsInit::Svc,
            1 => AtsInit::Emg,
            2 => AtsInit::Removed,
            _ => AtsInit::Unknown,
        }
    }
}

impl vstd::std_specs::convert::FromSpecImpl<i32> for AtsInit {
    open spec fn obeys_from_spec() -> bool {
        true
    }

    open spec fn from_spec(v: i32) -> AtsInit {
        init_of_code(v as int)
    }
}

/// A command for one sound slot.
#[derive(Clone, Copy, Debug, PartialEq, Eq, Structural)]
pub enum AtsSound {
    /// Stop (code -10000).
    Stop,
    /// Play once (code 1).
    Play,
    /// Play in a loop (code 0).
    PlayLooping,
    /// Keep the current state (code 2).
    Continue,
    /// Any other code.
    Unknown,
}

pub open spec fn sound_of_code(v: int) -> AtsSound {
    if v == -10000 { AtsSound::Stop }
    else if v == 0 { AtsSound::PlayLooping }
    else if v == 1 { AtsSound::Play }
    else if v == 2 { AtsSound::Continue }
    else { AtsSound::Unknown }
}

pub open spec fn sound_code(s: AtsSound) -> int {
    match s {
        AtsSound::Stop => -10000,
        AtsSound::Play => 1,
        AtsSound::PlayLooping => 0,
        AtsSound::Continue => 2,
        AtsSound::Unknown => -1,
    }
}

impl AtsSound {
    /// The host code of this command.
    pub fn code(&self) -> (r: i32)
        ensures
            r == sound_code(*self),
    {
        match self {
            AtsSound::Stop => -10000,
            AtsSound::Play => 1,
            AtsSound::PlayLooping => 0,
            AtsSound::Continue => 2,
            AtsSound::Unknown => -1,
        }
    }
}

impl From<i32> for AtsSound {
    fn from(value: i32) -> (r: Self)
        ensures
            r == sound_of_code(value as int),
    {
        match value {
            -10000 => AtsSound::Stop,
            0 => AtsSound::PlayLooping,
            1 => AtsSound::Play,
            2 => AtsSound::Continue,
            _ => AtsSound::Unknown,
        }
    }
}

impl vstd::std_specs::convert::FromSpecImpl<i32> for AtsSound {
    open spec fn obeys_from_spec() -> bool {
        true
    }

    open spec fn from_spec(v: i32) -> AtsSound {
        sound_of_code(v as int)
    }
}

/// Horn kinds.
#[derive(Clone, Copy, Debug, PartialEq, Eq, Structural)]
pub enum AtsHorn {
    Primary,
    Secondary,
    Music,
    Unknown,
}

pub open spec fn horn_of_code(v: int) -> AtsHorn {
    if v == 0 { AtsHorn::Primary }
    else if v == 1 { AtsHorn::Secondary }
    else if v == 2 { AtsHorn::Music }
    else { AtsHorn::Unknown }
}

impl From<i32> for AtsHorn {
    fn from(value: i32) -> (r: Self)
        ensures
            r == horn_of_code(value as int),
    {
        match value {
            0 => AtsHorn::Primary,
            1 => AtsHorn::Secondary,
            2 => AtsHorn::Music,
            _ => AtsHorn::Unknown,
        }
    }
}

impl vstd::std_specs::convert::FromSpecImpl<i32> for AtsHorn {
    open spec fn obeys_from_spec() -> bool {
        true
    }

    open spec fn from_spec(v: i32) -> AtsHorn {
        horn_of_code(v as int)
    }
}

/// The constant-speed flag handed back to the host.
#[derive(Clone, Copy, Debug, PartialEq, Eq, Structural)]
pub enum AtsConstantSpeed {
    /// Keep the current state (code 0).
    Continue,
    /// Start holding speed (code 1).
    Enable,
    /// Stop holding speed (code 2).
    Disable,
    /// Any other code.
    Unknown,
}

pub const CONSTANT_CONTINUE: i32 = 0;
pub const CONSTANT_ENABLE: i32 = 1;
pub const CONSTANT_DISABLE: i32 = 2;

pub open spec fn constant_of_code(v: int) -> AtsConstantSpeed {
    if v == 0 { AtsConstantSpeed::Continue }
    else if v == 1 { AtsConstantSpeed::Enable }
    else if v == 2 { AtsConstantSpeed::Disable }
    else { AtsConstantSpeed::Unknown }
}

impl From<i32> for AtsConstantSpeed {
    fn from(value: i32) -> (r: Self)
        ensures
            r == constant_of_code(value as int),
    {
        match value {
            0 => AtsConstantSpeed::Continue,
            1 => AtsConstantSpeed::Enable,
            2 => AtsConstantSpeed::Disable,
            _ => AtsConstantSpeed::Unknown,
        }
    }
}

impl vstd::std_specs::convert::FromSpecImpl<i32> for AtsConstantSpeed {
    open spec fn obeys_from_spec() -> bool {
        true
    }

    open spec fn from_spec(v: i32) -> AtsConstantSpeed {
        constant_of_code(v as int)
    }
}

impl Default for AtsConstantSpeed {
    fn default() -> (r: Self)
        ensures
            r == AtsConstantSpeed::Continue,
    {
        Self::Continue
    }
}

/// Vehicle specification given by the host.
#[derive(Clone, Copy, Debug, Default)]
pub struct AtsVehicleSpec {
    /// Number of brake notches.
    pub brake_notches: i32,
    /// Number of power notches.
    pub power_notches: i32,
    /// The ATS confirmation notch.
    pub ats_notch: i32,
    /// The notch that matches a 67-degree brake valve position.
    pub b67_notch: i32,
    /// Number of cars.
    pub cars: i32,
}

/// The vehicle state of one tick.
#[derive(Clone, Copy, Debug, Default)]
pub struct AtsVehicleState {
    /// Train position, in mm.
    pub location: i64,
    /// Train speed, in thousandths of km/h.
    pub speed: i32,
    /// Current time, in ms.
    pub time: i32,
}

/// A beacon passed by the train.
#[derive(Clone, Copy, Debug, Default)]
pub struct AtsBeaconData {
    /// Beacon kind.
    pub beacon_type: i32,
    /// Signal of the section the beacon refers to.
    pub signal: i32,
    /// Distance to that section, in mm.
    pub distance: i32,
    /// The beacon's free value.
    pub optional: i32,
}

/// The handle positions handed back to the host.
#[derive(Clone, Copy, Debug, PartialEq, Eq, Structural)]
pub struct AtsHandles {
    /// Brake notch.
    pub brake: i32,
    /// Power notch.
    pub power: i32,
    /// Reverser position.
    pub reverser: i32,
    /// Constant-speed flag code.
    pub constant_speed: i32,
}

impl Default for AtsHandles {
    fn default() -> (r: Self)
        ensures
            r == (AtsHandles { brake: 0, power: 0, reverser: 0, constant_speed: 0 }),
    {
        AtsHandles { brake: 0, power: 0, reverser: 0, constant_speed: 0 }
    }
}

/// The events a plugin receives from the host. `wf` is the plugin's own
/// invariant, which every event keeps.
pub trait BveAts {
    spec fn wf(&self) -> bool;

    fn load(&mut self)
        requires
            old(self).wf(),
        ensures
            final(self).wf(),
    ;

    fn dispose(&mut self)
        requires
            old(self).wf(),
        ensures
            final(self).wf(),
    ;

    fn get_plugin_version(&mut self) -> (r: i32)
        requires
            old(self).wf(),
        ensures
            final(self).wf(),
    ;

    fn set_vehicle_spec(&mut self, spec: AtsVehicleSpec)
        requires
            old(self).wf(),
        ensures
            final(self).wf(),
    ;

    fn initialize(&mut self, handle: AtsInit)
        requires
            old(self).wf(),
        ensures
            final(self).wf(),
    ;

    fn elapse(&mut self, state: AtsVehicleState, panel: &mut [i32], sound: &mut [i32]) -> (r: AtsHandles)
        requires
            old(self).wf(),
            old(panel)@.len() >= PANEL_SIZE,
            old(sound)@.len() >= SOUND_SIZE,
        ensures
            final(self).wf(),
            final(panel)@.len() == old(panel)@.len(),
            final(sound)@.len() == old(sound)@.len(),
    ;

    fn set_power(&mut self, notch: i32)
        requires
            old(self).wf(),
        ensures
            final(self).wf(),
    ;

    fn set_brake(&mut self, notch: i32)
        requires
            old(self).wf(),
        ensures
            final(self).wf(),
    ;

    fn set_reverser(&mut self, notch: i32)
        requires
            old(self).wf(),
        ensures
            final(self).wf(),
    ;

    fn key_down(&mut self, key: AtsKey)
        requires
            old(self).wf(),
        ensures
            final(self).wf(),
    ;

    fn key_up(&mut self, key: AtsKey)
        requires
            old(self).wf(),
        ensures
            final(self).wf(),
    ;

    fn horn_blow(&mut self, horn_type: AtsHorn)
        requires
            old(self).wf(),
        ensures
            final(self).wf(),
    ;

    fn door_open(&mut self)
        requires
            old(self).wf(),
        ensures
            final(self).wf(),
    ;

    fn door_close(&mut self)
        requires
            old(self).wf(),
        ensures
            final(self).wf(),
    ;

    fn set_signal(&mut self, signal: i32)
        requires
            old(self).wf(),
        ensures
            final(self).wf(),
    ;

    fn set_beacon_data(&mut self, data: AtsBeaconData)
        requires
            old(self).wf(),
        ensures
            final(self).wf(),
    ;
}

/// A plugin that only hands the driver's handles back.
#[derive(Clone, Copy, Debug, Default)]
pub struct EmptyAts {
    power: i32,
    brake: i32,
    reverser: i32,
}

impl EmptyAts {
    pub fn new() -> (r: Self)
        ensures
            r.power_spec() == 0,
            r.brake_spec() == 0,
            r.reverser_spec() == 0,
    {
        EmptyAts { power: 0, brake: 0, reverser: 0 }
    }

    pub closed spec fn power_spec(&self) -> i32 {
        self.power
    }

    pub closed spec fn brake_spec(&self) -> i32 {
        self.brake
    }

    pub closed spec fn reverser_spec(&self) -> i32 {
        self.reverser
    }
}

impl BveAts for EmptyAts {
    open spec fn wf(&self) -> bool {
        true
    }

    fn load(&mut self) {
    }

    fn dispose(&mut self) {
    }

    fn get_plugin_version(&mut self) -> (r: i32)
        ensures
            r == ATS_VERSION,
    {
        ATS_VERSION
    }

    fn set_vehicle_spec(&mut self, spec: AtsVehicleSpec) {
    }

    fn initialize(&mut self, handle: AtsInit) {
    }

    fn elapse(&mut self, state: AtsVehicleState, panel: &mut [i32], sound: &mut [i32]) -> (r: AtsHandles)
        ensures
            r == (AtsHandles {
                brake: old(self).brake_spec(),
                power: old(self).power_spec(),
                reverser: old(self).reverser_spec(),
                constant_speed: CONSTANT_CONTINUE,
            }),
            *final(self) == *old(self),
    {
        AtsHandles { brake: self.brake, power: self.power, reverser: self.reverser, constant_speed: 0 }
    }

    fn set_power(&mut self, notch: i32)
        ensures
            final(self).power_spec() == notch,
            final(self).brake_spec() == old(self).brake_spec(),
            final(self).reverser_spec() == old(self).reverser_spec(),
    {
        self.power = notch;
    }

    fn set_brake(&mut self, notch: i32)
        ensures
            final(self).brake_spec() == notch,
            final(self).power_spec() == old(self).power_spec(),
            final(self).reverser_spec() == old(self).reverser_spec(),
    {
        self.brake = notch;
    }

    fn set_reverser(&mut self, notch: i32)
        ensures
            final(self).reverser_spec() == notch,
            final(self).power_spec() == old(self).power_spec(),
            final(self).brake_spec() == old(self).brake_spec(),
    {
        self.reverser = notch;
    }

    fn key_down(&mut self, key: AtsKey) {
    }

    fn key_up(&mut self, key: AtsKey) {
    }

    fn horn_blow(&mut self, horn_type: AtsHorn) {
    }

    fn door_open(&mut self) {
    }

    fn door_close(&mut self) {
    }

    fn set_signal(&mut self, signal: i32) {
    }

    fn set_beacon_data(&mut self, data: AtsBeaconData) {
    }
}

} // verus!
