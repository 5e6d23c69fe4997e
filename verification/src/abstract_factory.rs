//! IoT device control demo, solved with the abstract factory pattern.
//!
//! A device family (Samsung, Philips) acts as a factory for devices that all
//! carry the family's configuration: a light bulb with a boolean on/off state,
//! and a fan with a discrete speed in `{0..5}` that counts as "on" exactly
//! when its speed is above zero.

use vstd::prelude::*;

verus! {

/// A device control failure. The toy devices themselves never fail; the one
/// failure actually produced is selecting an unknown device family.
#[derive(Clone, Copy, PartialEq, Eq, Structural, Debug)]
pub enum DeviceError {
    UnknownFamily,
}

/// The closed set of supported device families.
#[derive(Clone, Copy, PartialEq, Eq, Structural, Debug)]
pub enum DeviceFamily {
    Samsung,
    Philips,
}

/// An IP address as plain values: illustrative metadata only, never dialed.
#[derive(Clone, Copy, PartialEq, Eq, Structural, Debug)]
pub enum IpAddress {
    V4(u8, u8, u8, u8),
    V6(u16, u16, u16, u16, u16, u16, u16, u16),
}

/// A discrete fan speed level, totally ordered from `Speed0` to `Speed5`.
#[derive(Clone, Copy, PartialEq, Eq, Structural, Debug)]
pub enum FanSpeed {
    Speed0,
    Speed1,
    Speed2,
    Speed3,
    Speed4,
    Speed5,
}

impl FanSpeed {
    /// The numeric level of this speed, in `{0..5}`.
    pub open spec fn level(self) -> int {
        match self {
            FanSpeed::Speed0 => 0,
            FanSpeed::Speed1 => 1,
            FanSpeed::Speed2 => 2,
            FanSpeed::Speed3 => 3,
            FanSpeed::Speed4 => 4,
            FanSpeed::Speed5 => 5,
        }
    }

    /// Every fan speed lies in the closed set `{0..5}`.
    pub proof fn lemma_level_in_range(self)
        ensures
            0 <= self.level() <= 5,
    {
    }
}

/// A switchable light bulb: `switch` assigns the on/off state and always
/// succeeds, `is_switched_on` reports it.
pub trait LightBulb: Sized {
    /// Whether the bulb is currently on.
    spec fn is_on(&self) -> bool;

    /// Whether two bulb states carry the same family configuration.
    spec fn same_config(&self, other: &Self) -> bool;

    fn is_switched_on(&self) -> (r: Result<bool, DeviceError>)
        ensures
            r == Ok::<bool, DeviceError>(self.is_on()),
    ;

    fn switch(&mut self, command: bool) -> (r: Result<bool, DeviceError>)
        ensures
            final(self).is_on() == command,
            old(self).same_config(final(self)),
            r == Ok::<bool, DeviceError>(true),
    ;
}

/// A fan with a discrete speed: `switch` assigns the speed and always
/// succeeds, and the fan counts as on exactly when its speed is above zero.
pub trait Fan: Sized {
    /// The fan's current speed level, in `{0..5}`.
    spec fn level(&self) -> int;

    /// Whether two fan states carry the same family configuration.
    spec fn same_config(&self, other: &Self) -> bool;

    fn is_switched_on(&self) -> (r: Result<bool, DeviceError>)
        ensures
            r == Ok::<bool, DeviceError>(self.level() > 0),
    ;

    fn switch(&mut self, command: FanSpeed) -> (r: Result<bool, DeviceError>)
        ensures
            final(self).level() == command.level(),
            old(self).same_config(final(self)),
            r == Ok::<bool, DeviceError>(true),
    ;
}

/// A device family's factory: it creates devices that start switched off and
/// carry the family's configuration.
pub trait DeviceFactory: Sized {
    type Bulb: LightBulb;
    type FanDevice: Fan;

    /// Whether `b` is a device this factory just created: switched off, with
    /// this factory's configuration.
    spec fn fresh_bulb(&self, b: &Self::Bulb) -> bool;

    /// Whether `f` is a fan this factory just created: at speed zero, with
    /// this factory's configuration.
    spec fn fresh_fan(&self, f: &Self::FanDevice) -> bool;

    fn create_light_bulb(&self) -> (r: Result<Self::Bulb, DeviceError>)
        ensures
            r matches Ok(b) && self.fresh_bulb(&b) && !b.is_on(),
    ;

    fn create_fan(&self) -> (r: Result<Self::FanDevice, DeviceError>)
        ensures
            r matches Ok(f) && self.fresh_fan(&f) && f.level() == 0,
    ;
}

/// The Philips family configuration, shared by every Philips device.
#[derive(Debug)]
pub struct PhilipsSensor {
    pub brand: String,
    pub ip: IpAddress,
    pub port: u16,
}

impl Clone for PhilipsSensor {
    fn clone(&self) -> (r: Self)
        ensures
            r == *self,
    {
        PhilipsSensor { brand: self.brand.clone(), ip: self.ip, port: self.port }
    }
}

/// A Philips light bulb: a boolean state beside the shared configuration.
#[derive(Debug)]
pub struct PhilipsLightBulb {
    pub sensor_config: PhilipsSensor,
    pub state: bool,
}

impl LightBulb for PhilipsLightBulb {
    open spec fn is_on(&self) -> bool {
        self.state
    }

    open spec fn same_config(&self, other: &Self) -> bool {
        self.sensor_config == other.sensor_config
    }

    fn is_switched_on(&self) -> (r: Result<bool, DeviceError>) {
        Ok(self.state)
    }

    fn switch(&mut self, command: bool) -> (r: Result<bool, DeviceError>) {
        self.state = command;
        Ok(true)
    }
}

/// A Philips fan: a speed level beside the shared configuration.
#[derive(Debug)]
pub struct PhilipsFan {
    pub sensor_config: PhilipsSensor,
    pub state: FanSpeed,
}

impl Fan for PhilipsFan {
    open spec fn level(&self) -> int {
        self.state.level()
    }

    open spec fn same_config(&self, other: &Self) -> bool {
        self.sensor_config == other.sensor_config
    }

    fn is_switched_on(&self) -> (r: Result<bool, DeviceError>) {
        match self.state {
            FanSpeed::Speed0 => Ok(false),
            _ => Ok(true),
        }
    }

    fn switch(&mut self, command: FanSpeed) -> (r: Result<bool, DeviceError>) {
        self.state = command;
        Ok(true)
    }
}

impl DeviceFactory for PhilipsSensor {
    type Bulb = PhilipsLightBulb;

    type FanDevice = PhilipsFan;

    open spec fn fresh_bulb(&self, b: &PhilipsLightBulb) -> bool {
        b.sensor_config == *self && !b.state
    }

    open spec fn fresh_fan(&self, f: &PhilipsFan) -> bool {
        f.sensor_config == *self && f.state == FanSpeed::Speed0
    }

    fn create_light_bulb(&self) -> (r: Result<PhilipsLightBulb, DeviceError>) {
        Ok(PhilipsLightBulb { sensor_config: self.clone(), state: false })
    }

    fn create_fan(&self) -> (r: Result<PhilipsFan, DeviceError>) {
        Ok(PhilipsFan { sensor_config: self.clone(), state: FanSpeed::Speed0 })
    }
}

/// The Samsung family configuration, shared by every Samsung device.
#[derive(Debug)]
pub struct SamsungSensor {
    pub brand: String,
    pub ip: IpAddress,
    pub port: u16,
}

impl Clone for SamsungSensor {
    fn clone(&self) -> (r: Self)
        ensures
            r == *self,
    {
        SamsungSensor { brand: self.brand.clone(), ip: self.ip, port: self.port }
    }
}

/// A Samsung light bulb: a boolean state beside the shared configuration.
#[derive(Debug)]
pub struct SamsungLightBulb {
    pub sensor_config: SamsungSensor,
    pub state: bool,
}

impl LightBulb for SamsungLightBulb {
    open spec fn is_on(&self) -> bool {
        self.state
    }

    open spec fn same_config(&self, other: &Self) -> bool {
        self.sensor_config == other.sensor_config
    }

    fn is_switched_on(&self) -> (r: Result<bool, DeviceError>) {
        Ok(self.state)
    }

    fn switch(&mut self, command: bool) -> (r: Result<bool, DeviceError>) {
        self.state = command;
        Ok(true)
    }
}

/// A Samsung fan: a speed level beside the shared configuration.
#[derive(Debug)]
pub struct SamsungFan {
    pub sensor_config: SamsungSensor,
    pub state: FanSpeed,
}

impl Fan for SamsungFan {
    open spec fn level(&self) -> int {
        self.state.level()
    }

    open spec fn same_config(&self, other: &Self) -> bool {
        self.sensor_config == other.sensor_config
    }

    fn is_switched_on(&self) -> (r: Result<bool, DeviceError>) {
        match self.state {
            FanSpeed::Speed0 => Ok(false),
            _ => Ok(true),
        }
    }

    fn switch(&mut self, command: FanSpeed) -> (r: Result<bool, DeviceError>) {
        self.state = command;
        Ok(true)
    }
}

impl DeviceFactory for SamsungSensor {
    type Bulb = SamsungLightBulb;

    type FanDevice = SamsungFan;

    open spec fn fresh_bulb(&self, b: &SamsungLightBulb) -> bool {
        b.sensor_config == *self && !b.state
    }

    open spec fn fresh_fan(&self, f: &SamsungFan) -> bool {
        f.sensor_config == *self && f.state == FanSpeed::Speed0
    }

    fn create_light_bulb(&self) -> (r: Result<SamsungLightBulb, DeviceError>) {
        Ok(SamsungLightBulb { sensor_config: self.clone(), state: false })
    }

    fn create_fan(&self) -> (r: Result<SamsungFan, DeviceError>) {
        Ok(SamsungFan { sensor_config: self.clone(), state: FanSpeed::Speed0 })
    }
}

/// Compares two strings for equality, character by character.
fn str_eq(a: &str, b: &str) -> (r: bool)
    ensures
        r == (a@ == b@),
{
    a.to_owned() == b.to_owned()
}

/// Selects the device family named by `name`. The family set is closed:
/// anything but `"Samsung"` or `"Philips"` is rejected as an unknown family,
/// never silently mapped to a device.
pub fn family_for_name(name: &str) -> (r: Result<DeviceFamily, DeviceError>)
    ensures
        r == (if name@ == "Samsung"@ {
            Ok::<DeviceFamily, DeviceError>(DeviceFamily::Samsung)
        } else if name@ == "Philips"@ {
            Ok::<DeviceFamily, DeviceError>(DeviceFamily::Philips)
        } else {
            Err::<DeviceFamily, DeviceError>(DeviceError::UnknownFamily)
        }),
{
    if str_eq(name, "Samsung") {
        Ok(DeviceFamily::Samsung)
    } else if str_eq(name, "Philips") {
        Ok(DeviceFamily::Philips)
    } else {
        Err(DeviceError::UnknownFamily)
    }
}

/// For any supported family's bulb: switching it and then asking it reports
/// exactly the switch command, and the bulb's configuration is untouched.
pub fn bulb_switch_and_report<B: LightBulb>(bulb: &mut B, command: bool) -> (r: bool)
    ensures
        r == command,
        final(bulb).is_on() == command,
        old(bulb).same_config(final(bulb)),
{
    let _ = bulb.switch(command);
    match bulb.is_switched_on() {
        Ok(on) => on,
        Err(_) => false,
    }
}

/// For any supported family's fan and any speed level: switching it to that
/// level and then asking it reports on exactly when the level is above zero,
/// and the fan's configuration is untouched.
pub fn fan_switch_and_report<F: Fan>(fan: &mut F, level: FanSpeed) -> (r: bool)
    ensures
        r == (level.level() > 0),
        final(fan).level() == level.level(),
        old(fan).same_config(final(fan)),
{
    let _ = fan.switch(level);
    match fan.is_switched_on() {
        Ok(on) => on,
        Err(_) => false,
    }
}

/// What the demo loop observes of one device family: the reported on/off
/// state of a fresh bulb and fan, before and after switching them on.
#[derive(Clone, Copy, PartialEq, Eq, Structural, Debug)]
pub struct DemoReport {
    pub bulb_before_switch: bool,
    pub bulb_after_switch: bool,
    pub fan_before_switch: bool,
    pub fan_after_switch: bool,
}

/// Drives one device family through the demo sequence: create a bulb, switch
/// it on, create a fan, switch it to speed 4, observing the reported state
/// before and after each switch. Whatever the family, a fresh device reports
/// off and a switched device reports on.
pub fn run_family_demo<F: DeviceFactory>(factory: &F) -> (r: Result<DemoReport, DeviceError>)
    ensures
        r == Ok::<DemoReport, DeviceError>(
            DemoReport {
                bulb_before_switch: false,
                bulb_after_switch: true,
                fan_before_switch: false,
                fan_after_switch: true,
            },
        ),
{
    let mut bulb = match factory.create_light_bulb() {
        Ok(b) => b,
        Err(e) => {
            return Err(e);
        },
    };
    let bulb_before_switch = match bulb.is_switched_on() {
        Ok(on) => on,
        Err(e) => {
            return Err(e);
        },
    };
    if let Err(e) = bulb.switch(true) {
        return Err(e);
    }
    let bulb_after_switch = match bulb.is_switched_on() {
        Ok(on) => on,
        Err(e) => {
            return Err(e);
        },
    };
    let mut fan = match factory.create_fan() {
        Ok(f) => f,
        Err(e) => {
            return Err(e);
        },
    };
    let fan_before_switch = match fan.is_switched_on() {
        Ok(on) => on,
        Err(e) => {
            return Err(e);
        },
    };
    if let Err(e) = fan.switch(FanSpeed::Speed4) {
        return Err(e);
    }
    let fan_after_switch = match fan.is_switched_on() {
        Ok(on) => on,
        Err(e) => {
            return Err(e);
        },
    };
    Ok(DemoReport { bulb_before_switch, bulb_after_switch, fan_before_switch, fan_after_switch })
}

} // verus!
