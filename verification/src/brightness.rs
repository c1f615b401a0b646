//! The brightness of the screens, in percent.

use crate::error::{BrightnessError, GlueError};
use crate::traits::Change;
use vstd::prelude::*;

verus! {

/// A screen and its brightness.
#[derive(Debug)]
pub struct Device {
    pub name: String,
    pub brightness: u32,
}

/// The screens as they are shown.
#[derive(Debug)]
pub struct BrightnessSettings {
    pub devices: Vec<Device>,
}

/// The screens whose brightness can be changed.
#[derive(Debug)]
pub struct BrightnessCtl {
    devices: Vec<Device>,
}

/// The brightness that `change` asks for on a screen at `brightness`: never
/// above 100 and never below 0.
pub open spec fn changed_brightness(brightness: u32, change: Change<u32>) -> int {
    match change {
        Change::Add(update) => if brightness + update < 100 {
            brightness + update
        } else {
            100
        },
        Change::Sub(div) => if div <= brightness {
            brightness - div
        } else {
            0
        },
        Change::Absolute(value) => if value < 100 {
            value as int
        } else {
            100
        },
    }
}

/// Whether `change` can be worked out in 32 bits on a screen at
/// `brightness`.
pub open spec fn brightness_change_fits(brightness: u32, change: Change<u32>) -> bool {
    match change {
        Change::Add(update) => brightness + update <= u32::MAX,
        _ => true,
    }
}

/// What holds of one screen after a change: `apply` was given its name and
/// the brightness that the change asks for, and answered with `outcome`.
pub open spec fn applied<F: Fn(String, u32) -> Result<(), String>>(
    device: Device,
    change: Change<u32>,
    apply: F,
    outcome: Result<(), String>,
) -> bool {
    exists|name: String|
        name@ == device.name@ && #[trigger] apply.ensures(
            (name, changed_brightness(device.brightness, change) as u32),
            outcome,
        )
}

/// What holds of a change that was worked through up to screen `count`: the
/// screens before it took their value, and either the list ended there with
/// success, or that screen gave the error.
pub open spec fn change_stops_at<F: Fn(String, u32) -> Result<(), String>>(
    devices: Seq<Device>,
    change: Change<u32>,
    apply: F,
    count: int,
    result: Result<(), GlueError>,
) -> bool {
    &&& 0 <= count <= devices.len()
    &&& forall|j: int| 0 <= j < count ==> applied(#[trigger] devices[j], change, apply, Ok(()))
    &&& match result {
        Ok(_) => count == devices.len(),
        Err(GlueError::Brightness(BrightnessError::Brightness(cause))) => count < devices.len()
            && applied(devices[count], change, apply, Err(cause)),
        Err(_) => false,
    }
}

/// Whether the first `count` screens took their value.
pub open spec fn screens_applied<F: Fn(String, u32) -> Result<(), String>>(
    devices: Seq<Device>,
    change: Change<u32>,
    apply: F,
    count: int,
) -> bool {
    forall|j: int| 0 <= j < count ==> applied(#[trigger] devices[j], change, apply, Ok(()))
}

/// Whether `apply` accepts the name of `device` with the brightness that
/// `change` asks for.
pub open spec fn can_apply<F: Fn(String, u32) -> Result<(), String>>(
    device: Device,
    change: Change<u32>,
    apply: F,
) -> bool {
    forall|name: String|
        name@ == device.name@ ==> #[trigger] apply.requires(
            (name, changed_brightness(device.brightness, change) as u32),
        )
}

/// Whether the change can be worked through: `apply` accepts each screen that
/// is reached, which is the case where all screens before it took their
/// value. A screen behind one that refuses is not reached, and `apply` need
/// not accept anything for it.
pub open spec fn can_change<F: Fn(String, u32) -> Result<(), String>>(
    devices: Seq<Device>,
    change: Change<u32>,
    apply: F,
) -> bool {
    forall|i: int|
        0 <= i < devices.len() && screens_applied(devices, change, apply, i) ==> can_apply(
            #[trigger] devices[i],
            change,
            apply,
        )
}

impl BrightnessCtl {
    /// The screens.
    pub closed spec fn devices(&self) -> Seq<Device> {
        self.devices@
    }

    /// The control of the given screens.
    pub fn new(devices: Vec<Device>) -> (control: Self)
        ensures
            control.devices() == devices@,
    {
        BrightnessCtl { devices }
    }

    /// Whether `change` can be worked out in 32 bits on every screen. A
    /// caller that cannot rule the other case out asks before it changes the
    /// brightness.
    pub fn change_fits(&self, change: Change<u32>) -> (fits: bool)
        ensures
            fits == forall|i: int|
                0 <= i < self.devices().len() ==> brightness_change_fits(
                    (#[trigger] self.devices()[i]).brightness,
                    change,
                ),
    {
        let mut i: usize = 0;
        while i < self.devices.len()
            invariant
                i <= self.devices@.len(),
                self.devices() == self.devices@,
                forall|k: int|
                    0 <= k < i ==> brightness_change_fits(
                        (#[trigger] self.devices()[k]).brightness,
                        change,
                    ),
            decreases self.devices@.len() - i,
        {
            match change {
                Change::Add(update) => {
                    if update > u32::MAX - self.devices[i].brightness {
                        assert(!brightness_change_fits(self.devices()[i as int].brightness, change));
                        return false;
                    }
                },
                _ => {},
            }
            i = i + 1;
        }
        true
    }

    /// Asks every screen, in order, for the brightness that `change` gives
    /// it, through `apply`, and stops at the first screen that refuses. What
    /// is known of the screens stays as it was read.
    pub fn change<F>(&self, change: Change<u32>, apply: &F) -> (result: Result<(), GlueError>)
        where F: Fn(String, u32) -> Result<(), String>
        requires
            can_change(self.devices(), change, *apply),
            forall|i: int|
                0 <= i < self.devices().len() ==> brightness_change_fits(
                    (#[trigger] self.devices()[i]).brightness,
                    change,
                ),
        ensures
            exists|count: int| #[trigger] change_stops_at(self.devices(), change, *apply, count, result),
            result is Ok ==> forall|j: int|
                0 <= j < self.devices().len() ==> applied(
                    #[trigger] self.devices()[j],
                    change,
                    *apply,
                    Ok(()),
                ),
    {
        let mut i: usize = 0;
        assert(self.devices() == self.devices@);
        while i < self.devices.len()
            invariant
                i <= self.devices@.len(),
                self.devices() == self.devices@,
                can_change(self.devices(), change, *apply),
                forall|k: int|
                    0 <= k < self.devices().len() ==> brightness_change_fits(
                        (#[trigger] self.devices()[k]).brightness,
                        change,
                    ),
                screens_applied(self.devices(), change, *apply, i as int),
            decreases self.devices@.len() - i,
        {
            let device = &self.devices[i];
            assert(*device == self.devices()[i as int]);
            assert(brightness_change_fits(self.devices()[i as int].brightness, change));
            let brightness: u32 = match change {
                Change::Add(update) => {
                    let sum: u32 = device.brightness + update;
                    if sum < 100 {
                        sum
                    } else {
                        100
                    }
                },
                Change::Sub(div) => if div <= device.brightness {
                    device.brightness - div
                } else {
                    0
                },
                Change::Absolute(value) => if value < 100 {
                    value
                } else {
                    100
                },
            };
            assert(brightness == changed_brightness(device.brightness, change));
            let name = device.name.clone();
            let outcome = apply(name, brightness);
            assert(apply.ensures((name, changed_brightness(device.brightness, change) as u32), outcome));
            match outcome {
                Ok(done) => {
                    assert(outcome == Ok::<(), String>(()));
                    assert(applied(self.devices()[i as int], change, *apply, Ok(())));
                },
                Err(cause) => {
                    let result = Err(GlueError::Brightness(BrightnessError::Brightness(cause)));
                    assert(applied(self.devices()[i as int], change, *apply, Err(cause)));
                    assert(change_stops_at(self.devices(), change, *apply, i as int, result));
                    return result;
                },
            }
            i = i + 1;
        }
        assert(change_stops_at(self.devices(), change, *apply, self.devices().len() as int, Ok(())));
        Ok(())
    }

    /// Asks every screen for `value` percent, or for 100 where `value` is
    /// more.
    pub fn set<F>(&self, value: u32, apply: &F) -> (result: Result<(), GlueError>)
        where F: Fn(String, u32) -> Result<(), String>
        requires
            can_change(self.devices(), Change::Absolute(value), *apply),
        ensures
            exists|count: int| #[trigger]
                change_stops_at(self.devices(), Change::Absolute(value), *apply, count, result),
            result is Ok ==> forall|j: int|
                0 <= j < self.devices().len() ==> applied(
                    #[trigger] self.devices()[j],
                    Change::Absolute(value),
                    *apply,
                    Ok(()),
                ),
    {
        self.change(Change::Absolute(value), apply)
    }

    /// The screens as they are shown: each with the brightness that was read.
    pub fn settings(&self) -> (settings: BrightnessSettings)
        ensures
            settings.devices@.len() == self.devices().len(),
            forall|i: int|
                0 <= i < self.devices().len() ==> {
                    &&& (#[trigger] settings.devices@[i]).name@ == self.devices()[i].name@
                    &&& settings.devices@[i].brightness == self.devices()[i].brightness
                },
    {
        let mut devices: Vec<Device> = Vec::new();
        let mut i: usize = 0;
        while i < self.devices.len()
            invariant
                i <= self.devices@.len(),
                devices@.len() == i,
                forall|k: int|
                    0 <= k < i ==> {
                        &&& (#[trigger] devices@[k]).name@ == self.devices@[k].name@
                        &&& devices@[k].brightness == self.devices@[k].brightness
                    },
            decreases self.devices@.len() - i,
        {
            let device = &self.devices[i];
            devices.push(Device { name: device.name.clone(), brightness: device.brightness });
            i = i + 1;
        }
        BrightnessSettings { devices }
    }
}

} // verus!
