use vstd::prelude::*;

use crate::hal_call::{HalError, HalResult};
use crate::joystick::{JoystickButton, JoystickError, JoystickPOV};
use crate::robot_base::RobotBase;

verus! {

/// The alliance station codes that the HAL reports.
pub const STATION_RED1: i32 = 0;
pub const STATION_RED2: i32 = 1;
pub const STATION_RED3: i32 = 2;
pub const STATION_BLUE1: i32 = 3;
pub const STATION_BLUE2: i32 = 4;
pub const STATION_BLUE3: i32 = 5;

#[derive(Clone, Copy, Debug, PartialEq, Eq, Hash, Structural)]
pub enum Alliance {
    Red,
    Blue,
    /// No alliance assigned.
    Unassigned,
}

#[derive(Clone, Copy, Debug, PartialEq, Eq, Hash, Structural)]
pub enum RobotState {
    Disabled,
    Autonomous,
    Teleop,
    Test,
    EStop,
}

/// The bits of the driver station's control word.
#[derive(Clone, Copy, Debug, PartialEq, Eq, Structural)]
pub struct ControlWord {
    pub enabled: bool,
    pub autonomous: bool,
    pub test: bool,
    pub e_stop: bool,
    pub fms_attached: bool,
    pub ds_attached: bool,
}

pub open spec fn alliance_of(station: i32) -> Option<Alliance> {
    if STATION_RED1 <= station <= STATION_RED3 {
        Some(Alliance::Red)
    } else if STATION_BLUE1 <= station <= STATION_BLUE3 {
        Some(Alliance::Blue)
    } else {
        None
    }
}

pub open spec fn station_number_of(station: i32) -> Option<i32> {
    if STATION_RED1 <= station <= STATION_BLUE3 {
        Some((station % 3 + 1) as i32)
    } else {
        None
    }
}

pub open spec fn state_of(w: ControlWord) -> RobotState {
    if w.enabled {
        if w.autonomous {
            RobotState::Autonomous
        } else if w.test {
            RobotState::Test
        } else {
            RobotState::Teleop
        }
    } else if w.e_stop {
        RobotState::EStop
    } else {
        RobotState::Disabled
    }
}

/// Access to the driver station, once the HAL is up.
#[derive(Clone, Copy, Debug)]
pub struct DriverStation {
    pub hal_timeout: i32,
}

impl DriverStation {
    /// The driver station of `base`, where the HAL came up (`hal_ready`).
    pub(crate) fn from_robot_base(base: &RobotBase, hal_ready: bool) -> (r: Result<DriverStation, ()>)
        ensures
            hal_ready <==> r.is_ok(),
            r.is_ok() ==> r->Ok_0.hal_timeout == base.hal_timeout,
    {
        if !hal_ready {
            return Err(());
        }
        Ok(DriverStation { hal_timeout: base.hal_timeout })
    }

    /// Whether `button` is pressed, from the HAL's button bits and button count.
    pub fn get_button_pressed(&self, buttons: u32, count: u8, button: JoystickButton) -> (r: Result<
        bool,
        JoystickError,
    >)
        requires
            button.0 >= count || 0 <= button.0 < 32,
        ensures
            button.0 >= count ==> r == Err::<bool, JoystickError>(JoystickError::ButtonUnplugged),
            button.0 < count ==> r == Ok::<bool, JoystickError>(
                buttons & (1u32 << (button.0 as u32)) != 0,
            ),
    {
        if button.0 >= count as i32 {
            return Err(JoystickError::ButtonUnplugged);
        }
        Ok(buttons & (1u32 << (button.0 as u32)) != 0)
    }

    /// The angle of hat `pov`, from the HAL's POV angles and POV count; a hat
    /// at or beyond the count is unplugged.
    pub fn get_stick_pov(&self, povs: &Vec<i16>, count: i16, pov: JoystickPOV) -> (r: Result<
        i32,
        JoystickError,
    >)
        requires
            pov.0 >= count || 0 <= pov.0 < povs.len(),
        ensures
            pov.0 >= count ==> r == Err::<i32, JoystickError>(JoystickError::PovUnplugged),
            pov.0 < count ==> r == Ok::<i32, JoystickError>(povs[pov.0 as int] as i32),
    {
        if pov.0 >= count as i32 {
            return Err(JoystickError::PovUnplugged);
        }
        Ok(povs[pov.0 as usize] as i32)
    }

    /// The game-specific message: the first `size` bytes of what the HAL reported.
    pub fn get_game_message(&self, message: &Vec<u8>, size: u8) -> (r: Vec<u8>)
        requires
            size as int <= message.len(),
        ensures
            r@ == message@.take(size as int),
    {
        let mut r: Vec<u8> = Vec::new();
        let mut i: usize = 0;
        while i < size as usize
            invariant
                i <= size,
                size <= message.len(),
                r@ == message@.take(i as int),
            decreases size - i,
        {
            r.push(message[i]);
            assert(message@.take(i as int + 1) =~= message@.take(i as int).push(message@[i as int]));
            i = i + 1;
        }
        r
    }

    /// The alliance, from the station code and status that the HAL reported.
    pub fn get_alliance(&self, station: i32, status: i32) -> (r: HalResult<Alliance>)
        ensures
            status != 0 ==> r == Err::<Alliance, HalError>(HalError(status)),
            status == 0 ==> r == (match alliance_of(station) {
                Some(a) => Ok(a),
                None => Err(HalError(0)),
            }),
    {
        if status != 0 {
            return Err(HalError(status));
        }
        if STATION_RED1 <= station && station <= STATION_RED3 {
            Ok(Alliance::Red)
        } else if STATION_BLUE1 <= station && station <= STATION_BLUE3 {
            Ok(Alliance::Blue)
        } else {
            Err(HalError(0))
        }
    }

    /// The station number, 1 to 3, from the station code and status that the
    /// HAL reported.
    pub fn get_station(&self, station: i32, status: i32) -> (r: HalResult<i32>)
        ensures
            status != 0 ==> r == Err::<i32, HalError>(HalError(status)),
            status == 0 ==> r == (match station_number_of(station) {
                Some(n) => Ok(n),
                None => Err(HalError(0)),
            }),
    {
        if status != 0 {
            return Err(HalError(status));
        }
        if station == STATION_BLUE1 || station == STATION_RED1 {
            Ok(1)
        } else if station == STATION_BLUE2 || station == STATION_RED2 {
            Ok(2)
        } else if station == STATION_BLUE3 || station == STATION_RED3 {
            Ok(3)
        } else {
            Err(HalError(0))
        }
    }

    /// The robot's state, from the control word.
    pub fn get_robot_state(&self, w: ControlWord) -> (r: RobotState)
        ensures
            r == state_of(w),
    {
        if w.enabled {
            if w.autonomous {
                RobotState::Autonomous
            } else if w.test {
                RobotState::Test
            } else {
                RobotState::Teleop
            }
        } else if w.e_stop {
            RobotState::EStop
        } else {
            RobotState::Disabled
        }
    }

    pub fn is_ds_attached(&self, w: ControlWord) -> (r: bool)
        ensures
            r == w.ds_attached,
    {
        w.ds_attached
    }

    pub fn is_fms_attached(&self, w: ControlWord) -> (r: bool)
        ensures
            r == w.fms_attached,
    {
        w.fms_attached
    }
}

} // verus!
