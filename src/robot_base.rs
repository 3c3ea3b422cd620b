use vstd::prelude::*;

use crate::driverstation::DriverStation;

verus! {

#[derive(Clone, Copy, Debug, PartialEq, Eq, Hash, Structural)]
pub enum RobotBaseError {
    HALInitFailed,
    AlreadyInited,
}

/// The one-time claim on the robot hardware: a robot base can be made from
/// it once only.
#[derive(Debug)]
pub struct HalInit {
    inited: bool,
}

impl HalInit {
    pub closed spec fn is_claimed(&self) -> bool {
        self.inited
    }

    pub fn new() -> (r: HalInit)
        ensures
            !r.is_claimed(),
    {
        HalInit { inited: false }
    }

    pub fn claimed(&self) -> (r: bool)
        ensures
            r == self.is_claimed(),
    {
        self.inited
    }
}

/// The robot program's handle on the hardware.
#[derive(Debug)]
pub struct RobotBase {
    pub hal_timeout: i32,
}

impl RobotBase {
    /// Claims the hardware through `init`: the second claim fails, and
    /// otherwise the base exists where the HAL came up (`hal_ready`).
    pub fn new(init: &mut HalInit, hal_timeout: i32, hal_ready: bool) -> (r: Result<
        RobotBase,
        RobotBaseError,
    >)
        ensures
            final(init).is_claimed(),
            old(init).is_claimed() ==> r == Err::<RobotBase, RobotBaseError>(
                RobotBaseError::AlreadyInited,
            ),
            !old(init).is_claimed() && !hal_ready ==> r == Err::<RobotBase, RobotBaseError>(
                RobotBaseError::HALInitFailed,
            ),
            !old(init).is_claimed() && hal_ready ==> r.is_ok() && r->Ok_0.hal_timeout
                == hal_timeout,
    {
        if init.inited {
            return Err(RobotBaseError::AlreadyInited);
        }
        init.inited = true;
        if !hal_ready {
            return Err(RobotBaseError::HALInitFailed);
        }
        Ok(RobotBase { hal_timeout })
    }

    /// The driver station, where the HAL came up for it (`hal_ready`).
    pub fn init_ds(&self, hal_ready: bool) -> (r: Result<DriverStation, RobotBaseError>)
        ensures
            hal_ready ==> r.is_ok() && r->Ok_0.hal_timeout == self.hal_timeout,
            !hal_ready ==> r == Err::<DriverStation, RobotBaseError>(RobotBaseError::HALInitFailed),
    {
        match DriverStation::from_robot_base(self, hal_ready) {
            Ok(ds) => Ok(ds),
            Err(()) => Err(RobotBaseError::HALInitFailed),
        }
    }
}

} // verus!
