use vstd::prelude::*;

verus! {

/// How many joysticks the driver station reports.
pub const MAX_JOYSTICKS: u32 = 6;

/// How many axes a joystick may have.
pub const MAX_JOYSTICK_AXES: u32 = 12;

/// How many POV hats a joystick may have.
pub const MAX_JOYSTICK_POVS: u32 = 12;

#[derive(Clone, Copy, Debug, PartialEq, Eq, Hash, Structural)]
pub enum JoystickError {
    PortDNE,
    ButtonUnplugged,
    AxisUnplugged,
    AxisDNE,
    PovDNE,
    PovUnplugged,
}

#[derive(Clone, Copy, Debug, PartialEq, Eq, Structural)]
pub struct JoystickPort(pub i32);

impl JoystickPort {
    /// The joystick port `port`, which must be below `MAX_JOYSTICKS`.
    pub fn new(port: u8) -> (r: Result<JoystickPort, JoystickError>)
        ensures
            port as u32 >= MAX_JOYSTICKS ==> r == Err::<JoystickPort, JoystickError>(
                JoystickError::PortDNE,
            ),
            (port as u32) < MAX_JOYSTICKS ==> r == Ok::<JoystickPort, JoystickError>(
                JoystickPort(port as i32),
            ),
    {
        if port as u32 >= MAX_JOYSTICKS {
            return Err(JoystickError::PortDNE);
        }
        Ok(JoystickPort(port as i32))
    }
}

#[derive(Clone, Copy, Debug, PartialEq, Eq, Structural)]
pub struct JoystickButton(pub i32);

impl JoystickButton {
    /// The button `button`; any button number is accepted.
    pub fn new(button: u8) -> (r: Result<JoystickButton, JoystickError>)
        ensures
            r == Ok::<JoystickButton, JoystickError>(JoystickButton(button as i32)),
    {
        Ok(JoystickButton(button as i32))
    }
}

#[derive(Clone, Copy, Debug, PartialEq, Eq, Structural)]
pub struct JoystickPOV(pub i32);

impl JoystickPOV {
    /// The POV hat `pov`, which must be below `MAX_JOYSTICK_POVS`.
    pub fn new(pov: u8) -> (r: Result<JoystickPOV, JoystickError>)
        ensures
            pov as u32 >= MAX_JOYSTICK_POVS ==> r == Err::<JoystickPOV, JoystickError>(
                JoystickError::PovDNE,
            ),
            (pov as u32) < MAX_JOYSTICK_POVS ==> r == Ok::<JoystickPOV, JoystickError>(
                JoystickPOV(pov as i32),
            ),
    {
        if pov as u32 >= MAX_JOYSTICK_POVS {
            return Err(JoystickError::PovDNE);
        }
        Ok(JoystickPOV(pov as i32))
    }
}

#[derive(Clone, Copy, Debug, PartialEq, Eq, Structural)]
pub struct JoystickAxis(pub i32);

impl JoystickAxis {
    /// The axis `axis`, which must be below `MAX_JOYSTICK_AXES`.
    pub fn new(axis: u8) -> (r: Result<JoystickAxis, JoystickError>)
        ensures
            axis as u32 >= MAX_JOYSTICK_AXES ==> r == Err::<JoystickAxis, JoystickError>(
                JoystickError::AxisDNE,
            ),
            (axis as u32) < MAX_JOYSTICK_AXES ==> r == Ok::<JoystickAxis, JoystickError>(
                JoystickAxis(axis as i32),
            ),
    {
        if axis as u32 >= MAX_JOYSTICK_AXES {
            return Err(JoystickError::AxisDNE);
        }
        Ok(JoystickAxis(axis as i32))
    }
}

/// A joystick on one of the driver station's ports.
#[derive(Clone, Copy, Debug, PartialEq, Eq, Structural)]
pub struct Joystick {
    pub port: JoystickPort,
}

impl Joystick {
    /// The joystick on port `p`, which must be below `MAX_JOYSTICKS`.
    pub fn new(p: u8) -> (r: Result<Joystick, JoystickError>)
        ensures
            p as u32 >= MAX_JOYSTICKS ==> r == Err::<Joystick, JoystickError>(JoystickError::PortDNE),
            (p as u32) < MAX_JOYSTICKS ==> r == Ok::<Joystick, JoystickError>(
                Joystick { port: JoystickPort(p as i32) },
            ),
    {
        let port = JoystickPort::new(p)?;
        Ok(Joystick { port })
    }
}

} // verus!
