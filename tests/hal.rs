use rbot_deploy::driverstation::{Alliance, ControlWord, RobotState};
use rbot_deploy::fpga::{get_revision, get_time_us, get_user_down, get_version};
use rbot_deploy::hal_call::{hal_status, maybe_status, HalError, HalMaybe};
use rbot_deploy::joystick::{
    Joystick, JoystickAxis, JoystickButton, JoystickError, JoystickPOV, JoystickPort,
};
use rbot_deploy::robot_base::{HalInit, RobotBase, RobotBaseError};
use rbot_deploy::robot_state::{is_browned_out, is_system_active};

#[test]
fn maybe_keeps_value_and_error() {
    let m = HalMaybe::new(5, Some(HalError(-3)));
    assert!(m.has_err());
    assert_eq!(m.err(), Some(HalError(-3)));
    assert_eq!(m.into_res(), Err(HalError(-3)));
    assert_eq!(m.ok(), 5);
    let n = HalMaybe::new(7u8, None);
    assert!(!n.has_err());
    assert_eq!(n.into_res(), Ok(7));
    let s = maybe_status(1, 44);
    assert_eq!(s.err(), Some(HalError(44)));
    assert_eq!(maybe_status(1, 0).err(), None);
    assert_eq!(HalError::from(9), HalError(9));
}

#[test]
fn status_codes() {
    assert_eq!(hal_status(3, 0), Ok(3));
    assert_eq!(hal_status(3, -1), Err(HalError(-1)));
    assert_eq!(get_version(2019, 0), Ok(2019));
    assert_eq!(get_revision(7, 1), Err(HalError(1)));
    assert_eq!(get_time_us(123456, 0), Ok(123456));
    assert_eq!(get_user_down(1, 0), Ok(true));
    assert_eq!(get_user_down(0, 0), Ok(false));
    assert_eq!(is_browned_out(2, 0), Ok(true));
    assert_eq!(is_system_active(0, 0), Ok(false));
    assert_eq!(is_system_active(1, -5), Err(HalError(-5)));
}

#[test]
fn joystick_bounds() {
    assert_eq!(JoystickPort::new(5).unwrap(), JoystickPort(5));
    assert_eq!(JoystickPort::new(6).unwrap_err(), JoystickError::PortDNE);
    assert_eq!(JoystickAxis::new(11).unwrap(), JoystickAxis(11));
    assert_eq!(JoystickAxis::new(12).unwrap_err(), JoystickError::AxisDNE);
    assert_eq!(JoystickPOV::new(0).unwrap(), JoystickPOV(0));
    assert_eq!(JoystickPOV::new(200).unwrap_err(), JoystickError::PovDNE);
    assert_eq!(JoystickButton::new(255).unwrap(), JoystickButton(255));
    assert_eq!(Joystick::new(1).unwrap().port, JoystickPort(1));
    assert_eq!(Joystick::new(9).unwrap_err(), JoystickError::PortDNE);
}

#[test]
fn hardware_claimed_once() {
    let mut init = HalInit::new();
    assert!(!init.claimed());
    let base = RobotBase::new(&mut init, 500, true).unwrap();
    assert_eq!(base.hal_timeout, 500);
    assert!(init.claimed());
    assert_eq!(RobotBase::new(&mut init, 500, true).unwrap_err(), RobotBaseError::AlreadyInited);
    let mut other = HalInit::new();
    assert_eq!(RobotBase::new(&mut other, 500, false).unwrap_err(), RobotBaseError::HALInitFailed);
    assert_eq!(RobotBase::new(&mut other, 500, true).unwrap_err(), RobotBaseError::AlreadyInited);
    assert_eq!(base.init_ds(false).unwrap_err(), RobotBaseError::HALInitFailed);
}

#[test]
fn driver_station_decisions() {
    let mut init = HalInit::new();
    let base = RobotBase::new(&mut init, 100, true).unwrap();
    let ds = base.init_ds(true).unwrap();
    assert_eq!(ds.hal_timeout, 100);
    assert_eq!(ds.get_alliance(0, 0), Ok(Alliance::Red));
    assert_eq!(ds.get_alliance(5, 0), Ok(Alliance::Blue));
    assert_eq!(ds.get_alliance(6, 0), Err(HalError(0)));
    assert_eq!(ds.get_alliance(0, 7), Err(HalError(7)));
    assert_eq!(ds.get_station(2, 0), Ok(3));
    assert_eq!(ds.get_station(3, 0), Ok(1));
    assert_eq!(ds.get_station(4, 0), Ok(2));
    assert_eq!(ds.get_station(-1, 0), Err(HalError(0)));
    assert_ne!(Alliance::Unassigned, Alliance::Red);
    let w = ControlWord {
        enabled: true,
        autonomous: false,
        test: true,
        e_stop: false,
        fms_attached: true,
        ds_attached: false,
    };
    assert_eq!(ds.get_robot_state(w), RobotState::Test);
    assert!(ds.is_fms_attached(w));
    assert!(!ds.is_ds_attached(w));
    let off = ControlWord { enabled: false, e_stop: true, ..w };
    assert_eq!(ds.get_robot_state(off), RobotState::EStop);
    let auto = ControlWord { autonomous: true, ..w };
    assert_eq!(ds.get_robot_state(auto), RobotState::Autonomous);
    assert_eq!(ds.get_robot_state(ControlWord { test: false, ..w }), RobotState::Teleop);
    assert_eq!(ds.get_robot_state(ControlWord { e_stop: false, ..off }), RobotState::Disabled);
    assert_eq!(ds.get_button_pressed(0b100, 3, JoystickButton(2)), Ok(true));
    assert_eq!(ds.get_button_pressed(0b100, 3, JoystickButton(1)), Ok(false));
    assert_eq!(ds.get_button_pressed(0b100, 2, JoystickButton(2)), Err(JoystickError::ButtonUnplugged));
}

#[test]
fn pov_and_game_message() {
    let mut init = HalInit::new();
    let ds = RobotBase::new(&mut init, 100, true).unwrap().init_ds(true).unwrap();
    let povs: Vec<i16> = vec![90, -1, 270, 0];
    assert_eq!(ds.get_stick_pov(&povs, 3, JoystickPOV(2)), Ok(270));
    assert_eq!(ds.get_stick_pov(&povs, 2, JoystickPOV(1)), Ok(-1));
    assert_eq!(ds.get_stick_pov(&povs, 1, JoystickPOV(1)), Err(JoystickError::PovUnplugged));
    assert_eq!(ds.get_stick_pov(&povs, 0, JoystickPOV(0)), Err(JoystickError::PovUnplugged));
    assert_eq!(ds.get_stick_pov(&povs, 1, JoystickPOV(2)), Err(JoystickError::PovUnplugged));
    assert_eq!(ds.get_game_message(&vec![76, 82, 76, 0, 0], 3), vec![76, 82, 76]);
    assert_eq!(ds.get_game_message(&vec![1, 2], 0), Vec::<u8>::new());
}
