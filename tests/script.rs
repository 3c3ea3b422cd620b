use rbot_deploy::script::{setup_command, setup_script, EXEC_TMP, RBOT_SETUP_SCRIPT};

#[test]
fn script_is_exact() {
    let s = setup_script("robot");
    let expected = "#!/bin/bash\n\
. /etc/profile.d/natinst-path.sh; /usr/local/frc/bin/frcKillRobot.sh -t 2 > /dev/null\n\
mv /home/lvuser/rbot-exec-tmp /home/lvuser/robot\n\
rm -f /home/lvuser/robotCommand\n\
touch /home/lvuser/robotCommand\n\
echo \"/home/lvuser/robot\" > /home/lvuser/robotCommand\n\
chmod +x /home/lvuser/robot\n\
chown lvuser /home/lvuser/robot\n\
sync\n\
ldconfig\n\
. /etc/profile.d/natinst-path.sh; /usr/local/frc/bin/frcKillRobot.sh -t -r 2 > /dev/null\n";
    assert_eq!(s, expected);
}

#[test]
fn script_is_deterministic() {
    assert_eq!(setup_script("abc").as_bytes(), setup_script("abc").as_bytes());
    assert_ne!(setup_script("abc"), setup_script("abd"));
}

#[test]
fn script_steps_in_order() {
    let s = setup_script("my_bot");
    let stop = s.find("frcKillRobot.sh -t 2").unwrap();
    let install = s.find("mv /home/lvuser/rbot-exec-tmp /home/lvuser/my_bot").unwrap();
    let pointer = s.find("echo \"/home/lvuser/my_bot\" > /home/lvuser/robotCommand").unwrap();
    let restart = s.find("frcKillRobot.sh -t -r 2").unwrap();
    assert!(stop < install);
    assert!(install < pointer);
    assert!(pointer < restart);
    assert!(!s.contains(">>"));
}

#[test]
fn script_paths_and_command() {
    assert_eq!(EXEC_TMP, "/home/lvuser/rbot-exec-tmp");
    assert_eq!(RBOT_SETUP_SCRIPT, "/home/lvuser/rbot-rio-setup.sh");
    assert_eq!(setup_command(), "sh /home/lvuser/rbot-rio-setup.sh");
}
