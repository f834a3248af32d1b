use auto_launch::AutoLaunch;
use auto_launch::AutoLaunchBuilder;
use auto_launch::HiveState;
use auto_launch::LinuxState;
use auto_launch::MacState;
use auto_launch::OsState;
use auto_launch::Platform;
use auto_launch::WindowsEnableMode;
use auto_launch::WindowsState;

fn mac_record(app_name: &str, app_path: &str, use_launch_agent: bool, hidden: bool) -> AutoLaunch {
    AutoLaunch::new(
        Platform::MacOs,
        app_name,
        app_path,
        Vec::new(),
        use_launch_agent,
        hidden,
        WindowsEnableMode::Dynamic,
        Vec::new(),
        "",
    )
}

fn mac_state(existing: &[&str]) -> OsState {
    OsState::MacOs(MacState {
        existing_paths: existing.iter().map(|p| p.to_string()).collect(),
        dir_exists: false,
        agent_file: None,
        write_fault: false,
        script_fault: None,
        login_items: Vec::new(),
    })
}

fn linux_state() -> OsState {
    OsState::Linux(LinuxState { dir_exists: false, file: None, write_fault: false })
}

fn fresh_hive() -> HiveState {
    HiveState {
        run_writable: true,
        run_value: None,
        approved_key_exists: true,
        approved_writable: true,
        approved_value: None,
        read_denied: false,
    }
}

fn windows_state() -> OsState {
    OsState::Windows(WindowsState { machine: fresh_hive(), user: fresh_hive() })
}

const TASK_MANAGER_OVERRIDE_TEST_DATA: [(bool, [u8; 12]); 5] = [
    (false, [0x03, 0x00, 0x00, 0x00, 0xa5, 0x20, 0xf6, 0x4a, 0x95, 0xd7, 0xd9, 0x01]),
    (false, [0x01, 0x00, 0x00, 0x00, 0x5c, 0x25, 0xea, 0xfd, 0xcc, 0xae, 0xd9, 0x01]),
    (true, [0x00, 0x00, 0x00, 0x00, 0x00, 0x00, 0x00, 0x00, 0x00, 0x00, 0x00, 0x00]),
    (true, [0x02, 0x00, 0x00, 0x00, 0x00, 0x00, 0x00, 0x00, 0x00, 0x00, 0x00, 0x00]),
    (true, [0x06, 0x00, 0x00, 0x00, 0x00, 0x00, 0x00, 0x00, 0x00, 0x00, 0x00, 0x00]),
];

fn set_task_manager_override_value(os: &mut OsState, machine: bool, value: [u8; 12]) {
    if let OsState::Windows(ws) = os {
        let hive = if machine { &mut ws.machine } else { &mut ws.user };
        hive.approved_value = Some(value.to_vec());
    } else {
        panic!("not a windows state");
    }
}

fn delete_task_manager_override_value(os: &mut OsState, machine: bool) {
    if let OsState::Windows(ws) = os {
        let hive = if machine { &mut ws.machine } else { &mut ws.user };
        hive.approved_value = None;
    } else {
        panic!("not a windows state");
    }
}

#[test]
fn test_macos_osascript() {
    let app_name = "AutoLaunchTest";
    let app_path = "/Applications/Calculator.app";

    // default test
    let auto_launch = mac_record(app_name, app_path, false, false);
    let mut os = mac_state(&[app_path]);

    assert_eq!(auto_launch.is_enabled(&os).unwrap(), false);
    assert!(auto_launch.enable(&mut os).is_ok());
    assert_eq!(auto_launch.is_enabled(&os).unwrap(), true);
    assert!(auto_launch.disable(&mut os).is_ok());
    assert_eq!(auto_launch.is_enabled(&os).unwrap(), false);

    // test hidden
    let auto_launch = mac_record(app_name, app_path, false, true);
    let mut os = mac_state(&[app_path]);

    assert_eq!(auto_launch.is_enabled(&os).unwrap(), false);
    assert!(auto_launch.enable(&mut os).is_ok());
    assert_eq!(auto_launch.is_enabled(&os).unwrap(), true);
    assert!(auto_launch.disable(&mut os).is_ok());
    assert_eq!(auto_launch.is_enabled(&os).unwrap(), false);
}

#[test]
fn test_macos_user_launch() {
    let app_name = "AutoLaunchTest";
    let app_path = "/Applications/Calculator.app";

    // default test
    let auto_launch = mac_record(app_name, app_path, true, false);
    let mut os = mac_state(&[app_path]);

    assert_eq!(auto_launch.is_enabled(&os).unwrap(), false);
    assert!(auto_launch.enable(&mut os).is_ok());
    assert_eq!(auto_launch.is_enabled(&os).unwrap(), true);
    assert!(auto_launch.disable(&mut os).is_ok());
    assert_eq!(auto_launch.is_enabled(&os).unwrap(), false);

    // test hidden
    let auto_launch = mac_record(app_name, app_path, true, true);
    let mut os = mac_state(&[app_path]);

    assert_eq!(auto_launch.is_enabled(&os).unwrap(), false);
    assert!(auto_launch.enable(&mut os).is_ok());
    assert_eq!(auto_launch.is_enabled(&os).unwrap(), true);
    assert!(auto_launch.disable(&mut os).is_ok());
    assert_eq!(auto_launch.is_enabled(&os).unwrap(), false);
}

#[test]
fn test_support() {
    assert!(AutoLaunch::is_support());
}

#[test]
fn test_builder() {
    let app_name = "auto-launch-test";
    let app_path = "/tmp/auto-launch-test";
    let args = vec!["--minimized".to_string()];

    let auto = AutoLaunchBuilder::new()
        .set_app_name(app_name)
        .set_app_path(app_path)
        .set_args(args)
        .build(Platform::Linux)
        .unwrap();

    assert_eq!(auto.get_app_name(), app_name);
    let mut os = linux_state();
    auto.enable(&mut os).unwrap();
    assert!(auto.is_enabled(&os).unwrap());
    auto.disable(&mut os).unwrap();
    assert!(!auto.is_enabled(&os).unwrap());
}

fn test_with_admin(app_name: &str, app_path: &str, args: &[&str], enable_mode: WindowsEnableMode) {
    let auto = AutoLaunch::new(
        Platform::Windows,
        app_name,
        app_path,
        args.iter().map(|a| a.to_string()).collect(),
        false,
        false,
        enable_mode,
        Vec::new(),
        "",
    );

    assert_eq!(auto.get_app_name(), app_name);

    let mut os = windows_state();
    auto.enable(&mut os).unwrap();
    assert!(auto.is_enabled(&os).unwrap());
    auto.disable(&mut os).unwrap();
    assert!(!auto.is_enabled(&os).unwrap());

    let machine = match enable_mode {
        WindowsEnableMode::Dynamic => true,
        WindowsEnableMode::CurrentUser => false,
        WindowsEnableMode::System => true,
    };

    // the entry can be enabled again after the Task Manager disabled it
    auto.enable(&mut os).unwrap();
    assert!(auto.is_enabled(&os).unwrap());
    set_task_manager_override_value(&mut os, machine, TASK_MANAGER_OVERRIDE_TEST_DATA[0].1);

    assert!(!auto.is_enabled(&os).unwrap());

    auto.enable(&mut os).unwrap();
    assert!(auto.is_enabled(&os).unwrap());

    // the Task Manager override records decide the reported state
    delete_task_manager_override_value(&mut os, machine);

    assert_eq!(auto.get_app_name(), app_name);
    auto.enable(&mut os).unwrap();
    assert!(auto.is_enabled(&os).unwrap());

    for (expected_enabled, value) in TASK_MANAGER_OVERRIDE_TEST_DATA {
        set_task_manager_override_value(&mut os, machine, value);
        assert_eq!(auto.is_enabled(&os).unwrap(), expected_enabled, "{:02X?}", value);
    }

    auto.disable(&mut os).unwrap();
    assert!(!auto.is_enabled(&os).unwrap());

    delete_task_manager_override_value(&mut os, machine);
}

#[test]
fn test_windows() {
    let app_name = "AutoLaunchTest";
    let app_path = "/tmp/auto-launch-test";
    let args = &["--minimized"];

    test_with_admin(app_name, app_path, args, WindowsEnableMode::CurrentUser);
    test_with_admin(app_name, app_path, args, WindowsEnableMode::System);
}

#[test]
fn test_macos_new() {
    let name_1 = "AutoLaunchTest"; // different name
    let name_2 = "auto-launch-test"; // same name

    let bundle_identifiers = vec!["com.github.auto-launch-test".to_string()];
    let args = vec!["--minimized".to_string(), "--hidden".to_string()];
    let app_path = "/tmp/auto-launch-test";

    let new_mac = |name: &str, agent: bool| {
        AutoLaunch::new(
            Platform::MacOs,
            name,
            app_path,
            args.clone(),
            agent,
            false,
            WindowsEnableMode::Dynamic,
            bundle_identifiers.clone(),
            "",
        )
    };

    // applescript
    let auto1 = new_mac(name_1, false);
    let auto2 = new_mac(name_2, false);
    // launch agent
    let auto3 = new_mac(name_1, true);
    let auto4 = new_mac(name_2, true);

    // app_name will be revised
    assert_eq!(auto1.get_app_name(), name_2);
    assert_eq!(auto2.get_app_name(), name_2);
    // there is no such limit when using the launch agent
    assert_eq!(auto3.get_app_name(), name_1);
    assert_eq!(auto4.get_app_name(), name_2);
}

#[test]
fn test_macos_main() {
    let app_name = "auto-launch-test";
    let app_path = "/tmp/auto-launch-test";
    let bundle_identifiers = vec!["com.github.auto-launch-test".to_string()];
    let args = vec!["--minimized".to_string(), "--hidden".to_string()];

    // path does not exist
    let app_name_not = "Calculator1";
    let app_path_not = "/Applications/Calculator1.app";

    let new_mac = |name: &str, path: &str, agent: bool| {
        AutoLaunch::new(
            Platform::MacOs,
            name,
            path,
            args.clone(),
            agent,
            false,
            WindowsEnableMode::Dynamic,
            bundle_identifiers.clone(),
            "",
        )
    };

    // use applescript
    let auto1 = new_mac(app_name, app_path, false);
    let mut os = mac_state(&[app_path]);
    assert_eq!(auto1.get_app_name(), app_name);
    auto1.enable(&mut os).unwrap();
    assert!(auto1.is_enabled(&os).unwrap());
    auto1.disable(&mut os).unwrap();
    assert!(!auto1.is_enabled(&os).unwrap());

    let auto2 = new_mac(app_name_not, app_path_not, false);
    assert_eq!(auto2.get_app_name(), app_name_not);
    assert!(auto2.enable(&mut os).is_err());
    assert!(!auto2.is_enabled(&os).unwrap());

    // use launch agent
    let auto1 = new_mac(app_name, app_path, true);
    let mut os = mac_state(&[app_path]);
    assert_eq!(auto1.get_app_name(), app_name);
    auto1.enable(&mut os).unwrap();
    assert!(auto1.is_enabled(&os).unwrap());
    auto1.disable(&mut os).unwrap();
    assert!(!auto1.is_enabled(&os).unwrap());

    let auto2 = new_mac(app_name, app_path_not, true);
    assert_eq!(auto2.get_app_name(), app_name); // the name does not change
    assert!(auto2.enable(&mut os).is_err());
    assert!(!auto2.is_enabled(&os).unwrap());
    auto2.disable(&mut os).unwrap();
    assert!(!auto2.is_enabled(&os).unwrap());

    // test builder
    let auto = AutoLaunchBuilder::new()
        .set_app_name(app_name)
        .set_app_path(app_path)
        .set_args(args.clone())
        .build(Platform::MacOs)
        .unwrap();

    let mut os = mac_state(&[app_path]);
    assert_eq!(auto.get_app_name(), app_name);
    auto.enable(&mut os).unwrap();
    assert!(auto.is_enabled(&os).unwrap());
    auto.disable(&mut os).unwrap();
    assert!(!auto.is_enabled(&os).unwrap());

    // use launch agent
    let auto = AutoLaunchBuilder::new()
        .set_app_name(app_name)
        .set_app_path(app_path)
        .set_use_launch_agent(true)
        .set_args(args.clone())
        .set_bundle_identifiers(bundle_identifiers.clone())
        .set_agent_extra_config("")
        .build(Platform::MacOs)
        .unwrap();

    let mut os = mac_state(&[app_path]);
    assert_eq!(auto.get_app_name(), app_name);
    auto.enable(&mut os).unwrap();
    assert!(auto.is_enabled(&os).unwrap());
    auto.disable(&mut os).unwrap();
    assert!(!auto.is_enabled(&os).unwrap());
}

#[test]
fn test_linux() {
    let app_name = "AutoLaunchTest";
    let app_path = "/tmp/auto-launch-test";
    let args = vec!["--minimized".to_string()];

    // default test
    let auto1 = AutoLaunch::new(
        Platform::Linux,
        app_name,
        app_path,
        args.clone(),
        false,
        false,
        WindowsEnableMode::Dynamic,
        Vec::new(),
        "",
    );

    let mut os = linux_state();
    assert_eq!(auto1.get_app_name(), app_name);
    auto1.enable(&mut os).unwrap();
    assert!(auto1.is_enabled(&os).unwrap());
    auto1.disable(&mut os).unwrap();
    assert!(!auto1.is_enabled(&os).unwrap());

    // test args
    let auto2 = AutoLaunch::new(
        Platform::Linux,
        app_name,
        app_path,
        args.clone(),
        false,
        false,
        WindowsEnableMode::Dynamic,
        Vec::new(),
        "",
    );

    let mut os = linux_state();
    assert_eq!(auto2.get_app_name(), app_name);
    auto2.enable(&mut os).unwrap();
    assert!(auto2.is_enabled(&os).unwrap());
    auto2.disable(&mut os).unwrap();
    assert!(!auto2.is_enabled(&os).unwrap());
}
