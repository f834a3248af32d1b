use auto_launch::AutoLaunch;
use auto_launch::AutoLaunchBuilder;
use auto_launch::Error;
use auto_launch::HiveState;
use auto_launch::LinuxState;
use auto_launch::MacState;
use auto_launch::OsState;
use auto_launch::Platform;
use auto_launch::RequiredField;
use auto_launch::WindowsEnableMode;
use auto_launch::WindowsState;

fn windows_record(mode: WindowsEnableMode, args: &[&str]) -> AutoLaunch {
    AutoLaunch::new(
        Platform::Windows,
        "AutoLaunchTest",
        "C:\\app.exe",
        args.iter().map(|a| a.to_string()).collect(),
        false,
        false,
        mode,
        Vec::new(),
        "",
    )
}

fn open_hive() -> HiveState {
    HiveState {
        run_writable: true,
        run_value: None,
        approved_key_exists: true,
        approved_writable: true,
        approved_value: None,
        read_denied: false,
    }
}

fn windows_fields(os: &OsState) -> &WindowsState {
    match os {
        OsState::Windows(ws) => ws,
        _ => panic!("not a windows state"),
    }
}

#[test]
fn test_builder_missing_fields() {
    let err = AutoLaunchBuilder::new().build(Platform::Linux).unwrap_err();
    assert_eq!(err, Error::MissingField(RequiredField::AppName));

    let err = AutoLaunchBuilder::new().set_app_name("the-app").build(Platform::Linux).unwrap_err();
    assert_eq!(err, Error::MissingField(RequiredField::AppPath));

    let err = AutoLaunchBuilder::new().set_app_path("/x").build(Platform::Windows).unwrap_err();
    assert_eq!(err, Error::MissingField(RequiredField::AppName));
}

#[test]
fn test_windows_current_user_value() {
    let auto = windows_record(WindowsEnableMode::CurrentUser, &["--minimized"]);
    let mut os = OsState::Windows(WindowsState { machine: open_hive(), user: open_hive() });

    auto.enable(&mut os).unwrap();
    {
        let ws = windows_fields(&os);
        assert_eq!(ws.user.run_value.as_deref(), Some("C:\\app.exe --minimized"));
        assert_eq!(
            ws.user.approved_value.as_deref(),
            Some(&[2u8, 0, 0, 0, 0, 0, 0, 0, 0, 0, 0, 0][..])
        );
        assert_eq!(ws.machine.run_value, None);
    }
    assert!(auto.is_enabled(&os).unwrap());

    // a Task-Manager disable: nonzero timestamp in the trailing eight bytes
    if let OsState::Windows(ws) = &mut os {
        ws.user.approved_value =
            Some(vec![0x03, 0, 0, 0, 0xa5, 0x20, 0xf6, 0x4a, 0x95, 0xd7, 0xd9, 0x01]);
    }
    assert!(!auto.is_enabled(&os).unwrap());

    // enable resets the override
    auto.enable(&mut os).unwrap();
    assert!(auto.is_enabled(&os).unwrap());

    auto.disable(&mut os).unwrap();
    {
        let ws = windows_fields(&os);
        assert_eq!(ws.user.run_value, None);
        // the approved record is deliberately left behind
        assert!(ws.user.approved_value.is_some());
    }
    assert!(!auto.is_enabled(&os).unwrap());
}

#[test]
fn test_windows_dynamic_fallback() {
    let auto = windows_record(WindowsEnableMode::Dynamic, &["--minimized"]);
    let mut machine = open_hive();
    machine.run_writable = false;
    machine.approved_writable = false;
    let mut os = OsState::Windows(WindowsState { machine, user: open_hive() });

    // the machine hive refuses access, so the user hive takes the entry
    auto.enable(&mut os).unwrap();
    {
        let ws = windows_fields(&os);
        assert_eq!(ws.machine.run_value, None);
        assert_eq!(ws.user.run_value.as_deref(), Some("C:\\app.exe --minimized"));
    }
    assert!(auto.is_enabled(&os).unwrap());

    auto.disable(&mut os).unwrap();
    assert!(!auto.is_enabled(&os).unwrap());
}

#[test]
fn test_windows_system_access_denied() {
    let auto = windows_record(WindowsEnableMode::System, &[]);
    let mut machine = open_hive();
    machine.run_writable = false;
    let mut os = OsState::Windows(WindowsState { machine, user: open_hive() });

    assert_eq!(auto.enable(&mut os).unwrap_err(), Error::AccessDenied);
    assert_eq!(auto.disable(&mut os).unwrap_err(), Error::AccessDenied);
    {
        let ws = windows_fields(&os);
        assert_eq!(ws.machine.run_value, None);
        assert_eq!(ws.user.run_value, None);
    }
}

#[test]
fn test_windows_approved_write_refused_keeps_registration() {
    // the Run write lands first, so a refused approved-key write still
    // leaves the entry registered
    let auto = windows_record(WindowsEnableMode::System, &[]);
    let mut machine = open_hive();
    machine.approved_writable = false;
    let mut os = OsState::Windows(WindowsState { machine, user: open_hive() });

    assert_eq!(auto.enable(&mut os).unwrap_err(), Error::AccessDenied);
    let ws = windows_fields(&os);
    assert_eq!(ws.machine.run_value.as_deref(), Some("C:\\app.exe"));
    assert_eq!(ws.machine.approved_value, None);
}

#[test]
fn test_windows_missing_approved_key() {
    // without the approved key, enabledness is the registration alone
    let auto = windows_record(WindowsEnableMode::CurrentUser, &[]);
    let mut user = open_hive();
    user.approved_key_exists = false;
    let mut os = OsState::Windows(WindowsState { machine: open_hive(), user });

    assert!(!auto.is_enabled(&os).unwrap());
    auto.enable(&mut os).unwrap();
    {
        let ws = windows_fields(&os);
        assert_eq!(ws.user.run_value.as_deref(), Some("C:\\app.exe"));
        // no approved key, so no record is stamped
        assert_eq!(ws.user.approved_value, None);
    }
    assert!(auto.is_enabled(&os).unwrap());
}

#[test]
fn test_windows_short_approved_record_reads_enabled() {
    let auto = windows_record(WindowsEnableMode::CurrentUser, &[]);
    let mut os = OsState::Windows(WindowsState { machine: open_hive(), user: open_hive() });
    auto.enable(&mut os).unwrap();
    if let OsState::Windows(ws) = &mut os {
        ws.user.approved_value = Some(vec![0x03, 0, 0]);
    }
    assert!(auto.is_enabled(&os).unwrap());
}

#[test]
fn test_windows_disable_never_enabled() {
    let auto = windows_record(WindowsEnableMode::Dynamic, &[]);
    let mut os = OsState::Windows(WindowsState { machine: open_hive(), user: open_hive() });
    auto.disable(&mut os).unwrap();
    let ws = windows_fields(&os);
    assert_eq!(ws.machine.run_value, None);
    assert_eq!(ws.user.run_value, None);
    assert_eq!(ws.machine.approved_value, None);
    assert_eq!(ws.user.approved_value, None);
}

#[test]
fn test_linux_io_error() {
    let auto = AutoLaunch::new(
        Platform::Linux,
        "the-app",
        "/opt/the-app",
        Vec::new(),
        false,
        false,
        WindowsEnableMode::Dynamic,
        Vec::new(),
        "",
    );
    let mut os = OsState::Linux(LinuxState { dir_exists: false, file: None, write_fault: true });
    assert_eq!(auto.enable(&mut os).unwrap_err(), Error::IoError);
    assert!(!auto.is_enabled(&os).unwrap());
    // an absent file is removed without touching the filesystem
    assert!(auto.disable(&mut os).is_ok());
}

#[test]
fn test_mac_invalid_input() {
    let mk = |path: &str, agent: bool| {
        AutoLaunch::new(
            Platform::MacOs,
            "the-app",
            path,
            Vec::new(),
            agent,
            false,
            WindowsEnableMode::Dynamic,
            Vec::new(),
            "",
        )
    };
    let state = || {
        OsState::MacOs(MacState {
            existing_paths: vec!["/Applications/Real.app".to_string(), "relative".to_string()],
            dir_exists: false,
            agent_file: None,
            write_fault: false,
            script_fault: None,
            login_items: Vec::new(),
        })
    };

    // a path that exists nowhere
    let mut os = state();
    assert_eq!(mk("/Applications/Missing.app", true).enable(&mut os).unwrap_err(),
        Error::InvalidInput);
    assert_eq!(mk("/Applications/Missing.app", false).enable(&mut os).unwrap_err(),
        Error::InvalidInput);

    // a path that exists but is not absolute
    assert_eq!(mk("relative", true).enable(&mut os).unwrap_err(), Error::InvalidInput);

    // the real one goes through
    assert!(mk("/Applications/Real.app", true).enable(&mut os).is_ok());
}

#[test]
fn test_mac_agent_io_error() {
    let auto = AutoLaunch::new(
        Platform::MacOs,
        "the-app",
        "/Applications/Real.app",
        Vec::new(),
        true,
        false,
        WindowsEnableMode::Dynamic,
        Vec::new(),
        "",
    );
    let mut os = OsState::MacOs(MacState {
        existing_paths: vec!["/Applications/Real.app".to_string()],
        dir_exists: false,
        agent_file: None,
        write_fault: true,
        script_fault: None,
        login_items: Vec::new(),
    });
    assert_eq!(auto.enable(&mut os).unwrap_err(), Error::IoError);
    assert!(!auto.is_enabled(&os).unwrap());
}

#[test]
fn test_mac_applescript_delete_missing() {
    // System Events refuses a delete of an absent login item; the runner
    // reports exit status 1
    let auto = AutoLaunch::new(
        Platform::MacOs,
        "Calculator",
        "/Applications/Calculator.app",
        Vec::new(),
        false,
        false,
        WindowsEnableMode::Dynamic,
        Vec::new(),
        "",
    );
    let mut os = OsState::MacOs(MacState {
        existing_paths: vec!["/Applications/Calculator.app".to_string()],
        dir_exists: false,
        agent_file: None,
        write_fault: false,
        script_fault: None,
        login_items: Vec::new(),
    });
    assert_eq!(auto.disable(&mut os).unwrap_err(), Error::OsError(1));
}

#[test]
fn test_mac_applescript_other_items_kept() {
    let auto = AutoLaunch::new(
        Platform::MacOs,
        "ignored",
        "/Applications/Calculator.app",
        Vec::new(),
        false,
        false,
        WindowsEnableMode::Dynamic,
        Vec::new(),
        "",
    );
    assert_eq!(auto.get_app_name(), "Calculator");
    let mut os = OsState::MacOs(MacState {
        existing_paths: vec!["/Applications/Calculator.app".to_string()],
        dir_exists: false,
        agent_file: None,
        write_fault: false,
        script_fault: None,
        login_items: vec!["Safari".to_string()],
    });
    auto.enable(&mut os).unwrap();
    auto.disable(&mut os).unwrap();
    if let OsState::MacOs(st) = &os {
        assert_eq!(st.login_items, vec!["Safari".to_string()]);
    } else {
        panic!("not a mac state");
    }
}

#[test]
fn test_windows_read_denied() {
    // a user hive this process cannot read makes the query itself fail
    let auto = windows_record(WindowsEnableMode::CurrentUser, &[]);
    let mut user = open_hive();
    user.read_denied = true;
    let os = OsState::Windows(WindowsState { machine: open_hive(), user });
    assert_eq!(auto.is_enabled(&os).unwrap_err(), Error::AccessDenied);

    // on Dynamic an unreadable machine hive falls through to the user hive,
    // even when the machine hive holds a registration
    let auto = windows_record(WindowsEnableMode::Dynamic, &["--minimized"]);
    let mut machine = open_hive();
    machine.read_denied = true;
    machine.run_value = Some("C:\\stale.exe".to_string());
    let mut os = OsState::Windows(WindowsState { machine, user: open_hive() });
    assert!(!auto.is_enabled(&os).unwrap());
    if let OsState::Windows(ws) = &mut os {
        ws.user.run_value = Some("C:\\app.exe --minimized".to_string());
    }
    assert!(auto.is_enabled(&os).unwrap());
}

#[test]
fn test_mac_script_runner_failure() {
    // a failing script runner surfaces its exit status on enable and
    // disable, and the unlistable login items read as "not enabled"
    let auto = AutoLaunch::new(
        Platform::MacOs,
        "Calculator",
        "/Applications/Calculator.app",
        Vec::new(),
        false,
        false,
        WindowsEnableMode::Dynamic,
        Vec::new(),
        "",
    );
    let mut os = OsState::MacOs(MacState {
        existing_paths: vec!["/Applications/Calculator.app".to_string()],
        dir_exists: false,
        agent_file: None,
        write_fault: false,
        script_fault: Some(5),
        login_items: vec!["Calculator".to_string()],
    });
    assert_eq!(auto.enable(&mut os).unwrap_err(), Error::OsError(5));
    assert_eq!(auto.disable(&mut os).unwrap_err(), Error::OsError(5));
    assert!(!auto.is_enabled(&os).unwrap());
}
