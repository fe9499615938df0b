use key_debounce::linux::command_line::{
    Cli, Commands, InvalidDeviceNumber, Request, DEFAULT_CONFIG_PATH,
};
use key_debounce::windows::command_line::Cli as WindowsCli;

fn select(device: &str) -> Cli {
    Cli { config_path: None, command: Some(Commands::Select { device: String::from(device) }) }
}

#[test]
fn settings_file_is_the_one_given_or_config_ini() {
    let cli = Cli { config_path: None, command: None };
    assert_eq!(cli.config_path(), "config.ini");
    assert_eq!(DEFAULT_CONFIG_PATH, "config.ini");
    let cli = Cli { config_path: Some(String::from("/etc/debounce.ini")), command: None };
    assert_eq!(cli.config_path(), "/etc/debounce.ini");
    assert_eq!(WindowsCli { config_path: None }.config_path(), "config.ini");
    assert_eq!(WindowsCli { config_path: Some(String::from("c.ini")) }.config_path(), "c.ini");
}

#[test]
fn no_command_watches_the_remembered_keyboard() {
    let cli = Cli { config_path: None, command: None };
    assert_eq!(cli.request(), Ok(Request::Watch { device_number: 0 }));
}

#[test]
fn list_command_lists() {
    let cli = Cli { config_path: None, command: Some(Commands::ListDevices) };
    assert_eq!(cli.request(), Ok(Request::ListDevices));
}

#[test]
fn select_command_gives_the_number() {
    assert_eq!(select("3").request(), Ok(Request::Watch { device_number: 3 }));
    assert_eq!(select(" 3\n").request(), Ok(Request::Watch { device_number: 3 }));
    assert_eq!(select("+12").request(), Ok(Request::Watch { device_number: 12 }));
    assert_eq!(select("0").request(), Ok(Request::Watch { device_number: 0 }));
    assert_eq!(select("4294967295").request(), Ok(Request::Watch { device_number: u32::MAX }));
}

#[test]
fn select_command_wants_a_number() {
    for wrong in ["", " ", "x", "-1", "1 2", "4294967296", "3.0", "0x3"] {
        assert_eq!(select(wrong).request(), Err(InvalidDeviceNumber), "{:?}", wrong);
    }
}

#[test]
fn select_command_reads_as_the_standard_library_does() {
    for device in ["7", " 7", "7 ", "\t7\u{3000}", "+7", "+ 7", "", "seven", "007", "\u{200b}7"] {
        let expected = device.trim().parse::<u32>().ok();
        let got = match select(device).request() {
            Ok(Request::Watch { device_number }) => Some(device_number),
            Ok(Request::ListDevices) => panic!("a number was given"),
            Err(InvalidDeviceNumber) => None,
        };
        assert_eq!(got, expected, "{:?}", device);
    }
}
