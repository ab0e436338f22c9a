use bambumate::commands::launcher::{bambu_uninstall_keys, first_output_line, install_location_dirs};
use bambumate::profile::paths::{first_user_profile_dir, preset_folder_from_conf};

#[test]
fn preset_folder_read_from_conf_text() {
    assert_eq!(
        preset_folder_from_conf(r#"{"app": {"x": 1}, "preset_folder": "12345"}"#),
        Some("12345".to_string())
    );
    assert_eq!(preset_folder_from_conf(r#"{"preset_folder": 12345}"#), None);
    assert_eq!(preset_folder_from_conf("not json"), None);
    assert_eq!(preset_folder_from_conf("[]"), None);
}

#[test]
fn user_profile_dir_skips_default() {
    let entries = vec![
        ("default".to_string(), true),
        ("999".to_string(), false),
        ("12345".to_string(), true),
        ("777".to_string(), true),
    ];
    assert_eq!(first_user_profile_dir(&entries), Some(2));
    assert_eq!(first_user_profile_dir(&vec![("default".to_string(), true)]), None);
    assert_eq!(first_user_profile_dir(&vec![]), None);
}

#[test]
fn install_location_read_from_reg_output() {
    let out = "\r\nHKEY_LOCAL_MACHINE\\SOFTWARE\\Bambu Lab\\BambuStudio\r\n    InstallLocation    REG_SZ    C:\\Program Files\\Bambu Studio\r\n\r\n";
    assert_eq!(install_location_dirs(out), vec!["C:\\Program Files\\Bambu Studio".to_string()]);
    assert_eq!(install_location_dirs("    InstallLocation    REG_SZ    \n"), Vec::<String>::new());
    assert_eq!(install_location_dirs("    DisplayName    REG_SZ    Bambu Studio\n"), Vec::<String>::new());
    // more than three separators: everything after the third is the value
    assert_eq!(
        install_location_dirs("    InstallLocation    REG_SZ    D:\\Apps    Bambu\n"),
        vec!["D:\\Apps    Bambu".to_string()]
    );
}

#[test]
fn bambu_uninstall_keys_found_before_display_names() {
    let out = "HKEY_LOCAL_MACHINE\\SOFTWARE\\Uninstall\\Other\n    DisplayName    REG_SZ    Other App\n\nHKEY_LOCAL_MACHINE\\SOFTWARE\\Uninstall\\{ABC}\n    DisplayName    REG_SZ    Bambu Studio\n";
    assert_eq!(
        bambu_uninstall_keys(out),
        vec!["HKEY_LOCAL_MACHINE\\SOFTWARE\\Uninstall\\{ABC}".to_string()]
    );
    assert_eq!(bambu_uninstall_keys("    DisplayName    REG_SZ    Bambu Studio\n"), Vec::<String>::new());
}

#[test]
fn first_line_of_tool_output() {
    assert_eq!(first_output_line("/usr/bin/BambuStudio\n/opt/x\n"), Some("/usr/bin/BambuStudio".to_string()));
    assert_eq!(first_output_line("  C:\\a\\b.exe  \r\n"), Some("C:\\a\\b.exe".to_string()));
    assert_eq!(first_output_line(""), None);
    assert_eq!(first_output_line("   \nx\n"), None);
}
