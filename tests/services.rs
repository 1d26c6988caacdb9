use ink::services::{parse_i32, LinuxBatteryService, LinuxWifiService, SystemError};
use ink::tray::{get_item_properties_processed, RawTrayProperties, TrayApiError};

fn raw(title: &str, icon: &str, desktop_item: &str) -> RawTrayProperties {
    RawTrayProperties {
        service: ":1.42".to_string(),
        id: "nm-applet".to_string(),
        title: title.to_string(),
        icon_name: icon.to_string(),
        status: "Active".to_string(),
        tool_tip: "".to_string(),
        desktop_item: desktop_item.to_string(),
    }
}

#[test]
fn parses_integers_like_str_parse() {
    assert_eq!(parse_i32("85"), Some(85));
    assert_eq!(parse_i32("+7"), Some(7));
    assert_eq!(parse_i32("-2147483648"), Some(i32::MIN));
    assert_eq!(parse_i32("2147483647"), Some(i32::MAX));
    assert_eq!(parse_i32("2147483648"), None);
    assert_eq!(parse_i32("99999999999999999999"), None);
    assert_eq!(parse_i32(""), None);
    assert_eq!(parse_i32("-"), None);
    assert_eq!(parse_i32("8a"), None);
    assert_eq!(parse_i32(" 8"), None);
}

#[test]
fn battery_capacity_from_file_text() {
    let b = LinuxBatteryService;
    assert_eq!(b.parse_capacity("93\n").unwrap(), 93);
    assert!(matches!(b.parse_capacity("full"), Err(SystemError::ParseError(_))));
}

#[test]
fn wifi_ssid_from_listing() {
    let w = LinuxWifiService;
    assert_eq!(w.ssid_from_output("no:Other\nyes:HomeNet\nyes:Second\n"), "HomeNet");
    assert_eq!(w.ssid_from_output("no:Other\nyes:yes:Odd"), "Odd");
    assert_eq!(w.ssid_from_output("no:Other\n"), "Disconnected");
    assert_eq!(w.ssid_from_output(""), "Disconnected");
}

#[test]
fn tray_title_falls_back_to_id() {
    let p = get_item_properties_processed(raw("", "network", ""), None).unwrap();
    assert_eq!(p.title, "nm-applet");
    assert_eq!(p.icon_name.as_deref(), Some("network"));
    assert_eq!(p.desktop_item, None);
    assert_eq!(p.service, ":1.42");
}

#[test]
fn tray_desktop_entry_overrides() {
    let entry = "[Desktop Entry]\nName=Network\nIcon=nm-device-wireless\n".to_string();
    let p = get_item_properties_processed(raw("Applet", "", "/usr/share/applications/nm.desktop"), Some(entry)).unwrap();
    assert_eq!(p.title, "Network");
    assert_eq!(p.icon_name.as_deref(), Some("nm-device-wireless"));
    assert_eq!(p.desktop_item.as_deref(), Some("/usr/share/applications/nm.desktop"));
}

#[test]
fn tray_without_icon_needs_pixmap() {
    let p = get_item_properties_processed(raw("Applet", "", ""), None).unwrap();
    assert_eq!(p.icon_name, None);
    assert_eq!(p.title, "Applet");
}

#[test]
fn tray_unreadable_desktop_entry() {
    match get_item_properties_processed(raw("Applet", "x", "/missing.desktop"), None) {
        Err(TrayApiError::DesktopEntryError(p)) => assert_eq!(p, "/missing.desktop"),
        other => panic!("unexpected {:?}", other),
    }
    match get_item_properties_processed(raw("Applet", "x", "/empty.desktop"), Some("[Other]\n".to_string())) {
        Err(TrayApiError::DesktopEntryError(p)) => assert_eq!(p, "/empty.desktop"),
        other => panic!("unexpected {:?}", other),
    }
}
