use mixxc::accent::{scheme_from_raw, Scheme};
use mixxc::xdg::{cache_dir, config_dir, is_wayland, is_x11, platform, Platform};

#[test]
fn config_dir_prefers_the_override() {
    let dir = config_dir(Some("/etc/xdg".to_string()), Some("/home/u".to_string()));
    assert_eq!(dir, Some("/etc/xdg".to_string()));
    let dir = config_dir(None, Some("/home/u".to_string()));
    assert_eq!(dir, Some("/home/u/.config".to_string()));
    assert_eq!(config_dir(None, None), None);
}

#[test]
fn cache_dir_prefers_the_override() {
    let dir = cache_dir(Some("/var/cache".to_string()), Some("/home/u".to_string()));
    assert_eq!(dir, Some("/var/cache".to_string()));
    let dir = cache_dir(None, Some("/home/u".to_string()));
    assert_eq!(dir, Some("/home/u/.cache".to_string()));
    assert_eq!(cache_dir(None, None), None);
}

#[test]
fn session_type_decides_the_platform() {
    assert_eq!(platform(Some("wayland".to_string()), false, false), Platform::Wayland);
    assert_eq!(platform(Some("Wayland".to_string()), false, true), Platform::Wayland);
    assert_eq!(platform(Some("X11".to_string()), true, false), Platform::X11);
    assert_eq!(platform(Some("tty".to_string()), false, false), Platform::Unknown);
}

#[test]
fn display_variables_break_the_tie() {
    assert_eq!(platform(None, true, true), Platform::Wayland);
    assert_eq!(platform(None, false, true), Platform::X11);
    assert_eq!(platform(None, false, false), Platform::Unknown);
    assert_eq!(platform(Some("tty".to_string()), true, false), Platform::Wayland);
}

#[test]
fn the_two_platform_checks_agree_with_platform() {
    assert!(is_wayland(Some("wayland".to_string()), false, false));
    assert!(!is_wayland(None, false, true));
    assert!(is_x11(None, false, true));
    assert!(!is_x11(None, true, true));
}

#[test]
fn scheme_decodes_the_portal_value() {
    assert_eq!(scheme_from_raw(0), Scheme::Default);
    assert_eq!(scheme_from_raw(1), Scheme::Dark);
    assert_eq!(scheme_from_raw(2), Scheme::Light);
    assert_eq!(scheme_from_raw(3), Scheme::Default);
}
