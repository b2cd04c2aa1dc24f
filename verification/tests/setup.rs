use jayrc::defaults::setup_plan;
use jayrc::devices::{plan_input_device, SeatState};

#[test]
fn pointer_devices_get_the_left_handed_transform() {
    let p = plan_input_device(true);
    assert!(p.left_handed);
    assert!(p.apply_transform);
    assert!(p.tap_enabled);
    assert!(p.assign_to_seat);
}

#[test]
fn non_pointer_devices_only_get_tap_and_seat() {
    let p = plan_input_device(false);
    assert!(!p.left_handed);
    assert!(!p.apply_transform);
    assert!(p.tap_enabled);
    assert!(p.assign_to_seat);
}

#[test]
fn hardware_cursor_toggle_flips_each_time() {
    let mut s = SeatState::new();
    assert!(s.hardware_cursor);
    assert_eq!(s.toggle_hardware_cursor(), false);
    assert_eq!(s.toggle_hardware_cursor(), true);
    assert_eq!(s.toggle_hardware_cursor(), false);
    assert!(!s.hardware_cursor);
}

#[test]
fn the_startup_plan_names_everything_the_shell_registers() {
    let p = setup_plan();
    assert_eq!(p.seat_name, "default");
    assert_eq!(p.env_key, "GTK_THEME");
    assert_eq!(p.env_value, "Adwaita:dark");
    assert_eq!(p.graphics_ready_command, "mako");
    assert_eq!(p.idle_command, "jay");
    assert_eq!(p.idle_args, vec!["run-privileged", "--", "swaylock", "-c", "111111"]);
    assert_eq!(p.left_connector, "HDMI-A-1");
    assert_eq!(p.right_connector, "DP-3");
    assert_eq!(p.timer_name, "status_timer");
    assert_eq!(p.timer_period_secs, 5);
}
