use jayrc::arrange::{arrange, ConnectorState};

fn conn(connected: bool, width: i32, x: i32, y: i32) -> ConnectorState {
    ConnectorState { connected, width, x, y, scale_256: 256 }
}

#[test]
fn both_connected_places_right_beside_left() {
    let mut left = conn(true, 1920, 5, 7);
    let mut right = conn(true, 1280, -3, 9);
    arrange(&mut left, &mut right);
    assert_eq!((left.x, left.y), (0, 0));
    assert_eq!((right.x, right.y), (1920, 0));
    // nothing but positions changed
    assert!(left.connected && right.connected);
    assert_eq!(left.width, 1920);
    assert_eq!(right.width, 1280);
}

#[test]
fn a_disconnected_member_keeps_all_positions() {
    let mut left = conn(false, 1920, 5, 7);
    let mut right = conn(true, 1280, -3, 9);
    arrange(&mut left, &mut right);
    assert_eq!(left, conn(false, 1920, 5, 7));
    assert_eq!(right, conn(true, 1280, -3, 9));

    let mut left = conn(true, 1920, 5, 7);
    let mut right = conn(false, 1280, -3, 9);
    arrange(&mut left, &mut right);
    assert_eq!(left, conn(true, 1920, 5, 7));
    assert_eq!(right, conn(false, 1280, -3, 9));
}

#[test]
fn arranging_twice_changes_nothing_further() {
    let mut left = conn(true, 2560, 11, 13);
    let mut right = conn(true, 1920, 17, 19);
    arrange(&mut left, &mut right);
    let once = (left, right);
    arrange(&mut left, &mut right);
    assert_eq!((left, right), once);
}

#[test]
fn scale_steps_up_and_down() {
    let mut c = conn(true, 1920, 0, 0);
    c.adjust_scale(64);
    assert_eq!(c.scale_256, 320);
    c.adjust_scale(-64);
    c.adjust_scale(-64);
    assert_eq!(c.scale_256, 192);
    assert_eq!((c.connected, c.width, c.x, c.y), (true, 1920, 0, 0));
}
