use jayrc::actions::{Action, Axis, Direction};
use jayrc::bindings::BindingTable;
use jayrc::defaults::default_seat_bindings;
use jayrc::keys::{
    KEY_A, KEY_E, KEY_F1, KEY_F12, KEY_F13, KEY_F25, KEY_F3, KEY_H, KEY_J, KEY_P, KEY_Q,
    KEY_SUPER_L, KEY_Y, MOD_ALT, MOD_CTRL, MOD_NONE, MOD_SHIFT,
};

#[test]
fn dispatch_hits_exactly_the_registered_pair() {
    let mut t = BindingTable::new();
    t.bind(MOD_ALT, KEY_H, Action::FocusMove(Direction::Left));
    t.bind(MOD_ALT, KEY_J, Action::FocusMove(Direction::Down));
    assert_eq!(t.dispatch(MOD_ALT, KEY_H), Some(&Action::FocusMove(Direction::Left)));
    assert_eq!(t.dispatch(MOD_ALT, KEY_J), Some(&Action::FocusMove(Direction::Down)));
    // exact matching: an extra modifier misses, a missing modifier misses
    assert_eq!(t.dispatch(MOD_ALT | MOD_SHIFT, KEY_H), None);
    assert_eq!(t.dispatch(MOD_NONE, KEY_H), None);
}

#[test]
fn rebinding_the_same_pair_last_write_wins() {
    let mut t = BindingTable::new();
    t.bind(MOD_ALT, KEY_Q, Action::Quit);
    t.bind(MOD_ALT, KEY_Q, Action::Reload);
    assert_eq!(t.dispatch(MOD_ALT, KEY_Q), Some(&Action::Reload));
    // the shadowed action is gone entirely
    let mut hits = 0;
    for i in 0..t.len() {
        let b = t.entry_at(i);
        if b.mods == MOD_ALT && b.key == KEY_Q {
            hits += 1;
        }
    }
    assert_eq!(hits, 2); // both registrations are recorded ...
    assert_eq!(t.dispatch(MOD_ALT, KEY_Q), Some(&Action::Reload)); // ... newest resolves
}

#[test]
fn dispatching_an_unbound_pair_is_a_no_op() {
    let t = BindingTable::new();
    assert_eq!(t.dispatch(MOD_ALT, KEY_H), None);
    let mut t = BindingTable::new();
    t.bind(MOD_ALT, KEY_H, Action::FocusMove(Direction::Left));
    assert_eq!(t.dispatch(MOD_CTRL, KEY_H), None);
}

#[test]
fn vt_row_binds_each_symbol_to_its_own_terminal() {
    let mut t = BindingTable::new();
    let syms: Vec<u32> = (0..12).map(|i| KEY_F1 + i).collect();
    t.bind_vt_row(MOD_CTRL | MOD_ALT, &syms);
    for (i, sym) in syms.iter().enumerate() {
        assert_eq!(
            t.dispatch(MOD_CTRL | MOD_ALT, *sym),
            Some(&Action::SwitchToVt(i as u32 + 1)),
        );
    }
}

#[test]
fn workspace_row_binds_show_and_set_independently() {
    let mut t = BindingTable::new();
    let syms: Vec<u32> = (0..13).map(|i| KEY_F13 + i).collect();
    t.bind_workspace_row(MOD_ALT, MOD_ALT | MOD_SHIFT, &syms);
    for (i, sym) in syms.iter().enumerate() {
        assert_eq!(t.dispatch(MOD_ALT, *sym), Some(&Action::ShowWorkspace(i as u32 + 1)));
        assert_eq!(
            t.dispatch(MOD_ALT | MOD_SHIFT, *sym),
            Some(&Action::SetWorkspace(i as u32 + 1)),
        );
    }
}

#[test]
fn default_table_resolves_the_expected_actions() {
    let t = default_seat_bindings();
    assert_eq!(t.dispatch(MOD_ALT, KEY_H), Some(&Action::FocusMove(Direction::Left)));
    assert_eq!(
        t.dispatch(MOD_ALT | MOD_SHIFT, KEY_H),
        Some(&Action::WindowMove(Direction::Left)),
    );
    assert_eq!(
        t.dispatch(MOD_NONE, KEY_SUPER_L),
        Some(&Action::Spawn(String::from("alacritty"))),
    );
    assert_eq!(t.dispatch(MOD_ALT, KEY_P), Some(&Action::Spawn(String::from("bemenu-run"))));
    assert_eq!(t.dispatch(MOD_ALT, KEY_Q), Some(&Action::Quit));
    assert_eq!(t.dispatch(MOD_ALT, KEY_Y), Some(&Action::AdjustScale(64)));
    assert_eq!(t.dispatch(MOD_CTRL | MOD_ALT, KEY_F1), Some(&Action::SwitchToVt(1)));
    assert_eq!(t.dispatch(MOD_CTRL | MOD_ALT, KEY_F3), Some(&Action::SwitchToVt(3)));
    assert_eq!(t.dispatch(MOD_CTRL | MOD_ALT, KEY_F12), Some(&Action::SwitchToVt(12)));
    assert_eq!(t.dispatch(MOD_ALT, KEY_F13), Some(&Action::ShowWorkspace(1)));
    assert_eq!(t.dispatch(MOD_ALT | MOD_SHIFT, KEY_F25), Some(&Action::SetWorkspace(13)));
    assert_eq!(
        t.dispatch(MOD_ALT, KEY_A),
        Some(&Action::SpawnWithArg(String::from("spotify-remote"), String::from("a"))),
    );
    assert_eq!(
        t.dispatch(MOD_ALT, KEY_E),
        Some(&Action::SpawnWithArg(String::from("spotify-remote"), String::from("e"))),
    );
    // splits and toggles from the middle of the table
    assert_eq!(t.dispatch(MOD_ALT, 0x64), Some(&Action::CreateSplit(Axis::Horizontal)));
    assert_eq!(t.dispatch(MOD_ALT, 0x76), Some(&Action::CreateSplit(Axis::Vertical)));
    // Alt alone does not fire the Ctrl+Alt row, and vice versa
    assert_eq!(t.dispatch(MOD_ALT, KEY_F1), None);
    assert_eq!(t.dispatch(MOD_CTRL | MOD_ALT, KEY_F13), None);
}

#[test]
fn default_table_registration_count() {
    let t = default_seat_bindings();
    // 24 base bindings, 12 terminal switches, 2 * 13 workspace bindings,
    // 3 media bindings
    assert_eq!(t.len(), 24 + 12 + 26 + 3);
}
