//! The default configuration: the complete binding table and the startup
//! plan.
//!
//! This is the declarative content of the configuration — which pair maps
//! to which action, which commands run on lifecycle events, which
//! connectors the arrangement engine pairs, and the status timer's name
//! and period. The host-facing shell registers all of it at startup.

use vstd::prelude::*;

verus! {

use vstd::string::StringExecFns;
use crate::actions::{Action, ActionModel, Axis, Direction};
use crate::bindings::{vt_row_model, workspace_row_model, BindingTable};
use crate::keys::{MOD_ALT, MOD_CTRL, MOD_NONE, MOD_SHIFT, KEY_A, KEY_C, KEY_D, KEY_E, KEY_F, KEY_H, KEY_I, KEY_J, KEY_K, KEY_L, KEY_M, KEY_N, KEY_O, KEY_P, KEY_Q, KEY_R, KEY_T, KEY_U, KEY_V, KEY_Y, KEY_SUPER_L, KEY_F1, KEY_F2, KEY_F3, KEY_F4, KEY_F5, KEY_F6, KEY_F7, KEY_F8, KEY_F9, KEY_F10, KEY_F11, KEY_F12, KEY_F13, KEY_F14, KEY_F15, KEY_F16, KEY_F17, KEY_F18, KEY_F19, KEY_F20, KEY_F21, KEY_F22, KEY_F23, KEY_F24, KEY_F25};

/// The primary modifier of every default binding.
pub const DEFAULT_MODS: u32 = MOD_ALT;

/// The scale step of the two scale bindings, in 1/256 units.
pub const SCALE_STEP_256: i32 = 64;

/// The function-key row bound to virtual-terminal switches.
pub open spec fn fn_row_syms() -> Seq<u32> {
    seq![
        KEY_F1,
        KEY_F2,
        KEY_F3,
        KEY_F4,
        KEY_F5,
        KEY_F6,
        KEY_F7,
        KEY_F8,
        KEY_F9,
        KEY_F10,
        KEY_F11,
        KEY_F12,
    ]
}

/// The extended function-key row bound to numbered workspaces.
pub open spec fn ws_row_syms() -> Seq<u32> {
    seq![
        KEY_F13,
        KEY_F14,
        KEY_F15,
        KEY_F16,
        KEY_F17,
        KEY_F18,
        KEY_F19,
        KEY_F20,
        KEY_F21,
        KEY_F22,
        KEY_F23,
        KEY_F24,
        KEY_F25,
    ]
}

/// The default bindings that are not part of a generated row, in
/// registration order.
pub open spec fn base_model() -> Map<(u32, u32), ActionModel> {
    Map::empty().insert((DEFAULT_MODS, KEY_H), ActionModel::FocusMove(Direction::Left)).insert(
        (DEFAULT_MODS, KEY_J),
        ActionModel::FocusMove(Direction::Down),
    ).insert((DEFAULT_MODS, KEY_K), ActionModel::FocusMove(Direction::Up)).insert(
        (DEFAULT_MODS, KEY_L),
        ActionModel::FocusMove(Direction::Right),
    ).insert((DEFAULT_MODS | MOD_SHIFT, KEY_H), ActionModel::WindowMove(Direction::Left)).insert(
        (DEFAULT_MODS | MOD_SHIFT, KEY_J),
        ActionModel::WindowMove(Direction::Down),
    ).insert((DEFAULT_MODS | MOD_SHIFT, KEY_K), ActionModel::WindowMove(Direction::Up)).insert(
        (DEFAULT_MODS | MOD_SHIFT, KEY_L),
        ActionModel::WindowMove(Direction::Right),
    ).insert((DEFAULT_MODS, KEY_D), ActionModel::CreateSplit(Axis::Horizontal)).insert(
        (DEFAULT_MODS, KEY_V),
        ActionModel::CreateSplit(Axis::Vertical),
    ).insert((DEFAULT_MODS, KEY_T), ActionModel::ToggleSplit).insert(
        (DEFAULT_MODS, KEY_M),
        ActionModel::ToggleMono,
    ).insert((DEFAULT_MODS, KEY_U), ActionModel::ToggleFullscreen).insert(
        (DEFAULT_MODS | MOD_SHIFT, KEY_F),
        ActionModel::ToggleFloating,
    ).insert((DEFAULT_MODS, KEY_F), ActionModel::FocusParent).insert(
        (DEFAULT_MODS | MOD_SHIFT, KEY_C),
        ActionModel::CloseWindow,
    ).insert((MOD_NONE, KEY_SUPER_L), ActionModel::Spawn("alacritty"@)).insert(
        (DEFAULT_MODS, KEY_P),
        ActionModel::Spawn("bemenu-run"@),
    ).insert((DEFAULT_MODS, KEY_Q), ActionModel::Quit).insert(
        (DEFAULT_MODS | MOD_SHIFT, KEY_R),
        ActionModel::Reload,
    ).insert((DEFAULT_MODS, KEY_N), ActionModel::DisablePointerConstraint).insert(
        (DEFAULT_MODS, KEY_Y),
        ActionModel::AdjustScale(SCALE_STEP_256),
    ).insert((DEFAULT_MODS, KEY_I), ActionModel::AdjustScale(((-SCALE_STEP_256) as i32))).insert(
        (DEFAULT_MODS | MOD_SHIFT, KEY_M),
        ActionModel::ToggleHardwareCursor,
    )
}

/// The whole default table: the base bindings, then the virtual-terminal
/// row under Ctrl+Alt, then the workspace row under the primary modifier
/// (and with Shift for assignment), then the three media bindings.
pub open spec fn default_table_model() -> Map<(u32, u32), ActionModel> {
    workspace_row_model(
        vt_row_model(base_model(), MOD_CTRL | MOD_ALT, fn_row_syms()),
        DEFAULT_MODS,
        DEFAULT_MODS | MOD_SHIFT,
        ws_row_syms(),
    ).insert((DEFAULT_MODS, KEY_A), ActionModel::SpawnWithArg("spotify-remote"@, "a"@)).insert(
        (DEFAULT_MODS, KEY_O),
        ActionModel::SpawnWithArg("spotify-remote"@, "o"@),
    ).insert((DEFAULT_MODS, KEY_E), ActionModel::SpawnWithArg("spotify-remote"@, "e"@))
}

/// Build the function-key row.
fn fn_row_vec() -> (r: Vec<u32>)
    ensures
        r@ == fn_row_syms(),
{
    let mut v: Vec<u32> = Vec::new();
    v.push(KEY_F1);
    v.push(KEY_F2);
    v.push(KEY_F3);
    v.push(KEY_F4);
    v.push(KEY_F5);
    v.push(KEY_F6);
    v.push(KEY_F7);
    v.push(KEY_F8);
    v.push(KEY_F9);
    v.push(KEY_F10);
    v.push(KEY_F11);
    v.push(KEY_F12);
    proof {
        assert(v@ =~= fn_row_syms());
    }
    v
}

/// Build the extended function-key row.
fn ws_row_vec() -> (r: Vec<u32>)
    ensures
        r@ == ws_row_syms(),
{
    let mut v: Vec<u32> = Vec::new();
    v.push(KEY_F13);
    v.push(KEY_F14);
    v.push(KEY_F15);
    v.push(KEY_F16);
    v.push(KEY_F17);
    v.push(KEY_F18);
    v.push(KEY_F19);
    v.push(KEY_F20);
    v.push(KEY_F21);
    v.push(KEY_F22);
    v.push(KEY_F23);
    v.push(KEY_F24);
    v.push(KEY_F25);
    proof {
        assert(v@ =~= ws_row_syms());
    }
    v
}

/// Register the complete default binding table.
pub fn default_seat_bindings() -> (t: BindingTable)
    ensures
        t@ == default_table_model(),
{
    let mut t = BindingTable::new();
    t.bind(DEFAULT_MODS, KEY_H, Action::FocusMove(Direction::Left));
    t.bind(DEFAULT_MODS, KEY_J, Action::FocusMove(Direction::Down));
    t.bind(DEFAULT_MODS, KEY_K, Action::FocusMove(Direction::Up));
    t.bind(DEFAULT_MODS, KEY_L, Action::FocusMove(Direction::Right));
    t.bind(DEFAULT_MODS | MOD_SHIFT, KEY_H, Action::WindowMove(Direction::Left));
    t.bind(DEFAULT_MODS | MOD_SHIFT, KEY_J, Action::WindowMove(Direction::Down));
    t.bind(DEFAULT_MODS | MOD_SHIFT, KEY_K, Action::WindowMove(Direction::Up));
    t.bind(DEFAULT_MODS | MOD_SHIFT, KEY_L, Action::WindowMove(Direction::Right));
    t.bind(DEFAULT_MODS, KEY_D, Action::CreateSplit(Axis::Horizontal));
    t.bind(DEFAULT_MODS, KEY_V, Action::CreateSplit(Axis::Vertical));
    t.bind(DEFAULT_MODS, KEY_T, Action::ToggleSplit);
    t.bind(DEFAULT_MODS, KEY_M, Action::ToggleMono);
    t.bind(DEFAULT_MODS, KEY_U, Action::ToggleFullscreen);
    t.bind(DEFAULT_MODS | MOD_SHIFT, KEY_F, Action::ToggleFloating);
    t.bind(DEFAULT_MODS, KEY_F, Action::FocusParent);
    t.bind(DEFAULT_MODS | MOD_SHIFT, KEY_C, Action::CloseWindow);
    t.bind(MOD_NONE, KEY_SUPER_L, Action::Spawn(String::from_str("alacritty")));
    t.bind(DEFAULT_MODS, KEY_P, Action::Spawn(String::from_str("bemenu-run")));
    t.bind(DEFAULT_MODS, KEY_Q, Action::Quit);
    t.bind(DEFAULT_MODS | MOD_SHIFT, KEY_R, Action::Reload);
    t.bind(DEFAULT_MODS, KEY_N, Action::DisablePointerConstraint);
    t.bind(DEFAULT_MODS, KEY_Y, Action::AdjustScale(SCALE_STEP_256));
    t.bind(DEFAULT_MODS, KEY_I, Action::AdjustScale(-SCALE_STEP_256));
    t.bind(DEFAULT_MODS | MOD_SHIFT, KEY_M, Action::ToggleHardwareCursor);
    let fn_row = fn_row_vec();
    t.bind_vt_row(MOD_CTRL | MOD_ALT, &fn_row);
    let ws_row = ws_row_vec();
    t.bind_workspace_row(DEFAULT_MODS, DEFAULT_MODS | MOD_SHIFT, &ws_row);
    t.bind(
        DEFAULT_MODS,
        KEY_A,
        Action::SpawnWithArg(String::from_str("spotify-remote"), String::from_str("a")),
    );
    t.bind(
        DEFAULT_MODS,
        KEY_O,
        Action::SpawnWithArg(String::from_str("spotify-remote"), String::from_str("o")),
    );
    t.bind(
        DEFAULT_MODS,
        KEY_E,
        Action::SpawnWithArg(String::from_str("spotify-remote"), String::from_str("e")),
    );
    t
}

/// Law: the default table resolves its landmark pairs as configured — the
/// primary modifier navigates, Shift on top of it moves the window, the
/// bare Super key spawns the terminal, and the generated rows land on
/// their numbered targets.
pub proof fn lemma_default_table_lookups()
    ensures
        default_table_model()[(DEFAULT_MODS, KEY_H)] == ActionModel::FocusMove(Direction::Left),
        default_table_model()[(DEFAULT_MODS | MOD_SHIFT, KEY_H)] == ActionModel::WindowMove(
            Direction::Left,
        ),
        default_table_model()[(MOD_NONE, KEY_SUPER_L)] == ActionModel::Spawn("alacritty"@),
        default_table_model()[(MOD_CTRL | MOD_ALT, KEY_F1)] == ActionModel::SwitchToVt(1),
        default_table_model()[(MOD_CTRL | MOD_ALT, KEY_F12)] == ActionModel::SwitchToVt(12),
        default_table_model()[(DEFAULT_MODS, KEY_F13)] == ActionModel::ShowWorkspace(1),
        default_table_model()[(DEFAULT_MODS | MOD_SHIFT, KEY_F25)] == ActionModel::SetWorkspace(
            13,
        ),
        default_table_model()[(DEFAULT_MODS, KEY_A)] == ActionModel::SpawnWithArg(
            "spotify-remote"@,
            "a"@,
        ),
        !default_table_model().contains_key((DEFAULT_MODS, KEY_F1)),
{
    let base = base_model();
    let fns = fn_row_syms();
    let wss = ws_row_syms();
    let vt = crate::bindings::vt_row_model(base, MOD_CTRL | MOD_ALT, fns);
    let ws = crate::bindings::workspace_row_model(
        vt,
        DEFAULT_MODS,
        DEFAULT_MODS | MOD_SHIFT,
        wss,
    );
    assert(8u32 | 1u32 == 9u32) by (bit_vector);
    assert(4u32 | 8u32 == 12u32) by (bit_vector);
    assert(DEFAULT_MODS | MOD_SHIFT == 9u32);
    assert(MOD_CTRL | MOD_ALT == 12u32);
    assert(forall|i: int, j: int| 0 <= i < j < fns.len() ==> fns[i] != fns[j]);
    assert(forall|i: int, j: int| 0 <= i < j < wss.len() ==> wss[i] != wss[j]);
    crate::bindings::lemma_vt_row_targets(base, MOD_CTRL | MOD_ALT, fns);
    crate::bindings::lemma_workspace_row_targets(vt, DEFAULT_MODS, DEFAULT_MODS | MOD_SHIFT, wss);
    assert(fns[0] == KEY_F1);
    assert(fns[11] == KEY_F12);
    assert(wss[0] == KEY_F13);
    assert(wss[12] == KEY_F25);
    // the base landmarks and the terminal row survive the workspace row
    crate::bindings::lemma_vt_row_preserves(base, MOD_CTRL | MOD_ALT, fns, (DEFAULT_MODS, KEY_H));
    crate::bindings::lemma_vt_row_preserves(
        base,
        MOD_CTRL | MOD_ALT,
        fns,
        (DEFAULT_MODS | MOD_SHIFT, KEY_H),
    );
    crate::bindings::lemma_vt_row_preserves(base, MOD_CTRL | MOD_ALT, fns, (MOD_NONE, KEY_SUPER_L));
    crate::bindings::lemma_vt_row_preserves(base, MOD_CTRL | MOD_ALT, fns, (DEFAULT_MODS, KEY_F1));
    crate::bindings::lemma_workspace_row_preserves(
        vt,
        DEFAULT_MODS,
        DEFAULT_MODS | MOD_SHIFT,
        wss,
        (DEFAULT_MODS, KEY_H),
    );
    crate::bindings::lemma_workspace_row_preserves(
        vt,
        DEFAULT_MODS,
        DEFAULT_MODS | MOD_SHIFT,
        wss,
        (DEFAULT_MODS | MOD_SHIFT, KEY_H),
    );
    crate::bindings::lemma_workspace_row_preserves(
        vt,
        DEFAULT_MODS,
        DEFAULT_MODS | MOD_SHIFT,
        wss,
        (MOD_NONE, KEY_SUPER_L),
    );
    crate::bindings::lemma_workspace_row_preserves(
        vt,
        DEFAULT_MODS,
        DEFAULT_MODS | MOD_SHIFT,
        wss,
        (MOD_CTRL | MOD_ALT, KEY_F1),
    );
    crate::bindings::lemma_workspace_row_preserves(
        vt,
        DEFAULT_MODS,
        DEFAULT_MODS | MOD_SHIFT,
        wss,
        (MOD_CTRL | MOD_ALT, KEY_F12),
    );
    crate::bindings::lemma_workspace_row_preserves(
        vt,
        DEFAULT_MODS,
        DEFAULT_MODS | MOD_SHIFT,
        wss,
        (DEFAULT_MODS, KEY_F1),
    );
    assert(!base.contains_key((DEFAULT_MODS, KEY_F1)));
    assert(ws[(DEFAULT_MODS, wss[0])] == ActionModel::ShowWorkspace(1));
    assert(ws[(DEFAULT_MODS | MOD_SHIFT, wss[12])] == ActionModel::SetWorkspace(13));
}

/// Everything else the shell registers once at startup.
pub struct SetupPlan {
    /// The name of the default input seat.
    pub seat_name: String,
    /// The environment variable set for spawned graphical children.
    pub env_key: String,
    pub env_value: String,
    /// The notification daemon spawned when graphics are ready.
    pub graphics_ready_command: String,
    /// The privileged screen-lock command spawned on idle.
    pub idle_command: String,
    pub idle_args: Vec<String>,
    /// The name of the left connector of the arranged pair.
    pub left_connector: String,
    /// The name of the right connector of the arranged pair.
    pub right_connector: String,
    /// The name of the recurring status timer.
    pub timer_name: String,
    /// The status timer's period, in seconds.
    pub timer_period_secs: u64,
}

/// The startup plan: which seat to configure, the theme environment
/// variable, the two lifecycle commands, the arranged connector pair, and
/// the wall-clock-aligned five-second status timer.
pub fn setup_plan() -> (r: SetupPlan)
    ensures
        r.seat_name@ == "default"@,
        r.env_key@ == "GTK_THEME"@,
        r.env_value@ == "Adwaita:dark"@,
        r.graphics_ready_command@ == "mako"@,
        r.idle_command@ == "jay"@,
        r.idle_args@.len() == 5,
        r.idle_args@[0]@ == "run-privileged"@,
        r.idle_args@[1]@ == "--"@,
        r.idle_args@[2]@ == "swaylock"@,
        r.idle_args@[3]@ == "-c"@,
        r.idle_args@[4]@ == "111111"@,
        r.left_connector@ == "HDMI-A-1"@,
        r.right_connector@ == "DP-3"@,
        r.timer_name@ == "status_timer"@,
        r.timer_period_secs == 5,
{
    let mut idle_args: Vec<String> = Vec::new();
    idle_args.push(String::from_str("run-privileged"));
    idle_args.push(String::from_str("--"));
    idle_args.push(String::from_str("swaylock"));
    idle_args.push(String::from_str("-c"));
    idle_args.push(String::from_str("111111"));
    SetupPlan {
        seat_name: String::from_str("default"),
        env_key: String::from_str("GTK_THEME"),
        env_value: String::from_str("Adwaita:dark"),
        graphics_ready_command: String::from_str("mako"),
        idle_command: String::from_str("jay"),
        idle_args,
        left_connector: String::from_str("HDMI-A-1"),
        right_connector: String::from_str("DP-3"),
        timer_name: String::from_str("status_timer"),
        timer_period_secs: 5,
    }
}

} // verus!
