//! Actions a key binding can trigger.
//!
//! An action is plain data: the dispatch table resolves a key event to an
//! action, and the host-facing shell performs it. Spawned commands are
//! fire-and-forget; a spawn failure is reported by the shell and never
//! reaches the dispatcher.

use vstd::prelude::*;

verus! {

/// A focus / move direction.
#[derive(Clone, Copy, Debug, PartialEq, Eq)]
pub enum Direction {
    Left,
    Down,
    Up,
    Right,
}

/// A split orientation.
#[derive(Clone, Copy, Debug, PartialEq, Eq)]
pub enum Axis {
    Horizontal,
    Vertical,
}

/// What a binding does when dispatched.
#[derive(Clone, Debug, PartialEq, Eq)]
pub enum Action {
    /// Move the focus in a direction.
    FocusMove(Direction),
    /// Move the focused window in a direction.
    WindowMove(Direction),
    /// Create a split container along an axis.
    CreateSplit(Axis),
    /// Toggle the orientation of the focused container.
    ToggleSplit,
    /// Toggle mono layout of the focused container.
    ToggleMono,
    /// Toggle fullscreen of the focused window.
    ToggleFullscreen,
    /// Toggle floating of the focused window.
    ToggleFloating,
    /// Focus the parent container.
    FocusParent,
    /// Close the focused window.
    CloseWindow,
    /// Spawn an external command, fire-and-forget.
    Spawn(String),
    /// Spawn an external command with one argument, fire-and-forget.
    SpawnWithArg(String, String),
    /// Quit the compositor.
    Quit,
    /// Reload the configuration.
    Reload,
    /// Release the active pointer constraint.
    DisablePointerConstraint,
    /// Change a connector's scale by a step, in 1/256 units, then rearrange.
    AdjustScale(i32),
    /// Flip the hardware-cursor toggle of the seat.
    ToggleHardwareCursor,
    /// Switch to the numbered virtual terminal.
    SwitchToVt(u32),
    /// Show the workspace with the given number.
    ShowWorkspace(u32),
    /// Move the focused window to the workspace with the given number.
    SetWorkspace(u32),
}

/// The mathematical value of an [`Action`]: command strings are character
/// sequences, everything else is carried unchanged.
pub enum ActionModel {
    FocusMove(Direction),
    WindowMove(Direction),
    CreateSplit(Axis),
    ToggleSplit,
    ToggleMono,
    ToggleFullscreen,
    ToggleFloating,
    FocusParent,
    CloseWindow,
    Spawn(Seq<char>),
    SpawnWithArg(Seq<char>, Seq<char>),
    Quit,
    Reload,
    DisablePointerConstraint,
    AdjustScale(i32),
    ToggleHardwareCursor,
    SwitchToVt(u32),
    ShowWorkspace(u32),
    SetWorkspace(u32),
}

impl View for Action {
    type V = ActionModel;

    open spec fn view(&self) -> ActionModel {
        match self {
            Action::FocusMove(d) => ActionModel::FocusMove(*d),
            Action::WindowMove(d) => ActionModel::WindowMove(*d),
            Action::CreateSplit(a) => ActionModel::CreateSplit(*a),
            Action::ToggleSplit => ActionModel::ToggleSplit,
            Action::ToggleMono => ActionModel::ToggleMono,
            Action::ToggleFullscreen => ActionModel::ToggleFullscreen,
            Action::ToggleFloating => ActionModel::ToggleFloating,
            Action::FocusParent => ActionModel::FocusParent,
            Action::CloseWindow => ActionModel::CloseWindow,
            Action::Spawn(cmd) => ActionModel::Spawn(cmd@),
            Action::SpawnWithArg(cmd, arg) => ActionModel::SpawnWithArg(cmd@, arg@),
            Action::Quit => ActionModel::Quit,
            Action::Reload => ActionModel::Reload,
            Action::DisablePointerConstraint => ActionModel::DisablePointerConstraint,
            Action::AdjustScale(d) => ActionModel::AdjustScale(*d),
            Action::ToggleHardwareCursor => ActionModel::ToggleHardwareCursor,
            Action::SwitchToVt(n) => ActionModel::SwitchToVt(*n),
            Action::ShowWorkspace(n) => ActionModel::ShowWorkspace(*n),
            Action::SetWorkspace(n) => ActionModel::SetWorkspace(*n),
        }
    }
}

} // verus!
