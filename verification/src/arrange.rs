//! The output arrangement engine.
//!
//! A pure function of connector connectivity: when both well-known
//! connectors are connected, the left one sits at the origin and the right
//! one directly beside it at the left one's width; otherwise every
//! position is left exactly as it was. Recomputing with unchanged states
//! is a no-op in effect.

use vstd::prelude::*;

verus! {

/// What the engine reads and writes of one display connector. The host
/// owns the connector; this is the plain-value mirror of the fields the
/// engine touches. `scale_256` is the scale factor in 1/256 units.
#[derive(Clone, Copy, Debug, PartialEq, Eq, Structural)]
pub struct ConnectorState {
    pub connected: bool,
    pub width: i32,
    pub x: i32,
    pub y: i32,
    pub scale_256: i32,
}

/// The arranged pair: positions change if and only if both connectors are
/// connected; nothing else ever changes.
pub open spec fn arranged(left: ConnectorState, right: ConnectorState) -> (ConnectorState,
    ConnectorState) {
    if left.connected && right.connected {
        (
            (ConnectorState { x: 0, y: 0, ..left }),
            (ConnectorState { x: left.width, y: 0, ..right }),
        )
    } else {
        (left, right)
    }
}

/// Recompute the layout of the two well-known connectors. If and only if
/// both are connected, `left` moves to (0, 0) and `right` to
/// (`left.width`, 0); otherwise both keep their previous positions.
/// Connectivity, widths and scales are never written.
pub fn arrange(left: &mut ConnectorState, right: &mut ConnectorState)
    ensures
        (*final(left), *final(right)) == arranged(*old(left), *old(right)),
{
    if left.connected && right.connected {
        left.x = 0;
        left.y = 0;
        right.x = left.width;
        right.y = 0;
    }
}

impl ConnectorState {
    /// Step the connector's scale by `delta_256` (in 1/256 units); every
    /// other field is untouched. The caller rearranges afterwards, since a
    /// scale change can change the effective width the host reports.
    pub fn adjust_scale(&mut self, delta_256: i32)
        requires
            i32::MIN <= old(self).scale_256 + delta_256 <= i32::MAX,
        ensures
            final(self).scale_256 == old(self).scale_256 + delta_256,
            final(self).connected == old(self).connected,
            final(self).width == old(self).width,
            final(self).x == old(self).x,
            final(self).y == old(self).y,
    {
        self.scale_256 = self.scale_256 + delta_256;
    }
}

/// Law: arrangement is idempotent — rearranging an already arranged pair
/// with unchanged connectivity changes nothing.
pub proof fn lemma_arrange_idempotent(left: ConnectorState, right: ConnectorState)
    ensures
        arranged(arranged(left, right).0, arranged(left, right).1) == arranged(left, right),
{
}

/// Law: a pair with a disconnected member is left exactly as it was.
pub proof fn lemma_arrange_skips_disconnected(left: ConnectorState, right: ConnectorState)
    requires
        !left.connected || !right.connected,
    ensures
        arranged(left, right) == (left, right),
{
}

} // verus!
