//! What each output's overlay paints, and the single selection shared by
//! all outputs.

use vstd::prelude::*;
use crate::placement::PixelRect;

verus! {

/// The selection after a drag of `rect` on output `i`.
pub open spec fn select_on_spec<R>(prev: Option<(usize, R)>, i: usize, rect: R) -> Option<(usize, R)> {
    Some((i, rect))
}

/// Claims the single shared selection for output `i`. One selection exists
/// at a time across all monitors; a new drag overwrites any prior one (last
/// wins).
pub fn select_on<R>(prev: Option<(usize, R)>, i: usize, rect: R) -> (r: Option<(usize, R)>)
    ensures
        r == select_on_spec(prev, i, rect),
{
    Some((i, rect))
}

/// Whether output `index` owns the shared selection.
pub fn is_active_output<R>(active: &Option<(usize, R)>, index: usize) -> (r: bool)
    ensures
        r <==> (active matches Some(a) && a.0 == index),
{
    match active {
        Some(a) => a.0 == index,
        None => false,
    }
}

/// What one output's overlay paints in a frame.
#[derive(Clone, Copy, Debug, PartialEq, Eq, Structural)]
pub struct Spotlight {
    /// Dim the whole surface.
    pub dim: bool,
    /// Clear a fully transparent hole over the selection.
    pub hole: bool,
    /// Stroke the accent border just outside the selection.
    pub border: bool,
    /// Draw this countdown number centred in the selection.
    pub countdown: Option<u32>,
}

/// The paint plan: every output dims while not recording; only the active
/// output with a selection punches the hole (not while recording), strokes
/// the border and shows the countdown. While recording, the active output
/// shows the border only and the others draw nothing.
pub open spec fn spotlight_spec(has_selection: bool, active: bool, recording: bool, countdown: Option<u32>) -> Spotlight {
    if has_selection && active {
        Spotlight { dim: !recording, hole: !recording, border: true, countdown: countdown }
    } else {
        Spotlight { dim: !recording, hole: false, border: false, countdown: None }
    }
}

/// Decides what an output's overlay paints, given whether there is a
/// selection, whether this output owns it, whether a recording is running,
/// and the countdown in progress, if any.
pub fn spotlight(has_selection: bool, active: bool, recording: bool, countdown: Option<u32>) -> (r:
    Spotlight)
    ensures
        r == spotlight_spec(has_selection, active, recording, countdown),
        r.dim == !recording,
        r.hole == (has_selection && active && !recording),
        r.border == (has_selection && active),
        r.countdown == (if has_selection && active { countdown } else { None }),
{
    if has_selection && active {
        Spotlight { dim: !recording, hole: !recording, border: true, countdown }
    } else {
        Spotlight { dim: !recording, hole: false, border: false, countdown: None }
    }
}

/// The input region while recording: only the control bar catches pointer
/// events. Negative sizes count as zero, and a zero-size bar (hidden, as at a
/// full-screen selection) lets every event pass through.
pub fn bar_input_region(x: i32, y: i32, w: i32, h: i32) -> (r: PixelRect)
    ensures
        r.x == x,
        r.y == y,
        r.w == (if w > 0 { w } else { 0 }),
        r.h == (if h > 0 { h } else { 0 }),
{
    PixelRect { x, y, w: if w > 0 { w } else { 0 }, h: if h > 0 { h } else { 0 } }
}

/// A new drag replaces the selection, whichever output held it before:
/// after two drags only the second one's output and rectangle remain.
pub proof fn lemma_last_selection_wins<R>(prev: Option<(usize, R)>, a: R, b: R, i: usize, j: usize)
    ensures
        select_on_spec(select_on_spec(prev, i, a), j, b) == Some((j, b)),
{
}

/// Every output dims exactly while no recording runs, selection or not;
/// only the output that owns a selection clears the hole (and only before
/// recording), strokes the border and shows the countdown.
pub proof fn lemma_spotlight_rules(has_selection: bool, active: bool, recording: bool, countdown: Option<u32>)
    ensures
        spotlight_spec(has_selection, active, recording, countdown).dim == !recording,
        spotlight_spec(has_selection, active, recording, countdown).hole == (has_selection && active
            && !recording),
        spotlight_spec(has_selection, active, recording, countdown).border == (has_selection
            && active),
        spotlight_spec(has_selection, active, recording, countdown).countdown == (if has_selection
            && active {
            countdown
        } else {
            None
        }),
{
}

/// The overlay is never part of the recording: while a recording runs no
/// output dims or clears a hole, the active output only strokes the border
/// (outside the captured rectangle), and every other output paints nothing.
pub proof fn lemma_recording_paints_border_only(has_selection: bool, active: bool, countdown: Option<u32>)
    ensures
        !spotlight_spec(has_selection, active, true, countdown).dim,
        !spotlight_spec(has_selection, active, true, countdown).hole,
        spotlight_spec(has_selection, active, true, countdown).border <==> (has_selection && active),
        !(has_selection && active) ==> spotlight_spec(has_selection, active, true, countdown)
            == (Spotlight { dim: false, hole: false, border: false, countdown: None }),
{
}

} // verus!
