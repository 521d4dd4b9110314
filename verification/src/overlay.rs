//! The frame-time overlay: which metrics it shows and the frame times it keeps.

use std::collections::VecDeque;

use vstd::prelude::*;

verus! {

/// The metrics that the overlay shows, each on or off.
#[derive(Debug, Clone, Copy, PartialEq)]
pub struct OverlaySettings {
    pub show_fps: bool,
    pub show_frametime: bool,
    pub show_avg: bool,
    pub show_low1: bool,
    pub show_low01: bool,
    pub show_graph: bool,
}

impl Default for OverlaySettings {
    /// Every metric shown.
    fn default() -> (r: Self)
        ensures
            r == (OverlaySettings {
                show_fps: true,
                show_frametime: true,
                show_avg: true,
                show_low1: true,
                show_low01: true,
                show_graph: true,
            }),
    {
        OverlaySettings {
            show_fps: true,
            show_frametime: true,
            show_avg: true,
            show_low1: true,
            show_low01: true,
            show_graph: true,
        }
    }
}

/// How many frame times the overlay keeps.
pub const FRAME_HISTORY_LEN: usize = 100;

/// The frame-time history after recording `sample`: the sample is appended,
/// and where that makes the history longer than it keeps, its oldest entry
/// is dropped.
pub open spec fn recorded<T>(history: Seq<T>, sample: T) -> Seq<T> {
    let pushed = history.push(sample);
    if pushed.len() > FRAME_HISTORY_LEN {
        pushed.drop_first()
    } else {
        pushed
    }
}

/// Records a frame time in the overlay's history.
pub fn record_frame_time<T>(history: &mut VecDeque<T>, sample: T)
    ensures
        final(history)@ == recorded(old(history)@, sample),
{
    history.push_back(sample);
    if history.len() > FRAME_HISTORY_LEN {
        history.pop_front();
    }
}

/// A history kept by recording never grows beyond what the overlay keeps,
/// its newest entry is the sample just recorded, and a full history loses
/// only its oldest entry.
pub proof fn law_history_stays_bounded<T>(history: Seq<T>, sample: T)
    requires
        history.len() <= FRAME_HISTORY_LEN,
    ensures
        recorded(history, sample).len() <= FRAME_HISTORY_LEN,
        recorded(history, sample).last() == sample,
        history.len() < FRAME_HISTORY_LEN ==> recorded(history, sample) == history.push(sample),
        history.len() == FRAME_HISTORY_LEN ==> recorded(history, sample) == history.drop_first().push(
            sample,
        ),
{
    if history.len() == FRAME_HISTORY_LEN {
        assert(history.push(sample).drop_first() =~= history.drop_first().push(sample));
    }
}

/// Whether the settings window shows after a key event: a press of Page Up
/// toggles it, any other event leaves it as it was.
pub fn settings_shown_after_key(shown: bool, pressed: bool, is_page_up: bool) -> (r: bool)
    ensures
        r == (if pressed && is_page_up {
            !shown
        } else {
            shown
        }),
{
    if pressed && is_page_up {
        !shown
    } else {
        shown
    }
}

} // verus!
