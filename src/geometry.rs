use vstd::prelude::*;

verus! {

/// Fixed width of the launcher window, in logical pixels.
pub const WINDOW_WIDTH: i32 = 1200;

/// Fixed height of the launcher window, in logical pixels.
pub const WINDOW_HEIGHT: i32 = 800;

/// The desired window: its size and the two fixed window flags.
#[derive(Clone, Copy, Debug, PartialEq, Eq, Structural)]
pub struct WindowSpec {
    pub width: i32,
    pub height: i32,
    pub resizable: bool,
    pub modal: bool,
}

impl WindowSpec {
    /// The launcher's one window: 1200 by 800, neither resizable nor modal.
    pub fn launcher() -> (r: WindowSpec)
        ensures
            r.width == WINDOW_WIDTH,
            r.height == WINDOW_HEIGHT,
            !r.resizable,
            !r.modal,
    {
        WindowSpec { width: WINDOW_WIDTH, height: WINDOW_HEIGHT, resizable: false, modal: false }
    }
}

/// Size of the display output the overlay is centred on.
#[derive(Clone, Copy, Debug, PartialEq, Eq, Structural)]
pub struct MonitorGeometry {
    pub width: i32,
    pub height: i32,
}

/// Margins from the monitor's left and top edges that centre the overlay.
#[derive(Clone, Copy, Debug, PartialEq, Eq, Structural)]
pub struct OverlayPlacement {
    pub left_margin: i32,
    pub top_margin: i32,
}

fn centre_axis(outer: i32, inner: i32) -> (r: i32)
    ensures
        outer >= inner ==> r == (outer - inner) / 2,
        outer < inner ==> r == 0,
        r >= 0,
{
    if outer <= inner {
        0
    } else {
        let diff: i64 = outer as i64 - inner as i64;
        (diff / 2) as i32
    }
}

/// Centres `window` over `monitor`; a margin is clamped to zero where the
/// monitor is smaller than the window along that axis.
pub fn plan(monitor: MonitorGeometry, window: WindowSpec) -> (r: OverlayPlacement)
    ensures
        monitor.width >= window.width ==> r.left_margin == (monitor.width - window.width) / 2,
        monitor.height >= window.height ==> r.top_margin == (monitor.height - window.height) / 2,
        monitor.width < window.width ==> r.left_margin == 0,
        monitor.height < window.height ==> r.top_margin == 0,
        r.left_margin >= 0,
        r.top_margin >= 0,
{
    OverlayPlacement {
        left_margin: centre_axis(monitor.width, window.width),
        top_margin: centre_axis(monitor.height, window.height),
    }
}

} // verus!
