use vstd::prelude::*;
use crate::geometry::{plan, MonitorGeometry, OverlayPlacement, WindowSpec};

verus! {

/// Word that names an overlay-capable compositor session in the display's
/// type name.
pub const OVERLAY_SESSION_WORD: &'static str = "wayland";

/// `c` with ASCII upper case letters mapped to lower case, as a code point.
pub open spec fn ascii_lower(c: char) -> u32 {
    if 'A' <= c && c <= 'Z' {
        (c as u32 + 32) as u32
    } else {
        c as u32
    }
}

/// `needle` occurs in `hay` at `at`, ignoring ASCII case.
pub open spec fn occurs_at(hay: Seq<char>, needle: Seq<char>, at: int) -> bool {
    &&& 0 <= at
    &&& at + needle.len() <= hay.len()
    &&& forall|j: int| 0 <= j < needle.len() ==> ascii_lower(#[trigger] hay[at + j]) == ascii_lower(needle[j])
}

/// `needle` occurs somewhere in `hay`, ignoring ASCII case.
pub open spec fn contains_ignore_case(hay: Seq<char>, needle: Seq<char>) -> bool {
    exists|at: int| occurs_at(hay, needle, at)
}

fn lower_code(c: char) -> (r: u32)
    ensures
        r == ascii_lower(c),
{
    if 'A' <= c && c <= 'Z' {
        c as u32 + 32
    } else {
        c as u32
    }
}

fn matches_at(hay: &str, needle: &str, at: usize) -> (r: bool)
    requires
        at + needle@.len() <= hay@.len(),
        hay@.len() <= usize::MAX,
    ensures
        r == occurs_at(hay@, needle@, at as int),
{
    let m = needle.unicode_len();
    let mut j: usize = 0;
    while j < m
        invariant
            m == needle@.len(),
            at + m <= hay@.len(),
            hay@.len() <= usize::MAX,
            j <= m,
            forall|k: int| 0 <= k < j ==> ascii_lower(#[trigger] hay@[at + k]) == ascii_lower(needle@[k]),
        decreases m - j,
    {
        if lower_code(hay.get_char(at + j)) != lower_code(needle.get_char(j)) {
            return false;
        }
        j = j + 1;
    }
    true
}

/// Whether `needle` occurs in `hay`, ignoring ASCII case.
pub fn contains_ascii_ignore_case(hay: &str, needle: &str) -> (r: bool)
    ensures
        r == contains_ignore_case(hay@, needle@),
{
    let n = hay.unicode_len();
    let m = needle.unicode_len();
    if m > n {
        assert forall|at: int| !occurs_at(hay@, needle@, at) by {}
        return false;
    }
    let mut at: usize = 0;
    while at <= n - m
        invariant
            n == hay@.len(),
            m == needle@.len(),
            m <= n,
            forall|k: int| 0 <= k < at ==> !occurs_at(hay@, needle@, k),
        decreases n - m + 1 - at,
    {
        if matches_at(hay, needle, at) {
            return true;
        }
        at = at + 1;
    }
    assert forall|k: int| !occurs_at(hay@, needle@, k) by {
        if 0 <= k < at {
        }
    }
    false
}

/// Whether the session can host the window as a compositor overlay: the
/// display is a Wayland one (by its type name, in any case) and the overlay
/// protocol is available.
pub fn session_supports_overlay(display_type_name: &str, overlay_protocol_available: bool) -> (r:
    bool)
    ensures
        r == (contains_ignore_case(display_type_name@, OVERLAY_SESSION_WORD@)
            && overlay_protocol_available),
{
    overlay_protocol_available && contains_ascii_ignore_case(
        display_type_name,
        OVERLAY_SESSION_WORD,
    )
}

/// How the window is set up as a compositor overlay.
#[derive(Clone, Copy, Debug, PartialEq, Eq, Structural)]
pub struct OverlaySetup {
    /// Placed on the top layer.
    pub top_layer: bool,
    /// Anchored to the screen edges (never: the overlay floats).
    pub anchored: bool,
    /// Requested surface width.
    pub width: i32,
    /// Requested surface height.
    pub height: i32,
    /// Reserves an exclusive zone the size of the window.
    pub auto_exclusive_zone: bool,
    /// Takes keyboard focus only while interacted with.
    pub on_demand_keyboard: bool,
    /// Margins that centre the overlay; `None` when no monitor is known.
    pub margins: Option<OverlayPlacement>,
}

/// Where and how the window is placed.
#[derive(Clone, Copy, Debug, PartialEq, Eq, Structural)]
pub enum WindowPlacement {
    /// A compositor overlay, set up as described.
    Overlay(OverlaySetup),
    /// An ordinary top-level window at the toolkit's default placement, with
    /// no exclusive zone and ordinary keyboard handling.
    ToolkitDefault,
}

/// Chooses the window's placement from the session's overlay support and
/// the first monitor's geometry, when there is one.
pub fn plan_placement(
    supports_overlay: bool,
    monitor: Option<MonitorGeometry>,
    window: WindowSpec,
) -> (r: WindowPlacement)
    ensures
        !supports_overlay ==> r is ToolkitDefault,
        supports_overlay ==> r is Overlay,
        r is Overlay ==> ({
            let o = r->Overlay_0;
            &&& o.top_layer
            &&& !o.anchored
            &&& o.width == window.width
            &&& o.height == window.height
            &&& o.auto_exclusive_zone
            &&& o.on_demand_keyboard
            &&& (o.margins is Some <==> monitor is Some)
            &&& monitor is Some ==> (o.margins->0.left_margin == if monitor->0.width
                <= window.width {
                0
            } else {
                (monitor->0.width - window.width) / 2
            } && o.margins->0.top_margin == if monitor->0.height <= window.height {
                0
            } else {
                (monitor->0.height - window.height) / 2
            })
        }),
{
    if !supports_overlay {
        return WindowPlacement::ToolkitDefault;
    }
    let margins = match monitor {
        Some(m) => Some(plan(m, window)),
        None => None,
    };
    WindowPlacement::Overlay(
        OverlaySetup {
            top_layer: true,
            anchored: false,
            width: window.width,
            height: window.height,
            auto_exclusive_zone: true,
            on_demand_keyboard: true,
            margins,
        },
    )
}

} // verus!
