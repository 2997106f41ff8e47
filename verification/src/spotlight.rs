use vstd::prelude::*;
use crate::geometry::{mouse_in_rect, mouse_in_rect_spec, Point, Rect, Size};

verus! {

/// Why no window behind the overlay could be named.
#[derive(Clone, Copy, Debug, PartialEq, Eq)]
pub enum Error {
    /// The window server did not hand back an on-screen window list.
    CouldNotGetWindowsList,
    /// The list held no window the overlay should yield focus to.
    NoWindowBehind,
}

/// What the window server reports of one on-screen window.
///
/// Each field is read out of the window's description separately, and any of
/// them may be absent or unreadable there; such a field is `None`, and the
/// selector skips the record.
#[derive(Clone, Copy, Debug, PartialEq, Eq)]
pub struct WindowInfo {
    /// Process id of the application that owns the window.
    pub owner_id: Option<i32>,
    /// The window server's id for the window.
    pub window_id: Option<u32>,
    /// The level the window is drawn at; higher levels stand in front.
    pub layer: Option<i32>,
    /// The window's bounds on the screen.
    pub bounds: Option<Rect>,
}

impl WindowInfo {
    /// Every field the selector reads was present in the window's description.
    pub open spec fn complete(self) -> bool {
        &&& self.owner_id is Some
        &&& self.window_id is Some
        &&& self.layer is Some
        &&& self.bounds is Some
    }
}

/// A window drawn above the main-menu level: a full-screen window (or a
/// window raised by application switching), which should regain focus even
/// though its level is high.
pub open spec fn is_fullscreen_window(w: WindowInfo, main_menu_level: int) -> bool
    recommends
        w.complete(),
{
    w.layer->0 > main_menu_level
}

/// A window drawn below the floating level: an ordinary document window,
/// not a floating panel or a menu.
pub open spec fn is_regular_window(w: WindowInfo, floating_level: int) -> bool
    recommends
        w.complete(),
{
    w.layer->0 < floating_level
}

/// A record the overlay may hand focus to: complete, with its layer outside
/// the band from the floating level up to the main-menu level. Windows inside
/// that band (panels, docks, menus) are passed over.
pub open spec fn eligible(w: WindowInfo, floating_level: int, main_menu_level: int) -> bool {
    &&& w.complete()
    &&& (is_fullscreen_window(w, main_menu_level) || is_regular_window(w, floating_level))
}

/// Pick the window the overlay should hand focus to.
///
/// `windows` is the on-screen window list below the overlay, front to back,
/// as the window server reported it, or `None` where no list came back.
/// `floating_level` and `main_menu_level` are the window levels the system
/// assigns those two bands. The first eligible record wins and its owner
/// process id and window id come back; with no list the lookup fails, and
/// with no eligible record there is nothing to focus.
pub fn window_behind(
    windows: Option<&Vec<WindowInfo>>,
    floating_level: i32,
    main_menu_level: i32,
) -> (r: Result<(i32, u32), Error>)
    ensures
        match windows {
            None => r == Err::<(i32, u32), Error>(Error::CouldNotGetWindowsList),
            Some(ws) => match r {
                Ok(hit) => exists|i: int|
                    0 <= i < ws@.len() && #[trigger] eligible(
                        ws@[i],
                        floating_level as int,
                        main_menu_level as int,
                    ) && ws@[i].owner_id == Some(hit.0) && ws@[i].window_id == Some(hit.1)
                        && forall|j: int|
                        0 <= j < i ==> !eligible(
                            #[trigger] ws@[j],
                            floating_level as int,
                            main_menu_level as int,
                        ),
                Err(e) => e == Error::NoWindowBehind && forall|j: int|
                    0 <= j < ws@.len() ==> !eligible(
                        #[trigger] ws@[j],
                        floating_level as int,
                        main_menu_level as int,
                    ),
            },
        },
{
    let ws = match windows {
        None => {
            return Err(Error::CouldNotGetWindowsList);
        },
        Some(ws) => ws,
    };
    let mut i: usize = 0;
    while i < ws.len()
        invariant
            windows == Some(ws),
            i <= ws@.len(),
            forall|j: int|
                0 <= j < i ==> !eligible(
                    #[trigger] ws@[j],
                    floating_level as int,
                    main_menu_level as int,
                ),
        decreases ws@.len() - i,
    {
        let w = ws[i];
        match (w.owner_id, w.window_id, w.layer, w.bounds) {
            (Some(owner_id), Some(window_id), Some(layer), Some(_bounds)) => {
                let is_fullscreen = layer > main_menu_level;
                let is_regular = layer < floating_level;
                if is_fullscreen || is_regular {
                    proof {
                        assert(eligible(
                            ws@[i as int],
                            floating_level as int,
                            main_menu_level as int,
                        ));
                        assert(windows->0 == ws);
                    }
                    return Ok((owner_id, window_id));
                }
            },
            _ => {},
        }
        i = i + 1;
    }
    Err(Error::NoWindowBehind)
}

/// Pick the screen that holds the cursor.
///
/// `screens` are the screen frames in the order the system lists them. The
/// index of the first frame the cursor hits comes back, or `None` where the
/// cursor is outside every frame. Screen frames are disjoint, so the first
/// hit is the only one (`geometry::lemma_disjoint_unique_hit`).
pub fn monitor_with_cursor(screens: &Vec<Rect>, cursor: Point) -> (r: Option<usize>)
    requires
        forall|i: int| 0 <= i < screens@.len() ==> (#[trigger] screens@[i]).wf(),
    ensures
        match r {
            Some(i) => i < screens@.len() && mouse_in_rect_spec(cursor, screens@[i as int])
                && forall|j: int|
                0 <= j < i ==> !mouse_in_rect_spec(cursor, #[trigger] screens@[j]),
            None => forall|j: int|
                0 <= j < screens@.len() ==> !mouse_in_rect_spec(cursor, #[trigger] screens@[j]),
        },
{
    let mut i: usize = 0;
    while i < screens.len()
        invariant
            i <= screens@.len(),
            forall|k: int| 0 <= k < screens@.len() ==> (#[trigger] screens@[k]).wf(),
            forall|j: int| 0 <= j < i ==> !mouse_in_rect_spec(cursor, #[trigger] screens@[j]),
        decreases screens@.len() - i,
    {
        if mouse_in_rect(cursor, screens[i]) {
            return Some(i);
        }
        i = i + 1;
    }
    None
}

/// Where a window frame starts so that it sits centered on a display.
///
/// `display_pos` is the display's origin and `display_size` its extent;
/// `window_size` is the frame being placed. The result is the frame's origin:
/// the display's center, pulled back by half the frame on each axis.
pub fn centered_window_origin(display_pos: Point, display_size: Size, window_size: Size) -> (r:
    Point)
    requires
        display_size.wf(),
        window_size.wf(),
        display_pos.x + display_size.width / 2 <= i64::MAX,
        display_pos.y + display_size.height / 2 <= i64::MAX,
        i64::MIN <= display_pos.x + display_size.width / 2 - window_size.width / 2,
        i64::MIN <= display_pos.y + display_size.height / 2 - window_size.height / 2,
    ensures
        r.x == display_pos.x + display_size.width / 2 - window_size.width / 2,
        r.y == display_pos.y + display_size.height / 2 - window_size.height / 2,
{
    let x = display_pos.x + display_size.width / 2 - window_size.width / 2;
    let y = display_pos.y + display_size.height / 2 - window_size.height / 2;
    Point { x, y }
}

} // verus!
