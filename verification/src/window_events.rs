//! Window events: which system events the window hooks listen to, which of
//! them concern windows, and what each becomes.
use vstd::prelude::*;

use crate::error::{Error, Result};
use crate::native_window::{NativeWindowInner, WindowId};

verus! {

/// `EVENT_SYSTEM_FOREGROUND`: a window came to the foreground.
pub const EVENT_SYSTEM_FOREGROUND: u32 = 0x0003;

/// `EVENT_SYSTEM_MOVESIZESTART`: a window started moving or resizing.
pub const EVENT_SYSTEM_MOVESIZESTART: u32 = 0x000A;

/// `EVENT_SYSTEM_MOVESIZEEND`: a window stopped moving or resizing.
pub const EVENT_SYSTEM_MOVESIZEEND: u32 = 0x000B;

/// `EVENT_SYSTEM_MINIMIZESTART`: a window is being minimized.
pub const EVENT_SYSTEM_MINIMIZESTART: u32 = 0x0016;

/// `EVENT_SYSTEM_MINIMIZEEND`: a window was restored from minimized.
pub const EVENT_SYSTEM_MINIMIZEEND: u32 = 0x0017;

/// `EVENT_OBJECT_DESTROY`: an object was destroyed.
pub const EVENT_OBJECT_DESTROY: u32 = 0x8001;

/// `EVENT_OBJECT_SHOW`: an object was shown.
pub const EVENT_OBJECT_SHOW: u32 = 0x8002;

/// `EVENT_OBJECT_HIDE`: an object was hidden.
pub const EVENT_OBJECT_HIDE: u32 = 0x8003;

/// `EVENT_OBJECT_LOCATIONCHANGE`: an object moved or changed size.
pub const EVENT_OBJECT_LOCATIONCHANGE: u32 = 0x800B;

/// `EVENT_OBJECT_NAMECHANGE`: an object's name (a window's title) changed.
pub const EVENT_OBJECT_NAMECHANGE: u32 = 0x800C;

/// `EVENT_OBJECT_CLOAKED`: a window was cloaked.
pub const EVENT_OBJECT_CLOAKED: u32 = 0x8017;

/// `EVENT_OBJECT_UNCLOAKED`: a window was uncloaked.
pub const EVENT_OBJECT_UNCLOAKED: u32 = 0x8018;

/// `OBJID_WINDOW`: the event concerns the window itself.
pub const OBJID_WINDOW: i32 = 0;

/// An event of a window.
#[derive(Clone, Debug, PartialEq, Eq, Structural)]
pub enum WindowEvent {
    Destroy(WindowId),
    Focus(NativeWindowInner),
    Hide(NativeWindowInner),
    LocationChange(NativeWindowInner),
    Minimize(NativeWindowInner),
    MinimizeEnd(NativeWindowInner),
    MoveOrResizeEnd(NativeWindowInner),
    MoveOrResizeStart(NativeWindowInner),
    Show(NativeWindowInner),
    TitleChange(NativeWindowInner),
}

/// The ranges of event types, from smallest to largest, for which one hook
/// each is set.
pub open spec fn spec_event_ranges() -> Seq<(u32, u32)> {
    seq![
        (EVENT_OBJECT_LOCATIONCHANGE, EVENT_OBJECT_LOCATIONCHANGE),
        (EVENT_OBJECT_DESTROY, EVENT_OBJECT_HIDE),
        (EVENT_SYSTEM_MINIMIZESTART, EVENT_SYSTEM_MINIMIZEEND),
        (EVENT_SYSTEM_MOVESIZEEND, EVENT_SYSTEM_MOVESIZEEND),
        (EVENT_SYSTEM_MOVESIZESTART, EVENT_SYSTEM_MOVESIZESTART),
        (EVENT_SYSTEM_FOREGROUND, EVENT_SYSTEM_FOREGROUND),
        (EVENT_OBJECT_LOCATIONCHANGE, EVENT_OBJECT_NAMECHANGE),
        (EVENT_OBJECT_CLOAKED, EVENT_OBJECT_UNCLOAKED),
    ]
}

/// The ranges of event types for which the window listener sets hooks.
pub fn window_event_ranges() -> (r: Vec<(u32, u32)>)
    ensures
        r@ == spec_event_ranges(),
{
    let mut ranges: Vec<(u32, u32)> = Vec::new();
    ranges.push((EVENT_OBJECT_LOCATIONCHANGE, EVENT_OBJECT_LOCATIONCHANGE));
    ranges.push((EVENT_OBJECT_DESTROY, EVENT_OBJECT_HIDE));
    ranges.push((EVENT_SYSTEM_MINIMIZESTART, EVENT_SYSTEM_MINIMIZEEND));
    ranges.push((EVENT_SYSTEM_MOVESIZEEND, EVENT_SYSTEM_MOVESIZEEND));
    ranges.push((EVENT_SYSTEM_MOVESIZESTART, EVENT_SYSTEM_MOVESIZESTART));
    ranges.push((EVENT_SYSTEM_FOREGROUND, EVENT_SYSTEM_FOREGROUND));
    ranges.push((EVENT_OBJECT_LOCATIONCHANGE, EVENT_OBJECT_NAMECHANGE));
    ranges.push((EVENT_OBJECT_CLOAKED, EVENT_OBJECT_UNCLOAKED));
    assert(ranges@ =~= spec_event_ranges());
    ranges
}

/// The range to hook next when `set` hooks are already in place, one hook
/// per range in the order of `spec_event_ranges`; `None` once every range
/// has its hook.
pub fn next_hook_range(set: usize) -> (r: Option<(u32, u32)>)
    ensures
        set < spec_event_ranges().len() ==> r == Some(spec_event_ranges()[set as int]),
        set >= spec_event_ranges().len() ==> r is None,
{
    let ranges = window_event_ranges();
    if set < ranges.len() {
        Some(ranges[set])
    } else {
        None
    }
}

/// The hooks in place after one more attempt to set a hook: the new handle
/// is added after the others, and a failed attempt ends the setup with its
/// error.
pub fn record_hook(handles: Vec<isize>, result: Result<isize>) -> (r: Result<Vec<isize>>)
    ensures
        result matches Err(e) ==> r == Err::<Vec<isize>, Error>(e),
        result matches Ok(h) ==> (r matches Ok(v) && v@ == handles@.push(h)),
{
    match result {
        Ok(h) => {
            let mut handles = handles;
            handles.push(h);
            Ok(handles)
        },
        Err(e) => Err(e),
    }
}

/// Whether a hook call concerns a window itself, not one of its controls:
/// the object is `OBJID_WINDOW`, the child is 0 and the handle is not null.
pub open spec fn spec_is_window_event(id_object: i32, id_child: i32, handle: isize) -> bool {
    id_object == OBJID_WINDOW && id_child == 0 && handle != 0
}

/// Whether a hook call concerns a window itself.
pub fn is_window_event(id_object: i32, id_child: i32, handle: isize) -> (r: bool)
    ensures
        r == spec_is_window_event(id_object, id_child, handle),
{
    id_object == OBJID_WINDOW && id_child == 0 && handle != 0
}

/// The window event that an event of type `event_type` for the window
/// `handle` becomes, if any.
pub open spec fn spec_window_event(event_type: u32, handle: isize) -> Option<WindowEvent> {
    let window = NativeWindowInner { handle };
    if event_type == EVENT_OBJECT_DESTROY {
        Some(WindowEvent::Destroy(WindowId(handle)))
    } else if event_type == EVENT_SYSTEM_FOREGROUND {
        Some(WindowEvent::Focus(window))
    } else if event_type == EVENT_OBJECT_HIDE || event_type == EVENT_OBJECT_CLOAKED {
        Some(WindowEvent::Hide(window))
    } else if event_type == EVENT_OBJECT_LOCATIONCHANGE {
        Some(WindowEvent::LocationChange(window))
    } else if event_type == EVENT_SYSTEM_MINIMIZESTART {
        Some(WindowEvent::Minimize(window))
    } else if event_type == EVENT_SYSTEM_MINIMIZEEND {
        Some(WindowEvent::MinimizeEnd(window))
    } else if event_type == EVENT_SYSTEM_MOVESIZEEND {
        Some(WindowEvent::MoveOrResizeEnd(window))
    } else if event_type == EVENT_SYSTEM_MOVESIZESTART {
        Some(WindowEvent::MoveOrResizeStart(window))
    } else if event_type == EVENT_OBJECT_SHOW || event_type == EVENT_OBJECT_UNCLOAKED {
        Some(WindowEvent::Show(window))
    } else if event_type == EVENT_OBJECT_NAMECHANGE {
        Some(WindowEvent::TitleChange(window))
    } else {
        None
    }
}

/// The window event that an event of type `event_type` for the window
/// `handle` becomes; `None` for an event type the window manager ignores.
pub fn window_event_for(event_type: u32, handle: isize) -> (r: Option<WindowEvent>)
    ensures
        r == spec_window_event(event_type, handle),
{
    let window = NativeWindowInner::new(handle);
    if event_type == EVENT_OBJECT_DESTROY {
        Some(WindowEvent::Destroy(window.id()))
    } else if event_type == EVENT_SYSTEM_FOREGROUND {
        Some(WindowEvent::Focus(window))
    } else if event_type == EVENT_OBJECT_HIDE || event_type == EVENT_OBJECT_CLOAKED {
        Some(WindowEvent::Hide(window))
    } else if event_type == EVENT_OBJECT_LOCATIONCHANGE {
        Some(WindowEvent::LocationChange(window))
    } else if event_type == EVENT_SYSTEM_MINIMIZESTART {
        Some(WindowEvent::Minimize(window))
    } else if event_type == EVENT_SYSTEM_MINIMIZEEND {
        Some(WindowEvent::MinimizeEnd(window))
    } else if event_type == EVENT_SYSTEM_MOVESIZEEND {
        Some(WindowEvent::MoveOrResizeEnd(window))
    } else if event_type == EVENT_SYSTEM_MOVESIZESTART {
        Some(WindowEvent::MoveOrResizeStart(window))
    } else if event_type == EVENT_OBJECT_SHOW || event_type == EVENT_OBJECT_UNCLOAKED {
        Some(WindowEvent::Show(window))
    } else if event_type == EVENT_OBJECT_NAMECHANGE {
        Some(WindowEvent::TitleChange(window))
    } else {
        None
    }
}

/// Whether `event_type` lies in one of the hooked ranges.
pub open spec fn spec_is_hooked(event_type: u32) -> bool {
    exists|i: int|
        0 <= i < spec_event_ranges().len() && (#[trigger] spec_event_ranges()[i]).0 <= event_type
            <= spec_event_ranges()[i].1
}

/// Every event type that becomes a window event lies in one of the hooked
/// ranges, so the hooks deliver every event the window manager acts on.
pub proof fn lemma_handled_events_are_hooked(event_type: u32, handle: isize)
    ensures
        spec_window_event(event_type, handle) is Some ==> spec_is_hooked(event_type),
{
    let r = spec_event_ranges();
    if spec_window_event(event_type, handle) is Some {
        if event_type == EVENT_OBJECT_LOCATIONCHANGE {
            assert(r[0].0 <= event_type <= r[0].1);
        } else if EVENT_OBJECT_DESTROY <= event_type <= EVENT_OBJECT_HIDE {
            assert(r[1].0 <= event_type <= r[1].1);
        } else if EVENT_SYSTEM_MINIMIZESTART <= event_type <= EVENT_SYSTEM_MINIMIZEEND {
            assert(r[2].0 <= event_type <= r[2].1);
        } else if event_type == EVENT_SYSTEM_MOVESIZEEND {
            assert(r[3].0 <= event_type <= r[3].1);
        } else if event_type == EVENT_SYSTEM_MOVESIZESTART {
            assert(r[4].0 <= event_type <= r[4].1);
        } else if event_type == EVENT_SYSTEM_FOREGROUND {
            assert(r[5].0 <= event_type <= r[5].1);
        } else if event_type == EVENT_OBJECT_NAMECHANGE {
            assert(r[6].0 <= event_type <= r[6].1);
        } else {
            assert(r[7].0 <= event_type <= r[7].1);
        }
    }
}

} // verus!
