//! Decisions of the Windows back end for a native window. The back end
//! queries the window system and performs the calls; what it computes from
//! the answers, and what it asks the window system to do, is decided here.
use vstd::prelude::*;

use crate::error::{Error, Result};
use crate::geometry::{Color, Delta, LengthValue, OpacityValue, Rect, RectDelta};
use crate::text::{decode_prefix, first_piece, last_piece, first_component, last_component, utf16_lossy};

verus! {

/// Raw handle (`HWND`) of a native window.
pub type RawWindowId = isize;

/// Identifier of a native window.
#[derive(Clone, Copy, Debug, PartialEq, Eq, Structural)]
pub struct WindowId(pub RawWindowId);

/// `WS_CHILD`: the window is a child window.
pub const WS_CHILD: isize = 0x4000_0000;

/// `WS_CAPTION`: the window has a title bar.
pub const WS_CAPTION: isize = 0x00C0_0000;

/// `WS_DLGFRAME`: the window has a dialog-box border.
pub const WS_DLGFRAME: isize = 0x0040_0000;

/// `WS_THICKFRAME`: the window has a sizing border.
pub const WS_THICKFRAME: isize = 0x0004_0000;

/// `WS_EX_LAYERED`: the window is a layered window.
pub const WS_EX_LAYERED: isize = 0x0008_0000;

/// `WS_EX_NOACTIVATE`: the window does not become the foreground window.
pub const WS_EX_NOACTIVATE: isize = 0x0800_0000;

/// `WS_EX_TOOLWINDOW`: the window is a tool window.
pub const WS_EX_TOOLWINDOW: isize = 0x0000_0080;

/// `LWA_COLORKEY`: a layered window uses a colour key.
pub const LWA_COLORKEY: u32 = 0x1;

/// `LWA_ALPHA`: a layered window uses an alpha value.
pub const LWA_ALPHA: u32 = 0x2;

/// `DWMWA_COLOR_NONE`: no border colour.
pub const DWMWA_COLOR_NONE: u32 = 0xFFFF_FFFE;

/// A native window, known by its handle.
#[derive(Clone, Debug, PartialEq, Eq, Structural)]
pub struct NativeWindowInner {
    pub handle: RawWindowId,
}

/// Corner style of a window.
#[derive(Clone, Copy, Debug, PartialEq, Eq, Structural)]
pub enum CornerStyle {
    Default,
    Square,
    Rounded,
    SmallRounded,
}

/// How a window is hidden.
#[derive(Clone, Copy, Debug, PartialEq, Eq, Structural)]
pub enum HideMethod {
    /// Hides the window using `SW_HIDE`. The window can be shown again with
    /// `SW_SHOWNA`.
    Hide,
    /// Cloaks the window using the `IApplicationView::SetCloak` method.
    ///
    /// Cloaked windows are hidden from the user but can still be shown in
    /// the taskbar and alt+tab menu. Cloaking is not supported by all
    /// applications.
    Cloak,
}

/// Position of a window in the z-order.
#[derive(Clone, Copy, Debug, PartialEq, Eq, Structural)]
pub enum ZOrder {
    Normal,
    AfterWindow(WindowId),
    Top,
    TopMost,
}

/// A change of a window's state that the back end carries out.
#[derive(Clone, Copy, Debug, PartialEq, Eq, Structural)]
pub enum WindowAction {
    /// Show the window without activating it (`SW_SHOWNA`).
    Show,
    /// Hide the window (`SW_HIDE`).
    Hide,
    /// Cloak (`true`) or uncloak (`false`) the window.
    SetCloaked(bool),
    /// Add the window to (`true`) or remove it from (`false`) the taskbar.
    SetTaskbarVisibility(bool),
    /// Set the border colour, or remove it.
    SetBorderColor(Option<Color>),
    /// Set the window's opacity.
    SetTransparency(OpacityValue),
}

/// Whether `style` has any of the bits of `flag`.
pub open spec fn spec_has_style(style: isize, flag: isize) -> bool {
    style & flag != 0
}

/// Whether the style value `style` has any of the bits of `flag`.
pub fn has_style(style: isize, flag: isize) -> (r: bool)
    ensures
        r == spec_has_style(style, flag),
{
    style & flag != 0
}

/// The style with the dialog frame (the title bar) switched on or off.
pub open spec fn spec_title_bar_style(style: isize, visible: bool) -> isize {
    if visible {
        style | WS_DLGFRAME
    } else {
        style & !WS_DLGFRAME
    }
}

/// The new style value for showing (`visible`) or hiding the title bar of a
/// window whose style value is `style`, or `None` when the style already
/// has it so and nothing is to be written.
pub fn title_bar_style(style: isize, visible: bool) -> (r: Option<isize>)
    ensures
        r == (if spec_title_bar_style(style, visible) != style {
            Some(spec_title_bar_style(style, visible))
        } else {
            None::<isize>
        }),
{
    let new_style = if visible {
        style | WS_DLGFRAME
    } else {
        style & !WS_DLGFRAME
    };
    if new_style != style {
        Some(new_style)
    } else {
        None
    }
}

/// After the title-bar style is written, the dialog-frame bit is set exactly
/// when the title bar is to be visible, all other bits are as they were, and
/// asking again for the same visibility writes nothing.
pub proof fn lemma_title_bar_style(style: isize, visible: bool)
    ensures
        spec_has_style(spec_title_bar_style(style, visible), WS_DLGFRAME) == visible,
        spec_title_bar_style(style, visible) & !WS_DLGFRAME == style & !WS_DLGFRAME,
        spec_title_bar_style(spec_title_bar_style(style, visible), visible)
            == spec_title_bar_style(style, visible),
        (spec_title_bar_style(style, visible) == style) == (spec_has_style(style, WS_DLGFRAME)
            == visible),
{
    let d: isize = 0x0040_0000;
    assert((style | d) & d != 0) by (bit_vector)
        requires
            d == 0x0040_0000isize,
    ;
    assert((style & !d) & d == 0) by (bit_vector);
    assert((style | d) & !d == style & !d) by (bit_vector);
    assert((style & !d) & !d == style & !d) by (bit_vector);
    assert((style | d) | d == style | d) by (bit_vector);
    assert(((style | d) == style) == (style & d != 0)) by (bit_vector)
        requires
            d == 0x0040_0000isize,
    ;
    assert(((style & !d) == style) == (style & d == 0)) by (bit_vector);
}

/// The extended style value with the bits of `flag` added, or `None` when
/// the window already has any of them and nothing is to be written.
pub fn added_style(style: isize, flag: isize) -> (r: Option<isize>)
    ensures
        r == (if style & flag == 0 {
            Some(style | flag)
        } else {
            None::<isize>
        }),
{
    if style & flag == 0 {
        Some(style | flag)
    } else {
        None
    }
}

/// Adding a style sets all its bits and leaves the others unchanged.
pub proof fn lemma_added_style(style: isize, flag: isize)
    ensures
        (style | flag) & flag == flag,
        (style | flag) & !flag == style & !flag,
{
    assert((style | flag) & flag == flag) by (bit_vector);
    assert((style | flag) & !flag == style & !flag) by (bit_vector);
}

/// `SWP_NOSIZE`: keep the current size.
pub const SWP_NOSIZE: u32 = 0x0001;

/// `SWP_NOMOVE`: keep the current position.
pub const SWP_NOMOVE: u32 = 0x0002;

/// `SWP_NOZORDER`: keep the current z-order.
pub const SWP_NOZORDER: u32 = 0x0004;

/// `SWP_NOACTIVATE`: do not activate the window.
pub const SWP_NOACTIVATE: u32 = 0x0010;

/// `SWP_FRAMECHANGED`: apply a changed frame style.
pub const SWP_FRAMECHANGED: u32 = 0x0020;

/// `SWP_SHOWWINDOW`: show the window.
pub const SWP_SHOWWINDOW: u32 = 0x0040;

/// `SWP_NOCOPYBITS`: discard the client area's contents.
pub const SWP_NOCOPYBITS: u32 = 0x0100;

/// `SWP_NOOWNERZORDER`: keep the owner's z-order.
pub const SWP_NOOWNERZORDER: u32 = 0x0200;

/// `SWP_NOSENDCHANGING`: do not send `WM_WINDOWPOSCHANGING`.
pub const SWP_NOSENDCHANGING: u32 = 0x0400;

/// `SWP_ASYNCWINDOWPOS`: do not wait for the window's thread.
pub const SWP_ASYNCWINDOWPOS: u32 = 0x4000;

/// Flags for setting position and size together.
pub const SET_FRAME_FLAGS: u32 = SWP_NOACTIVATE | SWP_NOCOPYBITS | SWP_NOSENDCHANGING
    | SWP_ASYNCWINDOWPOS | SWP_NOZORDER;

/// Flags for setting the size alone.
pub const RESIZE_FLAGS: u32 = SET_FRAME_FLAGS | SWP_NOMOVE;

/// Flags for setting the position alone.
pub const REPOSITION_FLAGS: u32 = SET_FRAME_FLAGS | SWP_NOSIZE;

/// Flags for applying a changed frame style.
pub const FRAME_CHANGED_FLAGS: u32 = SWP_FRAMECHANGED | SWP_NOMOVE | SWP_NOSIZE | SWP_NOZORDER
    | SWP_NOOWNERZORDER | SWP_NOACTIVATE | SWP_NOCOPYBITS | SWP_NOSENDCHANGING
    | SWP_ASYNCWINDOWPOS;

/// Flags for changing the z-order.
pub const Z_ORDER_FLAGS: u32 = SWP_NOACTIVATE | SWP_NOCOPYBITS | SWP_ASYNCWINDOWPOS
    | SWP_SHOWWINDOW | SWP_NOMOVE | SWP_NOSIZE;

/// `HWND_TOP`: the top of the z-order.
pub const HWND_TOP: isize = 0;

/// `HWND_TOPMOST`: above all non-topmost windows.
pub const HWND_TOPMOST: isize = -1;

/// `HWND_NOTOPMOST`: above all non-topmost windows, but not topmost.
pub const HWND_NOTOPMOST: isize = -2;

/// The arguments of one `SetWindowPos` call.
#[derive(Clone, Copy, Debug, PartialEq, Eq, Structural)]
pub struct WindowPosRequest {
    pub insert_after: isize,
    pub x: i32,
    pub y: i32,
    pub cx: i32,
    pub cy: i32,
    pub flags: u32,
}

/// The call that gives a window the frame `rect`.
pub fn set_frame_request(rect: &Rect) -> (r: WindowPosRequest)
    requires
        rect.has_i32_size(),
    ensures
        r == (WindowPosRequest {
            insert_after: 0,
            x: rect.left,
            y: rect.top,
            cx: rect.spec_width() as i32,
            cy: rect.spec_height() as i32,
            flags: SET_FRAME_FLAGS,
        }),
{
    WindowPosRequest {
        insert_after: 0,
        x: rect.left,
        y: rect.top,
        cx: rect.width(),
        cy: rect.height(),
        flags: SET_FRAME_FLAGS,
    }
}

/// The call that gives a window the size `width` by `height` and keeps its
/// position.
pub fn resize_request(width: i32, height: i32) -> (r: WindowPosRequest)
    ensures
        r == (WindowPosRequest {
            insert_after: 0,
            x: 0,
            y: 0,
            cx: width,
            cy: height,
            flags: RESIZE_FLAGS,
        }),
{
    WindowPosRequest { insert_after: 0, x: 0, y: 0, cx: width, cy: height, flags: RESIZE_FLAGS }
}

/// The call that moves a window to `(x, y)` and keeps its size.
pub fn reposition_request(x: i32, y: i32) -> (r: WindowPosRequest)
    ensures
        r == (WindowPosRequest { insert_after: 0, x, y, cx: 0, cy: 0, flags: REPOSITION_FLAGS }),
{
    WindowPosRequest { insert_after: 0, x, y, cx: 0, cy: 0, flags: REPOSITION_FLAGS }
}

/// The call that makes a changed frame style take effect.
pub fn frame_changed_request() -> (r: WindowPosRequest)
    ensures
        r == (WindowPosRequest {
            insert_after: HWND_NOTOPMOST,
            x: 0,
            y: 0,
            cx: 0,
            cy: 0,
            flags: FRAME_CHANGED_FLAGS,
        }),
{
    WindowPosRequest {
        insert_after: HWND_NOTOPMOST,
        x: 0,
        y: 0,
        cx: 0,
        cy: 0,
        flags: FRAME_CHANGED_FLAGS,
    }
}

/// The window handle after which a window with z-order `z` is placed.
pub open spec fn spec_insert_after(z: ZOrder) -> isize {
    match z {
        ZOrder::TopMost => HWND_TOPMOST,
        ZOrder::Top => HWND_TOP,
        ZOrder::Normal => HWND_NOTOPMOST,
        ZOrder::AfterWindow(id) => id.0,
    }
}

/// The call that places a window in the z-order `z`.
pub fn z_order_request(z: &ZOrder) -> (r: WindowPosRequest)
    ensures
        r == (WindowPosRequest {
            insert_after: spec_insert_after(*z),
            x: 0,
            y: 0,
            cx: 0,
            cy: 0,
            flags: Z_ORDER_FLAGS,
        }),
{
    let insert_after = match z {
        ZOrder::TopMost => HWND_TOPMOST,
        ZOrder::Top => HWND_TOP,
        ZOrder::Normal => HWND_NOTOPMOST,
        ZOrder::AfterWindow(id) => id.0,
    };
    WindowPosRequest { insert_after, x: 0, y: 0, cx: 0, cy: 0, flags: Z_ORDER_FLAGS }
}

/// The `DWMWA_WINDOW_CORNER_PREFERENCE` value for a corner style:
/// `DWMWCP_DEFAULT` (0), `DWMWCP_DONOTROUND` (1), `DWMWCP_ROUND` (2) or
/// `DWMWCP_ROUNDSMALL` (3).
pub fn corner_preference(corner_style: &CornerStyle) -> (r: i32)
    ensures
        r == match *corner_style {
            CornerStyle::Default => 0i32,
            CornerStyle::Square => 1i32,
            CornerStyle::Rounded => 2i32,
            CornerStyle::SmallRounded => 3i32,
        },
{
    match corner_style {
        CornerStyle::Default => 0,
        CornerStyle::Square => 1,
        CornerStyle::Rounded => 2,
        CornerStyle::SmallRounded => 3,
    }
}

/// The `DWMWA_BORDER_COLOR` value: the colour's `COLORREF`, or
/// `DWMWA_COLOR_NONE` for no colour.
pub fn border_color_value(color: Option<&Color>) -> (r: u32)
    ensures
        r == match color {
            Some(c) => c.spec_bgr() as u32,
            None => DWMWA_COLOR_NONE,
        },
{
    match color {
        Some(c) => c.to_bgr(),
        None => DWMWA_COLOR_NONE,
    }
}

/// A border colour value never means "no colour" by accident: the value of
/// a colour differs from `DWMWA_COLOR_NONE`.
pub proof fn lemma_border_color_distinct(c: Color)
    ensures
        c.spec_bgr() != DWMWA_COLOR_NONE,
{
}

/// The error text for adjusting the transparency of a colour-keyed window.
pub open spec fn color_key_text() -> Seq<char> {
    "Window uses color key for its transparency and cannot be adjusted."@
}

/// The alpha value after changing `alpha` by `delta`, clamped to 0..=255.
pub open spec fn spec_adjusted_alpha(alpha: u8, delta: Delta<OpacityValue>) -> u8 {
    if delta.is_negative {
        if alpha - delta.inner.alpha < 0 {
            0
        } else {
            (alpha - delta.inner.alpha) as u8
        }
    } else {
        if alpha + delta.inner.alpha > 255 {
            255
        } else {
            (alpha + delta.inner.alpha) as u8
        }
    }
}

/// The opacity that results from changing a window's current alpha value
/// `alpha` by `opacity_delta`. A window whose layered-window flags hold
/// `LWA_COLORKEY` cannot be adjusted.
pub fn adjusted_opacity(alpha: u8, flags: u32, opacity_delta: &Delta<OpacityValue>) -> (r: Result<
    OpacityValue,
>)
    ensures
        flags & LWA_COLORKEY == LWA_COLORKEY ==> (r matches Err(Error::Platform(m)) && m@
            == color_key_text()),
        flags & LWA_COLORKEY != LWA_COLORKEY ==> r == Ok::<OpacityValue, Error>(
            OpacityValue { alpha: spec_adjusted_alpha(alpha, *opacity_delta) },
        ),
        flags & LWA_COLORKEY != LWA_COLORKEY ==> (r matches Ok(o) && o.alpha == (if opacity_delta.is_negative {
            if alpha >= opacity_delta.inner.alpha {
                alpha - opacity_delta.inner.alpha
            } else {
                0
            }
        } else {
            if alpha + opacity_delta.inner.alpha <= 255 {
                alpha + opacity_delta.inner.alpha
            } else {
                255
            }
        })),
{
    if flags & LWA_COLORKEY == LWA_COLORKEY {
        return Err(
            Error::Platform(
                "Window uses color key for its transparency and cannot be adjusted.".to_owned(),
            ),
        );
    }
    let target_alpha = if opacity_delta.is_negative {
        alpha.saturating_sub(opacity_delta.inner.to_alpha())
    } else {
        alpha.saturating_add(opacity_delta.inner.to_alpha())
    };
    Ok(OpacityValue::from_alpha(target_alpha))
}

/// Raising the opacity never lowers the alpha value and lowering it never
/// raises it; a change by zero keeps it.
pub proof fn lemma_adjusted_alpha_monotone(alpha: u8, delta: Delta<OpacityValue>)
    ensures
        delta.is_negative ==> spec_adjusted_alpha(alpha, delta) <= alpha,
        !delta.is_negative ==> spec_adjusted_alpha(alpha, delta) >= alpha,
        delta.inner.alpha == 0 ==> spec_adjusted_alpha(alpha, delta) == alpha,
{
}

/// The value passed to `IApplicationView::SetCloak` for cloaking (2) or
/// uncloaking (0).
pub fn cloak_flag(cloaked: bool) -> (r: u32)
    ensures
        r == (if cloaked {
            2u32
        } else {
            0u32
        }),
{
    if cloaked {
        2
    } else {
        0
    }
}

/// Whether `frame` covers `monitor` up to one pixel of leeway on each edge.
pub open spec fn covers_monitor(frame: Rect, monitor: Rect) -> bool {
    &&& frame.left <= monitor.left + 1
    &&& frame.top <= monitor.top + 1
    &&& frame.right >= monitor.right - 1
    &&& frame.bottom >= monitor.bottom - 1
}

/// Whether the shadow frame and frame give edge distances that fit in an
/// `i32`.
pub open spec fn border_delta_fits(border: Rect, frame: Rect) -> bool {
    &&& i32::MIN <= frame.left - border.left <= i32::MAX
    &&& i32::MIN <= frame.top - border.top <= i32::MAX
    &&& i32::MIN <= border.right - frame.right <= i32::MAX
    &&& i32::MIN <= border.bottom - frame.bottom <= i32::MAX
}

/// The distances from a window's frame to its shadow frame, edge by edge.
pub open spec fn spec_border_delta(border: Rect, frame: Rect) -> RectDelta {
    RectDelta {
        left: LengthValue::from_px_spec((frame.left - border.left) as i32),
        top: LengthValue::from_px_spec((frame.top - border.top) as i32),
        right: LengthValue::from_px_spec((border.right - frame.right) as i32),
        bottom: LengthValue::from_px_spec((border.bottom - frame.bottom) as i32),
    }
}

/// The first stage of the fullscreen test, from the answer on whether the
/// window is maximized: a failed query gives its error and a maximized
/// window is not fullscreen, both without the frame being read; only for a
/// window that is not maximized is the answer left open (`None`), and the
/// frame is read next.
pub fn fullscreen_after_maximized(is_maximized: Result<bool>) -> (r: Option<Result<bool>>)
    ensures
        is_maximized is Err ==> r == Some(is_maximized),
        is_maximized == Ok::<bool, Error>(true) ==> r == Some(Ok::<bool, Error>(false)),
        is_maximized == Ok::<bool, Error>(false) ==> r is None,
{
    match is_maximized {
        Err(e) => Some(Err(e)),
        Ok(true) => Some(Ok(false)),
        Ok(false) => None,
    }
}

/// The second stage of the fullscreen test, for a window that is not
/// maximized: the window is fullscreen when its frame reaches each edge of
/// the monitor `monitor_rect`, with one pixel of leeway; a failed frame
/// query gives its error.
pub fn fullscreen_from_frame(monitor_rect: &Rect, frame: Result<Rect>) -> (r: Result<bool>)
    ensures
        r == match frame {
            Ok(f) => Ok::<bool, Error>(covers_monitor(f, *monitor_rect)),
            Err(e) => Err(e),
        },
        frame matches Ok(f) ==> r == Ok::<bool, Error>(
            f.left <= monitor_rect.left + 1 && f.top <= monitor_rect.top + 1 && f.right
                >= monitor_rect.right - 1 && f.bottom >= monitor_rect.bottom - 1,
        ),
{
    let position = match frame {
        Ok(f) => f,
        Err(e) => return Err(e),
    };
    Ok(position.left as i64 <= monitor_rect.left as i64 + 1 && position.top as i64
        <= monitor_rect.top as i64 + 1 && position.right as i64 >= monitor_rect.right as i64 - 1
        && position.bottom as i64 >= monitor_rect.bottom as i64 - 1)
}

/// Whether a window's `DWMWA_CLOAKED` value, when it could be read, says
/// that the window is cloaked (any value but 0).
pub fn cloaked_from(cloaked: Result<u32>) -> (r: Result<bool>)
    ensures
        r == match cloaked {
            Ok(c) => Ok::<bool, Error>(c != 0),
            Err(e) => Err(e),
        },
{
    match cloaked {
        Ok(c) => Ok(c != 0),
        Err(e) => Err(e),
    }
}

impl NativeWindowInner {
    /// Creates a window for the handle `handle`.
    pub fn new(handle: RawWindowId) -> (r: NativeWindowInner)
        ensures
            r.handle == handle,
    {
        NativeWindowInner { handle }
    }

    /// The window's identifier.
    pub fn id(&self) -> (r: WindowId)
        ensures
            r == WindowId(self.handle),
    {
        WindowId(self.handle)
    }

    /// Whether the window is fullscreen on the monitor `monitor_rect`,
    /// given the answers of the window system on whether it is maximized and
    /// where its frame is. A maximized window is not fullscreen; otherwise
    /// the window is fullscreen when its frame reaches each edge of the
    /// monitor, with one pixel of leeway. The two stages are
    /// `fullscreen_after_maximized` and `fullscreen_from_frame`; the frame
    /// matters only when the first stage leaves the answer open.
    pub fn is_fullscreen(&self, monitor_rect: &Rect, is_maximized: Result<bool>, frame: Result<
        Rect,
    >) -> (r: Result<bool>)
        ensures
            is_maximized is Err ==> r == is_maximized,
            is_maximized == Ok::<bool, Error>(true) ==> r == Ok::<bool, Error>(false),
            is_maximized == Ok::<bool, Error>(false) ==> r == match frame {
                Ok(f) => Ok::<bool, Error>(covers_monitor(f, *monitor_rect)),
                Err(e) => Err(e),
            },
    {
        match fullscreen_after_maximized(is_maximized) {
            Some(decided) => decided,
            None => fullscreen_from_frame(monitor_rect, frame),
        }
    }

    /// The size of the window's shadow borders: the distances from its frame
    /// to its shadow frame, from the window system's answers for both.
    pub fn shadow_border_delta(&self, shadow_frame: Result<Rect>, frame: Result<Rect>) -> (r:
        Result<RectDelta>)
        requires
            shadow_frame matches Ok(b) ==> (frame matches Ok(f) ==> border_delta_fits(b, f)),
        ensures
            shadow_frame matches Err(e) ==> r == Err::<RectDelta, Error>(e),
            shadow_frame matches Ok(b) ==> r == match frame {
                Ok(f) => Ok::<RectDelta, Error>(spec_border_delta(b, f)),
                Err(e) => Err(e),
            },
    {
        let border_pos = match shadow_frame {
            Ok(b) => b,
            Err(e) => return Err(e),
        };
        let frame_pos = match frame {
            Ok(f) => f,
            Err(e) => return Err(e),
        };
        Ok(
            RectDelta::new(
                LengthValue::from_px(frame_pos.left - border_pos.left),
                LengthValue::from_px(frame_pos.top - border_pos.top),
                LengthValue::from_px(border_pos.right - frame_pos.right),
                LengthValue::from_px(border_pos.bottom - frame_pos.bottom),
            ),
        )
    }

    /// What is done to show (`visible`) or hide the window by `hide_method`:
    /// show or hide it, or uncloak or cloak it.
    pub fn set_visible(&self, visible: bool, hide_method: &HideMethod) -> (r: WindowAction)
        ensures
            r == match *hide_method {
                HideMethod::Hide => if visible {
                    WindowAction::Show
                } else {
                    WindowAction::Hide
                },
                HideMethod::Cloak => WindowAction::SetCloaked(!visible),
            },
    {
        match hide_method {
            HideMethod::Hide => {
                if visible {
                    WindowAction::Show
                } else {
                    WindowAction::Hide
                }
            },
            HideMethod::Cloak => WindowAction::SetCloaked(!visible),
        }
    }

    /// What is done, in order, to leave the window as it was before the
    /// window manager touched it: show it, put it back in the taskbar,
    /// remove the border colour and make it fully opaque.
    pub fn cleanup(&self) -> (r: Vec<WindowAction>)
        ensures
            r@ == seq![
                WindowAction::Show,
                WindowAction::SetTaskbarVisibility(true),
                WindowAction::SetBorderColor(None),
                WindowAction::SetTransparency(OpacityValue { alpha: 255 }),
            ],
    {
        let mut steps: Vec<WindowAction> = Vec::new();
        steps.push(WindowAction::Show);
        steps.push(WindowAction::SetTaskbarVisibility(true));
        steps.push(WindowAction::SetBorderColor(None));
        steps.push(WindowAction::SetTransparency(OpacityValue::from_alpha(u8::MAX)));
        steps
    }
}

/// A window's title from the window system's answers: whether the handle
/// still names a window, and the text buffer with the number of code units
/// that `GetWindowTextW` wrote into it.
pub fn title_from_text(is_window: bool, text: &[u16], length: i32) -> (r: Result<String>)
    requires
        is_window ==> 0 <= length <= text@.len(),
    ensures
        !is_window ==> r matches Err(Error::WindowNotFound),
        is_window ==> (r matches Ok(t) && t@ == utf16_lossy(text@.take(length as int))),
{
    if !is_window {
        return Err(Error::WindowNotFound);
    }
    Ok(decode_prefix(text, length as usize))
}

/// A window's class name from the buffer and the number of code units that
/// `GetClassNameW` wrote into it; 0 means that the call failed, and then
/// `last_error` is the error.
pub fn class_name_from_buffer(buffer: &[u16], length: i32, last_error: Error) -> (r: Result<String>)
    requires
        0 <= length <= buffer@.len(),
    ensures
        length == 0 ==> r == Err::<String, Error>(last_error),
        length != 0 ==> (r matches Ok(t) && t@ == utf16_lossy(buffer@.take(length as int))),
{
    if length == 0 {
        return Err(last_error);
    }
    Ok(decode_prefix(buffer, length as usize))
}

/// The process name in an executable path: the file name after the last
/// backslash, up to its first dot.
pub open spec fn spec_process_name(path: Seq<char>) -> Seq<char> {
    first_component(last_component(path, '\\'), '.')
}

/// A process's name from the buffer and the number of code units that
/// `QueryFullProcessImageNameW` wrote into it: the file name of the
/// executable, without anything from its first dot on.
pub fn process_name_from_image_path(buffer: &[u16], length: u32) -> (r: Result<String>)
    requires
        length <= buffer@.len(),
    ensures
        r matches Ok(name) && name@ == spec_process_name(utf16_lossy(buffer@.take(length as int))),
{
    let exe_path = decode_prefix(buffer, length as usize);
    let file_name = last_piece(exe_path.as_str(), '\\');
    Ok(first_piece(file_name.as_str(), '.'))
}

/// Whether a window is visible: the window system says it is, and, only
/// then asked, says it is not cloaked (`DWMWA_CLOAKED` is 0).
pub fn visible_and_uncloaked(is_visible: bool, cloaked: Result<u32>) -> (r: Result<bool>)
    ensures
        !is_visible ==> r == Ok::<bool, Error>(false),
        is_visible ==> r == match cloaked {
            Ok(c) => Ok::<bool, Error>(c == 0),
            Err(e) => Err(e),
        },
{
    match visibility_after_window_flag(is_visible) {
        Some(decided) => decided,
        None => visibility_from_cloak(cloaked),
    }
}

/// The first stage of the visibility test, from `IsWindowVisible`: a window
/// that is not visible is decided at once (`false`) and its cloak is not
/// read; for a visible window the answer is left open (`None`) and the
/// cloak is read next.
pub fn visibility_after_window_flag(is_visible: bool) -> (r: Option<Result<bool>>)
    ensures
        !is_visible ==> r == Some(Ok::<bool, Error>(false)),
        is_visible ==> r is None,
{
    if !is_visible {
        Some(Ok(false))
    } else {
        None
    }
}

/// The second stage of the visibility test, for a window that
/// `IsWindowVisible` reports visible: it is visible when it is not cloaked
/// (`DWMWA_CLOAKED` is 0); a failed cloak query gives its error.
pub fn visibility_from_cloak(cloaked: Result<u32>) -> (r: Result<bool>)
    ensures
        r == match cloaked {
            Ok(c) => Ok::<bool, Error>(c == 0),
            Err(e) => Err(e),
        },
{
    match cloaked {
        Ok(c) => Ok(c == 0),
        Err(e) => Err(e),
    }
}

/// A window's frame: the extended frame bounds from DWM when they could be
/// read, and otherwise the window rectangle including its shadow.
pub fn frame_or_shadow(extended_frame: Result<Rect>, shadow_frame: Result<Rect>) -> (r: Result<Rect>)
    ensures
        extended_frame is Ok ==> r == extended_frame,
        extended_frame is Err ==> r == shadow_frame,
{
    match frame_from_extended(extended_frame) {
        Some(rect) => Ok(rect),
        None => shadow_frame,
    }
}

/// The first stage of reading a window's frame: the extended frame bounds
/// when DWM gave them; `None` when it did not, and the window rectangle
/// including its shadow is read instead.
pub fn frame_from_extended(extended_frame: Result<Rect>) -> (r: Option<Rect>)
    ensures
        extended_frame matches Ok(rect) ==> r == Some(rect),
        extended_frame is Err ==> r is None,
{
    match extended_frame {
        Ok(rect) => Some(rect),
        Err(_) => None,
    }
}

/// What the window system says of a window, for deciding whether the
/// window manager manages it.
pub struct ManageabilityQuery {
    /// Whether the window is visible.
    pub is_visible: Result<bool>,
    /// The name of the window's process.
    pub process_name: Result<String>,
    /// The window's title.
    pub title: Result<String>,
    /// The window's class name.
    pub class_name: Result<String>,
    /// The window's style value (`GWL_STYLE`).
    pub style: isize,
    /// The window's extended style value (`GWL_EXSTYLE`).
    pub ex_style: isize,
    /// The window's frame.
    pub frame: Result<Rect>,
    /// The handle of the window's owner (`GW_OWNER`), 0 when it has none.
    pub owner: isize,
}

/// The name under which the Flow Launcher window is always managed.
pub open spec fn flow_launcher_text() -> Seq<char> {
    "Flow.Launcher"@
}

/// Whether a window is an application window: top-level, and able to be
/// focused and shown in the task switcher.
pub open spec fn spec_is_application_window(style: isize, ex_style: isize) -> bool {
    !spec_has_style(style, WS_CHILD) && !spec_has_style(ex_style, WS_EX_NOACTIVATE | WS_EX_TOOLWINDOW)
}

/// Whether a window is a menu window: it has an owner and no title bar.
pub open spec fn spec_is_menu_window(style: isize, owner: isize) -> bool {
    owner != 0 && !spec_has_style(style, WS_CAPTION)
}

/// The answer on manageability, from the window system's answers, checked
/// in order: a failed query before the answer is known is returned as
/// error; a hidden window is not managed; the Flow Launcher window is
/// managed; a window that is not an application window is not managed; a
/// window whose frame cannot be read gives that error; a menu window is not
/// managed; any other window is.
pub open spec fn spec_manageable(q: ManageabilityQuery) -> Result<bool> {
    match q.is_visible {
        Err(e) => Err(e),
        Ok(false) => Ok(false),
        Ok(true) => match q.process_name {
            Err(e) => Err(e),
            Ok(process_name) => match q.title {
                Err(e) => Err(e),
                Ok(title) => match q.class_name {
                    Err(e) => Err(e),
                    Ok(_) => if process_name@ == flow_launcher_text() && title@
                        == flow_launcher_text() {
                        Ok(true)
                    } else if !spec_is_application_window(q.style, q.ex_style) {
                        Ok(false)
                    } else {
                        match q.frame {
                            Err(e) => Err(e),
                            Ok(_) => Ok(!spec_is_menu_window(q.style, q.owner)),
                        }
                    },
                },
            },
        },
    }
}

/// Whether two strings hold the same characters.
fn str_eq(a: &str, b: &str) -> (r: bool)
    ensures
        r == (a@ == b@),
{
    let n = a.unicode_len();
    if n != b.unicode_len() {
        return false;
    }
    let mut i: usize = 0;
    while i < n
        invariant
            i <= n,
            n == a@.len(),
            n == b@.len(),
            forall|k: int| 0 <= k < i ==> a@[k] == b@[k],
        decreases n - i,
    {
        if a.get_char(i) != b.get_char(i) {
            return false;
        }
        i = i + 1;
    }
    assert(a@ =~= b@);
    true
}

/// The question that the manageability check asks the window system next,
/// with what it has learnt so far that it still needs.
pub enum ManageabilityStage {
    /// Is the window visible?
    Visibility,
    /// What is the name of the window's process?
    ProcessName,
    /// What is the window's title?
    Title { process_name: String },
    /// What is the window's class name?
    ClassName { process_name: String, title: String },
    /// What is the window's style value (read for `WS_CHILD`)?
    ChildStyle,
    /// What is the window's extended style value?
    ExStyle,
    /// What is the window's frame?
    Frame,
    /// What is the window's owner (`GW_OWNER`)?
    Owner,
    /// What is the window's style value (read for `WS_CAPTION`)?
    CaptionStyle,
}

/// The window system's answer to a question of the manageability check.
pub enum ManageabilityAnswer {
    Visibility(Result<bool>),
    ProcessName(Result<String>),
    Title(Result<String>),
    ClassName(Result<String>),
    Style(isize),
    ExStyle(isize),
    Frame(Result<Rect>),
    Owner(isize),
}

/// What the manageability check does after an answer: ask the next
/// question, or give its result.
pub enum ManageabilityStep {
    Ask(ManageabilityStage),
    Done(Result<bool>),
}

/// Whether `answer` answers the question of `stage`.
pub open spec fn answers_stage(stage: ManageabilityStage, answer: ManageabilityAnswer) -> bool {
    match stage {
        ManageabilityStage::Visibility => answer is Visibility,
        ManageabilityStage::ProcessName => answer is ProcessName,
        ManageabilityStage::Title { .. } => answer is Title,
        ManageabilityStage::ClassName { .. } => answer is ClassName,
        ManageabilityStage::ChildStyle => answer is Style,
        ManageabilityStage::ExStyle => answer is ExStyle,
        ManageabilityStage::Frame => answer is Frame,
        ManageabilityStage::Owner => answer is Owner,
        ManageabilityStage::CaptionStyle => answer is Style,
    }
}

/// The step after `answer` in `stage`. A failed query ends the check with
/// its error; a hidden window, a child window, a window that cannot be
/// activated or is a tool window, and an owned window without a title bar
/// end it with `false`; the Flow Launcher window and an unowned window that
/// passed everything end it with `true`; otherwise the next question is
/// asked.
pub open spec fn spec_manageability_step(stage: ManageabilityStage, answer: ManageabilityAnswer) -> ManageabilityStep {
    match stage {
        ManageabilityStage::Visibility => match answer {
            ManageabilityAnswer::Visibility(Err(e)) => ManageabilityStep::Done(Err(e)),
            ManageabilityAnswer::Visibility(Ok(false)) => ManageabilityStep::Done(Ok(false)),
            _ => ManageabilityStep::Ask(ManageabilityStage::ProcessName),
        },
        ManageabilityStage::ProcessName => match answer {
            ManageabilityAnswer::ProcessName(Err(e)) => ManageabilityStep::Done(Err(e)),
            ManageabilityAnswer::ProcessName(Ok(p)) => ManageabilityStep::Ask(
                ManageabilityStage::Title { process_name: p },
            ),
            _ => ManageabilityStep::Done(Ok(false)),
        },
        ManageabilityStage::Title { process_name } => match answer {
            ManageabilityAnswer::Title(Err(e)) => ManageabilityStep::Done(Err(e)),
            ManageabilityAnswer::Title(Ok(t)) => ManageabilityStep::Ask(
                ManageabilityStage::ClassName { process_name, title: t },
            ),
            _ => ManageabilityStep::Done(Ok(false)),
        },
        ManageabilityStage::ClassName { process_name, title } => match answer {
            ManageabilityAnswer::ClassName(Err(e)) => ManageabilityStep::Done(Err(e)),
            _ => if process_name@ == flow_launcher_text() && title@ == flow_launcher_text() {
                ManageabilityStep::Done(Ok(true))
            } else {
                ManageabilityStep::Ask(ManageabilityStage::ChildStyle)
            },
        },
        ManageabilityStage::ChildStyle => match answer {
            ManageabilityAnswer::Style(style) => if spec_has_style(style, WS_CHILD) {
                ManageabilityStep::Done(Ok(false))
            } else {
                ManageabilityStep::Ask(ManageabilityStage::ExStyle)
            },
            _ => ManageabilityStep::Done(Ok(false)),
        },
        ManageabilityStage::ExStyle => match answer {
            ManageabilityAnswer::ExStyle(ex_style) => if spec_has_style(
                ex_style,
                WS_EX_NOACTIVATE | WS_EX_TOOLWINDOW,
            ) {
                ManageabilityStep::Done(Ok(false))
            } else {
                ManageabilityStep::Ask(ManageabilityStage::Frame)
            },
            _ => ManageabilityStep::Done(Ok(false)),
        },
        ManageabilityStage::Frame => match answer {
            ManageabilityAnswer::Frame(Err(e)) => ManageabilityStep::Done(Err(e)),
            _ => ManageabilityStep::Ask(ManageabilityStage::Owner),
        },
        ManageabilityStage::Owner => match answer {
            ManageabilityAnswer::Owner(owner) => if owner == 0 {
                ManageabilityStep::Done(Ok(true))
            } else {
                ManageabilityStep::Ask(ManageabilityStage::CaptionStyle)
            },
            _ => ManageabilityStep::Done(Ok(false)),
        },
        ManageabilityStage::CaptionStyle => match answer {
            ManageabilityAnswer::Style(style) => ManageabilityStep::Done(
                Ok(spec_has_style(style, WS_CAPTION)),
            ),
            _ => ManageabilityStep::Done(Ok(false)),
        },
    }
}

/// One step of the manageability check: from the question of `stage` and
/// the window system's answer to it, the next question or the result.
/// The check starts at `ManageabilityStage::Visibility`.
pub fn manageability_step(stage: ManageabilityStage, answer: ManageabilityAnswer) -> (r:
    ManageabilityStep)
    requires
        answers_stage(stage, answer),
    ensures
        r == spec_manageability_step(stage, answer),
{
    match stage {
        ManageabilityStage::Visibility => match answer {
            ManageabilityAnswer::Visibility(Err(e)) => ManageabilityStep::Done(Err(e)),
            ManageabilityAnswer::Visibility(Ok(false)) => ManageabilityStep::Done(Ok(false)),
            _ => ManageabilityStep::Ask(ManageabilityStage::ProcessName),
        },
        ManageabilityStage::ProcessName => match answer {
            ManageabilityAnswer::ProcessName(Err(e)) => ManageabilityStep::Done(Err(e)),
            ManageabilityAnswer::ProcessName(Ok(p)) => ManageabilityStep::Ask(
                ManageabilityStage::Title { process_name: p },
            ),
            _ => ManageabilityStep::Done(Ok(false)),
        },
        ManageabilityStage::Title { process_name } => match answer {
            ManageabilityAnswer::Title(Err(e)) => ManageabilityStep::Done(Err(e)),
            ManageabilityAnswer::Title(Ok(t)) => ManageabilityStep::Ask(
                ManageabilityStage::ClassName { process_name, title: t },
            ),
            _ => ManageabilityStep::Done(Ok(false)),
        },
        ManageabilityStage::ClassName { process_name, title } => match answer {
            ManageabilityAnswer::ClassName(Err(e)) => ManageabilityStep::Done(Err(e)),
            _ => {
                proof {
                    reveal_strlit("Flow.Launcher");
                }
                if str_eq(process_name.as_str(), "Flow.Launcher") && str_eq(
                    title.as_str(),
                    "Flow.Launcher",
                ) {
                    ManageabilityStep::Done(Ok(true))
                } else {
                    ManageabilityStep::Ask(ManageabilityStage::ChildStyle)
                }
            },
        },
        ManageabilityStage::ChildStyle => match answer {
            ManageabilityAnswer::Style(style) => if has_style(style, WS_CHILD) {
                ManageabilityStep::Done(Ok(false))
            } else {
                ManageabilityStep::Ask(ManageabilityStage::ExStyle)
            },
            _ => ManageabilityStep::Done(Ok(false)),
        },
        ManageabilityStage::ExStyle => match answer {
            ManageabilityAnswer::ExStyle(ex_style) => if has_style(
                ex_style,
                WS_EX_NOACTIVATE | WS_EX_TOOLWINDOW,
            ) {
                ManageabilityStep::Done(Ok(false))
            } else {
                ManageabilityStep::Ask(ManageabilityStage::Frame)
            },
            _ => ManageabilityStep::Done(Ok(false)),
        },
        ManageabilityStage::Frame => match answer {
            ManageabilityAnswer::Frame(Err(e)) => ManageabilityStep::Done(Err(e)),
            _ => ManageabilityStep::Ask(ManageabilityStage::Owner),
        },
        ManageabilityStage::Owner => match answer {
            ManageabilityAnswer::Owner(owner) => if owner == 0 {
                ManageabilityStep::Done(Ok(true))
            } else {
                ManageabilityStep::Ask(ManageabilityStage::CaptionStyle)
            },
            _ => ManageabilityStep::Done(Ok(false)),
        },
        ManageabilityStage::CaptionStyle => match answer {
            ManageabilityAnswer::Style(style) => ManageabilityStep::Done(
                Ok(has_style(style, WS_CAPTION)),
            ),
            _ => ManageabilityStep::Done(Ok(false)),
        },
    }
}

/// A hidden window is decided at once: once the window system says the
/// window is not visible, or the visibility query fails, the check gives
/// its result and asks nothing more.
pub proof fn lemma_hidden_window_asks_no_more(is_visible: Result<bool>)
    ensures
        is_visible != Ok::<bool, Error>(true) ==> spec_manageability_step(
            ManageabilityStage::Visibility,
            ManageabilityAnswer::Visibility(is_visible),
        ) is Done,
        is_visible == Ok::<bool, Error>(false) ==> spec_manageability_step(
            ManageabilityStage::Visibility,
            ManageabilityAnswer::Visibility(is_visible),
        ) == ManageabilityStep::Done(Ok(false)),
{
}

impl NativeWindowInner {
    /// Whether the window manager manages the window, decided from the
    /// window system's answers as `spec_manageable` states: the steps of
    /// `manageability_step`, each answered from `query`.
    pub fn is_manageable(&self, query: ManageabilityQuery) -> (r: Result<bool>)
        ensures
            r == spec_manageable(query),
    {
        let ManageabilityQuery {
            is_visible,
            process_name,
            title,
            class_name,
            style,
            ex_style,
            frame,
            owner,
        } = query;
        let stage = match manageability_step(
            ManageabilityStage::Visibility,
            ManageabilityAnswer::Visibility(is_visible),
        ) {
            ManageabilityStep::Done(r) => return r,
            ManageabilityStep::Ask(next) => next,
        };
        let stage = match manageability_step(stage, ManageabilityAnswer::ProcessName(process_name)) {
            ManageabilityStep::Done(r) => return r,
            ManageabilityStep::Ask(next) => next,
        };
        let stage = match manageability_step(stage, ManageabilityAnswer::Title(title)) {
            ManageabilityStep::Done(r) => return r,
            ManageabilityStep::Ask(next) => next,
        };
        let stage = match manageability_step(stage, ManageabilityAnswer::ClassName(class_name)) {
            ManageabilityStep::Done(r) => return r,
            ManageabilityStep::Ask(next) => next,
        };
        let stage = match manageability_step(stage, ManageabilityAnswer::Style(style)) {
            ManageabilityStep::Done(r) => return r,
            ManageabilityStep::Ask(next) => next,
        };
        let stage = match manageability_step(stage, ManageabilityAnswer::ExStyle(ex_style)) {
            ManageabilityStep::Done(r) => return r,
            ManageabilityStep::Ask(next) => next,
        };
        let stage = match manageability_step(stage, ManageabilityAnswer::Frame(frame)) {
            ManageabilityStep::Done(r) => return r,
            ManageabilityStep::Ask(next) => next,
        };
        let stage = match manageability_step(stage, ManageabilityAnswer::Owner(owner)) {
            ManageabilityStep::Done(r) => return r,
            ManageabilityStep::Ask(next) => next,
        };
        match manageability_step(stage, ManageabilityAnswer::Style(style)) {
            ManageabilityStep::Done(r) => r,
            ManageabilityStep::Ask(_) => Ok(false),
        }
    }

    /// Whether the window has resize handles, from its style value.
    pub fn is_resizable(&self, style: isize) -> (r: bool)
        ensures
            r == spec_has_style(style, WS_THICKFRAME),
    {
        has_style(style, WS_THICKFRAME)
    }
}

/// The windows of the handles that the window system listed, in order.
pub fn all_windows(handles: Result<Vec<RawWindowId>>) -> (r: Result<Vec<NativeWindowInner>>)
    ensures
        handles matches Err(e) ==> r == Err::<Vec<NativeWindowInner>, Error>(e),
        handles matches Ok(h) ==> (r matches Ok(w) && w@.len() == h@.len() && forall|i: int|
            0 <= i < h@.len() ==> #[trigger] w@[i].handle == h@[i]),
{
    let handles = match handles {
        Err(e) => return Err(e),
        Ok(h) => h,
    };
    let mut windows: Vec<NativeWindowInner> = Vec::new();
    let mut i: usize = 0;
    while i < handles.len()
        invariant
            i <= handles@.len(),
            windows@.len() == i,
            forall|k: int| 0 <= k < i ==> #[trigger] windows@[k].handle == handles@[k],
        decreases handles@.len() - i,
    {
        windows.push(NativeWindowInner::new(handles[i]));
        i = i + 1;
    }
    Ok(windows)
}

/// The windows of `candidates` whose visibility query answered `true`, in
/// order; a failed query counts as not visible.
pub open spec fn spec_visible_windows(candidates: Seq<(NativeWindowInner, Result<bool>)>) -> Seq<
    NativeWindowInner,
>
    decreases candidates.len(),
{
    if candidates.len() == 0 {
        seq![]
    } else {
        let rest = spec_visible_windows(candidates.drop_last());
        if candidates.last().1 == Ok::<bool, Error>(true) {
            rest.push(candidates.last().0)
        } else {
            rest
        }
    }
}

/// The windows whose visibility query answered `true`, in order; a window
/// whose query failed is left out.
pub fn visible_windows(candidates: Vec<(NativeWindowInner, Result<bool>)>) -> (r: Vec<NativeWindowInner>)
    ensures
        r@ == spec_visible_windows(candidates@),
{
    let ghost all = candidates@;
    let mut visible: Vec<NativeWindowInner> = Vec::new();
    let mut rest = candidates;
    let mut taken: usize = 0;
    let total: usize = rest.len();
    assert(all.take(0) =~= Seq::<(NativeWindowInner, Result<bool>)>::empty());
    assert(all.skip(0) =~= all);
    while rest.len() > 0
        invariant
            taken + rest@.len() == all.len(),
            all.len() == total,
            rest@ == all.skip(taken as int),
            visible@ == spec_visible_windows(all.take(taken as int)),
        decreases rest@.len(),
    {
        let (window, is_visible) = rest.remove(0);
        proof {
            assert(all.take(taken + 1).drop_last() =~= all.take(taken as int));
            assert(all.take(taken + 1).last() == all[taken as int]);
            assert(rest@ =~= all.skip(taken + 1));
        }
        match is_visible {
            Ok(true) => visible.push(window),
            _ => {},
        }
        taken = taken + 1;
    }
    assert(all.take(all.len() as int) =~= all);
    visible
}

/// An application window that passed every earlier check is managed unless
/// it is a menu: only a window that has an owner and no title bar is left
/// out. In particular an unowned window is managed whatever its title-bar
/// bits.
pub proof fn lemma_only_owned_windows_without_title_bar_are_menus(q: ManageabilityQuery)
    requires
        q.is_visible == Ok::<bool, Error>(true),
        q.process_name matches Ok(p) && q.title matches Ok(t) && !(p@ == "Flow.Launcher"@ && t@
            == "Flow.Launcher"@),
        q.class_name is Ok,
        q.style & WS_CHILD == 0,
        q.ex_style & (WS_EX_NOACTIVATE | WS_EX_TOOLWINDOW) == 0,
        q.frame is Ok,
    ensures
        spec_manageable(q) == Ok::<bool, Error>(!(q.owner != 0 && q.style & WS_CAPTION == 0)),
        q.owner == 0 ==> spec_manageable(q) == Ok::<bool, Error>(true),
        q.owner != 0 && q.style & WS_CAPTION == 0 ==> spec_manageable(q) == Ok::<bool, Error>(
            false,
        ),
{
    reveal_strlit("Flow.Launcher");
}

/// The last two questions of the manageability check: an unowned window is
/// managed at once, and an owned window is managed exactly when its style
/// has a title-bar bit.
pub proof fn lemma_owner_and_caption_steps(owner: isize, style: isize)
    ensures
        owner == 0 ==> spec_manageability_step(
            ManageabilityStage::Owner,
            ManageabilityAnswer::Owner(owner),
        ) == ManageabilityStep::Done(Ok(true)),
        owner != 0 ==> spec_manageability_step(
            ManageabilityStage::Owner,
            ManageabilityAnswer::Owner(owner),
        ) == ManageabilityStep::Ask(ManageabilityStage::CaptionStyle),
        spec_manageability_step(ManageabilityStage::CaptionStyle, ManageabilityAnswer::Style(style))
            == ManageabilityStep::Done(Ok(style & WS_CAPTION != 0)),
{
}

/// A window is fullscreen exactly when its frame reaches every edge of the
/// monitor with one pixel of leeway: a frame that covers the monitor is
/// fullscreen, and a frame that stops two or more pixels short of any one
/// edge (left, top, right or bottom) is not.
pub proof fn lemma_fullscreen_needs_every_edge(f: Rect, m: Rect)
    ensures
        covers_monitor(f, m) ==> f.left <= m.left + 1 && f.top <= m.top + 1 && f.right >= m.right
            - 1 && f.bottom >= m.bottom - 1,
        f.left <= m.left && f.top <= m.top && f.right >= m.right && f.bottom >= m.bottom
            ==> covers_monitor(f, m),
        f.left > m.left + 1 ==> !covers_monitor(f, m),
        f.top > m.top + 1 ==> !covers_monitor(f, m),
        f.right < m.right - 1 ==> !covers_monitor(f, m),
        f.bottom < m.bottom - 1 ==> !covers_monitor(f, m),
{
}

/// Adjusting the opacity saturates and does nothing else: a lowering by `d`
/// gives `alpha - d` when that is not negative and 0 otherwise; a raising by
/// `d` gives `alpha + d` when that is at most 255 and 255 otherwise; and a
/// lowering that did not saturate is undone by raising by the same amount.
pub proof fn lemma_adjusted_alpha_saturates(alpha: u8, d: u8)
    ensures
        alpha >= d ==> spec_adjusted_alpha(
            alpha,
            Delta { inner: OpacityValue { alpha: d }, is_negative: true },
        ) == alpha - d,
        alpha < d ==> spec_adjusted_alpha(
            alpha,
            Delta { inner: OpacityValue { alpha: d }, is_negative: true },
        ) == 0,
        alpha + d <= 255 ==> spec_adjusted_alpha(
            alpha,
            Delta { inner: OpacityValue { alpha: d }, is_negative: false },
        ) == alpha + d,
        alpha + d > 255 ==> spec_adjusted_alpha(
            alpha,
            Delta { inner: OpacityValue { alpha: d }, is_negative: false },
        ) == 255,
        alpha >= d ==> spec_adjusted_alpha(
            spec_adjusted_alpha(alpha, Delta { inner: OpacityValue { alpha: d }, is_negative: true }),
            Delta { inner: OpacityValue { alpha: d }, is_negative: false },
        ) == alpha,
{
}

/// The process name is the file name of the executable up to its first dot:
/// it starts right after the last backslash of the path (or at the start
/// when there is none), holds no dot, and ends at the end of the path or at
/// a dot. Dots in directory names never matter.
pub proof fn lemma_process_name_is_file_stem(path: Seq<char>)
    ensures
        exists|i: int|
            #![trigger path.subrange(i, i + spec_process_name(path).len())]
            {
                let name = spec_process_name(path);
                &&& 0 <= i <= path.len()
                &&& (i == 0 || path[i - 1] == '\\')
                &&& forall|k: int| i <= k < path.len() ==> path[k] != '\\'
                &&& i + name.len() <= path.len()
                &&& name == path.subrange(i, i + name.len())
                &&& forall|k: int| 0 <= k < name.len() ==> name[k] != '.'
                &&& (i + name.len() == path.len() || path[i + name.len()] == '.')
            },
{
    let file = last_component(path, '\\');
    crate::text::lemma_last_component(path, '\\');
    crate::text::lemma_first_component(file, '.');
    let name = spec_process_name(path);
    let i = path.len() - file.len();
    assert(file == path.skip(i));
    assert forall|k: int| i <= k < path.len() implies path[k] != '\\' by {
        assert(path[k] == file[k - i]);
        assert(!file.contains('\\'));
    }
    assert(name == file.take(name.len() as int));
    assert(name =~= path.subrange(i, i + name.len()));
    assert forall|k: int| 0 <= k < name.len() implies name[k] != '.' by {
        assert(!name.contains('.'));
    }
    if name.len() < file.len() {
        assert(path[i + name.len()] == file[name.len() as int]);
    }
    assert(path.subrange(i, i + spec_process_name(path).len()) == name);
}

/// The earlier checks of manageability: a failed visibility query gives its
/// error and a hidden window is not managed, whatever else is known of it;
/// once the names are known, the Flow Launcher window is managed whatever its
/// styles, frame and owner, and any other child window, window that cannot
/// be activated or tool window is not managed, whether or not its frame can
/// be read.
pub proof fn lemma_manageability_refusals(q: ManageabilityQuery)
    ensures
        q.is_visible matches Err(e) ==> spec_manageable(q) == Err::<bool, Error>(e),
        q.is_visible == Ok::<bool, Error>(false) ==> spec_manageable(q) == Ok::<bool, Error>(false),
        q.process_name matches Ok(p) && q.title matches Ok(t) && q.is_visible == Ok::<bool, Error>(
            true,
        ) && q.class_name is Ok && p@ == "Flow.Launcher"@ && t@ == "Flow.Launcher"@
            ==> spec_manageable(q) == Ok::<bool, Error>(true),
        q.process_name matches Ok(p) && q.title matches Ok(t) && q.is_visible == Ok::<bool, Error>(
            true,
        ) && q.class_name is Ok && !(p@ == "Flow.Launcher"@ && t@ == "Flow.Launcher"@) && (q.style
            & WS_CHILD != 0 || q.ex_style & (WS_EX_NOACTIVATE | WS_EX_TOOLWINDOW) != 0)
            ==> spec_manageable(q) == Ok::<bool, Error>(false),
        q.is_visible == Ok::<bool, Error>(true) ==> (q.process_name matches Err(e) ==> spec_manageable(
            q,
        ) == Err::<bool, Error>(e)),
{
    reveal_strlit("Flow.Launcher");
}

} // verus!
