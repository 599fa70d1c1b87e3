//! An in-memory window used where no real window system is available.
use vstd::prelude::*;

use crate::error::Result;
use crate::geometry::Rect;

verus! {

/// Identifier of a mock window.
pub type RawWindowId = usize;

/// Identifier of a mock window, as handed out by [`NativeWindowMock::id`].
#[derive(Clone, Copy, Debug, PartialEq, Eq, Structural)]
pub struct MockWindowId(pub RawWindowId);

/// Show state of a mock window.
#[derive(Clone, Copy, Debug, PartialEq, Eq, Structural)]
pub enum WindowState {
    Normal,
    Minimized,
    Maximized,
}

/// The whole state of a mock window, as the contracts see it.
pub struct MockWindowView {
    pub id: RawWindowId,
    pub title: Seq<char>,
    pub frame: Rect,
    pub hidden: bool,
    pub state: WindowState,
}

/// A window that lives in memory only.
#[derive(Clone, Debug)]
pub struct NativeWindowMock {
    id: RawWindowId,
    title: String,
    frame: Rect,
    hidden: bool,
    state: WindowState,
}

impl View for NativeWindowMock {
    type V = MockWindowView;

    closed spec fn view(&self) -> MockWindowView {
        MockWindowView {
            id: self.id,
            title: self.title@,
            frame: self.frame,
            hidden: self.hidden,
            state: self.state,
        }
    }
}

/// Whether a window in state `v` is visible: not hidden and not minimized.
pub open spec fn spec_is_visible(v: MockWindowView) -> bool {
    !v.hidden && v.state != WindowState::Minimized
}

/// Position of the window: its left and top edges.
pub open spec fn spec_position(v: MockWindowView) -> (int, int) {
    (v.frame.left as int, v.frame.top as int)
}

/// Size of the window: width and height of its frame.
pub open spec fn spec_size(v: MockWindowView) -> (int, int) {
    (v.frame.spec_width(), v.frame.spec_height())
}

/// Whether `resize(width, height)` computes without overflow from state `v`.
pub open spec fn can_resize(v: MockWindowView, width: i32, height: i32) -> bool {
    let dw = width - v.frame.spec_width();
    let dh = height - v.frame.spec_height();
    &&& v.frame.has_i32_size()
    &&& i32::MIN <= dw <= i32::MAX
    &&& i32::MIN <= dh <= i32::MAX
    &&& i32::MIN <= v.frame.right + dw <= i32::MAX
    &&& i32::MIN <= v.frame.bottom + dh <= i32::MAX
}

/// State after `resize(width, height)`: the left and top edges stay, the
/// right and bottom edges move so that the frame has the requested size.
pub open spec fn spec_resized(v: MockWindowView, width: i32, height: i32) -> MockWindowView {
    MockWindowView {
        frame: Rect {
            right: (v.frame.left + width) as i32,
            bottom: (v.frame.top + height) as i32,
            ..v.frame
        },
        ..v
    }
}

/// State after `reposition(x, y)`: the left and top edges are set to `x`
/// and `y`; the right and bottom edges are left where they were.
pub open spec fn spec_repositioned(v: MockWindowView, x: i32, y: i32) -> MockWindowView {
    MockWindowView { frame: Rect { left: x, top: y, ..v.frame }, ..v }
}

/// State after a change of show state.
pub open spec fn spec_with_state(v: MockWindowView, state: WindowState) -> MockWindowView {
    MockWindowView { state, ..v }
}

/// State after `set_frame(rect)`.
pub open spec fn spec_with_frame(v: MockWindowView, rect: Rect) -> MockWindowView {
    MockWindowView { frame: rect, ..v }
}

impl NativeWindowMock {
    /// Creates a mock window with the given identifier, title, frame,
    /// hidden flag and show state.
    pub fn new(
        id: RawWindowId,
        title: String,
        frame: Rect,
        hidden: bool,
        state: WindowState,
    ) -> (r: NativeWindowMock)
        ensures
            r@ == (MockWindowView { id, title: title@, frame, hidden, state }),
    {
        NativeWindowMock { id, title, frame, hidden, state }
    }

    /// The window's identifier.
    pub fn id(&self) -> (r: MockWindowId)
        ensures
            r == MockWindowId(self@.id),
    {
        MockWindowId(self.id)
    }

    /// The window's title.
    pub fn title(&self) -> (r: Result<String>)
        ensures
            r matches Ok(t) && t@ == self@.title,
    {
        Ok(self.title.clone())
    }

    /// The window's frame.
    pub fn frame(&self) -> (r: Result<Rect>)
        ensures
            r == Ok::<Rect, crate::error::Error>(self@.frame),
    {
        Ok(self.frame)
    }

    /// The window's position: the left and top edges of its frame.
    pub fn position(&self) -> (r: Result<(i32, i32)>)
        ensures
            r matches Ok(p) && (p.0 as int, p.1 as int) == spec_position(self@),
    {
        Ok((self.frame.x(), self.frame.y()))
    }

    /// The window's size: width and height of its frame.
    pub fn size(&self) -> (r: Result<(i32, i32)>)
        requires
            self@.frame.has_i32_size(),
        ensures
            r matches Ok(s) && (s.0 as int, s.1 as int) == spec_size(self@),
    {
        Ok((self.frame.width(), self.frame.height()))
    }

    /// Whether the window is visible: it is neither hidden nor minimized.
    pub fn is_visible(&self) -> (r: Result<bool>)
        ensures
            r == Ok::<bool, crate::error::Error>(spec_is_visible(self@)),
    {
        Ok(!self.hidden && self.state != WindowState::Minimized)
    }

    /// Whether the window is minimized.
    pub fn is_minimized(&self) -> (r: Result<bool>)
        ensures
            r == Ok::<bool, crate::error::Error>(self@.state == WindowState::Minimized),
    {
        Ok(self.state == WindowState::Minimized)
    }

    /// Whether the window is maximized.
    pub fn is_maximized(&self) -> (r: Result<bool>)
        ensures
            r == Ok::<bool, crate::error::Error>(self@.state == WindowState::Maximized),
    {
        Ok(matches!(self.state, WindowState::Maximized))
    }

    /// Resizes the window to `width` by `height`, keeping its left and top
    /// edges.
    pub fn resize(&mut self, width: i32, height: i32) -> (r: Result<()>)
        requires
            can_resize(old(self)@, width, height),
        ensures
            r is Ok,
            final(self)@ == spec_resized(old(self)@, width, height),
    {
        let current_width = self.frame.width();
        let current_height = self.frame.height();

        let width_delta = width - current_width;
        let height_delta = height - current_height;

        self.frame.right = self.frame.right + width_delta;
        self.frame.bottom = self.frame.bottom + height_delta;

        Ok(())
    }

    /// Moves the left and top edges of the window to `x` and `y`.
    pub fn reposition(&mut self, x: i32, y: i32) -> (r: Result<()>)
        ensures
            r is Ok,
            final(self)@ == spec_repositioned(old(self)@, x, y),
    {
        self.frame.left = x;
        self.frame.top = y;
        Ok(())
    }

    /// Sets the window's frame to `rect`.
    pub fn set_frame(&mut self, rect: &Rect) -> (r: Result<()>)
        ensures
            r is Ok,
            final(self)@ == spec_with_frame(old(self)@, *rect),
    {
        self.frame = *rect;
        Ok(())
    }

    /// Minimizes the window.
    pub fn minimize(&mut self) -> (r: Result<()>)
        ensures
            r is Ok,
            final(self)@ == spec_with_state(old(self)@, WindowState::Minimized),
    {
        self.state = WindowState::Minimized;
        Ok(())
    }

    /// Maximizes the window.
    pub fn maximize(&mut self) -> (r: Result<()>)
        ensures
            r is Ok,
            final(self)@ == spec_with_state(old(self)@, WindowState::Maximized),
    {
        self.state = WindowState::Maximized;
        Ok(())
    }
}

/// Resizing gives the window exactly the requested size and leaves its
/// position where it was.
pub proof fn lemma_resize_sets_size(v: MockWindowView, width: i32, height: i32)
    requires
        can_resize(v, width, height),
    ensures
        spec_size(spec_resized(v, width, height)) == (width as int, height as int),
        spec_position(spec_resized(v, width, height)) == spec_position(v),
{
}

/// Repositioning puts the left and top edges at the requested point.
pub proof fn lemma_reposition_sets_position(v: MockWindowView, x: i32, y: i32)
    ensures
        spec_position(spec_repositioned(v, x, y)) == (x as int, y as int),
        spec_repositioned(v, x, y).frame.right == v.frame.right,
        spec_repositioned(v, x, y).frame.bottom == v.frame.bottom,
{
}

/// Setting the frame and reading it back gives the frame that was set.
pub proof fn lemma_set_frame_then_frame(v: MockWindowView, rect: Rect)
    ensures
        spec_with_frame(v, rect).frame == rect,
{
}

/// A minimized window is not visible; a maximized window is not minimized
/// and is visible exactly when it is not hidden.
pub proof fn lemma_show_states(v: MockWindowView)
    ensures
        !spec_is_visible(spec_with_state(v, WindowState::Minimized)),
        spec_with_state(v, WindowState::Maximized).state != WindowState::Minimized,
        spec_is_visible(spec_with_state(v, WindowState::Maximized)) == !v.hidden,
{
}

/// No operation on a mock window changes its identifier, title or hidden
/// flag.
pub proof fn lemma_identity_preserved(v: MockWindowView, a: i32, b: i32, rect: Rect, state: WindowState)
    ensures
        spec_resized(v, a, b).id == v.id && spec_resized(v, a, b).title == v.title
            && spec_resized(v, a, b).hidden == v.hidden,
        spec_repositioned(v, a, b).id == v.id && spec_repositioned(v, a, b).title == v.title
            && spec_repositioned(v, a, b).hidden == v.hidden,
        spec_with_frame(v, rect).id == v.id && spec_with_frame(v, rect).title == v.title
            && spec_with_frame(v, rect).hidden == v.hidden,
        spec_with_state(v, state).id == v.id && spec_with_state(v, state).title == v.title
            && spec_with_state(v, state).hidden == v.hidden,
{
}

} // verus!
