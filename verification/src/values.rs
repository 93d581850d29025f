//! Domain value objects: immutable geometric primitives, opaque identifiers,
//! and the small state enums shared by windows, workspaces, and monitors.

use vstd::prelude::*;

use crate::textfmt::{dec_rep, dec_rep_int, push_i32_dec, push_u32_dec};

verus! {

/// A position in 2D space (x, y coordinates).
#[derive(Debug, Clone, Copy, PartialEq, Eq, Hash, Structural)]
pub struct Position {
    pub x: i32,
    pub y: i32,
}

/// The text form of a position, `(x, y)`.
pub open spec fn position_text(p: Position) -> Seq<char> {
    "("@ + dec_rep_int(p.x as int) + ", "@ + dec_rep_int(p.y as int) + ")"@
}

impl Position {
    pub fn new(x: i32, y: i32) -> (r: Self)
        ensures
            r == (Position { x, y }),
    {
        Self { x, y }
    }

    pub fn origin() -> (r: Self)
        ensures
            r == (Position { x: 0i32, y: 0i32 }),
    {
        Self::new(0, 0)
    }

    /// Renders the position as `(x, y)`.
    pub fn to_text(&self) -> (s: String)
        ensures
            s@ == position_text(*self),
    {
        let mut s = String::new();
        s.append("(");
        push_i32_dec(&mut s, self.x);
        s.append(", ");
        push_i32_dec(&mut s, self.y);
        s.append(")");
        proof {
            assert(s@ =~= position_text(*self));
        }
        s
    }
}

/// Dimensions of a rectangular area (width and height).
#[derive(Debug, Clone, Copy, PartialEq, Eq, Hash, Structural)]
pub struct Size {
    pub width: u32,
    pub height: u32,
}

/// The text form of a size, `WxH`.
pub open spec fn size_text(s: Size) -> Seq<char> {
    dec_rep(s.width as nat) + "x"@ + dec_rep(s.height as nat)
}

impl Size {
    pub fn new(width: u32, height: u32) -> (r: Self)
        ensures
            r == (Size { width, height }),
    {
        Self { width, height }
    }

    /// The number of cells covered: width times height.
    pub fn area(&self) -> (r: u64)
        ensures
            r == self.width as int * self.height as int,
    {
        proof {
            assert((self.width as int) * (self.height as int) < 0x1_0000_0000_0000_0000)
                by (nonlinear_arith)
                requires
                    (self.width as int) < 0x1_0000_0000,
                    (self.height as int) < 0x1_0000_0000;
        }
        self.width as u64 * self.height as u64
    }

    /// Renders the size as `WxH`.
    pub fn to_text(&self) -> (s: String)
        ensures
            s@ == size_text(*self),
    {
        let mut s = String::new();
        push_u32_dec(&mut s, self.width);
        s.append("x");
        push_u32_dec(&mut s, self.height);
        proof {
            assert(s@ =~= size_text(*self));
        }
        s
    }
}

/// A rectangular area: a position together with a size.
#[derive(Debug, Clone, Copy, PartialEq, Eq, Hash, Structural)]
pub struct Rectangle {
    pub position: Position,
    pub size: Size,
}

/// Whether a point lies in a rectangle: inclusive on the left/top edges,
/// exclusive on the right/bottom edges.
pub open spec fn rect_contains(r: Rectangle, p: Position) -> bool {
    &&& p.x >= r.position.x
    &&& (p.x as int) < r.position.x as int + r.size.width as int
    &&& p.y >= r.position.y
    &&& (p.y as int) < r.position.y as int + r.size.height as int
}

impl Rectangle {
    pub fn new(position: Position, size: Size) -> (r: Self)
        ensures
            r == (Rectangle { position, size }),
    {
        Self { position, size }
    }

    pub fn from_coords(x: i32, y: i32, width: u32, height: u32) -> (r: Self)
        ensures
            r == (Rectangle { position: Position { x, y }, size: Size { width, height } }),
    {
        Self::new(Position::new(x, y), Size::new(width, height))
    }

    /// The area of the rectangle's size.
    pub fn area(&self) -> (r: u64)
        ensures
            r == self.size.width as int * self.size.height as int,
    {
        self.size.area()
    }

    /// Point containment: inclusive lower bound, exclusive upper bound on both axes.
    pub fn contains_point(&self, point: Position) -> (r: bool)
        ensures
            r == rect_contains(*self, point),
    {
        let x_end: i64 = self.position.x as i64 + self.size.width as i64;
        let y_end: i64 = self.position.y as i64 + self.size.height as i64;
        point.x >= self.position.x && (point.x as i64) < x_end && point.y >= self.position.y
            && (point.y as i64) < y_end
    }

    /// Renders the rectangle as `(x, y) WxH`.
    pub fn to_text(&self) -> (s: String)
        ensures
            s@ == position_text(self.position) + " "@ + size_text(self.size),
    {
        let mut s = self.position.to_text();
        s.append(" ");
        let size_part = self.size.to_text();
        s.append(size_part.as_str());
        proof {
            assert(s@ =~= position_text(self.position) + " "@ + size_text(self.size));
        }
        s
    }
}

/// Unique identifier for monitors.
#[derive(Debug, PartialEq, Eq, Hash)]
pub struct MonitorId(pub String);

impl Clone for MonitorId {
    fn clone(&self) -> (r: Self)
        ensures
            r@ == self@,
    {
        MonitorId(self.0.clone())
    }
}

impl View for MonitorId {
    type V = Seq<char>;

    open spec fn view(&self) -> Seq<char> {
        self.0@
    }
}

impl MonitorId {
    pub fn new(id: String) -> (r: Self)
        ensures
            r@ == id@,
    {
        Self(id)
    }

    pub fn as_str(&self) -> (r: &str)
        ensures
            r@ == self@,
    {
        self.0.as_str()
    }
}

/// Unique identifier for workspaces.
#[derive(Debug, PartialEq, Eq, Hash)]
pub struct WorkspaceId(pub String);

impl Clone for WorkspaceId {
    fn clone(&self) -> (r: Self)
        ensures
            r@ == self@,
    {
        WorkspaceId(self.0.clone())
    }
}

impl View for WorkspaceId {
    type V = Seq<char>;

    open spec fn view(&self) -> Seq<char> {
        self.0@
    }
}

impl WorkspaceId {
    pub fn new(id: String) -> (r: Self)
        ensures
            r@ == id@,
    {
        Self(id)
    }

    pub fn as_str(&self) -> (r: &str)
        ensures
            r@ == self@,
    {
        self.0.as_str()
    }
}

/// Unique identifier for windows.
#[derive(Debug, PartialEq, Eq, Hash)]
pub struct WindowId(pub String);

impl Clone for WindowId {
    fn clone(&self) -> (r: Self)
        ensures
            r@ == self@,
    {
        WindowId(self.0.clone())
    }
}

impl View for WindowId {
    type V = Seq<char>;

    open spec fn view(&self) -> Seq<char> {
        self.0@
    }
}

impl WindowId {
    pub fn new(id: String) -> (r: Self)
        ensures
            r@ == id@,
    {
        Self(id)
    }

    pub fn as_str(&self) -> (r: &str)
        ensures
            r@ == self@,
    {
        self.0.as_str()
    }
}

/// Focus state of windows, workspaces, and monitors.
#[derive(Debug, Clone, Copy, PartialEq, Eq, Structural)]
pub enum FocusState {
    /// Currently has focus (receiving input).
    Focused,
    /// Does not have focus.
    Unfocused,
}

impl FocusState {
    pub fn is_focused(self) -> (r: bool)
        ensures
            r == (self == FocusState::Focused),
    {
        match self {
            FocusState::Focused => true,
            FocusState::Unfocused => false,
        }
    }
}

/// Window state in the tiling system.
#[derive(Debug, Clone, Copy, PartialEq, Eq, Structural)]
pub enum WindowState {
    /// The window is part of the tiling layout.
    Tiling,
    /// The window floats above the tiling layout.
    Floating,
    /// The window is minimized to the taskbar.
    Minimized,
    /// The window covers the whole screen.
    Fullscreen,
}

/// Display state of windows and workspaces.
#[derive(Debug, Clone, Copy, PartialEq, Eq, Structural)]
pub enum DisplayState {
    /// Currently visible on screen.
    Shown,
    /// Not visible but exists.
    Hidden,
    /// Transitioning to the hidden state.
    Hiding,
}

impl DisplayState {
    pub fn is_visible(self) -> (r: bool)
        ensures
            r == (self == DisplayState::Shown),
    {
        match self {
            DisplayState::Shown => true,
            DisplayState::Hidden => false,
            DisplayState::Hiding => false,
        }
    }
}

/// Tiling direction for a workspace's layout.
#[derive(Debug, Clone, Copy, PartialEq, Eq, Structural)]
pub enum TilingDirection {
    /// Windows arranged side by side.
    Horizontal,
    /// Windows stacked vertically.
    Vertical,
}

impl Default for TilingDirection {
    fn default() -> (r: Self)
        ensures
            r == TilingDirection::Horizontal,
    {
        TilingDirection::Horizontal
    }
}

} // verus!
