//! The window entity: one application window, the leaf of the monitor tree.

use vstd::prelude::*;

use crate::errors::DomainError;
use crate::values::{DisplayState, FocusState, Rectangle, WindowId, WindowState};

verus! {

/// The view of a [`Window`]: its identity and all displayed attributes.
pub ghost struct WindowV {
    pub id: Seq<char>,
    pub title: Seq<char>,
    pub process_name: Seq<char>,
    pub geometry: Rectangle,
    pub state: WindowState,
    pub focus_state: FocusState,
    pub display_state: DisplayState,
}

/// An individual application window.
#[derive(Debug, PartialEq)]
pub struct Window {
    id: WindowId,
    title: String,
    process_name: String,
    geometry: Rectangle,
    state: WindowState,
    focus_state: FocusState,
    display_state: DisplayState,
}

impl View for Window {
    type V = WindowV;

    closed spec fn view(&self) -> WindowV {
        WindowV {
            id: self.id@,
            title: self.title@,
            process_name: self.process_name@,
            geometry: self.geometry,
            state: self.state,
            focus_state: self.focus_state,
            display_state: self.display_state,
        }
    }
}

impl Clone for Window {
    fn clone(&self) -> (r: Self)
        ensures
            r@ == self@,
    {
        Window {
            id: self.id.clone(),
            title: self.title.clone(),
            process_name: self.process_name.clone(),
            geometry: self.geometry,
            state: self.state,
            focus_state: self.focus_state,
            display_state: self.display_state,
        }
    }
}

/// The display name of a window: `process: title`.
pub open spec fn display_name_of(w: WindowV) -> Seq<char> {
    w.process_name + ": "@ + w.title
}

/// A name truncated for a compact display: unchanged when it fits in
/// `max_len` characters, else cut to `max_len - 3` characters with a
/// trailing ellipsis.
pub open spec fn truncated_name(name: Seq<char>, max_len: nat) -> Seq<char> {
    if name.len() <= max_len {
        name
    } else if max_len >= 3 {
        name.take((max_len - 3) as int) + "..."@
    } else {
        name.take(0) + "..."@
    }
}

/// The indicator shown beside a window: hidden wins over every window state;
/// fullscreen is shown like floating.
pub open spec fn state_indicator_of(state: WindowState, display_state: DisplayState) -> Seq<char> {
    if display_state == DisplayState::Hidden {
        "[H]"@
    } else if state == WindowState::Minimized {
        "[M]"@
    } else if state == WindowState::Floating {
        "[F]"@
    } else if state == WindowState::Fullscreen {
        "[F]"@
    } else {
        "[T]"@
    }
}

impl Window {
    /// Creates a window; construction is total and never fails.
    pub fn new(
        id: WindowId,
        title: String,
        process_name: String,
        geometry: Rectangle,
        state: WindowState,
        focus_state: FocusState,
        display_state: DisplayState,
    ) -> (r: Self)
        ensures
            r@ == (WindowV {
                id: id@,
                title: title@,
                process_name: process_name@,
                geometry,
                state,
                focus_state,
                display_state,
            }),
    {
        Self { id, title, process_name, geometry, state, focus_state, display_state }
    }

    pub fn id(&self) -> (r: &WindowId)
        ensures
            r@ == self@.id,
    {
        &self.id
    }

    pub fn title(&self) -> (r: &str)
        ensures
            r@ == self@.title,
    {
        self.title.as_str()
    }

    pub fn process_name(&self) -> (r: &str)
        ensures
            r@ == self@.process_name,
    {
        self.process_name.as_str()
    }

    pub fn geometry(&self) -> (r: &Rectangle)
        ensures
            *r == self@.geometry,
    {
        &self.geometry
    }

    pub fn state(&self) -> (r: &WindowState)
        ensures
            *r == self@.state,
    {
        &self.state
    }

    pub fn focus_state(&self) -> (r: &FocusState)
        ensures
            *r == self@.focus_state,
    {
        &self.focus_state
    }

    pub fn display_state(&self) -> (r: &DisplayState)
        ensures
            *r == self@.display_state,
    {
        &self.display_state
    }

    /// Whether the window currently has input focus.
    pub fn is_focused(&self) -> (r: bool)
        ensures
            r == (self@.focus_state == FocusState::Focused),
    {
        self.focus_state.is_focused()
    }

    /// Whether the window is currently visible on screen.
    pub fn is_visible(&self) -> (r: bool)
        ensures
            r == (self@.display_state == DisplayState::Shown),
    {
        self.display_state.is_visible()
    }

    /// The display name for the UI: `process: title`.
    pub fn display_name(&self) -> (r: String)
        ensures
            r@ == display_name_of(self@),
    {
        let mut s = self.process_name.clone();
        s.append(": ");
        s.append(self.title.as_str());
        proof {
            assert(s@ =~= display_name_of(self@));
        }
        s
    }

    /// The display name, truncated to `max_len` characters with an ellipsis
    /// when it does not fit.
    pub fn display_name_truncated(&self, max_len: usize) -> (r: String)
        ensures
            r@ == truncated_name(display_name_of(self@), max_len as nat),
    {
        let full_name = self.display_name();
        let n = full_name.as_str().unicode_len();
        if n <= max_len {
            full_name
        } else {
            let keep: usize = if max_len >= 3 {
                max_len - 3
            } else {
                0
            };
            let prefix = full_name.as_str().substring_char(0, keep);
            let mut r = prefix.to_owned();
            r.append("...");
            proof {
                assert(full_name@.subrange(0, keep as int) =~= full_name@.take(keep as int));
                assert(r@ =~= truncated_name(display_name_of(self@), max_len as nat));
            }
            r
        }
    }

    /// The state indicator for display: `[T]`, `[F]`, `[M]`, or `[H]`.
    pub fn state_indicator(&self) -> (r: &'static str)
        ensures
            r@ == state_indicator_of(self@.state, self@.display_state),
    {
        match (&self.state, &self.display_state) {
            (_, DisplayState::Hidden) => "[H]",
            (WindowState::Minimized, _) => "[M]",
            (WindowState::Floating, _) => "[F]",
            (WindowState::Fullscreen, _) => "[F]",
            (WindowState::Tiling, _) => "[T]",
        }
    }

    /// Changes the tiling state; every transition is allowed, because the
    /// window manager, not the dashboard, is the authority on transitions.
    pub fn change_state(&mut self, new_state: WindowState) -> (r: Result<(), DomainError>)
        ensures
            r matches Ok(()),
            final(self)@ == (WindowV { state: new_state, ..old(self)@ }),
    {
        self.state = new_state;
        Ok(())
    }

    pub fn set_focus_state(&mut self, focus_state: FocusState)
        ensures
            final(self)@ == (WindowV { focus_state, ..old(self)@ }),
    {
        self.focus_state = focus_state;
    }

    pub fn set_geometry(&mut self, geometry: Rectangle)
        ensures
            final(self)@ == (WindowV { geometry, ..old(self)@ }),
    {
        self.geometry = geometry;
    }

    pub fn set_display_state(&mut self, display_state: DisplayState)
        ensures
            final(self)@ == (WindowV { display_state, ..old(self)@ }),
    {
        self.display_state = display_state;
    }
}

} // verus!
