//! The workspace aggregate: a named, ordered collection of windows with a
//! tiling direction. No two windows in one workspace share an id.

use vstd::prelude::*;

use crate::errors::{DomainError, DomainErrorV};
use crate::values::{DisplayState, FocusState, Position, Size, TilingDirection, WindowId, WorkspaceId};
use crate::window::{Window, WindowV};

verus! {

/// Layout information for one window within a workspace.
#[derive(Debug, PartialEq)]
pub struct WindowLayout {
    pub window_id: WindowId,
    pub position: Position,
    pub size: Size,
}

/// The view of a [`WindowLayout`].
pub ghost struct WindowLayoutV {
    pub window_id: Seq<char>,
    pub position: Position,
    pub size: Size,
}

impl View for WindowLayout {
    type V = WindowLayoutV;

    open spec fn view(&self) -> WindowLayoutV {
        WindowLayoutV { window_id: self.window_id@, position: self.position, size: self.size }
    }
}

impl Clone for WindowLayout {
    fn clone(&self) -> (r: Self)
        ensures
            r@ == self@,
    {
        WindowLayout { window_id: self.window_id.clone(), position: self.position, size: self.size }
    }
}

impl WindowLayout {
    pub fn new(window_id: WindowId, position: Position, size: Size) -> (r: Self)
        ensures
            r@ == (WindowLayoutV { window_id: window_id@, position, size }),
    {
        Self { window_id, position, size }
    }
}

/// The views of a sequence of windows.
pub open spec fn window_views(s: Seq<Window>) -> Seq<WindowV> {
    s.map_values(|w: Window| w@)
}

pub broadcast proof fn lemma_window_views_push(s: Seq<Window>, w: Window)
    ensures
        #[trigger] window_views(s.push(w)) == window_views(s).push(w@),
{
    assert(window_views(s.push(w)) =~= window_views(s).push(w@));
}

pub broadcast proof fn lemma_window_views_remove(s: Seq<Window>, i: int)
    requires
        0 <= i < s.len(),
    ensures
        #[trigger] window_views(s.remove(i)) == window_views(s).remove(i),
{
    assert(window_views(s.remove(i)) =~= window_views(s).remove(i));
}

/// Whether some window in the sequence has the given id.
pub open spec fn contains_window_id(s: Seq<WindowV>, id: Seq<char>) -> bool {
    exists|i: int| 0 <= i < s.len() && s[i].id == id
}

/// Whether `i` is the first index of a window with the given id.
pub open spec fn first_window_index(s: Seq<WindowV>, id: Seq<char>, i: int) -> bool {
    &&& 0 <= i < s.len()
    &&& s[i].id == id
    &&& forall|j: int| 0 <= j < i ==> s[j].id != id
}

/// Whether `i` is the first index of a focused window.
pub open spec fn first_focused_window_index(s: Seq<WindowV>, i: int) -> bool {
    &&& 0 <= i < s.len()
    &&& s[i].focus_state == FocusState::Focused
    &&& forall|j: int| 0 <= j < i ==> s[j].focus_state != FocusState::Focused
}

/// No two windows in the sequence share an id.
pub open spec fn distinct_window_ids(s: Seq<WindowV>) -> bool {
    forall|i: int, j: int| 0 <= i < j < s.len() ==> s[i].id != s[j].id
}

/// Law: adding a window whose id is not yet present keeps all window ids
/// distinct. Together with the contract of [`Workspace::add_window`] — which
/// rejects a duplicate id and leaves the workspace unchanged — this shows
/// that no sequence of add operations ever produces two windows with one id.
pub broadcast proof fn lemma_add_window_preserves_distinct_ids(s: Seq<WindowV>, w: WindowV)
    requires
        distinct_window_ids(s),
        !contains_window_id(s, w.id),
    ensures
        #[trigger] distinct_window_ids(s.push(w)),
{
    let t = s.push(w);
    assert forall|i: int, j: int| 0 <= i < j < t.len() implies t[i].id != t[j].id by {
        if j == s.len() {
            assert(t[i] == s[i]);
        }
    }
}

/// The width of each slot when a span of `total` columns is divided evenly
/// among `count` windows.
pub open spec fn even_slot(total: u32, count: int) -> int {
    (total as int) / count
}

/// The view of a [`Workspace`].
pub ghost struct WorkspaceV {
    pub id: Seq<char>,
    pub name: Seq<char>,
    pub windows: Seq<WindowV>,
    pub tiling_direction: TilingDirection,
    pub focus_state: FocusState,
    pub display_state: DisplayState,
}

/// A workspace: a named logical desktop holding windows in presentation order.
#[derive(Debug, PartialEq)]
pub struct Workspace {
    id: WorkspaceId,
    name: String,
    windows: Vec<Window>,
    tiling_direction: TilingDirection,
    focus_state: FocusState,
    display_state: DisplayState,
}

impl View for Workspace {
    type V = WorkspaceV;

    closed spec fn view(&self) -> WorkspaceV {
        WorkspaceV {
            id: self.id@,
            name: self.name@,
            windows: window_views(self.windows@),
            tiling_direction: self.tiling_direction,
            focus_state: self.focus_state,
            display_state: self.display_state,
        }
    }
}

impl Clone for Workspace {
    fn clone(&self) -> (r: Self)
        ensures
            r@ == self@,
    {
        let mut windows: Vec<Window> = Vec::new();
        let n = self.windows.len();
        let mut i: usize = 0;
        while i < n
            invariant
                i <= n,
                n == self.windows@.len(),
                windows@.len() == i,
                forall|j: int| 0 <= j < i ==> windows@[j]@ == self.windows@[j]@,
            decreases n - i,
        {
            windows.push(self.windows[i].clone());
            i = i + 1;
        }
        let r = Workspace {
            id: self.id.clone(),
            name: self.name.clone(),
            windows,
            tiling_direction: self.tiling_direction,
            focus_state: self.focus_state,
            display_state: self.display_state,
        };
        proof {
            assert(window_views(r.windows@) =~= window_views(self.windows@));
        }
        r
    }
}

impl Workspace {
    /// Creates a workspace from its parts; construction is total.
    pub fn new(
        id: WorkspaceId,
        name: String,
        windows: Vec<Window>,
        tiling_direction: TilingDirection,
        focus_state: FocusState,
        display_state: DisplayState,
    ) -> (r: Self)
        ensures
            r@ == (WorkspaceV {
                id: id@,
                name: name@,
                windows: window_views(windows@),
                tiling_direction,
                focus_state,
                display_state,
            }),
    {
        Self { id, name, windows, tiling_direction, focus_state, display_state }
    }

    pub fn id(&self) -> (r: &WorkspaceId)
        ensures
            r@ == self@.id,
    {
        &self.id
    }

    pub fn name(&self) -> (r: &str)
        ensures
            r@ == self@.name,
    {
        self.name.as_str()
    }

    pub fn windows(&self) -> (r: &Vec<Window>)
        ensures
            window_views(r@) == self@.windows,
    {
        &self.windows
    }

    pub fn tiling_direction(&self) -> (r: &TilingDirection)
        ensures
            *r == self@.tiling_direction,
    {
        &self.tiling_direction
    }

    pub fn focus_state(&self) -> (r: &FocusState)
        ensures
            *r == self@.focus_state,
    {
        &self.focus_state
    }

    pub fn display_state(&self) -> (r: &DisplayState)
        ensures
            *r == self@.display_state,
    {
        &self.display_state
    }

    /// How many windows the workspace holds.
    pub fn window_count(&self) -> (r: usize)
        ensures
            r == self@.windows.len(),
    {
        self.windows.len()
    }

    pub fn is_empty(&self) -> (r: bool)
        ensures
            r == (self@.windows.len() == 0),
    {
        self.windows.len() == 0
    }

    pub fn is_focused(&self) -> (r: bool)
        ensures
            r == (self@.focus_state == FocusState::Focused),
    {
        self.focus_state.is_focused()
    }

    pub fn is_visible(&self) -> (r: bool)
        ensures
            r == (self@.display_state == DisplayState::Shown),
    {
        self.display_state.is_visible()
    }

    /// The first focused window in presentation order, if any.
    pub fn focused_window(&self) -> (r: Option<&Window>)
        ensures
            match r {
                Some(w) => exists|i: int|
                    first_focused_window_index(self@.windows, i) && w@ == self@.windows[i],
                None => forall|i: int|
                    0 <= i < self@.windows.len()
                        ==> self@.windows[i].focus_state != FocusState::Focused,
            },
    {
        let n = self.windows.len();
        let mut i: usize = 0;
        while i < n
            invariant
                i <= n,
                n == self@.windows.len(),
                n == self.windows@.len(),
                forall|j: int| 0 <= j < i ==> self@.windows[j].focus_state != FocusState::Focused,
            decreases n - i,
        {
            if self.windows[i].is_focused() {
                proof {
                    assert(self@.windows[i as int] == self.windows@[i as int]@);
                    assert(first_focused_window_index(self@.windows, i as int));
                }
                return Some(&self.windows[i]);
            }
            i = i + 1;
        }
        None
    }

    fn position_of_id(&self, window_id: &WindowId) -> (r: Option<usize>)
        ensures
            match r {
                Some(i) => first_window_index(self@.windows, window_id@, i as int),
                None => !contains_window_id(self@.windows, window_id@),
            },
    {
        let n = self.windows.len();
        let mut i: usize = 0;
        while i < n
            invariant
                i <= n,
                n == self@.windows.len(),
                n == self.windows@.len(),
                forall|j: int| 0 <= j < i ==> self@.windows[j].id != window_id@,
            decreases n - i,
        {
            if self.windows[i].id().0 == window_id.0 {
                return Some(i);
            }
            i = i + 1;
        }
        None
    }

    /// Adds a window. Fails with a duplicate-id error, leaving the workspace
    /// unchanged, when a window with the same id is already present.
    pub fn add_window(&mut self, window: Window) -> (r: Result<(), DomainError>)
        ensures
            r matches Ok(()) <==> !contains_window_id(old(self)@.windows, window@.id),
            r matches Ok(()) ==> final(self)@ == (WorkspaceV {
                windows: old(self)@.windows.push(window@),
                ..old(self)@
            }),
            r matches Err(e) ==> e@ == (DomainErrorV::DuplicateWindowId { id: window@.id })
                && final(self)@ == old(self)@,
    {
        if let Some(_) = self.position_of_id(window.id()) {
            return Err(DomainError::DuplicateWindowId { id: window.id().clone() });
        }
        proof {
            lemma_window_views_push(self.windows@, window);
        }
        self.windows.push(window);
        Ok(())
    }

    /// Removes the window with the given id and returns it. Fails with a
    /// not-found error, leaving the workspace unchanged, when it is absent.
    pub fn remove_window(&mut self, window_id: &WindowId) -> (r: Result<Window, DomainError>)
        ensures
            r matches Ok(_) <==> contains_window_id(old(self)@.windows, window_id@),
            r matches Ok(w) ==> exists|i: int|
                first_window_index(old(self)@.windows, window_id@, i) && w@ == old(
                    self,
                )@.windows[i] && final(self)@ == (WorkspaceV {
                    windows: old(self)@.windows.remove(i),
                    ..old(self)@
                }),
            r matches Err(e) ==> e@ == (DomainErrorV::WindowNotFound { id: window_id@ })
                && final(self)@ == old(self)@,
    {
        match self.position_of_id(window_id) {
            None => Err(DomainError::WindowNotFound { id: window_id.clone() }),
            Some(position) => {
                proof {
                    lemma_window_views_remove(self.windows@, position as int);
                }
                let w = self.windows.remove(position);
                Ok(w)
            },
        }
    }

    /// Splits a container evenly among the windows, side by side or stacked
    /// according to the workspace's tiling direction.
    pub fn calculate_layout(&self, container_size: Size) -> (r: Vec<WindowLayout>)
        requires
            container_size.width <= 0x7fff_ffff,
            container_size.height <= 0x7fff_ffff,
            self@.windows.len() <= 0xffff_ffff,
        ensures
            r@.len() == if self@.windows.len() == 0 {
                0int
            } else {
                self@.windows.len() as int
            },
            self@.windows.len() > 0 && self@.tiling_direction == TilingDirection::Horizontal
                ==> forall|j: int|
                #![trigger r@[j]]
                0 <= j < r@.len() ==> {
                    let slot = even_slot(container_size.width, self@.windows.len() as int);
                    &&& r@[j]@.window_id == self@.windows[j].id
                    &&& r@[j]@.position.y == 0
                    &&& r@[j]@.position.x as int == j * slot
                    &&& r@[j]@.size.width as int == slot
                    &&& r@[j]@.size.height == container_size.height
                },
            self@.windows.len() > 0 && self@.tiling_direction == TilingDirection::Vertical
                ==> forall|j: int|
                #![trigger r@[j]]
                0 <= j < r@.len() ==> {
                    let slot = even_slot(container_size.height, self@.windows.len() as int);
                    &&& r@[j]@.window_id == self@.windows[j].id
                    &&& r@[j]@.position.x == 0
                    &&& r@[j]@.position.y as int == j * slot
                    &&& r@[j]@.size.height as int == slot
                    &&& r@[j]@.size.width == container_size.width
                },
    {
        if self.windows.len() == 0 {
            return Vec::new();
        }
        match self.tiling_direction {
            TilingDirection::Horizontal => self.calculate_horizontal_layout(container_size),
            TilingDirection::Vertical => self.calculate_vertical_layout(container_size),
        }
    }

    fn calculate_horizontal_layout(&self, container_size: Size) -> (r: Vec<WindowLayout>)
        requires
            container_size.width <= 0x7fff_ffff,
            0 < self@.windows.len() <= 0xffff_ffff,
        ensures
            r@.len() == self@.windows.len(),
            forall|j: int|
                #![trigger r@[j]]
                0 <= j < r@.len() ==> {
                    let slot = even_slot(container_size.width, self@.windows.len() as int);
                    &&& r@[j]@.window_id == self@.windows[j].id
                    &&& r@[j]@.position.y == 0
                    &&& r@[j]@.position.x as int == j * slot
                    &&& r@[j]@.size.width as int == slot
                    &&& r@[j]@.size.height == container_size.height
                },
    {
        let window_count: u32 = self.windows.len() as u32;
        let window_width: u32 = container_size.width / window_count;
        let ghost slot = even_slot(container_size.width, self@.windows.len() as int);
        proof {
            assert(window_width as int == slot);
        }
        let n = self.windows.len();
        let mut r: Vec<WindowLayout> = Vec::new();
        let mut i: usize = 0;
        while i < n
            invariant
                i <= n,
                n == self@.windows.len(),
                n == self.windows@.len(),
                0 < n <= 0xffff_ffff,
                container_size.width <= 0x7fff_ffff,
                window_width as int == slot,
                slot == even_slot(container_size.width, n as int),
                r@.len() == i,
                forall|j: int|
                    #![trigger r@[j]]
                    0 <= j < i ==> {
                        &&& r@[j]@.window_id == self@.windows[j].id
                        &&& r@[j]@.position.y == 0
                        &&& r@[j]@.position.x as int == j * slot
                        &&& r@[j]@.size.width as int == slot
                        &&& r@[j]@.size.height == container_size.height
                    },
            decreases n - i,
        {
            proof {
                lemma_even_slot_in_range(container_size.width, n as int, i as int);
            }
            let x: u32 = (i as u32) * window_width;
            let position = Position::new(x as i32, 0);
            let size = Size::new(window_width, container_size.height);
            r.push(WindowLayout::new(self.windows[i].id().clone(), position, size));
            i = i + 1;
        }
        r
    }

    fn calculate_vertical_layout(&self, container_size: Size) -> (r: Vec<WindowLayout>)
        requires
            container_size.height <= 0x7fff_ffff,
            0 < self@.windows.len() <= 0xffff_ffff,
        ensures
            r@.len() == self@.windows.len(),
            forall|j: int|
                #![trigger r@[j]]
                0 <= j < r@.len() ==> {
                    let slot = even_slot(container_size.height, self@.windows.len() as int);
                    &&& r@[j]@.window_id == self@.windows[j].id
                    &&& r@[j]@.position.x == 0
                    &&& r@[j]@.position.y as int == j * slot
                    &&& r@[j]@.size.height as int == slot
                    &&& r@[j]@.size.width == container_size.width
                },
    {
        let window_count: u32 = self.windows.len() as u32;
        let window_height: u32 = container_size.height / window_count;
        let ghost slot = even_slot(container_size.height, self@.windows.len() as int);
        proof {
            assert(window_height as int == slot);
        }
        let n = self.windows.len();
        let mut r: Vec<WindowLayout> = Vec::new();
        let mut i: usize = 0;
        while i < n
            invariant
                i <= n,
                n == self@.windows.len(),
                n == self.windows@.len(),
                0 < n <= 0xffff_ffff,
                container_size.height <= 0x7fff_ffff,
                window_height as int == slot,
                slot == even_slot(container_size.height, n as int),
                r@.len() == i,
                forall|j: int|
                    #![trigger r@[j]]
                    0 <= j < i ==> {
                        &&& r@[j]@.window_id == self@.windows[j].id
                        &&& r@[j]@.position.x == 0
                        &&& r@[j]@.position.y as int == j * slot
                        &&& r@[j]@.size.height as int == slot
                        &&& r@[j]@.size.width == container_size.width
                    },
            decreases n - i,
        {
            proof {
                lemma_even_slot_in_range(container_size.height, n as int, i as int);
            }
            let y: u32 = (i as u32) * window_height;
            let position = Position::new(0, y as i32);
            let size = Size::new(container_size.width, window_height);
            r.push(WindowLayout::new(self.windows[i].id().clone(), position, size));
            i = i + 1;
        }
        r
    }

    pub fn set_focus_state(&mut self, focus_state: FocusState)
        ensures
            final(self)@ == (WorkspaceV { focus_state, ..old(self)@ }),
    {
        self.focus_state = focus_state;
    }

    pub fn set_tiling_direction(&mut self, direction: TilingDirection)
        ensures
            final(self)@ == (WorkspaceV { tiling_direction: direction, ..old(self)@ }),
    {
        self.tiling_direction = direction;
    }
}

/// Each slot offset stays within the container: for `i < count`,
/// `i * (total / count) <= total`.
proof fn lemma_even_slot_in_range(total: u32, count: int, i: int)
    requires
        0 < count,
        0 <= i < count,
    ensures
        0 <= i * even_slot(total, count),
        i * even_slot(total, count) <= total as int,
{
    let slot = even_slot(total, count);
    assert(0 <= slot);
    assert(count * slot <= total as int) by (nonlinear_arith)
        requires
            0 < count,
            slot == (total as int) / count,
    ;
    assert(0 <= i * slot && i * slot <= count * slot) by (nonlinear_arith)
        requires
            0 <= i < count,
            0 <= slot,
    ;
}

} // verus!
