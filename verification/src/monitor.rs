//! The monitor aggregate root: a physical display holding workspaces.
//!
//! Invariants: the geometry of a validated monitor is positive in both axes,
//! its dpi is positive, and its scale factor (carried as the bit pattern of a
//! 64-bit binary floating-point number) is positive; no two workspaces share
//! an id; and inserting a focused workspace unfocuses every other one, so a
//! monitor built by insertions has at most one focused workspace.

use vstd::prelude::*;

use crate::errors::{DomainError, DomainErrorV};
use crate::values::{FocusState, MonitorId, Rectangle, WorkspaceId};
use crate::window::{Window, WindowV};
use crate::workspace::{first_focused_window_index, Workspace, WorkspaceV};

verus! {

/// Whether the IEEE 754 binary64 value with this bit pattern is greater than
/// zero: the sign bit is clear, the pattern is not that of zero, and it is
/// not a NaN (exponent all ones with a non-zero mantissa).
pub open spec fn float_bits_positive(bits: u64) -> bool {
    &&& bits >> 63 == 0
    &&& bits != 0
    &&& !((bits >> 52) & 0x7ff == 0x7ff && bits & 0xf_ffff_ffff_ffff != 0)
}

/// Runtime test for [`float_bits_positive`].
pub fn is_float_bits_positive(bits: u64) -> (r: bool)
    ensures
        r == float_bits_positive(bits),
{
    (bits >> 63) == 0 && bits != 0 && !((bits >> 52) & 0x7ff == 0x7ff && (bits
        & 0xf_ffff_ffff_ffff) != 0)
}

/// The derived device name of a monitor: `Monitor ` followed by its id.
pub open spec fn device_name_of(id: Seq<char>) -> Seq<char> {
    "Monitor "@ + id
}

/// Device information for a monitor.
#[derive(Debug, PartialEq)]
pub struct DeviceInfo {
    pub dpi: i32,
    /// Bit pattern of the scale factor, a 64-bit binary floating-point value.
    pub scale_factor_bits: u64,
    pub device_name: String,
}

impl Clone for DeviceInfo {
    fn clone(&self) -> (r: Self)
        ensures
            r.dpi == self.dpi,
            r.scale_factor_bits == self.scale_factor_bits,
            r.device_name@ == self.device_name@,
    {
        DeviceInfo {
            dpi: self.dpi,
            scale_factor_bits: self.scale_factor_bits,
            device_name: self.device_name.clone(),
        }
    }
}

impl DeviceInfo {
    pub fn new(dpi: i32, scale_factor_bits: u64, device_name: String) -> (r: Self)
        ensures
            r.dpi == dpi,
            r.scale_factor_bits == scale_factor_bits,
            r.device_name@ == device_name@,
    {
        Self { dpi, scale_factor_bits, device_name }
    }
}

/// The views of a sequence of workspaces.
pub open spec fn workspace_views(s: Seq<Workspace>) -> Seq<WorkspaceV> {
    s.map_values(|w: Workspace| w@)
}

pub broadcast proof fn lemma_workspace_views_push(s: Seq<Workspace>, w: Workspace)
    ensures
        #[trigger] workspace_views(s.push(w)) == workspace_views(s).push(w@),
{
    assert(workspace_views(s.push(w)) =~= workspace_views(s).push(w@));
}

pub broadcast proof fn lemma_workspace_views_remove(s: Seq<Workspace>, i: int)
    requires
        0 <= i < s.len(),
    ensures
        #[trigger] workspace_views(s.remove(i)) == workspace_views(s).remove(i),
{
    assert(workspace_views(s.remove(i)) =~= workspace_views(s).remove(i));
}

/// Whether some workspace in the sequence has the given id.
pub open spec fn contains_workspace_id(s: Seq<WorkspaceV>, id: Seq<char>) -> bool {
    exists|i: int| 0 <= i < s.len() && s[i].id == id
}

/// Whether `i` is the first index of a workspace with the given id.
pub open spec fn first_workspace_index(s: Seq<WorkspaceV>, id: Seq<char>, i: int) -> bool {
    &&& 0 <= i < s.len()
    &&& s[i].id == id
    &&& forall|j: int| 0 <= j < i ==> s[j].id != id
}

/// No two workspaces in the sequence share an id.
pub open spec fn distinct_workspace_ids(s: Seq<WorkspaceV>) -> bool {
    forall|i: int, j: int| 0 <= i < j < s.len() ==> s[i].id != s[j].id
}

/// At most one workspace in the sequence is focused.
pub open spec fn at_most_one_focused(s: Seq<WorkspaceV>) -> bool {
    forall|i: int, j: int|
        0 <= i < j < s.len() ==> !(s[i].focus_state == FocusState::Focused
            && s[j].focus_state == FocusState::Focused)
}

/// The same workspaces with every focus state set to unfocused.
pub open spec fn all_unfocused(s: Seq<WorkspaceV>) -> Seq<WorkspaceV> {
    s.map_values(|w: WorkspaceV| WorkspaceV { focus_state: FocusState::Unfocused, ..w })
}

/// Whether the workspace holds at least one focused window.
pub open spec fn workspace_has_focused_window(w: WorkspaceV) -> bool {
    exists|k: int| 0 <= k < w.windows.len() && w.windows[k].focus_state == FocusState::Focused
}

/// Whether `i` is the first index of a workspace with a focused window.
pub open spec fn first_workspace_with_focused_window(s: Seq<WorkspaceV>, i: int) -> bool {
    &&& 0 <= i < s.len()
    &&& workspace_has_focused_window(s[i])
    &&& forall|j: int| 0 <= j < i ==> !workspace_has_focused_window(s[j])
}

/// The total number of windows over a sequence of workspaces.
pub open spec fn total_windows(s: Seq<WorkspaceV>) -> int
    decreases s.len(),
{
    if s.len() == 0 {
        0
    } else {
        total_windows(s.drop_last()) + s.last().windows.len()
    }
}

/// Validity of a monitor's device data: positive geometry in both axes,
/// positive dpi, positive scale factor.
pub open spec fn monitor_data_valid(geometry: Rectangle, dpi: i32, scale_factor_bits: u64) -> bool {
    &&& geometry.size.width > 0
    &&& geometry.size.height > 0
    &&& dpi > 0
    &&& float_bits_positive(scale_factor_bits)
}

/// Law: adding a workspace as [`Monitor::add_workspace`] does — unfocusing
/// every present workspace first whenever the new one is focused — keeps at
/// most one workspace focused.
pub proof fn lemma_add_workspace_preserves_single_focus(s: Seq<WorkspaceV>, w: WorkspaceV)
    requires
        at_most_one_focused(s),
    ensures
        w.focus_state == FocusState::Focused ==> at_most_one_focused(all_unfocused(s).push(w)),
        w.focus_state != FocusState::Focused ==> at_most_one_focused(s.push(w)),
{
    if w.focus_state == FocusState::Focused {
        let t = all_unfocused(s).push(w);
        assert forall|i: int, j: int| 0 <= i < j < t.len() implies !(t[i].focus_state
            == FocusState::Focused && t[j].focus_state == FocusState::Focused) by {
            if i < s.len() {
                assert(t[i] == all_unfocused(s)[i]);
                assert(t[i].focus_state == FocusState::Unfocused);
            }
        }
    } else {
        let t = s.push(w);
        assert forall|i: int, j: int| 0 <= i < j < t.len() implies !(t[i].focus_state
            == FocusState::Focused && t[j].focus_state == FocusState::Focused) by {
            if j < s.len() {
                assert(t[i] == s[i] && t[j] == s[j]);
            } else {
                assert(t[j] == w);
            }
        }
    }
}

/// Law: adding a workspace whose id is not yet present keeps all workspace
/// ids distinct, whether or not the insertion unfocuses the others.
pub proof fn lemma_add_workspace_preserves_distinct_ids(s: Seq<WorkspaceV>, w: WorkspaceV)
    requires
        distinct_workspace_ids(s),
        !contains_workspace_id(s, w.id),
    ensures
        distinct_workspace_ids(s.push(w)),
        distinct_workspace_ids(all_unfocused(s).push(w)),
{
    let t = s.push(w);
    assert forall|i: int, j: int| 0 <= i < j < t.len() implies t[i].id != t[j].id by {
        if j == s.len() {
            assert(t[i] == s[i]);
        }
    }
    let u = all_unfocused(s).push(w);
    assert forall|i: int, j: int| 0 <= i < j < u.len() implies u[i].id != u[j].id by {
        if i < s.len() {
            assert(u[i].id == s[i].id);
        }
        if j < s.len() {
            assert(u[j].id == s[j].id);
        }
    }
}

/// The view of a [`Monitor`].
pub ghost struct MonitorV {
    pub id: Seq<char>,
    pub geometry: Rectangle,
    pub workspaces: Seq<WorkspaceV>,
    pub focus_state: FocusState,
    pub dpi: i32,
    pub scale_factor_bits: u64,
    pub device_name: Seq<char>,
}

/// A monitor: a physical display surface, the root of the aggregate tree.
#[derive(Debug, PartialEq)]
pub struct Monitor {
    id: MonitorId,
    geometry: Rectangle,
    workspaces: Vec<Workspace>,
    focus_state: FocusState,
    device_info: DeviceInfo,
}

impl View for Monitor {
    type V = MonitorV;

    closed spec fn view(&self) -> MonitorV {
        MonitorV {
            id: self.id@,
            geometry: self.geometry,
            workspaces: workspace_views(self.workspaces@),
            focus_state: self.focus_state,
            dpi: self.device_info.dpi,
            scale_factor_bits: self.device_info.scale_factor_bits,
            device_name: self.device_info.device_name@,
        }
    }
}

impl Clone for Monitor {
    fn clone(&self) -> (r: Self)
        ensures
            r@ == self@,
    {
        let mut workspaces: Vec<Workspace> = Vec::new();
        let n = self.workspaces.len();
        let mut i: usize = 0;
        while i < n
            invariant
                i <= n,
                n == self.workspaces@.len(),
                workspaces@.len() == i,
                forall|j: int| 0 <= j < i ==> workspaces@[j]@ == self.workspaces@[j]@,
            decreases n - i,
        {
            workspaces.push(self.workspaces[i].clone());
            i = i + 1;
        }
        let r = Monitor {
            id: self.id.clone(),
            geometry: self.geometry,
            workspaces,
            focus_state: self.focus_state,
            device_info: self.device_info.clone(),
        };
        proof {
            assert(workspace_views(r.workspaces@) =~= workspace_views(self.workspaces@));
        }
        r
    }
}

impl Monitor {
    /// Creates a monitor without validation, for values whose validity is
    /// already established (for example by a prior successful parse).
    pub fn new(
        id: MonitorId,
        geometry: Rectangle,
        workspaces: Vec<Workspace>,
        focus_state: FocusState,
        dpi: i32,
        scale_factor_bits: u64,
    ) -> (r: Self)
        ensures
            r@ == (MonitorV {
                id: id@,
                geometry,
                workspaces: workspace_views(workspaces@),
                focus_state,
                dpi,
                scale_factor_bits,
                device_name: device_name_of(id@),
            }),
    {
        let mut device_name: String = String::new();
        device_name.append("Monitor ");
        device_name.append(id.as_str());
        proof {
            assert(device_name@ =~= device_name_of(id@));
        }
        let device_info = DeviceInfo::new(dpi, scale_factor_bits, device_name);
        Self { id, geometry, workspaces, focus_state, device_info }
    }

    /// Creates a monitor with validation: the geometry must be positive in
    /// both axes, the dpi positive, and the scale factor positive. The first
    /// violated rule is reported; on failure nothing is constructed.
    pub fn try_new(
        id: MonitorId,
        geometry: Rectangle,
        workspaces: Vec<Workspace>,
        focus_state: FocusState,
        dpi: i32,
        scale_factor_bits: u64,
    ) -> (r: Result<Self, DomainError>)
        ensures
            r matches Ok(_) <==> monitor_data_valid(geometry, dpi, scale_factor_bits),
            r matches Ok(m) ==> m@ == (MonitorV {
                id: id@,
                geometry,
                workspaces: workspace_views(workspaces@),
                focus_state,
                dpi,
                scale_factor_bits,
                device_name: device_name_of(id@),
            }),
            r matches Err(e) ==> e@ == spec_monitor_data_error(geometry, dpi, scale_factor_bits),
    {
        if geometry.size.width == 0 || geometry.size.height == 0 {
            return Err(DomainError::InvalidGeometry {
                width: geometry.size.width,
                height: geometry.size.height,
            });
        }
        if dpi <= 0 {
            return Err(DomainError::InvalidDpi { dpi });
        }
        if !is_float_bits_positive(scale_factor_bits) {
            return Err(DomainError::InvalidScaleFactor { scale_bits: scale_factor_bits });
        }
        Ok(Self::new(id, geometry, workspaces, focus_state, dpi, scale_factor_bits))
    }

    pub fn id(&self) -> (r: &MonitorId)
        ensures
            r@ == self@.id,
    {
        &self.id
    }

    pub fn geometry(&self) -> (r: &Rectangle)
        ensures
            *r == self@.geometry,
    {
        &self.geometry
    }

    pub fn workspaces(&self) -> (r: &Vec<Workspace>)
        ensures
            workspace_views(r@) == self@.workspaces,
    {
        &self.workspaces
    }

    pub fn focus_state(&self) -> (r: &FocusState)
        ensures
            *r == self@.focus_state,
    {
        &self.focus_state
    }

    pub fn dpi(&self) -> (r: i32)
        ensures
            r == self@.dpi,
    {
        self.device_info.dpi
    }

    /// The bit pattern of the monitor's scale factor, a 64-bit binary
    /// floating-point value.
    pub fn scale_factor(&self) -> (r: u64)
        ensures
            r == self@.scale_factor_bits,
    {
        self.device_info.scale_factor_bits
    }

    pub fn device_name(&self) -> (r: &str)
        ensures
            r@ == self@.device_name,
    {
        self.device_info.device_name.as_str()
    }

    pub fn is_focused(&self) -> (r: bool)
        ensures
            r == (self@.focus_state == FocusState::Focused),
    {
        self.focus_state.is_focused()
    }

    pub fn workspace_count(&self) -> (r: usize)
        ensures
            r == self@.workspaces.len(),
    {
        self.workspaces.len()
    }

    /// The total number of windows over all workspaces on this monitor.
    pub fn total_window_count(&self) -> (r: usize)
        requires
            total_windows(self@.workspaces) <= usize::MAX,
        ensures
            r == total_windows(self@.workspaces),
    {
        let n = self.workspaces.len();
        let mut sum: usize = 0;
        let mut i: usize = 0;
        while i < n
            invariant
                i <= n,
                n == self@.workspaces.len(),
                n == self.workspaces@.len(),
                sum == total_windows(self@.workspaces.take(i as int)),
                total_windows(self@.workspaces) <= usize::MAX,
            decreases n - i,
        {
            proof {
                lemma_total_windows_take_step(self@.workspaces, i as int);
                lemma_total_windows_take_bound(self@.workspaces, i + 1);
            }
            sum = sum + self.workspaces[i].window_count();
            i = i + 1;
        }
        proof {
            assert(self@.workspaces.take(n as int) =~= self@.workspaces);
        }
        sum
    }

    /// The workspaces currently flagged focused, in presentation order.
    pub fn active_workspaces(&self) -> (r: Vec<&Workspace>)
        ensures
            r@.map_values(|w: &Workspace| w@) == self@.workspaces.filter(
                |w: WorkspaceV| w.focus_state == FocusState::Focused,
            ),
    {
        let pred = |w: WorkspaceV| w.focus_state == FocusState::Focused;
        let n = self.workspaces.len();
        let mut r: Vec<&Workspace> = Vec::new();
        let mut i: usize = 0;
        while i < n
            invariant
                i <= n,
                n == self@.workspaces.len(),
                n == self.workspaces@.len(),
                r@.map_values(|w: &Workspace| w@) == self@.workspaces.take(i as int).filter(
                    |w: WorkspaceV| w.focus_state == FocusState::Focused,
                ),
            decreases n - i,
        {
            let ghost prev = r@.map_values(|w: &Workspace| w@);
            if self.workspaces[i].is_focused() {
                r.push(&self.workspaces[i]);
                proof {
                    assert(r@.map_values(|w: &Workspace| w@) =~= prev.push(
                        self@.workspaces[i as int],
                    ));
                }
            }
            proof {
                lemma_filter_take_step(self@.workspaces, i as int);
            }
            i = i + 1;
        }
        proof {
            assert(self@.workspaces.take(n as int) =~= self@.workspaces);
        }
        r
    }

    /// The first focused window over all workspaces, in presentation order.
    pub fn focused_window(&self) -> (r: Option<&Window>)
        ensures
            match r {
                Some(w) => exists|i: int, k: int|
                    first_workspace_with_focused_window(self@.workspaces, i)
                        && first_focused_window_index(self@.workspaces[i].windows, k) && w@
                        == self@.workspaces[i].windows[k],
                None => forall|i: int|
                    0 <= i < self@.workspaces.len() ==> !workspace_has_focused_window(
                        self@.workspaces[i],
                    ),
            },
    {
        let n = self.workspaces.len();
        let mut i: usize = 0;
        while i < n
            invariant
                i <= n,
                n == self@.workspaces.len(),
                n == self.workspaces@.len(),
                forall|j: int|
                    0 <= j < i ==> !workspace_has_focused_window(self@.workspaces[j]),
            decreases n - i,
        {
            let found = self.workspaces[i].focused_window();
            match found {
                Some(w) => {
                    proof {
                        assert(self@.workspaces[i as int] == self.workspaces@[i as int]@);
                        assert(first_workspace_with_focused_window(self@.workspaces, i as int));
                    }
                    return Some(w);
                },
                None => {},
            }
            i = i + 1;
        }
        None
    }

    /// Adds a workspace. Fails with a duplicate-id error, leaving the monitor
    /// unchanged, when the id is already present. When the new workspace is
    /// focused, every existing workspace is unfocused first, so at most one
    /// workspace stays focused.
    pub fn add_workspace(&mut self, workspace: Workspace) -> (r: Result<(), DomainError>)
        ensures
            r matches Ok(()) <==> !contains_workspace_id(old(self)@.workspaces, workspace@.id),
            r matches Ok(()) && workspace@.focus_state == FocusState::Focused ==> final(self)@
                == (MonitorV {
                workspaces: all_unfocused(old(self)@.workspaces).push(workspace@),
                ..old(self)@
            }),
            r matches Ok(()) && workspace@.focus_state != FocusState::Focused ==> final(self)@
                == (MonitorV { workspaces: old(self)@.workspaces.push(workspace@), ..old(self)@ }),
            r matches Err(e) ==> e@ == (DomainErrorV::DuplicateWorkspaceId { id: workspace@.id })
                && final(self)@ == old(self)@,
    {
        if let Some(_) = self.position_of_id(workspace.id()) {
            return Err(DomainError::DuplicateWorkspaceId { id: workspace.id().clone() });
        }
        if workspace.is_focused() {
            self.deactivate_all_workspaces();
        }
        proof {
            lemma_workspace_views_push(self.workspaces@, workspace);
        }
        self.workspaces.push(workspace);
        Ok(())
    }

    fn position_of_id(&self, workspace_id: &WorkspaceId) -> (r: Option<usize>)
        ensures
            match r {
                Some(i) => first_workspace_index(self@.workspaces, workspace_id@, i as int),
                None => !contains_workspace_id(self@.workspaces, workspace_id@),
            },
    {
        let n = self.workspaces.len();
        let mut i: usize = 0;
        while i < n
            invariant
                i <= n,
                n == self@.workspaces.len(),
                n == self.workspaces@.len(),
                forall|j: int| 0 <= j < i ==> self@.workspaces[j].id != workspace_id@,
            decreases n - i,
        {
            if self.workspaces[i].id().0 == workspace_id.0 {
                return Some(i);
            }
            i = i + 1;
        }
        None
    }

    /// Removes the workspace with the given id and returns it. Fails with a
    /// not-found error, leaving the monitor unchanged, when it is absent.
    pub fn remove_workspace(&mut self, workspace_id: &WorkspaceId) -> (r: Result<
        Workspace,
        DomainError,
    >)
        ensures
            r matches Ok(_) <==> contains_workspace_id(old(self)@.workspaces, workspace_id@),
            r matches Ok(w) ==> exists|i: int|
                first_workspace_index(old(self)@.workspaces, workspace_id@, i) && w@ == old(
                    self,
                )@.workspaces[i] && final(self)@ == (MonitorV {
                    workspaces: old(self)@.workspaces.remove(i),
                    ..old(self)@
                }),
            r matches Err(e) ==> e@ == (DomainErrorV::WorkspaceNotFound { id: workspace_id@ })
                && final(self)@ == old(self)@,
    {
        match self.position_of_id(workspace_id) {
            None => Err(DomainError::WorkspaceNotFound { id: workspace_id.clone() }),
            Some(position) => {
                proof {
                    lemma_workspace_views_remove(self.workspaces@, position as int);
                }
                let w = self.workspaces.remove(position);
                Ok(w)
            },
        }
    }

    /// Unfocuses every workspace; used when a new focused workspace arrives.
    fn deactivate_all_workspaces(&mut self)
        ensures
            final(self)@ == (MonitorV {
                workspaces: all_unfocused(old(self)@.workspaces),
                ..old(self)@
            }),
    {
        let n = self.workspaces.len();
        let mut i: usize = 0;
        while i < n
            invariant
                i <= n,
                n == self.workspaces@.len(),
                self.id@ == old(self).id@,
                self.geometry == old(self).geometry,
                self.focus_state == old(self).focus_state,
                self.device_info.dpi == old(self).device_info.dpi,
                self.device_info.scale_factor_bits == old(self).device_info.scale_factor_bits,
                self.device_info.device_name@ == old(self).device_info.device_name@,
                self.workspaces@.len() == old(self).workspaces@.len(),
                forall|j: int|
                    0 <= j < i ==> self.workspaces@[j]@ == (WorkspaceV {
                        focus_state: FocusState::Unfocused,
                        ..old(self).workspaces@[j]@
                    }),
                forall|j: int|
                    i <= j < n ==> self.workspaces@[j]@ == old(self).workspaces@[j]@,
            decreases n - i,
        {
            self.workspaces[i].set_focus_state(FocusState::Unfocused);
            i = i + 1;
        }
        proof {
            assert(workspace_views(self.workspaces@) =~= all_unfocused(
                workspace_views(old(self).workspaces@),
            ));
        }
    }

    pub fn set_focus_state(&mut self, focus_state: FocusState)
        ensures
            final(self)@ == (MonitorV { focus_state, ..old(self)@ }),
    {
        self.focus_state = focus_state;
    }
}

/// The first validation error for invalid monitor data: geometry first, then
/// dpi, then scale factor.
pub open spec fn spec_monitor_data_error(geometry: Rectangle, dpi: i32, scale_factor_bits: u64) -> DomainErrorV {
    if geometry.size.width == 0 || geometry.size.height == 0 {
        DomainErrorV::InvalidGeometry { width: geometry.size.width, height: geometry.size.height }
    } else if dpi <= 0 {
        DomainErrorV::InvalidDpi { dpi }
    } else {
        DomainErrorV::InvalidScaleFactor { scale_bits: scale_factor_bits }
    }
}

proof fn lemma_total_windows_take_step(s: Seq<WorkspaceV>, i: int)
    requires
        0 <= i < s.len(),
    ensures
        total_windows(s.take(i + 1)) == total_windows(s.take(i)) + s[i].windows.len(),
{
    let t = s.take(i + 1);
    assert(t.drop_last() =~= s.take(i));
    assert(t.last() == s[i]);
}

/// A prefix sum of window counts never exceeds the total.
proof fn lemma_total_windows_take_bound(s: Seq<WorkspaceV>, i: int)
    requires
        0 <= i <= s.len(),
    ensures
        total_windows(s.take(i)) <= total_windows(s),
        total_windows(s.take(i)) >= 0,
    decreases s.len() - i,
{
    if i == s.len() {
        assert(s.take(i) =~= s);
        lemma_total_windows_nonneg(s);
    } else {
        lemma_total_windows_take_step(s, i);
        lemma_total_windows_take_bound(s, i + 1);
        lemma_total_windows_nonneg(s.take(i));
    }
}

proof fn lemma_total_windows_nonneg(s: Seq<WorkspaceV>)
    ensures
        total_windows(s) >= 0,
    decreases s.len(),
{
    if s.len() > 0 {
        lemma_total_windows_nonneg(s.drop_last());
    }
}

proof fn lemma_filter_take_step(s: Seq<WorkspaceV>, i: int)
    requires
        0 <= i < s.len(),
    ensures
        s.take(i + 1).filter(|w: WorkspaceV| w.focus_state == FocusState::Focused) == if s[i].focus_state
            == FocusState::Focused {
            s.take(i).filter(|w: WorkspaceV| w.focus_state == FocusState::Focused).push(s[i])
        } else {
            s.take(i).filter(|w: WorkspaceV| w.focus_state == FocusState::Focused)
        },
{
    let t = s.take(i + 1);
    assert(t.drop_last() =~= s.take(i));
    assert(t.last() == s[i]);
    reveal(Seq::filter);
}

} // verus!
