//! The shared application state: the current monitor snapshot, the run flag,
//! the last-update timestamp, and the display mode. The state is a plain
//! value with verified transitions; the process boundary wraps it for
//! concurrent access and hands each transition the current time in
//! milliseconds.

use vstd::prelude::*;

use crate::monitor::{total_windows, Monitor, MonitorV};
use crate::parser::monitor_views;
use crate::values::FocusState;

verus! {

/// Display mode of the dashboard.
#[derive(Debug, Clone, Copy, PartialEq, Eq, Structural)]
pub enum DisplayMode {
    /// Detailed view with full information.
    Detailed,
    /// Compact tree-style view.
    Compact,
}

/// The display mode the other one toggles to.
pub open spec fn toggled(mode: DisplayMode) -> DisplayMode {
    match mode {
        DisplayMode::Detailed => DisplayMode::Compact,
        DisplayMode::Compact => DisplayMode::Detailed,
    }
}

/// The total number of windows over a sequence of monitors.
pub open spec fn total_windows_of_monitors(s: Seq<MonitorV>) -> int
    decreases s.len(),
{
    if s.len() == 0 {
        0
    } else {
        total_windows_of_monitors(s.drop_last()) + total_windows(s.last().workspaces)
    }
}

/// Whether `i` is the first index of a focused monitor.
pub open spec fn first_focused_monitor_index(s: Seq<MonitorV>, i: int) -> bool {
    &&& 0 <= i < s.len()
    &&& s[i].focus_state == FocusState::Focused
    &&& forall|j: int| 0 <= j < i ==> s[j].focus_state != FocusState::Focused
}

/// The view of an [`AppState`].
pub ghost struct AppStateV {
    pub monitors: Seq<MonitorV>,
    pub running: bool,
    pub last_update_millis: Option<u64>,
    pub display_mode: DisplayMode,
}

/// The application state: one instance per run, mutated by the update cycle
/// (monitors, timestamp) and by input handling (run flag, display mode), and
/// read by rendering.
#[derive(Debug)]
pub struct AppState {
    monitors: Vec<Monitor>,
    running: bool,
    last_update_millis: Option<u64>,
    display_mode: DisplayMode,
}

impl View for AppState {
    type V = AppStateV;

    closed spec fn view(&self) -> AppStateV {
        AppStateV {
            monitors: monitor_views(self.monitors@),
            running: self.running,
            last_update_millis: self.last_update_millis,
            display_mode: self.display_mode,
        }
    }
}

impl AppState {
    /// A fresh state: no monitors, running, never updated, detailed mode.
    pub fn new() -> (r: Self)
        ensures
            r@ == (AppStateV {
                monitors: Seq::<MonitorV>::empty(),
                running: true,
                last_update_millis: None::<u64>,
                display_mode: DisplayMode::Detailed,
            }),
    {
        let r = AppState {
            monitors: Vec::new(),
            running: true,
            last_update_millis: None,
            display_mode: DisplayMode::Detailed,
        };
        proof {
            assert(monitor_views(r.monitors@) =~= Seq::<MonitorV>::empty());
        }
        r
    }

    /// Replaces the whole monitor snapshot and stamps the update time.
    /// The swap is complete: no part of the previous snapshot survives.
    pub fn update_monitors(&mut self, monitors: Vec<Monitor>, now_millis: u64)
        ensures
            final(self)@ == (AppStateV {
                monitors: monitor_views(monitors@),
                last_update_millis: Some(now_millis),
                ..old(self)@
            }),
    {
        self.monitors = monitors;
        self.last_update_millis = Some(now_millis);
    }

    /// The current monitor snapshot.
    pub fn get_monitors(&self) -> (r: &Vec<Monitor>)
        ensures
            monitor_views(r@) == self@.monitors,
    {
        &self.monitors
    }

    /// Whether the application should continue running.
    pub fn is_running(&self) -> (r: bool)
        ensures
            r == self@.running,
    {
        self.running
    }

    /// Signals the application to stop; the flag never goes back.
    pub fn stop(&mut self)
        ensures
            final(self)@ == (AppStateV { running: false, ..old(self)@ }),
    {
        self.running = false;
    }

    /// Milliseconds since the last successful update, or nothing when no
    /// update has happened yet.
    pub fn time_since_last_update(&self, now_millis: u64) -> (r: Option<u64>)
        requires
            self@.last_update_millis matches Some(t) ==> t <= now_millis,
        ensures
            r == match self@.last_update_millis {
                None => None::<u64>,
                Some(t) => Some((now_millis - t) as u64),
            },
    {
        match self.last_update_millis {
            None => None,
            Some(t) => Some(now_millis - t),
        }
    }

    pub fn monitor_count(&self) -> (r: usize)
        ensures
            r == self@.monitors.len(),
    {
        self.monitors.len()
    }

    /// The total number of windows over all monitors.
    pub fn total_window_count(&self) -> (r: usize)
        requires
            total_windows_of_monitors(self@.monitors) <= usize::MAX,
        ensures
            r == total_windows_of_monitors(self@.monitors),
    {
        let n = self.monitors.len();
        let mut sum: usize = 0;
        let mut i: usize = 0;
        while i < n
            invariant
                i <= n,
                n == self@.monitors.len(),
                n == self.monitors@.len(),
                sum == total_windows_of_monitors(self@.monitors.take(i as int)),
                total_windows_of_monitors(self@.monitors) <= usize::MAX,
            decreases n - i,
        {
            proof {
                lemma_monitor_windows_take_step(self@.monitors, i as int);
                lemma_monitor_windows_take_bound(self@.monitors, i + 1);
                lemma_total_windows_nonneg_one(self@.monitors[i as int].workspaces);
            }
            sum = sum + self.monitors[i].total_window_count();
            i = i + 1;
        }
        proof {
            assert(self@.monitors.take(n as int) =~= self@.monitors);
        }
        sum
    }

    /// The first focused monitor, if any.
    pub fn focused_monitor(&self) -> (r: Option<&Monitor>)
        ensures
            match r {
                Some(m) => exists|i: int|
                    first_focused_monitor_index(self@.monitors, i) && m@ == self@.monitors[i],
                None => forall|i: int|
                    0 <= i < self@.monitors.len()
                        ==> self@.monitors[i].focus_state != FocusState::Focused,
            },
    {
        let n = self.monitors.len();
        let mut i: usize = 0;
        while i < n
            invariant
                i <= n,
                n == self@.monitors.len(),
                n == self.monitors@.len(),
                forall|j: int|
                    0 <= j < i ==> self@.monitors[j].focus_state != FocusState::Focused,
            decreases n - i,
        {
            if self.monitors[i].is_focused() {
                proof {
                    assert(self@.monitors[i as int] == self.monitors@[i as int]@);
                    assert(first_focused_monitor_index(self@.monitors, i as int));
                }
                return Some(&self.monitors[i]);
            }
            i = i + 1;
        }
        None
    }

    /// The current display mode.
    pub fn get_display_mode(&self) -> (r: DisplayMode)
        ensures
            r == self@.display_mode,
    {
        self.display_mode
    }

    /// Sets the display mode.
    pub fn set_display_mode(&mut self, mode: DisplayMode)
        ensures
            final(self)@ == (AppStateV { display_mode: mode, ..old(self)@ }),
    {
        self.display_mode = mode;
    }

    /// Toggles the display mode between detailed and compact.
    pub fn toggle_display_mode(&mut self)
        ensures
            final(self)@ == (AppStateV {
                display_mode: toggled(old(self)@.display_mode),
                ..old(self)@
            }),
    {
        self.display_mode = match self.display_mode {
            DisplayMode::Detailed => DisplayMode::Compact,
            DisplayMode::Compact => DisplayMode::Detailed,
        };
    }
}

impl Default for AppState {
    fn default() -> (r: Self)
        ensures
            r@ == (AppStateV {
                monitors: Seq::<MonitorV>::empty(),
                running: true,
                last_update_millis: None::<u64>,
                display_mode: DisplayMode::Detailed,
            }),
    {
        Self::new()
    }
}

proof fn lemma_monitor_windows_take_step(s: Seq<MonitorV>, i: int)
    requires
        0 <= i < s.len(),
    ensures
        total_windows_of_monitors(s.take(i + 1)) == total_windows_of_monitors(s.take(i))
            + total_windows(s[i].workspaces),
{
    let t = s.take(i + 1);
    assert(t.drop_last() =~= s.take(i));
    assert(t.last() == s[i]);
}

proof fn lemma_monitor_windows_take_bound(s: Seq<MonitorV>, i: int)
    requires
        0 <= i <= s.len(),
    ensures
        total_windows_of_monitors(s.take(i)) <= total_windows_of_monitors(s),
        total_windows_of_monitors(s.take(i)) >= 0,
    decreases s.len() - i,
{
    if i == s.len() {
        assert(s.take(i) =~= s);
        lemma_monitors_windows_nonneg(s);
    } else {
        lemma_monitor_windows_take_step(s, i);
        lemma_monitor_windows_take_bound(s, i + 1);
        lemma_monitors_windows_nonneg(s.take(i));
        lemma_total_windows_nonneg_one(s[i].workspaces);
    }
}

proof fn lemma_monitors_windows_nonneg(s: Seq<MonitorV>)
    ensures
        total_windows_of_monitors(s) >= 0,
    decreases s.len(),
{
    if s.len() > 0 {
        lemma_monitors_windows_nonneg(s.drop_last());
        lemma_total_windows_nonneg_one(s.last().workspaces);
    }
}

proof fn lemma_total_windows_nonneg_one(s: Seq<crate::workspace::WorkspaceV>)
    ensures
        total_windows(s) >= 0,
    decreases s.len(),
{
    if s.len() > 0 {
        lemma_total_windows_nonneg_one(s.drop_last());
    }
}

} // verus!
