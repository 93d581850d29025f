//! The protocol parser: maps response records into validated domain
//! aggregates, applying the fallback rules for unrecognized tags and
//! skipping child kinds the dashboard does not understand.

use vstd::prelude::*;

use crate::errors::{CliError, CliErrorV};
use crate::monitor::{
    device_name_of, monitor_data_valid, spec_monitor_data_error, workspace_views, Monitor, MonitorV,
};
use crate::records::{
    MonitorChildRecord, MonitorRecord, ResponseEnvelope, WindowRecord, WorkspaceChildRecord,
    WorkspaceRecord,
};
use crate::textfmt::str_eq;
use crate::values::{
    DisplayState, FocusState, MonitorId, Position, Rectangle, Size, TilingDirection, WindowId,
    WindowState, WorkspaceId,
};
use crate::window::{Window, WindowV};
use crate::workspace::{window_views, Workspace, WorkspaceV};

verus! {

/// `hasFocus` maps to the focus state.
pub open spec fn focus_of(has_focus: bool) -> FocusState {
    if has_focus {
        FocusState::Focused
    } else {
        FocusState::Unfocused
    }
}

/// `isDisplayed` maps to the display state: displayed means shown.
pub open spec fn display_of(is_displayed: bool) -> DisplayState {
    if is_displayed {
        DisplayState::Shown
    } else {
        DisplayState::Hidden
    }
}

/// `tilingDirection` maps case-sensitively; every unrecognized value falls
/// back to horizontal.
pub open spec fn tiling_direction_of(s: Seq<char>) -> TilingDirection {
    if s == "horizontal"@ {
        TilingDirection::Horizontal
    } else if s == "vertical"@ {
        TilingDirection::Vertical
    } else {
        TilingDirection::Horizontal
    }
}

/// `state.type` maps case-sensitively; every unrecognized value falls back
/// to tiling.
pub open spec fn window_state_of(s: Seq<char>) -> WindowState {
    if s == "tiling"@ {
        WindowState::Tiling
    } else if s == "floating"@ {
        WindowState::Floating
    } else if s == "fullscreen"@ {
        WindowState::Fullscreen
    } else if s == "minimized"@ {
        WindowState::Minimized
    } else {
        WindowState::Tiling
    }
}

/// A window's `displayState` maps case-sensitively; every unrecognized value
/// falls back to shown.
pub open spec fn window_display_state_of(s: Seq<char>) -> DisplayState {
    if s == "shown"@ {
        DisplayState::Shown
    } else if s == "hidden"@ {
        DisplayState::Hidden
    } else {
        DisplayState::Shown
    }
}

/// The domain window a window record maps to.
pub open spec fn spec_window(r: WindowRecord) -> WindowV {
    WindowV {
        id: r.id@,
        title: r.title@,
        process_name: r.process_name@,
        geometry: Rectangle {
            position: Position { x: r.x, y: r.y },
            size: Size { width: r.width, height: r.height },
        },
        state: window_state_of(r.state_type@),
        focus_state: focus_of(r.has_focus),
        display_state: window_display_state_of(r.display_state@),
    }
}

/// The windows of a workspace record's children, in order; children of other
/// kinds are skipped.
pub open spec fn spec_workspace_windows(children: Seq<WorkspaceChildRecord>) -> Seq<WindowV>
    decreases children.len(),
{
    if children.len() == 0 {
        Seq::empty()
    } else {
        spec_workspace_windows(children.drop_last()) + (match children.last() {
            WorkspaceChildRecord::Window(w) => seq![spec_window(w)],
            WorkspaceChildRecord::Other => Seq::empty(),
        })
    }
}

/// The domain workspace a workspace record maps to.
pub open spec fn spec_workspace(r: WorkspaceRecord) -> WorkspaceV {
    WorkspaceV {
        id: r.id@,
        name: r.name@,
        windows: spec_workspace_windows(r.children@),
        tiling_direction: tiling_direction_of(r.tiling_direction@),
        focus_state: focus_of(r.has_focus),
        display_state: display_of(r.is_displayed),
    }
}

/// The workspaces of a monitor record's children, in order; children of
/// other kinds are skipped.
pub open spec fn spec_monitor_workspaces(children: Seq<MonitorChildRecord>) -> Seq<WorkspaceV>
    decreases children.len(),
{
    if children.len() == 0 {
        Seq::empty()
    } else {
        spec_monitor_workspaces(children.drop_last()) + (match children.last() {
            MonitorChildRecord::Workspace(w) => seq![spec_workspace(w)],
            MonitorChildRecord::Other => Seq::empty(),
        })
    }
}

/// The geometry of a monitor record.
pub open spec fn spec_monitor_geometry(r: MonitorRecord) -> Rectangle {
    Rectangle {
        position: Position { x: r.x, y: r.y },
        size: Size { width: r.width, height: r.height },
    }
}

/// The domain monitor a monitor record maps to, or the first validation
/// error when the record violates a monitor invariant.
pub open spec fn spec_monitor(r: MonitorRecord) -> Result<MonitorV, CliErrorV> {
    if monitor_data_valid(spec_monitor_geometry(r), r.dpi, r.scale_factor_bits) {
        Ok(
            MonitorV {
                id: r.id@,
                geometry: spec_monitor_geometry(r),
                workspaces: spec_monitor_workspaces(r.children@),
                focus_state: focus_of(r.has_focus),
                dpi: r.dpi,
                scale_factor_bits: r.scale_factor_bits,
                device_name: device_name_of(r.id@),
            },
        )
    } else {
        Err(
            CliErrorV::InvalidMonitor {
                id: r.id@,
                error: spec_monitor_data_error(spec_monitor_geometry(r), r.dpi, r.scale_factor_bits),
            },
        )
    }
}

/// The result of parsing the monitor records from index `i` on: the monitors
/// in order, or the first validation error. A failure anywhere makes the
/// whole parse fail; partial lists are never produced.
pub open spec fn spec_parse_from(rs: Seq<MonitorRecord>, i: int) -> Result<Seq<MonitorV>, CliErrorV>
    decreases rs.len() - i when 0 <= i <= rs.len()
{
    if i >= rs.len() {
        Ok(Seq::empty())
    } else {
        match spec_monitor(rs[i]) {
            Err(e) => Err(e),
            Ok(m) => match spec_parse_from(rs, i + 1) {
                Err(e) => Err(e),
                Ok(t) => Ok(seq![m] + t),
            },
        }
    }
}

/// The result of parsing a whole response envelope.
pub open spec fn spec_parse_response(env: ResponseEnvelope) -> Result<Seq<MonitorV>, CliErrorV> {
    match env.data {
        None => Err(CliErrorV::JsonParseError { message: "missing field: data"@ }),
        Some(d) => spec_parse_from(d.monitors@, 0),
    }
}

/// The envelope-validation error for an invalid envelope: a missing or false
/// `success` is reported before a missing `data`.
pub open spec fn spec_envelope_error(env: ResponseEnvelope) -> CliErrorV {
    if env.success != Some(true) {
        CliErrorV::InvalidJsonSchema { field: "success"@ }
    } else {
        CliErrorV::InvalidJsonSchema { field: "data"@ }
    }
}

/// The views of a sequence of monitors.
pub open spec fn monitor_views(s: Seq<Monitor>) -> Seq<MonitorV> {
    s.map_values(|m: Monitor| m@)
}

/// Law: the parse is a function of the document alone, so parsing the same
/// document twice yields structurally equal domain trees.
pub proof fn lemma_parse_deterministic(
    env: ResponseEnvelope,
    r1: Result<Seq<MonitorV>, CliErrorV>,
    r2: Result<Seq<MonitorV>, CliErrorV>,
)
    requires
        r1 == spec_parse_response(env),
        r2 == spec_parse_response(env),
    ensures
        r1 == r2,
{
}

/// Parser for converting window-manager query responses to domain models.
pub struct GlazewmParser;

impl GlazewmParser {
    fn convert_window(rec: &WindowRecord) -> (w: Window)
        ensures
            w@ == spec_window(*rec),
    {
        let state = if str_eq(rec.state_type.as_str(), "tiling") {
            WindowState::Tiling
        } else if str_eq(rec.state_type.as_str(), "floating") {
            WindowState::Floating
        } else if str_eq(rec.state_type.as_str(), "fullscreen") {
            WindowState::Fullscreen
        } else if str_eq(rec.state_type.as_str(), "minimized") {
            WindowState::Minimized
        } else {
            WindowState::Tiling
        };
        let focus_state = if rec.has_focus {
            FocusState::Focused
        } else {
            FocusState::Unfocused
        };
        let display_state = if str_eq(rec.display_state.as_str(), "shown") {
            DisplayState::Shown
        } else if str_eq(rec.display_state.as_str(), "hidden") {
            DisplayState::Hidden
        } else {
            DisplayState::Shown
        };
        let geometry = Rectangle::from_coords(rec.x, rec.y, rec.width, rec.height);
        Window::new(
            WindowId::new(rec.id.clone()),
            rec.title.clone(),
            rec.process_name.clone(),
            geometry,
            state,
            focus_state,
            display_state,
        )
    }

    fn convert_workspace(rec: &WorkspaceRecord) -> (w: Workspace)
        ensures
            w@ == spec_workspace(*rec),
    {
        let focus_state = if rec.has_focus {
            FocusState::Focused
        } else {
            FocusState::Unfocused
        };
        let display_state = if rec.is_displayed {
            DisplayState::Shown
        } else {
            DisplayState::Hidden
        };
        let tiling_direction = if str_eq(rec.tiling_direction.as_str(), "horizontal") {
            TilingDirection::Horizontal
        } else if str_eq(rec.tiling_direction.as_str(), "vertical") {
            TilingDirection::Vertical
        } else {
            TilingDirection::Horizontal
        };
        let n = rec.children.len();
        let mut windows: Vec<Window> = Vec::new();
        let mut i: usize = 0;
        while i < n
            invariant
                i <= n,
                n == rec.children@.len(),
                window_views(windows@) == spec_workspace_windows(rec.children@.take(i as int)),
            decreases n - i,
        {
            let ghost prev = window_views(windows@);
            match &rec.children[i] {
                WorkspaceChildRecord::Window(wr) => {
                    let w = Self::convert_window(wr);
                    proof {
                        crate::workspace::lemma_window_views_push(windows@, w);
                    }
                    windows.push(w);
                },
                WorkspaceChildRecord::Other => {},
            }
            proof {
                lemma_workspace_windows_take_step(rec.children@, i as int);
            }
            i = i + 1;
        }
        proof {
            assert(rec.children@.take(n as int) =~= rec.children@);
        }
        Workspace::new(
            WorkspaceId::new(rec.id.clone()),
            rec.name.clone(),
            windows,
            tiling_direction,
            focus_state,
            display_state,
        )
    }

    fn convert_monitor(rec: &MonitorRecord) -> (r: Result<Monitor, CliError>)
        ensures
            match r {
                Ok(m) => spec_monitor(*rec) == Ok::<MonitorV, CliErrorV>(m@),
                Err(e) => spec_monitor(*rec) == Err::<MonitorV, CliErrorV>(e@),
            },
    {
        let geometry = Rectangle::from_coords(rec.x, rec.y, rec.width, rec.height);
        let focus_state = if rec.has_focus {
            FocusState::Focused
        } else {
            FocusState::Unfocused
        };
        let n = rec.children.len();
        let mut workspaces: Vec<Workspace> = Vec::new();
        let mut i: usize = 0;
        while i < n
            invariant
                i <= n,
                n == rec.children@.len(),
                workspace_views(workspaces@) == spec_monitor_workspaces(
                    rec.children@.take(i as int),
                ),
            decreases n - i,
        {
            match &rec.children[i] {
                MonitorChildRecord::Workspace(wr) => {
                    let w = Self::convert_workspace(wr);
                    proof {
                        crate::monitor::lemma_workspace_views_push(workspaces@, w);
                    }
                    workspaces.push(w);
                },
                MonitorChildRecord::Other => {},
            }
            proof {
                lemma_monitor_workspaces_take_step(rec.children@, i as int);
            }
            i = i + 1;
        }
        proof {
            assert(rec.children@.take(n as int) =~= rec.children@);
        }
        match Monitor::try_new(
            MonitorId::new(rec.id.clone()),
            geometry,
            workspaces,
            focus_state,
            rec.dpi,
            rec.scale_factor_bits,
        ) {
            Ok(m) => Ok(m),
            Err(e) => Err(
                CliError::InvalidMonitor { id: MonitorId::new(rec.id.clone()), error: e },
            ),
        }
    }

    /// Parses the monitors of a query response. A validation failure of any
    /// monitor fails the whole parse; a partial list is never returned.
    pub fn parse_monitors(env: &ResponseEnvelope) -> (r: Result<Vec<Monitor>, CliError>)
        ensures
            match r {
                Ok(v) => spec_parse_response(*env) == Ok::<Seq<MonitorV>, CliErrorV>(
                    monitor_views(v@),
                ),
                Err(e) => spec_parse_response(*env) == Err::<Seq<MonitorV>, CliErrorV>(e@),
            },
    {
        let data = match &env.data {
            None => {
                return Err(
                    CliError::JsonParseError { message: String::from_str("missing field: data") },
                );
            },
            Some(data) => data,
        };
        let rs = &data.monitors;
        let n = rs.len();
        let mut monitors: Vec<Monitor> = Vec::new();
        proof {
            assert(env.data == Some(*data));
            assert(spec_parse_response(*env) == spec_parse_from(rs@, 0));
            match spec_parse_from(rs@, 0) {
                Ok(t) => {
                    assert(monitor_views(monitors@) + t =~= t);
                },
                Err(_) => {},
            }
            assert(parse_continues(rs@, 0, monitor_views(monitors@)));
        }
        let mut i: usize = 0;
        while i < n
            invariant
                i <= n,
                n == rs@.len(),
                monitors@.len() == i,
                spec_parse_response(*env) == spec_parse_from(rs@, 0),
                forall|j: int| 0 <= j < i ==> spec_monitor(rs@[j]) == Ok::<MonitorV, CliErrorV>(
                    #[trigger] monitors@[j]@,
                ),
                parse_continues(rs@, i as int, monitor_views(monitors@)),
            decreases n - i,
        {
            let ghost prev = monitor_views(monitors@);
            match Self::convert_monitor(&rs[i]) {
                Err(e) => {
                    proof {
                        assert(spec_monitor(rs@[i as int]) == Err::<MonitorV, CliErrorV>(e@));
                        assert(spec_parse_from(rs@, i as int) == Err::<Seq<MonitorV>, CliErrorV>(
                            e@,
                        ));
                        assert(spec_parse_from(rs@, 0) == Err::<Seq<MonitorV>, CliErrorV>(e@));
                        assert(spec_parse_response(*env) == Err::<Seq<MonitorV>, CliErrorV>(e@));
                    }
                    return Err(e);
                },
                Ok(m) => {
                    proof {
                        lemma_monitor_views_push(monitors@, m);
                    }
                    monitors.push(m);
                    proof {
                        lemma_parse_continues_step(rs@, i as int, prev, m@);
                    }
                },
            }
            i = i + 1;
        }
        proof {
            assert(spec_parse_from(rs@, n as int) == Ok::<Seq<MonitorV>, CliErrorV>(Seq::empty()));
            assert(monitor_views(monitors@) + Seq::<MonitorV>::empty() =~= monitor_views(
                monitors@,
            ));
        }
        Ok(monitors)
    }

    /// The monitors response already carries the windows inside the
    /// workspace children, so a separate windows query adds nothing: the
    /// given monitors are returned unchanged.
    pub fn parse_windows(monitors: &Vec<Monitor>) -> (r: Result<Vec<Monitor>, CliError>)
        ensures
            r matches Ok(v) && monitor_views(v@) == monitor_views(monitors@),
    {
        let n = monitors.len();
        let mut out: Vec<Monitor> = Vec::new();
        let mut i: usize = 0;
        while i < n
            invariant
                i <= n,
                n == monitors@.len(),
                out@.len() == i,
                forall|j: int| 0 <= j < i ==> #[trigger] out@[j]@ == monitors@[j]@,
            decreases n - i,
        {
            out.push(monitors[i].clone());
            i = i + 1;
        }
        proof {
            assert(monitor_views(out@) =~= monitor_views(monitors@));
        }
        Ok(out)
    }

    /// Validates the response envelope alone: `success` must be `true` and
    /// `data` must be present. Monitor-level schema is the parser's job.
    pub fn validate_response(env: &ResponseEnvelope) -> (r: Result<(), CliError>)
        ensures
            r matches Ok(()) <==> (env.success == Some(true) && env.data is Some),
            r matches Err(e) ==> e@ == spec_envelope_error(*env),
    {
        let success_ok = match env.success {
            Some(true) => true,
            _ => false,
        };
        if !success_ok {
            return Err(CliError::InvalidJsonSchema { field: String::from_str("success") });
        }
        if matches!(env.data, None) {
            return Err(CliError::InvalidJsonSchema { field: String::from_str("data") });
        }
        Ok(())
    }
}

/// While a prefix of the records has parsed into `acc`, the final result is
/// the final result of the remaining records, prefixed with `acc`.
pub open spec fn parse_continues(rs: Seq<MonitorRecord>, i: int, acc: Seq<MonitorV>) -> bool {
    match spec_parse_from(rs, i) {
        Err(e) => spec_parse_from(rs, 0) == Err::<Seq<MonitorV>, CliErrorV>(e),
        Ok(t) => spec_parse_from(rs, 0) == Ok::<Seq<MonitorV>, CliErrorV>(acc + t),
    }
}

proof fn lemma_parse_continues_step(rs: Seq<MonitorRecord>, i: int, acc: Seq<MonitorV>, m: MonitorV)
    requires
        0 <= i < rs.len(),
        spec_monitor(rs[i]) == Ok::<MonitorV, CliErrorV>(m),
        parse_continues(rs, i, acc),
    ensures
        parse_continues(rs, i + 1, acc.push(m)),
{
    match spec_parse_from(rs, i + 1) {
        Err(e) => {
            assert(spec_parse_from(rs, i) == Err::<Seq<MonitorV>, CliErrorV>(e));
        },
        Ok(t) => {
            assert(spec_parse_from(rs, i) == Ok::<Seq<MonitorV>, CliErrorV>(seq![m] + t));
            assert(acc + (seq![m] + t) =~= acc.push(m) + t);
        },
    }
}

proof fn lemma_monitor_views_push(s: Seq<Monitor>, m: Monitor)
    ensures
        monitor_views(s.push(m)) == monitor_views(s).push(m@),
{
    assert(monitor_views(s.push(m)) =~= monitor_views(s).push(m@));
}

proof fn lemma_workspace_windows_take_step(children: Seq<WorkspaceChildRecord>, i: int)
    requires
        0 <= i < children.len(),
    ensures
        spec_workspace_windows(children.take(i + 1)) == spec_workspace_windows(children.take(i))
            + (match children[i] {
            WorkspaceChildRecord::Window(w) => seq![spec_window(w)],
            WorkspaceChildRecord::Other => Seq::<WindowV>::empty(),
        }),
{
    let t = children.take(i + 1);
    assert(t.drop_last() =~= children.take(i));
    assert(t.last() == children[i]);
}

proof fn lemma_monitor_workspaces_take_step(children: Seq<MonitorChildRecord>, i: int)
    requires
        0 <= i < children.len(),
    ensures
        spec_monitor_workspaces(children.take(i + 1)) == spec_monitor_workspaces(children.take(i))
            + (match children[i] {
            MonitorChildRecord::Workspace(w) => seq![spec_workspace(w)],
            MonitorChildRecord::Other => Seq::<WorkspaceV>::empty(),
        }),
{
    let t = children.take(i + 1);
    assert(t.drop_last() =~= children.take(i));
    assert(t.last() == children[i]);
}

} // verus!
