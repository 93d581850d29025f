//! Client-side pieces that need no process execution: the configuration of
//! the real window-manager client, and a demo client that fabricates sample
//! responses so the dashboard can run without a window manager. The process
//! boundary owns command execution and timeouts.

use vstd::prelude::*;

use crate::monitor::monitor_data_valid;
use crate::parser::spec_monitor_geometry;
use crate::records::{
    MonitorChildRecord, MonitorRecord, MonitorsData, ResponseEnvelope, WindowRecord,
    WorkspaceChildRecord, WorkspaceRecord,
};

verus! {

/// Configuration of the client that queries the real window manager: where
/// the executable is and how long one command may take. The process boundary
/// launches the command and enforces the timeout.
#[derive(Debug, Clone, PartialEq)]
pub struct RealGlazewmClient {
    pub glazewm_path: String,
    pub command_timeout_millis: u64,
}

impl RealGlazewmClient {
    pub fn new(glazewm_path: String, command_timeout_millis: u64) -> (r: Self)
        ensures
            r.glazewm_path@ == glazewm_path@,
            r.command_timeout_millis == command_timeout_millis,
    {
        Self { glazewm_path, command_timeout_millis }
    }

    pub fn glazewm_path(&self) -> (r: &str)
        ensures
            r@ == self.glazewm_path@,
    {
        self.glazewm_path.as_str()
    }

    pub fn command_timeout_millis(&self) -> (r: u64)
        ensures
            r == self.command_timeout_millis,
    {
        self.command_timeout_millis
    }
}

/// Which of the four rotating demo windows is focused after `n` queries.
pub open spec fn demo_focus_index(n: u64) -> int {
    (n % 4) as int
}

/// The shape of a demo response whose focused window is number `f`: a
/// successful envelope with two valid monitors, three workspaces, and five
/// windows, of which the four shown ones take the focus in rotation.
pub open spec fn demo_envelope_shape(r: ResponseEnvelope, f: int) -> bool {
    &&& r.success == Some(true)
    &&& r.error is None
    &&& r.data matches Some(d) && {
        &&& d.monitors@.len() == 2
        &&& {
            let m0 = d.monitors@[0];
            &&& m0.id@ == "demo-monitor-1"@
            &&& m0.width == 1920 && m0.height == 1080
            &&& m0.dpi == 96
            &&& m0.has_focus
            &&& monitor_data_valid(spec_monitor_geometry(m0), m0.dpi, m0.scale_factor_bits)
            &&& m0.children@.len() == 2
            &&& m0.children@[0] matches MonitorChildRecord::Workspace(w0) && {
                &&& w0.id@ == "demo-workspace-1"@
                &&& w0.has_focus && w0.is_displayed
                &&& w0.children@.len() == 2
                &&& w0.children@[0] matches WorkspaceChildRecord::Window(win) && win.id@
                    == "demo-window-1"@ && win.has_focus == (f == 0)
                &&& w0.children@[1] matches WorkspaceChildRecord::Window(win) && win.id@
                    == "demo-window-2"@ && win.has_focus == (f == 1)
            }
            &&& m0.children@[1] matches MonitorChildRecord::Workspace(w1) && {
                &&& w1.id@ == "demo-workspace-2"@
                &&& !w1.has_focus && !w1.is_displayed
                &&& w1.children@.len() == 1
                &&& w1.children@[0] matches WorkspaceChildRecord::Window(win) && win.id@
                    == "demo-window-3"@ && !win.has_focus
            }
        }
        &&& {
            let m1 = d.monitors@[1];
            &&& m1.id@ == "demo-monitor-2"@
            &&& m1.width == 2560 && m1.height == 1440
            &&& m1.dpi == 120
            &&& !m1.has_focus
            &&& monitor_data_valid(spec_monitor_geometry(m1), m1.dpi, m1.scale_factor_bits)
            &&& m1.children@.len() == 1
            &&& m1.children@[0] matches MonitorChildRecord::Workspace(w2) && {
                &&& w2.id@ == "demo-workspace-3"@
                &&& w2.has_focus && w2.is_displayed
                &&& w2.children@.len() == 2
                &&& w2.children@[0] matches WorkspaceChildRecord::Window(win) && win.id@
                    == "demo-window-4"@ && win.has_focus == (f == 2)
                &&& w2.children@[1] matches WorkspaceChildRecord::Window(win) && win.id@
                    == "demo-window-5"@ && win.has_focus == (f == 3)
            }
        }
    }
}

/// A client that fabricates sample data, so that the dashboard can be run
/// and demonstrated without a window manager. Focus rotates over the four
/// shown windows, one step per query.
#[derive(Debug)]
pub struct DemoGlazewmClient {
    window_count: u64,
}

impl View for DemoGlazewmClient {
    type V = u64;

    closed spec fn view(&self) -> u64 {
        self.window_count
    }
}

impl DemoGlazewmClient {
    pub fn new() -> (r: Self)
        ensures
            r@ == 1u64,
    {
        Self { window_count: 1 }
    }

    /// Fabricates the next monitors response and advances the rotation.
    pub fn next_monitors_response(&mut self) -> (r: ResponseEnvelope)
        ensures
            final(self)@ == (old(self)@ + 1) % 0x1_0000_0000_0000_0000,
            demo_envelope_shape(r, demo_focus_index(old(self)@)),
    {
        let focused_window: u64 = self.window_count % 4;
        self.window_count = self.window_count.wrapping_add(1);

        let window1 = WindowRecord {
            id: String::from_str("demo-window-1"),
            has_focus: focused_window == 0,
            x: 0,
            y: 0,
            width: 960,
            height: 1040,
            state_type: String::from_str("tiling"),
            display_state: String::from_str("shown"),
            title: String::from_str("Visual Studio Code - glazewm-debug"),
            process_name: String::from_str("Code"),
        };
        let window2 = WindowRecord {
            id: String::from_str("demo-window-2"),
            has_focus: focused_window == 1,
            x: 960,
            y: 0,
            width: 960,
            height: 1040,
            state_type: String::from_str("tiling"),
            display_state: String::from_str("shown"),
            title: String::from_str("Firefox - Documentation"),
            process_name: String::from_str("firefox"),
        };
        let window3 = WindowRecord {
            id: String::from_str("demo-window-3"),
            has_focus: false,
            x: 0,
            y: 0,
            width: 1920,
            height: 1040,
            state_type: String::from_str("tiling"),
            display_state: String::from_str("hidden"),
            title: String::from_str("Terminal - cargo test"),
            process_name: String::from_str("wezterm-gui"),
        };
        let window4 = WindowRecord {
            id: String::from_str("demo-window-4"),
            has_focus: focused_window == 2,
            x: 0,
            y: 0,
            width: 1280,
            height: 1400,
            state_type: String::from_str("tiling"),
            display_state: String::from_str("shown"),
            title: String::from_str("Discord - #general"),
            process_name: String::from_str("Discord"),
        };
        let window5 = WindowRecord {
            id: String::from_str("demo-window-5"),
            has_focus: focused_window == 3,
            x: 1280,
            y: 0,
            width: 1280,
            height: 1400,
            state_type: String::from_str("floating"),
            display_state: String::from_str("shown"),
            title: String::from_str("Spotify - Currently Playing"),
            process_name: String::from_str("Spotify"),
        };

        let workspace1 = WorkspaceRecord {
            id: String::from_str("demo-workspace-1"),
            name: String::from_str("Development"),
            has_focus: true,
            is_displayed: true,
            tiling_direction: String::from_str("horizontal"),
            children: two_ws_children(window1, window2),
        };
        let workspace2 = WorkspaceRecord {
            id: String::from_str("demo-workspace-2"),
            name: String::from_str("Testing"),
            has_focus: false,
            is_displayed: false,
            tiling_direction: String::from_str("horizontal"),
            children: one_ws_child(window3),
        };
        let workspace3 = WorkspaceRecord {
            id: String::from_str("demo-workspace-3"),
            name: String::from_str("Communication"),
            has_focus: true,
            is_displayed: true,
            tiling_direction: String::from_str("horizontal"),
            children: two_ws_children(window4, window5),
        };

        let monitor1 = MonitorRecord {
            id: String::from_str("demo-monitor-1"),
            x: 0,
            y: 0,
            width: 1920,
            height: 1080,
            // bit pattern of the binary64 value 1.0
            scale_factor_bits: 0x3ff0_0000_0000_0000,
            dpi: 96,
            has_focus: true,
            children: two_mon_children(workspace1, workspace2),
            child_focus_order: Vec::new(),
        };
        let monitor2 = MonitorRecord {
            id: String::from_str("demo-monitor-2"),
            x: 1920,
            y: 0,
            width: 2560,
            height: 1440,
            // bit pattern of the binary64 value 1.25
            scale_factor_bits: 0x3ff4_0000_0000_0000,
            dpi: 120,
            has_focus: false,
            children: one_mon_child(workspace3),
            child_focus_order: Vec::new(),
        };

        proof {
            assert(0x3ff0_0000_0000_0000u64 >> 63 == 0) by (bit_vector);
            assert(0x3ff0_0000_0000_0000u64 != 0) by (bit_vector);
            assert(!((0x3ff0_0000_0000_0000u64 >> 52) & 0x7ff == 0x7ff
                && 0x3ff0_0000_0000_0000u64 & 0xf_ffff_ffff_ffff != 0)) by (bit_vector);
            assert(0x3ff4_0000_0000_0000u64 >> 63 == 0) by (bit_vector);
            assert(0x3ff4_0000_0000_0000u64 != 0) by (bit_vector);
            assert(!((0x3ff4_0000_0000_0000u64 >> 52) & 0x7ff == 0x7ff
                && 0x3ff4_0000_0000_0000u64 & 0xf_ffff_ffff_ffff != 0)) by (bit_vector);
        }
        let mut monitors: Vec<MonitorRecord> = Vec::new();
        monitors.push(monitor1);
        monitors.push(monitor2);
        ResponseEnvelope {
            success: Some(true),
            data: Some(MonitorsData { monitors }),
            error: None,
        }
    }
}

fn one_ws_child(w: WindowRecord) -> (r: Vec<WorkspaceChildRecord>)
    ensures
        r@ =~= seq![WorkspaceChildRecord::Window(w)],
{
    let mut r: Vec<WorkspaceChildRecord> = Vec::new();
    r.push(WorkspaceChildRecord::Window(w));
    r
}

fn two_ws_children(a: WindowRecord, b: WindowRecord) -> (r: Vec<WorkspaceChildRecord>)
    ensures
        r@ =~= seq![WorkspaceChildRecord::Window(a), WorkspaceChildRecord::Window(b)],
{
    let mut r: Vec<WorkspaceChildRecord> = Vec::new();
    r.push(WorkspaceChildRecord::Window(a));
    r.push(WorkspaceChildRecord::Window(b));
    r
}

fn one_mon_child(w: WorkspaceRecord) -> (r: Vec<MonitorChildRecord>)
    ensures
        r@ =~= seq![MonitorChildRecord::Workspace(w)],
{
    let mut r: Vec<MonitorChildRecord> = Vec::new();
    r.push(MonitorChildRecord::Workspace(w));
    r
}

fn two_mon_children(a: WorkspaceRecord, b: WorkspaceRecord) -> (r: Vec<MonitorChildRecord>)
    ensures
        r@ =~= seq![MonitorChildRecord::Workspace(a), MonitorChildRecord::Workspace(b)],
{
    let mut r: Vec<MonitorChildRecord> = Vec::new();
    r.push(MonitorChildRecord::Workspace(a));
    r.push(MonitorChildRecord::Workspace(b));
    r
}

} // verus!
