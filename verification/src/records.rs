//! Plain record types mirroring the window manager's JSON response. The
//! process boundary decodes JSON into these records; the parser maps them
//! into validated domain aggregates.

use vstd::prelude::*;

verus! {

/// A window record from a workspace's `children` array.
#[derive(Debug, Clone, PartialEq)]
pub struct WindowRecord {
    pub id: String,
    pub has_focus: bool,
    pub x: i32,
    pub y: i32,
    pub width: u32,
    pub height: u32,
    /// The `state.type` tag: `tiling`, `floating`, `fullscreen`, `minimized`,
    /// or anything else (which falls back to tiling).
    pub state_type: String,
    /// The `displayState` tag: `shown`, `hidden`, or anything else (which
    /// falls back to shown).
    pub display_state: String,
    pub title: String,
    pub process_name: String,
}

/// One element of a workspace's heterogeneous `children` array.
#[derive(Debug, Clone, PartialEq)]
pub enum WorkspaceChildRecord {
    /// A child tagged `window`.
    Window(WindowRecord),
    /// A child of a kind the dashboard does not understand; skipped.
    Other,
}

/// A workspace record from a monitor's `children` array.
#[derive(Debug, Clone, PartialEq)]
pub struct WorkspaceRecord {
    pub id: String,
    pub name: String,
    pub has_focus: bool,
    pub is_displayed: bool,
    /// The `tilingDirection` tag: `horizontal`, `vertical`, or anything else
    /// (which falls back to horizontal).
    pub tiling_direction: String,
    pub children: Vec<WorkspaceChildRecord>,
}

/// One element of a monitor's heterogeneous `children` array.
#[derive(Debug, Clone, PartialEq)]
pub enum MonitorChildRecord {
    /// A child tagged `workspace`.
    Workspace(WorkspaceRecord),
    /// A child of a kind the dashboard does not understand; skipped.
    Other,
}

/// A monitor record from the response's `data.monitors` array.
#[derive(Debug, Clone, PartialEq)]
pub struct MonitorRecord {
    pub id: String,
    pub x: i32,
    pub y: i32,
    pub width: u32,
    pub height: u32,
    /// Bit pattern of the `scaleFactor` field, a 64-bit binary
    /// floating-point value.
    pub scale_factor_bits: u64,
    pub dpi: i32,
    pub has_focus: bool,
    pub children: Vec<MonitorChildRecord>,
    pub child_focus_order: Vec<String>,
}

/// The `data` object of a monitors query response.
#[derive(Debug, Clone, PartialEq)]
pub struct MonitorsData {
    pub monitors: Vec<MonitorRecord>,
}

/// The response envelope: `{ success, data, error }`. A missing or non-bool
/// `success` field is carried as `None`.
#[derive(Debug, Clone, PartialEq)]
pub struct ResponseEnvelope {
    pub success: Option<bool>,
    pub data: Option<MonitorsData>,
    pub error: Option<String>,
}

} // verus!
