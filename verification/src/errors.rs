//! Error types: domain-rule violations, protocol/transport failures, and
//! update-cycle outcomes, together with their mathematical views.

use vstd::prelude::*;

use crate::values::{MonitorId, WindowId, WindowState, WorkspaceId};

verus! {

/// The view of a [`DomainError`], with identifiers as character sequences.
pub ghost enum DomainErrorV {
    WindowNotFound { id: Seq<char> },
    WorkspaceNotFound { id: Seq<char> },
    DuplicateWindowId { id: Seq<char> },
    DuplicateWorkspaceId { id: Seq<char> },
    InvalidStateTransition { from: WindowState, to: WindowState },
    InvalidGeometry { width: u32, height: u32 },
    InvalidDpi { dpi: i32 },
    InvalidScaleFactor { scale_bits: u64 },
    WorkspaceCapacityExceeded { max: int, attempted: int },
    MultipleActiveWorkspaces { monitor_id: Seq<char> },
    NoActiveWorkspace { monitor_id: Seq<char> },
}

/// A violated business rule of the domain model.
#[derive(Debug, Clone, PartialEq)]
pub enum DomainError {
    /// No window with this id exists in the workspace.
    WindowNotFound { id: WindowId },
    /// No workspace with this id exists on the monitor.
    WorkspaceNotFound { id: WorkspaceId },
    /// A window with this id already exists in the workspace.
    DuplicateWindowId { id: WindowId },
    /// A workspace with this id already exists on the monitor.
    DuplicateWorkspaceId { id: WorkspaceId },
    /// The window may not move from one state to the other.
    InvalidStateTransition { from: WindowState, to: WindowState },
    /// Monitor width and height must both be positive.
    InvalidGeometry { width: u32, height: u32 },
    /// Monitor dpi must be positive.
    InvalidDpi { dpi: i32 },
    /// The monitor scale factor must be positive; the field holds the bit
    /// pattern of the offending 64-bit binary floating-point value.
    InvalidScaleFactor { scale_bits: u64 },
    /// The workspace cannot hold this many windows.
    WorkspaceCapacityExceeded { max: usize, attempted: usize },
    /// More than one workspace on the monitor is focused.
    MultipleActiveWorkspaces { monitor_id: MonitorId },
    /// No workspace on the monitor is focused.
    NoActiveWorkspace { monitor_id: MonitorId },
}

impl View for DomainError {
    type V = DomainErrorV;

    open spec fn view(&self) -> DomainErrorV {
        match self {
            DomainError::WindowNotFound { id } => DomainErrorV::WindowNotFound { id: id@ },
            DomainError::WorkspaceNotFound { id } => DomainErrorV::WorkspaceNotFound { id: id@ },
            DomainError::DuplicateWindowId { id } => DomainErrorV::DuplicateWindowId { id: id@ },
            DomainError::DuplicateWorkspaceId { id } => DomainErrorV::DuplicateWorkspaceId {
                id: id@,
            },
            DomainError::InvalidStateTransition { from, to } => DomainErrorV::InvalidStateTransition {
                from: *from,
                to: *to,
            },
            DomainError::InvalidGeometry { width, height } => DomainErrorV::InvalidGeometry {
                width: *width,
                height: *height,
            },
            DomainError::InvalidDpi { dpi } => DomainErrorV::InvalidDpi { dpi: *dpi },
            DomainError::InvalidScaleFactor { scale_bits } => DomainErrorV::InvalidScaleFactor {
                scale_bits: *scale_bits,
            },
            DomainError::WorkspaceCapacityExceeded { max, attempted } => DomainErrorV::WorkspaceCapacityExceeded {
                max: *max as int,
                attempted: *attempted as int,
            },
            DomainError::MultipleActiveWorkspaces { monitor_id } => DomainErrorV::MultipleActiveWorkspaces {
                monitor_id: monitor_id@,
            },
            DomainError::NoActiveWorkspace { monitor_id } => DomainErrorV::NoActiveWorkspace {
                monitor_id: monitor_id@,
            },
        }
    }
}

/// The view of a [`CliError`], with all strings as character sequences.
pub ghost enum CliErrorV {
    CommandExecutionFailed { command: Seq<char> },
    CommandTimeout { command: Seq<char>, timeout_millis: u64 },
    CommandFailed { command: Seq<char>, code: i32, stderr: Seq<char> },
    JsonParseError { message: Seq<char> },
    InvalidJsonSchema { field: Seq<char> },
    InvalidMonitor { id: Seq<char>, error: DomainErrorV },
    GlazewmNotFound { path: Seq<char> },
    IoError { message: Seq<char> },
}

/// A failure while querying the window manager or interpreting its response.
#[derive(Debug, Clone, PartialEq)]
pub enum CliError {
    /// The external command could not be launched.
    CommandExecutionFailed { command: String },
    /// The external command did not finish within the timeout.
    CommandTimeout { command: String, timeout_millis: u64 },
    /// The external command exited with a non-zero code.
    CommandFailed { command: String, code: i32, stderr: String },
    /// The response was not well-formed JSON of the expected shape.
    JsonParseError { message: String },
    /// The response envelope lacked a required field.
    InvalidJsonSchema { field: String },
    /// A monitor record violated a domain invariant.
    InvalidMonitor { id: MonitorId, error: DomainError },
    /// The window manager executable was not found.
    GlazewmNotFound { path: String },
    /// An input/output failure outside the above categories.
    IoError { message: String },
}

impl View for CliError {
    type V = CliErrorV;

    open spec fn view(&self) -> CliErrorV {
        match self {
            CliError::CommandExecutionFailed { command } => CliErrorV::CommandExecutionFailed {
                command: command@,
            },
            CliError::CommandTimeout { command, timeout_millis } => CliErrorV::CommandTimeout {
                command: command@,
                timeout_millis: *timeout_millis,
            },
            CliError::CommandFailed { command, code, stderr } => CliErrorV::CommandFailed {
                command: command@,
                code: *code,
                stderr: stderr@,
            },
            CliError::JsonParseError { message } => CliErrorV::JsonParseError { message: message@ },
            CliError::InvalidJsonSchema { field } => CliErrorV::InvalidJsonSchema { field: field@ },
            CliError::InvalidMonitor { id, error } => CliErrorV::InvalidMonitor {
                id: id@,
                error: error@,
            },
            CliError::GlazewmNotFound { path } => CliErrorV::GlazewmNotFound { path: path@ },
            CliError::IoError { message } => CliErrorV::IoError { message: message@ },
        }
    }
}

/// The view of an [`UpdateError`].
pub ghost enum UpdateErrorV {
    CliError(CliErrorV),
    Stopped,
}

/// A failure of one update cycle.
#[derive(Debug, Clone, PartialEq)]
pub enum UpdateError {
    /// Querying or interpreting the window-manager state failed.
    CliError(CliError),
    /// The application was asked to stop; no update was attempted.
    Stopped,
}

impl View for UpdateError {
    type V = UpdateErrorV;

    open spec fn view(&self) -> UpdateErrorV {
        match self {
            UpdateError::CliError(e) => UpdateErrorV::CliError(e@),
            UpdateError::Stopped => UpdateErrorV::Stopped,
        }
    }
}

} // verus!
