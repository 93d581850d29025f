//! Verified core of a read-only dashboard for a tiling window manager.
//!
//! The library holds the domain model (monitors, workspaces, windows, and
//! their invariants), the protocol record types and their mapping into the
//! domain, the shared application state and its transitions, input
//! interpretation, and text-measuring utilities. Process execution, terminal
//! handling, and JSON decoding live outside the library and hand it plain
//! values.

pub mod client;
pub mod errors;
pub mod input;
pub mod monitor;
pub mod parser;
pub mod records;
pub mod state;
pub mod textfmt;
pub mod textwidth;
pub mod update;
pub mod values;
pub mod window;
pub mod workspace;

pub use client::{DemoGlazewmClient, RealGlazewmClient};
pub use errors::{CliError, DomainError, UpdateError};
pub use input::{InputAction, InputHandler, KeyCode, KeyInput, ToggleDebounce};
pub use monitor::{DeviceInfo, Monitor};
pub use parser::GlazewmParser;
pub use records::{
    MonitorChildRecord, MonitorRecord, MonitorsData, ResponseEnvelope, WindowRecord,
    WorkspaceChildRecord, WorkspaceRecord,
};
pub use state::{AppState, DisplayMode};
pub use textwidth::{Alignment, TextWidthCalculator};
pub use update::UpdateConfig;
pub use values::{
    DisplayState, FocusState, MonitorId, Position, Rectangle, Size, TilingDirection, WindowId,
    WindowState, WorkspaceId,
};
pub use window::Window;
pub use workspace::{WindowLayout, Workspace};
