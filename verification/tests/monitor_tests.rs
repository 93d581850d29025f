use glazewm_debug::{
    DisplayState, DomainError, FocusState, Monitor, MonitorId, Position, Rectangle, Size,
    TilingDirection, Window, WindowId, WindowState, Workspace, WorkspaceId,
};

fn create_test_workspace(id: &str, name: &str, focused: bool) -> Workspace {
    Workspace::new(
        WorkspaceId::new(id.to_string()),
        name.to_string(),
        Vec::new(),
        TilingDirection::Horizontal,
        if focused {
            FocusState::Focused
        } else {
            FocusState::Unfocused
        },
        DisplayState::Shown,
    )
}

fn create_test_window(id: &str, title: &str, process: &str) -> Window {
    Window::new(
        WindowId::new(id.to_string()),
        title.to_string(),
        process.to_string(),
        Rectangle::new(Position::new(0, 0), Size::new(800, 600)),
        WindowState::Tiling,
        FocusState::Unfocused,
        DisplayState::Shown,
    )
}

fn create_focused_window(id: &str, title: &str, process: &str, focused: bool) -> Window {
    Window::new(
        WindowId::new(id.to_string()),
        title.to_string(),
        process.to_string(),
        Rectangle::new(Position::new(0, 0), Size::new(800, 600)),
        WindowState::Tiling,
        if focused {
            FocusState::Focused
        } else {
            FocusState::Unfocused
        },
        DisplayState::Shown,
    )
}

fn create_workspace_with_unfocused_windows() -> Workspace {
    let windows = vec![
        create_focused_window("w1", "Chrome", "chrome", false),
        create_focused_window("w2", "Firefox", "firefox", false),
    ];

    Workspace::new(
        WorkspaceId::new("ws-unfocused".to_string()),
        "No Focus".to_string(),
        windows,
        TilingDirection::Horizontal,
        FocusState::Unfocused,
        DisplayState::Shown,
    )
}

fn create_workspace_with_window_count(count: usize) -> Workspace {
    let windows = (0..count)
        .map(|i| create_test_window(&format!("window-{}", i), &format!("App {}", i), "app"))
        .collect();

    Workspace::new(
        WorkspaceId::new(format!("ws-{}", count)),
        format!("Workspace with {} windows", count),
        windows,
        TilingDirection::Horizontal,
        FocusState::Unfocused,
        DisplayState::Shown,
    )
}

#[test]
fn monitor_should_create_monitor_with_basic_properties() {
    let monitor = Monitor::new(
        MonitorId::new("monitor-1".to_string()),
        Rectangle::from_coords(0, 0, 1920, 1080),
        Vec::new(),
        FocusState::Focused,
        96,
        (1.0f64).to_bits(),
    );

    assert!(monitor.is_focused());
    assert_eq!(monitor.workspace_count(), 0);
    assert_eq!(monitor.dpi(), 96);
    assert_eq!(monitor.scale_factor(), (1.0f64).to_bits());
}

#[test]
fn should_validate_geometry() {
    let result = Monitor::try_new(
        MonitorId::new("invalid".to_string()),
        Rectangle::from_coords(0, 0, 0, 0), // Invalid size
        Vec::new(),
        FocusState::Focused,
        96,
        (1.0f64).to_bits(),
    );

    assert!(result.is_err());
    assert!(matches!(result.unwrap_err(), DomainError::InvalidGeometry { .. }));
}

#[test]
fn should_add_workspace() {
    let mut monitor = Monitor::new(
        MonitorId::new("monitor-1".to_string()),
        Rectangle::from_coords(0, 0, 1920, 1080),
        Vec::new(),
        FocusState::Focused,
        96,
        (1.0f64).to_bits(),
    );

    let workspace = create_test_workspace("ws-1", "Development", false);
    let workspace_id = workspace.id().clone();

    assert!(monitor.add_workspace(workspace).is_ok());
    assert_eq!(monitor.workspace_count(), 1);
    assert_eq!(monitor.workspaces()[0].id(), &workspace_id);
}

#[test]
fn monitor_should_enforce_single_active_workspace() {
    let workspace1 = create_test_workspace("ws-1", "First", true); // Active
    let workspace2 = create_test_workspace("ws-2", "Second", false);

    let mut monitor = Monitor::new(
        MonitorId::new("monitor-1".to_string()),
        Rectangle::from_coords(0, 0, 1920, 1080),
        vec![workspace1, workspace2],
        FocusState::Focused,
        96,
        (1.0f64).to_bits(),
    );

    let new_active_workspace = create_test_workspace("ws-3", "Third", true); // Also active

    assert!(monitor.add_workspace(new_active_workspace).is_ok());

    // Only one workspace should be active
    let active_workspaces = monitor.active_workspaces();
    assert_eq!(active_workspaces.len(), 1);
    assert_eq!(active_workspaces[0].name(), "Third");
}

#[test]
fn monitor_should_find_focused_window_across_workspaces() {
    let focused_window = create_focused_window("focused", "VS Code", "Code", true);
    let unfocused_window = create_focused_window("unfocused", "Chrome", "chrome", false);

    let workspace = Workspace::new(
        WorkspaceId::new("ws-1".to_string()),
        "Development".to_string(),
        vec![unfocused_window, focused_window],
        TilingDirection::Horizontal,
        FocusState::Focused,
        DisplayState::Shown,
    );

    let monitor = Monitor::new(
        MonitorId::new("monitor-1".to_string()),
        Rectangle::from_coords(0, 0, 1920, 1080),
        vec![workspace],
        FocusState::Focused,
        96,
        (1.0f64).to_bits(),
    );

    let focused = monitor.focused_window();
    assert!(focused.is_some());
    assert_eq!(focused.unwrap().title(), "VS Code");
}

#[test]
fn monitor_should_calculate_total_window_count() {
    let ws1_windows = vec![
        create_test_window("w1", "App1", "app1"),
        create_test_window("w2", "App2", "app2"),
        create_test_window("w3", "App3", "app3"),
    ];
    let workspace1 = Workspace::new(
        WorkspaceId::new("ws-1".to_string()),
        "Workspace 1".to_string(),
        ws1_windows,
        TilingDirection::Horizontal,
        FocusState::Unfocused,
        DisplayState::Shown,
    );

    let ws2_windows = vec![
        create_test_window("w4", "App4", "app4"),
        create_test_window("w5", "App5", "app5"),
    ];
    let workspace2 = Workspace::new(
        WorkspaceId::new("ws-2".to_string()),
        "Workspace 2".to_string(),
        ws2_windows,
        TilingDirection::Vertical,
        FocusState::Focused,
        DisplayState::Shown,
    );

    let monitor = Monitor::new(
        MonitorId::new("monitor-1".to_string()),
        Rectangle::from_coords(0, 0, 1920, 1080),
        vec![workspace1, workspace2],
        FocusState::Focused,
        96,
        (1.0f64).to_bits(),
    );

    assert_eq!(monitor.total_window_count(), 5); // 3 + 2
}

#[test]
fn monitor_test_should_create_monitor_with_basic_properties() {
    let monitor_id = MonitorId::new("monitor-1".to_string());
    let geometry = Rectangle::new(Position::new(0, 0), Size::new(1920, 1080));

    let monitor = Monitor::new(
        monitor_id.clone(),
        geometry,
        Vec::new(),
        FocusState::Focused,
        96,
        (1.0f64).to_bits(),
    );

    assert_eq!(monitor.id(), &monitor_id);
    assert_eq!(monitor.geometry(), &geometry);
    assert_eq!(monitor.workspaces().len(), 0);
    assert!(monitor.is_focused());
    assert_eq!(monitor.dpi(), 96);
    assert_eq!(monitor.scale_factor(), (1.0f64).to_bits());
}

#[test]
fn should_create_monitor_with_workspaces() {
    let monitor_id = MonitorId::new("monitor-1".to_string());
    let geometry = Rectangle::new(Position::new(0, 0), Size::new(2560, 1440));

    let workspace1 = create_test_workspace("ws-1", "Development", true);
    let workspace2 = create_test_workspace("ws-2", "Communication", false);
    let workspaces = vec![workspace1, workspace2];

    let monitor = Monitor::new(
        monitor_id,
        geometry,
        workspaces,
        FocusState::Focused,
        144,
        (1.5f64).to_bits(),
    );

    assert_eq!(monitor.workspaces().len(), 2);
    assert_eq!(monitor.dpi(), 144);
    assert_eq!(monitor.scale_factor(), (1.5f64).to_bits());

    // Should have one active workspace
    assert_eq!(monitor.active_workspaces().len(), 1);
    assert_eq!(monitor.active_workspaces()[0].name(), "Development");
}

#[test]
fn should_add_workspace_successfully() {
    let monitor_id = MonitorId::new("monitor-1".to_string());
    let geometry = Rectangle::new(Position::new(0, 0), Size::new(1920, 1080));
    let mut monitor = Monitor::new(
        monitor_id,
        geometry,
        Vec::new(),
        FocusState::Focused,
        96,
        (1.0f64).to_bits(),
    );

    let workspace = create_test_workspace("new-ws", "New Workspace", false);

    let result = monitor.add_workspace(workspace.clone());

    assert!(result.is_ok());
    assert_eq!(monitor.workspaces().len(), 1);
    assert_eq!(monitor.workspaces()[0].id(), workspace.id());
}

#[test]
fn should_remove_workspace_successfully() {
    let monitor_id = MonitorId::new("monitor-1".to_string());
    let geometry = Rectangle::new(Position::new(0, 0), Size::new(1920, 1080));

    let workspace1 = create_test_workspace("ws-1", "Keep", false);
    let workspace2 = create_test_workspace("ws-2", "Remove", false);
    let workspace2_id = workspace2.id().clone();

    let mut monitor = Monitor::new(
        monitor_id,
        geometry,
        vec![workspace1, workspace2],
        FocusState::Focused,
        96,
        (1.0f64).to_bits(),
    );

    let result = monitor.remove_workspace(&workspace2_id);

    assert!(result.is_ok());
    assert_eq!(monitor.workspaces().len(), 1);
    assert_eq!(monitor.workspaces()[0].name(), "Keep");
}

#[test]
fn monitor_test_should_enforce_single_active_workspace() {
    let monitor_id = MonitorId::new("monitor-1".to_string());
    let geometry = Rectangle::new(Position::new(0, 0), Size::new(1920, 1080));

    let workspace1 = create_test_workspace("ws-1", "First", true);
    let workspace2 = create_test_workspace("ws-2", "Second", false);

    let mut monitor = Monitor::new(
        monitor_id,
        geometry,
        vec![workspace1, workspace2],
        FocusState::Focused,
        96,
        (1.0f64).to_bits(),
    );

    let new_active_workspace = create_test_workspace("ws-3", "Third", true);

    let result = monitor.add_workspace(new_active_workspace);

    assert!(result.is_ok());

    let active_workspaces = monitor.active_workspaces();
    assert_eq!(active_workspaces.len(), 1);
    assert_eq!(active_workspaces[0].name(), "Third");
}

#[test]
fn monitor_test_should_find_focused_window_across_workspaces() {
    let monitor_id = MonitorId::new("monitor-1".to_string());
    let geometry = Rectangle::new(Position::new(0, 0), Size::new(1920, 1080));

    // Workspace 1 with unfocused windows
    let ws1_windows = vec![
        create_focused_window("w1", "Chrome", "chrome", false),
        create_focused_window("w2", "Firefox", "firefox", false),
    ];
    let workspace1 = Workspace::new(
        WorkspaceId::new("ws-1".to_string()),
        "Browsers".to_string(),
        ws1_windows,
        TilingDirection::Horizontal,
        FocusState::Unfocused,
        DisplayState::Shown,
    );

    // Workspace 2 with focused window
    let ws2_windows = vec![
        create_focused_window("w3", "VS Code", "Code", true),
        create_focused_window("w4", "Notepad", "notepad", false),
    ];
    let workspace2 = Workspace::new(
        WorkspaceId::new("ws-2".to_string()),
        "Development".to_string(),
        ws2_windows,
        TilingDirection::Vertical,
        FocusState::Focused,
        DisplayState::Shown,
    );

    let monitor = Monitor::new(
        monitor_id,
        geometry,
        vec![workspace1, workspace2],
        FocusState::Focused,
        96,
        (1.0f64).to_bits(),
    );

    let focused_window = monitor.focused_window();

    assert!(focused_window.is_some());
    assert_eq!(focused_window.unwrap().title(), "VS Code");
    assert_eq!(focused_window.unwrap().process_name(), "Code");
}

#[test]
fn monitor_test_should_return_none_when_no_focused_window() {
    let monitor_id = MonitorId::new("monitor-1".to_string());
    let geometry = Rectangle::new(Position::new(0, 0), Size::new(1920, 1080));

    let workspace = create_workspace_with_unfocused_windows();
    let monitor = Monitor::new(
        monitor_id,
        geometry,
        vec![workspace],
        FocusState::Focused,
        96,
        (1.0f64).to_bits(),
    );

    let focused_window = monitor.focused_window();

    assert!(focused_window.is_none());
}

#[test]
fn monitor_test_should_calculate_total_window_count() {
    let monitor_id = MonitorId::new("monitor-1".to_string());
    let geometry = Rectangle::new(Position::new(0, 0), Size::new(1920, 1080));

    let workspace1 = create_workspace_with_window_count(3);
    let workspace2 = create_workspace_with_window_count(2);
    let workspace3 = create_workspace_with_window_count(0); // Empty

    let monitor = Monitor::new(
        monitor_id,
        geometry,
        vec![workspace1, workspace2, workspace3],
        FocusState::Focused,
        96,
        (1.0f64).to_bits(),
    );

    let total_windows = monitor.total_window_count();

    assert_eq!(total_windows, 5); // 3 + 2 + 0
}

#[test]
fn should_validate_monitor_geometry() {
    let monitor_id = MonitorId::new("invalid-monitor".to_string());
    let invalid_geometry = Rectangle::new(Position::new(0, 0), Size::new(0, 0));

    let result = Monitor::try_new(
        monitor_id,
        invalid_geometry,
        Vec::new(),
        FocusState::Focused,
        96,
        (1.0f64).to_bits(),
    );

    assert!(result.is_err());
    assert!(matches!(result.unwrap_err(), DomainError::InvalidGeometry { .. }));
}

#[test]
fn should_validate_dpi_values() {
    let monitor_id = MonitorId::new("monitor-1".to_string());
    let geometry = Rectangle::new(Position::new(0, 0), Size::new(1920, 1080));

    let result = Monitor::try_new(
        monitor_id,
        geometry,
        Vec::new(),
        FocusState::Focused,
        0, // Invalid DPI
        (1.0f64).to_bits(),
    );

    assert!(result.is_err());
    assert!(matches!(result.unwrap_err(), DomainError::InvalidDpi { .. }));
}

#[test]
fn should_validate_scale_factor() {
    let monitor_id = MonitorId::new("monitor-1".to_string());
    let geometry = Rectangle::new(Position::new(0, 0), Size::new(1920, 1080));

    let result = Monitor::try_new(
        monitor_id,
        geometry,
        Vec::new(),
        FocusState::Focused,
        96,
        (-1.0f64).to_bits(), // Invalid scale factor
    );

    assert!(result.is_err());
    assert!(matches!(result.unwrap_err(), DomainError::InvalidScaleFactor { .. }));
}

#[test]
fn scale_factor_of_zero_or_nan_is_rejected() {
    let geometry = Rectangle::new(Position::new(0, 0), Size::new(1920, 1080));

    for bits in [(0.0f64).to_bits(), (-0.0f64).to_bits(), f64::NAN.to_bits()] {
        let result = Monitor::try_new(
            MonitorId::new("monitor-1".to_string()),
            geometry,
            Vec::new(),
            FocusState::Focused,
            96,
            bits,
        );
        assert!(matches!(result.unwrap_err(), DomainError::InvalidScaleFactor { .. }));
    }

    // Positive subnormal and infinite values are greater than zero.
    for bits in [1u64, f64::INFINITY.to_bits()] {
        assert!(Monitor::try_new(
            MonitorId::new("monitor-1".to_string()),
            geometry,
            Vec::new(),
            FocusState::Focused,
            96,
            bits,
        )
        .is_ok());
    }
}

#[test]
fn monitor_derives_its_device_name_from_its_id() {
    let monitor = Monitor::new(
        MonitorId::new("monitor-7".to_string()),
        Rectangle::from_coords(0, 0, 1920, 1080),
        Vec::new(),
        FocusState::Unfocused,
        96,
        (1.0f64).to_bits(),
    );
    assert_eq!(monitor.device_name(), "Monitor monitor-7");
}

#[test]
fn duplicate_workspace_id_is_rejected() {
    let mut monitor = Monitor::new(
        MonitorId::new("monitor-1".to_string()),
        Rectangle::from_coords(0, 0, 1920, 1080),
        vec![create_test_workspace("ws-1", "First", false)],
        FocusState::Focused,
        96,
        (1.0f64).to_bits(),
    );

    let duplicate = create_test_workspace("ws-1", "Second", false);
    let result = monitor.add_workspace(duplicate);

    assert!(matches!(result.unwrap_err(), DomainError::DuplicateWorkspaceId { .. }));
    assert_eq!(monitor.workspace_count(), 1);
    assert_eq!(monitor.workspaces()[0].name(), "First");
}

#[test]
fn removing_an_absent_workspace_reports_not_found() {
    let mut monitor = Monitor::new(
        MonitorId::new("monitor-1".to_string()),
        Rectangle::from_coords(0, 0, 1920, 1080),
        vec![create_test_workspace("ws-1", "Only", false)],
        FocusState::Focused,
        96,
        (1.0f64).to_bits(),
    );

    let absent = WorkspaceId::new("ws-404".to_string());
    let result = monitor.remove_workspace(&absent);

    assert!(matches!(result.unwrap_err(), DomainError::WorkspaceNotFound { .. }));
    assert_eq!(monitor.workspace_count(), 1);
}
