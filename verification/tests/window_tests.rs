use glazewm_debug::{
    DisplayState, FocusState, Position, Rectangle, Size, Window, WindowId, WindowState,
};

fn create_test_window() -> Window {
    Window::new(
        WindowId::new("test-window".to_string()),
        "Test Window".to_string(),
        "test".to_string(),
        Rectangle::from_coords(0, 0, 800, 600),
        WindowState::Tiling,
        FocusState::Unfocused,
        DisplayState::Shown,
    )
}

#[test]
fn should_create_window_correctly() {
    let window = create_test_window();

    assert_eq!(window.title(), "Test Window");
    assert_eq!(window.process_name(), "test");
    assert!(!window.is_focused());
    assert!(window.is_visible());
}

#[test]
fn should_generate_display_name() {
    let window = create_test_window();
    assert_eq!(window.display_name(), "test: Test Window");
}

#[test]
fn should_truncate_long_display_names() {
    let window = Window::new(
        WindowId::new("test-window".to_string()),
        "This is a very long window title that should be truncated".to_string(),
        "test".to_string(),
        Rectangle::from_coords(0, 0, 800, 600),
        WindowState::Tiling,
        FocusState::Unfocused,
        DisplayState::Shown,
    );

    let truncated = window.display_name_truncated(20);
    assert!(truncated.len() <= 20);
    assert!(truncated.contains("..."));
}

#[test]
fn should_handle_state_changes() {
    let mut window = create_test_window();

    assert!(window.change_state(WindowState::Floating).is_ok());
    assert_eq!(window.state(), &WindowState::Floating);

    assert!(window.change_state(WindowState::Minimized).is_ok());
    assert_eq!(window.state(), &WindowState::Minimized);
}

#[test]
fn window_should_update_focus_state() {
    let mut window = create_test_window();

    assert!(!window.is_focused());

    window.set_focus_state(FocusState::Focused);
    assert!(window.is_focused());
    assert_eq!(window.focus_state(), &FocusState::Focused);
}

#[test]
fn should_generate_state_indicators() {
    let base = |state: WindowState, display: DisplayState| {
        Window::new(
            WindowId::new("test-window".to_string()),
            "Test Window".to_string(),
            "test".to_string(),
            Rectangle::from_coords(0, 0, 800, 600),
            state,
            FocusState::Unfocused,
            display,
        )
    };

    // Tiling state
    assert_eq!(base(WindowState::Tiling, DisplayState::Shown).state_indicator(), "[T]");

    // Floating state
    assert_eq!(base(WindowState::Floating, DisplayState::Shown).state_indicator(), "[F]");

    // Minimized state
    assert_eq!(base(WindowState::Minimized, DisplayState::Shown).state_indicator(), "[M]");

    // Fullscreen state (shown as floating)
    assert_eq!(base(WindowState::Fullscreen, DisplayState::Shown).state_indicator(), "[F]");

    // Hidden state (overrides window state)
    assert_eq!(base(WindowState::Tiling, DisplayState::Hidden).state_indicator(), "[H]");
}

#[test]
fn should_create_window_with_valid_properties() {
    let window_id = WindowId::new("test-window-1".to_string());
    let title = "main.rs - Visual Studio Code".to_string();
    let process_name = "Code".to_string();
    let geometry = Rectangle::new(Position::new(100, 200), Size::new(800, 600));

    let window = Window::new(
        window_id.clone(),
        title.clone(),
        process_name.clone(),
        geometry,
        WindowState::Tiling,
        FocusState::Focused,
        DisplayState::Shown,
    );

    assert_eq!(window.id(), &window_id);
    assert_eq!(window.title(), &title);
    assert_eq!(window.process_name(), &process_name);
    assert_eq!(window.geometry(), &geometry);
    assert_eq!(window.state(), &WindowState::Tiling);
    assert_eq!(window.focus_state(), &FocusState::Focused);
    assert_eq!(window.display_state(), &DisplayState::Shown);
}

#[test]
fn should_create_window_with_floating_state() {
    let window_id = WindowId::new("floating-window".to_string());
    let geometry = Rectangle::new(Position::new(0, 0), Size::new(400, 300));

    let window = Window::new(
        window_id,
        "Calculator".to_string(),
        "calc".to_string(),
        geometry,
        WindowState::Floating,
        FocusState::Unfocused,
        DisplayState::Shown,
    );

    assert_eq!(window.state(), &WindowState::Floating);
    assert!(!window.is_focused());
    assert!(window.is_visible());
}

#[test]
fn should_create_minimized_window() {
    let window_id = WindowId::new("minimized-window".to_string());
    let geometry = Rectangle::new(Position::new(0, 0), Size::new(0, 0));

    let window = Window::new(
        window_id,
        "Hidden App".to_string(),
        "app".to_string(),
        geometry,
        WindowState::Minimized,
        FocusState::Unfocused,
        DisplayState::Hidden,
    );

    assert_eq!(window.state(), &WindowState::Minimized);
    assert_eq!(window.display_state(), &DisplayState::Hidden);
    assert!(!window.is_visible());
}

#[test]
fn should_determine_visibility_correctly() {
    let window_id = WindowId::new("test-window".to_string());
    let geometry = Rectangle::new(Position::new(0, 0), Size::new(800, 600));

    let shown_window = Window::new(
        window_id.clone(),
        "Visible Window".to_string(),
        "app".to_string(),
        geometry,
        WindowState::Tiling,
        FocusState::Unfocused,
        DisplayState::Shown,
    );

    let hidden_window = Window::new(
        window_id.clone(),
        "Hidden Window".to_string(),
        "app".to_string(),
        geometry,
        WindowState::Tiling,
        FocusState::Unfocused,
        DisplayState::Hidden,
    );

    assert!(shown_window.is_visible());
    assert!(!hidden_window.is_visible());
}

#[test]
fn should_determine_focus_correctly() {
    let window_id = WindowId::new("test-window".to_string());
    let geometry = Rectangle::new(Position::new(0, 0), Size::new(800, 600));

    let focused_window = Window::new(
        window_id.clone(),
        "Focused Window".to_string(),
        "app".to_string(),
        geometry,
        WindowState::Tiling,
        FocusState::Focused,
        DisplayState::Shown,
    );

    let unfocused_window = Window::new(
        window_id.clone(),
        "Unfocused Window".to_string(),
        "app".to_string(),
        geometry,
        WindowState::Tiling,
        FocusState::Unfocused,
        DisplayState::Shown,
    );

    assert!(focused_window.is_focused());
    assert!(!unfocused_window.is_focused());
}

#[test]
fn should_generate_display_name_correctly() {
    let window_id = WindowId::new("test-window".to_string());
    let geometry = Rectangle::new(Position::new(0, 0), Size::new(800, 600));

    let window = Window::new(
        window_id,
        "README.md - Visual Studio Code".to_string(),
        "Code".to_string(),
        geometry,
        WindowState::Tiling,
        FocusState::Focused,
        DisplayState::Shown,
    );

    let display_name = window.display_name();

    assert_eq!(display_name, "Code: README.md - Visual Studio Code");
}

#[test]
fn should_handle_long_titles_in_display_name() {
    let window_id = WindowId::new("test-window".to_string());
    let geometry = Rectangle::new(Position::new(0, 0), Size::new(800, 600));

    let long_title = "This is a very long window title that should be truncated for display purposes in the TUI interface";
    let window = Window::new(
        window_id,
        long_title.to_string(),
        "chrome".to_string(),
        geometry,
        WindowState::Tiling,
        FocusState::Unfocused,
        DisplayState::Shown,
    );

    let display_name = window.display_name_truncated(30);

    assert!(display_name.len() <= 30);
    assert!(display_name.contains("chrome"));
    assert!(display_name.contains("...") || display_name.len() < long_title.len());
}

#[test]
fn should_allow_valid_state_transitions() {
    let window_id = WindowId::new("test-window".to_string());
    let geometry = Rectangle::new(Position::new(0, 0), Size::new(800, 600));

    let mut window = Window::new(
        window_id,
        "Test Window".to_string(),
        "test".to_string(),
        geometry,
        WindowState::Tiling,
        FocusState::Unfocused,
        DisplayState::Shown,
    );

    assert!(window.change_state(WindowState::Floating).is_ok());
    assert_eq!(window.state(), &WindowState::Floating);

    assert!(window.change_state(WindowState::Minimized).is_ok());
    assert_eq!(window.state(), &WindowState::Minimized);

    assert!(window.change_state(WindowState::Tiling).is_ok());
    assert_eq!(window.state(), &WindowState::Tiling);
}

#[test]
fn window_test_should_update_focus_state() {
    let window_id = WindowId::new("test-window".to_string());
    let geometry = Rectangle::new(Position::new(0, 0), Size::new(800, 600));

    let mut window = Window::new(
        window_id,
        "Test Window".to_string(),
        "test".to_string(),
        geometry,
        WindowState::Tiling,
        FocusState::Unfocused,
        DisplayState::Shown,
    );

    window.set_focus_state(FocusState::Focused);

    assert!(window.is_focused());
    assert_eq!(window.focus_state(), &FocusState::Focused);
}

#[test]
fn should_update_geometry() {
    let window_id = WindowId::new("test-window".to_string());
    let initial_geometry = Rectangle::new(Position::new(0, 0), Size::new(800, 600));

    let mut window = Window::new(
        window_id,
        "Test Window".to_string(),
        "test".to_string(),
        initial_geometry,
        WindowState::Tiling,
        FocusState::Unfocused,
        DisplayState::Shown,
    );

    let new_geometry = Rectangle::new(Position::new(100, 100), Size::new(1000, 800));
    window.set_geometry(new_geometry);

    assert_eq!(window.geometry(), &new_geometry);
    assert_ne!(window.geometry(), &initial_geometry);
}

#[test]
fn should_validate_window_properties() {
    let window_id = WindowId::new("test-window".to_string());
    let geometry = Rectangle::new(Position::new(0, 0), Size::new(800, 600));

    let window = Window::new(
        window_id,
        "Test Window".to_string(),
        "test".to_string(),
        geometry,
        WindowState::Tiling,
        FocusState::Unfocused,
        DisplayState::Shown,
    );

    assert!(!window.title().is_empty());
    assert!(!window.process_name().is_empty());
    assert!(window.geometry().size.width > 0);
    assert!(window.geometry().size.height > 0);
}

#[test]
fn should_handle_edge_case_titles() {
    let window_id = WindowId::new("test".to_string());
    let geometry = Rectangle::new(Position::new(0, 0), Size::new(100, 100));

    // Empty title
    let empty_title_window = Window::new(
        window_id.clone(),
        "".to_string(),
        "test".to_string(),
        geometry,
        WindowState::Tiling,
        FocusState::Unfocused,
        DisplayState::Shown,
    );

    // Unicode title
    let unicode_window = Window::new(
        window_id.clone(),
        "🚀 Rust Project - VS Code".to_string(),
        "Code".to_string(),
        geometry,
        WindowState::Tiling,
        FocusState::Unfocused,
        DisplayState::Shown,
    );

    assert_eq!(empty_title_window.display_name(), "test: ");
    assert!(unicode_window.display_name().contains("🚀"));
}

#[test]
fn truncation_counts_characters_not_bytes() {
    let window = Window::new(
        WindowId::new("w".to_string()),
        "あいうえおかきくけこさしすせそ".to_string(),
        "app".to_string(),
        Rectangle::from_coords(0, 0, 800, 600),
        WindowState::Tiling,
        FocusState::Unfocused,
        DisplayState::Shown,
    );
    // "app: " plus 15 wide characters is 20 characters in all.
    let truncated = window.display_name_truncated(10);
    assert_eq!(truncated.chars().count(), 10);
    assert!(truncated.ends_with("..."));
    assert!(truncated.starts_with("app: "));
}
