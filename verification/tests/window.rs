use vaultquad::ui::widgets::window::Window;

#[test]
fn window_defaults() {
    let w = Window::new(42, (1.0f32, 2.0f32), (3.0f32, 4.0f32));
    assert_eq!(w.id(), 42);
    assert_eq!(*w.position(), (1.0, 2.0));
    assert_eq!(*w.size(), (3.0, 4.0));
    assert!(!w.has_close_button());
    assert!(w.is_movable());
    assert!(w.has_titlebar());
    assert!(w.title().is_none());
}

#[test]
fn window_builders() {
    let w = Window::new(1, 0, 0).label("Tools").movable(false).close_button(true).titlebar(false);
    assert_eq!(w.title(), Some(&"Tools".to_string()));
    assert!(!w.is_movable());
    assert!(w.has_close_button());
    assert!(!w.has_titlebar());
}
