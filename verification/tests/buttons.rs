use vaultquad::ui::widgets::button::ButtonState;
use vaultquad::ui::widgets::toggle::ToggleState;
use vaultquad::ui::widgets::Action;

#[test]
fn button_click_and_release_on_it() {
    let mut b = ButtonState::new();
    b.process(true, true, false);
    assert!(b.is_clicked());
    assert!(b.is_hovered());
    assert!(!b.is_released());
    b.process(true, false, false);
    assert!(!b.is_clicked());
    b.process(true, false, true);
    assert!(b.is_released());
    b.process(true, false, false);
    assert!(!b.is_released());
}

#[test]
fn button_release_elsewhere_does_not_count() {
    let mut b = ButtonState::new();
    b.process(true, true, false);
    b.process(false, false, true);
    assert!(!b.is_released());
    let mut b = ButtonState::new();
    b.process(false, true, false);
    b.process(true, false, true);
    assert!(!b.is_released());
}

#[test]
fn toggle_flips_on_click() {
    let mut t = ToggleState::new();
    assert!(!t.is_on());
    t.process(true, true);
    assert!(t.is_on());
    assert!(t.is_clicked());
    t.process(true, false);
    assert!(t.is_on());
    assert!(!t.is_clicked());
    t.process(false, true);
    assert!(t.is_on());
    t.process(true, true);
    assert!(!t.is_on());
}
