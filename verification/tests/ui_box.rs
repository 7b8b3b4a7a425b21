use vaultquad::ui::UiBox;

#[test]
fn read_after_write() {
    let mut b: UiBox<String> = UiBox::new();
    assert!(!b.contains(7));
    assert_eq!(b.insert(7, "first".to_string()), None);
    assert!(b.contains(7));
    assert_eq!(b.get(7), Some(&"first".to_string()));
    assert_eq!(b.insert(7, "second".to_string()), Some("first".to_string()));
    assert_eq!(b.get(7), Some(&"second".to_string()));
    assert_eq!(b.get(8), None);
}

#[test]
fn get_mut_changes_in_place() {
    let mut b: UiBox<u32> = UiBox::new();
    b.insert(1, 10);
    if let Some(w) = b.get_mut(1) {
        *w += 1;
    }
    assert_eq!(b.get(1), Some(&11));
    assert!(b.get_mut(2).is_none());
}

#[test]
fn remove_takes_the_widget_out() {
    let mut b: UiBox<u32> = UiBox::new();
    b.insert(3, 30);
    b.insert(4, 40);
    assert_eq!(b.remove(3), Some(30));
    assert!(!b.contains(3));
    assert_eq!(b.remove(3), None);
    assert_eq!(b.get(4), Some(&40));
}
