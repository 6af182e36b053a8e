use clash::components::sidebar::{SelectError, SideBar, SIDE_BAR};

fn names(labels: &[&str]) -> Vec<String> {
    labels.iter().map(|s| s.to_string()).collect()
}

#[test]
fn select_makes_index_current_and_others_unselected() {
    for n in 1..6usize {
        let labels: Vec<String> = (0..n).map(|k| format!("b{}", k)).collect();
        for i in 0..n {
            let mut b = SideBar::new("t".to_string(), labels.clone());
            assert_eq!(b.select(i), Ok(()));
            assert_eq!(b.current(), Some(i));
            for j in 0..n {
                assert_eq!(b.is_selected(j), j == i);
            }
        }
    }
}

#[test]
fn select_twice_equals_select_once() {
    let mut once = SideBar::new("t".to_string(), names(&["A", "B", "C"]));
    let mut twice = SideBar::new("t".to_string(), names(&["A", "B", "C"]));
    assert_eq!(once.select(2), Ok(()));
    assert_eq!(twice.select(2), Ok(()));
    assert_eq!(twice.select(2), Ok(()));
    assert_eq!(once.current(), twice.current());
    assert_eq!(once.current_label(), twice.current_label());
    for j in 0..3 {
        assert_eq!(once.is_selected(j), twice.is_selected(j));
    }
}

#[test]
fn out_of_range_select_is_refused_without_change() {
    let mut b = SideBar::new("t".to_string(), names(&["A", "B"]));
    assert_eq!(b.select(0), Ok(()));
    assert_eq!(b.select(2), Err(SelectError::IndexOutOfRange { index: 2, len: 2 }));
    assert_eq!(b.current(), Some(0));
    assert_eq!(b.current_label(), Some("A"));
    assert_eq!(b.len(), 2);
    assert_eq!(b.select(usize::MAX), Err(SelectError::IndexOutOfRange { index: usize::MAX, len: 2 }));
    assert_eq!(b.current(), Some(0));
}

#[test]
fn empty_sidebar_has_no_selection_and_refuses_all() {
    let mut b = SideBar::new("t".to_string(), Vec::new());
    assert_eq!(b.current(), None);
    assert_eq!(b.current_label(), None);
    for i in [0usize, 1, 7, usize::MAX] {
        assert_eq!(b.select(i), Err(SelectError::IndexOutOfRange { index: i, len: 0 }));
        assert_eq!(b.refresh_button(i), Err(SelectError::IndexOutOfRange { index: i, len: 0 }));
    }
    assert_eq!(b.current(), None);
    assert_eq!(b.len(), 0);
}

#[test]
fn default_then_general_then_default() {
    let mut b = SideBar::new("s".to_string(), names(&["Default", "General"]));
    assert_eq!(b.current(), None);
    assert_eq!(b.select(1), Ok(()));
    assert_eq!(b.current(), Some(1));
    assert_eq!(b.current_label(), Some("General"));
    assert_eq!(b.select(0), Ok(()));
    assert_eq!(b.current(), Some(0));
    assert_eq!(b.current_label(), Some("Default"));
}

#[test]
fn default_preselected_by_constructor() {
    let mut b = SideBar::with_default("s".to_string(), names(&["Default", "General"]), 0).unwrap();
    assert_eq!(b.current_label(), Some("Default"));
    assert_eq!(b.select(1), Ok(()));
    assert_eq!(b.current_label(), Some("General"));
    assert_eq!(b.select(0), Ok(()));
    assert_eq!(b.current_label(), Some("Default"));
}

#[test]
fn with_default_out_of_range_is_refused() {
    let r = SideBar::with_default("s".to_string(), names(&["A"]), 1);
    assert!(matches!(r, Err(SelectError::IndexOutOfRange { index: 1, len: 1 })));
    let r = SideBar::with_default("s".to_string(), Vec::new(), 0);
    assert!(matches!(r, Err(SelectError::IndexOutOfRange { index: 0, len: 0 })));
}

#[test]
fn select_five_of_three_leaves_current_unchanged() {
    let mut b = SideBar::new("s".to_string(), names(&["A", "B", "C"]));
    let before = b.current();
    assert_eq!(b.select(5), Err(SelectError::IndexOutOfRange { index: 5, len: 3 }));
    assert_eq!(b.current(), before);
    assert_eq!(b.select(1), Ok(()));
    assert_eq!(b.select(5), Err(SelectError::IndexOutOfRange { index: 5, len: 3 }));
    assert_eq!(b.current(), Some(1));
    assert_eq!(b.current_label(), Some("B"));
}

#[test]
fn refresh_button_moves_the_selection() {
    let mut b = SideBar::new("test".to_string(), names(&["test1", "test2"]));
    assert_eq!(b.refresh_button(1), Ok(()));
    assert!(b.is_selected(1));
    assert!(!b.is_selected(0));
    assert_eq!(b.refresh_button(0), Ok(()));
    assert!(b.is_selected(0));
    assert!(!b.is_selected(1));
}

#[test]
fn labels_and_title_are_kept() {
    let b = SideBar::new("test".to_string(), names(&["test1", "test2"]));
    assert_eq!(b.title(), "test");
    assert_eq!(b.label(0), Some("test1"));
    assert_eq!(b.label(1), Some("test2"));
    assert_eq!(b.label(2), None);
    assert!(!b.is_selected(0));
    assert!(!b.is_selected(5));
}

#[test]
fn default_sidebar_is_empty() {
    let b = SideBar::default();
    assert_eq!(b.title(), "");
    assert_eq!(b.len(), 0);
    assert_eq!(b.current(), None);
}

#[test]
fn panel_id_is_side_bar() {
    assert_eq!(SIDE_BAR, "side_bar");
}
