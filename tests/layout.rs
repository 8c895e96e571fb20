use druid_layout::layout::{Layout, Size};

#[test]
fn new_keeps_size() {
    let layout = Layout::new(Size::new(120.0, 48.5));
    assert_eq!(layout.size(), Size::new(120.0, 48.5));
    assert_eq!(layout.size().width, 120.0);
    assert_eq!(layout.size().height, 48.5);
}

#[test]
fn new_keeps_zero_size() {
    let layout = Layout::new(Size::ZERO);
    assert_eq!(layout.size(), Size::ZERO);
}

#[test]
fn from_size_matches_new() {
    let size = Size::new(3.0, 7.0);
    let layout: Layout = Layout::from(size);
    assert_eq!(layout.size(), Layout::new(size).size());
    let converted: Layout = Size::new(9.0, 1.0).into();
    assert_eq!(converted.size(), Size::new(9.0, 1.0));
}

#[test]
fn copied_layout_keeps_size() {
    let layout = Layout::new(Size::new(1.0, 2.0));
    let copy = layout;
    assert_eq!(copy.size(), layout.size());
}
