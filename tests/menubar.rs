use menubar::menu::{Menu, MenuItem};
use menubar::menubar::MenuBar;

#[test]
fn one_entry_with_three_items_in_order() {
    let bar = MenuBar::new(|mut m: Menu| {
        m.add(MenuItem::new("Undo"));
        m.add(MenuItem::new("Redo"));
        m.add(MenuItem::new("Cut"));
        m
    });
    assert_eq!(bar.len(), 1);
    let root = bar.into_raw();
    assert_eq!(root.len(), 1);
    let child = &root[0];
    assert_eq!(child.len(), 3);
    assert_eq!(child.item_title(0), "Undo");
    assert_eq!(child.item_title(1), "Redo");
    assert_eq!(child.item_title(2), "Cut");
}

#[test]
fn add_appends_titled_entry() {
    let mut bar = MenuBar::new(|m| m);
    let first = bar.add("Edit", |m| m);
    let second = bar.add("View", |mut m: Menu| {
        m.add(MenuItem::new("Zoom"));
        m
    });
    assert_eq!(first, 1);
    assert_eq!(second, 2);
    assert_eq!(bar.len(), 3);
    assert_eq!(bar.entry(0).title(), "");
    assert_eq!(bar.entry(1).title(), "Edit");
    assert_eq!(bar.entry(2).title(), "View");
    assert_eq!(bar.entry(2).item_title(0), "Zoom");
}

#[test]
fn duplicate_keeps_title_and_items() {
    let mut m = Menu::new_with_title("Tools");
    m.add(MenuItem::new("A"));
    m.add(MenuItem::new("B"));
    let d = m.duplicate();
    assert_eq!(d.title(), "Tools");
    assert_eq!(d.len(), 2);
    assert_eq!(d.item_title(0), "A");
    assert_eq!(d.item_title(1), "B");
}

#[test]
fn new_menu_is_empty() {
    let m = Menu::new();
    assert_eq!(m.title(), "");
    assert_eq!(m.len(), 0);
}
