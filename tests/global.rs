use menubar::global::{InitializedApplication, MenuOrderError};
use menubar::menu::{Menu, MenuItem};
use menubar::menubar::MenuBar;

fn create_menu(title: &str) -> Menu {
    Menu::new_with_title(title)
}

#[test]
fn test_services_menu() {
    let mut app = InitializedApplication::new();
    let menu1 = create_menu("first");
    let menu2 = create_menu("second");

    assert!(app.services_menu().is_none());

    app.set_services_menu(&menu1);
    assert!(same_menu(app.services_menu().unwrap(), &menu1));

    app.set_services_menu(&menu2);
    assert!(same_menu(app.services_menu().unwrap(), &menu2));
    assert!(!same_menu(app.services_menu().unwrap(), &menu1));
}

fn same_menu(a: &Menu, b: &Menu) -> bool {
    if a.title() != b.title() || a.len() != b.len() {
        return false;
    }
    (0..a.len()).all(|i| a.item_title(i) == b.item_title(i))
}

#[test]
fn new_application_has_no_menus_and_shows_menubar() {
    let app = InitializedApplication::new();
    assert!(app.menubar().is_none());
    assert!(app.window_menu().is_none());
    assert!(app.services_menu().is_none());
    assert!(app.help_menu().is_none());
    assert!(app.menubar_visible());
    assert!(!app.is_full_screen());
}

#[test]
fn hide_menubar_outside_full_screen() {
    let mut app = InitializedApplication::new();
    app.set_menubar_visible(false);
    assert!(!app.menubar_visible());
    app.set_menubar_visible(true);
    assert!(app.menubar_visible());
}

#[test]
fn menubar_visibility_ignored_in_full_screen() {
    let mut app = InitializedApplication::new();
    app.set_full_screen(true);
    assert!(app.is_full_screen());
    app.set_menubar_visible(false);
    assert!(app.menubar_visible());
    app.set_full_screen(false);
    app.set_menubar_visible(false);
    assert!(!app.menubar_visible());
}

#[test]
fn window_menu_before_main_menu_is_accepted() {
    let mut app = InitializedApplication::new();
    let window = create_menu("Window");
    assert_eq!(app.set_window_menu(&window), Ok(()));
    assert_eq!(app.window_menu().unwrap().title(), "Window");
    let bar = MenuBar::new(|m| m);
    app.set_menubar(bar);
    assert_eq!(app.window_menu().unwrap().title(), "Window");
}

#[test]
fn window_menu_after_main_menu_is_refused() {
    let mut app = InitializedApplication::new();
    let bar = MenuBar::new(|m| m);
    app.set_menubar(bar);
    let window = create_menu("Window");
    assert_eq!(
        app.set_window_menu(&window),
        Err(MenuOrderError::WindowMenuAfterMainMenu)
    );
    assert!(app.window_menu().is_none());
}

#[test]
fn help_menu_set_and_cleared() {
    let mut app = InitializedApplication::new();
    let help = create_menu("Help");
    app.set_help_menu(Some(&help));
    assert_eq!(app.help_menu().unwrap().title(), "Help");
    app.set_help_menu(None);
    assert!(app.help_menu().is_none());
}

#[test]
fn set_menubar_installs_and_returns_entries() {
    let mut app = InitializedApplication::new();
    let mut bar = MenuBar::new(|mut m| {
        m.add(MenuItem::new("About"));
        m
    });
    let index = bar.add("File", |mut m| {
        m.add(MenuItem::new("Open"));
        m.add(MenuItem::new("Close"));
        m
    });
    assert_eq!(index, 1);
    let shared = app.set_menubar(bar);
    assert_eq!(shared.len(), 2);
    assert_eq!(shared[1].title(), "File");
    assert_eq!(shared[1].item_title(1), "Close");
    let installed = app.menubar().unwrap();
    assert_eq!(installed.len(), 2);
    assert_eq!(installed[0].title(), "");
    assert_eq!(installed[0].item_title(0), "About");
}
