use vstd::prelude::*;

use crate::menu::{Menu, MenuView};
use crate::menubar::MenuBar;

verus! {

/// The abstract state of the application's global menu slots.
pub struct AppView {
    /// The submenus of the installed main menu, if one was installed.
    pub main_menu: Option<Seq<MenuView>>,
    pub window_menu: Option<MenuView>,
    pub services_menu: Option<MenuView>,
    /// `None` lets the host pick the help menu itself.
    pub help_menu: Option<MenuView>,
    pub menubar_visible: bool,
    /// While the application is full screen, showing or hiding the menu bar has no effect.
    pub full_screen: bool,
}

/// Why a menu could not be installed.
#[derive(Debug, Clone, Copy, PartialEq, Eq, Structural)]
pub enum MenuOrderError {
    /// The window menu must be set before the main menu is installed.
    WindowMenuAfterMainMenu,
}

impl AppView {
    /// The state of an application that has just finished launching.
    pub open spec fn launched() -> AppView {
        AppView {
            main_menu: None,
            window_menu: None,
            services_menu: None,
            help_menu: None,
            menubar_visible: true,
            full_screen: false,
        }
    }

    pub open spec fn with_main_menu(self, entries: Seq<MenuView>) -> AppView {
        AppView { main_menu: Some(entries), ..self }
    }

    /// Whether the window menu may still be set: only before the main menu is installed.
    pub open spec fn window_menu_allowed(self) -> bool {
        self.main_menu is None
    }

    /// The state after an attempt to set the window menu; unchanged when not allowed.
    pub open spec fn with_window_menu(self, m: MenuView) -> AppView {
        if self.window_menu_allowed() {
            AppView { window_menu: Some(m), ..self }
        } else {
            self
        }
    }

    pub open spec fn with_services_menu(self, m: MenuView) -> AppView {
        AppView { services_menu: Some(m), ..self }
    }

    pub open spec fn with_help_menu(self, m: Option<MenuView>) -> AppView {
        AppView { help_menu: m, ..self }
    }

    /// The state after asking to show or hide the menu bar; ignored while full screen.
    pub open spec fn with_menubar_visible(self, visible: bool) -> AppView {
        if self.full_screen {
            self
        } else {
            AppView { menubar_visible: visible, ..self }
        }
    }

    pub open spec fn with_full_screen(self, on: bool) -> AppView {
        AppView { full_screen: on, ..self }
    }
}

pub open spec fn menu_opt_view(m: Option<&Menu>) -> Option<MenuView> {
    match m {
        Some(m) => Some(m@),
        None => None,
    }
}

pub open spec fn slot_view(m: Option<Menu>) -> Option<MenuView> {
    match m {
        Some(m) => Some(m@),
        None => None,
    }
}

pub open spec fn menus_view(v: Seq<Menu>) -> Seq<MenuView> {
    v.map_values(|m: Menu| m@)
}

/// The application's global menu state: main, window, services and help
/// menus, and whether the menu bar is shown.
pub struct InitializedApplication {
    main_menu: Option<Vec<Menu>>,
    window_menu: Option<Menu>,
    services_menu: Option<Menu>,
    help_menu: Option<Menu>,
    menubar_visible: bool,
    full_screen: bool,
}

impl View for InitializedApplication {
    type V = AppView;

    closed spec fn view(&self) -> AppView {
        AppView {
            main_menu: match self.main_menu {
                Some(v) => Some(menus_view(v@)),
                None => None,
            },
            window_menu: slot_view(self.window_menu),
            services_menu: slot_view(self.services_menu),
            help_menu: slot_view(self.help_menu),
            menubar_visible: self.menubar_visible,
            full_screen: self.full_screen,
        }
    }
}

/// Once a services menu is set, it is the one reported back.
pub proof fn lemma_services_menu_round_trip(s: AppView, m: MenuView)
    ensures
        s.with_services_menu(m).services_menu == Some(m),
{
}

/// Setting the services menu again replaces the earlier one: the later menu is
/// reported, and the earlier one no longer is, unless the two are equal.
pub proof fn lemma_services_menu_last_wins(s: AppView, m1: MenuView, m2: MenuView)
    ensures
        s.with_services_menu(m1).with_services_menu(m2).services_menu == Some(m2),
        m1 != m2 ==> s.with_services_menu(m1).with_services_menu(m2).services_menu != Some(m1),
{
}

/// Outside full screen, hiding the menu bar makes it report itself hidden.
pub proof fn lemma_hide_menubar(s: AppView)
    requires
        !s.full_screen,
    ensures
        !s.with_menubar_visible(false).menubar_visible,
{
}

/// Once the main menu is installed, setting the window menu is refused and
/// leaves the state as it was.
pub proof fn lemma_window_menu_after_main_menu(s: AppView, entries: Seq<MenuView>, m: MenuView)
    ensures
        !s.with_main_menu(entries).window_menu_allowed(),
        s.with_main_menu(entries).with_window_menu(m) == s.with_main_menu(entries),
{
}

fn copy_menus(v: &Vec<Menu>) -> (r: Vec<Menu>)
    ensures
        menus_view(r@) == menus_view(v@),
{
    let mut r: Vec<Menu> = Vec::new();
    let n = v.len();
    let mut i: usize = 0;
    while i < n
        invariant
            n == v@.len(),
            i <= n,
            r@.len() == i,
            forall|j: int| 0 <= j < i ==> #[trigger] r@[j]@ == v@[j]@,
        decreases n - i,
    {
        r.push(v[i].duplicate());
        i = i + 1;
    }
    assert(menus_view(r@) =~= menus_view(v@));
    r
}

impl InitializedApplication {
    /// The application's menu state once it has finished launching: no menus
    /// installed and the menu bar shown.
    pub fn new() -> (r: InitializedApplication)
        ensures
            r@ == AppView::launched(),
    {
        InitializedApplication {
            main_menu: None,
            window_menu: None,
            services_menu: None,
            help_menu: None,
            menubar_visible: true,
            full_screen: false,
        }
    }

    /// The submenus of the main menu, if one was installed.
    pub fn menubar(&self) -> (r: Option<&Vec<Menu>>)
        ensures
            match r {
                Some(v) => self@.main_menu == Some(menus_view(v@)),
                None => self@.main_menu is None,
            },
    {
        self.main_menu.as_ref()
    }

    /// Installs `menubar` as the main menu and returns a copy of its entries.
    /// There is no way to remove the main menu again.
    pub fn set_menubar(&mut self, menubar: MenuBar) -> (r: Vec<Menu>)
        ensures
            final(self)@ == old(self)@.with_main_menu(menubar@),
            menus_view(r@) == menubar@,
    {
        let entries = menubar.into_raw();
        let r = copy_menus(&entries);
        self.main_menu = Some(entries);
        r
    }

    /// The window menu, if one was set.
    pub fn window_menu(&self) -> (r: Option<&Menu>)
        ensures
            menu_opt_view(r) == self@.window_menu,
    {
        self.window_menu.as_ref()
    }

    /// Sets the window menu, which lists the windows and offers full screen
    /// and tab commands. It must be set before the main menu is installed, or
    /// the host does not fill it: after that the call is refused.
    pub fn set_window_menu(&mut self, menu: &Menu) -> (r: Result<(), MenuOrderError>)
        ensures
            final(self)@ == old(self)@.with_window_menu(menu@),
            r is Ok <==> old(self)@.window_menu_allowed(),
            r is Err ==> r == Err::<(), MenuOrderError>(MenuOrderError::WindowMenuAfterMainMenu),
    {
        if self.main_menu.is_some() {
            Err(MenuOrderError::WindowMenuAfterMainMenu)
        } else {
            self.window_menu = Some(menu.duplicate());
            Ok(())
        }
    }

    /// The services menu, if one was set.
    pub fn services_menu(&self) -> (r: Option<&Menu>)
        ensures
            menu_opt_view(r) == self@.services_menu,
    {
        self.services_menu.as_ref()
    }

    /// Sets the services menu, which the host fills with the services the
    /// user has configured. Setting it more than once is unreliable on the
    /// host's side.
    pub fn set_services_menu(&mut self, menu: &Menu)
        ensures
            final(self)@ == old(self)@.with_services_menu(menu@),
    {
        self.services_menu = Some(menu.duplicate());
    }

    /// The help menu, or `None` when the host picks one itself.
    pub fn help_menu(&self) -> (r: Option<&Menu>)
        ensures
            menu_opt_view(r) == self@.help_menu,
    {
        self.help_menu.as_ref()
    }

    /// Sets the menu that gets the help search field at its top; `None` lets
    /// the host place it, usually on a menu titled "Help".
    pub fn set_help_menu(&mut self, menu: Option<&Menu>)
        ensures
            final(self)@ == old(self)@.with_help_menu(menu_opt_view(menu)),
    {
        self.help_menu = match menu {
            Some(m) => Some(m.duplicate()),
            None => None,
        };
    }

    pub fn menubar_visible(&self) -> (r: bool)
        ensures
            r == self@.menubar_visible,
    {
        self.menubar_visible
    }

    /// Shows or hides the menu bar for the whole application; while full
    /// screen the request is silently ignored.
    pub fn set_menubar_visible(&mut self, visible: bool)
        ensures
            final(self)@ == old(self)@.with_menubar_visible(visible),
    {
        if !self.full_screen {
            self.menubar_visible = visible;
        }
    }

    pub fn is_full_screen(&self) -> (r: bool)
        ensures
            r == self@.full_screen,
    {
        self.full_screen
    }

    /// Records that the application entered or left full screen.
    pub fn set_full_screen(&mut self, on: bool)
        ensures
            final(self)@ == old(self)@.with_full_screen(on),
    {
        self.full_screen = on;
    }
}

} // verus!
