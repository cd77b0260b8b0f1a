use vstd::prelude::*;

use crate::menu::{Menu, MenuView};

verus! {

/// A menu bar under construction: the submenus of its root menu, in order.
///
/// Each entry of the root menu is an untitled item that owns one submenu; the
/// root menu's own title and its items' settings are not used by the host.
pub struct MenuBar {
    entries: Vec<Menu>,
}

/// What the filler `f` may hand back when it is given an empty menu titled `title`.
pub open spec fn filled_from<F: FnOnce(Menu) -> Menu>(f: F, title: Seq<char>, out: MenuView) -> bool {
    exists|m: Menu, r: Menu| m@ == MenuView::empty(title) && f.ensures((m,), r) && r@ == out
}

impl View for MenuBar {
    type V = Seq<MenuView>;

    closed spec fn view(&self) -> Seq<MenuView> {
        self.entries@.map_values(|m: Menu| m@)
    }
}

impl MenuBar {
    /// The submenus of the root menu, in order, handing over ownership.
    pub fn into_raw(self) -> (r: Vec<Menu>)
        ensures
            r@.map_values(|m: Menu| m@) == self@,
    {
        self.entries
    }

    /// A menu bar whose single entry is an untitled menu filled by `f`.
    pub fn new<F: FnOnce(Menu) -> Menu>(f: F) -> (r: MenuBar)
        requires
            forall|m: Menu| m@ == MenuView::empty(Seq::empty()) ==> f.requires((m,)),
        ensures
            r@.len() == 1,
            filled_from(f, Seq::empty(), r@[0]),
    {
        let mut menubar = MenuBar { entries: Vec::new() };
        let first = Menu::new();
        let first = f(first);
        menubar.add_menu(first);
        menubar
    }

    fn add_menu(&mut self, menu: Menu) -> (r: usize)
        ensures
            final(self)@ == old(self)@.push(menu@),
            r == old(self)@.len(),
    {
        let r = self.entries.len();
        self.entries.push(menu);
        assert(self@ =~= old(self)@.push(menu@));
        r
    }

    /// Appends a submenu titled `title`, filled by `f`; returns its position
    /// among the menu bar's entries.
    pub fn add<F: FnOnce(Menu) -> Menu>(&mut self, title: &str, f: F) -> (r: usize)
        requires
            forall|m: Menu| m@ == MenuView::empty(title@) ==> f.requires((m,)),
        ensures
            final(self)@.len() == old(self)@.len() + 1,
            final(self)@.take(old(self)@.len() as int) == old(self)@,
            filled_from(f, title@, final(self)@.last()),
            r == old(self)@.len(),
    {
        let menu = Menu::new_with_title(title);
        let menu = f(menu);
        let r = self.add_menu(menu);
        assert(self@.take(old(self)@.len() as int) =~= old(self)@);
        r
    }

    /// The number of entries.
    pub fn len(&self) -> (r: usize)
        ensures
            r == self@.len(),
    {
        self.entries.len()
    }

    /// The submenu at position `index`.
    pub fn entry(&self, index: usize) -> (r: &Menu)
        requires
            index < self@.len(),
        ensures
            r@ == self@[index as int],
    {
        &self.entries[index]
    }
}

} // verus!
