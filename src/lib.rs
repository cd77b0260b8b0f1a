//! A verified model of a desktop application's global menus: the menu bar
//! built from nested menus, the window, services and help menus, and the
//! menu bar's visibility.
use vstd::prelude::*;

pub mod global;
pub mod menu;
pub mod menubar;

verus! {

} // verus!
