//! Start-up of a desktop application shell: the menu it shows and the order
//! in which its host is told to bring it up.

pub mod bootstrap;
pub mod menu;
pub mod trace;

pub use bootstrap::{Action, ActionView, Bootstrapper, Outcome, Phase, Plugin, SetupError};
pub use menu::{Menu, MenuEntry, StandardAction, Submenu, SubmenuView};
