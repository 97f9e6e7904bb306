//! The menu tree: what a menu bar holds, and the one menu this application shows.

use vstd::prelude::*;

verus! {

/// An editing action that the host platform carries out by itself.
#[derive(Clone, Copy, Debug, PartialEq, Eq, Structural)]
pub enum StandardAction {
    Undo,
    Redo,
    Cut,
    Copy,
    Paste,
    SelectAll,
}

impl StandardAction {
    /// The name under which the platform knows the action.
    pub open spec fn name_spec(self) -> Seq<char> {
        match self {
            StandardAction::Undo => "Undo"@,
            StandardAction::Redo => "Redo"@,
            StandardAction::Cut => "Cut"@,
            StandardAction::Copy => "Copy"@,
            StandardAction::Paste => "Paste"@,
            StandardAction::SelectAll => "Select All"@,
        }
    }

    /// The name under which the platform knows the action.
    pub fn name(&self) -> (s: &'static str)
        ensures
            s@ == self.name_spec(),
    {
        match self {
            StandardAction::Undo => "Undo",
            StandardAction::Redo => "Redo",
            StandardAction::Cut => "Cut",
            StandardAction::Copy => "Copy",
            StandardAction::Paste => "Paste",
            StandardAction::SelectAll => "Select All",
        }
    }
}

/// One line of a submenu: a standard editing command, or the rule that sets
/// two groups of commands apart.
///
/// An entry has no handler of its own. What a command does is left to the
/// platform's action of the same name.
#[derive(Clone, Copy, Debug, PartialEq, Eq, Structural)]
pub enum MenuEntry {
    Undo,
    Redo,
    Separator,
    Cut,
    Copy,
    Paste,
    SelectAll,
}

impl MenuEntry {
    /// The platform action behind the entry; a separator has none.
    pub open spec fn standard_action_spec(self) -> Option<StandardAction> {
        match self {
            MenuEntry::Undo => Some(StandardAction::Undo),
            MenuEntry::Redo => Some(StandardAction::Redo),
            MenuEntry::Separator => None,
            MenuEntry::Cut => Some(StandardAction::Cut),
            MenuEntry::Copy => Some(StandardAction::Copy),
            MenuEntry::Paste => Some(StandardAction::Paste),
            MenuEntry::SelectAll => Some(StandardAction::SelectAll),
        }
    }

    /// Whether the entry is a command, that is, anything but a separator.
    pub open spec fn is_command_spec(self) -> bool {
        self != MenuEntry::Separator
    }

    /// The entry's name.
    pub open spec fn name_spec(self) -> Seq<char> {
        match self {
            MenuEntry::Undo => "Undo"@,
            MenuEntry::Redo => "Redo"@,
            MenuEntry::Separator => "Separator"@,
            MenuEntry::Cut => "Cut"@,
            MenuEntry::Copy => "Copy"@,
            MenuEntry::Paste => "Paste"@,
            MenuEntry::SelectAll => "Select All"@,
        }
    }

    /// The platform action behind the entry; a separator has none.
    pub fn standard_action(&self) -> (action: Option<StandardAction>)
        ensures
            action == self.standard_action_spec(),
            action is Some <==> self.is_command_spec(),
            action matches Some(a) ==> a.name_spec() == self.name_spec(),
    {
        match self {
            MenuEntry::Undo => Some(StandardAction::Undo),
            MenuEntry::Redo => Some(StandardAction::Redo),
            MenuEntry::Separator => None,
            MenuEntry::Cut => Some(StandardAction::Cut),
            MenuEntry::Copy => Some(StandardAction::Copy),
            MenuEntry::Paste => Some(StandardAction::Paste),
            MenuEntry::SelectAll => Some(StandardAction::SelectAll),
        }
    }

    /// Whether the entry is a command, that is, anything but a separator.
    pub fn is_command(&self) -> (b: bool)
        ensures
            b == self.is_command_spec(),
    {
        match self {
            MenuEntry::Separator => false,
            _ => true,
        }
    }

    /// The entry's name.
    pub fn name(&self) -> (s: &'static str)
        ensures
            s@ == self.name_spec(),
    {
        match self {
            MenuEntry::Undo => "Undo",
            MenuEntry::Redo => "Redo",
            MenuEntry::Separator => "Separator",
            MenuEntry::Cut => "Cut",
            MenuEntry::Copy => "Copy",
            MenuEntry::Paste => "Paste",
            MenuEntry::SelectAll => "Select All",
        }
    }
}

/// A titled, ordered list of entries under one top-level item of the menu bar.
#[derive(Clone, Debug, PartialEq, Eq)]
pub struct Submenu {
    pub title: String,
    pub entries: Vec<MenuEntry>,
}

/// What a [`Submenu`] holds, as mathematics.
pub struct SubmenuView {
    pub title: Seq<char>,
    pub entries: Seq<MenuEntry>,
}

impl View for Submenu {
    type V = SubmenuView;

    open spec fn view(&self) -> SubmenuView {
        SubmenuView { title: self.title@, entries: self.entries@ }
    }
}

/// The menu bar: its top-level items from left to right.
#[derive(Clone, Debug, PartialEq, Eq)]
pub struct Menu {
    pub items: Vec<Submenu>,
}

impl View for Menu {
    type V = Seq<SubmenuView>;

    open spec fn view(&self) -> Seq<SubmenuView> {
        Seq::new(self.items@.len(), |i: int| self.items@[i]@)
    }
}

/// The entries of the "Edit" submenu, top to bottom.
pub open spec fn edit_entries() -> Seq<MenuEntry> {
    seq![
        MenuEntry::Undo,
        MenuEntry::Redo,
        MenuEntry::Separator,
        MenuEntry::Cut,
        MenuEntry::Copy,
        MenuEntry::Paste,
        MenuEntry::SelectAll,
    ]
}

/// The "Edit" submenu.
pub open spec fn edit_submenu() -> SubmenuView {
    SubmenuView { title: "Edit"@, entries: edit_entries() }
}

/// The application's menu bar: the "Edit" submenu and nothing else.
pub open spec fn application_menu() -> Seq<SubmenuView> {
    seq![edit_submenu()]
}

impl Submenu {
    /// Builds the "Edit" submenu: Undo, Redo, a separator, Cut, Copy, Paste,
    /// Select All.
    pub fn edit() -> (submenu: Submenu)
        ensures
            submenu@ == edit_submenu(),
            submenu@.title == "Edit"@,
            submenu@.entries.len() == 7,
    {
        let mut entries: Vec<MenuEntry> = Vec::new();
        entries.push(MenuEntry::Undo);
        entries.push(MenuEntry::Redo);
        entries.push(MenuEntry::Separator);
        entries.push(MenuEntry::Cut);
        entries.push(MenuEntry::Copy);
        entries.push(MenuEntry::Paste);
        entries.push(MenuEntry::SelectAll);
        assert(entries@ =~= edit_entries());
        Submenu { title: "Edit".to_owned(), entries }
    }
}

impl Menu {
    /// Builds the application's menu bar, whose only item is the "Edit"
    /// submenu.
    pub fn application() -> (menu: Menu)
        ensures
            menu@ == application_menu(),
            menu@.len() == 1,
            menu@[0] == edit_submenu(),
    {
        let mut items: Vec<Submenu> = Vec::new();
        items.push(Submenu::edit());
        let menu = Menu { items };
        assert(menu@ =~= application_menu());
        menu
    }
}

/// Every command stands for the platform action of its own name, and the
/// separator for none. This holds of each entry of the "Edit" submenu, which
/// holds every kind of entry there is.
pub proof fn lemma_commands_are_standard(entry: MenuEntry)
    ensures
        entry.standard_action_spec() is Some <==> entry.is_command_spec(),
        entry.standard_action_spec() matches Some(action) ==> action.name_spec()
            == entry.name_spec(),
        entry.standard_action_spec() is None <==> entry == MenuEntry::Separator,
        edit_entries().contains(entry),
{
    let at: int = match entry {
        MenuEntry::Undo => 0,
        MenuEntry::Redo => 1,
        MenuEntry::Separator => 2,
        MenuEntry::Cut => 3,
        MenuEntry::Copy => 4,
        MenuEntry::Paste => 5,
        MenuEntry::SelectAll => 6,
    };
    assert(edit_entries()[at] == entry);
}

} // verus!
