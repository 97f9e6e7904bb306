//! The start-up sequence as a state machine.
//!
//! The bootstrapper owns no window and calls no toolkit. It names the next
//! thing its host has to do, is told how that went, and decides what follows:
//! two plugins are registered, then the menu is built and installed in three
//! steps, then the run loop is entered. The first step of setup that fails
//! ends the sequence for good.

use vstd::prelude::*;
use crate::menu::{application_menu, edit_submenu, Menu, Submenu, SubmenuView};

verus! {

/// A capability module that the host registers before setup.
#[derive(Clone, Copy, Debug, PartialEq, Eq, Structural)]
pub enum Plugin {
    /// Runs shell commands.
    Shell,
    /// Shows native dialogs.
    Dialog,
}

/// How the host fared with the action it was given.
#[derive(Clone, Copy, Debug, PartialEq, Eq, Structural)]
pub enum Outcome {
    Succeeded,
    Failed,
}

/// A failed setup, by the step that failed.
#[derive(Clone, Copy, Debug, PartialEq, Eq, Structural)]
pub enum SetupError {
    /// The "Edit" submenu could not be built.
    SubmenuBuild,
    /// The menu bar could not be built.
    MenuBuild,
    /// The menu bar could not be installed.
    MenuInstall,
}

/// Where the start-up sequence stands.
#[derive(Clone, Copy, Debug, PartialEq, Eq, Structural)]
pub enum Phase {
    /// Nothing has been done yet.
    Created,
    /// The shell plugin is registered.
    ShellRegistered,
    /// Both plugins are registered; setup begins.
    PluginsRegistered,
    /// The "Edit" submenu is built.
    SubmenuBuilt,
    /// The menu bar is built and holds the submenu.
    MenuBuilt,
    /// The menu bar is installed; setup is over and the run loop may start.
    Running,
    /// Setup failed; the application must not start.
    Failed(SetupError),
}

/// What the host has to do next.
#[derive(Clone, Debug, PartialEq, Eq)]
pub enum Action {
    /// Register the plugin with the application under construction.
    RegisterPlugin(Plugin),
    /// Build a native submenu with this title and these entries, in order.
    BuildSubmenu(Submenu),
    /// Build the menu bar with the submenu just built as its only item.
    BuildMenu,
    /// Make the menu bar just built the application's menu, in place of any
    /// it had.
    InstallMenu,
    /// Setup succeeded: hand control to the run loop.
    EnterRunLoop,
    /// Setup failed: report the failure and do not start.
    Abort(SetupError),
}

/// What an [`Action`] holds, as mathematics.
pub enum ActionView {
    RegisterPlugin(Plugin),
    BuildSubmenu(SubmenuView),
    BuildMenu,
    InstallMenu,
    EnterRunLoop,
    Abort(SetupError),
}

impl View for Action {
    type V = ActionView;

    open spec fn view(&self) -> ActionView {
        match *self {
            Action::RegisterPlugin(plugin) => ActionView::RegisterPlugin(plugin),
            Action::BuildSubmenu(submenu) => ActionView::BuildSubmenu(submenu@),
            Action::BuildMenu => ActionView::BuildMenu,
            Action::InstallMenu => ActionView::InstallMenu,
            Action::EnterRunLoop => ActionView::EnterRunLoop,
            Action::Abort(error) => ActionView::Abort(error),
        }
    }
}

impl Phase {
    /// Whether the sequence has ended, in the run loop or in failure.
    pub open spec fn is_terminal(self) -> bool {
        self == Phase::Running || self is Failed
    }

    /// Whether both plugins are registered.
    pub open spec fn plugins_ready(self) -> bool {
        self != Phase::Created && self != Phase::ShellRegistered
    }

    /// The phase that follows when the action of this phase has succeeded.
    /// Nothing follows a phase in which the sequence has ended.
    pub open spec fn successor(self) -> Phase {
        match self {
            Phase::Created => Phase::ShellRegistered,
            Phase::ShellRegistered => Phase::PluginsRegistered,
            Phase::PluginsRegistered => Phase::SubmenuBuilt,
            Phase::SubmenuBuilt => Phase::MenuBuilt,
            Phase::MenuBuilt => Phase::Running,
            Phase::Running => Phase::Running,
            Phase::Failed(error) => Phase::Failed(error),
        }
    }

    /// The error that setup ends with when the action of this phase fails,
    /// or `None` where the action has no way to fail.
    pub open spec fn failure(self) -> Option<SetupError> {
        match self {
            Phase::PluginsRegistered => Some(SetupError::SubmenuBuild),
            Phase::SubmenuBuilt => Some(SetupError::MenuBuild),
            Phase::MenuBuilt => Some(SetupError::MenuInstall),
            _ => None,
        }
    }
}

/// The start-up sequence of the application.
#[derive(Clone, Copy, Debug, PartialEq, Eq, Structural)]
pub struct Bootstrapper {
    pub phase: Phase,
}

impl Bootstrapper {
    /// The bootstrapper before anything is done.
    pub open spec fn new_spec() -> Bootstrapper {
        Bootstrapper { phase: Phase::Created }
    }

    /// The action that the host has to perform in this phase.
    pub open spec fn next_action_spec(self) -> ActionView {
        match self.phase {
            Phase::Created => ActionView::RegisterPlugin(Plugin::Shell),
            Phase::ShellRegistered => ActionView::RegisterPlugin(Plugin::Dialog),
            Phase::PluginsRegistered => ActionView::BuildSubmenu(edit_submenu()),
            Phase::SubmenuBuilt => ActionView::BuildMenu,
            Phase::MenuBuilt => ActionView::InstallMenu,
            Phase::Running => ActionView::EnterRunLoop,
            Phase::Failed(error) => ActionView::Abort(error),
        }
    }

    /// The bootstrapper after the host has reported `outcome` for the action
    /// of this phase.
    ///
    /// Registering a plugin has no way to fail, so the outcome reported for
    /// it is not looked at. A failed step of setup ends in `Failed`, and
    /// nothing leads out of `Running` or `Failed`.
    pub open spec fn advance_spec(self, outcome: Outcome) -> Bootstrapper {
        match (outcome, self.phase.failure()) {
            (Outcome::Failed, Some(error)) => Bootstrapper { phase: Phase::Failed(error) },
            _ => Bootstrapper { phase: self.phase.successor() },
        }
    }

    /// The plugins registered so far, in the order of their registration.
    pub open spec fn registered_plugins_spec(self) -> Seq<Plugin> {
        match self.phase {
            Phase::Created => Seq::empty(),
            Phase::ShellRegistered => seq![Plugin::Shell],
            _ => seq![Plugin::Shell, Plugin::Dialog],
        }
    }

    /// The menu bar that the application shows, going by the host's reports:
    /// the full menu once setup has succeeded, and none before that or after
    /// a failure.
    pub open spec fn installed_menu_spec(self) -> Option<Seq<SubmenuView>> {
        if self.phase == Phase::Running {
            Some(application_menu())
        } else {
            None
        }
    }

    /// How setup ended, or `None` while it has not.
    pub open spec fn setup_result_spec(self) -> Option<Result<(), SetupError>> {
        match self.phase {
            Phase::Running => Some(Ok(())),
            Phase::Failed(error) => Some(Err(error)),
            _ => None,
        }
    }

    /// Starts the sequence: nothing registered, nothing built.
    pub fn new() -> (boot: Bootstrapper)
        ensures
            boot == Self::new_spec(),
            boot.phase == Phase::Created,
    {
        Bootstrapper { phase: Phase::Created }
    }

    /// The action that the host has to perform now.
    pub fn next_action(&self) -> (action: Action)
        ensures
            action@ == self.next_action_spec(),
    {
        match self.phase {
            Phase::Created => Action::RegisterPlugin(Plugin::Shell),
            Phase::ShellRegistered => Action::RegisterPlugin(Plugin::Dialog),
            Phase::PluginsRegistered => Action::BuildSubmenu(Submenu::edit()),
            Phase::SubmenuBuilt => Action::BuildMenu,
            Phase::MenuBuilt => Action::InstallMenu,
            Phase::Running => Action::EnterRunLoop,
            Phase::Failed(error) => Action::Abort(error),
        }
    }

    /// Takes the host's report on the action of this phase and moves on.
    pub fn advance(self, outcome: Outcome) -> (next: Bootstrapper)
        ensures
            next == self.advance_spec(outcome),
    {
        let phase = match self.phase {
            Phase::Created => Phase::ShellRegistered,
            Phase::ShellRegistered => Phase::PluginsRegistered,
            Phase::PluginsRegistered => match outcome {
                Outcome::Succeeded => Phase::SubmenuBuilt,
                Outcome::Failed => Phase::Failed(SetupError::SubmenuBuild),
            },
            Phase::SubmenuBuilt => match outcome {
                Outcome::Succeeded => Phase::MenuBuilt,
                Outcome::Failed => Phase::Failed(SetupError::MenuBuild),
            },
            Phase::MenuBuilt => match outcome {
                Outcome::Succeeded => Phase::Running,
                Outcome::Failed => Phase::Failed(SetupError::MenuInstall),
            },
            Phase::Running => Phase::Running,
            Phase::Failed(error) => Phase::Failed(error),
        };
        Bootstrapper { phase }
    }

    /// The plugins registered so far, in the order of their registration.
    pub fn registered_plugins(&self) -> (plugins: Vec<Plugin>)
        ensures
            plugins@ == self.registered_plugins_spec(),
    {
        let mut plugins: Vec<Plugin> = Vec::new();
        match self.phase {
            Phase::Created => {},
            Phase::ShellRegistered => {
                plugins.push(Plugin::Shell);
            },
            _ => {
                plugins.push(Plugin::Shell);
                plugins.push(Plugin::Dialog);
            },
        }
        assert(plugins@ =~= self.registered_plugins_spec());
        plugins
    }

    /// The menu bar that the application shows, going by the host's reports:
    /// the full menu once setup has succeeded, and none before that or after
    /// a failure.
    pub fn installed_menu(&self) -> (menu: Option<Menu>)
        ensures
            menu is Some <==> self.phase == Phase::Running,
            menu is Some <==> self.installed_menu_spec() is Some,
            menu matches Some(shown) ==> self.installed_menu_spec() == Some(shown@),
    {
        match self.phase {
            Phase::Running => Some(Menu::application()),
            _ => None,
        }
    }

    /// How setup ended: `Ok` once the menu is installed, the error once a
    /// step has failed, and `None` while neither has happened.
    pub fn setup_result(&self) -> (result: Option<Result<(), SetupError>>)
        ensures
            result == self.setup_result_spec(),
            result is Some <==> self.phase.is_terminal(),
    {
        match self.phase {
            Phase::Running => Some(Ok(())),
            Phase::Failed(error) => Some(Err(error)),
            _ => None,
        }
    }
}

} // verus!
