//! Whole runs of the start-up sequence, and what holds of every one of them.
//!
//! A run is the list of outcomes that the host reports, one for each action
//! it was given, oldest first. The first two answer the registration of the
//! plugins, the next three the steps of setup.

use vstd::prelude::*;
use crate::bootstrap::{ActionView, Bootstrapper, Outcome, Phase, Plugin, SetupError};
use crate::menu::{application_menu, edit_entries, MenuEntry};

verus! {

/// The bootstrapper that `start` becomes once the host has reported
/// `outcomes`.
pub open spec fn reached_from(start: Bootstrapper, outcomes: Seq<Outcome>) -> Bootstrapper
    decreases outcomes.len(),
{
    if outcomes.len() == 0 {
        start
    } else {
        reached_from(start, outcomes.drop_last()).advance_spec(outcomes.last())
    }
}

/// The bootstrapper that a fresh one becomes once the host has reported
/// `outcomes`.
pub open spec fn reached(outcomes: Seq<Outcome>) -> Bootstrapper {
    reached_from(Bootstrapper::new_spec(), outcomes)
}

/// The action that the host is given after its first `k` reports.
pub open spec fn action_at(outcomes: Seq<Outcome>, k: int) -> ActionView {
    reached(outcomes.take(k)).next_action_spec()
}

/// Whether the run holds a report for each of the three steps of setup, and
/// each says that the step succeeded.
pub open spec fn setup_succeeded(outcomes: Seq<Outcome>) -> bool {
    &&& outcomes.len() >= 5
    &&& outcomes[2] == Outcome::Succeeded
    &&& outcomes[3] == Outcome::Succeeded
    &&& outcomes[4] == Outcome::Succeeded
}

/// The phase that a run ends in, read off its outcomes.
pub open spec fn phase_after(outcomes: Seq<Outcome>) -> Phase {
    if outcomes.len() == 0 {
        Phase::Created
    } else if outcomes.len() == 1 {
        Phase::ShellRegistered
    } else if outcomes.len() == 2 {
        Phase::PluginsRegistered
    } else if outcomes[2] == Outcome::Failed {
        Phase::Failed(SetupError::SubmenuBuild)
    } else if outcomes.len() == 3 {
        Phase::SubmenuBuilt
    } else if outcomes[3] == Outcome::Failed {
        Phase::Failed(SetupError::MenuBuild)
    } else if outcomes.len() == 4 {
        Phase::MenuBuilt
    } else if outcomes[4] == Outcome::Failed {
        Phase::Failed(SetupError::MenuInstall)
    } else {
        Phase::Running
    }
}

/// How far a phase is from the start of the sequence.
pub open spec fn progress(phase: Phase) -> nat {
    match phase {
        Phase::Created => 0,
        Phase::ShellRegistered => 1,
        Phase::PluginsRegistered => 2,
        Phase::SubmenuBuilt => 3,
        Phase::MenuBuilt => 4,
        Phase::Running => 5,
        Phase::Failed(_) => 5,
    }
}

/// One more report takes a run one step further: the bootstrapper reached
/// after `outcomes` and then `next` is the one reached after `outcomes`,
/// advanced by `next`.
pub proof fn lemma_reached_push(outcomes: Seq<Outcome>, next: Outcome)
    ensures
        reached(outcomes.push(next)) == reached(outcomes).advance_spec(next),
{
    assert(outcomes.push(next).drop_last() =~= outcomes);
}

/// A run ends in the phase that `phase_after` reads off its outcomes.
pub proof fn lemma_reached_phase(outcomes: Seq<Outcome>)
    ensures
        reached(outcomes).phase == phase_after(outcomes),
    decreases outcomes.len(),
{
    if outcomes.len() > 0 {
        lemma_reached_phase(outcomes.drop_last());
    }
}

/// Nothing leads out of a phase in which the sequence has ended: whatever the
/// host reports afterwards, the bootstrapper stays as it is.
pub proof fn lemma_terminal_phase_is_final(start: Bootstrapper, outcomes: Seq<Outcome>)
    requires
        start.phase.is_terminal(),
    ensures
        reached_from(start, outcomes) == start,
    decreases outcomes.len(),
{
    if outcomes.len() > 0 {
        lemma_terminal_phase_is_final(start, outcomes.drop_last());
    }
}

/// After five reports the sequence has ended, and it ends in one of two ways:
/// in the run loop or in failure.
pub proof fn lemma_sequence_ends(outcomes: Seq<Outcome>)
    requires
        outcomes.len() >= 5,
    ensures
        reached(outcomes).phase.is_terminal(),
        reached(outcomes).setup_result_spec() is Some,
        reached(outcomes).next_action_spec() == ActionView::EnterRunLoop
            || reached(outcomes).next_action_spec() is Abort,
{
    lemma_reached_phase(outcomes);
}

/// If a step of setup fails, setup reports failure and the application never
/// reaches the run loop: the run ends in `Failed`, setup's result is an
/// error, the host is told to abort, no menu is installed at any point of
/// the run, and at no point is the host told to enter the run loop.
pub proof fn lemma_failed_setup_never_runs(outcomes: Seq<Outcome>, step: int)
    requires
        2 <= step < 5,
        step < outcomes.len(),
        outcomes[step] == Outcome::Failed,
    ensures
        reached(outcomes).phase is Failed,
        reached(outcomes).next_action_spec() is Abort,
        reached(outcomes).setup_result_spec() is Some,
        reached(outcomes).setup_result_spec().unwrap() is Err,
        reached(outcomes).installed_menu_spec() is None,
        !setup_succeeded(outcomes),
        forall|k: int|
            0 <= k <= outcomes.len() ==> #[trigger] action_at(outcomes, k)
                != ActionView::EnterRunLoop,
        forall|k: int|
            0 <= k <= outcomes.len() ==> (#[trigger] reached(outcomes.take(k))).installed_menu_spec()
                is None,
{
    lemma_reached_phase(outcomes);
    assert forall|k: int| 0 <= k <= outcomes.len() implies #[trigger] action_at(outcomes, k)
        != ActionView::EnterRunLoop by {
        lemma_reached_phase(outcomes.take(k));
    }
    assert forall|k: int| 0 <= k <= outcomes.len() implies (#[trigger] reached(
        outcomes.take(k),
    )).installed_menu_spec() is None by {
        lemma_reached_phase(outcomes.take(k));
    }
}

/// The error that a failed setup reports is that of the first step that
/// failed; the steps after it are not attempted, so what is reported for them
/// changes nothing.
pub proof fn lemma_first_failure_decides(outcomes: Seq<Outcome>, step: int)
    requires
        2 <= step < 5,
        step < outcomes.len(),
        outcomes[step] == Outcome::Failed,
        forall|earlier: int| 2 <= earlier < step ==> outcomes[earlier] == Outcome::Succeeded,
    ensures
        reached(outcomes) == reached(outcomes.take(step + 1)),
        reached(outcomes).setup_result_spec() == Some(
            Err::<(), SetupError>(
                if step == 2 {
                    SetupError::SubmenuBuild
                } else if step == 3 {
                    SetupError::MenuBuild
                } else {
                    SetupError::MenuInstall
                },
            ),
        ),
        forall|k: int| step < k <= outcomes.len() ==> #[trigger] action_at(outcomes, k) is Abort,
{
    lemma_reached_phase(outcomes);
    lemma_reached_phase(outcomes.take(step + 1));
    assert forall|k: int| step < k <= outcomes.len() implies #[trigger] action_at(
        outcomes,
        k,
    ) is Abort by {
        lemma_reached_phase(outcomes.take(k));
    }
}

/// The host is told to enter the run loop exactly when all three steps of
/// setup have been reported as successful, and exactly then setup's result
/// is `Ok` and the menu is installed.
pub proof fn lemma_run_loop_iff_setup_succeeded(outcomes: Seq<Outcome>)
    ensures
        reached(outcomes).next_action_spec() == ActionView::EnterRunLoop <==> setup_succeeded(
            outcomes,
        ),
        reached(outcomes).setup_result_spec() == Some(Ok::<(), SetupError>(())) <==> setup_succeeded(
            outcomes,
        ),
        reached(outcomes).installed_menu_spec() is Some <==> setup_succeeded(outcomes),
{
    lemma_reached_phase(outcomes);
}

/// Both plugins are registered before setup begins: whenever the host is
/// given a step of setup, or is told to enter the run loop or to abort, the
/// first two actions of the run were the registration of the shell plugin
/// and of the dialog plugin, in this order, and both count as registered.
pub proof fn lemma_plugins_precede_setup(outcomes: Seq<Outcome>, k: int)
    requires
        0 <= k <= outcomes.len(),
        !(action_at(outcomes, k) is RegisterPlugin),
    ensures
        k >= 2,
        action_at(outcomes, 0) == ActionView::RegisterPlugin(Plugin::Shell),
        action_at(outcomes, 1) == ActionView::RegisterPlugin(Plugin::Dialog),
        reached(outcomes.take(k)).phase.plugins_ready(),
        reached(outcomes.take(k)).registered_plugins_spec() == seq![Plugin::Shell, Plugin::Dialog],
{
    lemma_reached_phase(outcomes.take(k));
    lemma_reached_phase(outcomes.take(0));
    lemma_reached_phase(outcomes.take(1));
}

/// No step is tried twice: as long as the sequence has not ended, each
/// report takes it one phase further, so an action given before the end is
/// never given again.
pub proof fn lemma_no_step_is_repeated(outcomes: Seq<Outcome>, j: int, k: int)
    requires
        0 <= j < k <= outcomes.len(),
        !reached(outcomes.take(j)).phase.is_terminal(),
    ensures
        progress(reached(outcomes.take(j)).phase) == j,
        progress(reached(outcomes.take(j)).phase) < progress(reached(outcomes.take(k)).phase),
        action_at(outcomes, j) != action_at(outcomes, k),
{
    lemma_reached_phase(outcomes.take(j));
    lemma_reached_phase(outcomes.take(k));
}

/// The menu that a run has installed has exactly one top-level item, named
/// "Edit", and that item holds exactly seven entries: Undo, Redo, a
/// separator, Cut, Copy, Paste, Select All, in this order. It is the submenu
/// that the host was given to build.
pub proof fn lemma_installed_menu_is_edit_menu(outcomes: Seq<Outcome>)
    requires
        reached(outcomes).installed_menu_spec() is Some,
    ensures
        reached(outcomes).installed_menu_spec().unwrap() == application_menu(),
        reached(outcomes).installed_menu_spec().unwrap().len() == 1,
        reached(outcomes).installed_menu_spec().unwrap()[0].title == "Edit"@,
        reached(outcomes).installed_menu_spec().unwrap()[0].entries == edit_entries(),
        action_at(outcomes, 2) == ActionView::BuildSubmenu(
            reached(outcomes).installed_menu_spec().unwrap()[0],
        ),
        edit_entries().len() == 7,
        edit_entries()[0] == MenuEntry::Undo,
        edit_entries()[1] == MenuEntry::Redo,
        edit_entries()[2] == MenuEntry::Separator,
        edit_entries()[3] == MenuEntry::Cut,
        edit_entries()[4] == MenuEntry::Copy,
        edit_entries()[5] == MenuEntry::Paste,
        edit_entries()[6] == MenuEntry::SelectAll,
{
    lemma_reached_phase(outcomes);
    lemma_reached_phase(outcomes.take(2));
}

/// Starting up twice does not double the menu: each run builds its menu
/// from the same description, so two runs that both get through setup
/// install equal menus, each with the one "Edit" item and its seven entries,
/// whatever the first run has left behind.
pub proof fn lemma_second_run_installs_same_menu(first: Seq<Outcome>, second: Seq<Outcome>)
    requires
        setup_succeeded(first),
        setup_succeeded(second),
    ensures
        reached(first) == reached(second),
        reached(second).installed_menu_spec() == reached(first).installed_menu_spec(),
        reached(second).installed_menu_spec() == Some(application_menu()),
        application_menu().len() == 1,
        application_menu()[0].entries.len() == 7,
{
    lemma_reached_phase(first);
    lemma_reached_phase(second);
}

} // verus!
