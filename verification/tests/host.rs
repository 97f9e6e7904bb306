use desktop_shell::{Action, Bootstrapper, Menu, MenuEntry, Outcome, Plugin, SetupError, Submenu};

/// The step of setup that a scripted host lets fail.
#[derive(Clone, Copy, PartialEq, Eq)]
enum Fault {
    Nothing,
    SubmenuBuild,
    MenuBuild,
    MenuInstall,
}

/// A host on paper: it keeps what a real application would keep between
/// start-ups, and notes what it was asked to do.
struct PaperHost {
    fault: Fault,
    plugins: Vec<Plugin>,
    plugins_at_setup: Option<Vec<Plugin>>,
    installed: Option<Menu>,
    run_loops_entered: usize,
    aborts: Vec<SetupError>,
}

fn paper_host(fault: Fault) -> PaperHost {
    PaperHost {
        fault,
        plugins: Vec::new(),
        plugins_at_setup: None,
        installed: None,
        run_loops_entered: 0,
        aborts: Vec::new(),
    }
}

fn report(fails: bool) -> Outcome {
    if fails {
        Outcome::Failed
    } else {
        Outcome::Succeeded
    }
}

/// Starts the application once on the host: performs every action the
/// bootstrapper gives until it says to enter the run loop or to abort.
fn start(host: &mut PaperHost) -> Result<(), SetupError> {
    let mut boot = Bootstrapper::new();
    let mut submenus: Vec<Submenu> = Vec::new();
    let mut menu: Option<Menu> = None;
    loop {
        let outcome = match boot.next_action() {
            Action::RegisterPlugin(plugin) => {
                host.plugins.push(plugin);
                Outcome::Succeeded
            }
            Action::BuildSubmenu(plan) => {
                host.plugins_at_setup.get_or_insert_with(|| host.plugins.clone());
                let fails = host.fault == Fault::SubmenuBuild;
                if !fails {
                    submenus.push(plan);
                }
                report(fails)
            }
            Action::BuildMenu => {
                let fails = host.fault == Fault::MenuBuild;
                if !fails {
                    menu = Some(Menu { items: submenus.clone() });
                }
                report(fails)
            }
            Action::InstallMenu => {
                let fails = host.fault == Fault::MenuInstall;
                if !fails {
                    host.installed = menu.take();
                }
                report(fails)
            }
            Action::EnterRunLoop => {
                host.run_loops_entered += 1;
                assert_eq!(boot.setup_result(), Some(Ok(())));
                return Ok(());
            }
            Action::Abort(error) => {
                host.aborts.push(error);
                assert_eq!(boot.setup_result(), Some(Err(error)));
                return Err(error);
            }
        };
        boot = boot.advance(outcome);
    }
}

#[test]
fn host_shows_one_edit_item_after_setup() {
    let mut host = paper_host(Fault::Nothing);
    assert_eq!(start(&mut host), Ok(()));
    let menu = host.installed.expect("a menu is installed");
    assert_eq!(menu.items.len(), 1);
    assert_eq!(menu.items[0].title, "Edit");
}

#[test]
fn host_shows_the_seven_edit_entries_in_order() {
    let mut host = paper_host(Fault::Nothing);
    assert_eq!(start(&mut host), Ok(()));
    let menu = host.installed.expect("a menu is installed");
    assert_eq!(
        menu.items[0].entries,
        vec![
            MenuEntry::Undo,
            MenuEntry::Redo,
            MenuEntry::Separator,
            MenuEntry::Cut,
            MenuEntry::Copy,
            MenuEntry::Paste,
            MenuEntry::SelectAll,
        ]
    );
}

#[test]
fn host_menu_is_the_menu_the_bootstrapper_records() {
    let mut host = paper_host(Fault::Nothing);
    assert_eq!(start(&mut host), Ok(()));
    assert_eq!(host.installed, Some(Menu::application()));
}

#[test]
fn host_enters_the_run_loop_once_after_a_good_setup() {
    let mut host = paper_host(Fault::Nothing);
    assert_eq!(start(&mut host), Ok(()));
    assert_eq!(host.run_loops_entered, 1);
    assert!(host.aborts.is_empty());
}

#[test]
fn host_with_a_failing_submenu_builder_does_not_start() {
    let mut host = paper_host(Fault::SubmenuBuild);
    assert_eq!(start(&mut host), Err(SetupError::SubmenuBuild));
    assert_eq!(host.run_loops_entered, 0);
    assert_eq!(host.installed, None);
    assert_eq!(host.aborts, vec![SetupError::SubmenuBuild]);
}

#[test]
fn host_with_a_failing_menu_builder_does_not_start() {
    let mut host = paper_host(Fault::MenuBuild);
    assert_eq!(start(&mut host), Err(SetupError::MenuBuild));
    assert_eq!(host.run_loops_entered, 0);
    assert_eq!(host.installed, None);
    assert_eq!(host.aborts, vec![SetupError::MenuBuild]);
}

#[test]
fn host_that_cannot_install_the_menu_does_not_start() {
    let mut host = paper_host(Fault::MenuInstall);
    assert_eq!(start(&mut host), Err(SetupError::MenuInstall));
    assert_eq!(host.run_loops_entered, 0);
    assert_eq!(host.installed, None);
    assert_eq!(host.aborts, vec![SetupError::MenuInstall]);
}

#[test]
fn host_has_both_plugins_when_setup_begins() {
    for fault in [Fault::Nothing, Fault::SubmenuBuild, Fault::MenuBuild, Fault::MenuInstall] {
        let mut host = paper_host(fault);
        let _ = start(&mut host);
        assert_eq!(host.plugins_at_setup, Some(vec![Plugin::Shell, Plugin::Dialog]));
        assert_eq!(host.plugins, vec![Plugin::Shell, Plugin::Dialog]);
    }
}

#[test]
fn host_started_twice_shows_the_menu_once() {
    let mut host = paper_host(Fault::Nothing);
    assert_eq!(start(&mut host), Ok(()));
    let first = host.installed.clone();
    assert_eq!(start(&mut host), Ok(()));
    assert_eq!(host.installed, first);
    let menu = host.installed.expect("a menu is installed");
    assert_eq!(menu.items.len(), 1);
    assert_eq!(menu.items[0].entries.len(), 7);
    assert_eq!(host.run_loops_entered, 2);
}

#[test]
fn host_keeps_its_menu_when_a_later_start_fails() {
    let mut host = paper_host(Fault::Nothing);
    assert_eq!(start(&mut host), Ok(()));
    host.fault = Fault::MenuBuild;
    assert_eq!(start(&mut host), Err(SetupError::MenuBuild));
    assert_eq!(host.installed, Some(Menu::application()));
    assert_eq!(host.run_loops_entered, 1);
}
