use stock_advisors::menu::{MenuCommand, MenuEntry};
use stock_advisors::toggle::{Toggle, ToggleState};
use stock_advisors::tray::TrayController;

fn all_commands() -> Vec<MenuCommand> {
    vec![
        MenuCommand::ShowWindow,
        MenuCommand::RunAnalysis,
        MenuCommand::Switch(Toggle::PositionMonitor),
        MenuCommand::Switch(Toggle::NewsMonitor),
        MenuCommand::Quit,
    ]
}

fn item(command: MenuCommand, label: &str) -> MenuEntry {
    MenuEntry::Item { command, label: label.to_string() }
}

#[test]
fn command_ids_are_fixed() {
    assert_eq!(MenuCommand::ShowWindow.id(), "show_window");
    assert_eq!(MenuCommand::RunAnalysis.id(), "run_analysis");
    assert_eq!(MenuCommand::Switch(Toggle::PositionMonitor).id(), "position_monitor");
    assert_eq!(MenuCommand::Switch(Toggle::NewsMonitor).id(), "news_monitor");
    assert_eq!(MenuCommand::Quit.id(), "quit");
}

#[test]
fn parse_finds_each_command_from_its_id() {
    for command in all_commands() {
        assert_eq!(MenuCommand::parse(command.id()), Some(command));
    }
}

#[test]
fn parse_knows_the_five_ids() {
    assert_eq!(MenuCommand::parse("show_window"), Some(MenuCommand::ShowWindow));
    assert_eq!(MenuCommand::parse("run_analysis"), Some(MenuCommand::RunAnalysis));
    assert_eq!(
        MenuCommand::parse("position_monitor"),
        Some(MenuCommand::Switch(Toggle::PositionMonitor))
    );
    assert_eq!(MenuCommand::parse("news_monitor"), Some(MenuCommand::Switch(Toggle::NewsMonitor)));
    assert_eq!(MenuCommand::parse("quit"), Some(MenuCommand::Quit));
}

#[test]
fn parse_rejects_everything_else() {
    let unknown = vec![
        "",
        " ",
        "Quit",
        "QUIT",
        "quit ",
        " quit",
        "qui",
        "quitt",
        "show-window",
        "show_window\n",
        "run_analysis...",
        "Position Monitor: ON",
        "position_monitor: ON",
        "news",
        "tray-event",
        "main",
        "\u{1f4c8}",
    ];
    for id in unknown {
        assert_eq!(MenuCommand::parse(id), None);
    }
}

#[test]
fn ids_are_pairwise_different() {
    let commands = all_commands();
    for (i, a) in commands.iter().enumerate() {
        for (j, b) in commands.iter().enumerate() {
            assert_eq!(a.id() == b.id(), i == j);
        }
    }
}

#[test]
fn menu_at_start_is_the_fixed_layout() {
    let expected = vec![
        item(MenuCommand::ShowWindow, "Show Window"),
        item(MenuCommand::RunAnalysis, "Run Analysis..."),
        MenuEntry::Separator,
        item(MenuCommand::Switch(Toggle::PositionMonitor), "Position Monitor: ON"),
        item(MenuCommand::Switch(Toggle::NewsMonitor), "News Monitor: ON"),
        MenuEntry::Separator,
        item(MenuCommand::Quit, "Quit"),
    ];
    assert_eq!(TrayController::new().menu(), expected);
}

#[test]
fn menu_follows_the_state() {
    let controller = TrayController {
        position_monitor: ToggleState::Off,
        news_monitor: ToggleState::On,
    };
    let expected = vec![
        item(MenuCommand::ShowWindow, "Show Window"),
        item(MenuCommand::RunAnalysis, "Run Analysis..."),
        MenuEntry::Separator,
        item(MenuCommand::Switch(Toggle::PositionMonitor), "Position Monitor: OFF"),
        item(MenuCommand::Switch(Toggle::NewsMonitor), "News Monitor: ON"),
        MenuEntry::Separator,
        item(MenuCommand::Quit, "Quit"),
    ];
    assert_eq!(controller.menu(), expected);

    let controller = TrayController {
        position_monitor: ToggleState::Off,
        news_monitor: ToggleState::Off,
    };
    assert_eq!(
        controller.menu()[4],
        item(MenuCommand::Switch(Toggle::NewsMonitor), "News Monitor: OFF")
    );
}

#[test]
fn titles_of_the_commands() {
    let controller = TrayController::new();
    assert_eq!(controller.title(MenuCommand::ShowWindow), "Show Window");
    assert_eq!(controller.title(MenuCommand::RunAnalysis), "Run Analysis...");
    assert_eq!(controller.title(MenuCommand::Quit), "Quit");
    assert_eq!(
        controller.title(MenuCommand::Switch(Toggle::PositionMonitor)),
        "Position Monitor: ON"
    );
    assert_eq!(controller.title(MenuCommand::Switch(Toggle::NewsMonitor)), "News Monitor: ON");
}
