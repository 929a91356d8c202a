//! The items of the tray menu.

use vstd::prelude::*;
use vstd::string::*;

use crate::text::same_text;
use crate::toggle::Toggle;

verus! {

/// What an item of the tray menu stands for.
#[derive(Clone, Copy, Debug, PartialEq, Eq, Structural)]
pub enum MenuCommand {
    ShowWindow,
    RunAnalysis,
    Switch(Toggle),
    Quit,
}

impl MenuCommand {
    /// The identifier under which the host reports an activation of the item.
    pub open spec fn spec_id(self) -> Seq<char> {
        match self {
            MenuCommand::ShowWindow => "show_window"@,
            MenuCommand::RunAnalysis => "run_analysis"@,
            MenuCommand::Switch(toggle) => toggle.spec_id(),
            MenuCommand::Quit => "quit"@,
        }
    }

    /// The command that an identifier names, if it names one.
    pub open spec fn spec_parse(id: Seq<char>) -> Option<MenuCommand> {
        if id == "show_window"@ {
            Some(MenuCommand::ShowWindow)
        } else if id == "run_analysis"@ {
            Some(MenuCommand::RunAnalysis)
        } else if id == "position_monitor"@ {
            Some(MenuCommand::Switch(Toggle::PositionMonitor))
        } else if id == "news_monitor"@ {
            Some(MenuCommand::Switch(Toggle::NewsMonitor))
        } else if id == "quit"@ {
            Some(MenuCommand::Quit)
        } else {
            None
        }
    }

    /// The identifier under which the host reports an activation of the item.
    pub fn id(self) -> (text: &'static str)
        ensures
            text@ == self.spec_id(),
    {
        match self {
            MenuCommand::ShowWindow => "show_window",
            MenuCommand::RunAnalysis => "run_analysis",
            MenuCommand::Switch(toggle) => toggle.id(),
            MenuCommand::Quit => "quit",
        }
    }

    /// The command that `id` names. An identifier that names none gives `None`.
    pub fn parse(id: &str) -> (command: Option<MenuCommand>)
        ensures
            command == MenuCommand::spec_parse(id@),
    {
        if same_text(id, "show_window") {
            Some(MenuCommand::ShowWindow)
        } else if same_text(id, "run_analysis") {
            Some(MenuCommand::RunAnalysis)
        } else if same_text(id, "position_monitor") {
            Some(MenuCommand::Switch(Toggle::PositionMonitor))
        } else if same_text(id, "news_monitor") {
            Some(MenuCommand::Switch(Toggle::NewsMonitor))
        } else if same_text(id, "quit") {
            Some(MenuCommand::Quit)
        } else {
            None
        }
    }
}

/// One line of the tray menu, from top to bottom.
#[derive(Clone, Debug, PartialEq, Eq)]
pub enum MenuEntry {
    Item { command: MenuCommand, label: String },
    Separator,
}

/// A `MenuEntry` as a mathematical value.
pub enum MenuEntryView {
    Item { command: MenuCommand, label: Seq<char> },
    Separator,
}

impl View for MenuEntry {
    type V = MenuEntryView;

    open spec fn view(&self) -> MenuEntryView {
        match self {
            MenuEntry::Item { command, label } => MenuEntryView::Item {
                command: *command,
                label: label@,
            },
            MenuEntry::Separator => MenuEntryView::Separator,
        }
    }
}

/// The entries of a menu as mathematical values, in order.
pub open spec fn entries_view(entries: Seq<MenuEntry>) -> Seq<MenuEntryView> {
    entries.map_values(|entry: MenuEntry| entry@)
}

/// The identifiers of the five commands are pairwise different: each command is found
/// again from its own identifier, and an identifier names at most the command that
/// carries it.
pub proof fn lemma_parse_inverts_id(command: MenuCommand)
    ensures
        MenuCommand::spec_parse(command.spec_id()) == Some(command),
        forall|id: Seq<char>|
            MenuCommand::spec_parse(id) == Some(command) ==> id == command.spec_id(),
{
    lemma_ids_differ();
}

/// No two of the five identifiers are the same text.
proof fn lemma_ids_differ()
    ensures
        "show_window"@ != "run_analysis"@,
        "show_window"@ != "position_monitor"@,
        "show_window"@ != "news_monitor"@,
        "show_window"@ != "quit"@,
        "run_analysis"@ != "position_monitor"@,
        "run_analysis"@ != "news_monitor"@,
        "run_analysis"@ != "quit"@,
        "position_monitor"@ != "news_monitor"@,
        "position_monitor"@ != "quit"@,
        "news_monitor"@ != "quit"@,
{
    reveal_strlit("show_window");
    reveal_strlit("run_analysis");
    reveal_strlit("position_monitor");
    reveal_strlit("news_monitor");
    reveal_strlit("quit");
    assert("show_window"@.len() == 11);
    assert("run_analysis"@.len() == 12);
    assert("position_monitor"@.len() == 16);
    assert("news_monitor"@.len() == 12);
    assert("quit"@.len() == 4);
    assert("run_analysis"@[0] == 'r');
    assert("news_monitor"@[0] == 'n');
}

} // verus!
