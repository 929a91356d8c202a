//! The tray menu controller: the state behind the menu and the reaction to each
//! activated item.

use vstd::prelude::*;
use vstd::string::*;

use crate::event::{PayloadView, TrayEventPayload, TRAY_EVENT};
use crate::menu::{entries_view, lemma_parse_inverts_id, MenuCommand, MenuEntry, MenuEntryView};
use crate::toggle::{
    lemma_flips_by_parity, lemma_label_agrees_with_state, lemma_labels_differ, reads_on, Toggle,
    ToggleState,
};

verus! {

/// Something that the host is to do after an item of the tray menu was activated.
#[derive(Clone, Debug, PartialEq, Eq)]
pub enum TrayEffect {
    /// Bring the main window to the front, as the command `show_main_window` does.
    ShowMainWindow,
    /// Write `label` on the menu item of `toggle`.
    SetLabel { toggle: Toggle, label: String },
    /// Send `payload` to the frontend on the channel `event`. Whether it arrives is not
    /// looked at.
    Emit { event: String, payload: TrayEventPayload },
    /// End the process with the exit code `code`.
    Exit { code: i32 },
}

/// A `TrayEffect` as a mathematical value.
pub enum TrayEffectView {
    ShowMainWindow,
    SetLabel { toggle: Toggle, label: Seq<char> },
    Emit { event: Seq<char>, payload: PayloadView },
    Exit { code: i32 },
}

impl View for TrayEffect {
    type V = TrayEffectView;

    open spec fn view(&self) -> TrayEffectView {
        match self {
            TrayEffect::ShowMainWindow => TrayEffectView::ShowMainWindow,
            TrayEffect::SetLabel { toggle, label } => TrayEffectView::SetLabel {
                toggle: *toggle,
                label: label@,
            },
            TrayEffect::Emit { event, payload } => TrayEffectView::Emit {
                event: event@,
                payload: payload@,
            },
            TrayEffect::Exit { code } => TrayEffectView::Exit { code: *code },
        }
    }
}

/// A list of effects as mathematical values, in order.
pub open spec fn effects_view(effects: Seq<TrayEffect>) -> Seq<TrayEffectView> {
    effects.map_values(|effect: TrayEffect| effect@)
}

/// What a list of effects sends to the frontend, in order: each channel with the payload
/// sent on it.
pub open spec fn emitted(effects: Seq<TrayEffectView>) -> Seq<(Seq<char>, PayloadView)>
    decreases effects.len(),
{
    if effects.len() == 0 {
        Seq::empty()
    } else {
        let before = emitted(effects.drop_last());
        match effects.last() {
            TrayEffectView::Emit { event, payload } => before.push((event, payload)),
            _ => before,
        }
    }
}

/// How often `id` occurs in `ids`.
pub open spec fn occurrences(ids: Seq<Seq<char>>, id: Seq<char>) -> nat
    decreases ids.len(),
{
    if ids.len() == 0 {
        0
    } else if ids.last() == id {
        occurrences(ids.drop_last(), id) + 1
    } else {
        occurrences(ids.drop_last(), id)
    }
}

/// The state behind the tray menu: for each feature, whether it is on. The labels of the
/// menu are written from this state and never read back.
#[derive(Clone, Copy, Debug, PartialEq, Eq, Structural)]
pub struct TrayController {
    pub position_monitor: ToggleState,
    pub news_monitor: ToggleState,
}

impl TrayController {
    /// The controller at start: both features are on.
    pub open spec fn initial() -> TrayController {
        TrayController { position_monitor: ToggleState::On, news_monitor: ToggleState::On }
    }

    /// The state of `toggle`.
    pub open spec fn state_of(self, toggle: Toggle) -> ToggleState {
        match toggle {
            Toggle::PositionMonitor => self.position_monitor,
            Toggle::NewsMonitor => self.news_monitor,
        }
    }

    /// The text on the menu item of `toggle`.
    pub open spec fn label_of(self, toggle: Toggle) -> Seq<char> {
        toggle.spec_label(self.state_of(toggle))
    }

    /// This controller with `toggle` flipped and the other feature as it was.
    pub open spec fn switched(self, toggle: Toggle) -> TrayController {
        match toggle {
            Toggle::PositionMonitor => TrayController {
                position_monitor: self.position_monitor.flipped(),
                news_monitor: self.news_monitor,
            },
            Toggle::NewsMonitor => TrayController {
                position_monitor: self.position_monitor,
                news_monitor: self.news_monitor.flipped(),
            },
        }
    }

    /// The text on the menu item of `command`.
    pub open spec fn title_of(self, command: MenuCommand) -> Seq<char> {
        match command {
            MenuCommand::ShowWindow => "Show Window"@,
            MenuCommand::RunAnalysis => "Run Analysis..."@,
            MenuCommand::Switch(toggle) => self.label_of(toggle),
            MenuCommand::Quit => "Quit"@,
        }
    }

    /// The menu line of `command`.
    pub open spec fn entry_of(self, command: MenuCommand) -> MenuEntryView {
        MenuEntryView::Item { command, label: self.title_of(command) }
    }

    /// The tray menu, from top to bottom.
    pub open spec fn spec_menu(self) -> Seq<MenuEntryView> {
        seq![
            self.entry_of(MenuCommand::ShowWindow),
            self.entry_of(MenuCommand::RunAnalysis),
            MenuEntryView::Separator,
            self.entry_of(MenuCommand::Switch(Toggle::PositionMonitor)),
            self.entry_of(MenuCommand::Switch(Toggle::NewsMonitor)),
            MenuEntryView::Separator,
            self.entry_of(MenuCommand::Quit),
        ]
    }

    /// The effects of carrying out `command`, given the controller that results from it.
    pub open spec fn effects_of(self, command: MenuCommand) -> Seq<TrayEffectView> {
        match command {
            MenuCommand::ShowWindow => seq![TrayEffectView::ShowMainWindow],
            MenuCommand::RunAnalysis => seq![
                TrayEffectView::Emit {
                    event: TRAY_EVENT@,
                    payload: PayloadView { action: command.spec_id(), value: None },
                },
            ],
            MenuCommand::Switch(toggle) => seq![
                TrayEffectView::SetLabel { toggle, label: self.label_of(toggle) },
                TrayEffectView::Emit {
                    event: TRAY_EVENT@,
                    payload: PayloadView {
                        action: command.spec_id(),
                        value: Some(self.state_of(toggle) == ToggleState::On),
                    },
                },
            ],
            MenuCommand::Quit => seq![TrayEffectView::Exit { code: 0 }],
        }
    }

    /// The controller after the menu item `id` was activated, and what the host is to do
    /// about it. Only the item of a feature changes the state, and only that feature's;
    /// an identifier that names no item changes nothing and causes nothing.
    pub open spec fn step(self, id: Seq<char>) -> (TrayController, Seq<TrayEffectView>) {
        match MenuCommand::spec_parse(id) {
            Some(MenuCommand::Switch(toggle)) => {
                let next = self.switched(toggle);
                (next, next.effects_of(MenuCommand::Switch(toggle)))
            },
            Some(command) => (self, self.effects_of(command)),
            None => (self, Seq::empty()),
        }
    }

    /// The controller after the menu items `ids` were activated one after the other.
    pub open spec fn run(self, ids: Seq<Seq<char>>) -> TrayController
        decreases ids.len(),
    {
        if ids.len() == 0 {
            self
        } else {
            self.run(ids.drop_last()).step(ids.last()).0
        }
    }

    /// The controller at start: both features are on.
    pub fn new() -> (controller: TrayController)
        ensures
            controller == TrayController::initial(),
    {
        TrayController { position_monitor: ToggleState::On, news_monitor: ToggleState::On }
    }

    /// The state of `toggle`.
    pub fn state(&self, toggle: Toggle) -> (state: ToggleState)
        ensures
            state == self.state_of(toggle),
    {
        match toggle {
            Toggle::PositionMonitor => self.position_monitor,
            Toggle::NewsMonitor => self.news_monitor,
        }
    }

    /// The text on the menu item of `toggle`.
    pub fn label(&self, toggle: Toggle) -> (text: String)
        ensures
            text@ == self.label_of(toggle),
    {
        toggle.label(self.state(toggle))
    }

    /// The text on the menu item of `command`.
    pub fn title(&self, command: MenuCommand) -> (text: String)
        ensures
            text@ == self.title_of(command),
    {
        match command {
            MenuCommand::ShowWindow => String::from_str("Show Window"),
            MenuCommand::RunAnalysis => String::from_str("Run Analysis..."),
            MenuCommand::Switch(toggle) => self.label(toggle),
            MenuCommand::Quit => String::from_str("Quit"),
        }
    }

    /// The tray menu, from top to bottom, as it reads in the present state.
    pub fn menu(&self) -> (entries: Vec<MenuEntry>)
        ensures
            entries_view(entries@) == self.spec_menu(),
    {
        let entries = vec![
            self.entry(MenuCommand::ShowWindow),
            self.entry(MenuCommand::RunAnalysis),
            MenuEntry::Separator,
            self.entry(MenuCommand::Switch(Toggle::PositionMonitor)),
            self.entry(MenuCommand::Switch(Toggle::NewsMonitor)),
            MenuEntry::Separator,
            self.entry(MenuCommand::Quit),
        ];
        assert(entries_view(entries@) =~= self.spec_menu());
        entries
    }

    /// Reacts to the activation of the menu item `id`: updates the state and returns what
    /// the host is to do, in order.
    pub fn handle(&mut self, id: &str) -> (effects: Vec<TrayEffect>)
        ensures
            (*final(self), effects_view(effects@)) == old(self).step(id@),
    {
        match MenuCommand::parse(id) {
            Some(command) => {
                if let MenuCommand::Switch(toggle) = command {
                    self.switch(toggle);
                }
                self.effects(command)
            },
            None => {
                let effects: Vec<TrayEffect> = Vec::new();
                assert(effects_view(effects@) =~= Seq::empty());
                effects
            },
        }
    }

    /// The menu line of `command`.
    fn entry(&self, command: MenuCommand) -> (entry: MenuEntry)
        ensures
            entry@ == self.entry_of(command),
    {
        MenuEntry::Item { command, label: self.title(command) }
    }

    /// Flips `toggle`.
    fn switch(&mut self, toggle: Toggle)
        ensures
            *final(self) == old(self).switched(toggle),
    {
        match toggle {
            Toggle::PositionMonitor => {
                self.position_monitor = self.position_monitor.flip();
            },
            Toggle::NewsMonitor => {
                self.news_monitor = self.news_monitor.flip();
            },
        }
    }

    /// The effects of carrying out `command`, given the controller that results from it.
    fn effects(&self, command: MenuCommand) -> (effects: Vec<TrayEffect>)
        ensures
            effects_view(effects@) == self.effects_of(command),
    {
        let effects = match command {
            MenuCommand::ShowWindow => vec![TrayEffect::ShowMainWindow],
            MenuCommand::RunAnalysis => vec![
                TrayEffect::Emit {
                    event: String::from_str(TRAY_EVENT),
                    payload: TrayEventPayload {
                        action: String::from_str(command.id()),
                        value: None,
                    },
                },
            ],
            MenuCommand::Switch(toggle) => vec![
                TrayEffect::SetLabel { toggle, label: self.label(toggle) },
                TrayEffect::Emit {
                    event: String::from_str(TRAY_EVENT),
                    payload: TrayEventPayload {
                        action: String::from_str(command.id()),
                        value: Some(self.state(toggle).is_on()),
                    },
                },
            ],
            MenuCommand::Quit => vec![TrayEffect::Exit { code: 0 }],
        };
        assert(effects_view(effects@) =~= self.effects_of(command));
        effects
    }
}

/// Activating the item of a feature flips that feature and no other. The host is told
/// to write the new label on the item, and exactly one event goes to the frontend: on
/// the channel `TRAY_EVENT`, naming the feature, with the value `true` exactly when the
/// label now reads as switched on.
pub proof fn lemma_toggle_activation(controller: TrayController, toggle: Toggle)
    ensures
        ({
            let (next, effects) = controller.step(toggle.spec_id());
            &&& next.state_of(toggle) == controller.state_of(toggle).flipped()
            &&& forall|other: Toggle|
                other != toggle ==> next.state_of(other) == controller.state_of(other)
            &&& effects.len() == 2
            &&& effects[0] == TrayEffectView::SetLabel { toggle, label: next.label_of(toggle) }
            &&& emitted(effects) == seq![
                (
                    TRAY_EVENT@,
                    PayloadView {
                        action: toggle.spec_id(),
                        value: Some(reads_on(next.label_of(toggle))),
                    },
                ),
            ]
        }),
{
    lemma_parse_inverts_id(MenuCommand::Switch(toggle));
    let (next, effects) = controller.step(toggle.spec_id());
    lemma_label_agrees_with_state(toggle, next.state_of(toggle));
    assert(effects.drop_last() =~= seq![effects[0]]);
    assert(effects.drop_last().drop_last() =~= Seq::<TrayEffectView>::empty());
    reveal_with_fuel(emitted, 3);
}

/// Activating "run_analysis" changes nothing and sends one event that names the action
/// and carries no value, whatever the state.
pub proof fn lemma_run_analysis(controller: TrayController)
    ensures
        ({
            let (next, effects) = controller.step("run_analysis"@);
            &&& next == controller
            &&& effects == seq![
                TrayEffectView::Emit {
                    event: TRAY_EVENT@,
                    payload: PayloadView { action: "run_analysis"@, value: None },
                },
            ]
            &&& emitted(effects) == seq![
                (TRAY_EVENT@, PayloadView { action: "run_analysis"@, value: None }),
            ]
        }),
{
    lemma_parse_inverts_id(MenuCommand::RunAnalysis);
    let effects = controller.step("run_analysis"@).1;
    assert(effects.drop_last() =~= Seq::<TrayEffectView>::empty());
    reveal_with_fuel(emitted, 2);
}

/// Activating "quit" ends the process with exit code 0 and does nothing else: the state
/// stays, no label is written, nothing is sent to the frontend.
pub proof fn lemma_quit(controller: TrayController)
    ensures
        ({
            let (next, effects) = controller.step("quit"@);
            &&& next == controller
            &&& effects == seq![TrayEffectView::Exit { code: 0 }]
            &&& emitted(effects) == Seq::<(Seq<char>, PayloadView)>::empty()
        }),
{
    lemma_parse_inverts_id(MenuCommand::Quit);
    let effects = controller.step("quit"@).1;
    assert(effects.drop_last() =~= Seq::<TrayEffectView>::empty());
    reveal_with_fuel(emitted, 2);
}

/// Activating "show_window" asks for the main window and does nothing else.
pub proof fn lemma_show_window(controller: TrayController)
    ensures
        controller.step("show_window"@) == (controller, seq![TrayEffectView::ShowMainWindow]),
{
    lemma_parse_inverts_id(MenuCommand::ShowWindow);
}

/// Over any run of activations, a feature is flipped once for each activation of its
/// own item and by nothing else.
pub proof fn lemma_state_after_run(controller: TrayController, toggle: Toggle, ids: Seq<Seq<char>>)
    ensures
        controller.run(ids).state_of(toggle) == controller.state_of(toggle).after(
            occurrences(ids, toggle.spec_id()),
        ),
    decreases ids.len(),
{
    if ids.len() > 0 {
        lemma_state_after_run(controller, toggle, ids.drop_last());
        lemma_parse_inverts_id(MenuCommand::Switch(toggle));
    }
}

/// From the start, when the item of a feature was activated an even number of times,
/// its label is the text it began with; when an odd number of times, it is the other
/// text. What else was activated in between does not matter.
pub proof fn lemma_label_by_parity(toggle: Toggle, ids: Seq<Seq<char>>)
    ensures
        ({
            let count = occurrences(ids, toggle.spec_id());
            let label = TrayController::initial().run(ids).label_of(toggle);
            &&& TrayController::initial().label_of(toggle) == toggle.spec_label(ToggleState::On)
            &&& count % 2 == 0 ==> label == toggle.spec_label(ToggleState::On)
            &&& count % 2 == 1 ==> label == toggle.spec_label(ToggleState::Off)
            &&& toggle.spec_label(ToggleState::On) != toggle.spec_label(ToggleState::Off)
        }),
{
    lemma_state_after_run(TrayController::initial(), toggle, ids);
    lemma_flips_by_parity(ToggleState::On, occurrences(ids, toggle.spec_id()));
    lemma_labels_differ(toggle);
}

} // verus!
