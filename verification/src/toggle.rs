//! The two on/off features of the tray menu and how their menu items read.

use vstd::prelude::*;
use vstd::string::*;

use crate::text::ends_with;

verus! {

/// Whether a feature is switched on.
#[derive(Clone, Copy, Debug, PartialEq, Eq, Structural)]
pub enum ToggleState {
    On,
    Off,
}

impl ToggleState {
    /// The other state.
    pub open spec fn flipped(self) -> ToggleState {
        match self {
            ToggleState::On => ToggleState::Off,
            ToggleState::Off => ToggleState::On,
        }
    }

    /// The state after `n` flips.
    pub open spec fn after(self, n: nat) -> ToggleState
        decreases n,
    {
        if n == 0 {
            self
        } else {
            self.after((n - 1) as nat).flipped()
        }
    }

    /// The end of a label that shows this state.
    pub open spec fn spec_suffix(self) -> Seq<char> {
        match self {
            ToggleState::On => ": ON"@,
            ToggleState::Off => ": OFF"@,
        }
    }

    /// The other state.
    pub fn flip(self) -> (next: ToggleState)
        ensures
            next == self.flipped(),
    {
        match self {
            ToggleState::On => ToggleState::Off,
            ToggleState::Off => ToggleState::On,
        }
    }

    /// Whether the feature is on.
    pub fn is_on(self) -> (on: bool)
        ensures
            on == (self == ToggleState::On),
    {
        match self {
            ToggleState::On => true,
            ToggleState::Off => false,
        }
    }

    /// The end of a label that shows this state.
    pub fn suffix(self) -> (text: &'static str)
        ensures
            text@ == self.spec_suffix(),
    {
        match self {
            ToggleState::On => ": ON",
            ToggleState::Off => ": OFF",
        }
    }
}

/// A feature that the tray menu switches on and off.
#[derive(Clone, Copy, Debug, PartialEq, Eq, Structural)]
pub enum Toggle {
    PositionMonitor,
    NewsMonitor,
}

impl Toggle {
    /// The identifier of the menu item, which is also the action named in its events.
    pub open spec fn spec_id(self) -> Seq<char> {
        match self {
            Toggle::PositionMonitor => "position_monitor"@,
            Toggle::NewsMonitor => "news_monitor"@,
        }
    }

    /// The name of the feature as the menu shows it.
    pub open spec fn spec_name(self) -> Seq<char> {
        match self {
            Toggle::PositionMonitor => "Position Monitor"@,
            Toggle::NewsMonitor => "News Monitor"@,
        }
    }

    /// The text of the menu item while the feature is in `state`.
    pub open spec fn spec_label(self, state: ToggleState) -> Seq<char> {
        self.spec_name() + state.spec_suffix()
    }

    /// The identifier of the menu item, which is also the action named in its events.
    pub fn id(self) -> (text: &'static str)
        ensures
            text@ == self.spec_id(),
    {
        match self {
            Toggle::PositionMonitor => "position_monitor",
            Toggle::NewsMonitor => "news_monitor",
        }
    }

    /// The name of the feature as the menu shows it.
    pub fn name(self) -> (text: &'static str)
        ensures
            text@ == self.spec_name(),
    {
        match self {
            Toggle::PositionMonitor => "Position Monitor",
            Toggle::NewsMonitor => "News Monitor",
        }
    }

    /// The text of the menu item while the feature is in `state`.
    pub fn label(self, state: ToggleState) -> (text: String)
        ensures
            text@ == self.spec_label(state),
    {
        String::from_str(self.name()).concat(state.suffix())
    }
}

/// Whether a label reads as switched on, that is, ends with `": ON"`.
pub open spec fn reads_on(label: Seq<char>) -> bool {
    ends_with(label, ": ON"@)
}

/// Flipping twice gives the state back.
pub proof fn lemma_flip_twice(state: ToggleState)
    ensures
        state.flipped().flipped() == state,
        state.flipped() != state,
{
}

/// After an even number of flips a state is what it was, after an odd number it is the
/// other one.
pub proof fn lemma_flips_by_parity(state: ToggleState, n: nat)
    ensures
        n % 2 == 0 ==> state.after(n) == state,
        n % 2 == 1 ==> state.after(n) == state.flipped(),
    decreases n,
{
    if n > 0 {
        lemma_flips_by_parity(state, (n - 1) as nat);
    }
}

/// A label reads as switched on exactly when it was written for the state `On`, so the
/// text of a menu item and the state behind it always agree.
pub proof fn lemma_label_agrees_with_state(toggle: Toggle, state: ToggleState)
    ensures
        reads_on(toggle.spec_label(state)) <==> state == ToggleState::On,
{
    reveal_strlit(": ON");
    reveal_strlit(": OFF");
    let name = toggle.spec_name();
    let label = toggle.spec_label(state);
    match state {
        ToggleState::On => {
            assert(label.subrange(label.len() - 4, label.len() as int) =~= ": ON"@);
        },
        ToggleState::Off => {
            let tail = label.subrange(label.len() - 4, label.len() as int);
            assert(tail[3] == 'F');
            assert(": ON"@[3] == 'N');
        },
    }
}

/// The two labels of a feature differ.
pub proof fn lemma_labels_differ(toggle: Toggle)
    ensures
        toggle.spec_label(ToggleState::On) != toggle.spec_label(ToggleState::Off),
{
    lemma_label_agrees_with_state(toggle, ToggleState::On);
    lemma_label_agrees_with_state(toggle, ToggleState::Off);
}

} // verus!
