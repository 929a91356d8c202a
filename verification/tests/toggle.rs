use stock_advisors::toggle::{Toggle, ToggleState};

#[test]
fn flip_alternates() {
    assert_eq!(ToggleState::On.flip(), ToggleState::Off);
    assert_eq!(ToggleState::Off.flip(), ToggleState::On);
    assert_eq!(ToggleState::On.flip().flip(), ToggleState::On);
    assert_eq!(ToggleState::Off.flip().flip(), ToggleState::Off);
}

#[test]
fn is_on_tells_the_states_apart() {
    assert!(ToggleState::On.is_on());
    assert!(!ToggleState::Off.is_on());
}

#[test]
fn suffix_shows_the_state() {
    assert_eq!(ToggleState::On.suffix(), ": ON");
    assert_eq!(ToggleState::Off.suffix(), ": OFF");
}

#[test]
fn toggle_ids_are_the_event_actions() {
    assert_eq!(Toggle::PositionMonitor.id(), "position_monitor");
    assert_eq!(Toggle::NewsMonitor.id(), "news_monitor");
}

#[test]
fn toggle_names_are_what_the_menu_shows() {
    assert_eq!(Toggle::PositionMonitor.name(), "Position Monitor");
    assert_eq!(Toggle::NewsMonitor.name(), "News Monitor");
}

#[test]
fn labels_are_the_four_fixed_texts() {
    assert_eq!(Toggle::PositionMonitor.label(ToggleState::On), "Position Monitor: ON");
    assert_eq!(Toggle::PositionMonitor.label(ToggleState::Off), "Position Monitor: OFF");
    assert_eq!(Toggle::NewsMonitor.label(ToggleState::On), "News Monitor: ON");
    assert_eq!(Toggle::NewsMonitor.label(ToggleState::Off), "News Monitor: OFF");
}

#[test]
fn label_and_state_agree() {
    for toggle in [Toggle::PositionMonitor, Toggle::NewsMonitor] {
        for state in [ToggleState::On, ToggleState::Off] {
            let label = toggle.label(state);
            assert_eq!(label.ends_with(": ON"), state.is_on());
            assert_eq!(label.ends_with(": OFF"), !state.is_on());
            assert_eq!(label.contains("OFF"), !state.is_on());
            assert!(label.starts_with(toggle.name()));
        }
    }
}

#[test]
fn n_flips_follow_parity() {
    let mut state = ToggleState::On;
    for n in 1..=25u32 {
        state = state.flip();
        if n % 2 == 0 {
            assert_eq!(state, ToggleState::On);
        } else {
            assert_eq!(state, ToggleState::Off);
        }
    }
}
