use stock_advisors::window::{on_window_event, show_main_window, WindowEvent, WindowOp, MAIN_WINDOW};

#[test]
fn main_window_identifier() {
    assert_eq!(MAIN_WINDOW, "main");
}

#[test]
fn close_request_hides_and_prevents_the_close() {
    assert_eq!(
        on_window_event(WindowEvent::CloseRequested),
        vec![WindowOp::Hide, WindowOp::PreventClose]
    );
}

#[test]
fn close_request_is_always_answered_the_same_way() {
    for _ in 0..5 {
        let ops = on_window_event(WindowEvent::CloseRequested);
        assert!(ops.contains(&WindowOp::PreventClose));
        assert!(ops.contains(&WindowOp::Hide));
        assert!(!ops.contains(&WindowOp::Show));
    }
}

#[test]
fn other_window_events_cause_nothing() {
    assert_eq!(on_window_event(WindowEvent::Other), Vec::<WindowOp>::new());
}

#[test]
fn window_hidden_by_a_close_request_can_be_shown_again() {
    let mut visible = true;
    let mut focused = true;
    let mut destroyed = true;
    for op in on_window_event(WindowEvent::CloseRequested) {
        match op {
            WindowOp::Show => visible = true,
            WindowOp::SetFocus => focused = true,
            WindowOp::Hide => {
                visible = false;
                focused = false;
            }
            WindowOp::PreventClose => destroyed = false,
        }
    }
    assert!(!destroyed);
    assert!(!visible);
    assert!(!focused);
    for op in show_main_window(!destroyed) {
        match op {
            WindowOp::Show => visible = true,
            WindowOp::SetFocus => focused = true,
            WindowOp::Hide => visible = false,
            WindowOp::PreventClose => {}
        }
    }
    assert!(visible);
    assert!(focused);
}
