use nfc_reader::endpoint::http_response;
use nfc_reader::machine::{next_action, run_machine, step, Action, Event, Stage};

fn success_events(reader: &str, response: Vec<u8>) -> Vec<Event> {
    vec![
        Event::Established(Ok(())),
        Event::ReadersListed(Ok(vec![reader.to_string()])),
        Event::StatusChanged(Ok(0x0020)),
        Event::Connected(Ok(())),
        Event::Transmitted(Ok(response)),
    ]
}

#[test]
fn end_to_end_success_returns_200_with_hex_body() {
    let stage = run_machine(&success_events("Reader A", vec![0x12, 0x34, 0x56, 0x78]));
    assert_eq!(http_response(&stage), Some((200, "12345678".to_string())));
}

#[test]
fn empty_enumeration_returns_500_no_reader() {
    let events = vec![Event::Established(Ok(())), Event::ReadersListed(Ok(vec![]))];
    let (status, body) = http_response(&run_machine(&events)).expect("terminal");
    assert_eq!(status, 500);
    assert!(body.contains("No reader found"));
}

#[test]
fn transmit_timeout_returns_500_never_200() {
    let events = vec![
        Event::Established(Ok(())),
        Event::ReadersListed(Ok(vec!["Reader A".to_string()])),
        Event::StatusChanged(Ok(0x0020)),
        Event::Connected(Ok(())),
        Event::Transmitted(Err("timeout".to_string())),
    ];
    let (status, body) = http_response(&run_machine(&events)).expect("terminal");
    assert_eq!(status, 500);
    assert!(status != 200);
    assert!(body.contains("Card::transmit failed: timeout"));
}

#[test]
fn establish_failure_message_names_the_stage() {
    let events = vec![Event::Established(Err("service down".to_string()))];
    let (status, body) = http_response(&run_machine(&events)).expect("terminal");
    assert_eq!(status, 500);
    assert_eq!(body, "Context::establish failed: service down");
}

#[test]
fn enumeration_failure_message_names_the_stage() {
    let events = vec![
        Event::Established(Ok(())),
        Event::ReadersListed(Err("query error".to_string())),
    ];
    let (status, body) = http_response(&run_machine(&events)).expect("terminal");
    assert_eq!(status, 500);
    assert_eq!(body, "Context::list_readers failed: query error");
}

#[test]
fn status_query_failure_message_names_the_stage() {
    let events = vec![
        Event::Established(Ok(())),
        Event::ReadersListed(Ok(vec!["Reader A".to_string()])),
        Event::StatusChanged(Err("driver gone".to_string())),
    ];
    let (status, body) = http_response(&run_machine(&events)).expect("terminal");
    assert_eq!(status, 500);
    assert_eq!(body, "Context::get_status_change failed: driver gone");
}

#[test]
fn connect_failure_message_names_the_stage() {
    let events = vec![
        Event::Established(Ok(())),
        Event::ReadersListed(Ok(vec!["Reader A".to_string()])),
        Event::StatusChanged(Ok(0x0020)),
        Event::Connected(Err("card removed".to_string())),
    ];
    let (status, body) = http_response(&run_machine(&events)).expect("terminal");
    assert_eq!(status, 500);
    assert_eq!(body, "Context::connect failed: card removed");
}

#[test]
fn polling_advances_until_the_present_bit_appears() {
    let mut state = Stage::Idle;
    state = step(state, &Event::Established(Ok(())));
    state = step(state, &Event::ReadersListed(Ok(vec!["Reader A".to_string()])));
    match next_action(&state) {
        Some(Action::QueryStatusChange(reader, current)) => {
            assert_eq!(reader, "Reader A");
            assert_eq!(current, 0x0000);
        }
        _ => panic!("a selected reader must poll for presence"),
    }

    // An absent card keeps polling, against the newly observed state.
    state = step(state, &Event::StatusChanged(Ok(0x0010)));
    match next_action(&state) {
        Some(Action::QueryStatusChange(reader, current)) => {
            assert_eq!(reader, "Reader A");
            assert_eq!(current, 0x0010);
        }
        _ => panic!("an absent card must keep the request polling"),
    }

    // The first state that includes the present bit ends the polling: the
    // next pending call is the card connection, not another query.
    state = step(state, &Event::StatusChanged(Ok(0x0022)));
    match next_action(&state) {
        Some(Action::Connect(reader)) => assert_eq!(reader, "Reader A"),
        _ => panic!("a present card must be connected next"),
    }
}

#[test]
fn connected_card_gets_the_fixed_serial_command() {
    let mut state = Stage::Idle;
    state = step(state, &Event::Established(Ok(())));
    state = step(state, &Event::ReadersListed(Ok(vec!["Reader A".to_string()])));
    state = step(state, &Event::StatusChanged(Ok(0x0020)));
    state = step(state, &Event::Connected(Ok(())));
    match next_action(&state) {
        Some(Action::Transmit(command)) => {
            assert_eq!(command, vec![0xFF, 0xCA, 0x00, 0x00, 0x00]);
        }
        _ => panic!("a connected card must receive the serial-number command"),
    }
}

#[test]
fn terminal_stages_absorb_further_events() {
    let success = run_machine(&success_events("Reader A", vec![0xAB]));
    let after = step(success, &Event::StatusChanged(Ok(0x0020)));
    assert_eq!(http_response(&after), Some((200, "AB".to_string())));

    let failed = run_machine(&vec![Event::Established(Err("down".to_string()))]);
    let after = step(failed, &Event::Established(Ok(())));
    assert_eq!(
        http_response(&after),
        Some((500, "Context::establish failed: down".to_string()))
    );
}

#[test]
fn running_request_has_no_response_yet() {
    let mut state = Stage::Idle;
    assert_eq!(http_response(&state), None);
    state = step(state, &Event::Established(Ok(())));
    assert_eq!(http_response(&state), None);
    state = step(state, &Event::ReadersListed(Ok(vec!["Reader A".to_string()])));
    assert_eq!(http_response(&state), None);
    state = step(state, &Event::StatusChanged(Ok(0x0010)));
    assert_eq!(http_response(&state), None);
}

#[test]
fn unanswered_stages_ignore_mismatched_events() {
    let state = Stage::Idle;
    let state = step(state, &Event::Transmitted(Ok(vec![0x01])));
    match next_action(&state) {
        Some(Action::Establish) => {}
        _ => panic!("a mismatched event must leave the stage unchanged"),
    }
}
