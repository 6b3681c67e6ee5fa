use nfc_reader::error::NfcError;
use nfc_reader::session::{presence_detected, select_reader, STATE_PRESENT, STATE_UNAWARE};

#[test]
fn empty_enumeration_yields_no_reader_found() {
    let names: Vec<String> = vec![];
    match select_reader(&names) {
        Err(NfcError::NoReaderFound) => {}
        _ => panic!("an empty list must fail with NoReaderFound"),
    }
}

#[test]
fn no_reader_found_message() {
    let names: Vec<String> = vec![];
    let e = select_reader(&names).err().expect("must fail");
    assert_eq!(e.message(), "No reader found");
}

#[test]
fn first_reader_wins() {
    let names = vec!["ACR122U".to_string(), "Other".to_string()];
    assert_eq!(select_reader(&names).ok(), Some("ACR122U".to_string()));
}

#[test]
fn appended_readers_do_not_change_the_selection() {
    let mut names = vec!["ACR122U".to_string(), "Other".to_string()];
    let first = select_reader(&names).ok();
    names.push("Third".to_string());
    names.push("Fourth".to_string());
    assert_eq!(select_reader(&names).ok(), first);
    assert_eq!(select_reader(&names).ok(), Some("ACR122U".to_string()));
}

#[test]
fn presence_needs_the_present_bit() {
    assert!(presence_detected(STATE_PRESENT));
    assert!(presence_detected(STATE_PRESENT | 0x0002));
    assert!(presence_detected(0xFFFF_FFFF));
    assert!(!presence_detected(STATE_UNAWARE));
    assert!(!presence_detected(0x0010));
    assert!(!presence_detected(0x0002));
}
