use sqll::State;

#[test]
fn state_row_is_row() {
    assert!(State::Row.is_row());
    assert!(!State::Row.is_done());
}
