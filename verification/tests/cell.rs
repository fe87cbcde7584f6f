use onion_lifecycle::address::{AddressMatcher, OnionAddress};
use onion_lifecycle::cell::address_cell;

fn address(text: &str) -> OnionAddress {
    let matcher = AddressMatcher::new().expect("the address pattern compiles");
    OnionAddress::parse(&matcher, text).expect("an address")
}

#[test]
fn a_new_cell_is_unset() {
    let (_writer, reader) = address_cell();
    assert_eq!(reader.get(), None);
    assert_eq!(reader.clone().get(), None);
}

#[test]
fn what_the_writer_publishes_every_reader_sees() {
    let (mut writer, reader) = address_cell();
    let early = reader.clone();
    let first = address(&format!("{}.onion", "a".repeat(56)));
    writer.publish(first.clone());
    let late = writer.reader();
    assert_eq!(reader.get(), Some(first.clone()));
    assert_eq!(early.get(), Some(first.clone()));
    assert_eq!(late.get(), Some(first.clone()));
    assert_eq!(late.clone().get(), Some(first));
}

#[test]
fn a_read_does_not_unset_the_cell() {
    let (mut writer, reader) = address_cell();
    let first = address(&format!("{}.onion", "c".repeat(56)));
    writer.publish(first.clone());
    for _ in 0..3 {
        assert_eq!(reader.get(), Some(first.clone()));
    }
}

#[test]
fn a_later_publish_replaces_the_address() {
    let (mut writer, reader) = address_cell();
    let first = address(&format!("{}.onion", "a".repeat(56)));
    let second = address(&format!("{}.onion", "b".repeat(56)));
    writer.publish(first);
    writer.publish(second.clone());
    assert_eq!(reader.get(), Some(second));
}

#[test]
fn two_cells_do_not_share_their_content() {
    let (mut writer, reader) = address_cell();
    let (_other_writer, other_reader) = address_cell();
    writer.publish(address(&format!("{}.onion", "d".repeat(56))));
    assert!(reader.get().is_some());
    assert_eq!(other_reader.get(), None);
}
