use debug_core::text_entry::{parse_address_text, parse_line_number_text};
use debug_core::{BreakpointSet, WatchpointSet};

#[test]
fn toggle_twice_restores_set() {
    let mut set = BreakpointSet::new();
    set.add(3);
    set.add(7);
    set.toggle(5);
    set.toggle(5);
    assert_eq!(set.lines(), &vec![3, 7]);
    set.toggle(3);
    assert_eq!(set.lines(), &vec![7]);
    set.toggle(3);
    let mut lines = set.lines().clone();
    lines.sort();
    assert_eq!(lines, vec![3, 7]);
}

#[test]
fn adding_present_line_keeps_size() {
    let mut set = BreakpointSet::new();
    set.add(4);
    set.add(4);
    assert_eq!(set.len(), 1);
    let mut entry = String::from("4");
    set.add_from_text(&mut entry);
    assert_eq!(set.lines(), &vec![4]);
    assert!(entry.is_empty());
}

#[test]
fn malformed_line_entry_is_dropped() {
    let mut set = BreakpointSet::new();
    set.add(2);
    let mut entry = String::from("abc");
    set.add_from_text(&mut entry);
    assert_eq!(set.lines(), &vec![2]);
    assert_eq!(entry, "");
}

#[test]
fn line_entry_adds_line() {
    let mut set = BreakpointSet::new();
    let mut entry = String::from("12");
    set.add_from_text(&mut entry);
    assert!(set.contains(12));
    assert_eq!(entry, "");
}

#[test]
fn remove_absent_line_is_noop() {
    let mut set = BreakpointSet::new();
    set.add(1);
    set.remove(9);
    assert_eq!(set.lines(), &vec![1]);
    set.remove(1);
    assert_eq!(set.len(), 0);
}

#[test]
fn line_number_parsing() {
    assert_eq!(parse_line_number_text("0"), Some(0));
    assert_eq!(parse_line_number_text("42"), Some(42));
    assert_eq!(parse_line_number_text("+7"), Some(7));
    assert_eq!(parse_line_number_text("007"), Some(7));
    assert_eq!(parse_line_number_text(""), None);
    assert_eq!(parse_line_number_text("+"), None);
    assert_eq!(parse_line_number_text("-1"), None);
    assert_eq!(parse_line_number_text(" 5"), None);
    assert_eq!(parse_line_number_text("5a"), None);
    assert_eq!(parse_line_number_text("ff"), None);
    let max = usize::MAX.to_string();
    assert_eq!(parse_line_number_text(&max), Some(usize::MAX));
    let over = format!("{}0", usize::MAX);
    assert_eq!(parse_line_number_text(&over), None);
}

#[test]
fn address_parsing() {
    assert_eq!(parse_address_text("00ff"), Some(0x00ff));
    assert_eq!(parse_address_text("FF"), Some(0xff));
    assert_eq!(parse_address_text("aB12"), Some(0xab12));
    assert_eq!(parse_address_text("ffff"), Some(0xffff));
    assert_eq!(parse_address_text("+10"), Some(0x10));
    assert_eq!(parse_address_text("10000"), None);
    assert_eq!(parse_address_text("0x10"), None);
    assert_eq!(parse_address_text("g"), None);
    assert_eq!(parse_address_text(""), None);
    assert_eq!(parse_address_text("-1"), None);
}

#[test]
fn watchpoint_round_trip() {
    let mut set = WatchpointSet::new();
    let mut entry = String::from("00ff");
    set.add_from_text(&mut entry);
    assert_eq!(entry, "");
    let mut again = String::from("FF");
    set.add_from_text(&mut again);
    let list = set.watch_list(|a| if a == 0x00ff { 0x2a } else { 0 });
    assert_eq!(list, vec![(0x00ff, 0x2a)]);
    set.remove(0x00ff);
    assert!(set.watch_list(|_| 0).is_empty());
}

#[test]
fn malformed_address_entry_is_dropped() {
    let mut set = WatchpointSet::new();
    let mut entry = String::from("xyz");
    set.add_from_text(&mut entry);
    assert_eq!(set.len(), 0);
    assert_eq!(entry, "");
}

#[test]
fn watch_list_reads_each_address_once() {
    let mut set = WatchpointSet::new();
    set.add(0x10);
    set.add(0x20);
    set.add(0x10);
    let reads = std::cell::RefCell::new(Vec::new());
    let list = set.watch_list(|a| {
        reads.borrow_mut().push(a);
        (a >> 4) as u8
    });
    assert_eq!(list, vec![(0x10, 1), (0x20, 2)]);
    assert_eq!(reads.into_inner(), vec![0x10, 0x20]);
}

#[test]
fn clear_empties_sets() {
    let mut lines = BreakpointSet::new();
    lines.add(1);
    lines.add(2);
    lines.clear();
    assert_eq!(lines.len(), 0);
    let mut addresses = WatchpointSet::new();
    addresses.add(0xffff);
    addresses.clear();
    assert!(addresses.addresses().is_empty());
}
