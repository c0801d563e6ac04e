use piv_ccc::readers::{decimal_digits, Entry, ListError, Reader, ReadersCmd, Scan};

fn reader(name: &str, serial: Option<u32>) -> Reader {
    Reader { name: name.to_string(), serial }
}

fn summary(entries: &[Entry]) -> Vec<(usize, String, u32)> {
    entries.iter().map(|e| (e.index, e.name.clone(), e.serial)).collect()
}

#[test]
fn listing_fails_without_a_context() {
    let result = ReadersCmd {}.run(&Scan::NoContext);
    assert_eq!(result.map(|e| summary(&e)), Err(ListError::Context));
}

#[test]
fn listing_fails_without_an_enumeration() {
    let result = ReadersCmd {}.run(&Scan::NoEnumeration);
    assert_eq!(result.map(|e| summary(&e)), Err(ListError::Enumeration));
}

#[test]
fn listing_fails_without_devices() {
    let result = ReadersCmd {}.run(&Scan::Found(Vec::new()));
    assert_eq!(result.map(|e| summary(&e)), Err(ListError::NoDevices));
}

#[test]
fn listing_counts_from_one() {
    let scan = Scan::Found(vec![reader("Yubico YubiKey 00", Some(5_000_001)), reader("Yubico YubiKey 01", Some(7))]);
    let entries = ReadersCmd {}.run(&scan).unwrap();
    assert_eq!(
        summary(&entries),
        vec![
            (1, "Yubico YubiKey 00".to_string(), 5_000_001),
            (2, "Yubico YubiKey 01".to_string(), 7),
        ]
    );
}

#[test]
fn listing_skips_but_counts_unopened_readers() {
    let scan = Scan::Found(vec![
        reader("first", None),
        reader("second", Some(22)),
        reader("third", None),
        reader("fourth", Some(44)),
    ]);
    let entries = ReadersCmd {}.run(&scan).unwrap();
    assert_eq!(
        summary(&entries),
        vec![(2, "second".to_string(), 22), (4, "fourth".to_string(), 44)]
    );
}

#[test]
fn listing_of_unopenable_readers_is_empty_but_no_failure() {
    let scan = Scan::Found(vec![reader("only", None)]);
    let entries = ReadersCmd {}.run(&scan).unwrap();
    assert!(entries.is_empty());
}

#[test]
fn decimal_digits_of_numbers() {
    assert_eq!(decimal_digits(0), b"0".to_vec());
    assert_eq!(decimal_digits(9), b"9".to_vec());
    assert_eq!(decimal_digits(10), b"10".to_vec());
    assert_eq!(decimal_digits(1234567890), b"1234567890".to_vec());
    assert_eq!(decimal_digits(u64::MAX), b"18446744073709551615".to_vec());
}

#[test]
fn label_is_right_aligned_in_three_columns() {
    let cmd = ReadersCmd {};
    assert_eq!(cmd.print_reader(1, "r", 0).label, "  1:");
    assert_eq!(cmd.print_reader(12, "r", 0).label, " 12:");
    assert_eq!(cmd.print_reader(123, "r", 0).label, "123:");
    assert_eq!(cmd.print_reader(1234, "r", 0).label, "1234:");
}

#[test]
fn label_matches_std_formatting() {
    let cmd = ReadersCmd {};
    for index in [0usize, 1, 9, 10, 99, 100, 999, 1000, 65535] {
        assert_eq!(cmd.print_reader(index, "r", 0).label, format!("{:>3}:", index));
    }
}

#[test]
fn line_shows_name_and_serial() {
    let cmd = ReadersCmd {};
    let line = cmd.print_reader(1, "Yubico YubiKey OTP+FIDO+CCID 00 00", 5_417_533);
    assert_eq!(line.text, " Yubico YubiKey OTP+FIDO+CCID 00 00 (serial: 5417533)");
    assert_eq!(cmd.print_reader(2, "", u32::MAX).text, "  (serial: 4294967295)");
    assert_eq!(cmd.print_reader(3, "Lecteur \u{e9}", 0).text, " Lecteur \u{e9} (serial: 0)");
}
