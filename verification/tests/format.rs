use uidsys::error::Error;
use uidsys::format::format_line;
use uidsys::format::format_lines;
use uidsys::format::make_gameid_string;
use uidsys::format::name_suffix;
use uidsys::format::printable_char;
use uidsys::names::NameLookup;
use uidsys::record::decode;
use uidsys::record::TitleRecord;

fn test_title() -> NameLookup {
    NameLookup::parse("ABCD = Test Title").ok().unwrap()
}

#[test]
fn shows_a_printable_byte_as_itself() {
    assert_eq!(printable_char(32), ' ');
    assert_eq!(printable_char(0x41), 'A');
    assert_eq!(printable_char(0x7E), '~');
    assert_eq!(printable_char(127), '\u{7f}');
}

#[test]
fn shows_any_other_byte_as_a_dot() {
    assert_eq!(printable_char(0), '.');
    assert_eq!(printable_char(31), '.');
    assert_eq!(printable_char(128), '.');
    assert_eq!(printable_char(255), '.');
    assert_eq!(printable_char(b'\n'), '.');
}

#[test]
fn derives_the_code_string_from_the_four_bytes() {
    assert_eq!(make_gameid_string(0x4142_4344), "ABCD");
    assert_eq!(make_gameid_string(0x524D_4345), "RMCE");
    assert_eq!(make_gameid_string(0), "....");
    assert_eq!(make_gameid_string(2), "....");
    assert_eq!(make_gameid_string(0x4142_0043), "AB.C");
    assert_eq!(make_gameid_string(0x2020_2020), "    ");
    assert_eq!(make_gameid_string(0x1F20_7F80), ". \u{7f}.");
    assert_eq!(make_gameid_string(u32::MAX), "....");
}

#[test]
fn derives_the_same_code_string_from_the_same_low_half() {
    let first = TitleRecord { title_id: 0x0001_0000_5242_5445, install_slot: 1 };
    let second = TitleRecord { title_id: 0x0007_0008_5242_5445, install_slot: 9000 };
    assert_eq!(make_gameid_string(first.code()), "RBTE");
    assert_eq!(make_gameid_string(first.code()), make_gameid_string(second.code()));
    let bytes: [u8; 12] = [0, 1, 0, 0, 0x52, 0x42, 0x54, 0x45, 0, 0, 0x10, 0];
    let once = decode(&bytes).unwrap();
    let again = decode(&bytes).unwrap();
    assert_eq!(make_gameid_string(once[0].code()), "RBTE");
    assert_eq!(make_gameid_string(once[0].code()), make_gameid_string(again[0].code()));
}

#[test]
fn leaves_the_suffix_empty_without_a_database() {
    assert_eq!(name_suffix(2, None), "");
    assert_eq!(name_suffix(0x4142_4344, None), "");
    assert_eq!(name_suffix(u32::MAX, None), "");
}

#[test]
fn names_a_title_that_the_database_holds() {
    let lookup = test_title();
    assert_eq!(name_suffix(0x4142_4344, Some(&lookup)), " - Test Title");
}

#[test]
fn names_a_firmware_module_by_its_number() {
    let lookup = test_title();
    assert_eq!(name_suffix(0, Some(&lookup)), " - IOS 0");
    assert_eq!(name_suffix(2, Some(&lookup)), " - IOS 2");
    assert_eq!(name_suffix(58, Some(&lookup)), " - IOS 58");
    assert_eq!(name_suffix(254, Some(&lookup)), " - IOS 254");
}

#[test]
fn puts_question_marks_for_an_unknown_title() {
    let lookup = test_title();
    assert_eq!(name_suffix(255, Some(&lookup)), " - ????");
    assert_eq!(name_suffix(256, Some(&lookup)), " - ????");
    assert_eq!(name_suffix(0x524D_4345, Some(&lookup)), " - ????");
}

#[test]
fn prefers_the_name_of_the_database_for_a_firmware_code() {
    let mut lookup = NameLookup::new();
    lookup.insert("....".to_string(), "Dots".to_string());
    assert_eq!(name_suffix(2, Some(&lookup)), " - Dots");
    assert_eq!(name_suffix(0xFFFF_FFFF, Some(&lookup)), " - Dots");
}

#[test]
fn renders_the_system_record() {
    let bytes: [u8; 12] = [0x00, 0x00, 0x00, 0x01, 0x00, 0x00, 0x00, 0x02, 0x00, 0x00, 0x10, 0x00];
    let record = decode(&bytes).unwrap()[0];
    assert_eq!(record.title_id, 0x0000_0001_0000_0002);
    assert_eq!(record.install_slot, 4096);
    let empty = NameLookup::new();
    assert_eq!(
        format_line(record, true, Some(&empty)),
        "1: SYSTEM ESSENTIAL   00000001-00000002 (....) - IOS 2"
    );
    assert_eq!(format_line(record, false, Some(&empty)), "1: 00000001-00000002 (....) - IOS 2");
    assert_eq!(format_line(record, true, None), "1: SYSTEM ESSENTIAL   00000001-00000002 (....)");
    assert_eq!(format_line(record, false, None), "1: 00000001-00000002 (....)");
}

#[test]
fn renders_a_named_title() {
    let lookup = test_title();
    let record = TitleRecord { title_id: 0x0001_0000_4142_4344, install_slot: 4100 };
    assert_eq!(
        format_line(record, true, Some(&lookup)),
        "5: DISC-BASED GAME    00010000-41424344 (ABCD) - Test Title"
    );
    assert_eq!(
        format_line(record, false, Some(&lookup)),
        "5: 00010000-41424344 (ABCD) - Test Title"
    );
}

#[test]
fn renders_the_widest_label_without_a_gap() {
    let record = TitleRecord { title_id: 0x0007_0002_4841_4B45, install_slot: 4200 };
    assert_eq!(format_line(record, true, None), "105: vWII SYSTEM CHANNEL00070002-48414B45 (HAKE)");
}

#[test]
fn renders_an_unknown_category_as_error() {
    let record = TitleRecord { title_id: 0x1234_5678_9ABC_DEF0, install_slot: 0xFFFF };
    let lookup = test_title();
    assert_eq!(
        format_line(record, true, Some(&lookup)),
        "61440: Error              12345678-9ABCDEF0 (....) - ????"
    );
}

#[test]
fn renders_a_reserved_slot_with_a_negative_index() {
    let record = TitleRecord { title_id: 0x0001_0001_4841_4441, install_slot: 0 };
    assert_eq!(format_line(record, false, None), "-4095: 00010001-48414441 (HADA)");
    let last = TitleRecord { title_id: 0x0001_0001_4841_4441, install_slot: 4094 };
    assert_eq!(format_line(last, true, None), "-1: DOWNLOADED CHANNEL 00010001-48414441 (HADA)");
}

#[test]
fn renders_every_record_in_order() {
    let records = [
        TitleRecord { title_id: 0x0000_0001_0000_0002, install_slot: 4096 },
        TitleRecord { title_id: 0x0001_0000_4142_4344, install_slot: 4097 },
        TitleRecord { title_id: 0x0001_0005_7A7A_7A7A, install_slot: 4098 },
    ];
    let lookup = test_title();
    assert_eq!(
        format_lines(&records, true, Some(&lookup)),
        vec![
            "1: SYSTEM ESSENTIAL   00000001-00000002 (....) - IOS 2",
            "2: DISC-BASED GAME    00010000-41424344 (ABCD) - Test Title",
            "3: GAME DLC           00010005-7A7A7A7A (zzzz) - ????",
        ]
    );
    assert_eq!(
        format_lines(&records, false, None),
        vec![
            "1: 00000001-00000002 (....)",
            "2: 00010000-41424344 (ABCD)",
            "3: 00010005-7A7A7A7A (zzzz)",
        ]
    );
    assert_eq!(format_lines(&[], true, Some(&lookup)), Vec::<String>::new());
}

#[test]
fn renders_without_names_after_a_malformed_database() {
    let loaded = NameLookup::parse("ABCD Test Title");
    assert_eq!(loaded.as_ref().err(), Some(&Error::MalformedDatabaseLine));
    let lookup = loaded.ok();
    let records = [
        TitleRecord { title_id: 0x0000_0001_0000_0002, install_slot: 4096 },
        TitleRecord { title_id: 0x0001_0000_4142_4344, install_slot: 4097 },
    ];
    assert_eq!(
        format_lines(&records, false, lookup.as_ref()),
        vec!["1: 00000001-00000002 (....)", "2: 00010000-41424344 (ABCD)"]
    );
}
