use dynamixel_ct::register::Register;
use dynamixel_ct::row::{parse_row_str, Column, ControlTableRow, RowError, RowOutcome};

const HEADER: &str = "| Address | Size | Data Name | Access |";
const FULL_HEADER: &str =
    "| Address | Size<br>(Byte) | Data Name | Access | Initial Value | Range | Unit |";

fn entry(r: Result<RowOutcome, RowError>) -> ControlTableRow {
    match r {
        Ok(RowOutcome::Entry(row)) => row,
        other => panic!("expected an entry, got {:?}", other),
    }
}

#[test]
fn row_with_minimal_header() {
    let row = entry(parse_row_str(HEADER, "| 0 | 2 | [Model Number] | R |", Some("EEPROM")));
    assert_eq!(row.address, 0);
    assert_eq!(row.size, 2);
    assert_eq!(row.data_name, Register::ModelNumber);
    assert_eq!(row.access, "R");
    assert_eq!(row.initial_value, None);
    assert_eq!(row.range, "");
    assert_eq!(row.unit, "");
    assert_eq!(row.area, "EEPROM");
}

#[test]
fn parenthetical_note_is_discarded() {
    let plain = entry(parse_row_str(HEADER, "| 0 | 2 | [Model Number] | R |", Some("EEPROM")));
    let noted =
        entry(parse_row_str(HEADER, "| 0 | 2 | [Model Number](see note) | R |", Some("EEPROM")));
    assert_eq!(plain, noted);
    assert_eq!(noted.data_name, Register::ModelNumber);
    assert_eq!(noted.access, plain.access);
    let inside =
        entry(parse_row_str(HEADER, "| 0 | 2 | [Model Number(see note)] | R |", Some("EEPROM")));
    assert_eq!(inside.data_name, Register::ModelNumber);
}

#[test]
fn full_row_reads_every_field() {
    let row = entry(parse_row_str(
        FULL_HEADER,
        "| 116 | 4 | [Goal Position](#goal-position) | RW | 2,048 | Min Position Limit(52) ~<br>Max Position Limit(48) | 1 [pulse] |",
        Some("RAM"),
    ));
    assert_eq!(row.address, 116);
    assert_eq!(row.size, 4);
    assert_eq!(row.data_name, Register::GoalPosition);
    assert_eq!(row.access, "RW");
    assert_eq!(row.initial_value, Some(2048));
    assert_eq!(row.range, "Min Position Limit(52) ~ Max Position Limit(48)");
    assert_eq!(row.unit, "1 [pulse]");
    assert_eq!(row.area, "RAM");
}

#[test]
fn area_column_overrides_fallback() {
    let header = "| Area | Address | Size | Data Name | Access |";
    let row = entry(parse_row_str(header, "| RAM | 64 | 1 | [Torque Enable] | RW |", Some("EEPROM")));
    assert_eq!(row.area, "RAM");
    assert_eq!(row.data_name, Register::TorqueEnable);
}

#[test]
fn initial_value_markers_mean_absent() {
    let header = "| Address | Size | Data Name | Access | Initial Value |";
    for cell in ["", "-", "1<br>(see)"] {
        let line = format!("| 7 | 1 | [ID] | RW | {} |", cell);
        let row = entry(parse_row_str(header, &line, Some("EEPROM")));
        assert_eq!(row.initial_value, None, "cell {:?}", cell);
        assert_eq!(row.data_name, Register::Id);
    }
}

#[test]
fn unknown_register_name_is_dropped_with_its_name() {
    let r = parse_row_str(HEADER, "| 200 | 1 | [Vendor Special (beta)] | R |", Some("RAM"));
    match r {
        Ok(RowOutcome::Unresolved(name)) => assert_eq!(name, "Vendor Special "),
        other => panic!("expected an unresolved name, got {:?}", other),
    }
}

#[test]
fn missing_columns_are_errors() {
    assert_eq!(
        parse_row_str("| Size | Data Name | Access |", "| 2 | [ID] | R |", Some("RAM")).err(),
        Some(RowError::MissingColumn(Column::Address))
    );
    assert_eq!(
        parse_row_str("| Address | Data Name | Access |", "| 2 | [ID] | R |", Some("RAM")).err(),
        Some(RowError::MissingColumn(Column::Size))
    );
    assert_eq!(
        parse_row_str("| Address | Size | Access |", "| 2 | 1 | R |", Some("RAM")).err(),
        Some(RowError::MissingColumn(Column::DataName))
    );
    assert_eq!(
        parse_row_str("| Address | Size | Data Name |", "| 2 | 1 | [ID] |", Some("RAM")).err(),
        Some(RowError::MissingColumn(Column::Access))
    );
}

#[test]
fn missing_area_is_an_error() {
    assert_eq!(
        parse_row_str(HEADER, "| 0 | 2 | [Model Number] | R |", None).err(),
        Some(RowError::MissingArea)
    );
}

#[test]
fn malformed_cells_are_errors() {
    assert_eq!(
        parse_row_str(HEADER, "| 0 | 2 | Model Number | R |", Some("RAM")).err(),
        Some(RowError::MissingDataName)
    );
    assert_eq!(
        parse_row_str(HEADER, "| 0 | 2 | [] | R |", Some("RAM")).err(),
        Some(RowError::MissingDataName)
    );
    assert_eq!(
        parse_row_str(HEADER, "| zero | 2 | [Model Number] | R |", Some("RAM")).err(),
        Some(RowError::BadAddress)
    );
    assert_eq!(
        parse_row_str(HEADER, "| 0 | 70000 | [Model Number] | R |", Some("RAM")).err(),
        Some(RowError::BadSize)
    );
    assert_eq!(
        parse_row_str(
            "| Address | Size | Data Name | Access | Initial Value |",
            "| 0 | 2 | [Model Number] | R | about 1020 |",
            Some("RAM"),
        )
        .err(),
        Some(RowError::BadInitialValue)
    );
}

#[test]
fn layout_equality_ignores_descriptions() {
    let a = entry(parse_row_str(FULL_HEADER, "| 7 | 1 | [ID] | RW | 1 | 0 ~ 252 | - |", Some("EEPROM")));
    let b = entry(parse_row_str(FULL_HEADER, "| 7 | 1 | [ID] | RW | 1 | 1 ~ 253 | unit |", Some("EEPROM")));
    let c = entry(parse_row_str(FULL_HEADER, "| 7 | 1 | [ID] | R | 1 | 0 ~ 252 | - |", Some("EEPROM")));
    assert!(a.same_layout(&b));
    assert_eq!(a, b);
    assert!(!a.same_layout(&c));
    assert_ne!(a, c);
}

#[test]
fn macro_line_gives_name_address_and_size() {
    let row = entry(parse_row_str(HEADER, "| 132 | 4 | [Present Position] | R |", Some("RAM")));
    assert_eq!(row.to_macro_line(), "PresentPosition: 132, 4,\n");
    let row = entry(parse_row_str(HEADER, "| 88 | 2 | [Feedforward 2nd Gain] | RW |", Some("RAM")));
    assert_eq!(row.data_name, Register::Feedforward2NdGain);
    assert_eq!(row.to_macro_line(), "Feedforward2NdGain: 88, 2,\n");
}
