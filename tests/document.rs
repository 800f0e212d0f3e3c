use dynamixel_ct::document::{
    filter_files, parse_control_table, parse_table, ParseError, CONTROL_TABLE_MARKER, EEPROM_MARKER,
};
use dynamixel_ct::extract::TableError;
use dynamixel_ct::models::Model;
use dynamixel_ct::register::Register;
use dynamixel_ct::row::RowError;

const DOUBLE: &str = "# XM430-W350\n\
\n\
## Control Table\n\
\n\
### control table of EEPROM area\n\
\n\
| Address | Size<br>(Byte) | Data Name | Access | Initial Value | Range | Unit |\n\
| :---: | :---: | :--- | :---: | :---: | :---: | :---: |\n\
| 0 | 2 | [Model Number](#model-number) | R | 1,020 | - | - |\n\
| 7 | 1 | [ID](#id) | RW | 1 | 0 ~ 252 | - |\n\
| ... | ... | ... | ... | ... | ... | ... |\n\
\n\
### CONTROL TABLE OF RAM AREA\n\
\n\
| Address | Size<br>(Byte) | Data Name | Access | Initial Value | Range | Unit |\n\
| :---: | :---: | :--- | :---: | :---: | :---: | :---: |\n\
| 64 | 1 | [Torque Enable](#torque-enable) | RW | 0 | 0 ~ 1 | - |\n\
| 116 | 4 | [Goal Position](#goal-position) | RW | - | 0 ~ 4,095 | 1 [pulse] |\n\
| 200 | 1 | [Vendor Only](#vendor) | R | - | - | - |\n";

const SINGLE: &str = "## Control Table\r\n\
\r\n\
| Area | Address | Size | Data Name | Access | Initial Value |\r\n\
|---|---|---|---|---|---|\r\n\
| EEPROM | 0 | 2 | [Model Number] | R | 2,000 |\r\n\
| N/A | N/A | N/A | N/A | N/A | N/A |\r\n\
| RAM | 512 | 1 | [Torque Enable] | RW | 0 |\r\n\
\r\n\
Text after the table | with a pipe\r\n";

#[test]
fn double_table_is_read_and_merged() {
    let t = parse_control_table(DOUBLE).unwrap();
    let id = t.table.get(Register::Id).unwrap();
    assert_eq!((id.address, id.size, id.area.as_str()), (7, 1, "EEPROM"));
    let goal = t.table.get(Register::GoalPosition).unwrap();
    assert_eq!((goal.address, goal.size, goal.area.as_str()), (116, 4, "RAM"));
    assert_eq!(goal.range, "0 ~ 4095");
    assert_eq!(goal.initial_value, None);
    let number = t.table.get(Register::ModelNumber).unwrap();
    assert_eq!(number.initial_value, Some(1020));
    assert_eq!(t.table.rows().len(), 4);
    assert_eq!(t.warnings, vec!["Vendor Only".to_string()]);
}

#[test]
fn ellipsis_row_yields_no_entry_and_no_error() {
    let t = parse_control_table(DOUBLE).unwrap();
    let names: Vec<Register> = t.table.rows().iter().map(|r| r.data_name).collect();
    assert_eq!(
        names,
        vec![Register::ModelNumber, Register::Id, Register::TorqueEnable, Register::GoalPosition]
    );
}

#[test]
fn single_table_is_the_fallback() {
    let t = parse_control_table(SINGLE).unwrap();
    let rows = t.table.rows();
    assert_eq!(rows.len(), 2);
    assert_eq!(rows[0].data_name, Register::ModelNumber);
    assert_eq!(rows[0].area, "EEPROM");
    assert_eq!(rows[1].data_name, Register::TorqueEnable);
    assert_eq!(rows[1].address, 512);
    assert_eq!(rows[1].area, "RAM");
    assert_eq!(rows[1].access, "RW");
}

#[test]
fn no_marker_reports_both_attempts() {
    let doc = "# Nothing here\n\n| a | b |\n|---|---|\n| 1 | 2 |\n";
    match parse_control_table(doc) {
        Err(ParseError::Table {
            double: TableError::TableNotFound(d),
            single: TableError::TableNotFound(s),
        }) => {
            assert_eq!(d, EEPROM_MARKER);
            assert_eq!(s, CONTROL_TABLE_MARKER);
        },
        other => panic!("unexpected {:?}", other),
    }
    match parse_table("xm430-w350.md", doc) {
        Err(ParseError::Table { .. }) => {},
        other => panic!("unexpected {:?}", other),
    }
}

#[test]
fn row_error_carries_the_row_text() {
    let doc = "## Control Table\n| Area | Address | Size | Data Name | Access |\n|---|---|---|---|---|\n| RAM | x | 1 | [LED] | RW |\n";
    match parse_control_table(doc) {
        Err(ParseError::Table { single: TableError::Row { row, error }, .. }) => {
            assert_eq!(row, "| RAM | x | 1 | [LED] | RW |");
            assert_eq!(error, RowError::BadAddress);
        },
        other => panic!("unexpected {:?}", other),
    }
}

#[test]
fn marker_without_table_is_not_found() {
    let doc = "## Control Table\nno table follows\n";
    assert!(matches!(
        parse_control_table(doc),
        Err(ParseError::Table { single: TableError::TableNotFound(_), .. })
    ));
}

#[test]
fn model_is_named_by_the_file_first() {
    let p = parse_table("xm430-w350.md", DOUBLE).unwrap();
    assert_eq!(p.model, Model::XM430_W350);
    let p = parse_table("xm430-w210.md", DOUBLE).unwrap();
    assert_eq!(p.model, Model::XM430_W210);
}

#[test]
fn model_number_is_the_fallback() {
    let p = parse_table("ph42-020-s300-r-old.md", SINGLE).unwrap();
    assert_eq!(p.model, Model::PH42_020_S300_R);
    let p = parse_table("unknown.md", DOUBLE).unwrap();
    assert_eq!(p.model, Model::XM430_W350);
}

#[test]
fn unknown_model_identity() {
    let doc = "## Control Table\n| Area | Address | Size | Data Name | Access | Initial Value |\n|---|---|---|---|---|---|\n| EEPROM | 0 | 2 | [Model Number] | R | 9999 |\n";
    match parse_table("mystery-servo.md", doc) {
        Err(ParseError::UnknownModelIdentity { name, number }) => {
            assert_eq!(name, "MYSTERY_SERVO");
            assert_eq!(number, 9999);
        },
        other => panic!("unexpected {:?}", other),
    }
}

#[test]
fn file_filter_skips_tests_and_index_pages() {
    assert!(filter_files("emanual/docs/en/dxl/x/xm430-w350.md"));
    assert!(filter_files("emanual/docs/en/dxl/y/ym070-210-m001-rh.md"));
    assert!(!filter_files("emanual/docs/en/dxl/x/xl320.md"));
    assert!(!filter_files("emanual/docs/en/dxl/x/xw430-t200.md"));
    assert!(!filter_files("emanual/docs/en/dxl/x/2xl430-w250.md"));
    assert!(!filter_files("emanual/docs/en/dxl/x/x.md"));
    assert!(!filter_files("emanual/docs/en/dxl/p/dxl_p.md"));
    assert!(!filter_files("emanual/docs/en/dxl/y/y.md"));
    assert!(!filter_files("emanual/docs/en/dxl/x/test_page.md"));
}

#[test]
fn malformed_row_of_two_table_page_is_not_dropped() {
    let doc = "## Control Table\n\
\n\
### Control Table of EEPROM Area\n\
| Area | Address | Size | Data Name | Access |\n\
|---|---|---|---|---|\n\
| EEPROM | 0 | 2 | [Model Number] | R |\n\
\n\
### Control Table of RAM Area\n\
| Area | Address | Size | Data Name | Access |\n\
|---|---|---|---|---|\n\
| RAM | sixty-four | 1 | [Torque Enable] | RW |\n";
    match parse_control_table(doc) {
        Err(ParseError::Row(TableError::Row { row, error })) => {
            assert_eq!(row, "| RAM | sixty-four | 1 | [Torque Enable] | RW |");
            assert_eq!(error, RowError::BadAddress);
        },
        other => panic!("unexpected {:?}", other),
    }
    assert!(matches!(parse_table("xm430-w350.md", doc), Err(ParseError::Row(_))));
}

#[test]
fn missing_ram_marker_falls_back_to_single_table() {
    let doc = "## Control Table of EEPROM Area\n| Area | Address | Size | Data Name | Access |\n|---|---|---|---|---|\n| EEPROM | 0 | 2 | [Model Number] | R |\n";
    let t = parse_control_table(doc).unwrap();
    assert_eq!(t.table.rows().len(), 1);
}

#[test]
fn missing_ram_marker_retries_single_table_after_row_error() {
    let doc = "## Control Table\n\
| Area | Address | Size | Data Name | Access |\n\
|---|---|---|---|---|\n\
| EEPROM | 0 | 2 | [Model Number] | R |\n\
| RAM | 64 | 1 | [Torque Enable] | RW |\n\
\n\
### Control Table of EEPROM Area\n\
| Address | Size | Data Name | Access |\n\
|---|---|---|---|\n\
| zero | 2 | [Model Number] | R |\n";
    let t = parse_control_table(doc).unwrap();
    let rows = t.table.rows();
    assert_eq!(rows.len(), 2);
    assert_eq!(rows[1].data_name, Register::TorqueEnable);
    assert_eq!(rows[1].area, "RAM");
}

#[test]
fn missing_ram_marker_keeps_row_error_in_chain() {
    let doc = "### Control Table of EEPROM Area\n\
| Address | Size | Data Name | Access |\n\
|---|---|---|---|\n\
| zero | 2 | [Model Number] | R |\n";
    match parse_control_table(doc) {
        Err(ParseError::Table { double: TableError::Row { error, .. }, single: TableError::Row { error: e2, .. } }) => {
            assert_eq!(error, RowError::BadAddress);
            assert_eq!(e2, RowError::MissingArea);
        },
        other => panic!("unexpected {:?}", other),
    }
}
