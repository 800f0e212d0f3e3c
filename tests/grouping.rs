use dynamixel_ct::document::ParsedModel;
use dynamixel_ct::grouping::group_models;
use dynamixel_ct::models::{Model, ModelGroup as Family};
use dynamixel_ct::register::Register;
use dynamixel_ct::row::{ControlTableRow, RowOutcome, parse_row_str};
use dynamixel_ct::table::ControlTableMap;

fn row(address: u16, size: u16, name: Register, access: &str, range: &str, unit: &str) -> ControlTableRow {
    ControlTableRow {
        address,
        size,
        data_name: name,
        access: access.to_string(),
        initial_value: None,
        range: range.to_string(),
        unit: unit.to_string(),
        area: "RAM".to_string(),
    }
}

fn table(rows: Vec<ControlTableRow>) -> ControlTableMap {
    let mut t = ControlTableMap::new();
    for r in rows {
        t.insert(r);
    }
    t
}

fn base(range: &str, unit: &str) -> ControlTableMap {
    table(vec![
        row(0, 2, Register::ModelNumber, "R", range, unit),
        row(116, 4, Register::GoalPosition, "RW", range, unit),
    ])
}

fn page(model: Model, table: ControlTableMap) -> ParsedModel {
    ParsedModel { model, table, warnings: Vec::new() }
}

#[test]
fn same_layout_shares_a_group() {
    let (groups, placement) = group_models(vec![
        page(Model::XM430_W350, base("", "")),
        page(Model::XM430_W210, base("", "")),
    ]);
    assert_eq!(groups.len(), 1);
    assert_eq!(placement, vec![0, 0]);
    assert_eq!(groups[0].models(), vec![Model::XM430_W210, Model::XM430_W350]);
    assert!(groups[0].contains(Model::XM430_W210));
}

#[test]
fn different_layout_splits_groups() {
    let moved = table(vec![
        row(0, 2, Register::ModelNumber, "R", "", ""),
        row(120, 4, Register::GoalPosition, "RW", "", ""),
    ]);
    let access = table(vec![
        row(0, 2, Register::ModelNumber, "R", "", ""),
        row(116, 4, Register::GoalPosition, "R", "", ""),
    ]);
    let fewer = table(vec![row(0, 2, Register::ModelNumber, "R", "", "")]);
    let (groups, placement) = group_models(vec![
        page(Model::XM430_W350, base("", "")),
        page(Model::XL430_W250, moved),
        page(Model::XC430_W150, access),
        page(Model::XM540_W150, fewer),
        page(Model::XM430_W210, base("", "")),
    ]);
    assert_eq!(groups.len(), 4);
    assert_eq!(placement, vec![0, 1, 2, 3, 0]);
}

#[test]
fn range_and_unit_do_not_split_groups() {
    let (groups, placement) = group_models(vec![
        page(Model::XH430_W350, base("0 ~ 4095", "1 [pulse]")),
        page(Model::XH430_V350, base("-1 ~ 1", "0.088 [deg]")),
    ]);
    assert_eq!(groups.len(), 1);
    assert_eq!(placement, vec![0, 0]);
}

#[test]
fn group_names_come_from_member_families() {
    let (groups, _) = group_models(vec![
        page(Model::XL430_W250, base("", "")),
        page(Model::XC430_W240, base("", "")),
        page(Model::XC430_W150, base("", "")),
    ]);
    let g = &groups[0];
    assert_eq!(g.aliases(), vec![Family::XC430, Family::XL430]);
    assert_eq!(g.name(), "XC430_XL430");
    assert_eq!(g.table_name(), "XC430_XL430");
    assert_eq!(g.file_name(), "xc430_xl430");
    let alias = g.alias();
    assert_eq!(alias.len(), 2);
    assert_eq!(alias[0], (Family::XC430, vec![Model::XC430_W150, Model::XC430_W240]));
    assert_eq!(alias[1], (Family::XL430, vec![Model::XL430_W250]));
    assert_eq!(g.members_of(Family::XM430), Vec::<Model>::new());
}

#[test]
fn table_append_prefers_the_later_table() {
    let mut a = table(vec![row(0, 2, Register::ModelNumber, "R", "", "")]);
    let b = table(vec![
        row(2, 2, Register::ModelNumber, "R", "", ""),
        row(64, 1, Register::TorqueEnable, "RW", "", ""),
    ]);
    a.append(b);
    assert_eq!(a.get(Register::ModelNumber).unwrap().address, 2);
    assert_eq!(a.rows().len(), 2);
    assert!(a.get(Register::Led).is_none());
    let parsed = parse_row_str("| Address | Size | Data Name | Access |", "| 65 | 1 | [LED] | RW |", Some("RAM"));
    match parsed {
        Ok(RowOutcome::Entry(r)) => a.insert(r),
        other => panic!("unexpected {:?}", other),
    }
    assert_eq!(a.get(Register::Led).unwrap().address, 65);
}
