use dynamixel_ct::control_table::{from_model, try_from_model, ControlTable};
use dynamixel_ct::document::ParsedModel;
use dynamixel_ct::emit::{build_directory, dispatch_source, group_source, module_lines, EmitError};
use dynamixel_ct::grouping::{group_models, ModelGroup};
use dynamixel_ct::models::{Error, Model, ModelGroup as Family, ModelOrModelGroup, MODEL_COUNT};
use dynamixel_ct::register::{Register, RegisterData};
use dynamixel_ct::row::ControlTableRow;
use dynamixel_ct::table::ControlTableMap;

fn row(address: u16, size: u16, name: Register) -> ControlTableRow {
    ControlTableRow {
        address,
        size,
        data_name: name,
        access: "RW".to_string(),
        initial_value: None,
        range: String::new(),
        unit: String::new(),
        area: "RAM".to_string(),
    }
}

/// Y-series models get one layout, all others another.
fn page(model: Model) -> ParsedModel {
    let mut table = ControlTableMap::new();
    table.insert(row(0, 2, Register::ModelNumber));
    if model.name().starts_with('Y') {
        table.insert(row(532, 4, Register::GoalPosition));
    } else {
        table.insert(row(116, 4, Register::GoalPosition));
        table.insert(row(64, 1, Register::TorqueEnable));
    }
    ParsedModel { model, table, warnings: Vec::new() }
}

fn all_groups() -> Vec<ModelGroup> {
    let pages: Vec<ParsedModel> = (0..MODEL_COUNT).map(|i| page(Model::at(i))).collect();
    group_models(pages).0
}

#[test]
fn every_entry_round_trips_through_the_directory() {
    let d = build_directory(all_groups()).unwrap();
    assert_eq!(d.groups().len(), 2);
    let x = ModelOrModelGroup::Model(Model::XM430_W350);
    let y = ModelOrModelGroup::Model(Model::YM070_200_R099_RH);
    assert_eq!(d.get(x, Register::GoalPosition), Some(RegisterData { address: 116, length: 4 }));
    assert_eq!(d.get(x, Register::TorqueEnable), Some(RegisterData { address: 64, length: 1 }));
    assert_eq!(d.get(y, Register::GoalPosition), Some(RegisterData { address: 532, length: 4 }));
    assert_eq!(d.get(y, Register::TorqueEnable), None);
    assert_eq!(d.get(x, Register::Led), None);
    let fam = ModelOrModelGroup::ModelGroup(Family::YM080);
    assert_eq!(d.get(fam, Register::ModelNumber), Some(RegisterData { address: 0, length: 2 }));
    for g in d.groups() {
        for m in g.models() {
            for r in g.table().rows() {
                assert_eq!(
                    d.get(ModelOrModelGroup::Model(m), r.data_name),
                    Some(RegisterData { address: r.address, length: r.size })
                );
            }
        }
    }
}

#[test]
fn directory_refuses_an_uncovered_model() {
    let pages = vec![page(Model::XM430_W350), page(Model::YM070_210_M001_RH)];
    let groups = group_models(pages).0;
    assert_eq!(
        build_directory(groups).err().map(|e| match e {
            EmitError::UnknownModelIdentity(m) => m,
        }),
        Some(Model::XL330_M077)
    );
}

#[test]
fn control_table_for_model_and_family() {
    let d = build_directory(all_groups()).unwrap();
    let t = ControlTable::new_with_model(&d, Model::XM430_W210);
    assert_eq!(t.model(), Some(Model::XM430_W210));
    assert_eq!(t.model_group(), Family::XM430);
    assert_eq!(t.get(Register::GoalPosition), Some(RegisterData { address: 116, length: 4 }));
    assert_eq!(t.identity(), ModelOrModelGroup::Model(Model::XM430_W210));
    let f = ControlTable::new(&d, Family::YM070);
    assert_eq!(f.model(), None);
    assert_eq!(f.model_group(), Family::YM070);
    assert_eq!(f.get(Register::GoalPosition), Some(RegisterData { address: 532, length: 4 }));
    assert_eq!(f.identity(), ModelOrModelGroup::ModelGroup(Family::YM070));
    assert_eq!(from_model(&d, ModelOrModelGroup::ModelGroup(Family::YM070)), f);
    assert_eq!(from_model(&d, ModelOrModelGroup::Model(Model::XM430_W210)), t);
}

#[test]
fn control_table_from_number() {
    let d = build_directory(all_groups()).unwrap();
    let t = try_from_model(&d, 1030).unwrap();
    assert_eq!(t.model(), Some(Model::XM430_W210));
    assert_eq!(try_from_model(&d, 1075).err(), Some(Error::UnknownModel));
}

#[test]
fn group_source_lists_aliases_and_registers() {
    let pages = vec![page(Model::XL430_W250), page(Model::XC430_W150)];
    let groups = group_models(pages).0;
    let expected = "//! Control table shared by the models of one layout.\n\
\n\
use crate::model;\n\
\n\
model![XC430 XL430 => {\n   ModelNumber: 0, 2,\n   TorqueEnable: 64, 1,\n   GoalPosition: 116, 4,\n}];\n";
    assert_eq!(group_source(&groups[0]), expected);
    assert_eq!(module_lines(&groups[0]), "mod xc430_xl430;\npub use xc430_xl430::*;\n");
}

#[test]
fn dispatch_source_covers_every_family_of_every_group() {
    let pages = vec![
        page(Model::XM430_W350),
        page(Model::YM070_210_M001_RH),
        page(Model::XM430_W210),
        page(Model::XL430_W250),
    ];
    let groups = group_models(pages).0;
    let text = dispatch_source(&groups);
    let ret = "&'static std::collections::HashMap<dynamixel_registers::Register, dynamixel_registers::RegisterData>";
    let expected = format!(
        "\npub(crate) fn control_table_from_model(model: &dynamixel_registers::models::Model) -> {ret} {{\n    use dynamixel_registers::models::Model::*;\n    match model {{\n        XL430_W250 => XL430::table(),\n        XM430_W210 | XM430_W350 => XM430::table(),\n        YM070_210_M001_RH => YM070::table(),\n    }}\n}}\n\npub(crate) fn control_table_from_model_group(model_group: &dynamixel_registers::models::ModelGroup) -> {ret} {{\n    use dynamixel_registers::models::ModelGroup;\n    match model_group {{\n        ModelGroup::XL430 => XL430::table(),\n        ModelGroup::XM430 => XM430::table(),\n        ModelGroup::YM070 => YM070::table(),\n    }}\n}}\n"
    );
    assert_eq!(text, expected);
}

#[test]
fn identities_resolve_to_the_first_holding_group() {
    let d = build_directory(all_groups()).unwrap();
    assert_eq!(d.holder(ModelOrModelGroup::Model(Model::XM430_W350)), 0);
    assert_eq!(d.holder(ModelOrModelGroup::Model(Model::YM080_230_A099_RH)), 1);
    assert_eq!(d.holder(ModelOrModelGroup::ModelGroup(Family::PH54)), 0);
    let t = d.table_for(ModelOrModelGroup::ModelGroup(Family::YM070));
    assert_eq!(t.rows().len(), 2);
    assert_eq!(t.register_data(Register::GoalPosition), Some(RegisterData { address: 532, length: 4 }));
}
