use dynamixel_ct::models::{Error, Model, ModelGroup, ModelOrModelGroup, UnknownModel};

#[test]
fn models_test_model_from_number() {
    let model: Result<Model, Error> = 4030.try_into();
    assert_eq!(model, Ok(Model::YM070_200_R099_RH));

    let model: Result<Model, Error> = 1075.try_into();
    assert_eq!(model, Err(Error::UnknownModel));
}

#[test]
fn mod_test_model_from_number() {
    let model: Result<Model, Error> = 4030.try_into();
    assert_eq!(model, Ok(Model::YM070_200_R099_RH));

    let model: Result<Model, Error> = 1075.try_into();
    assert_eq!(model, Err(Error::UnknownModel));
}

#[test]
fn model_numbers_and_names() {
    assert_eq!(Model::XM430_W350.number(), 1020);
    assert_eq!(Model::XM430_W210.number(), 1030);
    assert_eq!(Model::from_number(1020), Some(Model::XM430_W350));
    assert_eq!(Model::from_number(0), None);
    assert_eq!(Model::XM430_W350.name(), "XM430_W350");
    assert_eq!(Model::try_from_name("XM430_W350"), Ok(Model::XM430_W350));
    assert_eq!(Model::try_from_name("XM430"), Err(UnknownModel));
    assert_eq!(Model::try_from_name("xm430_w350"), Err(UnknownModel));
}

#[test]
fn model_families() {
    assert_eq!(Model::XM430_W350.model_group(), ModelGroup::XM430);
    assert_eq!(Model::XH540_V270.model_group(), ModelGroup::XH540);
    assert_eq!(Model::PH54_200_S500_R.model_group(), ModelGroup::PH54);
    assert_eq!(Model::YM080_230_A099_RH.model_group(), ModelGroup::YM080);
    assert_eq!(ModelGroup::XC330.name(), "XC330");
    let id = ModelOrModelGroup::Model(Model::XL430_W250);
    assert_ne!(id, ModelOrModelGroup::ModelGroup(ModelGroup::XL430));
}

#[test]
fn every_model_number_resolves_to_its_model() {
    for i in 0..dynamixel_ct::models::MODEL_COUNT {
        let m = Model::at(i);
        assert_eq!(Model::from_number(m.number()), Some(m));
        let name: Vec<char> = m.name().chars().collect();
        assert_eq!(Model::from_name(&name), Some(m));
    }
}

#[test]
fn family_from_model() {
    assert_eq!(ModelGroup::from(Model::XD540_T150), ModelGroup::XD540);
    let f: ModelGroup = Model::PM42_010_S260_R.into();
    assert_eq!(f, ModelGroup::PM42);
}

#[test]
fn model_compares_with_its_number() {
    assert!(Model::XM430_W350 == 1020u16);
    assert!(Model::XM430_W350 != 1030u16);
}
