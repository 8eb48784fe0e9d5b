use builder::classify::{ClassifiedField, FieldCategory};
use builder::companion::{
    copy_items, find_setter, find_setter_place, Argument, Companion, ConstructionError, FieldValue,
    Slot,
};
use builder::model::{assemble, BuilderModel};

fn req(name: &str) -> ClassifiedField {
    ClassifiedField {
        name: name.to_string(),
        category: FieldCategory::Required { inner: "i32".to_string() },
    }
}

fn opt(name: &str) -> ClassifiedField {
    ClassifiedField {
        name: name.to_string(),
        category: FieldCategory::Optional { inner: "i32".to_string() },
    }
}

fn acc(name: &str, appender: &str) -> ClassifiedField {
    ClassifiedField {
        name: name.to_string(),
        category: FieldCategory::Accumulating {
            item: "i32".to_string(),
            appender: appender.to_string(),
        },
    }
}

fn model_of(fields: Vec<ClassifiedField>) -> BuilderModel {
    assemble("Record", &fields).unwrap()
}

fn missing(field: &str) -> ConstructionError {
    ConstructionError::MissingRequiredField { field: field.to_string() }
}

#[test]
fn new_companion_has_every_slot_at_its_default() {
    let model = model_of(vec![req("a"), opt("b"), acc("c", "add_c")]);
    let companion: Companion<i32> = Companion::new(&model);
    assert_eq!(companion.slot_count(), 3);
    assert_eq!(companion.slot(0), Some(&Slot::Single(None)));
    assert_eq!(companion.slot(1), Some(&Slot::Single(None)));
    assert_eq!(companion.slot(2), Some(&Slot::Many(vec![])));
    assert_eq!(companion.slot(3), None);
}

#[test]
fn setting_every_required_field_once_gives_the_record_of_those_values() {
    let model = model_of(vec![req("a"), req("b"), req("c")]);
    let mut companion = Companion::new(&model);
    assert!(companion.set("a", Argument::One(1)));
    assert!(companion.set("b", Argument::One(2)));
    assert!(companion.set("c", Argument::One(3)));
    assert_eq!(
        companion.build(),
        Ok(vec![FieldValue::Scalar(1), FieldValue::Scalar(2), FieldValue::Scalar(3)])
    );
}

#[test]
fn the_order_of_setter_calls_does_not_matter() {
    let model = model_of(vec![req("a"), req("b"), req("c")]);
    let mut companion = Companion::new(&model);
    assert!(companion.set("c", Argument::One(3)));
    assert!(companion.set("a", Argument::One(1)));
    assert!(companion.set("b", Argument::One(2)));
    assert_eq!(
        companion.build(),
        Ok(vec![FieldValue::Scalar(1), FieldValue::Scalar(2), FieldValue::Scalar(3)])
    );
}

#[test]
fn construction_without_a_required_field_names_it() {
    let model = model_of(vec![req("a"), req("b")]);
    let mut companion = Companion::new(&model);
    assert!(companion.set("a", Argument::One(1)));
    assert_eq!(companion.build(), Err(missing("b")));
}

#[test]
fn the_first_unset_required_field_is_reported() {
    let model = model_of(vec![opt("o"), req("a"), acc("l", "add"), req("b"), req("c")]);
    let mut fresh: Companion<i32> = Companion::new(&model);
    assert_eq!(fresh.build(), Err(missing("a")));
    let mut companion = Companion::new(&model);
    assert!(companion.set("a", Argument::One(1)));
    assert!(companion.set("c", Argument::One(3)));
    assert_eq!(companion.build(), Err(missing("b")));
}

#[test]
fn failed_construction_empties_the_slots_before_the_missing_field() {
    let model = model_of(vec![req("a"), opt("o"), acc("l", "add"), req("b"), req("c")]);
    let mut companion = Companion::new(&model);
    assert!(companion.set("a", Argument::One(1)));
    assert!(companion.set("o", Argument::One(2)));
    assert!(companion.set("add", Argument::One(3)));
    assert!(companion.set("c", Argument::One(4)));
    assert_eq!(companion.build(), Err(missing("b")));
    assert_eq!(companion.slot(0), Some(&Slot::Single(None)));
    assert_eq!(companion.slot(1), Some(&Slot::Single(None)));
    assert_eq!(companion.slot(2), Some(&Slot::Many(vec![3])));
    assert_eq!(companion.slot(3), Some(&Slot::Single(None)));
    assert_eq!(companion.slot(4), Some(&Slot::Single(Some(4))));
    assert_eq!(companion.build(), Err(missing("a")));
}

#[test]
fn construction_takes_single_values_and_copies_lists() {
    let model = model_of(vec![req("a"), opt("o"), acc("l", "add")]);
    let mut companion = Companion::new(&model);
    assert!(companion.set("a", Argument::One(1)));
    assert!(companion.set("o", Argument::One(2)));
    assert!(companion.set("add", Argument::One(3)));
    assert_eq!(
        companion.build(),
        Ok(vec![FieldValue::Scalar(1), FieldValue::Maybe(Some(2)), FieldValue::Items(vec![3])])
    );
    assert_eq!(companion.slot(0), Some(&Slot::Single(None)));
    assert_eq!(companion.slot(1), Some(&Slot::Single(None)));
    assert_eq!(companion.slot(2), Some(&Slot::Many(vec![3])));
    assert_eq!(companion.build(), Err(missing("a")));
}

#[test]
fn unset_optional_field_is_absent_in_the_record() {
    let model = model_of(vec![req("a"), opt("o")]);
    let mut companion = Companion::new(&model);
    assert!(companion.set("a", Argument::One(7)));
    assert_eq!(companion.build(), Ok(vec![FieldValue::Scalar(7), FieldValue::Maybe(None)]));
    let only_optional = model_of(vec![opt("o")]);
    let mut fresh: Companion<i32> = Companion::new(&only_optional);
    assert_eq!(fresh.build(), Ok(vec![FieldValue::Maybe(None)]));
}

#[test]
fn appended_items_come_out_in_call_order() {
    let model = model_of(vec![acc("xs", "add_x")]);
    let mut companion = Companion::new(&model);
    assert!(companion.set("add_x", Argument::One(10)));
    assert!(companion.set("add_x", Argument::One(20)));
    assert!(companion.set("add_x", Argument::One(30)));
    assert_eq!(companion.slot(0), Some(&Slot::Many(vec![10, 20, 30])));
    assert_eq!(companion.build(), Ok(vec![FieldValue::Items(vec![10, 20, 30])]));
}

#[test]
fn replacing_a_list_discards_the_appended_items() {
    let model = model_of(vec![acc("xs", "add_x")]);
    let mut companion = Companion::new(&model);
    assert!(companion.set("add_x", Argument::One(10)));
    assert!(companion.set("add_x", Argument::One(20)));
    assert!(companion.set("add_x", Argument::One(30)));
    assert!(companion.set("xs", Argument::Many(vec![1, 2])));
    assert_eq!(companion.build(), Ok(vec![FieldValue::Items(vec![1, 2])]));
    assert!(companion.set("add_x", Argument::One(3)));
    assert_eq!(companion.build(), Ok(vec![FieldValue::Items(vec![1, 2, 3])]));
}

#[test]
fn accumulating_field_never_set_is_an_empty_list() {
    let model = model_of(vec![acc("xs", "add_x")]);
    let mut companion: Companion<i32> = Companion::new(&model);
    assert_eq!(companion.build(), Ok(vec![FieldValue::Items(vec![])]));
}

#[test]
fn second_replace_overwrites_the_first() {
    let model = model_of(vec![req("a"), opt("o")]);
    let mut companion = Companion::new(&model);
    assert!(companion.set("a", Argument::One(1)));
    assert!(companion.set("a", Argument::One(2)));
    assert!(companion.set("o", Argument::One(3)));
    assert!(companion.set("o", Argument::One(4)));
    assert_eq!(companion.slot(0), Some(&Slot::Single(Some(2))));
    assert_eq!(
        companion.build(),
        Ok(vec![FieldValue::Scalar(2), FieldValue::Maybe(Some(4))])
    );
}

#[test]
fn a_setter_changes_the_slot_of_its_field_alone() {
    let model = model_of(vec![req("a"), opt("o"), acc("l", "add")]);
    let mut companion = Companion::new(&model);
    assert!(companion.set("o", Argument::One(5)));
    assert_eq!(companion.slot(0), Some(&Slot::Single(None)));
    assert_eq!(companion.slot(1), Some(&Slot::Single(Some(5))));
    assert_eq!(companion.slot(2), Some(&Slot::Many(vec![])));
}

#[test]
fn a_call_that_fits_no_setter_changes_nothing() {
    let model = model_of(vec![req("a"), acc("l", "add")]);
    let mut companion = Companion::new(&model);
    assert!(!companion.set("unknown", Argument::One(1)));
    assert!(!companion.set("a", Argument::Many(vec![1])));
    assert!(!companion.set("l", Argument::One(1)));
    assert!(!companion.set("add", Argument::Many(vec![1])));
    assert_eq!(companion.slot(0), Some(&Slot::Single(None)));
    assert_eq!(companion.slot(1), Some(&Slot::Many(vec![])));
}

#[test]
fn setters_are_found_by_name() {
    let model = model_of(vec![req("a"), acc("l", "add"), opt("o")]);
    assert_eq!(find_setter(&model.fields, "a"), Some((0, 0)));
    assert_eq!(find_setter(&model.fields, "l"), Some((1, 0)));
    assert_eq!(find_setter(&model.fields, "add"), Some((1, 1)));
    assert_eq!(find_setter(&model.fields, "o"), Some((2, 0)));
    assert_eq!(find_setter(&model.fields, "x"), None);
    assert_eq!(find_setter_place(&model.fields[1], "add"), Some(1));
    assert_eq!(find_setter_place(&model.fields[1], "a"), None);
}

#[test]
fn copy_of_a_list_holds_the_same_items() {
    assert_eq!(copy_items(&vec![3, 1, 2]), vec![3, 1, 2]);
    assert_eq!(copy_items::<u8>(&vec![]), Vec::<u8>::new());
}

#[test]
fn construction_error_says_which_field_is_missing() {
    assert_eq!(missing("env").message(), "Required parameter `env` not specified");
}
