use builder::classify::{ClassifiedField, FieldCategory};
use builder::error::SynthesisError;
use builder::model::{
    assemble, assemble_field, collect_setter_names, find_repeat, BuilderField, Extraction,
    SetterBehavior, SetterSpec, StorageDefault,
};

fn required(name: &str, inner: &str) -> ClassifiedField {
    ClassifiedField {
        name: name.to_string(),
        category: FieldCategory::Required { inner: inner.to_string() },
    }
}

fn optional(name: &str, inner: &str) -> ClassifiedField {
    ClassifiedField {
        name: name.to_string(),
        category: FieldCategory::Optional { inner: inner.to_string() },
    }
}

fn accumulating(name: &str, item: &str, appender: &str) -> ClassifiedField {
    ClassifiedField {
        name: name.to_string(),
        category: FieldCategory::Accumulating {
            item: item.to_string(),
            appender: appender.to_string(),
        },
    }
}

fn setter(name: &str, parameter_type: &str, behavior: SetterBehavior) -> SetterSpec {
    SetterSpec { name: name.to_string(), parameter_type: parameter_type.to_string(), behavior }
}

#[test]
fn required_field_starts_absent_and_has_one_setter() {
    assert_eq!(
        assemble_field(&required("executable", "String")),
        BuilderField {
            name: "executable".to_string(),
            category: FieldCategory::Required { inner: "String".to_string() },
            storage_default: StorageDefault::Absent,
            extraction: Extraction::TakeRequired,
            setters: vec![setter("executable", "String", SetterBehavior::Replace)],
        }
    );
}

#[test]
fn optional_field_starts_absent_and_is_taken_as_it_is() {
    assert_eq!(
        assemble_field(&optional("current_dir", "String")),
        BuilderField {
            name: "current_dir".to_string(),
            category: FieldCategory::Optional { inner: "String".to_string() },
            storage_default: StorageDefault::Absent,
            extraction: Extraction::TakeOptional,
            setters: vec![setter("current_dir", "String", SetterBehavior::Replace)],
        }
    );
}

#[test]
fn accumulating_field_starts_empty_and_has_two_setters() {
    assert_eq!(
        assemble_field(&accumulating("args", "String", "arg")),
        BuilderField {
            name: "args".to_string(),
            category: FieldCategory::Accumulating {
                item: "String".to_string(),
                appender: "arg".to_string(),
            },
            storage_default: StorageDefault::EmptyCollection,
            extraction: Extraction::Snapshot,
            setters: vec![
                setter("args", "Vec<String>", SetterBehavior::Replace),
                setter("arg", "String", SetterBehavior::AppendItem),
            ],
        }
    );
}

#[test]
fn model_keeps_the_fields_in_order() {
    let fields = vec![
        required("executable", "String"),
        accumulating("args", "String", "arg"),
        optional("current_dir", "String"),
    ];
    let model = assemble("Command", &fields).unwrap();
    assert_eq!(model.record, "Command");
    assert_eq!(model.fields.len(), 3);
    assert_eq!(model.fields[0], assemble_field(&fields[0]));
    assert_eq!(model.fields[1], assemble_field(&fields[1]));
    assert_eq!(model.fields[2], assemble_field(&fields[2]));
    assert_eq!(collect_setter_names(&model.fields), vec!["executable", "args", "arg", "current_dir"]);
}

#[test]
fn every_field_has_at_least_the_replace_setter() {
    let fields = vec![required("a", "u8"), optional("b", "u8"), accumulating("c", "u8", "d")];
    let model = assemble("R", &fields).unwrap();
    for field in &model.fields {
        assert!(!field.setters.is_empty());
        assert_eq!(field.setters[0].name, field.name);
        assert_eq!(field.setters[0].behavior, SetterBehavior::Replace);
    }
}

#[test]
fn repeat_is_the_first_name_seen_before() {
    let names = |list: &[&str]| list.iter().map(|n| n.to_string()).collect::<Vec<String>>();
    assert_eq!(find_repeat(&names(&[])), None);
    assert_eq!(find_repeat(&names(&["a", "b", "c"])), None);
    assert_eq!(find_repeat(&names(&["a", "b", "a", "b"])), Some(2));
    assert_eq!(find_repeat(&names(&["a", "b", "c", "c", "a"])), Some(3));
    assert_eq!(find_repeat(&names(&["a", "a"])), Some(1));
}

#[test]
fn appender_named_like_an_earlier_field_is_refused() {
    let fields = vec![required("arg", "String"), accumulating("args", "String", "arg")];
    assert_eq!(
        assemble("Command", &fields),
        Err(SynthesisError::DuplicateSetterName { name: "arg".to_string() })
    );
}

#[test]
fn appender_named_like_a_later_field_is_refused() {
    let fields = vec![accumulating("args", "String", "arg"), required("arg", "String")];
    assert_eq!(
        assemble("Command", &fields),
        Err(SynthesisError::DuplicateSetterName { name: "arg".to_string() })
    );
}

#[test]
fn appender_named_like_its_own_field_is_refused() {
    let fields = vec![accumulating("env", "String", "env")];
    assert_eq!(
        assemble("Command", &fields),
        Err(SynthesisError::DuplicateSetterName { name: "env".to_string() })
    );
}

#[test]
fn two_appenders_of_one_name_are_refused() {
    let fields = vec![accumulating("args", "String", "add"), accumulating("env", "String", "add")];
    assert_eq!(
        assemble("Command", &fields),
        Err(SynthesisError::DuplicateSetterName { name: "add".to_string() })
    );
}

#[test]
fn the_first_repeated_name_decides_the_error() {
    let fields = vec![
        required("x", "u8"),
        accumulating("ys", "u8", "y"),
        required("y", "u8"),
        required("x", "u8"),
    ];
    assert_eq!(
        assemble("R", &fields),
        Err(SynthesisError::DuplicateSetterName { name: "y".to_string() })
    );
}
