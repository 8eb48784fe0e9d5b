use builder::classify::{
    classify_field, classify_fields, each_method, get_builder_attr, ClassifiedField, FieldCategory,
};
use builder::descriptor::{
    Annotation, AnnotationItem, AnnotationPath, AnnotationValue, FieldDescriptor, PathSegment,
    SegmentArguments, TypeArgument, TypeKind, TypeShape,
};
use builder::error::SynthesisError;

fn segment(ident: &str, arguments: SegmentArguments) -> PathSegment {
    PathSegment { ident: ident.to_string(), arguments }
}

fn simple_type(text: &str) -> TypeShape {
    TypeShape {
        text: text.to_string(),
        kind: TypeKind::Path(vec![segment(text, SegmentArguments::Absent)]),
    }
}

fn wrapper_type(head: &str, inner: &str) -> TypeShape {
    TypeShape {
        text: format!("{}<{}>", head, inner),
        kind: TypeKind::Path(vec![segment(
            head,
            SegmentArguments::AngleBracketed(vec![TypeArgument::Type(inner.to_string())]),
        )]),
    }
}

fn ident_path(name: &str) -> AnnotationPath {
    AnnotationPath { leading_colon: false, segments: vec![name.to_string()] }
}

fn name_value(name: &str, value: &str) -> AnnotationItem {
    AnnotationItem::NameValue {
        path: ident_path(name),
        value: AnnotationValue::Text(value.to_string()),
    }
}

fn builder_list(items: Vec<AnnotationItem>) -> Annotation {
    Annotation::List { path: ident_path("builder"), items }
}

fn described(name: &str, declared_type: TypeShape, annotations: Vec<Annotation>) -> FieldDescriptor {
    FieldDescriptor { name: name.to_string(), declared_type, annotations }
}

#[test]
fn path_is_ident_only_for_a_single_plain_name() {
    assert!(ident_path("builder").is_ident("builder"));
    assert!(!ident_path("builder").is_ident("each"));
    let global = AnnotationPath { leading_colon: true, segments: vec!["builder".to_string()] };
    assert!(!global.is_ident("builder"));
    let long = AnnotationPath {
        leading_colon: false,
        segments: vec!["derive".to_string(), "builder".to_string()],
    };
    assert!(!long.is_ident("builder"));
    assert!(!long.is_ident("derive"));
    let none = AnnotationPath { leading_colon: false, segments: vec![] };
    assert!(!none.is_ident("builder"));
}

#[test]
fn builder_attr_is_the_first_builder_list() {
    let attrs = vec![
        Annotation::Unparsed,
        Annotation::Path { path: ident_path("builder") },
        Annotation::NameValue {
            path: ident_path("builder"),
            value: AnnotationValue::Text("each".to_string()),
        },
        Annotation::List { path: ident_path("serde"), items: vec![name_value("each", "no")] },
        builder_list(vec![name_value("each", "first")]),
        builder_list(vec![name_value("each", "second")]),
    ];
    assert_eq!(get_builder_attr(&attrs), Some(&vec![name_value("each", "first")]));
}

#[test]
fn builder_attr_is_absent_without_a_builder_list() {
    assert_eq!(get_builder_attr(&vec![]), None);
    let attrs = vec![
        Annotation::Unparsed,
        Annotation::Path { path: ident_path("builder") },
        Annotation::List { path: ident_path("doc"), items: vec![] },
    ];
    assert_eq!(get_builder_attr(&attrs), None);
}

#[test]
fn each_method_is_the_first_each_with_text() {
    let items = vec![
        AnnotationItem::Path { path: ident_path("each") },
        AnnotationItem::List { path: ident_path("each") },
        AnnotationItem::Literal { value: AnnotationValue::Text("each".to_string()) },
        name_value("rename", "x"),
        AnnotationItem::NameValue { path: ident_path("each"), value: AnnotationValue::Other },
        name_value("each", "arg"),
        name_value("each", "later"),
    ];
    assert_eq!(each_method(&items), Some("arg".to_string()));
}

#[test]
fn each_method_is_absent_without_each() {
    assert_eq!(each_method(&vec![]), None);
    let items = vec![name_value("eac", "arg"), AnnotationItem::Path { path: ident_path("each") }];
    assert_eq!(each_method(&items), None);
}

#[test]
fn field_without_annotation_is_required() {
    let field = described("executable", simple_type("String"), vec![]);
    assert_eq!(classify_field(&field), Ok(FieldCategory::Required { inner: "String".to_string() }));
}

#[test]
fn list_without_directive_is_required_as_a_whole() {
    let field = described("env", wrapper_type("Vec", "String"), vec![]);
    assert_eq!(
        classify_field(&field),
        Ok(FieldCategory::Required { inner: "Vec<String>".to_string() })
    );
}

#[test]
fn option_is_optional_with_its_inner_type() {
    let field = described("current_dir", wrapper_type("Option", "PathBuf"), vec![]);
    assert_eq!(classify_field(&field), Ok(FieldCategory::Optional { inner: "PathBuf".to_string() }));
}

#[test]
fn option_stays_optional_under_a_directive() {
    let field = described(
        "names",
        wrapper_type("Option", "Vec<String>"),
        vec![builder_list(vec![name_value("each", "name")])],
    );
    assert_eq!(
        classify_field(&field),
        Ok(FieldCategory::Optional { inner: "Vec<String>".to_string() })
    );
}

#[test]
fn list_with_directive_is_accumulating() {
    let field = described(
        "args",
        wrapper_type("Vec", "String"),
        vec![builder_list(vec![name_value("each", "arg")])],
    );
    assert_eq!(
        classify_field(&field),
        Ok(FieldCategory::Accumulating { item: "String".to_string(), appender: "arg".to_string() })
    );
}

#[test]
fn directive_on_another_type_is_malformed() {
    let directive = || vec![builder_list(vec![name_value("each", "one")])];
    let scalar = described("count", simple_type("u32"), directive());
    assert_eq!(
        classify_field(&scalar),
        Err(SynthesisError::MalformedAnnotation { field: "count".to_string() })
    );
    let set = described("tags", wrapper_type("HashSet", "String"), directive());
    assert_eq!(
        classify_field(&set),
        Err(SynthesisError::MalformedAnnotation { field: "tags".to_string() })
    );
    let reference = described(
        "text",
        TypeShape { text: "&'static str".to_string(), kind: TypeKind::Other },
        directive(),
    );
    assert_eq!(
        classify_field(&reference),
        Err(SynthesisError::MalformedAnnotation { field: "text".to_string() })
    );
}

#[test]
fn wrapper_needs_exactly_one_type_argument() {
    let two = TypeShape {
        text: "Option<A, B>".to_string(),
        kind: TypeKind::Path(vec![segment(
            "Option",
            SegmentArguments::AngleBracketed(vec![
                TypeArgument::Type("A".to_string()),
                TypeArgument::Type("B".to_string()),
            ]),
        )]),
    };
    assert_eq!(two.single_argument("Option"), None);
    let lifetime = TypeShape {
        text: "Option<'a>".to_string(),
        kind: TypeKind::Path(vec![segment(
            "Option",
            SegmentArguments::AngleBracketed(vec![TypeArgument::Other]),
        )]),
    };
    assert_eq!(lifetime.single_argument("Option"), None);
    let bare = simple_type("Option");
    assert_eq!(bare.single_argument("Option"), None);
    let call = TypeShape {
        text: "Option(u8)".to_string(),
        kind: TypeKind::Path(vec![segment("Option", SegmentArguments::Parenthesized)]),
    };
    assert_eq!(call.single_argument("Option"), None);
    assert_eq!(wrapper_type("Option", "u8").single_argument("Option"), Some(&"u8".to_string()));
    assert_eq!(wrapper_type("Option", "u8").single_argument("Vec"), None);
}

#[test]
fn only_the_first_segment_of_a_path_counts() {
    let qualified = TypeShape {
        text: "std::option::Option<u8>".to_string(),
        kind: TypeKind::Path(vec![
            segment("std", SegmentArguments::Absent),
            segment("option", SegmentArguments::Absent),
            segment(
                "Option",
                SegmentArguments::AngleBracketed(vec![TypeArgument::Type("u8".to_string())]),
            ),
        ]),
    };
    let field = described("level", qualified, vec![]);
    assert_eq!(
        classify_field(&field),
        Ok(FieldCategory::Required { inner: "std::option::Option<u8>".to_string() })
    );
    let empty = TypeShape { text: "".to_string(), kind: TypeKind::Path(vec![]) };
    assert_eq!(empty.single_argument("Option"), None);
}

#[test]
fn fields_are_classified_in_declaration_order() {
    let fields = vec![
        described("executable", simple_type("String"), vec![]),
        described(
            "args",
            wrapper_type("Vec", "String"),
            vec![builder_list(vec![name_value("each", "arg")])],
        ),
        described("current_dir", wrapper_type("Option", "String"), vec![]),
    ];
    assert_eq!(
        classify_fields(&fields),
        Ok(vec![
            ClassifiedField {
                name: "executable".to_string(),
                category: FieldCategory::Required { inner: "String".to_string() },
            },
            ClassifiedField {
                name: "args".to_string(),
                category: FieldCategory::Accumulating {
                    item: "String".to_string(),
                    appender: "arg".to_string(),
                },
            },
            ClassifiedField {
                name: "current_dir".to_string(),
                category: FieldCategory::Optional { inner: "String".to_string() },
            },
        ])
    );
    assert_eq!(classify_fields(&vec![]), Ok(vec![]));
}

#[test]
fn the_first_field_without_category_decides_the_error() {
    let directive = || vec![builder_list(vec![name_value("each", "one")])];
    let fields = vec![
        described("a", simple_type("u8"), vec![]),
        described("b", simple_type("u8"), directive()),
        described("c", simple_type("u8"), directive()),
    ];
    assert_eq!(
        classify_fields(&fields),
        Err(SynthesisError::MalformedAnnotation { field: "b".to_string() })
    );
}
