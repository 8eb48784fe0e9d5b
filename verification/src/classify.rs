//! Classification: from a field's declared type and annotations to its
//! category.

use vstd::prelude::*;
use crate::descriptor::{
    Annotation, AnnotationItem, AnnotationItemView, AnnotationValue, AnnotationValueView,
    AnnotationView, FieldDescriptor, FieldDescriptorView,
};
use crate::error::{result_view, SynthesisError, SynthesisErrorView};
use crate::search::{least_index, least_index_from};

verus! {

/// How a field is stored in the companion and taken out of it.
#[derive(Debug, PartialEq, Eq)]
pub enum FieldCategory {
    /// The field must be set before construction. `inner` is its declared
    /// type.
    Required { inner: String },
    /// The field may stay unset. `inner` is the type that its declared
    /// optional type wraps.
    Optional { inner: String },
    /// The field is a list that can be set as a whole or grown item by item
    /// through a setter named `appender`. `item` is the type of one item.
    Accumulating { item: String, appender: String },
}

/// `FieldCategory` as specifications see it: text as sequences of characters.
pub enum FieldCategoryView {
    Required { inner: Seq<char> },
    Optional { inner: Seq<char> },
    Accumulating { item: Seq<char>, appender: Seq<char> },
}

impl DeepView for FieldCategory {
    type V = FieldCategoryView;

    open spec fn deep_view(&self) -> FieldCategoryView {
        match self {
            FieldCategory::Required { inner } => FieldCategoryView::Required { inner: inner@ },
            FieldCategory::Optional { inner } => FieldCategoryView::Optional { inner: inner@ },
            FieldCategory::Accumulating { item, appender } => FieldCategoryView::Accumulating {
                item: item@,
                appender: appender@,
            },
        }
    }
}

/// A field's name with its category.
#[derive(Debug, PartialEq, Eq)]
pub struct ClassifiedField {
    pub name: String,
    pub category: FieldCategory,
}

/// `ClassifiedField` as specifications see it: text as sequences of characters.
pub struct ClassifiedFieldView {
    pub name: Seq<char>,
    pub category: FieldCategoryView,
}

impl DeepView for ClassifiedField {
    type V = ClassifiedFieldView;

    open spec fn deep_view(&self) -> ClassifiedFieldView {
        ClassifiedFieldView { name: self.name@, category: self.category.deep_view() }
    }
}

impl AnnotationView {
    /// Whether this is the annotation `builder(..)`.
    pub open spec fn is_builder_list(self) -> bool {
        match self {
            AnnotationView::List { path, .. } => path.is_ident("builder"@),
            _ => false,
        }
    }
}

impl AnnotationItemView {
    /// The method name that this item gives, if it is `each = "name"`.
    pub open spec fn appender(self) -> Option<Seq<char>> {
        match self {
            AnnotationItemView::NameValue { path, value } => match value {
                AnnotationValueView::Text(name) => if path.is_ident("each"@) {
                    Some(name)
                } else {
                    None
                },
                AnnotationValueView::Other => None,
            },
            _ => None,
        }
    }
}

/// The items of the first annotation that is `builder(..)`.
pub open spec fn builder_items(annotations: Seq<AnnotationView>) -> Option<
    Seq<AnnotationItemView>,
> {
    match least_index(annotations.len() as int, |i: int| annotations[i].is_builder_list()) {
        Some(i) => Some(annotations[i]->items),
        None => None,
    }
}

/// The method name given by the first item that is `each = "name"`.
pub open spec fn appender_name(items: Seq<AnnotationItemView>) -> Option<Seq<char>> {
    match least_index(items.len() as int, |i: int| items[i].appender() is Some) {
        Some(i) => items[i].appender(),
        None => None,
    }
}

/// The method name of the accumulate directive that the annotations carry:
/// only the first `builder(..)` annotation counts, and in it the first item
/// `each = "name"`.
pub open spec fn accumulate_directive(annotations: Seq<AnnotationView>) -> Option<Seq<char>> {
    match builder_items(annotations) {
        Some(items) => appender_name(items),
        None => None,
    }
}

/// The category of one field, or the reason why it has none.
///
/// A declared type `Option<T>` makes the field optional, whatever its
/// annotations say. Otherwise an accumulate directive asks for a declared
/// type `Vec<T>`, and is an error on any other type. A field without a
/// directive is required.
pub open spec fn classify_field_spec(field: FieldDescriptorView) -> Result<
    FieldCategoryView,
    SynthesisErrorView,
> {
    match field.declared_type.single_argument("Option"@) {
        Some(inner) => Ok(FieldCategoryView::Optional { inner }),
        None => match accumulate_directive(field.annotations) {
            Some(appender) => match field.declared_type.single_argument("Vec"@) {
                Some(item) => Ok(FieldCategoryView::Accumulating { item, appender }),
                None => Err(SynthesisErrorView::MalformedAnnotation { field: field.name }),
            },
            None => Ok(FieldCategoryView::Required { inner: field.declared_type.text }),
        },
    }
}

/// The categories of all fields in declaration order, or the error of the
/// first field that has none.
pub open spec fn classify_fields_spec(fields: Seq<FieldDescriptorView>) -> Result<
    Seq<ClassifiedFieldView>,
    SynthesisErrorView,
> {
    match least_index(fields.len() as int, |i: int| classify_field_spec(fields[i]) is Err) {
        Some(i) => Err(classify_field_spec(fields[i])->Err_0),
        None => Ok(
            Seq::new(
                fields.len(),
                |i: int|
                    ClassifiedFieldView {
                        name: fields[i].name,
                        category: classify_field_spec(fields[i])->Ok_0,
                    },
            ),
        ),
    }
}

/// The items of the first annotation that is `builder(..)`.
pub fn get_builder_attr(attrs: &Vec<Annotation>) -> (found: Option<&Vec<AnnotationItem>>)
    ensures
        found.deep_view() == builder_items(attrs.deep_view()),
{
    let ghost views = attrs.deep_view();
    let mut i: usize = 0;
    while i < attrs.len()
        invariant
            i <= attrs.len(),
            views == attrs.deep_view(),
            builder_items(views) == match least_index_from(
                i as int,
                views.len() as int,
                |i: int| views[i].is_builder_list(),
            ) {
                Some(k) => Some(views[k]->items),
                None => None,
            },
        decreases attrs.len() - i,
    {
        match &attrs[i] {
            Annotation::List { path, items } => {
                if path.is_ident("builder") {
                    return Some(items);
                }
            },
            _ => {},
        }
        i += 1;
    }
    None
}

/// The method name given by the first item that is `each = "name"`.
pub fn each_method(sub_meta: &Vec<AnnotationItem>) -> (found: Option<String>)
    ensures
        found.deep_view() == appender_name(sub_meta.deep_view()),
{
    let ghost views = sub_meta.deep_view();
    let mut i: usize = 0;
    while i < sub_meta.len()
        invariant
            i <= sub_meta.len(),
            views == sub_meta.deep_view(),
            appender_name(views) == match least_index_from(
                i as int,
                views.len() as int,
                |i: int| views[i].appender() is Some,
            ) {
                Some(k) => views[k].appender(),
                None => None,
            },
        decreases sub_meta.len() - i,
    {
        match &sub_meta[i] {
            AnnotationItem::NameValue { path, value: AnnotationValue::Text(name) } => {
                if path.is_ident("each") {
                    return Some(name.clone());
                }
            },
            _ => {},
        }
        i += 1;
    }
    None
}

/// The category of one field, or the reason why it has none.
pub fn classify_field(field: &FieldDescriptor) -> (result: Result<FieldCategory, SynthesisError>)
    ensures
        result_view(result) == classify_field_spec(field.deep_view()),
{
    if let Some(inner) = field.declared_type.single_argument("Option") {
        return Ok(FieldCategory::Optional { inner: inner.clone() });
    }
    let directive = match get_builder_attr(&field.annotations) {
        Some(items) => each_method(items),
        None => None,
    };
    match directive {
        Some(appender) => match field.declared_type.single_argument("Vec") {
            Some(item) => Ok(FieldCategory::Accumulating { item: item.clone(), appender }),
            None => Err(SynthesisError::MalformedAnnotation { field: field.name.clone() }),
        },
        None => Ok(FieldCategory::Required { inner: field.declared_type.text.clone() }),
    }
}

/// The categories of all fields in declaration order, or the error of the
/// first field that has none.
pub fn classify_fields(fields: &Vec<FieldDescriptor>) -> (result: Result<
    Vec<ClassifiedField>,
    SynthesisError,
>)
    ensures
        result_view(result) == classify_fields_spec(fields.deep_view()),
{
    let ghost views = fields.deep_view();
    let mut out: Vec<ClassifiedField> = Vec::new();
    let mut i: usize = 0;
    while i < fields.len()
        invariant
            i <= fields.len(),
            views == fields.deep_view(),
            least_index(views.len() as int, |i: int| classify_field_spec(views[i]) is Err)
                == least_index_from(
                i as int,
                views.len() as int,
                |i: int| classify_field_spec(views[i]) is Err,
            ),
            out.deep_view() == Seq::new(
                i as nat,
                |k: int|
                    ClassifiedFieldView {
                        name: views[k].name,
                        category: classify_field_spec(views[k])->Ok_0,
                    },
            ),
        decreases fields.len() - i,
    {
        let field = &fields[i];
        match classify_field(field) {
            Ok(category) => {
                let ghost before = out.deep_view();
                let entry = ClassifiedField { name: field.name.clone(), category };
                out.push(entry);
                assert(out.deep_view() =~= before.push(entry.deep_view()));
            },
            Err(error) => {
                return Err(error);
            },
        }
        i += 1;
    }
    Ok(out)
}

} // verus!
