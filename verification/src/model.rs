//! The builder model: for each field its storage, how it starts, how its
//! value is taken out at construction, and its setters.

use vstd::prelude::*;
use vstd::string::*;
use crate::classify::{ClassifiedField, ClassifiedFieldView, FieldCategory, FieldCategoryView};
use crate::error::{result_view, SynthesisError, SynthesisErrorView};
use crate::search::{least_index, least_index_from};
use crate::text::lemma_flatten_step;

verus! {

/// What a setter does to its slot.
#[derive(Debug, Clone, Copy, PartialEq, Eq)]
pub enum SetterBehavior {
    /// Overwrite the slot with the argument.
    Replace,
    /// Push the argument onto the list in the slot.
    AppendItem,
}

impl DeepView for SetterBehavior {
    type V = SetterBehavior;

    open spec fn deep_view(&self) -> SetterBehavior {
        *self
    }
}

/// One setter of the companion.
#[derive(Debug, PartialEq, Eq)]
pub struct SetterSpec {
    pub name: String,
    pub parameter_type: String,
    pub behavior: SetterBehavior,
}

/// `SetterSpec` as specifications see it: text as sequences of characters.
pub struct SetterSpecView {
    pub name: Seq<char>,
    pub parameter_type: Seq<char>,
    pub behavior: SetterBehavior,
}

impl DeepView for SetterSpec {
    type V = SetterSpecView;

    open spec fn deep_view(&self) -> SetterSpecView {
        SetterSpecView {
            name: self.name@,
            parameter_type: self.parameter_type@,
            behavior: self.behavior,
        }
    }
}

/// What a slot holds in a new companion.
#[derive(Debug, Clone, Copy, PartialEq, Eq)]
pub enum StorageDefault {
    /// Nothing.
    Absent,
    /// A list without items.
    EmptyCollection,
}

impl DeepView for StorageDefault {
    type V = StorageDefault;

    open spec fn deep_view(&self) -> StorageDefault {
        *self
    }
}

/// How construction takes a field's value out of its slot.
#[derive(Debug, Clone, Copy, PartialEq, Eq)]
pub enum Extraction {
    /// Take the value and leave the slot empty; fail if the slot is empty.
    TakeRequired,
    /// Take what the slot holds, a value or nothing, and leave it empty.
    TakeOptional,
    /// Copy the list and leave the slot as it is.
    Snapshot,
}

impl DeepView for Extraction {
    type V = Extraction;

    open spec fn deep_view(&self) -> Extraction {
        *self
    }
}

/// One field of the builder model.
#[derive(Debug, PartialEq, Eq)]
pub struct BuilderField {
    pub name: String,
    pub category: FieldCategory,
    pub storage_default: StorageDefault,
    pub extraction: Extraction,
    /// The setters of this field: first the one that replaces, named like
    /// the field, then for an accumulating field the one that appends.
    pub setters: Vec<SetterSpec>,
}

/// `BuilderField` as specifications see it: text as sequences of characters.
pub struct BuilderFieldView {
    pub name: Seq<char>,
    pub category: FieldCategoryView,
    pub storage_default: StorageDefault,
    pub extraction: Extraction,
    pub setters: Seq<SetterSpecView>,
}

impl DeepView for BuilderField {
    type V = BuilderFieldView;

    open spec fn deep_view(&self) -> BuilderFieldView {
        BuilderFieldView {
            name: self.name@,
            category: self.category.deep_view(),
            storage_default: self.storage_default,
            extraction: self.extraction,
            setters: self.setters.deep_view(),
        }
    }
}

/// The builder model of one record type.
#[derive(Debug, PartialEq, Eq)]
pub struct BuilderModel {
    /// The record type's name.
    pub record: String,
    /// One entry per field of the record, in declaration order.
    pub fields: Vec<BuilderField>,
}

/// `BuilderModel` as specifications see it: text as sequences of characters.
pub struct BuilderModelView {
    pub record: Seq<char>,
    pub fields: Seq<BuilderFieldView>,
}

impl DeepView for BuilderModel {
    type V = BuilderModelView;

    open spec fn deep_view(&self) -> BuilderModelView {
        BuilderModelView { record: self.record@, fields: self.fields.deep_view() }
    }
}

/// The type of a list of `item`.
pub open spec fn collection_type(item: Seq<char>) -> Seq<char> {
    "Vec<"@ + item + ">"@
}

/// The model of one field, from its name and category.
pub open spec fn assemble_field_spec(field: ClassifiedFieldView) -> BuilderFieldView {
    match field.category {
        FieldCategoryView::Required { inner } => BuilderFieldView {
            name: field.name,
            category: field.category,
            storage_default: StorageDefault::Absent,
            extraction: Extraction::TakeRequired,
            setters: seq![
                SetterSpecView {
                    name: field.name,
                    parameter_type: inner,
                    behavior: SetterBehavior::Replace,
                },
            ],
        },
        FieldCategoryView::Optional { inner } => BuilderFieldView {
            name: field.name,
            category: field.category,
            storage_default: StorageDefault::Absent,
            extraction: Extraction::TakeOptional,
            setters: seq![
                SetterSpecView {
                    name: field.name,
                    parameter_type: inner,
                    behavior: SetterBehavior::Replace,
                },
            ],
        },
        FieldCategoryView::Accumulating { item, appender } => BuilderFieldView {
            name: field.name,
            category: field.category,
            storage_default: StorageDefault::EmptyCollection,
            extraction: Extraction::Snapshot,
            setters: seq![
                SetterSpecView {
                    name: field.name,
                    parameter_type: collection_type(item),
                    behavior: SetterBehavior::Replace,
                },
                SetterSpecView {
                    name: appender,
                    parameter_type: item,
                    behavior: SetterBehavior::AppendItem,
                },
            ],
        },
    }
}

impl BuilderFieldView {
    /// The names of this field's setters, in order.
    pub open spec fn setter_names(self) -> Seq<Seq<char>> {
        self.setters.map_values(|s: SetterSpecView| s.name)
    }

    /// Whether storage, extraction and setters are those that the name and
    /// the category call for.
    pub open spec fn wf(self) -> bool {
        self == assemble_field_spec(
            ClassifiedFieldView { name: self.name, category: self.category },
        )
    }
}

/// The names of all setters: field by field in declaration order, and within
/// a field in the order of its setters.
pub open spec fn setter_names(fields: Seq<BuilderFieldView>) -> Seq<Seq<char>> {
    fields.map_values(|f: BuilderFieldView| f.setter_names()).flatten()
}

/// Whether the name at `k` stands at an earlier place too.
pub open spec fn repeats_earlier(names: Seq<Seq<char>>, k: int) -> bool {
    exists|j: int| 0 <= j < k && names[j] == names[k]
}

/// The first place in `names` whose name stands at an earlier place too.
pub open spec fn first_repeat(names: Seq<Seq<char>>) -> Option<int> {
    least_index(names.len() as int, |k: int| repeats_earlier(names, k))
}

impl BuilderModelView {
    /// Whether every field is well formed and no two setters share a name.
    pub open spec fn wf(self) -> bool {
        &&& forall|i: int| 0 <= i < self.fields.len() ==> (#[trigger] self.fields[i]).wf()
        &&& setter_names(self.fields).no_duplicates()
    }
}

/// The model of a record named `record` with the given fields, or
/// `DuplicateSetterName` with the first setter name, in the order of
/// `setter_names`, that an earlier setter has too.
pub open spec fn assemble_spec(record: Seq<char>, fields: Seq<ClassifiedFieldView>) -> Result<
    BuilderModelView,
    SynthesisErrorView,
> {
    let built = fields.map_values(|f: ClassifiedFieldView| assemble_field_spec(f));
    let names = setter_names(built);
    match first_repeat(names) {
        Some(k) => Err(SynthesisErrorView::DuplicateSetterName { name: names[k] }),
        None => Ok(BuilderModelView { record, fields: built }),
    }
}

/// The model of one field, from its name and category.
pub fn assemble_field(field: &ClassifiedField) -> (out: BuilderField)
    ensures
        out.deep_view() == assemble_field_spec(field.deep_view()),
{
    let mut setters: Vec<SetterSpec> = Vec::new();
    match &field.category {
        FieldCategory::Required { inner } => {
            setters.push(
                SetterSpec {
                    name: field.name.clone(),
                    parameter_type: inner.clone(),
                    behavior: SetterBehavior::Replace,
                },
            );
            let out = BuilderField {
                name: field.name.clone(),
                category: FieldCategory::Required { inner: inner.clone() },
                storage_default: StorageDefault::Absent,
                extraction: Extraction::TakeRequired,
                setters,
            };
            assert(out.deep_view().setters =~= assemble_field_spec(field.deep_view()).setters);
            out
        },
        FieldCategory::Optional { inner } => {
            setters.push(
                SetterSpec {
                    name: field.name.clone(),
                    parameter_type: inner.clone(),
                    behavior: SetterBehavior::Replace,
                },
            );
            let out = BuilderField {
                name: field.name.clone(),
                category: FieldCategory::Optional { inner: inner.clone() },
                storage_default: StorageDefault::Absent,
                extraction: Extraction::TakeOptional,
                setters,
            };
            assert(out.deep_view().setters =~= assemble_field_spec(field.deep_view()).setters);
            out
        },
        FieldCategory::Accumulating { item, appender } => {
            let mut collection = String::from_str("Vec<");
            collection.append(item.as_str());
            collection.append(">");
            setters.push(
                SetterSpec {
                    name: field.name.clone(),
                    parameter_type: collection,
                    behavior: SetterBehavior::Replace,
                },
            );
            setters.push(
                SetterSpec {
                    name: appender.clone(),
                    parameter_type: item.clone(),
                    behavior: SetterBehavior::AppendItem,
                },
            );
            let out = BuilderField {
                name: field.name.clone(),
                category: FieldCategory::Accumulating {
                    item: item.clone(),
                    appender: appender.clone(),
                },
                storage_default: StorageDefault::EmptyCollection,
                extraction: Extraction::Snapshot,
                setters,
            };
            assert(out.deep_view().setters =~= assemble_field_spec(field.deep_view()).setters);
            out
        },
    }
}

/// The names of all setters, in the order of `setter_names`.
pub fn collect_setter_names(fields: &Vec<BuilderField>) -> (names: Vec<String>)
    ensures
        names.deep_view() == setter_names(fields.deep_view()),
{
    let ghost per_field = fields.deep_view().map_values(|f: BuilderFieldView| f.setter_names());
    let mut names: Vec<String> = Vec::new();
    let mut i: usize = 0;
    assert(names.deep_view() =~= per_field.take(0).flatten());
    while i < fields.len()
        invariant
            i <= fields.len(),
            per_field == fields.deep_view().map_values(|f: BuilderFieldView| f.setter_names()),
            names.deep_view() == per_field.take(i as int).flatten(),
        decreases fields.len() - i,
    {
        let setters = &fields[i].setters;
        let ghost these = per_field[i as int];
        let mut j: usize = 0;
        assert(names.deep_view() =~= per_field.take(i as int).flatten() + these.take(0));
        while j < setters.len()
            invariant
                j <= setters.len(),
                these == setters.deep_view().map_values(|s: SetterSpecView| s.name),
                names.deep_view() == per_field.take(i as int).flatten() + these.take(j as int),
            decreases setters.len() - j,
        {
            let ghost before = names.deep_view();
            names.push(setters[j].name.clone());
            assert(names.deep_view() =~= before.push(these[j as int]));
            assert(these.take(j + 1) =~= these.take(j as int).push(these[j as int]));
            j += 1;
        }
        proof {
            assert(these.take(j as int) =~= these);
            lemma_flatten_step(per_field, i as int);
        }
        i += 1;
    }
    assert(per_field.take(i as int) =~= per_field);
    names
}

/// The first place in `names` whose name stands at an earlier place too.
pub fn find_repeat(names: &Vec<String>) -> (found: Option<usize>)
    ensures
        match found {
            Some(k) => k < names.len() && first_repeat(names.deep_view()) == Some(k as int),
            None => first_repeat(names.deep_view()) is None,
        },
{
    let ghost views = names.deep_view();
    let mut k: usize = 0;
    while k < names.len()
        invariant
            k <= names.len(),
            views == names.deep_view(),
            first_repeat(views) == least_index_from(
                k as int,
                views.len() as int,
                |k: int| repeats_earlier(views, k),
            ),
        decreases names.len() - k,
    {
        let mut j: usize = 0;
        while j < k
            invariant
                j <= k < names.len(),
                views == names.deep_view(),
                first_repeat(views) == least_index_from(
                    k as int,
                    views.len() as int,
                    |k: int| repeats_earlier(views, k),
                ),
                forall|e: int| 0 <= e < j ==> views[e] != views[k as int],
            decreases k - j,
        {
            assert(views[j as int] == names@[j as int]@ && views[k as int] == names@[k as int]@);
            if names[j] == names[k] {
                assert(repeats_earlier(views, k as int));
                return Some(k);
            }
            j += 1;
        }
        assert(!repeats_earlier(views, k as int));
        k += 1;
    }
    None
}

/// The model of a record named `record` with the given fields, or
/// `DuplicateSetterName` where two setters would share a name.
pub fn assemble(record: &str, fields: &Vec<ClassifiedField>) -> (result: Result<
    BuilderModel,
    SynthesisError,
>)
    ensures
        result_view(result) == assemble_spec(record@, fields.deep_view()),
{
    let ghost views = fields.deep_view();
    let ghost target = views.map_values(|f: ClassifiedFieldView| assemble_field_spec(f));
    let mut built: Vec<BuilderField> = Vec::new();
    let mut i: usize = 0;
    assert(built.deep_view() =~= target.take(0));
    while i < fields.len()
        invariant
            i <= fields.len(),
            views == fields.deep_view(),
            target == views.map_values(|f: ClassifiedFieldView| assemble_field_spec(f)),
            built.deep_view() == target.take(i as int),
        decreases fields.len() - i,
    {
        let ghost before = built.deep_view();
        let entry = assemble_field(&fields[i]);
        built.push(entry);
        assert(built.deep_view() =~= before.push(target[i as int]));
        assert(target.take(i + 1) =~= target.take(i as int).push(target[i as int]));
        i += 1;
    }
    assert(target.take(i as int) =~= target);
    let names = collect_setter_names(&built);
    match find_repeat(&names) {
        Some(k) => Err(SynthesisError::DuplicateSetterName { name: names[k].clone() }),
        None => Ok(BuilderModel { record: String::from_str(record), fields: built }),
    }
}

} // verus!
