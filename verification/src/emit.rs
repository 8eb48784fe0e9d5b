//! The emitter: from a builder model to the source text of the companion
//! type, the factory, the setters and the construction operation.

use vstd::prelude::*;
use vstd::string::*;
use crate::classify::{FieldCategory, FieldCategoryView};
use crate::model::{
    collection_type, BuilderField, BuilderFieldView, BuilderModel, BuilderModelView, Extraction,
    SetterBehavior, SetterSpec, SetterSpecView, StorageDefault,
};
use crate::text::lemma_flatten_step;

verus! {

/// The four blocks of source text that synthesis produces.
#[derive(Debug, PartialEq, Eq)]
pub struct Expansion {
    /// The definition of the companion type.
    pub companion_type: String,
    /// The factory on the record type, which makes a new companion.
    pub factory: String,
    /// The setters on the companion.
    pub setters: String,
    /// The construction operation on the companion.
    pub construction: String,
}

/// `Expansion` as specifications see it: text as sequences of characters.
pub struct ExpansionView {
    pub companion_type: Seq<char>,
    pub factory: Seq<char>,
    pub setters: Seq<char>,
    pub construction: Seq<char>,
}

impl DeepView for Expansion {
    type V = ExpansionView;

    open spec fn deep_view(&self) -> ExpansionView {
        ExpansionView {
            companion_type: self.companion_type@,
            factory: self.factory@,
            setters: self.setters@,
            construction: self.construction@,
        }
    }
}

impl ExpansionView {
    /// The four blocks as one text: the factory, the companion type, the
    /// setters, the construction operation.
    pub open spec fn source(self) -> Seq<char> {
        self.factory + self.companion_type + self.setters + self.construction
    }
}

impl Expansion {
    /// The four blocks as one text.
    pub fn source(&self) -> (out: String)
        ensures
            out@ == self.deep_view().source(),
    {
        let mut out = self.factory.clone();
        out.append(self.companion_type.as_str());
        out.append(self.setters.as_str());
        out.append(self.construction.as_str());
        out
    }
}

/// The name of the companion type of the record type `record`.
pub open spec fn companion_name_text(record: Seq<char>) -> Seq<char> {
    record + "Builder"@
}

impl FieldCategoryView {
    /// The type of what one setter call stores: the inner type of a required
    /// or optional field, the item type of an accumulating one.
    pub open spec fn inner_type(self) -> Seq<char> {
        match self {
            FieldCategoryView::Required { inner } => inner,
            FieldCategoryView::Optional { inner } => inner,
            FieldCategoryView::Accumulating { item, .. } => item,
        }
    }

    /// The type of the field's slot in the companion.
    pub open spec fn slot_type(self) -> Seq<char> {
        match self {
            FieldCategoryView::Required { inner } => "Option<"@ + inner + ">"@,
            FieldCategoryView::Optional { inner } => "Option<"@ + inner + ">"@,
            FieldCategoryView::Accumulating { item, .. } => collection_type(item),
        }
    }
}

/// The line of the companion type that declares the field's slot.
pub open spec fn slot_line_text(field: BuilderFieldView) -> Seq<char> {
    "    "@ + field.name + ": "@ + field.category.slot_type() + ",\n"@
}

/// The definition of the companion type: one slot per field, in declaration
/// order.
pub open spec fn companion_type_text(model: BuilderModelView) -> Seq<char> {
    "pub struct "@ + companion_name_text(model.record) + " {\n"@ + model.fields.map_values(
        |f: BuilderFieldView| slot_line_text(f),
    ).flatten() + "}\n"@
}

/// The expression that a new companion's slot starts with.
pub open spec fn default_text(field: BuilderFieldView) -> Seq<char> {
    match field.storage_default {
        StorageDefault::Absent => "None"@,
        StorageDefault::EmptyCollection => "Vec::<"@ + field.category.inner_type() + ">::new()"@,
    }
}

/// The line of the factory that initialises the field's slot.
pub open spec fn default_line_text(field: BuilderFieldView) -> Seq<char> {
    "            "@ + field.name + ": "@ + default_text(field) + ",\n"@
}

/// The factory: an associated function `builder` of the record type that
/// returns a companion with every slot at its default.
pub open spec fn factory_text(model: BuilderModelView) -> Seq<char> {
    "impl "@ + model.record + " {\n    pub fn builder() -> "@ + companion_name_text(model.record)
        + " {\n        "@ + companion_name_text(model.record) + " {\n"@
        + model.fields.map_values(|f: BuilderFieldView| default_line_text(f)).flatten()
        + "        }\n    }\n}\n"@
}

/// One setter of the field `field`: a method that changes the field's slot
/// alone and returns the companion.
pub open spec fn setter_text(field: BuilderFieldView, setter: SetterSpecView) -> Seq<char> {
    match setter.behavior {
        SetterBehavior::Replace => "    pub fn "@ + setter.name + "(&mut self, "@ + field.name
            + ": "@ + setter.parameter_type + ") -> &mut Self {\n        self."@ + field.name
            + " = "@ + match field.storage_default {
            StorageDefault::Absent => "Some("@ + field.name + ")"@,
            StorageDefault::EmptyCollection => field.name,
        } + ";\n        self\n    }\n"@,
        SetterBehavior::AppendItem => "    pub fn "@ + setter.name + "(&mut self, item: "@
            + setter.parameter_type + ") -> &mut Self {\n        self."@ + field.name
            + ".push(item);\n        self\n    }\n"@,
    }
}

/// All setters of one field, in their order.
pub open spec fn field_setters_text(field: BuilderFieldView) -> Seq<char> {
    field.setters.map_values(|s: SetterSpecView| setter_text(field, s)).flatten()
}

/// The setters: one method of the companion per setter of the model, field
/// by field in declaration order.
pub open spec fn setters_text(model: BuilderModelView) -> Seq<char> {
    "impl "@ + companion_name_text(model.record) + " {\n"@ + model.fields.map_values(
        |f: BuilderFieldView| field_setters_text(f),
    ).flatten() + "}\n"@
}

/// What the construction operation reports when the required field `name`
/// was never set.
pub open spec fn missing_message_text(name: Seq<char>) -> Seq<char> {
    "Required parameter `"@ + name + "` not specified"@
}

/// The expression that takes a required field out of its slot, or leaves the
/// construction operation with the field's error.
pub open spec fn required_getter_text(name: Seq<char>) -> Seq<char> {
    name + ".take().ok_or(\""@ + missing_message_text(name) + "\")?"@
}

/// The expression that takes the field's value out of its slot.
pub open spec fn extraction_text(field: BuilderFieldView) -> Seq<char> {
    match field.extraction {
        Extraction::TakeRequired => required_getter_text(field.name),
        Extraction::TakeOptional => field.name + ".take()"@,
        Extraction::Snapshot => field.name + ".clone()"@,
    }
}

/// The line of the construction operation that fills the field.
pub open spec fn extraction_line_text(field: BuilderFieldView) -> Seq<char> {
    "            "@ + field.name + ": self."@ + extraction_text(field) + ",\n"@
}

/// The construction operation: a method `build` of the companion that takes
/// every field out of its slot, in declaration order, and returns the record
/// or the error of the first required field that is missing.
pub open spec fn construction_text(model: BuilderModelView) -> Seq<char> {
    "impl "@ + companion_name_text(model.record) + " {\n    pub fn build(&mut self) -> Result<"@
        + model.record + ", Box<dyn std::error::Error>> {\n        Ok("@ + model.record + " {\n"@
        + model.fields.map_values(|f: BuilderFieldView| extraction_line_text(f)).flatten()
        + "        })\n    }\n}\n"@
}

/// The four blocks of a model.
pub open spec fn expansion_text(model: BuilderModelView) -> ExpansionView {
    ExpansionView {
        companion_type: companion_type_text(model),
        factory: factory_text(model),
        setters: setters_text(model),
        construction: construction_text(model),
    }
}

/// The name of the companion type of the record type `record`.
pub fn companion_name(record: &str) -> (out: String)
    ensures
        out@ == companion_name_text(record@),
{
    let mut out = String::from_str(record);
    out.append("Builder");
    out
}

/// The type of the field's slot in the companion.
pub fn slot_type(category: &FieldCategory) -> (out: String)
    ensures
        out@ == category.deep_view().slot_type(),
{
    match category {
        FieldCategory::Required { inner } => {
            let mut out = String::from_str("Option<");
            out.append(inner.as_str());
            out.append(">");
            out
        },
        FieldCategory::Optional { inner } => {
            let mut out = String::from_str("Option<");
            out.append(inner.as_str());
            out.append(">");
            out
        },
        FieldCategory::Accumulating { item, .. } => {
            let mut out = String::from_str("Vec<");
            out.append(item.as_str());
            out.append(">");
            out
        },
    }
}

/// The type of what one setter call stores.
pub fn inner_type(category: &FieldCategory) -> (out: &str)
    ensures
        out@ == category.deep_view().inner_type(),
{
    match category {
        FieldCategory::Required { inner } => inner.as_str(),
        FieldCategory::Optional { inner } => inner.as_str(),
        FieldCategory::Accumulating { item, .. } => item.as_str(),
    }
}

/// The definition of the companion type.
pub fn companion_type(model: &BuilderModel) -> (out: String)
    ensures
        out@ == companion_type_text(model.deep_view()),
{
    let ghost lines = model.deep_view().fields.map_values(|f: BuilderFieldView| slot_line_text(f));
    let name = companion_name(model.record.as_str());
    let mut out = String::from_str("pub struct ");
    out.append(name.as_str());
    out.append(" {\n");
    let ghost head = out@;
    assert(out@ =~= head + lines.take(0).flatten());
    let mut i: usize = 0;
    while i < model.fields.len()
        invariant
            i <= model.fields.len(),
            lines == model.deep_view().fields.map_values(|f: BuilderFieldView| slot_line_text(f)),
            out@ == head + lines.take(i as int).flatten(),
        decreases model.fields.len() - i,
    {
        let field = &model.fields[i];
        let ghost before = out@;
        let slot = slot_type(&field.category);
        out.append("    ");
        out.append(field.name.as_str());
        out.append(": ");
        out.append(slot.as_str());
        out.append(",\n");
        proof {
            lemma_flatten_step(lines, i as int);
            assert(out@ =~= before + lines[i as int]);
            assert(out@ =~= head + lines.take(i + 1).flatten());
        }
        i += 1;
    }
    assert(lines.take(i as int) =~= lines);
    out.append("}\n");
    out
}

/// The expression that a new companion's slot starts with.
pub fn default_expression(field: &BuilderField) -> (out: String)
    ensures
        out@ == default_text(field.deep_view()),
{
    match field.storage_default {
        StorageDefault::Absent => String::from_str("None"),
        StorageDefault::EmptyCollection => {
            let mut out = String::from_str("Vec::<");
            out.append(inner_type(&field.category));
            out.append(">::new()");
            out
        },
    }
}

/// The factory on the record type.
pub fn factory_operation(model: &BuilderModel) -> (out: String)
    ensures
        out@ == factory_text(model.deep_view()),
{
    let ghost lines = model.deep_view().fields.map_values(
        |f: BuilderFieldView| default_line_text(f),
    );
    let name = companion_name(model.record.as_str());
    let mut out = String::from_str("impl ");
    out.append(model.record.as_str());
    out.append(" {\n    pub fn builder() -> ");
    out.append(name.as_str());
    out.append(" {\n        ");
    out.append(name.as_str());
    out.append(" {\n");
    let ghost head = out@;
    assert(out@ =~= head + lines.take(0).flatten());
    let mut i: usize = 0;
    while i < model.fields.len()
        invariant
            i <= model.fields.len(),
            lines == model.deep_view().fields.map_values(
                |f: BuilderFieldView| default_line_text(f),
            ),
            out@ == head + lines.take(i as int).flatten(),
        decreases model.fields.len() - i,
    {
        let field = &model.fields[i];
        let ghost before = out@;
        let start = default_expression(field);
        out.append("            ");
        out.append(field.name.as_str());
        out.append(": ");
        out.append(start.as_str());
        out.append(",\n");
        proof {
            lemma_flatten_step(lines, i as int);
            assert(out@ =~= before + lines[i as int]);
            assert(out@ =~= head + lines.take(i + 1).flatten());
        }
        i += 1;
    }
    assert(lines.take(i as int) =~= lines);
    out.append("        }\n    }\n}\n");
    out
}

/// One setter of the field `field`.
pub fn setter_operation(field: &BuilderField, setter: &SetterSpec) -> (out: String)
    ensures
        out@ == setter_text(field.deep_view(), setter.deep_view()),
{
    let mut out = String::from_str("    pub fn ");
    out.append(setter.name.as_str());
    match setter.behavior {
        SetterBehavior::Replace => {
            let mut stored = String::new();
            match field.storage_default {
                StorageDefault::Absent => {
                    stored.append("Some(");
                    stored.append(field.name.as_str());
                    stored.append(")");
                    assert(stored@ =~= "Some("@ + field.name@ + ")"@);
                },
                StorageDefault::EmptyCollection => {
                    stored.append(field.name.as_str());
                    assert(stored@ =~= field.name@);
                },
            }
            out.append("(&mut self, ");
            out.append(field.name.as_str());
            out.append(": ");
            out.append(setter.parameter_type.as_str());
            out.append(") -> &mut Self {\n        self.");
            out.append(field.name.as_str());
            out.append(" = ");
            out.append(stored.as_str());
            out.append(";\n        self\n    }\n");
        },
        SetterBehavior::AppendItem => {
            out.append("(&mut self, item: ");
            out.append(setter.parameter_type.as_str());
            out.append(") -> &mut Self {\n        self.");
            out.append(field.name.as_str());
            out.append(".push(item);\n        self\n    }\n");
        },
    }
    out
}

/// The setters on the companion.
pub fn setter_operations(model: &BuilderModel) -> (out: String)
    ensures
        out@ == setters_text(model.deep_view()),
{
    let ghost blocks = model.deep_view().fields.map_values(
        |f: BuilderFieldView| field_setters_text(f),
    );
    let name = companion_name(model.record.as_str());
    let mut out = String::from_str("impl ");
    out.append(name.as_str());
    out.append(" {\n");
    let ghost head = out@;
    assert(out@ =~= head + blocks.take(0).flatten());
    let mut i: usize = 0;
    while i < model.fields.len()
        invariant
            i <= model.fields.len(),
            blocks == model.deep_view().fields.map_values(
                |f: BuilderFieldView| field_setters_text(f),
            ),
            out@ == head + blocks.take(i as int).flatten(),
        decreases model.fields.len() - i,
    {
        let field = &model.fields[i];
        let ghost field_view = field.deep_view();
        let ghost texts = field_view.setters.map_values(
            |s: SetterSpecView| setter_text(field_view, s),
        );
        let ghost before = out@;
        let mut j: usize = 0;
        assert(out@ =~= before + texts.take(0).flatten());
        while j < field.setters.len()
            invariant
                j <= field.setters.len(),
                field_view == field.deep_view(),
                texts == field_view.setters.map_values(
                    |s: SetterSpecView| setter_text(field_view, s),
                ),
                out@ == before + texts.take(j as int).flatten(),
            decreases field.setters.len() - j,
        {
            let one = setter_operation(field, &field.setters[j]);
            out.append(one.as_str());
            proof {
                lemma_flatten_step(texts, j as int);
                assert(out@ =~= before + texts.take(j + 1).flatten());
            }
            j += 1;
        }
        proof {
            assert(texts.take(j as int) =~= texts);
            lemma_flatten_step(blocks, i as int);
            assert(out@ =~= head + blocks.take(i + 1).flatten());
        }
        i += 1;
    }
    assert(blocks.take(i as int) =~= blocks);
    out.append("}\n");
    out
}

/// What the construction operation reports when the required field `name`
/// was never set.
pub fn missing_message(name: &str) -> (out: String)
    ensures
        out@ == missing_message_text(name@),
{
    let mut out = String::from_str("Required parameter `");
    out.append(name);
    out.append("` not specified");
    out
}

/// The expression that takes the required field `name` out of its slot, or
/// leaves the construction operation with the field's error.
pub fn required_option_getter(name: &str) -> (out: String)
    ensures
        out@ == required_getter_text(name@),
{
    let message = missing_message(name);
    let mut out = String::from_str(name);
    out.append(".take().ok_or(\"");
    out.append(message.as_str());
    out.append("\")?");
    out
}

/// The expression that takes the field's value out of its slot.
pub fn extraction_expression(field: &BuilderField) -> (out: String)
    ensures
        out@ == extraction_text(field.deep_view()),
{
    match field.extraction {
        Extraction::TakeRequired => required_option_getter(field.name.as_str()),
        Extraction::TakeOptional => {
            let mut out = field.name.clone();
            out.append(".take()");
            out
        },
        Extraction::Snapshot => {
            let mut out = field.name.clone();
            out.append(".clone()");
            out
        },
    }
}

/// The construction operation on the companion.
pub fn construction_operation(model: &BuilderModel) -> (out: String)
    ensures
        out@ == construction_text(model.deep_view()),
{
    let ghost lines = model.deep_view().fields.map_values(
        |f: BuilderFieldView| extraction_line_text(f),
    );
    let name = companion_name(model.record.as_str());
    let mut out = String::from_str("impl ");
    out.append(name.as_str());
    out.append(" {\n    pub fn build(&mut self) -> Result<");
    out.append(model.record.as_str());
    out.append(", Box<dyn std::error::Error>> {\n        Ok(");
    out.append(model.record.as_str());
    out.append(" {\n");
    let ghost head = out@;
    assert(out@ =~= head + lines.take(0).flatten());
    let mut i: usize = 0;
    while i < model.fields.len()
        invariant
            i <= model.fields.len(),
            lines == model.deep_view().fields.map_values(
                |f: BuilderFieldView| extraction_line_text(f),
            ),
            out@ == head + lines.take(i as int).flatten(),
        decreases model.fields.len() - i,
    {
        let field = &model.fields[i];
        let ghost before = out@;
        let taken = extraction_expression(field);
        out.append("            ");
        out.append(field.name.as_str());
        out.append(": self.");
        out.append(taken.as_str());
        out.append(",\n");
        proof {
            lemma_flatten_step(lines, i as int);
            assert(out@ =~= before + lines[i as int]);
            assert(out@ =~= head + lines.take(i + 1).flatten());
        }
        i += 1;
    }
    assert(lines.take(i as int) =~= lines);
    out.append("        })\n    }\n}\n");
    out
}

/// The four blocks of a model.
pub fn emit(model: &BuilderModel) -> (out: Expansion)
    ensures
        out.deep_view() == expansion_text(model.deep_view()),
{
    Expansion {
        companion_type: companion_type(model),
        factory: factory_operation(model),
        setters: setter_operations(model),
        construction: construction_operation(model),
    }
}

} // verus!
