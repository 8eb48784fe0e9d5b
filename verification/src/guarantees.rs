//! What holds of every model that synthesis accepts and of every run of the
//! companion's operations.

use vstd::prelude::*;
use crate::classify::{
    classify_field_spec, classify_fields_spec, ClassifiedFieldView, FieldCategoryView,
};
use crate::companion::{
    construct_result, construct_slots, default_slot, extracted_value, first_missing, is_missing,
    new_slots,
    run_calls, set_slots, setter_field, setter_place, slots_fit, ArgumentView, CallView,
    ConstructionErrorView, FieldValueView, SlotView,
};
use crate::descriptor::FieldDescriptorView;
use crate::error::SynthesisErrorView;
use crate::emit::{companion_name_text, companion_type_text, slot_line_text};
use crate::model::{
    assemble_spec, first_repeat, repeats_earlier, setter_names, BuilderFieldView, BuilderModelView,
};
use crate::search::{
    least_index, lemma_least_index_from, lemma_least_index_is, lemma_least_index_none,
};
use crate::text::{lemma_flatten_locate, lemma_flatten_offsets, lemma_flatten_step};

verus! {

/// Where no setter name occurs twice, two different setters, of one field or
/// of two, have different names.
pub proof fn lemma_setter_names_distinct(
    fields: Seq<BuilderFieldView>,
    i: int,
    j: int,
    k: int,
    l: int,
)
    requires
        setter_names(fields).no_duplicates(),
        0 <= i < fields.len(),
        0 <= j < fields[i].setters.len(),
        0 <= k < fields.len(),
        0 <= l < fields[k].setters.len(),
        i != k || j != l,
    ensures
        fields[i].setters[j].name != fields[k].setters[l].name,
{
    let per_field = fields.map_values(|f: BuilderFieldView| f.setter_names());
    lemma_flatten_locate(per_field, i, j);
    lemma_flatten_locate(per_field, k, l);
    if i < k {
        lemma_flatten_offsets(per_field, i, k);
    } else if k < i {
        lemma_flatten_offsets(per_field, k, i);
    }
}

/// A model that assembly accepts is well formed: every field's storage,
/// extraction and setters are those of its category, and no two setters
/// share a name.
pub proof fn lemma_assembled_is_well_formed(record: Seq<char>, fields: Seq<ClassifiedFieldView>)
    requires
        assemble_spec(record, fields) is Ok,
    ensures
        assemble_spec(record, fields)->Ok_0.wf(),
{
    let model = assemble_spec(record, fields)->Ok_0;
    let names = setter_names(model.fields);
    let repeats = |k: int| repeats_earlier(names, k);
    assert(first_repeat(names) == least_index(names.len() as int, repeats));
    lemma_least_index_from(0, names.len() as int, repeats);
    assert forall|a: int, b: int|
        0 <= a < names.len() && 0 <= b < names.len() && a != b implies names[a] != names[b] by {
        if a < b {
            assert(!repeats(b));
        } else {
            assert(!repeats(a));
        }
    }
}

/// In a well-formed model a setter is found under its name: looking up the
/// name of setter `j` of field `i` leads to field `i` and to setter `j`.
pub proof fn lemma_setter_lookup(model: BuilderModelView, i: int, j: int)
    requires
        model.wf(),
        0 <= i < model.fields.len(),
        0 <= j < model.fields[i].setters.len(),
    ensures
        setter_field(model.fields, model.fields[i].setters[j].name) == Some(i),
        setter_place(model.fields[i], model.fields[i].setters[j].name) == Some(j),
{
    let fields = model.fields;
    let name = fields[i].setters[j].name;
    let in_field = |e: int| fields[i].setters[e].name == name;
    assert forall|e: int| 0 <= e < j implies !#[trigger] in_field(e) by {
        lemma_setter_names_distinct(fields, i, e, i, j);
    }
    lemma_least_index_is(fields[i].setters.len() as int, in_field, j);
    let has = |k: int| setter_place(fields[k], name) is Some;
    assert forall|k: int| 0 <= k < i implies !#[trigger] has(k) by {
        let in_other = |e: int| fields[k].setters[e].name == name;
        assert forall|e: int| 0 <= e < fields[k].setters.len() implies !#[trigger] in_other(e) by {
            lemma_setter_names_distinct(fields, k, e, i, j);
        }
        lemma_least_index_none(fields[k].setters.len() as int, in_other);
    }
    lemma_least_index_is(fields.len() as int, has, i);
}

/// What the category of a well-formed field decides. Construction fails at
/// a required field exactly when its slot is empty, and never at an
/// optional or accumulating field. An accumulating field starts with an
/// empty list. Every field has a setter, and the first one is named like
/// the field and replaces.
pub proof fn lemma_category_decides<T>(field: BuilderFieldView, slot: SlotView<T>)
    requires
        field.wf(),
    ensures
        is_missing(field, slot) <==> field.category is Required && slot == SlotView::<T>::Single(
            None,
        ),
        field.category is Accumulating ==> default_slot::<T>(field.storage_default)
            == SlotView::<T>::Many(Seq::empty()),
        field.setters.len() >= 1,
        field.setters[0].name == field.name,
        field.setters[0].behavior is Replace,
{
}

/// A new companion has one slot per field, each of the kind that its field
/// asks for.
pub proof fn lemma_new_slots_fit<T>(fields: Seq<BuilderFieldView>)
    ensures
        slots_fit(fields, new_slots::<T>(fields)),
{
}

/// A setter changes the slot of its own field and no other, and leaves
/// every slot of the kind that it was.
pub proof fn lemma_set_changes_one_slot<T>(
    fields: Seq<BuilderFieldView>,
    slots: Seq<SlotView<T>>,
    name: Seq<char>,
    argument: ArgumentView<T>,
)
    requires
        slots_fit(fields, slots),
        set_slots(fields, slots, name, argument) is Some,
    ensures
        setter_field(fields, name) is Some,
        0 <= setter_field(fields, name)->Some_0 < fields.len(),
        slots_fit(fields, set_slots(fields, slots, name, argument)->Some_0),
        forall|k: int|
            0 <= k < slots.len() && k != setter_field(fields, name)->Some_0 ==> set_slots(
                fields,
                slots,
                name,
                argument,
            )->Some_0[k] == slots[k],
{
    lemma_least_index_from(
        0,
        fields.len() as int,
        |i: int| setter_place(fields[i], name) is Some,
    );
}

/// Construction leaves one slot per field, each of the kind that it was.
pub proof fn lemma_construct_keeps_fit<T>(fields: Seq<BuilderFieldView>, slots: Seq<SlotView<T>>)
    requires
        slots_fit(fields, slots),
    ensures
        slots_fit(fields, construct_slots(fields, slots)),
{
}

/// The replace setter of a required or optional field, called with a value,
/// puts that value into the field's slot, whatever the slot held.
pub proof fn lemma_replace_value<T>(
    model: BuilderModelView,
    slots: Seq<SlotView<T>>,
    i: int,
    value: T,
)
    requires
        model.wf(),
        slots_fit(model.fields, slots),
        0 <= i < model.fields.len(),
        !(model.fields[i].category is Accumulating),
    ensures
        set_slots(model.fields, slots, model.fields[i].name, ArgumentView::One(value)) == Some(
            slots.update(i, SlotView::Single(Some(value))),
        ),
{
    assert(model.fields[i].wf());
    lemma_setter_lookup(model, i, 0);
}

/// The replace setter of an accumulating field, called with a list, puts
/// that list into the field's slot, whatever the slot held.
pub proof fn lemma_replace_list<T>(
    model: BuilderModelView,
    slots: Seq<SlotView<T>>,
    i: int,
    items: Seq<T>,
)
    requires
        model.wf(),
        slots_fit(model.fields, slots),
        0 <= i < model.fields.len(),
        model.fields[i].category is Accumulating,
    ensures
        set_slots(model.fields, slots, model.fields[i].name, ArgumentView::Many(items)) == Some(
            slots.update(i, SlotView::Many(items)),
        ),
{
    assert(model.fields[i].wf());
    lemma_setter_lookup(model, i, 0);
}

/// The appender of an accumulating field, called with an item, puts that
/// item behind those that the field's slot holds.
pub proof fn lemma_append_item<T>(
    model: BuilderModelView,
    slots: Seq<SlotView<T>>,
    i: int,
    item: T,
)
    requires
        model.wf(),
        slots_fit(model.fields, slots),
        0 <= i < model.fields.len(),
        model.fields[i].category is Accumulating,
    ensures
        slots[i] is Many,
        set_slots(
            model.fields,
            slots,
            model.fields[i].category->appender,
            ArgumentView::One(item),
        ) == Some(slots.update(i, SlotView::Many(slots[i]->Many_0.push(item)))),
{
    assert(model.fields[i].wf());
    lemma_setter_lookup(model, i, 1);
}

/// Calling the replace setter of a required or optional field twice keeps
/// the second value only: the slots are as if the first call had not
/// happened.
pub proof fn lemma_second_replace_wins<T>(
    model: BuilderModelView,
    slots: Seq<SlotView<T>>,
    i: int,
    first: T,
    second: T,
)
    requires
        model.wf(),
        slots_fit(model.fields, slots),
        0 <= i < model.fields.len(),
        !(model.fields[i].category is Accumulating),
    ensures
        set_slots(model.fields, slots, model.fields[i].name, ArgumentView::One(first)) is Some,
        set_slots(
            model.fields,
            set_slots(model.fields, slots, model.fields[i].name, ArgumentView::One(first))->Some_0,
            model.fields[i].name,
            ArgumentView::One(second),
        ) == Some(slots.update(i, SlotView::Single(Some(second)))),
        set_slots(model.fields, slots, model.fields[i].name, ArgumentView::One(second)) == Some(
            slots.update(i, SlotView::Single(Some(second))),
        ),
{
    lemma_replace_value(model, slots, i, first);
    let once = slots.update(i, SlotView::Single(Some(first)));
    lemma_replace_value(model, once, i, second);
    lemma_replace_value(model, slots, i, second);
    assert(once.update(i, SlotView::Single(Some(second))) =~= slots.update(
        i,
        SlotView::Single(Some(second)),
    ));
}

/// The calls that append `items`, one by one and in order, through the
/// setter named `appender`.
pub open spec fn append_calls<T>(appender: Seq<char>, items: Seq<T>) -> Seq<CallView<T>> {
    items.map_values(|item: T| CallView { name: appender, argument: ArgumentView::One(item) })
}

/// Appending items one by one to an accumulating field puts them, in call
/// order, behind what the field's slot held; no other slot changes. In a new
/// companion the slot then holds exactly the appended items.
pub proof fn lemma_appends_accumulate<T>(
    model: BuilderModelView,
    slots: Seq<SlotView<T>>,
    i: int,
    items: Seq<T>,
)
    requires
        model.wf(),
        slots_fit(model.fields, slots),
        0 <= i < model.fields.len(),
        model.fields[i].category is Accumulating,
    ensures
        slots[i] is Many,
        run_calls(model.fields, slots, append_calls(model.fields[i].category->appender, items))
            == slots.update(i, SlotView::Many(slots[i]->Many_0 + items)),
        slots_fit(
            model.fields,
            run_calls(model.fields, slots, append_calls(model.fields[i].category->appender, items)),
        ),
    decreases items.len(),
{
    let appender = model.fields[i].category->appender;
    assert(model.fields[i].wf());
    if items.len() == 0 {
        assert(slots[i]->Many_0 + items =~= slots[i]->Many_0);
        assert(slots.update(i, SlotView::Many(slots[i]->Many_0)) =~= slots);
    } else {
        let calls = append_calls(appender, items);
        let earlier = items.drop_last();
        assert(calls.drop_last() =~= append_calls(appender, earlier));
        lemma_appends_accumulate(model, slots, i, earlier);
        let before = run_calls(model.fields, slots, append_calls(appender, earlier));
        lemma_append_item(model, before, i, items.last());
        assert((slots[i]->Many_0 + earlier).push(items.last()) =~= slots[i]->Many_0 + items);
        assert(before.update(i, SlotView::Many(before[i]->Many_0.push(items.last())))
            =~= slots.update(i, SlotView::Many(slots[i]->Many_0 + items)));
    }
}

/// Construction fails exactly when some required field's slot is empty,
/// and then reports the first such field in declaration order; otherwise
/// the record holds, for every field in declaration order, what its slot
/// held.
pub proof fn lemma_first_missing_is_reported<T>(
    fields: Seq<BuilderFieldView>,
    slots: Seq<SlotView<T>>,
)
    ensures
        match construct_result(fields, slots) {
            Err(ConstructionErrorView::MissingRequiredField { field }) => exists|i: int|
                {
                    &&& 0 <= i < fields.len()
                    &&& #[trigger] is_missing(fields[i], slots[i])
                    &&& field == fields[i].name
                    &&& forall|j: int| 0 <= j < i ==> !#[trigger] is_missing(fields[j], slots[j])
                },
            Ok(record) => {
                &&& record.len() == fields.len()
                &&& forall|i: int|
                    0 <= i < fields.len() ==> !#[trigger] is_missing(fields[i], slots[i])
                &&& forall|i: int|
                    0 <= i < fields.len() ==> #[trigger] record[i] == extracted_value(
                        fields[i].extraction,
                        slots[i],
                    )
            },
        },
{
    let missing = |i: int| is_missing(fields[i], slots[i]);
    assert(first_missing(fields, slots) == least_index(fields.len() as int, missing));
    lemma_least_index_from(0, fields.len() as int, missing);
    match first_missing(fields, slots) {
        Some(i) => {
            assert(missing(i));
            assert forall|j: int| 0 <= j < i implies !#[trigger] is_missing(
                fields[j],
                slots[j],
            ) by {
                assert(!missing(j));
            }
        },
        None => {
            assert forall|i: int| 0 <= i < fields.len() implies !#[trigger] is_missing(
                fields[i],
                slots[i],
            ) by {
                assert(!missing(i));
            }
        },
    }
}

/// Where several required fields are unset, the one that comes first in
/// declaration order decides the error: if the slot of required field `i`
/// is empty and no required field before `i` has an empty slot, then
/// construction fails with `MissingRequiredField` naming field `i`.
pub proof fn lemma_earliest_unset_field_decides<T>(
    fields: Seq<BuilderFieldView>,
    slots: Seq<SlotView<T>>,
    i: int,
)
    requires
        0 <= i < fields.len(),
        is_missing(fields[i], slots[i]),
        forall|j: int| 0 <= j < i ==> !#[trigger] is_missing(fields[j], slots[j]),
    ensures
        construct_result(fields, slots) == Err::<Seq<FieldValueView<T>>, ConstructionErrorView>(
            ConstructionErrorView::MissingRequiredField { field: fields[i].name },
        ),
{
    let missing = |k: int| is_missing(fields[k], slots[k]);
    assert(missing(i));
    assert forall|j: int| 0 <= j < i implies !#[trigger] missing(j) by {
        assert(!is_missing(fields[j], slots[j]));
    }
    lemma_least_index_is(fields.len() as int, missing, i);
}

/// Constructing from a new companion, with no setter called, fails with
/// `MissingRequiredField` naming the first required field in declaration
/// order.
pub proof fn lemma_nothing_set_reports_first_required<T>(model: BuilderModelView, i: int)
    requires
        model.wf(),
        0 <= i < model.fields.len(),
        model.fields[i].category is Required,
        forall|j: int| 0 <= j < i ==> !((#[trigger] model.fields[j]).category is Required),
    ensures
        construct_result(model.fields, new_slots::<T>(model.fields)) == Err::<
            Seq<FieldValueView<T>>,
            ConstructionErrorView,
        >(ConstructionErrorView::MissingRequiredField { field: model.fields[i].name }),
{
    let fields = model.fields;
    let slots = new_slots::<T>(fields);
    assert(fields[i].wf());
    assert forall|j: int| 0 <= j < i implies !#[trigger] is_missing(fields[j], slots[j]) by {
        assert(fields[j].wf());
    }
    lemma_earliest_unset_field_decides(fields, slots, i);
}

/// An optional field that was left unset does not stop construction, and
/// the record holds nothing for it.
pub proof fn lemma_unset_optional_is_absent<T>(
    model: BuilderModelView,
    slots: Seq<SlotView<T>>,
    i: int,
)
    requires
        model.wf(),
        slots_fit(model.fields, slots),
        0 <= i < model.fields.len(),
        model.fields[i].category is Optional,
        slots[i] == SlotView::<T>::Single(None),
    ensures
        !is_missing(model.fields[i], slots[i]),
        construct_result(model.fields, slots) is Ok ==> construct_result(
            model.fields,
            slots,
        )->Ok_0[i] == FieldValueView::<T>::Maybe(None),
        (forall|j: int|
            0 <= j < model.fields.len() && (#[trigger] model.fields[j]).category is Required
                ==> slots[j] != SlotView::<T>::Single(None)) ==> construct_result(
            model.fields,
            slots,
        ) is Ok,
{
    let fields = model.fields;
    assert(fields[i].wf());
    lemma_first_missing_is_reported(fields, slots);
    if forall|j: int|
        0 <= j < fields.len() && (#[trigger] fields[j]).category is Required ==> slots[j]
            != SlotView::<T>::Single(None) {
        if construct_result(fields, slots) is Err {
            let k = choose|k: int|
                0 <= k < fields.len() && #[trigger] is_missing(fields[k], slots[k]);
            assert(fields[k].wf());
            assert(fields[k].category is Required);
        }
    }
}

/// In a new companion the slot of a required or optional field is empty
/// and that of an accumulating field holds an empty list.
pub proof fn lemma_new_slot_is_default<T>(model: BuilderModelView, i: int)
    requires
        model.wf(),
        0 <= i < model.fields.len(),
    ensures
        new_slots::<T>(model.fields)[i] == if model.fields[i].category is Accumulating {
            SlotView::<T>::Many(Seq::empty())
        } else {
            SlotView::<T>::Single(None)
        },
{
    assert(model.fields[i].wf());
}

/// Setter calls leave alone the slot of a field that none of them names.
pub proof fn lemma_calls_leave_other_slots<T>(
    fields: Seq<BuilderFieldView>,
    slots: Seq<SlotView<T>>,
    calls: Seq<CallView<T>>,
    i: int,
)
    requires
        slots_fit(fields, slots),
        0 <= i < fields.len(),
        forall|c: int|
            0 <= c < calls.len() ==> setter_field(fields, #[trigger] calls[c].name) != Some(i),
    ensures
        slots_fit(fields, run_calls(fields, slots, calls)),
        run_calls(fields, slots, calls)[i] == slots[i],
    decreases calls.len(),
{
    if calls.len() > 0 {
        let earlier = calls.drop_last();
        assert forall|c: int| 0 <= c < earlier.len() implies setter_field(
            fields,
            #[trigger] earlier[c].name,
        ) != Some(i) by {
            assert(earlier[c] == calls[c]);
        }
        lemma_calls_leave_other_slots(fields, slots, earlier, i);
        let before = run_calls(fields, slots, earlier);
        let last = calls[calls.len() - 1];
        assert(setter_field(fields, last.name) != Some(i));
        if set_slots(fields, before, last.name, last.argument) is Some {
            lemma_set_changes_one_slot(fields, before, last.name, last.argument);
        }
    }
}

/// The calls that set the fields named by `order`, in that order, each
/// through its replace setter and to its value in `values`.
pub open spec fn replace_calls<T>(
    fields: Seq<BuilderFieldView>,
    order: Seq<int>,
    values: Seq<T>,
) -> Seq<CallView<T>> {
    order.map_values(
        |k: int| CallView { name: fields[k].name, argument: ArgumentView::One(values[k]) },
    )
}

/// After the replace setters of some required or optional fields were
/// called on a new companion, in any order, each of those fields' slots
/// holds the field's value and every other slot is still empty.
pub proof fn lemma_slots_after_replace_calls<T>(
    model: BuilderModelView,
    order: Seq<int>,
    values: Seq<T>,
)
    requires
        model.wf(),
        values.len() == model.fields.len(),
        forall|i: int|
            0 <= i < model.fields.len() ==> !((#[trigger] model.fields[i]).category
                is Accumulating),
        forall|k: int| 0 <= k < order.len() ==> 0 <= #[trigger] order[k] < model.fields.len(),
    ensures
        slots_fit(
            model.fields,
            run_calls(
                model.fields,
                new_slots::<T>(model.fields),
                replace_calls(model.fields, order, values),
            ),
        ),
        forall|i: int|
            0 <= i < model.fields.len() ==> #[trigger] run_calls(
                model.fields,
                new_slots::<T>(model.fields),
                replace_calls(model.fields, order, values),
            )[i] == if order.contains(i) {
                SlotView::Single(Some(values[i]))
            } else {
                SlotView::Single(None)
            },
    decreases order.len(),
{
    let fields = model.fields;
    let calls = replace_calls(fields, order, values);
    if order.len() == 0 {
        assert forall|i: int| 0 <= i < fields.len() implies #[trigger] new_slots::<T>(fields)[i]
            == SlotView::<T>::Single(None) by {
            lemma_new_slot_is_default::<T>(model, i);
        }
    } else {
        let earlier = order.drop_last();
        let k = order.last();
        assert(calls.drop_last() =~= replace_calls(fields, earlier, values));
        lemma_slots_after_replace_calls(model, earlier, values);
        let before = run_calls(
            fields,
            new_slots::<T>(fields),
            replace_calls(fields, earlier, values),
        );
        lemma_replace_value(model, before, k, values[k]);
        let after = run_calls(fields, new_slots::<T>(fields), calls);
        assert(after == before.update(k, SlotView::Single(Some(values[k]))));
        assert forall|i: int| 0 <= i < fields.len() implies #[trigger] after[i] == if order.contains(
            i,
        ) {
            SlotView::Single(Some(values[i]))
        } else {
            SlotView::Single(None)
        } by {
            if i == k {
                assert(order[order.len() - 1] == i);
            } else if earlier.contains(i) {
                let e = choose|e: int| 0 <= e < earlier.len() && earlier[e] == i;
                assert(order[e] == i);
            } else if order.contains(i) {
                let e = choose|e: int| 0 <= e < order.len() && order[e] == i;
                assert(earlier[e] == i);
            }
        }
    }
}

/// For a record with only required fields: after every field was set
/// through its replace setter, in any order, construction succeeds and the
/// record holds exactly the values that were set, field by field.
pub proof fn lemma_round_trip_of_required_fields<T>(
    model: BuilderModelView,
    order: Seq<int>,
    values: Seq<T>,
)
    requires
        model.wf(),
        values.len() == model.fields.len(),
        forall|i: int|
            0 <= i < model.fields.len() ==> (#[trigger] model.fields[i]).category is Required,
        forall|k: int| 0 <= k < order.len() ==> 0 <= #[trigger] order[k] < model.fields.len(),
        forall|i: int| 0 <= i < model.fields.len() ==> order.contains(i),
    ensures
        construct_result(
            model.fields,
            run_calls(
                model.fields,
                new_slots::<T>(model.fields),
                replace_calls(model.fields, order, values),
            ),
        ) == Ok::<Seq<FieldValueView<T>>, ConstructionErrorView>(
            values.map_values(|value: T| FieldValueView::Scalar(value)),
        ),
{
    let fields = model.fields;
    let slots = run_calls(fields, new_slots::<T>(fields), replace_calls(fields, order, values));
    lemma_slots_after_replace_calls(model, order, values);
    lemma_first_missing_is_reported(fields, slots);
    assert forall|i: int| 0 <= i < fields.len() implies !is_missing(fields[i], slots[i]) by {
        assert(order.contains(i));
    }
    let record = construct_result(fields, slots)->Ok_0;
    assert forall|i: int| 0 <= i < fields.len() implies record[i] == FieldValueView::Scalar(
        values[i],
    ) by {
        assert(order.contains(i));
        assert(fields[i].wf());
    }
    assert(record =~= values.map_values(|value: T| FieldValueView::Scalar(value)));
}

/// Synthesis keeps declaration order: where the fields of a record are
/// classified and the model is assembled from that, the model has one field
/// per field of the record, under the same name and with the field's own
/// category at the same place, and a new companion has one slot per field.
pub proof fn lemma_declaration_order_is_kept<T>(
    record: Seq<char>,
    fields: Seq<FieldDescriptorView>,
    model: BuilderModelView,
)
    requires
        classify_fields_spec(fields) is Ok,
        assemble_spec(record, classify_fields_spec(fields)->Ok_0) == Ok::<
            BuilderModelView,
            SynthesisErrorView,
        >(model),
    ensures
        model.fields.len() == fields.len(),
        new_slots::<T>(model.fields).len() == fields.len(),
        forall|i: int|
            0 <= i < fields.len() ==> (#[trigger] model.fields[i]).name == fields[i].name,
        forall|i: int|
            0 <= i < fields.len() ==> classify_field_spec(fields[i]) == Ok::<
                FieldCategoryView,
                SynthesisErrorView,
            >((#[trigger] model.fields[i]).category),
{
    let failing = |i: int| classify_field_spec(fields[i]) is Err;
    lemma_least_index_from(0, fields.len() as int, failing);
    assert forall|i: int| 0 <= i < fields.len() implies classify_field_spec(fields[i]) is Ok by {
        assert(!failing(i));
    }
}

/// In the companion type's definition the slots stand in declaration
/// order: the line of field `i` comes behind the lines of the fields before
/// `i` and before the lines of the fields behind it.
pub proof fn lemma_slot_lines_in_declaration_order(model: BuilderModelView, i: int)
    requires
        0 <= i < model.fields.len(),
    ensures
        companion_type_text(model) == "pub struct "@ + companion_name_text(model.record)
            + " {\n"@ + model.fields.take(i).map_values(
            |f: BuilderFieldView| slot_line_text(f),
        ).flatten() + slot_line_text(model.fields[i]) + model.fields.skip(i + 1).map_values(
            |f: BuilderFieldView| slot_line_text(f),
        ).flatten() + "}\n"@,
{
    let line = |f: BuilderFieldView| slot_line_text(f);
    let lines = model.fields.map_values(line);
    assert(lines.take(i) =~= model.fields.take(i).map_values(line));
    assert(lines.skip(i + 1) =~= model.fields.skip(i + 1).map_values(line));
    lemma_flatten_step(lines, i);
    assert(lines =~= lines.take(i + 1) + lines.skip(i + 1));
    vstd::seq_lib::lemma_flatten_concat(lines.take(i + 1), lines.skip(i + 1));
    let head = "pub struct "@ + companion_name_text(model.record) + " {\n"@;
    assert(head + lines.flatten() + "}\n"@ =~= head + lines.take(i).flatten() + lines[i]
        + lines.skip(i + 1).flatten() + "}\n"@);
}

} // verus!
