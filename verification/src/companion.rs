//! What the emitted operations do when they run: a companion holds one slot
//! per field, setters change one slot each, and construction takes the
//! fields out of their slots in declaration order.

use vstd::prelude::*;
use vstd::string::*;
use crate::emit::{missing_message, missing_message_text};
use crate::error::result_view;
use crate::model::{
    BuilderField, BuilderFieldView, BuilderModel, Extraction, SetterBehavior, StorageDefault,
};
use crate::search::{least_index, least_index_from};
use crate::text::same_text;

verus! {

/// What one slot of a companion holds.
#[derive(Debug, PartialEq, Eq)]
pub enum Slot<T> {
    /// At most one value.
    Single(Option<T>),
    /// A list of items.
    Many(Vec<T>),
}

/// `Slot` as specifications see it: lists as sequences.
pub enum SlotView<T> {
    Single(Option<T>),
    Many(Seq<T>),
}

impl<T> DeepView for Slot<T> {
    type V = SlotView<T>;

    open spec fn deep_view(&self) -> SlotView<T> {
        match self {
            Slot::Single(value) => SlotView::Single(*value),
            Slot::Many(items) => SlotView::Many(items@),
        }
    }
}

/// What a setter is called with.
#[derive(Debug, PartialEq, Eq)]
pub enum Argument<T> {
    /// One value, or one item.
    One(T),
    /// A whole list.
    Many(Vec<T>),
}

/// `Argument` as specifications see it: lists as sequences.
pub enum ArgumentView<T> {
    One(T),
    Many(Seq<T>),
}

impl<T> DeepView for Argument<T> {
    type V = ArgumentView<T>;

    open spec fn deep_view(&self) -> ArgumentView<T> {
        match self {
            Argument::One(value) => ArgumentView::One(*value),
            Argument::Many(items) => ArgumentView::Many(items@),
        }
    }
}

/// The value of one field of a constructed record.
#[derive(Debug, PartialEq, Eq)]
pub enum FieldValue<T> {
    /// The value of a required field.
    Scalar(T),
    /// The value of an optional field, or nothing.
    Maybe(Option<T>),
    /// The items of an accumulating field.
    Items(Vec<T>),
}

/// `FieldValue` as specifications see it: lists as sequences.
pub enum FieldValueView<T> {
    Scalar(T),
    Maybe(Option<T>),
    Items(Seq<T>),
}

impl<T> DeepView for FieldValue<T> {
    type V = FieldValueView<T>;

    open spec fn deep_view(&self) -> FieldValueView<T> {
        match self {
            FieldValue::Scalar(value) => FieldValueView::Scalar(*value),
            FieldValue::Maybe(value) => FieldValueView::Maybe(*value),
            FieldValue::Items(items) => FieldValueView::Items(items@),
        }
    }
}

/// Why construction fails.
#[derive(Debug, PartialEq, Eq)]
pub enum ConstructionError {
    /// The required field `field` was never set.
    MissingRequiredField { field: String },
}

/// `ConstructionError` as specifications see it: text as sequences of characters.
pub enum ConstructionErrorView {
    MissingRequiredField { field: Seq<char> },
}

impl DeepView for ConstructionError {
    type V = ConstructionErrorView;

    open spec fn deep_view(&self) -> ConstructionErrorView {
        match self {
            ConstructionError::MissingRequiredField { field } => ConstructionErrorView::MissingRequiredField {
                field: field@,
            },
        }
    }
}

impl ConstructionError {
    /// The error in words, as the emitted construction operation reports it.
    pub fn message(&self) -> (out: String)
        ensures
            out@ == match self.deep_view() {
                ConstructionErrorView::MissingRequiredField { field } => missing_message_text(field),
            },
    {
        match self {
            ConstructionError::MissingRequiredField { field } => missing_message(field.as_str()),
        }
    }
}

/// What a slot with this default holds in a new companion.
pub open spec fn default_slot<T>(default: StorageDefault) -> SlotView<T> {
    match default {
        StorageDefault::Absent => SlotView::Single(None),
        StorageDefault::EmptyCollection => SlotView::Many(Seq::empty()),
    }
}

/// The slots of a new companion: every slot at its default.
pub open spec fn new_slots<T>(fields: Seq<BuilderFieldView>) -> Seq<SlotView<T>> {
    Seq::new(fields.len(), |i: int| default_slot(fields[i].storage_default))
}

/// Whether the slots are those of a companion of these fields: one slot per
/// field, a list where the field starts as an empty list and a single place
/// elsewhere.
pub open spec fn slots_fit<T>(fields: Seq<BuilderFieldView>, slots: Seq<SlotView<T>>) -> bool {
    &&& slots.len() == fields.len()
    &&& forall|i: int|
        0 <= i < fields.len() ==> ((#[trigger] fields[i]).storage_default is EmptyCollection
            <==> slots[i] is Many)
}

/// The place, among the field's setters, of the first one named `name`.
pub open spec fn setter_place(field: BuilderFieldView, name: Seq<char>) -> Option<int> {
    least_index(field.setters.len() as int, |j: int| field.setters[j].name == name)
}

/// The place of the first field that has a setter named `name`.
pub open spec fn setter_field(fields: Seq<BuilderFieldView>, name: Seq<char>) -> Option<int> {
    least_index(fields.len() as int, |i: int| setter_place(fields[i], name) is Some)
}

/// What a slot holds after a setter with this behaviour was called with
/// `argument`, or `None` where the argument is not of the kind that the
/// setter takes: replacing takes one value for a single place and a whole
/// list for a list, appending takes one item for a list.
pub open spec fn apply_setter<T>(
    behavior: SetterBehavior,
    slot: SlotView<T>,
    argument: ArgumentView<T>,
) -> Option<SlotView<T>> {
    match (behavior, slot, argument) {
        (SetterBehavior::Replace, SlotView::Single(_), ArgumentView::One(value)) => Some(
            SlotView::Single(Some(value)),
        ),
        (SetterBehavior::Replace, SlotView::Many(_), ArgumentView::Many(items)) => Some(
            SlotView::Many(items),
        ),
        (SetterBehavior::AppendItem, SlotView::Many(items), ArgumentView::One(item)) => Some(
            SlotView::Many(items.push(item)),
        ),
        _ => None,
    }
}

/// The slots after the setter named `name` was called with `argument`: the
/// slot of the setter's field changes as `apply_setter` says and every other
/// slot stays. `None` where no setter has that name or the argument is not
/// of the kind that the setter takes.
pub open spec fn set_slots<T>(
    fields: Seq<BuilderFieldView>,
    slots: Seq<SlotView<T>>,
    name: Seq<char>,
    argument: ArgumentView<T>,
) -> Option<Seq<SlotView<T>>> {
    match setter_field(fields, name) {
        Some(i) => {
            let j = setter_place(fields[i], name)->Some_0;
            match apply_setter(fields[i].setters[j].behavior, slots[i], argument) {
                Some(slot) => Some(slots.update(i, slot)),
                None => None,
            }
        },
        None => None,
    }
}

/// One call of a setter: the setter's name and what it is called with.
pub struct CallView<T> {
    pub name: Seq<char>,
    pub argument: ArgumentView<T>,
}

/// The slots after a series of setter calls, made in order. A call that
/// names no setter, or brings the wrong kind of argument, changes nothing.
pub open spec fn run_calls<T>(
    fields: Seq<BuilderFieldView>,
    slots: Seq<SlotView<T>>,
    calls: Seq<CallView<T>>,
) -> Seq<SlotView<T>>
    decreases calls.len(),
{
    if calls.len() == 0 {
        slots
    } else {
        let before = run_calls(fields, slots, calls.drop_last());
        match set_slots(fields, before, calls.last().name, calls.last().argument) {
            Some(after) => after,
            None => before,
        }
    }
}

/// Whether construction fails at this field: it is required and its slot is
/// empty.
pub open spec fn is_missing<T>(field: BuilderFieldView, slot: SlotView<T>) -> bool {
    field.extraction is TakeRequired && slot == SlotView::<T>::Single(None)
}

/// The place of the first field, in declaration order, at which
/// construction fails.
pub open spec fn first_missing<T>(fields: Seq<BuilderFieldView>, slots: Seq<SlotView<T>>) -> Option<
    int,
> {
    least_index(fields.len() as int, |i: int| is_missing(fields[i], slots[i]))
}

/// The value that construction takes out of a slot.
pub open spec fn extracted_value<T>(extraction: Extraction, slot: SlotView<T>) -> FieldValueView<
    T,
> {
    match (extraction, slot) {
        (Extraction::TakeRequired, SlotView::Single(Some(value))) => FieldValueView::Scalar(value),
        (_, SlotView::Single(value)) => FieldValueView::Maybe(value),
        (_, SlotView::Many(items)) => FieldValueView::Items(items),
    }
}

/// What a slot holds after construction took its value: a single place is
/// empty, a list is as before.
pub open spec fn emptied<T>(slot: SlotView<T>) -> SlotView<T> {
    match slot {
        SlotView::Single(_) => SlotView::Single(None),
        SlotView::Many(items) => SlotView::Many(items),
    }
}

/// What construction returns: the error of the first missing required
/// field, or the record with every field's value in declaration order.
pub open spec fn construct_result<T>(
    fields: Seq<BuilderFieldView>,
    slots: Seq<SlotView<T>>,
) -> Result<Seq<FieldValueView<T>>, ConstructionErrorView> {
    match first_missing(fields, slots) {
        Some(i) => Err(ConstructionErrorView::MissingRequiredField { field: fields[i].name }),
        None => Ok(
            Seq::new(fields.len(), |i: int| extracted_value(fields[i].extraction, slots[i])),
        ),
    }
}

/// The slots after construction: values were taken from the slots before
/// the first missing required field, or from all if none is missing; the
/// others are untouched.
pub open spec fn construct_slots<T>(
    fields: Seq<BuilderFieldView>,
    slots: Seq<SlotView<T>>,
) -> Seq<SlotView<T>> {
    let stop = match first_missing(fields, slots) {
        Some(i) => i,
        None => fields.len() as int,
    };
    Seq::new(
        slots.len(),
        |i: int|
            if i < stop {
                emptied(slots[i])
            } else {
                slots[i]
            },
    )
}

/// The place, among the field's setters, of the first one named `name`.
pub fn find_setter_place(field: &BuilderField, name: &str) -> (found: Option<usize>)
    ensures
        match found {
            Some(j) => j < field.setters.len() && setter_place(field.deep_view(), name@) == Some(
                j as int,
            ),
            None => setter_place(field.deep_view(), name@) is None,
        },
{
    let ghost view = field.deep_view();
    let mut j: usize = 0;
    while j < field.setters.len()
        invariant
            j <= field.setters.len(),
            view == field.deep_view(),
            setter_place(view, name@) == least_index_from(
                j as int,
                view.setters.len() as int,
                |j: int| view.setters[j].name == name@,
            ),
        decreases field.setters.len() - j,
    {
        if same_text(field.setters[j].name.as_str(), name) {
            return Some(j);
        }
        j += 1;
    }
    None
}

/// The place of the first field that has a setter named `name`, and the
/// place of that setter among the field's setters.
pub fn find_setter(fields: &Vec<BuilderField>, name: &str) -> (found: Option<(usize, usize)>)
    ensures
        match found {
            Some((i, j)) => {
                &&& i < fields.len()
                &&& j < fields[i as int].setters.len()
                &&& setter_field(fields.deep_view(), name@) == Some(i as int)
                &&& setter_place(fields.deep_view()[i as int], name@) == Some(j as int)
            },
            None => setter_field(fields.deep_view(), name@) is None,
        },
{
    let ghost views = fields.deep_view();
    let mut i: usize = 0;
    while i < fields.len()
        invariant
            i <= fields.len(),
            views == fields.deep_view(),
            setter_field(views, name@) == least_index_from(
                i as int,
                views.len() as int,
                |i: int| setter_place(views[i], name@) is Some,
            ),
        decreases fields.len() - i,
    {
        if let Some(j) = find_setter_place(&fields[i], name) {
            return Some((i, j));
        }
        i += 1;
    }
    None
}

/// A copy of a list.
pub fn copy_items<T: Copy>(items: &Vec<T>) -> (out: Vec<T>)
    ensures
        out@ == items@,
{
    let mut out: Vec<T> = Vec::new();
    let mut i: usize = 0;
    while i < items.len()
        invariant
            i <= items.len(),
            out@ == items@.take(i as int),
        decreases items.len() - i,
    {
        out.push(items[i]);
        assert(out@ =~= items@.take(i + 1));
        i += 1;
    }
    assert(items@.take(i as int) =~= items@);
    out
}

/// A companion of a model: one slot per field of the model.
pub struct Companion<'a, T> {
    model: &'a BuilderModel,
    slots: Vec<Slot<T>>,
}

impl<'a, T> Companion<'a, T> {
    /// The fields of the model that this is a companion of.
    pub closed spec fn fields(&self) -> Seq<BuilderFieldView> {
        self.model.deep_view().fields
    }

    /// What the slots hold, in declaration order of their fields.
    pub closed spec fn slots(&self) -> Seq<SlotView<T>> {
        self.slots.deep_view()
    }

    #[verifier::type_invariant]
    spec fn one_slot_per_field(&self) -> bool {
        self.slots.len() == self.model.fields.len()
    }

    /// A new companion of `model`, with every slot at its default.
    pub fn new(model: &'a BuilderModel) -> (out: Self)
        ensures
            out.fields() == model.deep_view().fields,
            out.slots() == new_slots::<T>(model.deep_view().fields),
            out.slots().len() == out.fields().len(),
    {
        let ghost fields = model.deep_view().fields;
        let mut slots: Vec<Slot<T>> = Vec::new();
        let mut i: usize = 0;
        while i < model.fields.len()
            invariant
                i <= model.fields.len(),
                fields == model.deep_view().fields,
                slots.deep_view() == new_slots::<T>(fields).take(i as int),
            decreases model.fields.len() - i,
        {
            let ghost before = slots.deep_view();
            match model.fields[i].storage_default {
                StorageDefault::Absent => slots.push(Slot::Single(None)),
                StorageDefault::EmptyCollection => slots.push(Slot::Many(Vec::new())),
            }
            assert(slots.deep_view() =~= before.push(new_slots::<T>(fields)[i as int]));
            assert(new_slots::<T>(fields).take(i + 1) =~= before.push(
                new_slots::<T>(fields)[i as int],
            ));
            i += 1;
        }
        assert(new_slots::<T>(fields).take(i as int) =~= new_slots::<T>(fields));
        Companion { model, slots }
    }

    /// The number of slots, which is the number of fields.
    pub fn slot_count(&self) -> (count: usize)
        ensures
            count == self.slots().len(),
            count == self.fields().len(),
    {
        proof {
            use_type_invariant(self);
        }
        self.slots.len()
    }

    /// The slot of the field at place `index` in declaration order.
    pub fn slot(&self, index: usize) -> (slot: Option<&Slot<T>>)
        ensures
            match slot {
                Some(slot) => {
                    &&& index < self.slots().len()
                    &&& slot.deep_view() == self.slots()[index as int]
                },
                None => index >= self.slots().len(),
            },
    {
        if index < self.slots.len() {
            Some(&self.slots[index])
        } else {
            None
        }
    }

    /// Calls the setter named `name` with `argument`. Returns whether there
    /// is such a setter and it takes this kind of argument; if not, nothing
    /// changes.
    pub fn set(&mut self, name: &str, argument: Argument<T>) -> (applied: bool)
        ensures
            final(self).fields() == old(self).fields(),
            final(self).slots().len() == final(self).fields().len(),
            match set_slots(old(self).fields(), old(self).slots(), name@, argument.deep_view()) {
                Some(slots) => applied && final(self).slots() == slots,
                None => !applied && final(self).slots() == old(self).slots(),
            },
    {
        proof {
            use_type_invariant(&*self);
        }
        let ghost before = self.slots.deep_view();
        match find_setter(&self.model.fields, name) {
            None => false,
            Some((i, j)) => {
                let behavior = self.model.fields[i].setters[j].behavior;
                let slot = &mut self.slots[i];
                let applied = match behavior {
                    SetterBehavior::Replace => match argument {
                        Argument::One(value) => match slot {
                            Slot::Single(place) => {
                                *place = Some(value);
                                true
                            },
                            Slot::Many(_) => false,
                        },
                        Argument::Many(items) => match slot {
                            Slot::Many(list) => {
                                *list = items;
                                true
                            },
                            Slot::Single(_) => false,
                        },
                    },
                    SetterBehavior::AppendItem => match argument {
                        Argument::One(item) => match slot {
                            Slot::Many(list) => {
                                list.push(item);
                                true
                            },
                            Slot::Single(_) => false,
                        },
                        Argument::Many(_) => false,
                    },
                };
                proof {
                    if applied {
                        assert(self.slots.deep_view() =~= before.update(
                            i as int,
                            self.slots[i as int].deep_view(),
                        ));
                    } else {
                        assert(self.slots.deep_view() =~= before);
                    }
                }
                applied
            },
        }
    }
}

impl<'a, T: Copy> Companion<'a, T> {
    /// Constructs the record: takes every field's value out of its slot, in
    /// declaration order, and stops at the first required field whose slot
    /// is empty, with that field's error. The record holds one value per
    /// field, in declaration order.
    pub fn build(&mut self) -> (result: Result<Vec<FieldValue<T>>, ConstructionError>)
        ensures
            final(self).fields() == old(self).fields(),
            final(self).slots().len() == final(self).fields().len(),
            result_view(result) == construct_result(old(self).fields(), old(self).slots()),
            final(self).slots() == construct_slots(old(self).fields(), old(self).slots()),
    {
        proof {
            use_type_invariant(&*self);
        }
        let ghost fields = self.fields();
        let ghost before = self.slots();
        let mut record: Vec<FieldValue<T>> = Vec::new();
        let mut i: usize = 0;
        assert(self.slots.deep_view() =~= before);
        while i < self.model.fields.len()
            invariant
                i <= self.model.fields.len(),
                self.slots.len() == self.model.fields.len(),
                fields == self.model.deep_view().fields,
                fields == old(self).fields(),
                before == old(self).slots(),
                before.len() == fields.len(),
                first_missing(fields, before) == least_index_from(
                    i as int,
                    fields.len() as int,
                    |k: int| is_missing(fields[k], before[k]),
                ),
                self.slots.deep_view() == Seq::new(
                    before.len(),
                    |k: int|
                        if k < i {
                            emptied(before[k])
                        } else {
                            before[k]
                        },
                ),
                record.deep_view() == Seq::new(
                    i as nat,
                    |k: int| extracted_value(fields[k].extraction, before[k]),
                ),
            decreases self.model.fields.len() - i,
        {
            let field = &self.model.fields[i];
            let ghost slots_before = self.slots.deep_view();
            let ghost record_before = record.deep_view();
            assert(slots_before[i as int] == before[i as int]);
            let value = match &mut self.slots[i] {
                Slot::Single(place) => {
                    let taken = place.take();
                    match field.extraction {
                        Extraction::TakeRequired => match taken {
                            Some(value) => FieldValue::Scalar(value),
                            None => {
                                assert(self.slots.deep_view() =~= slots_before);
                                assert(self.slots.deep_view() =~= construct_slots(fields, before));
                                return Err(
                                    ConstructionError::MissingRequiredField {
                                        field: field.name.clone(),
                                    },
                                );
                            },
                        },
                        _ => FieldValue::Maybe(taken),
                    }
                },
                Slot::Many(list) => FieldValue::Items(copy_items(list)),
            };
            record.push(value);
            proof {
                assert(!is_missing(fields[i as int], before[i as int]));
                assert(self.slots.deep_view() =~= slots_before.update(
                    i as int,
                    emptied(before[i as int]),
                ));
                assert(record.deep_view() =~= record_before.push(
                    extracted_value(fields[i as int].extraction, before[i as int]),
                ));
            }
            i += 1;
        }
        assert(self.slots.deep_view() =~= construct_slots(fields, before));
        Ok(record)
    }
}

} // verus!
