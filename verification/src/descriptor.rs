//! What a frontend tells about a record type: its name, its fields in
//! declaration order, the shape of each field's declared type and the
//! annotations on each field.

use vstd::prelude::*;
use vstd::string::*;
use crate::text::same_text;

verus! {

/// One argument between the angle brackets of a path segment.
#[derive(Debug, PartialEq, Eq)]
pub enum TypeArgument {
    /// A type, as source text.
    Type(String),
    /// Anything else: a lifetime, a constant, a binding.
    Other,
}

/// `TypeArgument` as specifications see it: text as sequences of characters.
pub enum TypeArgumentView {
    Type(Seq<char>),
    Other,
}

impl DeepView for TypeArgument {
    type V = TypeArgumentView;

    open spec fn deep_view(&self) -> TypeArgumentView {
        match self {
            TypeArgument::Type(text) => TypeArgumentView::Type(text@),
            TypeArgument::Other => TypeArgumentView::Other,
        }
    }
}

/// What follows the name in a path segment.
#[derive(Debug, PartialEq, Eq)]
pub enum SegmentArguments {
    /// Nothing, as in `String`.
    Absent,
    /// Arguments in angle brackets, as in `Vec<u8>`.
    AngleBracketed(Vec<TypeArgument>),
    /// Arguments in parentheses, as in `Fn(u8) -> u8`.
    Parenthesized,
}

/// `SegmentArguments` as specifications see it: text as sequences of characters.
pub enum SegmentArgumentsView {
    Absent,
    AngleBracketed(Seq<TypeArgumentView>),
    Parenthesized,
}

impl DeepView for SegmentArguments {
    type V = SegmentArgumentsView;

    open spec fn deep_view(&self) -> SegmentArgumentsView {
        match self {
            SegmentArguments::Absent => SegmentArgumentsView::Absent,
            SegmentArguments::AngleBracketed(arguments) => SegmentArgumentsView::AngleBracketed(
                arguments.deep_view(),
            ),
            SegmentArguments::Parenthesized => SegmentArgumentsView::Parenthesized,
        }
    }
}

/// One segment of a type path: a name and its arguments.
#[derive(Debug, PartialEq, Eq)]
pub struct PathSegment {
    pub ident: String,
    pub arguments: SegmentArguments,
}

/// `PathSegment` as specifications see it: text as sequences of characters.
pub struct PathSegmentView {
    pub ident: Seq<char>,
    pub arguments: SegmentArgumentsView,
}

impl DeepView for PathSegment {
    type V = PathSegmentView;

    open spec fn deep_view(&self) -> PathSegmentView {
        PathSegmentView { ident: self.ident@, arguments: self.arguments.deep_view() }
    }
}

/// What kind of type a declared type is.
#[derive(Debug, PartialEq, Eq)]
pub enum TypeKind {
    /// A path such as `String`, `Option<u8>` or `std::vec::Vec<u8>`, given
    /// by its segments in order.
    Path(Vec<PathSegment>),
    /// Any other type: a reference, a tuple, an array and so on.
    Other,
}

/// `TypeKind` as specifications see it: text as sequences of characters.
pub enum TypeKindView {
    Path(Seq<PathSegmentView>),
    Other,
}

impl DeepView for TypeKind {
    type V = TypeKindView;

    open spec fn deep_view(&self) -> TypeKindView {
        match self {
            TypeKind::Path(segments) => TypeKindView::Path(segments.deep_view()),
            TypeKind::Other => TypeKindView::Other,
        }
    }
}

/// A declared type: its source text, and its shape as far as synthesis
/// looks into it.
#[derive(Debug, PartialEq, Eq)]
pub struct TypeShape {
    /// The whole type as source text.
    pub text: String,
    pub kind: TypeKind,
}

/// `TypeShape` as specifications see it: text as sequences of characters.
pub struct TypeShapeView {
    pub text: Seq<char>,
    pub kind: TypeKindView,
}

impl DeepView for TypeShape {
    type V = TypeShapeView;

    open spec fn deep_view(&self) -> TypeShapeView {
        TypeShapeView { text: self.text@, kind: self.kind.deep_view() }
    }
}

impl TypeShapeView {
    /// The one argument of a type that wraps one other type under the name
    /// `head`: the type is a path, its first segment is named `head` and
    /// has exactly one argument in angle brackets, and that argument is a
    /// type.
    pub open spec fn single_argument(self, head: Seq<char>) -> Option<Seq<char>> {
        match self.kind {
            TypeKindView::Path(segments) => if segments.len() > 0 && segments[0].ident == head {
                match segments[0].arguments {
                    SegmentArgumentsView::AngleBracketed(arguments) => if arguments.len() == 1 {
                        match arguments[0] {
                            TypeArgumentView::Type(inner) => Some(inner),
                            TypeArgumentView::Other => None,
                        }
                    } else {
                        None
                    },
                    _ => None,
                }
            } else {
                None
            },
            TypeKindView::Other => None,
        }
    }
}

impl TypeShape {
    /// The one argument of a type that wraps one other type under the name
    /// `head`.
    pub fn single_argument(&self, head: &str) -> (out: Option<&String>)
        ensures
            out.deep_view() == self.deep_view().single_argument(head@),
    {
        match &self.kind {
            TypeKind::Path(segments) => {
                if segments.len() > 0 && same_text(segments[0].ident.as_str(), head) {
                    match &segments[0].arguments {
                        SegmentArguments::AngleBracketed(arguments) => {
                            if arguments.len() == 1 {
                                match &arguments[0] {
                                    TypeArgument::Type(inner) => Some(inner),
                                    TypeArgument::Other => None,
                                }
                            } else {
                                None
                            }
                        },
                        _ => None,
                    }
                } else {
                    None
                }
            },
            TypeKind::Other => None,
        }
    }
}

/// The path that names an annotation or one of its items, such as `builder`
/// or `serde::rename`.
#[derive(Debug, PartialEq, Eq)]
pub struct AnnotationPath {
    /// Whether the path starts with `::`.
    pub leading_colon: bool,
    /// The names between the `::`, in order.
    pub segments: Vec<String>,
}

/// `AnnotationPath` as specifications see it: text as sequences of characters.
pub struct AnnotationPathView {
    pub leading_colon: bool,
    pub segments: Seq<Seq<char>>,
}

impl DeepView for AnnotationPath {
    type V = AnnotationPathView;

    open spec fn deep_view(&self) -> AnnotationPathView {
        AnnotationPathView {
            leading_colon: self.leading_colon,
            segments: self.segments.deep_view(),
        }
    }
}

impl AnnotationPathView {
    /// Whether the path is the single name `name`, with nothing before it.
    pub open spec fn is_ident(self, name: Seq<char>) -> bool {
        !self.leading_colon && self.segments.len() == 1 && self.segments[0] == name
    }
}

impl AnnotationPath {
    /// Whether the path is the single name `name`, with nothing before it.
    pub fn is_ident(&self, name: &str) -> (yes: bool)
        ensures
            yes == self.deep_view().is_ident(name@),
    {
        !self.leading_colon && self.segments.len() == 1 && same_text(
            self.segments[0].as_str(),
            name,
        )
    }
}

/// The value on the right of `=` in an annotation, or a value that stands
/// alone among an annotation's items.
#[derive(Debug, PartialEq, Eq)]
pub enum AnnotationValue {
    /// A string literal, as the text it denotes.
    Text(String),
    /// Any other literal.
    Other,
}

/// `AnnotationValue` as specifications see it: text as sequences of characters.
pub enum AnnotationValueView {
    Text(Seq<char>),
    Other,
}

impl DeepView for AnnotationValue {
    type V = AnnotationValueView;

    open spec fn deep_view(&self) -> AnnotationValueView {
        match self {
            AnnotationValue::Text(text) => AnnotationValueView::Text(text@),
            AnnotationValue::Other => AnnotationValueView::Other,
        }
    }
}

/// One item between the parentheses of an annotation.
#[derive(Debug, PartialEq, Eq)]
pub enum AnnotationItem {
    /// `path`.
    Path { path: AnnotationPath },
    /// `path(..)`. What stands between the parentheses is not kept.
    List { path: AnnotationPath },
    /// `path = value`.
    NameValue { path: AnnotationPath, value: AnnotationValue },
    /// A value that stands alone.
    Literal { value: AnnotationValue },
}

/// `AnnotationItem` as specifications see it: text as sequences of characters.
pub enum AnnotationItemView {
    Path { path: AnnotationPathView },
    List { path: AnnotationPathView },
    NameValue { path: AnnotationPathView, value: AnnotationValueView },
    Literal { value: AnnotationValueView },
}

impl DeepView for AnnotationItem {
    type V = AnnotationItemView;

    open spec fn deep_view(&self) -> AnnotationItemView {
        match self {
            AnnotationItem::Path { path } => AnnotationItemView::Path { path: path.deep_view() },
            AnnotationItem::List { path } => AnnotationItemView::List { path: path.deep_view() },
            AnnotationItem::NameValue { path, value } => AnnotationItemView::NameValue {
                path: path.deep_view(),
                value: value.deep_view(),
            },
            AnnotationItem::Literal { value } => AnnotationItemView::Literal {
                value: value.deep_view(),
            },
        }
    }
}

/// One annotation on a field.
#[derive(Debug, PartialEq, Eq)]
pub enum Annotation {
    /// `path`.
    Path { path: AnnotationPath },
    /// `path(items, ..)`.
    List { path: AnnotationPath, items: Vec<AnnotationItem> },
    /// `path = value`.
    NameValue { path: AnnotationPath, value: AnnotationValue },
    /// An annotation of no such form.
    Unparsed,
}

/// `Annotation` as specifications see it: text as sequences of characters.
pub enum AnnotationView {
    Path { path: AnnotationPathView },
    List { path: AnnotationPathView, items: Seq<AnnotationItemView> },
    NameValue { path: AnnotationPathView, value: AnnotationValueView },
    Unparsed,
}

impl DeepView for Annotation {
    type V = AnnotationView;

    open spec fn deep_view(&self) -> AnnotationView {
        match self {
            Annotation::Path { path } => AnnotationView::Path { path: path.deep_view() },
            Annotation::List { path, items } => AnnotationView::List {
                path: path.deep_view(),
                items: items.deep_view(),
            },
            Annotation::NameValue { path, value } => AnnotationView::NameValue {
                path: path.deep_view(),
                value: value.deep_view(),
            },
            Annotation::Unparsed => AnnotationView::Unparsed,
        }
    }
}

/// One field of a record.
#[derive(Debug, PartialEq, Eq)]
pub struct FieldDescriptor {
    pub name: String,
    pub declared_type: TypeShape,
    pub annotations: Vec<Annotation>,
}

/// `FieldDescriptor` as specifications see it: text as sequences of characters.
pub struct FieldDescriptorView {
    pub name: Seq<char>,
    pub declared_type: TypeShapeView,
    pub annotations: Seq<AnnotationView>,
}

impl DeepView for FieldDescriptor {
    type V = FieldDescriptorView;

    open spec fn deep_view(&self) -> FieldDescriptorView {
        FieldDescriptorView {
            name: self.name@,
            declared_type: self.declared_type.deep_view(),
            annotations: self.annotations.deep_view(),
        }
    }
}

/// What kind of type the input is.
#[derive(Debug, PartialEq, Eq)]
pub enum RecordShape {
    /// A record with named fields, in declaration order.
    Named(Vec<FieldDescriptor>),
    /// A record with positional fields.
    Positional,
    /// A record without fields and without braces.
    Unit,
    /// Not a record at all.
    NotARecord,
}

/// `RecordShape` as specifications see it: text as sequences of characters.
pub enum RecordShapeView {
    Named(Seq<FieldDescriptorView>),
    Positional,
    Unit,
    NotARecord,
}

impl DeepView for RecordShape {
    type V = RecordShapeView;

    open spec fn deep_view(&self) -> RecordShapeView {
        match self {
            RecordShape::Named(fields) => RecordShapeView::Named(fields.deep_view()),
            RecordShape::Positional => RecordShapeView::Positional,
            RecordShape::Unit => RecordShapeView::Unit,
            RecordShape::NotARecord => RecordShapeView::NotARecord,
        }
    }
}

/// The input of synthesis: a type's name and its shape.
#[derive(Debug, PartialEq, Eq)]
pub struct RecordDescriptor {
    pub name: String,
    pub shape: RecordShape,
}

/// `RecordDescriptor` as specifications see it: text as sequences of characters.
pub struct RecordDescriptorView {
    pub name: Seq<char>,
    pub shape: RecordShapeView,
}

impl DeepView for RecordDescriptor {
    type V = RecordDescriptorView;

    open spec fn deep_view(&self) -> RecordDescriptorView {
        RecordDescriptorView { name: self.name@, shape: self.shape.deep_view() }
    }
}

} // verus!
