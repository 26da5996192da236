//! Plain-data description of an annotated type declaration, and its
//! mathematical view.

use vstd::prelude::*;

verus! {

/// The kind of type a declaration introduces.
#[derive(Clone, Copy, Debug, PartialEq, Eq, Structural)]
pub enum TypeShape {
    Enumeration,
    Structure,
    Union,
}

/// One comma-separated entry inside the parentheses of an annotation block.
///
/// A key is `None` when the entry is introduced by something other than a
/// single identifier, such as a qualified path.
#[derive(Clone, Debug, PartialEq, Eq)]
pub enum Entry {
    /// A bare literal.
    Literal,
    /// A key on its own: `key`.
    Flag { key: Option<String> },
    /// A key with a parenthesised list of its own: `key(...)`.
    Group { key: Option<String> },
    /// A key and a literal: `key = value`. The value is kept as written.
    Pair { key: Option<String>, value: String },
}

/// What follows the name of an annotation block.
#[derive(Clone, Debug, PartialEq, Eq)]
pub enum Payload {
    /// The tokens after the name do not form an annotation.
    Malformed { reason: String },
    /// Nothing follows the name: `#[name]`.
    Bare,
    /// A literal is assigned to the name: `#[name = value]`.
    Assigned,
    /// A parenthesised list of entries: `#[name(entry, entry)]`.
    Entries(Vec<Entry>),
}

/// An annotation attached to a variant.
///
/// The name is `None` when the block is introduced by something other than a
/// single identifier.
#[derive(Clone, Debug, PartialEq, Eq)]
pub struct AnnotationBlock {
    pub name: Option<String>,
    pub payload: Payload,
}

/// One case of an enumerated type.
#[derive(Clone, Debug, PartialEq, Eq)]
pub struct VariantDescriptor {
    pub name: String,
    pub annotations: Vec<AnnotationBlock>,
}

/// The type declaration handed to the generator. The variants are read only
/// where the shape is an enumeration.
#[derive(Clone, Debug, PartialEq, Eq)]
pub struct EnumDescriptor {
    pub name: String,
    pub shape: TypeShape,
    pub variants: Vec<VariantDescriptor>,
}

/// View of an optional string.
pub open spec fn text_of(s: Option<String>) -> Option<Seq<char>> {
    match s {
        Some(s) => Some(s@),
        None => None,
    }
}

/// View of an [`Entry`].
pub enum EntryView {
    Literal,
    Flag { key: Option<Seq<char>> },
    Group { key: Option<Seq<char>> },
    Pair { key: Option<Seq<char>>, value: Seq<char> },
}

/// View of a [`Payload`].
pub enum PayloadView {
    Malformed { reason: Seq<char> },
    Bare,
    Assigned,
    Entries(Seq<EntryView>),
}

/// View of an [`AnnotationBlock`].
pub struct AnnotationBlockView {
    pub name: Option<Seq<char>>,
    pub payload: PayloadView,
}

/// View of a [`VariantDescriptor`].
pub struct VariantDescriptorView {
    pub name: Seq<char>,
    pub annotations: Seq<AnnotationBlockView>,
}

/// View of an [`EnumDescriptor`].
pub struct EnumDescriptorView {
    pub name: Seq<char>,
    pub shape: TypeShape,
    pub variants: Seq<VariantDescriptorView>,
}

impl View for Entry {
    type V = EntryView;

    open spec fn view(&self) -> EntryView {
        match *self {
            Entry::Literal => EntryView::Literal,
            Entry::Flag { key } => EntryView::Flag { key: text_of(key) },
            Entry::Group { key } => EntryView::Group { key: text_of(key) },
            Entry::Pair { key, value } => EntryView::Pair { key: text_of(key), value: value@ },
        }
    }
}

impl View for Payload {
    type V = PayloadView;

    open spec fn view(&self) -> PayloadView {
        match *self {
            Payload::Malformed { reason } => PayloadView::Malformed { reason: reason@ },
            Payload::Bare => PayloadView::Bare,
            Payload::Assigned => PayloadView::Assigned,
            Payload::Entries(entries) => PayloadView::Entries(entries@.map_values(|e: Entry| e@)),
        }
    }
}

impl View for AnnotationBlock {
    type V = AnnotationBlockView;

    open spec fn view(&self) -> AnnotationBlockView {
        AnnotationBlockView { name: text_of(self.name), payload: self.payload@ }
    }
}

impl View for VariantDescriptor {
    type V = VariantDescriptorView;

    open spec fn view(&self) -> VariantDescriptorView {
        VariantDescriptorView {
            name: self.name@,
            annotations: self.annotations@.map_values(|a: AnnotationBlock| a@),
        }
    }
}

impl View for EnumDescriptor {
    type V = EnumDescriptorView;

    open spec fn view(&self) -> EnumDescriptorView {
        EnumDescriptorView {
            name: self.name@,
            shape: self.shape,
            variants: self.variants@.map_values(|v: VariantDescriptor| v@),
        }
    }
}

} // verus!
