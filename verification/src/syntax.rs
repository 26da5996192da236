//! Reading an annotation that `syn` has parsed.
//!
//! A `syn::Meta` is opaque here. What it holds is named by `meta_contents`,
//! and the three accessors state what they hand out in terms of that name.
//! Nothing in this module is proved about `syn` itself: the accessors are
//! believed. What is proved is that the payload assembled from them is the
//! one that the name gives.
//!
//! Parsing itself is left to the caller: `syn` reads every literal that it
//! meets, and stops the program on one whose form it does not know.

use vstd::prelude::*;
use crate::descriptor::{text_of, Entry, EntryView, Payload, PayloadView};

verus! {

/// A structured annotation as `syn` parses it. Opaque here.
#[verifier::external_type_specification]
#[verifier::external_body]
pub struct ExMeta(syn::Meta);

/// A structured annotation as `syn` parses it: a path, alone, with a literal
/// assigned to it, or with a parenthesised list. The key is the path where
/// it is a single identifier. Of the entries of a list only their outermost
/// form is kept.
pub enum MetaView {
    Path { key: Option<Seq<char>> },
    NameValue { key: Option<Seq<char>>, value: Seq<char> },
    List { key: Option<Seq<char>>, entries: Seq<EntryView> },
}

impl MetaView {
    /// The key, whatever the form.
    pub open spec fn key(self) -> Option<Seq<char>> {
        match self {
            MetaView::Path { key } => key,
            MetaView::NameValue { key, .. } => key,
            MetaView::List { key, .. } => key,
        }
    }

    /// The literal, where one is assigned.
    pub open spec fn value(self) -> Option<Seq<char>> {
        match self {
            MetaView::NameValue { value, .. } => Some(value),
            _ => None,
        }
    }

    /// The entries, where there is a list.
    pub open spec fn entries(self) -> Option<Seq<EntryView>> {
        match self {
            MetaView::List { entries, .. } => Some(entries),
            _ => None,
        }
    }

    /// This annotation as the payload of an annotation block.
    pub open spec fn as_payload(self) -> PayloadView {
        match self {
            MetaView::Path { .. } => PayloadView::Bare,
            MetaView::NameValue { .. } => PayloadView::Assigned,
            MetaView::List { entries, .. } => PayloadView::Entries(entries),
        }
    }

    /// This annotation as an entry of an enclosing list.
    pub open spec fn as_entry(self) -> EntryView {
        match self {
            MetaView::Path { key } => EntryView::Flag { key },
            MetaView::NameValue { key, value } => EntryView::Pair { key, value },
            MetaView::List { key, .. } => EntryView::Group { key },
        }
    }
}

/// What a structured annotation holds.
pub uninterp spec fn meta_contents(meta: syn::Meta) -> MetaView;

/// The entry that stands for an element of an annotation list: an element
/// that is no structured annotation is a bare literal.
pub open spec fn element_entry(element: Option<&syn::Meta>) -> EntryView {
    match element {
        Some(meta) => meta_contents(*meta).as_entry(),
        None => EntryView::Literal,
    }
}

/// `syn::Path::get_ident` on `syn::Meta::path`, as text. Believed: it is the
/// key of the annotation.
#[verifier::external_body]
fn meta_key(meta: &syn::Meta) -> (r: Option<String>)
    ensures
        text_of(r) == meta_contents(*meta).key(),
{
    meta.path().get_ident().map(|ident| ident.to_string())
}

/// The field `lit` of `syn::MetaNameValue`, printed by way of `quote::ToTokens`.
/// Believed: it is the literal assigned in the annotation, as its tokens print.
#[verifier::external_body]
fn meta_value(meta: &syn::Meta) -> (r: Option<String>)
    ensures
        text_of(r) == meta_contents(*meta).value(),
{
    match meta {
        syn::Meta::NameValue(pair) => Some(quote::ToTokens::to_token_stream(&pair.lit).to_string()),
        syn::Meta::Path(_) => None,
        syn::Meta::List(_) => None,
    }
}

/// The field `nested` of `syn::MetaList`, in order, each element handed out
/// as the structured annotation that it is, or as nothing where it is a
/// literal. Believed: these are the entries of the annotation.
#[verifier::external_body]
fn meta_elements(meta: &syn::Meta) -> (r: Option<Vec<Option<&syn::Meta>>>)
    ensures
        match r {
            Some(elements) => meta_contents(*meta).entries() == Some(
                elements@.map_values(|element: Option<&syn::Meta>| element_entry(element)),
            ),
            None => meta_contents(*meta).entries() is None,
        },
{
    match meta {
        syn::Meta::List(list) => Some(list.nested.iter().map(|nested| match nested {
            syn::NestedMeta::Meta(inner) => Some(inner),
            syn::NestedMeta::Lit(_) => None,
        }).collect()),
        syn::Meta::Path(_) => None,
        syn::Meta::NameValue(_) => None,
    }
}

/// Describes one element of an annotation list.
fn describe_element(element: Option<&syn::Meta>) -> (entry: Entry)
    ensures
        entry@ == element_entry(element),
{
    match element {
        None => Entry::Literal,
        Some(meta) => {
            let key = meta_key(meta);
            match meta_elements(meta) {
                Some(_) => Entry::Group { key },
                None => match meta_value(meta) {
                    Some(value) => Entry::Pair { key, value },
                    None => Entry::Flag { key },
                },
            }
        },
    }
}

/// Describes a parsed annotation as the payload of an annotation block: its
/// form, and for a list its entries in the order in which they are written.
pub fn describe_payload(meta: &syn::Meta) -> (payload: Payload)
    ensures
        payload@ == meta_contents(*meta).as_payload(),
{
    match meta_elements(meta) {
        Some(elements) => {
            let ghost views = elements@.map_values(
                |element: Option<&syn::Meta>| element_entry(element),
            );
            let mut entries: Vec<Entry> = Vec::new();
            let mut i: usize = 0;
            while i < elements.len()
                invariant
                    i <= elements@.len(),
                    views == elements@.map_values(
                        |element: Option<&syn::Meta>| element_entry(element),
                    ),
                    entries@.len() == i,
                    forall|k: int| 0 <= k < i ==> (#[trigger] entries@[k])@ == views[k],
                decreases elements@.len() - i,
            {
                let entry = describe_element(elements[i]);
                entries.push(entry);
                i += 1;
            }
            assert(entries@.map_values(|e: Entry| e@) =~= views);
            Payload::Entries(entries)
        },
        None => match meta_value(meta) {
            Some(_) => Payload::Assigned,
            None => Payload::Bare,
        },
    }
}

} // verus!
