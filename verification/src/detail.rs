//! Extraction of the recognised entries from a variant's `detail` block.

use vstd::prelude::*;
use vstd::string::StringExecFns;
use crate::descriptor::{
    text_of, AnnotationBlockView, Entry, EntryView, Payload, PayloadView, VariantDescriptor,
    VariantDescriptorView,
};
use crate::failure::{Failure, FailureView};
use crate::scan::{first_at, first_where, last_where, lemma_first_where, lemma_last_where_step};

verus! {

/// The recognised entries of one variant, each kept as the text of the
/// literal that was written for it.
#[derive(Clone, Debug, PartialEq, Eq)]
pub struct AnnotationSet {
    pub status: Option<String>,
    pub message: Option<String>,
}

/// View of an [`AnnotationSet`].
pub struct AnnotationSetView {
    pub status: Option<Seq<char>>,
    pub message: Option<Seq<char>>,
}

impl View for AnnotationSet {
    type V = AnnotationSetView;

    open spec fn view(&self) -> AnnotationSetView {
        AnnotationSetView { status: text_of(self.status), message: text_of(self.message) }
    }
}

impl AnnotationSetView {
    /// The set that recognises nothing.
    pub open spec fn empty() -> AnnotationSetView {
        AnnotationSetView { status: None, message: None }
    }
}

impl AnnotationBlockView {
    /// Whether this is a block named `detail`.
    pub open spec fn is_detail(self) -> bool {
        self.name == Some("detail"@)
    }
}

impl EntryView {
    /// The literal this entry assigns to `key`, if it assigns one.
    pub open spec fn value_for(self, key: Seq<char>) -> Option<Seq<char>> {
        match self {
            EntryView::Pair { key: Some(k), value } if k == key => Some(value),
            _ => None,
        }
    }
}

/// The test for a block named `detail`.
pub open spec fn named_detail() -> spec_fn(AnnotationBlockView) -> bool {
    |a: AnnotationBlockView| a.is_detail()
}

/// The test for an entry that assigns a literal to `key`.
pub open spec fn assigning(key: Seq<char>) -> spec_fn(EntryView) -> bool {
    |e: EntryView| e.value_for(key) is Some
}

/// The literal that a list of entries supplies for `key`: the one assigned
/// last, where the key is assigned more than once.
pub open spec fn value_for(entries: Seq<EntryView>, key: Seq<char>) -> Option<Seq<char>> {
    match last_where(entries, assigning(key)) {
        Some(entry) => entry.value_for(key),
        None => None,
    }
}

/// What a list of entries supplies for the two recognised keys.
pub open spec fn recognized(entries: Seq<EntryView>) -> AnnotationSetView {
    AnnotationSetView {
        status: value_for(entries, "status"@),
        message: value_for(entries, "message"@),
    }
}

/// What a payload supplies for the two recognised keys. Only a list of
/// entries supplies anything, and only a malformed payload is refused.
pub open spec fn payload_set(payload: PayloadView, variant: Seq<char>) -> Result<
    AnnotationSetView,
    FailureView,
> {
    match payload {
        PayloadView::Malformed { reason } => Err(
            FailureView::MalformedAnnotation { variant, reason },
        ),
        PayloadView::Bare => Ok(AnnotationSetView::empty()),
        PayloadView::Assigned => Ok(AnnotationSetView::empty()),
        PayloadView::Entries(entries) => Ok(recognized(entries)),
    }
}

/// The annotation set of a variant: what its first `detail` block supplies.
/// A variant without such a block supplies nothing; other blocks are not
/// looked at.
pub open spec fn annotation_set(variant: VariantDescriptorView) -> Result<
    AnnotationSetView,
    FailureView,
> {
    match first_where(variant.annotations, named_detail()) {
        Some(block) => payload_set(block.payload, variant.name),
        None => Ok(AnnotationSetView::empty()),
    }
}

/// View of the outcome of `parse_detail`.
pub open spec fn set_outcome(r: Result<AnnotationSet, Failure>) -> Result<
    AnnotationSetView,
    FailureView,
> {
    match r {
        Ok(set) => Ok(set@),
        Err(failure) => Err(failure@),
    }
}

/// Whether an optional name is exactly `word`.
fn is_named(name: &Option<String>, word: &str) -> (r: bool)
    ensures
        r == (text_of(*name) == Some(word@)),
{
    match name {
        Some(n) => {
            let w = String::from_str(word);
            *n == w
        },
        None => false,
    }
}

/// The annotation set that a payload supplies to the variant named `variant`.
fn read_payload(payload: &Payload, variant: &String) -> (r: Result<AnnotationSet, Failure>)
    ensures
        set_outcome(r) == payload_set(payload@, variant@),
{
    match payload {
        Payload::Malformed { reason } => Err(
            Failure::MalformedAnnotation { variant: variant.clone(), reason: reason.clone() },
        ),
        Payload::Bare => Ok(AnnotationSet { status: None, message: None }),
        Payload::Assigned => Ok(AnnotationSet { status: None, message: None }),
        Payload::Entries(entries) => {
            let ghost views = entries@.map_values(|e: Entry| e@);
            let mut set = AnnotationSet { status: None, message: None };
            let mut j: usize = 0;
            assert(views.take(0) =~= Seq::<EntryView>::empty());
            while j < entries.len()
                invariant
                    j <= entries@.len(),
                    views == entries@.map_values(|e: Entry| e@),
                    payload@ == PayloadView::Entries(views),
                    set@ == recognized(views.take(j as int)),
                decreases entries@.len() - j,
            {
                proof {
                    lemma_last_where_step(views, assigning("status"@), j as int);
                    lemma_last_where_step(views, assigning("message"@), j as int);
                    lemma_keys_differ();
                }
                if let Entry::Pair { key, value } = &entries[j] {
                    if is_named(key, "status") {
                        set.status = Some(value.clone());
                    } else if is_named(key, "message") {
                        set.message = Some(value.clone());
                    }
                }
                j += 1;
            }
            assert(views.take(j as int) =~= views);
            Ok(set)
        },
    }
}

/// The two recognised keys are different words.
proof fn lemma_keys_differ()
    ensures
        "status"@ != "message"@,
{
    reveal_strlit("status");
    reveal_strlit("message");
    assert("status"@.len() != "message"@.len());
}

/// Reads what a variant's `detail` annotation supplies for `status` and
/// `message`.
///
/// Only the first block named `detail` is read. Within it an entry counts
/// when it assigns a literal to one of the two keys; a key written twice
/// keeps the literal written last. Entries of any other form or name are
/// passed over, an entry named by a path among them.
pub fn parse_detail(variant: &VariantDescriptor) -> (r: Result<AnnotationSet, Failure>)
    ensures
        set_outcome(r) == annotation_set(variant@),
{
    let ghost views = variant@.annotations;
    let mut i: usize = 0;
    while i < variant.annotations.len()
        invariant
            i <= variant.annotations@.len(),
            views == variant@.annotations,
            forall|j: int| 0 <= j < i ==> !named_detail()(#[trigger] views[j]),
        decreases variant.annotations@.len() - i,
    {
        let block = &variant.annotations[i];
        assert(views[i as int] == block@);
        if is_named(&block.name, "detail") {
            proof {
                assert(first_at(views, named_detail(), i as int));
                lemma_first_where(views, named_detail(), i as int);
            }
            return read_payload(&block.payload, &variant.name);
        }
        i += 1;
    }
    Ok(AnnotationSet { status: None, message: None })
}

} // verus!
