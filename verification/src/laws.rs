//! What holds of generation as a whole.

use vstd::prelude::*;
use crate::descriptor::{
    EntryView, EnumDescriptorView, PayloadView, TypeShape, VariantDescriptorView,
};
use crate::detail::{
    annotation_set, assigning, named_detail, recognized, value_for, AnnotationSetView,
};
use crate::failure::FailureView;
use crate::generator::{
    details, entry_for, generated_source, refused, source_text, variant_detail, variant_outcomes,
    Accessor, HttpErrorDetailView, MappingEntry,
};
use crate::scan::{
    any_where, first_at, first_where, lemma_first_where, lemma_first_where_some,
    lemma_last_where_insert, lemma_last_where_some,
};

verus! {

/// Whether some entry assigns a literal to `key`.
pub open spec fn assigns(entries: Seq<EntryView>, key: Seq<char>) -> bool {
    any_where(entries, assigning(key))
}

/// The entries of a variant's first `detail` block, where it has such a
/// block and the block holds a list.
pub open spec fn listed(variant: VariantDescriptorView) -> Option<Seq<EntryView>> {
    match first_where(variant.annotations, named_detail()) {
        Some(block) => match block.payload {
            PayloadView::Entries(entries) => Some(entries),
            _ => None,
        },
        None => None,
    }
}

/// A variant is fully annotated when its `detail` block lists entries that
/// assign a literal both to `status` and to `message`, whatever else it
/// lists.
pub open spec fn fully_annotated(variant: VariantDescriptorView) -> bool {
    &&& listed(variant) matches Some(entries)
    &&& assigns(entries, "status"@)
    &&& assigns(entries, "message"@)
}

/// A variant omits `key` when its `detail` block lists entries none of which
/// assigns a literal to `key`.
pub open spec fn omits(variant: VariantDescriptorView, key: Seq<char>) -> bool {
    &&& listed(variant) matches Some(entries)
    &&& !assigns(entries, key)
}

/// The detail of a fully annotated variant: its name, and the literals that
/// its `detail` block assigns to `status` and to `message`.
pub open spec fn annotated_detail(variant: VariantDescriptorView) -> HttpErrorDetailView {
    HttpErrorDetailView {
        variant_name: variant.name,
        http_status: value_for(listed(variant)->Some_0, "status"@)->Some_0,
        message: value_for(listed(variant)->Some_0, "message"@)->Some_0,
    }
}

/// Whether no two variants share a name.
pub open spec fn distinct_names(variants: Seq<VariantDescriptorView>) -> bool {
    forall|i: int, j: int|
        0 <= i < variants.len() && 0 <= j < variants.len() && i != j ==> (#[trigger] variants[i]).name
            != (#[trigger] variants[j]).name
}

/// A list supplies a literal for a key exactly if one of its entries assigns
/// one to it.
pub proof fn lemma_value_for_iff_assigns(entries: Seq<EntryView>, key: Seq<char>)
    ensures
        value_for(entries, key) is Some <==> assigns(entries, key),
{
    lemma_last_where_some(entries, assigning(key));
}

/// An entry that assigns a literal to neither recognised key is passed over,
/// wherever in the list it stands and whatever its form: a literal, a key
/// alone, a key with a list, a key of another name, a key that is a path.
pub proof fn law_other_entries_are_passed_over(entries: Seq<EntryView>, p: int, other: EntryView)
    requires
        0 <= p <= entries.len(),
        other.value_for("status"@) is None,
        other.value_for("message"@) is None,
    ensures
        recognized(entries.insert(p, other)) == recognized(entries),
{
    lemma_last_where_insert(entries, assigning("status"@), p, other);
    lemma_last_where_insert(entries, assigning("message"@), p, other);
}

/// A variant is accepted exactly if it is fully annotated.
pub proof fn lemma_accepted_iff_fully_annotated(variant: VariantDescriptorView)
    ensures
        variant_detail(variant) is Ok <==> fully_annotated(variant),
        fully_annotated(variant) ==> variant_detail(variant) == Ok::<
            HttpErrorDetailView,
            FailureView,
        >(annotated_detail(variant)),
{
    if listed(variant) is Some {
        let entries = listed(variant)->Some_0;
        lemma_value_for_iff_assigns(entries, "status"@);
        lemma_value_for_iff_assigns(entries, "message"@);
    }
}

/// Generation succeeds exactly if the declaration is an enumeration and
/// every variant is fully annotated, and then the details are those of the
/// variants, one for one.
pub proof fn lemma_details_iff_all_accepted(descriptor: EnumDescriptorView)
    ensures
        details(descriptor) is Ok <==> descriptor.shape == TypeShape::Enumeration && forall|i: int|
            0 <= i < descriptor.variants.len() ==> fully_annotated(#[trigger] descriptor.variants[i]),
        details(descriptor) matches Ok(found) ==> found.len() == descriptor.variants.len()
            && forall|i: int|
            0 <= i < found.len() ==> variant_detail(descriptor.variants[i]) == Ok::<
                HttpErrorDetailView,
                FailureView,
            >(#[trigger] found[i]),
{
    let outcomes = variant_outcomes(descriptor.variants);
    lemma_first_where_some(outcomes, refused());
    assert forall|i: int| 0 <= i < descriptor.variants.len() implies (fully_annotated(
        #[trigger] descriptor.variants[i],
    ) <==> !refused()(outcomes[i])) by {
        lemma_accepted_iff_fully_annotated(descriptor.variants[i]);
    }
    if any_where(outcomes, refused()) {
        let k = choose|k: int| 0 <= k < outcomes.len() && refused()(#[trigger] outcomes[k]);
        assert(!fully_annotated(descriptor.variants[k]));
    } else {
        assert forall|i: int| 0 <= i < descriptor.variants.len() implies fully_annotated(
            #[trigger] descriptor.variants[i],
        ) by {
            assert(!refused()(outcomes[i]));
        }
    }
}

/// Where generation succeeds, the detail at each position is that of the
/// variant at the same position, which is fully annotated.
pub proof fn lemma_detail_at(descriptor: EnumDescriptorView, i: int)
    requires
        details(descriptor) is Ok,
        0 <= i < descriptor.variants.len(),
    ensures
        fully_annotated(descriptor.variants[i]),
        details(descriptor)->Ok_0.len() == descriptor.variants.len(),
        details(descriptor)->Ok_0[i] == annotated_detail(descriptor.variants[i]),
        value_for(listed(descriptor.variants[i])->Some_0, "status"@) is Some,
        value_for(listed(descriptor.variants[i])->Some_0, "message"@) is Some,
{
    lemma_details_iff_all_accepted(descriptor);
    lemma_accepted_iff_fully_annotated(descriptor.variants[i]);
    lemma_value_for_iff_assigns(listed(descriptor.variants[i])->Some_0, "status"@);
    lemma_value_for_iff_assigns(listed(descriptor.variants[i])->Some_0, "message"@);
    assert(variant_detail(descriptor.variants[i]) == Ok::<HttpErrorDetailView, FailureView>(
        details(descriptor)->Ok_0[i],
    ));
}

/// The entry of a mapping that a generated method takes for a variant of
/// the declaration is an entry for that name.
proof fn lemma_returned_entry(
    accessor: Accessor,
    found: Seq<HttpErrorDetailView>,
    variant: Seq<char>,
    i: int,
) -> (j: int)
    requires
        0 <= i < found.len(),
        found[i].variant_name == variant,
    ensures
        0 <= j < found.len(),
        found[j].variant_name == variant,
        accessor.returned(found, variant) == Some(accessor.value(found[j])),
{
    let mapping = accessor.mapping(found);
    assert(entry_for(variant)(mapping[i]));
    lemma_first_where_some(mapping, entry_for(variant));
    let taken = first_where(mapping, entry_for(variant))->Some_0;
    let j = choose|j: int| 0 <= j < mapping.len() && mapping[j] == taken;
    j
}

/// Every fully annotated enumeration is accepted, and each of the three
/// mappings then has exactly one entry for each variant, in declaration
/// order and under the variant's name.
pub proof fn law_full_annotation_succeeds(descriptor: EnumDescriptorView)
    requires
        descriptor.shape == TypeShape::Enumeration,
        forall|i: int|
            0 <= i < descriptor.variants.len() ==> fully_annotated(#[trigger] descriptor.variants[i]),
    ensures
        details(descriptor) matches Ok(found) && generated_source(descriptor) == Ok::<
            Seq<char>,
            FailureView,
        >(source_text(descriptor.name, found)),
        details(descriptor) matches Ok(found) && forall|accessor: Accessor|
            #![trigger accessor.mapping(found)]
            {
                &&& accessor.mapping(found).len() == descriptor.variants.len()
                &&& forall|i: int|
                    0 <= i < descriptor.variants.len() ==> (#[trigger] accessor.mapping(
                        found,
                    )[i]).variant == descriptor.variants[i].name
            },
{
    lemma_details_iff_all_accepted(descriptor);
    let found = details(descriptor)->Ok_0;
    assert forall|accessor: Accessor, i: int| 0 <= i < descriptor.variants.len() implies (
    #[trigger] accessor.mapping(found)[i]).variant == descriptor.variants[i].name by {
        lemma_detail_at(descriptor, i);
    }
}

/// Generation succeeds on no other declaration: it is refused unless the
/// declaration is an enumeration whose variants are all fully annotated.
pub proof fn law_success_needs_full_annotation(descriptor: EnumDescriptorView)
    ensures
        generated_source(descriptor) is Ok <==> descriptor.shape == TypeShape::Enumeration
            && forall|i: int|
            0 <= i < descriptor.variants.len() ==> fully_annotated(#[trigger] descriptor.variants[i]),
{
    lemma_details_iff_all_accepted(descriptor);
}

/// The error code of a variant is its own name, whatever else the variant
/// holds and whatever the other variants are.
pub proof fn law_error_code_is_name(descriptor: EnumDescriptorView, i: int)
    requires
        details(descriptor) is Ok,
        0 <= i < descriptor.variants.len(),
    ensures
        Accessor::ErrorCode.returned(details(descriptor)->Ok_0, descriptor.variants[i].name)
            == Some(descriptor.variants[i].name),
{
    lemma_detail_at(descriptor, i);
    let found = details(descriptor)->Ok_0;
    let j = lemma_returned_entry(Accessor::ErrorCode, found, descriptor.variants[i].name, i);
}

/// The entry of each mapping for a variant holds the variant's name with,
/// as its value, the name again for the error code and else the literal
/// that the variant's `detail` block assigns to `status` or to `message`.
pub proof fn law_entries_hold_the_literals(descriptor: EnumDescriptorView, i: int)
    requires
        details(descriptor) is Ok,
        0 <= i < descriptor.variants.len(),
    ensures
        listed(descriptor.variants[i]) is Some,
        Accessor::ErrorCode.mapping(details(descriptor)->Ok_0)[i] == (MappingEntry {
            variant: descriptor.variants[i].name,
            value: descriptor.variants[i].name,
        }),
        value_for(listed(descriptor.variants[i])->Some_0, "status"@) == Some(
            Accessor::HttpStatus.mapping(details(descriptor)->Ok_0)[i].value,
        ),
        Accessor::HttpStatus.mapping(details(descriptor)->Ok_0)[i].variant
            == descriptor.variants[i].name,
        value_for(listed(descriptor.variants[i])->Some_0, "message"@) == Some(
            Accessor::Message.mapping(details(descriptor)->Ok_0)[i].value,
        ),
        Accessor::Message.mapping(details(descriptor)->Ok_0)[i].variant
            == descriptor.variants[i].name,
{
    lemma_detail_at(descriptor, i);
}

/// Where no two variants share a name, the status and the message of a
/// variant are exactly the literals that its `detail` block assigns to
/// `status` and to `message`.
pub proof fn law_literals_are_returned(descriptor: EnumDescriptorView, i: int)
    requires
        details(descriptor) is Ok,
        distinct_names(descriptor.variants),
        0 <= i < descriptor.variants.len(),
    ensures
        listed(descriptor.variants[i]) is Some,
        Accessor::HttpStatus.returned(details(descriptor)->Ok_0, descriptor.variants[i].name)
            == value_for(listed(descriptor.variants[i])->Some_0, "status"@),
        Accessor::Message.returned(details(descriptor)->Ok_0, descriptor.variants[i].name)
            == value_for(listed(descriptor.variants[i])->Some_0, "message"@),
        value_for(listed(descriptor.variants[i])->Some_0, "status"@) is Some,
        value_for(listed(descriptor.variants[i])->Some_0, "message"@) is Some,
{
    lemma_detail_at(descriptor, i);
    let found = details(descriptor)->Ok_0;
    let name = descriptor.variants[i].name;
    let j = lemma_returned_entry(Accessor::HttpStatus, found, name, i);
    lemma_detail_at(descriptor, j);
    let k = lemma_returned_entry(Accessor::Message, found, name, i);
    lemma_detail_at(descriptor, k);
}

/// A variant that omits `status` has the whole declaration refused for it,
/// though every other variant is fully annotated: nothing is generated for
/// those either.
pub proof fn law_omitted_status_refuses(descriptor: EnumDescriptorView, k: int)
    requires
        descriptor.shape == TypeShape::Enumeration,
        0 <= k < descriptor.variants.len(),
        omits(descriptor.variants[k], "status"@),
        forall|i: int|
            0 <= i < descriptor.variants.len() && i != k ==> fully_annotated(
                #[trigger] descriptor.variants[i],
            ),
    ensures
        generated_source(descriptor) == Err::<Seq<char>, FailureView>(
            FailureView::MissingStatus { variant: descriptor.variants[k].name },
        ),
{
    let outcomes = variant_outcomes(descriptor.variants);
    lemma_value_for_iff_assigns(listed(descriptor.variants[k])->Some_0, "status"@);
    assert(outcomes[k] == Err::<HttpErrorDetailView, FailureView>(
        FailureView::MissingStatus { variant: descriptor.variants[k].name },
    ));
    assert forall|i: int| 0 <= i < k implies !refused()(#[trigger] outcomes[i]) by {
        assert(fully_annotated(descriptor.variants[i]));
        lemma_accepted_iff_fully_annotated(descriptor.variants[i]);
    }
    assert(first_at(outcomes, refused(), k));
    lemma_first_where(outcomes, refused(), k);
}

/// A variant without a `detail` block is treated as one whose `detail`
/// block is an empty list: both supply nothing, and the outcome for the
/// declaration is the same whichever of the two the variant has.
pub proof fn law_missing_block_is_empty_block(
    without: EnumDescriptorView,
    with_empty: EnumDescriptorView,
    k: int,
)
    requires
        without.name == with_empty.name,
        without.shape == with_empty.shape,
        without.variants.len() == with_empty.variants.len(),
        0 <= k < without.variants.len(),
        forall|i: int|
            0 <= i < without.variants.len() && i != k ==> without.variants[i]
                == with_empty.variants[i],
        without.variants[k].name == with_empty.variants[k].name,
        !any_where(without.variants[k].annotations, named_detail()),
        listed(with_empty.variants[k]) == Some(Seq::<EntryView>::empty()),
    ensures
        annotation_set(without.variants[k]) == Ok::<AnnotationSetView, FailureView>(
            AnnotationSetView::empty(),
        ),
        annotation_set(with_empty.variants[k]) == annotation_set(without.variants[k]),
        generated_source(with_empty) == generated_source(without),
{
    lemma_first_where_some(without.variants[k].annotations, named_detail());
    lemma_value_for_iff_assigns(Seq::<EntryView>::empty(), "status"@);
    lemma_value_for_iff_assigns(Seq::<EntryView>::empty(), "message"@);
    assert(variant_outcomes(with_empty.variants) =~= variant_outcomes(without.variants));
}

/// Only an enumeration is accepted: for a declaration of any other shape
/// nothing is generated, whatever it holds.
pub proof fn law_only_enumerations(descriptor: EnumDescriptorView)
    requires
        descriptor.shape != TypeShape::Enumeration,
    ensures
        generated_source(descriptor) == Err::<Seq<char>, FailureView>(
            FailureView::NotAnEnumeration,
        ),
{
}

} // verus!
