//! Generation of the three accessor methods.

use vstd::prelude::*;
use vstd::string::StringExecFns;
use crate::descriptor::{
    EnumDescriptor, EnumDescriptorView, TypeShape, VariantDescriptor, VariantDescriptorView,
};
use crate::detail::{annotation_set, parse_detail};
use crate::failure::{Failure, FailureView};
use crate::scan::{first_at, first_where, lemma_first_where};

verus! {

/// What the accessors return for one variant. The two literals are kept as
/// they were written: they are spliced into the generated text, never read.
#[derive(Clone, Debug, PartialEq, Eq)]
pub struct HttpErrorDetail {
    pub variant_name: String,
    pub http_status: String,
    pub message: String,
}

/// View of an [`HttpErrorDetail`].
pub struct HttpErrorDetailView {
    pub variant_name: Seq<char>,
    pub http_status: Seq<char>,
    pub message: Seq<char>,
}

impl View for HttpErrorDetail {
    type V = HttpErrorDetailView;

    open spec fn view(&self) -> HttpErrorDetailView {
        HttpErrorDetailView {
            variant_name: self.variant_name@,
            http_status: self.http_status@,
            message: self.message@,
        }
    }
}

/// Views of a list of details.
pub open spec fn detail_views(details: Seq<HttpErrorDetail>) -> Seq<HttpErrorDetailView> {
    details.map_values(|d: HttpErrorDetail| d@)
}

/// What the accessors return for a variant, or why the variant is refused.
/// A variant must supply both a `status` and a `message`; a missing `status`
/// is reported before a missing `message`.
pub open spec fn variant_detail(variant: VariantDescriptorView) -> Result<
    HttpErrorDetailView,
    FailureView,
> {
    match annotation_set(variant) {
        Err(failure) => Err(failure),
        Ok(set) => match set.status {
            None => Err(FailureView::MissingStatus { variant: variant.name }),
            Some(http_status) => match set.message {
                None => Err(FailureView::MissingMessage { variant: variant.name }),
                Some(message) => Ok(
                    HttpErrorDetailView { variant_name: variant.name, http_status, message },
                ),
            },
        },
    }
}

/// The outcome for each variant, in declaration order.
pub open spec fn variant_outcomes(variants: Seq<VariantDescriptorView>) -> Seq<
    Result<HttpErrorDetailView, FailureView>,
> {
    variants.map_values(|v: VariantDescriptorView| variant_detail(v))
}

/// The test for a refused variant.
pub open spec fn refused() -> spec_fn(Result<HttpErrorDetailView, FailureView>) -> bool {
    |outcome: Result<HttpErrorDetailView, FailureView>| outcome is Err
}

/// The details of every variant in declaration order, or the failure of the
/// first variant that is refused. Only an enumeration has details.
pub open spec fn details(descriptor: EnumDescriptorView) -> Result<
    Seq<HttpErrorDetailView>,
    FailureView,
> {
    let outcomes = variant_outcomes(descriptor.variants);
    if descriptor.shape != TypeShape::Enumeration {
        Err(FailureView::NotAnEnumeration)
    } else {
        match first_where(outcomes, refused()) {
            Some(outcome) => Err(outcome->Err_0),
            None => Ok(
                outcomes.map_values(
                    |outcome: Result<HttpErrorDetailView, FailureView>| outcome->Ok_0,
                ),
            ),
        }
    }
}

/// View of the outcome of `variant_http_error_detail`.
pub open spec fn detail_outcome(r: Result<HttpErrorDetail, Failure>) -> Result<
    HttpErrorDetailView,
    FailureView,
> {
    match r {
        Ok(detail) => Ok(detail@),
        Err(failure) => Err(failure@),
    }
}

/// View of the outcome of `collect_details`.
pub open spec fn details_outcome(r: Result<Vec<HttpErrorDetail>, Failure>) -> Result<
    Seq<HttpErrorDetailView>,
    FailureView,
> {
    match r {
        Ok(details) => Ok(detail_views(details@)),
        Err(failure) => Err(failure@),
    }
}

/// Reads the detail of one variant.
pub fn variant_http_error_detail(variant: &VariantDescriptor) -> (r: Result<
    HttpErrorDetail,
    Failure,
>)
    ensures
        detail_outcome(r) == variant_detail(variant@),
{
    match parse_detail(variant) {
        Err(failure) => Err(failure),
        Ok(set) => match set.status {
            None => Err(Failure::MissingStatus { variant: variant.name.clone() }),
            Some(http_status) => match set.message {
                None => Err(Failure::MissingMessage { variant: variant.name.clone() }),
                Some(message) => Ok(
                    HttpErrorDetail { variant_name: variant.name.clone(), http_status, message },
                ),
            },
        },
    }
}

/// Reads the detail of every variant of an enumeration, in declaration
/// order. The first variant that is refused decides the failure, and then
/// nothing is returned for the others.
pub fn collect_details(ast: &EnumDescriptor) -> (r: Result<Vec<HttpErrorDetail>, Failure>)
    ensures
        details_outcome(r) == details(ast@),
{
    match ast.shape {
        TypeShape::Enumeration => {},
        _ => {
            return Err(Failure::NotAnEnumeration);
        },
    }
    let ghost outcomes = variant_outcomes(ast@.variants);
    let mut collected: Vec<HttpErrorDetail> = Vec::new();
    let mut i: usize = 0;
    while i < ast.variants.len()
        invariant
            i <= ast.variants@.len(),
            ast.shape == TypeShape::Enumeration,
            outcomes == variant_outcomes(ast@.variants),
            collected@.len() == i,
            forall|j: int| 0 <= j < i ==> !refused()(#[trigger] outcomes[j]),
            forall|j: int|
                0 <= j < i ==> outcomes[j] == Ok::<HttpErrorDetailView, FailureView>(
                    #[trigger] collected@[j]@,
                ),
        decreases ast.variants@.len() - i,
    {
        let outcome = variant_http_error_detail(&ast.variants[i]);
        assert(outcomes[i as int] == detail_outcome(outcome));
        match outcome {
            Err(failure) => {
                proof {
                    assert(first_at(outcomes, refused(), i as int));
                    lemma_first_where(outcomes, refused(), i as int);
                }
                return Err(failure);
            },
            Ok(detail) => {
                collected.push(detail);
            },
        }
        i += 1;
    }
    assert(first_where(outcomes, refused()) is None);
    assert(detail_views(collected@) =~= outcomes.map_values(
        |outcome: Result<HttpErrorDetailView, FailureView>| outcome->Ok_0,
    ));
    Ok(collected)
}

/// One of the three generated methods.
#[derive(Clone, Copy, Debug, PartialEq, Eq, Structural)]
pub enum Accessor {
    ErrorCode,
    HttpStatus,
    Message,
}

/// One entry of an accessor's mapping: what the accessor returns for a
/// variant.
pub struct MappingEntry {
    pub variant: Seq<char>,
    pub value: Seq<char>,
}

/// The test for a mapping entry of the variant named `variant`.
pub open spec fn entry_for(variant: Seq<char>) -> spec_fn(MappingEntry) -> bool {
    |entry: MappingEntry| entry.variant == variant
}

impl Accessor {
    /// The name of the generated method.
    pub open spec fn method(self) -> Seq<char> {
        match self {
            Accessor::ErrorCode => "error_code"@,
            Accessor::HttpStatus => "http_status"@,
            Accessor::Message => "message"@,
        }
    }

    /// The return type of the generated method.
    pub open spec fn return_type(self) -> Seq<char> {
        match self {
            Accessor::ErrorCode => "&str"@,
            Accessor::HttpStatus => "u16"@,
            Accessor::Message => "&str"@,
        }
    }

    /// What the method returns for a variant: its own name as the error
    /// code, else the literal written for it.
    pub open spec fn value(self, detail: HttpErrorDetailView) -> Seq<char> {
        match self {
            Accessor::ErrorCode => detail.variant_name,
            Accessor::HttpStatus => detail.http_status,
            Accessor::Message => detail.message,
        }
    }

    /// The expression that stands for a value in the generated text. An
    /// error code is an identifier and is turned into a string there; the
    /// literals are spliced in as they are.
    pub open spec fn expression(self, value: Seq<char>) -> Seq<char> {
        match self {
            Accessor::ErrorCode => "stringify!("@ + value + ")"@,
            Accessor::HttpStatus => value,
            Accessor::Message => value,
        }
    }

    /// The mapping from variant to value that the method implements: one
    /// entry for each variant, in declaration order.
    pub open spec fn mapping(self, details: Seq<HttpErrorDetailView>) -> Seq<MappingEntry> {
        details.map_values(
            |d: HttpErrorDetailView| MappingEntry { variant: d.variant_name, value: self.value(d) },
        )
    }

    /// What the generated method returns for the variant named `variant`:
    /// the value of the first entry for that variant, as a `match` takes
    /// its first arm that fits. `None` where the mapping has no such entry.
    pub open spec fn returned(self, details: Seq<HttpErrorDetailView>, variant: Seq<char>) -> Option<
        Seq<char>,
    > {
        match first_where(self.mapping(details), entry_for(variant)) {
            Some(entry) => Some(entry.value),
            None => None,
        }
    }

    /// The match arm for one entry of the mapping.
    pub open spec fn arm_text(self, enum_name: Seq<char>, entry: MappingEntry) -> Seq<char> {
        "            "@ + enum_name + "::"@ + entry.variant + " => "@ + self.expression(
            entry.value,
        ) + ",\n"@
    }

    /// The match arms for a mapping, one line for each entry.
    pub open spec fn arms_text(self, enum_name: Seq<char>, mapping: Seq<MappingEntry>) -> Seq<
        char,
    > {
        mapping.map_values(|entry: MappingEntry| self.arm_text(enum_name, entry)).flatten()
    }

    /// The generated method, in an `impl` block of its own.
    pub open spec fn text(self, enum_name: Seq<char>, details: Seq<HttpErrorDetailView>) -> Seq<
        char,
    > {
        "impl "@ + enum_name + " {\n    pub fn "@ + self.method() + "(&self) -> "@
            + self.return_type() + " {\n        match self {\n"@ + self.arms_text(
            enum_name,
            self.mapping(details),
        ) + "        }\n    }\n}\n"@
    }
}

/// The generated source text: the three methods one after the other.
pub open spec fn source_text(enum_name: Seq<char>, details: Seq<HttpErrorDetailView>) -> Seq<
    char,
> {
    Accessor::ErrorCode.text(enum_name, details) + Accessor::HttpStatus.text(enum_name, details)
        + Accessor::Message.text(enum_name, details)
}

/// What generation yields for a declaration: the source text of the three
/// methods, or the failure for which nothing is generated.
pub open spec fn generated_source(descriptor: EnumDescriptorView) -> Result<
    Seq<char>,
    FailureView,
> {
    match details(descriptor) {
        Err(failure) => Err(failure),
        Ok(details) => Ok(source_text(descriptor.name, details)),
    }
}

impl Accessor {
    /// The name of the generated method.
    pub fn method_name(self) -> (name: &'static str)
        ensures
            name@ == self.method(),
    {
        match self {
            Accessor::ErrorCode => "error_code",
            Accessor::HttpStatus => "http_status",
            Accessor::Message => "message",
        }
    }

    /// The return type of the generated method.
    pub fn return_type_name(self) -> (name: &'static str)
        ensures
            name@ == self.return_type(),
    {
        match self {
            Accessor::ErrorCode => "&str",
            Accessor::HttpStatus => "u16",
            Accessor::Message => "&str",
        }
    }
}

/// View of the outcome of generation.
pub open spec fn source_outcome(r: Result<String, Failure>) -> Result<Seq<char>, FailureView> {
    match r {
        Ok(text) => Ok(text@),
        Err(failure) => Err(failure@),
    }
}

/// Renders the match arm of one variant.
fn render_arm(enum_name: &str, accessor: Accessor, detail: &HttpErrorDetail) -> (line: String)
    ensures
        line@ == accessor.arm_text(
            enum_name@,
            MappingEntry { variant: detail@.variant_name, value: accessor.value(detail@) },
        ),
{
    let mut line = String::from_str("            ");
    line.append(enum_name);
    line.append("::");
    line.append(detail.variant_name.as_str());
    line.append(" => ");
    let ghost head = line@;
    match accessor {
        Accessor::ErrorCode => {
            line.append("stringify!(");
            line.append(detail.variant_name.as_str());
            line.append(")");
        },
        Accessor::HttpStatus => {
            line.append(detail.http_status.as_str());
        },
        Accessor::Message => {
            line.append(detail.message.as_str());
        },
    }
    assert(line@ =~= head + accessor.expression(accessor.value(detail@)));
    line.append(",\n");
    line
}

/// Renders one of the three methods for the type named `enum_name`.
pub fn render_accessor(
    enum_name: &str,
    accessor: Accessor,
    details: &Vec<HttpErrorDetail>,
) -> (text: String)
    ensures
        text@ == accessor.text(enum_name@, detail_views(details@)),
{
    let mut text = String::from_str("impl ");
    text.append(enum_name);
    text.append(" {\n    pub fn ");
    text.append(accessor.method_name());
    text.append("(&self) -> ");
    text.append(accessor.return_type_name());
    text.append(" {\n        match self {\n");
    let ghost head = text@;
    let ghost mapping = accessor.mapping(detail_views(details@));
    let ghost lines = mapping.map_values(|entry: MappingEntry| accessor.arm_text(enum_name@, entry));
    let mut i: usize = 0;
    assert(lines.take(0) =~= Seq::<Seq<char>>::empty());
    while i < details.len()
        invariant
            i <= details@.len(),
            mapping == accessor.mapping(detail_views(details@)),
            lines == mapping.map_values(|entry: MappingEntry| accessor.arm_text(enum_name@, entry)),
            text@ == head + lines.take(i as int).flatten(),
        decreases details@.len() - i,
    {
        let line = render_arm(enum_name, accessor, &details[i]);
        proof {
            assert(lines[i as int] == line@);
            assert(lines.take(i as int + 1) =~= lines.take(i as int).push(lines[i as int]));
            lines.take(i as int).lemma_flatten_push(lines[i as int]);
        }
        text.append(line.as_str());
        assert(text@ =~= head + lines.take(i as int + 1).flatten());
        i += 1;
    }
    assert(lines.take(i as int) =~= lines);
    text.append("        }\n    }\n}\n");
    text
}

/// Generates the accessor methods of an annotated enumeration.
///
/// The result is the source text of `error_code`, `http_status` and
/// `message`, each with one match arm for every variant, in declaration
/// order. Generation is refused as a whole when the declaration is not an
/// enumeration, or when a variant's `detail` annotation is malformed or
/// lacks a `status` or a `message`; the first such variant is reported.
pub fn impl_http_error_macro(ast: &EnumDescriptor) -> (r: Result<String, Failure>)
    ensures
        source_outcome(r) == generated_source(ast@),
{
    let details = match collect_details(ast) {
        Err(failure) => {
            return Err(failure);
        },
        Ok(details) => details,
    };
    let enum_name = ast.name.as_str();
    let mut all_impls = render_accessor(enum_name, Accessor::ErrorCode, &details);
    let http_status_impl = render_accessor(enum_name, Accessor::HttpStatus, &details);
    let message_impl = render_accessor(enum_name, Accessor::Message, &details);
    all_impls.append(http_status_impl.as_str());
    all_impls.append(message_impl.as_str());
    Ok(all_impls)
}

} // verus!
