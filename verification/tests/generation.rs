use http_error_derive::descriptor::{
    AnnotationBlock, Entry, EnumDescriptor, Payload, TypeShape, VariantDescriptor,
};
use http_error_derive::detail::{parse_detail, AnnotationSet};
use http_error_derive::failure::Failure;
use http_error_derive::generator::{
    collect_details, impl_http_error_macro, render_accessor, variant_http_error_detail, Accessor,
    HttpErrorDetail,
};

fn pair(key: &str, value: &str) -> Entry {
    Entry::Pair { key: Some(key.to_string()), value: value.to_string() }
}

fn block(name: &str, entries: Vec<Entry>) -> AnnotationBlock {
    AnnotationBlock { name: Some(name.to_string()), payload: Payload::Entries(entries) }
}

fn variant(name: &str, annotations: Vec<AnnotationBlock>) -> VariantDescriptor {
    VariantDescriptor { name: name.to_string(), annotations }
}

fn annotated(name: &str, status: &str, message: &str) -> VariantDescriptor {
    variant(name, vec![block("detail", vec![pair("status", status), pair("message", message)])])
}

fn enumeration(name: &str, variants: Vec<VariantDescriptor>) -> EnumDescriptor {
    EnumDescriptor { name: name.to_string(), shape: TypeShape::Enumeration, variants }
}

fn api_error() -> EnumDescriptor {
    enumeration(
        "ApiError",
        vec![
            annotated("NotFound", "404", "\"resource not found\""),
            annotated("Internal", "500", "\"internal error\""),
        ],
    )
}

fn detail(name: &str, status: &str, message: &str) -> HttpErrorDetail {
    HttpErrorDetail {
        variant_name: name.to_string(),
        http_status: status.to_string(),
        message: message.to_string(),
    }
}

fn lookup<'a>(details: &'a [HttpErrorDetail], name: &str) -> &'a HttpErrorDetail {
    details.iter().find(|d| d.variant_name == name).unwrap()
}

const API_ERROR_SOURCE: &str = "\
impl ApiError {
    pub fn error_code(&self) -> &str {
        match self {
            ApiError::NotFound => stringify!(NotFound),
            ApiError::Internal => stringify!(Internal),
        }
    }
}
impl ApiError {
    pub fn http_status(&self) -> u16 {
        match self {
            ApiError::NotFound => 404,
            ApiError::Internal => 500,
        }
    }
}
impl ApiError {
    pub fn message(&self) -> &str {
        match self {
            ApiError::NotFound => \"resource not found\",
            ApiError::Internal => \"internal error\",
        }
    }
}
";

#[test]
fn it_works() {
    assert_eq!(2 + 2, 4);
}

#[test]
fn two_variants_yield_their_triples() {
    let details = collect_details(&api_error()).unwrap();
    assert_eq!(details.len(), 2);
    let not_found = lookup(&details, "NotFound");
    assert_eq!(not_found.variant_name, "NotFound");
    assert_eq!(not_found.http_status, "404");
    assert_eq!(not_found.message, "\"resource not found\"");
    let internal = lookup(&details, "Internal");
    assert_eq!(internal.variant_name, "Internal");
    assert_eq!(internal.http_status, "500");
    assert_eq!(internal.message, "\"internal error\"");
}

#[test]
fn two_variants_generate_three_methods() {
    assert_eq!(impl_http_error_macro(&api_error()), Ok(API_ERROR_SOURCE.to_string()));
}

#[test]
fn details_follow_declaration_order() {
    let details = collect_details(&api_error()).unwrap();
    assert_eq!(
        details,
        vec![
            detail("NotFound", "404", "\"resource not found\""),
            detail("Internal", "500", "\"internal error\""),
        ]
    );
}

#[test]
fn every_variant_gets_one_arm_in_each_method() {
    let names = ["A", "B", "C", "D", "E"];
    let variants = names.iter().map(|n| annotated(n, "400", "\"bad\"")).collect();
    let text = impl_http_error_macro(&enumeration("Wide", variants)).unwrap();
    assert_eq!(text.matches(" => ").count(), 3 * names.len());
    for name in names {
        assert_eq!(text.matches(&format!("Wide::{} => ", name)).count(), 3);
    }
}

#[test]
fn enumeration_without_variants_generates_empty_matches() {
    let text = impl_http_error_macro(&enumeration("Never", vec![])).unwrap();
    let expected = "\
impl Never {
    pub fn error_code(&self) -> &str {
        match self {
        }
    }
}
impl Never {
    pub fn http_status(&self) -> u16 {
        match self {
        }
    }
}
impl Never {
    pub fn message(&self) -> &str {
        match self {
        }
    }
}
";
    assert_eq!(text, expected);
}

#[test]
fn error_code_depends_on_the_name_alone() {
    let descriptor = enumeration(
        "Twin",
        vec![annotated("Left", "409", "\"conflict\""), annotated("Right", "409", "\"conflict\"")],
    );
    let details = collect_details(&descriptor).unwrap();
    let text = render_accessor("Twin", Accessor::ErrorCode, &details);
    assert!(text.contains("            Twin::Left => stringify!(Left),\n"));
    assert!(text.contains("            Twin::Right => stringify!(Right),\n"));
}

#[test]
fn literals_are_carried_through_unread() {
    let descriptor = enumeration(
        "Odd",
        vec![annotated("Teapot", "400 + 18", "concat!(\"tea\", \"pot\")")],
    );
    let details = collect_details(&descriptor).unwrap();
    assert_eq!(details, vec![detail("Teapot", "400 + 18", "concat!(\"tea\", \"pot\")")]);
    let text = impl_http_error_macro(&descriptor).unwrap();
    assert!(text.contains("            Odd::Teapot => 400 + 18,\n"));
    assert!(text.contains("            Odd::Teapot => concat!(\"tea\", \"pot\"),\n"));
}

#[test]
fn render_accessor_gives_the_http_status_method() {
    let details = vec![detail("Gone", "410", "\"gone\"")];
    let expected = "\
impl E {
    pub fn http_status(&self) -> u16 {
        match self {
            E::Gone => 410,
        }
    }
}
";
    assert_eq!(render_accessor("E", Accessor::HttpStatus, &details), expected);
}

#[test]
fn render_accessor_gives_the_message_method() {
    let details = vec![detail("Gone", "410", "\"gone\"")];
    let expected = "\
impl E {
    pub fn message(&self) -> &str {
        match self {
            E::Gone => \"gone\",
        }
    }
}
";
    assert_eq!(render_accessor("E", Accessor::Message, &details), expected);
}

#[test]
fn structure_is_refused() {
    let descriptor = EnumDescriptor {
        name: "Plain".to_string(),
        shape: TypeShape::Structure,
        variants: vec![],
    };
    assert_eq!(impl_http_error_macro(&descriptor), Err(Failure::NotAnEnumeration));
    assert_eq!(collect_details(&descriptor), Err(Failure::NotAnEnumeration));
}

#[test]
fn union_is_refused_even_with_annotated_variants() {
    let descriptor = EnumDescriptor {
        name: "Overlay".to_string(),
        shape: TypeShape::Union,
        variants: vec![annotated("A", "400", "\"a\"")],
    };
    assert_eq!(impl_http_error_macro(&descriptor), Err(Failure::NotAnEnumeration));
}

#[test]
fn missing_status_on_one_variant_refuses_all() {
    let descriptor = enumeration(
        "Partial",
        vec![
            annotated("First", "400", "\"first\""),
            variant("Second", vec![block("detail", vec![pair("message", "\"second\"")])]),
            annotated("Third", "500", "\"third\""),
        ],
    );
    let expected = Failure::MissingStatus { variant: "Second".to_string() };
    assert_eq!(impl_http_error_macro(&descriptor), Err(expected.clone()));
    assert_eq!(collect_details(&descriptor), Err(expected));
}

#[test]
fn missing_message_is_reported_for_its_variant() {
    let descriptor = enumeration(
        "Partial",
        vec![variant("Only", vec![block("detail", vec![pair("status", "400")])])],
    );
    assert_eq!(
        impl_http_error_macro(&descriptor),
        Err(Failure::MissingMessage { variant: "Only".to_string() })
    );
}

#[test]
fn first_refused_variant_decides_the_failure() {
    let descriptor = enumeration(
        "Broken",
        vec![
            annotated("Fine", "200", "\"fine\""),
            variant("NoMessage", vec![block("detail", vec![pair("status", "400")])]),
            variant("NoStatus", vec![]),
        ],
    );
    assert_eq!(
        impl_http_error_macro(&descriptor),
        Err(Failure::MissingMessage { variant: "NoMessage".to_string() })
    );
}

#[test]
fn missing_block_is_like_an_empty_block() {
    let without = enumeration("E", vec![variant("V", vec![])]);
    let with_empty = enumeration("E", vec![variant("V", vec![block("detail", vec![])])]);
    assert_eq!(parse_detail(&without.variants[0]), parse_detail(&with_empty.variants[0]));
    assert_eq!(impl_http_error_macro(&without), impl_http_error_macro(&with_empty));
    assert_eq!(
        impl_http_error_macro(&without),
        Err(Failure::MissingStatus { variant: "V".to_string() })
    );
}

#[test]
fn parse_detail_reads_both_keys_in_any_order() {
    let v = variant("V", vec![block("detail", vec![pair("message", "\"m\""), pair("status", "1")])]);
    assert_eq!(
        parse_detail(&v),
        Ok(AnnotationSet { status: Some("1".to_string()), message: Some("\"m\"".to_string()) })
    );
}

#[test]
fn parse_detail_passes_over_other_entries_and_blocks() {
    let v = variant(
        "V",
        vec![
            AnnotationBlock { name: Some("doc".to_string()), payload: Payload::Assigned },
            block("serde", vec![pair("status", "\"not this one\"")]),
            AnnotationBlock { name: None, payload: Payload::Bare },
            block(
                "detail",
                vec![
                    Entry::Literal,
                    pair("retry", "true"),
                    Entry::Flag { key: Some("status".to_string()) },
                    Entry::Group { key: Some("message".to_string()) },
                    pair("status", "503"),
                ],
            ),
        ],
    );
    assert_eq!(parse_detail(&v), Ok(AnnotationSet { status: Some("503".to_string()), message: None }));
}

#[test]
fn parse_detail_reads_the_first_detail_block_only() {
    let v = variant(
        "V",
        vec![
            block("detail", vec![pair("status", "1")]),
            block("detail", vec![pair("status", "2"), pair("message", "\"late\"")]),
        ],
    );
    assert_eq!(parse_detail(&v), Ok(AnnotationSet { status: Some("1".to_string()), message: None }));
}

#[test]
fn parse_detail_keeps_the_literal_written_last() {
    let v = variant(
        "V",
        vec![block(
            "detail",
            vec![pair("status", "1"), pair("message", "\"a\""), pair("status", "2")],
        )],
    );
    assert_eq!(
        parse_detail(&v),
        Ok(AnnotationSet { status: Some("2".to_string()), message: Some("\"a\"".to_string()) })
    );
}

#[test]
fn parse_detail_finds_nothing_in_a_block_without_a_list() {
    let bare = variant(
        "V",
        vec![AnnotationBlock { name: Some("detail".to_string()), payload: Payload::Bare }],
    );
    let assigned = variant(
        "V",
        vec![AnnotationBlock { name: Some("detail".to_string()), payload: Payload::Assigned }],
    );
    let nothing = AnnotationSet { status: None, message: None };
    assert_eq!(parse_detail(&bare), Ok(nothing.clone()));
    assert_eq!(parse_detail(&assigned), Ok(nothing));
}

#[test]
fn malformed_detail_is_refused_with_its_reason() {
    let v = variant(
        "V",
        vec![AnnotationBlock {
            name: Some("detail".to_string()),
            payload: Payload::Malformed { reason: "expected literal".to_string() },
        }],
    );
    let expected = Failure::MalformedAnnotation {
        variant: "V".to_string(),
        reason: "expected literal".to_string(),
    };
    assert_eq!(parse_detail(&v), Err(expected.clone()));
    assert_eq!(variant_http_error_detail(&v), Err(expected.clone()));
    assert_eq!(impl_http_error_macro(&enumeration("E", vec![v])), Err(expected));
}

#[test]
fn malformed_block_of_another_name_is_passed_over() {
    let v = variant(
        "V",
        vec![
            AnnotationBlock {
                name: Some("other".to_string()),
                payload: Payload::Malformed { reason: "unexpected token".to_string() },
            },
            block("detail", vec![pair("status", "1"), pair("message", "\"m\"")]),
        ],
    );
    assert_eq!(variant_http_error_detail(&v), Ok(detail("V", "1", "\"m\"")));
}

#[test]
fn entry_named_by_a_path_is_passed_over() {
    let v = variant(
        "A",
        vec![block(
            "detail",
            vec![
                pair("status", "1"),
                pair("message", "\"m\""),
                Entry::Pair { key: None, value: "2".to_string() },
                Entry::Flag { key: None },
                Entry::Group { key: None },
            ],
        )],
    );
    assert_eq!(
        parse_detail(&v),
        Ok(AnnotationSet { status: Some("1".to_string()), message: Some("\"m\"".to_string()) })
    );
    assert_eq!(variant_http_error_detail(&v), Ok(detail("A", "1", "\"m\"")));
    assert!(impl_http_error_macro(&enumeration("E", vec![v])).is_ok());
}

#[test]
fn missing_status_is_reported_past_an_entry_named_by_a_path() {
    let descriptor = enumeration(
        "E",
        vec![
            variant(
                "A",
                vec![block(
                    "detail",
                    vec![
                        pair("status", "1"),
                        pair("message", "\"m\""),
                        Entry::Pair { key: None, value: "2".to_string() },
                    ],
                )],
            ),
            variant("B", vec![block("detail", vec![pair("message", "\"b\"")])]),
        ],
    );
    assert_eq!(
        impl_http_error_macro(&descriptor),
        Err(Failure::MissingStatus { variant: "B".to_string() })
    );
}

#[test]
fn diagnostics_name_the_requirement_and_the_variant() {
    assert_eq!(Failure::NotAnEnumeration.diagnostic(), "only Enum is allowed");
    assert_eq!(
        Failure::MissingStatus { variant: "Gone".to_string() }.diagnostic(),
        "no http_status in HttpError variant Gone"
    );
    assert_eq!(
        Failure::MissingMessage { variant: "Gone".to_string() }.diagnostic(),
        "no message attribute in HttpError variant Gone"
    );
    assert_eq!(
        Failure::MalformedAnnotation { variant: "Gone".to_string(), reason: "why".to_string() }
            .diagnostic(),
        "malformed detail on variant Gone: why"
    );
}

#[test]
fn accessors_have_their_names_and_types() {
    assert_eq!(Accessor::ErrorCode.method_name(), "error_code");
    assert_eq!(Accessor::HttpStatus.method_name(), "http_status");
    assert_eq!(Accessor::Message.method_name(), "message");
    assert_eq!(Accessor::ErrorCode.return_type_name(), "&str");
    assert_eq!(Accessor::HttpStatus.return_type_name(), "u16");
    assert_eq!(Accessor::Message.return_type_name(), "&str");
}

#[test]
fn shapes_compare_by_variant() {
    assert_eq!(TypeShape::Enumeration, TypeShape::Enumeration);
    assert_ne!(TypeShape::Enumeration, TypeShape::Structure);
}
