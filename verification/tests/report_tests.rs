use tx3_lang::ast::{Identifier, Span, Symbol};
use tx3_lang::report::{AnalyzeReport, Error, NotInScopeError};

fn not_in_scope(name: &str) -> Error {
    Error::not_in_scope(name.to_string(), &Identifier::new(name.to_string(), Span::new(4, 9)))
}

#[test]
fn not_in_scope_error_points_at_the_name() {
    let e = not_in_scope("Bob");
    match &e {
        Error::NotInScope(x) => {
            assert_eq!(x.name, "Bob");
            assert!(x.src.is_none());
        },
        _ => panic!("wrong variant"),
    }
    assert_eq!(e.span(), Span::new(4, 9));
    assert!(e.src().is_none());
}

#[test]
fn src_is_the_text_a_not_in_scope_error_carries() {
    let e = Error::NotInScope(NotInScopeError {
        name: "x".to_string(),
        src: Some("tx t() {}".to_string()),
        span: Span::new(0, 1),
    });
    assert_eq!(e.src(), Some("tx t() {}"));
}

#[test]
fn invalid_symbol_error_renders_the_symbol() {
    let at = Identifier::new("fees".to_string(), Span::new(10, 14));
    let e = Error::invalid_symbol("TypeDef", &Symbol::Fees, &at);
    match &e {
        Error::InvalidSymbol(x) => {
            assert_eq!(x.expected, "TypeDef");
            assert_eq!(x.got, "Fees");
            assert!(x.src.is_none());
        },
        _ => panic!("wrong variant"),
    }
    assert_eq!(e.span(), Span::new(10, 14));
    let input = Error::invalid_symbol("VariantCase", &Symbol::Input("source".to_string()), &at);
    match &input {
        Error::InvalidSymbol(x) => assert_eq!(x.got, "Input(\"source\")"),
        _ => panic!("wrong variant"),
    }
}

#[test]
fn errors_without_a_span_point_nowhere() {
    assert_eq!(Error::NeedsParentScope.span(), Span::dummy());
    assert!(Error::DuplicateDefinition("a".to_string()).span().dummy);
    assert!(Error::NeedsParentScope.src().is_none());
}

#[test]
fn empty_report_is_ok() {
    let report = AnalyzeReport::default();
    assert!(report.is_empty());
    assert!(report.ok().is_ok());
}

#[test]
fn report_with_errors_is_returned_as_err() {
    let report = AnalyzeReport::from(not_in_scope("a"));
    assert!(!report.is_empty());
    let back = report.ok().unwrap_err();
    assert_eq!(back.errors.len(), 1);
}

#[test]
fn adding_errors_and_reports_keeps_their_order() {
    let two = not_in_scope("a") + not_in_scope("b");
    assert_eq!(two.errors.len(), 2);
    let three = two + AnalyzeReport::from(vec![not_in_scope("c")]);
    let names: Vec<String> = three
        .errors
        .iter()
        .map(|e| match e {
            Error::NotInScope(x) => x.name.clone(),
            _ => panic!("wrong variant"),
        })
        .collect();
    assert_eq!(names, vec!["a", "b", "c"]);
    let joined = AnalyzeReport::default().concat(AnalyzeReport::default());
    assert!(joined.is_empty());
}

#[test]
fn joined_errors_keep_the_rendered_symbol() {
    let at = Identifier::new("fees".to_string(), Span::new(10, 14));
    let report = Error::invalid_symbol("TypeDef", &Symbol::Fees, &at) + not_in_scope("Bob");
    assert_eq!(report.errors.len(), 2);
    assert!(matches!(&report.errors[0], Error::InvalidSymbol(x) if x.got == "Fees"));
    let joined = report + AnalyzeReport::from(not_in_scope("Carol"));
    assert!(matches!(&joined.errors[0], Error::InvalidSymbol(x) if x.got == "Fees"));
    assert_eq!(joined.errors.len(), 3);
}

#[test]
fn concat_all_keeps_every_error_in_order() {
    let reports = vec![
        AnalyzeReport::from(not_in_scope("a")),
        AnalyzeReport::default(),
        not_in_scope("b") + not_in_scope("c"),
    ];
    let all = AnalyzeReport::concat_all(reports);
    let names: Vec<String> = all
        .errors
        .iter()
        .map(|e| match e {
            Error::NotInScope(x) => x.name.clone(),
            _ => panic!("wrong variant"),
        })
        .collect();
    assert_eq!(names, vec!["a", "b", "c"]);
    assert!(AnalyzeReport::concat_all(vec![]).is_empty());
}

#[test]
fn messages_describe_each_error() {
    assert_eq!(not_in_scope("Bob").message(), "not in scope: Bob");
    assert_eq!(Error::DuplicateDefinition("Alice".to_string()).message(), "duplicate definition: Alice");
    assert_eq!(Error::NeedsParentScope.message(), "needs parent scope");
    let at = Identifier::new("fees".to_string(), Span::new(10, 14));
    let e = Error::invalid_symbol("TypeDef", &Symbol::Fees, &at);
    assert_eq!(e.message(), "invalid symbol, expected TypeDef, got Fees");
}
