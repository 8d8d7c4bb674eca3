use tx3_lang::analysis::{ada_asset_def, analyze, Analyzable};
use tx3_lang::ast::{
    AddressExpr, AssetConstructor, AssetExpr, BinaryOperator, CardanoBlock, ChainSpecificBlock,
    DataBinaryOp, DataExpr, DatumConstructor, Identifier, InputBlock, InputBlockField, MintBlock,
    MintBlockField, OutputBlock, OutputBlockField, ParamDef, ParameterList, PartyDef,
    PolicyConstructor, PolicyDef, PolicyField, PolicyValue, Program, PropertyAccess,
    RecordConstructorField, RecordField, Span, Symbol, TxDef, Type, TypeDef, VariantCase,
    VariantCaseConstructor, VoteDelegationCertificate,
};
use tx3_lang::report::{AnalyzeReport, Error};
use tx3_lang::scope::Scope;

fn id(name: &str, at: usize) -> Identifier {
    Identifier::new(name.to_string(), Span::new(at, at + name.len()))
}

fn party(name: &str) -> PartyDef {
    PartyDef { name: name.to_string(), span: Span::dummy() }
}

fn order_type() -> TypeDef {
    TypeDef {
        name: "Order".to_string(),
        cases: vec![VariantCase {
            name: "Pay".to_string(),
            fields: vec![RecordField { name: "amount".to_string(), ty: Type::Int, span: Span::dummy() }],
            span: Span::dummy(),
        }],
        span: Span::dummy(),
    }
}

fn tx(name: &str, params: Vec<ParamDef>, inputs: Vec<InputBlock>, outputs: Vec<OutputBlock>) -> TxDef {
    TxDef {
        name: name.to_string(),
        parameters: ParameterList { parameters: params, span: Span::dummy() },
        inputs,
        outputs,
        mint: None,
        adhoc: vec![],
        span: Span::dummy(),
        scope: None,
    }
}

fn output(fields: Vec<OutputBlockField>) -> OutputBlock {
    OutputBlock { name: None, fields, span: Span::dummy() }
}

fn input(name: &str, fields: Vec<InputBlockField>) -> InputBlock {
    InputBlock { name: name.to_string(), is_many: false, fields, span: Span::dummy() }
}

fn program(parties: Vec<PartyDef>, types: Vec<TypeDef>, txs: Vec<TxDef>) -> Program {
    Program {
        txs,
        types,
        assets: vec![],
        parties,
        policies: vec![],
        span: Span::dummy(),
        scope: None,
    }
}

fn not_in_scope_names(report: &AnalyzeReport) -> Vec<String> {
    report
        .errors
        .iter()
        .map(|e| match e {
            Error::NotInScope(x) => x.name.clone(),
            other => panic!("unexpected error {:?}", other),
        })
        .collect()
}

fn output_to(p: &Program, t: usize, o: usize, f: usize) -> &Identifier {
    match &p.txs[t].outputs[o].fields[f] {
        OutputBlockField::To(a) => match a.as_ref() {
            AddressExpr::Identifier(x) => x,
            _ => panic!("not an identifier"),
        },
        _ => panic!("not a `to` field"),
    }
}

#[test]
fn names_of_parties_resolve_in_transactions() {
    let mut p = program(
        vec![party("Alice")],
        vec![],
        vec![tx("pay", vec![], vec![], vec![output(vec![OutputBlockField::To(Box::new(
            AddressExpr::Identifier(id("Alice", 30)),
        ))])])],
    );
    let report = analyze(&mut p);
    assert!(report.is_empty());
    match &output_to(&p, 0, 0, 0).symbol {
        Some(Symbol::PartyDef(d)) => assert_eq!(d.name, "Alice"),
        other => panic!("unexpected {:?}", other),
    }
    assert!(p.scope.is_some());
    assert!(p.txs[0].scope.is_some());
}

#[test]
fn unknown_name_is_reported_with_its_span_and_left_unresolved() {
    let mut p = program(
        vec![],
        vec![],
        vec![tx("pay", vec![], vec![], vec![output(vec![OutputBlockField::To(Box::new(
            AddressExpr::Identifier(id("Carol", 42)),
        ))])])],
    );
    let report = analyze(&mut p);
    assert_eq!(not_in_scope_names(&report), vec!["Carol"]);
    assert_eq!(report.errors[0].span(), Span::new(42, 47));
    assert!(report.errors[0].src().is_none());
    assert!(output_to(&p, 0, 0, 0).symbol.is_none());
    assert!(report.ok().is_err());
}

#[test]
fn errors_come_in_the_order_of_the_program() {
    let field = |n: &str, at: usize| OutputBlockField::To(Box::new(AddressExpr::Identifier(id(n, at))));
    let mut p = program(
        vec![party("Alice")],
        vec![],
        vec![
            tx("first", vec![], vec![], vec![output(vec![field("x", 1), field("Alice", 2), field("y", 3)])]),
            tx("second", vec![], vec![], vec![output(vec![field("z", 4)])]),
        ],
    );
    let report = analyze(&mut p);
    assert_eq!(not_in_scope_names(&report), vec!["x", "y", "z"]);
}

#[test]
fn transaction_scope_binds_fees_parameters_and_inputs() {
    let amount = DataExpr::BinaryOp(DataBinaryOp {
        left: Box::new(DataExpr::Identifier(id("fees", 10))),
        operator: BinaryOperator::Add,
        right: Box::new(DataExpr::Identifier(id("qty", 20))),
        span: Span::dummy(),
    });
    let mut p = program(
        vec![],
        vec![],
        vec![tx(
            "pay",
            vec![ParamDef { name: "qty".to_string(), ty: Type::Int }],
            vec![input("source", vec![InputBlockField::MinAmount(AssetExpr::Constructor(AssetConstructor {
                ty: id("Ada", 5),
                amount: Box::new(amount),
                span: Span::dummy(),
            }))])],
            vec![output(vec![OutputBlockField::Datum(Box::new(DataExpr::Identifier(id("source", 40))))])],
        )],
    );
    let report = analyze(&mut p);
    assert!(report.is_empty());
    match &p.txs[0].inputs[0].fields[0] {
        InputBlockField::MinAmount(AssetExpr::Constructor(c)) => {
            match &c.ty.symbol {
                Some(Symbol::AssetDef(a)) => {
                    assert_eq!(a.name, "Ada");
                    assert_eq!(a.asset_name, "");
                },
                other => panic!("unexpected {:?}", other),
            }
            match c.amount.as_ref() {
                DataExpr::BinaryOp(b) => {
                    assert!(matches!(&b.left.as_ref(), DataExpr::Identifier(i) if matches!(i.symbol, Some(Symbol::Fees))));
                    assert!(matches!(&b.right.as_ref(), DataExpr::Identifier(i) if matches!(&i.symbol, Some(Symbol::ParamVar(n, _)) if n == "qty")));
                },
                _ => panic!("not a binary op"),
            }
        },
        _ => panic!("unexpected field"),
    }
    match &p.txs[0].outputs[0].fields[0] {
        OutputBlockField::Datum(d) => match d.as_ref() {
            DataExpr::Identifier(i) => assert!(matches!(&i.symbol, Some(Symbol::Input(n)) if n == "source")),
            _ => panic!("not an identifier"),
        },
        _ => panic!("unexpected field"),
    }
    let scope = p.txs[0].scope.as_ref().unwrap();
    assert!(matches!(scope.lookup("fees"), Some(Symbol::Fees)));
    assert!(scope.lookup("qty").is_some());
    assert!(scope.lookup("source").is_some());
}

#[test]
fn datum_constructor_resolves_type_case_and_fields() {
    let datum = DataExpr::Constructor(DatumConstructor {
        ty: id("Order", 1),
        case: VariantCaseConstructor {
            name: id("Pay", 8),
            fields: vec![RecordConstructorField {
                name: id("amount", 14),
                value: Box::new(DataExpr::Identifier(id("qty", 22))),
                span: Span::dummy(),
            }],
            span: Span::dummy(),
            scope: None,
        },
        span: Span::dummy(),
        scope: None,
    });
    let mut p = program(
        vec![],
        vec![order_type()],
        vec![tx(
            "pay",
            vec![ParamDef { name: "qty".to_string(), ty: Type::Int }],
            vec![],
            vec![output(vec![OutputBlockField::Datum(Box::new(datum))])],
        )],
    );
    let report = analyze(&mut p);
    assert!(report.is_empty());
    match &p.txs[0].outputs[0].fields[0] {
        OutputBlockField::Datum(d) => match d.as_ref() {
            DataExpr::Constructor(c) => {
                assert!(matches!(&c.ty.symbol, Some(Symbol::TypeDef(t)) if t.name == "Order"));
                assert!(matches!(&c.case.name.symbol, Some(Symbol::VariantCase(v)) if v.name == "Pay"));
                let f = &c.case.fields[0];
                assert!(matches!(&f.name.symbol, Some(Symbol::RecordField(r)) if r.name == "amount"));
                assert!(matches!(f.value.as_ref(), DataExpr::Identifier(i) if i.symbol.is_some()));
                let cases = c.scope.as_ref().unwrap();
                assert!(cases.lookup("Pay").is_some());
                assert_eq!(cases.symbols.len(), 1);
                let fields = c.case.scope.as_ref().unwrap();
                assert!(fields.lookup("amount").is_some());
                assert!(fields.lookup("Pay").is_none());
            },
            _ => panic!("not a constructor"),
        },
        _ => panic!("unexpected field"),
    }
}

#[test]
fn datum_constructor_on_a_party_reports_one_invalid_symbol() {
    let datum = DataExpr::Constructor(DatumConstructor {
        ty: id("Alice", 3),
        case: VariantCaseConstructor {
            name: id("Pay", 9),
            fields: vec![],
            span: Span::dummy(),
            scope: None,
        },
        span: Span::dummy(),
        scope: None,
    });
    let mut p = program(
        vec![party("Alice")],
        vec![],
        vec![tx("pay", vec![], vec![], vec![output(vec![OutputBlockField::Datum(Box::new(datum))])])],
    );
    let report = analyze(&mut p);
    assert_eq!(report.errors.len(), 1);
    match &report.errors[0] {
        Error::InvalidSymbol(x) => {
            assert_eq!(x.expected, "TypeDef");
            assert!(x.got.starts_with("PartyDef("));
            assert!(x.got.contains("\"Alice\""));
        },
        other => panic!("unexpected {:?}", other),
    }
    assert_eq!(report.errors[0].span(), Span::new(3, 8));
}

#[test]
fn case_name_that_is_no_case_reports_invalid_symbol() {
    let mut c = VariantCaseConstructor {
        name: id("fees", 2),
        fields: vec![],
        span: Span::dummy(),
        scope: None,
    };
    let mut scope = Scope::new(None);
    scope.insert("fees".to_string(), Symbol::Fees);
    let report = c.analyze(Some(std::rc::Rc::new(scope)));
    assert_eq!(report.errors.len(), 1);
    match &report.errors[0] {
        Error::InvalidSymbol(x) => {
            assert_eq!(x.expected, "VariantCase");
            assert_eq!(x.got, "Fees");
        },
        other => panic!("unexpected {:?}", other),
    }
    assert!(c.scope.is_none());
}

#[test]
fn property_path_is_looked_up_in_a_new_nested_scope() {
    let access = DataExpr::PropertyAccess(PropertyAccess {
        object: id("source", 1),
        path: vec![id("amount", 8), id("qty", 15)],
        span: Span::dummy(),
        scope: None,
    });
    let mut p = program(
        vec![],
        vec![],
        vec![tx(
            "pay",
            vec![ParamDef { name: "qty".to_string(), ty: Type::Int }],
            vec![input("source", vec![])],
            vec![output(vec![OutputBlockField::Datum(Box::new(access))])],
        )],
    );
    let report = analyze(&mut p);
    assert_eq!(not_in_scope_names(&report), vec!["amount"]);
    match &p.txs[0].outputs[0].fields[0] {
        OutputBlockField::Datum(d) => match d.as_ref() {
            DataExpr::PropertyAccess(a) => {
                assert!(a.object.symbol.is_some());
                assert!(a.path[0].symbol.is_none());
                assert!(a.path[1].symbol.is_some());
                let s = a.scope.as_ref().unwrap();
                assert!(s.symbols.is_empty());
                assert!(s.parent.is_some());
            },
            _ => panic!("not a property access"),
        },
        _ => panic!("unexpected field"),
    }
}

#[test]
fn types_and_policies_are_analysed_in_the_program_scope() {
    let mut types = vec![order_type()];
    types[0].cases[0].fields.push(RecordField {
        name: "owner".to_string(),
        ty: Type::Custom(id("Owner", 50)),
        span: Span::dummy(),
    });
    let mut p = program(vec![], types, vec![]);
    p.policies.push(PolicyDef {
        name: "Mint".to_string(),
        value: PolicyValue::Constructor(PolicyConstructor {
            fields: vec![
                PolicyField::Hash(DataExpr::Identifier(id("Order", 60))),
                PolicyField::Script(DataExpr::Identifier(id("nowhere", 70))),
            ],
            span: Span::dummy(),
        }),
        span: Span::dummy(),
    });
    let report = analyze(&mut p);
    assert_eq!(not_in_scope_names(&report), vec!["nowhere", "Owner"]);
}

#[test]
fn an_asset_named_ada_replaces_the_builtin_one() {
    let mut p = program(
        vec![],
        vec![],
        vec![tx("pay", vec![], vec![], vec![output(vec![OutputBlockField::Amount(Box::new(
            AssetExpr::Identifier(id("Ada", 1)),
        ))])])],
    );
    let mut mine = ada_asset_def();
    mine.asset_name = "lovelace".to_string();
    p.assets.push(mine);
    let report = analyze(&mut p);
    assert!(report.is_empty());
    match &p.txs[0].outputs[0].fields[0] {
        OutputBlockField::Amount(a) => match a.as_ref() {
            AssetExpr::Identifier(i) => {
                assert!(matches!(&i.symbol, Some(Symbol::AssetDef(d)) if d.asset_name == "lovelace"))
            },
            _ => panic!("not an identifier"),
        },
        _ => panic!("unexpected field"),
    }
}

#[test]
fn mint_and_chain_specific_blocks_are_analysed_last() {
    let mut t = tx("pay", vec![], vec![], vec![output(vec![OutputBlockField::To(Box::new(AddressExpr::Identifier(id("a", 1))))])]);
    t.mint = Some(MintBlock {
        fields: vec![MintBlockField::Redeemer(Box::new(DataExpr::Identifier(id("b", 2))))],
        span: Span::dummy(),
    });
    t.adhoc.push(ChainSpecificBlock::Cardano(CardanoBlock::VoteDelegationCertificate(
        VoteDelegationCertificate {
            drep: DataExpr::Identifier(id("c", 3)),
            stake: DataExpr::Identifier(id("d", 4)),
            span: Span::dummy(),
        },
    )));
    t.inputs.push(input("i", vec![InputBlockField::From(AddressExpr::Identifier(id("e", 5)))]));
    let mut p = program(vec![], vec![], vec![t]);
    let report = analyze(&mut p);
    assert_eq!(not_in_scope_names(&report), vec!["e", "a", "b", "c", "d"]);
}

#[test]
fn analysis_without_a_scope_resolves_nothing() {
    let mut e = DataExpr::Identifier(id("fees", 0));
    let report = e.analyze(None);
    assert_eq!(not_in_scope_names(&report), vec!["fees"]);
    let mut literal = DataExpr::Number(7);
    assert!(literal.analyze(None).is_empty());
    let mut ty = Type::List(Box::new(Type::Custom(id("X", 0))));
    assert!(ty.analyze(None).is_empty());
}

#[test]
fn analysis_changes_only_symbols_and_scopes() {
    let mut p = program(
        vec![party("Alice")],
        vec![order_type()],
        vec![tx(
            "pay",
            vec![ParamDef { name: "qty".to_string(), ty: Type::Custom(id("Order", 3)) }],
            vec![input("source", vec![InputBlockField::From(AddressExpr::Identifier(id("Alice", 11)))])],
            vec![output(vec![OutputBlockField::To(Box::new(AddressExpr::Identifier(id("Bob", 20))))])],
        )],
    );
    let report = analyze(&mut p);
    assert_eq!(not_in_scope_names(&report), vec!["Bob"]);
    assert_eq!(p.parties.len(), 1);
    assert_eq!(p.parties[0].name, "Alice");
    assert_eq!(p.types[0].name, "Order");
    assert_eq!(p.types[0].cases[0].fields[0].name, "amount");
    let t = &p.txs[0];
    assert_eq!(t.name, "pay");
    match &t.parameters.parameters[0].ty {
        Type::Custom(i) => {
            assert_eq!(i.value, "Order");
            assert!(i.symbol.is_none());
        },
        _ => panic!("parameter type changed"),
    }
    match &t.inputs[0].fields[0] {
        InputBlockField::From(AddressExpr::Identifier(i)) => {
            assert_eq!(i.value, "Alice");
            assert_eq!(i.span, Span::new(11, 16));
            assert!(i.symbol.is_some());
        },
        _ => panic!("input field changed"),
    }
    let to = output_to(&p, 0, 0, 0);
    assert_eq!(to.value, "Bob");
    assert_eq!(to.span, Span::new(20, 23));
}

fn duplicate_names(report: &AnalyzeReport) -> Vec<String> {
    report
        .errors
        .iter()
        .filter_map(|e| match e {
            Error::DuplicateDefinition(n) => Some(n.clone()),
            _ => None,
        })
        .collect()
}

#[test]
fn two_parties_of_one_name_are_a_duplicate_definition() {
    let mut p = program(vec![party("Alice"), party("Bob"), party("Alice")], vec![], vec![]);
    let report = analyze(&mut p);
    assert_eq!(report.errors.len(), 1);
    assert_eq!(duplicate_names(&report), vec!["Alice"]);
    assert!(!report.is_empty());
}

#[test]
fn a_party_and_a_type_of_one_name_are_a_duplicate_definition() {
    let mut p = program(vec![party("Order")], vec![order_type()], vec![]);
    let report = analyze(&mut p);
    assert_eq!(duplicate_names(&report), vec!["Order"]);
    let scope = p.scope.as_ref().unwrap();
    assert!(matches!(scope.lookup("Order"), Some(Symbol::TypeDef(_))));
}

#[test]
fn duplicates_are_reported_before_other_errors() {
    let mut p = program(
        vec![party("Alice"), party("Alice")],
        vec![],
        vec![tx("pay", vec![], vec![], vec![output(vec![OutputBlockField::To(Box::new(
            AddressExpr::Identifier(id("Carol", 3)),
        ))])])],
    );
    let report = analyze(&mut p);
    assert_eq!(report.errors.len(), 2);
    assert!(matches!(&report.errors[0], Error::DuplicateDefinition(n) if n == "Alice"));
    assert!(matches!(&report.errors[1], Error::NotInScope(x) if x.name == "Carol"));
}

#[test]
fn a_parameter_and_an_input_of_one_name_are_a_duplicate_definition() {
    let mut p = program(
        vec![],
        vec![],
        vec![tx(
            "pay",
            vec![ParamDef { name: "source".to_string(), ty: Type::Int }],
            vec![input("source", vec![])],
            vec![],
        )],
    );
    let report = analyze(&mut p);
    assert_eq!(duplicate_names(&report), vec!["source"]);
    assert_eq!(report.errors.len(), 1);
}

#[test]
fn builtin_names_may_be_redefined() {
    let mut p = program(
        vec![],
        vec![],
        vec![tx("pay", vec![ParamDef { name: "fees".to_string(), ty: Type::Int }], vec![], vec![])],
    );
    p.assets.push(ada_asset_def());
    let report = analyze(&mut p);
    assert!(report.is_empty());
}

#[test]
fn unknown_constructor_type_is_reported_without_stopping() {
    let datum = DataExpr::Constructor(DatumConstructor {
        ty: id("Missing", 4),
        case: VariantCaseConstructor {
            name: id("Pay", 12),
            fields: vec![],
            span: Span::dummy(),
            scope: None,
        },
        span: Span::dummy(),
        scope: None,
    });
    let mut p = program(
        vec![],
        vec![],
        vec![tx("pay", vec![], vec![], vec![output(vec![
            OutputBlockField::Datum(Box::new(datum)),
            OutputBlockField::To(Box::new(AddressExpr::Identifier(id("Bob", 30)))),
        ])])],
    );
    let report = analyze(&mut p);
    assert_eq!(not_in_scope_names(&report), vec!["Missing", "Bob"]);
    assert_eq!(report.errors[0].span(), Span::new(4, 11));
    match &p.txs[0].outputs[0].fields[0] {
        OutputBlockField::Datum(d) => match d.as_ref() {
            DataExpr::Constructor(c) => {
                assert!(c.ty.symbol.is_none());
                assert!(c.scope.is_none());
                assert!(c.case.name.symbol.is_none());
            },
            _ => panic!("not a constructor"),
        },
        _ => panic!("unexpected field"),
    }
}

#[test]
fn unknown_case_name_is_reported_without_stopping() {
    let datum = DataExpr::Constructor(DatumConstructor {
        ty: id("Order", 1),
        case: VariantCaseConstructor {
            name: id("Refund", 8),
            fields: vec![],
            span: Span::dummy(),
            scope: None,
        },
        span: Span::dummy(),
        scope: None,
    });
    let mut p = program(
        vec![],
        vec![order_type()],
        vec![tx("pay", vec![], vec![], vec![output(vec![OutputBlockField::Datum(Box::new(datum))])])],
    );
    let report = analyze(&mut p);
    assert_eq!(not_in_scope_names(&report), vec!["Refund"]);
    assert_eq!(report.errors[0].span(), Span::new(8, 14));
}

#[test]
fn analysing_an_analysed_program_again_gives_the_same_errors() {
    let mut p = program(
        vec![party("Alice"), party("Alice")],
        vec![order_type()],
        vec![tx("pay", vec![], vec![], vec![output(vec![OutputBlockField::To(Box::new(
            AddressExpr::Identifier(id("Carol", 3)),
        ))])])],
    );
    let first = analyze(&mut p);
    let second = analyze(&mut p);
    assert_eq!(format!("{:?}", first.errors), format!("{:?}", second.errors));
}

#[test]
fn two_transactions_of_one_name_are_a_duplicate_definition() {
    let mut p = program(
        vec![],
        vec![],
        vec![tx("pay", vec![], vec![], vec![]), tx("pay", vec![], vec![], vec![])],
    );
    let report = analyze(&mut p);
    assert_eq!(duplicate_names(&report), vec!["pay"]);
    assert_eq!(report.errors.len(), 1);
}

#[test]
fn a_transaction_named_like_a_party_is_a_duplicate_definition() {
    let mut p = program(vec![party("pay")], vec![], vec![tx("pay", vec![], vec![], vec![])]);
    let report = analyze(&mut p);
    assert_eq!(duplicate_names(&report), vec!["pay"]);
}
