use std::rc::Rc;

use tx3_lang::ast::{
    AssetDef, HexStringLiteral, Identifier, InputBlock, PartyDef, PolicyDef, PolicyValue,
    RecordField, Span, Symbol, Type, TypeDef, VariantCase,
};
use tx3_lang::scope::{share_scope, Scope};

fn party(name: &str) -> PartyDef {
    PartyDef { name: name.to_string(), span: Span::new(0, 5) }
}

#[test]
fn new_scope_is_empty_and_keeps_its_parent() {
    let outer = Rc::new(Scope::new(None));
    let inner = Scope::new(Some(outer.clone()));
    assert!(inner.symbols.is_empty());
    assert!(Rc::ptr_eq(inner.parent.as_ref().unwrap(), &outer));
    assert!(inner.resolve("anything").is_none());
}

#[test]
fn resolve_finds_binding_in_parent() {
    let mut outer = Scope::new(None);
    outer.insert("fees".to_string(), Symbol::Fees);
    let inner = Scope::new(Some(Rc::new(outer)));
    assert!(matches!(inner.resolve("fees"), Some(Symbol::Fees)));
    assert!(inner.resolve("other").is_none());
}

#[test]
fn inner_binding_shadows_outer_one() {
    let mut outer = Scope::new(None);
    outer.track_party_def(&party("Alice"));
    let mut inner = Scope::new(Some(Rc::new(outer)));
    inner.track_input(&InputBlock {
        name: "Alice".to_string(),
        is_many: false,
        fields: vec![],
        span: Span::dummy(),
    });
    match inner.resolve("Alice") {
        Some(Symbol::Input(name)) => assert_eq!(name, "Alice"),
        other => panic!("unexpected {:?}", other),
    }
}

#[test]
fn insert_replaces_an_earlier_binding() {
    let mut scope = Scope::new(None);
    scope.track_party_def(&party("Bob"));
    scope.insert("Bob".to_string(), Symbol::Fees);
    assert_eq!(scope.symbols.len(), 1);
    assert!(matches!(scope.resolve("Bob"), Some(Symbol::Fees)));
    assert!(matches!(scope.lookup("Bob"), Some(Symbol::Fees)));
    assert!(scope.lookup("Carol").is_none());
}

#[test]
fn track_functions_bind_copies_of_definitions() {
    let mut scope = Scope::new(None);
    let field = RecordField { name: "amount".to_string(), ty: Type::Int, span: Span::new(1, 2) };
    let case = VariantCase { name: "Pay".to_string(), fields: vec![], span: Span::new(3, 4) };
    let def = TypeDef { name: "Order".to_string(), cases: vec![], span: Span::new(5, 6) };
    let policy = PolicyDef {
        name: "Mint".to_string(),
        value: PolicyValue::Assign(HexStringLiteral::new("abcd".to_string())),
        span: Span::new(7, 8),
    };
    let asset = AssetDef {
        name: "Token".to_string(),
        policy: HexStringLiteral::new("ff".to_string()),
        asset_name: "TK".to_string(),
        span: Span::new(9, 10),
    };
    scope.track_record_field(&field);
    scope.track_variant_case(&case);
    scope.track_type_def(&def);
    scope.track_policy_def(&policy);
    scope.track_asset_def(&asset);
    scope.track_param_var("qty", Type::Int);
    match scope.resolve("amount") {
        Some(Symbol::RecordField(f)) => {
            assert_eq!(f.name, "amount");
            assert!(matches!(f.ty, Type::Int));
            assert_eq!(f.span, Span::new(1, 2));
        },
        other => panic!("unexpected {:?}", other),
    }
    assert!(matches!(scope.resolve("Pay"), Some(Symbol::VariantCase(c)) if c.name == "Pay"));
    assert!(matches!(scope.resolve("Order"), Some(Symbol::TypeDef(d)) if d.name == "Order"));
    match scope.resolve("Mint") {
        Some(Symbol::PolicyDef(p)) => match &p.value {
            PolicyValue::Assign(h) => assert_eq!(h.value, "abcd"),
            _ => panic!("wrong policy value"),
        },
        other => panic!("unexpected {:?}", other),
    }
    match scope.resolve("Token") {
        Some(Symbol::AssetDef(a)) => {
            assert_eq!(a.asset_name, "TK");
            assert_eq!(a.policy.value, "ff");
        },
        other => panic!("unexpected {:?}", other),
    }
    match scope.resolve("qty") {
        Some(Symbol::ParamVar(name, ty)) => {
            assert_eq!(name, "qty");
            assert!(matches!(*ty, Type::Int));
        },
        other => panic!("unexpected {:?}", other),
    }
    assert_eq!(scope.symbols.len(), 6);
}

#[test]
fn resolved_symbol_is_a_copy_of_the_stored_one() {
    let mut scope = Scope::new(None);
    let ty = Type::Custom(Identifier::new("Order".to_string(), Span::new(2, 7)));
    scope.track_param_var("order", ty);
    match scope.resolve("order") {
        Some(Symbol::ParamVar(_, t)) => match *t {
            Type::Custom(id) => {
                assert_eq!(id.value, "Order");
                assert_eq!(id.span, Span::new(2, 7));
                assert!(id.symbol.is_none());
            },
            _ => panic!("wrong type"),
        },
        other => panic!("unexpected {:?}", other),
    }
}

#[test]
fn share_scope_gives_the_same_scope() {
    let scope = Some(Rc::new(Scope::new(None)));
    let shared = share_scope(&scope);
    assert!(Rc::ptr_eq(scope.as_ref().unwrap(), shared.as_ref().unwrap()));
    assert!(share_scope(&None).is_none());
}
