//! Properties of scopes, reports and analysis that hold for all inputs.

use vstd::prelude::*;

use crate::model::{
    SpecAddressExpr, SpecAssetBinaryOp, SpecAssetConstructor, SpecAssetExpr,
    SpecChainSpecificBlock, SpecCardanoBlock, SpecDataBinaryOp, SpecDataExpr,
    SpecDatumConstructor, SpecIdentifier, SpecInputBlock, SpecInputBlockField, SpecMintBlock,
    SpecMintBlockField, SpecOutputBlock, SpecOutputBlockField, SpecPolicyConstructor,
    SpecPolicyDef, SpecPolicyField, SpecPolicyValue, SpecProgram, SpecPropertyAccess,
    SpecRecordConstructorField, SpecRecordField, SpecScope, SpecSymbol, SpecTxDef, SpecType,
    SpecTypeDef, SpecVariantCase, SpecVariantCaseConstructor, SpecVoteDelegationCertificate,
};
use crate::report::SpecError;
use crate::scope::child_scope;
use crate::semantics::{
    analyze_asset_binary_op, analyze_asset_constructor, analyze_asset_expr,
    analyze_chain_specific_block, analyze_input_block,
    analyze_input_block_field, analyze_mint_block, analyze_mint_block_field,
    analyze_output_block, analyze_output_block_field,
    analyze_policy_def, analyze_policy_field, analyze_program,
    analyze_record_field, analyze_tx_def, analyze_type_def, analyze_variant_case,
    program_scope, tx_scope,
    analyze_data_binary_op, analyze_data_expr, analyze_datum_constructor, analyze_each,
    analyze_identifier, analyze_property_access, analyze_record_constructor_field,
    analyze_record_constructor_fields, analyze_variant_case_constructor, cases_scope,
    fields_scope, Analysis, duplicate_definitions, redefinition, program_names, tx_names,
};

verus! {

// ---------------------------------------------------------------------------
// Scopes

/// A name bound in a scope resolves there to the symbol it was bound to.
pub proof fn law_bound_name_resolves_to_its_symbol(scope: SpecScope, name: Seq<char>, symbol: SpecSymbol)
    ensures
        scope.bind(name, symbol).resolve(name) == Some(symbol),
{
}

/// Binding a name leaves what every other name resolves to as it was.
pub proof fn law_binding_leaves_other_names(
    scope: SpecScope,
    name: Seq<char>,
    symbol: SpecSymbol,
    other: Seq<char>,
)
    requires
        other != name,
    ensures
        scope.bind(name, symbol).resolve(other) == scope.resolve(other),
{
}

/// A new scope resolves every name as the scope around it does; without
/// a scope around it, no name resolves.
pub proof fn law_new_scope_sees_its_parent(parent: Option<SpecScope>, name: Seq<char>)
    ensures
        child_scope(parent).resolve(name) == match parent {
            Some(p) => p.resolve(name),
            None => None,
        },
{
}

/// A scope's own binding of a name hides every binding of it in the
/// scopes around it.
pub proof fn law_inner_binding_shadows_outer(scope: SpecScope, name: Seq<char>)
    requires
        scope.symbols.contains_key(name),
    ensures
        scope.resolve(name) == Some(scope.symbols[name]),
{
}

// ---------------------------------------------------------------------------
// Reports

/// Joining two reports gives an empty report exactly when both are empty.
pub proof fn law_joined_report_empty_iff_both_empty(a: Seq<SpecError>, b: Seq<SpecError>)
    ensures
        (a + b).len() == 0 <==> (a.len() == 0 && b.len() == 0),
{
}

/// Joining reports is associative, with the empty report as identity.
pub proof fn law_joining_reports_is_associative(a: Seq<SpecError>, b: Seq<SpecError>, c: Seq<SpecError>)
    ensures
        (a + b) + c == a + (b + c),
        a + Seq::<SpecError>::empty() == a,
        Seq::<SpecError>::empty() + a == a,
{
    assert((a + b) + c =~= a + (b + c));
    assert(a + Seq::<SpecError>::empty() =~= a);
    assert(Seq::<SpecError>::empty() + a =~= a);
}

// ---------------------------------------------------------------------------
// What analysis reports

/// Every error is a name that does not resolve or that resolves to the
/// wrong kind of symbol, and none carries source text.
pub open spec fn resolution_errors(errs: Seq<SpecError>) -> bool {
    forall|i: int|
        0 <= i < errs.len() ==> match #[trigger] errs[i] {
            SpecError::NotInScope { src, .. } => src is None,
            SpecError::InvalidSymbol { src, .. } => src is None,
            _ => false,
        }
}

pub open spec fn identifier_resolved(i: SpecIdentifier) -> bool {
    i.symbol is Some
}

pub open spec fn identifiers_resolved(s: Seq<SpecIdentifier>) -> bool {
    forall|i: int| 0 <= i < s.len() ==> identifier_resolved(#[trigger] s[i])
}

pub open spec fn type_resolved(t: SpecType) -> bool {
    match t {
        SpecType::Custom(i) => identifier_resolved(i),
        _ => true,
    }
}

pub open spec fn data_expr_resolved(e: SpecDataExpr) -> bool
    decreases e,
{
    match e {
        SpecDataExpr::Constructor(c) => datum_constructor_resolved(c),
        SpecDataExpr::Identifier(i) => identifier_resolved(i),
        SpecDataExpr::PropertyAccess(p) => property_access_resolved(p),
        SpecDataExpr::BinaryOp(b) => data_binary_op_resolved(b),
        _ => true,
    }
}

pub open spec fn datum_constructor_resolved(c: SpecDatumConstructor) -> bool
    decreases c,
{
    identifier_resolved(c.ty) && variant_case_constructor_resolved(c.case)
}

pub open spec fn variant_case_constructor_resolved(c: SpecVariantCaseConstructor) -> bool
    decreases c,
{
    identifier_resolved(c.name) && record_constructor_fields_resolved(c.fields)
}

pub open spec fn record_constructor_fields_resolved(s: Seq<SpecRecordConstructorField>) -> bool
    decreases s,
{
    s.len() == 0 || (record_constructor_fields_resolved(s.drop_last())
        && record_constructor_field_resolved(s.last()))
}

pub open spec fn record_constructor_field_resolved(f: SpecRecordConstructorField) -> bool
    decreases f,
{
    identifier_resolved(f.name) && data_expr_resolved(*f.value)
}

pub open spec fn data_binary_op_resolved(b: SpecDataBinaryOp) -> bool
    decreases b,
{
    data_expr_resolved(*b.left) && data_expr_resolved(*b.right)
}

pub open spec fn property_access_resolved(p: SpecPropertyAccess) -> bool {
    identifier_resolved(p.object) && identifiers_resolved(p.path)
}

/// The analysis of each element is sound, so the analysis of the sequence is.
pub proof fn lemma_each_sound<T>(s: Seq<T>, f: spec_fn(T) -> Analysis<T>, resolved: spec_fn(T) -> bool)
    requires
        forall|i: int|
            0 <= i < s.len() ==> (#[trigger] f(s[i]) matches Some((y, e)) ==> resolution_errors(e)
                && (e.len() == 0 ==> resolved(y))),
    ensures
        analyze_each(s, f) matches Some((ys, e)) ==> resolution_errors(e) && (e.len() == 0
            ==> forall|i: int| 0 <= i < ys.len() ==> resolved(#[trigger] ys[i])),
    decreases s.len(),
{
    if s.len() > 0 {
        assert forall|i: int| 0 <= i < s.drop_last().len() implies (#[trigger] f(s.drop_last()[i]) matches Some((y, e))
            ==> resolution_errors(e) && (e.len() == 0 ==> resolved(y))) by {
            assert(s.drop_last()[i] == s[i]);
        }
        lemma_each_sound(s.drop_last(), f, resolved);
        assert(f(s[s.len() - 1]) matches Some((y, e)) ==> resolution_errors(e) && (e.len() == 0 ==> resolved(y)));
    }
}

pub proof fn lemma_identifiers_sound(s: Seq<SpecIdentifier>, scope: Option<SpecScope>)
    ensures
        analyze_each(s, |i: SpecIdentifier| analyze_identifier(i, scope)) matches Some((ys, e))
            ==> resolution_errors(e) && (e.len() == 0 ==> identifiers_resolved(ys)),
{
    lemma_each_sound(
        s,
        |i: SpecIdentifier| analyze_identifier(i, scope),
        |i: SpecIdentifier| identifier_resolved(i),
    );
}

pub proof fn lemma_data_expr_sound(e: SpecDataExpr, scope: Option<SpecScope>)
    ensures
        analyze_data_expr(e, scope) matches Some((y, errs)) ==> resolution_errors(errs) && (errs.len()
            == 0 ==> data_expr_resolved(y)),
    decreases e,
{
    match e {
        SpecDataExpr::Constructor(c) => lemma_datum_constructor_sound(c, scope),
        SpecDataExpr::PropertyAccess(p) => lemma_property_access_sound(p, scope),
        SpecDataExpr::BinaryOp(b) => lemma_data_binary_op_sound(b, scope),
        _ => {},
    }
}

pub proof fn lemma_datum_constructor_sound(c: SpecDatumConstructor, scope: Option<SpecScope>)
    ensures
        analyze_datum_constructor(c, scope) matches Some((y, errs)) ==> resolution_errors(errs) && (
        errs.len() == 0 ==> datum_constructor_resolved(y)),
    decreases c,
{
    let (ty, _) = analyze_identifier(c.ty, scope).unwrap();
    if let Some(SpecSymbol::TypeDef(def)) = ty.symbol {
        lemma_variant_case_constructor_sound(c.case, Some(cases_scope(*def, scope)));
    }
}

pub proof fn lemma_variant_case_constructor_sound(c: SpecVariantCaseConstructor, scope: Option<SpecScope>)
    ensures
        analyze_variant_case_constructor(c, scope) matches Some((y, errs)) ==> resolution_errors(errs)
            && (errs.len() == 0 ==> variant_case_constructor_resolved(y)),
    decreases c,
{
    let (name, _) = analyze_identifier(c.name, scope).unwrap();
    if let Some(SpecSymbol::VariantCase(case)) = name.symbol {
        lemma_record_constructor_fields_sound(c.fields, Some(fields_scope(*case, scope)));
    }
}

pub proof fn lemma_record_constructor_fields_sound(s: Seq<SpecRecordConstructorField>, scope: Option<SpecScope>)
    ensures
        analyze_record_constructor_fields(s, scope) matches Some((ys, errs)) ==> resolution_errors(errs)
            && (errs.len() == 0 ==> record_constructor_fields_resolved(ys)),
    decreases s,
{
    if s.len() > 0 {
        lemma_record_constructor_fields_sound(s.drop_last(), scope);
        lemma_record_constructor_field_sound(s.last(), scope);
        if let Some((ys, errs)) = analyze_record_constructor_fields(s, scope) {
            assert(ys.drop_last() == analyze_record_constructor_fields(s.drop_last(), scope).unwrap().0);
        }
    }
}

pub proof fn lemma_record_constructor_field_sound(f: SpecRecordConstructorField, scope: Option<SpecScope>)
    ensures
        analyze_record_constructor_field(f, scope) matches Some((y, errs)) ==> resolution_errors(errs)
            && (errs.len() == 0 ==> record_constructor_field_resolved(y)),
    decreases f,
{
    lemma_data_expr_sound(*f.value, scope);
}

pub proof fn lemma_data_binary_op_sound(b: SpecDataBinaryOp, scope: Option<SpecScope>)
    ensures
        analyze_data_binary_op(b, scope) matches Some((y, errs)) ==> resolution_errors(errs) && (
        errs.len() == 0 ==> data_binary_op_resolved(y)),
    decreases b,
{
    lemma_data_expr_sound(*b.left, scope);
    lemma_data_expr_sound(*b.right, scope);
}

pub proof fn lemma_property_access_sound(p: SpecPropertyAccess, scope: Option<SpecScope>)
    ensures
        analyze_property_access(p, scope) matches Some((y, errs)) ==> resolution_errors(errs) && (
        errs.len() == 0 ==> property_access_resolved(y)),
{
    lemma_identifiers_sound(p.path, Some(child_scope(scope)));
}


pub open spec fn asset_expr_resolved(e: SpecAssetExpr) -> bool
    decreases e,
{
    match e {
        SpecAssetExpr::Identifier(i) => identifier_resolved(i),
        SpecAssetExpr::Constructor(c) => asset_constructor_resolved(c),
        SpecAssetExpr::BinaryOp(b) => asset_binary_op_resolved(b),
        SpecAssetExpr::PropertyAccess(p) => property_access_resolved(p),
    }
}

pub open spec fn asset_constructor_resolved(c: SpecAssetConstructor) -> bool {
    data_expr_resolved(c.amount) && identifier_resolved(c.ty)
}

pub open spec fn asset_binary_op_resolved(b: SpecAssetBinaryOp) -> bool
    decreases b,
{
    asset_expr_resolved(*b.left) && asset_expr_resolved(*b.right)
}

pub open spec fn address_expr_resolved(e: SpecAddressExpr) -> bool {
    match e {
        SpecAddressExpr::Identifier(i) => identifier_resolved(i),
        _ => true,
    }
}

pub open spec fn input_block_field_resolved(f: SpecInputBlockField) -> bool {
    match f {
        SpecInputBlockField::From(x) => address_expr_resolved(x),
        SpecInputBlockField::DatumIs(x) => type_resolved(x),
        SpecInputBlockField::MinAmount(x) => asset_expr_resolved(x),
        SpecInputBlockField::Redeemer(x) => data_expr_resolved(x),
        SpecInputBlockField::Ref(x) => data_expr_resolved(x),
    }
}

pub open spec fn input_block_resolved(b: SpecInputBlock) -> bool {
    forall|i: int| 0 <= i < b.fields.len() ==> input_block_field_resolved(#[trigger] b.fields[i])
}

pub open spec fn output_block_field_resolved(f: SpecOutputBlockField) -> bool {
    match f {
        SpecOutputBlockField::To(x) => address_expr_resolved(x),
        SpecOutputBlockField::Amount(x) => asset_expr_resolved(x),
        SpecOutputBlockField::Datum(x) => data_expr_resolved(x),
    }
}

pub open spec fn output_block_resolved(b: SpecOutputBlock) -> bool {
    forall|i: int| 0 <= i < b.fields.len() ==> output_block_field_resolved(#[trigger] b.fields[i])
}

pub open spec fn mint_block_field_resolved(f: SpecMintBlockField) -> bool {
    match f {
        SpecMintBlockField::Amount(x) => asset_expr_resolved(x),
        SpecMintBlockField::Redeemer(x) => data_expr_resolved(x),
    }
}

pub open spec fn mint_block_resolved(b: SpecMintBlock) -> bool {
    forall|i: int| 0 <= i < b.fields.len() ==> mint_block_field_resolved(#[trigger] b.fields[i])
}

pub open spec fn chain_specific_block_resolved(b: SpecChainSpecificBlock) -> bool {
    match b {
        SpecChainSpecificBlock::Cardano(SpecCardanoBlock::VoteDelegationCertificate(c)) =>
            data_expr_resolved(c.drep) && data_expr_resolved(c.stake),
    }
}

pub open spec fn record_field_resolved(f: SpecRecordField) -> bool {
    type_resolved(f.ty)
}

pub open spec fn variant_case_resolved(c: SpecVariantCase) -> bool {
    forall|i: int| 0 <= i < c.fields.len() ==> record_field_resolved(#[trigger] c.fields[i])
}

pub open spec fn type_def_resolved(t: SpecTypeDef) -> bool {
    forall|i: int| 0 <= i < t.cases.len() ==> variant_case_resolved(#[trigger] t.cases[i])
}

pub open spec fn policy_field_resolved(f: SpecPolicyField) -> bool {
    match f {
        SpecPolicyField::Hash(x) => data_expr_resolved(x),
        SpecPolicyField::Script(x) => data_expr_resolved(x),
        SpecPolicyField::Ref(x) => data_expr_resolved(x),
    }
}

pub open spec fn policy_def_resolved(p: SpecPolicyDef) -> bool {
    match p.value {
        SpecPolicyValue::Constructor(c) => forall|i: int|
            0 <= i < c.fields.len() ==> policy_field_resolved(#[trigger] c.fields[i]),
        SpecPolicyValue::Assign(_) => true,
    }
}

pub open spec fn tx_def_resolved(t: SpecTxDef) -> bool {
    &&& forall|i: int| 0 <= i < t.inputs.len() ==> input_block_resolved(#[trigger] t.inputs[i])
    &&& forall|i: int| 0 <= i < t.outputs.len() ==> output_block_resolved(#[trigger] t.outputs[i])
    &&& t.mint matches Some(m) ==> mint_block_resolved(m)
    &&& forall|i: int|
        0 <= i < t.adhoc.len() ==> chain_specific_block_resolved(#[trigger] t.adhoc[i])
}

/// Every name that analysis looks up in a program carries a symbol: those
/// in policies, in the fields of types and in transactions.
pub open spec fn program_resolved(p: SpecProgram) -> bool {
    &&& forall|i: int| 0 <= i < p.policies.len() ==> policy_def_resolved(#[trigger] p.policies[i])
    &&& forall|i: int| 0 <= i < p.types.len() ==> type_def_resolved(#[trigger] p.types[i])
    &&& forall|i: int| 0 <= i < p.txs.len() ==> tx_def_resolved(#[trigger] p.txs[i])
}

pub proof fn lemma_asset_expr_sound(e: SpecAssetExpr, scope: Option<SpecScope>)
    ensures
        analyze_asset_expr(e, scope) matches Some((y, errs)) ==> resolution_errors(errs) && (
        errs.len() == 0 ==> asset_expr_resolved(y)),
    decreases e,
{
    match e {
        SpecAssetExpr::Constructor(c) => lemma_asset_constructor_sound(c, scope),
        SpecAssetExpr::BinaryOp(b) => lemma_asset_binary_op_sound(b, scope),
        SpecAssetExpr::PropertyAccess(p) => lemma_property_access_sound(p, scope),
        _ => {},
    }
}

pub proof fn lemma_asset_constructor_sound(c: SpecAssetConstructor, scope: Option<SpecScope>)
    ensures
        analyze_asset_constructor(c, scope) matches Some((y, errs)) ==> resolution_errors(errs) && (
        errs.len() == 0 ==> asset_constructor_resolved(y)),
{
    lemma_data_expr_sound(c.amount, scope);
}

pub proof fn lemma_asset_binary_op_sound(b: SpecAssetBinaryOp, scope: Option<SpecScope>)
    ensures
        analyze_asset_binary_op(b, scope) matches Some((y, errs)) ==> resolution_errors(errs) && (
        errs.len() == 0 ==> asset_binary_op_resolved(y)),
    decreases b,
{
    lemma_asset_expr_sound(*b.left, scope);
    lemma_asset_expr_sound(*b.right, scope);
}

pub proof fn lemma_input_block_field_sound(f: SpecInputBlockField, scope: Option<SpecScope>)
    ensures
        analyze_input_block_field(f, scope) matches Some((y, errs)) ==> resolution_errors(errs) && (
        errs.len() == 0 ==> input_block_field_resolved(y)),
{
    match f {
        SpecInputBlockField::MinAmount(x) => lemma_asset_expr_sound(x, scope),
        SpecInputBlockField::Redeemer(x) => lemma_data_expr_sound(x, scope),
        SpecInputBlockField::Ref(x) => lemma_data_expr_sound(x, scope),
        _ => {},
    }
}

pub proof fn lemma_input_block_sound(b: SpecInputBlock, scope: Option<SpecScope>)
    ensures
        analyze_input_block(b, scope) matches Some((y, errs)) ==> resolution_errors(errs) && (
        errs.len() == 0 ==> input_block_resolved(y)),
{
    let f = |x: SpecInputBlockField| analyze_input_block_field(x, scope);
    assert forall|i: int| 0 <= i < b.fields.len() implies (#[trigger] f(b.fields[i]) matches Some((y, e))
        ==> resolution_errors(e) && (e.len() == 0 ==> input_block_field_resolved(y))) by {
        lemma_input_block_field_sound(b.fields[i], scope);
    }
    lemma_each_sound(b.fields, f, |x: SpecInputBlockField| input_block_field_resolved(x));
}

pub proof fn lemma_output_block_field_sound(f: SpecOutputBlockField, scope: Option<SpecScope>)
    ensures
        analyze_output_block_field(f, scope) matches Some((y, errs)) ==> resolution_errors(errs) && (
        errs.len() == 0 ==> output_block_field_resolved(y)),
{
    match f {
        SpecOutputBlockField::Amount(x) => lemma_asset_expr_sound(x, scope),
        SpecOutputBlockField::Datum(x) => lemma_data_expr_sound(x, scope),
        _ => {},
    }
}

pub proof fn lemma_output_block_sound(b: SpecOutputBlock, scope: Option<SpecScope>)
    ensures
        analyze_output_block(b, scope) matches Some((y, errs)) ==> resolution_errors(errs) && (
        errs.len() == 0 ==> output_block_resolved(y)),
{
    let f = |x: SpecOutputBlockField| analyze_output_block_field(x, scope);
    assert forall|i: int| 0 <= i < b.fields.len() implies (#[trigger] f(b.fields[i]) matches Some((y, e))
        ==> resolution_errors(e) && (e.len() == 0 ==> output_block_field_resolved(y))) by {
        lemma_output_block_field_sound(b.fields[i], scope);
    }
    lemma_each_sound(b.fields, f, |x: SpecOutputBlockField| output_block_field_resolved(x));
}

pub proof fn lemma_mint_block_sound(b: SpecMintBlock, scope: Option<SpecScope>)
    ensures
        analyze_mint_block(b, scope) matches Some((y, errs)) ==> resolution_errors(errs) && (
        errs.len() == 0 ==> mint_block_resolved(y)),
{
    let f = |x: SpecMintBlockField| analyze_mint_block_field(x, scope);
    assert forall|i: int| 0 <= i < b.fields.len() implies (#[trigger] f(b.fields[i]) matches Some((y, e))
        ==> resolution_errors(e) && (e.len() == 0 ==> mint_block_field_resolved(y))) by {
        match b.fields[i] {
            SpecMintBlockField::Amount(x) => lemma_asset_expr_sound(x, scope),
            SpecMintBlockField::Redeemer(x) => lemma_data_expr_sound(x, scope),
        }
    }
    lemma_each_sound(b.fields, f, |x: SpecMintBlockField| mint_block_field_resolved(x));
}

pub proof fn lemma_chain_specific_block_sound(b: SpecChainSpecificBlock, scope: Option<SpecScope>)
    ensures
        analyze_chain_specific_block(b, scope) matches Some((y, errs)) ==> resolution_errors(errs) && (
        errs.len() == 0 ==> chain_specific_block_resolved(y)),
{
    match b {
        SpecChainSpecificBlock::Cardano(SpecCardanoBlock::VoteDelegationCertificate(c)) => {
            lemma_data_expr_sound(c.drep, scope);
            lemma_data_expr_sound(c.stake, scope);
        },
    }
}

pub proof fn lemma_type_def_sound(t: SpecTypeDef, scope: Option<SpecScope>)
    ensures
        analyze_type_def(t, scope) matches Some((y, errs)) ==> resolution_errors(errs) && (
        errs.len() == 0 ==> type_def_resolved(y)),
{
    let g = |x: SpecRecordField| analyze_record_field(x, scope);
    let f = |c: SpecVariantCase| analyze_variant_case(c, scope);
    assert forall|i: int| 0 <= i < t.cases.len() implies (#[trigger] f(t.cases[i]) matches Some((y, e))
        ==> resolution_errors(e) && (e.len() == 0 ==> variant_case_resolved(y))) by {
        lemma_each_sound(t.cases[i].fields, g, |x: SpecRecordField| record_field_resolved(x));
    }
    lemma_each_sound(t.cases, f, |c: SpecVariantCase| variant_case_resolved(c));
}

pub proof fn lemma_policy_def_sound(p: SpecPolicyDef, scope: Option<SpecScope>)
    ensures
        analyze_policy_def(p, scope) matches Some((y, errs)) ==> resolution_errors(errs) && (
        errs.len() == 0 ==> policy_def_resolved(y)),
{
    if let SpecPolicyValue::Constructor(c) = p.value {
        let f = |x: SpecPolicyField| analyze_policy_field(x, scope);
        assert forall|i: int| 0 <= i < c.fields.len() implies (#[trigger] f(c.fields[i]) matches Some((y, e))
            ==> resolution_errors(e) && (e.len() == 0 ==> policy_field_resolved(y))) by {
            match c.fields[i] {
                SpecPolicyField::Hash(x) => lemma_data_expr_sound(x, scope),
                SpecPolicyField::Script(x) => lemma_data_expr_sound(x, scope),
                SpecPolicyField::Ref(x) => lemma_data_expr_sound(x, scope),
            }
        }
        lemma_each_sound(c.fields, f, |x: SpecPolicyField| policy_field_resolved(x));
    }
}

/// A name that occurs at two places in `names`.
pub open spec fn defined_twice(names: Seq<Seq<char>>, n: Seq<char>) -> bool {
    exists|i: int, j: int| 0 <= i < j < names.len() && #[trigger] names[i] == n && #[trigger] names[j] == n
}

/// Every error is a duplicate definition, a name that does not resolve or a
/// name that resolves to the wrong kind of symbol, and none carries source
/// text.
pub open spec fn reported_errors(errs: Seq<SpecError>) -> bool {
    forall|i: int|
        0 <= i < errs.len() ==> match #[trigger] errs[i] {
            SpecError::DuplicateDefinition(_) => true,
            SpecError::NotInScope { src, .. } => src is None,
            SpecError::InvalidSymbol { src, .. } => src is None,
            _ => false,
        }
}

pub open spec fn is_duplicate_definition(e: SpecError) -> bool {
    e is DuplicateDefinition
}

/// The duplicate definitions reported for `names` are duplicate definitions
/// only, and name exactly the names defined twice.
pub proof fn lemma_duplicate_definitions(names: Seq<Seq<char>>)
    ensures
        forall|k: int|
            0 <= k < duplicate_definitions(names).len() ==> is_duplicate_definition(
                #[trigger] duplicate_definitions(names)[k],
            ),
        forall|n: Seq<char>|
            #![trigger duplicate_definitions(names).contains(SpecError::DuplicateDefinition(n))]
            #![trigger defined_twice(names, n)]
            duplicate_definitions(names).contains(SpecError::DuplicateDefinition(n)) <==> defined_twice(names, n),
    decreases names.len(),
{
    if names.len() > 0 {
        let init = names.drop_last();
        let last = names.last();
        lemma_duplicate_definitions(init);
        let di = duplicate_definitions(init);
        let r = redefinition(init, last);
        let d = duplicate_definitions(names);
        assert(d == di + r);
        assert forall|k: int| 0 <= k < d.len() implies is_duplicate_definition(#[trigger] d[k]) by {
            if k >= di.len() {
                assert(d[k] == r[k - di.len()]);
            } else {
                assert(d[k] == di[k]);
            }
        }
        assert forall|n: Seq<char>|
            d.contains(SpecError::DuplicateDefinition(n)) <==> defined_twice(names, n) by {
            let x = SpecError::DuplicateDefinition(n);
            if d.contains(x) {
                let k = choose|k: int| 0 <= k < d.len() && d[k] == x;
                if k < di.len() {
                    assert(di[k] == x);
                    assert(di.contains(x));
                    let (i, j) = choose|i: int, j: int|
                        0 <= i < j < init.len() && #[trigger] init[i] == n && #[trigger] init[j] == n;
                    assert(names[i] == n && names[j] == n);
                } else {
                    assert(r[k - di.len()] == x);
                    assert(init.contains(last));
                    assert(n == last);
                    let i = choose|i: int| 0 <= i < init.len() && init[i] == last;
                    assert(names[i] == n && names[names.len() - 1] == n);
                }
            }
            if defined_twice(names, n) {
                let (i, j) = choose|i: int, j: int|
                    0 <= i < j < names.len() && #[trigger] names[i] == n && #[trigger] names[j] == n;
                if j < names.len() - 1 {
                    assert(init[i] == n && init[j] == n);
                    assert(defined_twice(init, n));
                    let k = choose|k: int| 0 <= k < di.len() && di[k] == x;
                    assert(d[k] == x);
                } else {
                    assert(init[i] == n);
                    assert(init.contains(last));
                    assert(r == seq![x]);
                    assert(d[di.len() as int] == x);
                }
            }
        }
    }
}

/// A transaction reports its duplicate definitions first, then nothing but
/// names that do not resolve or that resolve to the wrong kind of symbol.
pub proof fn lemma_tx_def_sound(t: SpecTxDef, scope: Option<SpecScope>)
    ensures
        analyze_tx_def(t, scope) matches Some((y, errs)) ==> {
            let d = duplicate_definitions(tx_names(t));
            &&& d.len() <= errs.len()
            &&& errs.take(d.len() as int) == d
            &&& resolution_errors(errs.skip(d.len() as int))
            &&& (errs.len() == 0 ==> tx_def_resolved(y))
        },
{
    let inner = Some(tx_scope(t, scope));
    let fi = |b: SpecInputBlock| analyze_input_block(b, inner);
    let fo = |b: SpecOutputBlock| analyze_output_block(b, inner);
    let fa = |b: SpecChainSpecificBlock| analyze_chain_specific_block(b, inner);
    assert forall|i: int| 0 <= i < t.inputs.len() implies (#[trigger] fi(t.inputs[i]) matches Some((y, e))
        ==> resolution_errors(e) && (e.len() == 0 ==> input_block_resolved(y))) by {
        lemma_input_block_sound(t.inputs[i], inner);
    }
    lemma_each_sound(t.inputs, fi, |b: SpecInputBlock| input_block_resolved(b));
    assert forall|i: int| 0 <= i < t.outputs.len() implies (#[trigger] fo(t.outputs[i]) matches Some((y, e))
        ==> resolution_errors(e) && (e.len() == 0 ==> output_block_resolved(y))) by {
        lemma_output_block_sound(t.outputs[i], inner);
    }
    lemma_each_sound(t.outputs, fo, |b: SpecOutputBlock| output_block_resolved(b));
    assert forall|i: int| 0 <= i < t.adhoc.len() implies (#[trigger] fa(t.adhoc[i]) matches Some((y, e))
        ==> resolution_errors(e) && (e.len() == 0 ==> chain_specific_block_resolved(y))) by {
        lemma_chain_specific_block_sound(t.adhoc[i], inner);
    }
    lemma_each_sound(t.adhoc, fa, |b: SpecChainSpecificBlock| chain_specific_block_resolved(b));
    if let Some(m) = t.mint {
        lemma_mint_block_sound(m, inner);
    }
    if let Some((y, errs)) = analyze_tx_def(t, scope) {
        let d = duplicate_definitions(tx_names(t));
        let (_, e1) = analyze_each(t.inputs, fi).unwrap();
        let (_, e2) = analyze_each(t.outputs, fo).unwrap();
        let (_, e3) = crate::semantics::analyze_optional_mint(t.mint, inner).unwrap();
        let (_, e4) = analyze_each(t.adhoc, fa).unwrap();
        let rest = e1 + e2 + e3 + e4;
        assert(errs == d + rest);
        assert(errs.take(d.len() as int) =~= d);
        assert(errs.skip(d.len() as int) =~= rest);
        assert(resolution_errors(rest)) by {
            assert forall|i: int| 0 <= i < rest.len() implies match #[trigger] rest[i] {
                SpecError::NotInScope { src, .. } => src is None,
                SpecError::InvalidSymbol { src, .. } => src is None,
                _ => false,
            } by {
                if i < e1.len() {
                    assert(rest[i] == e1[i]);
                } else if i < e1.len() + e2.len() {
                    assert(rest[i] == e2[i - e1.len()]);
                } else if i < e1.len() + e2.len() + e3.len() {
                    assert(rest[i] == e3[i - e1.len() - e2.len()]);
                } else {
                    assert(rest[i] == e4[i - e1.len() - e2.len() - e3.len()]);
                }
            }
        }
    }
}

/// A transaction reports a duplicate definition of exactly the names it
/// defines twice, its parameters and its inputs taken together.
pub proof fn law_tx_reports_duplicate_definitions(t: SpecTxDef, scope: Option<SpecScope>, n: Seq<char>)
    ensures
        analyze_tx_def(t, scope) matches Some((y, errs)) ==> (errs.contains(
            SpecError::DuplicateDefinition(n),
        ) <==> defined_twice(tx_names(t), n)),
{
    lemma_tx_def_sound(t, scope);
    lemma_duplicate_definitions(tx_names(t));
    if let Some((y, errs)) = analyze_tx_def(t, scope) {
        let d = duplicate_definitions(tx_names(t));
        let x = SpecError::DuplicateDefinition(n);
        let rest = errs.skip(d.len() as int);
        assert(errs =~= d + rest);
        if errs.contains(x) {
            let k = choose|k: int| 0 <= k < errs.len() && errs[k] == x;
            if k >= d.len() {
                assert(rest[k - d.len()] == x);
            } else {
                assert(d[k] == x);
            }
        }
        if d.contains(x) {
            let k = choose|k: int| 0 <= k < d.len() && d[k] == x;
            assert(errs[k] == x);
        }
    }
}

/// Analysis of a sequence reports an error where, and only where, the
/// analysis of one of its elements does.
pub proof fn lemma_each_reports<T>(s: Seq<T>, f: spec_fn(T) -> Analysis<T>, x: SpecError)
    requires
        forall|i: int| 0 <= i < s.len() ==> #[trigger] f(s[i]) is Some,
    ensures
        analyze_each(s, f) matches Some((ys, e)) ==> (e.contains(x) <==> exists|i: int|
            0 <= i < s.len() && (#[trigger] f(s[i])).unwrap().1.contains(x)),
    decreases s.len(),
{
    if s.len() > 0 {
        let init = s.drop_last();
        assert forall|i: int| 0 <= i < init.len() implies #[trigger] f(init[i]) is Some by {
            assert(init[i] == s[i]);
        }
        lemma_each_reports(init, f, x);
        crate::semantics::lemma_analyze_each_step(s, f, s.len() - 1);
        assert(s.take(s.len() - 1) =~= init);
        assert(s.take(s.len() as int) =~= s);
        assert(f(s[s.len() - 1]) is Some);
        if let Some((ys, e)) = analyze_each(s, f) {
            let (_, e1) = analyze_each(init, f).unwrap();
            let (_, e2) = f(s[s.len() - 1]).unwrap();
            assert(e == e1 + e2);
            if e.contains(x) {
                let k = choose|k: int| 0 <= k < e.len() && e[k] == x;
                if k < e1.len() {
                    assert(e1[k] == x);
                    assert(e1.contains(x));
                    let i = choose|i: int| 0 <= i < init.len() && (#[trigger] f(init[i])).unwrap().1.contains(x);
                    assert(init[i] == s[i]);
                } else {
                    assert(e2[k - e1.len()] == x);
                    assert(f(s[s.len() - 1]).unwrap().1.contains(x));
                }
            }
            if exists|i: int| 0 <= i < s.len() && (#[trigger] f(s[i])).unwrap().1.contains(x) {
                let i = choose|i: int| 0 <= i < s.len() && (#[trigger] f(s[i])).unwrap().1.contains(x);
                if i < s.len() - 1 {
                    assert(init[i] == s[i]);
                    assert(e1.contains(x));
                    let k = choose|k: int| 0 <= k < e1.len() && e1[k] == x;
                    assert(e[k] == x);
                } else {
                    let k = choose|k: int| 0 <= k < e2.len() && e2[k] == x;
                    assert(e[e1.len() + k] == x);
                }
            }
        }
    }
}

/// The analysis of each element reports only errors of the kinds that
/// analysis reports, so the analysis of the sequence does.
pub proof fn lemma_each_reported<T>(s: Seq<T>, f: spec_fn(T) -> Analysis<T>)
    requires
        forall|i: int| 0 <= i < s.len() ==> (#[trigger] f(s[i]) matches Some((y, e)) ==> reported_errors(e)),
    ensures
        analyze_each(s, f) matches Some((ys, e)) ==> reported_errors(e),
    decreases s.len(),
{
    if s.len() > 0 {
        assert forall|i: int| 0 <= i < s.drop_last().len() implies (#[trigger] f(s.drop_last()[i]) matches Some((y, e))
            ==> reported_errors(e)) by {
            assert(s.drop_last()[i] == s[i]);
        }
        lemma_each_reported(s.drop_last(), f);
        assert(f(s[s.len() - 1]) matches Some((y, e)) ==> reported_errors(e));
        if let Some((ys, e)) = analyze_each(s, f) {
            let (_, e1) = analyze_each(s.drop_last(), f).unwrap();
            let (_, e2) = f(s.last()).unwrap();
            assert forall|i: int| 0 <= i < e.len() implies match #[trigger] e[i] {
                SpecError::DuplicateDefinition(_) => true,
                SpecError::NotInScope { src, .. } => src is None,
                SpecError::InvalidSymbol { src, .. } => src is None,
                _ => false,
            } by {
                if i < e1.len() {
                    assert(e[i] == e1[i]);
                } else {
                    assert(e[i] == e2[i - e1.len()]);
                }
            }
        }
    }
}

/// Where the analysis of each element that reports nothing leaves it
/// resolved, so does that of the sequence.
pub proof fn lemma_each_resolved<T>(s: Seq<T>, f: spec_fn(T) -> Analysis<T>, resolved: spec_fn(T) -> bool)
    requires
        forall|i: int|
            0 <= i < s.len() ==> (#[trigger] f(s[i]) matches Some((y, e)) ==> (e.len() == 0 ==> resolved(y))),
    ensures
        analyze_each(s, f) matches Some((ys, e)) ==> (e.len() == 0 ==> forall|i: int|
            0 <= i < ys.len() ==> resolved(#[trigger] ys[i])),
    decreases s.len(),
{
    if s.len() > 0 {
        assert forall|i: int| 0 <= i < s.drop_last().len() implies (#[trigger] f(s.drop_last()[i]) matches Some((y, e))
            ==> (e.len() == 0 ==> resolved(y))) by {
            assert(s.drop_last()[i] == s[i]);
        }
        lemma_each_resolved(s.drop_last(), f, resolved);
        assert(f(s[s.len() - 1]) matches Some((y, e)) ==> (e.len() == 0 ==> resolved(y)));
    }
}

/// A transaction reports only errors of the kinds that analysis reports.
pub proof fn lemma_tx_def_reported(t: SpecTxDef, scope: Option<SpecScope>)
    ensures
        analyze_tx_def(t, scope) matches Some((y, e)) ==> reported_errors(e) && (e.len() == 0
            ==> tx_def_resolved(y)),
{
    lemma_tx_def_sound(t, scope);
    lemma_duplicate_definitions(tx_names(t));
    if let Some((y, e)) = analyze_tx_def(t, scope) {
        let d = duplicate_definitions(tx_names(t));
        let rest = e.skip(d.len() as int);
        assert(e =~= d + rest);
        assert forall|k: int| 0 <= k < e.len() implies match #[trigger] e[k] {
            SpecError::DuplicateDefinition(_) => true,
            SpecError::NotInScope { src, .. } => src is None,
            SpecError::InvalidSymbol { src, .. } => src is None,
            _ => false,
        } by {
            if k < d.len() {
                assert(e[k] == d[k]);
                assert(is_duplicate_definition(d[k]));
            } else {
                assert(e[k] == rest[k - d.len()]);
            }
        }
    }
}

/// Analysis of a program reports nothing but duplicate definitions, names
/// that do not resolve and names that resolve to the wrong kind of symbol,
/// never a missing parent scope, and no error carries source text. When it
/// reports nothing, every name it looked up carries a symbol.
pub proof fn law_program_analysis_is_sound(p: SpecProgram, scope: Option<SpecScope>)
    ensures
        analyze_program(p, scope) matches Some((q, errs)) ==> reported_errors(errs) && (errs.len()
            == 0 ==> program_resolved(q)),
{
    let inner = Some(program_scope(p, scope));
    let fp = |d: SpecPolicyDef| analyze_policy_def(d, inner);
    let ft = |d: SpecTypeDef| analyze_type_def(d, inner);
    let fx = |t: SpecTxDef| analyze_tx_def(t, inner);
    assert forall|i: int| 0 <= i < p.policies.len() implies (#[trigger] fp(p.policies[i]) matches Some((y, e))
        ==> resolution_errors(e) && (e.len() == 0 ==> policy_def_resolved(y))) by {
        lemma_policy_def_sound(p.policies[i], inner);
    }
    lemma_each_sound(p.policies, fp, |d: SpecPolicyDef| policy_def_resolved(d));
    assert forall|i: int| 0 <= i < p.types.len() implies (#[trigger] ft(p.types[i]) matches Some((y, e))
        ==> resolution_errors(e) && (e.len() == 0 ==> type_def_resolved(y))) by {
        lemma_type_def_sound(p.types[i], inner);
    }
    lemma_each_sound(p.types, ft, |d: SpecTypeDef| type_def_resolved(d));
    assert forall|i: int| 0 <= i < p.txs.len() implies (#[trigger] fx(p.txs[i]) matches Some((y, e))
        ==> reported_errors(e)) by {
        lemma_tx_def_reported(p.txs[i], inner);
    }
    assert forall|i: int| 0 <= i < p.txs.len() implies (#[trigger] fx(p.txs[i]) matches Some((y, e))
        ==> (e.len() == 0 ==> tx_def_resolved(y))) by {
        lemma_tx_def_reported(p.txs[i], inner);
    }
    lemma_each_reported(p.txs, fx);
    lemma_each_resolved(p.txs, fx, |t: SpecTxDef| tx_def_resolved(t));
    lemma_duplicate_definitions(program_names(p));
    if let Some((q, errs)) = analyze_program(p, scope) {
        let d = duplicate_definitions(program_names(p));
        let (_, e1) = analyze_each(p.policies, fp).unwrap();
        let (_, e2) = analyze_each(p.types, ft).unwrap();
        let (_, e3) = analyze_each(p.txs, fx).unwrap();
        assert(errs == d + e1 + e2 + e3);
        assert forall|k: int| 0 <= k < errs.len() implies match #[trigger] errs[k] {
            SpecError::DuplicateDefinition(_) => true,
            SpecError::NotInScope { src, .. } => src is None,
            SpecError::InvalidSymbol { src, .. } => src is None,
            _ => false,
        } by {
            if k < d.len() {
                assert(errs[k] == d[k]);
                assert(is_duplicate_definition(d[k]));
            } else if k < d.len() + e1.len() {
                assert(errs[k] == e1[k - d.len()]);
            } else if k < d.len() + e1.len() + e2.len() {
                assert(errs[k] == e2[k - d.len() - e1.len()]);
            } else {
                assert(errs[k] == e3[k - d.len() - e1.len() - e2.len()]);
            }
        }
    }
}

/// A program reports a duplicate definition of exactly the names that it
/// defines twice (its parties, policies, assets, types and transactions
/// taken together) or that one of its transactions defines twice.
pub proof fn law_program_reports_duplicate_definitions(p: SpecProgram, scope: Option<SpecScope>, n: Seq<char>)
    ensures
        analyze_program(p, scope) matches Some((q, errs)) ==> (errs.contains(
            SpecError::DuplicateDefinition(n),
        ) <==> (defined_twice(program_names(p), n) || exists|k: int|
            0 <= k < p.txs.len() && defined_twice(tx_names(#[trigger] p.txs[k]), n))),
{
    let inner = Some(program_scope(p, scope));
    let fp = |d: SpecPolicyDef| analyze_policy_def(d, inner);
    let ft = |d: SpecTypeDef| analyze_type_def(d, inner);
    let fx = |t: SpecTxDef| analyze_tx_def(t, inner);
    let x = SpecError::DuplicateDefinition(n);
    assert forall|i: int| 0 <= i < p.policies.len() implies (#[trigger] fp(p.policies[i]) matches Some((y, e))
        ==> resolution_errors(e) && (e.len() == 0 ==> policy_def_resolved(y))) by {
        lemma_policy_def_sound(p.policies[i], inner);
    }
    lemma_each_sound(p.policies, fp, |d: SpecPolicyDef| policy_def_resolved(d));
    assert forall|i: int| 0 <= i < p.types.len() implies (#[trigger] ft(p.types[i]) matches Some((y, e))
        ==> resolution_errors(e) && (e.len() == 0 ==> type_def_resolved(y))) by {
        lemma_type_def_sound(p.types[i], inner);
    }
    lemma_each_sound(p.types, ft, |d: SpecTypeDef| type_def_resolved(d));
    assert forall|i: int| 0 <= i < p.txs.len() implies #[trigger] fx(p.txs[i]) is Some by {
        lemma_tx_def_completes(p.txs[i], inner);
    }
    lemma_each_reports(p.txs, fx, x);
    assert forall|k: int| 0 <= k < p.txs.len() implies ((#[trigger] fx(p.txs[k])).unwrap().1.contains(x)
        <==> defined_twice(tx_names(p.txs[k]), n)) by {
        law_tx_reports_duplicate_definitions(p.txs[k], inner, n);
    }
    lemma_duplicate_definitions(program_names(p));
    if let Some((q, errs)) = analyze_program(p, scope) {
        let d = duplicate_definitions(program_names(p));
        let (_, e1) = analyze_each(p.policies, fp).unwrap();
        let (_, e2) = analyze_each(p.types, ft).unwrap();
        let (_, e3) = analyze_each(p.txs, fx).unwrap();
        assert(errs == d + e1 + e2 + e3);
        if errs.contains(x) {
            let k = choose|k: int| 0 <= k < errs.len() && errs[k] == x;
            if k < d.len() {
                assert(d[k] == x);
                assert(d.contains(x));
            } else if k < d.len() + e1.len() {
                assert(e1[k - d.len()] == x);
            } else if k < d.len() + e1.len() + e2.len() {
                assert(e2[k - d.len() - e1.len()] == x);
            } else {
                assert(e3[k - d.len() - e1.len() - e2.len()] == x);
                assert(e3.contains(x));
                let i = choose|i: int| 0 <= i < p.txs.len() && (#[trigger] fx(p.txs[i])).unwrap().1.contains(x);
                assert(defined_twice(tx_names(p.txs[i]), n));
            }
        }
        if defined_twice(program_names(p), n) {
            assert(d.contains(x));
            let k = choose|k: int| 0 <= k < d.len() && d[k] == x;
            assert(errs[k] == x);
        }
        if exists|k: int| 0 <= k < p.txs.len() && defined_twice(tx_names(#[trigger] p.txs[k]), n) {
            let i = choose|k: int| 0 <= k < p.txs.len() && defined_twice(tx_names(#[trigger] p.txs[k]), n);
            assert(fx(p.txs[i]).unwrap().1.contains(x));
            assert(e3.contains(x));
            let k = choose|k: int| 0 <= k < e3.len() && e3[k] == x;
            assert(errs[d.len() + e1.len() + e2.len() + k] == x);
        }
    }
}

// ---------------------------------------------------------------------------
// When analysis completes

/// Analysis of a sequence completes when that of each element does.
pub proof fn lemma_each_completes<T>(s: Seq<T>, f: spec_fn(T) -> Analysis<T>)
    requires
        forall|i: int| 0 <= i < s.len() ==> #[trigger] f(s[i]) is Some,
    ensures
        analyze_each(s, f) is Some,
    decreases s.len(),
{
    if s.len() > 0 {
        assert forall|i: int| 0 <= i < s.drop_last().len() implies #[trigger] f(s.drop_last()[i]) is Some by {
            assert(s.drop_last()[i] == s[i]);
        }
        lemma_each_completes(s.drop_last(), f);
        assert(f(s[s.len() - 1]) is Some);
    }
}

pub proof fn lemma_data_expr_completes(e: SpecDataExpr, scope: Option<SpecScope>)
    ensures
        analyze_data_expr(e, scope) is Some,
    decreases e,
{
    match e {
        SpecDataExpr::Constructor(c) => lemma_datum_constructor_completes(c, scope),
        SpecDataExpr::BinaryOp(b) => {
            lemma_data_expr_completes(*b.left, scope);
            lemma_data_expr_completes(*b.right, scope);
        },
        SpecDataExpr::PropertyAccess(p) => {
            lemma_each_completes(p.path, |i: SpecIdentifier| analyze_identifier(i, Some(child_scope(scope))));
        },
        _ => {},
    }
}

pub proof fn lemma_datum_constructor_completes(c: SpecDatumConstructor, scope: Option<SpecScope>)
    ensures
        analyze_datum_constructor(c, scope) is Some,
    decreases c,
{
    let (ty, _) = analyze_identifier(c.ty, scope).unwrap();
    if let Some(SpecSymbol::TypeDef(def)) = ty.symbol {
        lemma_variant_case_constructor_completes(c.case, Some(cases_scope(*def, scope)));
    }
}

pub proof fn lemma_variant_case_constructor_completes(c: SpecVariantCaseConstructor, scope: Option<SpecScope>)
    ensures
        analyze_variant_case_constructor(c, scope) is Some,
    decreases c,
{
    let (name, _) = analyze_identifier(c.name, scope).unwrap();
    if let Some(SpecSymbol::VariantCase(case)) = name.symbol {
        lemma_record_constructor_fields_completes(c.fields, Some(fields_scope(*case, scope)));
    }
}

pub proof fn lemma_record_constructor_fields_completes(s: Seq<SpecRecordConstructorField>, scope: Option<SpecScope>)
    ensures
        analyze_record_constructor_fields(s, scope) is Some,
    decreases s,
{
    if s.len() > 0 {
        lemma_record_constructor_fields_completes(s.drop_last(), scope);
        lemma_data_expr_completes(*s.last().value, scope);
        assert(analyze_record_constructor_field(s.last(), scope) is Some);
    }
}

pub proof fn lemma_asset_expr_completes(e: SpecAssetExpr, scope: Option<SpecScope>)
    ensures
        analyze_asset_expr(e, scope) is Some,
    decreases e,
{
    match e {
        SpecAssetExpr::Constructor(c) => lemma_data_expr_completes(c.amount, scope),
        SpecAssetExpr::BinaryOp(b) => {
            lemma_asset_expr_completes(*b.left, scope);
            lemma_asset_expr_completes(*b.right, scope);
        },
        SpecAssetExpr::PropertyAccess(p) => {
            lemma_each_completes(p.path, |i: SpecIdentifier| analyze_identifier(i, Some(child_scope(scope))));
        },
        _ => {},
    }
}

pub proof fn lemma_tx_def_completes(t: SpecTxDef, scope: Option<SpecScope>)
    ensures
        analyze_tx_def(t, scope) is Some,
{
    let inner = Some(tx_scope(t, scope));
    let fi = |b: SpecInputBlock| analyze_input_block(b, inner);
    let fo = |b: SpecOutputBlock| analyze_output_block(b, inner);
    let fa = |b: SpecChainSpecificBlock| analyze_chain_specific_block(b, inner);
    assert forall|i: int| 0 <= i < t.inputs.len() implies #[trigger] fi(t.inputs[i]) is Some by {
        let b = t.inputs[i];
        let f = |x: SpecInputBlockField| analyze_input_block_field(x, inner);
        assert forall|j: int| 0 <= j < b.fields.len() implies #[trigger] f(b.fields[j]) is Some by {
            match b.fields[j] {
                SpecInputBlockField::MinAmount(x) => lemma_asset_expr_completes(x, inner),
                SpecInputBlockField::Redeemer(x) => lemma_data_expr_completes(x, inner),
                SpecInputBlockField::Ref(x) => lemma_data_expr_completes(x, inner),
                _ => {},
            }
        }
        lemma_each_completes(b.fields, f);
    }
    lemma_each_completes(t.inputs, fi);
    assert forall|i: int| 0 <= i < t.outputs.len() implies #[trigger] fo(t.outputs[i]) is Some by {
        let b = t.outputs[i];
        let f = |x: SpecOutputBlockField| analyze_output_block_field(x, inner);
        assert forall|j: int| 0 <= j < b.fields.len() implies #[trigger] f(b.fields[j]) is Some by {
            match b.fields[j] {
                SpecOutputBlockField::Amount(x) => lemma_asset_expr_completes(x, inner),
                SpecOutputBlockField::Datum(x) => lemma_data_expr_completes(x, inner),
                _ => {},
            }
        }
        lemma_each_completes(b.fields, f);
    }
    lemma_each_completes(t.outputs, fo);
    if let Some(m) = t.mint {
        let f = |x: SpecMintBlockField| analyze_mint_block_field(x, inner);
        assert forall|j: int| 0 <= j < m.fields.len() implies #[trigger] f(m.fields[j]) is Some by {
            match m.fields[j] {
                SpecMintBlockField::Amount(x) => lemma_asset_expr_completes(x, inner),
                SpecMintBlockField::Redeemer(x) => lemma_data_expr_completes(x, inner),
            }
        }
        lemma_each_completes(m.fields, f);
    }
    assert forall|i: int| 0 <= i < t.adhoc.len() implies #[trigger] fa(t.adhoc[i]) is Some by {
        match t.adhoc[i] {
            SpecChainSpecificBlock::Cardano(SpecCardanoBlock::VoteDelegationCertificate(c)) => {
                lemma_data_expr_completes(c.drep, inner);
                lemma_data_expr_completes(c.stake, inner);
            },
        }
    }
    lemma_each_completes(t.adhoc, fa);
}

/// Analysis of a program always runs to completion, whatever names in it
/// fail to resolve.
pub proof fn law_program_analysis_completes(p: SpecProgram, scope: Option<SpecScope>)
    ensures
        analyze_program(p, scope) is Some,
{
    let inner = Some(program_scope(p, scope));
    let fp = |d: SpecPolicyDef| analyze_policy_def(d, inner);
    let ft = |d: SpecTypeDef| analyze_type_def(d, inner);
    let fx = |t: SpecTxDef| analyze_tx_def(t, inner);
    assert forall|i: int| 0 <= i < p.policies.len() implies #[trigger] fp(p.policies[i]) is Some by {
        let d = p.policies[i];
        if let SpecPolicyValue::Constructor(c) = d.value {
            let f = |x: SpecPolicyField| analyze_policy_field(x, inner);
            assert forall|j: int| 0 <= j < c.fields.len() implies #[trigger] f(c.fields[j]) is Some by {
                match c.fields[j] {
                    SpecPolicyField::Hash(x) => lemma_data_expr_completes(x, inner),
                    SpecPolicyField::Script(x) => lemma_data_expr_completes(x, inner),
                    SpecPolicyField::Ref(x) => lemma_data_expr_completes(x, inner),
                }
            }
            lemma_each_completes(c.fields, f);
        }
    }
    lemma_each_completes(p.policies, fp);
    assert forall|i: int| 0 <= i < p.types.len() implies #[trigger] ft(p.types[i]) is Some by {
        let d = p.types[i];
        let fc = |c: SpecVariantCase| analyze_variant_case(c, inner);
        assert forall|j: int| 0 <= j < d.cases.len() implies #[trigger] fc(d.cases[j]) is Some by {
            lemma_each_completes(d.cases[j].fields, |x: SpecRecordField| analyze_record_field(x, inner));
        }
        lemma_each_completes(d.cases, fc);
    }
    lemma_each_completes(p.types, ft);
    assert forall|i: int| 0 <= i < p.txs.len() implies #[trigger] fx(p.txs[i]) is Some by {
        lemma_tx_def_completes(p.txs[i], inner);
    }
    lemma_each_completes(p.txs, fx);
}


/// A datum constructor whose type name resolves to nothing, and that
/// carries no symbol from an earlier analysis, is reported as a name not in
/// scope, and is left as it was.
pub proof fn law_unresolved_constructor_type_is_reported(c: SpecDatumConstructor, scope: Option<SpecScope>)
    requires
        crate::scope::resolve_in(scope, c.ty.value) is None,
        c.ty.symbol is None,
    ensures
        analyze_datum_constructor(c, scope) == Some((c, seq![crate::semantics::not_in_scope(c.ty)])),
{
}

/// Likewise for a case name that resolves to nothing.
pub proof fn law_unresolved_case_name_is_reported(c: SpecVariantCaseConstructor, scope: Option<SpecScope>)
    requires
        crate::scope::resolve_in(scope, c.name.value) is None,
        c.name.symbol is None,
    ensures
        analyze_variant_case_constructor(c, scope) == Some((c, seq![crate::semantics::not_in_scope(c.name)])),
{
}

// ---------------------------------------------------------------------------
// What analysis leaves as it was

pub open spec fn stripped_identifier(i: SpecIdentifier) -> SpecIdentifier {
    SpecIdentifier { value: i.value, symbol: None, span: i.span }
}

pub open spec fn stripped_type(t: SpecType) -> SpecType {
    match t {
        SpecType::Custom(i) => SpecType::Custom(stripped_identifier(i)),
        _ => t,
    }
}

pub open spec fn stripped_data_expr(e: SpecDataExpr) -> SpecDataExpr
    decreases e,
{
    match e {
        SpecDataExpr::Constructor(c) => SpecDataExpr::Constructor(stripped_datum_constructor(c)),
        SpecDataExpr::Identifier(i) => SpecDataExpr::Identifier(stripped_identifier(i)),
        SpecDataExpr::PropertyAccess(p) => SpecDataExpr::PropertyAccess(stripped_property_access(p)),
        SpecDataExpr::BinaryOp(b) => SpecDataExpr::BinaryOp(stripped_data_binary_op(b)),
        _ => e,
    }
}

pub open spec fn stripped_datum_constructor(c: SpecDatumConstructor) -> SpecDatumConstructor
    decreases c,
{
    SpecDatumConstructor {
        ty: stripped_identifier(c.ty),
        case: stripped_variant_case_constructor(c.case),
        span: c.span,
        scope: None,
    }
}

pub open spec fn stripped_variant_case_constructor(c: SpecVariantCaseConstructor) -> SpecVariantCaseConstructor
    decreases c,
{
    SpecVariantCaseConstructor {
        name: stripped_identifier(c.name),
        fields: stripped_record_constructor_fields(c.fields),
        span: c.span,
        scope: None,
    }
}

pub open spec fn stripped_record_constructor_fields(s: Seq<SpecRecordConstructorField>) -> Seq<SpecRecordConstructorField>
    decreases s,
{
    Seq::new(
        s.len(),
        |i: int| if 0 <= i < s.len() { stripped_record_constructor_field(s[i]) } else { arbitrary() },
    )
}

pub open spec fn stripped_record_constructor_field(f: SpecRecordConstructorField) -> SpecRecordConstructorField
    decreases f,
{
    SpecRecordConstructorField {
        name: stripped_identifier(f.name),
        value: Box::new(stripped_data_expr(*f.value)),
        span: f.span,
    }
}

pub open spec fn stripped_data_binary_op(b: SpecDataBinaryOp) -> SpecDataBinaryOp
    decreases b,
{
    SpecDataBinaryOp {
        left: Box::new(stripped_data_expr(*b.left)),
        operator: b.operator,
        right: Box::new(stripped_data_expr(*b.right)),
        span: b.span,
    }
}

pub open spec fn stripped_property_access(p: SpecPropertyAccess) -> SpecPropertyAccess {
    SpecPropertyAccess {
        object: stripped_identifier(p.object),
        path: p.path.map_values(|i: SpecIdentifier| stripped_identifier(i)),
        span: p.span,
        scope: None,
    }
}

pub open spec fn stripped_asset_expr(e: SpecAssetExpr) -> SpecAssetExpr
    decreases e,
{
    match e {
        SpecAssetExpr::Identifier(i) => SpecAssetExpr::Identifier(stripped_identifier(i)),
        SpecAssetExpr::Constructor(c) => SpecAssetExpr::Constructor(
            SpecAssetConstructor {
                ty: stripped_identifier(c.ty),
                amount: stripped_data_expr(c.amount),
                span: c.span,
            },
        ),
        SpecAssetExpr::BinaryOp(b) => SpecAssetExpr::BinaryOp(
            SpecAssetBinaryOp {
                left: Box::new(stripped_asset_expr(*b.left)),
                operator: b.operator,
                right: Box::new(stripped_asset_expr(*b.right)),
                span: b.span,
            },
        ),
        SpecAssetExpr::PropertyAccess(p) => SpecAssetExpr::PropertyAccess(stripped_property_access(p)),
    }
}

pub open spec fn stripped_address_expr(e: SpecAddressExpr) -> SpecAddressExpr {
    match e {
        SpecAddressExpr::Identifier(i) => SpecAddressExpr::Identifier(stripped_identifier(i)),
        _ => e,
    }
}

pub open spec fn stripped_input_block_field(f: SpecInputBlockField) -> SpecInputBlockField {
    match f {
        SpecInputBlockField::From(x) => SpecInputBlockField::From(stripped_address_expr(x)),
        SpecInputBlockField::DatumIs(x) => SpecInputBlockField::DatumIs(stripped_type(x)),
        SpecInputBlockField::MinAmount(x) => SpecInputBlockField::MinAmount(stripped_asset_expr(x)),
        SpecInputBlockField::Redeemer(x) => SpecInputBlockField::Redeemer(stripped_data_expr(x)),
        SpecInputBlockField::Ref(x) => SpecInputBlockField::Ref(stripped_data_expr(x)),
    }
}

pub open spec fn stripped_input_block(b: SpecInputBlock) -> SpecInputBlock {
    SpecInputBlock {
        name: b.name,
        is_many: b.is_many,
        fields: b.fields.map_values(|f: SpecInputBlockField| stripped_input_block_field(f)),
        span: b.span,
    }
}

pub open spec fn stripped_output_block_field(f: SpecOutputBlockField) -> SpecOutputBlockField {
    match f {
        SpecOutputBlockField::To(x) => SpecOutputBlockField::To(stripped_address_expr(x)),
        SpecOutputBlockField::Amount(x) => SpecOutputBlockField::Amount(stripped_asset_expr(x)),
        SpecOutputBlockField::Datum(x) => SpecOutputBlockField::Datum(stripped_data_expr(x)),
    }
}

pub open spec fn stripped_output_block(b: SpecOutputBlock) -> SpecOutputBlock {
    SpecOutputBlock {
        name: b.name,
        fields: b.fields.map_values(|f: SpecOutputBlockField| stripped_output_block_field(f)),
        span: b.span,
    }
}

pub open spec fn stripped_mint_block_field(f: SpecMintBlockField) -> SpecMintBlockField {
    match f {
        SpecMintBlockField::Amount(x) => SpecMintBlockField::Amount(stripped_asset_expr(x)),
        SpecMintBlockField::Redeemer(x) => SpecMintBlockField::Redeemer(stripped_data_expr(x)),
    }
}

pub open spec fn stripped_mint_block(b: SpecMintBlock) -> SpecMintBlock {
    SpecMintBlock {
        fields: b.fields.map_values(|f: SpecMintBlockField| stripped_mint_block_field(f)),
        span: b.span,
    }
}

pub open spec fn stripped_chain_specific_block(b: SpecChainSpecificBlock) -> SpecChainSpecificBlock {
    match b {
        SpecChainSpecificBlock::Cardano(SpecCardanoBlock::VoteDelegationCertificate(c)) =>
            SpecChainSpecificBlock::Cardano(
            SpecCardanoBlock::VoteDelegationCertificate(
                SpecVoteDelegationCertificate {
                    drep: stripped_data_expr(c.drep),
                    stake: stripped_data_expr(c.stake),
                    span: c.span,
                },
            ),
        ),
    }
}

pub open spec fn stripped_record_field(f: SpecRecordField) -> SpecRecordField {
    SpecRecordField { name: f.name, ty: stripped_type(f.ty), span: f.span }
}

pub open spec fn stripped_variant_case(c: SpecVariantCase) -> SpecVariantCase {
    SpecVariantCase {
        name: c.name,
        fields: c.fields.map_values(|f: SpecRecordField| stripped_record_field(f)),
        span: c.span,
    }
}

pub open spec fn stripped_type_def(t: SpecTypeDef) -> SpecTypeDef {
    SpecTypeDef {
        name: t.name,
        cases: t.cases.map_values(|c: SpecVariantCase| stripped_variant_case(c)),
        span: t.span,
    }
}

pub open spec fn stripped_policy_field(f: SpecPolicyField) -> SpecPolicyField {
    match f {
        SpecPolicyField::Hash(x) => SpecPolicyField::Hash(stripped_data_expr(x)),
        SpecPolicyField::Script(x) => SpecPolicyField::Script(stripped_data_expr(x)),
        SpecPolicyField::Ref(x) => SpecPolicyField::Ref(stripped_data_expr(x)),
    }
}

pub open spec fn stripped_policy_def(p: SpecPolicyDef) -> SpecPolicyDef {
    SpecPolicyDef {
        name: p.name,
        value: match p.value {
            SpecPolicyValue::Constructor(c) => SpecPolicyValue::Constructor(
                SpecPolicyConstructor {
                    fields: c.fields.map_values(|f: SpecPolicyField| stripped_policy_field(f)),
                    span: c.span,
                },
            ),
            SpecPolicyValue::Assign(h) => SpecPolicyValue::Assign(h),
        },
        span: p.span,
    }
}

/// A transaction with the symbols of the names and the scopes that
/// analysis fills in taken out; its parameters, which analysis does not
/// visit, are kept whole.
pub open spec fn stripped_tx_def(t: SpecTxDef) -> SpecTxDef {
    SpecTxDef {
        name: t.name,
        parameters: t.parameters,
        inputs: t.inputs.map_values(|b: SpecInputBlock| stripped_input_block(b)),
        outputs: t.outputs.map_values(|b: SpecOutputBlock| stripped_output_block(b)),
        mint: match t.mint {
            Some(m) => Some(stripped_mint_block(m)),
            None => None,
        },
        adhoc: t.adhoc.map_values(|b: SpecChainSpecificBlock| stripped_chain_specific_block(b)),
        span: t.span,
        scope: None,
    }
}

/// A program with the symbols and scopes that analysis fills in taken out;
/// its parties and assets, which analysis does not visit, are kept whole.
pub open spec fn stripped_program(p: SpecProgram) -> SpecProgram {
    SpecProgram {
        txs: p.txs.map_values(|t: SpecTxDef| stripped_tx_def(t)),
        types: p.types.map_values(|t: SpecTypeDef| stripped_type_def(t)),
        assets: p.assets,
        parties: p.parties,
        policies: p.policies.map_values(|d: SpecPolicyDef| stripped_policy_def(d)),
        span: p.span,
        scope: None,
    }
}

/// Analysis of each element keeps what `keep` sees of it, so analysis of
/// the sequence keeps its length and what `keep` sees of each element.
pub proof fn lemma_each_keeps<T>(s: Seq<T>, f: spec_fn(T) -> Analysis<T>, keep: spec_fn(T) -> T)
    requires
        forall|i: int|
            0 <= i < s.len() ==> (#[trigger] f(s[i]) matches Some((y, e)) ==> keep(y) == keep(s[i])),
    ensures
        analyze_each(s, f) matches Some((ys, e)) ==> ys.map_values(keep) == s.map_values(keep),
    decreases s.len(),
{
    if s.len() > 0 {
        assert forall|i: int| 0 <= i < s.drop_last().len() implies (#[trigger] f(s.drop_last()[i]) matches Some((y, e))
            ==> keep(y) == keep(s.drop_last()[i])) by {
            assert(s.drop_last()[i] == s[i]);
        }
        lemma_each_keeps(s.drop_last(), f, keep);
        if let Some((ys, e)) = analyze_each(s, f) {
            let (xs, _) = analyze_each(s.drop_last(), f).unwrap();
            assert(ys == xs.push(f(s.last()).unwrap().0));
            assert(ys.map_values(keep) =~= xs.map_values(keep).push(keep(ys.last())));
            assert(s.map_values(keep) =~= s.drop_last().map_values(keep).push(keep(s.last())));
        }
    }
}

pub proof fn lemma_data_expr_keeps(e: SpecDataExpr, scope: Option<SpecScope>)
    ensures
        analyze_data_expr(e, scope) matches Some((y, errs)) ==> stripped_data_expr(y) == stripped_data_expr(e),
    decreases e,
{
    match e {
        SpecDataExpr::Constructor(c) => lemma_datum_constructor_keeps(c, scope),
        SpecDataExpr::PropertyAccess(p) => lemma_property_access_keeps(p, scope),
        SpecDataExpr::BinaryOp(b) => {
            lemma_data_expr_keeps(*b.left, scope);
            lemma_data_expr_keeps(*b.right, scope);
        },
        _ => {},
    }
}

pub proof fn lemma_datum_constructor_keeps(c: SpecDatumConstructor, scope: Option<SpecScope>)
    ensures
        analyze_datum_constructor(c, scope) matches Some((y, errs)) ==> stripped_datum_constructor(y)
            == stripped_datum_constructor(c),
    decreases c,
{
    let (ty, _) = analyze_identifier(c.ty, scope).unwrap();
    if let Some(SpecSymbol::TypeDef(def)) = ty.symbol {
        lemma_variant_case_constructor_keeps(c.case, Some(cases_scope(*def, scope)));
    }
}

pub proof fn lemma_variant_case_constructor_keeps(c: SpecVariantCaseConstructor, scope: Option<SpecScope>)
    ensures
        analyze_variant_case_constructor(c, scope) matches Some((y, errs))
            ==> stripped_variant_case_constructor(y) == stripped_variant_case_constructor(c),
    decreases c,
{
    let (name, _) = analyze_identifier(c.name, scope).unwrap();
    if let Some(SpecSymbol::VariantCase(case)) = name.symbol {
        lemma_record_constructor_fields_keeps(c.fields, Some(fields_scope(*case, scope)));
    }
}

pub proof fn lemma_record_constructor_fields_keeps(s: Seq<SpecRecordConstructorField>, scope: Option<SpecScope>)
    ensures
        analyze_record_constructor_fields(s, scope) matches Some((ys, errs))
            ==> stripped_record_constructor_fields(ys) == stripped_record_constructor_fields(s),
    decreases s,
{
    if s.len() > 0 {
        lemma_record_constructor_fields_keeps(s.drop_last(), scope);
        lemma_record_constructor_field_keeps(s.last(), scope);
        if let Some((ys, errs)) = analyze_record_constructor_fields(s, scope) {
            let (xs, _) = analyze_record_constructor_fields(s.drop_last(), scope).unwrap();
            let (x, _) = analyze_record_constructor_field(s.last(), scope).unwrap();
            assert(ys == xs.push(x));
            assert(stripped_record_constructor_fields(ys) =~= stripped_record_constructor_fields(xs).push(
                stripped_record_constructor_field(x),
            ));
            assert(stripped_record_constructor_fields(s) =~= stripped_record_constructor_fields(
                s.drop_last(),
            ).push(stripped_record_constructor_field(s.last())));
        }
    }
}

pub proof fn lemma_record_constructor_field_keeps(f: SpecRecordConstructorField, scope: Option<SpecScope>)
    ensures
        analyze_record_constructor_field(f, scope) matches Some((y, errs))
            ==> stripped_record_constructor_field(y) == stripped_record_constructor_field(f),
    decreases f,
{
    lemma_data_expr_keeps(*f.value, scope);
}

pub proof fn lemma_property_access_keeps(p: SpecPropertyAccess, scope: Option<SpecScope>)
    ensures
        analyze_property_access(p, scope) matches Some((y, errs)) ==> stripped_property_access(y)
            == stripped_property_access(p),
{
    lemma_each_keeps(
        p.path,
        |i: SpecIdentifier| analyze_identifier(i, Some(child_scope(scope))),
        |i: SpecIdentifier| stripped_identifier(i),
    );
}

pub proof fn lemma_asset_expr_keeps(e: SpecAssetExpr, scope: Option<SpecScope>)
    ensures
        analyze_asset_expr(e, scope) matches Some((y, errs)) ==> stripped_asset_expr(y) == stripped_asset_expr(e),
    decreases e,
{
    match e {
        SpecAssetExpr::Constructor(c) => lemma_data_expr_keeps(c.amount, scope),
        SpecAssetExpr::BinaryOp(b) => {
            lemma_asset_expr_keeps(*b.left, scope);
            lemma_asset_expr_keeps(*b.right, scope);
        },
        SpecAssetExpr::PropertyAccess(p) => lemma_property_access_keeps(p, scope),
        _ => {},
    }
}

pub proof fn lemma_tx_def_keeps(t: SpecTxDef, scope: Option<SpecScope>)
    ensures
        analyze_tx_def(t, scope) matches Some((y, errs)) ==> stripped_tx_def(y) == stripped_tx_def(t),
{
    let inner = Some(tx_scope(t, scope));
    let fi = |b: SpecInputBlock| analyze_input_block(b, inner);
    let fo = |b: SpecOutputBlock| analyze_output_block(b, inner);
    let fa = |b: SpecChainSpecificBlock| analyze_chain_specific_block(b, inner);
    let ki = |b: SpecInputBlock| stripped_input_block(b);
    let ko = |b: SpecOutputBlock| stripped_output_block(b);
    let ka = |b: SpecChainSpecificBlock| stripped_chain_specific_block(b);
    assert forall|i: int| 0 <= i < t.inputs.len() implies (#[trigger] fi(t.inputs[i]) matches Some((y, e))
        ==> ki(y) == ki(t.inputs[i])) by {
        let b = t.inputs[i];
        let f = |x: SpecInputBlockField| analyze_input_block_field(x, inner);
        let k = |x: SpecInputBlockField| stripped_input_block_field(x);
        assert forall|j: int| 0 <= j < b.fields.len() implies (#[trigger] f(b.fields[j]) matches Some((y, e))
            ==> k(y) == k(b.fields[j])) by {
            match b.fields[j] {
                SpecInputBlockField::MinAmount(x) => lemma_asset_expr_keeps(x, inner),
                SpecInputBlockField::Redeemer(x) => lemma_data_expr_keeps(x, inner),
                SpecInputBlockField::Ref(x) => lemma_data_expr_keeps(x, inner),
                _ => {},
            }
        }
        lemma_each_keeps(b.fields, f, k);
    }
    lemma_each_keeps(t.inputs, fi, ki);
    assert forall|i: int| 0 <= i < t.outputs.len() implies (#[trigger] fo(t.outputs[i]) matches Some((y, e))
        ==> ko(y) == ko(t.outputs[i])) by {
        let b = t.outputs[i];
        let f = |x: SpecOutputBlockField| analyze_output_block_field(x, inner);
        let k = |x: SpecOutputBlockField| stripped_output_block_field(x);
        assert forall|j: int| 0 <= j < b.fields.len() implies (#[trigger] f(b.fields[j]) matches Some((y, e))
            ==> k(y) == k(b.fields[j])) by {
            match b.fields[j] {
                SpecOutputBlockField::Amount(x) => lemma_asset_expr_keeps(x, inner),
                SpecOutputBlockField::Datum(x) => lemma_data_expr_keeps(x, inner),
                _ => {},
            }
        }
        lemma_each_keeps(b.fields, f, k);
    }
    lemma_each_keeps(t.outputs, fo, ko);
    if let Some(m) = t.mint {
        let f = |x: SpecMintBlockField| analyze_mint_block_field(x, inner);
        let k = |x: SpecMintBlockField| stripped_mint_block_field(x);
        assert forall|j: int| 0 <= j < m.fields.len() implies (#[trigger] f(m.fields[j]) matches Some((y, e))
            ==> k(y) == k(m.fields[j])) by {
            match m.fields[j] {
                SpecMintBlockField::Amount(x) => lemma_asset_expr_keeps(x, inner),
                SpecMintBlockField::Redeemer(x) => lemma_data_expr_keeps(x, inner),
            }
        }
        lemma_each_keeps(m.fields, f, k);
    }
    assert forall|i: int| 0 <= i < t.adhoc.len() implies (#[trigger] fa(t.adhoc[i]) matches Some((y, e))
        ==> ka(y) == ka(t.adhoc[i])) by {
        match t.adhoc[i] {
            SpecChainSpecificBlock::Cardano(SpecCardanoBlock::VoteDelegationCertificate(c)) => {
                lemma_data_expr_keeps(c.drep, inner);
                lemma_data_expr_keeps(c.stake, inner);
            },
        }
    }
    lemma_each_keeps(t.adhoc, fa, ka);
}

/// Analysis changes a program only in the symbols of the names it resolves
/// and the scopes of the nodes that open one: with those taken out, the
/// program afterwards is the program before, its parties, assets and
/// transaction parameters untouched.
pub proof fn law_program_analysis_keeps_the_program(p: SpecProgram, scope: Option<SpecScope>)
    ensures
        analyze_program(p, scope) matches Some((q, errs)) ==> stripped_program(q) == stripped_program(p),
{
    let inner = Some(program_scope(p, scope));
    let fp = |d: SpecPolicyDef| analyze_policy_def(d, inner);
    let ft = |d: SpecTypeDef| analyze_type_def(d, inner);
    let fx = |t: SpecTxDef| analyze_tx_def(t, inner);
    let kp = |d: SpecPolicyDef| stripped_policy_def(d);
    let kt = |d: SpecTypeDef| stripped_type_def(d);
    let kx = |t: SpecTxDef| stripped_tx_def(t);
    assert forall|i: int| 0 <= i < p.policies.len() implies (#[trigger] fp(p.policies[i]) matches Some((y, e))
        ==> kp(y) == kp(p.policies[i])) by {
        let d = p.policies[i];
        if let SpecPolicyValue::Constructor(c) = d.value {
            let f = |x: SpecPolicyField| analyze_policy_field(x, inner);
            let k = |x: SpecPolicyField| stripped_policy_field(x);
            assert forall|j: int| 0 <= j < c.fields.len() implies (#[trigger] f(c.fields[j]) matches Some((y, e))
                ==> k(y) == k(c.fields[j])) by {
                match c.fields[j] {
                    SpecPolicyField::Hash(x) => lemma_data_expr_keeps(x, inner),
                    SpecPolicyField::Script(x) => lemma_data_expr_keeps(x, inner),
                    SpecPolicyField::Ref(x) => lemma_data_expr_keeps(x, inner),
                }
            }
            lemma_each_keeps(c.fields, f, k);
        }
    }
    lemma_each_keeps(p.policies, fp, kp);
    assert forall|i: int| 0 <= i < p.types.len() implies (#[trigger] ft(p.types[i]) matches Some((y, e))
        ==> kt(y) == kt(p.types[i])) by {
        let d = p.types[i];
        let fc = |c: SpecVariantCase| analyze_variant_case(c, inner);
        let kc = |c: SpecVariantCase| stripped_variant_case(c);
        assert forall|j: int| 0 <= j < d.cases.len() implies (#[trigger] fc(d.cases[j]) matches Some((y, e))
            ==> kc(y) == kc(d.cases[j])) by {
            lemma_each_keeps(
                d.cases[j].fields,
                |x: SpecRecordField| analyze_record_field(x, inner),
                |x: SpecRecordField| stripped_record_field(x),
            );
        }
        lemma_each_keeps(d.cases, fc, kc);
    }
    lemma_each_keeps(p.types, ft, kt);
    assert forall|i: int| 0 <= i < p.txs.len() implies (#[trigger] fx(p.txs[i]) matches Some((y, e))
        ==> kx(y) == kx(p.txs[i])) by {
        lemma_tx_def_keeps(p.txs[i], inner);
    }
    lemma_each_keeps(p.txs, fx, kx);
}

} // verus!
