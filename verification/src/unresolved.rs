//! Every name that analysis looks up and that resolves to nothing is
//! reported, with its name and its span.

use vstd::prelude::*;

use crate::model::{
    SpecAddressExpr, SpecAssetBinaryOp, SpecAssetConstructor, SpecAssetExpr, SpecCardanoBlock,
    SpecChainSpecificBlock, SpecDataBinaryOp, SpecDataExpr, SpecDatumConstructor,
    SpecIdentifier, SpecInputBlock, SpecInputBlockField, SpecMintBlock, SpecMintBlockField,
    SpecOutputBlock, SpecOutputBlockField, SpecPolicyDef, SpecPolicyField, SpecPolicyValue,
    SpecProgram, SpecPropertyAccess, SpecRecordConstructorField, SpecRecordField, SpecScope,
    SpecSymbol, SpecTxDef, SpecType, SpecTypeDef, SpecVariantCase, SpecVariantCaseConstructor,
};
use crate::report::SpecError;
use crate::scope::{child_scope, resolve_in};
use crate::semantics::{
    analyze_address_expr, analyze_asset_binary_op, analyze_asset_constructor, analyze_asset_expr,
    analyze_chain_specific_block, analyze_data_binary_op, analyze_data_expr,
    analyze_datum_constructor, analyze_each, analyze_identifier, analyze_input_block,
    analyze_input_block_field, analyze_mint_block, analyze_mint_block_field,
    analyze_optional_mint, analyze_output_block, analyze_output_block_field, analyze_policy_def,
    analyze_policy_field, analyze_program, analyze_property_access,
    analyze_record_constructor_field, analyze_record_constructor_fields, analyze_record_field,
    analyze_tx_def, analyze_type, analyze_type_def, analyze_variant_case,
    analyze_variant_case_constructor, cases_scope, duplicate_definitions, fields_scope,
    not_in_scope, program_names, program_scope, tx_scope, Analysis,
};

verus! {

/// Every error of `expected` is in `errs`.
pub open spec fn all_reported(expected: Set<SpecError>, errs: Seq<SpecError>) -> bool {
    forall|x: SpecError| expected.contains(x) ==> #[trigger] errs.contains(x)
}

/// The error owed for looking `i` up in `scope`: a not-in-scope error with
/// its name and span where it resolves to nothing.
pub open spec fn lookup_failure(i: SpecIdentifier, scope: Option<SpecScope>) -> Set<SpecError> {
    if resolve_in(scope, i.value) is None {
        set![not_in_scope(i)]
    } else {
        Set::empty()
    }
}

/// The errors owed for each element of `s`.
pub open spec fn each_failures<T>(s: Seq<T>, f: spec_fn(T) -> Set<SpecError>) -> Set<SpecError>
    decreases s.len(),
{
    if s.len() == 0 {
        Set::empty()
    } else {
        each_failures(s.drop_last(), f).union(f(s.last()))
    }
}

pub open spec fn type_failures(t: SpecType, scope: Option<SpecScope>) -> Set<SpecError> {
    match t {
        SpecType::Custom(i) => lookup_failure(i, scope),
        _ => Set::empty(),
    }
}

pub open spec fn data_expr_failures(e: SpecDataExpr, scope: Option<SpecScope>) -> Set<SpecError>
    decreases e,
{
    match e {
        SpecDataExpr::Constructor(c) => datum_constructor_failures(c, scope),
        SpecDataExpr::Identifier(i) => lookup_failure(i, scope),
        SpecDataExpr::PropertyAccess(p) => property_access_failures(p, scope),
        SpecDataExpr::BinaryOp(b) => data_expr_failures(*b.left, scope).union(
            data_expr_failures(*b.right, scope),
        ),
        _ => Set::empty(),
    }
}

/// The type name, and, where it names a type, what the case owes in the
/// scope of that type's cases. Where the name resolves to nothing but
/// still carries a symbol of another kind from an earlier analysis, that
/// symbol is what is reported, as an invalid symbol, and nothing is owed.
pub open spec fn datum_constructor_failures(c: SpecDatumConstructor, scope: Option<SpecScope>) -> Set<SpecError>
    decreases c,
{
    let (ty, _) = analyze_identifier(c.ty, scope).unwrap();
    match ty.symbol {
        Some(SpecSymbol::TypeDef(def)) => lookup_failure(c.ty, scope).union(
            variant_case_constructor_failures(c.case, Some(cases_scope(*def, scope))),
        ),
        Some(_) => Set::empty(),
        None => lookup_failure(c.ty, scope),
    }
}

/// As for a datum constructor, with the case name and the record fields.
pub open spec fn variant_case_constructor_failures(
    c: SpecVariantCaseConstructor,
    scope: Option<SpecScope>,
) -> Set<SpecError>
    decreases c,
{
    let (name, _) = analyze_identifier(c.name, scope).unwrap();
    match name.symbol {
        Some(SpecSymbol::VariantCase(case)) => lookup_failure(c.name, scope).union(
            record_constructor_fields_failures(c.fields, Some(fields_scope(*case, scope))),
        ),
        Some(_) => Set::empty(),
        None => lookup_failure(c.name, scope),
    }
}

pub open spec fn record_constructor_fields_failures(
    s: Seq<SpecRecordConstructorField>,
    scope: Option<SpecScope>,
) -> Set<SpecError>
    decreases s,
{
    if s.len() == 0 {
        Set::empty()
    } else {
        record_constructor_fields_failures(s.drop_last(), scope).union(
            record_constructor_field_failures(s.last(), scope),
        )
    }
}

pub open spec fn record_constructor_field_failures(
    f: SpecRecordConstructorField,
    scope: Option<SpecScope>,
) -> Set<SpecError>
    decreases f,
{
    lookup_failure(f.name, scope).union(data_expr_failures(*f.value, scope))
}

/// The object in the scope of the access, the path in a new scope nested
/// in it.
pub open spec fn property_access_failures(p: SpecPropertyAccess, scope: Option<SpecScope>) -> Set<SpecError> {
    let inner = Some(child_scope(scope));
    lookup_failure(p.object, scope).union(
        each_failures(p.path, |i: SpecIdentifier| lookup_failure(i, inner)),
    )
}

pub open spec fn asset_expr_failures(e: SpecAssetExpr, scope: Option<SpecScope>) -> Set<SpecError>
    decreases e,
{
    match e {
        SpecAssetExpr::Identifier(i) => lookup_failure(i, scope),
        SpecAssetExpr::Constructor(c) => data_expr_failures(c.amount, scope).union(
            lookup_failure(c.ty, scope),
        ),
        SpecAssetExpr::BinaryOp(b) => asset_expr_failures(*b.left, scope).union(
            asset_expr_failures(*b.right, scope),
        ),
        SpecAssetExpr::PropertyAccess(p) => property_access_failures(p, scope),
    }
}

pub open spec fn address_expr_failures(e: SpecAddressExpr, scope: Option<SpecScope>) -> Set<SpecError> {
    match e {
        SpecAddressExpr::Identifier(i) => lookup_failure(i, scope),
        _ => Set::empty(),
    }
}

pub open spec fn input_block_field_failures(f: SpecInputBlockField, scope: Option<SpecScope>) -> Set<SpecError> {
    match f {
        SpecInputBlockField::From(x) => address_expr_failures(x, scope),
        SpecInputBlockField::DatumIs(x) => type_failures(x, scope),
        SpecInputBlockField::MinAmount(x) => asset_expr_failures(x, scope),
        SpecInputBlockField::Redeemer(x) => data_expr_failures(x, scope),
        SpecInputBlockField::Ref(x) => data_expr_failures(x, scope),
    }
}

pub open spec fn input_block_failures(b: SpecInputBlock, scope: Option<SpecScope>) -> Set<SpecError> {
    each_failures(b.fields, |f: SpecInputBlockField| input_block_field_failures(f, scope))
}

pub open spec fn output_block_field_failures(f: SpecOutputBlockField, scope: Option<SpecScope>) -> Set<SpecError> {
    match f {
        SpecOutputBlockField::To(x) => address_expr_failures(x, scope),
        SpecOutputBlockField::Amount(x) => asset_expr_failures(x, scope),
        SpecOutputBlockField::Datum(x) => data_expr_failures(x, scope),
    }
}

pub open spec fn output_block_failures(b: SpecOutputBlock, scope: Option<SpecScope>) -> Set<SpecError> {
    each_failures(b.fields, |f: SpecOutputBlockField| output_block_field_failures(f, scope))
}

pub open spec fn mint_block_field_failures(f: SpecMintBlockField, scope: Option<SpecScope>) -> Set<SpecError> {
    match f {
        SpecMintBlockField::Amount(x) => asset_expr_failures(x, scope),
        SpecMintBlockField::Redeemer(x) => data_expr_failures(x, scope),
    }
}

pub open spec fn mint_block_failures(b: SpecMintBlock, scope: Option<SpecScope>) -> Set<SpecError> {
    each_failures(b.fields, |f: SpecMintBlockField| mint_block_field_failures(f, scope))
}

pub open spec fn chain_specific_block_failures(b: SpecChainSpecificBlock, scope: Option<SpecScope>) -> Set<SpecError> {
    match b {
        SpecChainSpecificBlock::Cardano(SpecCardanoBlock::VoteDelegationCertificate(c)) =>
            data_expr_failures(c.drep, scope).union(data_expr_failures(c.stake, scope)),
    }
}

pub open spec fn record_field_failures(f: SpecRecordField, scope: Option<SpecScope>) -> Set<SpecError> {
    type_failures(f.ty, scope)
}

pub open spec fn variant_case_failures(c: SpecVariantCase, scope: Option<SpecScope>) -> Set<SpecError> {
    each_failures(c.fields, |f: SpecRecordField| record_field_failures(f, scope))
}

pub open spec fn type_def_failures(t: SpecTypeDef, scope: Option<SpecScope>) -> Set<SpecError> {
    each_failures(t.cases, |c: SpecVariantCase| variant_case_failures(c, scope))
}

pub open spec fn policy_field_failures(f: SpecPolicyField, scope: Option<SpecScope>) -> Set<SpecError> {
    match f {
        SpecPolicyField::Hash(x) => data_expr_failures(x, scope),
        SpecPolicyField::Script(x) => data_expr_failures(x, scope),
        SpecPolicyField::Ref(x) => data_expr_failures(x, scope),
    }
}

pub open spec fn policy_def_failures(p: SpecPolicyDef, scope: Option<SpecScope>) -> Set<SpecError> {
    match p.value {
        SpecPolicyValue::Constructor(c) => each_failures(
            c.fields,
            |f: SpecPolicyField| policy_field_failures(f, scope),
        ),
        SpecPolicyValue::Assign(_) => Set::empty(),
    }
}

/// Inputs, outputs, the mint block and the chain-specific blocks, in the
/// transaction's scope.
pub open spec fn tx_def_failures(t: SpecTxDef, scope: Option<SpecScope>) -> Set<SpecError> {
    let inner = Some(tx_scope(t, scope));
    each_failures(t.inputs, |b: SpecInputBlock| input_block_failures(b, inner)).union(
        each_failures(t.outputs, |b: SpecOutputBlock| output_block_failures(b, inner)),
    ).union(
        match t.mint {
            Some(m) => mint_block_failures(m, inner),
            None => Set::empty(),
        },
    ).union(each_failures(t.adhoc, |b: SpecChainSpecificBlock| chain_specific_block_failures(b, inner)))
}

/// The not-in-scope error of every name that analysis looks up in `p`, in
/// the scope where it looks it up, and that resolves to nothing there:
/// names in policies, in the fields of types and in transactions.
pub open spec fn program_failures(p: SpecProgram, scope: Option<SpecScope>) -> Set<SpecError> {
    let inner = Some(program_scope(p, scope));
    each_failures(p.policies, |d: SpecPolicyDef| policy_def_failures(d, inner)).union(
        each_failures(p.types, |d: SpecTypeDef| type_def_failures(d, inner)),
    ).union(each_failures(p.txs, |t: SpecTxDef| tx_def_failures(t, inner)))
}

// ---------------------------------------------------------------------------

pub proof fn lemma_reported_concat(f1: Set<SpecError>, e1: Seq<SpecError>, f2: Set<SpecError>, e2: Seq<SpecError>)
    requires
        all_reported(f1, e1),
        all_reported(f2, e2),
    ensures
        all_reported(f1.union(f2), e1 + e2),
{
    assert forall|x: SpecError| f1.union(f2).contains(x) implies #[trigger] (e1 + e2).contains(x) by {
        if f1.contains(x) {
            assert(e1.contains(x));
            let k = choose|k: int| 0 <= k < e1.len() && e1[k] == x;
            assert((e1 + e2)[k] == x);
        } else {
            assert(e2.contains(x));
            let k = choose|k: int| 0 <= k < e2.len() && e2[k] == x;
            assert((e1 + e2)[e1.len() + k] == x);
        }
    }
}

pub proof fn lemma_each_reports_failures<T>(
    s: Seq<T>,
    g: spec_fn(T) -> Analysis<T>,
    f: spec_fn(T) -> Set<SpecError>,
)
    requires
        forall|i: int| 0 <= i < s.len() ==> (#[trigger] g(s[i]) matches Some((y, e)) ==> all_reported(f(s[i]), e)),
    ensures
        analyze_each(s, g) matches Some((ys, e)) ==> all_reported(each_failures(s, f), e),
    decreases s.len(),
{
    if s.len() > 0 {
        assert forall|i: int| 0 <= i < s.drop_last().len() implies (#[trigger] g(s.drop_last()[i]) matches Some((y, e))
            ==> all_reported(f(s.drop_last()[i]), e)) by {
            assert(s.drop_last()[i] == s[i]);
        }
        lemma_each_reports_failures(s.drop_last(), g, f);
        assert(g(s[s.len() - 1]) matches Some((y, e)) ==> all_reported(f(s[s.len() - 1]), e));
        if let Some((ys, e)) = analyze_each(s, g) {
            let (_, e1) = analyze_each(s.drop_last(), g).unwrap();
            let (_, e2) = g(s.last()).unwrap();
            lemma_reported_concat(each_failures(s.drop_last(), f), e1, f(s.last()), e2);
        }
    } else {
        assert forall|x: SpecError| each_failures(s, f).contains(x) implies #[trigger] Seq::<SpecError>::empty().contains(x) by {}
    }
}

pub proof fn lemma_identifier_reports(i: SpecIdentifier, scope: Option<SpecScope>)
    ensures
        analyze_identifier(i, scope) matches Some((y, e)) ==> all_reported(lookup_failure(i, scope), e),
{
    if resolve_in(scope, i.value) is None {
        let e = seq![not_in_scope(i)];
        assert(e[0] == not_in_scope(i));
        assert forall|x: SpecError| lookup_failure(i, scope).contains(x) implies #[trigger] e.contains(x) by {
            assert(x == not_in_scope(i));
        }
    }
}

pub proof fn lemma_data_expr_reports(e: SpecDataExpr, scope: Option<SpecScope>)
    ensures
        analyze_data_expr(e, scope) matches Some((y, errs)) ==> all_reported(data_expr_failures(e, scope), errs),
    decreases e,
{
    match e {
        SpecDataExpr::Constructor(c) => lemma_datum_constructor_reports(c, scope),
        SpecDataExpr::Identifier(i) => lemma_identifier_reports(i, scope),
        SpecDataExpr::PropertyAccess(p) => lemma_property_access_reports(p, scope),
        SpecDataExpr::BinaryOp(b) => lemma_data_binary_op_reports(b, scope),
        _ => {},
    }
}

pub proof fn lemma_datum_constructor_reports(c: SpecDatumConstructor, scope: Option<SpecScope>)
    ensures
        analyze_datum_constructor(c, scope) matches Some((y, errs)) ==> all_reported(
            datum_constructor_failures(c, scope),
            errs,
        ),
    decreases c,
{
    lemma_identifier_reports(c.ty, scope);
    let (ty, e1) = analyze_identifier(c.ty, scope).unwrap();
    if let Some(SpecSymbol::TypeDef(def)) = ty.symbol {
        let inner = Some(cases_scope(*def, scope));
        lemma_variant_case_constructor_reports(c.case, inner);
        if let Some((case, e2)) = analyze_variant_case_constructor(c.case, inner) {
            lemma_reported_concat(lookup_failure(c.ty, scope), e1, variant_case_constructor_failures(c.case, inner), e2);
        }
    }
}

pub proof fn lemma_variant_case_constructor_reports(c: SpecVariantCaseConstructor, scope: Option<SpecScope>)
    ensures
        analyze_variant_case_constructor(c, scope) matches Some((y, errs)) ==> all_reported(
            variant_case_constructor_failures(c, scope),
            errs,
        ),
    decreases c,
{
    lemma_identifier_reports(c.name, scope);
    let (name, e1) = analyze_identifier(c.name, scope).unwrap();
    if let Some(SpecSymbol::VariantCase(case)) = name.symbol {
        let inner = Some(fields_scope(*case, scope));
        lemma_record_constructor_fields_reports(c.fields, inner);
        if let Some((fields, e2)) = analyze_record_constructor_fields(c.fields, inner) {
            lemma_reported_concat(lookup_failure(c.name, scope), e1, record_constructor_fields_failures(c.fields, inner), e2);
        }
    }
}

pub proof fn lemma_record_constructor_fields_reports(s: Seq<SpecRecordConstructorField>, scope: Option<SpecScope>)
    ensures
        analyze_record_constructor_fields(s, scope) matches Some((ys, errs)) ==> all_reported(
            record_constructor_fields_failures(s, scope),
            errs,
        ),
    decreases s,
{
    if s.len() > 0 {
        lemma_record_constructor_fields_reports(s.drop_last(), scope);
        lemma_record_constructor_field_reports(s.last(), scope);
        if let Some((ys, errs)) = analyze_record_constructor_fields(s, scope) {
            let (_, e1) = analyze_record_constructor_fields(s.drop_last(), scope).unwrap();
            let (_, e2) = analyze_record_constructor_field(s.last(), scope).unwrap();
            lemma_reported_concat(
                record_constructor_fields_failures(s.drop_last(), scope),
                e1,
                record_constructor_field_failures(s.last(), scope),
                e2,
            );
        }
    } else {
        assert forall|x: SpecError| record_constructor_fields_failures(s, scope).contains(x) implies #[trigger] Seq::<SpecError>::empty().contains(x) by {}
    }
}

pub proof fn lemma_record_constructor_field_reports(f: SpecRecordConstructorField, scope: Option<SpecScope>)
    ensures
        analyze_record_constructor_field(f, scope) matches Some((y, errs)) ==> all_reported(
            record_constructor_field_failures(f, scope),
            errs,
        ),
    decreases f,
{
    lemma_identifier_reports(f.name, scope);
    lemma_data_expr_reports(*f.value, scope);
    if let Some((y, errs)) = analyze_record_constructor_field(f, scope) {
        let (_, e1) = analyze_identifier(f.name, scope).unwrap();
        let (_, e2) = analyze_data_expr(*f.value, scope).unwrap();
        lemma_reported_concat(lookup_failure(f.name, scope), e1, data_expr_failures(*f.value, scope), e2);
    }
}

pub proof fn lemma_data_binary_op_reports(b: SpecDataBinaryOp, scope: Option<SpecScope>)
    ensures
        analyze_data_binary_op(b, scope) matches Some((y, errs)) ==> all_reported(
            data_expr_failures(*b.left, scope).union(data_expr_failures(*b.right, scope)),
            errs,
        ),
    decreases b,
{
    lemma_data_expr_reports(*b.left, scope);
    lemma_data_expr_reports(*b.right, scope);
    if let Some((y, errs)) = analyze_data_binary_op(b, scope) {
        let (_, e1) = analyze_data_expr(*b.left, scope).unwrap();
        let (_, e2) = analyze_data_expr(*b.right, scope).unwrap();
        lemma_reported_concat(data_expr_failures(*b.left, scope), e1, data_expr_failures(*b.right, scope), e2);
    }
}

pub proof fn lemma_property_access_reports(p: SpecPropertyAccess, scope: Option<SpecScope>)
    ensures
        analyze_property_access(p, scope) matches Some((y, errs)) ==> all_reported(
            property_access_failures(p, scope),
            errs,
        ),
{
    let inner = Some(child_scope(scope));
    lemma_identifier_reports(p.object, scope);
    let g = |i: SpecIdentifier| analyze_identifier(i, inner);
    let f = |i: SpecIdentifier| lookup_failure(i, inner);
    assert forall|i: int| 0 <= i < p.path.len() implies (#[trigger] g(p.path[i]) matches Some((y, e))
        ==> all_reported(f(p.path[i]), e)) by {
        lemma_identifier_reports(p.path[i], inner);
    }
    lemma_each_reports_failures(p.path, g, f);
    if let Some((y, errs)) = analyze_property_access(p, scope) {
        let (_, e1) = analyze_identifier(p.object, scope).unwrap();
        let (_, e2) = analyze_each(p.path, g).unwrap();
        lemma_reported_concat(lookup_failure(p.object, scope), e1, each_failures(p.path, f), e2);
    }
}

pub proof fn lemma_asset_expr_reports(e: SpecAssetExpr, scope: Option<SpecScope>)
    ensures
        analyze_asset_expr(e, scope) matches Some((y, errs)) ==> all_reported(asset_expr_failures(e, scope), errs),
    decreases e,
{
    match e {
        SpecAssetExpr::Identifier(i) => lemma_identifier_reports(i, scope),
        SpecAssetExpr::Constructor(c) => {
            lemma_data_expr_reports(c.amount, scope);
            lemma_identifier_reports(c.ty, scope);
            if let Some((y, errs)) = analyze_asset_constructor(c, scope) {
                let (_, e1) = analyze_data_expr(c.amount, scope).unwrap();
                let (_, e2) = analyze_identifier(c.ty, scope).unwrap();
                lemma_reported_concat(data_expr_failures(c.amount, scope), e1, lookup_failure(c.ty, scope), e2);
            }
        },
        SpecAssetExpr::BinaryOp(b) => {
            lemma_asset_expr_reports(*b.left, scope);
            lemma_asset_expr_reports(*b.right, scope);
            if let Some((y, errs)) = analyze_asset_binary_op(b, scope) {
                let (_, e1) = analyze_asset_expr(*b.left, scope).unwrap();
                let (_, e2) = analyze_asset_expr(*b.right, scope).unwrap();
                lemma_reported_concat(asset_expr_failures(*b.left, scope), e1, asset_expr_failures(*b.right, scope), e2);
            }
        },
        SpecAssetExpr::PropertyAccess(p) => lemma_property_access_reports(p, scope),
    }
}

pub proof fn lemma_input_block_reports(b: SpecInputBlock, scope: Option<SpecScope>)
    ensures
        analyze_input_block(b, scope) matches Some((y, errs)) ==> all_reported(input_block_failures(b, scope), errs),
{
    let g = |x: SpecInputBlockField| analyze_input_block_field(x, scope);
    let f = |x: SpecInputBlockField| input_block_field_failures(x, scope);
    assert forall|i: int| 0 <= i < b.fields.len() implies (#[trigger] g(b.fields[i]) matches Some((y, e))
        ==> all_reported(f(b.fields[i]), e)) by {
        match b.fields[i] {
            SpecInputBlockField::From(x) => {
                if let SpecAddressExpr::Identifier(j) = x {
                    lemma_identifier_reports(j, scope);
                }
            },
            SpecInputBlockField::DatumIs(x) => {
                if let SpecType::Custom(j) = x {
                    lemma_identifier_reports(j, scope);
                }
            },
            SpecInputBlockField::MinAmount(x) => lemma_asset_expr_reports(x, scope),
            SpecInputBlockField::Redeemer(x) => lemma_data_expr_reports(x, scope),
            SpecInputBlockField::Ref(x) => lemma_data_expr_reports(x, scope),
        }
    }
    lemma_each_reports_failures(b.fields, g, f);
}

pub proof fn lemma_output_block_reports(b: SpecOutputBlock, scope: Option<SpecScope>)
    ensures
        analyze_output_block(b, scope) matches Some((y, errs)) ==> all_reported(output_block_failures(b, scope), errs),
{
    let g = |x: SpecOutputBlockField| analyze_output_block_field(x, scope);
    let f = |x: SpecOutputBlockField| output_block_field_failures(x, scope);
    assert forall|i: int| 0 <= i < b.fields.len() implies (#[trigger] g(b.fields[i]) matches Some((y, e))
        ==> all_reported(f(b.fields[i]), e)) by {
        match b.fields[i] {
            SpecOutputBlockField::To(x) => {
                if let SpecAddressExpr::Identifier(j) = x {
                    lemma_identifier_reports(j, scope);
                }
            },
            SpecOutputBlockField::Amount(x) => lemma_asset_expr_reports(x, scope),
            SpecOutputBlockField::Datum(x) => lemma_data_expr_reports(x, scope),
        }
    }
    lemma_each_reports_failures(b.fields, g, f);
}

pub proof fn lemma_mint_block_reports(b: SpecMintBlock, scope: Option<SpecScope>)
    ensures
        analyze_mint_block(b, scope) matches Some((y, errs)) ==> all_reported(mint_block_failures(b, scope), errs),
{
    let g = |x: SpecMintBlockField| analyze_mint_block_field(x, scope);
    let f = |x: SpecMintBlockField| mint_block_field_failures(x, scope);
    assert forall|i: int| 0 <= i < b.fields.len() implies (#[trigger] g(b.fields[i]) matches Some((y, e))
        ==> all_reported(f(b.fields[i]), e)) by {
        match b.fields[i] {
            SpecMintBlockField::Amount(x) => lemma_asset_expr_reports(x, scope),
            SpecMintBlockField::Redeemer(x) => lemma_data_expr_reports(x, scope),
        }
    }
    lemma_each_reports_failures(b.fields, g, f);
}

pub proof fn lemma_chain_specific_block_reports(b: SpecChainSpecificBlock, scope: Option<SpecScope>)
    ensures
        analyze_chain_specific_block(b, scope) matches Some((y, errs)) ==> all_reported(
            chain_specific_block_failures(b, scope),
            errs,
        ),
{
    match b {
        SpecChainSpecificBlock::Cardano(SpecCardanoBlock::VoteDelegationCertificate(c)) => {
            lemma_data_expr_reports(c.drep, scope);
            lemma_data_expr_reports(c.stake, scope);
            if let Some((y, errs)) = analyze_chain_specific_block(b, scope) {
                let (_, e1) = analyze_data_expr(c.drep, scope).unwrap();
                let (_, e2) = analyze_data_expr(c.stake, scope).unwrap();
                lemma_reported_concat(data_expr_failures(c.drep, scope), e1, data_expr_failures(c.stake, scope), e2);
            }
        },
    }
}

pub proof fn lemma_type_def_reports(t: SpecTypeDef, scope: Option<SpecScope>)
    ensures
        analyze_type_def(t, scope) matches Some((y, errs)) ==> all_reported(type_def_failures(t, scope), errs),
{
    let g = |c: SpecVariantCase| analyze_variant_case(c, scope);
    let f = |c: SpecVariantCase| variant_case_failures(c, scope);
    assert forall|i: int| 0 <= i < t.cases.len() implies (#[trigger] g(t.cases[i]) matches Some((y, e))
        ==> all_reported(f(t.cases[i]), e)) by {
        let c = t.cases[i];
        let gf = |x: SpecRecordField| analyze_record_field(x, scope);
        let ff = |x: SpecRecordField| record_field_failures(x, scope);
        assert forall|j: int| 0 <= j < c.fields.len() implies (#[trigger] gf(c.fields[j]) matches Some((y, e))
            ==> all_reported(ff(c.fields[j]), e)) by {
            if let SpecType::Custom(k) = c.fields[j].ty {
                lemma_identifier_reports(k, scope);
            }
        }
        lemma_each_reports_failures(c.fields, gf, ff);
    }
    lemma_each_reports_failures(t.cases, g, f);
}

pub proof fn lemma_policy_def_reports(p: SpecPolicyDef, scope: Option<SpecScope>)
    ensures
        analyze_policy_def(p, scope) matches Some((y, errs)) ==> all_reported(policy_def_failures(p, scope), errs),
{
    if let SpecPolicyValue::Constructor(c) = p.value {
        let g = |x: SpecPolicyField| analyze_policy_field(x, scope);
        let f = |x: SpecPolicyField| policy_field_failures(x, scope);
        assert forall|i: int| 0 <= i < c.fields.len() implies (#[trigger] g(c.fields[i]) matches Some((y, e))
            ==> all_reported(f(c.fields[i]), e)) by {
            match c.fields[i] {
                SpecPolicyField::Hash(x) => lemma_data_expr_reports(x, scope),
                SpecPolicyField::Script(x) => lemma_data_expr_reports(x, scope),
                SpecPolicyField::Ref(x) => lemma_data_expr_reports(x, scope),
            }
        }
        lemma_each_reports_failures(c.fields, g, f);
    } else {
        assert forall|x: SpecError| policy_def_failures(p, scope).contains(x) implies #[trigger] Seq::<SpecError>::empty().contains(x) by {}
    }
}

pub proof fn lemma_tx_def_reports(t: SpecTxDef, scope: Option<SpecScope>)
    ensures
        analyze_tx_def(t, scope) matches Some((y, errs)) ==> all_reported(tx_def_failures(t, scope), errs),
{
    let inner = Some(tx_scope(t, scope));
    let gi = |b: SpecInputBlock| analyze_input_block(b, inner);
    let fi = |b: SpecInputBlock| input_block_failures(b, inner);
    let go = |b: SpecOutputBlock| analyze_output_block(b, inner);
    let fo = |b: SpecOutputBlock| output_block_failures(b, inner);
    let ga = |b: SpecChainSpecificBlock| analyze_chain_specific_block(b, inner);
    let fa = |b: SpecChainSpecificBlock| chain_specific_block_failures(b, inner);
    assert forall|i: int| 0 <= i < t.inputs.len() implies (#[trigger] gi(t.inputs[i]) matches Some((y, e))
        ==> all_reported(fi(t.inputs[i]), e)) by {
        lemma_input_block_reports(t.inputs[i], inner);
    }
    lemma_each_reports_failures(t.inputs, gi, fi);
    assert forall|i: int| 0 <= i < t.outputs.len() implies (#[trigger] go(t.outputs[i]) matches Some((y, e))
        ==> all_reported(fo(t.outputs[i]), e)) by {
        lemma_output_block_reports(t.outputs[i], inner);
    }
    lemma_each_reports_failures(t.outputs, go, fo);
    assert forall|i: int| 0 <= i < t.adhoc.len() implies (#[trigger] ga(t.adhoc[i]) matches Some((y, e))
        ==> all_reported(fa(t.adhoc[i]), e)) by {
        lemma_chain_specific_block_reports(t.adhoc[i], inner);
    }
    lemma_each_reports_failures(t.adhoc, ga, fa);
    let fm = match t.mint {
        Some(m) => mint_block_failures(m, inner),
        None => Set::empty(),
    };
    if let Some(m) = t.mint {
        lemma_mint_block_reports(m, inner);
    }
    if let Some((y, errs)) = analyze_tx_def(t, scope) {
        let (_, e1) = analyze_each(t.inputs, gi).unwrap();
        let (_, e2) = analyze_each(t.outputs, go).unwrap();
        let (_, e3) = analyze_optional_mint(t.mint, inner).unwrap();
        let (_, e4) = analyze_each(t.adhoc, ga).unwrap();
        assert(all_reported(fm, e3)) by {
            if t.mint is None {
                assert forall|x: SpecError| fm.contains(x) implies #[trigger] e3.contains(x) by {}
            }
        }
        let d = duplicate_definitions(crate::semantics::tx_names(t));
        assert forall|x: SpecError| Set::<SpecError>::empty().contains(x) implies #[trigger] d.contains(x) by {}
        lemma_reported_concat(Set::empty(), d, each_failures(t.inputs, fi), e1);
        lemma_reported_concat(
            Set::empty().union(each_failures(t.inputs, fi)),
            d + e1,
            each_failures(t.outputs, fo),
            e2,
        );
        lemma_reported_concat(
            Set::empty().union(each_failures(t.inputs, fi)).union(each_failures(t.outputs, fo)),
            d + e1 + e2,
            fm,
            e3,
        );
        lemma_reported_concat(
            Set::empty().union(each_failures(t.inputs, fi)).union(each_failures(t.outputs, fo)).union(fm),
            d + e1 + e2 + e3,
            each_failures(t.adhoc, fa),
            e4,
        );
        assert(Set::empty().union(each_failures(t.inputs, fi)) =~= each_failures(t.inputs, fi));
        assert(errs == d + e1 + e2 + e3 + e4);
    }
}

/// Every name that analysis looks up in a program, in the scope where it
/// looks it up, and that resolves to nothing there is reported as not in
/// scope, with its name and its span.
pub proof fn law_every_unresolved_name_is_reported(p: SpecProgram, scope: Option<SpecScope>)
    ensures
        analyze_program(p, scope) matches Some((q, errs)) ==> all_reported(program_failures(p, scope), errs),
{
    let inner = Some(program_scope(p, scope));
    let gp = |d: SpecPolicyDef| analyze_policy_def(d, inner);
    let fp = |d: SpecPolicyDef| policy_def_failures(d, inner);
    let gt = |d: SpecTypeDef| analyze_type_def(d, inner);
    let ft = |d: SpecTypeDef| type_def_failures(d, inner);
    let gx = |t: SpecTxDef| analyze_tx_def(t, inner);
    let fx = |t: SpecTxDef| tx_def_failures(t, inner);
    assert forall|i: int| 0 <= i < p.policies.len() implies (#[trigger] gp(p.policies[i]) matches Some((y, e))
        ==> all_reported(fp(p.policies[i]), e)) by {
        lemma_policy_def_reports(p.policies[i], inner);
    }
    lemma_each_reports_failures(p.policies, gp, fp);
    assert forall|i: int| 0 <= i < p.types.len() implies (#[trigger] gt(p.types[i]) matches Some((y, e))
        ==> all_reported(ft(p.types[i]), e)) by {
        lemma_type_def_reports(p.types[i], inner);
    }
    lemma_each_reports_failures(p.types, gt, ft);
    assert forall|i: int| 0 <= i < p.txs.len() implies (#[trigger] gx(p.txs[i]) matches Some((y, e))
        ==> all_reported(fx(p.txs[i]), e)) by {
        lemma_tx_def_reports(p.txs[i], inner);
    }
    lemma_each_reports_failures(p.txs, gx, fx);
    if let Some((q, errs)) = analyze_program(p, scope) {
        let (_, e1) = analyze_each(p.policies, gp).unwrap();
        let (_, e2) = analyze_each(p.types, gt).unwrap();
        let (_, e3) = analyze_each(p.txs, gx).unwrap();
        let d = duplicate_definitions(program_names(p));
        assert forall|x: SpecError| Set::<SpecError>::empty().contains(x) implies #[trigger] d.contains(x) by {}
        lemma_reported_concat(Set::empty(), d, each_failures(p.policies, fp), e1);
        lemma_reported_concat(
            Set::empty().union(each_failures(p.policies, fp)),
            d + e1,
            each_failures(p.types, ft),
            e2,
        );
        lemma_reported_concat(
            Set::empty().union(each_failures(p.policies, fp)).union(each_failures(p.types, ft)),
            d + e1 + e2,
            each_failures(p.txs, fx),
            e3,
        );
        assert(Set::empty().union(each_failures(p.policies, fp)) =~= each_failures(p.policies, fp));
        assert(errs == d + e1 + e2 + e3);
    }
}

} // verus!
