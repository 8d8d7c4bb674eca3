//! Analysing an analysed program again reports the same errors: analysis
//! reads of a symbol only its kind and, for a type or a case, the names it
//! declares, and those are what analysis keeps.

use vstd::prelude::*;

use crate::laws::{
    law_program_analysis_keeps_the_program, lemma_tx_def_keeps, stripped_input_block,
    stripped_policy_def, stripped_program, stripped_record_field, stripped_tx_def,
    stripped_type_def, stripped_variant_case,
};
use crate::model::{
    SpecAddressExpr, SpecAssetExpr, SpecCardanoBlock, SpecChainSpecificBlock, SpecDataExpr,
    SpecDatumConstructor, SpecIdentifier, SpecInputBlock, SpecInputBlockField, SpecMintBlock,
    SpecMintBlockField, SpecOutputBlock, SpecOutputBlockField, SpecParamDef, SpecPartyDef,
    SpecPolicyDef, SpecPolicyField, SpecPolicyValue, SpecProgram, SpecPropertyAccess,
    SpecRecordConstructorField, SpecRecordField, SpecScope, SpecSymbol, SpecTxDef, SpecType,
    SpecTypeDef, SpecVariantCase, SpecVariantCaseConstructor, SpecAssetDef,
};
use crate::scope::{child_scope, resolve_in};
use crate::semantics::{
    ada, analyze_address_expr, analyze_asset_binary_op, analyze_asset_constructor,
    analyze_asset_expr, analyze_chain_specific_block, analyze_data_binary_op, analyze_data_expr,
    analyze_datum_constructor, analyze_each, analyze_identifier, analyze_input_block,
    analyze_input_block_field, analyze_mint_block, analyze_mint_block_field,
    analyze_optional_mint, analyze_output_block, analyze_output_block_field, analyze_policy_def,
    analyze_policy_field, analyze_program, analyze_property_access,
    analyze_record_constructor_field, analyze_record_constructor_fields, analyze_record_field,
    analyze_tx_def, analyze_type, analyze_type_def, analyze_variant_case,
    analyze_variant_case_constructor, bind_each, cases_scope, fields_scope, input_names,
    program_names, program_scope, tx_names, tx_scope, Analysis,
};

verus! {

// ---------------------------------------------------------------------------
// What analysis reads of a symbol and of a scope

/// A symbol with what analysis does not read of it taken out: the symbols
/// and scopes inside the definition it stands for.
pub open spec fn symbol_shape(s: SpecSymbol) -> SpecSymbol {
    match s {
        SpecSymbol::TypeDef(d) => SpecSymbol::TypeDef(Box::new(stripped_type_def(*d))),
        SpecSymbol::VariantCase(c) => SpecSymbol::VariantCase(Box::new(stripped_variant_case(*c))),
        SpecSymbol::RecordField(f) => SpecSymbol::RecordField(Box::new(stripped_record_field(*f))),
        SpecSymbol::PolicyDef(p) => SpecSymbol::PolicyDef(Box::new(stripped_policy_def(*p))),
        _ => s,
    }
}

pub open spec fn same_symbol(a: Option<SpecSymbol>, b: Option<SpecSymbol>) -> bool {
    match (a, b) {
        (None, None) => true,
        (Some(x), Some(y)) => symbol_shape(x) == symbol_shape(y),
        _ => false,
    }
}

/// Two scopes that bind the same names, to symbols of the same shape, and
/// are nested in scopes that do the same.
pub open spec fn same_scope(a: SpecScope, b: SpecScope) -> bool
    decreases a,
{
    &&& a.symbols.dom() == b.symbols.dom()
    &&& forall|n: Seq<char>|
        #[trigger] a.symbols.contains_key(n) ==> symbol_shape(a.symbols[n]) == symbol_shape(b.symbols[n])
    &&& match (a.parent, b.parent) {
        (None, None) => true,
        (Some(p), Some(q)) => same_scope(*p, *q),
        _ => false,
    }
}

pub open spec fn same_opt_scope(a: Option<SpecScope>, b: Option<SpecScope>) -> bool {
    match (a, b) {
        (None, None) => true,
        (Some(x), Some(y)) => same_scope(x, y),
        _ => false,
    }
}

pub proof fn lemma_same_scope_refl(a: SpecScope)
    ensures
        same_scope(a, a),
    decreases a,
{
    if let Some(p) = a.parent {
        lemma_same_scope_refl(*p);
    }
}

pub proof fn lemma_same_scope_resolve(a: SpecScope, b: SpecScope, n: Seq<char>)
    requires
        same_scope(a, b),
    ensures
        same_symbol(a.resolve(n), b.resolve(n)),
    decreases a,
{
    if a.symbols.contains_key(n) {
        assert(b.symbols.contains_key(n));
    } else {
        assert(!b.symbols.contains_key(n));
        if let (Some(p), Some(q)) = (a.parent, b.parent) {
            lemma_same_scope_resolve(*p, *q, n);
        }
    }
}

pub proof fn lemma_same_resolve_in(a: Option<SpecScope>, b: Option<SpecScope>, n: Seq<char>)
    requires
        same_opt_scope(a, b),
    ensures
        same_symbol(resolve_in(a, n), resolve_in(b, n)),
{
    if let (Some(x), Some(y)) = (a, b) {
        lemma_same_scope_resolve(x, y, n);
    }
}

pub proof fn lemma_same_child(a: Option<SpecScope>, b: Option<SpecScope>)
    requires
        same_opt_scope(a, b),
    ensures
        same_scope(child_scope(a), child_scope(b)),
{
    assert(child_scope(a).symbols.dom() =~= child_scope(b).symbols.dom());
}

pub proof fn lemma_same_bind(a: SpecScope, b: SpecScope, n: Seq<char>, x: SpecSymbol, y: SpecSymbol)
    requires
        same_scope(a, b),
        symbol_shape(x) == symbol_shape(y),
    ensures
        same_scope(a.bind(n, x), b.bind(n, y)),
{
    assert(a.bind(n, x).symbols.dom() =~= b.bind(n, y).symbols.dom());
    assert(a.bind(n, x).parent == a.parent);
}

pub proof fn lemma_same_bind_each<A, B>(
    a: SpecScope,
    b: SpecScope,
    s: Seq<A>,
    t: Seq<B>,
    na: spec_fn(A) -> Seq<char>,
    ya: spec_fn(A) -> SpecSymbol,
    nb: spec_fn(B) -> Seq<char>,
    yb: spec_fn(B) -> SpecSymbol,
)
    requires
        same_scope(a, b),
        s.len() == t.len(),
        forall|i: int|
            0 <= i < s.len() ==> na(#[trigger] s[i]) == nb(t[i]) && symbol_shape(ya(s[i])) == symbol_shape(
                yb(t[i]),
            ),
    ensures
        same_scope(bind_each(a, s, na, ya), bind_each(b, t, nb, yb)),
    decreases s.len(),
{
    if s.len() > 0 {
        assert forall|i: int| 0 <= i < s.drop_last().len() implies na(#[trigger] s.drop_last()[i]) == nb(
            t.drop_last()[i],
        ) && symbol_shape(ya(s.drop_last()[i])) == symbol_shape(yb(t.drop_last()[i])) by {
            assert(s.drop_last()[i] == s[i]);
            assert(t.drop_last()[i] == t[i]);
        }
        lemma_same_bind_each(a, b, s.drop_last(), t.drop_last(), na, ya, nb, yb);
        assert(na(s[s.len() - 1]) == nb(t[t.len() - 1]));
        lemma_same_bind(
            bind_each(a, s.drop_last(), na, ya),
            bind_each(b, t.drop_last(), nb, yb),
            na(s.last()),
            ya(s.last()),
            yb(t.last()),
        );
    }
}

pub proof fn lemma_same_cases_scope(d1: SpecTypeDef, d2: SpecTypeDef, s1: Option<SpecScope>, s2: Option<SpecScope>)
    requires
        stripped_type_def(d1) == stripped_type_def(d2),
        same_opt_scope(s1, s2),
    ensures
        same_scope(cases_scope(d1, s1), cases_scope(d2, s2)),
{
    lemma_same_child(s1, s2);
    assert(stripped_type_def(d1).cases.len() == d1.cases.len());
    assert(stripped_type_def(d2).cases.len() == d2.cases.len());
    assert forall|i: int| 0 <= i < d1.cases.len() implies (#[trigger] d1.cases[i]).name == d2.cases[i].name
        && symbol_shape(SpecSymbol::VariantCase(Box::new(d1.cases[i]))) == symbol_shape(
        SpecSymbol::VariantCase(Box::new(d2.cases[i])),
    ) by {
        assert(stripped_type_def(d1).cases[i] == stripped_variant_case(d1.cases[i]));
        assert(stripped_type_def(d2).cases[i] == stripped_variant_case(d2.cases[i]));
    }
    lemma_same_bind_each(
        child_scope(s1),
        child_scope(s2),
        d1.cases,
        d2.cases,
        |c: SpecVariantCase| c.name,
        |c: SpecVariantCase| SpecSymbol::VariantCase(Box::new(c)),
        |c: SpecVariantCase| c.name,
        |c: SpecVariantCase| SpecSymbol::VariantCase(Box::new(c)),
    );
}

pub proof fn lemma_same_fields_scope(c1: SpecVariantCase, c2: SpecVariantCase, s1: Option<SpecScope>, s2: Option<SpecScope>)
    requires
        stripped_variant_case(c1) == stripped_variant_case(c2),
        same_opt_scope(s1, s2),
    ensures
        same_scope(fields_scope(c1, s1), fields_scope(c2, s2)),
{
    lemma_same_child(s1, s2);
    assert(stripped_variant_case(c1).fields.len() == c1.fields.len());
    assert(stripped_variant_case(c2).fields.len() == c2.fields.len());
    assert forall|i: int| 0 <= i < c1.fields.len() implies (#[trigger] c1.fields[i]).name == c2.fields[i].name
        && symbol_shape(SpecSymbol::RecordField(Box::new(c1.fields[i]))) == symbol_shape(
        SpecSymbol::RecordField(Box::new(c2.fields[i])),
    ) by {
        assert(stripped_variant_case(c1).fields[i] == stripped_record_field(c1.fields[i]));
        assert(stripped_variant_case(c2).fields[i] == stripped_record_field(c2.fields[i]));
    }
    lemma_same_bind_each(
        child_scope(s1),
        child_scope(s2),
        c1.fields,
        c2.fields,
        |f: SpecRecordField| f.name,
        |f: SpecRecordField| SpecSymbol::RecordField(Box::new(f)),
        |f: SpecRecordField| f.name,
        |f: SpecRecordField| SpecSymbol::RecordField(Box::new(f)),
    );
}

// ---------------------------------------------------------------------------
// Each node, analysed again in a scope of the same shape

/// Analysis of each element, done again on its result, reports the same;
/// so does that of the sequence.
pub proof fn lemma_each_again<T>(s: Seq<T>, f1: spec_fn(T) -> Analysis<T>, f2: spec_fn(T) -> Analysis<T>)
    requires
        forall|i: int|
            0 <= i < s.len() ==> (#[trigger] f1(s[i]) matches Some((y, e)) ==> f2(y) matches Some((z, e2))
                && e2 == e),
    ensures
        analyze_each(s, f1) matches Some((ys, e)) ==> analyze_each(ys, f2) matches Some((zs, e2)) && e2 == e,
    decreases s.len(),
{
    if s.len() > 0 {
        assert forall|i: int| 0 <= i < s.drop_last().len() implies (#[trigger] f1(s.drop_last()[i]) matches Some((y, e))
            ==> f2(y) matches Some((z, e2)) && e2 == e) by {
            assert(s.drop_last()[i] == s[i]);
        }
        lemma_each_again(s.drop_last(), f1, f2);
        assert(f1(s[s.len() - 1]) matches Some((y, e)) ==> f2(y) matches Some((z, e2)) && e2 == e);
        if let Some((ys, e)) = analyze_each(s, f1) {
            let (xs, _) = analyze_each(s.drop_last(), f1).unwrap();
            let (x, _) = f1(s.last()).unwrap();
            assert(ys == xs.push(x));
            assert(ys.drop_last() =~= xs);
        }
    }
}

pub proof fn lemma_identifier_again(i: SpecIdentifier, s1: Option<SpecScope>, s2: Option<SpecScope>)
    requires
        same_opt_scope(s1, s2),
    ensures
        ({
            let (i1, e1) = analyze_identifier(i, s1).unwrap();
            let (i2, e2) = analyze_identifier(i1, s2).unwrap();
            &&& e2 == e1
            &&& same_symbol(i1.symbol, i2.symbol)
            &&& i1.value == i.value && i1.span == i.span
        }),
{
    lemma_same_resolve_in(s1, s2, i.value);
}

pub proof fn lemma_data_expr_again(e: SpecDataExpr, s1: Option<SpecScope>, s2: Option<SpecScope>)
    requires
        same_opt_scope(s1, s2),
    ensures
        analyze_data_expr(e, s1) matches Some((y, errs)) ==> analyze_data_expr(y, s2) matches Some((z, errs2))
            && errs2 == errs,
    decreases e,
{
    match e {
        SpecDataExpr::Constructor(c) => lemma_datum_constructor_again(c, s1, s2),
        SpecDataExpr::Identifier(i) => lemma_identifier_again(i, s1, s2),
        SpecDataExpr::PropertyAccess(p) => lemma_property_access_again(p, s1, s2),
        SpecDataExpr::BinaryOp(b) => {
            lemma_data_expr_again(*b.left, s1, s2);
            lemma_data_expr_again(*b.right, s1, s2);
        },
        _ => {},
    }
}

pub proof fn lemma_datum_constructor_again(c: SpecDatumConstructor, s1: Option<SpecScope>, s2: Option<SpecScope>)
    requires
        same_opt_scope(s1, s2),
    ensures
        analyze_datum_constructor(c, s1) matches Some((y, errs)) ==> analyze_datum_constructor(y, s2) matches Some(
            (z, errs2),
        ) && errs2 == errs,
    decreases c,
{
    lemma_identifier_again(c.ty, s1, s2);
    let (ty1, _) = analyze_identifier(c.ty, s1).unwrap();
    let (ty2, _) = analyze_identifier(ty1, s2).unwrap();
    if let Some(SpecSymbol::TypeDef(d1)) = ty1.symbol {
        if let Some(SpecSymbol::TypeDef(d2)) = ty2.symbol {
            lemma_same_cases_scope(*d1, *d2, s1, s2);
            lemma_variant_case_constructor_again(
                c.case,
                Some(cases_scope(*d1, s1)),
                Some(cases_scope(*d2, s2)),
            );
        }
    }
}

pub proof fn lemma_variant_case_constructor_again(
    c: SpecVariantCaseConstructor,
    s1: Option<SpecScope>,
    s2: Option<SpecScope>,
)
    requires
        same_opt_scope(s1, s2),
    ensures
        analyze_variant_case_constructor(c, s1) matches Some((y, errs)) ==> analyze_variant_case_constructor(
            y,
            s2,
        ) matches Some((z, errs2)) && errs2 == errs,
    decreases c,
{
    lemma_identifier_again(c.name, s1, s2);
    let (n1, _) = analyze_identifier(c.name, s1).unwrap();
    let (n2, _) = analyze_identifier(n1, s2).unwrap();
    if let Some(SpecSymbol::VariantCase(k1)) = n1.symbol {
        if let Some(SpecSymbol::VariantCase(k2)) = n2.symbol {
            lemma_same_fields_scope(*k1, *k2, s1, s2);
            lemma_record_constructor_fields_again(
                c.fields,
                Some(fields_scope(*k1, s1)),
                Some(fields_scope(*k2, s2)),
            );
        }
    }
}

pub proof fn lemma_record_constructor_fields_again(
    s: Seq<SpecRecordConstructorField>,
    s1: Option<SpecScope>,
    s2: Option<SpecScope>,
)
    requires
        same_opt_scope(s1, s2),
    ensures
        analyze_record_constructor_fields(s, s1) matches Some((ys, errs)) ==> analyze_record_constructor_fields(
            ys,
            s2,
        ) matches Some((zs, errs2)) && errs2 == errs,
    decreases s,
{
    if s.len() > 0 {
        lemma_record_constructor_fields_again(s.drop_last(), s1, s2);
        lemma_record_constructor_field_again(s.last(), s1, s2);
        if let Some((ys, errs)) = analyze_record_constructor_fields(s, s1) {
            let (xs, _) = analyze_record_constructor_fields(s.drop_last(), s1).unwrap();
            let (x, _) = analyze_record_constructor_field(s.last(), s1).unwrap();
            assert(ys == xs.push(x));
            assert(ys.drop_last() =~= xs);
        }
    }
}

pub proof fn lemma_record_constructor_field_again(
    f: SpecRecordConstructorField,
    s1: Option<SpecScope>,
    s2: Option<SpecScope>,
)
    requires
        same_opt_scope(s1, s2),
    ensures
        analyze_record_constructor_field(f, s1) matches Some((y, errs)) ==> analyze_record_constructor_field(
            y,
            s2,
        ) matches Some((z, errs2)) && errs2 == errs,
    decreases f,
{
    lemma_identifier_again(f.name, s1, s2);
    lemma_data_expr_again(*f.value, s1, s2);
}

pub proof fn lemma_property_access_again(p: SpecPropertyAccess, s1: Option<SpecScope>, s2: Option<SpecScope>)
    requires
        same_opt_scope(s1, s2),
    ensures
        analyze_property_access(p, s1) matches Some((y, errs)) ==> analyze_property_access(y, s2) matches Some(
            (z, errs2),
        ) && errs2 == errs,
{
    lemma_identifier_again(p.object, s1, s2);
    lemma_same_child(s1, s2);
    let inner1 = Some(child_scope(s1));
    let inner2 = Some(child_scope(s2));
    let f1 = |i: SpecIdentifier| analyze_identifier(i, inner1);
    let f2 = |i: SpecIdentifier| analyze_identifier(i, inner2);
    assert forall|i: int| 0 <= i < p.path.len() implies (#[trigger] f1(p.path[i]) matches Some((y, e))
        ==> f2(y) matches Some((z, e2)) && e2 == e) by {
        lemma_identifier_again(p.path[i], inner1, inner2);
    }
    lemma_each_again(p.path, f1, f2);
}

pub proof fn lemma_asset_expr_again(e: SpecAssetExpr, s1: Option<SpecScope>, s2: Option<SpecScope>)
    requires
        same_opt_scope(s1, s2),
    ensures
        analyze_asset_expr(e, s1) matches Some((y, errs)) ==> analyze_asset_expr(y, s2) matches Some((z, errs2))
            && errs2 == errs,
    decreases e,
{
    match e {
        SpecAssetExpr::Identifier(i) => lemma_identifier_again(i, s1, s2),
        SpecAssetExpr::Constructor(c) => {
            lemma_data_expr_again(c.amount, s1, s2);
            lemma_identifier_again(c.ty, s1, s2);
        },
        SpecAssetExpr::BinaryOp(b) => {
            lemma_asset_expr_again(*b.left, s1, s2);
            lemma_asset_expr_again(*b.right, s1, s2);
        },
        SpecAssetExpr::PropertyAccess(p) => lemma_property_access_again(p, s1, s2),
    }
}

pub proof fn lemma_input_block_again(b: SpecInputBlock, s1: Option<SpecScope>, s2: Option<SpecScope>)
    requires
        same_opt_scope(s1, s2),
    ensures
        analyze_input_block(b, s1) matches Some((y, errs)) ==> analyze_input_block(y, s2) matches Some((z, errs2))
            && errs2 == errs,
{
    let f1 = |x: SpecInputBlockField| analyze_input_block_field(x, s1);
    let f2 = |x: SpecInputBlockField| analyze_input_block_field(x, s2);
    assert forall|i: int| 0 <= i < b.fields.len() implies (#[trigger] f1(b.fields[i]) matches Some((y, e))
        ==> f2(y) matches Some((z, e2)) && e2 == e) by {
        match b.fields[i] {
            SpecInputBlockField::From(x) => {
                if let SpecAddressExpr::Identifier(j) = x {
                    lemma_identifier_again(j, s1, s2);
                }
            },
            SpecInputBlockField::DatumIs(x) => {
                if let SpecType::Custom(j) = x {
                    lemma_identifier_again(j, s1, s2);
                }
            },
            SpecInputBlockField::MinAmount(x) => lemma_asset_expr_again(x, s1, s2),
            SpecInputBlockField::Redeemer(x) => lemma_data_expr_again(x, s1, s2),
            SpecInputBlockField::Ref(x) => lemma_data_expr_again(x, s1, s2),
        }
    }
    lemma_each_again(b.fields, f1, f2);
}

pub proof fn lemma_output_block_again(b: SpecOutputBlock, s1: Option<SpecScope>, s2: Option<SpecScope>)
    requires
        same_opt_scope(s1, s2),
    ensures
        analyze_output_block(b, s1) matches Some((y, errs)) ==> analyze_output_block(y, s2) matches Some((z, errs2))
            && errs2 == errs,
{
    let f1 = |x: SpecOutputBlockField| analyze_output_block_field(x, s1);
    let f2 = |x: SpecOutputBlockField| analyze_output_block_field(x, s2);
    assert forall|i: int| 0 <= i < b.fields.len() implies (#[trigger] f1(b.fields[i]) matches Some((y, e))
        ==> f2(y) matches Some((z, e2)) && e2 == e) by {
        match b.fields[i] {
            SpecOutputBlockField::To(x) => {
                if let SpecAddressExpr::Identifier(j) = x {
                    lemma_identifier_again(j, s1, s2);
                }
            },
            SpecOutputBlockField::Amount(x) => lemma_asset_expr_again(x, s1, s2),
            SpecOutputBlockField::Datum(x) => lemma_data_expr_again(x, s1, s2),
        }
    }
    lemma_each_again(b.fields, f1, f2);
}

pub proof fn lemma_mint_block_again(b: SpecMintBlock, s1: Option<SpecScope>, s2: Option<SpecScope>)
    requires
        same_opt_scope(s1, s2),
    ensures
        analyze_mint_block(b, s1) matches Some((y, errs)) ==> analyze_mint_block(y, s2) matches Some((z, errs2))
            && errs2 == errs,
{
    let f1 = |x: SpecMintBlockField| analyze_mint_block_field(x, s1);
    let f2 = |x: SpecMintBlockField| analyze_mint_block_field(x, s2);
    assert forall|i: int| 0 <= i < b.fields.len() implies (#[trigger] f1(b.fields[i]) matches Some((y, e))
        ==> f2(y) matches Some((z, e2)) && e2 == e) by {
        match b.fields[i] {
            SpecMintBlockField::Amount(x) => lemma_asset_expr_again(x, s1, s2),
            SpecMintBlockField::Redeemer(x) => lemma_data_expr_again(x, s1, s2),
        }
    }
    lemma_each_again(b.fields, f1, f2);
}

pub proof fn lemma_chain_specific_block_again(b: SpecChainSpecificBlock, s1: Option<SpecScope>, s2: Option<SpecScope>)
    requires
        same_opt_scope(s1, s2),
    ensures
        analyze_chain_specific_block(b, s1) matches Some((y, errs)) ==> analyze_chain_specific_block(y, s2) matches Some(
            (z, errs2),
        ) && errs2 == errs,
{
    match b {
        SpecChainSpecificBlock::Cardano(SpecCardanoBlock::VoteDelegationCertificate(c)) => {
            lemma_data_expr_again(c.drep, s1, s2);
            lemma_data_expr_again(c.stake, s1, s2);
        },
    }
}

pub proof fn lemma_type_def_again(t: SpecTypeDef, s1: Option<SpecScope>, s2: Option<SpecScope>)
    requires
        same_opt_scope(s1, s2),
    ensures
        analyze_type_def(t, s1) matches Some((y, errs)) ==> analyze_type_def(y, s2) matches Some((z, errs2))
            && errs2 == errs,
{
    let f1 = |c: SpecVariantCase| analyze_variant_case(c, s1);
    let f2 = |c: SpecVariantCase| analyze_variant_case(c, s2);
    assert forall|i: int| 0 <= i < t.cases.len() implies (#[trigger] f1(t.cases[i]) matches Some((y, e))
        ==> f2(y) matches Some((z, e2)) && e2 == e) by {
        let c = t.cases[i];
        let g1 = |x: SpecRecordField| analyze_record_field(x, s1);
        let g2 = |x: SpecRecordField| analyze_record_field(x, s2);
        assert forall|j: int| 0 <= j < c.fields.len() implies (#[trigger] g1(c.fields[j]) matches Some((y, e))
            ==> g2(y) matches Some((z, e2)) && e2 == e) by {
            if let SpecType::Custom(k) = c.fields[j].ty {
                lemma_identifier_again(k, s1, s2);
            }
        }
        lemma_each_again(c.fields, g1, g2);
    }
    lemma_each_again(t.cases, f1, f2);
}

pub proof fn lemma_policy_def_again(p: SpecPolicyDef, s1: Option<SpecScope>, s2: Option<SpecScope>)
    requires
        same_opt_scope(s1, s2),
    ensures
        analyze_policy_def(p, s1) matches Some((y, errs)) ==> analyze_policy_def(y, s2) matches Some((z, errs2))
            && errs2 == errs,
{
    if let SpecPolicyValue::Constructor(c) = p.value {
        let f1 = |x: SpecPolicyField| analyze_policy_field(x, s1);
        let f2 = |x: SpecPolicyField| analyze_policy_field(x, s2);
        assert forall|i: int| 0 <= i < c.fields.len() implies (#[trigger] f1(c.fields[i]) matches Some((y, e))
            ==> f2(y) matches Some((z, e2)) && e2 == e) by {
            match c.fields[i] {
                SpecPolicyField::Hash(x) => lemma_data_expr_again(x, s1, s2),
                SpecPolicyField::Script(x) => lemma_data_expr_again(x, s1, s2),
                SpecPolicyField::Ref(x) => lemma_data_expr_again(x, s1, s2),
            }
        }
        lemma_each_again(c.fields, f1, f2);
    }
}

pub proof fn lemma_tx_def_again(t: SpecTxDef, s1: Option<SpecScope>, s2: Option<SpecScope>)
    requires
        same_opt_scope(s1, s2),
    ensures
        analyze_tx_def(t, s1) matches Some((y, errs)) ==> analyze_tx_def(y, s2) matches Some((z, errs2))
            && errs2 == errs,
{
    lemma_tx_def_keeps(t, s1);
    if let Some((t1, errs)) = analyze_tx_def(t, s1) {
        let inner1 = Some(tx_scope(t, s1));
        let inner2 = Some(tx_scope(t1, s2));
        assert(t1.parameters == t.parameters) by {
            assert(stripped_tx_def(t1).parameters == stripped_tx_def(t).parameters);
        }
        assert(t1.inputs.len() == t.inputs.len()) by {
            assert(stripped_tx_def(t1).inputs.len() == stripped_tx_def(t).inputs.len());
        }
        assert forall|i: int| 0 <= i < t.inputs.len() implies (#[trigger] t.inputs[i]).name == t1.inputs[i].name by {
            assert(stripped_tx_def(t1).inputs[i] == stripped_tx_def(t).inputs[i]);
            assert(stripped_tx_def(t1).inputs[i] == stripped_input_block(t1.inputs[i]));
            assert(stripped_tx_def(t).inputs[i] == stripped_input_block(t.inputs[i]));
        }
        assert(input_names(t1.inputs) =~= input_names(t.inputs));
        assert(tx_names(t1) == tx_names(t));
        // the two scopes bind the same names to symbols of the same shape
        lemma_same_child(s1, s2);
        let f1 = child_scope(s1).bind("fees"@, SpecSymbol::Fees);
        let f2 = child_scope(s2).bind("fees"@, SpecSymbol::Fees);
        lemma_same_bind(child_scope(s1), child_scope(s2), "fees"@, SpecSymbol::Fees, SpecSymbol::Fees);
        let params = t.parameters.parameters;
        lemma_same_bind_each(
            f1,
            f2,
            params,
            params,
            |p: SpecParamDef| p.name,
            |p: SpecParamDef| SpecSymbol::ParamVar(p.name, Box::new(p.ty)),
            |p: SpecParamDef| p.name,
            |p: SpecParamDef| SpecSymbol::ParamVar(p.name, Box::new(p.ty)),
        );
        let w1 = bind_each(
            f1,
            params,
            |p: SpecParamDef| p.name,
            |p: SpecParamDef| SpecSymbol::ParamVar(p.name, Box::new(p.ty)),
        );
        let w2 = bind_each(
            f2,
            params,
            |p: SpecParamDef| p.name,
            |p: SpecParamDef| SpecSymbol::ParamVar(p.name, Box::new(p.ty)),
        );
        lemma_same_bind_each(
            w1,
            w2,
            t.inputs,
            t1.inputs,
            |i: SpecInputBlock| i.name,
            |i: SpecInputBlock| SpecSymbol::Input(i.name),
            |i: SpecInputBlock| i.name,
            |i: SpecInputBlock| SpecSymbol::Input(i.name),
        );
        assert(same_opt_scope(inner1, inner2));
        let gi1 = |b: SpecInputBlock| analyze_input_block(b, inner1);
        let gi2 = |b: SpecInputBlock| analyze_input_block(b, inner2);
        assert forall|i: int| 0 <= i < t.inputs.len() implies (#[trigger] gi1(t.inputs[i]) matches Some((y, e))
            ==> gi2(y) matches Some((z, e2)) && e2 == e) by {
            lemma_input_block_again(t.inputs[i], inner1, inner2);
        }
        lemma_each_again(t.inputs, gi1, gi2);
        let go1 = |b: SpecOutputBlock| analyze_output_block(b, inner1);
        let go2 = |b: SpecOutputBlock| analyze_output_block(b, inner2);
        assert forall|i: int| 0 <= i < t.outputs.len() implies (#[trigger] go1(t.outputs[i]) matches Some((y, e))
            ==> go2(y) matches Some((z, e2)) && e2 == e) by {
            lemma_output_block_again(t.outputs[i], inner1, inner2);
        }
        lemma_each_again(t.outputs, go1, go2);
        let ga1 = |b: SpecChainSpecificBlock| analyze_chain_specific_block(b, inner1);
        let ga2 = |b: SpecChainSpecificBlock| analyze_chain_specific_block(b, inner2);
        assert forall|i: int| 0 <= i < t.adhoc.len() implies (#[trigger] ga1(t.adhoc[i]) matches Some((y, e))
            ==> ga2(y) matches Some((z, e2)) && e2 == e) by {
            lemma_chain_specific_block_again(t.adhoc[i], inner1, inner2);
        }
        lemma_each_again(t.adhoc, ga1, ga2);
        if let Some(m) = t.mint {
            lemma_mint_block_again(m, inner1, inner2);
        }
    }
}

/// Programs that agree but for what analysis fills in have scopes of the
/// same shape.
pub proof fn lemma_same_program_scope(p: SpecProgram, q: SpecProgram, scope: Option<SpecScope>)
    requires
        q.parties == p.parties,
        q.assets == p.assets,
        q.policies.len() == p.policies.len(),
        q.types.len() == p.types.len(),
        forall|i: int| 0 <= i < p.policies.len() ==> stripped_policy_def(#[trigger] q.policies[i])
            == stripped_policy_def(p.policies[i]),
        forall|i: int| 0 <= i < p.types.len() ==> stripped_type_def(#[trigger] q.types[i])
            == stripped_type_def(p.types[i]),
    ensures
        same_scope(program_scope(p, scope), program_scope(q, scope)),
{
    // the program's scope is of the same shape the second time
    match scope {
        Some(s) => lemma_same_scope_refl(s),
        None => {},
    }
    lemma_same_child(scope, scope);
    let c = child_scope(scope);
    lemma_same_scope_refl(c);
    lemma_same_bind_each(
        c,
        c,
        p.parties,
        q.parties,
        |d: SpecPartyDef| d.name,
        |d: SpecPartyDef| SpecSymbol::PartyDef(Box::new(d)),
        |d: SpecPartyDef| d.name,
        |d: SpecPartyDef| SpecSymbol::PartyDef(Box::new(d)),
    );
    let a1 = bind_each(
        c,
        p.parties,
        |d: SpecPartyDef| d.name,
        |d: SpecPartyDef| SpecSymbol::PartyDef(Box::new(d)),
    );
    lemma_same_bind_each(
        a1,
        a1,
        p.policies,
        q.policies,
        |d: SpecPolicyDef| d.name,
        |d: SpecPolicyDef| SpecSymbol::PolicyDef(Box::new(d)),
        |d: SpecPolicyDef| d.name,
        |d: SpecPolicyDef| SpecSymbol::PolicyDef(Box::new(d)),
    );
    let b1 = bind_each(
        a1,
        p.policies,
        |d: SpecPolicyDef| d.name,
        |d: SpecPolicyDef| SpecSymbol::PolicyDef(Box::new(d)),
    );
    let b2 = bind_each(
        a1,
        q.policies,
        |d: SpecPolicyDef| d.name,
        |d: SpecPolicyDef| SpecSymbol::PolicyDef(Box::new(d)),
    );
    let ada_symbol = SpecSymbol::AssetDef(Box::new(ada()));
    lemma_same_bind(b1, b2, ada().name, ada_symbol, ada_symbol);
    let c1 = b1.bind(ada().name, ada_symbol);
    let c2 = b2.bind(ada().name, ada_symbol);
    lemma_same_bind_each(
        c1,
        c2,
        p.assets,
        p.assets,
        |d: SpecAssetDef| d.name,
        |d: SpecAssetDef| SpecSymbol::AssetDef(Box::new(d)),
        |d: SpecAssetDef| d.name,
        |d: SpecAssetDef| SpecSymbol::AssetDef(Box::new(d)),
    );
    let d1 = bind_each(
        c1,
        p.assets,
        |d: SpecAssetDef| d.name,
        |d: SpecAssetDef| SpecSymbol::AssetDef(Box::new(d)),
    );
    let d2 = bind_each(
        c2,
        p.assets,
        |d: SpecAssetDef| d.name,
        |d: SpecAssetDef| SpecSymbol::AssetDef(Box::new(d)),
    );
    lemma_same_bind_each(
        d1,
        d2,
        p.types,
        q.types,
        |d: SpecTypeDef| d.name,
        |d: SpecTypeDef| SpecSymbol::TypeDef(Box::new(d)),
        |d: SpecTypeDef| d.name,
        |d: SpecTypeDef| SpecSymbol::TypeDef(Box::new(d)),
    );
}

/// Analysing an analysed program again, in the same scope, reports the
/// same errors, in the same order.
pub proof fn law_analysing_again_reports_the_same(p: SpecProgram, scope: Option<SpecScope>)
    ensures
        analyze_program(p, scope) matches Some((q, errs)) ==> analyze_program(q, scope) matches Some(
            (r, errs2),
        ) && errs2 == errs,
{
    law_program_analysis_keeps_the_program(p, scope);
    if let Some((q, errs)) = analyze_program(p, scope) {
        let sp = stripped_program(p);
        let sq = stripped_program(q);
        assert(q.parties == p.parties && q.assets == p.assets);
        assert(q.policies.len() == p.policies.len()) by {
            assert(sq.policies.len() == sp.policies.len());
        }
        assert(q.types.len() == p.types.len()) by {
            assert(sq.types.len() == sp.types.len());
        }
        assert(q.txs.len() == p.txs.len()) by {
            assert(sq.txs.len() == sp.txs.len());
        }
        assert forall|i: int| 0 <= i < p.policies.len() implies stripped_policy_def(#[trigger] q.policies[i])
            == stripped_policy_def(p.policies[i]) by {
            assert(sq.policies[i] == sp.policies[i]);
        }
        assert forall|i: int| 0 <= i < p.types.len() implies stripped_type_def(#[trigger] q.types[i])
            == stripped_type_def(p.types[i]) by {
            assert(sq.types[i] == sp.types[i]);
        }
        assert forall|i: int| 0 <= i < p.txs.len() implies (#[trigger] q.txs[i]).name == p.txs[i].name by {
            assert(sq.txs[i] == sp.txs[i]);
            assert(sq.txs[i] == stripped_tx_def(q.txs[i]));
            assert(sp.txs[i] == stripped_tx_def(p.txs[i]));
        }
        assert(crate::semantics::policy_names(q.policies) =~= crate::semantics::policy_names(p.policies));
        assert(crate::semantics::type_names(q.types) =~= crate::semantics::type_names(p.types));
        assert(crate::semantics::tx_def_names(q.txs) =~= crate::semantics::tx_def_names(p.txs));
        assert(program_names(q) == program_names(p));
        lemma_same_program_scope(p, q, scope);
        let inner1 = Some(program_scope(p, scope));
        let inner2 = Some(program_scope(q, scope));
        let fp1 = |d: SpecPolicyDef| analyze_policy_def(d, inner1);
        let fp2 = |d: SpecPolicyDef| analyze_policy_def(d, inner2);
        assert forall|i: int| 0 <= i < p.policies.len() implies (#[trigger] fp1(p.policies[i]) matches Some((y, e))
            ==> fp2(y) matches Some((z, e2)) && e2 == e) by {
            lemma_policy_def_again(p.policies[i], inner1, inner2);
        }
        lemma_each_again(p.policies, fp1, fp2);
        let ft1 = |d: SpecTypeDef| analyze_type_def(d, inner1);
        let ft2 = |d: SpecTypeDef| analyze_type_def(d, inner2);
        assert forall|i: int| 0 <= i < p.types.len() implies (#[trigger] ft1(p.types[i]) matches Some((y, e))
            ==> ft2(y) matches Some((z, e2)) && e2 == e) by {
            lemma_type_def_again(p.types[i], inner1, inner2);
        }
        lemma_each_again(p.types, ft1, ft2);
        let fx1 = |t: SpecTxDef| analyze_tx_def(t, inner1);
        let fx2 = |t: SpecTxDef| analyze_tx_def(t, inner2);
        assert forall|i: int| 0 <= i < p.txs.len() implies (#[trigger] fx1(p.txs[i]) matches Some((y, e))
            ==> fx2(y) matches Some((z, e2)) && e2 == e) by {
            lemma_tx_def_again(p.txs[i], inner1, inner2);
        }
        lemma_each_again(p.txs, fx1, fx2);
    }
}

} // verus!
