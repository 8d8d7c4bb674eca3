//! What semantic analysis does, stated over the model: for each kind of
//! node, the node it leaves behind and the errors it reports, in order.

use vstd::prelude::*;

use crate::ast::Span;
use crate::model::{
    SpecAddressExpr, SpecAssetBinaryOp, SpecAssetConstructor, SpecAssetDef, SpecAssetExpr, SpecCardanoBlock, SpecChainSpecificBlock, SpecDataBinaryOp, SpecDataExpr, SpecDatumConstructor, SpecIdentifier, SpecInputBlock, SpecInputBlockField, SpecLiteral, SpecMintBlock, SpecMintBlockField, SpecOutputBlock, SpecOutputBlockField, SpecParamDef, SpecPartyDef, SpecPolicyConstructor, SpecPolicyDef, SpecPolicyField, SpecPolicyValue, SpecProgram, SpecPropertyAccess, SpecRecordConstructorField, SpecRecordField, SpecScope, SpecSymbol, SpecTxDef, SpecType, SpecTypeDef, SpecVariantCase, SpecVariantCaseConstructor, SpecVoteDelegationCertificate,
};
use crate::report::SpecError;
use crate::scope::{child_scope, resolve_in};

verus! {

/// The result of analysing a node: the node afterwards and the errors found.
/// `None` would stand for an analysis that does not complete; the laws show
/// that every analysis completes.
pub type Analysis<T> = Option<(T, Seq<SpecError>)>;

/// Analyses each element in turn, all under the same scope, and gathers the
/// errors in order.
pub open spec fn analyze_each<T>(s: Seq<T>, f: spec_fn(T) -> Analysis<T>) -> Analysis<Seq<T>>
    decreases s.len(),
{
    if s.len() == 0 {
        Some((Seq::empty(), Seq::empty()))
    } else {
        match (analyze_each(s.drop_last(), f), f(s.last())) {
            (Some((xs, e1)), Some((x, e2))) => Some((xs.push(x), e1 + e2)),
            _ => None,
        }
    }
}

/// Binds each element's name to its symbol, later elements over earlier ones.
pub open spec fn bind_each<T>(
    scope: SpecScope,
    s: Seq<T>,
    name: spec_fn(T) -> Seq<char>,
    symbol: spec_fn(T) -> SpecSymbol,
) -> SpecScope
    decreases s.len(),
{
    if s.len() == 0 {
        scope
    } else {
        bind_each(scope, s.drop_last(), name, symbol).bind(name(s.last()), symbol(s.last()))
    }
}

/// The error for a name defined again: one, where `name` is among the names
/// `before` it in the same scope; else none.
pub open spec fn redefinition(before: Seq<Seq<char>>, name: Seq<char>) -> Seq<SpecError> {
    if before.contains(name) {
        seq![SpecError::DuplicateDefinition(name)]
    } else {
        Seq::empty()
    }
}

/// The duplicate definitions among `names`, the names a scope binds in the
/// order it binds them: each name is reported at every definition after its
/// first.
pub open spec fn duplicate_definitions(names: Seq<Seq<char>>) -> Seq<SpecError>
    decreases names.len(),
{
    if names.len() == 0 {
        Seq::empty()
    } else {
        duplicate_definitions(names.drop_last()) + redefinition(names.drop_last(), names.last())
    }
}

pub proof fn lemma_duplicate_definitions_push(names: Seq<Seq<char>>, name: Seq<char>)
    ensures
        duplicate_definitions(names.push(name)) == duplicate_definitions(names) + redefinition(names, name),
{
    assert(names.push(name).drop_last() =~= names);
}

pub open spec fn not_in_scope(i: SpecIdentifier) -> SpecError {
    SpecError::NotInScope { name: i.value, src: None, span: i.span }
}

pub open spec fn invalid_symbol(expected: Seq<char>, at: Span) -> SpecError {
    SpecError::InvalidSymbol { expected, src: None, span: at }
}

/// A name takes the symbol it resolves to; one that resolves to nothing is
/// reported and keeps the symbol it had.
pub open spec fn analyze_identifier(i: SpecIdentifier, scope: Option<SpecScope>) -> Analysis<SpecIdentifier> {
    match resolve_in(scope, i.value) {
        Some(s) => Some((SpecIdentifier { value: i.value, symbol: Some(s), span: i.span }, Seq::empty())),
        None => Some((i, seq![not_in_scope(i)])),
    }
}

pub open spec fn analyze_identifiers(s: Seq<SpecIdentifier>, scope: Option<SpecScope>) -> Analysis<Seq<SpecIdentifier>> {
    analyze_each(s, |i: SpecIdentifier| analyze_identifier(i, scope))
}

pub open spec fn analyze_type(t: SpecType, scope: Option<SpecScope>) -> Analysis<SpecType> {
    match t {
        SpecType::Custom(i) => match analyze_identifier(i, scope) {
            Some((j, e)) => Some((SpecType::Custom(j), e)),
            None => None,
        },
        _ => Some((t, Seq::empty())),
    }
}

/// The scope in which the fields of a record case are named.
pub open spec fn fields_scope(case: SpecVariantCase, parent: Option<SpecScope>) -> SpecScope {
    bind_each(
        child_scope(parent),
        case.fields,
        |f: SpecRecordField| f.name,
        |f: SpecRecordField| SpecSymbol::RecordField(Box::new(f)),
    )
}

/// The scope in which the cases of a type are named.
pub open spec fn cases_scope(def: SpecTypeDef, parent: Option<SpecScope>) -> SpecScope {
    bind_each(
        child_scope(parent),
        def.cases,
        |c: SpecVariantCase| c.name,
        |c: SpecVariantCase| SpecSymbol::VariantCase(Box::new(c)),
    )
}

pub open spec fn analyze_data_expr(e: SpecDataExpr, scope: Option<SpecScope>) -> Analysis<SpecDataExpr>
    decreases e,
{
    match e {
        SpecDataExpr::Constructor(c) => match analyze_datum_constructor(c, scope) {
            Some((d, errs)) => Some((SpecDataExpr::Constructor(d), errs)),
            None => None,
        },
        SpecDataExpr::Identifier(i) => match analyze_identifier(i, scope) {
            Some((j, errs)) => Some((SpecDataExpr::Identifier(j), errs)),
            None => None,
        },
        SpecDataExpr::PropertyAccess(p) => match analyze_property_access(p, scope) {
            Some((q, errs)) => Some((SpecDataExpr::PropertyAccess(q), errs)),
            None => None,
        },
        SpecDataExpr::BinaryOp(b) => match analyze_data_binary_op(b, scope) {
            Some((c, errs)) => Some((SpecDataExpr::BinaryOp(c), errs)),
            None => None,
        },
        _ => Some((e, Seq::empty())),
    }
}

/// The type name is resolved first; a name that is no type is the one
/// error reported; else its cases are named in a new scope in which the
/// case is analysed. A type name that resolves to nothing is reported, and
/// the constructor is left as it was.
pub open spec fn analyze_datum_constructor(c: SpecDatumConstructor, scope: Option<SpecScope>) -> Analysis<SpecDatumConstructor>
    decreases c,
{
    match analyze_identifier(c.ty, scope) {
        Some((ty, ty_errs)) => match ty.symbol {
            Some(SpecSymbol::TypeDef(def)) => {
                let inner = cases_scope(*def, scope);
                match analyze_variant_case_constructor(c.case, Some(inner)) {
                    Some((case, case_errs)) => Some((
                        SpecDatumConstructor { ty, case, span: c.span, scope: Some(inner) },
                        ty_errs + case_errs,
                    )),
                    None => None,
                }
            },
            Some(_) => Some((
                SpecDatumConstructor { ty, case: c.case, span: c.span, scope: c.scope },
                seq![invalid_symbol("TypeDef"@, ty.span)],
            )),
            None => Some((SpecDatumConstructor { ty, case: c.case, span: c.span, scope: c.scope }, ty_errs)),
        },
        None => None,
    }
}

/// As for a datum constructor, with a case name whose record fields are
/// named in the new scope.
pub open spec fn analyze_variant_case_constructor(
    c: SpecVariantCaseConstructor,
    scope: Option<SpecScope>,
) -> Analysis<SpecVariantCaseConstructor>
    decreases c,
{
    match analyze_identifier(c.name, scope) {
        Some((name, name_errs)) => match name.symbol {
            Some(SpecSymbol::VariantCase(case)) => {
                let inner = fields_scope(*case, scope);
                match analyze_record_constructor_fields(c.fields, Some(inner)) {
                    Some((fields, field_errs)) => Some((
                        SpecVariantCaseConstructor { name, fields, span: c.span, scope: Some(inner) },
                        name_errs + field_errs,
                    )),
                    None => None,
                }
            },
            Some(_) => Some((
                SpecVariantCaseConstructor { name, fields: c.fields, span: c.span, scope: c.scope },
                seq![invalid_symbol("VariantCase"@, name.span)],
            )),
            None => Some((
                SpecVariantCaseConstructor { name, fields: c.fields, span: c.span, scope: c.scope },
                name_errs,
            )),
        },
        None => None,
    }
}

pub open spec fn analyze_record_constructor_fields(
    s: Seq<SpecRecordConstructorField>,
    scope: Option<SpecScope>,
) -> Analysis<Seq<SpecRecordConstructorField>>
    decreases s,
{
    if s.len() == 0 {
        Some((Seq::empty(), Seq::empty()))
    } else {
        match (
            analyze_record_constructor_fields(s.drop_last(), scope),
            analyze_record_constructor_field(s.last(), scope),
        ) {
            (Some((xs, e1)), Some((x, e2))) => Some((xs.push(x), e1 + e2)),
            _ => None,
        }
    }
}

pub open spec fn analyze_record_constructor_field(
    f: SpecRecordConstructorField,
    scope: Option<SpecScope>,
) -> Analysis<SpecRecordConstructorField>
    decreases f,
{
    match (analyze_identifier(f.name, scope), analyze_data_expr(*f.value, scope)) {
        (Some((name, e1)), Some((value, e2))) => Some((
            SpecRecordConstructorField { name, value: Box::new(value), span: f.span },
            e1 + e2,
        )),
        _ => None,
    }
}

pub open spec fn analyze_data_binary_op(b: SpecDataBinaryOp, scope: Option<SpecScope>) -> Analysis<SpecDataBinaryOp>
    decreases b,
{
    match (analyze_data_expr(*b.left, scope), analyze_data_expr(*b.right, scope)) {
        (Some((left, e1)), Some((right, e2))) => Some((
            SpecDataBinaryOp {
                left: Box::new(left),
                operator: b.operator,
                right: Box::new(right),
                span: b.span,
            },
            e1 + e2,
        )),
        _ => None,
    }
}

/// The object is resolved in the given scope, the path in a new, empty
/// scope nested in it.
pub open spec fn analyze_property_access(p: SpecPropertyAccess, scope: Option<SpecScope>) -> Analysis<SpecPropertyAccess> {
    let inner = child_scope(scope);
    match (analyze_identifier(p.object, scope), analyze_identifiers(p.path, Some(inner))) {
        (Some((object, e1)), Some((path, e2))) => Some((
            SpecPropertyAccess { object, path, span: p.span, scope: Some(inner) },
            e1 + e2,
        )),
        _ => None,
    }
}

pub open spec fn analyze_asset_expr(e: SpecAssetExpr, scope: Option<SpecScope>) -> Analysis<SpecAssetExpr>
    decreases e,
{
    match e {
        SpecAssetExpr::Identifier(i) => match analyze_identifier(i, scope) {
            Some((j, errs)) => Some((SpecAssetExpr::Identifier(j), errs)),
            None => None,
        },
        SpecAssetExpr::Constructor(c) => match analyze_asset_constructor(c, scope) {
            Some((d, errs)) => Some((SpecAssetExpr::Constructor(d), errs)),
            None => None,
        },
        SpecAssetExpr::BinaryOp(b) => match analyze_asset_binary_op(b, scope) {
            Some((c, errs)) => Some((SpecAssetExpr::BinaryOp(c), errs)),
            None => None,
        },
        SpecAssetExpr::PropertyAccess(p) => match analyze_property_access(p, scope) {
            Some((q, errs)) => Some((SpecAssetExpr::PropertyAccess(q), errs)),
            None => None,
        },
    }
}

/// The amount is analysed before the asset's name.
pub open spec fn analyze_asset_constructor(c: SpecAssetConstructor, scope: Option<SpecScope>) -> Analysis<SpecAssetConstructor> {
    match (analyze_data_expr(c.amount, scope), analyze_identifier(c.ty, scope)) {
        (Some((amount, e1)), Some((ty, e2))) => Some((
            SpecAssetConstructor { ty, amount, span: c.span },
            e1 + e2,
        )),
        _ => None,
    }
}

pub open spec fn analyze_asset_binary_op(b: SpecAssetBinaryOp, scope: Option<SpecScope>) -> Analysis<SpecAssetBinaryOp>
    decreases b,
{
    match (analyze_asset_expr(*b.left, scope), analyze_asset_expr(*b.right, scope)) {
        (Some((left, e1)), Some((right, e2))) => Some((
            SpecAssetBinaryOp {
                left: Box::new(left),
                operator: b.operator,
                right: Box::new(right),
                span: b.span,
            },
            e1 + e2,
        )),
        _ => None,
    }
}

pub open spec fn analyze_address_expr(e: SpecAddressExpr, scope: Option<SpecScope>) -> Analysis<SpecAddressExpr> {
    match e {
        SpecAddressExpr::Identifier(i) => match analyze_identifier(i, scope) {
            Some((j, errs)) => Some((SpecAddressExpr::Identifier(j), errs)),
            None => None,
        },
        _ => Some((e, Seq::empty())),
    }
}

pub open spec fn analyze_input_block_field(f: SpecInputBlockField, scope: Option<SpecScope>) -> Analysis<SpecInputBlockField> {
    match f {
        SpecInputBlockField::From(x) => match analyze_address_expr(x, scope) {
            Some((y, errs)) => Some((SpecInputBlockField::From(y), errs)),
            None => None,
        },
        SpecInputBlockField::DatumIs(x) => match analyze_type(x, scope) {
            Some((y, errs)) => Some((SpecInputBlockField::DatumIs(y), errs)),
            None => None,
        },
        SpecInputBlockField::MinAmount(x) => match analyze_asset_expr(x, scope) {
            Some((y, errs)) => Some((SpecInputBlockField::MinAmount(y), errs)),
            None => None,
        },
        SpecInputBlockField::Redeemer(x) => match analyze_data_expr(x, scope) {
            Some((y, errs)) => Some((SpecInputBlockField::Redeemer(y), errs)),
            None => None,
        },
        SpecInputBlockField::Ref(x) => match analyze_data_expr(x, scope) {
            Some((y, errs)) => Some((SpecInputBlockField::Ref(y), errs)),
            None => None,
        },
    }
}

pub open spec fn analyze_input_block(b: SpecInputBlock, scope: Option<SpecScope>) -> Analysis<SpecInputBlock> {
    match analyze_each(b.fields, |f: SpecInputBlockField| analyze_input_block_field(f, scope)) {
        Some((fields, errs)) => Some((
            SpecInputBlock { name: b.name, is_many: b.is_many, fields, span: b.span },
            errs,
        )),
        None => None,
    }
}

pub open spec fn analyze_output_block_field(f: SpecOutputBlockField, scope: Option<SpecScope>) -> Analysis<SpecOutputBlockField> {
    match f {
        SpecOutputBlockField::To(x) => match analyze_address_expr(x, scope) {
            Some((y, errs)) => Some((SpecOutputBlockField::To(y), errs)),
            None => None,
        },
        SpecOutputBlockField::Amount(x) => match analyze_asset_expr(x, scope) {
            Some((y, errs)) => Some((SpecOutputBlockField::Amount(y), errs)),
            None => None,
        },
        SpecOutputBlockField::Datum(x) => match analyze_data_expr(x, scope) {
            Some((y, errs)) => Some((SpecOutputBlockField::Datum(y), errs)),
            None => None,
        },
    }
}

pub open spec fn analyze_output_block(b: SpecOutputBlock, scope: Option<SpecScope>) -> Analysis<SpecOutputBlock> {
    match analyze_each(b.fields, |f: SpecOutputBlockField| analyze_output_block_field(f, scope)) {
        Some((fields, errs)) => Some((SpecOutputBlock { name: b.name, fields, span: b.span }, errs)),
        None => None,
    }
}

pub open spec fn analyze_mint_block_field(f: SpecMintBlockField, scope: Option<SpecScope>) -> Analysis<SpecMintBlockField> {
    match f {
        SpecMintBlockField::Amount(x) => match analyze_asset_expr(x, scope) {
            Some((y, errs)) => Some((SpecMintBlockField::Amount(y), errs)),
            None => None,
        },
        SpecMintBlockField::Redeemer(x) => match analyze_data_expr(x, scope) {
            Some((y, errs)) => Some((SpecMintBlockField::Redeemer(y), errs)),
            None => None,
        },
    }
}

pub open spec fn analyze_mint_block(b: SpecMintBlock, scope: Option<SpecScope>) -> Analysis<SpecMintBlock> {
    match analyze_each(b.fields, |f: SpecMintBlockField| analyze_mint_block_field(f, scope)) {
        Some((fields, errs)) => Some((SpecMintBlock { fields, span: b.span }, errs)),
        None => None,
    }
}

pub open spec fn analyze_vote_delegation_certificate(
    c: SpecVoteDelegationCertificate,
    scope: Option<SpecScope>,
) -> Analysis<SpecVoteDelegationCertificate> {
    match (analyze_data_expr(c.drep, scope), analyze_data_expr(c.stake, scope)) {
        (Some((drep, e1)), Some((stake, e2))) => Some((
            SpecVoteDelegationCertificate { drep, stake, span: c.span },
            e1 + e2,
        )),
        _ => None,
    }
}

pub open spec fn analyze_cardano_block(b: SpecCardanoBlock, scope: Option<SpecScope>) -> Analysis<SpecCardanoBlock> {
    match b {
        SpecCardanoBlock::VoteDelegationCertificate(c) => match analyze_vote_delegation_certificate(c, scope) {
            Some((d, errs)) => Some((SpecCardanoBlock::VoteDelegationCertificate(d), errs)),
            None => None,
        },
    }
}

pub open spec fn analyze_chain_specific_block(b: SpecChainSpecificBlock, scope: Option<SpecScope>) -> Analysis<SpecChainSpecificBlock> {
    match b {
        SpecChainSpecificBlock::Cardano(c) => match analyze_cardano_block(c, scope) {
            Some((d, errs)) => Some((SpecChainSpecificBlock::Cardano(d), errs)),
            None => None,
        },
    }
}

pub open spec fn analyze_record_field(f: SpecRecordField, scope: Option<SpecScope>) -> Analysis<SpecRecordField> {
    match analyze_type(f.ty, scope) {
        Some((ty, errs)) => Some((SpecRecordField { name: f.name, ty, span: f.span }, errs)),
        None => None,
    }
}

pub open spec fn analyze_variant_case(c: SpecVariantCase, scope: Option<SpecScope>) -> Analysis<SpecVariantCase> {
    match analyze_each(c.fields, |f: SpecRecordField| analyze_record_field(f, scope)) {
        Some((fields, errs)) => Some((SpecVariantCase { name: c.name, fields, span: c.span }, errs)),
        None => None,
    }
}

pub open spec fn analyze_type_def(t: SpecTypeDef, scope: Option<SpecScope>) -> Analysis<SpecTypeDef> {
    match analyze_each(t.cases, |c: SpecVariantCase| analyze_variant_case(c, scope)) {
        Some((cases, errs)) => Some((SpecTypeDef { name: t.name, cases, span: t.span }, errs)),
        None => None,
    }
}

pub open spec fn analyze_policy_field(f: SpecPolicyField, scope: Option<SpecScope>) -> Analysis<SpecPolicyField> {
    match f {
        SpecPolicyField::Hash(x) => match analyze_data_expr(x, scope) {
            Some((y, errs)) => Some((SpecPolicyField::Hash(y), errs)),
            None => None,
        },
        SpecPolicyField::Script(x) => match analyze_data_expr(x, scope) {
            Some((y, errs)) => Some((SpecPolicyField::Script(y), errs)),
            None => None,
        },
        SpecPolicyField::Ref(x) => match analyze_data_expr(x, scope) {
            Some((y, errs)) => Some((SpecPolicyField::Ref(y), errs)),
            None => None,
        },
    }
}

pub open spec fn analyze_policy_constructor(c: SpecPolicyConstructor, scope: Option<SpecScope>) -> Analysis<SpecPolicyConstructor> {
    match analyze_each(c.fields, |f: SpecPolicyField| analyze_policy_field(f, scope)) {
        Some((fields, errs)) => Some((SpecPolicyConstructor { fields, span: c.span }, errs)),
        None => None,
    }
}

/// A policy given by its hash alone is left as it is.
pub open spec fn analyze_policy_def(p: SpecPolicyDef, scope: Option<SpecScope>) -> Analysis<SpecPolicyDef> {
    match p.value {
        SpecPolicyValue::Constructor(c) => match analyze_policy_constructor(c, scope) {
            Some((d, errs)) => Some((
                SpecPolicyDef { name: p.name, value: SpecPolicyValue::Constructor(d), span: p.span },
                errs,
            )),
            None => None,
        },
        SpecPolicyValue::Assign(_) => Some((p, Seq::empty())),
    }
}

/// The scope of a transaction: `fees`, then its parameters, then its inputs,
/// each binding over the ones before it.
pub open spec fn tx_scope(tx: SpecTxDef, parent: Option<SpecScope>) -> SpecScope {
    let with_fees = child_scope(parent).bind("fees"@, SpecSymbol::Fees);
    let with_params = bind_each(
        with_fees,
        tx.parameters.parameters,
        |p: SpecParamDef| p.name,
        |p: SpecParamDef| SpecSymbol::ParamVar(p.name, Box::new(p.ty)),
    );
    bind_each(
        with_params,
        tx.inputs,
        |i: SpecInputBlock| i.name,
        |i: SpecInputBlock| SpecSymbol::Input(i.name),
    )
}

pub open spec fn param_names(s: Seq<SpecParamDef>) -> Seq<Seq<char>> {
    s.map_values(|p: SpecParamDef| p.name)
}

pub open spec fn input_names(s: Seq<SpecInputBlock>) -> Seq<Seq<char>> {
    s.map_values(|i: SpecInputBlock| i.name)
}

/// The names a transaction defines, in the order its scope binds them: its
/// parameters, then its inputs. The built-in `fees` is no definition of the
/// transaction; a parameter or input of that name replaces it.
pub open spec fn tx_names(tx: SpecTxDef) -> Seq<Seq<char>> {
    param_names(tx.parameters.parameters) + input_names(tx.inputs)
}

pub open spec fn analyze_optional_mint(m: Option<SpecMintBlock>, scope: Option<SpecScope>) -> Analysis<Option<SpecMintBlock>> {
    match m {
        Some(b) => match analyze_mint_block(b, scope) {
            Some((c, errs)) => Some((Some(c), errs)),
            None => None,
        },
        None => Some((None, Seq::empty())),
    }
}

/// A name that the transaction defines twice is reported first; then
/// inputs, outputs, the mint block and the chain-specific blocks are
/// analysed in that order in the transaction's scope.
pub open spec fn analyze_tx_def(tx: SpecTxDef, scope: Option<SpecScope>) -> Analysis<SpecTxDef> {
    let inner = Some(tx_scope(tx, scope));
    match (
        analyze_each(tx.inputs, |b: SpecInputBlock| analyze_input_block(b, inner)),
        analyze_each(tx.outputs, |b: SpecOutputBlock| analyze_output_block(b, inner)),
        analyze_optional_mint(tx.mint, inner),
        analyze_each(tx.adhoc, |b: SpecChainSpecificBlock| analyze_chain_specific_block(b, inner)),
    ) {
        (Some((inputs, e1)), Some((outputs, e2)), Some((mint, e3)), Some((adhoc, e4))) => Some((
            SpecTxDef {
                name: tx.name,
                parameters: tx.parameters,
                inputs,
                outputs,
                mint,
                adhoc,
                span: tx.span,
                scope: inner,
            },
            duplicate_definitions(tx_names(tx)) + e1 + e2 + e3 + e4,
        )),
        _ => None,
    }
}

/// The asset that every program knows: `Ada`.
pub open spec fn ada() -> SpecAssetDef {
    SpecAssetDef {
        name: "Ada"@,
        policy: SpecLiteral { value: ""@, span: crate::ast::dummy_span() },
        asset_name: ""@,
        span: crate::ast::dummy_span(),
    }
}

/// The scope of a program: its parties, its policies, `Ada`, its assets
/// and its types, each binding over the ones before it.
pub open spec fn program_scope(p: SpecProgram, parent: Option<SpecScope>) -> SpecScope {
    let with_parties = bind_each(
        child_scope(parent),
        p.parties,
        |d: SpecPartyDef| d.name,
        |d: SpecPartyDef| SpecSymbol::PartyDef(Box::new(d)),
    );
    let with_policies = bind_each(
        with_parties,
        p.policies,
        |d: SpecPolicyDef| d.name,
        |d: SpecPolicyDef| SpecSymbol::PolicyDef(Box::new(d)),
    );
    let with_ada = with_policies.bind(ada().name, SpecSymbol::AssetDef(Box::new(ada())));
    let with_assets = bind_each(
        with_ada,
        p.assets,
        |d: SpecAssetDef| d.name,
        |d: SpecAssetDef| SpecSymbol::AssetDef(Box::new(d)),
    );
    bind_each(
        with_assets,
        p.types,
        |d: SpecTypeDef| d.name,
        |d: SpecTypeDef| SpecSymbol::TypeDef(Box::new(d)),
    )
}

/// The names a program defines: its parties, its policies, its assets and
/// its types, in the order its scope binds them, then its transactions,
/// which share the one namespace though no scope binds them. The built-in
/// `Ada` is no definition of the program; an asset of that name replaces it.
pub open spec fn program_names(p: SpecProgram) -> Seq<Seq<char>> {
    party_names(p.parties) + policy_names(p.policies) + asset_names(p.assets) + type_names(p.types)
        + tx_def_names(p.txs)
}

pub open spec fn tx_def_names(s: Seq<SpecTxDef>) -> Seq<Seq<char>> {
    s.map_values(|t: SpecTxDef| t.name)
}

pub open spec fn party_names(s: Seq<SpecPartyDef>) -> Seq<Seq<char>> {
    s.map_values(|d: SpecPartyDef| d.name)
}

pub open spec fn policy_names(s: Seq<SpecPolicyDef>) -> Seq<Seq<char>> {
    s.map_values(|d: SpecPolicyDef| d.name)
}

pub open spec fn asset_names(s: Seq<SpecAssetDef>) -> Seq<Seq<char>> {
    s.map_values(|d: SpecAssetDef| d.name)
}

pub open spec fn type_names(s: Seq<SpecTypeDef>) -> Seq<Seq<char>> {
    s.map_values(|d: SpecTypeDef| d.name)
}

/// A name that the program defines twice is reported first; then
/// policies, types and transactions are analysed in that order in the
/// program's scope; parties and assets are not analysed.
pub open spec fn analyze_program(p: SpecProgram, scope: Option<SpecScope>) -> Analysis<SpecProgram> {
    let inner = Some(program_scope(p, scope));
    match (
        analyze_each(p.policies, |d: SpecPolicyDef| analyze_policy_def(d, inner)),
        analyze_each(p.types, |d: SpecTypeDef| analyze_type_def(d, inner)),
        analyze_each(p.txs, |t: SpecTxDef| analyze_tx_def(t, inner)),
    ) {
        (Some((policies, e1)), Some((types, e2)), Some((txs, e3))) => Some((
            SpecProgram {
                txs,
                types,
                assets: p.assets,
                parties: p.parties,
                policies,
                span: p.span,
                scope: inner,
            },
            duplicate_definitions(program_names(p)) + e1 + e2 + e3,
        )),
        _ => None,
    }
}


/// One more element: the analysis of a longer prefix extends that of the
/// shorter one.
pub proof fn lemma_analyze_each_step<T>(s: Seq<T>, f: spec_fn(T) -> Analysis<T>, i: int)
    requires
        0 <= i < s.len(),
    ensures
        analyze_each(s.take(i + 1), f) == match (analyze_each(s.take(i), f), f(s[i])) {
            (Some((xs, e1)), Some((x, e2))) => Some((xs.push(x), e1 + e2)),
            _ => None,
        },
{
    assert(s.take(i + 1).drop_last() =~= s.take(i));
}

/// One more element bound.
pub proof fn lemma_bind_each_step<T>(
    scope: SpecScope,
    s: Seq<T>,
    name: spec_fn(T) -> Seq<char>,
    symbol: spec_fn(T) -> SpecSymbol,
    i: int,
)
    requires
        0 <= i < s.len(),
    ensures
        bind_each(scope, s.take(i + 1), name, symbol) == bind_each(scope, s.take(i), name, symbol).bind(
            name(s[i]),
            symbol(s[i]),
        ),
{
    assert(s.take(i + 1).drop_last() =~= s.take(i));
}


/// The record fields of a constructor are analysed as any sequence is.
pub proof fn lemma_record_constructor_fields_each(s: Seq<SpecRecordConstructorField>, scope: Option<SpecScope>)
    ensures
        analyze_record_constructor_fields(s, scope) == analyze_each(
            s,
            |f: SpecRecordConstructorField| analyze_record_constructor_field(f, scope),
        ),
    decreases s.len(),
{
    if s.len() > 0 {
        lemma_record_constructor_fields_each(s.drop_last(), scope);
    }
}

} // verus!
