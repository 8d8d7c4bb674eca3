//! The mathematical model of the syntax tree and of scopes: each node is
//! viewed as a ghost value in which strings are `Seq<char>`, vectors are
//! `Seq`s and a scope's table of names is a `Map`.

use vstd::prelude::*;

use crate::ast::{
    AddressExpr, AssetBinaryOp, AssetConstructor, AssetDef, AssetExpr, BinaryOperator,
    CardanoBlock, ChainSpecificBlock, DataBinaryOp, DataExpr, DatumConstructor, HexStringLiteral,
    Identifier, InputBlock, InputBlockField, MintBlock, MintBlockField, OutputBlock,
    OutputBlockField, ParamDef, ParameterList, PartyDef, PolicyConstructor, PolicyDef,
    PolicyField, PolicyValue, Program, PropertyAccess, RecordConstructorField, RecordField, Span,
    StringLiteral, Symbol, TxDef, Type, TypeDef, VariantCase, VariantCaseConstructor,
    VoteDelegationCertificate,
};
use crate::scope::{Binding, Scope};

verus! {

pub ghost struct SpecLiteral {
    pub value: Seq<char>,
    pub span: Span,
}

pub ghost struct SpecIdentifier {
    pub value: Seq<char>,
    pub symbol: Option<SpecSymbol>,
    pub span: Span,
}

pub ghost enum SpecSymbol {
    ParamVar(Seq<char>, Box<SpecType>),
    Input(Seq<char>),
    PartyDef(Box<SpecPartyDef>),
    PolicyDef(Box<SpecPolicyDef>),
    AssetDef(Box<SpecAssetDef>),
    TypeDef(Box<SpecTypeDef>),
    RecordField(Box<SpecRecordField>),
    VariantCase(Box<SpecVariantCase>),
    Fees,
}

pub ghost enum SpecType {
    Undefined,
    Unit,
    Int,
    Bool,
    Bytes,
    Address,
    UtxoRef,
    AnyAsset,
    List(Box<SpecType>),
    Custom(SpecIdentifier),
}

pub ghost struct SpecRecordField {
    pub name: Seq<char>,
    pub ty: SpecType,
    pub span: Span,
}

pub ghost struct SpecVariantCase {
    pub name: Seq<char>,
    pub fields: Seq<SpecRecordField>,
    pub span: Span,
}

pub ghost struct SpecTypeDef {
    pub name: Seq<char>,
    pub cases: Seq<SpecVariantCase>,
    pub span: Span,
}

pub ghost struct SpecPartyDef {
    pub name: Seq<char>,
    pub span: Span,
}

pub ghost enum SpecPolicyField {
    Hash(SpecDataExpr),
    Script(SpecDataExpr),
    Ref(SpecDataExpr),
}

pub ghost struct SpecPolicyConstructor {
    pub fields: Seq<SpecPolicyField>,
    pub span: Span,
}

pub ghost enum SpecPolicyValue {
    Constructor(SpecPolicyConstructor),
    Assign(SpecLiteral),
}

pub ghost struct SpecPolicyDef {
    pub name: Seq<char>,
    pub value: SpecPolicyValue,
    pub span: Span,
}

pub ghost struct SpecAssetDef {
    pub name: Seq<char>,
    pub policy: SpecLiteral,
    pub asset_name: Seq<char>,
    pub span: Span,
}

pub ghost enum SpecDataExpr {
    NoneValue,
    Unit,
    Number(i64),
    Bool(bool),
    String(SpecLiteral),
    HexString(SpecLiteral),
    Constructor(SpecDatumConstructor),
    Identifier(SpecIdentifier),
    PropertyAccess(SpecPropertyAccess),
    BinaryOp(SpecDataBinaryOp),
}

pub ghost struct SpecDatumConstructor {
    pub ty: SpecIdentifier,
    pub case: SpecVariantCaseConstructor,
    pub span: Span,
    pub scope: Option<SpecScope>,
}

pub ghost struct SpecVariantCaseConstructor {
    pub name: SpecIdentifier,
    pub fields: Seq<SpecRecordConstructorField>,
    pub span: Span,
    pub scope: Option<SpecScope>,
}

pub ghost struct SpecRecordConstructorField {
    pub name: SpecIdentifier,
    pub value: Box<SpecDataExpr>,
    pub span: Span,
}

pub ghost struct SpecDataBinaryOp {
    pub left: Box<SpecDataExpr>,
    pub operator: BinaryOperator,
    pub right: Box<SpecDataExpr>,
    pub span: Span,
}

pub ghost struct SpecPropertyAccess {
    pub object: SpecIdentifier,
    pub path: Seq<SpecIdentifier>,
    pub span: Span,
    pub scope: Option<SpecScope>,
}

/// A scope as a map from names to symbols, and the scope around it.
pub ghost struct SpecScope {
    pub symbols: Map<Seq<char>, SpecSymbol>,
    pub parent: Option<Box<SpecScope>>,
}

pub ghost enum SpecAssetExpr {
    Identifier(SpecIdentifier),
    Constructor(SpecAssetConstructor),
    BinaryOp(SpecAssetBinaryOp),
    PropertyAccess(SpecPropertyAccess),
}

pub ghost struct SpecAssetConstructor {
    pub ty: SpecIdentifier,
    pub amount: SpecDataExpr,
    pub span: Span,
}

pub ghost struct SpecAssetBinaryOp {
    pub left: Box<SpecAssetExpr>,
    pub operator: BinaryOperator,
    pub right: Box<SpecAssetExpr>,
    pub span: Span,
}

pub ghost enum SpecAddressExpr {
    String(SpecLiteral),
    HexString(SpecLiteral),
    Identifier(SpecIdentifier),
}

pub ghost enum SpecInputBlockField {
    From(SpecAddressExpr),
    DatumIs(SpecType),
    MinAmount(SpecAssetExpr),
    Redeemer(SpecDataExpr),
    Ref(SpecDataExpr),
}

pub ghost struct SpecInputBlock {
    pub name: Seq<char>,
    pub is_many: bool,
    pub fields: Seq<SpecInputBlockField>,
    pub span: Span,
}

pub ghost enum SpecOutputBlockField {
    To(SpecAddressExpr),
    Amount(SpecAssetExpr),
    Datum(SpecDataExpr),
}

pub ghost struct SpecOutputBlock {
    pub name: Option<Seq<char>>,
    pub fields: Seq<SpecOutputBlockField>,
    pub span: Span,
}

pub ghost enum SpecMintBlockField {
    Amount(SpecAssetExpr),
    Redeemer(SpecDataExpr),
}

pub ghost struct SpecMintBlock {
    pub fields: Seq<SpecMintBlockField>,
    pub span: Span,
}

pub ghost struct SpecVoteDelegationCertificate {
    pub drep: SpecDataExpr,
    pub stake: SpecDataExpr,
    pub span: Span,
}

pub ghost enum SpecCardanoBlock {
    VoteDelegationCertificate(SpecVoteDelegationCertificate),
}

pub ghost enum SpecChainSpecificBlock {
    Cardano(SpecCardanoBlock),
}

pub ghost struct SpecParamDef {
    pub name: Seq<char>,
    pub ty: SpecType,
}

pub ghost struct SpecParameterList {
    pub parameters: Seq<SpecParamDef>,
    pub span: Span,
}

pub ghost struct SpecTxDef {
    pub name: Seq<char>,
    pub parameters: SpecParameterList,
    pub inputs: Seq<SpecInputBlock>,
    pub outputs: Seq<SpecOutputBlock>,
    pub mint: Option<SpecMintBlock>,
    pub adhoc: Seq<SpecChainSpecificBlock>,
    pub span: Span,
    pub scope: Option<SpecScope>,
}

pub ghost struct SpecProgram {
    pub txs: Seq<SpecTxDef>,
    pub types: Seq<SpecTypeDef>,
    pub assets: Seq<SpecAssetDef>,
    pub parties: Seq<SpecPartyDef>,
    pub policies: Seq<SpecPolicyDef>,
    pub span: Span,
    pub scope: Option<SpecScope>,
}

// The views of the nodes that a symbol or a scope can hold form one
// recursive family; each one goes down into the parts of its argument.

pub open spec fn literal_view(value: String, span: Span) -> SpecLiteral {
    SpecLiteral { value: value@, span }
}

pub open spec fn identifier_view(i: Identifier) -> SpecIdentifier
    decreases i,
{
    SpecIdentifier {
        value: i.value@,
        symbol: match i.symbol {
            Some(s) => Some(symbol_view(s)),
            None => None,
        },
        span: i.span,
    }
}

pub open spec fn identifiers_view(s: Seq<Identifier>) -> Seq<SpecIdentifier>
    decreases s,
{
    Seq::new(s.len(), |i: int| if 0 <= i < s.len() { identifier_view(s[i]) } else { arbitrary() })
}

pub open spec fn symbol_view(s: Symbol) -> SpecSymbol
    decreases s,
{
    match s {
        Symbol::ParamVar(n, t) => SpecSymbol::ParamVar(n@, Box::new(type_view(*t))),
        Symbol::Input(n) => SpecSymbol::Input(n@),
        Symbol::PartyDef(p) => SpecSymbol::PartyDef(Box::new(party_def_view(*p))),
        Symbol::PolicyDef(p) => SpecSymbol::PolicyDef(Box::new(policy_def_view(*p))),
        Symbol::AssetDef(a) => SpecSymbol::AssetDef(Box::new(asset_def_view(*a))),
        Symbol::TypeDef(t) => SpecSymbol::TypeDef(Box::new(type_def_view(*t))),
        Symbol::RecordField(f) => SpecSymbol::RecordField(Box::new(record_field_view(*f))),
        Symbol::VariantCase(c) => SpecSymbol::VariantCase(Box::new(variant_case_view(*c))),
        Symbol::Fees => SpecSymbol::Fees,
    }
}

pub open spec fn type_view(t: Type) -> SpecType
    decreases t,
{
    match t {
        Type::Undefined => SpecType::Undefined,
        Type::Unit => SpecType::Unit,
        Type::Int => SpecType::Int,
        Type::Bool => SpecType::Bool,
        Type::Bytes => SpecType::Bytes,
        Type::Address => SpecType::Address,
        Type::UtxoRef => SpecType::UtxoRef,
        Type::AnyAsset => SpecType::AnyAsset,
        Type::List(inner) => SpecType::List(Box::new(type_view(*inner))),
        Type::Custom(i) => SpecType::Custom(identifier_view(i)),
    }
}

pub open spec fn record_field_view(f: RecordField) -> SpecRecordField
    decreases f,
{
    SpecRecordField { name: f.name@, ty: type_view(f.ty), span: f.span }
}

pub open spec fn variant_case_view(c: VariantCase) -> SpecVariantCase
    decreases c,
{
    SpecVariantCase {
        name: c.name@,
        fields: Seq::new(
            c.fields@.len(),
            |i: int|
                if 0 <= i < c.fields@.len() {
                    record_field_view(c.fields@[i])
                } else {
                    arbitrary()
                },
        ),
        span: c.span,
    }
}

pub open spec fn type_def_view(t: TypeDef) -> SpecTypeDef
    decreases t,
{
    SpecTypeDef {
        name: t.name@,
        cases: Seq::new(
            t.cases@.len(),
            |i: int|
                if 0 <= i < t.cases@.len() {
                    variant_case_view(t.cases@[i])
                } else {
                    arbitrary()
                },
        ),
        span: t.span,
    }
}

pub open spec fn party_def_view(p: PartyDef) -> SpecPartyDef {
    SpecPartyDef { name: p.name@, span: p.span }
}

pub open spec fn policy_field_view(f: PolicyField) -> SpecPolicyField
    decreases f,
{
    match f {
        PolicyField::Hash(e) => SpecPolicyField::Hash(data_expr_view(e)),
        PolicyField::Script(e) => SpecPolicyField::Script(data_expr_view(e)),
        PolicyField::Ref(e) => SpecPolicyField::Ref(data_expr_view(e)),
    }
}

pub open spec fn policy_constructor_view(c: PolicyConstructor) -> SpecPolicyConstructor
    decreases c,
{
    SpecPolicyConstructor {
        fields: Seq::new(
            c.fields@.len(),
            |i: int|
                if 0 <= i < c.fields@.len() {
                    policy_field_view(c.fields@[i])
                } else {
                    arbitrary()
                },
        ),
        span: c.span,
    }
}

pub open spec fn policy_value_view(v: PolicyValue) -> SpecPolicyValue
    decreases v,
{
    match v {
        PolicyValue::Constructor(c) => SpecPolicyValue::Constructor(policy_constructor_view(c)),
        PolicyValue::Assign(h) => SpecPolicyValue::Assign(literal_view(h.value, h.span)),
    }
}

pub open spec fn policy_def_view(p: PolicyDef) -> SpecPolicyDef
    decreases p,
{
    SpecPolicyDef { name: p.name@, value: policy_value_view(p.value), span: p.span }
}

pub open spec fn asset_def_view(a: AssetDef) -> SpecAssetDef {
    SpecAssetDef {
        name: a.name@,
        policy: literal_view(a.policy.value, a.policy.span),
        asset_name: a.asset_name@,
        span: a.span,
    }
}

pub open spec fn data_expr_view(e: DataExpr) -> SpecDataExpr
    decreases e,
{
    match e {
        DataExpr::NoneValue => SpecDataExpr::NoneValue,
        DataExpr::Unit => SpecDataExpr::Unit,
        DataExpr::Number(n) => SpecDataExpr::Number(n),
        DataExpr::Bool(b) => SpecDataExpr::Bool(b),
        DataExpr::String(s) => SpecDataExpr::String(literal_view(s.value, s.span)),
        DataExpr::HexString(h) => SpecDataExpr::HexString(literal_view(h.value, h.span)),
        DataExpr::Constructor(c) => SpecDataExpr::Constructor(datum_constructor_view(c)),
        DataExpr::Identifier(i) => SpecDataExpr::Identifier(identifier_view(i)),
        DataExpr::PropertyAccess(p) => SpecDataExpr::PropertyAccess(property_access_view(p)),
        DataExpr::BinaryOp(b) => SpecDataExpr::BinaryOp(data_binary_op_view(b)),
    }
}

pub open spec fn datum_constructor_view(c: DatumConstructor) -> SpecDatumConstructor
    decreases c,
{
    SpecDatumConstructor {
        ty: identifier_view(c.ty),
        case: variant_case_constructor_view(c.case),
        span: c.span,
        scope: scope_opt_view(c.scope),
    }
}

pub open spec fn variant_case_constructor_view(c: VariantCaseConstructor) -> SpecVariantCaseConstructor
    decreases c,
{
    SpecVariantCaseConstructor {
        name: identifier_view(c.name),
        fields: Seq::new(
            c.fields@.len(),
            |i: int|
                if 0 <= i < c.fields@.len() {
                    record_constructor_field_view(c.fields@[i])
                } else {
                    arbitrary()
                },
        ),
        span: c.span,
        scope: scope_opt_view(c.scope),
    }
}

pub open spec fn record_constructor_field_view(f: RecordConstructorField) -> SpecRecordConstructorField
    decreases f,
{
    SpecRecordConstructorField {
        name: identifier_view(f.name),
        value: Box::new(data_expr_view(*f.value)),
        span: f.span,
    }
}

pub open spec fn data_binary_op_view(b: DataBinaryOp) -> SpecDataBinaryOp
    decreases b,
{
    SpecDataBinaryOp {
        left: Box::new(data_expr_view(*b.left)),
        operator: b.operator,
        right: Box::new(data_expr_view(*b.right)),
        span: b.span,
    }
}

pub open spec fn property_access_view(p: PropertyAccess) -> SpecPropertyAccess
    decreases p,
{
    SpecPropertyAccess {
        object: identifier_view(p.object),
        path: identifiers_view(p.path@),
        span: p.span,
        scope: scope_opt_view(p.scope),
    }
}

/// The table of a scope: each binding, later ones over earlier ones.
pub open spec fn bindings_view(s: Seq<Binding>) -> Map<Seq<char>, SpecSymbol>
    decreases s,
{
    if s.len() == 0 {
        Map::empty()
    } else {
        bindings_view(s.drop_last()).insert(s.last().name@, symbol_view(s.last().symbol))
    }
}

pub open spec fn scope_view(s: Scope) -> SpecScope
    decreases s,
{
    SpecScope {
        symbols: bindings_view(s.symbols@),
        parent: match s.parent {
            Some(p) => Some(Box::new(scope_view(*p))),
            None => None,
        },
    }
}

pub open spec fn scope_opt_view(s: Option<std::rc::Rc<Scope>>) -> Option<SpecScope>
    decreases s,
{
    match s {
        Some(p) => Some(scope_view(*p)),
        None => None,
    }
}


pub open spec fn asset_expr_view(e: AssetExpr) -> SpecAssetExpr
    decreases e,
{
    match e {
        AssetExpr::Identifier(i) => SpecAssetExpr::Identifier(identifier_view(i)),
        AssetExpr::Constructor(c) => SpecAssetExpr::Constructor(asset_constructor_view(c)),
        AssetExpr::BinaryOp(b) => SpecAssetExpr::BinaryOp(asset_binary_op_view(b)),
        AssetExpr::PropertyAccess(p) => SpecAssetExpr::PropertyAccess(property_access_view(p)),
    }
}

pub open spec fn asset_constructor_view(c: AssetConstructor) -> SpecAssetConstructor {
    SpecAssetConstructor {
        ty: identifier_view(c.ty),
        amount: data_expr_view(*c.amount),
        span: c.span,
    }
}

pub open spec fn asset_binary_op_view(b: AssetBinaryOp) -> SpecAssetBinaryOp
    decreases b,
{
    SpecAssetBinaryOp {
        left: Box::new(asset_expr_view(*b.left)),
        operator: b.operator,
        right: Box::new(asset_expr_view(*b.right)),
        span: b.span,
    }
}

pub open spec fn address_expr_view(e: AddressExpr) -> SpecAddressExpr {
    match e {
        AddressExpr::String(s) => SpecAddressExpr::String(literal_view(s.value, s.span)),
        AddressExpr::HexString(h) => SpecAddressExpr::HexString(literal_view(h.value, h.span)),
        AddressExpr::Identifier(i) => SpecAddressExpr::Identifier(identifier_view(i)),
    }
}

pub open spec fn input_block_field_view(f: InputBlockField) -> SpecInputBlockField {
    match f {
        InputBlockField::From(a) => SpecInputBlockField::From(address_expr_view(a)),
        InputBlockField::DatumIs(t) => SpecInputBlockField::DatumIs(type_view(t)),
        InputBlockField::MinAmount(a) => SpecInputBlockField::MinAmount(asset_expr_view(a)),
        InputBlockField::Redeemer(e) => SpecInputBlockField::Redeemer(data_expr_view(e)),
        InputBlockField::Ref(e) => SpecInputBlockField::Ref(data_expr_view(e)),
    }
}

pub open spec fn output_block_field_view(f: OutputBlockField) -> SpecOutputBlockField {
    match f {
        OutputBlockField::To(a) => SpecOutputBlockField::To(address_expr_view(*a)),
        OutputBlockField::Amount(a) => SpecOutputBlockField::Amount(asset_expr_view(*a)),
        OutputBlockField::Datum(e) => SpecOutputBlockField::Datum(data_expr_view(*e)),
    }
}

pub open spec fn mint_block_field_view(f: MintBlockField) -> SpecMintBlockField {
    match f {
        MintBlockField::Amount(a) => SpecMintBlockField::Amount(asset_expr_view(*a)),
        MintBlockField::Redeemer(e) => SpecMintBlockField::Redeemer(data_expr_view(*e)),
    }
}

pub open spec fn vote_delegation_certificate_view(c: VoteDelegationCertificate) -> SpecVoteDelegationCertificate {
    SpecVoteDelegationCertificate {
        drep: data_expr_view(c.drep),
        stake: data_expr_view(c.stake),
        span: c.span,
    }
}

pub open spec fn cardano_block_view(b: CardanoBlock) -> SpecCardanoBlock {
    match b {
        CardanoBlock::VoteDelegationCertificate(c) => SpecCardanoBlock::VoteDelegationCertificate(
            vote_delegation_certificate_view(c),
        ),
    }
}

pub open spec fn chain_specific_block_view(b: ChainSpecificBlock) -> SpecChainSpecificBlock {
    match b {
        ChainSpecificBlock::Cardano(c) => SpecChainSpecificBlock::Cardano(cardano_block_view(c)),
    }
}

// The views, as `View` and `DeepView`, so that `@` and the views of
// vectors and options of nodes can be written directly.

impl View for StringLiteral {
    type V = SpecLiteral;

    open spec fn view(&self) -> SpecLiteral {
        literal_view(self.value, self.span)
    }
}

impl DeepView for StringLiteral {
    type V = SpecLiteral;

    open spec fn deep_view(&self) -> SpecLiteral {
        literal_view(self.value, self.span)
    }
}

impl View for HexStringLiteral {
    type V = SpecLiteral;

    open spec fn view(&self) -> SpecLiteral {
        literal_view(self.value, self.span)
    }
}

impl DeepView for HexStringLiteral {
    type V = SpecLiteral;

    open spec fn deep_view(&self) -> SpecLiteral {
        literal_view(self.value, self.span)
    }
}

impl View for Identifier {
    type V = SpecIdentifier;

    open spec fn view(&self) -> SpecIdentifier {
        identifier_view(*self)
    }
}

impl DeepView for Identifier {
    type V = SpecIdentifier;

    open spec fn deep_view(&self) -> SpecIdentifier {
        identifier_view(*self)
    }
}

impl View for Symbol {
    type V = SpecSymbol;

    open spec fn view(&self) -> SpecSymbol {
        symbol_view(*self)
    }
}

impl DeepView for Symbol {
    type V = SpecSymbol;

    open spec fn deep_view(&self) -> SpecSymbol {
        symbol_view(*self)
    }
}

impl View for Type {
    type V = SpecType;

    open spec fn view(&self) -> SpecType {
        type_view(*self)
    }
}

impl DeepView for Type {
    type V = SpecType;

    open spec fn deep_view(&self) -> SpecType {
        type_view(*self)
    }
}

impl View for RecordField {
    type V = SpecRecordField;

    open spec fn view(&self) -> SpecRecordField {
        record_field_view(*self)
    }
}

impl DeepView for RecordField {
    type V = SpecRecordField;

    open spec fn deep_view(&self) -> SpecRecordField {
        record_field_view(*self)
    }
}

impl View for VariantCase {
    type V = SpecVariantCase;

    open spec fn view(&self) -> SpecVariantCase {
        variant_case_view(*self)
    }
}

impl DeepView for VariantCase {
    type V = SpecVariantCase;

    open spec fn deep_view(&self) -> SpecVariantCase {
        variant_case_view(*self)
    }
}

impl View for TypeDef {
    type V = SpecTypeDef;

    open spec fn view(&self) -> SpecTypeDef {
        type_def_view(*self)
    }
}

impl DeepView for TypeDef {
    type V = SpecTypeDef;

    open spec fn deep_view(&self) -> SpecTypeDef {
        type_def_view(*self)
    }
}

impl View for PartyDef {
    type V = SpecPartyDef;

    open spec fn view(&self) -> SpecPartyDef {
        party_def_view(*self)
    }
}

impl DeepView for PartyDef {
    type V = SpecPartyDef;

    open spec fn deep_view(&self) -> SpecPartyDef {
        party_def_view(*self)
    }
}

impl View for PolicyField {
    type V = SpecPolicyField;

    open spec fn view(&self) -> SpecPolicyField {
        policy_field_view(*self)
    }
}

impl DeepView for PolicyField {
    type V = SpecPolicyField;

    open spec fn deep_view(&self) -> SpecPolicyField {
        policy_field_view(*self)
    }
}

impl View for PolicyConstructor {
    type V = SpecPolicyConstructor;

    open spec fn view(&self) -> SpecPolicyConstructor {
        policy_constructor_view(*self)
    }
}

impl DeepView for PolicyConstructor {
    type V = SpecPolicyConstructor;

    open spec fn deep_view(&self) -> SpecPolicyConstructor {
        policy_constructor_view(*self)
    }
}

impl View for PolicyValue {
    type V = SpecPolicyValue;

    open spec fn view(&self) -> SpecPolicyValue {
        policy_value_view(*self)
    }
}

impl DeepView for PolicyValue {
    type V = SpecPolicyValue;

    open spec fn deep_view(&self) -> SpecPolicyValue {
        policy_value_view(*self)
    }
}

impl View for PolicyDef {
    type V = SpecPolicyDef;

    open spec fn view(&self) -> SpecPolicyDef {
        policy_def_view(*self)
    }
}

impl DeepView for PolicyDef {
    type V = SpecPolicyDef;

    open spec fn deep_view(&self) -> SpecPolicyDef {
        policy_def_view(*self)
    }
}

impl View for AssetDef {
    type V = SpecAssetDef;

    open spec fn view(&self) -> SpecAssetDef {
        asset_def_view(*self)
    }
}

impl DeepView for AssetDef {
    type V = SpecAssetDef;

    open spec fn deep_view(&self) -> SpecAssetDef {
        asset_def_view(*self)
    }
}

impl View for DataExpr {
    type V = SpecDataExpr;

    open spec fn view(&self) -> SpecDataExpr {
        data_expr_view(*self)
    }
}

impl DeepView for DataExpr {
    type V = SpecDataExpr;

    open spec fn deep_view(&self) -> SpecDataExpr {
        data_expr_view(*self)
    }
}

impl View for DatumConstructor {
    type V = SpecDatumConstructor;

    open spec fn view(&self) -> SpecDatumConstructor {
        datum_constructor_view(*self)
    }
}

impl DeepView for DatumConstructor {
    type V = SpecDatumConstructor;

    open spec fn deep_view(&self) -> SpecDatumConstructor {
        datum_constructor_view(*self)
    }
}

impl View for VariantCaseConstructor {
    type V = SpecVariantCaseConstructor;

    open spec fn view(&self) -> SpecVariantCaseConstructor {
        variant_case_constructor_view(*self)
    }
}

impl DeepView for VariantCaseConstructor {
    type V = SpecVariantCaseConstructor;

    open spec fn deep_view(&self) -> SpecVariantCaseConstructor {
        variant_case_constructor_view(*self)
    }
}

impl View for RecordConstructorField {
    type V = SpecRecordConstructorField;

    open spec fn view(&self) -> SpecRecordConstructorField {
        record_constructor_field_view(*self)
    }
}

impl DeepView for RecordConstructorField {
    type V = SpecRecordConstructorField;

    open spec fn deep_view(&self) -> SpecRecordConstructorField {
        record_constructor_field_view(*self)
    }
}

impl View for DataBinaryOp {
    type V = SpecDataBinaryOp;

    open spec fn view(&self) -> SpecDataBinaryOp {
        data_binary_op_view(*self)
    }
}

impl DeepView for DataBinaryOp {
    type V = SpecDataBinaryOp;

    open spec fn deep_view(&self) -> SpecDataBinaryOp {
        data_binary_op_view(*self)
    }
}

impl View for PropertyAccess {
    type V = SpecPropertyAccess;

    open spec fn view(&self) -> SpecPropertyAccess {
        property_access_view(*self)
    }
}

impl DeepView for PropertyAccess {
    type V = SpecPropertyAccess;

    open spec fn deep_view(&self) -> SpecPropertyAccess {
        property_access_view(*self)
    }
}

impl View for Scope {
    type V = SpecScope;

    open spec fn view(&self) -> SpecScope {
        scope_view(*self)
    }
}

impl DeepView for Scope {
    type V = SpecScope;

    open spec fn deep_view(&self) -> SpecScope {
        scope_view(*self)
    }
}

impl View for AssetExpr {
    type V = SpecAssetExpr;

    open spec fn view(&self) -> SpecAssetExpr {
        asset_expr_view(*self)
    }
}

impl DeepView for AssetExpr {
    type V = SpecAssetExpr;

    open spec fn deep_view(&self) -> SpecAssetExpr {
        asset_expr_view(*self)
    }
}

impl View for AssetConstructor {
    type V = SpecAssetConstructor;

    open spec fn view(&self) -> SpecAssetConstructor {
        asset_constructor_view(*self)
    }
}

impl DeepView for AssetConstructor {
    type V = SpecAssetConstructor;

    open spec fn deep_view(&self) -> SpecAssetConstructor {
        asset_constructor_view(*self)
    }
}

impl View for AssetBinaryOp {
    type V = SpecAssetBinaryOp;

    open spec fn view(&self) -> SpecAssetBinaryOp {
        asset_binary_op_view(*self)
    }
}

impl DeepView for AssetBinaryOp {
    type V = SpecAssetBinaryOp;

    open spec fn deep_view(&self) -> SpecAssetBinaryOp {
        asset_binary_op_view(*self)
    }
}

impl View for AddressExpr {
    type V = SpecAddressExpr;

    open spec fn view(&self) -> SpecAddressExpr {
        address_expr_view(*self)
    }
}

impl DeepView for AddressExpr {
    type V = SpecAddressExpr;

    open spec fn deep_view(&self) -> SpecAddressExpr {
        address_expr_view(*self)
    }
}

impl View for InputBlockField {
    type V = SpecInputBlockField;

    open spec fn view(&self) -> SpecInputBlockField {
        input_block_field_view(*self)
    }
}

impl DeepView for InputBlockField {
    type V = SpecInputBlockField;

    open spec fn deep_view(&self) -> SpecInputBlockField {
        input_block_field_view(*self)
    }
}

impl View for OutputBlockField {
    type V = SpecOutputBlockField;

    open spec fn view(&self) -> SpecOutputBlockField {
        output_block_field_view(*self)
    }
}

impl DeepView for OutputBlockField {
    type V = SpecOutputBlockField;

    open spec fn deep_view(&self) -> SpecOutputBlockField {
        output_block_field_view(*self)
    }
}

impl View for MintBlockField {
    type V = SpecMintBlockField;

    open spec fn view(&self) -> SpecMintBlockField {
        mint_block_field_view(*self)
    }
}

impl DeepView for MintBlockField {
    type V = SpecMintBlockField;

    open spec fn deep_view(&self) -> SpecMintBlockField {
        mint_block_field_view(*self)
    }
}

impl View for VoteDelegationCertificate {
    type V = SpecVoteDelegationCertificate;

    open spec fn view(&self) -> SpecVoteDelegationCertificate {
        vote_delegation_certificate_view(*self)
    }
}

impl DeepView for VoteDelegationCertificate {
    type V = SpecVoteDelegationCertificate;

    open spec fn deep_view(&self) -> SpecVoteDelegationCertificate {
        vote_delegation_certificate_view(*self)
    }
}

impl View for CardanoBlock {
    type V = SpecCardanoBlock;

    open spec fn view(&self) -> SpecCardanoBlock {
        cardano_block_view(*self)
    }
}

impl DeepView for CardanoBlock {
    type V = SpecCardanoBlock;

    open spec fn deep_view(&self) -> SpecCardanoBlock {
        cardano_block_view(*self)
    }
}

impl View for ChainSpecificBlock {
    type V = SpecChainSpecificBlock;

    open spec fn view(&self) -> SpecChainSpecificBlock {
        chain_specific_block_view(*self)
    }
}

impl DeepView for ChainSpecificBlock {
    type V = SpecChainSpecificBlock;

    open spec fn deep_view(&self) -> SpecChainSpecificBlock {
        chain_specific_block_view(*self)
    }
}

impl DeepView for InputBlock {
    type V = SpecInputBlock;

    open spec fn deep_view(&self) -> SpecInputBlock {
        SpecInputBlock { name: self.name@, is_many: self.is_many, fields: self.fields.deep_view(), span: self.span }
    }
}

impl View for InputBlock {
    type V = SpecInputBlock;

    open spec fn view(&self) -> SpecInputBlock {
        self.deep_view()
    }
}

impl DeepView for OutputBlock {
    type V = SpecOutputBlock;

    open spec fn deep_view(&self) -> SpecOutputBlock {
        SpecOutputBlock {
            name: match self.name {
                Some(n) => Some(n@),
                None => None,
            },
            fields: self.fields.deep_view(),
            span: self.span,
        }
    }
}

impl View for OutputBlock {
    type V = SpecOutputBlock;

    open spec fn view(&self) -> SpecOutputBlock {
        self.deep_view()
    }
}

impl DeepView for MintBlock {
    type V = SpecMintBlock;

    open spec fn deep_view(&self) -> SpecMintBlock {
        SpecMintBlock { fields: self.fields.deep_view(), span: self.span }
    }
}

impl View for MintBlock {
    type V = SpecMintBlock;

    open spec fn view(&self) -> SpecMintBlock {
        self.deep_view()
    }
}

impl DeepView for ParamDef {
    type V = SpecParamDef;

    open spec fn deep_view(&self) -> SpecParamDef {
        SpecParamDef { name: self.name@, ty: self.ty@ }
    }
}

impl View for ParamDef {
    type V = SpecParamDef;

    open spec fn view(&self) -> SpecParamDef {
        self.deep_view()
    }
}

impl DeepView for ParameterList {
    type V = SpecParameterList;

    open spec fn deep_view(&self) -> SpecParameterList {
        SpecParameterList { parameters: self.parameters.deep_view(), span: self.span }
    }
}

impl View for ParameterList {
    type V = SpecParameterList;

    open spec fn view(&self) -> SpecParameterList {
        self.deep_view()
    }
}

impl DeepView for TxDef {
    type V = SpecTxDef;

    open spec fn deep_view(&self) -> SpecTxDef {
        SpecTxDef {
            name: self.name@,
            parameters: self.parameters.deep_view(),
            inputs: self.inputs.deep_view(),
            outputs: self.outputs.deep_view(),
            mint: self.mint.deep_view(),
            adhoc: self.adhoc.deep_view(),
            span: self.span,
            scope: scope_opt_view(self.scope),
        }
    }
}

impl View for TxDef {
    type V = SpecTxDef;

    open spec fn view(&self) -> SpecTxDef {
        self.deep_view()
    }
}

impl DeepView for Program {
    type V = SpecProgram;

    open spec fn deep_view(&self) -> SpecProgram {
        SpecProgram {
            txs: self.txs.deep_view(),
            types: self.types.deep_view(),
            assets: self.assets.deep_view(),
            parties: self.parties.deep_view(),
            policies: self.policies.deep_view(),
            span: self.span,
            scope: scope_opt_view(self.scope),
        }
    }
}

impl View for Program {
    type V = SpecProgram;

    open spec fn view(&self) -> SpecProgram {
        self.deep_view()
    }
}

} // verus!
