//! The syntax tree of a Tx3 program, as the semantic analysis reads and
//! annotates it.

use std::rc::Rc;
use vstd::prelude::*;

use crate::scope::Scope;

verus! {

/// A region of the source text.
#[derive(Debug, Clone, Copy, PartialEq, Eq, Structural)]
pub struct Span {
    pub dummy: bool,
    pub start: usize,
    pub end: usize,
}

/// The span that stands for "no place in the source".
pub open spec fn dummy_span() -> Span {
    Span { dummy: true, start: 0, end: 0 }
}

impl Span {
    /// The span of nodes that do not come from the source text.
    pub fn dummy() -> (s: Span)
        ensures
            s == dummy_span(),
    {
        Span { dummy: true, start: 0, end: 0 }
    }

    pub fn new(start: usize, end: usize) -> (s: Span)
        ensures
            s == (Span { dummy: false, start, end }),
    {
        Span { dummy: false, start, end }
    }
}

#[derive(Debug, Clone, Copy, PartialEq, Eq, Structural)]
pub enum BinaryOperator {
    Add,
    Subtract,
}

#[derive(Debug)]
pub struct StringLiteral {
    pub value: String,
    pub span: Span,
}

#[derive(Debug)]
pub struct HexStringLiteral {
    pub value: String,
    pub span: Span,
}

/// A name in the program text, together with the symbol that analysis
/// resolved it to.
#[derive(Debug)]
pub struct Identifier {
    pub value: String,
    pub symbol: Option<Symbol>,
    pub span: Span,
}

/// What a name can stand for.
#[derive(Debug)]
pub enum Symbol {
    ParamVar(String, Box<Type>),
    Input(String),
    PartyDef(Box<PartyDef>),
    PolicyDef(Box<PolicyDef>),
    AssetDef(Box<AssetDef>),
    TypeDef(Box<TypeDef>),
    RecordField(Box<RecordField>),
    VariantCase(Box<VariantCase>),
    Fees,
}

#[derive(Debug)]
pub enum Type {
    Undefined,
    Unit,
    Int,
    Bool,
    Bytes,
    Address,
    UtxoRef,
    AnyAsset,
    List(Box<Type>),
    Custom(Identifier),
}

#[derive(Debug)]
pub struct RecordField {
    pub name: String,
    pub ty: Type,
    pub span: Span,
}

#[derive(Debug)]
pub struct VariantCase {
    pub name: String,
    pub fields: Vec<RecordField>,
    pub span: Span,
}

#[derive(Debug)]
pub struct TypeDef {
    pub name: String,
    pub cases: Vec<VariantCase>,
    pub span: Span,
}

#[derive(Debug)]
pub struct PartyDef {
    pub name: String,
    pub span: Span,
}

#[derive(Debug)]
pub enum PolicyField {
    Hash(DataExpr),
    Script(DataExpr),
    Ref(DataExpr),
}

#[derive(Debug)]
pub struct PolicyConstructor {
    pub fields: Vec<PolicyField>,
    pub span: Span,
}

#[derive(Debug)]
pub enum PolicyValue {
    Constructor(PolicyConstructor),
    Assign(HexStringLiteral),
}

#[derive(Debug)]
pub struct PolicyDef {
    pub name: String,
    pub value: PolicyValue,
    pub span: Span,
}

#[derive(Debug)]
pub struct AssetDef {
    pub name: String,
    pub policy: HexStringLiteral,
    pub asset_name: String,
    pub span: Span,
}

#[derive(Debug)]
pub enum DataExpr {
    NoneValue,
    Unit,
    Number(i64),
    Bool(bool),
    String(StringLiteral),
    HexString(HexStringLiteral),
    Constructor(DatumConstructor),
    Identifier(Identifier),
    PropertyAccess(PropertyAccess),
    BinaryOp(DataBinaryOp),
}

#[derive(Debug)]
pub struct DatumConstructor {
    pub ty: Identifier,
    pub case: VariantCaseConstructor,
    pub span: Span,
    pub scope: Option<Rc<Scope>>,
}

#[derive(Debug)]
pub struct VariantCaseConstructor {
    pub name: Identifier,
    pub fields: Vec<RecordConstructorField>,
    pub span: Span,
    pub scope: Option<Rc<Scope>>,
}

#[derive(Debug)]
pub struct RecordConstructorField {
    pub name: Identifier,
    pub value: Box<DataExpr>,
    pub span: Span,
}

#[derive(Debug)]
pub struct DataBinaryOp {
    pub left: Box<DataExpr>,
    pub operator: BinaryOperator,
    pub right: Box<DataExpr>,
    pub span: Span,
}

#[derive(Debug)]
pub struct PropertyAccess {
    pub object: Identifier,
    pub path: Vec<Identifier>,
    pub span: Span,
    pub scope: Option<Rc<Scope>>,
}

#[derive(Debug)]
pub enum AssetExpr {
    Identifier(Identifier),
    Constructor(AssetConstructor),
    BinaryOp(AssetBinaryOp),
    PropertyAccess(PropertyAccess),
}

#[derive(Debug)]
pub struct AssetConstructor {
    pub ty: Identifier,
    pub amount: Box<DataExpr>,
    pub span: Span,
}

#[derive(Debug)]
pub struct AssetBinaryOp {
    pub left: Box<AssetExpr>,
    pub operator: BinaryOperator,
    pub right: Box<AssetExpr>,
    pub span: Span,
}

#[derive(Debug)]
pub enum AddressExpr {
    String(StringLiteral),
    HexString(HexStringLiteral),
    Identifier(Identifier),
}

#[derive(Debug)]
pub enum InputBlockField {
    From(AddressExpr),
    DatumIs(Type),
    MinAmount(AssetExpr),
    Redeemer(DataExpr),
    Ref(DataExpr),
}

#[derive(Debug)]
pub struct InputBlock {
    pub name: String,
    pub is_many: bool,
    pub fields: Vec<InputBlockField>,
    pub span: Span,
}

#[derive(Debug)]
pub enum OutputBlockField {
    To(Box<AddressExpr>),
    Amount(Box<AssetExpr>),
    Datum(Box<DataExpr>),
}

#[derive(Debug)]
pub struct OutputBlock {
    pub name: Option<String>,
    pub fields: Vec<OutputBlockField>,
    pub span: Span,
}

#[derive(Debug)]
pub enum MintBlockField {
    Amount(Box<AssetExpr>),
    Redeemer(Box<DataExpr>),
}

#[derive(Debug)]
pub struct MintBlock {
    pub fields: Vec<MintBlockField>,
    pub span: Span,
}

/// A Cardano vote delegation certificate.
#[derive(Debug)]
pub struct VoteDelegationCertificate {
    pub drep: DataExpr,
    pub stake: DataExpr,
    pub span: Span,
}

#[derive(Debug)]
pub enum CardanoBlock {
    VoteDelegationCertificate(VoteDelegationCertificate),
}

#[derive(Debug)]
pub enum ChainSpecificBlock {
    Cardano(CardanoBlock),
}

#[derive(Debug)]
pub struct ParamDef {
    pub name: String,
    pub ty: Type,
}

#[derive(Debug)]
pub struct ParameterList {
    pub parameters: Vec<ParamDef>,
    pub span: Span,
}

#[derive(Debug)]
pub struct TxDef {
    pub name: String,
    pub parameters: ParameterList,
    pub inputs: Vec<InputBlock>,
    pub outputs: Vec<OutputBlock>,
    pub mint: Option<MintBlock>,
    pub adhoc: Vec<ChainSpecificBlock>,
    pub span: Span,
    pub scope: Option<Rc<Scope>>,
}

#[derive(Debug)]
pub struct Program {
    pub txs: Vec<TxDef>,
    pub types: Vec<TypeDef>,
    pub assets: Vec<AssetDef>,
    pub parties: Vec<PartyDef>,
    pub policies: Vec<PolicyDef>,
    pub span: Span,
    pub scope: Option<Rc<Scope>>,
}

} // verus!

verus! {

/// A node of the syntax tree that knows where it stands in the source.
pub trait AstNode {
    spec fn spec_span(&self) -> Span;

    fn span(&self) -> (s: &Span)
        ensures
            *s == self.spec_span(),
    ;
}

impl AstNode for Identifier {
    open spec fn spec_span(&self) -> Span {
        self.span
    }

    fn span(&self) -> (s: &Span) {
        &self.span
    }
}

impl HexStringLiteral {
    /// A literal that does not come from the source text.
    pub fn new(value: String) -> (h: Self)
        ensures
            h.value == value,
            h.span == dummy_span(),
    {
        HexStringLiteral { value, span: Span::dummy() }
    }
}

impl Identifier {
    /// A name that analysis has not resolved yet.
    pub fn new(value: String, span: Span) -> (i: Self)
        ensures
            i.value == value,
            i.symbol.is_none(),
            i.span == span,
    {
        Identifier { value, symbol: None, span }
    }
}

} // verus!
