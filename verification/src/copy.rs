//! Copies of syntax-tree nodes: each copy has the same view as its source.
//! A symbol keeps a copy of the definition it names, so these copies are
//! what a scope stores.

use vstd::prelude::*;

use crate::ast::{
    AssetDef, DataBinaryOp, DataExpr, DatumConstructor, HexStringLiteral, Identifier,
    PartyDef, PolicyConstructor, PolicyDef, PolicyField, PolicyValue, PropertyAccess,
    RecordConstructorField, RecordField, StringLiteral, Symbol, Type, TypeDef, VariantCase,
    VariantCaseConstructor,
};
use crate::scope::share_scope;

verus! {

fn copy_string_literal(s: &StringLiteral) -> (r: StringLiteral)
    ensures
        r@ == s@,
{
    StringLiteral { value: s.value.clone(), span: s.span }
}

fn copy_hex_literal(s: &HexStringLiteral) -> (r: HexStringLiteral)
    ensures
        r@ == s@,
{
    HexStringLiteral { value: s.value.clone(), span: s.span }
}

fn copy_identifier(i: &Identifier) -> (r: Identifier)
    ensures
        r@ == i@,
    decreases i,
{
    let symbol = match &i.symbol {
        Some(s) => Some(copy_symbol(s)),
        None => None,
    };
    Identifier { value: i.value.clone(), symbol, span: i.span }
}

fn copy_identifiers(v: &Vec<Identifier>) -> (r: Vec<Identifier>)
    ensures
        r@.len() == v@.len(),
        forall|j: int| #![trigger r@[j]] 0 <= j < v@.len() ==> r@[j]@ == v@[j]@,
    decreases v,
{
    let mut out: Vec<Identifier> = Vec::new();
    let mut i: usize = 0;
    while i < v.len()
        invariant
            i <= v@.len(),
            out@.len() == i,
            forall|j: int| #![trigger out@[j]] 0 <= j < i ==> out@[j]@ == v@[j]@,
        decreases v@.len() - i,
    {
        let c = copy_identifier(&v[i]);
        out.push(c);
        i += 1;
    }
    out
}

fn copy_symbol(s: &Symbol) -> (r: Symbol)
    ensures
        r@ == s@,
    decreases s,
{
    match s {
        Symbol::ParamVar(n, t) => Symbol::ParamVar(n.clone(), Box::new(copy_type(t))),
        Symbol::Input(n) => Symbol::Input(n.clone()),
        Symbol::PartyDef(p) => Symbol::PartyDef(Box::new(copy_party_def(p))),
        Symbol::PolicyDef(p) => Symbol::PolicyDef(Box::new(copy_policy_def(p))),
        Symbol::AssetDef(a) => Symbol::AssetDef(Box::new(copy_asset_def(a))),
        Symbol::TypeDef(t) => Symbol::TypeDef(Box::new(copy_type_def(t))),
        Symbol::RecordField(f) => Symbol::RecordField(Box::new(copy_record_field(f))),
        Symbol::VariantCase(c) => Symbol::VariantCase(Box::new(copy_variant_case(c))),
        Symbol::Fees => Symbol::Fees,
    }
}

fn copy_type(t: &Type) -> (r: Type)
    ensures
        r@ == t@,
    decreases t,
{
    match t {
        Type::Undefined => Type::Undefined,
        Type::Unit => Type::Unit,
        Type::Int => Type::Int,
        Type::Bool => Type::Bool,
        Type::Bytes => Type::Bytes,
        Type::Address => Type::Address,
        Type::UtxoRef => Type::UtxoRef,
        Type::AnyAsset => Type::AnyAsset,
        Type::List(inner) => Type::List(Box::new(copy_type(inner))),
        Type::Custom(i) => Type::Custom(copy_identifier(i)),
    }
}

fn copy_record_field(f: &RecordField) -> (r: RecordField)
    ensures
        r@ == f@,
    decreases f,
{
    RecordField { name: f.name.clone(), ty: copy_type(&f.ty), span: f.span }
}

fn copy_variant_case(c: &VariantCase) -> (r: VariantCase)
    ensures
        r@ == c@,
    decreases c,
{
    let mut fields: Vec<RecordField> = Vec::new();
    let mut i: usize = 0;
    while i < c.fields.len()
        invariant
            i <= c.fields@.len(),
            fields@.len() == i,
            forall|j: int| #![trigger fields@[j]] 0 <= j < i ==> fields@[j]@ == c.fields@[j]@,
        decreases c.fields@.len() - i,
    {
        let f = copy_record_field(&c.fields[i]);
        fields.push(f);
        i += 1;
    }
    let r = VariantCase { name: c.name.clone(), fields, span: c.span };
    assert(r@.fields =~= c@.fields);
    r
}

fn copy_type_def(t: &TypeDef) -> (r: TypeDef)
    ensures
        r@ == t@,
    decreases t,
{
    let mut cases: Vec<VariantCase> = Vec::new();
    let mut i: usize = 0;
    while i < t.cases.len()
        invariant
            i <= t.cases@.len(),
            cases@.len() == i,
            forall|j: int| #![trigger cases@[j]] 0 <= j < i ==> cases@[j]@ == t.cases@[j]@,
        decreases t.cases@.len() - i,
    {
        let c = copy_variant_case(&t.cases[i]);
        cases.push(c);
        i += 1;
    }
    let r = TypeDef { name: t.name.clone(), cases, span: t.span };
    assert(r@.cases =~= t@.cases);
    r
}

fn copy_party_def(p: &PartyDef) -> (r: PartyDef)
    ensures
        r@ == p@,
{
    PartyDef { name: p.name.clone(), span: p.span }
}

fn copy_policy_field(f: &PolicyField) -> (r: PolicyField)
    ensures
        r@ == f@,
    decreases f,
{
    match f {
        PolicyField::Hash(e) => PolicyField::Hash(copy_data_expr(e)),
        PolicyField::Script(e) => PolicyField::Script(copy_data_expr(e)),
        PolicyField::Ref(e) => PolicyField::Ref(copy_data_expr(e)),
    }
}

fn copy_policy_constructor(c: &PolicyConstructor) -> (r: PolicyConstructor)
    ensures
        r@ == c@,
    decreases c,
{
    let mut fields: Vec<PolicyField> = Vec::new();
    let mut i: usize = 0;
    while i < c.fields.len()
        invariant
            i <= c.fields@.len(),
            fields@.len() == i,
            forall|j: int| #![trigger fields@[j]] 0 <= j < i ==> fields@[j]@ == c.fields@[j]@,
        decreases c.fields@.len() - i,
    {
        let f = copy_policy_field(&c.fields[i]);
        fields.push(f);
        i += 1;
    }
    let r = PolicyConstructor { fields, span: c.span };
    assert(r@.fields =~= c@.fields);
    r
}

fn copy_policy_value(v: &PolicyValue) -> (r: PolicyValue)
    ensures
        r@ == v@,
    decreases v,
{
    match v {
        PolicyValue::Constructor(c) => PolicyValue::Constructor(copy_policy_constructor(c)),
        PolicyValue::Assign(h) => PolicyValue::Assign(copy_hex_literal(h)),
    }
}

fn copy_policy_def(p: &PolicyDef) -> (r: PolicyDef)
    ensures
        r@ == p@,
    decreases p,
{
    PolicyDef { name: p.name.clone(), value: copy_policy_value(&p.value), span: p.span }
}

fn copy_asset_def(a: &AssetDef) -> (r: AssetDef)
    ensures
        r@ == a@,
{
    AssetDef {
        name: a.name.clone(),
        policy: copy_hex_literal(&a.policy),
        asset_name: a.asset_name.clone(),
        span: a.span,
    }
}

fn copy_data_expr(e: &DataExpr) -> (r: DataExpr)
    ensures
        r@ == e@,
    decreases e,
{
    match e {
        DataExpr::NoneValue => DataExpr::NoneValue,
        DataExpr::Unit => DataExpr::Unit,
        DataExpr::Number(n) => DataExpr::Number(*n),
        DataExpr::Bool(b) => DataExpr::Bool(*b),
        DataExpr::String(s) => DataExpr::String(copy_string_literal(s)),
        DataExpr::HexString(h) => DataExpr::HexString(copy_hex_literal(h)),
        DataExpr::Constructor(c) => DataExpr::Constructor(copy_datum_constructor(c)),
        DataExpr::Identifier(i) => DataExpr::Identifier(copy_identifier(i)),
        DataExpr::PropertyAccess(p) => DataExpr::PropertyAccess(copy_property_access(p)),
        DataExpr::BinaryOp(b) => DataExpr::BinaryOp(copy_data_binary_op(b)),
    }
}

fn copy_datum_constructor(c: &DatumConstructor) -> (r: DatumConstructor)
    ensures
        r@ == c@,
    decreases c,
{
    DatumConstructor {
        ty: copy_identifier(&c.ty),
        case: copy_variant_case_constructor(&c.case),
        span: c.span,
        scope: share_scope(&c.scope),
    }
}

fn copy_variant_case_constructor(c: &VariantCaseConstructor) -> (r: VariantCaseConstructor)
    ensures
        r@ == c@,
    decreases c,
{
    let mut fields: Vec<RecordConstructorField> = Vec::new();
    let mut i: usize = 0;
    while i < c.fields.len()
        invariant
            i <= c.fields@.len(),
            fields@.len() == i,
            forall|j: int| #![trigger fields@[j]] 0 <= j < i ==> fields@[j]@ == c.fields@[j]@,
        decreases c.fields@.len() - i,
    {
        let f = copy_record_constructor_field(&c.fields[i]);
        fields.push(f);
        i += 1;
    }
    let r = VariantCaseConstructor {
        name: copy_identifier(&c.name),
        fields,
        span: c.span,
        scope: share_scope(&c.scope),
    };
    assert(r@.fields =~= c@.fields);
    r
}

fn copy_record_constructor_field(f: &RecordConstructorField) -> (r: RecordConstructorField)
    ensures
        r@ == f@,
    decreases f,
{
    RecordConstructorField {
        name: copy_identifier(&f.name),
        value: Box::new(copy_data_expr(&f.value)),
        span: f.span,
    }
}

fn copy_data_binary_op(b: &DataBinaryOp) -> (r: DataBinaryOp)
    ensures
        r@ == b@,
    decreases b,
{
    DataBinaryOp {
        left: Box::new(copy_data_expr(&b.left)),
        operator: b.operator,
        right: Box::new(copy_data_expr(&b.right)),
        span: b.span,
    }
}

fn copy_property_access(p: &PropertyAccess) -> (r: PropertyAccess)
    ensures
        r@ == p@,
    decreases p,
{
    let r = PropertyAccess {
        object: copy_identifier(&p.object),
        path: copy_identifiers(&p.path),
        span: p.span,
        scope: share_scope(&p.scope),
    };
    assert(r@.path =~= p@.path);
    r
}

impl Clone for StringLiteral {
    fn clone(&self) -> (r: Self)
        ensures
            r@ == self@,
    {
        copy_string_literal(self)
    }
}

impl Clone for HexStringLiteral {
    fn clone(&self) -> (r: Self)
        ensures
            r@ == self@,
    {
        copy_hex_literal(self)
    }
}

impl Clone for Identifier {
    fn clone(&self) -> (r: Self)
        ensures
            r@ == self@,
    {
        copy_identifier(self)
    }
}

impl Clone for Symbol {
    fn clone(&self) -> (r: Self)
        ensures
            r@ == self@,
    {
        copy_symbol(self)
    }
}

impl Clone for Type {
    fn clone(&self) -> (r: Self)
        ensures
            r@ == self@,
    {
        copy_type(self)
    }
}

impl Clone for RecordField {
    fn clone(&self) -> (r: Self)
        ensures
            r@ == self@,
    {
        copy_record_field(self)
    }
}

impl Clone for VariantCase {
    fn clone(&self) -> (r: Self)
        ensures
            r@ == self@,
    {
        copy_variant_case(self)
    }
}

impl Clone for TypeDef {
    fn clone(&self) -> (r: Self)
        ensures
            r@ == self@,
    {
        copy_type_def(self)
    }
}

impl Clone for PartyDef {
    fn clone(&self) -> (r: Self)
        ensures
            r@ == self@,
    {
        copy_party_def(self)
    }
}

impl Clone for PolicyField {
    fn clone(&self) -> (r: Self)
        ensures
            r@ == self@,
    {
        copy_policy_field(self)
    }
}

impl Clone for PolicyConstructor {
    fn clone(&self) -> (r: Self)
        ensures
            r@ == self@,
    {
        copy_policy_constructor(self)
    }
}

impl Clone for PolicyValue {
    fn clone(&self) -> (r: Self)
        ensures
            r@ == self@,
    {
        copy_policy_value(self)
    }
}

impl Clone for PolicyDef {
    fn clone(&self) -> (r: Self)
        ensures
            r@ == self@,
    {
        copy_policy_def(self)
    }
}

impl Clone for AssetDef {
    fn clone(&self) -> (r: Self)
        ensures
            r@ == self@,
    {
        copy_asset_def(self)
    }
}

impl Clone for DataExpr {
    fn clone(&self) -> (r: Self)
        ensures
            r@ == self@,
    {
        copy_data_expr(self)
    }
}

impl Clone for DatumConstructor {
    fn clone(&self) -> (r: Self)
        ensures
            r@ == self@,
    {
        copy_datum_constructor(self)
    }
}

impl Clone for VariantCaseConstructor {
    fn clone(&self) -> (r: Self)
        ensures
            r@ == self@,
    {
        copy_variant_case_constructor(self)
    }
}

impl Clone for RecordConstructorField {
    fn clone(&self) -> (r: Self)
        ensures
            r@ == self@,
    {
        copy_record_constructor_field(self)
    }
}

impl Clone for DataBinaryOp {
    fn clone(&self) -> (r: Self)
        ensures
            r@ == self@,
    {
        copy_data_binary_op(self)
    }
}

impl Clone for PropertyAccess {
    fn clone(&self) -> (r: Self)
        ensures
            r@ == self@,
    {
        copy_property_access(self)
    }
}

} // verus!
