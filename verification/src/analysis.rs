//! Semantic analysis of a Tx3 program: every name is resolved in the scope
//! where it is used, each node that opens a scope records it, and what
//! cannot be resolved is reported.

use std::rc::Rc;
use vstd::prelude::*;

use crate::ast::{
    AddressExpr, AssetBinaryOp, AssetConstructor, AssetDef, AssetExpr, CardanoBlock,
    ChainSpecificBlock, DataBinaryOp, DataExpr, DatumConstructor, HexStringLiteral, Identifier,
    InputBlock, InputBlockField, MintBlock, MintBlockField, OutputBlock, OutputBlockField,
    PolicyConstructor, PolicyDef, PolicyField, PolicyValue, Program, PropertyAccess,
    RecordConstructorField, RecordField, Span, Symbol, TxDef, Type, TypeDef, VariantCase,
    VariantCaseConstructor, VoteDelegationCertificate,
};
use crate::model::{
    scope_opt_view, SpecAddressExpr, SpecAssetBinaryOp, SpecAssetConstructor, SpecAssetDef,
    SpecAssetExpr, SpecCardanoBlock, SpecChainSpecificBlock, SpecDataBinaryOp, SpecDataExpr,
    SpecDatumConstructor, SpecIdentifier, SpecInputBlock, SpecInputBlockField, SpecMintBlock,
    SpecMintBlockField, SpecOutputBlock, SpecOutputBlockField, SpecParamDef, SpecPartyDef,
    SpecPolicyConstructor, SpecPolicyDef, SpecPolicyField, SpecProgram, SpecPropertyAccess,
    SpecRecordConstructorField, SpecRecordField, SpecScope, SpecSymbol, SpecTxDef, SpecType,
    SpecTypeDef, SpecVariantCase, SpecVariantCaseConstructor, SpecVoteDelegationCertificate,
};
use crate::report::{symbol_debug_text, AnalyzeReport, Error};
use crate::scope::{child_scope, share_scope, Scope};
use crate::semantics::{
    ada, analyze_cardano_block, analyze_chain_specific_block, analyze_input_block,
    analyze_input_block_field, analyze_mint_block, analyze_mint_block_field, analyze_output_block,
    analyze_output_block_field, analyze_policy_constructor, analyze_policy_def,
    analyze_policy_field, analyze_program, analyze_record_field, analyze_tx_def,
    analyze_type_def, analyze_variant_case, analyze_vote_delegation_certificate,
    analyze_address_expr, analyze_asset_binary_op, analyze_asset_constructor, analyze_asset_expr,
    analyze_data_binary_op, analyze_data_expr, analyze_datum_constructor, analyze_each,
    analyze_identifier, analyze_property_access, analyze_record_constructor_field,
    analyze_record_constructor_fields, analyze_type, analyze_variant_case_constructor,
    lemma_analyze_each_step, lemma_bind_each_step, bind_each, Analysis,
    lemma_record_constructor_fields_each, redefinition, duplicate_definitions,
    lemma_duplicate_definitions_push, tx_names, program_names, param_names, input_names,
    party_names, policy_names, asset_names, type_names, tx_def_names, program_scope,
};

verus! {

/// A type that can be semantically analyzed.
///
/// Analysis validates a value and resolves the names in it within a given
/// scope; it reports, in order, what it could not resolve.
pub trait Analyzable: DeepView + Sized {
    /// What analysing a value with model `model` in `scope` leaves and
    /// reports.
    spec fn analysis(model: Self::V, scope: Option<SpecScope>) -> Analysis<Self::V>;

    /// Performs semantic analysis with `parent` as the enclosing scope, and
    /// returns the report of it: empty if no errors are found.
    fn analyze(&mut self, parent: Option<Rc<Scope>>) -> (report: AnalyzeReport)
        ensures
            Self::analysis(old(self).deep_view(), scope_opt_view(parent)) == Some(
                (final(self).deep_view(), report@),
            ),
    ;
}

/// The analysis of `T` in `scope`, as a function of the model alone.
pub open spec fn analyzer<T: Analyzable>(scope: Option<SpecScope>) -> spec_fn(T::V) -> Analysis<T::V> {
    |x: T::V| T::analysis(x, scope)
}

impl<T: Analyzable> Analyzable for Option<T> {
    open spec fn analysis(model: Option<T::V>, scope: Option<SpecScope>) -> Analysis<Option<T::V>> {
        match model {
            Some(x) => match T::analysis(x, scope) {
                Some((y, errs)) => Some((Some(y), errs)),
                None => None,
            },
            None => Some((None, Seq::empty())),
        }
    }

    fn analyze(&mut self, parent: Option<Rc<Scope>>) -> (report: AnalyzeReport) {
        if let Some(item) = self {
            item.analyze(parent)
        } else {
            AnalyzeReport::default()
        }
    }
}

impl<T: Analyzable> Analyzable for Box<T> {
    open spec fn analysis(model: T::V, scope: Option<SpecScope>) -> Analysis<T::V> {
        T::analysis(model, scope)
    }

    fn analyze(&mut self, parent: Option<Rc<Scope>>) -> (report: AnalyzeReport) {
        (**self).analyze(parent)
    }
}

impl<T: Analyzable> Analyzable for Vec<T> {
    open spec fn analysis(model: Seq<T::V>, scope: Option<SpecScope>) -> Analysis<Seq<T::V>> {
        analyze_each(model, analyzer::<T>(scope))
    }

    fn analyze(&mut self, parent: Option<Rc<Scope>>) -> (report: AnalyzeReport) {
        let ghost scope = scope_opt_view(parent);
        let ghost f = analyzer::<T>(scope);
        let ghost start = old(self).deep_view();
        let mut report = AnalyzeReport::default();
        let mut i: usize = 0;
        proof {
            assert(start.take(0) =~= Seq::<T::V>::empty());
            assert(self.deep_view().take(0) =~= Seq::<T::V>::empty());
        }
        while i < self.len()
            invariant
                scope == scope_opt_view(parent),
                f == analyzer::<T>(scope),
                start.len() == self@.len(),
                i <= self@.len(),
                forall|j: int| i <= j < start.len() ==> #[trigger] self@[j].deep_view() == start[j],
                analyze_each(start.take(i as int), f) == Some((self.deep_view().take(i as int), report@)),
            decreases start.len() - i,
        {
            proof {
                lemma_analyze_each_step(start, f, i as int);
            }
            let ghost before = self.deep_view();
            let item = &mut self[i];
            let r = item.analyze(share_scope(&parent));
            report = report + r;
            proof {
                assert(self.deep_view().take(i + 1) =~= before.take(i as int).push(self@[i as int].deep_view()));
            }
            i += 1;
        }
        proof {
            assert(start.take(start.len() as int) =~= start);
            assert(self.deep_view().take(start.len() as int) =~= self.deep_view());
        }
        report
    }
}

impl Analyzable for Identifier {
    open spec fn analysis(model: SpecIdentifier, scope: Option<SpecScope>) -> Analysis<SpecIdentifier> {
        analyze_identifier(model, scope)
    }

    /// Resolves the name in `parent`; a name that resolves to nothing is
    /// reported and keeps the symbol it had.
    fn analyze(&mut self, parent: Option<Rc<Scope>>) -> (report: AnalyzeReport) {
        let symbol = match &parent {
            Some(p) => p.resolve(self.value.as_str()),
            None => None,
        };
        if symbol.is_none() {
            return AnalyzeReport::from(Error::not_in_scope(self.value.clone(), self));
        }
        self.symbol = symbol;
        AnalyzeReport::default()
    }
}


impl Analyzable for Type {
    open spec fn analysis(model: SpecType, scope: Option<SpecScope>) -> Analysis<SpecType> {
        analyze_type(model, scope)
    }

    /// Only a named type refers to anything.
    fn analyze(&mut self, parent: Option<Rc<Scope>>) -> (report: AnalyzeReport) {
        match self {
            Type::Custom(x) => x.analyze(parent),
            _ => AnalyzeReport::default(),
        }
    }
}

impl Analyzable for AddressExpr {
    open spec fn analysis(model: SpecAddressExpr, scope: Option<SpecScope>) -> Analysis<SpecAddressExpr> {
        analyze_address_expr(model, scope)
    }

    fn analyze(&mut self, parent: Option<Rc<Scope>>) -> (report: AnalyzeReport) {
        match self {
            AddressExpr::Identifier(x) => x.analyze(parent),
            _ => AnalyzeReport::default(),
        }
    }
}

impl Analyzable for PropertyAccess {
    open spec fn analysis(model: SpecPropertyAccess, scope: Option<SpecScope>) -> Analysis<SpecPropertyAccess> {
        analyze_property_access(model, scope)
    }

    /// The object is resolved in `parent`; the path in a new scope nested
    /// in it, which the node keeps.
    fn analyze(&mut self, parent: Option<Rc<Scope>>) -> (report: AnalyzeReport) {
        let ghost scope = scope_opt_view(parent);
        let object = self.object.analyze(share_scope(&parent));
        self.scope = Some(Rc::new(Scope::new(parent)));
        proof {
            let inner = Some(child_scope(scope));
            assert(analyzer::<Identifier>(inner) =~= (|i: SpecIdentifier| analyze_identifier(i, inner)));
            assert(crate::model::identifiers_view(old(self).path@) =~= old(self).path.deep_view());
        }
        let path = self.path.analyze(share_scope(&self.scope));
        proof {
            assert(crate::model::identifiers_view(self.path@) =~= self.path.deep_view());
        }
        object + path
    }
}

impl DataExpr {
    pub fn analyze_in(&mut self, parent: Option<Rc<Scope>>) -> (report: AnalyzeReport)
        ensures
            analyze_data_expr(old(self)@, scope_opt_view(parent)) == Some((final(self)@, report@)),
        decreases *old(self),
    {
        match self {
            DataExpr::Constructor(x) => x.analyze_in(parent),
            DataExpr::Identifier(x) => x.analyze(parent),
            DataExpr::PropertyAccess(x) => x.analyze(parent),
            DataExpr::BinaryOp(x) => x.analyze_in(parent),
            _ => AnalyzeReport::default(),
        }
    }
}

impl DataBinaryOp {
    pub fn analyze_in(&mut self, parent: Option<Rc<Scope>>) -> (report: AnalyzeReport)
        ensures
            analyze_data_binary_op(old(self)@, scope_opt_view(parent)) == Some((final(self)@, report@)),
        decreases *old(self),
    {
        let left = self.left.analyze_in(share_scope(&parent));
        let right = self.right.analyze_in(share_scope(&parent));
        left + right
    }
}

impl RecordConstructorField {
    pub fn analyze_in(&mut self, parent: Option<Rc<Scope>>) -> (report: AnalyzeReport)
        ensures
            analyze_record_constructor_field(old(self)@, scope_opt_view(parent)) == Some(
                (final(self)@, report@),
            ),
        decreases *old(self),
    {
        let name = self.name.analyze(share_scope(&parent));
        let value = self.value.analyze_in(share_scope(&parent));
        name + value
    }
}


/// Analyses the fields of a record constructor in turn.
fn analyze_record_constructor_fields_in(
    fields: &mut Vec<RecordConstructorField>,
    parent: Option<Rc<Scope>>,
) -> (report: AnalyzeReport)
    ensures
        analyze_record_constructor_fields(old(fields).deep_view(), scope_opt_view(parent)) == Some(
            (final(fields).deep_view(), report@),
        ),
    decreases *old(fields),
{
    let ghost scope = scope_opt_view(parent);
    let ghost f = |x: SpecRecordConstructorField| analyze_record_constructor_field(x, scope);
    let ghost start = old(fields).deep_view();
    proof {
        lemma_record_constructor_fields_each(start, scope);
    }
    let mut report = AnalyzeReport::default();
    let mut i: usize = 0;
    proof {
        assert(start.take(0) =~= Seq::<SpecRecordConstructorField>::empty());
        assert(fields.deep_view().take(0) =~= Seq::<SpecRecordConstructorField>::empty());
    }
    while i < fields.len()
        invariant
            scope == scope_opt_view(parent),
            f == (|x: SpecRecordConstructorField| analyze_record_constructor_field(x, scope)),
            start == old(fields).deep_view(),
            start.len() == fields@.len(),
            i <= fields@.len(),
            forall|j: int| i <= j < start.len() ==> #[trigger] fields@[j] == old(fields)@[j],
            analyze_each(start.take(i as int), f) == Some((fields.deep_view().take(i as int), report@)),
        decreases start.len() - i,
    {
        proof {
            lemma_analyze_each_step(start, f, i as int);
        }
        let ghost before = fields.deep_view();
        let item = &mut fields[i];
        let r = item.analyze_in(share_scope(&parent));
        report = report + r;
        proof {
            assert(fields.deep_view().take(i + 1) =~= before.take(i as int).push(fields@[i as int].deep_view()));
        }
        i += 1;
    }
    proof {
        assert(start.take(start.len() as int) =~= start);
        assert(fields.deep_view().take(start.len() as int) =~= fields.deep_view());
        lemma_record_constructor_fields_each(start, scope);
    }
    report
}

impl VariantCaseConstructor {
    pub fn analyze_in(&mut self, parent: Option<Rc<Scope>>) -> (report: AnalyzeReport)
        ensures
            analyze_variant_case_constructor(old(self)@, scope_opt_view(parent)) == Some(
                (final(self)@, report@),
            ),
            final(self).name.symbol is Some && !(final(self).name.symbol.unwrap() is VariantCase) ==> (
            report.errors@.len() == 1 && (report.errors@[0] matches Error::InvalidSymbol(x) && x.got@
                == symbol_debug_text(final(self).name.symbol.unwrap()))),
        decreases *old(self),
    {
        let ghost scope = scope_opt_view(parent);
        let name = self.name.analyze(share_scope(&parent));
        let mut inner = Scope::new(parent);
        let case = match &self.name.symbol {
            Some(Symbol::VariantCase(x)) => x,
            Some(x) => {
                return AnalyzeReport::from(Error::invalid_symbol("VariantCase", x, &self.name));
            },
            None => {
                return name;
            },
        };
        let ghost case_model: SpecVariantCase = (**case)@;
        let mut k: usize = 0;
        proof {
            assert(case_model.fields.take(0) =~= Seq::<SpecRecordField>::empty());
        }
        while k < case.fields.len()
            invariant
                case_model == (**case)@,
                k <= case.fields@.len(),
                inner@ == bind_each(
                    child_scope(scope),
                    case_model.fields.take(k as int),
                    |f: SpecRecordField| f.name,
                    |f: SpecRecordField| SpecSymbol::RecordField(Box::new(f)),
                ),
            decreases case.fields@.len() - k,
        {
            proof {
                lemma_bind_each_step(
                    child_scope(scope),
                    case_model.fields,
                    |f: SpecRecordField| f.name,
                    |f: SpecRecordField| SpecSymbol::RecordField(Box::new(f)),
                    k as int,
                );
            }
            inner.track_record_field(&case.fields[k]);
            k += 1;
        }
        proof {
            assert(case_model.fields.take(case_model.fields.len() as int) =~= case_model.fields);
        }
        self.scope = Some(Rc::new(inner));
        proof {
            assert(old(self)@.fields =~= old(self).fields.deep_view());
        }
        let fields = analyze_record_constructor_fields_in(&mut self.fields, share_scope(&self.scope));
        proof {
            assert(self@.fields =~= self.fields.deep_view());
        }
        name + fields
    }
}

impl DatumConstructor {
    pub fn analyze_in(&mut self, parent: Option<Rc<Scope>>) -> (report: AnalyzeReport)
        ensures
            analyze_datum_constructor(old(self)@, scope_opt_view(parent)) == Some(
                (final(self)@, report@),
            ),
            final(self).ty.symbol is Some && !(final(self).ty.symbol.unwrap() is TypeDef) ==> (
            report.errors@.len() == 1 && (report.errors@[0] matches Error::InvalidSymbol(x) && x.got@
                == symbol_debug_text(final(self).ty.symbol.unwrap()))),
        decreases *old(self),
    {
        let ghost scope = scope_opt_view(parent);
        let ty = self.ty.analyze(share_scope(&parent));
        let mut inner = Scope::new(parent);
        let def = match &self.ty.symbol {
            Some(Symbol::TypeDef(x)) => x,
            Some(x) => {
                return AnalyzeReport::from(Error::invalid_symbol("TypeDef", x, &self.ty));
            },
            None => {
                return ty;
            },
        };
        let ghost def_model: SpecTypeDef = (**def)@;
        let mut k: usize = 0;
        proof {
            assert(def_model.cases.take(0) =~= Seq::<SpecVariantCase>::empty());
        }
        while k < def.cases.len()
            invariant
                def_model == (**def)@,
                k <= def.cases@.len(),
                inner@ == bind_each(
                    child_scope(scope),
                    def_model.cases.take(k as int),
                    |c: SpecVariantCase| c.name,
                    |c: SpecVariantCase| SpecSymbol::VariantCase(Box::new(c)),
                ),
            decreases def.cases@.len() - k,
        {
            proof {
                lemma_bind_each_step(
                    child_scope(scope),
                    def_model.cases,
                    |c: SpecVariantCase| c.name,
                    |c: SpecVariantCase| SpecSymbol::VariantCase(Box::new(c)),
                    k as int,
                );
            }
            inner.track_variant_case(&def.cases[k]);
            k += 1;
        }
        proof {
            assert(def_model.cases.take(def_model.cases.len() as int) =~= def_model.cases);
        }
        self.scope = Some(Rc::new(inner));
        let case = self.case.analyze_in(share_scope(&self.scope));
        ty + case
    }
}


impl AssetExpr {
    pub fn analyze_in(&mut self, parent: Option<Rc<Scope>>) -> (report: AnalyzeReport)
        ensures
            analyze_asset_expr(old(self)@, scope_opt_view(parent)) == Some((final(self)@, report@)),
        decreases *old(self),
    {
        match self {
            AssetExpr::Identifier(x) => x.analyze(parent),
            AssetExpr::Constructor(x) => x.analyze(parent),
            AssetExpr::BinaryOp(x) => x.analyze_in(parent),
            AssetExpr::PropertyAccess(x) => x.analyze(parent),
        }
    }
}

impl AssetBinaryOp {
    pub fn analyze_in(&mut self, parent: Option<Rc<Scope>>) -> (report: AnalyzeReport)
        ensures
            analyze_asset_binary_op(old(self)@, scope_opt_view(parent)) == Some((final(self)@, report@)),
        decreases *old(self),
    {
        let left = self.left.analyze_in(share_scope(&parent));
        let right = self.right.analyze_in(share_scope(&parent));
        left + right
    }
}

impl Analyzable for DataExpr {
    open spec fn analysis(model: SpecDataExpr, scope: Option<SpecScope>) -> Analysis<SpecDataExpr> {
        analyze_data_expr(model, scope)
    }

    fn analyze(&mut self, parent: Option<Rc<Scope>>) -> (report: AnalyzeReport) {
        self.analyze_in(parent)
    }
}

impl Analyzable for DatumConstructor {
    open spec fn analysis(model: SpecDatumConstructor, scope: Option<SpecScope>) -> Analysis<SpecDatumConstructor> {
        analyze_datum_constructor(model, scope)
    }

    fn analyze(&mut self, parent: Option<Rc<Scope>>) -> (report: AnalyzeReport)
        ensures
            final(self).ty.symbol is Some && !(final(self).ty.symbol.unwrap() is TypeDef) ==> (
            report.errors@.len() == 1 && (report.errors@[0] matches Error::InvalidSymbol(x) && x.got@
                == symbol_debug_text(final(self).ty.symbol.unwrap()))),
    {
        self.analyze_in(parent)
    }
}

impl Analyzable for VariantCaseConstructor {
    open spec fn analysis(model: SpecVariantCaseConstructor, scope: Option<SpecScope>) -> Analysis<SpecVariantCaseConstructor> {
        analyze_variant_case_constructor(model, scope)
    }

    fn analyze(&mut self, parent: Option<Rc<Scope>>) -> (report: AnalyzeReport)
        ensures
            final(self).name.symbol is Some && !(final(self).name.symbol.unwrap() is VariantCase) ==> (
            report.errors@.len() == 1 && (report.errors@[0] matches Error::InvalidSymbol(x) && x.got@
                == symbol_debug_text(final(self).name.symbol.unwrap()))),
    {
        self.analyze_in(parent)
    }
}

impl Analyzable for RecordConstructorField {
    open spec fn analysis(model: SpecRecordConstructorField, scope: Option<SpecScope>) -> Analysis<SpecRecordConstructorField> {
        analyze_record_constructor_field(model, scope)
    }

    fn analyze(&mut self, parent: Option<Rc<Scope>>) -> (report: AnalyzeReport) {
        self.analyze_in(parent)
    }
}

impl Analyzable for DataBinaryOp {
    open spec fn analysis(model: SpecDataBinaryOp, scope: Option<SpecScope>) -> Analysis<SpecDataBinaryOp> {
        analyze_data_binary_op(model, scope)
    }

    fn analyze(&mut self, parent: Option<Rc<Scope>>) -> (report: AnalyzeReport) {
        self.analyze_in(parent)
    }
}

impl Analyzable for AssetExpr {
    open spec fn analysis(model: SpecAssetExpr, scope: Option<SpecScope>) -> Analysis<SpecAssetExpr> {
        analyze_asset_expr(model, scope)
    }

    fn analyze(&mut self, parent: Option<Rc<Scope>>) -> (report: AnalyzeReport) {
        self.analyze_in(parent)
    }
}

impl Analyzable for AssetBinaryOp {
    open spec fn analysis(model: SpecAssetBinaryOp, scope: Option<SpecScope>) -> Analysis<SpecAssetBinaryOp> {
        analyze_asset_binary_op(model, scope)
    }

    fn analyze(&mut self, parent: Option<Rc<Scope>>) -> (report: AnalyzeReport) {
        self.analyze_in(parent)
    }
}

impl Analyzable for AssetConstructor {
    open spec fn analysis(model: SpecAssetConstructor, scope: Option<SpecScope>) -> Analysis<SpecAssetConstructor> {
        analyze_asset_constructor(model, scope)
    }

    /// The amount is analysed before the asset's name.
    fn analyze(&mut self, parent: Option<Rc<Scope>>) -> (report: AnalyzeReport) {
        let amount = self.amount.analyze_in(share_scope(&parent));
        let ty = self.ty.analyze(share_scope(&parent));
        amount + ty
    }
}

impl Analyzable for InputBlockField {
    open spec fn analysis(model: SpecInputBlockField, scope: Option<SpecScope>) -> Analysis<SpecInputBlockField> {
        analyze_input_block_field(model, scope)
    }

    fn analyze(&mut self, parent: Option<Rc<Scope>>) -> (report: AnalyzeReport) {
        match self {
            InputBlockField::From(x) => x.analyze(parent),
            InputBlockField::DatumIs(x) => x.analyze(parent),
            InputBlockField::MinAmount(x) => x.analyze(parent),
            InputBlockField::Redeemer(x) => x.analyze(parent),
            InputBlockField::Ref(x) => x.analyze(parent),
        }
    }
}

impl Analyzable for InputBlock {
    open spec fn analysis(model: SpecInputBlock, scope: Option<SpecScope>) -> Analysis<SpecInputBlock> {
        analyze_input_block(model, scope)
    }

    fn analyze(&mut self, parent: Option<Rc<Scope>>) -> (report: AnalyzeReport) {
        proof {
            let scope = scope_opt_view(parent);
            assert(analyzer::<InputBlockField>(scope) =~= (|f: SpecInputBlockField| analyze_input_block_field(f, scope)));
        }
        self.fields.analyze(parent)
    }
}

impl Analyzable for OutputBlockField {
    open spec fn analysis(model: SpecOutputBlockField, scope: Option<SpecScope>) -> Analysis<SpecOutputBlockField> {
        analyze_output_block_field(model, scope)
    }

    fn analyze(&mut self, parent: Option<Rc<Scope>>) -> (report: AnalyzeReport) {
        match self {
            OutputBlockField::To(x) => x.analyze(parent),
            OutputBlockField::Amount(x) => x.analyze(parent),
            OutputBlockField::Datum(x) => x.analyze(parent),
        }
    }
}

impl Analyzable for OutputBlock {
    open spec fn analysis(model: SpecOutputBlock, scope: Option<SpecScope>) -> Analysis<SpecOutputBlock> {
        analyze_output_block(model, scope)
    }

    fn analyze(&mut self, parent: Option<Rc<Scope>>) -> (report: AnalyzeReport) {
        proof {
            let scope = scope_opt_view(parent);
            assert(analyzer::<OutputBlockField>(scope) =~= (|f: SpecOutputBlockField| analyze_output_block_field(f, scope)));
        }
        self.fields.analyze(parent)
    }
}

impl Analyzable for MintBlockField {
    open spec fn analysis(model: SpecMintBlockField, scope: Option<SpecScope>) -> Analysis<SpecMintBlockField> {
        analyze_mint_block_field(model, scope)
    }

    fn analyze(&mut self, parent: Option<Rc<Scope>>) -> (report: AnalyzeReport) {
        match self {
            MintBlockField::Amount(x) => x.analyze(parent),
            MintBlockField::Redeemer(x) => x.analyze(parent),
        }
    }
}

impl Analyzable for MintBlock {
    open spec fn analysis(model: SpecMintBlock, scope: Option<SpecScope>) -> Analysis<SpecMintBlock> {
        analyze_mint_block(model, scope)
    }

    fn analyze(&mut self, parent: Option<Rc<Scope>>) -> (report: AnalyzeReport) {
        proof {
            let scope = scope_opt_view(parent);
            assert(analyzer::<MintBlockField>(scope) =~= (|f: SpecMintBlockField| analyze_mint_block_field(f, scope)));
        }
        self.fields.analyze(parent)
    }
}

impl Analyzable for VoteDelegationCertificate {
    open spec fn analysis(model: SpecVoteDelegationCertificate, scope: Option<SpecScope>) -> Analysis<SpecVoteDelegationCertificate> {
        analyze_vote_delegation_certificate(model, scope)
    }

    fn analyze(&mut self, parent: Option<Rc<Scope>>) -> (report: AnalyzeReport) {
        let drep = self.drep.analyze(share_scope(&parent));
        let stake = self.stake.analyze(parent);
        drep + stake
    }
}

impl Analyzable for CardanoBlock {
    open spec fn analysis(model: SpecCardanoBlock, scope: Option<SpecScope>) -> Analysis<SpecCardanoBlock> {
        analyze_cardano_block(model, scope)
    }

    fn analyze(&mut self, parent: Option<Rc<Scope>>) -> (report: AnalyzeReport) {
        match self {
            CardanoBlock::VoteDelegationCertificate(x) => x.analyze(parent),
        }
    }
}

impl Analyzable for ChainSpecificBlock {
    open spec fn analysis(model: SpecChainSpecificBlock, scope: Option<SpecScope>) -> Analysis<SpecChainSpecificBlock> {
        analyze_chain_specific_block(model, scope)
    }

    fn analyze(&mut self, parent: Option<Rc<Scope>>) -> (report: AnalyzeReport) {
        match self {
            ChainSpecificBlock::Cardano(x) => x.analyze(parent),
        }
    }
}

impl Analyzable for RecordField {
    open spec fn analysis(model: SpecRecordField, scope: Option<SpecScope>) -> Analysis<SpecRecordField> {
        analyze_record_field(model, scope)
    }

    fn analyze(&mut self, parent: Option<Rc<Scope>>) -> (report: AnalyzeReport) {
        self.ty.analyze(parent)
    }
}

impl Analyzable for VariantCase {
    open spec fn analysis(model: SpecVariantCase, scope: Option<SpecScope>) -> Analysis<SpecVariantCase> {
        analyze_variant_case(model, scope)
    }

    fn analyze(&mut self, parent: Option<Rc<Scope>>) -> (report: AnalyzeReport) {
        proof {
            let scope = scope_opt_view(parent);
            assert(analyzer::<RecordField>(scope) =~= (|f: SpecRecordField| analyze_record_field(f, scope)));
            assert(old(self)@.fields =~= old(self).fields.deep_view());
        }
        let report = self.fields.analyze(parent);
        proof {
            assert(self@.fields =~= self.fields.deep_view());
        }
        report
    }
}

impl Analyzable for TypeDef {
    open spec fn analysis(model: SpecTypeDef, scope: Option<SpecScope>) -> Analysis<SpecTypeDef> {
        analyze_type_def(model, scope)
    }

    fn analyze(&mut self, parent: Option<Rc<Scope>>) -> (report: AnalyzeReport) {
        proof {
            let scope = scope_opt_view(parent);
            assert(analyzer::<VariantCase>(scope) =~= (|c: SpecVariantCase| analyze_variant_case(c, scope)));
            assert(old(self)@.cases =~= old(self).cases.deep_view());
        }
        let report = self.cases.analyze(parent);
        proof {
            assert(self@.cases =~= self.cases.deep_view());
        }
        report
    }
}

impl Analyzable for PolicyField {
    open spec fn analysis(model: SpecPolicyField, scope: Option<SpecScope>) -> Analysis<SpecPolicyField> {
        analyze_policy_field(model, scope)
    }

    fn analyze(&mut self, parent: Option<Rc<Scope>>) -> (report: AnalyzeReport) {
        match self {
            PolicyField::Hash(x) => x.analyze(parent),
            PolicyField::Script(x) => x.analyze(parent),
            PolicyField::Ref(x) => x.analyze(parent),
        }
    }
}

impl Analyzable for PolicyConstructor {
    open spec fn analysis(model: SpecPolicyConstructor, scope: Option<SpecScope>) -> Analysis<SpecPolicyConstructor> {
        analyze_policy_constructor(model, scope)
    }

    fn analyze(&mut self, parent: Option<Rc<Scope>>) -> (report: AnalyzeReport) {
        proof {
            let scope = scope_opt_view(parent);
            assert(analyzer::<PolicyField>(scope) =~= (|f: SpecPolicyField| analyze_policy_field(f, scope)));
            assert(old(self)@.fields =~= old(self).fields.deep_view());
        }
        let report = self.fields.analyze(parent);
        proof {
            assert(self@.fields =~= self.fields.deep_view());
        }
        report
    }
}

impl Analyzable for PolicyDef {
    open spec fn analysis(model: SpecPolicyDef, scope: Option<SpecScope>) -> Analysis<SpecPolicyDef> {
        analyze_policy_def(model, scope)
    }

    /// A policy given by its hash alone has nothing to resolve.
    fn analyze(&mut self, parent: Option<Rc<Scope>>) -> (report: AnalyzeReport) {
        match &mut self.value {
            PolicyValue::Constructor(x) => x.analyze(parent),
            PolicyValue::Assign(_) => AnalyzeReport::default(),
        }
    }
}

/// Records that a scope is about to bind `name`: a name already among
/// `seen` is a duplicate definition, added to `dups`.
fn note_definition(seen: &mut Vec<String>, dups: &mut Vec<Error>, name: &String)
    ensures
        final(seen).deep_view() == old(seen).deep_view().push(name@),
        final(dups).deep_view() == old(dups).deep_view() + redefinition(old(seen).deep_view(), name@),
{
    let ghost before = seen.deep_view();
    let ghost dups_before = dups.deep_view();
    let mut j: usize = 0;
    while j < seen.len()
        invariant
            j <= seen@.len(),
            before == seen.deep_view(),
            dups_before == dups.deep_view(),
            before == old(seen).deep_view(),
            dups_before == old(dups).deep_view(),
            forall|i: int| 0 <= i < j ==> #[trigger] seen@[i]@ != name@,
        decreases seen@.len() - j,
    {
        if seen[j] == *name {
            proof {
                assert(before[j as int] == name@);
            }
            dups.push(Error::DuplicateDefinition(name.clone()));
            seen.push(name.clone());
            proof {
                assert(seen.deep_view() =~= before.push(name@));
                assert(dups.deep_view() =~= dups_before + redefinition(before, name@));
            }
            return;
        }
        j += 1;
    }
    proof {
        assert forall|i: int| 0 <= i < before.len() implies before[i] != name@ by {
            assert(before[i] == seen@[i]@);
        }
        assert(!before.contains(name@));
    }
    seen.push(name.clone());
    proof {
        assert(seen.deep_view() =~= before.push(name@));
        assert(dups.deep_view() =~= dups_before + redefinition(before, name@));
    }
}

/// The duplicate definitions among the names a scope binds, in order.
fn duplicates_among(names: &Vec<String>) -> (dups: Vec<Error>)
    ensures
        dups.deep_view() == duplicate_definitions(names.deep_view()),
{
    let mut seen: Vec<String> = Vec::new();
    let mut dups: Vec<Error> = Vec::new();
    let mut i: usize = 0;
    proof {
        assert(names.deep_view().take(0) =~= Seq::<Seq<char>>::empty());
        assert(dups.deep_view() =~= Seq::<crate::report::SpecError>::empty());
    }
    while i < names.len()
        invariant
            i <= names@.len(),
            seen.deep_view() == names.deep_view().take(i as int),
            dups.deep_view() == duplicate_definitions(seen.deep_view()),
        decreases names@.len() - i,
    {
        proof {
            lemma_duplicate_definitions_push(seen.deep_view(), names@[i as int]@);
            assert(names.deep_view().take(i + 1) =~= names.deep_view().take(i as int).push(names@[i as int]@));
        }
        note_definition(&mut seen, &mut dups, &names[i]);
        i += 1;
    }
    proof {
        assert(names.deep_view().take(i as int) =~= names.deep_view());
    }
    dups
}

/// The names a transaction's scope binds, in order.
fn tx_defined_names(tx: &TxDef) -> (names: Vec<String>)
    ensures
        names.deep_view() == tx_names(tx@),
{
    let ghost params = tx.parameters.parameters.deep_view();
    let ghost inputs = tx.inputs.deep_view();
    let mut names: Vec<String> = Vec::new();
    let ghost base = names.deep_view();
    proof {
        assert(base =~= Seq::<Seq<char>>::empty());
        assert(param_names(params.take(0)) =~= Seq::<Seq<char>>::empty());
    }
    let mut k: usize = 0;
    while k < tx.parameters.parameters.len()
        invariant
            params == tx.parameters.parameters.deep_view(),
            k <= params.len(),
            names.deep_view() == base + param_names(params.take(k as int)),
        decreases params.len() - k,
    {
        proof {
            assert(param_names(params.take(k + 1)) =~= param_names(params.take(k as int)).push(params[k as int].name));
        }
        let ghost before = names.deep_view();
        let name = tx.parameters.parameters[k].name.clone();
        assert(name@ == params[k as int].name);
        names.push(name);
        proof {
            assert(names.deep_view() =~= before.push(params[k as int].name));
            assert(names.deep_view() =~= base + param_names(params.take(k + 1)));
        }
        k += 1;
    }
    proof {
        assert(params.take(params.len() as int) =~= params);
    }
    let ghost mid = names.deep_view();
    proof {
        assert(input_names(inputs.take(0)) =~= Seq::<Seq<char>>::empty());
    }
    let mut k: usize = 0;
    while k < tx.inputs.len()
        invariant
            inputs == tx.inputs.deep_view(),
            k <= inputs.len(),
            names.deep_view() == mid + input_names(inputs.take(k as int)),
        decreases inputs.len() - k,
    {
        proof {
            assert(input_names(inputs.take(k + 1)) =~= input_names(inputs.take(k as int)).push(inputs[k as int].name));
        }
        let ghost before = names.deep_view();
        let name = tx.inputs[k].name.clone();
        assert(name@ == inputs[k as int].name);
        names.push(name);
        proof {
            assert(names.deep_view() =~= before.push(inputs[k as int].name));
            assert(names.deep_view() =~= mid + input_names(inputs.take(k + 1)));
        }
        k += 1;
    }
    proof {
        assert(inputs.take(inputs.len() as int) =~= inputs);
        assert(tx@.parameters.parameters =~= params);
        assert(tx@.inputs =~= inputs);
    }
    names
}

impl Analyzable for TxDef {
    open spec fn analysis(model: SpecTxDef, scope: Option<SpecScope>) -> Analysis<SpecTxDef> {
        analyze_tx_def(model, scope)
    }

    /// Opens the transaction's scope, which binds `fees`, the parameters
    /// and the inputs, reporting each parameter or input name defined a
    /// second time; then
    /// analyses inputs, outputs, the mint block and the chain-specific
    /// blocks in it.
    fn analyze(&mut self, parent: Option<Rc<Scope>>) -> (report: AnalyzeReport) {
        let names = tx_defined_names(self);
        let dups = duplicates_among(&names);
        let ghost outer = scope_opt_view(parent);
        let ghost params = self.parameters.parameters.deep_view();
        let ghost inputs_model = self.inputs.deep_view();
        let mut scope = Scope::new(parent);
        scope.insert("fees".to_owned(), Symbol::Fees);
        let ghost with_fees = scope@;
        let mut k: usize = 0;
        proof {
            assert(params.take(0) =~= Seq::<SpecParamDef>::empty());
        }
        while k < self.parameters.parameters.len()
            invariant
                params == self.parameters.parameters.deep_view(),
                k <= params.len(),
                scope@ == bind_each(
                    with_fees,
                    params.take(k as int),
                    |p: SpecParamDef| p.name,
                    |p: SpecParamDef| SpecSymbol::ParamVar(p.name, Box::new(p.ty)),
                ),
            decreases params.len() - k,
        {
            proof {
                lemma_bind_each_step(
                    with_fees,
                    params,
                    |p: SpecParamDef| p.name,
                    |p: SpecParamDef| SpecSymbol::ParamVar(p.name, Box::new(p.ty)),
                    k as int,
                );
            }
            let param = &self.parameters.parameters[k];
            scope.track_param_var(param.name.as_str(), param.ty.clone());
            k += 1;
        }
        proof {
            assert(params.take(params.len() as int) =~= params);
        }
        let ghost with_params = scope@;
        let mut k: usize = 0;
        proof {
            assert(inputs_model.take(0) =~= Seq::<SpecInputBlock>::empty());
        }
        while k < self.inputs.len()
            invariant
                inputs_model == self.inputs.deep_view(),
                k <= inputs_model.len(),
                scope@ == bind_each(
                    with_params,
                    inputs_model.take(k as int),
                    |i: SpecInputBlock| i.name,
                    |i: SpecInputBlock| SpecSymbol::Input(i.name),
                ),
            decreases inputs_model.len() - k,
        {
            proof {
                lemma_bind_each_step(
                    with_params,
                    inputs_model,
                    |i: SpecInputBlock| i.name,
                    |i: SpecInputBlock| SpecSymbol::Input(i.name),
                    k as int,
                );
            }
            scope.track_input(&self.inputs[k]);
            k += 1;
        }
        proof {
            assert(inputs_model.take(inputs_model.len() as int) =~= inputs_model);
        }
        self.scope = Some(Rc::new(scope));
        proof {
            let inner = scope_opt_view(self.scope);
            assert(analyzer::<InputBlock>(inner) =~= (|b: SpecInputBlock| analyze_input_block(b, inner)));
            assert(analyzer::<OutputBlock>(inner) =~= (|b: SpecOutputBlock| analyze_output_block(b, inner)));
            assert(analyzer::<ChainSpecificBlock>(inner) =~= (|b: SpecChainSpecificBlock| analyze_chain_specific_block(b, inner)));
        }
        let inputs = self.inputs.analyze(share_scope(&self.scope));
        let outputs = self.outputs.analyze(share_scope(&self.scope));
        let mint = self.mint.analyze(share_scope(&self.scope));
        let adhoc = self.adhoc.analyze(share_scope(&self.scope));
        AnalyzeReport::from(dups) + inputs + outputs + mint + adhoc
    }
}

/// The asset every program knows, with an empty policy and asset name.
pub fn ada_asset_def() -> (a: AssetDef)
    ensures
        a@ == ada(),
{
    AssetDef {
        name: "Ada".to_owned(),
        policy: HexStringLiteral::new("".to_owned()),
        asset_name: "".to_owned(),
        span: Span::dummy(),
    }
}

/// The names a program defines, in order: those its scope binds, then
/// its transactions.
fn program_defined_names(p: &Program) -> (names: Vec<String>)
    ensures
        names.deep_view() == program_names(p@),
{
    let ghost parties = p.parties.deep_view();
    let ghost policies = p.policies.deep_view();
    let ghost assets = p.assets.deep_view();
    let ghost types = p.types.deep_view();
    let ghost txs = p.txs.deep_view();
    let mut names: Vec<String> = Vec::new();
    let ghost start_parties = names.deep_view();
    proof {
        assert(party_names(parties.take(0)) =~= Seq::<Seq<char>>::empty());
        assert(start_parties + party_names(parties.take(0)) =~= start_parties);
    }
    let mut k: usize = 0;
    while k < p.parties.len()
        invariant
            parties == p.parties.deep_view(),
            k <= parties.len(),
            names.deep_view() == start_parties + party_names(parties.take(k as int)),
        decreases parties.len() - k,
    {
        proof {
            assert(party_names(parties.take(k + 1)) =~= party_names(parties.take(k as int)).push(parties[k as int].name));
        }
        let ghost before = names.deep_view();
        let name = p.parties[k].name.clone();
        assert(name@ == parties[k as int].name);
        names.push(name);
        proof {
            assert(names.deep_view() =~= before.push(parties[k as int].name));
            assert(names.deep_view() =~= start_parties + party_names(parties.take(k + 1)));
        }
        k += 1;
    }
    proof {
        assert(parties.take(parties.len() as int) =~= parties);
    }
    let ghost start_policies = names.deep_view();
    proof {
        assert(policy_names(policies.take(0)) =~= Seq::<Seq<char>>::empty());
        assert(start_policies + policy_names(policies.take(0)) =~= start_policies);
    }
    let mut k: usize = 0;
    while k < p.policies.len()
        invariant
            policies == p.policies.deep_view(),
            k <= policies.len(),
            names.deep_view() == start_policies + policy_names(policies.take(k as int)),
        decreases policies.len() - k,
    {
        proof {
            assert(policy_names(policies.take(k + 1)) =~= policy_names(policies.take(k as int)).push(policies[k as int].name));
        }
        let ghost before = names.deep_view();
        let name = p.policies[k].name.clone();
        assert(name@ == policies[k as int].name);
        names.push(name);
        proof {
            assert(names.deep_view() =~= before.push(policies[k as int].name));
            assert(names.deep_view() =~= start_policies + policy_names(policies.take(k + 1)));
        }
        k += 1;
    }
    proof {
        assert(policies.take(policies.len() as int) =~= policies);
    }
    let ghost start_assets = names.deep_view();
    proof {
        assert(asset_names(assets.take(0)) =~= Seq::<Seq<char>>::empty());
        assert(start_assets + asset_names(assets.take(0)) =~= start_assets);
    }
    let mut k: usize = 0;
    while k < p.assets.len()
        invariant
            assets == p.assets.deep_view(),
            k <= assets.len(),
            names.deep_view() == start_assets + asset_names(assets.take(k as int)),
        decreases assets.len() - k,
    {
        proof {
            assert(asset_names(assets.take(k + 1)) =~= asset_names(assets.take(k as int)).push(assets[k as int].name));
        }
        let ghost before = names.deep_view();
        let name = p.assets[k].name.clone();
        assert(name@ == assets[k as int].name);
        names.push(name);
        proof {
            assert(names.deep_view() =~= before.push(assets[k as int].name));
            assert(names.deep_view() =~= start_assets + asset_names(assets.take(k + 1)));
        }
        k += 1;
    }
    proof {
        assert(assets.take(assets.len() as int) =~= assets);
    }
    let ghost start_types = names.deep_view();
    proof {
        assert(type_names(types.take(0)) =~= Seq::<Seq<char>>::empty());
        assert(start_types + type_names(types.take(0)) =~= start_types);
    }
    let mut k: usize = 0;
    while k < p.types.len()
        invariant
            types == p.types.deep_view(),
            k <= types.len(),
            names.deep_view() == start_types + type_names(types.take(k as int)),
        decreases types.len() - k,
    {
        proof {
            assert(type_names(types.take(k + 1)) =~= type_names(types.take(k as int)).push(types[k as int].name));
        }
        let ghost before = names.deep_view();
        let name = p.types[k].name.clone();
        assert(name@ == types[k as int].name);
        names.push(name);
        proof {
            assert(names.deep_view() =~= before.push(types[k as int].name));
            assert(names.deep_view() =~= start_types + type_names(types.take(k + 1)));
        }
        k += 1;
    }
    proof {
        assert(types.take(types.len() as int) =~= types);
    }
    let ghost start_txs = names.deep_view();
    proof {
        assert(tx_def_names(txs.take(0)) =~= Seq::<Seq<char>>::empty());
        assert(start_txs + tx_def_names(txs.take(0)) =~= start_txs);
    }
    let mut k: usize = 0;
    while k < p.txs.len()
        invariant
            txs == p.txs.deep_view(),
            k <= txs.len(),
            names.deep_view() == start_txs + tx_def_names(txs.take(k as int)),
        decreases txs.len() - k,
    {
        proof {
            assert(tx_def_names(txs.take(k + 1)) =~= tx_def_names(txs.take(k as int)).push(txs[k as int].name));
        }
        let ghost before = names.deep_view();
        let name = p.txs[k].name.clone();
        assert(name@ == txs[k as int].name);
        names.push(name);
        proof {
            assert(names.deep_view() =~= before.push(txs[k as int].name));
            assert(names.deep_view() =~= start_txs + tx_def_names(txs.take(k + 1)));
        }
        k += 1;
    }
    proof {
        assert(txs.take(txs.len() as int) =~= txs);
    }
    proof {
        assert(p@.txs =~= txs);
        assert(p@.parties =~= parties);
        assert(p@.policies =~= policies);
        assert(p@.assets =~= assets);
        assert(p@.types =~= types);
        assert(party_names(parties) =~= Seq::<Seq<char>>::empty() + party_names(parties));
        assert(names.deep_view() =~= program_names(p@));
    }
    names
}

/// The program's scope: its parties, its policies, `Ada`, its assets and
/// its types bound in a new scope nested in `parent`.
fn open_program_scope(p: &Program, parent: Option<Rc<Scope>>) -> (scope: Scope)
    ensures
        scope@ == program_scope(p@, scope_opt_view(parent)),
{
    let ghost parties = p.parties.deep_view();
    let ghost policies = p.policies.deep_view();
    let ghost assets = p.assets.deep_view();
    let ghost types = p.types.deep_view();
    let mut scope = Scope::new(parent);
    let ghost start = scope@;
    let mut k: usize = 0;
    proof {
        assert(parties.take(0) =~= Seq::<SpecPartyDef>::empty());
    }
    while k < p.parties.len()
        invariant
            parties == p.parties.deep_view(),
            k <= parties.len(),
            scope@ == bind_each(
                start,
                parties.take(k as int),
                |d: SpecPartyDef| d.name,
                |d: SpecPartyDef| SpecSymbol::PartyDef(Box::new(d)),
            ),
        decreases parties.len() - k,
    {
        proof {
            lemma_bind_each_step(
                start,
                parties,
                |d: SpecPartyDef| d.name,
                |d: SpecPartyDef| SpecSymbol::PartyDef(Box::new(d)),
                k as int,
            );
        }
        scope.track_party_def(&p.parties[k]);
        k += 1;
    }
    proof {
        assert(parties.take(parties.len() as int) =~= parties);
    }
    let ghost with_parties = scope@;
    let mut k: usize = 0;
    proof {
        assert(policies.take(0) =~= Seq::<SpecPolicyDef>::empty());
    }
    while k < p.policies.len()
        invariant
            policies == p.policies.deep_view(),
            k <= policies.len(),
            scope@ == bind_each(
                with_parties,
                policies.take(k as int),
                |d: SpecPolicyDef| d.name,
                |d: SpecPolicyDef| SpecSymbol::PolicyDef(Box::new(d)),
            ),
        decreases policies.len() - k,
    {
        proof {
            lemma_bind_each_step(
                with_parties,
                policies,
                |d: SpecPolicyDef| d.name,
                |d: SpecPolicyDef| SpecSymbol::PolicyDef(Box::new(d)),
                k as int,
            );
        }
        scope.track_policy_def(&p.policies[k]);
        k += 1;
    }
    proof {
        assert(policies.take(policies.len() as int) =~= policies);
    }
    let ada = ada_asset_def();
    scope.track_asset_def(&ada);
    let ghost with_ada = scope@;
    let mut k: usize = 0;
    proof {
        assert(assets.take(0) =~= Seq::<SpecAssetDef>::empty());
    }
    while k < p.assets.len()
        invariant
            assets == p.assets.deep_view(),
            k <= assets.len(),
            scope@ == bind_each(
                with_ada,
                assets.take(k as int),
                |d: SpecAssetDef| d.name,
                |d: SpecAssetDef| SpecSymbol::AssetDef(Box::new(d)),
            ),
        decreases assets.len() - k,
    {
        proof {
            lemma_bind_each_step(
                with_ada,
                assets,
                |d: SpecAssetDef| d.name,
                |d: SpecAssetDef| SpecSymbol::AssetDef(Box::new(d)),
                k as int,
            );
        }
        scope.track_asset_def(&p.assets[k]);
        k += 1;
    }
    proof {
        assert(assets.take(assets.len() as int) =~= assets);
    }
    let ghost with_assets = scope@;
    let mut k: usize = 0;
    proof {
        assert(types.take(0) =~= Seq::<SpecTypeDef>::empty());
    }
    while k < p.types.len()
        invariant
            types == p.types.deep_view(),
            k <= types.len(),
            scope@ == bind_each(
                with_assets,
                types.take(k as int),
                |d: SpecTypeDef| d.name,
                |d: SpecTypeDef| SpecSymbol::TypeDef(Box::new(d)),
            ),
        decreases types.len() - k,
    {
        proof {
            lemma_bind_each_step(
                with_assets,
                types,
                |d: SpecTypeDef| d.name,
                |d: SpecTypeDef| SpecSymbol::TypeDef(Box::new(d)),
                k as int,
            );
        }
        scope.track_type_def(&p.types[k]);
        k += 1;
    }
    proof {
        assert(types.take(types.len() as int) =~= types);
    }
    proof {
        assert(p@.parties =~= parties);
        assert(p@.policies =~= policies);
        assert(p@.assets =~= assets);
        assert(p@.types =~= types);
    }
    scope
}

impl Analyzable for Program {
    open spec fn analysis(model: SpecProgram, scope: Option<SpecScope>) -> Analysis<SpecProgram> {
        analyze_program(model, scope)
    }

    /// Opens the program's scope, which binds its parties, its policies,
    /// `Ada`, its assets and its types, reporting each name that the program
    /// defines a second time, its transactions' names included; then
    /// analyses policies, types and transactions in it.
    fn analyze(&mut self, parent: Option<Rc<Scope>>) -> (report: AnalyzeReport) {
        let names = program_defined_names(self);
        let dups = duplicates_among(&names);
        let scope = open_program_scope(self, parent);
        self.scope = Some(Rc::new(scope));
        proof {
            let inner = scope_opt_view(self.scope);
            assert(analyzer::<PolicyDef>(inner) =~= (|d: SpecPolicyDef| analyze_policy_def(d, inner)));
            assert(analyzer::<TypeDef>(inner) =~= (|d: SpecTypeDef| analyze_type_def(d, inner)));
            assert(analyzer::<TxDef>(inner) =~= (|t: SpecTxDef| analyze_tx_def(t, inner)));
        }
        let policies = self.policies.analyze(share_scope(&self.scope));
        let types = self.types.analyze(share_scope(&self.scope));
        let txs = self.txs.analyze(share_scope(&self.scope));
        AnalyzeReport::from(dups) + policies + types + txs
    }
}

/// Performs semantic analysis on a Tx3 program: resolves every name it
/// uses, records the scope of each node that opens one, and reports, in
/// order, every name that is defined twice, every name that does not
/// resolve and every name that resolves to the wrong kind of symbol. The
/// report is empty if no errors are found.
pub fn analyze(ast: &mut Program) -> (report: AnalyzeReport)
    ensures
        analyze_program(old(ast)@, None) == Some((final(ast)@, report@)),
{
    ast.analyze(None)
}

} // verus!
