//! What the scopes that analysis opens and records bind: every definition
//! of a program, every parameter and input of a transaction, every case of
//! a constructed type and every field of a constructed case, each under
//! its own name, unless a later definition of the same name replaces it;
//! any other name resolves as in the enclosing scope.

use vstd::prelude::*;

use crate::laws::{law_program_analysis_completes, lemma_tx_def_completes};
use crate::model::{
    SpecAssetDef, SpecDatumConstructor, SpecInputBlock, SpecParamDef, SpecPartyDef,
    SpecPolicyDef, SpecProgram, SpecScope, SpecSymbol, SpecTxDef, SpecTypeDef,
    SpecVariantCaseConstructor, SpecRecordField, SpecVariantCase,
};
use crate::report::SpecError;
use crate::scope::{child_scope, resolve_in};
use crate::semantics::{
    ada, analyze_datum_constructor, analyze_program, analyze_tx_def,
    analyze_variant_case_constructor, bind_each,
};

verus! {

// ---------------------------------------------------------------------------
// Binding a sequence of definitions

/// The element at `i` is bound under its name, unless a later element of
/// the same name replaces it.
pub proof fn lemma_bind_each_binds<T>(
    scope: SpecScope,
    s: Seq<T>,
    name: spec_fn(T) -> Seq<char>,
    symbol: spec_fn(T) -> SpecSymbol,
    i: int,
)
    requires
        0 <= i < s.len(),
        forall|j: int| i < j < s.len() ==> name(#[trigger] s[j]) != name(s[i]),
    ensures
        bind_each(scope, s, name, symbol).symbols.contains_key(name(s[i])),
        bind_each(scope, s, name, symbol).symbols[name(s[i])] == symbol(s[i]),
    decreases s.len(),
{
    if i < s.len() - 1 {
        let init = s.drop_last();
        assert forall|j: int| i < j < init.len() implies name(#[trigger] init[j]) != name(init[i]) by {
            assert(init[j] == s[j]);
            assert(init[i] == s[i]);
        }
        lemma_bind_each_binds(scope, init, name, symbol, i);
        assert(init[i] == s[i]);
        assert(name(s[s.len() - 1]) != name(s[i]));
    }
}

/// A name that no element has keeps what it had, and the scope stays
/// nested where it was.
pub proof fn lemma_bind_each_passes<T>(
    scope: SpecScope,
    s: Seq<T>,
    name: spec_fn(T) -> Seq<char>,
    symbol: spec_fn(T) -> SpecSymbol,
    n: Seq<char>,
)
    requires
        forall|j: int| 0 <= j < s.len() ==> name(#[trigger] s[j]) != n,
    ensures
        bind_each(scope, s, name, symbol).symbols.contains_key(n) == scope.symbols.contains_key(n),
        scope.symbols.contains_key(n) ==> bind_each(scope, s, name, symbol).symbols[n] == scope.symbols[n],
        bind_each(scope, s, name, symbol).parent == scope.parent,
    decreases s.len(),
{
    if s.len() > 0 {
        let init = s.drop_last();
        assert forall|j: int| 0 <= j < init.len() implies name(#[trigger] init[j]) != n by {
            assert(init[j] == s[j]);
        }
        lemma_bind_each_passes(scope, init, name, symbol, n);
        assert(name(s[s.len() - 1]) != n);
    }
}

/// A scope resolves a name it binds itself to that binding, and any other
/// name as the scope it is nested in does.
pub proof fn lemma_resolve_own_or_parent(sc: SpecScope, parent: Option<SpecScope>, n: Seq<char>)
    requires
        sc.parent == child_scope(parent).parent,
    ensures
        sc.symbols.contains_key(n) ==> sc.resolve(n) == Some(sc.symbols[n]),
        !sc.symbols.contains_key(n) ==> sc.resolve(n) == resolve_in(parent, n),
{
}

// ---------------------------------------------------------------------------
// The program's scope

/// A party that no later party, no policy, asset or type, and not the
/// built-in `Ada`, shares its name with is what its name resolves to in
/// the scope that program analysis records.
pub proof fn law_program_scope_binds_party(p: SpecProgram, scope: Option<SpecScope>, i: int)
    requires
        0 <= i < p.parties.len(),
        forall|j: int| i < j < p.parties.len() ==> (#[trigger] p.parties[j]).name != p.parties[i].name,
        forall|j: int| 0 <= j < p.policies.len() ==> (#[trigger] p.policies[j]).name != p.parties[i].name,
        forall|j: int| 0 <= j < p.assets.len() ==> (#[trigger] p.assets[j]).name != p.parties[i].name,
        forall|j: int| 0 <= j < p.types.len() ==> (#[trigger] p.types[j]).name != p.parties[i].name,
        p.parties[i].name != "Ada"@,
    ensures
        analyze_program(p, scope) matches Some((q, e)) && q.scope matches Some(sc) && sc.resolve(
            p.parties[i].name,
        ) == Some(SpecSymbol::PartyDef(Box::new(p.parties[i]))),
{
    law_program_analysis_completes(p, scope);
    let n = p.parties[i].name;
    let c = child_scope(scope);
    let a = bind_each(c, p.parties, |d: SpecPartyDef| d.name, |d: SpecPartyDef| SpecSymbol::PartyDef(Box::new(d)));
    lemma_bind_each_binds(c, p.parties, |d: SpecPartyDef| d.name, |d: SpecPartyDef| SpecSymbol::PartyDef(Box::new(d)), i);
    let b = bind_each(a, p.policies, |d: SpecPolicyDef| d.name, |d: SpecPolicyDef| SpecSymbol::PolicyDef(Box::new(d)));
    lemma_bind_each_passes(a, p.policies, |d: SpecPolicyDef| d.name, |d: SpecPolicyDef| SpecSymbol::PolicyDef(Box::new(d)), n);
    let w = b.bind(ada().name, SpecSymbol::AssetDef(Box::new(ada())));
    let d = bind_each(w, p.assets, |d: SpecAssetDef| d.name, |d: SpecAssetDef| SpecSymbol::AssetDef(Box::new(d)));
    lemma_bind_each_passes(w, p.assets, |d: SpecAssetDef| d.name, |d: SpecAssetDef| SpecSymbol::AssetDef(Box::new(d)), n);
    let e = bind_each(d, p.types, |d: SpecTypeDef| d.name, |d: SpecTypeDef| SpecSymbol::TypeDef(Box::new(d)));
    lemma_bind_each_passes(d, p.types, |d: SpecTypeDef| d.name, |d: SpecTypeDef| SpecSymbol::TypeDef(Box::new(d)), n);
    assert(e.symbols.contains_key(n) && e.symbols[n] == SpecSymbol::PartyDef(Box::new(p.parties[i])));
}

/// A policy that no later policy, no asset or type, and not the built-in
/// `Ada`, shares its name with is what its name resolves to in the scope
/// that program analysis records.
pub proof fn law_program_scope_binds_policy(p: SpecProgram, scope: Option<SpecScope>, i: int)
    requires
        0 <= i < p.policies.len(),
        forall|j: int| i < j < p.policies.len() ==> (#[trigger] p.policies[j]).name != p.policies[i].name,
        forall|j: int| 0 <= j < p.assets.len() ==> (#[trigger] p.assets[j]).name != p.policies[i].name,
        forall|j: int| 0 <= j < p.types.len() ==> (#[trigger] p.types[j]).name != p.policies[i].name,
        p.policies[i].name != "Ada"@,
    ensures
        analyze_program(p, scope) matches Some((q, e)) && q.scope matches Some(sc) && sc.resolve(
            p.policies[i].name,
        ) == Some(SpecSymbol::PolicyDef(Box::new(p.policies[i]))),
{
    law_program_analysis_completes(p, scope);
    let n = p.policies[i].name;
    let c = child_scope(scope);
    let a = bind_each(c, p.parties, |d: SpecPartyDef| d.name, |d: SpecPartyDef| SpecSymbol::PartyDef(Box::new(d)));
    let b = bind_each(a, p.policies, |d: SpecPolicyDef| d.name, |d: SpecPolicyDef| SpecSymbol::PolicyDef(Box::new(d)));
    lemma_bind_each_binds(a, p.policies, |d: SpecPolicyDef| d.name, |d: SpecPolicyDef| SpecSymbol::PolicyDef(Box::new(d)), i);
    let w = b.bind(ada().name, SpecSymbol::AssetDef(Box::new(ada())));
    let d = bind_each(w, p.assets, |d: SpecAssetDef| d.name, |d: SpecAssetDef| SpecSymbol::AssetDef(Box::new(d)));
    lemma_bind_each_passes(w, p.assets, |d: SpecAssetDef| d.name, |d: SpecAssetDef| SpecSymbol::AssetDef(Box::new(d)), n);
    let e = bind_each(d, p.types, |d: SpecTypeDef| d.name, |d: SpecTypeDef| SpecSymbol::TypeDef(Box::new(d)));
    lemma_bind_each_passes(d, p.types, |d: SpecTypeDef| d.name, |d: SpecTypeDef| SpecSymbol::TypeDef(Box::new(d)), n);
    assert(e.symbols.contains_key(n) && e.symbols[n] == SpecSymbol::PolicyDef(Box::new(p.policies[i])));
}

/// An asset that no later asset and no type shares its name with is what
/// its name resolves to in the scope that program analysis records.
pub proof fn law_program_scope_binds_asset(p: SpecProgram, scope: Option<SpecScope>, i: int)
    requires
        0 <= i < p.assets.len(),
        forall|j: int| i < j < p.assets.len() ==> (#[trigger] p.assets[j]).name != p.assets[i].name,
        forall|j: int| 0 <= j < p.types.len() ==> (#[trigger] p.types[j]).name != p.assets[i].name,
    ensures
        analyze_program(p, scope) matches Some((q, e)) && q.scope matches Some(sc) && sc.resolve(
            p.assets[i].name,
        ) == Some(SpecSymbol::AssetDef(Box::new(p.assets[i]))),
{
    law_program_analysis_completes(p, scope);
    let n = p.assets[i].name;
    let c = child_scope(scope);
    let a = bind_each(c, p.parties, |d: SpecPartyDef| d.name, |d: SpecPartyDef| SpecSymbol::PartyDef(Box::new(d)));
    let b = bind_each(a, p.policies, |d: SpecPolicyDef| d.name, |d: SpecPolicyDef| SpecSymbol::PolicyDef(Box::new(d)));
    let w = b.bind(ada().name, SpecSymbol::AssetDef(Box::new(ada())));
    let d = bind_each(w, p.assets, |d: SpecAssetDef| d.name, |d: SpecAssetDef| SpecSymbol::AssetDef(Box::new(d)));
    lemma_bind_each_binds(w, p.assets, |d: SpecAssetDef| d.name, |d: SpecAssetDef| SpecSymbol::AssetDef(Box::new(d)), i);
    let e = bind_each(d, p.types, |d: SpecTypeDef| d.name, |d: SpecTypeDef| SpecSymbol::TypeDef(Box::new(d)));
    lemma_bind_each_passes(d, p.types, |d: SpecTypeDef| d.name, |d: SpecTypeDef| SpecSymbol::TypeDef(Box::new(d)), n);
    assert(e.symbols.contains_key(n) && e.symbols[n] == SpecSymbol::AssetDef(Box::new(p.assets[i])));
}

/// A type that no later type shares its name with is what its name
/// resolves to in the scope that program analysis records.
pub proof fn law_program_scope_binds_type(p: SpecProgram, scope: Option<SpecScope>, i: int)
    requires
        0 <= i < p.types.len(),
        forall|j: int| i < j < p.types.len() ==> (#[trigger] p.types[j]).name != p.types[i].name,
    ensures
        analyze_program(p, scope) matches Some((q, e)) && q.scope matches Some(sc) && sc.resolve(
            p.types[i].name,
        ) == Some(SpecSymbol::TypeDef(Box::new(p.types[i]))),
{
    law_program_analysis_completes(p, scope);
    let n = p.types[i].name;
    let c = child_scope(scope);
    let a = bind_each(c, p.parties, |d: SpecPartyDef| d.name, |d: SpecPartyDef| SpecSymbol::PartyDef(Box::new(d)));
    let b = bind_each(a, p.policies, |d: SpecPolicyDef| d.name, |d: SpecPolicyDef| SpecSymbol::PolicyDef(Box::new(d)));
    let w = b.bind(ada().name, SpecSymbol::AssetDef(Box::new(ada())));
    let d = bind_each(w, p.assets, |d: SpecAssetDef| d.name, |d: SpecAssetDef| SpecSymbol::AssetDef(Box::new(d)));
    let e = bind_each(d, p.types, |d: SpecTypeDef| d.name, |d: SpecTypeDef| SpecSymbol::TypeDef(Box::new(d)));
    lemma_bind_each_binds(d, p.types, |d: SpecTypeDef| d.name, |d: SpecTypeDef| SpecSymbol::TypeDef(Box::new(d)), i);
    assert(e.symbols.contains_key(n) && e.symbols[n] == SpecSymbol::TypeDef(Box::new(p.types[i])));
}

/// Where no asset or type is named `Ada`, `Ada` resolves to the built-in
/// asset: empty policy, empty asset name.
pub proof fn law_program_scope_binds_ada(p: SpecProgram, scope: Option<SpecScope>)
    requires
        forall|j: int| 0 <= j < p.assets.len() ==> (#[trigger] p.assets[j]).name != "Ada"@,
        forall|j: int| 0 <= j < p.types.len() ==> (#[trigger] p.types[j]).name != "Ada"@,
    ensures
        analyze_program(p, scope) matches Some((q, e)) && q.scope matches Some(sc) && sc.resolve("Ada"@)
            matches Some(SpecSymbol::AssetDef(a)) && a.name == "Ada"@ && a.policy.value == ""@
            && a.asset_name == ""@,
{
    law_program_analysis_completes(p, scope);
    let n = "Ada"@;
    let c = child_scope(scope);
    let a = bind_each(c, p.parties, |d: SpecPartyDef| d.name, |d: SpecPartyDef| SpecSymbol::PartyDef(Box::new(d)));
    let b = bind_each(a, p.policies, |d: SpecPolicyDef| d.name, |d: SpecPolicyDef| SpecSymbol::PolicyDef(Box::new(d)));
    let w = b.bind(ada().name, SpecSymbol::AssetDef(Box::new(ada())));
    let d = bind_each(w, p.assets, |d: SpecAssetDef| d.name, |d: SpecAssetDef| SpecSymbol::AssetDef(Box::new(d)));
    lemma_bind_each_passes(w, p.assets, |d: SpecAssetDef| d.name, |d: SpecAssetDef| SpecSymbol::AssetDef(Box::new(d)), n);
    let e = bind_each(d, p.types, |d: SpecTypeDef| d.name, |d: SpecTypeDef| SpecSymbol::TypeDef(Box::new(d)));
    lemma_bind_each_passes(d, p.types, |d: SpecTypeDef| d.name, |d: SpecTypeDef| SpecSymbol::TypeDef(Box::new(d)), n);
    assert(e.symbols.contains_key(n) && e.symbols[n] == SpecSymbol::AssetDef(Box::new(ada())));
}

/// A name that the program defines nowhere, and that is not `Ada`,
/// resolves in the recorded scope as in the scope the program was
/// analysed in.
pub proof fn law_program_scope_passes_other_names(p: SpecProgram, scope: Option<SpecScope>, n: Seq<char>)
    requires
        forall|j: int| 0 <= j < p.parties.len() ==> (#[trigger] p.parties[j]).name != n,
        forall|j: int| 0 <= j < p.policies.len() ==> (#[trigger] p.policies[j]).name != n,
        forall|j: int| 0 <= j < p.assets.len() ==> (#[trigger] p.assets[j]).name != n,
        forall|j: int| 0 <= j < p.types.len() ==> (#[trigger] p.types[j]).name != n,
        n != "Ada"@,
    ensures
        analyze_program(p, scope) matches Some((q, e)) && q.scope matches Some(sc) && sc.resolve(n)
            == resolve_in(scope, n),
{
    law_program_analysis_completes(p, scope);
    let c = child_scope(scope);
    let a = bind_each(c, p.parties, |d: SpecPartyDef| d.name, |d: SpecPartyDef| SpecSymbol::PartyDef(Box::new(d)));
    lemma_bind_each_passes(c, p.parties, |d: SpecPartyDef| d.name, |d: SpecPartyDef| SpecSymbol::PartyDef(Box::new(d)), n);
    let b = bind_each(a, p.policies, |d: SpecPolicyDef| d.name, |d: SpecPolicyDef| SpecSymbol::PolicyDef(Box::new(d)));
    lemma_bind_each_passes(a, p.policies, |d: SpecPolicyDef| d.name, |d: SpecPolicyDef| SpecSymbol::PolicyDef(Box::new(d)), n);
    let w = b.bind(ada().name, SpecSymbol::AssetDef(Box::new(ada())));
    let d = bind_each(w, p.assets, |d: SpecAssetDef| d.name, |d: SpecAssetDef| SpecSymbol::AssetDef(Box::new(d)));
    lemma_bind_each_passes(w, p.assets, |d: SpecAssetDef| d.name, |d: SpecAssetDef| SpecSymbol::AssetDef(Box::new(d)), n);
    let e = bind_each(d, p.types, |d: SpecTypeDef| d.name, |d: SpecTypeDef| SpecSymbol::TypeDef(Box::new(d)));
    lemma_bind_each_passes(d, p.types, |d: SpecTypeDef| d.name, |d: SpecTypeDef| SpecSymbol::TypeDef(Box::new(d)), n);
    assert(!e.symbols.contains_key(n));
    lemma_resolve_own_or_parent(e, scope, n);
}

// ---------------------------------------------------------------------------
// A transaction's scope

/// A parameter that no later parameter and no input shares its name with
/// is what its name resolves to, with its type, in the scope that
/// transaction analysis records.
pub proof fn law_tx_scope_binds_parameter(t: SpecTxDef, scope: Option<SpecScope>, i: int)
    requires
        0 <= i < t.parameters.parameters.len(),
        forall|j: int|
            i < j < t.parameters.parameters.len() ==> (#[trigger] t.parameters.parameters[j]).name
                != t.parameters.parameters[i].name,
        forall|j: int| 0 <= j < t.inputs.len() ==> (#[trigger] t.inputs[j]).name != t.parameters.parameters[i].name,
    ensures
        analyze_tx_def(t, scope) matches Some((y, e)) && y.scope matches Some(sc) && sc.resolve(
            t.parameters.parameters[i].name,
        ) == Some(
            SpecSymbol::ParamVar(t.parameters.parameters[i].name, Box::new(t.parameters.parameters[i].ty)),
        ),
{
    lemma_tx_def_completes(t, scope);
    let params = t.parameters.parameters;
    let n = params[i].name;
    let f = child_scope(scope).bind("fees"@, SpecSymbol::Fees);
    let w = bind_each(f, params, |p: SpecParamDef| p.name, |p: SpecParamDef| SpecSymbol::ParamVar(p.name, Box::new(p.ty)));
    lemma_bind_each_binds(f, params, |p: SpecParamDef| p.name, |p: SpecParamDef| SpecSymbol::ParamVar(p.name, Box::new(p.ty)), i);
    let x = bind_each(w, t.inputs, |b: SpecInputBlock| b.name, |b: SpecInputBlock| SpecSymbol::Input(b.name));
    lemma_bind_each_passes(w, t.inputs, |b: SpecInputBlock| b.name, |b: SpecInputBlock| SpecSymbol::Input(b.name), n);
    assert(x.symbols.contains_key(n) && x.symbols[n] == SpecSymbol::ParamVar(n, Box::new(params[i].ty)));
}

/// An input that no later input shares its name with is what its name
/// resolves to in the scope that transaction analysis records.
pub proof fn law_tx_scope_binds_input(t: SpecTxDef, scope: Option<SpecScope>, i: int)
    requires
        0 <= i < t.inputs.len(),
        forall|j: int| i < j < t.inputs.len() ==> (#[trigger] t.inputs[j]).name != t.inputs[i].name,
    ensures
        analyze_tx_def(t, scope) matches Some((y, e)) && y.scope matches Some(sc) && sc.resolve(t.inputs[i].name)
            == Some(SpecSymbol::Input(t.inputs[i].name)),
{
    lemma_tx_def_completes(t, scope);
    let params = t.parameters.parameters;
    let f = child_scope(scope).bind("fees"@, SpecSymbol::Fees);
    let w = bind_each(f, params, |p: SpecParamDef| p.name, |p: SpecParamDef| SpecSymbol::ParamVar(p.name, Box::new(p.ty)));
    let x = bind_each(w, t.inputs, |b: SpecInputBlock| b.name, |b: SpecInputBlock| SpecSymbol::Input(b.name));
    lemma_bind_each_binds(w, t.inputs, |b: SpecInputBlock| b.name, |b: SpecInputBlock| SpecSymbol::Input(b.name), i);
    assert(x.symbols.contains_key(t.inputs[i].name));
}

/// Where no parameter or input is named `fees`, `fees` resolves to the
/// transaction's fees in the scope that transaction analysis records.
pub proof fn law_tx_scope_binds_fees(t: SpecTxDef, scope: Option<SpecScope>)
    requires
        forall|j: int| 0 <= j < t.parameters.parameters.len() ==> (#[trigger] t.parameters.parameters[j]).name != "fees"@,
        forall|j: int| 0 <= j < t.inputs.len() ==> (#[trigger] t.inputs[j]).name != "fees"@,
    ensures
        analyze_tx_def(t, scope) matches Some((y, e)) && y.scope matches Some(sc) && sc.resolve("fees"@)
            == Some(SpecSymbol::Fees),
{
    lemma_tx_def_completes(t, scope);
    let n = "fees"@;
    let params = t.parameters.parameters;
    let f = child_scope(scope).bind(n, SpecSymbol::Fees);
    let w = bind_each(f, params, |p: SpecParamDef| p.name, |p: SpecParamDef| SpecSymbol::ParamVar(p.name, Box::new(p.ty)));
    lemma_bind_each_passes(f, params, |p: SpecParamDef| p.name, |p: SpecParamDef| SpecSymbol::ParamVar(p.name, Box::new(p.ty)), n);
    let x = bind_each(w, t.inputs, |b: SpecInputBlock| b.name, |b: SpecInputBlock| SpecSymbol::Input(b.name));
    lemma_bind_each_passes(w, t.inputs, |b: SpecInputBlock| b.name, |b: SpecInputBlock| SpecSymbol::Input(b.name), n);
    assert(x.symbols.contains_key(n) && x.symbols[n] == SpecSymbol::Fees);
}

/// A name that is not `fees` and that no parameter or input has resolves
/// in the transaction's recorded scope as in the scope the transaction was
/// analysed in: a program's definitions stay visible.
pub proof fn law_tx_scope_passes_other_names(t: SpecTxDef, scope: Option<SpecScope>, n: Seq<char>)
    requires
        forall|j: int| 0 <= j < t.parameters.parameters.len() ==> (#[trigger] t.parameters.parameters[j]).name != n,
        forall|j: int| 0 <= j < t.inputs.len() ==> (#[trigger] t.inputs[j]).name != n,
        n != "fees"@,
    ensures
        analyze_tx_def(t, scope) matches Some((y, e)) && y.scope matches Some(sc) && sc.resolve(n) == resolve_in(
            scope,
            n,
        ),
{
    lemma_tx_def_completes(t, scope);
    let params = t.parameters.parameters;
    let f = child_scope(scope).bind("fees"@, SpecSymbol::Fees);
    let w = bind_each(f, params, |p: SpecParamDef| p.name, |p: SpecParamDef| SpecSymbol::ParamVar(p.name, Box::new(p.ty)));
    lemma_bind_each_passes(f, params, |p: SpecParamDef| p.name, |p: SpecParamDef| SpecSymbol::ParamVar(p.name, Box::new(p.ty)), n);
    let x = bind_each(w, t.inputs, |b: SpecInputBlock| b.name, |b: SpecInputBlock| SpecSymbol::Input(b.name));
    lemma_bind_each_passes(w, t.inputs, |b: SpecInputBlock| b.name, |b: SpecInputBlock| SpecSymbol::Input(b.name), n);
    assert(!x.symbols.contains_key(n));
    lemma_resolve_own_or_parent(x, scope, n);
}

// ---------------------------------------------------------------------------
// The scopes of constructors

/// Where a datum constructor's type name resolves to a type `def`, the
/// scope the constructor records binds each case of `def` that no later
/// case shares its name with, and a case name naming that case resolves to
/// it.
pub proof fn law_datum_constructor_scope_binds_case(
    c: SpecDatumConstructor,
    scope: Option<SpecScope>,
    y: SpecDatumConstructor,
    e: Seq<SpecError>,
    def: SpecTypeDef,
    i: int,
)
    requires
        analyze_datum_constructor(c, scope) == Some((y, e)),
        y.ty.symbol == Some(SpecSymbol::TypeDef(Box::new(def))),
        0 <= i < def.cases.len(),
        forall|j: int| i < j < def.cases.len() ==> (#[trigger] def.cases[j]).name != def.cases[i].name,
    ensures
        y.scope matches Some(sc) && sc.resolve(def.cases[i].name) == Some(
            SpecSymbol::VariantCase(Box::new(def.cases[i])),
        ),
        c.case.name.value == def.cases[i].name ==> y.case.name.symbol == Some(
            SpecSymbol::VariantCase(Box::new(def.cases[i])),
        ),
{
    lemma_bind_each_binds(
        child_scope(scope),
        def.cases,
        |k: SpecVariantCase| k.name,
        |k: SpecVariantCase| SpecSymbol::VariantCase(Box::new(k)),
        i,
    );
}

/// Where a variant-case constructor's name resolves to a case `case`, the
/// scope the constructor records binds each field of `case` that no later
/// field shares its name with.
pub proof fn law_variant_case_constructor_scope_binds_field(
    c: SpecVariantCaseConstructor,
    scope: Option<SpecScope>,
    y: SpecVariantCaseConstructor,
    e: Seq<SpecError>,
    case: SpecVariantCase,
    i: int,
)
    requires
        analyze_variant_case_constructor(c, scope) == Some((y, e)),
        y.name.symbol == Some(SpecSymbol::VariantCase(Box::new(case))),
        0 <= i < case.fields.len(),
        forall|j: int| i < j < case.fields.len() ==> (#[trigger] case.fields[j]).name != case.fields[i].name,
    ensures
        y.scope matches Some(sc) && sc.resolve(case.fields[i].name) == Some(
            SpecSymbol::RecordField(Box::new(case.fields[i])),
        ),
{
    lemma_bind_each_binds(
        child_scope(scope),
        case.fields,
        |f: SpecRecordField| f.name,
        |f: SpecRecordField| SpecSymbol::RecordField(Box::new(f)),
        i,
    );
}

/// In the scope a datum constructor records for its type `def`, a name that
/// no case of `def` has resolves as in the scope the constructor was
/// analysed in.
pub proof fn law_datum_constructor_scope_passes_other_names(
    c: SpecDatumConstructor,
    scope: Option<SpecScope>,
    y: SpecDatumConstructor,
    e: Seq<SpecError>,
    def: SpecTypeDef,
    n: Seq<char>,
)
    requires
        analyze_datum_constructor(c, scope) == Some((y, e)),
        y.ty.symbol == Some(SpecSymbol::TypeDef(Box::new(def))),
        forall|j: int| 0 <= j < def.cases.len() ==> (#[trigger] def.cases[j]).name != n,
    ensures
        y.scope matches Some(sc) && sc.resolve(n) == resolve_in(scope, n),
{
    let x = bind_each(
        child_scope(scope),
        def.cases,
        |k: SpecVariantCase| k.name,
        |k: SpecVariantCase| SpecSymbol::VariantCase(Box::new(k)),
    );
    lemma_bind_each_passes(
        child_scope(scope),
        def.cases,
        |k: SpecVariantCase| k.name,
        |k: SpecVariantCase| SpecSymbol::VariantCase(Box::new(k)),
        n,
    );
    lemma_resolve_own_or_parent(x, scope, n);
}

/// In the scope a variant-case constructor records for its case `case`, a
/// name that no field of `case` has resolves as in the scope the
/// constructor was analysed in.
pub proof fn law_variant_case_constructor_scope_passes_other_names(
    c: SpecVariantCaseConstructor,
    scope: Option<SpecScope>,
    y: SpecVariantCaseConstructor,
    e: Seq<SpecError>,
    case: SpecVariantCase,
    n: Seq<char>,
)
    requires
        analyze_variant_case_constructor(c, scope) == Some((y, e)),
        y.name.symbol == Some(SpecSymbol::VariantCase(Box::new(case))),
        forall|j: int| 0 <= j < case.fields.len() ==> (#[trigger] case.fields[j]).name != n,
    ensures
        y.scope matches Some(sc) && sc.resolve(n) == resolve_in(scope, n),
{
    let x = bind_each(
        child_scope(scope),
        case.fields,
        |f: SpecRecordField| f.name,
        |f: SpecRecordField| SpecSymbol::RecordField(Box::new(f)),
    );
    lemma_bind_each_passes(
        child_scope(scope),
        case.fields,
        |f: SpecRecordField| f.name,
        |f: SpecRecordField| SpecSymbol::RecordField(Box::new(f)),
        n,
    );
    lemma_resolve_own_or_parent(x, scope, n);
}

} // verus!
