//! Scopes: tables of names, each nested in the scope around it.

use std::rc::Rc;
use vstd::prelude::*;

use crate::ast::{
    AssetDef, InputBlock, PartyDef, PolicyDef, RecordField, Symbol, Type, TypeDef, VariantCase,
};
use crate::model::{bindings_view, scope_opt_view, symbol_view, SpecScope, SpecSymbol};

verus! {

/// One name bound in a scope.
#[derive(Debug)]
pub struct Binding {
    pub name: String,
    pub symbol: Symbol,
}

/// A table of names and the scope it is nested in.
#[derive(Debug)]
pub struct Scope {
    pub symbols: Vec<Binding>,
    pub parent: Option<Rc<Scope>>,
}

impl SpecScope {
    /// The scope with `name` bound to `symbol`, in place of any earlier binding.
    pub open spec fn bind(self, name: Seq<char>, symbol: SpecSymbol) -> SpecScope {
        SpecScope { symbols: self.symbols.insert(name, symbol), parent: self.parent }
    }

    /// The symbol that `name` stands for here: the binding of this scope,
    /// else that of the nearest scope around it that binds the name.
    pub open spec fn resolve(self, name: Seq<char>) -> Option<SpecSymbol>
        decreases self,
    {
        if self.symbols.contains_key(name) {
            Some(self.symbols[name])
        } else {
            match self.parent {
                Some(p) => p.resolve(name),
                None => None,
            }
        }
    }
}

/// Another handle on the same scope (or on none).
pub fn share_scope(s: &Option<Rc<Scope>>) -> (r: Option<Rc<Scope>>)
    ensures
        r == *s,
{
    match s {
        Some(p) => Some(Rc::clone(p)),
        None => None,
    }
}

/// A scope with no names of its own, nested in `parent`.
pub open spec fn child_scope(parent: Option<SpecScope>) -> SpecScope {
    SpecScope {
        symbols: Map::empty(),
        parent: match parent {
            Some(p) => Some(Box::new(p)),
            None => None,
        },
    }
}

/// What `name` stands for in an optional scope; nothing without a scope.
pub open spec fn resolve_in(scope: Option<SpecScope>, name: Seq<char>) -> Option<SpecSymbol> {
    match scope {
        Some(s) => s.resolve(name),
        None => None,
    }
}

/// No name is bound twice in a table.
pub open spec fn names_distinct(s: Seq<Binding>) -> bool {
    forall|i: int, j: int| 0 <= i < j < s.len() ==> s[i].name@ != s[j].name@
}

/// `i` is the last binding of `name` in `s`.
pub open spec fn last_binding_of(s: Seq<Binding>, name: Seq<char>, i: int) -> bool {
    &&& 0 <= i < s.len()
    &&& s[i].name@ == name
    &&& forall|j: int| i < j < s.len() ==> s[j].name@ != name
}

proof fn lemma_bindings_lookup(s: Seq<Binding>, name: Seq<char>, i: int)
    requires
        last_binding_of(s, name, i),
    ensures
        bindings_view(s).contains_key(name),
        bindings_view(s)[name] == symbol_view(s[i].symbol),
    decreases s.len(),
{
    if i < s.len() - 1 {
        lemma_bindings_lookup(s.drop_last(), name, i);
    }
}

proof fn lemma_bindings_absent(s: Seq<Binding>, name: Seq<char>)
    requires
        forall|j: int| 0 <= j < s.len() ==> s[j].name@ != name,
    ensures
        !bindings_view(s).contains_key(name),
    decreases s.len(),
{
    if s.len() > 0 {
        lemma_bindings_absent(s.drop_last(), name);
    }
}

proof fn lemma_bindings_replace(s: Seq<Binding>, i: int, b: Binding)
    requires
        last_binding_of(s, b.name@, i),
    ensures
        bindings_view(s.update(i, b)) == bindings_view(s).insert(b.name@, symbol_view(b.symbol)),
    decreases s.len(),
{
    let t = s.update(i, b);
    if i == s.len() - 1 {
        assert(t.drop_last() =~= s.drop_last());
        assert(bindings_view(t) =~= bindings_view(s).insert(b.name@, symbol_view(b.symbol)));
    } else {
        lemma_bindings_replace(s.drop_last(), i, b);
        assert(t.drop_last() =~= s.drop_last().update(i, b));
        assert(bindings_view(t) =~= bindings_view(s).insert(b.name@, symbol_view(b.symbol)));
    }
}

impl Scope {
    /// The table holds no name twice.
    pub open spec fn well_formed(&self) -> bool {
        names_distinct(self.symbols@)
    }

    /// An empty scope nested in `parent`.
    pub fn new(parent: Option<Rc<Scope>>) -> (s: Self)
        ensures
            s@ == child_scope(scope_opt_view(parent)),
            s.parent == parent,
            s.well_formed(),
    {
        let s = Scope { symbols: Vec::new(), parent };
        assert(bindings_view(s.symbols@) =~= Map::<Seq<char>, SpecSymbol>::empty());
        s
    }

    /// The index of the last binding of `name`, if there is one.
    fn find(&self, name: &String) -> (r: Option<usize>)
        ensures
            match r {
                Some(i) => last_binding_of(self.symbols@, name@, i as int),
                None => forall|j: int|
                    0 <= j < self.symbols@.len() ==> #[trigger] self.symbols@[j].name@ != name@,
            },
    {
        let mut i = self.symbols.len();
        while i > 0
            invariant
                i <= self.symbols@.len(),
                forall|j: int|
                    i <= j < self.symbols@.len() ==> #[trigger] self.symbols@[j].name@ != name@,
            decreases i,
        {
            i -= 1;
            if self.symbols[i].name == *name {
                return Some(i);
            }
        }
        None
    }

    /// Binds `name` to `symbol` in this scope, replacing an earlier binding
    /// of the same name.
    pub fn insert(&mut self, name: String, symbol: Symbol)
        ensures
            final(self)@ == old(self)@.bind(name@, symbol@),
            final(self).parent == old(self).parent,
            old(self).well_formed() ==> final(self).well_formed(),
    {
        let ghost key = name@;
        let ghost sym = symbol@;
        match self.find(&name) {
            Some(i) => {
                let b = Binding { name, symbol };
                proof {
                    lemma_bindings_replace(self.symbols@, i as int, b);
                }
                self.symbols.set(i, b);
                assert(bindings_view(self.symbols@) == bindings_view(old(self).symbols@).insert(key, sym));
            },
            None => {
                let b = Binding { name, symbol };
                let ghost before = self.symbols@;
                self.symbols.push(b);
                assert(self.symbols@.drop_last() =~= before);
                assert(bindings_view(self.symbols@) == bindings_view(old(self).symbols@).insert(key, sym));
            },
        }
    }

    /// The symbol bound to `name` in this scope itself.
    pub fn lookup(&self, name: &str) -> (r: Option<&Symbol>)
        ensures
            match r {
                Some(s) => self@.symbols.contains_key(name@) && s@ == self@.symbols[name@],
                None => !self@.symbols.contains_key(name@),
            },
    {
        let key = name.to_owned();
        match self.find(&key) {
            Some(i) => {
                proof {
                    lemma_bindings_lookup(self.symbols@, key@, i as int);
                }
                Some(&self.symbols[i].symbol)
            },
            None => {
                proof {
                    lemma_bindings_absent(self.symbols@, key@);
                }
                None
            },
        }
    }

    pub fn track_type_def(&mut self, type_: &TypeDef)
        ensures
            final(self)@ == old(self)@.bind(type_.name@, SpecSymbol::TypeDef(Box::new(type_@))),
            final(self).parent == old(self).parent,
            old(self).well_formed() ==> final(self).well_formed(),
    {
        self.insert(type_.name.clone(), Symbol::TypeDef(Box::new(type_.clone())));
    }

    pub fn track_variant_case(&mut self, case: &VariantCase)
        ensures
            final(self)@ == old(self)@.bind(case.name@, SpecSymbol::VariantCase(Box::new(case@))),
            final(self).parent == old(self).parent,
            old(self).well_formed() ==> final(self).well_formed(),
    {
        self.insert(case.name.clone(), Symbol::VariantCase(Box::new(case.clone())));
    }

    pub fn track_record_field(&mut self, field: &RecordField)
        ensures
            final(self)@ == old(self)@.bind(
                field.name@,
                SpecSymbol::RecordField(Box::new(field@)),
            ),
            final(self).parent == old(self).parent,
            old(self).well_formed() ==> final(self).well_formed(),
    {
        self.insert(field.name.clone(), Symbol::RecordField(Box::new(field.clone())));
    }

    pub fn track_party_def(&mut self, party: &PartyDef)
        ensures
            final(self)@ == old(self)@.bind(party.name@, SpecSymbol::PartyDef(Box::new(party@))),
            final(self).parent == old(self).parent,
            old(self).well_formed() ==> final(self).well_formed(),
    {
        self.insert(party.name.clone(), Symbol::PartyDef(Box::new(party.clone())));
    }

    pub fn track_policy_def(&mut self, policy: &PolicyDef)
        ensures
            final(self)@ == old(self)@.bind(
                policy.name@,
                SpecSymbol::PolicyDef(Box::new(policy@)),
            ),
            final(self).parent == old(self).parent,
            old(self).well_formed() ==> final(self).well_formed(),
    {
        self.insert(policy.name.clone(), Symbol::PolicyDef(Box::new(policy.clone())));
    }

    pub fn track_asset_def(&mut self, asset: &AssetDef)
        ensures
            final(self)@ == old(self)@.bind(asset.name@, SpecSymbol::AssetDef(Box::new(asset@))),
            final(self).parent == old(self).parent,
            old(self).well_formed() ==> final(self).well_formed(),
    {
        self.insert(asset.name.clone(), Symbol::AssetDef(Box::new(asset.clone())));
    }

    pub fn track_param_var(&mut self, param: &str, ty: Type)
        ensures
            final(self)@ == old(self)@.bind(param@, SpecSymbol::ParamVar(param@, Box::new(ty@))),
            final(self).parent == old(self).parent,
            old(self).well_formed() ==> final(self).well_formed(),
    {
        self.insert(param.to_owned(), Symbol::ParamVar(param.to_owned(), Box::new(ty)));
    }

    pub fn track_input(&mut self, input: &InputBlock)
        ensures
            final(self)@ == old(self)@.bind(input.name@, SpecSymbol::Input(input.name@)),
            final(self).parent == old(self).parent,
            old(self).well_formed() ==> final(self).well_formed(),
    {
        self.insert(input.name.clone(), Symbol::Input(input.name.clone()));
    }

    /// The symbol that `name` stands for: this scope's own binding, else
    /// the one found in the scopes around it.
    pub fn resolve(&self, name: &str) -> (r: Option<Symbol>)
        ensures
            r.deep_view() == self@.resolve(name@),
        decreases self,
    {
        if let Some(symbol) = self.lookup(name) {
            Some(symbol.clone())
        } else if let Some(parent) = &self.parent {
            parent.resolve(name)
        } else {
            None
        }
    }
}

} // verus!
