//! The errors that semantic analysis reports, and the report that gathers
//! them.

use vstd::prelude::*;
use vstd::string::StringExecFns;

use crate::ast::{dummy_span, AstNode, Span, Symbol};

verus! {

#[derive(Debug)]
pub struct NotInScopeError {
    pub name: String,
    pub src: Option<String>,
    pub span: Span,
}

#[derive(Debug)]
pub struct InvalidSymbolError {
    pub expected: &'static str,
    pub got: String,
    pub src: Option<String>,
    pub span: Span,
}

#[derive(Debug)]
pub enum Error {
    DuplicateDefinition(String),
    NotInScope(NotInScopeError),
    NeedsParentScope,
    InvalidSymbol(InvalidSymbolError),
}

/// An error as a value. The text that renders the offending symbol of an
/// invalid-symbol error is not part of this value.
pub ghost enum SpecError {
    DuplicateDefinition(Seq<char>),
    NotInScope { name: Seq<char>, src: Option<Seq<char>>, span: Span },
    NeedsParentScope,
    InvalidSymbol { expected: Seq<char>, src: Option<Seq<char>>, span: Span },
}

pub open spec fn opt_string_view(s: Option<String>) -> Option<Seq<char>> {
    match s {
        Some(x) => Some(x@),
        None => None,
    }
}

pub open spec fn error_view(e: Error) -> SpecError {
    match e {
        Error::DuplicateDefinition(n) => SpecError::DuplicateDefinition(n@),
        Error::NotInScope(x) => SpecError::NotInScope {
            name: x.name@,
            src: opt_string_view(x.src),
            span: x.span,
        },
        Error::NeedsParentScope => SpecError::NeedsParentScope,
        Error::InvalidSymbol(x) => SpecError::InvalidSymbol {
            expected: x.expected@,
            src: opt_string_view(x.src),
            span: x.span,
        },
    }
}

impl View for Error {
    type V = SpecError;

    open spec fn view(&self) -> SpecError {
        error_view(*self)
    }
}

impl DeepView for Error {
    type V = SpecError;

    open spec fn deep_view(&self) -> SpecError {
        error_view(*self)
    }
}

/// Where an error points in the source: the dummy span for the errors
/// that carry none.
pub open spec fn error_span(e: SpecError) -> Span {
    match e {
        SpecError::NotInScope { span, .. } => span,
        SpecError::InvalidSymbol { span, .. } => span,
        _ => dummy_span(),
    }
}

/// The source text that an error carries: only a not-in-scope error has one.
pub open spec fn error_src(e: SpecError) -> Option<Seq<char>> {
    match e {
        SpecError::NotInScope { src, .. } => src,
        _ => None,
    }
}

/// The text of a symbol in its `Debug` rendering.
pub uninterp spec fn symbol_debug_text(symbol: Symbol) -> Seq<char>;

/// Renders `symbol` with the `Debug` format that its type derives, through
/// std's `format!`. Trusted: the text is named `symbol_debug_text(*symbol)`,
/// a function of the symbol alone (every part of a symbol, scopes included,
/// is rendered in a fixed order); what the text is, is not stated.
#[verifier::external_body]
fn render_symbol(symbol: &Symbol) -> (text: String)
    ensures
        text@ == symbol_debug_text(*symbol),
{
    format!("{:?}", symbol)
}

/// The text that describes an error.
pub open spec fn error_message(e: Error) -> Seq<char> {
    match e {
        Error::DuplicateDefinition(n) => "duplicate definition: "@ + n@,
        Error::NotInScope(x) => "not in scope: "@ + x.name@,
        Error::NeedsParentScope => "needs parent scope"@,
        Error::InvalidSymbol(x) => "invalid symbol, expected "@ + x.expected@ + ", got "@ + x.got@,
    }
}

impl Error {
    /// The text that describes the error.
    pub fn message(&self) -> (m: String)
        ensures
            m@ == error_message(*self),
    {
        match self {
            Error::DuplicateDefinition(n) => String::from_str("duplicate definition: ").concat(n.as_str()),
            Error::NotInScope(x) => String::from_str("not in scope: ").concat(x.name.as_str()),
            Error::NeedsParentScope => String::from_str("needs parent scope"),
            Error::InvalidSymbol(x) => String::from_str("invalid symbol, expected ").concat(x.expected).concat(
                ", got ",
            ).concat(x.got.as_str()),
        }
    }

    /// Where the error points in the source.
    pub fn span(&self) -> (s: Span)
        ensures
            s == error_span(self@),
    {
        match self {
            Error::NotInScope(x) => x.span,
            Error::InvalidSymbol(x) => x.span,
            _ => Span::dummy(),
        }
    }

    /// The source text the error carries, if any.
    pub fn src(&self) -> (s: Option<&str>)
        ensures
            match s {
                Some(t) => error_src(self@) == Some(t@),
                None => error_src(self@).is_none(),
            },
    {
        match self {
            Error::NotInScope(x) => match &x.src {
                Some(t) => Some(t.as_str()),
                None => None,
            },
            _ => None,
        }
    }

    /// `name` is not bound where `ast` uses it.
    pub fn not_in_scope<N: AstNode>(name: String, ast: &N) -> (e: Self)
        ensures
            e@ == (SpecError::NotInScope { name: name@, src: None, span: ast.spec_span() }),
    {
        Error::NotInScope(NotInScopeError { name, src: None, span: *ast.span() })
    }

    /// `ast` names `got` where a symbol of the kind `expected` belongs.
    pub fn invalid_symbol<N: AstNode>(expected: &'static str, got: &Symbol, ast: &N) -> (e: Self)
        ensures
            e@ == (SpecError::InvalidSymbol { expected: expected@, src: None, span: ast.spec_span() }),
            e matches Error::InvalidSymbol(x) && x.got@ == symbol_debug_text(*got),
    {
        Error::InvalidSymbol(
            InvalidSymbolError {
                expected,
                got: render_symbol(got),
                src: None,
                span: *ast.span(),
            },
        )
    }
}

/// The errors found by an analysis, in the order in which it met them.
#[derive(Debug)]
pub struct AnalyzeReport {
    pub errors: Vec<Error>,
}

impl View for AnalyzeReport {
    type V = Seq<SpecError>;

    open spec fn view(&self) -> Seq<SpecError> {
        self.errors.deep_view()
    }
}

impl AnalyzeReport {
    /// Whether the analysis found nothing wrong.
    pub fn is_empty(&self) -> (b: bool)
        ensures
            b == (self@.len() == 0),
    {
        self.errors.len() == 0
    }

    /// `Ok` for a report without errors, else the report itself.
    pub fn ok(self) -> (r: Result<(), Self>)
        ensures
            match r {
                Ok(()) => self@.len() == 0,
                Err(report) => self@.len() > 0 && report == self,
            },
    {
        if self.is_empty() {
            Ok(())
        } else {
            Err(self)
        }
    }

    /// The errors of `self` followed by those of `other`.
    pub fn concat(self, other: Self) -> (r: Self)
        ensures
            r.errors@ == self.errors@ + other.errors@,
            r@ == self@ + other@,
    {
        let mut errors = self.errors;
        let mut rest = other.errors;
        errors.append(&mut rest);
        let r = AnalyzeReport { errors };
        assert(r.errors@ =~= self.errors@ + other.errors@);
        assert(r@ =~= self@ + other@);
        r
    }
}

/// The errors of each report in turn.
pub open spec fn all_errors(reports: Seq<AnalyzeReport>) -> Seq<Error>
    decreases reports.len(),
{
    if reports.len() == 0 {
        Seq::empty()
    } else {
        all_errors(reports.drop_last()) + reports.last().errors@
    }
}

impl AnalyzeReport {
    /// One report holding the errors of each of `reports`, in order.
    pub fn concat_all(reports: Vec<AnalyzeReport>) -> (r: Self)
        ensures
            r.errors@ == all_errors(reports@),
    {
        let ghost start = reports@;
        let mut rest = reports;
        let mut errors: Vec<Error> = Vec::new();
        let total: usize = rest.len();
        let mut i: usize = 0;
        proof {
            assert(start.take(0) =~= Seq::<AnalyzeReport>::empty());
            assert(start.skip(0) =~= start);
        }
        while rest.len() > 0
            invariant
                start.len() == total,
                i <= start.len(),
                start.len() == i + rest@.len(),
                rest@ == start.skip(i as int),
                errors@ == all_errors(start.take(i as int)),
            decreases rest@.len(),
        {
            let mut next = rest.remove(0);
            proof {
                assert(start.take(i + 1).drop_last() =~= start.take(i as int));
                assert(start.skip(i + 1) =~= start.skip(i as int).remove(0));
            }
            errors.append(&mut next.errors);
            i += 1;
        }
        proof {
            assert(start.take(i as int) =~= start);
        }
        AnalyzeReport { errors }
    }
}

impl Default for AnalyzeReport {
    fn default() -> (r: Self)
        ensures
            r@ == Seq::<SpecError>::empty(),
    {
        let r = AnalyzeReport { errors: Vec::new() };
        assert(r@ =~= Seq::<SpecError>::empty());
        r
    }
}

impl vstd::std_specs::convert::FromSpecImpl<Error> for AnalyzeReport {
    open spec fn obeys_from_spec() -> bool {
        false
    }

    open spec fn from_spec(v: Error) -> AnalyzeReport {
        choose|r: AnalyzeReport| #[trigger] r@ == seq![v@]
    }
}

impl From<Error> for AnalyzeReport {
    fn from(error: Error) -> (r: Self)
        ensures
            r@ == seq![error@],
            r.errors@ == seq![error],
    {
        let mut errors = Vec::new();
        errors.push(error);
        let r = AnalyzeReport { errors };
        assert(r@ =~= seq![error@]);
        assert(r.errors@ =~= seq![error]);
        r
    }
}

impl vstd::std_specs::convert::FromSpecImpl<Vec<Error>> for AnalyzeReport {
    open spec fn obeys_from_spec() -> bool {
        false
    }

    open spec fn from_spec(v: Vec<Error>) -> AnalyzeReport {
        choose|r: AnalyzeReport| #[trigger] r@ == v.deep_view()
    }
}

impl From<Vec<Error>> for AnalyzeReport {
    fn from(errors: Vec<Error>) -> (r: Self)
        ensures
            r@ == errors.deep_view(),
            r.errors == errors,
    {
        AnalyzeReport { errors }
    }
}

impl vstd::std_specs::ops::AddSpecImpl for Error {
    open spec fn obeys_add_spec() -> bool {
        false
    }

    open spec fn add_req(self, rhs: Error) -> bool {
        true
    }

    open spec fn add_spec(self, rhs: Error) -> AnalyzeReport {
        choose|r: AnalyzeReport| #[trigger] r@ == seq![self@, rhs@]
    }
}

impl std::ops::Add for Error {
    type Output = AnalyzeReport;

    fn add(self, other: Self) -> (r: AnalyzeReport)
        ensures
            r.errors@ == seq![self, other],
            r@ == seq![self@, other@],
    {
        let mut errors = Vec::new();
        errors.push(self);
        errors.push(other);
        let r = AnalyzeReport { errors };
        assert(r.errors@ =~= seq![self, other]);
        assert(r@ =~= seq![self@, other@]);
        r
    }
}

impl vstd::std_specs::ops::AddSpecImpl for AnalyzeReport {
    open spec fn obeys_add_spec() -> bool {
        false
    }

    open spec fn add_req(self, rhs: AnalyzeReport) -> bool {
        true
    }

    open spec fn add_spec(self, rhs: AnalyzeReport) -> AnalyzeReport {
        choose|r: AnalyzeReport| #[trigger] r@ == self@ + rhs@
    }
}

impl std::ops::Add for AnalyzeReport {
    type Output = AnalyzeReport;

    fn add(self, other: Self) -> (r: AnalyzeReport)
        ensures
            r.errors@ == self.errors@ + other.errors@,
            r@ == self@ + other@,
    {
        self.concat(other)
    }
}

} // verus!
