use rustpython_parser::ast::Stmt;
use rustpython_parser::Parse;
use vstd::prelude::*;
use vstd::string::*;

verus! {

/// A top-level statement of a Python module, tagged by kind.
#[derive(Debug)]
pub enum Statement {
    /// A `def` or an `async def`: both are functions to register.
    FunctionDef { name: String },
    ClassDef { name: String },
    Import,
    ImportFrom,
    Assign,
    Other,
}

/// The kinds of statement that extraction sorts into groups.
#[derive(Debug, Clone, Copy, PartialEq, Eq, Structural)]
pub enum StatementKind {
    Function,
    Class,
    Import,
    ImportFrom,
    Assign,
    Other,
}

pub open spec fn kind_of(s: Statement) -> StatementKind {
    match s {
        Statement::FunctionDef { .. } => StatementKind::Function,
        Statement::ClassDef { .. } => StatementKind::Class,
        Statement::Import => StatementKind::Import,
        Statement::ImportFrom => StatementKind::ImportFrom,
        Statement::Assign => StatementKind::Assign,
        Statement::Other => StatementKind::Other,
    }
}

/// The declared name of a function or class definition; empty for the other kinds.
pub open spec fn name_of(s: Statement) -> Seq<char> {
    match s {
        Statement::FunctionDef { name } => name@,
        Statement::ClassDef { name } => name@,
        _ => Seq::empty(),
    }
}

/// The statements of `s` of kind `k`, in source order.
pub open spec fn of_kind(s: Seq<Statement>, k: StatementKind) -> Seq<Statement> {
    s.filter(|x: Statement| kind_of(x) == k)
}

/// The names of the statements of `s` of kind `k`, in source order.
pub open spec fn names_of_kind(s: Seq<Statement>, k: StatementKind) -> Seq<Seq<char>> {
    of_kind(s, k).map_values(|x: Statement| name_of(x))
}

impl Statement {
    pub fn kind(&self) -> (r: StatementKind)
        ensures
            r == kind_of(*self),
    {
        match self {
            Statement::FunctionDef { .. } => StatementKind::Function,
            Statement::ClassDef { .. } => StatementKind::Class,
            Statement::Import => StatementKind::Import,
            Statement::ImportFrom => StatementKind::ImportFrom,
            Statement::Assign => StatementKind::Assign,
            Statement::Other => StatementKind::Other,
        }
    }

    /// The declared name of a definition; empty for the other kinds.
    pub fn name(&self) -> (r: &str)
        ensures
            r@ == name_of(*self),
    {
        match self {
            Statement::FunctionDef { name } => name.as_str(),
            Statement::ClassDef { name } => name.as_str(),
            _ => {
                proof {
                    reveal_strlit("");
                }
                ""
            },
        }
    }

    /// A structurally equal copy of the statement.
    pub fn duplicate(&self) -> (r: Statement)
        ensures
            r == *self,
    {
        match self {
            Statement::FunctionDef { name } => Statement::FunctionDef { name: name.clone() },
            Statement::ClassDef { name } => Statement::ClassDef { name: name.clone() },
            Statement::Import => Statement::Import,
            Statement::ImportFrom => Statement::ImportFrom,
            Statement::Assign => Statement::Assign,
            Statement::Other => Statement::Other,
        }
    }
}

/// Why a module's source could not be read as Python.
#[derive(Debug)]
pub struct ParseError {
    pub message: String,
}

/// What the Python parser makes of a source text: the top-level statements
/// of the module, or `None` where the text is not valid Python.
pub uninterp spec fn parsed_module(source: Seq<char>) -> Option<Seq<Statement>>;

/// Relies on `rustpython_parser::ast::Suite::parse`: a module parses to its
/// top-level statements, or fails with an error. The result depends on the
/// source text alone. Each statement keeps its kind (an `async def` is a
/// function definition); a function or class definition keeps its name.
/// The parser keeps byte offsets in a `u32`, so the source is bounded so that
/// its UTF-8 length stays below `u32::MAX`.
#[verifier::external_body]
fn parse_suite(source: &str) -> (r: Result<Vec<Statement>, String>)
    requires
        source@.len() < MAX_SOURCE_CHARS,
    ensures
        r is Ok <==> parsed_module(source@) is Some,
        r is Ok ==> r->Ok_0@ == parsed_module(source@)->0,
{
    match rustpython_parser::ast::Suite::parse(source, "<string>") {
        Ok(suite) => Ok(suite.into_iter().map(|s| match s {
            Stmt::FunctionDef(f) => Statement::FunctionDef { name: String::from(f.name) },
            Stmt::AsyncFunctionDef(f) => Statement::FunctionDef { name: String::from(f.name) },
            Stmt::ClassDef(c) => Statement::ClassDef { name: String::from(c.name) },
            Stmt::Import(_) => Statement::Import,
            Stmt::ImportFrom(_) => Statement::ImportFrom,
            Stmt::Assign(_) => Statement::Assign,
            _ => Statement::Other,
        }).collect()),
        Err(e) => Err(e.to_string()),
    }
}

/// The longest source, in characters, that the parser takes: four bytes per
/// character at most keeps every byte offset within a `u32`.
pub const MAX_SOURCE_CHARS: usize = 0x4000_0000;

/// A source the parser takes: short enough, and valid Python.
pub open spec fn parses(source: Seq<char>) -> bool {
    source.len() < MAX_SOURCE_CHARS && parsed_module(source) is Some
}

/// Parses Python source into its top-level statements. A source of
/// `MAX_SOURCE_CHARS` characters or more is refused with an error.
pub fn parse_source(source: &str) -> (r: Result<Vec<Statement>, ParseError>)
    ensures
        r is Ok <==> parses(source@),
        r is Ok ==> r->Ok_0@ == parsed_module(source@)->0,
{
    if source.unicode_len() >= MAX_SOURCE_CHARS {
        return Err(ParseError { message: String::from_str("source too large to parse") });
    }
    match parse_suite(source) {
        Ok(stmts) => Ok(stmts),
        Err(message) => Err(ParseError { message }),
    }
}

/// The statements of kind `k`, copied in source order.
pub fn extract_kind(ast: &[Statement], k: StatementKind) -> (r: Vec<Statement>)
    ensures
        r@ == of_kind(ast@, k),
{
    let mut out: Vec<Statement> = Vec::new();
    let mut i: usize = 0;
    while i < ast.len()
        invariant
            i <= ast@.len(),
            out@ == of_kind(ast@.take(i as int), k),
        decreases ast@.len() - i,
    {
        let s = &ast[i];
        proof {
            assert(ast@.take(i + 1) =~= ast@.take(i as int).push(ast@[i as int]));
            ast@.take(i as int).lemma_filter_push(ast@[i as int], |x: Statement| kind_of(x) == k);
        }
        if s.kind() == k {
            out.push(s.duplicate());
        }
        i += 1;
    }
    proof {
        assert(ast@.take(ast@.len() as int) =~= ast@);
    }
    out
}

/// The function definitions among the top-level statements.
pub fn extract_functions(ast: &[Statement]) -> (r: Vec<Statement>)
    ensures
        r@ == of_kind(ast@, StatementKind::Function),
{
    extract_kind(ast, StatementKind::Function)
}

/// The class definitions among the top-level statements.
pub fn extract_classes(ast: &[Statement]) -> (r: Vec<Statement>)
    ensures
        r@ == of_kind(ast@, StatementKind::Class),
{
    extract_kind(ast, StatementKind::Class)
}

/// The `import` statements among the top-level statements.
pub fn extract_imports(ast: &[Statement]) -> (r: Vec<Statement>)
    ensures
        r@ == of_kind(ast@, StatementKind::Import),
{
    extract_kind(ast, StatementKind::Import)
}

/// The `from ... import` statements among the top-level statements.
pub fn extract_from_imports(ast: &[Statement]) -> (r: Vec<Statement>)
    ensures
        r@ == of_kind(ast@, StatementKind::ImportFrom),
{
    extract_kind(ast, StatementKind::ImportFrom)
}

/// The module-level assignments among the top-level statements.
pub fn extract_module_vars(ast: &[Statement]) -> (r: Vec<Statement>)
    ensures
        r@ == of_kind(ast@, StatementKind::Assign),
{
    extract_kind(ast, StatementKind::Assign)
}

/// The top-level statements of a module, sorted by kind.
pub struct ExtractionResult {
    pub functions: Vec<Statement>,
    pub classes: Vec<Statement>,
    pub imports: Vec<Statement>,
    pub from_imports: Vec<Statement>,
    pub assigns: Vec<Statement>,
}

/// The five groups of an extraction, as sequences.
pub struct ExtractionView {
    pub functions: Seq<Statement>,
    pub classes: Seq<Statement>,
    pub imports: Seq<Statement>,
    pub from_imports: Seq<Statement>,
    pub assigns: Seq<Statement>,
}

impl View for ExtractionResult {
    type V = ExtractionView;

    open spec fn view(&self) -> ExtractionView {
        ExtractionView {
            functions: self.functions@,
            classes: self.classes@,
            imports: self.imports@,
            from_imports: self.from_imports@,
            assigns: self.assigns@,
        }
    }
}

/// What extraction makes of the statements `s`: each group holds the
/// statements of its kind in source order.
pub open spec fn extraction_of(s: Seq<Statement>) -> ExtractionView {
    ExtractionView {
        functions: of_kind(s, StatementKind::Function),
        classes: of_kind(s, StatementKind::Class),
        imports: of_kind(s, StatementKind::Import),
        from_imports: of_kind(s, StatementKind::ImportFrom),
        assigns: of_kind(s, StatementKind::Assign),
    }
}

/// The number of statements across the five groups.
pub open spec fn total_len(e: ExtractionView) -> nat {
    e.functions.len() + e.classes.len() + e.imports.len() + e.from_imports.len()
        + e.assigns.len()
}

/// Sorts the top-level statements of a module into functions, classes,
/// imports, from-imports and module-level assignments; other statements are
/// left out.
pub fn extract(ast: &[Statement]) -> (r: ExtractionResult)
    ensures
        r@ == extraction_of(ast@),
{
    ExtractionResult {
        functions: extract_functions(ast),
        classes: extract_classes(ast),
        imports: extract_imports(ast),
        from_imports: extract_from_imports(ast),
        assigns: extract_module_vars(ast),
    }
}

/// Every statement falls in exactly one of the six kinds.
proof fn lemma_kinds_cover(s: Seq<Statement>)
    ensures
        total_len(extraction_of(s)) + of_kind(s, StatementKind::Other).len() == s.len(),
    decreases s.len(),
{
    if s.len() > 0 {
        lemma_kinds_cover(s.drop_last());
        let p = s.drop_last();
        assert(s =~= p.push(s.last()));
        p.lemma_filter_push(s.last(), |x: Statement| kind_of(x) == StatementKind::Function);
        p.lemma_filter_push(s.last(), |x: Statement| kind_of(x) == StatementKind::Class);
        p.lemma_filter_push(s.last(), |x: Statement| kind_of(x) == StatementKind::Import);
        p.lemma_filter_push(s.last(), |x: Statement| kind_of(x) == StatementKind::ImportFrom);
        p.lemma_filter_push(s.last(), |x: Statement| kind_of(x) == StatementKind::Assign);
        p.lemma_filter_push(s.last(), |x: Statement| kind_of(x) == StatementKind::Other);
    }
}

/// Picking the statements of one kind twice picks the same statements.
proof fn lemma_of_kind_idempotent(s: Seq<Statement>, k: StatementKind)
    ensures
        of_kind(of_kind(s, k), k) == of_kind(s, k),
    decreases s.len(),
{
    if s.len() > 0 {
        let p = s.drop_last();
        lemma_of_kind_idempotent(p, k);
        assert(s =~= p.push(s.last()));
        p.lemma_filter_push(s.last(), |x: Statement| kind_of(x) == k);
        of_kind(p, k).lemma_filter_push(s.last(), |x: Statement| kind_of(x) == k);
    }
}

/// Extraction keeps no more statements than it is given, and each group
/// holds exactly the statements of its kind in their source order: a
/// statement of the group's kind at position `i` of the input comes before
/// one at position `j > i`.
pub proof fn lemma_extract_sizes_and_order(s: Seq<Statement>)
    ensures
        total_len(extraction_of(s)) <= s.len(),
        extraction_of(s).functions == s.filter(|x: Statement| kind_of(x) == StatementKind::Function),
        extraction_of(s).classes == s.filter(|x: Statement| kind_of(x) == StatementKind::Class),
        extraction_of(s).imports == s.filter(|x: Statement| kind_of(x) == StatementKind::Import),
        extraction_of(s).from_imports == s.filter(
            |x: Statement| kind_of(x) == StatementKind::ImportFrom,
        ),
        extraction_of(s).assigns == s.filter(|x: Statement| kind_of(x) == StatementKind::Assign),
{
    lemma_kinds_cover(s);
}

/// Extraction from no statements gives five empty groups.
pub proof fn lemma_extract_empty()
    ensures
        extraction_of(Seq::<Statement>::empty()).functions.len() == 0,
        extraction_of(Seq::<Statement>::empty()).classes.len() == 0,
        extraction_of(Seq::<Statement>::empty()).imports.len() == 0,
        extraction_of(Seq::<Statement>::empty()).from_imports.len() == 0,
        extraction_of(Seq::<Statement>::empty()).assigns.len() == 0,
{
    lemma_kinds_cover(Seq::<Statement>::empty());
}

/// Extraction is a function of its input: two extractions of the same
/// statements are equal, and extracting again from a group gives that group
/// back unchanged.
pub proof fn lemma_extract_idempotent(s: Seq<Statement>, a: ExtractionView, b: ExtractionView)
    requires
        a == extraction_of(s),
        b == extraction_of(s),
    ensures
        a == b,
        extraction_of(a.functions).functions == a.functions,
        extraction_of(a.classes).classes == a.classes,
        extraction_of(a.imports).imports == a.imports,
        extraction_of(a.from_imports).from_imports == a.from_imports,
        extraction_of(a.assigns).assigns == a.assigns,
{
    lemma_of_kind_idempotent(s, StatementKind::Function);
    lemma_of_kind_idempotent(s, StatementKind::Class);
    lemma_of_kind_idempotent(s, StatementKind::Import);
    lemma_of_kind_idempotent(s, StatementKind::ImportFrom);
    lemma_of_kind_idempotent(s, StatementKind::Assign);
}

} // verus!
