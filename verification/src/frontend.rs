//! What the parser and the semantic analysis hand the rules: the program's
//! ESTree text, the parser's and the analysis's own errors, the declared
//! symbols with their references, and which identifier references resolve.
//! Each item here calls the oxc crates; everything the rules decide from
//! these values is verified elsewhere.
use oxc_allocator::Allocator;
use oxc_ast::AstKind;
use oxc_parser::Parser;
use oxc_semantic::SemanticBuilder;
use oxc_span::SourceType;
use vstd::prelude::*;

verus! {

/// A symbol declared in the program, as the semantic analysis reports it.
#[derive(Debug, Clone)]
pub struct SymbolFact {
    pub name: String,
    /// Byte span of the symbol's binding.
    pub start: u32,
    pub end: u32,
    pub is_variable: bool,
    pub is_catch_variable: bool,
    pub is_import: bool,
    /// For each reference resolved to the symbol: whether it reads the
    /// value, and whether it is a type-level reference.
    pub references: Vec<(bool, bool)>,
}

/// The plain values of a [`SymbolFact`].
pub struct SymbolView {
    pub name: Seq<char>,
    pub start: u32,
    pub end: u32,
    pub is_variable: bool,
    pub is_catch_variable: bool,
    pub is_import: bool,
    pub references: Seq<(bool, bool)>,
}

impl View for SymbolFact {
    type V = SymbolView;

    open spec fn view(&self) -> SymbolView {
        SymbolView {
            name: self.name@,
            start: self.start,
            end: self.end,
            is_variable: self.is_variable,
            is_catch_variable: self.is_catch_variable,
            is_import: self.is_import,
            references: self.references@,
        }
    }
}

/// An identifier reference in the program and whether it resolves to a
/// declared symbol.
#[derive(Debug, Clone, Copy)]
pub struct ReferenceFact {
    pub start: u32,
    pub end: u32,
    pub resolved: bool,
}

/// The ESTree JSON text oxc produces for a program at a path.
pub uninterp spec fn estree_of(path: Seq<char>, source: Seq<char>) -> Seq<char>;

/// The errors oxc's parser reports for a program at a path, as (label
/// offsets, message).
pub uninterp spec fn parse_errors_of(path: Seq<char>, source: Seq<char>) -> Seq<(Seq<u32>, Seq<char>)>;

/// The errors oxc's semantic checker reports for a program at a path, as
/// (label offsets, message).
pub uninterp spec fn semantic_errors_of(path: Seq<char>, source: Seq<char>) -> Seq<(Seq<u32>, Seq<char>)>;

/// The symbols oxc's semantic analysis finds in a program at a path.
pub uninterp spec fn symbols_of(path: Seq<char>, source: Seq<char>) -> Seq<SymbolView>;

/// The kinds of each symbol's declaring node and its ancestors.
pub uninterp spec fn lineages_of(path: Seq<char>, source: Seq<char>) -> Seq<Seq<Seq<char>>>;

/// The identifier references of a program at a path, in node order.
pub uninterp spec fn references_of(path: Seq<char>, source: Seq<char>) -> Seq<(u32, u32, bool)>;

/// Whether oxc's `SourceType::from_path` takes the path for TypeScript:
/// exactly when the file name's extension is `ts`, `mts`, `cts` or `tsx`
/// (other and missing extensions fall back to JavaScript).
pub open spec fn typescript_path(path: Seq<char>) -> bool {
    match crate::policy_ir::path_extension(path) {
        Some(e) => e == "ts"@ || e == "mts"@ || e == "cts"@ || e == "tsx"@,
        None => false,
    }
}

/// Parses `source` with `oxc_parser` (source type from
/// `oxc_span::SourceType::from_path`, default when the extension is
/// unknown) and serialises the program with
/// `oxc_ast::ast::Program::to_estree_json`, TypeScript fields included.
/// Claimed: the text depends on the path and the source alone.
#[verifier::external_body]
pub(crate) fn estree_text(path: &str, source: &str) -> (r: String)
    ensures
        r@ == estree_of(path@, source@),
{
    let source_type = SourceType::from_path(path).unwrap_or_default();
    let allocator = Allocator::default();
    let parsed = Parser::new(&allocator, source, source_type).parse();
    parsed.program.to_estree_json(true, false)
}

/// Parses `source` with `oxc_parser` (source type as for [`estree_text`])
/// and returns its diagnostics in order, each as its label offsets and its
/// message.  Claimed: the list depends on the path and the source alone.
#[verifier::external_body]
pub(crate) fn parser_errors(path: &str, source: &str) -> (r: Vec<(Vec<u32>, String)>)
    ensures
        r@.map_values(|e: (Vec<u32>, String)| (e.0@, e.1@)) == parse_errors_of(path@, source@),
{
    let source_type = SourceType::from_path(path).unwrap_or_default();
    let allocator = Allocator::default();
    let parsed = Parser::new(&allocator, source, source_type).parse();
    parsed.diagnostics.iter().map(|e| (e.labels.as_slice().iter().map(|l| l.offset()).collect(), e.to_string())).collect()
}

/// Runs `oxc_semantic::SemanticBuilder` (node store and syntax checks on) on the parsed
/// program and returns its diagnostics in order, each as its label offsets
/// and its message.  Claimed: the list depends on the path and the source alone.
#[verifier::external_body]
pub(crate) fn semantic_errors(path: &str, source: &str) -> (r: Vec<(Vec<u32>, String)>)
    ensures
        r@.map_values(|e: (Vec<u32>, String)| (e.0@, e.1@)) == semantic_errors_of(path@, source@),
{
    let source_type = SourceType::from_path(path).unwrap_or_default();
    let allocator = Allocator::default();
    let parsed = Parser::new(&allocator, source, source_type).parse();
    let built = SemanticBuilder::new().with_build_nodes(true).with_check_syntax_error(true).build(&parsed.program);
    built.diagnostics.iter().map(|e| (e.labels.as_slice().iter().map(|l| l.offset()).collect(), e.to_string())).collect()
}

/// Runs `oxc_semantic::SemanticBuilder` on the parsed program and reports,
/// for each symbol of its `Scoping` in id order, the name, span and flags,
/// and the (read, type) kind of each resolved reference.  Claimed: the list depends on the
/// path and the source alone.
#[verifier::external_body]
pub(crate) fn symbol_facts(path: &str, source: &str) -> (r: Vec<SymbolFact>)
    ensures
        r@.map_values(|f: SymbolFact| f@) == symbols_of(path@, source@),
{
    let allocator = Allocator::default();
    let parsed = Parser::new(&allocator, source, SourceType::from_path(path).unwrap_or_default()).parse();
    let built = SemanticBuilder::new().with_build_nodes(true).build(&parsed.program);
    let sc = built.semantic.scoping();
    sc.symbol_ids().map(|id| { let (span, flags) = (sc.symbol_span(id), sc.symbol_flags(id)); SymbolFact {
        name: sc.symbol_name(id).to_string(), start: span.start, end: span.end,
        is_variable: flags.is_variable(), is_catch_variable: flags.is_catch_variable(), is_import: flags.is_import(),
        references: sc.get_resolved_references(id).map(|r| (r.is_read(), r.is_type())).collect(),
    } }).collect()
}

/// For each symbol of the `Scoping` that `oxc_semantic::SemanticBuilder`
/// builds, in id order: the `AstType` names of its declaring node and of
/// each ancestor up to the program.  Claimed: the list depends on the path
/// and the source alone.
#[verifier::external_body]
pub(crate) fn symbol_lineages(path: &str, source: &str) -> (r: Vec<Vec<String>>)
    ensures
        r@.map_values(|l: Vec<String>| l@.map_values(|s: String| s@)) == lineages_of(path@, source@),
{
    let source_type = SourceType::from_path(path).unwrap_or_default();
    let allocator = Allocator::default();
    let parsed = Parser::new(&allocator, source, source_type).parse();
    let built = SemanticBuilder::new().with_build_nodes(true).build(&parsed.program);
    let (sc, nodes) = (built.semantic.scoping(), built.semantic.nodes());
    sc.symbol_ids().map(|id| std::iter::once(sc.symbol_declaration(id)).chain(nodes.ancestor_ids(sc.symbol_declaration(id)))
        .map(|n| format!("{:?}", nodes.kind(n).ty())).collect()).collect()
}

/// Runs `oxc_semantic::SemanticBuilder` (node store on) on the parsed program and reports,
/// for each `IdentifierReference` node in node order, its span and whether
/// its reference resolves to a symbol.  Claimed: the list depends on the
/// path and the source alone.
#[verifier::external_body]
pub(crate) fn reference_facts(path: &str, source: &str) -> (r: Vec<ReferenceFact>)
    ensures
        r@.map_values(|f: ReferenceFact| (f.start, f.end, f.resolved)) == references_of(path@, source@),
{
    let source_type = SourceType::from_path(path).unwrap_or_default();
    let allocator = Allocator::default();
    let parsed = Parser::new(&allocator, source, source_type).parse();
    let built = SemanticBuilder::new().with_build_nodes(true).build(&parsed.program);
    let (nodes, sc) = (built.semantic.nodes(), built.semantic.scoping());
    nodes.iter().filter_map(|n| match n.kind() {
        AstKind::IdentifierReference(id) => Some(ReferenceFact {
            start: id.span.start,
            end: id.span.end,
            resolved: sc.get_reference(id.reference_id()).symbol_id().is_some(),
        }),
        _ => None,
    }).collect()
}

/// Whether `oxc_span::SourceType::from_path` (default when the extension
/// is unknown) gives a TypeScript source type.
#[verifier::external_body]
pub(crate) fn is_typescript_path(path: &str) -> (r: bool)
    ensures
        r == typescript_path(path@),
{
    SourceType::from_path(path).unwrap_or_default().is_typescript()
}

} // verus!
