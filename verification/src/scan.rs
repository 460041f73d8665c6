//! Scanning one file: parse its contents with the C grammar, ask whether the
//! tree holds any parse-error node, and if so collect every error node's
//! source range through a fixed structural query.
//!
//! The grammar engine is an outside capability. It is reached only through
//! the trusted items below; everything the library states about a scan is
//! phrased over two names, `has_error_of` and `error_ranges_of`, for what the
//! engine decides of a given sequence of bytes.

use crate::model::{FileOutcome, SourceRange};
use vstd::prelude::*;

verus! {

#[verifier::external_type_specification]
#[verifier::external_body]
pub struct ExParser(tree_sitter::Parser);

#[verifier::external_type_specification]
#[verifier::external_body]
pub struct ExTree(tree_sitter::Tree);

#[verifier::external_type_specification]
#[verifier::external_body]
pub struct ExQuery(tree_sitter::Query);

#[verifier::external_type_specification]
#[verifier::external_body]
pub struct ExQueryCursor(tree_sitter::QueryCursor);

/// Whether the C grammar's parse of `text` yields a tree containing at least
/// one error node. The parse and the check depend on the bytes alone.
pub uninterp spec fn has_error_of(text: Seq<u8>) -> bool;

/// The source ranges of the error nodes that the structural error-node query
/// yields for the C grammar's parse of `text`, in match order. The parse and
/// the query depend on the bytes alone.
pub uninterp spec fn error_ranges_of(text: Seq<u8>) -> Seq<SourceRange>;

/// A parser with the C grammar assigned. The field is private and the sole
/// constructor is `get_parser`, so every value of this type has a language
/// set; the library never sets a parse timeout or a cancellation flag.
pub struct CParser {
    parser: tree_sitter::Parser,
}

/// The compiled structural query matching every error node, shared read-only
/// by any number of scans.
pub struct ErrorQuery {
    query: tree_sitter::Query,
}

/// One worker's parsing resources: a parser with the C grammar assigned and a
/// query cursor. Constructed at most once per worker and reused for every
/// file that worker scans; never shared between workers.
pub struct ParsingResources {
    parser: CParser,
    cursor: tree_sitter::QueryCursor,
}

/// A syntax tree together with (as ghost state) the bytes it was parsed
/// from. Built only by `scan_text`, which pairs each fresh parse with the
/// very bytes it handed the parser; the trusted items below rely on that
/// pairing.
pub struct ParsedTree {
    tree: tree_sitter::Tree,
    source: Ghost<Seq<u8>>,
}

impl ParsedTree {
    /// The bytes this tree was parsed from.
    pub closed spec fn source_bytes(self) -> Seq<u8> {
        self.source@
    }
}

/// Relies on `tree_sitter::Parser::new` and `Parser::set_language`, fed the C
/// grammar from `tree_sitter_c::language()`; per their documentation the
/// assignment fails only on a grammar ABI version mismatch, and then `None`
/// comes back (a fatal condition for the caller: no scan can proceed).
#[verifier::external_body]
pub fn get_parser() -> (r: Option<CParser>) {
    let mut parser = tree_sitter::Parser::new();
    match parser.set_language(tree_sitter_c::language()) {
        Ok(()) => Some(CParser { parser }),
        Err(_) => None,
    }
}

/// Relies on `tree_sitter::Query::new`, compiling the fixed pattern
/// `(ERROR) @error` against the C grammar; per its documentation it fails
/// only on an invalid pattern, and then `None` comes back.
#[verifier::external_body]
pub fn error_query() -> (r: Option<ErrorQuery>) {
    match tree_sitter::Query::new(tree_sitter_c::language(), "(ERROR) @error") {
        Ok(query) => Some(ErrorQuery { query }),
        Err(_) => None,
    }
}

/// Relies on `tree_sitter::QueryCursor::new`, which only allocates a cursor.
#[verifier::external_body]
fn build_cursor() -> (r: tree_sitter::QueryCursor) {
    tree_sitter::QueryCursor::new()
}

/// Relies on `tree_sitter::Parser::parse` (with no old tree, so each file is
/// parsed fresh). Its documentation has it return `None` only when no
/// language is assigned, a timeout expired, or a cancellation flag was set;
/// a `CParser` always has the C grammar assigned and the library never sets
/// the other two, so the parse succeeds.
#[verifier::external_body]
fn parse_raw(p: &mut CParser, text: &Vec<u8>) -> (r: Option<tree_sitter::Tree>)
    ensures
        r is Some,
{
    p.parser.parse(text.as_slice(), None)
}

/// Relies on `tree_sitter::Tree::root_node` and `Node::has_error`: whether
/// the tree holds a syntax error anywhere, a fact of the parsed bytes alone.
#[verifier::external_body]
fn tree_has_error(t: &ParsedTree) -> (r: bool)
    ensures
        r == has_error_of(t.source_bytes()),
{
    t.tree.root_node().has_error()
}

/// Relies on `tree_sitter::QueryCursor::matches` run over the tree's root
/// node, and on `Node::range` for each capture. The captures are handed out
/// in match order and each is converted to its plain range. The text is
/// supplied as raw bytes, so no capture is decoded and a non-UTF-8 span
/// cannot fail; the fixed pattern does not inspect node text.
#[verifier::external_body]
fn collect_error_ranges(
    cursor: &mut tree_sitter::QueryCursor,
    query: &ErrorQuery,
    t: &ParsedTree,
    text: &Vec<u8>,
) -> (r: Vec<SourceRange>)
    requires
        t.source_bytes() == text@,
    ensures
        r@ == error_ranges_of(text@),
{
    let matches = cursor.matches(&query.query, t.tree.root_node(), text.as_slice());
    matches.flat_map(|m| m.captures.iter()).map(|c| {
        let rg = c.node.range();
        SourceRange {
            start_byte: rg.start_byte,
            end_byte: rg.end_byte,
            start_row: rg.start_point.row,
            start_column: rg.start_point.column,
            end_row: rg.end_point.row,
            end_column: rg.end_point.column,
        }
    }).collect()
}

/// `r` is the classification the grammar gives to `text`: `Errored` with the
/// query's ranges when the parse tree holds an error node, `Clean` otherwise.
pub open spec fn is_classification_of(text: Seq<u8>, r: FileOutcome) -> bool {
    if has_error_of(text) {
        r matches FileOutcome::Errored(v) && v@ == error_ranges_of(text)
    } else {
        r is Clean
    }
}

impl ParsingResources {
    /// Builds one worker's resources. `None` means the grammar could not be
    /// loaded, which is fatal to the whole run.
    pub fn build() -> (r: Option<ParsingResources>) {
        match get_parser() {
            Some(parser) => Some(ParsingResources { parser, cursor: build_cursor() }),
            None => None,
        }
    }
}

/// Scans one file's readable contents: parse, then the cheap tree-wide error
/// check, and only on an error the structural query. A tree without error
/// nodes cannot match the error pattern, so the short-circuit changes no
/// outcome. An error-flagged tree with zero matches stays `Errored` with an
/// empty range list; it is not coerced to `Clean`.
pub fn scan_text(res: &mut ParsingResources, query: &ErrorQuery, text: &Vec<u8>) -> (r: FileOutcome)
    ensures
        is_classification_of(text@, r),
        r is Errored <==> has_error_of(text@),
        r matches FileOutcome::Errored(v) ==> v@ == error_ranges_of(text@),
{
    let raw = parse_raw(&mut res.parser, text).unwrap();
    let t = ParsedTree { tree: raw, source: Ghost(text@) };
    if tree_has_error(&t) {
        let ranges = collect_error_ranges(&mut res.cursor, query, &t, text);
        FileOutcome::Errored(ranges)
    } else {
        FileOutcome::Clean
    }
}

/// Scans one file given the result of reading it: unreadable contents are
/// absorbed as `Unreadable` (skipped, never a run failure), readable bytes
/// are classified by the grammar.
pub fn scan_file(res: &mut ParsingResources, query: &ErrorQuery, contents: Option<Vec<u8>>) -> (r: FileOutcome)
    ensures
        contents is None ==> r is Unreadable,
        contents matches Some(text) ==> is_classification_of(text@, r),
{
    match contents {
        None => FileOutcome::Unreadable,
        Some(text) => scan_text(res, query, &text),
    }
}

/// Classification is a function of the file's bytes alone: scanning the same
/// contents twice, or byte-identical files on different workers with
/// different parsing resources, yields the same classification and the same
/// ranges.
pub proof fn lemma_classification_deterministic(text: Seq<u8>, r1: FileOutcome, r2: FileOutcome)
    requires
        is_classification_of(text, r1),
        is_classification_of(text, r2),
    ensures
        r1 is Clean <==> r2 is Clean,
        r1 is Errored <==> r2 is Errored,
        r1 matches FileOutcome::Errored(v1) ==> (r2 matches FileOutcome::Errored(v2)
            && v1@ == v2@),
{
}

} // verus!
