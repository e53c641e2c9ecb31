use vstd::prelude::*;
use crate::grammar::{error_at, p_program, Parsed, ParserView, SyntaxError, SyntaxErrorKind};
use crate::lexer::{warnings_from, LexError, Lexer};
use crate::semantic::{
    check_block, check_block_keeps_wf, failure_means_not_ok, first_failure, Semantic, Verdict,
};
use crate::sintax::{statement_views, Sintax, Statement};
use crate::table::{SymbolTable, TableView};
use crate::table_laws::{initial_is_wf, table_wf};

verus! {

/// What the front end makes of a source text that parses: the program, the symbol
/// table as the check left it, and whether every statement passed the check.
#[derive(Debug)]
pub struct Compiled {
    pub program: Vec<Statement>,
    pub table: SymbolTable,
    /// Whether every statement passed the check.
    pub checked: bool,
    /// The place in the program of the first statement that failed the check.
    pub failed: Option<usize>,
    /// The complaints about the number literals that ran into a letter and were
    /// taken for zero, in the order of the literals.
    pub warnings: Vec<LexError>,
}

/// The state in which parsing of `source` starts.
pub open spec fn start_of(source: Seq<char>) -> ParserView {
    ParserView { source, position: 0, table: TableView::initial(), scope_id: 0 }
}

/// Scans, parses and checks a source text. A text that does not parse gives the
/// first syntax error. A text that parses gives its program and its table, which is
/// well formed, the verdict of the check, which stops at the first statement that
/// fails, and the complaints about invalid number literals.
pub fn compile(source: String) -> (r: Result<Compiled, SyntaxError>)
    requires
        source@.len() < usize::MAX,
    ensures
        match p_program(start_of(source@), Seq::empty()) {
            Parsed::Done { value, state } => {
                &&& r is Ok
                &&& statement_views(r->Ok_0.program@) == value
                &&& (Verdict { ok: r->Ok_0.checked, table: r->Ok_0.table@ }) == check_block(
                    state.table,
                    value,
                    None,
                    0,
                )
                &&& match first_failure(state.table, value, None, 0) {
                    Some(place) => r->Ok_0.failed == Some(place as usize),
                    None => r->Ok_0.failed is None,
                }
                &&& r->Ok_0.warnings@ == warnings_from(source@, 0)
            },
            Parsed::Fail { kind, at } => {
                &&& r is Err
                &&& r->Err_0 == error_at(source@, kind, at)
                &&& kind != SyntaxErrorKind::Stalled
            },
        },
        r is Ok ==> table_wf(r->Ok_0.table@),
{
    let mut scanner = Lexer::new(source.clone());
    let warnings = scanner.invalid_numbers();
    let mut parser = Sintax::new(Lexer::new(source));
    proof {
        initial_is_wf();
    }
    match parser.parse() {
        Ok(()) => {
            let Sintax { lexer: _, program, table, current_scope_id: _ } = parser;
            let mut checker = Semantic::new(program, table);
            let ghost before = checker.table@;
            let failed = checker.failing_statement();
            proof {
                failure_means_not_ok(before, statement_views(checker.program@), None, 0);
                check_block_keeps_wf(before, statement_views(checker.program@), None, 0);
            }
            let Semantic { program, table } = checker;
            Ok(Compiled { program, table, checked: failed.is_none(), failed, warnings })
        },
        Err(e) => Err(e),
    }
}

} // verus!
