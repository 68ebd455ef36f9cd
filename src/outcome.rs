use vstd::prelude::*;
use crate::error::{ErrorModel, SyntaxError};
use crate::grammar_spec::sp_program;
use crate::lexer::{not_declared_message, ParseState, Rule, Tokens};

verus! {

/// The result of checking a whole program.
pub enum Outcome {
    Accepted { trace: Vec<Rule> },
    Rejected { error: SyntaxError },
}

pub enum OutcomeModel {
    Accepted(Seq<Rule>),
    Rejected(ErrorModel),
}

impl View for Outcome {
    type V = OutcomeModel;

    open spec fn view(&self) -> OutcomeModel {
        match self {
            Outcome::Accepted { trace } => OutcomeModel::Accepted(trace@),
            Outcome::Rejected { error } => OutcomeModel::Rejected(error@),
        }
    }
}

pub open spec fn initial_state() -> ParseState {
    ParseState {
        pos: 0,
        line: 1,
        trace: Seq::empty(),
        in_decl: false,
        declared: Seq::empty(),
        fatal: None,
    }
}

/// The verdict on a source text: a sticky error recorded at any point wins;
/// otherwise the program rule's own result decides.
pub open spec fn sp_parse(src: Seq<char>) -> OutcomeModel {
    let (s, r) = sp_program(src, initial_state());
    match s.fatal {
        Some(e) => OutcomeModel::Rejected(e),
        None => match r {
            Ok(()) => OutcomeModel::Accepted(s.trace),
            Err(e) => OutcomeModel::Rejected(e),
        },
    }
}

/// Checks a whole program text.
pub fn parse(source: String) -> (r: Outcome)
    requires
        source@.len() < usize::MAX,
    ensures
        r@ == sp_parse(source@),
        r@ matches OutcomeModel::Accepted(t) ==> t.len() > 0 && t[0] == Rule::Program,
        sp_program(source@, initial_state()).0.fatal matches Some(e) ==> r@
            == OutcomeModel::Rejected(e) && e.message == not_declared_message(),
{
    let mut tokens = Tokens::new(source);
    let result = tokens.program();
    match tokens.check_consisitency() {
        Err(error) => Outcome::Rejected { error },
        Ok(()) => match result {
            Ok(()) => Outcome::Accepted { trace: tokens.outputs },
            Err(error) => Outcome::Rejected { error },
        },
    }
}

} // verus!
