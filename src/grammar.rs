use vstd::prelude::*;
use crate::error::{result_view, SyntaxError};
use crate::grammar_spec::{
    sp_assign, sp_comp, sp_comp_rest, sp_decl, sp_decl_sec, sp_end_of, sp_expr, sp_factor,
    sp_id_list, sp_if_stmt, sp_input, sp_operand, sp_output, sp_program, sp_stmt, sp_stmt_sec,
    sp_type, sp_while_stmt,
};
use crate::lexer::{Rule, Tokens};

verus! {

impl Tokens {
    /// `int`, `float` or `double`.
    pub fn _type(&mut self) -> (r: Result<(), SyntaxError>)
        requires
            old(self).wf(),
        ensures
            final(self).moved_on(*old(self)),
            (final(self)@, result_view(r)) == sp_type(old(self).src(), old(self)@),
    {
        if self.peek("int") {
            self.next("int")
        } else if self.peek("float") {
            self.next("float")
        } else if self.peek("double") {
            self.next("double")
        } else {
            self.syntax_error(
                String::from_str("all declarations must have a type of int, float, or double"),
            )
        }
    }

    /// One or more names separated by commas.
    pub fn id_list(&mut self) -> (r: Result<(), SyntaxError>)
        requires
            old(self).wf(),
        ensures
            final(self).moved_on(*old(self)),
            (final(self)@, result_view(r)) == sp_id_list(old(self).src(), old(self)@),
            r is Ok ==> old(self).cursor < final(self).cursor,
        decreases old(self).src().len() - old(self).cursor, 0int,
    {
        self.check_consisitency()?;
        self.push(Rule::IdList);
        self.id()?;
        if self.peek(",") {
            proof {
                reveal_strlit(",");
            }
            self.next(",")?;
            self.id_list()?;
        }
        Ok(())
    }

    /// Names, a colon, a type and a semicolon.
    pub fn decl(&mut self) -> (r: Result<(), SyntaxError>)
        requires
            old(self).wf(),
        ensures
            final(self).moved_on(*old(self)),
            (final(self)@, result_view(r)) == sp_decl(old(self).src(), old(self)@),
            r is Ok ==> old(self).cursor < final(self).cursor,
    {
        self.check_consisitency()?;
        self.push(Rule::Decl);
        self.id_list()?;
        self.next(":")?;
        self._type()?;
        self.next(";")?;
        Ok(())
    }

    /// One or more declarations, taken greedily: a further declaration that
    /// fails is rolled back and ends the section.
    pub fn decl_sec(&mut self) -> (r: Result<(), SyntaxError>)
        requires
            old(self).wf(),
        ensures
            final(self).moved_on(*old(self)),
            (final(self)@, result_view(r)) == sp_decl_sec(old(self).src(), old(self)@),
        decreases old(self).src().len() - old(self).cursor, 0int,
    {
        self.decleration_section = true;
        self.push(Rule::DeclSec);
        self.decl()?;
        let state = self.save_state();
        if self.decl_sec().is_err() {
            self.restore_state(state);
        }
        self.decleration_section = false;
        Ok(())
    }

    /// One or more statements, taken greedily.
    pub fn stmt_sec(&mut self) -> (r: Result<(), SyntaxError>)
        requires
            old(self).wf(),
        ensures
            final(self).moved_on(*old(self)),
            (final(self)@, result_view(r)) == sp_stmt_sec(old(self).src(), old(self)@),
        decreases old(self).src().len() - old(self).cursor, 10int,
    {
        self.check_consisitency()?;
        self.push(Rule::StmtSec);
        self.stmt()?;
        let state = self.save_state();
        if self.stmt_sec().is_err() {
            self.restore_state(state);
        }
        Ok(())
    }

    /// An assignment, conditional, loop, input or output, tried in that order.
    pub fn stmt(&mut self) -> (r: Result<(), SyntaxError>)
        requires
            old(self).wf(),
        ensures
            final(self).moved_on(*old(self)),
            (final(self)@, result_view(r)) == sp_stmt(old(self).src(), old(self)@),
            r is Ok ==> old(self).cursor < final(self).cursor,
        decreases old(self).src().len() - old(self).cursor, 9int,
    {
        self.check_consisitency()?;
        self.push(Rule::Stmt);
        let state = self.save_state();
        if self.assign().is_ok() {
            return Ok(());
        }
        self.restore_state(state);
        let state = self.save_state();
        if self.if_stmt().is_ok() {
            return Ok(());
        }
        self.restore_state(state);
        let state = self.save_state();
        if self.while_stmt().is_ok() {
            return Ok(());
        }
        self.restore_state(state);
        let state = self.save_state();
        if self.input().is_ok() {
            return Ok(());
        }
        self.restore_state(state);
        let state = self.save_state();
        if self.output().is_ok() {
            return Ok(());
        }
        self.restore_state(state);
        self.syntax_error(String::from_str("expected a statement"))
    }

    /// A name, `:=`, an expression and a semicolon.
    pub fn assign(&mut self) -> (r: Result<(), SyntaxError>)
        requires
            old(self).wf(),
        ensures
            final(self).moved_on(*old(self)),
            (final(self)@, result_view(r)) == sp_assign(old(self).src(), old(self)@),
            r is Ok ==> old(self).cursor < final(self).cursor,
        decreases old(self).src().len() - old(self).cursor, 8int,
    {
        self.check_consisitency()?;
        self.push(Rule::Assign);
        self.id()?;
        self.next(":=")?;
        self.expr()?;
        self.next(";")?;
        Ok(())
    }

    /// `end`, then `closer`, then a semicolon.
    fn end_of(&mut self, closer: &str) -> (r: Result<(), SyntaxError>)
        requires
            old(self).wf(),
        ensures
            final(self).moved_on(*old(self)),
            (final(self)@, result_view(r)) == sp_end_of(old(self).src(), old(self)@, closer@),
    {
        self.next("end")?;
        self.next(closer)?;
        self.next(";")
    }

    /// `if` comparison `then` statements, optionally `else` statements, `end if ;`.
    pub fn if_stmt(&mut self) -> (r: Result<(), SyntaxError>)
        requires
            old(self).wf(),
        ensures
            final(self).moved_on(*old(self)),
            (final(self)@, result_view(r)) == sp_if_stmt(old(self).src(), old(self)@),
            r is Ok ==> old(self).cursor < final(self).cursor,
        decreases old(self).src().len() - old(self).cursor, 8int,
    {
        self.check_consisitency()?;
        self.push(Rule::IfStmt);
        proof {
            reveal_strlit("if");
        }
        self.next("if")?;
        self.comp()?;
        self.next("then")?;
        self.stmt_sec()?;
        if self.peek("else") {
            self.next("else")?;
            self.stmt_sec()?;
        }
        self.end_of("if")
    }

    /// `while` comparison `loop` statements `end loop ;`.
    pub fn while_stmt(&mut self) -> (r: Result<(), SyntaxError>)
        requires
            old(self).wf(),
        ensures
            final(self).moved_on(*old(self)),
            (final(self)@, result_view(r)) == sp_while_stmt(old(self).src(), old(self)@),
            r is Ok ==> old(self).cursor < final(self).cursor,
        decreases old(self).src().len() - old(self).cursor, 8int,
    {
        self.check_consisitency()?;
        self.push(Rule::WhileStmt);
        proof {
            reveal_strlit("while");
        }
        self.next("while")?;
        self.comp()?;
        self.next("loop")?;
        self.stmt_sec()?;
        self.end_of("loop")
    }

    /// `input`, names and a semicolon.
    pub fn input(&mut self) -> (r: Result<(), SyntaxError>)
        requires
            old(self).wf(),
        ensures
            final(self).moved_on(*old(self)),
            (final(self)@, result_view(r)) == sp_input(old(self).src(), old(self)@),
            r is Ok ==> old(self).cursor < final(self).cursor,
    {
        self.check_consisitency()?;
        self.push(Rule::Input);
        proof {
            reveal_strlit("input");
        }
        self.next("input")?;
        self.id_list()?;
        self.next(";")
    }

    /// `output`, then names or, failing that, a number, then a semicolon.
    pub fn output(&mut self) -> (r: Result<(), SyntaxError>)
        requires
            old(self).wf(),
        ensures
            final(self).moved_on(*old(self)),
            (final(self)@, result_view(r)) == sp_output(old(self).src(), old(self)@),
            r is Ok ==> old(self).cursor < final(self).cursor,
    {
        self.check_consisitency()?;
        self.push(Rule::Output);
        proof {
            reveal_strlit("output");
        }
        self.next("output")?;
        let state = self.save_state();
        if self.id_list().is_ok() {
            return self.next(";");
        }
        self.restore_state(state);
        self.num()?;
        self.next(";")
    }

    /// A factor, then optionally `+` or `-` and another expression.
    pub fn expr(&mut self) -> (r: Result<(), SyntaxError>)
        requires
            old(self).wf(),
        ensures
            final(self).moved_on(*old(self)),
            (final(self)@, result_view(r)) == sp_expr(old(self).src(), old(self)@),
        decreases old(self).src().len() - old(self).cursor, 3int,
    {
        self.check_consisitency()?;
        self.push(Rule::Expr);
        self.factor()?;
        proof {
            reveal_strlit("+");
            reveal_strlit("-");
        }
        if self.peek("+") {
            self.next("+")?;
            self.expr()?;
        } else if self.peek("-") {
            self.next("-")?;
            self.expr()?;
        }
        Ok(())
    }

    /// An operand, then optionally `*` or `/` and another factor.
    pub fn factor(&mut self) -> (r: Result<(), SyntaxError>)
        requires
            old(self).wf(),
        ensures
            final(self).moved_on(*old(self)),
            (final(self)@, result_view(r)) == sp_factor(old(self).src(), old(self)@),
        decreases old(self).src().len() - old(self).cursor, 2int,
    {
        self.check_consisitency()?;
        self.push(Rule::Factor);
        self.operand()?;
        proof {
            reveal_strlit("*");
            reveal_strlit("/");
        }
        if self.peek("*") {
            self.next("*")?;
            self.factor()?;
        } else if self.peek("/") {
            self.next("/")?;
            self.factor()?;
        }
        Ok(())
    }

    /// A number, a name, or a parenthesised expression, tried in that order.
    pub fn operand(&mut self) -> (r: Result<(), SyntaxError>)
        requires
            old(self).wf(),
        ensures
            final(self).moved_on(*old(self)),
            (final(self)@, result_view(r)) == sp_operand(old(self).src(), old(self)@),
        decreases old(self).src().len() - old(self).cursor, 1int,
    {
        self.check_consisitency()?;
        self.push(Rule::Operand);
        let state = self.save_state();
        if self.num().is_ok() {
            return Ok(());
        }
        self.restore_state(state);
        let state = self.save_state();
        if self.id().is_ok() {
            return Ok(());
        }
        self.restore_state(state);
        proof {
            reveal_strlit("(");
        }
        self.next("(")?;
        self.expr()?;
        self.next(")")
    }

    /// The operator `op` of a comparison, its right operand and `)`.
    fn comp_rest(&mut self, op: &str) -> (r: Result<(), SyntaxError>)
        requires
            old(self).wf(),
        ensures
            final(self).moved_on(*old(self)),
            (final(self)@, result_view(r)) == sp_comp_rest(old(self).src(), old(self)@, op@),
        decreases old(self).src().len() - old(self).cursor, 5int,
    {
        self.next(op)?;
        self.operand()?;
        self.next(")")
    }

    /// A parenthesised comparison of two operands.
    pub fn comp(&mut self) -> (r: Result<(), SyntaxError>)
        requires
            old(self).wf(),
        ensures
            final(self).moved_on(*old(self)),
            (final(self)@, result_view(r)) == sp_comp(old(self).src(), old(self)@),
        decreases old(self).src().len() - old(self).cursor, 6int,
    {
        self.check_consisitency()?;
        self.push(Rule::Comp);
        self.next("(")?;
        self.operand()?;
        if self.peek("=") {
            self.comp_rest("=")
        } else if self.peek("<>") {
            self.comp_rest("<>")
        } else if self.peek(">") {
            self.comp_rest(">")
        } else if self.peek("<") {
            self.comp_rest("<")
        } else {
            self.syntax_error(String::from_str("expected a comparison operator"))
        }
    }

    /// A whole program.
    pub fn program(&mut self) -> (r: Result<(), SyntaxError>)
        requires
            old(self).wf(),
        ensures
            final(self).moved_on(*old(self)),
            (final(self)@, result_view(r)) == sp_program(old(self).src(), old(self)@),
            old(self)@.fatal is None ==> final(self)@.trace.len() > old(self)@.trace.len()
                && final(self)@.trace[old(self)@.trace.len() as int] == Rule::Program,
    {
        self.check_consisitency()?;
        self.push(Rule::Program);
        self.next("program")?;
        if self.peek("begin") {
            self.next("begin")?;
        } else {
            self.decl_sec()?;
            self.next("begin")?;
        }
        self.stmt_sec()?;
        self.next("end")?;
        self.next(";")?;
        Ok(())
    }
}

} // verus!
