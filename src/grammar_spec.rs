//! The recognition rules as functions on the model state. Each recursive call
//! carries a guard that the position has not moved back (or, where the rule
//! calls itself or one above it, has moved forward); the executable rules
//! prove that every guard holds, so the fallback branch is never taken.
use vstd::prelude::*;
use crate::error::ErrorModel;
use crate::lexer::{fail, sp_check, sp_id, sp_next, sp_num, sp_peek, sp_push, sp_restore, sp_save, ParseState, Rule, Step};

verus! {

/// The position did not move back, and stays within the text.
pub open spec fn no_back(src: Seq<char>, s: ParseState, t: ParseState) -> bool {
    s.pos <= t.pos <= src.len()
}

/// The position moved forward, and stays within the text.
pub open spec fn advanced(src: Seq<char>, s: ParseState, t: ParseState) -> bool {
    s.pos < t.pos <= src.len()
}

/// The value of a guarded call whose guard fails.
pub open spec fn stalled(s: ParseState) -> Step {
    fail(s, Seq::empty())
}

pub open spec fn halt(s: ParseState) -> Step {
    (s, sp_check(s))
}

pub open spec fn type_message() -> Seq<char> {
    "all declarations must have a type of int, float, or double"@
}

pub open spec fn sp_type(src: Seq<char>, s: ParseState) -> Step {
    let (s1, b1) = sp_peek(src, s, "int"@);
    if b1 {
        sp_next(src, s1, "int"@)
    } else {
        let (s2, b2) = sp_peek(src, s1, "float"@);
        if b2 {
            sp_next(src, s2, "float"@)
        } else {
            let (s3, b3) = sp_peek(src, s2, "double"@);
            if b3 {
                sp_next(src, s3, "double"@)
            } else {
                fail(s3, type_message())
            }
        }
    }
}

pub open spec fn sp_id_list(src: Seq<char>, s: ParseState) -> Step
    decreases src.len() - s.pos,
{
    if s.fatal is Some {
        halt(s)
    } else {
        let (s2, r2) = sp_id(src, sp_push(s, Rule::IdList));
        if r2 is Err {
            (s2, r2)
        } else {
            let (s3, b3) = sp_peek(src, s2, ","@);
            if !b3 {
                (s3, Ok(()))
            } else {
                let (s4, r4) = sp_next(src, s3, ","@);
                if r4 is Err {
                    (s4, r4)
                } else if advanced(src, s, s4) {
                    sp_id_list(src, s4)
                } else {
                    stalled(s4)
                }
            }
        }
    }
}

pub open spec fn sp_decl(src: Seq<char>, s: ParseState) -> Step {
    if s.fatal is Some {
        halt(s)
    } else {
        let (s2, r2) = sp_id_list(src, sp_push(s, Rule::Decl));
        if r2 is Err {
            (s2, r2)
        } else {
            let (s3, r3) = sp_next(src, s2, ":"@);
            if r3 is Err {
                (s3, r3)
            } else {
                let (s4, r4) = sp_type(src, s3);
                if r4 is Err {
                    (s4, r4)
                } else {
                    sp_next(src, s4, ";"@)
                }
            }
        }
    }
}

/// One or more declarations, taken greedily: a failed further declaration
/// is rolled back and ends the section.
pub open spec fn sp_decl_sec(src: Seq<char>, s: ParseState) -> Step
    decreases src.len() - s.pos,
{
    let s1 = sp_push(ParseState { in_decl: true, ..s }, Rule::DeclSec);
    let (s2, r2) = sp_decl(src, s1);
    if r2 is Err {
        (s2, r2)
    } else if advanced(src, s, s2) {
        let (s3, r3) = sp_decl_sec(src, s2);
        let s4 = if r3 is Err { sp_restore(s3, sp_save(s2)) } else { s3 };
        (ParseState { in_decl: false, ..s4 }, Ok(()))
    } else {
        stalled(s2)
    }
}

/// One or more statements, taken greedily as declarations are.
pub open spec fn sp_stmt_sec(src: Seq<char>, s: ParseState) -> Step
    decreases src.len() - s.pos, 10int,
{
    if s.fatal is Some {
        halt(s)
    } else {
        let (s2, r2) = sp_stmt(src, sp_push(s, Rule::StmtSec));
        if r2 is Err {
            (s2, r2)
        } else if advanced(src, s, s2) {
            let (s3, r3) = sp_stmt_sec(src, s2);
            (if r3 is Err { sp_restore(s3, sp_save(s2)) } else { s3 }, Ok(()))
        } else {
            stalled(s2)
        }
    }
}

/// The five kinds of statement, tried in order; each failed attempt is rolled back.
pub open spec fn sp_stmt(src: Seq<char>, s: ParseState) -> Step
    decreases src.len() - s.pos, 9int,
{
    if s.fatal is Some {
        halt(s)
    } else {
        let s1 = sp_push(s, Rule::Stmt);
        let (a, ra) = sp_assign(src, s1);
        if ra is Ok {
            (a, Ok(()))
        } else {
            let b0 = sp_restore(a, sp_save(s1));
            if !no_back(src, s, b0) {
                stalled(b0)
            } else {
                let (b, rb) = sp_if_stmt(src, b0);
                if rb is Ok {
                    (b, Ok(()))
                } else {
                    let c0 = sp_restore(b, sp_save(b0));
                    if !no_back(src, s, c0) {
                        stalled(c0)
                    } else {
                        let (c, rc) = sp_while_stmt(src, c0);
                        if rc is Ok {
                            (c, Ok(()))
                        } else {
                            let d0 = sp_restore(c, sp_save(c0));
                            let (d, rd) = sp_input(src, d0);
                            if rd is Ok {
                                (d, Ok(()))
                            } else {
                                let e0 = sp_restore(d, sp_save(d0));
                                let (e, re) = sp_output(src, e0);
                                if re is Ok {
                                    (e, Ok(()))
                                } else {
                                    fail(sp_restore(e, sp_save(e0)), "expected a statement"@)
                                }
                            }
                        }
                    }
                }
            }
        }
    }
}

pub open spec fn sp_assign(src: Seq<char>, s: ParseState) -> Step
    decreases src.len() - s.pos, 8int,
{
    if s.fatal is Some {
        halt(s)
    } else {
        let (s2, r2) = sp_id(src, sp_push(s, Rule::Assign));
        if r2 is Err {
            (s2, r2)
        } else {
            let (s3, r3) = sp_next(src, s2, ":="@);
            if r3 is Err {
                (s3, r3)
            } else if !no_back(src, s, s3) {
                stalled(s3)
            } else {
                let (s4, r4) = sp_expr(src, s3);
                if r4 is Err {
                    (s4, r4)
                } else {
                    sp_next(src, s4, ";"@)
                }
            }
        }
    }
}

/// The part of a conditional from `end` on.
pub open spec fn sp_end_of(src: Seq<char>, s: ParseState, closer: Seq<char>) -> Step {
    let (s1, r1) = sp_next(src, s, "end"@);
    if r1 is Err {
        (s1, r1)
    } else {
        let (s2, r2) = sp_next(src, s1, closer);
        if r2 is Err {
            (s2, r2)
        } else {
            sp_next(src, s2, ";"@)
        }
    }
}

pub open spec fn sp_if_stmt(src: Seq<char>, s: ParseState) -> Step
    decreases src.len() - s.pos, 8int,
{
    if s.fatal is Some {
        halt(s)
    } else {
        let (s2, r2) = sp_next(src, sp_push(s, Rule::IfStmt), "if"@);
        if r2 is Err {
            (s2, r2)
        } else if !no_back(src, s, s2) {
            stalled(s2)
        } else {
            let (s3, r3) = sp_comp(src, s2);
            if r3 is Err {
                (s3, r3)
            } else {
                let (s4, r4) = sp_next(src, s3, "then"@);
                if r4 is Err {
                    (s4, r4)
                } else if !advanced(src, s, s4) {
                    stalled(s4)
                } else {
                    let (s5, r5) = sp_stmt_sec(src, s4);
                    if r5 is Err {
                        (s5, r5)
                    } else {
                        let (s6, b6) = sp_peek(src, s5, "else"@);
                        if !b6 {
                            sp_end_of(src, s6, "if"@)
                        } else {
                            let (s7, r7) = sp_next(src, s6, "else"@);
                            if r7 is Err {
                                (s7, r7)
                            } else if !advanced(src, s, s7) {
                                stalled(s7)
                            } else {
                                let (s8, r8) = sp_stmt_sec(src, s7);
                                if r8 is Err {
                                    (s8, r8)
                                } else {
                                    sp_end_of(src, s8, "if"@)
                                }
                            }
                        }
                    }
                }
            }
        }
    }
}

pub open spec fn sp_while_stmt(src: Seq<char>, s: ParseState) -> Step
    decreases src.len() - s.pos, 8int,
{
    if s.fatal is Some {
        halt(s)
    } else {
        let (s2, r2) = sp_next(src, sp_push(s, Rule::WhileStmt), "while"@);
        if r2 is Err {
            (s2, r2)
        } else if !no_back(src, s, s2) {
            stalled(s2)
        } else {
            let (s3, r3) = sp_comp(src, s2);
            if r3 is Err {
                (s3, r3)
            } else {
                let (s4, r4) = sp_next(src, s3, "loop"@);
                if r4 is Err {
                    (s4, r4)
                } else if !advanced(src, s, s4) {
                    stalled(s4)
                } else {
                    let (s5, r5) = sp_stmt_sec(src, s4);
                    if r5 is Err {
                        (s5, r5)
                    } else {
                        sp_end_of(src, s5, "loop"@)
                    }
                }
            }
        }
    }
}

pub open spec fn sp_input(src: Seq<char>, s: ParseState) -> Step {
    if s.fatal is Some {
        halt(s)
    } else {
        let (s2, r2) = sp_next(src, sp_push(s, Rule::Input), "input"@);
        if r2 is Err {
            (s2, r2)
        } else {
            let (s3, r3) = sp_id_list(src, s2);
            if r3 is Err {
                (s3, r3)
            } else {
                sp_next(src, s3, ";"@)
            }
        }
    }
}

/// `output` followed by a list of names or, failing that, a number.
pub open spec fn sp_output(src: Seq<char>, s: ParseState) -> Step {
    if s.fatal is Some {
        halt(s)
    } else {
        let (s2, r2) = sp_next(src, sp_push(s, Rule::Output), "output"@);
        if r2 is Err {
            (s2, r2)
        } else {
            let (a, ra) = sp_id_list(src, s2);
            if ra is Ok {
                sp_next(src, a, ";"@)
            } else {
                let (b, rb) = sp_num(src, sp_restore(a, sp_save(s2)));
                if rb is Err {
                    (b, rb)
                } else {
                    sp_next(src, b, ";"@)
                }
            }
        }
    }
}

/// A factor, then optionally `+` or `-` and another expression.
pub open spec fn sp_expr(src: Seq<char>, s: ParseState) -> Step
    decreases src.len() - s.pos, 3int,
{
    if s.fatal is Some {
        halt(s)
    } else {
        let (s2, r2) = sp_factor(src, sp_push(s, Rule::Expr));
        if r2 is Err {
            (s2, r2)
        } else {
            let (s3, plus) = sp_peek(src, s2, "+"@);
            let (s4, minus) = sp_peek(src, s3, "-"@);
            let op = if plus { "+"@ } else { "-"@ };
            let at = if plus { s3 } else { s4 };
            if !plus && !minus {
                (s4, Ok(()))
            } else {
                let (s5, r5) = sp_next(src, at, op);
                if r5 is Err {
                    (s5, r5)
                } else if !advanced(src, s, s5) {
                    stalled(s5)
                } else {
                    sp_expr(src, s5)
                }
            }
        }
    }
}

/// An operand, then optionally `*` or `/` and another factor.
pub open spec fn sp_factor(src: Seq<char>, s: ParseState) -> Step
    decreases src.len() - s.pos, 2int,
{
    if s.fatal is Some {
        halt(s)
    } else {
        let (s2, r2) = sp_operand(src, sp_push(s, Rule::Factor));
        if r2 is Err {
            (s2, r2)
        } else {
            let (s3, times) = sp_peek(src, s2, "*"@);
            let (s4, over) = sp_peek(src, s3, "/"@);
            let op = if times { "*"@ } else { "/"@ };
            let at = if times { s3 } else { s4 };
            if !times && !over {
                (s4, Ok(()))
            } else {
                let (s5, r5) = sp_next(src, at, op);
                if r5 is Err {
                    (s5, r5)
                } else if !advanced(src, s, s5) {
                    stalled(s5)
                } else {
                    sp_factor(src, s5)
                }
            }
        }
    }
}

/// A number, a name, or a parenthesised expression, tried in that order.
pub open spec fn sp_operand(src: Seq<char>, s: ParseState) -> Step
    decreases src.len() - s.pos, 1int,
{
    if s.fatal is Some {
        halt(s)
    } else {
        let s1 = sp_push(s, Rule::Operand);
        let (a, ra) = sp_num(src, s1);
        if ra is Ok {
            (a, Ok(()))
        } else {
            let b0 = sp_restore(a, sp_save(s1));
            let (b, rb) = sp_id(src, b0);
            if rb is Ok {
                (b, Ok(()))
            } else {
                let c0 = sp_restore(b, sp_save(b0));
                let (c, rc) = sp_next(src, c0, "("@);
                if rc is Err {
                    (c, rc)
                } else if !advanced(src, s, c) {
                    stalled(c)
                } else {
                    let (d, rd) = sp_expr(src, c);
                    if rd is Err {
                        (d, rd)
                    } else {
                        sp_next(src, d, ")"@)
                    }
                }
            }
        }
    }
}

/// After a comparison's left operand: the operator `op`, the right operand, `)`.
pub open spec fn sp_comp_rest(src: Seq<char>, s: ParseState, op: Seq<char>) -> Step
    decreases src.len() - s.pos, 5int,
{
    let (s1, r1) = sp_next(src, s, op);
    if r1 is Err {
        (s1, r1)
    } else if !no_back(src, s, s1) {
        stalled(s1)
    } else {
        let (s2, r2) = sp_operand(src, s1);
        if r2 is Err {
            (s2, r2)
        } else {
            sp_next(src, s2, ")"@)
        }
    }
}

pub open spec fn sp_comp(src: Seq<char>, s: ParseState) -> Step
    decreases src.len() - s.pos, 6int,
{
    if s.fatal is Some {
        halt(s)
    } else {
        let (s2, r2) = sp_next(src, sp_push(s, Rule::Comp), "("@);
        if r2 is Err {
            (s2, r2)
        } else if !no_back(src, s, s2) {
            stalled(s2)
        } else {
            let (s3, r3) = sp_operand(src, s2);
            if r3 is Err {
                (s3, r3)
            } else if !no_back(src, s, s3) {
                stalled(s3)
            } else {
                let (t1, eq) = sp_peek(src, s3, "="@);
                let (t2, ne) = sp_peek(src, t1, "<>"@);
                let (t3, gt) = sp_peek(src, t2, ">"@);
                let (t4, lt) = sp_peek(src, t3, "<"@);
                if eq {
                    if no_back(src, s, t1) { sp_comp_rest(src, t1, "="@) } else { stalled(t1) }
                } else if ne {
                    if no_back(src, s, t2) { sp_comp_rest(src, t2, "<>"@) } else { stalled(t2) }
                } else if gt {
                    if no_back(src, s, t3) { sp_comp_rest(src, t3, ">"@) } else { stalled(t3) }
                } else if lt {
                    if no_back(src, s, t4) { sp_comp_rest(src, t4, "<"@) } else { stalled(t4) }
                } else {
                    fail(t4, "expected a comparison operator"@)
                }
            }
        }
    }
}

/// A whole program: `program`, declarations unless `begin` follows at once,
/// `begin`, statements, `end ;`.
pub open spec fn sp_program(src: Seq<char>, s: ParseState) -> Step {
    if s.fatal is Some {
        halt(s)
    } else {
        let (s2, r2) = sp_next(src, sp_push(s, Rule::Program), "program"@);
        if r2 is Err {
            (s2, r2)
        } else {
            let (s3, b3) = sp_peek(src, s2, "begin"@);
            let (s4, r4) = if b3 {
                sp_next(src, s3, "begin"@)
            } else {
                let (d, rd) = sp_decl_sec(src, s3);
                if rd is Err { (d, rd) } else { sp_next(src, d, "begin"@) }
            };
            if r4 is Err {
                (s4, r4)
            } else {
                let (s5, r5) = sp_stmt_sec(src, s4);
                if r5 is Err {
                    (s5, r5)
                } else {
                    let (s6, r6) = sp_next(src, s5, "end"@);
                    if r6 is Err {
                        (s6, r6)
                    } else {
                        sp_next(src, s6, ";"@)
                    }
                }
            }
        }
    }
}

} // verus!
