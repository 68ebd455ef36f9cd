use vstd::prelude::*;
use crate::error::{error_at, ErrorModel};
use crate::lexer::{
    digits_end, ident_end, is_digit, is_ident_start, is_reserved, not_declared_message,
    reserved_message, sp_id, sp_num, sp_skip, ParseState,
};

verus! {

/// The word that an identifier scan at `p` takes.
pub open spec fn word_at(src: Seq<char>, p: int) -> Seq<char> {
    src.subrange(p, ident_end(src, p + 1))
}

/// A reserved word where a name is expected is refused, in a declaration as
/// anywhere else, with a message that names the word and the line on which
/// the word stands.
pub proof fn reserved_word_is_refused(src: Seq<char>, s: ParseState)
    requires
        0 <= sp_skip(src, s).pos < src.len(),
        is_ident_start(src[sp_skip(src, s).pos]),
        is_reserved(word_at(src, sp_skip(src, s).pos)),
    ensures
        sp_id(src, s).1 == Err::<(), ErrorModel>(
            error_at(reserved_message(word_at(src, sp_skip(src, s).pos)), sp_skip(src, s).line),
        ),
{
}

/// Outside the declaration section, a name that was never declared is
/// recorded as the sticky error, at the line of that use, unless an earlier
/// sticky error stands; the scan itself still succeeds.
pub proof fn undeclared_use_is_recorded(src: Seq<char>, s: ParseState)
    requires
        0 <= sp_skip(src, s).pos < src.len(),
        is_ident_start(src[sp_skip(src, s).pos]),
        !is_reserved(word_at(src, sp_skip(src, s).pos)),
        !s.in_decl,
        !s.declared.contains(word_at(src, sp_skip(src, s).pos)),
        s.fatal is None,
    ensures
        sp_id(src, s).1 is Ok,
        sp_id(src, s).0.fatal == Some(error_at(not_declared_message(), sp_skip(src, s).line)),
{
}

/// A number must start with a digit: a point, or anything else, is refused.
pub proof fn number_needs_leading_digit(src: Seq<char>, s: ParseState)
    requires
        !(0 <= sp_skip(src, s).pos < src.len() && is_digit(src[sp_skip(src, s).pos])),
    ensures
        sp_num(src, s).1 == Err::<(), ErrorModel>(
            error_at("expected a number"@, sp_skip(src, s).line),
        ),
{
}

/// A decimal point with no digit after it spoils the whole number, not only
/// its fraction.
pub proof fn bare_point_is_refused(src: Seq<char>, s: ParseState)
    requires
        digits_end(src, sp_skip(src, s).pos) < src.len(),
        src[digits_end(src, sp_skip(src, s).pos)] == '.',
        !(digits_end(src, sp_skip(src, s).pos) + 1 < src.len() && is_digit(
            src[digits_end(src, sp_skip(src, s).pos) + 1],
        )),
    ensures
        sp_num(src, s).1 == Err::<(), ErrorModel>(
            error_at("expected a number"@, sp_skip(src, s).line),
        ),
{
    let e = digits_end(src, sp_skip(src, s).pos);
    assert(digits_end(src, e + 1) == e + 1);
}

/// Digits, a point and more digits make a number, and all of it is consumed.
pub proof fn decimal_number_is_accepted(src: Seq<char>, s: ParseState)
    requires
        0 <= sp_skip(src, s).pos < src.len(),
        is_digit(src[sp_skip(src, s).pos]),
        digits_end(src, sp_skip(src, s).pos) + 1 < src.len(),
        src[digits_end(src, sp_skip(src, s).pos)] == '.',
        is_digit(src[digits_end(src, sp_skip(src, s).pos) + 1]),
    ensures
        sp_num(src, s).1 is Ok,
        sp_num(src, s).0.pos == digits_end(src, digits_end(src, sp_skip(src, s).pos) + 1),
{
    let p = sp_skip(src, s).pos;
    let e = digits_end(src, p);
    lemma_digits_end_bounds(src, p);
    assert(digits_end(src, e + 1) == digits_end(src, e + 2));
    lemma_digits_end_bounds(src, e + 2);
}

proof fn lemma_digits_end_bounds(src: Seq<char>, pos: int)
    requires
        0 <= pos <= src.len(),
    ensures
        pos <= digits_end(src, pos) <= src.len(),
    decreases src.len() - pos,
{
    if pos < src.len() && is_digit(src[pos]) {
        lemma_digits_end_bounds(src, pos + 1);
    }
}

} // verus!
