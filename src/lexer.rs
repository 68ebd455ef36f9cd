use vstd::prelude::*;
use crate::error::{error_at, result_view, ErrorModel, SyntaxError};

verus! {

/// Whether a character has the Unicode `White_Space` property.
pub uninterp spec fn unicode_whitespace(c: char) -> bool;

/// Whether a character has the Unicode `Alphabetic` property.
pub uninterp spec fn unicode_alphabetic(c: char) -> bool;

/// Relies on `char::is_whitespace`: the Unicode `White_Space` property of `c`.
#[verifier::external_body]
fn char_is_whitespace(c: char) -> (r: bool)
    ensures
        r == unicode_whitespace(c),
{
    c.is_whitespace()
}

/// Relies on `char::is_alphabetic`: the Unicode `Alphabetic` property of `c`.
#[verifier::external_body]
fn char_is_alphabetic(c: char) -> (r: bool)
    ensures
        r == unicode_alphabetic(c),
{
    c.is_alphabetic()
}

/// Whether the whitespace skipper passes over `c`.
fn char_is_skipped(c: char) -> (r: bool)
    ensures
        r == is_skipped(c),
{
    c == '\n' || char_is_whitespace(c)
}

fn char_is_digit(c: char) -> (r: bool)
    ensures
        r == is_digit(c),
{
    '0' <= c && c <= '9'
}

fn char_is_ident_start(c: char) -> (r: bool)
    ensures
        r == is_ident_start(c),
{
    char_is_alphabetic(c) || c == '_'
}

fn char_is_ident_char(c: char) -> (r: bool)
    ensures
        r == is_ident_char(c),
{
    char_is_ident_start(c) || char_is_digit(c)
}

pub open spec fn is_digit(c: char) -> bool {
    '0' <= c && c <= '9'
}

/// Characters that the whitespace skipper passes over.
pub open spec fn is_skipped(c: char) -> bool {
    c == '\n' || unicode_whitespace(c)
}

pub open spec fn is_ident_start(c: char) -> bool {
    unicode_alphabetic(c) || c == '_'
}

pub open spec fn is_ident_char(c: char) -> bool {
    is_ident_start(c) || is_digit(c)
}

/// The first position at or after `pos` that does not hold whitespace.
pub open spec fn ws_end(src: Seq<char>, pos: int) -> int
    decreases src.len() - pos,
{
    if 0 <= pos < src.len() && is_skipped(src[pos]) {
        ws_end(src, pos + 1)
    } else {
        pos
    }
}

/// The number of newline characters in `src[from..to]`.
pub open spec fn newlines(src: Seq<char>, from: int, to: int) -> int
    decreases to - from,
{
    if to <= from {
        0
    } else {
        newlines(src, from, to - 1) + if src[to - 1] == '\n' { 1int } else { 0int }
    }
}

/// The end of the run of identifier characters that starts at `pos`.
pub open spec fn ident_end(src: Seq<char>, pos: int) -> int
    decreases src.len() - pos,
{
    if 0 <= pos < src.len() && is_ident_char(src[pos]) {
        ident_end(src, pos + 1)
    } else {
        pos
    }
}

/// The end of the run of decimal digits that starts at `pos`.
pub open spec fn digits_end(src: Seq<char>, pos: int) -> int
    decreases src.len() - pos,
{
    if 0 <= pos < src.len() && is_digit(src[pos]) {
        digits_end(src, pos + 1)
    } else {
        pos
    }
}

/// Whether `lit` stands in `src` at `pos`.
pub open spec fn matches_at(src: Seq<char>, pos: int, lit: Seq<char>) -> bool {
    0 <= pos && pos + lit.len() <= src.len() && src.subrange(pos, pos + lit.len()) == lit
}

pub open spec fn is_reserved(name: Seq<char>) -> bool {
    name == "program"@ || name == "begin"@ || name == "end"@ || name == "if"@ || name == "then"@
        || name == "else"@ || name == "while"@ || name == "loop"@ || name == "input"@
        || name == "output"@ || name == "int"@ || name == "float"@ || name == "double"@
}

pub open spec fn unexpected_token_message(lit: Seq<char>) -> Seq<char> {
    "unexpected token: \""@ + lit + "\""@
}

pub open spec fn reserved_message(name: Seq<char>) -> Seq<char> {
    name + " is a reserved keyword"@
}

/// A grammar rule, as recorded in the trace.
#[derive(Debug, Clone, Copy, PartialEq, Eq, Structural)]
pub enum Rule {
    Program,
    DeclSec,
    Decl,
    IdList,
    StmtSec,
    Stmt,
    Assign,
    IfStmt,
    WhileStmt,
    Input,
    Output,
    Expr,
    Factor,
    Operand,
    Comp,
}

/// The name under which a rule appears in a printed trace.
pub open spec fn rule_name(r: Rule) -> Seq<char> {
    match r {
        Rule::Program => "PROGRAM"@,
        Rule::DeclSec => "DECL_SEC"@,
        Rule::Decl => "DECL"@,
        Rule::IdList => "ID_LIST"@,
        Rule::StmtSec => "STMT_SEC"@,
        Rule::Stmt => "STMT"@,
        Rule::Assign => "ASSIGN"@,
        Rule::IfStmt => "IF_STMT"@,
        Rule::WhileStmt => "WHILE_STMT"@,
        Rule::Input => "INPUT"@,
        Rule::Output => "OUTPUT"@,
        Rule::Expr => "EXPR"@,
        Rule::Factor => "FACTOR"@,
        Rule::Operand => "OPERAND"@,
        Rule::Comp => "COMP"@,
    }
}

impl Rule {
    pub fn name(&self) -> (r: &'static str)
        ensures
            r@ == rule_name(*self),
    {
        match self {
            Rule::Program => "PROGRAM",
            Rule::DeclSec => "DECL_SEC",
            Rule::Decl => "DECL",
            Rule::IdList => "ID_LIST",
            Rule::StmtSec => "STMT_SEC",
            Rule::Stmt => "STMT",
            Rule::Assign => "ASSIGN",
            Rule::IfStmt => "IF_STMT",
            Rule::WhileStmt => "WHILE_STMT",
            Rule::Input => "INPUT",
            Rule::Output => "OUTPUT",
            Rule::Expr => "EXPR",
            Rule::Factor => "FACTOR",
            Rule::Operand => "OPERAND",
            Rule::Comp => "COMP",
        }
    }
}

/// The mutable part of the parser state; the source text is kept apart.
pub struct ParseState {
    pub pos: int,
    pub line: int,
    pub trace: Seq<Rule>,
    pub in_decl: bool,
    pub declared: Seq<Seq<char>>,
    pub fatal: Option<ErrorModel>,
}

/// What a backtracking point records: every field but the sticky error,
/// with the trace and the declarations kept as lengths.
pub struct SnapModel {
    pub pos: int,
    pub line: int,
    pub trace_len: int,
    pub in_decl: bool,
    pub declared_len: int,
}

/// `a` begins with all of `b`.
pub open spec fn extends<T>(a: Seq<T>, b: Seq<T>) -> bool {
    b.len() <= a.len() && forall|i: int| 0 <= i < b.len() ==> a[i] == b[i]
}

pub open spec fn not_declared_message() -> Seq<char> {
    "identifier not declared"@
}

/// What every recognition step keeps of the state before it: the trace only
/// grows, a sticky error once set never changes, and the only sticky error
/// that a step sets is an undeclared name.
pub open spec fn keeps_history(after: ParseState, before: ParseState) -> bool {
    &&& extends(after.trace, before.trace)
    &&& (before.fatal is Some ==> after.fatal == before.fatal)
    &&& (after.fatal is Some ==> after.fatal.unwrap().message == not_declared_message())
        || before.fatal is Some
}

/// One step of recognition: the state after it and its result.
pub type Step = (ParseState, Result<(), ErrorModel>);

pub open spec fn fail(s: ParseState, message: Seq<char>) -> Step {
    (s, Err(error_at(message, s.line)))
}

pub open spec fn sp_skip(src: Seq<char>, s: ParseState) -> ParseState {
    let e = ws_end(src, s.pos);
    ParseState { pos: e, line: s.line + newlines(src, s.pos, e), ..s }
}

pub open spec fn sp_peek(src: Seq<char>, s: ParseState, lit: Seq<char>) -> (ParseState, bool) {
    let s1 = sp_skip(src, s);
    (s1, matches_at(src, s1.pos, lit))
}

pub open spec fn sp_next(src: Seq<char>, s: ParseState, lit: Seq<char>) -> Step {
    let s1 = sp_skip(src, s);
    if matches_at(src, s1.pos, lit) {
        (ParseState { pos: s1.pos + lit.len(), ..s1 }, Ok(()))
    } else {
        fail(s1, unexpected_token_message(lit))
    }
}

pub open spec fn sp_check(s: ParseState) -> Result<(), ErrorModel> {
    match s.fatal {
        Some(e) => Err(e),
        None => Ok(()),
    }
}

pub open spec fn sp_push(s: ParseState, r: Rule) -> ParseState {
    ParseState { trace: s.trace.push(r), ..s }
}

pub open spec fn sp_save(s: ParseState) -> SnapModel {
    SnapModel {
        pos: s.pos,
        line: s.line,
        trace_len: s.trace.len() as int,
        in_decl: s.in_decl,
        declared_len: s.declared.len() as int,
    }
}

/// The prefix of `q` of length `n`, or all of `q` where it is shorter.
pub open spec fn prefix<T>(q: Seq<T>, n: int) -> Seq<T> {
    if n <= q.len() {
        q.subrange(0, n)
    } else {
        q
    }
}

/// Rolling back to a snapshot; once the sticky error is set nothing rolls back.
pub open spec fn sp_restore(s: ParseState, snap: SnapModel) -> ParseState {
    if s.fatal is Some {
        s
    } else {
        ParseState {
            pos: snap.pos,
            line: snap.line,
            trace: prefix(s.trace, snap.trace_len),
            in_decl: snap.in_decl,
            declared: prefix(s.declared, snap.declared_len),
            fatal: s.fatal,
        }
    }
}

pub open spec fn sp_declare(s: ParseState, name: Seq<char>) -> ParseState {
    if s.declared.contains(name) {
        s
    } else {
        ParseState { declared: s.declared.push(name), ..s }
    }
}

/// Scanning an identifier, with its effect on the declaration table.
pub open spec fn sp_id(src: Seq<char>, s: ParseState) -> Step {
    let s1 = sp_skip(src, s);
    let p = s1.pos;
    if 0 <= p < src.len() && is_ident_start(src[p]) {
        let e = ident_end(src, p + 1);
        let name = src.subrange(p, e);
        let s2 = ParseState { pos: e, ..s1 };
        if is_reserved(name) {
            fail(s2, reserved_message(name))
        } else if s2.in_decl {
            (sp_declare(s2, name), Ok(()))
        } else if !s2.declared.contains(name) && s2.fatal is None {
            (
                ParseState {
                    fatal: Some(error_at(not_declared_message(), s2.line)),
                    ..s2
                },
                Ok(()),
            )
        } else {
            (s2, Ok(()))
        }
    } else {
        fail(s1, "expected an identifier"@)
    }
}

/// Scanning a number: digits, then optionally a point followed by digits.
pub open spec fn sp_num(src: Seq<char>, s: ParseState) -> Step {
    let s1 = sp_skip(src, s);
    let e1 = digits_end(src, s1.pos);
    if e1 == s1.pos {
        fail(s1, "expected a number"@)
    } else if e1 < src.len() && src[e1] == '.' {
        let e2 = digits_end(src, e1 + 1);
        let s2 = ParseState { pos: e2, ..s1 };
        if e2 == e1 + 1 {
            fail(s2, "expected a number"@)
        } else {
            (s2, Ok(()))
        }
    } else {
        (ParseState { pos: e1, ..s1 }, Ok(()))
    }
}

/// A backtracking point: the fields that a failed alternative rolls back.
#[derive(Debug, Clone, Copy)]
pub struct Snapshot {
    pub cursor: usize,
    pub line_number: usize,
    pub trace_len: usize,
    pub decleration_section: bool,
    pub declared_len: usize,
}

impl View for Snapshot {
    type V = SnapModel;

    open spec fn view(&self) -> SnapModel {
        SnapModel {
            pos: self.cursor as int,
            line: self.line_number as int,
            trace_len: self.trace_len as int,
            in_decl: self.decleration_section,
            declared_len: self.declared_len as int,
        }
    }
}

/// The recognizer's state over one source text.
pub struct Tokens {
    pub tokens: String,
    pub chars: Vec<char>,
    pub cursor: usize,
    pub line_number: usize,
    pub outputs: Vec<Rule>,
    pub decleration_section: bool,
    pub declared_variables: Vec<String>,
    pub critical_error: Option<SyntaxError>,
}

impl View for Tokens {
    type V = ParseState;

    open spec fn view(&self) -> ParseState {
        ParseState {
            pos: self.cursor as int,
            line: self.line_number as int,
            trace: self.outputs@,
            in_decl: self.decleration_section,
            declared: self.declared_variables@.map_values(|v: String| v@),
            fatal: match self.critical_error {
                Some(e) => Some(e@),
                None => None,
            },
        }
    }
}

impl Tokens {
    /// The source text as characters.
    pub open spec fn src(&self) -> Seq<char> {
        self.chars@
    }

    /// A position and line that the state can hold: the line never runs
    /// ahead of the number of characters read.
    pub open spec fn valid_point(&self, pos: int, line: int) -> bool {
        0 <= pos <= self.chars@.len() && 1 <= line <= pos + 1
    }

    pub open spec fn wf(&self) -> bool {
        &&& self.tokens@ == self.chars@
        &&& self.chars@.len() < usize::MAX
        &&& self.valid_point(self.cursor as int, self.line_number as int)
    }

    /// `self` is a later state than `before` over the same text.
    pub open spec fn moved_on(&self, before: Tokens) -> bool {
        &&& self.wf()
        &&& self.src() == before.src()
        &&& before.cursor <= self.cursor
        &&& keeps_history(self@, before@)
    }

    pub open spec fn valid_snapshot(&self, snap: Snapshot) -> bool {
        self.valid_point(snap.cursor as int, snap.line_number as int)
    }

    pub fn new(tokens: String) -> (r: Tokens)
        requires
            tokens@.len() < usize::MAX,
        ensures
            r.wf(),
            r.src() == tokens@,
            r@ == (ParseState {
                pos: 0,
                line: 1,
                trace: Seq::empty(),
                in_decl: false,
                declared: Seq::empty(),
                fatal: None,
            }),
    {
        let n = tokens.as_str().unicode_len();
        let mut chars: Vec<char> = Vec::new();
        let mut i: usize = 0;
        while i < n
            invariant
                n == tokens@.len(),
                i <= n,
                chars@ == tokens@.subrange(0, i as int),
            decreases n - i,
        {
            chars.push(tokens.as_str().get_char(i));
            i += 1;
        }
        assert(chars@ == tokens@);
        let r = Tokens {
            tokens,
            chars,
            cursor: 0,
            line_number: 1,
            outputs: Vec::new(),
            decleration_section: false,
            declared_variables: Vec::new(),
            critical_error: None,
        };
        assert(r@.declared == Seq::<Seq<char>>::empty());
        r
    }

    /// Advances past whitespace, counting the newlines passed.
    pub fn skip_whitespace(&mut self)
        requires
            old(self).wf(),
        ensures
            final(self).moved_on(*old(self)),
            final(self)@ == sp_skip(old(self).src(), old(self)@),
    {
        let ghost start = self.cursor as int;
        let ghost line0 = self.line_number as int;
        let n = self.chars.len();
        while self.cursor < n && char_is_skipped(self.chars[self.cursor])
            invariant
                self.wf(),
                self.src() == old(self).src(),
                n == self.chars@.len(),
                start <= self.cursor,
                ws_end(self.src(), self.cursor as int) == ws_end(self.src(), start),
                self.line_number == line0 + newlines(self.src(), start, self.cursor as int),
                self@ == (ParseState { pos: self.cursor as int, line: self.line_number as int, ..old(self)@ }),
            decreases n - self.cursor,
        {
            if self.chars[self.cursor] == '\n' {
                self.line_number += 1;
            }
            self.cursor += 1;
        }
    }

    /// Whether `lit` stands at `pos`, without moving.
    fn lit_at(&self, pos: usize, lit: &str) -> (r: bool)
        requires
            pos <= self.chars@.len(),
        ensures
            r == matches_at(self.src(), pos as int, lit@),
    {
        let n = lit.unicode_len();
        if n > self.chars.len() - pos {
            return false;
        }
        let mut i: usize = 0;
        while i < n
            invariant
                n == lit@.len(),
                pos + n <= self.chars.len(),
                i <= n,
                forall|j: int| 0 <= j < i ==> self.chars@[pos + j] == lit@[j],
            decreases n - i,
        {
            if self.chars[pos + i] != lit.get_char(i) {
                assert(self.src().subrange(pos as int, pos + n)[i as int] != lit@[i as int]);
                return false;
            }
            i += 1;
        }
        assert(self.src().subrange(pos as int, pos + n) == lit@);
        true
    }

    /// Whether the next token is `search_query`; skips whitespace, consumes nothing.
    pub fn peek(&mut self, search_query: &str) -> (r: bool)
        requires
            old(self).wf(),
        ensures
            final(self).moved_on(*old(self)),
            (final(self)@, r) == sp_peek(old(self).src(), old(self)@, search_query@),
    {
        self.skip_whitespace();
        self.lit_at(self.cursor, search_query)
    }

    /// Consumes the token `search_query`, or fails naming it.
    pub fn next(&mut self, search_query: &str) -> (r: Result<(), SyntaxError>)
        requires
            old(self).wf(),
        ensures
            final(self).moved_on(*old(self)),
            (final(self)@, result_view(r)) == sp_next(old(self).src(), old(self)@, search_query@),
            r is Ok ==> final(self).cursor >= old(self).cursor + search_query@.len(),
    {
        if self.peek(search_query) {
            self.cursor += search_query.unicode_len();
            Ok(())
        } else {
            let message = String::from_str("unexpected token: \"").concat(search_query).concat("\"");
            self.syntax_error(message)
        }
    }

    /// The sticky error, if one was recorded.
    pub fn check_consisitency(&self) -> (r: Result<(), SyntaxError>)
        ensures
            result_view(r) == sp_check(self@),
    {
        match &self.critical_error {
            Some(e) => Err(e.duplicate()),
            None => Ok(()),
        }
    }

    /// An error with `message` at the current line.
    pub fn syntax_error(&self, message: String) -> (r: Result<(), SyntaxError>)
        ensures
            result_view(r) == Err::<(), ErrorModel>(error_at(message@, self.line_number as int)),
    {
        Err(SyntaxError::new(message, self.line_number))
    }

    /// Records entry into a rule.
    pub fn push(&mut self, output: Rule)
        requires
            old(self).wf(),
        ensures
            final(self).moved_on(*old(self)),
            final(self)@ == sp_push(old(self)@, output),
    {
        self.outputs.push(output);
    }

    pub fn save_state(&self) -> (r: Snapshot)
        requires
            self.wf(),
        ensures
            r@ == sp_save(self@),
            self.valid_snapshot(r),
    {
        Snapshot {
            cursor: self.cursor,
            line_number: self.line_number,
            trace_len: self.outputs.len(),
            decleration_section: self.decleration_section,
            declared_len: self.declared_variables.len(),
        }
    }

    /// Rolls back to `state` unless the sticky error is set.
    pub fn restore_state(&mut self, state: Snapshot)
        requires
            old(self).wf(),
            old(self).valid_snapshot(state),
        ensures
            final(self).wf(),
            final(self).src() == old(self).src(),
            final(self)@ == sp_restore(old(self)@, state@),
    {
        if self.critical_error.is_some() {
            return;
        }
        self.cursor = state.cursor;
        self.line_number = state.line_number;
        self.outputs.truncate(state.trace_len);
        self.decleration_section = state.decleration_section;
        self.declared_variables.truncate(state.declared_len);
        assert(self@.declared == prefix(old(self)@.declared, state.declared_len as int));
    }
    /// Whether `src[start..end]` is `lit`.
    fn span_is(&self, start: usize, end: usize, lit: &str) -> (r: bool)
        requires
            start <= end <= self.chars@.len(),
        ensures
            r == (self.src().subrange(start as int, end as int) == lit@),
    {
        if end - start != lit.unicode_len() {
            assert(self.src().subrange(start as int, end as int).len() != lit@.len());
            return false;
        }
        self.lit_at(start, lit)
    }

    fn is_reserved_span(&self, start: usize, end: usize) -> (r: bool)
        requires
            start <= end <= self.chars@.len(),
        ensures
            r == is_reserved(self.src().subrange(start as int, end as int)),
    {
        self.span_is(start, end, "program") || self.span_is(start, end, "begin")
            || self.span_is(start, end, "end") || self.span_is(start, end, "if")
            || self.span_is(start, end, "then") || self.span_is(start, end, "else")
            || self.span_is(start, end, "while") || self.span_is(start, end, "loop")
            || self.span_is(start, end, "input") || self.span_is(start, end, "output")
            || self.span_is(start, end, "int") || self.span_is(start, end, "float")
            || self.span_is(start, end, "double")
    }

    fn is_declared(&self, name: &String) -> (r: bool)
        ensures
            r == self@.declared.contains(name@),
    {
        let mut i: usize = 0;
        while i < self.declared_variables.len()
            invariant
                i <= self.declared_variables@.len(),
                forall|j: int| 0 <= j < i ==> self@.declared[j] != name@,
            decreases self.declared_variables@.len() - i,
        {
            if self.declared_variables[i] == *name {
                assert(self@.declared[i as int] == name@);
                return true;
            }
            i += 1;
        }
        false
    }

    fn declare(&mut self, name: String)
        requires
            old(self).wf(),
        ensures
            final(self).moved_on(*old(self)),
            final(self)@ == sp_declare(old(self)@, name@),
    {
        if !self.is_declared(&name) {
            let ghost n = name@;
            self.declared_variables.push(name);
            assert(self@.declared == old(self)@.declared.push(n));
        }
    }

    /// Scans an identifier; in the declaration section it is recorded, elsewhere
    /// a name never declared sets the sticky error.
    pub fn id(&mut self) -> (r: Result<(), SyntaxError>)
        requires
            old(self).wf(),
        ensures
            final(self).moved_on(*old(self)),
            (final(self)@, result_view(r)) == sp_id(old(self).src(), old(self)@),
            r is Ok ==> old(self).cursor < final(self).cursor,
    {
        self.skip_whitespace();
        let ghost s1 = self@;
        let start = self.cursor;
        let n = self.chars.len();
        if start >= n || !char_is_ident_start(self.chars[start]) {
            return self.syntax_error(String::from_str("expected an identifier"));
        }
        self.cursor += 1;
        while self.cursor < n && char_is_ident_char(self.chars[self.cursor])
            invariant
                self.wf(),
                self.src() == old(self).src(),
                n == self.chars@.len(),
                start < self.cursor <= n,
                ident_end(self.src(), self.cursor as int) == ident_end(self.src(), start + 1),
                self@ == (ParseState { pos: self.cursor as int, ..s1 }),
            decreases n - self.cursor,
        {
            self.cursor += 1;
        }
        let end = self.cursor;
        let name = self.tokens.as_str().substring_char(start, end).to_owned();
        if self.is_reserved_span(start, end) {
            return self.syntax_error(name.concat(" is a reserved keyword"));
        }
        if self.decleration_section {
            self.declare(name);
        } else if !self.is_declared(&name) && self.critical_error.is_none() {
            self.critical_error = Some(
                SyntaxError::new(String::from_str("identifier not declared"), self.line_number),
            );
        }
        Ok(())
    }

    /// The end of the run of digits from `pos`.
    fn digits_from(&self, pos: usize) -> (r: usize)
        requires
            pos <= self.chars@.len(),
        ensures
            r == digits_end(self.src(), pos as int),
            pos <= r <= self.chars@.len(),
    {
        let mut i = pos;
        while i < self.chars.len() && char_is_digit(self.chars[i])
            invariant
                pos <= i <= self.chars@.len(),
                digits_end(self.src(), i as int) == digits_end(self.src(), pos as int),
            decreases self.chars@.len() - i,
        {
            i += 1;
        }
        i
    }

    /// Scans a number: digits, then optionally a point followed by digits.
    pub fn num(&mut self) -> (r: Result<(), SyntaxError>)
        requires
            old(self).wf(),
        ensures
            final(self).moved_on(*old(self)),
            (final(self)@, result_view(r)) == sp_num(old(self).src(), old(self)@),
    {
        self.skip_whitespace();
        let start = self.cursor;
        let e1 = self.digits_from(start);
        if e1 == start {
            return self.syntax_error(String::from_str("expected a number"));
        }
        if e1 < self.chars.len() && self.chars[e1] == '.' {
            let e2 = self.digits_from(e1 + 1);
            self.cursor = e2;
            if e2 == e1 + 1 {
                return self.syntax_error(String::from_str("expected a number"));
            }
            return Ok(());
        }
        self.cursor = e1;
        Ok(())
    }
}

} // verus!
