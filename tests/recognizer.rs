use hawk_parser::lexer::{Rule, Tokens};
use hawk_parser::outcome::{parse, Outcome};

fn names(trace: &[Rule]) -> Vec<&'static str> {
    trace.iter().map(|r| r.name()).collect()
}

fn rejected(src: &str) -> (String, usize) {
    match parse(src.to_string()) {
        Outcome::Rejected { error } => (error.message().to_string(), error.line_number()),
        Outcome::Accepted { trace } => panic!("accepted with trace {:?}", names(&trace)),
    }
}

fn accepted(src: &str) -> Vec<&'static str> {
    match parse(src.to_string()) {
        Outcome::Accepted { trace } => names(&trace),
        Outcome::Rejected { error } => {
            panic!("rejected: {} in line {}", error.message(), error.line_number())
        }
    }
}

#[test]
fn greedy_declarations_stop_before_begin() {
    let mut t = Tokens::new("x: int; y: int; begin".to_string());
    assert!(t.decl_sec().is_ok());
    assert!(t.next("begin").is_ok());
    assert_eq!(t.outputs.iter().filter(|r| **r == Rule::Decl).count(), 2);
    assert!(!t.decleration_section);
    assert_eq!(t.declared_variables, vec!["x".to_string(), "y".to_string()]);
    assert!(t.check_consisitency().is_ok());
}

#[test]
fn number_with_bare_point_fails() {
    let mut t = Tokens::new("12.".to_string());
    let e = t.num().unwrap_err();
    assert_eq!(e.message(), "expected a number");
}

#[test]
fn decimal_number_succeeds() {
    let mut t = Tokens::new("12.5".to_string());
    assert!(t.num().is_ok());
    assert_eq!(t.cursor, 4);
}

#[test]
fn lone_point_is_not_a_number() {
    let mut t = Tokens::new(".".to_string());
    let e = t.num().unwrap_err();
    assert_eq!(e.message(), "expected a number");
}

#[test]
fn number_stops_at_second_point() {
    let mut t = Tokens::new("  1.5.2".to_string());
    assert!(t.num().is_ok());
    assert_eq!(t.cursor, 5);
}

#[test]
fn output_of_a_number_takes_the_number_branch() {
    let mut t = Tokens::new("output 5;".to_string());
    assert!(t.stmt().is_ok());
    assert_eq!(names(&t.outputs), vec!["STMT", "OUTPUT"]);
    assert_eq!(t.cursor, 9);
}

#[test]
fn end_to_end_accepted() {
    let trace = accepted("program x: int; begin x := 3; output x; end;");
    assert_eq!(
        trace,
        vec![
            "PROGRAM", "DECL_SEC", "DECL", "ID_LIST", "STMT_SEC", "STMT", "ASSIGN", "EXPR",
            "FACTOR", "OPERAND", "STMT_SEC", "STMT", "OUTPUT", "ID_LIST",
        ]
    );
}

#[test]
fn end_to_end_undeclared() {
    assert_eq!(
        rejected("program begin y := 1; end;"),
        ("identifier not declared".to_string(), 1)
    );
}

#[test]
fn valid_program_with_every_statement_is_accepted() {
    let src = "program\n  a, b: int;\n  c: float;\n  d: double;\nbegin\n  input a, b;\n  c := (a + 2.5) * b / 4 - 1;\n  if (a < b) then\n    output a;\n  else\n    output 7;\n  end if;\n  while (a <> b) loop\n    a := a + 1;\n  end loop;\n  if (c = d) then d := c; end if;\n  output c, d;\nend;";
    let trace = accepted(src);
    assert_eq!(trace[0], "PROGRAM");
    for rule in ["IF_STMT", "WHILE_STMT", "INPUT", "OUTPUT", "COMP", "ASSIGN"] {
        assert!(trace.contains(&rule), "{rule} missing");
    }
}

#[test]
fn undeclared_use_reports_its_line() {
    let src = "program\nx: int;\nbegin\nx := 1;\nwhile (x > 0) loop\n  zz := x;\nend loop;\nend;";
    assert_eq!(rejected(src), ("identifier not declared".to_string(), 6));
}

#[test]
fn undeclared_error_survives_later_syntax_error() {
    let src = "program x: int; begin\nx := q;\nx := ;\nend;";
    assert_eq!(rejected(src), ("identifier not declared".to_string(), 2));
}

#[test]
fn reserved_word_in_declaration_is_refused() {
    assert_eq!(
        rejected("program\nif: int; begin if := 1; end;"),
        ("if is a reserved keyword".to_string(), 2)
    );
}

#[test]
fn reserved_word_scan_names_the_word() {
    let mut t = Tokens::new("  while".to_string());
    let e = t.id().unwrap_err();
    assert_eq!(e.message(), "while is a reserved keyword");
    assert_eq!(e.line_number(), 1);
}

#[test]
fn duplicate_declaration_is_accepted() {
    accepted("program x: int; x: float; begin x := 1; end;");
}

#[test]
fn missing_token_names_it() {
    assert_eq!(
        rejected("program x: int; begin x := 1; end"),
        ("unexpected token: \";\"".to_string(), 1)
    );
}

#[test]
fn bad_type_is_reported() {
    let mut t = Tokens::new("string".to_string());
    let e = t._type().unwrap_err();
    assert_eq!(e.message(), "all declarations must have a type of int, float, or double");
}

#[test]
fn missing_statement_is_reported() {
    assert_eq!(
        rejected("program begin\n\nend;"),
        ("expected a statement".to_string(), 1)
    );
}

#[test]
fn comparison_without_operator_is_reported() {
    let mut c = Tokens::new("(1 ! 2)".to_string());
    let e = c.comp().unwrap_err();
    assert_eq!(e.message(), "expected a comparison operator");
}

#[test]
fn identifier_expected() {
    let mut t = Tokens::new("  9abc".to_string());
    let e = t.id().unwrap_err();
    assert_eq!(e.message(), "expected an identifier");
    assert_eq!(t.cursor, 2);
}

#[test]
fn whitespace_counts_lines() {
    let mut t = Tokens::new(" \t\n\r\n\u{a0}x".to_string());
    t.skip_whitespace();
    assert_eq!(t.cursor, 6);
    assert_eq!(t.line_number, 3);
    assert!(!t.peek("y"));
    assert!(t.peek("x"));
}

#[test]
fn unicode_letters_make_identifiers() {
    accepted("program é_1: int; begin é_1 := 2; output é_1; end;");
}

#[test]
fn restore_rolls_back_but_keeps_sticky_error() {
    let mut t = Tokens::new("a b".to_string());
    let snap = t.save_state();
    assert!(t.id().is_ok());
    assert!(t.check_consisitency().is_err());
    t.restore_state(snap);
    assert_eq!(t.cursor, 1);
    let e = t.check_consisitency().unwrap_err();
    assert_eq!((e.message(), e.line_number()), ("identifier not declared", 1));
}

#[test]
fn restore_without_error_rolls_back() {
    let mut t = Tokens::new("x := 1;".to_string());
    t.decleration_section = true;
    let snap = t.save_state();
    t.push(Rule::Assign);
    assert!(t.id().is_ok());
    t.restore_state(snap);
    assert_eq!(t.cursor, 0);
    assert!(t.outputs.is_empty());
    assert!(t.declared_variables.is_empty());
}

#[test]
fn accepted_trace_starts_with_program() {
    let trace = accepted("program input_x: int; begin input_x := 1 + 2 * (3 - 4); end;");
    assert_eq!(trace[0], "PROGRAM");
}


#[test]
fn diagnostic_is_rendered_in_one_line() {
    let src = "program x: int; begin\n\n\n\n\n\n\n\n\n\n\nx := y;\nend;";
    match parse(src.to_string()) {
        Outcome::Rejected { error } => {
            assert_eq!(error.render(), "ERROR !! identifier not declared in Line 12.")
        }
        Outcome::Accepted { .. } => panic!("accepted"),
    }
}

#[test]
fn diagnostic_renders_single_digit_line() {
    let e = hawk_parser::error::SyntaxError::new("expected a number".to_string(), 7);
    assert_eq!(e.render(), "ERROR !! expected a number in Line 7.");
}
