use expr_lang::parser::{parse, Expected, ParseError, Token};
use expr_lang::program::{BinaryOp, Expr, Program, UnaryOp, Value};

#[test]
fn parse_boolean_literals() {
    assert_eq!(
        parse("T".to_string()),
        Ok(Expr::Leaf(Value::Bool(true)))
    );
    assert_eq!(
        parse("F".to_string()),
        Ok(Expr::Leaf(Value::Bool(false)))
    );
}

#[test]
fn parse_integer_literal() {
    assert_eq!(parse("42".to_string()), Ok(Expr::Leaf(Value::Int(42))));
}

#[test]
fn parse_identifier_as_variable() {
    assert_eq!(
        parse("x".to_string()),
        Ok(Expr::Leaf(Value::Var("x".to_string())))
    );
}

#[test]
fn parse_addition() {
    assert_eq!(
        parse("1 + 2".to_string()),
        Ok(Expr::BinOp {
            left: Box::new(Expr::Leaf(Value::Int(1))),
            right: Box::new(Expr::Leaf(Value::Int(2))),
            op: BinaryOp::Add,
        })
    );
}

#[test]
fn parse_respects_precedence() {
    // 1 + 2 * 3 must group as 1 + (2 * 3)
    let parsed = parse("1 + 2 * 3".to_string()).unwrap();
    assert_eq!(Program::new(parsed).exec(), Ok(Value::Int(7)));
}

#[test]
fn parse_parentheses_override_precedence() {
    let parsed = parse("( 1 + 2 ) * 3".to_string()).unwrap();
    assert_eq!(Program::new(parsed).exec(), Ok(Value::Int(9)));
}

#[test]
fn parse_conditional() {
    let parsed = parse("if T then 1 else 2".to_string()).unwrap();
    assert_eq!(Program::new(parsed).exec(), Ok(Value::Int(1)));
}

#[test]
fn parse_negation() {
    assert_eq!(
        parse("! F".to_string()),
        Ok(Expr::UnaryOp {
            val: Box::new(Expr::Leaf(Value::Bool(false))),
            op: UnaryOp::Not,
        })
    );
}

#[test]
fn parse_boolean_and_bitwise_spellings() {
    let parsed = parse("T && F".to_string()).unwrap();
    assert_eq!(Program::new(parsed).exec(), Ok(Value::Bool(false)));
    let parsed = parse("12 & 10".to_string()).unwrap();
    assert_eq!(Program::new(parsed).exec(), Ok(Value::Int(8)));
    let parsed = parse("T || F".to_string()).unwrap();
    assert_eq!(Program::new(parsed).exec(), Ok(Value::Bool(true)));
    let parsed = parse("12 | 10".to_string()).unwrap();
    assert_eq!(Program::new(parsed).exec(), Ok(Value::Int(14)));
}

#[test]
fn parse_function_application() {
    let parsed = parse("apply( func x => x + 1 , 41 )".to_string()).unwrap();
    assert_eq!(Program::new(parsed).exec(), Ok(Value::Int(42)));
}

#[test]
fn parse_equality_and_comparison() {
    let parsed = parse("42 == 42".to_string()).unwrap();
    assert_eq!(Program::new(parsed).exec(), Ok(Value::Bool(true)));
    let parsed = parse("2 <= 3".to_string()).unwrap();
    assert_eq!(Program::new(parsed).exec(), Ok(Value::Bool(true)));
}

#[test]
fn parse_empty_input_fails() {
    assert_eq!(
        parse("".to_string()),
        Err(ParseError {
            position: 0,
            found: None,
            expected: Expected::Expression,
        })
    );
}

#[test]
fn parse_unknown_word_fails() {
    assert_eq!(
        parse("1 + 2x".to_string()),
        Err(ParseError {
            position: 2,
            found: Some(Token::Unknown("2x".to_string())),
            expected: Expected::Expression,
        })
    );
}

#[test]
fn parse_trailing_tokens_fail() {
    assert_eq!(
        parse("1 2".to_string()),
        Err(ParseError {
            position: 1,
            found: Some(Token::IntLit(2)),
            expected: Expected::EndOfInput,
        })
    );
}

#[test]
fn parse_missing_closing_paren_fails() {
    assert_eq!(
        parse("( 1".to_string()),
        Err(ParseError {
            position: 2,
            found: None,
            expected: Expected::ClosingParen,
        })
    );
}

#[test]
fn parse_oversized_literal_is_unknown() {
    // one past i64::MAX
    assert_eq!(
        parse("9223372036854775808".to_string()),
        Err(ParseError {
            position: 0,
            found: Some(Token::Unknown("9223372036854775808".to_string())),
            expected: Expected::Expression,
        })
    );
    // exactly i64::MAX still parses
    assert_eq!(
        parse("9223372036854775807".to_string()),
        Ok(Expr::Leaf(Value::Int(i64::MAX)))
    );
}

#[test]
fn parse_punctuation_needs_no_spaces() {
    let parsed = parse("apply(func x => x + 1,41)".to_string()).unwrap();
    assert_eq!(Program::new(parsed).exec(), Ok(Value::Int(42)));
}

#[test]
fn parsed_variables_bind_late() {
    let parsed = parse("x + 1".to_string()).unwrap();
    let mut prog = Program::new(parsed);
    prog.add_var("x".to_string(), Some(Expr::Leaf(Value::Int(9))));
    assert_eq!(prog.exec(), Ok(Value::Int(10)));
}
