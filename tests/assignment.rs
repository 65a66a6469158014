use assignment_expr::assignment::{arrow_function_ahead, is_assignable, AssignmentExpression};
use assignment_expr::cursor::{Cursor, InputElement, ParseError};
use assignment_expr::node::{Const, FormalParameter, Node};
use assignment_expr::token::{AssignOp, BinOp, Keyword, NumOp, Position, Punctuator, Token, TokenKind};

fn tok(kind: TokenKind) -> Token {
    Token::new(kind, Position::new(1, 1))
}

fn at(t: Token, line: u32, column: u32) -> Token {
    Token::new(t.kind, Position::new(line, column))
}

fn ident(name: &str) -> Token {
    tok(TokenKind::Identifier(name.to_string()))
}

fn punct(p: Punctuator) -> Token {
    tok(TokenKind::Punctuator(p))
}

fn num(v: u64) -> Token {
    tok(TokenKind::NumericLiteral(v))
}

fn lt() -> Token {
    tok(TokenKind::LineTerminator)
}

fn kw(k: Keyword) -> Token {
    tok(TokenKind::Keyword(k))
}

fn id_node(name: &str) -> Node {
    Node::Identifier(name.to_string())
}

fn param(name: &str, is_rest: bool) -> FormalParameter {
    FormalParameter { name: name.to_string(), is_rest }
}

fn parse_with(tokens: Vec<Token>, allow_yield: bool, allow_await: bool) -> (Result<Node, ParseError>, Cursor) {
    let mut cursor = Cursor::new(tokens);
    let res = AssignmentExpression::new(true, allow_yield, allow_await).parse(&mut cursor);
    (res, cursor)
}

fn parse(tokens: Vec<Token>) -> (Result<Node, ParseError>, Cursor) {
    parse_with(tokens, false, false)
}

fn remaining(cursor: &mut Cursor) -> Vec<Token> {
    let mut out = Vec::new();
    while let Some(t) = cursor.next(false) {
        out.push(t);
    }
    out
}

#[test]
fn identifier_arrow_function() {
    let (res, mut cursor) = parse(vec![ident("a"), punct(Punctuator::Arrow), ident("a")]);
    assert_eq!(
        res,
        Ok(Node::ArrowFunctionDecl { params: vec![param("a", false)], body: Box::new(id_node("a")) })
    );
    assert!(remaining(&mut cursor).is_empty());
}

#[test]
fn line_break_before_arrow_keeps_identifier() {
    let (res, mut cursor) =
        parse(vec![ident("a"), lt(), punct(Punctuator::Arrow), ident("b")]);
    assert_eq!(res, Ok(id_node("a")));
    assert_eq!(remaining(&mut cursor), vec![lt(), punct(Punctuator::Arrow), ident("b")]);
}

#[test]
fn empty_parameter_list_arrow() {
    let (res, _) = parse(vec![
        punct(Punctuator::OpenParen),
        punct(Punctuator::CloseParen),
        punct(Punctuator::Arrow),
        num(1),
    ]);
    assert_eq!(
        res,
        Ok(Node::ArrowFunctionDecl { params: vec![], body: Box::new(Node::Const(Const::Num(1))) })
    );
}

#[test]
fn rest_parameter_arrow() {
    let (res, _) = parse(vec![
        punct(Punctuator::OpenParen),
        punct(Punctuator::Spread),
        ident("xs"),
        punct(Punctuator::CloseParen),
        punct(Punctuator::Arrow),
        ident("xs"),
    ]);
    assert_eq!(
        res,
        Ok(Node::ArrowFunctionDecl { params: vec![param("xs", true)], body: Box::new(id_node("xs")) })
    );
}

#[test]
fn identifier_list_arrow() {
    let (res, _) = parse(vec![
        punct(Punctuator::OpenParen),
        ident("a"),
        punct(Punctuator::Comma),
        ident("b"),
        punct(Punctuator::Comma),
        punct(Punctuator::Spread),
        ident("c"),
        punct(Punctuator::CloseParen),
        punct(Punctuator::Arrow),
        ident("b"),
    ]);
    assert_eq!(
        res,
        Ok(Node::ArrowFunctionDecl {
            params: vec![param("a", false), param("b", false), param("c", true)],
            body: Box::new(id_node("b")),
        })
    );
}

#[test]
fn assignment_is_right_associative() {
    let (res, mut cursor) = parse(vec![
        ident("a"),
        punct(Punctuator::Assign),
        ident("b"),
        punct(Punctuator::Assign),
        ident("c"),
    ]);
    assert_eq!(
        res,
        Ok(Node::Assign {
            target: Box::new(id_node("a")),
            value: Box::new(Node::Assign {
                target: Box::new(id_node("b")),
                value: Box::new(id_node("c")),
            }),
        })
    );
    assert!(remaining(&mut cursor).is_empty());
}

#[test]
fn compound_add_assignment() {
    let (res, _) = parse(vec![ident("a"), punct(Punctuator::AssignAdd), ident("b")]);
    assert_eq!(
        res,
        Ok(Node::BinOp {
            op: BinOp::Assign(AssignOp::Add),
            left: Box::new(id_node("a")),
            right: Box::new(id_node("b")),
        })
    );
}

#[test]
fn compound_assignment_chains_to_the_right() {
    let (res, _) = parse(vec![
        ident("a"),
        punct(Punctuator::AssignBoolOr),
        ident("b"),
        punct(Punctuator::AssignCoalesce),
        ident("c"),
    ]);
    assert_eq!(
        res,
        Ok(Node::BinOp {
            op: BinOp::Assign(AssignOp::BoolOr),
            left: Box::new(id_node("a")),
            right: Box::new(Node::BinOp {
                op: BinOp::Assign(AssignOp::Coalesce),
                left: Box::new(id_node("b")),
                right: Box::new(id_node("c")),
            }),
        })
    );
}

#[test]
fn literal_targets_are_rejected() {
    let targets = vec![
        num(1),
        tok(TokenKind::StringLiteral("s".to_string())),
        tok(TokenKind::BooleanLiteral(true)),
    ];
    for t in targets {
        let (res, _) = parse(vec![t.clone(), at(punct(Punctuator::Assign), 1, 3), num(2)]);
        assert_eq!(res, Err(ParseError::InvalidLeftHandSide(Position::new(1, 3))));
        let (res, _) = parse(vec![t.clone(), lt(), at(punct(Punctuator::AssignMul), 2, 1), num(2)]);
        assert_eq!(res, Err(ParseError::InvalidLeftHandSide(Position::new(2, 1))));
    }
}

#[test]
fn array_literal_target_is_rejected() {
    let (res, _) = parse(vec![
        punct(Punctuator::OpenBracket),
        ident("a"),
        punct(Punctuator::CloseBracket),
        at(punct(Punctuator::Assign), 1, 5),
        ident("b"),
    ]);
    assert_eq!(res, Err(ParseError::InvalidLeftHandSide(Position::new(1, 5))));
}

#[test]
fn lookahead_leaves_stream_unchanged() {
    let tokens = vec![punct(Punctuator::OpenParen), num(1), punct(Punctuator::CloseParen)];
    let cursor = Cursor::new(tokens.clone());
    assert_eq!(arrow_function_ahead(&cursor), Ok(false));
    assert_eq!(arrow_function_ahead(&cursor), Ok(false));
    let mut cursor = cursor;
    let first = AssignmentExpression::new(true, false, false).parse(&mut cursor);
    let (second, _) = parse(tokens);
    assert_eq!(first, second);
    assert_eq!(first, Ok(Node::Const(Const::Num(1))));
}

#[test]
fn lookahead_on_empty_stream_is_abrupt_end() {
    let cursor = Cursor::new(vec![lt()]);
    assert_eq!(arrow_function_ahead(&cursor), Err(ParseError::AbruptEnd));
}

fn round_trip(tokens: Vec<Token>) {
    let (first, _) = parse(tokens);
    let first = first.unwrap();
    let printed = first.to_tokens().unwrap();
    let (second, mut cursor) = parse(printed);
    assert_eq!(second, Ok(first));
    assert!(remaining(&mut cursor).is_empty());
}

#[test]
fn round_trip_assign() {
    round_trip(vec![ident("a"), punct(Punctuator::Assign), ident("b")]);
}

#[test]
fn round_trip_add_assign() {
    round_trip(vec![ident("a"), punct(Punctuator::AssignAdd), ident("b")]);
}

#[test]
fn round_trip_coalesce_assign() {
    round_trip(vec![ident("a"), punct(Punctuator::AssignCoalesce), ident("b")]);
}

#[test]
fn round_trip_arrow() {
    round_trip(vec![
        punct(Punctuator::OpenParen),
        ident("a"),
        punct(Punctuator::Comma),
        ident("b"),
        punct(Punctuator::CloseParen),
        punct(Punctuator::Arrow),
        ident("a"),
    ]);
}

#[test]
fn printer_spells_tokens() {
    let n = Node::BinOp {
        op: BinOp::Assign(AssignOp::Exp),
        left: Box::new(id_node("x")),
        right: Box::new(Node::Const(Const::Num(2))),
    };
    let origin = Position::new(0, 0);
    assert_eq!(
        n.to_tokens(),
        Some(vec![
            at(ident("x"), 0, 0),
            at(punct(Punctuator::AssignPow), 0, 0),
            at(num(2), 0, 0),
        ])
    );
    assert!(n.to_tokens().unwrap().iter().all(|t| t.position() == origin));
    assert_eq!(Node::ArrayDecl(vec![]).to_tokens(), None);
}

#[test]
fn end_to_end_assign() {
    let (res, _) = parse(vec![ident("x"), punct(Punctuator::Assign), ident("y")]);
    assert_eq!(
        res,
        Ok(Node::Assign { target: Box::new(id_node("x")), value: Box::new(id_node("y")) })
    );
}

#[test]
fn end_to_end_exponent_assign() {
    let (res, _) = parse(vec![ident("x"), punct(Punctuator::AssignPow), num(2)]);
    assert_eq!(
        res,
        Ok(Node::BinOp {
            op: BinOp::Assign(AssignOp::Exp),
            left: Box::new(id_node("x")),
            right: Box::new(Node::Const(Const::Num(2))),
        })
    );
}

#[test]
fn end_to_end_arrow_with_sum() {
    let (res, _) = parse(vec![
        punct(Punctuator::OpenParen),
        ident("a"),
        punct(Punctuator::Comma),
        ident("b"),
        punct(Punctuator::CloseParen),
        punct(Punctuator::Arrow),
        ident("a"),
        punct(Punctuator::Add),
        ident("b"),
    ]);
    assert_eq!(
        res,
        Ok(Node::ArrowFunctionDecl {
            params: vec![param("a", false), param("b", false)],
            body: Box::new(Node::BinOp {
                op: BinOp::Num(NumOp::Add),
                left: Box::new(id_node("a")),
                right: Box::new(id_node("b")),
            }),
        })
    );
}

#[test]
fn end_to_end_number_target() {
    let (res, _) = parse(vec![num(5), at(punct(Punctuator::Assign), 1, 3), num(6)]);
    assert_eq!(res, Err(ParseError::InvalidLeftHandSide(Position::new(1, 3))));
}

#[test]
fn end_to_end_yield_before_line_break() {
    let (res, mut cursor) =
        parse_with(vec![kw(Keyword::Yield), lt(), punct(Punctuator::Arrow), ident("x")], true, false);
    assert_eq!(res, Ok(Node::Yield));
    assert_eq!(remaining(&mut cursor), vec![lt(), punct(Punctuator::Arrow), ident("x")]);
}

#[test]
fn yield_outside_generator_is_identifier() {
    let (res, _) = parse(vec![kw(Keyword::Yield), punct(Punctuator::Assign), num(1)]);
    assert_eq!(
        res,
        Ok(Node::Assign { target: Box::new(id_node("yield")), value: Box::new(Node::Const(Const::Num(1))) })
    );
}

#[test]
fn keyword_parameter_arrow() {
    let (res, _) = parse(vec![kw(Keyword::Await), punct(Punctuator::Arrow), num(1)]);
    assert_eq!(
        res,
        Ok(Node::ArrowFunctionDecl {
            params: vec![param("await", false)],
            body: Box::new(Node::Const(Const::Num(1))),
        })
    );
}

#[test]
fn await_inside_async_body() {
    let (res, _) = parse_with(vec![kw(Keyword::Await), ident("p")], false, true);
    assert_eq!(res, Ok(Node::Await(Box::new(id_node("p")))));
}

#[test]
fn trailing_line_terminator_is_restored() {
    let (res, mut cursor) = parse(vec![ident("a"), lt(), lt(), ident("b")]);
    assert_eq!(res, Ok(id_node("a")));
    assert_eq!(remaining(&mut cursor), vec![lt(), ident("b")]);
}

#[test]
fn assignment_after_line_break() {
    let (res, mut cursor) = parse(vec![ident("a"), lt(), punct(Punctuator::Assign), ident("b")]);
    assert_eq!(
        res,
        Ok(Node::Assign { target: Box::new(id_node("a")), value: Box::new(id_node("b")) })
    );
    assert_eq!(remaining(&mut cursor), vec![lt()]);
}

#[test]
fn compound_assignment_after_line_break_restores_it() {
    let (res, mut cursor) = parse(vec![
        ident("a"),
        lt(),
        punct(Punctuator::AssignSub),
        num(1),
        punct(Punctuator::Semicolon),
    ]);
    assert_eq!(
        res,
        Ok(Node::BinOp {
            op: BinOp::Assign(AssignOp::Sub),
            left: Box::new(id_node("a")),
            right: Box::new(Node::Const(Const::Num(1))),
        })
    );
    assert_eq!(remaining(&mut cursor), vec![lt(), punct(Punctuator::Semicolon)]);
}

#[test]
fn right_operand_line_break_is_kept() {
    let (res, mut cursor) = parse(vec![
        ident("a"),
        at(lt(), 1, 2),
        punct(Punctuator::Assign),
        ident("b"),
        at(lt(), 2, 3),
        ident("c"),
    ]);
    assert_eq!(
        res,
        Ok(Node::Assign { target: Box::new(id_node("a")), value: Box::new(id_node("b")) })
    );
    assert_eq!(remaining(&mut cursor), vec![at(lt(), 2, 3), ident("c")]);
}

#[test]
fn empty_stream_is_abrupt_end() {
    let (res, _) = parse(vec![]);
    assert_eq!(res, Err(ParseError::AbruptEnd));
}

#[test]
fn missing_right_operand_is_abrupt_end() {
    let (res, _) = parse(vec![ident("a"), punct(Punctuator::Assign)]);
    assert_eq!(res, Err(ParseError::AbruptEnd));
}

#[test]
fn parenthesised_identifier_commits_to_arrow() {
    let (res, _) = parse(vec![
        punct(Punctuator::OpenParen),
        ident("a"),
        punct(Punctuator::CloseParen),
        punct(Punctuator::Add),
        num(1),
    ]);
    assert_eq!(res, Err(ParseError::Unexpected));
}

#[test]
fn parenthesised_expression() {
    let (res, _) = parse(vec![
        punct(Punctuator::OpenParen),
        num(1),
        punct(Punctuator::Sub),
        num(2),
        punct(Punctuator::CloseParen),
    ]);
    assert_eq!(
        res,
        Ok(Node::BinOp {
            op: BinOp::Num(NumOp::Sub),
            left: Box::new(Node::Const(Const::Num(1))),
            right: Box::new(Node::Const(Const::Num(2))),
        })
    );
}

#[test]
fn array_literal_value() {
    let (res, _) = parse(vec![
        ident("a"),
        punct(Punctuator::Assign),
        punct(Punctuator::OpenBracket),
        num(1),
        punct(Punctuator::Comma),
        ident("b"),
        punct(Punctuator::CloseBracket),
    ]);
    assert_eq!(
        res,
        Ok(Node::Assign {
            target: Box::new(id_node("a")),
            value: Box::new(Node::ArrayDecl(vec![Node::Const(Const::Num(1)), id_node("b")])),
        })
    );
}

#[test]
fn unexpected_token() {
    let (res, _) = parse(vec![punct(Punctuator::Semicolon)]);
    assert_eq!(res, Err(ParseError::Unexpected));
}

#[test]
fn assignability() {
    assert!(is_assignable(&id_node("a")));
    assert!(is_assignable(&Node::Yield));
    assert!(is_assignable(&Node::Assign { target: Box::new(id_node("a")), value: Box::new(id_node("b")) }));
    assert!(!is_assignable(&Node::Const(Const::Num(0))));
    assert!(!is_assignable(&Node::Const(Const::String("s".to_string()))));
    assert!(!is_assignable(&Node::Const(Const::Bool(false))));
    assert!(!is_assignable(&Node::ArrayDecl(vec![])));
}

#[test]
fn compound_operator_mapping() {
    assert_eq!(Punctuator::AssignAdd.as_assign_op(), Some(AssignOp::Add));
    assert_eq!(Punctuator::AssignPow.as_assign_op(), Some(AssignOp::Exp));
    assert_eq!(Punctuator::AssignCoalesce.as_assign_op(), Some(AssignOp::Coalesce));
    assert_eq!(Punctuator::Assign.as_assign_op(), None);
    assert_eq!(Punctuator::Add.as_assign_op(), None);
}

#[test]
fn parse_sets_division_goal() {
    let mut cursor = Cursor::new(vec![ident("a")]);
    assert_eq!(cursor.goal(), InputElement::RegExp);
    let _ = AssignmentExpression::new(true, false, false).parse(&mut cursor);
    assert_eq!(cursor.goal(), InputElement::Div);
}

#[test]
fn cursor_peeks_and_pushes_back() {
    let mut cursor = Cursor::new(vec![lt(), ident("a"), lt(), ident("b")]);
    assert_eq!(cursor.peek(false), Some(&lt()));
    assert_eq!(cursor.peek(true), Some(&ident("a")));
    assert_eq!(cursor.peek_skip(false), Some(&ident("a")));
    assert_eq!(cursor.peek_skip(true), Some(&ident("b")));
    assert_eq!(cursor.peek_expect_no_line_terminator(false), Err(ParseError::Unexpected));
    assert_eq!(cursor.peek_expect_no_line_terminator(true), Ok(()));
    assert_eq!(cursor.next(true), Some(ident("a")));
    let t = cursor.next(false).unwrap();
    assert_eq!(t, lt());
    cursor.push_back(t);
    assert_eq!(cursor.next(false), Some(lt()));
    assert_eq!(cursor.next(false), Some(ident("b")));
    assert_eq!(cursor.next(true), None);
    assert_eq!(cursor.peek_expect_no_line_terminator(false), Err(ParseError::AbruptEnd));
}

#[test]
fn error_messages() {
    assert_eq!(ParseError::InvalidLeftHandSide(Position::new(3, 4)).message(), "Invalid left-hand side in assignment");
    assert_eq!(ParseError::AbruptEnd.message(), "Abrupt end");
    assert_eq!(ParseError::Unexpected.message(), "Unexpected token");
}

#[test]
fn line_break_inside_arrow_parameters_is_allowed() {
    let (res, _) = parse(vec![
        punct(Punctuator::OpenParen),
        ident("a"),
        lt(),
        punct(Punctuator::CloseParen),
        punct(Punctuator::Arrow),
        ident("a"),
    ]);
    assert_eq!(
        res,
        Ok(Node::ArrowFunctionDecl { params: vec![param("a", false)], body: Box::new(id_node("a")) })
    );
}

#[test]
fn line_break_before_arrow_after_parameters_is_rejected() {
    let (res, _) = parse(vec![
        punct(Punctuator::OpenParen),
        punct(Punctuator::CloseParen),
        lt(),
        punct(Punctuator::Arrow),
        num(1),
    ]);
    assert_eq!(res, Err(ParseError::Unexpected));
}
