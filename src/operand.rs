//! The operand grammar below assignment: primary expressions, array literals
//! and additive chains.
use vstd::prelude::*;
use crate::assignment::AssignmentExpression;
use crate::cursor::{Cursor, InputElement, ParseError};
use crate::grammar::{additive_tail, conditional, consumed, elements, parsed, primary, GrammarFlags};
use crate::node::{Const, Expr, Node};
use crate::token::{BinOp, Keyword, NumOp, Punctuator, TokenKind};

verus! {

/// Model of a list of nodes.
pub open spec fn nodes_view(v: Seq<Node>) -> Seq<Expr> {
    Seq::new(v.len(), |i: int| v[i].view())
}

/// Parses a primary expression.
pub fn parse_primary(cursor: &mut Cursor, flags: GrammarFlags) -> (res: Result<Node, ParseError>)
    ensures
        parsed(res, final(cursor)@, primary(old(cursor)@, flags)),
        res is Ok ==> consumed(final(cursor)@, old(cursor)@),
        res is Ok ==> !final(cursor).has_pushed_back(),
        old(cursor).spec_goal() == InputElement::Div ==> final(cursor).spec_goal() == InputElement::Div,
    decreases old(cursor)@.len(), 2int,
{
    let ghost s = cursor@;
    let tok = match cursor.next(true) {
        None => return Err(ParseError::AbruptEnd),
        Some(t) => t,
    };
    match tok.kind {
        TokenKind::Identifier(name) => Ok(Node::Identifier(name)),
        TokenKind::NumericLiteral(v) => Ok(Node::Const(Const::Num(v))),
        TokenKind::StringLiteral(v) => Ok(Node::Const(Const::String(v))),
        TokenKind::BooleanLiteral(v) => Ok(Node::Const(Const::Bool(v))),
        TokenKind::Keyword(Keyword::Yield) => {
            if flags.allow_yield {
                Ok(Node::Yield)
            } else {
                Ok(Node::Identifier(String::from_str("yield")))
            }
        },
        TokenKind::Keyword(Keyword::Await) => {
            if flags.allow_await {
                match parse_primary(cursor, flags) {
                    Err(e) => Err(e),
                    Ok(operand) => Ok(Node::Await(Box::new(operand))),
                }
            } else {
                Ok(Node::Identifier(String::from_str("await")))
            }
        },
        TokenKind::Punctuator(Punctuator::OpenParen) => {
            let inner = match AssignmentExpression::with_flags(flags).parse(cursor) {
                Err(e) => return Err(e),
                Ok(n) => n,
            };
            match cursor.next(true) {
                None => Err(ParseError::AbruptEnd),
                Some(t) => {
                    if matches!(t.kind, TokenKind::Punctuator(Punctuator::CloseParen)) {
                        Ok(inner)
                    } else {
                        Err(ParseError::Unexpected)
                    }
                },
            }
        },
        TokenKind::Punctuator(Punctuator::OpenBracket) => parse_elements(cursor, flags),
        _ => Err(ParseError::Unexpected),
    }
}

/// Parses the elements of an array literal, after its `[`.
pub fn parse_elements(cursor: &mut Cursor, flags: GrammarFlags) -> (res: Result<Node, ParseError>)
    ensures
        parsed(res, final(cursor)@, elements(Seq::empty(), old(cursor)@, flags)),
        res is Ok ==> consumed(final(cursor)@, old(cursor)@),
        res is Ok ==> !final(cursor).has_pushed_back(),
        old(cursor).spec_goal() == InputElement::Div ==> final(cursor).spec_goal() == InputElement::Div,
    decreases old(cursor)@.len(), 5int,
{
    let ghost s0 = cursor@;
    let mut acc: Vec<Node> = Vec::new();
    proof {
        assert(nodes_view(acc@) =~= Seq::<Expr>::empty());
    }
    loop
        invariant
            s0 == old(cursor)@,
            old(cursor).spec_goal() == InputElement::Div ==> cursor.spec_goal() == InputElement::Div,
            elements(nodes_view(acc@), cursor@, flags) == elements(Seq::empty(), s0, flags),
            cursor@.len() <= s0.len(),
        decreases cursor@.len(),
    {
        let close = match cursor.peek(true) {
            None => return Err(ParseError::AbruptEnd),
            Some(t) => matches!(t.kind, TokenKind::Punctuator(Punctuator::CloseBracket)),
        };
        if close {
            cursor.next(true);
            let ghost accv = acc@;
            let n = Node::ArrayDecl(acc);
            assert(n.view()->Array_0 =~= nodes_view(accv));
            return Ok(n);
        }
        let e = match AssignmentExpression::with_flags(flags).parse(cursor) {
            Err(e) => return Err(e),
            Ok(n) => n,
        };
        let ghost prev = nodes_view(acc@);
        acc.push(e);
        proof {
            assert(nodes_view(acc@) =~= prev.push(e.view()));
        }
        let sep = match cursor.next(true) {
            None => return Err(ParseError::AbruptEnd),
            Some(t) => t,
        };
        match sep.kind {
            TokenKind::Punctuator(Punctuator::Comma) => {},
            TokenKind::Punctuator(Punctuator::CloseBracket) => {
                let ghost accv = acc@;
                let n = Node::ArrayDecl(acc);
                assert(n.view()->Array_0 =~= nodes_view(accv));
                return Ok(n);
            },
            _ => return Err(ParseError::Unexpected),
        }
    }
}

/// Parses the operand grammar: primary expressions joined by `+` and `-`.
pub fn parse_conditional(cursor: &mut Cursor, flags: GrammarFlags) -> (res: Result<
    Node,
    ParseError,
>)
    ensures
        parsed(res, final(cursor)@, conditional(old(cursor)@, flags)),
        res is Ok ==> consumed(final(cursor)@, old(cursor)@),
        res is Ok ==> !final(cursor).has_pushed_back(),
        old(cursor).spec_goal() == InputElement::Div ==> final(cursor).spec_goal() == InputElement::Div,
    decreases old(cursor)@.len(), 3int,
{
    let ghost s0 = cursor@;
    let mut left = match parse_primary(cursor, flags) {
        Err(e) => return Err(e),
        Ok(n) => n,
    };
    loop
        invariant
            s0 == old(cursor)@,
            old(cursor).spec_goal() == InputElement::Div ==> cursor.spec_goal() == InputElement::Div,
            additive_tail(left.view(), cursor@, flags) == conditional(s0, flags),
            !cursor.has_pushed_back(),
            cursor@.len() < s0.len(),
        decreases cursor@.len(),
    {
        let op = match cursor.peek(false) {
            None => None,
            Some(t) => match t.kind {
                TokenKind::Punctuator(Punctuator::Add) => Some(NumOp::Add),
                TokenKind::Punctuator(Punctuator::Sub) => Some(NumOp::Sub),
                _ => None,
            },
        };
        let op = match op {
            None => return Ok(left),
            Some(op) => op,
        };
        cursor.next(false);
        let right = match parse_primary(cursor, flags) {
            Err(e) => return Err(e),
            Ok(n) => n,
        };
        left = Node::BinOp { op: BinOp::Num(op), left: Box::new(left), right: Box::new(right) };
    }
}

} // verus!
