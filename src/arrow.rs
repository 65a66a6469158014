//! Arrow functions: `x => body` and `(a, b, ...rest) => body`.
use vstd::prelude::*;
use crate::assignment::AssignmentExpression;
use crate::cursor::{starts_with_lt, Cursor, InputElement, ParseError};
use crate::grammar::{arrow_function, arrow_params, consumed, param_list, parsed, GrammarFlags};
use crate::node::{params_view, FormalParameter, Node, ParamView};
use crate::token::{Keyword, Punctuator, TokenKind, TokenView};

verus! {

/// Parses a parenthesised parameter list, after its `(`.
fn parse_param_list(cursor: &mut Cursor) -> (res: Result<Vec<FormalParameter>, ParseError>)
    ensures
        match res {
            Ok(ps) => param_list(Seq::empty(), old(cursor)@) == Ok::<(Seq<ParamView>, Seq<TokenView>), ParseError>(
                (params_view(ps@), final(cursor)@),
            ) && consumed(final(cursor)@, old(cursor)@),
            Err(e) => param_list(Seq::empty(), old(cursor)@) == Err::<(Seq<ParamView>, Seq<TokenView>), ParseError>(e),
        },
        final(cursor).spec_goal() == old(cursor).spec_goal(),
{
    let ghost s0 = cursor@;
    let mut acc: Vec<FormalParameter> = Vec::new();
    proof {
        assert(params_view(acc@) =~= Seq::empty());
    }
    loop
        invariant
            s0 == old(cursor)@,
            cursor.spec_goal() == old(cursor).spec_goal(),
            param_list(params_view(acc@), cursor@) == param_list(Seq::empty(), s0),
            cursor@.len() <= s0.len(),
        decreases cursor@.len(),
    {
        let t = match cursor.next(true) {
            None => return Err(ParseError::AbruptEnd),
            Some(t) => t,
        };
        match t.kind {
            TokenKind::Punctuator(Punctuator::CloseParen) => return Ok(acc),
            TokenKind::Punctuator(Punctuator::Spread) => {
                let t1 = match cursor.next(true) {
                    None => return Err(ParseError::AbruptEnd),
                    Some(t) => t,
                };
                let name = match t1.kind {
                    TokenKind::Identifier(name) => name,
                    _ => return Err(ParseError::Unexpected),
                };
                let t2 = match cursor.next(true) {
                    None => return Err(ParseError::AbruptEnd),
                    Some(t) => t,
                };
                if !matches!(t2.kind, TokenKind::Punctuator(Punctuator::CloseParen)) {
                    return Err(ParseError::Unexpected);
                }
                let ghost prev = params_view(acc@);
                let p = FormalParameter { name, is_rest: true };
                acc.push(p);
                assert(params_view(acc@) =~= prev.push(p@));
                return Ok(acc);
            },
            TokenKind::Identifier(name) => {
                let ghost prev = params_view(acc@);
                let p = FormalParameter { name, is_rest: false };
                acc.push(p);
                assert(params_view(acc@) =~= prev.push(p@));
                let t1 = match cursor.next(true) {
                    None => return Err(ParseError::AbruptEnd),
                    Some(t) => t,
                };
                match t1.kind {
                    TokenKind::Punctuator(Punctuator::Comma) => {},
                    TokenKind::Punctuator(Punctuator::CloseParen) => return Ok(acc),
                    _ => return Err(ParseError::Unexpected),
                }
            },
            _ => return Err(ParseError::Unexpected),
        }
    }
}

/// Parses the parameters of an arrow function.
fn parse_arrow_params(cursor: &mut Cursor) -> (res: Result<Vec<FormalParameter>, ParseError>)
    ensures
        match res {
            Ok(ps) => arrow_params(old(cursor)@) == Ok::<(Seq<ParamView>, Seq<TokenView>), ParseError>(
                (params_view(ps@), final(cursor)@),
            ) && consumed(final(cursor)@, old(cursor)@),
            Err(e) => arrow_params(old(cursor)@) == Err::<(Seq<ParamView>, Seq<TokenView>), ParseError>(e),
        },
        final(cursor).spec_goal() == old(cursor).spec_goal(),
{
    let t = match cursor.next(true) {
        None => return Err(ParseError::AbruptEnd),
        Some(t) => t,
    };
    let name = match t.kind {
        TokenKind::Identifier(name) => name,
        TokenKind::Keyword(Keyword::Yield) => String::from_str("yield"),
        TokenKind::Keyword(Keyword::Await) => String::from_str("await"),
        TokenKind::Punctuator(Punctuator::OpenParen) => return parse_param_list(cursor),
        _ => return Err(ParseError::Unexpected),
    };
    let mut ps: Vec<FormalParameter> = Vec::new();
    let p = FormalParameter { name, is_rest: false };
    ps.push(p);
    assert(params_view(ps@) =~= seq![p@]);
    Ok(ps)
}

/// Parses an arrow function: its parameters, `=>` on the same line, and its
/// body, an assignment expression.
pub fn parse_arrow_function(cursor: &mut Cursor, flags: GrammarFlags) -> (res: Result<
    Node,
    ParseError,
>)
    ensures
        parsed(res, final(cursor)@, arrow_function(old(cursor)@, flags)),
        res is Ok ==> consumed(final(cursor)@, old(cursor)@),
        res is Ok && final(cursor).has_pushed_back() ==> starts_with_lt(final(cursor)@),
        old(cursor).spec_goal() == InputElement::Div ==> final(cursor).spec_goal() == InputElement::Div,
    decreases old(cursor)@.len(), 3int,
{
    let params = match parse_arrow_params(cursor) {
        Err(e) => return Err(e),
        Ok(ps) => ps,
    };
    let arrow = match cursor.next(false) {
        None => return Err(ParseError::AbruptEnd),
        Some(t) => t,
    };
    if !matches!(arrow.kind, TokenKind::Punctuator(Punctuator::Arrow)) {
        return Err(ParseError::Unexpected);
    }
    let body = match AssignmentExpression::with_flags(flags).parse(cursor) {
        Err(e) => return Err(e),
        Ok(n) => n,
    };
    Ok(Node::ArrowFunctionDecl { params, body: Box::new(body) })
}

} // verus!
