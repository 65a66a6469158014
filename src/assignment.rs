//! The assignment-expression parser and the assignability test.
use vstd::prelude::*;
use crate::arrow::parse_arrow_function;
use crate::cursor::{is_lt, peek_at, starts_with_lt, Cursor, InputElement, ParseError};
use crate::grammar::{arrow_ahead, assignable, assignment, assignment_tail, consumed, parsed, GrammarFlags};
use crate::node::Node;
use crate::operand::parse_conditional;
use crate::token::{AssignOp, Position, Punctuator, Token, TokenKind, TokenView};

verus! {

/// Parser of one assignment expression under the given grammar flags.
#[derive(Debug, Clone, Copy, PartialEq, Eq)]
pub struct AssignmentExpression {
    pub flags: GrammarFlags,
}

/// What the token after the left operand calls for.
enum TailStep {
    Stop,
    LineBreak,
    Assign(Position),
    Compound(AssignOp, Position),
}

/// The model of a remembered token.
pub open spec fn opt_view(t: Option<Token>) -> Option<TokenView> {
    match t {
        Some(t) => Some(t@),
        None => None,
    }
}

/// Whether the next tokens commit to an arrow function. Only peeks: the
/// cursor is left as it is, whatever the answer.
pub fn arrow_function_ahead(cursor: &Cursor) -> (r: Result<bool, ParseError>)
    ensures
        peek_at(cursor@, true) is None ==> r == Err::<bool, ParseError>(ParseError::AbruptEnd),
        peek_at(cursor@, true) is Some ==> r == Ok::<bool, ParseError>(arrow_ahead(cursor@)),
{
    let tok = match cursor.peek(true) {
        None => return Err(ParseError::AbruptEnd),
        Some(t) => t,
    };
    match &tok.kind {
        TokenKind::Identifier(_) | TokenKind::Keyword(_) => {
            if cursor.peek_expect_no_line_terminator(true).is_ok() {
                match cursor.peek_skip(false) {
                    Some(t) => Ok(matches!(t.kind, TokenKind::Punctuator(Punctuator::Arrow))),
                    None => Ok(false),
                }
            } else {
                Ok(false)
            }
        },
        TokenKind::Punctuator(Punctuator::OpenParen) => match cursor.peek_skip(false) {
            Some(t) => Ok(
                matches!(t.kind, TokenKind::Punctuator(Punctuator::CloseParen))
                    || matches!(t.kind, TokenKind::Punctuator(Punctuator::Spread))
                    || matches!(t.kind, TokenKind::Identifier(_)),
            ),
            None => Ok(false),
        },
        _ => Ok(false),
    }
}

/// Whether `node` may stand on the left of an assignment operator: every
/// node but a literal constant or an array literal.
pub fn is_assignable(node: &Node) -> (r: bool)
    ensures
        r == assignable(node.view()),
{
    match node {
        Node::Const(_) | Node::ArrayDecl(_) => false,
        _ => true,
    }
}

impl AssignmentExpression {
    /// Creates a parser with the three grammar flags.
    pub fn new(allow_in: bool, allow_yield: bool, allow_await: bool) -> (r: Self)
        ensures
            r.flags == (GrammarFlags { allow_in, allow_yield, allow_await }),
    {
        AssignmentExpression { flags: GrammarFlags { allow_in, allow_yield, allow_await } }
    }

    /// Creates a parser with the given flags.
    pub fn with_flags(flags: GrammarFlags) -> (r: Self)
        ensures
            r.flags == flags,
    {
        AssignmentExpression { flags }
    }

    /// Parses one assignment expression from `cursor`.
    ///
    /// An arrow function is chosen by looking at most two tokens ahead;
    /// otherwise the left operand is parsed and at most one assignment or
    /// compound-assignment operator follows it, whose right operand is
    /// parsed by recursion (so `a = b = c` is `a = (b = c)`). Line
    /// terminators after the operand are consumed and the last of them is
    /// pushed back for the caller to see: at once when no operator follows,
    /// and after the right operand otherwise, unless the right operand has
    /// already left a line terminator in front (it then holds the one
    /// push-back slot, and is kept). An operator after an operand that
    /// cannot be assigned is `InvalidLeftHandSide` at the operator's position.
    pub fn parse(self, cursor: &mut Cursor) -> (res: Result<Node, ParseError>)
        ensures
            parsed(res, final(cursor)@, assignment(old(cursor)@, self.flags)),
            res is Ok ==> consumed(final(cursor)@, old(cursor)@),
            final(cursor).spec_goal() == InputElement::Div,
            res is Ok && final(cursor).has_pushed_back() ==> starts_with_lt(final(cursor)@),
        decreases old(cursor)@.len(), 4int,
    {
        let ghost s0 = cursor@;
        cursor.set_goal(InputElement::Div);
        let ahead = match arrow_function_ahead(cursor) {
            Err(e) => return Err(e),
            Ok(b) => b,
        };
        if ahead {
            return parse_arrow_function(cursor, self.flags);
        }
        cursor.set_goal(InputElement::Div);
        let mut lhs = match parse_conditional(cursor, self.flags) {
            Err(e) => return Err(e),
            Ok(n) => n,
        };
        let mut line_terminator: Option<Token> = None;
        loop
            invariant
                s0 == old(cursor)@,
                cursor.spec_goal() == InputElement::Div,
                assignment(s0, self.flags) == assignment_tail(
                    lhs.view(),
                    opt_view(line_terminator),
                    cursor@,
                    self.flags,
                ),
                line_terminator is Some ==> is_lt(line_terminator->0@),
                !cursor.has_pushed_back(),
                cursor@.len() + (if line_terminator is Some { 1int } else { 0 }) < s0.len(),
            decreases cursor@.len(),
        {
            let step = match cursor.peek(false) {
                None => TailStep::Stop,
                Some(t) => match t.kind {
                    TokenKind::Punctuator(Punctuator::Assign) => TailStep::Assign(t.position),
                    TokenKind::Punctuator(p) => match p.as_assign_op() {
                        Some(op) => TailStep::Compound(op, t.position),
                        None => TailStep::Stop,
                    },
                    TokenKind::LineTerminator => TailStep::LineBreak,
                    _ => TailStep::Stop,
                },
            };
            match step {
                TailStep::Stop => {
                    if let Some(lt) = line_terminator {
                        cursor.push_back(lt);
                    }
                    return Ok(lhs);
                },
                TailStep::LineBreak => {
                    line_terminator = cursor.next(false);
                },
                TailStep::Assign(position) => {
                    cursor.next(false);
                    if !is_assignable(&lhs) {
                        return Err(ParseError::InvalidLeftHandSide(position));
                    }
                    let rhs = match self.parse(cursor) {
                        Err(e) => return Err(e),
                        Ok(n) => n,
                    };
                    restore_after_operand(cursor, line_terminator);
                    return Ok(Node::Assign { target: Box::new(lhs), value: Box::new(rhs) });
                },
                TailStep::Compound(op, position) => {
                    cursor.next(false);
                    if !is_assignable(&lhs) {
                        return Err(ParseError::InvalidLeftHandSide(position));
                    }
                    let rhs = match self.parse(cursor) {
                        Err(e) => return Err(e),
                        Ok(n) => n,
                    };
                    restore_after_operand(cursor, line_terminator);
                    return Ok(
                        Node::BinOp {
                            op: crate::token::BinOp::Assign(op),
                            left: Box::new(lhs),
                            right: Box::new(rhs),
                        },
                    );
                },
            }
        }
    }
}

/// Pushes `lt` back after a right operand, unless the stream already starts
/// with a line terminator.
fn restore_after_operand(cursor: &mut Cursor, lt: Option<Token>)
    requires
        old(cursor).has_pushed_back() ==> starts_with_lt(old(cursor)@),
        lt is Some ==> is_lt(lt->0@),
    ensures
        final(cursor)@ == crate::grammar::restore_after_operand(opt_view(lt), old(cursor)@),
        final(cursor).has_pushed_back() ==> starts_with_lt(final(cursor)@),
        final(cursor).spec_goal() == old(cursor).spec_goal(),
{
    let lead = match cursor.peek(false) {
        Some(t) => t.is_line_terminator(),
        None => false,
    };
    if !lead {
        if let Some(t) = lt {
            cursor.push_back(t);
        }
    }
}

} // verus!
