//! Lexical tokens, as delivered by the lexer, and their mathematical model.
use vstd::prelude::*;

verus! {

/// Keywords that may stand where an identifier is expected.
#[derive(Debug, Clone, Copy, PartialEq, Eq)]
pub enum Keyword {
    Yield,
    Await,
}

/// Punctuators seen by the assignment layer and by its operand grammar.
#[derive(Debug, Clone, Copy, PartialEq, Eq)]
pub enum Punctuator {
    Assign,
    Arrow,
    OpenParen,
    CloseParen,
    OpenBracket,
    CloseBracket,
    Comma,
    Spread,
    Semicolon,
    Add,
    Sub,
    Mul,
    Div,
    AssignAdd,
    AssignSub,
    AssignMul,
    AssignDiv,
    AssignMod,
    AssignPow,
    AssignAnd,
    AssignOr,
    AssignXor,
    AssignLeftSh,
    AssignRightSh,
    AssignURightSh,
    AssignBoolAnd,
    AssignBoolOr,
    AssignCoalesce,
}

/// The binary operator underlying a compound assignment.
#[derive(Debug, Clone, Copy, PartialEq, Eq)]
pub enum AssignOp {
    Add,
    Sub,
    Mul,
    Div,
    Mod,
    Exp,
    And,
    Or,
    Xor,
    Shl,
    Shr,
    Ushr,
    BoolAnd,
    BoolOr,
    Coalesce,
}

/// Numeric binary operators of the operand grammar.
#[derive(Debug, Clone, Copy, PartialEq, Eq)]
pub enum NumOp {
    Add,
    Sub,
}

/// Operator of a binary-operation node.
#[derive(Debug, Clone, Copy, PartialEq, Eq)]
pub enum BinOp {
    Num(NumOp),
    Assign(AssignOp),
}

/// The compound-assignment operator that a punctuator denotes, if any.
pub open spec fn assign_op_of(p: Punctuator) -> Option<AssignOp> {
    match p {
        Punctuator::AssignAdd => Some(AssignOp::Add),
        Punctuator::AssignSub => Some(AssignOp::Sub),
        Punctuator::AssignMul => Some(AssignOp::Mul),
        Punctuator::AssignDiv => Some(AssignOp::Div),
        Punctuator::AssignMod => Some(AssignOp::Mod),
        Punctuator::AssignPow => Some(AssignOp::Exp),
        Punctuator::AssignAnd => Some(AssignOp::And),
        Punctuator::AssignOr => Some(AssignOp::Or),
        Punctuator::AssignXor => Some(AssignOp::Xor),
        Punctuator::AssignLeftSh => Some(AssignOp::Shl),
        Punctuator::AssignRightSh => Some(AssignOp::Shr),
        Punctuator::AssignURightSh => Some(AssignOp::Ushr),
        Punctuator::AssignBoolAnd => Some(AssignOp::BoolAnd),
        Punctuator::AssignBoolOr => Some(AssignOp::BoolOr),
        Punctuator::AssignCoalesce => Some(AssignOp::Coalesce),
        _ => None,
    }
}

impl Punctuator {
    /// Maps a compound-assignment punctuator to its binary operator; every
    /// other punctuator, plain `=` included, maps to `None`.
    pub fn as_assign_op(&self) -> (r: Option<AssignOp>)
        ensures
            r == assign_op_of(*self),
    {
        match self {
            Punctuator::AssignAdd => Some(AssignOp::Add),
            Punctuator::AssignSub => Some(AssignOp::Sub),
            Punctuator::AssignMul => Some(AssignOp::Mul),
            Punctuator::AssignDiv => Some(AssignOp::Div),
            Punctuator::AssignMod => Some(AssignOp::Mod),
            Punctuator::AssignPow => Some(AssignOp::Exp),
            Punctuator::AssignAnd => Some(AssignOp::And),
            Punctuator::AssignOr => Some(AssignOp::Or),
            Punctuator::AssignXor => Some(AssignOp::Xor),
            Punctuator::AssignLeftSh => Some(AssignOp::Shl),
            Punctuator::AssignRightSh => Some(AssignOp::Shr),
            Punctuator::AssignURightSh => Some(AssignOp::Ushr),
            Punctuator::AssignBoolAnd => Some(AssignOp::BoolAnd),
            Punctuator::AssignBoolOr => Some(AssignOp::BoolOr),
            Punctuator::AssignCoalesce => Some(AssignOp::Coalesce),
            _ => None,
        }
    }
}

/// A source position: line and column, both counted from one.
#[derive(Debug, Clone, Copy, PartialEq, Eq)]
pub struct Position {
    pub line: u32,
    pub column: u32,
}

impl Position {
    /// The position at `line` and `column`.
    pub fn new(line: u32, column: u32) -> (r: Position)
        ensures
            r == (Position { line, column }),
    {
        Position { line, column }
    }
}

/// What kind of lexical unit a token is.
#[derive(Debug, Clone, PartialEq)]
pub enum TokenKind {
    Identifier(String),
    Keyword(Keyword),
    Punctuator(Punctuator),
    NumericLiteral(u64),
    StringLiteral(String),
    BooleanLiteral(bool),
    LineTerminator,
}

/// A lexical unit produced by the lexer, with where it starts in the source.
#[derive(Debug, Clone, PartialEq)]
pub struct Token {
    pub kind: TokenKind,
    pub position: Position,
}

/// Mathematical model of a token kind: strings are seen as character sequences.
pub enum KindView {
    Ident(Seq<char>),
    Kw(Keyword),
    Punct(Punctuator),
    Num(u64),
    Str(Seq<char>),
    Bool(bool),
    LineTerminator,
}

/// Mathematical model of a token.
pub struct TokenView {
    pub kind: KindView,
    pub position: Position,
}

/// The model of a token kind.
pub open spec fn kind_view(k: TokenKind) -> KindView {
    match k {
        TokenKind::Identifier(s) => KindView::Ident(s@),
        TokenKind::Keyword(k) => KindView::Kw(k),
        TokenKind::Punctuator(p) => KindView::Punct(p),
        TokenKind::NumericLiteral(n) => KindView::Num(n),
        TokenKind::StringLiteral(s) => KindView::Str(s@),
        TokenKind::BooleanLiteral(b) => KindView::Bool(b),
        TokenKind::LineTerminator => KindView::LineTerminator,
    }
}

impl View for Token {
    type V = TokenView;

    open spec fn view(&self) -> TokenView {
        TokenView { kind: kind_view(self.kind), position: self.position }
    }
}

impl Token {
    /// Creates a token of the given kind at the given position.
    pub fn new(kind: TokenKind, position: Position) -> (r: Token)
        ensures
            r.kind == kind,
            r.position == position,
    {
        Token { kind, position }
    }

    /// The kind of this token.
    pub fn kind(&self) -> (r: &TokenKind)
        ensures
            *r == self.kind,
    {
        &self.kind
    }

    /// Where this token starts.
    pub fn position(&self) -> (r: Position)
        ensures
            r == self.position,
    {
        self.position
    }

    /// Whether this token is a line terminator.
    pub fn is_line_terminator(&self) -> (r: bool)
        ensures
            r == (self@.kind is LineTerminator),
    {
        match self.kind {
            TokenKind::LineTerminator => true,
            _ => false,
        }
    }
}

} // verus!
