//! Syntax tree nodes and their mathematical model.
use vstd::prelude::*;
use crate::token::BinOp;

verus! {

/// A literal constant.
#[derive(Debug, Clone, PartialEq)]
pub enum Const {
    Num(u64),
    String(String),
    Bool(bool),
}

/// One parameter of an arrow function; `is_rest` marks `...name`.
#[derive(Debug, Clone, PartialEq)]
pub struct FormalParameter {
    pub name: String,
    pub is_rest: bool,
}

/// An expression node.
#[derive(Debug, PartialEq)]
pub enum Node {
    Identifier(String),
    Const(Const),
    ArrayDecl(Vec<Node>),
    Assign { target: Box<Node>, value: Box<Node> },
    BinOp { op: BinOp, left: Box<Node>, right: Box<Node> },
    ArrowFunctionDecl { params: Vec<FormalParameter>, body: Box<Node> },
    Yield,
    Await(Box<Node>),
}

/// Model of a parameter.
pub struct ParamView {
    pub name: Seq<char>,
    pub rest: bool,
}

/// Model of an expression node: the tree with strings as character sequences.
pub enum Expr {
    Ident(Seq<char>),
    Num(u64),
    Str(Seq<char>),
    Bool(bool),
    Array(Seq<Expr>),
    Assign(Box<Expr>, Box<Expr>),
    Bin(BinOp, Box<Expr>, Box<Expr>),
    Arrow(Seq<ParamView>, Box<Expr>),
    Yield,
    Await(Box<Expr>),
}

impl View for FormalParameter {
    type V = ParamView;

    open spec fn view(&self) -> ParamView {
        ParamView { name: self.name@, rest: self.is_rest }
    }
}

/// Model of a list of parameters.
pub open spec fn params_view(ps: Seq<FormalParameter>) -> Seq<ParamView> {
    ps.map_values(|p: FormalParameter| p@)
}

impl Node {
    /// The model of this node.
    pub open spec fn view(self) -> Expr
        decreases self,
    {
        match self {
            Node::Identifier(s) => Expr::Ident(s@),
            Node::Const(Const::Num(n)) => Expr::Num(n),
            Node::Const(Const::String(s)) => Expr::Str(s@),
            Node::Const(Const::Bool(b)) => Expr::Bool(b),
            Node::ArrayDecl(v) => Expr::Array(
                Seq::new(
                    v.len() as nat,
                    |i: int|
                        if 0 <= i < v.len() {
                            v[i].view()
                        } else {
                            Expr::Yield
                        },
                ),
            ),
            Node::Assign { target, value } => Expr::Assign(
                Box::new(target.view()),
                Box::new(value.view()),
            ),
            Node::BinOp { op, left, right } => Expr::Bin(
                op,
                Box::new(left.view()),
                Box::new(right.view()),
            ),
            Node::ArrowFunctionDecl { params, body } => Expr::Arrow(
                params_view(params@),
                Box::new(body.view()),
            ),
            Node::Yield => Expr::Yield,
            Node::Await(e) => Expr::Await(Box::new(e.view())),
        }
    }
}

} // verus!
