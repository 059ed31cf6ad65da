//! The lexical tokens that classification produces.
use vstd::prelude::*;
use vstd::string::StringExecFns;
use crate::id::Id;
use crate::number::Number;

verus! {

#[derive(Clone, Copy, Debug, PartialEq, Eq, Structural)]
pub enum Case {
    And,
    Equal,
    If,
    Then,
}

#[derive(Clone, Copy, Debug, PartialEq, Eq, Structural)]
pub enum Command {
    Include,
    Send,
    Show,
    Sum,
}

#[derive(Clone, Copy, Debug, PartialEq, Eq, Structural)]
pub enum Expression {
    Assign,
    Divide,
    End,
    Minus,
    Multiply,
    Plus,
    Start,
}

#[derive(Clone, Copy, Debug, PartialEq, Eq, Structural)]
pub enum Flow {
    Break,
    ExpressionStart,
    ExpressionEnd,
}

#[derive(Clone, Copy, Debug, PartialEq, Eq, Structural)]
pub enum Modifier {
    Binding,
    Selection,
    Targeting,
    New,
    Next,
    /// No modifier.
    Plain,
}

#[derive(Clone, Copy, Debug, PartialEq, Eq, Structural)]
pub enum Bracket {
    StructStart,
    StructEnd,
    ListStart,
    ListEnd,
}

/// A literal value carried by a token.
#[derive(Clone, Debug, PartialEq, Eq)]
pub enum Value {
    Number(Number),
    Fact(bool),
    Text(String),
    Id(Id),
}

#[derive(Clone, Debug, PartialEq, Eq)]
pub enum Token {
    /// The assignment marker.
    Being,
    Exp(Expression),
    Val(Value),
    Case(Case),
    Flow(Flow),
    Mod(Modifier),
    Bracket(Bracket),
    Term(String),
    This,
    Cmd(Command),
    Comment(String),
}

impl Token {
    /// The short glyph that stands for a token in diagnostics.
    pub open spec fn spec_glyph(&self) -> Seq<char> {
        match self {
            Token::Being => "="@,
            Token::Exp(_) => "O"@,
            Token::Val(_) => "V"@,
            Token::Case(_) => "C"@,
            Token::Flow(f) => match f {
                Flow::Break => "."@,
                Flow::ExpressionStart => "("@,
                Flow::ExpressionEnd => ")"@,
            },
            Token::Mod(m) => match m {
                Modifier::Binding => "b"@,
                Modifier::Selection => "s"@,
                Modifier::Targeting => "t"@,
                Modifier::Plain => ""@,
                _ => "M"@,
            },
            Token::Bracket(b) => match b {
                Bracket::StructStart => "{"@,
                Bracket::StructEnd => "}"@,
                Bracket::ListStart => "["@,
                Bracket::ListEnd => "]"@,
            },
            Token::Term(_) => "T"@,
            Token::This => "_"@,
            Token::Cmd(_) => "Cmd"@,
            Token::Comment(_) => "#"@,
        }
    }

    pub fn glyph(&self) -> (r: String)
        ensures
            r@ == self.spec_glyph(),
    {
        let g = match self {
            Token::Being => "=",
            Token::Exp(_) => "O",
            Token::Val(_) => "V",
            Token::Case(_) => "C",
            Token::Flow(f) => match f {
                Flow::Break => ".",
                Flow::ExpressionStart => "(",
                Flow::ExpressionEnd => ")",
            },
            Token::Mod(m) => match m {
                Modifier::Binding => "b",
                Modifier::Selection => "s",
                Modifier::Targeting => "t",
                Modifier::Plain => "",
                _ => "M",
            },
            Token::Bracket(b) => match b {
                Bracket::StructStart => "{",
                Bracket::StructEnd => "}",
                Bracket::ListStart => "[",
                Bracket::ListEnd => "]",
            },
            Token::Term(_) => "T",
            Token::This => "_",
            Token::Cmd(_) => "Cmd",
            Token::Comment(_) => "#",
        };
        String::from_str(g)
    }
}

} // verus!
