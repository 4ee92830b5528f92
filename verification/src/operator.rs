//! The four operators.

use vstd::prelude::*;

verus! {

/// An arithmetic operator of the calculator.
#[derive(Clone, Copy, Debug, PartialEq, Eq, Structural)]
pub enum Operator {
    Add,
    Subtract,
    Multiply,
    Divide,
}

impl Operator {
    /// The character that stands for this operator.
    pub open spec fn symbol(self) -> char {
        match self {
            Operator::Add => '+',
            Operator::Subtract => '-',
            Operator::Multiply => '*',
            Operator::Divide => '/',
        }
    }

    /// The operator that `token` names: the one whose symbol is all of
    /// `token`, if there is one.
    pub open spec fn named_by(token: Seq<char>) -> Option<Operator> {
        if token.len() != 1 {
            None
        } else if token[0] == '+' {
            Some(Operator::Add)
        } else if token[0] == '-' {
            Some(Operator::Subtract)
        } else if token[0] == '*' {
            Some(Operator::Multiply)
        } else if token[0] == '/' {
            Some(Operator::Divide)
        } else {
            None
        }
    }

    /// Reads an operator from `token`, which is compared as it stands.
    pub fn parse(token: &str) -> (r: Option<Operator>)
        ensures
            r == Operator::named_by(token@),
    {
        let mut chars = token.chars();
        let first = chars.next();
        let second = chars.next();
        match (first, second) {
            (Some('+'), None) => Some(Operator::Add),
            (Some('-'), None) => Some(Operator::Subtract),
            (Some('*'), None) => Some(Operator::Multiply),
            (Some('/'), None) => Some(Operator::Divide),
            _ => None,
        }
    }

    /// A token names an operator exactly where it consists of that
    /// operator's symbol.
    pub proof fn lemma_named_by_symbol(token: Seq<char>, operator: Operator)
        ensures
            Operator::named_by(token) == Some(operator) <==> token == seq![operator.symbol()],
    {
        if token.len() == 1 {
            assert(token =~= seq![token[0]]);
        }
    }
}

} // verus!
