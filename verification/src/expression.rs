//! From a line to the operation it asks for.
//!
//! Evaluating a line takes two steps with the caller's work in between.
//! [`Expression::parse`] splits the line into its three fields. The caller
//! reads the left and the right field as numbers. [`Expression::resolve`]
//! then decides, from the fields and from what the caller read, which
//! operation is to be carried out, or which error is to be reported.
//! [`outcome`] says what the two steps together come to.

use vstd::prelude::*;
use crate::error::{CalcError, CalcErrorView};
use crate::fields::{
    has_three_fields,
    is_three_fields,
    lemma_three_words_iff_three_fields,
    lemma_words_of_three_fields,
    lemma_words_of_trimmed,
};
use crate::operand::Operand;
use crate::operator::Operator;
use crate::trim::trimmed;
use crate::words::{split_whitespace, words};

verus! {

/// An operator with the two operands it is to be applied to, `left` first.
#[derive(Clone, Copy, Debug, PartialEq, Eq, Structural)]
pub struct Operation {
    pub operator: Operator,
    pub left: Operand,
    pub right: Operand,
}

/// What is to be done for `line`, where reading its first field as a number
/// gave `left` and reading its third field gave `right`, `None` standing for
/// a field that is not a number.
///
/// The number of fields is examined first, then the left number, the right
/// number, the operator, and last the divisor of a division.
pub open spec fn outcome(line: Seq<char>, left: Option<Operand>, right: Option<Operand>) -> Result<
    Operation,
    CalcErrorView,
> {
    let fields = words(line);
    if fields.len() != 3 {
        Err(CalcErrorView::Format)
    } else if left is None {
        Err(CalcErrorView::NumberParse { token: fields[0] })
    } else if right is None {
        Err(CalcErrorView::NumberParse { token: fields[2] })
    } else {
        match Operator::named_by(fields[1]) {
            None => Err(CalcErrorView::UnsupportedOperator { token: fields[1] }),
            Some(operator) => if operator == Operator::Divide && right->0.encodes_zero() {
                Err(CalcErrorView::DivisionByZero)
            } else {
                Ok(Operation { operator, left: left->0, right: right->0 })
            },
        }
    }
}

/// A result with its error, if it is one, taken by its view.
pub open spec fn outcome_view(r: Result<Operation, CalcError>) -> Result<Operation, CalcErrorView> {
    match r {
        Ok(operation) => Ok(operation),
        Err(error) => Err(error@),
    }
}

/// A line of three fields, waiting for its numbers to be read.
#[derive(Clone, Copy, Debug, PartialEq, Eq)]
pub struct Expression<'a> {
    line: &'a str,
    left: &'a str,
    operator: &'a str,
    right: &'a str,
}

/// An [`Expression`] as sequences of characters: the line and its fields.
pub ghost struct ExpressionView {
    pub line: Seq<char>,
    pub left: Seq<char>,
    pub operator: Seq<char>,
    pub right: Seq<char>,
}

impl<'a> View for Expression<'a> {
    type V = ExpressionView;

    closed spec fn view(&self) -> ExpressionView {
        ExpressionView {
            line: self.line@,
            left: self.left@,
            operator: self.operator@,
            right: self.right@,
        }
    }
}

impl<'a> Expression<'a> {
    /// The fields are the words of the line.
    #[verifier::type_invariant]
    spec fn fields_are_the_words(self) -> bool {
        words(self.line@) == seq![self.left@, self.operator@, self.right@]
    }

    /// Splits `line` into its fields. Succeeds where there are exactly three
    /// of them, and is a format error otherwise.
    pub fn parse(line: &'a str) -> (r: Result<Expression<'a>, CalcError>)
        ensures
            match r {
                Ok(expression) => {
                    &&& expression@.line == line@
                    &&& words(line@) == seq![
                        expression@.left,
                        expression@.operator,
                        expression@.right,
                    ]
                },
                Err(error) => words(line@).len() != 3 && error@ == CalcErrorView::Format,
            },
    {
        let fields = split_whitespace(line);
        if fields.len() != 3 {
            return Err(CalcError::Format);
        }
        let left = fields[0];
        let operator = fields[1];
        let right = fields[2];
        assert(words(line@) =~= seq![left@, operator@, right@]);
        Ok(Expression { line, left, operator, right })
    }

    /// The line as it was given. Its words are the three fields.
    pub fn line(&self) -> (r: &'a str)
        ensures
            r@ == self@.line,
            words(r@) == seq![self@.left, self@.operator, self@.right],
    {
        proof {
            use_type_invariant(self);
        }
        self.line
    }

    /// The first field, which should be a number.
    pub fn left(&self) -> (r: &'a str)
        ensures
            r@ == self@.left,
    {
        self.left
    }

    /// The second field, which should be an operator.
    pub fn operator(&self) -> (r: &'a str)
        ensures
            r@ == self@.operator,
    {
        self.operator
    }

    /// The third field, which should be a number.
    pub fn right(&self) -> (r: &'a str)
        ensures
            r@ == self@.right,
    {
        self.right
    }

    /// Decides what is to be done for the line. `left` and `right` are what
    /// reading the left and the right field as numbers gave, `None` where
    /// the field is not a number.
    pub fn resolve(&self, left: Option<Operand>, right: Option<Operand>) -> (r: Result<
        Operation,
        CalcError,
    >)
        ensures
            outcome_view(r) == outcome(self@.line, left, right),
    {
        proof {
            use_type_invariant(self);
        }
        let left = match left {
            Some(operand) => operand,
            None => {
                return Err(CalcError::NumberParse { token: self.left.to_owned() });
            },
        };
        let right = match right {
            Some(operand) => operand,
            None => {
                return Err(CalcError::NumberParse { token: self.right.to_owned() });
            },
        };
        match Operator::parse(self.operator) {
            None => Err(CalcError::UnsupportedOperator { token: self.operator.to_owned() }),
            Some(Operator::Divide) => {
                if right.is_zero() {
                    Err(CalcError::DivisionByZero)
                } else {
                    Ok(Operation { operator: Operator::Divide, left, right })
                }
            },
            Some(operator) => Ok(Operation { operator, left, right }),
        }
    }
}

/// A well-formed line is evaluated: where a line consists of a number, one
/// of the four operator symbols and a number, with whitespace between them
/// and possibly around them, and does not ask for a division by zero, the
/// outcome is that operator applied to the two numbers that were read.
pub proof fn lemma_well_formed_line_succeeds(
    line: Seq<char>,
    lead: Seq<char>,
    left_token: Seq<char>,
    gap: Seq<char>,
    operator: Operator,
    other_gap: Seq<char>,
    right_token: Seq<char>,
    trail: Seq<char>,
    left: Operand,
    right: Operand,
)
    requires
        is_three_fields(
            line,
            lead,
            left_token,
            gap,
            seq![operator.symbol()],
            other_gap,
            right_token,
            trail,
        ),
        operator == Operator::Divide ==> !right.encodes_zero(),
    ensures
        outcome(line, Some(left), Some(right)) == Ok::<Operation, CalcErrorView>(
            Operation { operator, left, right },
        ),
{
    let symbol = seq![operator.symbol()];
    Operator::lemma_named_by_symbol(symbol, operator);
    lemma_words_of_three_fields(line, lead, left_token, gap, symbol, other_gap, right_token, trail);
}

/// Only a well-formed line is evaluated: the outcome is an operation exactly
/// where the line is three fields, both numbers could be read, the middle
/// field names an operator, and the line does not ask for a division by
/// zero.
pub proof fn lemma_success_iff_well_formed(
    line: Seq<char>,
    left: Option<Operand>,
    right: Option<Operand>,
)
    ensures
        outcome(line, left, right) is Ok <==> {
            &&& has_three_fields(line)
            &&& left is Some
            &&& right is Some
            &&& Operator::named_by(words(line)[1]) is Some
            &&& Operator::named_by(words(line)[1]) == Some(Operator::Divide)
                ==> !right->0.encodes_zero()
        },
{
    lemma_three_words_iff_three_fields(line);
}

/// A line is a format error exactly where it is not three fields with
/// whitespace between and around them, whatever the fields hold.
pub proof fn lemma_format_error_iff_not_three_fields(
    line: Seq<char>,
    left: Option<Operand>,
    right: Option<Operand>,
)
    ensures
        outcome(line, left, right) == Err::<Operation, CalcErrorView>(CalcErrorView::Format)
            <==> !has_three_fields(line),
{
    lemma_three_words_iff_three_fields(line);
}

/// The whitespace around a line is insignificant: the outcome is the same
/// whether or not the line was trimmed before it was evaluated.
pub proof fn lemma_outcome_of_trimmed(
    line: Seq<char>,
    left: Option<Operand>,
    right: Option<Operand>,
)
    ensures
        outcome(trimmed(line), left, right) == outcome(line, left, right),
{
    lemma_words_of_trimmed(line);
}

/// Evaluating the same input twice gives the same outcome: whatever two
/// evaluations of one line with the same numbers read from it returned,
/// the two results are the same operation, or the same error with the same
/// text.
pub proof fn lemma_same_input_same_outcome(
    line: Seq<char>,
    left: Option<Operand>,
    right: Option<Operand>,
    first: Result<Operation, CalcError>,
    second: Result<Operation, CalcError>,
)
    requires
        outcome_view(first) == outcome(line, left, right),
        outcome_view(second) == outcome(line, left, right),
    ensures
        outcome_view(first) == outcome_view(second),
        first is Err ==> first->Err_0@.message() == second->Err_0@.message(),
{
}

} // verus!
