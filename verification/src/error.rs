//! What can be wrong with a line.

use vstd::prelude::*;

verus! {

/// Why a line could not be evaluated.
#[derive(Debug, PartialEq, Eq)]
pub enum CalcError {
    /// The line does not consist of exactly three fields.
    Format,
    /// The field `token` should be a number and is not.
    NumberParse { token: String },
    /// The field `token` should be an operator and is none of the four.
    UnsupportedOperator { token: String },
    /// The line asks for a division by zero.
    DivisionByZero,
}

/// A [`CalcError`] with its tokens as sequences of characters.
pub ghost enum CalcErrorView {
    Format,
    NumberParse { token: Seq<char> },
    UnsupportedOperator { token: Seq<char> },
    DivisionByZero,
}

impl View for CalcError {
    type V = CalcErrorView;

    open spec fn view(&self) -> CalcErrorView {
        match self {
            CalcError::Format => CalcErrorView::Format,
            CalcError::NumberParse { token } => CalcErrorView::NumberParse { token: token@ },
            CalcError::UnsupportedOperator { token } => CalcErrorView::UnsupportedOperator {
                token: token@,
            },
            CalcError::DivisionByZero => CalcErrorView::DivisionByZero,
        }
    }
}

impl Clone for CalcError {
    fn clone(&self) -> (copy: CalcError)
        ensures
            copy@ == self@,
    {
        match self {
            CalcError::Format => CalcError::Format,
            CalcError::NumberParse { token } => CalcError::NumberParse { token: token.clone() },
            CalcError::UnsupportedOperator { token } => CalcError::UnsupportedOperator {
                token: token.clone(),
            },
            CalcError::DivisionByZero => CalcError::DivisionByZero,
        }
    }
}

impl CalcErrorView {
    /// The text that describes the error to a user.
    pub open spec fn message(self) -> Seq<char> {
        match self {
            CalcErrorView::Format => "Invalid format. Use: number operator number"@,
            CalcErrorView::NumberParse { token } => "'"@ + token + "' is not a valid number"@,
            CalcErrorView::UnsupportedOperator { token } => "'"@ + token
                + "' is not a supported operator"@,
            CalcErrorView::DivisionByZero => "Cannot divide by zero"@,
        }
    }
}

impl CalcError {
    /// Describes the error in one line, naming the offending field where
    /// there is one.
    pub fn message(&self) -> (text: String)
        ensures
            text@ == self@.message(),
    {
        match self {
            CalcError::Format => "Invalid format. Use: number operator number".to_owned(),
            CalcError::NumberParse { token } => {
                let mut text = "'".to_owned();
                text.append(token.as_str());
                text.append("' is not a valid number");
                text
            },
            CalcError::UnsupportedOperator { token } => {
                let mut text = "'".to_owned();
                text.append(token.as_str());
                text.append("' is not a supported operator");
                text
            },
            CalcError::DivisionByZero => "Cannot divide by zero".to_owned(),
        }
    }
}

} // verus!
