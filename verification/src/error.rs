//! Why a parse failed.

use crate::rule::Rule;
use crate::token::{Symbol, Token, TokenView};
use crate::types::{TypeExpression, TypeView};
use vstd::prelude::*;

verus! {

/// What a production wanted to see at a position.
#[derive(Clone, Copy, PartialEq, Eq, Structural, Debug)]
pub enum Expected {
    /// This very symbol.
    Symbol(Symbol),
    /// A token that can start the production.
    Rule(Rule),
}

/// A failed parse.
#[derive(PartialEq, Eq, Debug)]
pub enum ParseError {
    /// The position is at or past the end of the tokens.
    PositionOutOfRange,
    /// The token at the position is not the one wanted.
    UnexpectedToken { expected: Expected, found: Token, position: usize },
    /// None of the production's alternatives matches at the position.
    NoViableAlternative { rule: Rule, position: usize },
    /// The operator does not apply to operands of these types.
    IllegalTypeCombination { left: TypeExpression, right: TypeExpression, operator: Symbol },
    /// A value of the one type cannot be cast to the other.
    IllegalCast { from: TypeExpression, to: TypeExpression },
    /// The right side cannot be assigned to the left side.
    IllegalAssignment { left: TypeExpression, right: TypeExpression },
    /// The construct at the position is not supported.
    UnsupportedFeature { position: usize },
    /// Tokens are left over from the position on; names the source.
    TrailingTokens { source: String, position: usize },
}

/// The mathematical value of a [`ParseError`].
pub ghost enum ErrorView {
    PositionOutOfRange,
    UnexpectedToken { expected: Expected, found: TokenView, position: int },
    NoViableAlternative { rule: Rule, position: int },
    IllegalTypeCombination { left: TypeView, right: TypeView, operator: Symbol },
    IllegalCast { from: TypeView, to: TypeView },
    IllegalAssignment { left: TypeView, right: TypeView },
    UnsupportedFeature { position: int },
    TrailingTokens { source: Seq<char>, position: int },
}

impl View for ParseError {
    type V = ErrorView;

    open spec fn view(&self) -> ErrorView {
        match *self {
            ParseError::PositionOutOfRange => ErrorView::PositionOutOfRange,
            ParseError::UnexpectedToken { expected, found, position } => ErrorView::UnexpectedToken {
                expected,
                found: found@,
                position: position as int,
            },
            ParseError::NoViableAlternative { rule, position } => ErrorView::NoViableAlternative {
                rule,
                position: position as int,
            },
            ParseError::IllegalTypeCombination { left, right, operator } => {
                ErrorView::IllegalTypeCombination { left: left@, right: right@, operator }
            },
            ParseError::IllegalCast { from, to } => ErrorView::IllegalCast { from: from@, to: to@ },
            ParseError::IllegalAssignment { left, right } => ErrorView::IllegalAssignment {
                left: left@,
                right: right@,
            },
            ParseError::UnsupportedFeature { position } => ErrorView::UnsupportedFeature {
                position: position as int,
            },
            ParseError::TrailingTokens { source, position } => ErrorView::TrailingTokens {
                source: source@,
                position: position as int,
            },
        }
    }
}

} // verus!
