//! Looking at the token under a position. Nothing here moves a position:
//! the caller advances once a check has passed.

use crate::error::{ErrorView, Expected, ParseError};
use crate::grammar::{at, closing_brace, mismatch, no_alternative, sym_at, unexpected};
use crate::rule::Rule;
use crate::token::{tokens_view, Symbol, Token};
use vstd::prelude::*;

verus! {

/// Checks that a position is within `toks_len` tokens.
pub fn check_pos(pos: usize, toks_len: usize) -> (r: Result<(), ParseError>)
    ensures
        r is Ok <==> pos < toks_len,
        r matches Err(e) ==> e@ == ErrorView::PositionOutOfRange,
{
    if pos >= toks_len {
        Err(ParseError::PositionOutOfRange)
    } else {
        Ok(())
    }
}

/// The symbol at the position, if a symbol is there.
pub fn symbol_at(toks: &[Token], pos: usize) -> (s: Option<Symbol>)
    ensures
        s == sym_at(tokens_view(toks@), pos as int),
{
    if pos < toks.len() {
        toks[pos].symbol()
    } else {
        None
    }
}

/// Whether the given symbol is at the position.
pub fn is_symbol(toks: &[Token], pos: usize, expect: Symbol) -> (b: bool)
    ensures
        b == at(tokens_view(toks@), pos as int, expect),
        b ==> pos < toks.len(),
{
    match symbol_at(toks, pos) {
        Some(s) => s == expect,
        None => false,
    }
}

/// Checks that the given symbol is at the position.
pub fn check_tok(pos: usize, toks: &[Token], expect: Symbol) -> (r: Result<(), ParseError>)
    ensures
        r is Ok <==> at(tokens_view(toks@), pos as int, expect),
        r is Ok ==> pos < toks.len(),
        r matches Err(e) ==> e@ == mismatch(tokens_view(toks@), pos as int, expect),
{
    if pos >= toks.len() {
        return Err(ParseError::PositionOutOfRange);
    }
    if is_symbol(toks, pos, expect) {
        Ok(())
    } else {
        Err(
            ParseError::UnexpectedToken {
                expected: Expected::Symbol(expect),
                found: toks[pos].duplicate(),
                position: pos,
            },
        )
    }
}

/// The failure of a production at a token that cannot start it.
pub fn error_handler(expect: Rule, toks: &[Token], pos: usize) -> (e: ParseError)
    requires
        pos < toks.len(),
    ensures
        e@ == unexpected(tokens_view(toks@), pos as int, expect),
{
    ParseError::UnexpectedToken {
        expected: Expected::Rule(expect),
        found: toks[pos].duplicate(),
        position: pos,
    }
}

/// The failure of every alternative of a production.
pub fn no_viable(rule: Rule, pos: usize) -> (e: ParseError)
    ensures
        e@ == no_alternative(rule, pos as int),
{
    ParseError::NoViableAlternative { rule, position: pos }
}

/// The position after the `}` that closes a braced list, which a single
/// comma may precede.
pub fn check_closing_brace(toks: &[Token], pos: usize) -> (r: Result<usize, ParseError>)
    ensures
        match closing_brace(tokens_view(toks@), pos as int) {
            Ok(end) => r matches Ok(got) && got == end && pos < got <= toks.len(),
            Err(e) => r matches Err(got) && got@ == e,
        },
{
    if is_symbol(toks, pos, Symbol::RBrace) {
        return Ok(pos + 1);
    }
    if !is_symbol(toks, pos, Symbol::Comma) {
        return match check_tok(pos, toks, Symbol::RBrace) {
            Ok(_) => Ok(pos + 1),
            Err(e) => Err(e),
        };
    }
    match check_tok(pos + 1, toks, Symbol::RBrace) {
        Ok(_) => Ok(pos + 2),
        Err(e) => Err(e),
    }
}

} // verus!
