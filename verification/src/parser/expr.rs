//! Parsers for expressions.

use crate::ast::{
    ConstantType, Kind, NodeType, NodeView, ParseNode, one_node, three_nodes, two_nodes, typed,
};
use crate::cursor::{
    check_closing_brace, check_pos, check_tok, error_handler, is_symbol, no_viable, symbol_at,
};
use crate::error::ParseError;
use crate::grammar::expr::{
    argument_expression_list, assignment_expression, assignment_operator, assignment_parts,
    byte_length, cast_expression, conditional_expression, constant, constant_expression,
    enumeration_constant, expression, generic_assoc_list, generic_association, generic_selection,
    identifier, is_assignment_operator, is_condition_type, none_type, parenthesized_type_name,
    postfix_expression, postfix_expression_post, postfix_type, primary_expression, string,
    string_type, unary_expression, unary_operator, unary_symbol, unary_type,
};
use crate::grammar::{
    ListTyping, Parsed, advances, binary_level, list_type, parsed_view, repeated_tail, well_typed,
};
use crate::parser::decl::{p_initializer_list, p_type_name};
use crate::parser::{list_type_of, p_binary_level, p_repeated_tail, p_separated_list, wrap_parsed};
use crate::rule::{Rule, rank};
use crate::sema::{implicit_type_cast, judge_cast, judge_type_same};
use crate::token::{Symbol, Token, tokens_view};
use crate::types::{BaseType, TypeExpression, one_type, push_type};
use vstd::prelude::*;

verus! {

/// Parses an identifier at `pos`.
///
/// identifier: IDENTIFIER
pub fn p_identifier(toks: &[Token], pos: usize) -> (r: Parsed)
    ensures
        parsed_view(r) == identifier(tokens_view(toks@), pos as int),
        advances(r, toks.len(), pos),
        well_typed(r),
{
    check_pos(pos, toks.len())?;
    match &toks[pos] {
        Token::Identifier(name) => {
            let node = ParseNode::leaf(
                NodeType::Identifier(name.clone()),
                TypeExpression::new_val(BaseType::Identifier(name.clone())),
            );
            Ok((node, pos + 1))
        },
        _ => Err(error_handler(Rule::Identifier, toks, pos)),
    }
}

/// Parses a constant at `pos`.
///
/// constant: an integer, a floating or an enumeration constant. An integer
/// constant is a `long`, whatever its value.
pub fn p_constant(toks: &[Token], pos: usize) -> (r: Parsed)
    ensures
        parsed_view(r) == constant(tokens_view(toks@), pos as int),
        advances(r, toks.len(), pos),
        well_typed(r),
{
    check_pos(pos, toks.len())?;
    match &toks[pos] {
        Token::IntConstant(v) => {
            let node = ParseNode::leaf(
                NodeType::Constant(ConstantType::Integer(*v)),
                TypeExpression::new_val(BaseType::Long),
            );
            Ok((node, pos + 1))
        },
        Token::FloatConstant(bits) => {
            let node = ParseNode::leaf(
                NodeType::Constant(ConstantType::Floating(*bits)),
                TypeExpression::new_val(BaseType::Double),
            );
            Ok((node, pos + 1))
        },
        Token::EnumConstant(name) => {
            let node = ParseNode::leaf(
                NodeType::Constant(ConstantType::Enumeration(name.clone())),
                TypeExpression::new_val(BaseType::Long),
            );
            Ok((node, pos + 1))
        },
        _ => Err(error_handler(Rule::Constant, toks, pos)),
    }
}

/// Parses an enumeration-constant at `pos`.
///
/// enumeration-constant: IDENTIFIER, where an enumerator is declared.
pub fn p_enumeration_constant(toks: &[Token], pos: usize) -> (r: Parsed)
    ensures
        parsed_view(r) == enumeration_constant(tokens_view(toks@), pos as int),
        advances(r, toks.len(), pos),
        well_typed(r),
{
    check_pos(pos, toks.len())?;
    match &toks[pos] {
        Token::Identifier(name) => {
            let node = ParseNode::leaf(
                NodeType::EnumerationConstant(name.clone()),
                TypeExpression::new_val(BaseType::Identifier(name.clone())),
            );
            Ok((node, pos + 1))
        },
        _ => Err(error_handler(Rule::EnumerationConstant, toks, pos)),
    }
}

/// Parses a string-literal at `pos`.
///
/// string: a string literal, or `__func__`, for which a fixed text stands.
/// Its type is an array of characters, as long as the text has bytes.
pub fn p_string(toks: &[Token], pos: usize) -> (r: Parsed)
    ensures
        parsed_view(r) == string(tokens_view(toks@), pos as int),
        advances(r, toks.len(), pos),
        well_typed(r),
{
    check_pos(pos, toks.len())?;
    match &toks[pos] {
        Token::StringLiteral(text, _) => Ok((string_node(text.clone()), pos + 1)),
        Token::Symbol(Symbol::FuncName) => Ok(
            (string_node(String::from_str("__func_name__")), pos + 1),
        ),
        _ => Err(error_handler(Rule::StringLiteral, toks, pos)),
    }
}

/// Parses a primary-expression at `pos`.
///
/// primary-expression: identifier | constant | string | '(' expression ')'
/// | generic-selection
pub fn p_primary_expression(toks: &[Token], pos: usize) -> (r: Parsed)
    ensures
        parsed_view(r) == primary_expression(tokens_view(toks@), pos as int),
        advances(r, toks.len(), pos),
        well_typed(r),
    decreases toks.len() - pos, rank(Rule::PrimaryExpression), 1int,
{
    check_pos(pos, toks.len())?;
    if let Ok((child, end)) = p_identifier(toks, pos) {
        return Ok((ParseNode::wrap(NodeType::PrimaryExpression, child), end));
    }
    if let Ok((child, end)) = p_constant(toks, pos) {
        return Ok((ParseNode::wrap(NodeType::PrimaryExpression, child), end));
    }
    if let Ok((child, end)) = p_string(toks, pos) {
        return Ok((ParseNode::wrap(NodeType::PrimaryExpression, child), end));
    }
    if is_symbol(toks, pos, Symbol::LParen) {
        let (inner, p) = p_expression(toks, pos + 1)?;
        check_tok(p, toks, Symbol::RParen)?;
        return Ok((ParseNode::wrap(NodeType::PrimaryExpression, inner), p + 1));
    }
    match p_generic_selection(toks, pos) {
        Ok((inner, p)) => Ok((ParseNode::wrap(NodeType::PrimaryExpression, inner), p)),
        Err(_) => Err(no_viable(Rule::PrimaryExpression, pos)),
    }
}

/// Parses a generic-selection at `pos`.
///
/// generic-selection: '_Generic' '(' assignment-expression ','
/// generic-assoc-list ')'
pub fn p_generic_selection(toks: &[Token], pos: usize) -> (r: Parsed)
    ensures
        parsed_view(r) == generic_selection(tokens_view(toks@), pos as int),
        advances(r, toks.len(), pos),
        well_typed(r),
    decreases toks.len() - pos, rank(Rule::GenericSelection), 1int,
{
    check_tok(pos, toks, Symbol::Generic)?;
    check_tok(pos + 1, toks, Symbol::LParen)?;
    let (control, p) = p_assignment_expression(toks, pos + 2)?;
    check_tok(p, toks, Symbol::Comma)?;
    let (list, q) = p_generic_assoc_list(toks, p + 1)?;
    check_tok(q, toks, Symbol::RParen)?;
    let ty = TypeExpression::pair(control.type_of(), list.type_of());
    Ok((ParseNode::binary(NodeType::GenericSelection, control, list, ty), q + 1))
}

/// Parses a generic-assoc-list at `pos`.
///
/// generic-assoc-list: generic-association { ',' generic-association }
pub fn p_generic_assoc_list(toks: &[Token], pos: usize) -> (r: Parsed)
    ensures
        parsed_view(r) == generic_assoc_list(tokens_view(toks@), pos as int),
        advances(r, toks.len(), pos),
        well_typed(r),
    decreases toks.len() - pos, rank(Rule::GenericAssocList), 1int,
{
    p_separated_list(
        toks,
        pos,
        NodeType::GenericAssocList,
        Rule::GenericAssociation,
        ListTyping::Composite,
    )
}

/// Parses a generic-association at `pos`.
///
/// generic-association: type-name ':' assignment-expression
/// | 'default' ':' assignment-expression
pub fn p_generic_association(toks: &[Token], pos: usize) -> (r: Parsed)
    ensures
        parsed_view(r) == generic_association(tokens_view(toks@), pos as int),
        advances(r, toks.len(), pos),
        well_typed(r),
    decreases toks.len() - pos, rank(Rule::GenericAssociation), 1int,
{
    check_pos(pos, toks.len())?;
    match p_type_name(toks, pos) {
        Ok((name, p)) => {
            check_tok(p, toks, Symbol::Colon)?;
            let (value, q) = p_assignment_expression(toks, p + 1)?;
            let ty = value.type_of();
            Ok((ParseNode::binary(NodeType::GenericAssociation, name, value, ty), q))
        },
        Err(_) => {
            if !is_symbol(toks, pos, Symbol::Default) {
                return Err(no_viable(Rule::GenericAssociation, pos));
            }
            check_tok(pos + 1, toks, Symbol::Colon)?;
            wrap_parsed(NodeType::GenericAssociation, p_assignment_expression(toks, pos + 2))
        },
    }
}

/// Parses a postfix-expression at `pos`.
///
/// postfix-expression: primary-expression { suffix }
/// | '(' type-name ')' '{' initializer-list [','] '}' { suffix }
pub fn p_postfix_expression(toks: &[Token], pos: usize) -> (r: Parsed)
    ensures
        parsed_view(r) == postfix_expression(tokens_view(toks@), pos as int),
        advances(r, toks.len(), pos),
        well_typed(r),
    decreases toks.len() - pos, rank(Rule::PostfixExpression), 1int,
{
    check_pos(pos, toks.len())?;
    match p_primary_expression(toks, pos) {
        Ok((first, p)) => Ok(p_suffixes(toks, p, first)),
        Err(_) => {
            if !is_symbol(toks, pos, Symbol::LParen) {
                return Err(no_viable(Rule::PostfixExpression, pos));
            }
            let (name, e1) = p_type_name(toks, pos + 1)?;
            check_tok(e1, toks, Symbol::RParen)?;
            check_tok(e1 + 1, toks, Symbol::LBrace)?;
            let (list, e2) = p_initializer_list(toks, e1 + 2)?;
            let e3 = check_closing_brace(toks, e2)?;
            Ok(p_literal_suffixes(toks, e3, name, list))
        },
    }
}

/// Parses a postfix-expression-post at `pos`.
///
/// One suffix of a postfix expression: '[' expression ']' | '(' ')'
/// | '(' argument-expression-list ')' | '.' identifier | '->' identifier
/// | '++' | '--'
pub fn p_postfix_expression_post(toks: &[Token], pos: usize) -> (r: Parsed)
    ensures
        parsed_view(r) == postfix_expression_post(tokens_view(toks@), pos as int),
        advances(r, toks.len(), pos),
        well_typed(r),
    decreases toks.len() - pos, rank(Rule::PostfixExpressionPost), 1int,
{
    check_pos(pos, toks.len())?;
    match symbol_at(toks, pos) {
        Some(Symbol::LBracket) => {
            let (index, p) = p_expression(toks, pos + 1)?;
            check_tok(p, toks, Symbol::RBracket)?;
            Ok((ParseNode::wrap(NodeType::PostfixExpressionPost(Symbol::LBracket), index), p + 1))
        },
        Some(Symbol::LParen) => {
            if is_symbol(toks, pos + 1, Symbol::RParen) {
                return Ok(
                    (ParseNode::leaf(NodeType::PostfixExpressionPost(Symbol::LParen), none()), pos + 2),
                );
            }
            let (args, p) = p_argument_expression_list(toks, pos + 1)?;
            check_tok(p, toks, Symbol::RParen)?;
            Ok((ParseNode::wrap(NodeType::PostfixExpressionPost(Symbol::LParen), args), p + 1))
        },
        Some(Symbol::Dot) => wrap_parsed(
            NodeType::PostfixExpressionPost(Symbol::Dot),
            p_identifier(toks, pos + 1),
        ),
        Some(Symbol::Arrow) => wrap_parsed(
            NodeType::PostfixExpressionPost(Symbol::Arrow),
            p_identifier(toks, pos + 1),
        ),
        Some(Symbol::Increment) => Ok(
            (ParseNode::leaf(NodeType::PostfixExpressionPost(Symbol::Increment), none()), pos + 1),
        ),
        Some(Symbol::Decrement) => Ok(
            (ParseNode::leaf(NodeType::PostfixExpressionPost(Symbol::Decrement), none()), pos + 1),
        ),
        _ => Err(error_handler(Rule::PostfixExpressionPost, toks, pos)),
    }
}

/// Parses an argument-expression-list at `pos`.
///
/// argument-expression-list: assignment-expression
/// { ',' assignment-expression }
pub fn p_argument_expression_list(toks: &[Token], pos: usize) -> (r: Parsed)
    ensures
        parsed_view(r) == argument_expression_list(tokens_view(toks@), pos as int),
        advances(r, toks.len(), pos),
        well_typed(r),
    decreases toks.len() - pos, rank(Rule::ArgumentExpressionList), 1int,
{
    p_separated_list(
        toks,
        pos,
        NodeType::ArgumentExpressionList,
        Rule::AssignmentExpression,
        ListTyping::Flatten,
    )
}

/// Parses an unary-expression at `pos`.
///
/// unary-expression: postfix-expression | '++' unary-expression
/// | '--' unary-expression | unary-operator cast-expression
/// | 'sizeof' '(' type-name ')' | 'sizeof' unary-expression
/// | '_Alignof' '(' type-name ')'
pub fn p_unary_expression(toks: &[Token], pos: usize) -> (r: Parsed)
    ensures
        parsed_view(r) == unary_expression(tokens_view(toks@), pos as int),
        advances(r, toks.len(), pos),
        well_typed(r),
    decreases toks.len() - pos, rank(Rule::UnaryExpression), 1int,
{
    check_pos(pos, toks.len())?;
    match symbol_at(toks, pos) {
        Some(Symbol::Increment) => wrap_parsed(
            NodeType::UnaryExpression(Some(Symbol::Increment)),
            p_unary_expression(toks, pos + 1),
        ),
        Some(Symbol::Decrement) => wrap_parsed(
            NodeType::UnaryExpression(Some(Symbol::Decrement)),
            p_unary_expression(toks, pos + 1),
        ),
        Some(Symbol::Sizeof) => {
            let (operand, p) = match p_parenthesized_type_name(toks, pos + 1) {
                Ok(found) => found,
                Err(_) => p_unary_expression(toks, pos + 1)?,
            };
            let node = ParseNode::unary(
                NodeType::UnaryExpression(Some(Symbol::Sizeof)),
                operand,
                TypeExpression::new_val(BaseType::SizeT),
            );
            Ok((node, p))
        },
        Some(Symbol::Alignof) => {
            let (name, p) = p_parenthesized_type_name(toks, pos + 1)?;
            let node = ParseNode::unary(
                NodeType::UnaryExpression(Some(Symbol::Alignof)),
                name,
                TypeExpression::new_val(BaseType::SizeT),
            );
            Ok((node, p))
        },
        _ => match unary_operator_at(toks, pos) {
            Some(op) => {
                let (operand, p) = p_cast_expression(toks, pos + 1)?;
                let ty = unary_type_of(op, &operand);
                let operator = ParseNode::leaf(NodeType::UnaryOperator(op), none());
                Ok((ParseNode::binary(NodeType::UnaryExpression(None), operator, operand, ty), p))
            },
            None => match p_postfix_expression(toks, pos) {
                Ok((inner, p)) => Ok((ParseNode::wrap(NodeType::UnaryExpression(None), inner), p)),
                Err(_) => Err(no_viable(Rule::UnaryExpression, pos)),
            },
        },
    }
}

/// Parses an unary-operator at `pos`.
///
/// unary-operator: '&' | '*' | '+' | '-' | '~' | '!'
pub fn p_unary_operator(toks: &[Token], pos: usize) -> (r: Parsed)
    ensures
        parsed_view(r) == unary_operator(tokens_view(toks@), pos as int),
        advances(r, toks.len(), pos),
        well_typed(r),
{
    check_pos(pos, toks.len())?;
    match unary_operator_at(toks, pos) {
        Some(s) => Ok((ParseNode::leaf(NodeType::UnaryOperator(s), none()), pos + 1)),
        None => Err(error_handler(Rule::UnaryOperator, toks, pos)),
    }
}

/// Parses a cast-expression at `pos`.
///
/// cast-expression: unary-expression | '(' type-name ')' cast-expression.
/// The cast fails where the rules do not allow it.
pub fn p_cast_expression(toks: &[Token], pos: usize) -> (r: Parsed)
    ensures
        parsed_view(r) == cast_expression(tokens_view(toks@), pos as int),
        advances(r, toks.len(), pos),
        well_typed(r),
    decreases toks.len() - pos, rank(Rule::CastExpression), 1int,
{
    check_pos(pos, toks.len())?;
    if let Ok((inner, p)) = p_unary_expression(toks, pos) {
        return Ok((ParseNode::wrap(NodeType::CastExpression, inner), p));
    }
    let (target, p) = match p_parenthesized_type_name(toks, pos) {
        Ok(found) => found,
        Err(e) => {
            if is_symbol(toks, pos, Symbol::LParen) {
                return Err(e);
            }
            return Err(no_viable(Rule::CastExpression, pos));
        },
    };
    let (operand, q) = p_cast_expression(toks, p)?;
    if !judge_cast(target.ty(), operand.ty()) {
        return Err(ParseError::IllegalCast { from: operand.type_of(), to: target.type_of() });
    }
    let ty = target.type_of();
    Ok((ParseNode::binary(NodeType::CastExpression, target, operand, ty), q))
}

/// Parses a multiplicative-expression at `pos`.
///
/// multiplicative-expression: cast-expression
/// { ('*' | '/' | '%') cast-expression }. The operators group to the left.
pub fn p_multiplicative_expression(toks: &[Token], pos: usize) -> (r: Parsed)
    ensures
        parsed_view(r) == binary_level(Rule::MultiplicativeExpression, tokens_view(toks@), pos as int),
        advances(r, toks.len(), pos),
        well_typed(r),
    decreases toks.len() - pos, rank(Rule::MultiplicativeExpression), 1int,
{
    p_binary_level(toks, pos, Rule::MultiplicativeExpression)
}

/// Parses an additive-expression at `pos`.
///
/// additive-expression: multiplicative-expression
/// { ('+' | '-') multiplicative-expression }. The operators group to the left.
pub fn p_additive_expression(toks: &[Token], pos: usize) -> (r: Parsed)
    ensures
        parsed_view(r) == binary_level(Rule::AdditiveExpression, tokens_view(toks@), pos as int),
        advances(r, toks.len(), pos),
        well_typed(r),
    decreases toks.len() - pos, rank(Rule::AdditiveExpression), 1int,
{
    p_binary_level(toks, pos, Rule::AdditiveExpression)
}

/// Parses a shift-expression at `pos`.
///
/// shift-expression: additive-expression
/// { ('<<' | '>>') additive-expression }. The operators group to the left.
pub fn p_shift_expression(toks: &[Token], pos: usize) -> (r: Parsed)
    ensures
        parsed_view(r) == binary_level(Rule::ShiftExpression, tokens_view(toks@), pos as int),
        advances(r, toks.len(), pos),
        well_typed(r),
    decreases toks.len() - pos, rank(Rule::ShiftExpression), 1int,
{
    p_binary_level(toks, pos, Rule::ShiftExpression)
}

/// Parses a relational-expression at `pos`.
///
/// relational-expression: shift-expression
/// { ('<' | '>' | '<=' | '>=') shift-expression }. The operators group to the left.
pub fn p_relational_expression(toks: &[Token], pos: usize) -> (r: Parsed)
    ensures
        parsed_view(r) == binary_level(Rule::RelationalExpression, tokens_view(toks@), pos as int),
        advances(r, toks.len(), pos),
        well_typed(r),
    decreases toks.len() - pos, rank(Rule::RelationalExpression), 1int,
{
    p_binary_level(toks, pos, Rule::RelationalExpression)
}

/// Parses an equality-expression at `pos`.
///
/// equality-expression: relational-expression
/// { ('==' | '!=') relational-expression }. The operators group to the left.
pub fn p_equality_expression(toks: &[Token], pos: usize) -> (r: Parsed)
    ensures
        parsed_view(r) == binary_level(Rule::EqualityExpression, tokens_view(toks@), pos as int),
        advances(r, toks.len(), pos),
        well_typed(r),
    decreases toks.len() - pos, rank(Rule::EqualityExpression), 1int,
{
    p_binary_level(toks, pos, Rule::EqualityExpression)
}

/// Parses an and-expression at `pos`.
///
/// and-expression: equality-expression { '&' equality-expression }. The operators group to the left.
pub fn p_and_expression(toks: &[Token], pos: usize) -> (r: Parsed)
    ensures
        parsed_view(r) == binary_level(Rule::AndExpression, tokens_view(toks@), pos as int),
        advances(r, toks.len(), pos),
        well_typed(r),
    decreases toks.len() - pos, rank(Rule::AndExpression), 1int,
{
    p_binary_level(toks, pos, Rule::AndExpression)
}

/// Parses an exclusive-or-expression at `pos`.
///
/// exclusive-or-expression: and-expression { '^' and-expression }. The operators group to the left.
pub fn p_exclusive_or_expression(toks: &[Token], pos: usize) -> (r: Parsed)
    ensures
        parsed_view(r) == binary_level(Rule::ExclusiveOrExpression, tokens_view(toks@), pos as int),
        advances(r, toks.len(), pos),
        well_typed(r),
    decreases toks.len() - pos, rank(Rule::ExclusiveOrExpression), 1int,
{
    p_binary_level(toks, pos, Rule::ExclusiveOrExpression)
}

/// Parses an inclusive-or-expression at `pos`.
///
/// inclusive-or-expression: exclusive-or-expression
/// { '|' exclusive-or-expression }. The operators group to the left.
pub fn p_inclusive_or_expression(toks: &[Token], pos: usize) -> (r: Parsed)
    ensures
        parsed_view(r) == binary_level(Rule::InclusiveOrExpression, tokens_view(toks@), pos as int),
        advances(r, toks.len(), pos),
        well_typed(r),
    decreases toks.len() - pos, rank(Rule::InclusiveOrExpression), 1int,
{
    p_binary_level(toks, pos, Rule::InclusiveOrExpression)
}

/// Parses a logical-and-expression at `pos`.
///
/// logical-and-expression: inclusive-or-expression
/// { '&&' inclusive-or-expression }. The operators group to the left.
pub fn p_logical_and_expression(toks: &[Token], pos: usize) -> (r: Parsed)
    ensures
        parsed_view(r) == binary_level(Rule::LogicalAndExpression, tokens_view(toks@), pos as int),
        advances(r, toks.len(), pos),
        well_typed(r),
    decreases toks.len() - pos, rank(Rule::LogicalAndExpression), 1int,
{
    p_binary_level(toks, pos, Rule::LogicalAndExpression)
}

/// Parses a logical-or-expression at `pos`.
///
/// logical-or-expression: logical-and-expression
/// { '||' logical-and-expression }. The operators group to the left.
pub fn p_logical_or_expression(toks: &[Token], pos: usize) -> (r: Parsed)
    ensures
        parsed_view(r) == binary_level(Rule::LogicalOrExpression, tokens_view(toks@), pos as int),
        advances(r, toks.len(), pos),
        well_typed(r),
    decreases toks.len() - pos, rank(Rule::LogicalOrExpression), 1int,
{
    p_binary_level(toks, pos, Rule::LogicalOrExpression)
}

/// Parses a conditional-expression at `pos`.
///
/// conditional-expression: logical-or-expression
/// | logical-or-expression '?' expression ':' conditional-expression.
/// Without `?` the type is that of the operand. With it, the condition must
/// have a condition type and the two branches the same type, which is the
/// type of the whole.
pub fn p_conditional_expression(toks: &[Token], pos: usize) -> (r: Parsed)
    ensures
        parsed_view(r) == conditional_expression(tokens_view(toks@), pos as int),
        advances(r, toks.len(), pos),
        well_typed(r),
    decreases toks.len() - pos, rank(Rule::ConditionalExpression), 1int,
{
    check_pos(pos, toks.len())?;
    let (condition, p) = p_logical_or_expression(toks, pos)?;
    if !is_symbol(toks, p, Symbol::Question) {
        return Ok((ParseNode::wrap(NodeType::ConditionalExpression, condition), p));
    }
    if !condition_type(condition.ty()) {
        return Err(
            ParseError::IllegalTypeCombination {
                left: condition.type_of(),
                right: TypeExpression::new_val(BaseType::Int),
                operator: Symbol::Question,
            },
        );
    }
    let (first, e1) = p_expression(toks, p + 1)?;
    check_tok(e1, toks, Symbol::Colon)?;
    let (second, q) = p_conditional_expression(toks, e1 + 1)?;
    if !judge_type_same(first.ty(), second.ty()) {
        return Err(
            ParseError::IllegalTypeCombination {
                left: first.type_of(),
                right: second.type_of(),
                operator: Symbol::Colon,
            },
        );
    }
    let ty = second.type_of();
    let children = three_nodes(condition, first, second);
    Ok((ParseNode::of(NodeType::ConditionalExpression, children, ty), q))
}

/// Parses an assignment-expression at `pos`.
///
/// assignment-expression: unary-expression assignment-operator
/// assignment-expression | conditional-expression. Where the three parts of
/// an assignment are there, it is an assignment: its type is what the right
/// side converts to, and it fails if the right side does not convert.
/// Otherwise it is a conditional expression, read from the same position.
pub fn p_assignment_expression(toks: &[Token], pos: usize) -> (r: Parsed)
    ensures
        parsed_view(r) == assignment_expression(tokens_view(toks@), pos as int),
        advances(r, toks.len(), pos),
        well_typed(r),
    decreases toks.len() - pos, rank(Rule::AssignmentExpression), 1int,
{
    check_pos(pos, toks.len())?;
    match p_assignment_parts(toks, pos) {
        Some((target, op, value, q)) => {
            let ty = implicit_type_cast(target.ty(), value.ty())?;
            let children = three_nodes(target, op, value);
            Ok((ParseNode::of(NodeType::AssignmentExpression, children, ty), q))
        },
        None => wrap_parsed(NodeType::AssignmentExpression, p_conditional_expression(toks, pos)),
    }
}

/// Parses an assignment-operator at `pos`.
///
/// assignment-operator: '=' | '*=' | '/=' | '%=' | '+=' | '-=' | '<<='
/// | '>>=' | '&=' | '^=' | '|='
pub fn p_assignment_operator(toks: &[Token], pos: usize) -> (r: Parsed)
    ensures
        parsed_view(r) == assignment_operator(tokens_view(toks@), pos as int),
        advances(r, toks.len(), pos),
        well_typed(r),
{
    check_pos(pos, toks.len())?;
    match symbol_at(toks, pos) {
        Some(s) => {
            if assignment_symbol(s) {
                Ok((ParseNode::leaf(NodeType::AssignmentOperator(s), none()), pos + 1))
            } else {
                Err(error_handler(Rule::AssignmentOperator, toks, pos))
            }
        },
        None => Err(error_handler(Rule::AssignmentOperator, toks, pos)),
    }
}

/// Parses an expression at `pos`.
///
/// expression: assignment-expression { ',' assignment-expression }. Its
/// type is that of the last operand.
pub fn p_expression(toks: &[Token], pos: usize) -> (r: Parsed)
    ensures
        parsed_view(r) == expression(tokens_view(toks@), pos as int),
        advances(r, toks.len(), pos),
        well_typed(r),
    decreases toks.len() - pos, rank(Rule::Expression), 1int,
{
    p_separated_list(
        toks,
        pos,
        NodeType::Expression,
        Rule::AssignmentExpression,
        ListTyping::Rightmost,
    )
}

/// Parses a constant-expression at `pos`.
///
/// constant-expression: conditional-expression
pub fn p_constant_expression(toks: &[Token], pos: usize) -> (r: Parsed)
    ensures
        parsed_view(r) == constant_expression(tokens_view(toks@), pos as int),
        advances(r, toks.len(), pos),
        well_typed(r),
    decreases toks.len() - pos, rank(Rule::ConstantExpression), 1int,
{
    check_pos(pos, toks.len())?;
    wrap_parsed(NodeType::ConstantExpression, p_conditional_expression(toks, pos))
}

/// The type of what has no value.
pub fn none() -> (t: TypeExpression)
    ensures
        t@ == none_type(),
        !t@.is_empty(),
{
    TypeExpression::new_val(BaseType::NoneExpression)
}

/// The node of a string with the given text: an array of characters, as
/// long as the text has bytes.
pub fn string_node(text: String) -> (n: ParseNode)
    ensures
        n@ == NodeView::leaf(Kind::StringLiteral(text@), string_type(byte_length(text@))),
        typed(n@),
{
    let len = text.as_str().as_bytes().len();
    ParseNode::leaf(
        NodeType::StringLiteral(text),
        TypeExpression::new_val2(BaseType::Array(len as u64), BaseType::Char),
    )
}

/// The unary operator at the position, if one is there.
pub fn unary_operator_at(toks: &[Token], pos: usize) -> (op: Option<Symbol>)
    ensures
        op == unary_symbol(tokens_view(toks@), pos as int),
        op is Some ==> pos < toks.len(),
{
    match symbol_at(toks, pos) {
        Some(s) => match s {
            Symbol::Ampersand
            | Symbol::Star
            | Symbol::Plus
            | Symbol::Minus
            | Symbol::Tilde
            | Symbol::Bang => Some(s),
            _ => None,
        },
        None => None,
    }
}

/// The type of a unary operator applied to the operand.
pub fn unary_type_of(op: Symbol, operand: &ParseNode) -> (t: TypeExpression)
    ensures
        t@ == unary_type(op, operand@.ty),
        typed(operand@) ==> !t@.is_empty(),
{
    match op {
        Symbol::Ampersand => {
            let mut parts: Vec<TypeExpression> = Vec::new();
            push_type(&mut parts, operand.type_of());
            proof {
                assert(crate::types::types_view(parts@) =~= seq![operand@.ty]);
            }
            TypeExpression::tagged(BaseType::Pointer, parts)
        },
        Symbol::Star => TypeExpression::new_val2(BaseType::Pointer, BaseType::VoidPointer),
        _ => operand.type_of(),
    }
}

/// Whether the symbol is an assignment operator.
pub fn assignment_symbol(s: Symbol) -> (b: bool)
    ensures
        b == is_assignment_operator(s),
{
    match s {
        Symbol::Assign
        | Symbol::MulAssign
        | Symbol::DivAssign
        | Symbol::ModAssign
        | Symbol::AddAssign
        | Symbol::SubAssign
        | Symbol::ShlAssign
        | Symbol::ShrAssign
        | Symbol::AndAssign
        | Symbol::XorAssign
        | Symbol::OrAssign => true,
        _ => false,
    }
}

/// Whether a value of the type can be the condition of `?:`.
pub fn condition_type(t: &TypeExpression) -> (b: bool)
    ensures
        b == is_condition_type(t@),
{
    judge_type_same(t, &TypeExpression::new_val(BaseType::Int)) || judge_type_same(
        t,
        &TypeExpression::new_val(BaseType::Bool),
    ) || judge_type_same(t, &TypeExpression::new_val(BaseType::Long)) || judge_type_same(
        t,
        &TypeExpression::new_val(BaseType::Signed),
    ) || judge_type_same(t, &TypeExpression::new_val(BaseType::Unsigned)) || judge_type_same(
        t,
        &TypeExpression::new_val(BaseType::Char),
    )
}

/// Parses '(' type-name ')' at `pos`: the type name, and the position after
/// the parenthesis.
pub fn p_parenthesized_type_name(toks: &[Token], pos: usize) -> (r: Parsed)
    ensures
        parsed_view(r) == parenthesized_type_name(tokens_view(toks@), pos as int),
        advances(r, toks.len(), pos),
        well_typed(r),
    decreases toks.len() - pos, rank(Rule::UnaryExpression), 0int,
{
    check_tok(pos, toks, Symbol::LParen)?;
    let (name, p) = p_type_name(toks, pos + 1)?;
    check_tok(p, toks, Symbol::RParen)?;
    Ok((name, p + 1))
}

/// The value of the parts of an assignment.
pub open spec fn parts_view(r: Option<(ParseNode, ParseNode, ParseNode, usize)>) -> Option<
    (NodeView, NodeView, NodeView, int),
> {
    match r {
        Some((target, op, value, end)) => Some((target@, op@, value@, end as int)),
        None => None,
    }
}

/// Reads the three parts of an assignment at `pos`, if all three are there.
pub fn p_assignment_parts(toks: &[Token], pos: usize) -> (r: Option<
    (ParseNode, ParseNode, ParseNode, usize),
>)
    ensures
        parts_view(r) == assignment_parts(tokens_view(toks@), pos as int),
        r matches Some((_, _, _, end)) ==> pos < end <= toks.len(),
        r matches Some((target, op, value, _)) ==> typed(target@) && typed(op@) && typed(value@),
    decreases toks.len() - pos, rank(Rule::AssignmentExpression), 0int,
{
    let (target, p) = match p_unary_expression(toks, pos) {
        Ok(found) => found,
        Err(_) => return None,
    };
    let (op, _) = match p_assignment_operator(toks, p) {
        Ok(found) => found,
        Err(_) => return None,
    };
    match p_assignment_expression(toks, p + 1) {
        Ok((value, q)) => Some((target, op, value, q)),
        Err(_) => None,
    }
}

/// Reads the suffixes that follow a primary expression, from `pos` on, and
/// makes the postfix expression over the primary expression and them.
pub fn p_suffixes(toks: &[Token], pos: usize, first: ParseNode) -> (r: (ParseNode, usize))
    requires
        pos <= toks.len(),
    ensures
        ({
            let (items, end) = repeated_tail(
                Rule::PostfixExpressionPost,
                tokens_view(toks@),
                seq![first@],
                pos as int,
            );
            r.0@ == NodeView::of(
                Kind::PostfixExpression,
                items,
                postfix_type(first@.ty, items.len()),
            ) && r.1 == end
        }),
        pos <= r.1 <= toks.len(),
        typed(first@) ==> typed(r.0@),
    decreases toks.len() - pos, rank(Rule::PostfixExpressionPost), 4int,
{
    let primary = first.type_of();
    let mut items = one_node(first);
    let end = p_repeated_tail(toks, pos, Rule::PostfixExpressionPost, &mut items);
    let ty = if items.len() == 1 {
        primary
    } else {
        TypeExpression::composite(one_type(primary))
    };
    (ParseNode::of(NodeType::PostfixExpression, items, ty), end)
}

/// Reads the suffixes that follow a compound literal, from `pos` on, and
/// makes the postfix expression over the type name, the initializer list
/// and them.
pub fn p_literal_suffixes(toks: &[Token], pos: usize, name: ParseNode, list: ParseNode) -> (r: (
    ParseNode,
    usize,
))
    requires
        pos <= toks.len(),
    ensures
        ({
            let (items, end) = repeated_tail(
                Rule::PostfixExpressionPost,
                tokens_view(toks@),
                seq![name@, list@],
                pos as int,
            );
            r.0@ == NodeView::of(
                Kind::PostfixExpression,
                items,
                list_type(ListTyping::Composite, items),
            ) && r.1 == end
        }),
        pos <= r.1 <= toks.len(),
        typed(name@) && typed(list@) ==> typed(r.0@),
    decreases toks.len() - pos, rank(Rule::PostfixExpressionPost), 4int,
{
    let mut items = two_nodes(name, list);
    let end = p_repeated_tail(toks, pos, Rule::PostfixExpressionPost, &mut items);
    let ty = list_type_of(ListTyping::Composite, &items);
    (ParseNode::of(NodeType::PostfixExpression, items, ty), end)
}

} // verus!
