//! Parsers for statements, function definitions and the translation unit.

use crate::ast::{
    Label, NodeType, NodeView, ParseNode, all_typed, four_nodes, nodes_view, three_nodes, typed,
};
use crate::cursor::{check_pos, check_tok, error_handler, is_symbol, no_viable, symbol_at};
use crate::error::{ErrorView, ParseError};
use crate::grammar::stmt::{
    block_item, block_item_list, compound_statement, condition, declaration_list,
    expression_statement, external_declaration, for_init, for_parts, for_tail,
    function_definition, iteration_statement, jump_statement, labeled_body, labeled_statement,
    selection_statement, statement, statement_body, translation_unit,
};
use crate::grammar::{ListTyping, Parsed, advances, parsed_view, well_typed};
use crate::parser::decl::{p_declaration, p_declaration_specifiers, p_declarator};
use crate::parser::expr::{none, p_constant_expression, p_expression};
use crate::parser::{p_repeated_list, wrap_parsed};
use crate::rule::{Rule, rank};
use crate::token::{Symbol, Token, tokens_view};
use crate::types::{BaseType, TypeExpression, four_types, three_types};
use vstd::prelude::*;

verus! {

/// Parses a statement at `pos`.
///
/// statement: labeled-statement | compound-statement | expression-statement
/// | selection-statement | iteration-statement | jump-statement. Its type is
/// that of the statement it is.
pub fn p_statement(toks: &[Token], pos: usize) -> (r: Parsed)
    ensures
        parsed_view(r) == statement(tokens_view(toks@), pos as int),
        advances(r, toks.len(), pos),
        well_typed(r),
    decreases toks.len() - pos, rank(Rule::Statement), 1int,
{
    check_pos(pos, toks.len())?;
    wrap_parsed(NodeType::Statement, p_statement_body(toks, pos))
}

/// Parses a labeled-statement at `pos`.
///
/// labeled-statement: identifier ':' statement
/// | 'case' constant-expression ':' statement | 'default' ':' statement
pub fn p_labeled_statement(toks: &[Token], pos: usize) -> (r: Parsed)
    ensures
        parsed_view(r) == labeled_statement(tokens_view(toks@), pos as int),
        advances(r, toks.len(), pos),
        well_typed(r),
    decreases toks.len() - pos, rank(Rule::LabeledStatement), 1int,
{
    check_pos(pos, toks.len())?;
    match &toks[pos] {
        Token::Identifier(name) => {
            let (body, q) = p_labeled_body(toks, pos + 1)?;
            let node = ParseNode::unary(
                NodeType::LabeledStatement(Label::Name(name.clone())),
                body,
                none(),
            );
            Ok((node, q))
        },
        Token::Symbol(Symbol::Case) => {
            let (value, p) = p_constant_expression(toks, pos + 1)?;
            let (body, q) = p_labeled_body(toks, p)?;
            let node = ParseNode::binary(
                NodeType::LabeledStatement(Label::Case),
                value,
                body,
                none(),
            );
            Ok((node, q))
        },
        Token::Symbol(Symbol::Default) => {
            let (body, q) = p_labeled_body(toks, pos + 1)?;
            let node = ParseNode::unary(NodeType::LabeledStatement(Label::Default), body, none());
            Ok((node, q))
        },
        _ => Err(error_handler(Rule::LabeledStatement, toks, pos)),
    }
}

/// Parses a compound-statement at `pos`.
///
/// compound-statement: '{' '}' | '{' block-item-list '}'
pub fn p_compound_statement(toks: &[Token], pos: usize) -> (r: Parsed)
    ensures
        parsed_view(r) == compound_statement(tokens_view(toks@), pos as int),
        advances(r, toks.len(), pos),
        well_typed(r),
    decreases toks.len() - pos, rank(Rule::CompoundStatement), 1int,
{
    check_tok(pos, toks, Symbol::LBrace)?;
    match p_block_item_list(toks, pos + 1) {
        Ok((items, p)) => {
            check_tok(p, toks, Symbol::RBrace)?;
            Ok((ParseNode::unary(NodeType::CompoundStatement, items, none()), p + 1))
        },
        Err(_) => {
            check_tok(pos + 1, toks, Symbol::RBrace)?;
            Ok((ParseNode::leaf(NodeType::CompoundStatement, none()), pos + 2))
        },
    }
}

/// Parses a block-item-list at `pos`.
///
/// block-item-list: block-item { block-item }
pub fn p_block_item_list(toks: &[Token], pos: usize) -> (r: Parsed)
    ensures
        parsed_view(r) == block_item_list(tokens_view(toks@), pos as int),
        advances(r, toks.len(), pos),
        well_typed(r),
    decreases toks.len() - pos, rank(Rule::BlockItemList), 1int,
{
    p_repeated_list(toks, pos, NodeType::BlockItemList, Rule::BlockItem, ListTyping::Flatten)
}

/// Parses a block-item at `pos`.
///
/// block-item: declaration | statement
pub fn p_block_item(toks: &[Token], pos: usize) -> (r: Parsed)
    ensures
        parsed_view(r) == block_item(tokens_view(toks@), pos as int),
        advances(r, toks.len(), pos),
        well_typed(r),
    decreases toks.len() - pos, rank(Rule::BlockItem), 1int,
{
    check_pos(pos, toks.len())?;
    if let Ok((inner, p)) = p_declaration(toks, pos) {
        return Ok((ParseNode::wrap(NodeType::BlockItem, inner), p));
    }
    match p_statement(toks, pos) {
        Ok((inner, p)) => Ok((ParseNode::wrap(NodeType::BlockItem, inner), p)),
        Err(_) => Err(no_viable(Rule::BlockItem, pos)),
    }
}

/// Parses an expression-statement at `pos`.
///
/// expression-statement: ';' | expression ';'
pub fn p_expression_statement(toks: &[Token], pos: usize) -> (r: Parsed)
    ensures
        parsed_view(r) == expression_statement(tokens_view(toks@), pos as int),
        advances(r, toks.len(), pos),
        well_typed(r),
    decreases toks.len() - pos, rank(Rule::ExpressionStatement), 1int,
{
    check_pos(pos, toks.len())?;
    if is_symbol(toks, pos, Symbol::Semicolon) {
        return Ok((ParseNode::leaf(NodeType::ExpressionStatement, none()), pos + 1));
    }
    let (value, p) = p_expression(toks, pos)?;
    check_tok(p, toks, Symbol::Semicolon)?;
    Ok((ParseNode::unary(NodeType::ExpressionStatement, value, none()), p + 1))
}

/// Parses a selection-statement at `pos`.
///
/// selection-statement: 'if' '(' expression ')' statement
/// [ 'else' statement ] | 'switch' '(' expression ')' statement
pub fn p_selection_statement(toks: &[Token], pos: usize) -> (r: Parsed)
    ensures
        parsed_view(r) == selection_statement(tokens_view(toks@), pos as int),
        advances(r, toks.len(), pos),
        well_typed(r),
    decreases toks.len() - pos, rank(Rule::SelectionStatement), 1int,
{
    check_pos(pos, toks.len())?;
    match symbol_at(toks, pos) {
        Some(Symbol::If) => {
            let (test, p) = p_condition(toks, pos + 1)?;
            let (first, q) = p_statement(toks, p)?;
            if !is_symbol(toks, q, Symbol::Else) {
                let node = ParseNode::binary(
                    NodeType::SelectionStatement(Symbol::If),
                    test,
                    first,
                    none(),
                );
                return Ok((node, q));
            }
            let (second, r) = p_statement(toks, q + 1)?;
            let children = three_nodes(test, first, second);
            Ok((ParseNode::of(NodeType::SelectionStatement(Symbol::If), children, none()), r))
        },
        Some(Symbol::Switch) => {
            let (test, p) = p_condition(toks, pos + 1)?;
            let (body, q) = p_statement(toks, p)?;
            let node = ParseNode::binary(
                NodeType::SelectionStatement(Symbol::Switch),
                test,
                body,
                none(),
            );
            Ok((node, q))
        },
        _ => Err(error_handler(Rule::SelectionStatement, toks, pos)),
    }
}

/// Parses an iteration-statement at `pos`.
///
/// iteration-statement: 'while' '(' expression ')' statement
/// | 'do' statement 'while' '(' expression ')' ';'
/// | 'for' '(' expression-statement expression-statement [ expression ] ')'
/// statement
/// | 'for' '(' declaration expression-statement [ expression ] ')' statement
pub fn p_iteration_statement(toks: &[Token], pos: usize) -> (r: Parsed)
    ensures
        parsed_view(r) == iteration_statement(tokens_view(toks@), pos as int),
        advances(r, toks.len(), pos),
        well_typed(r),
    decreases toks.len() - pos, rank(Rule::IterationStatement), 1int,
{
    check_pos(pos, toks.len())?;
    match symbol_at(toks, pos) {
        Some(Symbol::While) => {
            let (test, p) = p_condition(toks, pos + 1)?;
            let (body, q) = p_statement(toks, p)?;
            let node = ParseNode::binary(
                NodeType::IterationStatement(Symbol::While),
                test,
                body,
                none(),
            );
            Ok((node, q))
        },
        Some(Symbol::Do) => {
            let (body, p) = p_statement(toks, pos + 1)?;
            check_tok(p, toks, Symbol::While)?;
            let (test, q) = p_condition(toks, p + 1)?;
            check_tok(q, toks, Symbol::Semicolon)?;
            let node = ParseNode::binary(
                NodeType::IterationStatement(Symbol::Do),
                body,
                test,
                none(),
            );
            Ok((node, q + 1))
        },
        Some(Symbol::For) => {
            check_tok(pos + 1, toks, Symbol::LParen)?;
            let (parts, end) = p_for_parts(toks, pos + 2)?;
            Ok((ParseNode::of(NodeType::IterationStatement(Symbol::For), parts, none()), end))
        },
        _ => Err(error_handler(Rule::IterationStatement, toks, pos)),
    }
}

/// Parses a jump-statement at `pos`.
///
/// jump-statement: 'goto' identifier ';' | 'continue' ';' | 'break' ';'
/// | 'return' ';' | 'return' expression ';'. A `return` with an expression
/// has the type of the expression.
pub fn p_jump_statement(toks: &[Token], pos: usize) -> (r: Parsed)
    ensures
        parsed_view(r) == jump_statement(tokens_view(toks@), pos as int),
        advances(r, toks.len(), pos),
        well_typed(r),
    decreases toks.len() - pos, rank(Rule::JumpStatement), 1int,
{
    check_pos(pos, toks.len())?;
    match symbol_at(toks, pos) {
        Some(Symbol::Goto) => {
            check_pos(pos + 1, toks.len())?;
            match &toks[pos + 1] {
                Token::Identifier(target) => {
                    check_tok(pos + 2, toks, Symbol::Semicolon)?;
                    let node = ParseNode::leaf(
                        NodeType::JumpStatement(Symbol::Goto, Some(target.clone())),
                        none(),
                    );
                    Ok((node, pos + 3))
                },
                _ => Err(error_handler(Rule::Identifier, toks, pos + 1)),
            }
        },
        Some(Symbol::Continue) => {
            check_tok(pos + 1, toks, Symbol::Semicolon)?;
            Ok(
                (
                    ParseNode::leaf(NodeType::JumpStatement(Symbol::Continue, None), none()),
                    pos + 2,
                ),
            )
        },
        Some(Symbol::Break) => {
            check_tok(pos + 1, toks, Symbol::Semicolon)?;
            Ok((ParseNode::leaf(NodeType::JumpStatement(Symbol::Break, None), none()), pos + 2))
        },
        Some(Symbol::Return) => {
            if is_symbol(toks, pos + 1, Symbol::Semicolon) {
                return Ok(
                    (
                        ParseNode::leaf(NodeType::JumpStatement(Symbol::Return, None), none()),
                        pos + 2,
                    ),
                );
            }
            let (value, p) = p_expression(toks, pos + 1)?;
            check_tok(p, toks, Symbol::Semicolon)?;
            Ok((ParseNode::wrap(NodeType::JumpStatement(Symbol::Return, None), value), p + 1))
        },
        _ => Err(error_handler(Rule::JumpStatement, toks, pos)),
    }
}

/// Parses an external-declaration at `pos`.
///
/// external-declaration: function-definition | declaration
pub fn p_external_declaration(toks: &[Token], pos: usize) -> (r: Parsed)
    ensures
        parsed_view(r) == external_declaration(tokens_view(toks@), pos as int),
        advances(r, toks.len(), pos),
        well_typed(r),
    decreases toks.len() - pos, rank(Rule::ExternalDeclaration), 1int,
{
    check_pos(pos, toks.len())?;
    if let Ok((inner, p)) = p_function_definition(toks, pos) {
        return Ok((ParseNode::wrap(NodeType::ExternalDeclaration, inner), p));
    }
    wrap_parsed(NodeType::ExternalDeclaration, p_declaration(toks, pos))
}

/// Parses a function-definition at `pos`.
///
/// function-definition: declaration-specifiers declarator
/// [ declaration-list ] compound-statement
pub fn p_function_definition(toks: &[Token], pos: usize) -> (r: Parsed)
    ensures
        parsed_view(r) == function_definition(tokens_view(toks@), pos as int),
        advances(r, toks.len(), pos),
        well_typed(r),
    decreases toks.len() - pos, rank(Rule::FunctionDefinition), 1int,
{
    check_pos(pos, toks.len())?;
    let (specifiers, p) = p_declaration_specifiers(toks, pos)?;
    let (name, q) = p_declarator(toks, p)?;
    match p_declaration_list(toks, q) {
        Ok((parameters, r)) => {
            let (body, end) = p_compound_statement(toks, r)?;
            let ty = TypeExpression::tagged(
                BaseType::Function,
                four_types(
                    specifiers.type_of(),
                    name.type_of(),
                    parameters.type_of(),
                    body.type_of(),
                ),
            );
            let children = four_nodes(specifiers, name, parameters, body);
            Ok((ParseNode::of(NodeType::FunctionDefinition, children, ty), end))
        },
        Err(_) => {
            let (body, end) = p_compound_statement(toks, q)?;
            let ty = TypeExpression::tagged(
                BaseType::Function,
                three_types(specifiers.type_of(), name.type_of(), body.type_of()),
            );
            let children = three_nodes(specifiers, name, body);
            Ok((ParseNode::of(NodeType::FunctionDefinition, children, ty), end))
        },
    }
}

/// Parses a declaration-list at `pos`.
///
/// declaration-list: declaration { declaration }
pub fn p_declaration_list(toks: &[Token], pos: usize) -> (r: Parsed)
    ensures
        parsed_view(r) == declaration_list(tokens_view(toks@), pos as int),
        advances(r, toks.len(), pos),
        well_typed(r),
    decreases toks.len() - pos, rank(Rule::DeclarationList), 1int,
{
    p_repeated_list(toks, pos, NodeType::DeclarationList, Rule::Declaration, ListTyping::Flatten)
}

/// Parses a translation-unit at `pos`.
///
/// translation-unit: external-declaration { external-declaration }. It
/// ends at the first token that starts no external declaration.
pub fn p_translation_unit(toks: &[Token], pos: usize) -> (r: Parsed)
    ensures
        parsed_view(r) == translation_unit(tokens_view(toks@), pos as int),
        advances(r, toks.len(), pos),
        well_typed(r),
    decreases toks.len() - pos, rank(Rule::TranslationUnit), 1int,
{
    p_repeated_list(
        toks,
        pos,
        NodeType::TranslationUnit,
        Rule::ExternalDeclaration,
        ListTyping::Composite,
    )
}

/// Parses what a statement is at `pos`: the first kind of statement that
/// is there.
pub fn p_statement_body(toks: &[Token], pos: usize) -> (r: Parsed)
    ensures
        parsed_view(r) == statement_body(tokens_view(toks@), pos as int),
        advances(r, toks.len(), pos),
        well_typed(r),
    decreases toks.len() - pos, rank(Rule::Statement), 0int,
{
    if let Ok(found) = p_labeled_statement(toks, pos) {
        return Ok(found);
    }
    if let Ok(found) = p_compound_statement(toks, pos) {
        return Ok(found);
    }
    if let Ok(found) = p_expression_statement(toks, pos) {
        return Ok(found);
    }
    if let Ok(found) = p_selection_statement(toks, pos) {
        return Ok(found);
    }
    if let Ok(found) = p_iteration_statement(toks, pos) {
        return Ok(found);
    }
    if let Ok(found) = p_jump_statement(toks, pos) {
        return Ok(found);
    }
    Err(no_viable(Rule::Statement, pos))
}

/// Parses ':' statement at `pos`: the statement, and the position after it.
pub fn p_labeled_body(toks: &[Token], pos: usize) -> (r: Parsed)
    ensures
        parsed_view(r) == labeled_body(tokens_view(toks@), pos as int),
        advances(r, toks.len(), pos),
        well_typed(r),
    decreases toks.len() - pos, 0int, 0int,
{
    check_tok(pos, toks, Symbol::Colon)?;
    p_statement(toks, pos + 1)
}

/// Parses '(' expression ')' at `pos`: the expression, and the position
/// after the parenthesis.
pub fn p_condition(toks: &[Token], pos: usize) -> (r: Parsed)
    ensures
        parsed_view(r) == condition(tokens_view(toks@), pos as int),
        advances(r, toks.len(), pos),
        well_typed(r),
    decreases toks.len() - pos, 0int, 0int,
{
    check_tok(pos, toks, Symbol::LParen)?;
    let (value, p) = p_expression(toks, pos + 1)?;
    check_tok(p, toks, Symbol::RParen)?;
    Ok((value, p + 1))
}

/// Parses the first clause of a `for` at `pos`.
pub fn p_for_init(toks: &[Token], pos: usize) -> (r: Parsed)
    ensures
        parsed_view(r) == for_init(tokens_view(toks@), pos as int),
        advances(r, toks.len(), pos),
        well_typed(r),
    decreases toks.len() - pos, rank(Rule::BlockItem), 0int,
{
    if let Ok(found) = p_expression_statement(toks, pos) {
        return Ok(found);
    }
    match p_declaration(toks, pos) {
        Ok(found) => Ok(found),
        Err(_) => Err(no_viable(Rule::IterationStatement, pos)),
    }
}

/// The value of the parts of a `for`.
pub open spec fn for_parts_view(r: Result<(Vec<ParseNode>, usize), ParseError>) -> Result<
    (Seq<NodeView>, int),
    ErrorView,
> {
    match r {
        Ok((parts, end)) => Ok((nodes_view(parts@), end as int)),
        Err(e) => Err(e@),
    }
}

/// Parses what follows the first two clauses of a `for` at `pos`. Returns
/// the children of the node and the position after the body.
pub fn p_for_tail(toks: &[Token], pos: usize, init: ParseNode, test: ParseNode) -> (r: Result<
    (Vec<ParseNode>, usize),
    ParseError,
>)
    ensures
        for_parts_view(r) == for_tail(tokens_view(toks@), init@, test@, pos as int),
        r matches Ok((_, end)) ==> pos < end <= toks.len(),
        typed(init@) && typed(test@) ==> (r matches Ok((parts, _)) ==> all_typed(
            nodes_view(parts@),
        )),
    decreases toks.len() - pos, rank(Rule::BlockItem), 0int,
{
    let ghost tv = tokens_view(toks@);
    let ghost goal = for_tail(tv, init@, test@, pos as int);
    if is_symbol(toks, pos, Symbol::RParen) {
        // ')' statement
        match p_statement(toks, pos + 1) {
            Err(e) => {
                assert(goal == Err::<(Seq<NodeView>, int), _>(e@));
                Err(e)
            },
            Ok((body, end)) => {
                assert(goal == Ok::<_, ErrorView>((seq![init@, test@, body@], end as int)));
                Ok((three_nodes(init, test, body), end))
            },
        }
    } else {
        // expression ')' statement
        let (step, after) = match p_expression(toks, pos) {
            Err(e) => {
                assert(goal == Err::<(Seq<NodeView>, int), _>(e@));
                return Err(e);
            },
            Ok(found) => found,
        };
        if let Err(e) = check_tok(after, toks, Symbol::RParen) {
            assert(goal == Err::<(Seq<NodeView>, int), _>(e@));
            return Err(e);
        }
        match p_statement(toks, after + 1) {
            Err(e) => {
                assert(goal == Err::<(Seq<NodeView>, int), _>(e@));
                Err(e)
            },
            Ok((body, end)) => {
                assert(goal == Ok::<_, ErrorView>(
                    (seq![init@, test@, step@, body@], end as int),
                ));
                Ok((four_nodes(init, test, step, body), end))
            },
        }
    }
}

/// Parses what follows 'for' '(' at `pos`: the clauses, the ')' and the
/// body. Returns the children of the node and the position after the body.
pub fn p_for_parts(toks: &[Token], pos: usize) -> (r: Result<(Vec<ParseNode>, usize), ParseError>)
    ensures
        for_parts_view(r) == for_parts(tokens_view(toks@), pos as int),
        r matches Ok((_, end)) ==> pos < end <= toks.len(),
        r matches Ok((parts, _)) ==> all_typed(nodes_view(parts@)),
    decreases toks.len() - pos, rank(Rule::BlockItem), 1int,
{
    let (init, p) = p_for_init(toks, pos)?;
    let (test, q) = p_expression_statement(toks, p)?;
    p_for_tail(toks, q, init, test)
}

} // verus!
