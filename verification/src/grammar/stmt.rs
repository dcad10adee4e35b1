//! Statements, function definitions and the translation unit, defined.

use crate::ast::{Kind, LabelView, NodeView};
use crate::grammar::decl::{declaration, declaration_specifiers, declarator};
use crate::error::ErrorView;
use crate::grammar::expr::{constant_expression, expression, none_type};
use crate::grammar::{
    at, fwd, mismatch, no_alternative, out_of_range, repeated_list, sym_at, unexpected, wrap_ok,
    ListTyping, ParsedView,
};
use crate::rule::{rank, Rule};
use crate::token::{Symbol, TokenView};
use crate::types::{BaseTypeView, TypeView};
use vstd::prelude::*;

verus! {

/// What a statement is: the first of labeled-statement, compound-statement,
/// expression-statement, selection-statement, iteration-statement and
/// jump-statement that is at the position.
pub open spec fn statement_body(toks: Seq<TokenView>, pos: int) -> ParsedView
    decreases toks.len() - pos, rank(Rule::Statement), 0int,
{
    if fwd(labeled_statement(toks, pos), toks, pos) is Ok {
        labeled_statement(toks, pos)
    } else if fwd(compound_statement(toks, pos), toks, pos) is Ok {
        compound_statement(toks, pos)
    } else if fwd(expression_statement(toks, pos), toks, pos) is Ok {
        expression_statement(toks, pos)
    } else if fwd(selection_statement(toks, pos), toks, pos) is Ok {
        selection_statement(toks, pos)
    } else if fwd(iteration_statement(toks, pos), toks, pos) is Ok {
        iteration_statement(toks, pos)
    } else if fwd(jump_statement(toks, pos), toks, pos) is Ok {
        jump_statement(toks, pos)
    } else {
        Err(no_alternative(Rule::Statement, pos))
    }
}

/// statement: labeled-statement | compound-statement | expression-statement
/// | selection-statement | iteration-statement | jump-statement. Its type is
/// that of the statement it is.
pub open spec fn statement(toks: Seq<TokenView>, pos: int) -> ParsedView
    decreases toks.len() - pos, rank(Rule::Statement), 1int,
{
    if out_of_range(toks, pos) {
        Err(ErrorView::PositionOutOfRange)
    } else {
        wrap_ok(Kind::Statement, statement_body(toks, pos))
    }
}

/// ':' statement, after a label: the statement and the position after it.
pub open spec fn labeled_body(toks: Seq<TokenView>, pos: int) -> ParsedView
    decreases toks.len() - pos, 0int, 0int,
{
    if !at(toks, pos, Symbol::Colon) {
        Err(mismatch(toks, pos, Symbol::Colon))
    } else {
        fwd(statement(toks, pos + 1), toks, pos + 1)
    }
}

/// labeled-statement: identifier ':' statement
/// | 'case' constant-expression ':' statement | 'default' ':' statement
pub open spec fn labeled_statement(toks: Seq<TokenView>, pos: int) -> ParsedView
    decreases toks.len() - pos, rank(Rule::LabeledStatement), 1int,
{
    if out_of_range(toks, pos) {
        Err(ErrorView::PositionOutOfRange)
    } else {
        match toks[pos] {
            TokenView::Identifier(name) => match fwd(labeled_body(toks, pos + 1), toks, pos + 1) {
                Err(e) => Err(e),
                Ok((body, q)) => Ok(
                    (
                        NodeView::unary(
                            Kind::LabeledStatement(LabelView::Name(name)),
                            body,
                            none_type(),
                        ),
                        q,
                    ),
                ),
            },
            TokenView::Symbol(Symbol::Case) => match fwd(
                constant_expression(toks, pos + 1),
                toks,
                pos + 1,
            ) {
                Err(e) => Err(e),
                Ok((value, p)) => match fwd(labeled_body(toks, p), toks, p) {
                    Err(e) => Err(e),
                    Ok((body, q)) => Ok(
                        (
                            NodeView::binary(
                                Kind::LabeledStatement(LabelView::Case),
                                value,
                                body,
                                none_type(),
                            ),
                            q,
                        ),
                    ),
                },
            },
            TokenView::Symbol(Symbol::Default) => match fwd(
                labeled_body(toks, pos + 1),
                toks,
                pos + 1,
            ) {
                Err(e) => Err(e),
                Ok((body, q)) => Ok(
                    (
                        NodeView::unary(
                            Kind::LabeledStatement(LabelView::Default),
                            body,
                            none_type(),
                        ),
                        q,
                    ),
                ),
            },
            _ => Err(unexpected(toks, pos, Rule::LabeledStatement)),
        }
    }
}

/// compound-statement: '{' '}' | '{' block-item-list '}'
pub open spec fn compound_statement(toks: Seq<TokenView>, pos: int) -> ParsedView
    decreases toks.len() - pos, rank(Rule::CompoundStatement), 1int,
{
    let kind = Kind::CompoundStatement;
    if !at(toks, pos, Symbol::LBrace) {
        Err(mismatch(toks, pos, Symbol::LBrace))
    } else {
        match fwd(block_item_list(toks, pos + 1), toks, pos + 1) {
            Ok((items, p)) => if !at(toks, p, Symbol::RBrace) {
                Err(mismatch(toks, p, Symbol::RBrace))
            } else {
                Ok((NodeView::unary(kind, items, none_type()), p + 1))
            },
            Err(_) => if !at(toks, pos + 1, Symbol::RBrace) {
                Err(mismatch(toks, pos + 1, Symbol::RBrace))
            } else {
                Ok((NodeView::leaf(kind, none_type()), pos + 2))
            },
        }
    }
}

/// block-item-list: block-item { block-item }
pub open spec fn block_item_list(toks: Seq<TokenView>, pos: int) -> ParsedView
    decreases toks.len() - pos, rank(Rule::BlockItemList), 1int,
{
    repeated_list(Kind::BlockItemList, Rule::BlockItem, ListTyping::Flatten, toks, pos)
}

/// block-item: declaration | statement
pub open spec fn block_item(toks: Seq<TokenView>, pos: int) -> ParsedView
    decreases toks.len() - pos, rank(Rule::BlockItem), 1int,
{
    let kind = Kind::BlockItem;
    if out_of_range(toks, pos) {
        Err(ErrorView::PositionOutOfRange)
    } else {
        match fwd(declaration(toks, pos), toks, pos) {
            Ok((inner, p)) => Ok((NodeView::wrap(kind, inner), p)),
            Err(_) => match fwd(statement(toks, pos), toks, pos) {
                Ok((inner, p)) => Ok((NodeView::wrap(kind, inner), p)),
                Err(_) => Err(no_alternative(Rule::BlockItem, pos)),
            },
        }
    }
}

/// expression-statement: ';' | expression ';'
pub open spec fn expression_statement(toks: Seq<TokenView>, pos: int) -> ParsedView
    decreases toks.len() - pos, rank(Rule::ExpressionStatement), 1int,
{
    let kind = Kind::ExpressionStatement;
    if out_of_range(toks, pos) {
        Err(ErrorView::PositionOutOfRange)
    } else if at(toks, pos, Symbol::Semicolon) {
        Ok((NodeView::leaf(kind, none_type()), pos + 1))
    } else {
        match fwd(expression(toks, pos), toks, pos) {
            Err(e) => Err(e),
            Ok((value, p)) => if !at(toks, p, Symbol::Semicolon) {
                Err(mismatch(toks, p, Symbol::Semicolon))
            } else {
                Ok((NodeView::unary(kind, value, none_type()), p + 1))
            },
        }
    }
}

/// '(' expression ')', as the condition of a statement: the expression and
/// the position after the parenthesis.
pub open spec fn condition(toks: Seq<TokenView>, pos: int) -> ParsedView
    decreases toks.len() - pos, 0int, 0int,
{
    if !at(toks, pos, Symbol::LParen) {
        Err(mismatch(toks, pos, Symbol::LParen))
    } else {
        match fwd(expression(toks, pos + 1), toks, pos + 1) {
            Err(e) => Err(e),
            Ok((value, p)) => if !at(toks, p, Symbol::RParen) {
                Err(mismatch(toks, p, Symbol::RParen))
            } else {
                Ok((value, p + 1))
            },
        }
    }
}

/// selection-statement: 'if' '(' expression ')' statement
/// [ 'else' statement ] | 'switch' '(' expression ')' statement
pub open spec fn selection_statement(toks: Seq<TokenView>, pos: int) -> ParsedView
    decreases toks.len() - pos, rank(Rule::SelectionStatement), 1int,
{
    if out_of_range(toks, pos) {
        Err(ErrorView::PositionOutOfRange)
    } else {
        match sym_at(toks, pos) {
            Some(Symbol::If) => {
                let kind = Kind::SelectionStatement(Symbol::If);
                match fwd(condition(toks, pos + 1), toks, pos + 1) {
                    Err(e) => Err(e),
                    Ok((test, p)) => match fwd(statement(toks, p), toks, p) {
                        Err(e) => Err(e),
                        Ok((first, q)) => if !at(toks, q, Symbol::Else) {
                            Ok((NodeView::binary(kind, test, first, none_type()), q))
                        } else {
                            match fwd(statement(toks, q + 1), toks, q + 1) {
                                Err(e) => Err(e),
                                Ok((second, r)) => Ok(
                                    (NodeView::of(kind, seq![test, first, second], none_type()), r),
                                ),
                            }
                        },
                    },
                }
            },
            Some(Symbol::Switch) => match fwd(condition(toks, pos + 1), toks, pos + 1) {
                Err(e) => Err(e),
                Ok((test, p)) => match fwd(statement(toks, p), toks, p) {
                    Err(e) => Err(e),
                    Ok((body, q)) => Ok(
                        (
                            NodeView::binary(
                                Kind::SelectionStatement(Symbol::Switch),
                                test,
                                body,
                                none_type(),
                            ),
                            q,
                        ),
                    ),
                },
            },
            _ => Err(unexpected(toks, pos, Rule::SelectionStatement)),
        }
    }
}

/// The first clause of a `for`: an expression-statement or, failing that, a
/// declaration.
pub open spec fn for_init(toks: Seq<TokenView>, pos: int) -> ParsedView
    decreases toks.len() - pos, rank(Rule::BlockItem), 0int,
{
    match fwd(expression_statement(toks, pos), toks, pos) {
        Ok(found) => Ok(found),
        Err(_) => match fwd(declaration(toks, pos), toks, pos) {
            Ok(found) => Ok(found),
            Err(_) => Err(no_alternative(Rule::IterationStatement, pos)),
        },
    }
}

/// What follows the first two clauses of a `for`: ')' statement
/// | expression ')' statement. It gives the children of the node, the two
/// clauses included, and the position after the body.
pub open spec fn for_tail(toks: Seq<TokenView>, init: NodeView, test: NodeView, pos: int) -> Result<
    (Seq<NodeView>, int),
    ErrorView,
>
    decreases toks.len() - pos, rank(Rule::BlockItem), 0int,
{
    if at(toks, pos, Symbol::RParen) {
        match fwd(statement(toks, pos + 1), toks, pos + 1) {
            Err(e) => Err(e),
            Ok((body, end)) => Ok((seq![init, test, body], end)),
        }
    } else {
        match fwd(expression(toks, pos), toks, pos) {
            Err(e) => Err(e),
            Ok((step, r)) => if !at(toks, r, Symbol::RParen) {
                Err(mismatch(toks, r, Symbol::RParen))
            } else {
                match fwd(statement(toks, r + 1), toks, r + 1) {
                    Err(e) => Err(e),
                    Ok((body, end)) => Ok((seq![init, test, step, body], end)),
                }
            },
        }
    }
}

/// What follows 'for' '(': the two or three clauses, the ')' and the body.
/// It gives the children of the node and the position after the body.
pub open spec fn for_parts(toks: Seq<TokenView>, pos: int) -> Result<(Seq<NodeView>, int), ErrorView>
    decreases toks.len() - pos, rank(Rule::BlockItem), 1int,
{
    match fwd(for_init(toks, pos), toks, pos) {
        Err(e) => Err(e),
        Ok((init, p)) => match fwd(expression_statement(toks, p), toks, p) {
            Err(e) => Err(e),
            Ok((test, q)) => for_tail(toks, init, test, q),
        },
    }
}

/// iteration-statement: 'while' '(' expression ')' statement
/// | 'do' statement 'while' '(' expression ')' ';'
/// | 'for' '(' expression-statement expression-statement [ expression ] ')'
/// statement
/// | 'for' '(' declaration expression-statement [ expression ] ')' statement
pub open spec fn iteration_statement(toks: Seq<TokenView>, pos: int) -> ParsedView
    decreases toks.len() - pos, rank(Rule::IterationStatement), 1int,
{
    if out_of_range(toks, pos) {
        Err(ErrorView::PositionOutOfRange)
    } else {
        match sym_at(toks, pos) {
            Some(Symbol::While) => match fwd(condition(toks, pos + 1), toks, pos + 1) {
                Err(e) => Err(e),
                Ok((test, p)) => match fwd(statement(toks, p), toks, p) {
                    Err(e) => Err(e),
                    Ok((body, q)) => Ok(
                        (
                            NodeView::binary(
                                Kind::IterationStatement(Symbol::While),
                                test,
                                body,
                                none_type(),
                            ),
                            q,
                        ),
                    ),
                },
            },
            Some(Symbol::Do) => match fwd(statement(toks, pos + 1), toks, pos + 1) {
                Err(e) => Err(e),
                Ok((body, p)) => if !at(toks, p, Symbol::While) {
                    Err(mismatch(toks, p, Symbol::While))
                } else {
                    match fwd(condition(toks, p + 1), toks, p + 1) {
                        Err(e) => Err(e),
                        Ok((test, q)) => if !at(toks, q, Symbol::Semicolon) {
                            Err(mismatch(toks, q, Symbol::Semicolon))
                        } else {
                            Ok(
                                (
                                    NodeView::binary(
                                        Kind::IterationStatement(Symbol::Do),
                                        body,
                                        test,
                                        none_type(),
                                    ),
                                    q + 1,
                                ),
                            )
                        },
                    }
                },
            },
            Some(Symbol::For) => if !at(toks, pos + 1, Symbol::LParen) {
                Err(mismatch(toks, pos + 1, Symbol::LParen))
            } else {
                match for_parts(toks, pos + 2) {
                    Err(e) => Err(e),
                    Ok((parts, end)) => Ok(
                        (
                            NodeView::of(Kind::IterationStatement(Symbol::For), parts, none_type()),
                            end,
                        ),
                    ),
                }
            },
            _ => Err(unexpected(toks, pos, Rule::IterationStatement)),
        }
    }
}

/// jump-statement: 'goto' identifier ';' | 'continue' ';' | 'break' ';'
/// | 'return' ';' | 'return' expression ';'. A `return` with an expression
/// has the type of the expression.
pub open spec fn jump_statement(toks: Seq<TokenView>, pos: int) -> ParsedView
    decreases toks.len() - pos, rank(Rule::JumpStatement), 1int,
{
    if out_of_range(toks, pos) {
        Err(ErrorView::PositionOutOfRange)
    } else {
        match sym_at(toks, pos) {
            Some(Symbol::Goto) => if out_of_range(toks, pos + 1) {
                Err(ErrorView::PositionOutOfRange)
            } else {
                match toks[pos + 1] {
                    TokenView::Identifier(target) => if !at(toks, pos + 2, Symbol::Semicolon) {
                        Err(mismatch(toks, pos + 2, Symbol::Semicolon))
                    } else {
                        Ok(
                            (
                                NodeView::leaf(
                                    Kind::JumpStatement(Symbol::Goto, Some(target)),
                                    none_type(),
                                ),
                                pos + 3,
                            ),
                        )
                    },
                    _ => Err(unexpected(toks, pos + 1, Rule::Identifier)),
                }
            },
            Some(Symbol::Continue) => if !at(toks, pos + 1, Symbol::Semicolon) {
                Err(mismatch(toks, pos + 1, Symbol::Semicolon))
            } else {
                Ok(
                    (
                        NodeView::leaf(Kind::JumpStatement(Symbol::Continue, None), none_type()),
                        pos + 2,
                    ),
                )
            },
            Some(Symbol::Break) => if !at(toks, pos + 1, Symbol::Semicolon) {
                Err(mismatch(toks, pos + 1, Symbol::Semicolon))
            } else {
                Ok(
                    (
                        NodeView::leaf(Kind::JumpStatement(Symbol::Break, None), none_type()),
                        pos + 2,
                    ),
                )
            },
            Some(Symbol::Return) => {
                let kind = Kind::JumpStatement(Symbol::Return, None);
                if at(toks, pos + 1, Symbol::Semicolon) {
                    Ok((NodeView::leaf(kind, none_type()), pos + 2))
                } else {
                    match fwd(expression(toks, pos + 1), toks, pos + 1) {
                        Err(e) => Err(e),
                        Ok((value, p)) => if !at(toks, p, Symbol::Semicolon) {
                            Err(mismatch(toks, p, Symbol::Semicolon))
                        } else {
                            Ok((NodeView::wrap(kind, value), p + 1))
                        },
                    }
                }
            },
            _ => Err(unexpected(toks, pos, Rule::JumpStatement)),
        }
    }
}

/// external-declaration: function-definition | declaration
pub open spec fn external_declaration(toks: Seq<TokenView>, pos: int) -> ParsedView
    decreases toks.len() - pos, rank(Rule::ExternalDeclaration), 1int,
{
    let kind = Kind::ExternalDeclaration;
    if out_of_range(toks, pos) {
        Err(ErrorView::PositionOutOfRange)
    } else {
        match fwd(function_definition(toks, pos), toks, pos) {
            Ok((inner, p)) => Ok((NodeView::wrap(kind, inner), p)),
            Err(_) => wrap_ok(kind, fwd(declaration(toks, pos), toks, pos)),
        }
    }
}

/// The type of a function definition over the types of its parts.
pub open spec fn definition_type(parts: Seq<TypeView>) -> TypeView {
    TypeView::tagged(BaseTypeView::Function, parts)
}

/// function-definition: declaration-specifiers declarator
/// [ declaration-list ] compound-statement
pub open spec fn function_definition(toks: Seq<TokenView>, pos: int) -> ParsedView
    decreases toks.len() - pos, rank(Rule::FunctionDefinition), 1int,
{
    let kind = Kind::FunctionDefinition;
    if out_of_range(toks, pos) {
        Err(ErrorView::PositionOutOfRange)
    } else {
        match fwd(declaration_specifiers(toks, pos), toks, pos) {
            Err(e) => Err(e),
            Ok((specifiers, p)) => match fwd(declarator(toks, p), toks, p) {
                Err(e) => Err(e),
                Ok((name, q)) => match fwd(declaration_list(toks, q), toks, q) {
                    Ok((parameters, r)) => match fwd(compound_statement(toks, r), toks, r) {
                        Err(e) => Err(e),
                        Ok((body, end)) => Ok(
                            (
                                NodeView::of(
                                    kind,
                                    seq![specifiers, name, parameters, body],
                                    definition_type(
                                        seq![specifiers.ty, name.ty, parameters.ty, body.ty],
                                    ),
                                ),
                                end,
                            ),
                        ),
                    },
                    Err(_) => match fwd(compound_statement(toks, q), toks, q) {
                        Err(e) => Err(e),
                        Ok((body, end)) => Ok(
                            (
                                NodeView::of(
                                    kind,
                                    seq![specifiers, name, body],
                                    definition_type(seq![specifiers.ty, name.ty, body.ty]),
                                ),
                                end,
                            ),
                        ),
                    },
                },
            },
        }
    }
}

/// declaration-list: declaration { declaration }
pub open spec fn declaration_list(toks: Seq<TokenView>, pos: int) -> ParsedView
    decreases toks.len() - pos, rank(Rule::DeclarationList), 1int,
{
    repeated_list(Kind::DeclarationList, Rule::Declaration, ListTyping::Flatten, toks, pos)
}

/// translation-unit: external-declaration { external-declaration }. It
/// ends at the first token that starts no external declaration.
pub open spec fn translation_unit(toks: Seq<TokenView>, pos: int) -> ParsedView
    decreases toks.len() - pos, rank(Rule::TranslationUnit), 1int,
{
    repeated_list(
        Kind::TranslationUnit,
        Rule::ExternalDeclaration,
        ListTyping::Composite,
        toks,
        pos,
    )
}

} // verus!
