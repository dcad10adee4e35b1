//! Expressions, defined: from a single identifier up to the comma
//! expression.

use crate::ast::{ConstantView, Kind, NodeView};
use crate::error::ErrorView;
use crate::grammar::decl::{initializer_list, typename};
use crate::grammar::{
    at, binary_level, closing_brace, fwd, list_type, mismatch, no_alternative, out_of_range,
    repeated_tail, separated_list, sym_at, unexpected, wrap_ok, ListTyping, ParsedView,
};
use crate::rule::{rank, Rule};
use crate::sema::{cast_legal, implicit_conversion, types_same};
use crate::token::{Symbol, TokenView};
use crate::types::{BaseTypeView, TypeView};
use vstd::prelude::*;

verus! {

/// The text that stands for `__func__`.
pub open spec fn func_placeholder() -> Seq<char> {
    "__func_name__"@
}

/// The length of a text in bytes: the length of its UTF-8 encoding.
pub open spec fn byte_length(text: Seq<char>) -> nat {
    vstd::utf8::encode_utf8(text).len()
}

/// The type of a string of the given length: an array of characters.
pub open spec fn string_type(len: nat) -> TypeView {
    TypeView::of2(BaseTypeView::Array(len), BaseTypeView::Char)
}

/// The type of what has no value.
pub open spec fn none_type() -> TypeView {
    TypeView::of(BaseTypeView::NoneExpression)
}

/// identifier: IDENTIFIER
pub open spec fn identifier(toks: Seq<TokenView>, pos: int) -> ParsedView {
    if out_of_range(toks, pos) {
        Err(ErrorView::PositionOutOfRange)
    } else {
        match toks[pos] {
            TokenView::Identifier(name) => Ok(
                (
                    NodeView::leaf(
                        Kind::Identifier(name),
                        TypeView::of(BaseTypeView::Identifier(name)),
                    ),
                    pos + 1,
                ),
            ),
            _ => Err(unexpected(toks, pos, Rule::Identifier)),
        }
    }
}

/// constant: an integer, a floating or an enumeration constant. An integer
/// constant is a `long`, whatever its value.
pub open spec fn constant(toks: Seq<TokenView>, pos: int) -> ParsedView {
    if out_of_range(toks, pos) {
        Err(ErrorView::PositionOutOfRange)
    } else {
        match toks[pos] {
            TokenView::IntConstant(v) => Ok(
                (
                    NodeView::leaf(
                        Kind::Constant(ConstantView::Integer(v)),
                        TypeView::of(BaseTypeView::Long),
                    ),
                    pos + 1,
                ),
            ),
            TokenView::FloatConstant(bits) => Ok(
                (
                    NodeView::leaf(
                        Kind::Constant(ConstantView::Floating(bits)),
                        TypeView::of(BaseTypeView::Double),
                    ),
                    pos + 1,
                ),
            ),
            TokenView::EnumConstant(name) => Ok(
                (
                    NodeView::leaf(
                        Kind::Constant(ConstantView::Enumeration(name)),
                        TypeView::of(BaseTypeView::Long),
                    ),
                    pos + 1,
                ),
            ),
            _ => Err(unexpected(toks, pos, Rule::Constant)),
        }
    }
}

/// enumeration-constant: IDENTIFIER, where an enumerator is declared.
pub open spec fn enumeration_constant(toks: Seq<TokenView>, pos: int) -> ParsedView {
    if out_of_range(toks, pos) {
        Err(ErrorView::PositionOutOfRange)
    } else {
        match toks[pos] {
            TokenView::Identifier(name) => Ok(
                (
                    NodeView::leaf(
                        Kind::EnumerationConstant(name),
                        TypeView::of(BaseTypeView::Identifier(name)),
                    ),
                    pos + 1,
                ),
            ),
            _ => Err(unexpected(toks, pos, Rule::EnumerationConstant)),
        }
    }
}

/// string: a string literal, or `__func__`, for which a fixed text stands.
/// Its type is an array of characters, as long as the text has bytes.
pub open spec fn string(toks: Seq<TokenView>, pos: int) -> ParsedView {
    if out_of_range(toks, pos) {
        Err(ErrorView::PositionOutOfRange)
    } else {
        match toks[pos] {
            TokenView::StringLiteral(text, _) => Ok(
                (NodeView::leaf(Kind::StringLiteral(text), string_type(byte_length(text))), pos + 1),
            ),
            TokenView::Symbol(Symbol::FuncName) => Ok(
                (
                    NodeView::leaf(
                        Kind::StringLiteral(func_placeholder()),
                        string_type(byte_length(func_placeholder())),
                    ),
                    pos + 1,
                ),
            ),
            _ => Err(unexpected(toks, pos, Rule::StringLiteral)),
        }
    }
}

/// primary-expression: identifier | constant | string | '(' expression ')'
/// | generic-selection
pub open spec fn primary_expression(toks: Seq<TokenView>, pos: int) -> ParsedView
    decreases toks.len() - pos, rank(Rule::PrimaryExpression), 1int,
{
    let kind = Kind::PrimaryExpression;
    if out_of_range(toks, pos) {
        Err(ErrorView::PositionOutOfRange)
    } else if identifier(toks, pos) is Ok {
        wrap_ok(kind, identifier(toks, pos))
    } else if constant(toks, pos) is Ok {
        wrap_ok(kind, constant(toks, pos))
    } else if string(toks, pos) is Ok {
        wrap_ok(kind, string(toks, pos))
    } else if at(toks, pos, Symbol::LParen) {
        match fwd(expression(toks, pos + 1), toks, pos + 1) {
            Err(e) => Err(e),
            Ok((inner, p)) => if !at(toks, p, Symbol::RParen) {
                Err(mismatch(toks, p, Symbol::RParen))
            } else {
                Ok((NodeView::wrap(kind, inner), p + 1))
            },
        }
    } else {
        match fwd(generic_selection(toks, pos), toks, pos) {
            Ok((inner, p)) => Ok((NodeView::wrap(kind, inner), p)),
            Err(_) => Err(no_alternative(Rule::PrimaryExpression, pos)),
        }
    }
}

/// generic-selection: '_Generic' '(' assignment-expression ','
/// generic-assoc-list ')'
pub open spec fn generic_selection(toks: Seq<TokenView>, pos: int) -> ParsedView
    decreases toks.len() - pos, rank(Rule::GenericSelection), 1int,
{
    if !at(toks, pos, Symbol::Generic) {
        Err(mismatch(toks, pos, Symbol::Generic))
    } else if !at(toks, pos + 1, Symbol::LParen) {
        Err(mismatch(toks, pos + 1, Symbol::LParen))
    } else {
        match fwd(assignment_expression(toks, pos + 2), toks, pos + 2) {
            Err(e) => Err(e),
            Ok((control, p)) => if !at(toks, p, Symbol::Comma) {
                Err(mismatch(toks, p, Symbol::Comma))
            } else {
                match fwd(generic_assoc_list(toks, p + 1), toks, p + 1) {
                    Err(e) => Err(e),
                    Ok((list, q)) => if !at(toks, q, Symbol::RParen) {
                        Err(mismatch(toks, q, Symbol::RParen))
                    } else {
                        Ok(
                            (
                                NodeView::binary(
                                    Kind::GenericSelection,
                                    control,
                                    list,
                                    TypeView::pair(control.ty, list.ty),
                                ),
                                q + 1,
                            ),
                        )
                    },
                }
            },
        }
    }
}

/// generic-assoc-list: generic-association { ',' generic-association }
pub open spec fn generic_assoc_list(toks: Seq<TokenView>, pos: int) -> ParsedView
    decreases toks.len() - pos, rank(Rule::GenericAssocList), 1int,
{
    separated_list(
        Kind::GenericAssocList,
        Rule::GenericAssociation,
        ListTyping::Composite,
        toks,
        pos,
    )
}

/// generic-association: type-name ':' assignment-expression
/// | 'default' ':' assignment-expression
pub open spec fn generic_association(toks: Seq<TokenView>, pos: int) -> ParsedView
    decreases toks.len() - pos, rank(Rule::GenericAssociation), 1int,
{
    let kind = Kind::GenericAssociation;
    if out_of_range(toks, pos) {
        Err(ErrorView::PositionOutOfRange)
    } else {
        match fwd(typename(toks, pos), toks, pos) {
            Ok((name, p)) => if !at(toks, p, Symbol::Colon) {
                Err(mismatch(toks, p, Symbol::Colon))
            } else {
                match fwd(assignment_expression(toks, p + 1), toks, p + 1) {
                    Err(e) => Err(e),
                    Ok((value, q)) => Ok((NodeView::binary(kind, name, value, value.ty), q)),
                }
            },
            Err(_) => if !at(toks, pos, Symbol::Default) {
                Err(no_alternative(Rule::GenericAssociation, pos))
            } else if !at(toks, pos + 1, Symbol::Colon) {
                Err(mismatch(toks, pos + 1, Symbol::Colon))
            } else {
                wrap_ok(kind, fwd(assignment_expression(toks, pos + 2), toks, pos + 2))
            },
        }
    }
}

/// The type of a primary expression with its suffixes, `count` children in
/// all: with no suffix the type of the primary expression, and otherwise a
/// composite of that type alone.
pub open spec fn postfix_type(primary: TypeView, count: nat) -> TypeView {
    if count == 1 {
        primary
    } else {
        TypeView::composite(seq![primary])
    }
}

/// postfix-expression: primary-expression { suffix }
/// | '(' type-name ')' '{' initializer-list [','] '}' { suffix }
pub open spec fn postfix_expression(toks: Seq<TokenView>, pos: int) -> ParsedView
    decreases toks.len() - pos, rank(Rule::PostfixExpression), 1int,
{
    let kind = Kind::PostfixExpression;
    if out_of_range(toks, pos) {
        Err(ErrorView::PositionOutOfRange)
    } else {
        match fwd(primary_expression(toks, pos), toks, pos) {
            Ok((first, p)) => {
                let (items, q) = repeated_tail(Rule::PostfixExpressionPost, toks, seq![first], p);
                Ok((NodeView::of(kind, items, postfix_type(first.ty, items.len())), q))
            },
            Err(_) => if !at(toks, pos, Symbol::LParen) {
                Err(no_alternative(Rule::PostfixExpression, pos))
            } else {
                match fwd(typename(toks, pos + 1), toks, pos + 1) {
                    Err(e) => Err(e),
                    Ok((name, e1)) => if !at(toks, e1, Symbol::RParen) {
                        Err(mismatch(toks, e1, Symbol::RParen))
                    } else if !at(toks, e1 + 1, Symbol::LBrace) {
                        Err(mismatch(toks, e1 + 1, Symbol::LBrace))
                    } else {
                        match fwd(initializer_list(toks, e1 + 2), toks, e1 + 2) {
                            Err(e) => Err(e),
                            Ok((list, e2)) => match closing_brace(toks, e2) {
                                Err(e) => Err(e),
                                Ok(e3) => {
                                    let (items, q) = repeated_tail(
                                        Rule::PostfixExpressionPost,
                                        toks,
                                        seq![name, list],
                                        e3,
                                    );
                                    Ok(
                                        (
                                            NodeView::of(
                                                kind,
                                                items,
                                                list_type(
                                                    ListTyping::Composite,
                                                    items,
                                                ),
                                            ),
                                            q,
                                        ),
                                    )
                                },
                            },
                        }
                    },
                }
            },
        }
    }
}

/// One suffix of a postfix expression: '[' expression ']' | '(' ')'
/// | '(' argument-expression-list ')' | '.' identifier | '->' identifier
/// | '++' | '--'
pub open spec fn postfix_expression_post(toks: Seq<TokenView>, pos: int) -> ParsedView
    decreases toks.len() - pos, rank(Rule::PostfixExpressionPost), 1int,
{
    if out_of_range(toks, pos) {
        Err(ErrorView::PositionOutOfRange)
    } else {
        match sym_at(toks, pos) {
            Some(Symbol::LBracket) => {
                match fwd(expression(toks, pos + 1), toks, pos + 1) {
                    Err(e) => Err(e),
                    Ok((index, p)) => if !at(toks, p, Symbol::RBracket) {
                        Err(mismatch(toks, p, Symbol::RBracket))
                    } else {
                        Ok(
                            (
                                NodeView::wrap(Kind::PostfixExpressionPost(Symbol::LBracket), index),
                                p + 1,
                            ),
                        )
                    },
                }
            },
            Some(Symbol::LParen) => if at(toks, pos + 1, Symbol::RParen) {
                Ok(
                    (
                        NodeView::leaf(Kind::PostfixExpressionPost(Symbol::LParen), none_type()),
                        pos + 2,
                    ),
                )
            } else {
                match fwd(argument_expression_list(toks, pos + 1), toks, pos + 1) {
                    Err(e) => Err(e),
                    Ok((args, p)) => if !at(toks, p, Symbol::RParen) {
                        Err(mismatch(toks, p, Symbol::RParen))
                    } else {
                        Ok(
                            (
                                NodeView::wrap(Kind::PostfixExpressionPost(Symbol::LParen), args),
                                p + 1,
                            ),
                        )
                    },
                }
            },
            Some(Symbol::Dot) => wrap_ok(
                Kind::PostfixExpressionPost(Symbol::Dot),
                identifier(toks, pos + 1),
            ),
            Some(Symbol::Arrow) => wrap_ok(
                Kind::PostfixExpressionPost(Symbol::Arrow),
                identifier(toks, pos + 1),
            ),
            Some(Symbol::Increment) => Ok(
                (
                    NodeView::leaf(Kind::PostfixExpressionPost(Symbol::Increment), none_type()),
                    pos + 1,
                ),
            ),
            Some(Symbol::Decrement) => Ok(
                (
                    NodeView::leaf(Kind::PostfixExpressionPost(Symbol::Decrement), none_type()),
                    pos + 1,
                ),
            ),
            _ => Err(unexpected(toks, pos, Rule::PostfixExpressionPost)),
        }
    }
}

/// argument-expression-list: assignment-expression
/// { ',' assignment-expression }
pub open spec fn argument_expression_list(toks: Seq<TokenView>, pos: int) -> ParsedView
    decreases toks.len() - pos, rank(Rule::ArgumentExpressionList), 1int,
{
    separated_list(
        Kind::ArgumentExpressionList,
        Rule::AssignmentExpression,
        ListTyping::Flatten,
        toks,
        pos,
    )
}

/// Whether the symbol is a unary operator.
pub open spec fn is_unary_operator(s: Symbol) -> bool {
    s == Symbol::Ampersand || s == Symbol::Star || s == Symbol::Plus || s == Symbol::Minus || s
        == Symbol::Tilde || s == Symbol::Bang
}

/// The unary operator at the position, if one is there.
pub open spec fn unary_symbol(toks: Seq<TokenView>, pos: int) -> Option<Symbol> {
    match sym_at(toks, pos) {
        Some(s) => if is_unary_operator(s) {
            Some(s)
        } else {
            None
        },
        None => None,
    }
}

/// The node of a unary operator.
pub open spec fn unary_operator_node(s: Symbol) -> NodeView {
    NodeView::leaf(Kind::UnaryOperator(s), none_type())
}

/// unary-operator: '&' | '*' | '+' | '-' | '~' | '!'
pub open spec fn unary_operator(toks: Seq<TokenView>, pos: int) -> ParsedView {
    if out_of_range(toks, pos) {
        Err(ErrorView::PositionOutOfRange)
    } else {
        match unary_symbol(toks, pos) {
            Some(s) => Ok((unary_operator_node(s), pos + 1)),
            None => Err(unexpected(toks, pos, Rule::UnaryOperator)),
        }
    }
}

/// The type of a unary operator applied to an operand of the given type:
/// `&` gives a pointer to the operand's type, `*` a pointer marked as a
/// pointer to no particular type, and the others the operand's type.
pub open spec fn unary_type(op: Symbol, operand: TypeView) -> TypeView {
    if op == Symbol::Ampersand {
        TypeView::tagged(BaseTypeView::Pointer, seq![operand])
    } else if op == Symbol::Star {
        TypeView::of2(BaseTypeView::Pointer, BaseTypeView::VoidPointer)
    } else {
        operand
    }
}

/// The type of `sizeof` and `_Alignof`.
pub open spec fn size_type() -> TypeView {
    TypeView::of(BaseTypeView::SizeT)
}

/// '(' type-name ')', as the operand of `sizeof` and `_Alignof`.
pub open spec fn parenthesized_type_name(toks: Seq<TokenView>, pos: int) -> ParsedView
    decreases toks.len() - pos, rank(Rule::UnaryExpression), 0int,
{
    if !at(toks, pos, Symbol::LParen) {
        Err(mismatch(toks, pos, Symbol::LParen))
    } else {
        match fwd(typename(toks, pos + 1), toks, pos + 1) {
            Err(e) => Err(e),
            Ok((name, p)) => if !at(toks, p, Symbol::RParen) {
                Err(mismatch(toks, p, Symbol::RParen))
            } else {
                Ok((name, p + 1))
            },
        }
    }
}

/// unary-expression: postfix-expression | '++' unary-expression
/// | '--' unary-expression | unary-operator cast-expression
/// | 'sizeof' '(' type-name ')' | 'sizeof' unary-expression
/// | '_Alignof' '(' type-name ')'
pub open spec fn unary_expression(toks: Seq<TokenView>, pos: int) -> ParsedView
    decreases toks.len() - pos, rank(Rule::UnaryExpression), 1int,
{
    if out_of_range(toks, pos) {
        Err(ErrorView::PositionOutOfRange)
    } else {
        match sym_at(toks, pos) {
            Some(Symbol::Increment) => wrap_ok(
                Kind::UnaryExpression(Some(Symbol::Increment)),
                fwd(unary_expression(toks, pos + 1), toks, pos + 1),
            ),
            Some(Symbol::Decrement) => wrap_ok(
                Kind::UnaryExpression(Some(Symbol::Decrement)),
                fwd(unary_expression(toks, pos + 1), toks, pos + 1),
            ),
            Some(Symbol::Sizeof) => {
                let kind = Kind::UnaryExpression(Some(Symbol::Sizeof));
                match fwd(parenthesized_type_name(toks, pos + 1), toks, pos + 1) {
                    Ok((name, p)) => Ok((NodeView::unary(kind, name, size_type()), p)),
                    Err(_) => match fwd(unary_expression(toks, pos + 1), toks, pos + 1) {
                        Ok((operand, p)) => Ok((NodeView::unary(kind, operand, size_type()), p)),
                        Err(e) => Err(e),
                    },
                }
            },
            Some(Symbol::Alignof) => {
                match fwd(parenthesized_type_name(toks, pos + 1), toks, pos + 1) {
                    Ok((name, p)) => Ok(
                        (
                            NodeView::unary(
                                Kind::UnaryExpression(Some(Symbol::Alignof)),
                                name,
                                size_type(),
                            ),
                            p,
                        ),
                    ),
                    Err(e) => Err(e),
                }
            },
            _ => match unary_symbol(toks, pos) {
                Some(op) => match fwd(cast_expression(toks, pos + 1), toks, pos + 1) {
                    Err(e) => Err(e),
                    Ok((operand, p)) => Ok(
                        (
                            NodeView::binary(
                                Kind::UnaryExpression(None),
                                unary_operator_node(op),
                                operand,
                                unary_type(op, operand.ty),
                            ),
                            p,
                        ),
                    ),
                },
                None => match fwd(postfix_expression(toks, pos), toks, pos) {
                    Ok((inner, p)) => Ok((NodeView::wrap(Kind::UnaryExpression(None), inner), p)),
                    Err(_) => Err(no_alternative(Rule::UnaryExpression, pos)),
                },
            },
        }
    }
}

/// cast-expression: unary-expression | '(' type-name ')' cast-expression.
/// The cast fails where the rules do not allow it.
pub open spec fn cast_expression(toks: Seq<TokenView>, pos: int) -> ParsedView
    decreases toks.len() - pos, rank(Rule::CastExpression), 1int,
{
    let kind = Kind::CastExpression;
    if out_of_range(toks, pos) {
        Err(ErrorView::PositionOutOfRange)
    } else {
        match fwd(unary_expression(toks, pos), toks, pos) {
            Ok((inner, p)) => Ok((NodeView::wrap(kind, inner), p)),
            Err(_) => match fwd(parenthesized_type_name(toks, pos), toks, pos) {
                Err(e) => if at(toks, pos, Symbol::LParen) {
                    Err(e)
                } else {
                    Err(no_alternative(Rule::CastExpression, pos))
                },
                Ok((target, p)) => match fwd(cast_expression(toks, p), toks, p) {
                    Err(e) => Err(e),
                    Ok((operand, q)) => if cast_legal(target.ty, operand.ty) {
                        Ok((NodeView::binary(kind, target, operand, target.ty), q))
                    } else {
                        Err(ErrorView::IllegalCast { from: operand.ty, to: target.ty })
                    },
                },
            },
        }
    }
}

/// Whether a value of the type can be the condition of `?:`.
pub open spec fn is_condition_type(t: TypeView) -> bool {
    types_same(t, TypeView::of(BaseTypeView::Int)) || types_same(
        t,
        TypeView::of(BaseTypeView::Bool),
    ) || types_same(t, TypeView::of(BaseTypeView::Long)) || types_same(
        t,
        TypeView::of(BaseTypeView::Signed),
    ) || types_same(t, TypeView::of(BaseTypeView::Unsigned)) || types_same(
        t,
        TypeView::of(BaseTypeView::Char),
    )
}

/// conditional-expression: logical-or-expression
/// | logical-or-expression '?' expression ':' conditional-expression.
/// Without `?` the type is that of the operand. With it, the condition must
/// have a condition type and the two branches the same type, which is the
/// type of the whole.
pub open spec fn conditional_expression(toks: Seq<TokenView>, pos: int) -> ParsedView
    decreases toks.len() - pos, rank(Rule::ConditionalExpression), 1int,
{
    let kind = Kind::ConditionalExpression;
    if out_of_range(toks, pos) {
        Err(ErrorView::PositionOutOfRange)
    } else {
        match fwd(binary_level(Rule::LogicalOrExpression, toks, pos), toks, pos) {
            Err(e) => Err(e),
            Ok((condition, p)) => if !at(toks, p, Symbol::Question) {
                Ok((NodeView::wrap(kind, condition), p))
            } else if !is_condition_type(condition.ty) {
                Err(
                    ErrorView::IllegalTypeCombination {
                        left: condition.ty,
                        right: TypeView::of(BaseTypeView::Int),
                        operator: Symbol::Question,
                    },
                )
            } else {
                match fwd(expression(toks, p + 1), toks, p + 1) {
                    Err(e) => Err(e),
                    Ok((first, e1)) => if !at(toks, e1, Symbol::Colon) {
                        Err(mismatch(toks, e1, Symbol::Colon))
                    } else {
                        match fwd(conditional_expression(toks, e1 + 1), toks, e1 + 1) {
                            Err(e) => Err(e),
                            Ok((second, q)) => if types_same(first.ty, second.ty) {
                                Ok(
                                    (
                                        NodeView::of(
                                            kind,
                                            seq![condition, first, second],
                                            second.ty,
                                        ),
                                        q,
                                    ),
                                )
                            } else {
                                Err(
                                    ErrorView::IllegalTypeCombination {
                                        left: first.ty,
                                        right: second.ty,
                                        operator: Symbol::Colon,
                                    },
                                )
                            },
                        }
                    },
                }
            },
        }
    }
}

/// Whether the symbol is an assignment operator.
pub open spec fn is_assignment_operator(s: Symbol) -> bool {
    s == Symbol::Assign || s == Symbol::MulAssign || s == Symbol::DivAssign || s
        == Symbol::ModAssign || s == Symbol::AddAssign || s == Symbol::SubAssign || s
        == Symbol::ShlAssign || s == Symbol::ShrAssign || s == Symbol::AndAssign || s
        == Symbol::XorAssign || s == Symbol::OrAssign
}

/// assignment-operator: '=' | '*=' | '/=' | '%=' | '+=' | '-=' | '<<='
/// | '>>=' | '&=' | '^=' | '|='
pub open spec fn assignment_operator(toks: Seq<TokenView>, pos: int) -> ParsedView {
    if out_of_range(toks, pos) {
        Err(ErrorView::PositionOutOfRange)
    } else {
        match sym_at(toks, pos) {
            Some(s) => if is_assignment_operator(s) {
                Ok((NodeView::leaf(Kind::AssignmentOperator(s), none_type()), pos + 1))
            } else {
                Err(unexpected(toks, pos, Rule::AssignmentOperator))
            },
            None => Err(unexpected(toks, pos, Rule::AssignmentOperator)),
        }
    }
}

/// The three parts of an assignment, where all three are found at the
/// position: the target, the operator, the value, and the position after.
pub open spec fn assignment_parts(toks: Seq<TokenView>, pos: int) -> Option<
    (NodeView, NodeView, NodeView, int),
>
    decreases toks.len() - pos, rank(Rule::AssignmentExpression), 0int,
{
    match fwd(unary_expression(toks, pos), toks, pos) {
        Err(_) => None,
        Ok((target, p)) => match assignment_operator(toks, p) {
            Err(_) => None,
            Ok((op, _)) => match fwd(assignment_expression(toks, p + 1), toks, p + 1) {
                Err(_) => None,
                Ok((value, q)) => Some((target, op, value, q)),
            },
        },
    }
}

/// assignment-expression: unary-expression assignment-operator
/// assignment-expression | conditional-expression. Where the three parts of
/// an assignment are there, it is an assignment: its type is what the right
/// side converts to, and it fails if the right side does not convert.
/// Otherwise it is a conditional expression, read from the same position.
pub open spec fn assignment_expression(toks: Seq<TokenView>, pos: int) -> ParsedView
    decreases toks.len() - pos, rank(Rule::AssignmentExpression), 1int,
{
    if out_of_range(toks, pos) {
        Err(ErrorView::PositionOutOfRange)
    } else {
        match assignment_parts(toks, pos) {
            Some((target, op, value, q)) => match implicit_conversion(target.ty, value.ty) {
                Some(ty) => Ok(
                    (NodeView::of(Kind::AssignmentExpression, seq![target, op, value], ty), q),
                ),
                None => Err(ErrorView::IllegalAssignment { left: target.ty, right: value.ty }),
            },
            None => wrap_ok(
                Kind::AssignmentExpression,
                fwd(conditional_expression(toks, pos), toks, pos),
            ),
        }
    }
}

/// expression: assignment-expression { ',' assignment-expression }. Its
/// type is that of the last operand.
pub open spec fn expression(toks: Seq<TokenView>, pos: int) -> ParsedView
    decreases toks.len() - pos, rank(Rule::Expression), 1int,
{
    separated_list(Kind::Expression, Rule::AssignmentExpression, ListTyping::Rightmost, toks, pos)
}

/// constant-expression: conditional-expression
pub open spec fn constant_expression(toks: Seq<TokenView>, pos: int) -> ParsedView
    decreases toks.len() - pos, rank(Rule::ConstantExpression), 1int,
{
    if out_of_range(toks, pos) {
        Err(ErrorView::PositionOutOfRange)
    } else {
        wrap_ok(Kind::ConstantExpression, fwd(conditional_expression(toks, pos), toks, pos))
    }
}

} // verus!
