//! What it means to parse: the vocabulary in which every production of the
//! grammar is defined.
//!
//! A production is a function from the tokens and a position to a result:
//! the node it recognised and the position after it, or the reason why it
//! recognised nothing. Positions only ever grow; a production that fails
//! leaves nothing behind, so the next alternative starts where the failed
//! one started.

pub mod decl;
pub mod expr;
pub mod stmt;

use crate::ast::{node_types, typed, Kind, NodeView, ParseNode};
use crate::error::{ErrorView, Expected, ParseError};
use crate::rule::{rank, Rule};
use crate::token::{token_symbol, Symbol, TokenView};
use crate::sema::combine_types;
use crate::types::TypeView;
use vstd::prelude::*;

verus! {

/// What a production returns.
pub type Parsed = Result<(ParseNode, usize), ParseError>;

/// The mathematical value of what a production returns.
pub type ParsedView = Result<(NodeView, int), ErrorView>;

/// The value of a result.
pub open spec fn parsed_view(r: Parsed) -> ParsedView {
    match r {
        Ok((node, pos)) => Ok((node@, pos as int)),
        Err(e) => Err(e@),
    }
}

/// Whether a successful result ends after `pos` and within the tokens.
pub open spec fn advances(r: Parsed, len: usize, pos: usize) -> bool {
    r matches Ok((_, end)) ==> pos < end <= len
}

/// Whether the tree of a successful result is typed throughout.
pub open spec fn well_typed(r: Parsed) -> bool {
    r matches Ok((node, _)) ==> typed(node@)
}

/// Whether there is no token at the position.
pub open spec fn out_of_range(toks: Seq<TokenView>, pos: int) -> bool {
    pos < 0 || pos >= toks.len()
}

/// The symbol at the position, if a symbol is there.
pub open spec fn sym_at(toks: Seq<TokenView>, pos: int) -> Option<Symbol> {
    if out_of_range(toks, pos) {
        None
    } else {
        token_symbol(toks[pos])
    }
}

/// Whether the given symbol is at the position.
pub open spec fn at(toks: Seq<TokenView>, pos: int, s: Symbol) -> bool {
    sym_at(toks, pos) == Some(s)
}

/// The failure of a production at a token that cannot start it.
pub open spec fn unexpected(toks: Seq<TokenView>, pos: int, rule: Rule) -> ErrorView {
    ErrorView::UnexpectedToken { expected: Expected::Rule(rule), found: toks[pos], position: pos }
}

/// The failure to find the given symbol at the position.
pub open spec fn mismatch(toks: Seq<TokenView>, pos: int, s: Symbol) -> ErrorView {
    if out_of_range(toks, pos) {
        ErrorView::PositionOutOfRange
    } else {
        ErrorView::UnexpectedToken { expected: Expected::Symbol(s), found: toks[pos], position: pos }
    }
}

/// The failure of every alternative of a production.
pub open spec fn no_alternative(rule: Rule, pos: int) -> ErrorView {
    ErrorView::NoViableAlternative { rule, position: pos }
}

/// A result that moved forward: a success is kept only if it ends after
/// `pos` and within the tokens. Every production moves forward, so this
/// changes no result a production gives; it is what lets a definition
/// continue from the position another production returned.
pub open spec fn fwd(r: ParsedView, toks: Seq<TokenView>, pos: int) -> ParsedView {
    match r {
        Ok((_, end)) => if pos < end <= toks.len() {
            r
        } else {
            Err(ErrorView::PositionOutOfRange)
        },
        Err(_) => r,
    }
}

/// The result over one child: a success becomes a node of the given kind
/// over the node found, with its type; a failure stays.
pub open spec fn wrap_ok(kind: Kind, r: ParsedView) -> ParsedView {
    match r {
        Ok((child, end)) => Ok((NodeView::wrap(kind, child), end)),
        Err(e) => Err(e),
    }
}

/// How a list node is typed from its items.
#[derive(Clone, Copy, PartialEq, Eq, Structural, Debug)]
pub enum ListTyping {
    /// One item: its type. Several: the composite of their types.
    Flatten,
    /// Always the composite of the items' types.
    Composite,
    /// The type of the last item.
    Rightmost,
}

/// The type of a list node over the given items.
pub open spec fn list_type(typing: ListTyping, items: Seq<NodeView>) -> TypeView {
    match typing {
        ListTyping::Flatten => if items.len() == 1 {
            items[0].ty
        } else {
            TypeView::composite(node_types(items))
        },
        ListTyping::Composite => TypeView::composite(node_types(items)),
        ListTyping::Rightmost => items[items.len() - 1].ty,
    }
}

/// The position after the `}` that closes a braced list, which a single
/// comma may precede.
pub open spec fn closing_brace(toks: Seq<TokenView>, pos: int) -> Result<int, ErrorView> {
    if at(toks, pos, Symbol::RBrace) {
        Ok(pos + 1)
    } else if !at(toks, pos, Symbol::Comma) {
        Err(mismatch(toks, pos, Symbol::RBrace))
    } else if !at(toks, pos + 1, Symbol::RBrace) {
        Err(mismatch(toks, pos + 1, Symbol::RBrace))
    } else {
        Ok(pos + 2)
    }
}

/// Whether the production is a level of the binary-operator cascade.
pub open spec fn is_cascade(level: Rule) -> bool {
    level == Rule::MultiplicativeExpression || level == Rule::AdditiveExpression || level
        == Rule::ShiftExpression || level == Rule::RelationalExpression || level
        == Rule::EqualityExpression || level == Rule::AndExpression || level
        == Rule::ExclusiveOrExpression || level == Rule::InclusiveOrExpression || level
        == Rule::LogicalAndExpression || level == Rule::LogicalOrExpression
}

/// The production that reads the operands of a level: the next level up.
pub open spec fn operand_rule(level: Rule) -> Rule {
    match level {
        Rule::AdditiveExpression => Rule::MultiplicativeExpression,
        Rule::ShiftExpression => Rule::AdditiveExpression,
        Rule::RelationalExpression => Rule::ShiftExpression,
        Rule::EqualityExpression => Rule::RelationalExpression,
        Rule::AndExpression => Rule::EqualityExpression,
        Rule::ExclusiveOrExpression => Rule::AndExpression,
        Rule::InclusiveOrExpression => Rule::ExclusiveOrExpression,
        Rule::LogicalAndExpression => Rule::InclusiveOrExpression,
        Rule::LogicalOrExpression => Rule::LogicalAndExpression,
        _ => Rule::CastExpression,
    }
}

/// The kind of the node that a level makes.
pub open spec fn level_kind(level: Rule) -> Kind {
    match level {
        Rule::AdditiveExpression => Kind::AdditiveExpression,
        Rule::ShiftExpression => Kind::ShiftExpression,
        Rule::RelationalExpression => Kind::RelationalExpression,
        Rule::EqualityExpression => Kind::EqualityExpression,
        Rule::AndExpression => Kind::AndExpression,
        Rule::ExclusiveOrExpression => Kind::ExclusiveOrExpression,
        Rule::InclusiveOrExpression => Kind::InclusiveOrExpression,
        Rule::LogicalAndExpression => Kind::LogicalAndExpression,
        Rule::LogicalOrExpression => Kind::LogicalOrExpression,
        _ => Kind::MultiplicativeExpression,
    }
}

/// Whether the symbol is an operator of the level.
pub open spec fn is_level_operator(level: Rule, s: Symbol) -> bool {
    match level {
        Rule::MultiplicativeExpression => s == Symbol::Star || s == Symbol::Slash || s
            == Symbol::Percent,
        Rule::AdditiveExpression => s == Symbol::Plus || s == Symbol::Minus,
        Rule::ShiftExpression => s == Symbol::ShiftLeft || s == Symbol::ShiftRight,
        Rule::RelationalExpression => s == Symbol::Less || s == Symbol::Greater || s
            == Symbol::LessEqual || s == Symbol::GreaterEqual,
        Rule::EqualityExpression => s == Symbol::EqualEqual || s == Symbol::NotEqual,
        Rule::AndExpression => s == Symbol::Ampersand,
        Rule::ExclusiveOrExpression => s == Symbol::Caret,
        Rule::InclusiveOrExpression => s == Symbol::Pipe,
        Rule::LogicalAndExpression => s == Symbol::AndAnd,
        Rule::LogicalOrExpression => s == Symbol::OrOr,
        _ => false,
    }
}

/// The operator of the level at the position, if one is there.
pub open spec fn level_operator_at(level: Rule, toks: Seq<TokenView>, pos: int) -> Option<Symbol> {
    match sym_at(toks, pos) {
        Some(s) => if is_level_operator(level, s) {
            Some(s)
        } else {
            None
        },
        None => None,
    }
}

/// The node of `left op right`, typed by the rules for the operator, or the
/// failure where the rules reject the operands.
pub open spec fn combine(left: NodeView, right: NodeView, op: Symbol) -> Result<
    NodeView,
    ErrorView,
> {
    match combine_types(left.ty, right.ty, op) {
        Some(ty) => Ok(NodeView::binary(Kind::BinaryExpression(op), left, right, ty)),
        None => Err(
            ErrorView::IllegalTypeCombination { left: left.ty, right: right.ty, operator: op },
        ),
    }
}

/// What follows the left operand of a level: while an operator of the level
/// is at the position, the next operand is read and joined to what was read
/// so far, which becomes the left operand of the next operator. So the
/// operators of one level group to the left. The first operand that fails,
/// or that the rules reject, fails the whole.
pub open spec fn binary_fold(level: Rule, toks: Seq<TokenView>, left: NodeView, pos: int) -> ParsedView
    decreases toks.len() - pos, rank(level), 0int,
{
    if !is_cascade(level) {
        Ok((left, pos))
    } else {
        match level_operator_at(level, toks, pos) {
            None => Ok((left, pos)),
            Some(op) => match fwd(parse(operand_rule(level), toks, pos + 1), toks, pos + 1) {
                Err(e) => Err(e),
                Ok((right, p)) => match combine(left, right, op) {
                    Err(e) => Err(e),
                    Ok(joined) => binary_fold(level, toks, joined, p),
                },
            },
        }
    }
}

/// A level of the cascade: operand { operator operand }. Its node is over
/// the single tree that the fold leaves, and has its type: with no operator
/// that is the operand itself and its type, unchanged.
pub open spec fn binary_level(level: Rule, toks: Seq<TokenView>, pos: int) -> ParsedView
    decreases toks.len() - pos, rank(level), 0int,
{
    if !is_cascade(level) {
        Err(no_alternative(level, pos))
    } else if out_of_range(toks, pos) {
        Err(ErrorView::PositionOutOfRange)
    } else {
        match fwd(parse(operand_rule(level), toks, pos), toks, pos) {
            Err(e) => Err(e),
            Ok((first, p)) => wrap_ok(level_kind(level), binary_fold(level, toks, first, p)),
        }
    }
}

/// What follows the first item of a comma-separated list: while a comma is
/// at the position and an item follows it, the item joins the list. A comma
/// that no item follows is left where it is.
pub open spec fn separated_tail(
    item: Rule,
    toks: Seq<TokenView>,
    items: Seq<NodeView>,
    pos: int,
) -> (Seq<NodeView>, int)
    decreases toks.len() - pos, rank(item), 3int,
{
    if !at(toks, pos, Symbol::Comma) {
        (items, pos)
    } else {
        match fwd(parse(item, toks, pos + 1), toks, pos + 1) {
            Ok((next, p)) => separated_tail(item, toks, items.push(next), p),
            Err(_) => (items, pos),
        }
    }
}

/// A comma-separated list of one item or more.
pub open spec fn separated_list(
    kind: Kind,
    item: Rule,
    typing: ListTyping,
    toks: Seq<TokenView>,
    pos: int,
) -> ParsedView
    decreases toks.len() - pos, rank(item), 3int,
{
    if out_of_range(toks, pos) {
        Err(ErrorView::PositionOutOfRange)
    } else {
        match fwd(parse(item, toks, pos), toks, pos) {
            Err(e) => Err(e),
            Ok((first, p)) => {
                let (items, end) = separated_tail(item, toks, seq![first], p);
                Ok((NodeView::of(kind, items, list_type(typing, items)), end))
            },
        }
    }
}

/// What follows the items read so far of a list without separators: items
/// join the list until one fails.
pub open spec fn repeated_tail(
    item: Rule,
    toks: Seq<TokenView>,
    items: Seq<NodeView>,
    pos: int,
) -> (Seq<NodeView>, int)
    decreases toks.len() - pos, rank(item), 3int,
{
    match fwd(parse(item, toks, pos), toks, pos) {
        Ok((next, p)) => repeated_tail(item, toks, items.push(next), p),
        Err(_) => (items, pos),
    }
}

/// A list without separators, of one item or more.
pub open spec fn repeated_list(
    kind: Kind,
    item: Rule,
    typing: ListTyping,
    toks: Seq<TokenView>,
    pos: int,
) -> ParsedView
    decreases toks.len() - pos, rank(item), 3int,
{
    if out_of_range(toks, pos) {
        Err(ErrorView::PositionOutOfRange)
    } else {
        match fwd(parse(item, toks, pos), toks, pos) {
            Err(e) => Err(e),
            Ok((first, p)) => {
                let (items, end) = repeated_tail(item, toks, seq![first], p);
                Ok((NodeView::of(kind, items, list_type(typing, items)), end))
            },
        }
    }
}

/// The production of the given name, at the position.

pub open spec fn parse(rule: Rule, toks: Seq<TokenView>, pos: int) -> ParsedView
    decreases toks.len() - pos, rank(rule), 2int,
{
    match rule {
        Rule::Identifier => crate::grammar::expr::identifier(toks, pos),
        Rule::Constant => crate::grammar::expr::constant(toks, pos),
        Rule::EnumerationConstant => crate::grammar::expr::enumeration_constant(toks, pos),
        Rule::StringLiteral => crate::grammar::expr::string(toks, pos),
        Rule::PrimaryExpression => crate::grammar::expr::primary_expression(toks, pos),
        Rule::GenericSelection => crate::grammar::expr::generic_selection(toks, pos),
        Rule::GenericAssocList => crate::grammar::expr::generic_assoc_list(toks, pos),
        Rule::GenericAssociation => crate::grammar::expr::generic_association(toks, pos),
        Rule::PostfixExpression => crate::grammar::expr::postfix_expression(toks, pos),
        Rule::PostfixExpressionPost => crate::grammar::expr::postfix_expression_post(toks, pos),
        Rule::ArgumentExpressionList => crate::grammar::expr::argument_expression_list(toks, pos),
        Rule::UnaryExpression => crate::grammar::expr::unary_expression(toks, pos),
        Rule::UnaryOperator => crate::grammar::expr::unary_operator(toks, pos),
        Rule::CastExpression => crate::grammar::expr::cast_expression(toks, pos),
        Rule::MultiplicativeExpression => binary_level(rule, toks, pos),
        Rule::AdditiveExpression => binary_level(rule, toks, pos),
        Rule::ShiftExpression => binary_level(rule, toks, pos),
        Rule::RelationalExpression => binary_level(rule, toks, pos),
        Rule::EqualityExpression => binary_level(rule, toks, pos),
        Rule::AndExpression => binary_level(rule, toks, pos),
        Rule::ExclusiveOrExpression => binary_level(rule, toks, pos),
        Rule::InclusiveOrExpression => binary_level(rule, toks, pos),
        Rule::LogicalAndExpression => binary_level(rule, toks, pos),
        Rule::LogicalOrExpression => binary_level(rule, toks, pos),
        Rule::ConditionalExpression => crate::grammar::expr::conditional_expression(toks, pos),
        Rule::AssignmentExpression => crate::grammar::expr::assignment_expression(toks, pos),
        Rule::AssignmentOperator => crate::grammar::expr::assignment_operator(toks, pos),
        Rule::Expression => crate::grammar::expr::expression(toks, pos),
        Rule::ConstantExpression => crate::grammar::expr::constant_expression(toks, pos),
        Rule::Declaration => crate::grammar::decl::declaration(toks, pos),
        Rule::DeclarationSpecifiers => crate::grammar::decl::declaration_specifiers(toks, pos),
        Rule::InitDeclaratorList => crate::grammar::decl::init_declarator_list(toks, pos),
        Rule::InitDeclarator => crate::grammar::decl::init_declarator(toks, pos),
        Rule::StorageClassSpecifier => crate::grammar::decl::storage_class_specifier(toks, pos),
        Rule::TypeSpecifier => crate::grammar::decl::type_specifier(toks, pos),
        Rule::StructOrUnionSpecifier => crate::grammar::decl::struct_or_union_specifier(toks, pos),
        Rule::StructOrUnion => crate::grammar::decl::struct_or_union(toks, pos),
        Rule::StructDeclarationList => crate::grammar::decl::struct_declaration_list(toks, pos),
        Rule::StructDeclaration => crate::grammar::decl::struct_declaration(toks, pos),
        Rule::SpecifierQualifierList => crate::grammar::decl::specifier_qualifier_list(toks, pos),
        Rule::StructDeclaratorList => crate::grammar::decl::struct_declarator_list(toks, pos),
        Rule::StructDeclarator => crate::grammar::decl::struct_declarator(toks, pos),
        Rule::EnumSpecifier => crate::grammar::decl::enum_specifier(toks, pos),
        Rule::EnumeratorList => crate::grammar::decl::enumerator_list(toks, pos),
        Rule::Enumerator => crate::grammar::decl::enumerator(toks, pos),
        Rule::AtomicTypeSpecifier => crate::grammar::decl::atomic_type_specifier(toks, pos),
        Rule::TypeQualifier => crate::grammar::decl::type_qualifier(toks, pos),
        Rule::FunctionSpecifier => crate::grammar::decl::function_specifier(toks, pos),
        Rule::AlignmentSpecifier => crate::grammar::decl::alignment_specifier(toks, pos),
        Rule::Declarator => crate::grammar::decl::declarator(toks, pos),
        Rule::DirectDeclarator => crate::grammar::decl::direct_declarator(toks, pos),
        Rule::DirectDeclaratorPostList => crate::grammar::decl::direct_declarator_post_list(toks, pos),
        Rule::DirectDeclaratorPost => crate::grammar::decl::direct_declarator_post(toks, pos),
        Rule::Pointer => crate::grammar::decl::pointer(toks, pos),
        Rule::TypeQualifierList => crate::grammar::decl::type_qualifier_list(toks, pos),
        Rule::ParameterTypeList => crate::grammar::decl::parameter_type_list(toks, pos),
        Rule::ParameterList => crate::grammar::decl::parameter_list(toks, pos),
        Rule::ParameterDeclaration => crate::grammar::decl::parameter_declaration(toks, pos),
        Rule::IdentifierList => crate::grammar::decl::identifier_list(toks, pos),
        Rule::TypeName => crate::grammar::decl::typename(toks, pos),
        Rule::AbstractDeclarator => crate::grammar::decl::abstract_declarator(toks, pos),
        Rule::DirectAbstractDeclarator => crate::grammar::decl::direct_abstract_declarator(toks, pos),
        Rule::DirectAbstractDeclaratorBlock => crate::grammar::decl::direct_abstract_declarator_block(toks, pos),
        Rule::Initializer => crate::grammar::decl::initializer(toks, pos),
        Rule::InitializerList => crate::grammar::decl::initializer_list(toks, pos),
        Rule::Designation => crate::grammar::decl::designation(toks, pos),
        Rule::DesignatorList => crate::grammar::decl::designator_list(toks, pos),
        Rule::Designator => crate::grammar::decl::designator(toks, pos),
        Rule::StaticAssertDeclaration => crate::grammar::decl::static_assert_declaration(toks, pos),
        Rule::Statement => crate::grammar::stmt::statement(toks, pos),
        Rule::LabeledStatement => crate::grammar::stmt::labeled_statement(toks, pos),
        Rule::CompoundStatement => crate::grammar::stmt::compound_statement(toks, pos),
        Rule::BlockItemList => crate::grammar::stmt::block_item_list(toks, pos),
        Rule::BlockItem => crate::grammar::stmt::block_item(toks, pos),
        Rule::ExpressionStatement => crate::grammar::stmt::expression_statement(toks, pos),
        Rule::SelectionStatement => crate::grammar::stmt::selection_statement(toks, pos),
        Rule::IterationStatement => crate::grammar::stmt::iteration_statement(toks, pos),
        Rule::JumpStatement => crate::grammar::stmt::jump_statement(toks, pos),
        Rule::ExternalDeclaration => crate::grammar::stmt::external_declaration(toks, pos),
        Rule::FunctionDefinition => crate::grammar::stmt::function_definition(toks, pos),
        Rule::DeclarationList => crate::grammar::stmt::declaration_list(toks, pos),
        Rule::TranslationUnit => crate::grammar::stmt::translation_unit(toks, pos),
    }
}

} // verus!
