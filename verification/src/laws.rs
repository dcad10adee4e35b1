//! What holds of every parse.
//!
//! First, that positions only move forward: a production that succeeds ends
//! after the position it started at, and within the tokens. Then the laws
//! that rest on it.

use crate::ast::{ConstantView, Kind, NodeView, ParseNode};
use crate::error::{ErrorView, ParseError};
use crate::grammar::decl::{
    abstract_declarator, alignment_specifier, array_suffix, atomic_type_specifier,
    compound_type_specifier, declaration, declaration_specifiers, declarator, designation,
    designator, direct_abstract_declarator_block, direct_declarator, direct_declarator_post,
    enum_specifier, enumerator, function_specifier, fwd_item, init_declarator, initializer,
    initializer_item, initializer_list, initializer_tail, parameter_declaration,
    parameter_type_list, pointer, specifier_qualifier_list, static_assert_declaration,
    storage_class_specifier, struct_declaration, struct_declarator, struct_or_union,
    struct_or_union_specifier, type_qualifier, type_specifier, typename,
};
use crate::grammar::expr::{
    assignment_expression, assignment_operator, assignment_parts, cast_expression,
    conditional_expression, constant, constant_expression, enumeration_constant, expression,
    generic_association, generic_selection, identifier, is_condition_type,
    parenthesized_type_name, postfix_expression, postfix_expression_post, primary_expression,
    string, unary_expression, unary_operator,
};
use crate::grammar::stmt::{
    block_item, compound_statement, expression_statement, external_declaration, for_init,
    for_parts, for_tail, function_definition, iteration_statement, jump_statement,
    labeled_statement, selection_statement, statement, statement_body, translation_unit,
};
use crate::grammar::{
    at, binary_fold, binary_level, closing_brace, combine, fwd, is_cascade, level_kind,
    level_operator_at, operand_rule, out_of_range, parse, repeated_list, repeated_tail,
    separated_list, separated_tail, ListTyping, ParsedView,
};
use crate::parser::{driver_view, parse_source};
use crate::rule::Rule;
use crate::sema::{cast_legal, types_same};
use crate::token::{tokens_view, Symbol, Token, TokenView};
use crate::types::{BaseTypeView, TypeView};
use vstd::prelude::*;

verus! {

/// Whether a result, if it is a success, ends after `pos` and within the
/// tokens.
pub open spec fn ends_after(r: ParsedView, toks: Seq<TokenView>, pos: int) -> bool {
    r matches Ok((_, end)) ==> pos < end <= toks.len()
}

/// The fold of a level ends at or after the position it starts at.
pub proof fn lemma_binary_fold_bounds(level: Rule, toks: Seq<TokenView>, left: NodeView, pos: int)
    requires
        pos <= toks.len(),
    ensures
        binary_fold(level, toks, left, pos) matches Ok((_, end)) ==> pos <= end <= toks.len(),
    decreases toks.len() - pos,
{
    if is_cascade(level) {
        match level_operator_at(level, toks, pos) {
            None => {},
            Some(op) => match fwd(parse(operand_rule(level), toks, pos + 1), toks, pos + 1) {
                Err(_) => {},
                Ok((right, p)) => match combine(left, right, op) {
                    Err(_) => {},
                    Ok(joined) => {
                        lemma_binary_fold_bounds(level, toks, joined, p);
                    },
                },
            },
        }
    }
}

/// A level of the cascade moves forward.
pub proof fn lemma_binary_level_advances(level: Rule, toks: Seq<TokenView>, pos: int)
    ensures
        ends_after(binary_level(level, toks, pos), toks, pos),
{
    if is_cascade(level) && !out_of_range(toks, pos) {
        match fwd(parse(operand_rule(level), toks, pos), toks, pos) {
            Err(_) => {},
            Ok((first, p)) => {
                lemma_binary_fold_bounds(level, toks, first, p);
            },
        }
    }
}

/// What follows the first item of a comma-separated list ends at or after
/// the position it starts at, and keeps the items it was given, in their
/// order, before the items it reads.
pub proof fn lemma_separated_tail_bounds(
    item: Rule,
    toks: Seq<TokenView>,
    items: Seq<NodeView>,
    pos: int,
)
    requires
        pos <= toks.len(),
    ensures
        pos <= separated_tail(item, toks, items, pos).1 <= toks.len(),
        separated_tail(item, toks, items, pos).0.len() >= items.len(),
        items.is_prefix_of(separated_tail(item, toks, items, pos).0),
    decreases toks.len() - pos,
{
    if at(toks, pos, Symbol::Comma) {
        match fwd(parse(item, toks, pos + 1), toks, pos + 1) {
            Ok((next, p)) => {
                lemma_separated_tail_bounds(item, toks, items.push(next), p);
                let out = separated_tail(item, toks, items.push(next), p).0;
                assert(items =~= out.subrange(0, items.len() as int)) by {
                    assert(items.push(next) =~= out.subrange(0, items.len() as int + 1));
                    assert forall|i: int| 0 <= i < items.len() implies items[i] == out[i] by {
                        assert(items.push(next)[i] == out.subrange(0, items.len() as int + 1)[i]);
                    }
                }
            },
            Err(_) => {},
        }
    }
}

/// A comma-separated list moves forward.
pub proof fn lemma_separated_list_advances(
    kind: Kind,
    item: Rule,
    typing: ListTyping,
    toks: Seq<TokenView>,
    pos: int,
)
    ensures
        ends_after(separated_list(kind, item, typing, toks, pos), toks, pos),
{
    if !out_of_range(toks, pos) {
        match fwd(parse(item, toks, pos), toks, pos) {
            Err(_) => {},
            Ok((first, p)) => {
                lemma_separated_tail_bounds(item, toks, seq![first], p);
            },
        }
    }
}

/// What follows the items of a list without separators ends at or after the
/// position it starts at, and keeps the items it was given, in their order,
/// before the items it reads: so suffixes stand in the order in which they
/// are written.
pub proof fn lemma_repeated_tail_bounds(
    item: Rule,
    toks: Seq<TokenView>,
    items: Seq<NodeView>,
    pos: int,
)
    requires
        pos <= toks.len(),
    ensures
        pos <= repeated_tail(item, toks, items, pos).1 <= toks.len(),
        repeated_tail(item, toks, items, pos).0.len() >= items.len(),
        items.is_prefix_of(repeated_tail(item, toks, items, pos).0),
    decreases toks.len() - pos,
{
    match fwd(parse(item, toks, pos), toks, pos) {
        Ok((next, p)) => {
            lemma_repeated_tail_bounds(item, toks, items.push(next), p);
            let out = repeated_tail(item, toks, items.push(next), p).0;
            assert(items =~= out.subrange(0, items.len() as int)) by {
                assert(items.push(next) =~= out.subrange(0, items.len() as int + 1));
                assert forall|i: int| 0 <= i < items.len() implies items[i] == out[i] by {
                    assert(items.push(next)[i] == out.subrange(0, items.len() as int + 1)[i]);
                }
            }
        },
        Err(_) => {},
    }
}

/// A list without separators moves forward.
pub proof fn lemma_repeated_list_advances(
    kind: Kind,
    item: Rule,
    typing: ListTyping,
    toks: Seq<TokenView>,
    pos: int,
)
    ensures
        ends_after(repeated_list(kind, item, typing, toks, pos), toks, pos),
{
    if !out_of_range(toks, pos) {
        match fwd(parse(item, toks, pos), toks, pos) {
            Err(_) => {},
            Ok((first, p)) => {
                lemma_repeated_tail_bounds(item, toks, seq![first], p);
            },
        }
    }
}

/// A postfix expression moves forward.
pub proof fn lemma_postfix_advances(toks: Seq<TokenView>, pos: int)
    ensures
        ends_after(postfix_expression(toks, pos), toks, pos),
{
    if !out_of_range(toks, pos) {
        match fwd(primary_expression(toks, pos), toks, pos) {
            Ok((first, p)) => {
                lemma_repeated_tail_bounds(Rule::PostfixExpressionPost, toks, seq![first], p);
            },
            Err(_) => {
                if at(toks, pos, Symbol::LParen) {
                    match fwd(typename(toks, pos + 1), toks, pos + 1) {
                        Err(_) => {},
                        Ok((name, e1)) => {
                            match fwd(initializer_list(toks, e1 + 2), toks, e1 + 2) {
                                Err(_) => {},
                                Ok((list, e2)) => match closing_brace(toks, e2) {
                                    Err(_) => {},
                                    Ok(e3) => {
                                        lemma_repeated_tail_bounds(
                                            Rule::PostfixExpressionPost,
                                            toks,
                                            seq![name, list],
                                            e3,
                                        );
                                    },
                                },
                            }
                        },
                    }
                }
            },
        }
    }
}

/// What follows the first item of an initializer list ends at or after the
/// position it starts at.
pub proof fn lemma_initializer_tail_bounds(
    toks: Seq<TokenView>,
    nodes: Seq<NodeView>,
    types: Seq<TypeView>,
    pos: int,
)
    requires
        pos <= toks.len(),
    ensures
        pos <= initializer_tail(toks, nodes, types, pos).2 <= toks.len(),
        initializer_tail(toks, nodes, types, pos).1.len() >= types.len(),
    decreases toks.len() - pos,
{
    if at(toks, pos, Symbol::Comma) {
        match fwd_item(initializer_item(toks, pos + 1), toks, pos + 1) {
            Ok((more, ty, p)) => {
                lemma_initializer_tail_bounds(toks, nodes + more, types.push(ty), p);
            },
            Err(_) => {},
        }
    }
}

/// An initializer list moves forward.
pub proof fn lemma_initializer_list_advances(toks: Seq<TokenView>, pos: int)
    ensures
        ends_after(initializer_list(toks, pos), toks, pos),
{
    if !out_of_range(toks, pos) {
        match fwd_item(initializer_item(toks, pos), toks, pos) {
            Err(_) => {},
            Ok((first, ty, p)) => {
                lemma_initializer_tail_bounds(toks, first, seq![ty], p);
            },
        }
    }
}

/// The parts of a `for` end after the position they start at.
pub proof fn lemma_for_advances(toks: Seq<TokenView>, pos: int)
    ensures
        for_parts(toks, pos) matches Ok((_, end)) ==> pos < end <= toks.len(),
{
    match fwd(for_init(toks, pos), toks, pos) {
        Err(_) => {},
        Ok((init, p)) => match fwd(expression_statement(toks, p), toks, p) {
            Err(_) => {},
            Ok((test, q)) => {
                assert(for_tail(toks, init, test, q) matches Ok((_, end)) ==> q < end
                    <= toks.len());
            },
        },
    }
}

/// The production `identifier` moves forward.
pub proof fn lemma_identifier_advances(toks: Seq<TokenView>, pos: int)
    ensures
        ends_after(identifier(toks, pos), toks, pos),
{
}

/// The production `constant` moves forward.
pub proof fn lemma_constant_advances(toks: Seq<TokenView>, pos: int)
    ensures
        ends_after(constant(toks, pos), toks, pos),
{
}

/// The production `enumeration-constant` moves forward.
pub proof fn lemma_enumeration_constant_advances(toks: Seq<TokenView>, pos: int)
    ensures
        ends_after(enumeration_constant(toks, pos), toks, pos),
{
}

/// The production `string-literal` moves forward.
pub proof fn lemma_string_advances(toks: Seq<TokenView>, pos: int)
    ensures
        ends_after(string(toks, pos), toks, pos),
{
}

/// The production `primary-expression` moves forward.
pub proof fn lemma_primary_expression_advances(toks: Seq<TokenView>, pos: int)
    ensures
        ends_after(primary_expression(toks, pos), toks, pos),
{
}

/// The production `generic-selection` moves forward.
pub proof fn lemma_generic_selection_advances(toks: Seq<TokenView>, pos: int)
    ensures
        ends_after(generic_selection(toks, pos), toks, pos),
{
}

/// The production `generic-association` moves forward.
pub proof fn lemma_generic_association_advances(toks: Seq<TokenView>, pos: int)
    ensures
        ends_after(generic_association(toks, pos), toks, pos),
{
}

/// The production `postfix-expression-post` moves forward.
pub proof fn lemma_postfix_expression_post_advances(toks: Seq<TokenView>, pos: int)
    ensures
        ends_after(postfix_expression_post(toks, pos), toks, pos),
{
}

/// The production `unary-expression` moves forward.
pub proof fn lemma_unary_expression_advances(toks: Seq<TokenView>, pos: int)
    ensures
        ends_after(unary_expression(toks, pos), toks, pos),
{
}

/// The production `unary-operator` moves forward.
pub proof fn lemma_unary_operator_advances(toks: Seq<TokenView>, pos: int)
    ensures
        ends_after(unary_operator(toks, pos), toks, pos),
{
}

/// The production `cast-expression` moves forward.
pub proof fn lemma_cast_expression_advances(toks: Seq<TokenView>, pos: int)
    ensures
        ends_after(cast_expression(toks, pos), toks, pos),
{
}

/// The production `conditional-expression` moves forward.
pub proof fn lemma_conditional_expression_advances(toks: Seq<TokenView>, pos: int)
    ensures
        ends_after(conditional_expression(toks, pos), toks, pos),
{
}

/// The production `assignment-expression` moves forward.
pub proof fn lemma_assignment_expression_advances(toks: Seq<TokenView>, pos: int)
    ensures
        ends_after(assignment_expression(toks, pos), toks, pos),
{
    assert(assignment_parts(toks, pos) matches Some((_, _, _, end)) ==> pos < end <= toks.len());
}

/// The production `assignment-operator` moves forward.
pub proof fn lemma_assignment_operator_advances(toks: Seq<TokenView>, pos: int)
    ensures
        ends_after(assignment_operator(toks, pos), toks, pos),
{
}

/// The production `constant-expression` moves forward.
pub proof fn lemma_constant_expression_advances(toks: Seq<TokenView>, pos: int)
    ensures
        ends_after(constant_expression(toks, pos), toks, pos),
{
}

/// The production `declaration` moves forward.
pub proof fn lemma_declaration_advances(toks: Seq<TokenView>, pos: int)
    ensures
        ends_after(declaration(toks, pos), toks, pos),
{
}

/// The production `declaration-specifiers` moves forward.
pub proof fn lemma_declaration_specifiers_advances(toks: Seq<TokenView>, pos: int)
    ensures
        ends_after(declaration_specifiers(toks, pos), toks, pos),
{
}

/// The production `init-declarator` moves forward.
pub proof fn lemma_init_declarator_advances(toks: Seq<TokenView>, pos: int)
    ensures
        ends_after(init_declarator(toks, pos), toks, pos),
{
}

/// The production `storage-class-specifier` moves forward.
pub proof fn lemma_storage_class_specifier_advances(toks: Seq<TokenView>, pos: int)
    ensures
        ends_after(storage_class_specifier(toks, pos), toks, pos),
{
}

/// The production `type-specifier` moves forward.
pub proof fn lemma_type_specifier_advances(toks: Seq<TokenView>, pos: int)
    ensures
        ends_after(type_specifier(toks, pos), toks, pos),
{
    assert(ends_after(compound_type_specifier(toks, pos), toks, pos));
}

/// The production `struct-or-union-specifier` moves forward.
pub proof fn lemma_struct_or_union_specifier_advances(toks: Seq<TokenView>, pos: int)
    ensures
        ends_after(struct_or_union_specifier(toks, pos), toks, pos),
{
}

/// The production `struct-or-union` moves forward.
pub proof fn lemma_struct_or_union_advances(toks: Seq<TokenView>, pos: int)
    ensures
        ends_after(struct_or_union(toks, pos), toks, pos),
{
}

/// The production `struct-declaration` moves forward.
pub proof fn lemma_struct_declaration_advances(toks: Seq<TokenView>, pos: int)
    ensures
        ends_after(struct_declaration(toks, pos), toks, pos),
{
}

/// The production `specifier-qualifier-list` moves forward.
pub proof fn lemma_specifier_qualifier_list_advances(toks: Seq<TokenView>, pos: int)
    ensures
        ends_after(specifier_qualifier_list(toks, pos), toks, pos),
{
}

/// The production `struct-declarator` moves forward.
pub proof fn lemma_struct_declarator_advances(toks: Seq<TokenView>, pos: int)
    ensures
        ends_after(struct_declarator(toks, pos), toks, pos),
{
}

/// The production `enum-specifier` moves forward.
pub proof fn lemma_enum_specifier_advances(toks: Seq<TokenView>, pos: int)
    ensures
        ends_after(enum_specifier(toks, pos), toks, pos),
{
}

/// The production `enumerator` moves forward.
pub proof fn lemma_enumerator_advances(toks: Seq<TokenView>, pos: int)
    ensures
        ends_after(enumerator(toks, pos), toks, pos),
{
}

/// The production `atomic-type-specifier` moves forward.
pub proof fn lemma_atomic_type_specifier_advances(toks: Seq<TokenView>, pos: int)
    ensures
        ends_after(atomic_type_specifier(toks, pos), toks, pos),
{
}

/// The production `type-qualifier` moves forward.
pub proof fn lemma_type_qualifier_advances(toks: Seq<TokenView>, pos: int)
    ensures
        ends_after(type_qualifier(toks, pos), toks, pos),
{
}

/// The production `function-specifier` moves forward.
pub proof fn lemma_function_specifier_advances(toks: Seq<TokenView>, pos: int)
    ensures
        ends_after(function_specifier(toks, pos), toks, pos),
{
}

/// The production `alignment-specifier` moves forward.
pub proof fn lemma_alignment_specifier_advances(toks: Seq<TokenView>, pos: int)
    ensures
        ends_after(alignment_specifier(toks, pos), toks, pos),
{
}

/// The production `declarator` moves forward.
pub proof fn lemma_declarator_advances(toks: Seq<TokenView>, pos: int)
    ensures
        ends_after(declarator(toks, pos), toks, pos),
{
}

/// The production `direct-declarator` moves forward.
pub proof fn lemma_direct_declarator_advances(toks: Seq<TokenView>, pos: int)
    ensures
        ends_after(direct_declarator(toks, pos), toks, pos),
{
}

/// The production `direct-declarator-post` moves forward.
pub proof fn lemma_direct_declarator_post_advances(toks: Seq<TokenView>, pos: int)
    ensures
        ends_after(direct_declarator_post(toks, pos), toks, pos),
{
    assert(ends_after(array_suffix(Kind::DirectDeclaratorPost(Symbol::LBracket), toks, pos), toks, pos));
}

/// The production `pointer` moves forward.
pub proof fn lemma_pointer_advances(toks: Seq<TokenView>, pos: int)
    ensures
        ends_after(pointer(toks, pos), toks, pos),
{
}

/// The production `parameter-type-list` moves forward.
pub proof fn lemma_parameter_type_list_advances(toks: Seq<TokenView>, pos: int)
    ensures
        ends_after(parameter_type_list(toks, pos), toks, pos),
{
}

/// The production `parameter-declaration` moves forward.
pub proof fn lemma_parameter_declaration_advances(toks: Seq<TokenView>, pos: int)
    ensures
        ends_after(parameter_declaration(toks, pos), toks, pos),
{
}

/// The production `type-name` moves forward.
pub proof fn lemma_typename_advances(toks: Seq<TokenView>, pos: int)
    ensures
        ends_after(typename(toks, pos), toks, pos),
{
}

/// The production `abstract-declarator` moves forward.
pub proof fn lemma_abstract_declarator_advances(toks: Seq<TokenView>, pos: int)
    ensures
        ends_after(abstract_declarator(toks, pos), toks, pos),
{
}

/// The production `direct-abstract-declarator-block` moves forward.
pub proof fn lemma_direct_abstract_declarator_block_advances(toks: Seq<TokenView>, pos: int)
    ensures
        ends_after(direct_abstract_declarator_block(toks, pos), toks, pos),
{
    assert(ends_after(array_suffix(Kind::DirectAbstractDeclaratorBlock(Symbol::LBracket), toks, pos), toks, pos));
}

/// The production `initializer` moves forward.
pub proof fn lemma_initializer_advances(toks: Seq<TokenView>, pos: int)
    ensures
        ends_after(initializer(toks, pos), toks, pos),
{
}

/// The production `designation` moves forward.
pub proof fn lemma_designation_advances(toks: Seq<TokenView>, pos: int)
    ensures
        ends_after(designation(toks, pos), toks, pos),
{
}

/// The production `designator` moves forward.
pub proof fn lemma_designator_advances(toks: Seq<TokenView>, pos: int)
    ensures
        ends_after(designator(toks, pos), toks, pos),
{
}

/// The production `static-assert-declaration` moves forward.
pub proof fn lemma_static_assert_declaration_advances(toks: Seq<TokenView>, pos: int)
    ensures
        ends_after(static_assert_declaration(toks, pos), toks, pos),
{
}

/// The production `statement` moves forward.
pub proof fn lemma_statement_advances(toks: Seq<TokenView>, pos: int)
    ensures
        ends_after(statement(toks, pos), toks, pos),
{
    assert(ends_after(statement_body(toks, pos), toks, pos));
}

/// The production `labeled-statement` moves forward.
pub proof fn lemma_labeled_statement_advances(toks: Seq<TokenView>, pos: int)
    ensures
        ends_after(labeled_statement(toks, pos), toks, pos),
{
}

/// The production `compound-statement` moves forward.
pub proof fn lemma_compound_statement_advances(toks: Seq<TokenView>, pos: int)
    ensures
        ends_after(compound_statement(toks, pos), toks, pos),
{
}

/// The production `block-item` moves forward.
pub proof fn lemma_block_item_advances(toks: Seq<TokenView>, pos: int)
    ensures
        ends_after(block_item(toks, pos), toks, pos),
{
}

/// The production `expression-statement` moves forward.
pub proof fn lemma_expression_statement_advances(toks: Seq<TokenView>, pos: int)
    ensures
        ends_after(expression_statement(toks, pos), toks, pos),
{
}

/// The production `selection-statement` moves forward.
pub proof fn lemma_selection_statement_advances(toks: Seq<TokenView>, pos: int)
    ensures
        ends_after(selection_statement(toks, pos), toks, pos),
{
}

/// The production `iteration-statement` moves forward.
pub proof fn lemma_iteration_statement_advances(toks: Seq<TokenView>, pos: int)
    ensures
        ends_after(iteration_statement(toks, pos), toks, pos),
{
    lemma_for_advances(toks, pos + 2);
}

/// The production `jump-statement` moves forward.
pub proof fn lemma_jump_statement_advances(toks: Seq<TokenView>, pos: int)
    ensures
        ends_after(jump_statement(toks, pos), toks, pos),
{
}

/// The production `external-declaration` moves forward.
pub proof fn lemma_external_declaration_advances(toks: Seq<TokenView>, pos: int)
    ensures
        ends_after(external_declaration(toks, pos), toks, pos),
{
}

/// The production `function-definition` moves forward.
pub proof fn lemma_function_definition_advances(toks: Seq<TokenView>, pos: int)
    ensures
        ends_after(function_definition(toks, pos), toks, pos),
{
}

/// Positions only move forward: whatever production succeeds at a position
/// ends after it, and within the tokens.
pub proof fn lemma_advances(rule: Rule, toks: Seq<TokenView>, pos: int)
    ensures
        ends_after(parse(rule, toks, pos), toks, pos),
{
    match rule {
        Rule::Identifier => lemma_identifier_advances(toks, pos),
        Rule::Constant => lemma_constant_advances(toks, pos),
        Rule::EnumerationConstant => lemma_enumeration_constant_advances(toks, pos),
        Rule::StringLiteral => lemma_string_advances(toks, pos),
        Rule::PrimaryExpression => lemma_primary_expression_advances(toks, pos),
        Rule::GenericSelection => lemma_generic_selection_advances(toks, pos),
        Rule::GenericAssocList => lemma_separated_list_advances(
            Kind::GenericAssocList,
            Rule::GenericAssociation,
            ListTyping::Composite,
            toks,
            pos,
        ),
        Rule::GenericAssociation => lemma_generic_association_advances(toks, pos),
        Rule::PostfixExpression => lemma_postfix_advances(toks, pos),
        Rule::PostfixExpressionPost => lemma_postfix_expression_post_advances(toks, pos),
        Rule::ArgumentExpressionList => lemma_separated_list_advances(
            Kind::ArgumentExpressionList,
            Rule::AssignmentExpression,
            ListTyping::Flatten,
            toks,
            pos,
        ),
        Rule::UnaryExpression => lemma_unary_expression_advances(toks, pos),
        Rule::UnaryOperator => lemma_unary_operator_advances(toks, pos),
        Rule::CastExpression => lemma_cast_expression_advances(toks, pos),
        Rule::MultiplicativeExpression => lemma_binary_level_advances(rule, toks, pos),
        Rule::AdditiveExpression => lemma_binary_level_advances(rule, toks, pos),
        Rule::ShiftExpression => lemma_binary_level_advances(rule, toks, pos),
        Rule::RelationalExpression => lemma_binary_level_advances(rule, toks, pos),
        Rule::EqualityExpression => lemma_binary_level_advances(rule, toks, pos),
        Rule::AndExpression => lemma_binary_level_advances(rule, toks, pos),
        Rule::ExclusiveOrExpression => lemma_binary_level_advances(rule, toks, pos),
        Rule::InclusiveOrExpression => lemma_binary_level_advances(rule, toks, pos),
        Rule::LogicalAndExpression => lemma_binary_level_advances(rule, toks, pos),
        Rule::LogicalOrExpression => lemma_binary_level_advances(rule, toks, pos),
        Rule::ConditionalExpression => lemma_conditional_expression_advances(toks, pos),
        Rule::AssignmentExpression => lemma_assignment_expression_advances(toks, pos),
        Rule::AssignmentOperator => lemma_assignment_operator_advances(toks, pos),
        Rule::Expression => lemma_separated_list_advances(
            Kind::Expression,
            Rule::AssignmentExpression,
            ListTyping::Rightmost,
            toks,
            pos,
        ),
        Rule::ConstantExpression => lemma_constant_expression_advances(toks, pos),
        Rule::Declaration => lemma_declaration_advances(toks, pos),
        Rule::DeclarationSpecifiers => lemma_declaration_specifiers_advances(toks, pos),
        Rule::InitDeclaratorList => lemma_separated_list_advances(
            Kind::InitDeclaratorList,
            Rule::InitDeclarator,
            ListTyping::Flatten,
            toks,
            pos,
        ),
        Rule::InitDeclarator => lemma_init_declarator_advances(toks, pos),
        Rule::StorageClassSpecifier => lemma_storage_class_specifier_advances(toks, pos),
        Rule::TypeSpecifier => lemma_type_specifier_advances(toks, pos),
        Rule::StructOrUnionSpecifier => lemma_struct_or_union_specifier_advances(toks, pos),
        Rule::StructOrUnion => lemma_struct_or_union_advances(toks, pos),
        Rule::StructDeclarationList => lemma_repeated_list_advances(
            Kind::StructDeclarationList,
            Rule::StructDeclaration,
            ListTyping::Flatten,
            toks,
            pos,
        ),
        Rule::StructDeclaration => lemma_struct_declaration_advances(toks, pos),
        Rule::SpecifierQualifierList => lemma_specifier_qualifier_list_advances(toks, pos),
        Rule::StructDeclaratorList => lemma_separated_list_advances(
            Kind::StructDeclaratorList,
            Rule::StructDeclarator,
            ListTyping::Flatten,
            toks,
            pos,
        ),
        Rule::StructDeclarator => lemma_struct_declarator_advances(toks, pos),
        Rule::EnumSpecifier => lemma_enum_specifier_advances(toks, pos),
        Rule::EnumeratorList => lemma_separated_list_advances(
            Kind::EnumeratorList,
            Rule::Enumerator,
            ListTyping::Composite,
            toks,
            pos,
        ),
        Rule::Enumerator => lemma_enumerator_advances(toks, pos),
        Rule::AtomicTypeSpecifier => lemma_atomic_type_specifier_advances(toks, pos),
        Rule::TypeQualifier => lemma_type_qualifier_advances(toks, pos),
        Rule::FunctionSpecifier => lemma_function_specifier_advances(toks, pos),
        Rule::AlignmentSpecifier => lemma_alignment_specifier_advances(toks, pos),
        Rule::Declarator => lemma_declarator_advances(toks, pos),
        Rule::DirectDeclarator => lemma_direct_declarator_advances(toks, pos),
        Rule::DirectDeclaratorPostList => lemma_repeated_list_advances(
            Kind::DirectDeclaratorPostList,
            Rule::DirectDeclaratorPost,
            ListTyping::Flatten,
            toks,
            pos,
        ),
        Rule::DirectDeclaratorPost => lemma_direct_declarator_post_advances(toks, pos),
        Rule::Pointer => lemma_pointer_advances(toks, pos),
        Rule::TypeQualifierList => lemma_repeated_list_advances(
            Kind::TypeQualifierList,
            Rule::TypeQualifier,
            ListTyping::Composite,
            toks,
            pos,
        ),
        Rule::ParameterTypeList => lemma_parameter_type_list_advances(toks, pos),
        Rule::ParameterList => lemma_separated_list_advances(
            Kind::ParameterList,
            Rule::ParameterDeclaration,
            ListTyping::Composite,
            toks,
            pos,
        ),
        Rule::ParameterDeclaration => lemma_parameter_declaration_advances(toks, pos),
        Rule::IdentifierList => lemma_separated_list_advances(
            Kind::IdentifierList,
            Rule::Identifier,
            ListTyping::Flatten,
            toks,
            pos,
        ),
        Rule::TypeName => lemma_typename_advances(toks, pos),
        Rule::AbstractDeclarator => lemma_abstract_declarator_advances(toks, pos),
        Rule::DirectAbstractDeclarator => lemma_repeated_list_advances(
            Kind::DirectAbstractDeclarator,
            Rule::DirectAbstractDeclaratorBlock,
            ListTyping::Flatten,
            toks,
            pos,
        ),
        Rule::DirectAbstractDeclaratorBlock => lemma_direct_abstract_declarator_block_advances(toks, pos),
        Rule::Initializer => lemma_initializer_advances(toks, pos),
        Rule::InitializerList => lemma_initializer_list_advances(toks, pos),
        Rule::Designation => lemma_designation_advances(toks, pos),
        Rule::DesignatorList => lemma_repeated_list_advances(
            Kind::DesignatorList,
            Rule::Designator,
            ListTyping::Flatten,
            toks,
            pos,
        ),
        Rule::Designator => lemma_designator_advances(toks, pos),
        Rule::StaticAssertDeclaration => lemma_static_assert_declaration_advances(toks, pos),
        Rule::Statement => lemma_statement_advances(toks, pos),
        Rule::LabeledStatement => lemma_labeled_statement_advances(toks, pos),
        Rule::CompoundStatement => lemma_compound_statement_advances(toks, pos),
        Rule::BlockItemList => lemma_repeated_list_advances(
            Kind::BlockItemList,
            Rule::BlockItem,
            ListTyping::Flatten,
            toks,
            pos,
        ),
        Rule::BlockItem => lemma_block_item_advances(toks, pos),
        Rule::ExpressionStatement => lemma_expression_statement_advances(toks, pos),
        Rule::SelectionStatement => lemma_selection_statement_advances(toks, pos),
        Rule::IterationStatement => lemma_iteration_statement_advances(toks, pos),
        Rule::JumpStatement => lemma_jump_statement_advances(toks, pos),
        Rule::ExternalDeclaration => lemma_external_declaration_advances(toks, pos),
        Rule::FunctionDefinition => lemma_function_definition_advances(toks, pos),
        Rule::DeclarationList => lemma_repeated_list_advances(
            Kind::DeclarationList,
            Rule::Declaration,
            ListTyping::Flatten,
            toks,
            pos,
        ),
        Rule::TranslationUnit => lemma_repeated_list_advances(
            Kind::TranslationUnit,
            Rule::ExternalDeclaration,
            ListTyping::Composite,
            toks,
            pos,
        ),
    }
}

/// To keep only the results that moved forward changes no result of a
/// production.
pub proof fn lemma_fwd_is_identity(rule: Rule, toks: Seq<TokenView>, pos: int)
    ensures
        fwd(parse(rule, toks, pos), toks, pos) == parse(rule, toks, pos),
{
    lemma_advances(rule, toks, pos);
}

/// Parsing depends on the values of the tokens alone: what the driver
/// returns for two token sequences with the same values, under the same
/// name, is the same tree or the same failure.
pub proof fn law_deterministic(
    first: Seq<Token>,
    second: Seq<Token>,
    source: Seq<char>,
    first_result: Result<ParseNode, ParseError>,
    second_result: Result<ParseNode, ParseError>,
)
    requires
        tokens_view(first) == tokens_view(second),
        driver_view(first_result) == parse_source(tokens_view(first), source),
        driver_view(second_result) == parse_source(tokens_view(second), source),
    ensures
        driver_view(first_result) == driver_view(second_result),
{
}

/// A production that succeeds starts at a token.
pub proof fn lemma_operand_in_range(level: Rule, toks: Seq<TokenView>, pos: int)
    requires
        is_cascade(level),
        parse(operand_rule(level), toks, pos) is Ok,
    ensures
        !out_of_range(toks, pos),
{
    if operand_rule(level) == Rule::CastExpression {
        assert(parse(operand_rule(level), toks, pos) == cast_expression(toks, pos));
    } else {
        assert(parse(operand_rule(level), toks, pos) == binary_level(
            operand_rule(level),
            toks,
            pos,
        ));
    }
}

/// An operand that no operator of its level follows is the level's whole
/// tree: the node of the level is over the operand alone and has its type,
/// unchanged.
pub proof fn law_lone_operand_keeps_type(
    level: Rule,
    toks: Seq<TokenView>,
    pos: int,
    operand: NodeView,
    end: int,
)
    requires
        is_cascade(level),
        parse(operand_rule(level), toks, pos) == Ok::<_, ErrorView>((operand, end)),
        level_operator_at(level, toks, end) is None,
    ensures
        binary_level(level, toks, pos) == Ok::<_, ErrorView>(
            (NodeView::wrap(level_kind(level), operand), end),
        ),
        NodeView::wrap(level_kind(level), operand).ty == operand.ty,
{
    lemma_operand_in_range(level, toks, pos);
    lemma_advances(operand_rule(level), toks, pos);
    assert(binary_fold(level, toks, operand, end) == Ok::<_, ErrorView>((operand, end)));
}

/// The operators of one level group to the left. Where three operands of a
/// level stand with two operators of the level between them, no third
/// operator follows, and the rules accept both joins, the tree of the level
/// is `(a op1 b) op2 c`: the right operand of the last operator is `c`
/// alone, and its left operand is the join of `a` and `b`.
pub proof fn law_left_associative(
    level: Rule,
    toks: Seq<TokenView>,
    pos: int,
    a: NodeView,
    b: NodeView,
    c: NodeView,
    op1: Symbol,
    op2: Symbol,
    e1: int,
    e2: int,
    e3: int,
    ab: NodeView,
    abc: NodeView,
)
    requires
        is_cascade(level),
        parse(operand_rule(level), toks, pos) == Ok::<_, ErrorView>((a, e1)),
        level_operator_at(level, toks, e1) == Some(op1),
        parse(operand_rule(level), toks, e1 + 1) == Ok::<_, ErrorView>((b, e2)),
        level_operator_at(level, toks, e2) == Some(op2),
        parse(operand_rule(level), toks, e2 + 1) == Ok::<_, ErrorView>((c, e3)),
        level_operator_at(level, toks, e3) is None,
        combine(a, b, op1) == Ok::<_, ErrorView>(ab),
        combine(ab, c, op2) == Ok::<_, ErrorView>(abc),
    ensures
        binary_level(level, toks, pos) == Ok::<_, ErrorView>(
            (NodeView::wrap(level_kind(level), abc), e3),
        ),
        abc.kind == Kind::BinaryExpression(op2),
        abc.children == seq![ab, c],
        ab.kind == Kind::BinaryExpression(op1),
        ab.children == seq![a, b],
{
    lemma_operand_in_range(level, toks, pos);
    lemma_advances(operand_rule(level), toks, pos);
    lemma_advances(operand_rule(level), toks, e1 + 1);
    lemma_advances(operand_rule(level), toks, e2 + 1);
    assert(binary_fold(level, toks, abc, e3) == Ok::<_, ErrorView>((abc, e3)));
    assert(binary_fold(level, toks, ab, e2) == binary_fold(level, toks, abc, e3));
    assert(binary_fold(level, toks, a, e1) == binary_fold(level, toks, ab, e2));
}

/// An integer constant is a `long`, whatever its value: the constant at an
/// integer token is a node for that value with the type `long`, and so is
/// the primary expression over it.
pub proof fn law_integer_constant_is_long(toks: Seq<TokenView>, pos: int, value: int)
    requires
        0 <= pos < toks.len(),
        toks[pos] == TokenView::IntConstant(value),
    ensures
        constant(toks, pos) == Ok::<_, ErrorView>(
            (
                NodeView::leaf(
                    Kind::Constant(ConstantView::Integer(value)),
                    TypeView::of(BaseTypeView::Long),
                ),
                pos + 1,
            ),
        ),
        primary_expression(toks, pos) matches Ok((node, end)) && end == pos + 1 && node.ty
            == TypeView::of(BaseTypeView::Long),
{
}

/// A separator that no item follows is not taken: where a comma is at the
/// position and no item can be read after it, the list ends before the
/// comma with the items it had.
pub proof fn law_trailing_separator_stays(
    item: Rule,
    toks: Seq<TokenView>,
    items: Seq<NodeView>,
    pos: int,
)
    requires
        at(toks, pos, Symbol::Comma),
        parse(item, toks, pos + 1) is Err,
    ensures
        separated_tail(item, toks, items, pos) == (items, pos),
{
}

/// The two branches of `?:` must have the same type. Where a condition of
/// a condition type, a `?`, an expression, a `:` and a conditional
/// expression follow one another, the whole is a conditional expression
/// with the type of the second branch if the types of the branches are the
/// same, and otherwise fails.
pub proof fn law_conditional_branches(
    toks: Seq<TokenView>,
    pos: int,
    test: NodeView,
    first: NodeView,
    second: NodeView,
    p: int,
    e1: int,
    q: int,
)
    requires
        binary_level(Rule::LogicalOrExpression, toks, pos) == Ok::<_, ErrorView>((test, p)),
        at(toks, p, Symbol::Question),
        is_condition_type(test.ty),
        expression(toks, p + 1) == Ok::<_, ErrorView>((first, e1)),
        at(toks, e1, Symbol::Colon),
        conditional_expression(toks, e1 + 1) == Ok::<_, ErrorView>((second, q)),
    ensures
        types_same(first.ty, second.ty) ==> conditional_expression(toks, pos) == Ok::<
            _,
            ErrorView,
        >((NodeView::of(Kind::ConditionalExpression, seq![test, first, second], second.ty), q)),
        !types_same(first.ty, second.ty) ==> conditional_expression(toks, pos) == Err::<
            (NodeView, int),
            _,
        >(
            ErrorView::IllegalTypeCombination {
                left: first.ty,
                right: second.ty,
                operator: Symbol::Colon,
            },
        ),
{
    lemma_binary_level_advances(Rule::LogicalOrExpression, toks, pos);
    lemma_advances(Rule::Expression, toks, p + 1);
    assert(parse(Rule::Expression, toks, p + 1) == expression(toks, p + 1));
    lemma_conditional_expression_advances(toks, e1 + 1);
}

/// A cast passes only where the rules allow it. Where what stands at the
/// position is no unary expression but a parenthesized type name and a cast
/// expression after it, the whole is a cast to the named type if a value of
/// the operand's type may be cast to it, and otherwise fails; it never
/// yields some other type.
pub proof fn law_cast_is_gated(
    toks: Seq<TokenView>,
    pos: int,
    target: NodeView,
    operand: NodeView,
    p: int,
    q: int,
)
    requires
        unary_expression(toks, pos) is Err,
        parenthesized_type_name(toks, pos) == Ok::<_, ErrorView>((target, p)),
        cast_expression(toks, p) == Ok::<_, ErrorView>((operand, q)),
    ensures
        cast_legal(target.ty, operand.ty) ==> cast_expression(toks, pos) == Ok::<_, ErrorView>(
            (NodeView::binary(Kind::CastExpression, target, operand, target.ty), q),
        ),
        !cast_legal(target.ty, operand.ty) ==> cast_expression(toks, pos) == Err::<
            (NodeView, int),
            _,
        >(ErrorView::IllegalCast { from: operand.ty, to: target.ty }),
{
    lemma_cast_expression_advances(toks, p);
}

/// The whole source must be consumed. Where the translation unit ends
/// before the last token, the parse of the source fails and reports the
/// tokens left over; where the parse of the source succeeds, the
/// translation unit ends with the last token.
pub proof fn law_full_consumption(toks: Seq<TokenView>, source: Seq<char>)
    ensures
        translation_unit(toks, 0) matches Ok((_, end)) && end != toks.len() ==> parse_source(
            toks,
            source,
        ) == Err::<NodeView, _>(
            ErrorView::TrailingTokens { source, position: translation_unit(toks, 0)->Ok_0.1 },
        ),
        parse_source(toks, source) matches Ok(unit) ==> translation_unit(toks, 0)
            == Ok::<_, ErrorView>((unit, toks.len() as int)),
{
}

} // verus!
