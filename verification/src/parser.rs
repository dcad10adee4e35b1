//! The parser: for every production of the grammar a function that returns
//! what the grammar defines, and the driver that parses a whole source.

pub mod decl;
pub mod expr;
pub mod stmt;

use crate::ast::{
    all_typed, lemma_typed_parts, node_types, nodes_view, one_node, push_node, typed,
    types_of, Kind, Label, LabelView, NodeType, NodeView, ParseNode,
};
use crate::cursor::{check_pos, is_symbol, no_viable, symbol_at};
use crate::error::{ErrorView, ParseError};
use crate::grammar::stmt::translation_unit;
use crate::grammar::{
    advances, binary_fold, binary_level, combine, is_cascade, level_kind, level_operator_at,
    list_type, operand_rule, parse, parsed_view, repeated_list, repeated_tail, separated_list,
    separated_tail, well_typed, wrap_ok, ListTyping, Parsed,
};
use crate::rule::{rank, Rule};
use crate::sema::judge_combine_type;
use crate::text::{
    bool_str, bool_text, constant_string, constant_text, entry_string, entry_text,
    option_name_string, option_name_text, option_symbol_string, option_symbol_text, quote, quoted,
    symbol_name, symbol_str, type_string, type_text,
};
use crate::token::{tokens_view, Symbol, Token, TokenView};
use crate::types::{TypeExpression, TypeView};
use vstd::prelude::*;

verus! {

/// The result over one child: a success becomes a node of the given kind
/// over the node found, with its type; a failure stays.
pub fn wrap_parsed(entry: NodeType, r: Parsed) -> (out: Parsed)
    ensures
        parsed_view(out) == wrap_ok(entry@, parsed_view(r)),
        out matches Ok((_, end)) ==> r matches Ok((_, same)) && end == same,
        well_typed(r) ==> well_typed(out),
{
    match r {
        Ok((child, end)) => Ok((ParseNode::wrap(entry, child), end)),
        Err(e) => Err(e),
    }
}

/// The type of a list node over the given items.
pub fn list_type_of(typing: ListTyping, items: &Vec<ParseNode>) -> (t: TypeExpression)
    requires
        items.len() > 0,
    ensures
        t@ == list_type(typing, nodes_view(items@)),
        all_typed(nodes_view(items@)) ==> !t@.is_empty(),
{
    proof {
        let views = nodes_view(items@);
        if all_typed(views) {
            lemma_typed_parts(views[0]);
            lemma_typed_parts(views[views.len() - 1]);
            assert(node_types(views).len() == views.len());
        }
    }
    match typing {
        ListTyping::Flatten => {
            if items.len() == 1 {
                items[0].type_of()
            } else {
                TypeExpression::composite(types_of(items))
            }
        },
        ListTyping::Composite => TypeExpression::composite(types_of(items)),
        ListTyping::Rightmost => items[items.len() - 1].type_of(),
    }
}

/// Whether the production is a level of the binary-operator cascade.
pub fn cascade_level(level: Rule) -> (b: bool)
    ensures
        b == is_cascade(level),
{
    match level {
        Rule::MultiplicativeExpression
        | Rule::AdditiveExpression
        | Rule::ShiftExpression
        | Rule::RelationalExpression
        | Rule::EqualityExpression
        | Rule::AndExpression
        | Rule::ExclusiveOrExpression
        | Rule::InclusiveOrExpression
        | Rule::LogicalAndExpression
        | Rule::LogicalOrExpression => true,
        _ => false,
    }
}

/// The production that reads the operands of a level.
pub fn level_operand(level: Rule) -> (r: Rule)
    ensures
        r == operand_rule(level),
{
    match level {
        Rule::AdditiveExpression => Rule::MultiplicativeExpression,
        Rule::ShiftExpression => Rule::AdditiveExpression,
        Rule::RelationalExpression => Rule::ShiftExpression,
        Rule::EqualityExpression => Rule::RelationalExpression,
        Rule::AndExpression => Rule::EqualityExpression,
        Rule::ExclusiveOrExpression => Rule::AndExpression,
        Rule::InclusiveOrExpression => Rule::ExclusiveOrExpression,
        Rule::LogicalAndExpression => Rule::InclusiveOrExpression,
        Rule::LogicalOrExpression => Rule::LogicalAndExpression,
        _ => Rule::CastExpression,
    }
}

/// The kind of node that a level makes.
pub fn level_node(level: Rule) -> (k: NodeType)
    ensures
        k@ == level_kind(level),
{
    match level {
        Rule::AdditiveExpression => NodeType::AdditiveExpression,
        Rule::ShiftExpression => NodeType::ShiftExpression,
        Rule::RelationalExpression => NodeType::RelationalExpression,
        Rule::EqualityExpression => NodeType::EqualityExpression,
        Rule::AndExpression => NodeType::AndExpression,
        Rule::ExclusiveOrExpression => NodeType::ExclusiveOrExpression,
        Rule::InclusiveOrExpression => NodeType::InclusiveOrExpression,
        Rule::LogicalAndExpression => NodeType::LogicalAndExpression,
        Rule::LogicalOrExpression => NodeType::LogicalOrExpression,
        _ => NodeType::MultiplicativeExpression,
    }
}

/// The operator of the level at the position, if one is there.
pub fn level_operator(toks: &[Token], pos: usize, level: Rule) -> (op: Option<Symbol>)
    ensures
        op == level_operator_at(level, tokens_view(toks@), pos as int),
        op is Some ==> pos < toks.len(),
{
    let s = match symbol_at(toks, pos) {
        Some(s) => s,
        None => return None,
    };
    let found = match level {
        Rule::MultiplicativeExpression => matches!(s, Symbol::Star | Symbol::Slash | Symbol::Percent),
        Rule::AdditiveExpression => matches!(s, Symbol::Plus | Symbol::Minus),
        Rule::ShiftExpression => matches!(s, Symbol::ShiftLeft | Symbol::ShiftRight),
        Rule::RelationalExpression => matches!(
            s,
            Symbol::Less | Symbol::Greater | Symbol::LessEqual | Symbol::GreaterEqual
        ),
        Rule::EqualityExpression => matches!(s, Symbol::EqualEqual | Symbol::NotEqual),
        Rule::AndExpression => matches!(s, Symbol::Ampersand),
        Rule::ExclusiveOrExpression => matches!(s, Symbol::Caret),
        Rule::InclusiveOrExpression => matches!(s, Symbol::Pipe),
        Rule::LogicalAndExpression => matches!(s, Symbol::AndAnd),
        Rule::LogicalOrExpression => matches!(s, Symbol::OrOr),
        _ => false,
    };
    if found {
        Some(s)
    } else {
        None
    }
}

/// Joins two operands under an operator, typed by the rules for it.
pub fn join(left: ParseNode, right: ParseNode, op: Symbol) -> (r: Result<ParseNode, ParseError>)
    ensures
        match combine(left@, right@, op) {
            Ok(node) => r matches Ok(got) && got@ == node,
            Err(e) => r matches Err(got) && got@ == e,
        },
        typed(left@) && typed(right@) ==> (r matches Ok(got) ==> typed(got@)),
{
    proof {
        left.lemma_view();
        right.lemma_view();
        if typed(left@) && typed(right@) {
            lemma_typed_parts(left@);
            lemma_typed_parts(right@);
        }
    }
    match judge_combine_type(&left.type_exp, &right.type_exp, op) {
        Some(ty) => Ok(ParseNode::binary(NodeType::BinaryExpression(op), left, right, ty)),
        None => Err(
            ParseError::IllegalTypeCombination {
                left: left.type_of(),
                right: right.type_of(),
                operator: op,
            },
        ),
    }
}

/// Parses one level of the binary-operator cascade at `pos`: an operand,
/// then operators of the level with their operands, folded to the left.
pub fn p_binary_level(toks: &[Token], pos: usize, level: Rule) -> (r: Parsed)
    ensures
        parsed_view(r) == binary_level(level, tokens_view(toks@), pos as int),
        advances(r, toks.len(), pos),
        well_typed(r),
    decreases toks.len() - pos, rank(level), 0int,
{
    if !cascade_level(level) {
        return Err(no_viable(level, pos));
    }
    if let Err(e) = check_pos(pos, toks.len()) {
        return Err(e);
    }
    let operand = level_operand(level);
    let (first, start) = match parse_rule(toks, pos, operand) {
        Ok(found) => found,
        Err(e) => return Err(e),
    };
    let ghost tv = tokens_view(toks@);
    let ghost goal = binary_fold(level, tv, first@, start as int);
    let ghost whole = binary_level(level, tv, pos as int);
    assert(whole == wrap_ok(level_kind(level), goal));
    let mut left = first;
    let mut cur = start;
    let mut done = false;
    while !done
        invariant
            pos < cur <= toks.len(),
            tv == tokens_view(toks@),
            is_cascade(level),
            operand == operand_rule(level),
            whole == binary_level(level, tv, pos as int),
            whole == wrap_ok(level_kind(level), goal),
            binary_fold(level, tv, left@, cur as int) == goal,
            done ==> goal == Ok::<_, ErrorView>((left@, cur as int)),
            typed(left@),
        decreases toks.len() - cur, if done { 0int } else { 1int },
    {
        match level_operator(toks, cur, level) {
            None => {
                done = true;
            },
            Some(op) => {
                let (right, next) = match parse_rule(toks, cur + 1, operand) {
                    Ok(found) => found,
                    Err(e) => return Err(e),
                };
                match join(left, right, op) {
                    Ok(joined) => {
                        left = joined;
                        cur = next;
                    },
                    Err(e) => return Err(e),
                }
            },
        }
    }
    Ok((ParseNode::wrap(level_node(level), left), cur))
}

/// Reads what follows the items of a comma-separated list: items join
/// `items` while a comma and an item follow. Returns the position after the
/// last item.
pub fn p_separated_tail(toks: &[Token], pos: usize, item: Rule, items: &mut Vec<ParseNode>) -> (end:
    usize)
    requires
        pos <= toks.len(),
    ensures
        separated_tail(item, tokens_view(toks@), nodes_view(old(items)@), pos as int) == (
            nodes_view(final(items)@),
            end as int,
        ),
        pos <= end <= toks.len(),
        final(items).len() >= old(items).len(),
        all_typed(nodes_view(old(items)@)) ==> all_typed(nodes_view(final(items)@)),
    decreases toks.len() - pos, rank(item), 3int,
{
    let ghost tv = tokens_view(toks@);
    let ghost goal = separated_tail(item, tv, nodes_view(items@), pos as int);
    let mut cur = pos;
    let mut done = false;
    while !done
        invariant
            pos <= cur <= toks.len(),
            tv == tokens_view(toks@),
            items.len() >= old(items).len(),
            separated_tail(item, tv, nodes_view(items@), cur as int) == goal,
            done ==> goal == (nodes_view(items@), cur as int),
            all_typed(nodes_view(old(items)@)) ==> all_typed(nodes_view(items@)),
        decreases toks.len() - cur, if done { 0int } else { 1int },
    {
        if !is_symbol(toks, cur, Symbol::Comma) {
            done = true;
        } else {
            match parse_rule(toks, cur + 1, item) {
                Ok((next, after)) => {
                    push_node(items, next);
                    cur = after;
                },
                Err(_) => {
                    done = true;
                },
            }
        }
    }
    cur
}

/// Parses a comma-separated list of one item or more at `pos`.
pub fn p_separated_list(
    toks: &[Token],
    pos: usize,
    entry: NodeType,
    item: Rule,
    typing: ListTyping,
) -> (r: Parsed)
    ensures
        parsed_view(r) == separated_list(entry@, item, typing, tokens_view(toks@), pos as int),
        advances(r, toks.len(), pos),
        well_typed(r),
    decreases toks.len() - pos, rank(item), 3int,
{
    if let Err(e) = check_pos(pos, toks.len()) {
        return Err(e);
    }
    let (first, start) = match parse_rule(toks, pos, item) {
        Ok(found) => found,
        Err(e) => return Err(e),
    };
    let mut items = one_node(first);
    let end = p_separated_tail(toks, start, item, &mut items);
    let ty = list_type_of(typing, &items);
    Ok((ParseNode::of(entry, items, ty), end))
}

/// Reads what follows the items of a list without separators: items join
/// `items` until one fails. Returns the position after the last item.
pub fn p_repeated_tail(toks: &[Token], pos: usize, item: Rule, items: &mut Vec<ParseNode>) -> (end:
    usize)
    requires
        pos <= toks.len(),
    ensures
        repeated_tail(item, tokens_view(toks@), nodes_view(old(items)@), pos as int) == (
            nodes_view(final(items)@),
            end as int,
        ),
        pos <= end <= toks.len(),
        final(items).len() >= old(items).len(),
        all_typed(nodes_view(old(items)@)) ==> all_typed(nodes_view(final(items)@)),
    decreases toks.len() - pos, rank(item), 3int,
{
    let ghost tv = tokens_view(toks@);
    let ghost goal = repeated_tail(item, tv, nodes_view(items@), pos as int);
    let mut cur = pos;
    let mut done = false;
    while !done
        invariant
            pos <= cur <= toks.len(),
            tv == tokens_view(toks@),
            items.len() >= old(items).len(),
            repeated_tail(item, tv, nodes_view(items@), cur as int) == goal,
            done ==> goal == (nodes_view(items@), cur as int),
            all_typed(nodes_view(old(items)@)) ==> all_typed(nodes_view(items@)),
        decreases toks.len() - cur, if done { 0int } else { 1int },
    {
        match parse_rule(toks, cur, item) {
            Ok((next, after)) => {
                push_node(items, next);
                cur = after;
            },
            Err(_) => {
                done = true;
            },
        }
    }
    cur
}

/// Parses a list without separators, of one item or more, at `pos`.
pub fn p_repeated_list(
    toks: &[Token],
    pos: usize,
    entry: NodeType,
    item: Rule,
    typing: ListTyping,
) -> (r: Parsed)
    ensures
        parsed_view(r) == repeated_list(entry@, item, typing, tokens_view(toks@), pos as int),
        advances(r, toks.len(), pos),
        well_typed(r),
    decreases toks.len() - pos, rank(item), 3int,
{
    if let Err(e) = check_pos(pos, toks.len()) {
        return Err(e);
    }
    let (first, start) = match parse_rule(toks, pos, item) {
        Ok(found) => found,
        Err(e) => return Err(e),
    };
    let mut items = one_node(first);
    let end = p_repeated_tail(toks, start, item, &mut items);
    let ty = list_type_of(typing, &items);
    Ok((ParseNode::of(entry, items, ty), end))
}

/// Parses the production of the given name at `pos`.
pub fn parse_rule(toks: &[Token], pos: usize, rule: Rule) -> (r: Parsed)
    ensures
        parsed_view(r) == parse(rule, tokens_view(toks@), pos as int),
        advances(r, toks.len(), pos),
        well_typed(r),
    decreases toks.len() - pos, rank(rule), 2int,
{
    match rule {
        Rule::Identifier => crate::parser::expr::p_identifier(toks, pos),
        Rule::Constant => crate::parser::expr::p_constant(toks, pos),
        Rule::EnumerationConstant => crate::parser::expr::p_enumeration_constant(toks, pos),
        Rule::StringLiteral => crate::parser::expr::p_string(toks, pos),
        Rule::PrimaryExpression => crate::parser::expr::p_primary_expression(toks, pos),
        Rule::GenericSelection => crate::parser::expr::p_generic_selection(toks, pos),
        Rule::GenericAssocList => crate::parser::expr::p_generic_assoc_list(toks, pos),
        Rule::GenericAssociation => crate::parser::expr::p_generic_association(toks, pos),
        Rule::PostfixExpression => crate::parser::expr::p_postfix_expression(toks, pos),
        Rule::PostfixExpressionPost => crate::parser::expr::p_postfix_expression_post(toks, pos),
        Rule::ArgumentExpressionList => crate::parser::expr::p_argument_expression_list(toks, pos),
        Rule::UnaryExpression => crate::parser::expr::p_unary_expression(toks, pos),
        Rule::UnaryOperator => crate::parser::expr::p_unary_operator(toks, pos),
        Rule::CastExpression => crate::parser::expr::p_cast_expression(toks, pos),
        Rule::MultiplicativeExpression => crate::parser::expr::p_multiplicative_expression(toks, pos),
        Rule::AdditiveExpression => crate::parser::expr::p_additive_expression(toks, pos),
        Rule::ShiftExpression => crate::parser::expr::p_shift_expression(toks, pos),
        Rule::RelationalExpression => crate::parser::expr::p_relational_expression(toks, pos),
        Rule::EqualityExpression => crate::parser::expr::p_equality_expression(toks, pos),
        Rule::AndExpression => crate::parser::expr::p_and_expression(toks, pos),
        Rule::ExclusiveOrExpression => crate::parser::expr::p_exclusive_or_expression(toks, pos),
        Rule::InclusiveOrExpression => crate::parser::expr::p_inclusive_or_expression(toks, pos),
        Rule::LogicalAndExpression => crate::parser::expr::p_logical_and_expression(toks, pos),
        Rule::LogicalOrExpression => crate::parser::expr::p_logical_or_expression(toks, pos),
        Rule::ConditionalExpression => crate::parser::expr::p_conditional_expression(toks, pos),
        Rule::AssignmentExpression => crate::parser::expr::p_assignment_expression(toks, pos),
        Rule::AssignmentOperator => crate::parser::expr::p_assignment_operator(toks, pos),
        Rule::Expression => crate::parser::expr::p_expression(toks, pos),
        Rule::ConstantExpression => crate::parser::expr::p_constant_expression(toks, pos),
        Rule::Declaration => crate::parser::decl::p_declaration(toks, pos),
        Rule::DeclarationSpecifiers => crate::parser::decl::p_declaration_specifiers(toks, pos),
        Rule::InitDeclaratorList => crate::parser::decl::p_init_declarator_list(toks, pos),
        Rule::InitDeclarator => crate::parser::decl::p_init_declarator(toks, pos),
        Rule::StorageClassSpecifier => crate::parser::decl::p_storage_class_specifier(toks, pos),
        Rule::TypeSpecifier => crate::parser::decl::p_type_specifier(toks, pos),
        Rule::StructOrUnionSpecifier => crate::parser::decl::p_struct_or_union_specifier(toks, pos),
        Rule::StructOrUnion => crate::parser::decl::p_struct_or_union(toks, pos),
        Rule::StructDeclarationList => crate::parser::decl::p_struct_declaration_list(toks, pos),
        Rule::StructDeclaration => crate::parser::decl::p_struct_declaration(toks, pos),
        Rule::SpecifierQualifierList => crate::parser::decl::p_specifier_qualifier_list(toks, pos),
        Rule::StructDeclaratorList => crate::parser::decl::p_struct_declarator_list(toks, pos),
        Rule::StructDeclarator => crate::parser::decl::p_struct_declarator(toks, pos),
        Rule::EnumSpecifier => crate::parser::decl::p_enum_specifier(toks, pos),
        Rule::EnumeratorList => crate::parser::decl::p_enumerator_list(toks, pos),
        Rule::Enumerator => crate::parser::decl::p_enumerator(toks, pos),
        Rule::AtomicTypeSpecifier => crate::parser::decl::p_atomic_type_specifier(toks, pos),
        Rule::TypeQualifier => crate::parser::decl::p_type_qualifier(toks, pos),
        Rule::FunctionSpecifier => crate::parser::decl::p_function_specifier(toks, pos),
        Rule::AlignmentSpecifier => crate::parser::decl::p_alignment_specifier(toks, pos),
        Rule::Declarator => crate::parser::decl::p_declarator(toks, pos),
        Rule::DirectDeclarator => crate::parser::decl::p_direct_declarator(toks, pos),
        Rule::DirectDeclaratorPostList => crate::parser::decl::p_direct_declarator_post_list(toks, pos),
        Rule::DirectDeclaratorPost => crate::parser::decl::p_direct_declarator_post(toks, pos),
        Rule::Pointer => crate::parser::decl::p_pointer(toks, pos),
        Rule::TypeQualifierList => crate::parser::decl::p_type_qualifier_list(toks, pos),
        Rule::ParameterTypeList => crate::parser::decl::p_parameter_type_list(toks, pos),
        Rule::ParameterList => crate::parser::decl::p_parameter_list(toks, pos),
        Rule::ParameterDeclaration => crate::parser::decl::p_parameter_declaration(toks, pos),
        Rule::IdentifierList => crate::parser::decl::p_identifier_list(toks, pos),
        Rule::TypeName => crate::parser::decl::p_type_name(toks, pos),
        Rule::AbstractDeclarator => crate::parser::decl::p_abstract_declarator(toks, pos),
        Rule::DirectAbstractDeclarator => crate::parser::decl::p_direct_abstract_declarator(toks, pos),
        Rule::DirectAbstractDeclaratorBlock => crate::parser::decl::p_direct_abstract_declarator_block(toks, pos),
        Rule::Initializer => crate::parser::decl::p_initializer(toks, pos),
        Rule::InitializerList => crate::parser::decl::p_initializer_list(toks, pos),
        Rule::Designation => crate::parser::decl::p_designation(toks, pos),
        Rule::DesignatorList => crate::parser::decl::p_designator_list(toks, pos),
        Rule::Designator => crate::parser::decl::p_designator(toks, pos),
        Rule::StaticAssertDeclaration => crate::parser::decl::p_static_assert_declaration(toks, pos),
        Rule::Statement => crate::parser::stmt::p_statement(toks, pos),
        Rule::LabeledStatement => crate::parser::stmt::p_labeled_statement(toks, pos),
        Rule::CompoundStatement => crate::parser::stmt::p_compound_statement(toks, pos),
        Rule::BlockItemList => crate::parser::stmt::p_block_item_list(toks, pos),
        Rule::BlockItem => crate::parser::stmt::p_block_item(toks, pos),
        Rule::ExpressionStatement => crate::parser::stmt::p_expression_statement(toks, pos),
        Rule::SelectionStatement => crate::parser::stmt::p_selection_statement(toks, pos),
        Rule::IterationStatement => crate::parser::stmt::p_iteration_statement(toks, pos),
        Rule::JumpStatement => crate::parser::stmt::p_jump_statement(toks, pos),
        Rule::ExternalDeclaration => crate::parser::stmt::p_external_declaration(toks, pos),
        Rule::FunctionDefinition => crate::parser::stmt::p_function_definition(toks, pos),
        Rule::DeclarationList => crate::parser::stmt::p_declaration_list(toks, pos),
        Rule::TranslationUnit => crate::parser::stmt::p_translation_unit(toks, pos),
    }
}

/// The value of what the driver returns.
pub open spec fn driver_view(r: Result<ParseNode, ParseError>) -> Result<NodeView, ErrorView> {
    match r {
        Ok(tree) => Ok(tree@),
        Err(e) => Err(e@),
    }
}

/// What parsing a whole source gives: the translation unit, if it takes up
/// every token. Where tokens are left over, the parse fails and names the
/// source and the position of the first token left.
pub open spec fn parse_source(toks: Seq<TokenView>, source: Seq<char>) -> Result<
    NodeView,
    ErrorView,
> {
    match translation_unit(toks, 0) {
        Err(e) => Err(e),
        Ok((unit, end)) => if end == toks.len() {
            Ok(unit)
        } else {
            Err(ErrorView::TrailingTokens { source, position: end })
        },
    }
}

/// Parses the tokens of the source named `c_src_name` into its parse tree.
pub fn parser_driver(toks: &[Token], c_src_name: &str) -> (r: Result<ParseNode, ParseError>)
    ensures
        driver_view(r) == parse_source(tokens_view(toks@), c_src_name@),
        r matches Ok(tree) ==> typed(tree@),
{
    let (unit, end) = crate::parser::stmt::p_translation_unit(toks, 0)?;
    if end == toks.len() {
        Ok(unit)
    } else {
        Err(ParseError::TrailingTokens { source: String::from_str(c_src_name), position: end })
    }
}

/// The key of a labeled statement: the label's name, `case` or `default`,
/// in quotes.
pub open spec fn label_key(l: LabelView) -> Seq<char> {
    match l {
        LabelView::Name(name) => quoted(name),
        LabelView::Case => "\"case\""@,
        LabelView::Default => "\"default\""@,
    }
}

/// The key of a jump statement: its keyword as it is written.
pub open spec fn jump_key(s: Symbol) -> Seq<char> {
    match s {
        Symbol::Goto => "goto"@,
        Symbol::Continue => "continue"@,
        Symbol::Break => "break"@,
        Symbol::Return => "return"@,
        _ => symbol_name(s),
    }
}

/// The label of a jump statement: the target, or `none`.
pub open spec fn jump_label(target: Option<Seq<char>>) -> Seq<char> {
    match target {
        Some(name) => name,
        None => "none"@,
    }
}

/// What the line of a node says after the entry: what the entry carries,
/// under its label, and for most kinds the node's type.
pub open spec fn detail(kind: Kind, ty: TypeView) -> Seq<char> {
    match kind {
        Kind::BinaryExpression(op) => ", op: "@ + symbol_name(op) + " t_exp: "@ + type_text(ty)
            + ":"@,
        Kind::Constant(c) => ", type: "@ + constant_text(c) + " :"@,
        Kind::EnumerationConstant(name) => ", name: "@ + quoted(name) + ", t_exp "@ + type_text(
            ty,
        ),
        Kind::Identifier(name) => ", name: "@ + quoted(name),
        Kind::StringLiteral(text) => ", val: "@ + text,
        Kind::PostfixExpressionPost(s) => ", punc: "@ + symbol_name(s),
        Kind::UnaryExpression(op) => ", op: "@ + option_symbol_text(op) + " :"@,
        Kind::UnaryOperator(op) => ", op: "@ + symbol_name(op) + " :"@,
        Kind::AssignmentOperator(op) => ", op: "@ + symbol_name(op) + " :"@,
        Kind::StorageClassSpecifier(s) => ", class: "@ + symbol_name(s) + " :"@,
        Kind::TypeSpecifier(s) => ", type: "@ + option_symbol_text(s) + " :"@,
        Kind::StructOrUnion(s) => ", type: "@ + symbol_name(s) + " :"@,
        Kind::EnumSpecifier(name) => ", name: "@ + option_name_text(name) + " :"@,
        Kind::TypeQualifier(s) => ", type: "@ + symbol_name(s) + " :"@,
        Kind::FunctionSpecifier(s) => ", name: "@ + symbol_name(s) + " :"@,
        Kind::DirectDeclaratorPost(s) => ", punctuator: "@ + symbol_name(s) + " :"@,
        Kind::ParameterTypeList(b) => ", has_var_arg_list: "@ + bool_text(b) + ", t_exp: "@
            + type_text(ty),
        Kind::DirectAbstractDeclaratorBlock(s) => ", punctuator: "@ + symbol_name(s) + " t_exp: "@
            + type_text(ty) + " :"@,
        Kind::LabeledStatement(l) => ", key: "@ + label_key(l) + " t_exp: "@ + type_text(ty)
            + " :"@,
        Kind::SelectionStatement(s) => ", key: "@ + symbol_name(s) + " : t_exp: "@ + type_text(ty)
            + ": "@,
        Kind::IterationStatement(s) => ", key: "@ + symbol_name(s) + " t_exp: "@ + type_text(ty)
            + ":"@,
        Kind::JumpStatement(s, target) => " key: "@ + jump_key(s) + ", label: "@ + jump_label(
            target,
        ) + " t_exp: "@ + type_text(ty) + ": "@,
        _ => " t_exp: "@ + type_text(ty) + ":"@,
    }
}

/// The line of a node: a line break, the indentation, `type: ` and the
/// node's entry, then what the entry carries and, for most kinds, the
/// node's type.
pub open spec fn title(node: NodeView, indent: Seq<char>) -> Seq<char> {
    "\n"@ + indent + "type: "@ + entry_text(node.kind) + detail(node.kind, node.ty)
}

/// The lines of the children of a node from the `i`-th on, each child with
/// its own children.
pub open spec fn pretty_from(node: NodeView, indent: Seq<char>, i: nat) -> Seq<char>
    decreases node, node.children.len() - i,
{
    if i >= node.children.len() {
        Seq::empty()
    } else {
        pretty(node.children[i as int], indent) + pretty_from(node, indent, i + 1)
    }
}

/// The text of a tree: the line of the node, then the text of each child,
/// indented by one more dash.
pub open spec fn pretty(node: NodeView, indent: Seq<char>) -> Seq<char>
    decreases node, node.children.len() + 1,
{
    title(node, indent) + pretty_from(node, indent + "-"@, 0)
}

/// An indentation of the given depth: that many dashes.
pub open spec fn dashes(depth: nat) -> Seq<char>
    decreases depth,
{
    if depth == 0 {
        Seq::empty()
    } else {
        dashes((depth - 1) as nat) + "-"@
    }
}

fn two(a: &str, b: &str) -> (out: String)
    ensures
        out@ == a@ + b@,
{
    let mut out = String::from_str(a);
    out.append(b);
    out
}

fn three(a: &str, b: &str, c: &str) -> (out: String)
    ensures
        out@ == a@ + b@ + c@,
{
    let mut out = two(a, b);
    out.append(c);
    out
}

fn four(a: &str, b: &str, c: &str, d: &str) -> (out: String)
    ensures
        out@ == a@ + b@ + c@ + d@,
{
    let mut out = three(a, b, c);
    out.append(d);
    out
}

fn five(a: &str, b: &str, c: &str, d: &str, e: &str) -> (out: String)
    ensures
        out@ == a@ + b@ + c@ + d@ + e@,
{
    let mut out = four(a, b, c, d);
    out.append(e);
    out
}

/// The key of a labeled statement.
pub fn label_key_string(l: &Label) -> (out: String)
    ensures
        out@ == label_key(l@),
{
    match l {
        Label::Name(name) => quote(name.as_str()),
        Label::Case => String::from_str("\"case\""),
        Label::Default => String::from_str("\"default\""),
    }
}

/// The key of a jump statement.
pub fn jump_key_str(s: Symbol) -> (text: &'static str)
    ensures
        text@ == jump_key(s),
{
    match s {
        Symbol::Goto => "goto",
        Symbol::Continue => "continue",
        Symbol::Break => "break",
        Symbol::Return => "return",
        _ => symbol_str(s),
    }
}

/// What the line of a node says after the entry.
pub fn detail_string(entry: &NodeType, ty: &TypeExpression) -> (out: String)
    ensures
        out@ == detail(entry@, ty@),
{
    match entry {
        NodeType::BinaryExpression(op) => five(
            ", op: ",
            symbol_str(*op),
            " t_exp: ",
            type_string(ty).as_str(),
            ":",
        ),
        NodeType::Constant(c) => three(", type: ", constant_string(c).as_str(), " :"),
        NodeType::EnumerationConstant(name) => four(
            ", name: ",
            quote(name.as_str()).as_str(),
            ", t_exp ",
            type_string(ty).as_str(),
        ),
        NodeType::Identifier(name) => two(", name: ", quote(name.as_str()).as_str()),
        NodeType::StringLiteral(text) => two(", val: ", text.as_str()),
        NodeType::PostfixExpressionPost(s) => two(", punc: ", symbol_str(*s)),
        NodeType::UnaryExpression(op) => three(", op: ", option_symbol_string(*op).as_str(), " :"),
        NodeType::UnaryOperator(op) => three(", op: ", symbol_str(*op), " :"),
        NodeType::AssignmentOperator(op) => three(", op: ", symbol_str(*op), " :"),
        NodeType::StorageClassSpecifier(s) => three(", class: ", symbol_str(*s), " :"),
        NodeType::TypeSpecifier(s) => three(", type: ", option_symbol_string(*s).as_str(), " :"),
        NodeType::StructOrUnion(s) => three(", type: ", symbol_str(*s), " :"),
        NodeType::EnumSpecifier(name) => three(
            ", name: ",
            option_name_string(name).as_str(),
            " :",
        ),
        NodeType::TypeQualifier(s) => three(", type: ", symbol_str(*s), " :"),
        NodeType::FunctionSpecifier(s) => three(", name: ", symbol_str(*s), " :"),
        NodeType::DirectDeclaratorPost(s) => three(", punctuator: ", symbol_str(*s), " :"),
        NodeType::ParameterTypeList(b) => four(
            ", has_var_arg_list: ",
            bool_str(*b),
            ", t_exp: ",
            type_string(ty).as_str(),
        ),
        NodeType::DirectAbstractDeclaratorBlock(s) => five(
            ", punctuator: ",
            symbol_str(*s),
            " t_exp: ",
            type_string(ty).as_str(),
            " :",
        ),
        NodeType::LabeledStatement(l) => five(
            ", key: ",
            label_key_string(l).as_str(),
            " t_exp: ",
            type_string(ty).as_str(),
            " :",
        ),
        NodeType::SelectionStatement(s) => five(
            ", key: ",
            symbol_str(*s),
            " : t_exp: ",
            type_string(ty).as_str(),
            ": ",
        ),
        NodeType::IterationStatement(s) => five(
            ", key: ",
            symbol_str(*s),
            " t_exp: ",
            type_string(ty).as_str(),
            ":",
        ),
        NodeType::JumpStatement(s, target) => {
            let mut out = four(
                " key: ",
                jump_key_str(*s),
                ", label: ",
                match target {
                    Some(name) => name.as_str(),
                    None => "none",
                },
            );
            out.append(" t_exp: ");
            out.append(type_string(ty).as_str());
            out.append(": ");
            out
        },
        _ => three(" t_exp: ", type_string(ty).as_str(), ":"),
    }
}

/// The line of a node.
pub fn title_string(tree: &ParseNode, indent: &str) -> (out: String)
    ensures
        out@ == title(tree@, indent@),
{
    proof {
        tree.lemma_view();
    }
    five(
        "\n",
        indent,
        "type: ",
        entry_string(&tree.entry).as_str(),
        detail_string(&tree.entry, &tree.type_exp).as_str(),
    )
}

/// Renders a tree as text under the given indentation.
pub fn render(tree: &ParseNode, indent: &str) -> (s: String)
    ensures
        s@ == pretty(tree@, indent@),
    decreases tree,
{
    proof {
        tree.lemma_view();
    }
    let mut out = title_string(tree, indent);
    let mut deeper = String::from_str(indent);
    deeper.append("-");
    let mut i: usize = 0;
    while i < tree.child.len()
        invariant
            i <= tree.child.len(),
            tree@.children == nodes_view(tree.child@),
            deeper@ == indent@ + "-"@,
            out@ + pretty_from(tree@, deeper@, i as nat) == pretty(tree@, indent@),
        decreases tree.child.len() - i,
    {
        let part = render(&tree.child[i], deeper.as_str());
        proof {
            let rest = pretty_from(tree@, deeper@, (i + 1) as nat);
            assert(pretty_from(tree@, deeper@, i as nat) == part@ + rest);
            assert((out@ + part@) + rest =~= out@ + (part@ + rest));
        }
        out.append(part.as_str());
        i = i + 1;
    }
    proof {
        assert(out@ + Seq::<char>::empty() =~= out@);
    }
    out
}

/// Renders a tree as text, one line for each node: after the indentation
/// `type: ` and the node's entry, then what the entry carries and, for most
/// kinds, the node's type. A node's children are indented by one dash more
/// than the node; the root is indented by `depth` dashes.
pub fn parser_pretty_printer(tree: &ParseNode, depth: usize) -> (s: String)
    ensures
        s@ == pretty(tree@, dashes(depth as nat)),
{
    let mut indent = String::new();
    let mut i: usize = 0;
    while i < depth
        invariant
            i <= depth,
            indent@ == dashes(i as nat),
        decreases depth - i,
    {
        indent.append("-");
        i = i + 1;
    }
    render(tree, indent.as_str())
}

} // verus!
