//! Parsers for declarations.

use crate::ast::{
    Kind, NodeType, NodeView, ParseNode, all_typed, nodes_view, push_node, three_nodes, typed,
};
use crate::cursor::{
    check_closing_brace, check_pos, check_tok, error_handler, is_symbol, no_viable, symbol_at,
};
use crate::error::ParseError;
use crate::grammar::decl::{
    abstract_declarator, alignment_specifier, array_length, array_suffix, atomic_type_specifier,
    compound_type_specifier, declaration, declaration_specifier, declaration_specifiers,
    declarator, designation, designator, designator_list, direct_abstract_declarator,
    direct_abstract_declarator_block, direct_declarator, direct_declarator_base,
    direct_declarator_post, direct_declarator_post_list, enum_body, enum_specifier, enumerator,
    enumerator_list, function_specifier, function_specifier_tag, identifier_list, init_declarator,
    init_declarator_list, initializer, initializer_item, initializer_list, initializer_tail,
    is_enumerator_type, parameter_declaration, parameter_list, parameter_type_list, pointer,
    specifier_qualifier, specifier_qualifier_list, specifier_sequence, static_assert_declaration,
    storage_class_specifier, storage_class_tag, struct_body, struct_declaration,
    struct_declaration_list, struct_declarator, struct_declarator_list, struct_or_union,
    struct_or_union_specifier, type_keyword_tag, type_qualifier, type_qualifier_list,
    type_qualifier_tag, type_specifier, typename,
};
use crate::grammar::{ListTyping, Parsed, advances, parsed_view, well_typed};
use crate::parser::expr::{
    p_assignment_expression, p_constant_expression, p_enumeration_constant, p_identifier,
    p_string,
};
use crate::parser::{p_repeated_list, p_separated_list, wrap_parsed};
use crate::rule::{Rule, rank};
use crate::sema::judge_type_same;
use crate::token::{Symbol, Token, tokens_view};
use crate::types::{
    BaseType, BaseTypeView, TypeExpression, TypeView, no_types, one_type, push_type, three_types,
    two_types, types_view,
};
use vstd::prelude::*;

verus! {

/// Parses a declaration at `pos`.
///
/// declaration: declaration-specifiers ';'
/// | declaration-specifiers init-declarator-list ';'
/// | static-assert-declaration
pub fn p_declaration(toks: &[Token], pos: usize) -> (r: Parsed)
    ensures
        parsed_view(r) == declaration(tokens_view(toks@), pos as int),
        advances(r, toks.len(), pos),
        well_typed(r),
    decreases toks.len() - pos, rank(Rule::Declaration), 1int,
{
    check_pos(pos, toks.len())?;
    match p_declaration_specifiers(toks, pos) {
        Ok((specifiers, p)) => {
            if is_symbol(toks, p, Symbol::Semicolon) {
                return Ok((ParseNode::wrap(NodeType::Declaration, specifiers), p + 1));
            }
            let (list, q) = p_init_declarator_list(toks, p)?;
            check_tok(q, toks, Symbol::Semicolon)?;
            let ty = TypeExpression::pair(specifiers.type_of(), list.type_of());
            Ok((ParseNode::binary(NodeType::Declaration, specifiers, list, ty), q + 1))
        },
        Err(_) => match p_static_assert_declaration(toks, pos) {
            Ok((inner, p)) => Ok((ParseNode::wrap(NodeType::Declaration, inner), p)),
            Err(_) => Err(no_viable(Rule::Declaration, pos)),
        },
    }
}

/// Parses a declaration-specifiers at `pos`.
///
/// declaration-specifiers: specifier [ declaration-specifiers ]
pub fn p_declaration_specifiers(toks: &[Token], pos: usize) -> (r: Parsed)
    ensures
        parsed_view(r) == declaration_specifiers(tokens_view(toks@), pos as int),
        advances(r, toks.len(), pos),
        well_typed(r),
    decreases toks.len() - pos, rank(Rule::DeclarationSpecifiers), 1int,
{
    check_pos(pos, toks.len())?;
    let (first, p) = p_declaration_specifier(toks, pos)?;
    let rest = p_declaration_specifiers(toks, p);
    Ok(specifier_node(NodeType::DeclarationSpecifiers, first, rest, p))
}

/// Parses an init-declarator-list at `pos`.
///
/// init-declarator-list: init-declarator { ',' init-declarator }
pub fn p_init_declarator_list(toks: &[Token], pos: usize) -> (r: Parsed)
    ensures
        parsed_view(r) == init_declarator_list(tokens_view(toks@), pos as int),
        advances(r, toks.len(), pos),
        well_typed(r),
    decreases toks.len() - pos, rank(Rule::InitDeclaratorList), 1int,
{
    p_separated_list(
        toks,
        pos,
        NodeType::InitDeclaratorList,
        Rule::InitDeclarator,
        ListTyping::Flatten,
    )
}

/// Parses an init-declarator at `pos`.
///
/// init-declarator: declarator [ '=' initializer ]. The initializer must
/// have the declarator's type.
pub fn p_init_declarator(toks: &[Token], pos: usize) -> (r: Parsed)
    ensures
        parsed_view(r) == init_declarator(tokens_view(toks@), pos as int),
        advances(r, toks.len(), pos),
        well_typed(r),
    decreases toks.len() - pos, rank(Rule::InitDeclarator), 1int,
{
    check_pos(pos, toks.len())?;
    let (name, p) = p_declarator(toks, pos)?;
    if !is_symbol(toks, p, Symbol::Assign) {
        return Ok((ParseNode::wrap(NodeType::InitDeclarator, name), p));
    }
    let (value, q) = p_initializer(toks, p + 1)?;
    if !judge_type_same(name.ty(), value.ty()) {
        return Err(
            ParseError::IllegalTypeCombination {
                left: name.type_of(),
                right: value.type_of(),
                operator: Symbol::Assign,
            },
        );
    }
    let ty = name.type_of();
    Ok((ParseNode::binary(NodeType::InitDeclarator, name, value, ty), q))
}

/// Parses a storage-class-specifier at `pos`.
///
/// storage-class-specifier: 'extern' | 'static' | '_Thread_local' | 'auto'
/// | 'register'. A `typedef` is not supported.
pub fn p_storage_class_specifier(toks: &[Token], pos: usize) -> (r: Parsed)
    ensures
        parsed_view(r) == storage_class_specifier(tokens_view(toks@), pos as int),
        advances(r, toks.len(), pos),
        well_typed(r),
{
    check_pos(pos, toks.len())?;
    match symbol_at(toks, pos) {
        Some(Symbol::Typedef) => Err(ParseError::UnsupportedFeature { position: pos }),
        Some(s) => match storage_class(s) {
            Some(tag) => Ok(
                (
                    ParseNode::leaf(
                        NodeType::StorageClassSpecifier(s),
                        TypeExpression::new_val(tag),
                    ),
                    pos + 1,
                ),
            ),
            None => Err(error_handler(Rule::StorageClassSpecifier, toks, pos)),
        },
        None => Err(error_handler(Rule::StorageClassSpecifier, toks, pos)),
    }
}

/// Parses a type-specifier at `pos`.
///
/// type-specifier: a type keyword | atomic-type-specifier
/// | struct-or-union-specifier | enum-specifier. A typedef name is not
/// supported.
pub fn p_type_specifier(toks: &[Token], pos: usize) -> (r: Parsed)
    ensures
        parsed_view(r) == type_specifier(tokens_view(toks@), pos as int),
        advances(r, toks.len(), pos),
        well_typed(r),
    decreases toks.len() - pos, rank(Rule::TypeSpecifier), 1int,
{
    check_pos(pos, toks.len())?;
    match symbol_at(toks, pos) {
        Some(Symbol::TypedefName) => Err(ParseError::UnsupportedFeature { position: pos }),
        Some(s) => match type_keyword(s) {
            Some(tag) => Ok(
                (
                    ParseNode::leaf(NodeType::TypeSpecifier(Some(s)), TypeExpression::new_val(tag)),
                    pos + 1,
                ),
            ),
            None => p_compound_type_specifier(toks, pos),
        },
        None => p_compound_type_specifier(toks, pos),
    }
}

/// Parses a struct-or-union-specifier at `pos`.
///
/// struct-or-union-specifier: struct-or-union '{' struct-declaration-list '}'
/// | struct-or-union identifier '{' struct-declaration-list '}'
/// | struct-or-union identifier
pub fn p_struct_or_union_specifier(toks: &[Token], pos: usize) -> (r: Parsed)
    ensures
        parsed_view(r) == struct_or_union_specifier(tokens_view(toks@), pos as int),
        advances(r, toks.len(), pos),
        well_typed(r),
    decreases toks.len() - pos, rank(Rule::StructOrUnionSpecifier), 1int,
{
    let (keyword, _) = p_struct_or_union(toks, pos)?;
    match p_identifier(toks, pos + 1) {
        Ok((tag, _)) => {
            if !is_symbol(toks, pos + 2, Symbol::LBrace) {
                let ty = TypeExpression::pair(keyword.type_of(), tag.type_of());
                return Ok(
                    (ParseNode::binary(NodeType::StructOrUnionSpecifier, keyword, tag, ty), pos + 2),
                );
            }
            let (list, q) = p_struct_body(toks, pos + 2)?;
            Ok((tagged_struct(keyword, tag, list), q))
        },
        Err(_) => {
            let (list, q) = p_struct_body(toks, pos + 1)?;
            let ty = TypeExpression::pair(keyword.type_of(), list.type_of());
            Ok((ParseNode::binary(NodeType::StructOrUnionSpecifier, keyword, list, ty), q))
        },
    }
}

/// Parses a struct-or-union at `pos`.
///
/// struct-or-union: 'struct' | 'union'
pub fn p_struct_or_union(toks: &[Token], pos: usize) -> (r: Parsed)
    ensures
        parsed_view(r) == struct_or_union(tokens_view(toks@), pos as int),
        advances(r, toks.len(), pos),
        well_typed(r),
{
    check_pos(pos, toks.len())?;
    match symbol_at(toks, pos) {
        Some(Symbol::Struct) => Ok(
            (
                ParseNode::leaf(
                    NodeType::StructOrUnion(Symbol::Struct),
                    TypeExpression::new_val(BaseType::Struct),
                ),
                pos + 1,
            ),
        ),
        Some(Symbol::Union) => Ok(
            (
                ParseNode::leaf(
                    NodeType::StructOrUnion(Symbol::Union),
                    TypeExpression::new_val(BaseType::Union),
                ),
                pos + 1,
            ),
        ),
        _ => Err(error_handler(Rule::StructOrUnion, toks, pos)),
    }
}

/// Parses a struct-declaration-list at `pos`.
///
/// struct-declaration-list: struct-declaration { struct-declaration }
pub fn p_struct_declaration_list(toks: &[Token], pos: usize) -> (r: Parsed)
    ensures
        parsed_view(r) == struct_declaration_list(tokens_view(toks@), pos as int),
        advances(r, toks.len(), pos),
        well_typed(r),
    decreases toks.len() - pos, rank(Rule::StructDeclarationList), 1int,
{
    p_repeated_list(
        toks,
        pos,
        NodeType::StructDeclarationList,
        Rule::StructDeclaration,
        ListTyping::Flatten,
    )
}

/// Parses a struct-declaration at `pos`.
///
/// struct-declaration: specifier-qualifier-list ';'
/// | specifier-qualifier-list struct-declarator-list ';'
/// | static-assert-declaration
pub fn p_struct_declaration(toks: &[Token], pos: usize) -> (r: Parsed)
    ensures
        parsed_view(r) == struct_declaration(tokens_view(toks@), pos as int),
        advances(r, toks.len(), pos),
        well_typed(r),
    decreases toks.len() - pos, rank(Rule::StructDeclaration), 1int,
{
    check_pos(pos, toks.len())?;
    match p_specifier_qualifier_list(toks, pos) {
        Ok((specifiers, p)) => {
            if is_symbol(toks, p, Symbol::Semicolon) {
                return Ok((ParseNode::wrap(NodeType::StructDeclaration, specifiers), p + 1));
            }
            let (list, q) = p_struct_declarator_list(toks, p)?;
            check_tok(q, toks, Symbol::Semicolon)?;
            let ty = TypeExpression::pair(specifiers.type_of(), list.type_of());
            Ok((ParseNode::binary(NodeType::StructDeclaration, specifiers, list, ty), q + 1))
        },
        Err(_) => match p_static_assert_declaration(toks, pos) {
            Ok((inner, p)) => Ok((ParseNode::wrap(NodeType::StructDeclaration, inner), p)),
            Err(_) => Err(no_viable(Rule::StructDeclaration, pos)),
        },
    }
}

/// Parses a specifier-qualifier-list at `pos`.
///
/// specifier-qualifier-list: specifier-or-qualifier
/// [ specifier-qualifier-list ]
pub fn p_specifier_qualifier_list(toks: &[Token], pos: usize) -> (r: Parsed)
    ensures
        parsed_view(r) == specifier_qualifier_list(tokens_view(toks@), pos as int),
        advances(r, toks.len(), pos),
        well_typed(r),
    decreases toks.len() - pos, rank(Rule::SpecifierQualifierList), 1int,
{
    check_pos(pos, toks.len())?;
    let (first, p) = p_specifier_qualifier(toks, pos)?;
    let rest = p_specifier_qualifier_list(toks, p);
    Ok(specifier_node(NodeType::SpecifierQualifierList, first, rest, p))
}

/// Parses a struct-declarator-list at `pos`.
///
/// struct-declarator-list: struct-declarator { ',' struct-declarator }
pub fn p_struct_declarator_list(toks: &[Token], pos: usize) -> (r: Parsed)
    ensures
        parsed_view(r) == struct_declarator_list(tokens_view(toks@), pos as int),
        advances(r, toks.len(), pos),
        well_typed(r),
    decreases toks.len() - pos, rank(Rule::StructDeclaratorList), 1int,
{
    p_separated_list(
        toks,
        pos,
        NodeType::StructDeclaratorList,
        Rule::StructDeclarator,
        ListTyping::Flatten,
    )
}

/// Parses a struct-declarator at `pos`.
///
/// struct-declarator: ':' constant-expression
/// | declarator [ ':' constant-expression ]
pub fn p_struct_declarator(toks: &[Token], pos: usize) -> (r: Parsed)
    ensures
        parsed_view(r) == struct_declarator(tokens_view(toks@), pos as int),
        advances(r, toks.len(), pos),
        well_typed(r),
    decreases toks.len() - pos, rank(Rule::StructDeclarator), 1int,
{
    check_pos(pos, toks.len())?;
    if is_symbol(toks, pos, Symbol::Colon) {
        return wrap_parsed(NodeType::StructDeclarator, p_constant_expression(toks, pos + 1));
    }
    let (name, p) = p_declarator(toks, pos)?;
    if !is_symbol(toks, p, Symbol::Colon) {
        return Ok((ParseNode::wrap(NodeType::StructDeclarator, name), p));
    }
    let (width, q) = p_constant_expression(toks, p + 1)?;
    let ty = TypeExpression::pair(name.type_of(), width.type_of());
    Ok((ParseNode::binary(NodeType::StructDeclarator, name, width, ty), q))
}

/// Parses an enum-specifier at `pos`.
///
/// enum-specifier: 'enum' '{' enumerator-list [','] '}'
/// | 'enum' identifier '{' enumerator-list [','] '}' | 'enum' identifier
pub fn p_enum_specifier(toks: &[Token], pos: usize) -> (r: Parsed)
    ensures
        parsed_view(r) == enum_specifier(tokens_view(toks@), pos as int),
        advances(r, toks.len(), pos),
        well_typed(r),
    decreases toks.len() - pos, rank(Rule::EnumSpecifier), 1int,
{
    check_tok(pos, toks, Symbol::Enum)?;
    if is_symbol(toks, pos + 1, Symbol::LBrace) {
        let (list, q) = p_enum_body(toks, pos + 1)?;
        let node = ParseNode::unary(
            NodeType::EnumSpecifier(None),
            list,
            TypeExpression::new_val(BaseType::Int),
        );
        return Ok((node, q));
    }
    check_pos(pos + 1, toks.len())?;
    match &toks[pos + 1] {
        Token::Identifier(name) => {
            if !is_symbol(toks, pos + 2, Symbol::LBrace) {
                let node = ParseNode::leaf(
                    NodeType::EnumSpecifier(Some(name.clone())),
                    TypeExpression::new_val(BaseType::Int),
                );
                return Ok((node, pos + 2));
            }
            let (list, q) = p_enum_body(toks, pos + 2)?;
            let node = ParseNode::unary(
                NodeType::EnumSpecifier(Some(name.clone())),
                list,
                TypeExpression::new_val(BaseType::Int),
            );
            Ok((node, q))
        },
        _ => Err(error_handler(Rule::EnumSpecifier, toks, pos + 1)),
    }
}

/// Parses an enumerator-list at `pos`.
///
/// enumerator-list: enumerator { ',' enumerator }
pub fn p_enumerator_list(toks: &[Token], pos: usize) -> (r: Parsed)
    ensures
        parsed_view(r) == enumerator_list(tokens_view(toks@), pos as int),
        advances(r, toks.len(), pos),
        well_typed(r),
    decreases toks.len() - pos, rank(Rule::EnumeratorList), 1int,
{
    p_separated_list(toks, pos, NodeType::EnumeratorList, Rule::Enumerator, ListTyping::Composite)
}

/// Parses an enumerator at `pos`.
///
/// enumerator: enumeration-constant [ '=' constant-expression ]. The value
/// must have an integer type.
pub fn p_enumerator(toks: &[Token], pos: usize) -> (r: Parsed)
    ensures
        parsed_view(r) == enumerator(tokens_view(toks@), pos as int),
        advances(r, toks.len(), pos),
        well_typed(r),
    decreases toks.len() - pos, rank(Rule::Enumerator), 1int,
{
    let (name, _) = p_enumeration_constant(toks, pos)?;
    if !is_symbol(toks, pos + 1, Symbol::Assign) {
        return Ok((ParseNode::wrap(NodeType::Enumerator, name), pos + 1));
    }
    let (value, q) = p_constant_expression(toks, pos + 2)?;
    if !enumerator_type(value.ty()) {
        return Err(
            ParseError::IllegalTypeCombination {
                left: name.type_of(),
                right: value.type_of(),
                operator: Symbol::Assign,
            },
        );
    }
    let ty = TypeExpression::pair(name.type_of(), value.type_of());
    Ok((ParseNode::binary(NodeType::Enumerator, name, value, ty), q))
}

/// Parses an atomic-type-specifier at `pos`.
///
/// atomic-type-specifier: '_Atomic' '(' type-name ')'
pub fn p_atomic_type_specifier(toks: &[Token], pos: usize) -> (r: Parsed)
    ensures
        parsed_view(r) == atomic_type_specifier(tokens_view(toks@), pos as int),
        advances(r, toks.len(), pos),
        well_typed(r),
    decreases toks.len() - pos, rank(Rule::AtomicTypeSpecifier), 1int,
{
    check_tok(pos, toks, Symbol::Atomic)?;
    check_tok(pos + 1, toks, Symbol::LParen)?;
    let (name, p) = p_type_name(toks, pos + 2)?;
    check_tok(p, toks, Symbol::RParen)?;
    let ty = TypeExpression::tagged(BaseType::Atomic, one_type(name.type_of()));
    Ok((ParseNode::unary(NodeType::AtomicTypeSpecifier, name, ty), p + 1))
}

/// Parses a type-qualifier at `pos`.
///
/// type-qualifier: 'const' | 'restrict' | 'volatile' | '_Atomic'
pub fn p_type_qualifier(toks: &[Token], pos: usize) -> (r: Parsed)
    ensures
        parsed_view(r) == type_qualifier(tokens_view(toks@), pos as int),
        advances(r, toks.len(), pos),
        well_typed(r),
{
    check_pos(pos, toks.len())?;
    match symbol_at(toks, pos) {
        Some(s) => match qualifier(s) {
            Some(tag) => Ok(
                (ParseNode::leaf(NodeType::TypeQualifier(s), TypeExpression::new_val(tag)), pos + 1),
            ),
            None => Err(error_handler(Rule::TypeQualifier, toks, pos)),
        },
        None => Err(error_handler(Rule::TypeQualifier, toks, pos)),
    }
}

/// Parses a function-specifier at `pos`.
///
/// function-specifier: 'inline' | '_Noreturn'
pub fn p_function_specifier(toks: &[Token], pos: usize) -> (r: Parsed)
    ensures
        parsed_view(r) == function_specifier(tokens_view(toks@), pos as int),
        advances(r, toks.len(), pos),
        well_typed(r),
{
    check_pos(pos, toks.len())?;
    match symbol_at(toks, pos) {
        Some(s) => match function_marker(s) {
            Some(tag) => Ok(
                (
                    ParseNode::leaf(NodeType::FunctionSpecifier(s), TypeExpression::new_val(tag)),
                    pos + 1,
                ),
            ),
            None => Err(error_handler(Rule::FunctionSpecifier, toks, pos)),
        },
        None => Err(error_handler(Rule::FunctionSpecifier, toks, pos)),
    }
}

/// Parses an alignment-specifier at `pos`.
///
/// alignment-specifier: '_Alignas' '(' type-name ')'
/// | '_Alignas' '(' constant-expression ')'
pub fn p_alignment_specifier(toks: &[Token], pos: usize) -> (r: Parsed)
    ensures
        parsed_view(r) == alignment_specifier(tokens_view(toks@), pos as int),
        advances(r, toks.len(), pos),
        well_typed(r),
    decreases toks.len() - pos, rank(Rule::AlignmentSpecifier), 1int,
{
    check_tok(pos, toks, Symbol::Alignas)?;
    check_tok(pos + 1, toks, Symbol::LParen)?;
    let (inner, p) = match p_type_name(toks, pos + 2) {
        Ok(found) => found,
        Err(_) => match p_constant_expression(toks, pos + 2) {
            Ok(found) => found,
            Err(_) => return Err(no_viable(Rule::AlignmentSpecifier, pos + 2)),
        },
    };
    check_tok(p, toks, Symbol::RParen)?;
    let node = ParseNode::unary(
        NodeType::AlignmentSpecifier,
        inner,
        TypeExpression::new_val(BaseType::NoneExpression),
    );
    Ok((node, p + 1))
}

/// Parses a declarator at `pos`.
///
/// declarator: direct-declarator | pointer direct-declarator
pub fn p_declarator(toks: &[Token], pos: usize) -> (r: Parsed)
    ensures
        parsed_view(r) == declarator(tokens_view(toks@), pos as int),
        advances(r, toks.len(), pos),
        well_typed(r),
    decreases toks.len() - pos, rank(Rule::Declarator), 1int,
{
    check_pos(pos, toks.len())?;
    if let Ok((direct, p)) = p_direct_declarator(toks, pos) {
        return Ok((ParseNode::wrap(NodeType::Declarator, direct), p));
    }
    let (stars, p) = match p_pointer(toks, pos) {
        Ok(found) => found,
        Err(_) => return Err(no_viable(Rule::Declarator, pos)),
    };
    let (direct, q) = p_direct_declarator(toks, p)?;
    let ty = TypeExpression::pair(stars.type_of(), direct.type_of());
    Ok((ParseNode::binary(NodeType::Declarator, stars, direct, ty), q))
}

/// Parses a direct-declarator at `pos`.
///
/// direct-declarator: ( identifier | '(' declarator ')' ) { suffix }. The
/// suffixes, if any, stand in one list, after what they apply to.
pub fn p_direct_declarator(toks: &[Token], pos: usize) -> (r: Parsed)
    ensures
        parsed_view(r) == direct_declarator(tokens_view(toks@), pos as int),
        advances(r, toks.len(), pos),
        well_typed(r),
    decreases toks.len() - pos, rank(Rule::DirectDeclarator), 1int,
{
    check_pos(pos, toks.len())?;
    let (base, p) = p_direct_declarator_base(toks, pos)?;
    match p_direct_declarator_post_list(toks, p) {
        Ok((suffixes, q)) => {
            let ty = TypeExpression::pair(base.type_of(), suffixes.type_of());
            Ok((ParseNode::binary(NodeType::DirectDeclarator, base, suffixes, ty), q))
        },
        Err(_) => Ok((ParseNode::wrap(NodeType::DirectDeclarator, base), p)),
    }
}

/// Parses a direct-declarator-post-list at `pos`.
///
/// direct-declarator-post-list: suffix { suffix }. The types of the
/// suffixes stand in the order of the suffixes.
pub fn p_direct_declarator_post_list(toks: &[Token], pos: usize) -> (r: Parsed)
    ensures
        parsed_view(r) == direct_declarator_post_list(tokens_view(toks@), pos as int),
        advances(r, toks.len(), pos),
        well_typed(r),
    decreases toks.len() - pos, rank(Rule::DirectDeclaratorPostList), 1int,
{
    p_repeated_list(
        toks,
        pos,
        NodeType::DirectDeclaratorPostList,
        Rule::DirectDeclaratorPost,
        ListTyping::Flatten,
    )
}

/// Parses a direct-declarator-post at `pos`.
///
/// One suffix of a direct declarator: '(' ')' | '(' parameter-type-list ')'
/// | '(' identifier-list ')' | '[' ']' | '[' assignment-expression ']'.
/// A parenthesis with a list has the type of the list, an empty one the
/// type of a function without parameters; a bracket makes an array type.
pub fn p_direct_declarator_post(toks: &[Token], pos: usize) -> (r: Parsed)
    ensures
        parsed_view(r) == direct_declarator_post(tokens_view(toks@), pos as int),
        advances(r, toks.len(), pos),
        well_typed(r),
    decreases toks.len() - pos, rank(Rule::DirectDeclaratorPost), 1int,
{
    check_pos(pos, toks.len())?;
    match symbol_at(toks, pos) {
        Some(Symbol::LParen) => {
            if is_symbol(toks, pos + 1, Symbol::RParen) {
                let node = ParseNode::leaf(
                    NodeType::DirectDeclaratorPost(Symbol::LParen),
                    TypeExpression::new_val(BaseType::Function),
                );
                return Ok((node, pos + 2));
            }
            let (parameters, p) = match p_parameter_type_list(toks, pos + 1) {
                Ok(found) => found,
                Err(_) => p_identifier_list(toks, pos + 1)?,
            };
            check_tok(p, toks, Symbol::RParen)?;
            Ok((ParseNode::wrap(NodeType::DirectDeclaratorPost(Symbol::LParen), parameters), p + 1))
        },
        Some(Symbol::LBracket) => p_array_suffix(
            toks,
            pos,
            NodeType::DirectDeclaratorPost(Symbol::LBracket),
        ),
        _ => Err(error_handler(Rule::DirectDeclaratorPost, toks, pos)),
    }
}

/// Parses a pointer at `pos`.
///
/// pointer: '*' [ type-qualifier-list ] [ pointer ]. Its type is a pointer
/// over the types of what follows the star, so that pointers nest.
pub fn p_pointer(toks: &[Token], pos: usize) -> (r: Parsed)
    ensures
        parsed_view(r) == pointer(tokens_view(toks@), pos as int),
        advances(r, toks.len(), pos),
        well_typed(r),
    decreases toks.len() - pos, rank(Rule::Pointer), 1int,
{
    check_tok(pos, toks, Symbol::Star)?;
    match p_type_qualifier_list(toks, pos + 1) {
        Ok((qualifiers, p)) => match p_pointer(toks, p) {
            Ok((more, q)) => {
                let ty = TypeExpression::tagged(
                    BaseType::Pointer,
                    two_types(qualifiers.type_of(), more.type_of()),
                );
                Ok((ParseNode::binary(NodeType::Pointer, qualifiers, more, ty), q))
            },
            Err(_) => {
                let ty = TypeExpression::tagged(BaseType::Pointer, one_type(qualifiers.type_of()));
                Ok((ParseNode::unary(NodeType::Pointer, qualifiers, ty), p))
            },
        },
        Err(_) => match p_pointer(toks, pos + 1) {
            Ok((more, q)) => {
                let ty = TypeExpression::tagged(BaseType::Pointer, one_type(more.type_of()));
                Ok((ParseNode::unary(NodeType::Pointer, more, ty), q))
            },
            Err(_) => {
                let ty = TypeExpression::tagged(BaseType::Pointer, no_types());
                Ok((ParseNode::leaf(NodeType::Pointer, ty), pos + 1))
            },
        },
    }
}

/// Parses a type-qualifier-list at `pos`.
///
/// type-qualifier-list: type-qualifier { type-qualifier }
pub fn p_type_qualifier_list(toks: &[Token], pos: usize) -> (r: Parsed)
    ensures
        parsed_view(r) == type_qualifier_list(tokens_view(toks@), pos as int),
        advances(r, toks.len(), pos),
        well_typed(r),
    decreases toks.len() - pos, rank(Rule::TypeQualifierList), 1int,
{
    p_repeated_list(
        toks,
        pos,
        NodeType::TypeQualifierList,
        Rule::TypeQualifier,
        ListTyping::Composite,
    )
}

/// Parses a parameter-type-list at `pos`.
///
/// parameter-type-list: parameter-list [ ',' '...' ]. The ellipsis marks
/// the type of the list.
pub fn p_parameter_type_list(toks: &[Token], pos: usize) -> (r: Parsed)
    ensures
        parsed_view(r) == parameter_type_list(tokens_view(toks@), pos as int),
        advances(r, toks.len(), pos),
        well_typed(r),
    decreases toks.len() - pos, rank(Rule::ParameterTypeList), 1int,
{
    check_pos(pos, toks.len())?;
    let (list, p) = p_parameter_list(toks, pos)?;
    if !is_symbol(toks, p, Symbol::Comma) {
        return Ok((ParseNode::wrap(NodeType::ParameterTypeList(false), list), p));
    }
    check_tok(p + 1, toks, Symbol::Ellipsis)?;
    let ty = list.type_of().with_val(BaseType::VaList);
    Ok((ParseNode::unary(NodeType::ParameterTypeList(true), list, ty), p + 2))
}

/// Parses a parameter-list at `pos`.
///
/// parameter-list: parameter-declaration { ',' parameter-declaration }
pub fn p_parameter_list(toks: &[Token], pos: usize) -> (r: Parsed)
    ensures
        parsed_view(r) == parameter_list(tokens_view(toks@), pos as int),
        advances(r, toks.len(), pos),
        well_typed(r),
    decreases toks.len() - pos, rank(Rule::ParameterList), 1int,
{
    p_separated_list(
        toks,
        pos,
        NodeType::ParameterList,
        Rule::ParameterDeclaration,
        ListTyping::Composite,
    )
}

/// Parses a parameter-declaration at `pos`.
///
/// parameter-declaration: declaration-specifiers declarator
/// | declaration-specifiers abstract-declarator | declaration-specifiers
pub fn p_parameter_declaration(toks: &[Token], pos: usize) -> (r: Parsed)
    ensures
        parsed_view(r) == parameter_declaration(tokens_view(toks@), pos as int),
        advances(r, toks.len(), pos),
        well_typed(r),
    decreases toks.len() - pos, rank(Rule::ParameterDeclaration), 1int,
{
    check_pos(pos, toks.len())?;
    let (specifiers, p) = p_declaration_specifiers(toks, pos)?;
    let (shape, q) = match p_declarator(toks, p) {
        Ok(found) => found,
        Err(_) => match p_abstract_declarator(toks, p) {
            Ok(found) => found,
            Err(_) => return Ok((ParseNode::wrap(NodeType::ParameterDeclaration, specifiers), p)),
        },
    };
    let ty = TypeExpression::pair(specifiers.type_of(), shape.type_of());
    Ok((ParseNode::binary(NodeType::ParameterDeclaration, specifiers, shape, ty), q))
}

/// Parses an identifier-list at `pos`.
///
/// identifier-list: identifier { ',' identifier }
pub fn p_identifier_list(toks: &[Token], pos: usize) -> (r: Parsed)
    ensures
        parsed_view(r) == identifier_list(tokens_view(toks@), pos as int),
        advances(r, toks.len(), pos),
        well_typed(r),
    decreases toks.len() - pos, rank(Rule::IdentifierList), 1int,
{
    p_separated_list(toks, pos, NodeType::IdentifierList, Rule::Identifier, ListTyping::Flatten)
}

/// Parses a type-name at `pos`.
///
/// type-name: specifier-qualifier-list [ abstract-declarator ]
pub fn p_type_name(toks: &[Token], pos: usize) -> (r: Parsed)
    ensures
        parsed_view(r) == typename(tokens_view(toks@), pos as int),
        advances(r, toks.len(), pos),
        well_typed(r),
    decreases toks.len() - pos, rank(Rule::TypeName), 1int,
{
    check_pos(pos, toks.len())?;
    let (specifiers, p) = p_specifier_qualifier_list(toks, pos)?;
    match p_abstract_declarator(toks, p) {
        Ok((shape, q)) => {
            let ty = TypeExpression::pair(specifiers.type_of(), shape.type_of());
            Ok((ParseNode::binary(NodeType::TypeName, specifiers, shape, ty), q))
        },
        Err(_) => Ok((ParseNode::wrap(NodeType::TypeName, specifiers), p)),
    }
}

/// Parses an abstract-declarator at `pos`.
///
/// abstract-declarator: pointer [ direct-abstract-declarator ]
/// | direct-abstract-declarator
pub fn p_abstract_declarator(toks: &[Token], pos: usize) -> (r: Parsed)
    ensures
        parsed_view(r) == abstract_declarator(tokens_view(toks@), pos as int),
        advances(r, toks.len(), pos),
        well_typed(r),
    decreases toks.len() - pos, rank(Rule::AbstractDeclarator), 1int,
{
    check_pos(pos, toks.len())?;
    match p_pointer(toks, pos) {
        Ok((stars, p)) => match p_direct_abstract_declarator(toks, p) {
            Ok((direct, q)) => {
                let ty = TypeExpression::tagged(BaseType::Pointer, one_type(direct.type_of()));
                Ok((ParseNode::binary(NodeType::AbstractDeclarator, stars, direct, ty), q))
            },
            Err(_) => {
                let ty = TypeExpression::tagged(BaseType::Pointer, no_types());
                Ok((ParseNode::unary(NodeType::AbstractDeclarator, stars, ty), p))
            },
        },
        Err(_) => match p_direct_abstract_declarator(toks, pos) {
            Ok((direct, p)) => Ok((ParseNode::wrap(NodeType::AbstractDeclarator, direct), p)),
            Err(_) => Err(no_viable(Rule::AbstractDeclarator, pos)),
        },
    }
}

/// Parses a direct-abstract-declarator at `pos`.
///
/// direct-abstract-declarator: block { block }
pub fn p_direct_abstract_declarator(toks: &[Token], pos: usize) -> (r: Parsed)
    ensures
        parsed_view(r) == direct_abstract_declarator(tokens_view(toks@), pos as int),
        advances(r, toks.len(), pos),
        well_typed(r),
    decreases toks.len() - pos, rank(Rule::DirectAbstractDeclarator), 1int,
{
    p_repeated_list(
        toks,
        pos,
        NodeType::DirectAbstractDeclarator,
        Rule::DirectAbstractDeclaratorBlock,
        ListTyping::Flatten,
    )
}

/// Parses a direct-abstract-declarator-block at `pos`.
///
/// One block of a direct abstract declarator: '(' ')'
/// | '(' abstract-declarator ')' | '(' parameter-type-list ')' | '[' ']'
/// | '[' assignment-expression ']'
pub fn p_direct_abstract_declarator_block(toks: &[Token], pos: usize) -> (r: Parsed)
    ensures
        parsed_view(r) == direct_abstract_declarator_block(tokens_view(toks@), pos as int),
        advances(r, toks.len(), pos),
        well_typed(r),
    decreases toks.len() - pos, rank(Rule::DirectAbstractDeclaratorBlock), 1int,
{
    check_pos(pos, toks.len())?;
    match symbol_at(toks, pos) {
        Some(Symbol::LParen) => {
            if is_symbol(toks, pos + 1, Symbol::RParen) {
                let node = ParseNode::leaf(
                    NodeType::DirectAbstractDeclaratorBlock(Symbol::LParen),
                    TypeExpression::new_val(BaseType::Function),
                );
                return Ok((node, pos + 2));
            }
            match p_abstract_declarator(toks, pos + 1) {
                Ok((inner, p)) => {
                    check_tok(p, toks, Symbol::RParen)?;
                    Ok(
                        (
                            ParseNode::wrap(
                                NodeType::DirectAbstractDeclaratorBlock(Symbol::LParen),
                                inner,
                            ),
                            p + 1,
                        ),
                    )
                },
                Err(_) => {
                    let (parameters, p) = p_parameter_type_list(toks, pos + 1)?;
                    check_tok(p, toks, Symbol::RParen)?;
                    Ok(
                        (
                            ParseNode::wrap(
                                NodeType::DirectAbstractDeclaratorBlock(Symbol::LParen),
                                parameters,
                            ),
                            p + 1,
                        ),
                    )
                },
            }
        },
        Some(Symbol::LBracket) => p_array_suffix(
            toks,
            pos,
            NodeType::DirectAbstractDeclaratorBlock(Symbol::LBracket),
        ),
        _ => Err(error_handler(Rule::DirectAbstractDeclaratorBlock, toks, pos)),
    }
}

/// Parses an initializer at `pos`.
///
/// initializer: assignment-expression | '{' initializer-list [','] '}'
pub fn p_initializer(toks: &[Token], pos: usize) -> (r: Parsed)
    ensures
        parsed_view(r) == initializer(tokens_view(toks@), pos as int),
        advances(r, toks.len(), pos),
        well_typed(r),
    decreases toks.len() - pos, rank(Rule::Initializer), 1int,
{
    check_pos(pos, toks.len())?;
    if let Ok((value, p)) = p_assignment_expression(toks, pos) {
        return Ok((ParseNode::wrap(NodeType::Initializer, value), p));
    }
    check_tok(pos, toks, Symbol::LBrace)?;
    let (list, p) = p_initializer_list(toks, pos + 1)?;
    let q = check_closing_brace(toks, p)?;
    Ok((ParseNode::wrap(NodeType::Initializer, list), q))
}

/// Parses an initializer-list at `pos`.
///
/// initializer-list: item { ',' item }, where an item is
/// [ designation ] initializer. Designations and initializers are the
/// children of the list, in order.
pub fn p_initializer_list(toks: &[Token], pos: usize) -> (r: Parsed)
    ensures
        parsed_view(r) == initializer_list(tokens_view(toks@), pos as int),
        advances(r, toks.len(), pos),
        well_typed(r),
    decreases toks.len() - pos, rank(Rule::InitializerList), 1int,
{
    check_pos(pos, toks.len())?;
    let ghost tv = tokens_view(toks@);
    let mut nodes: Vec<ParseNode> = Vec::new();
    let (first, start) = p_initializer_item(toks, pos, &mut nodes)?;
    let mut types = one_type(first);
    proof {
        assert(nodes_view(Seq::<ParseNode>::empty()) =~= Seq::<NodeView>::empty());
        let more = initializer_item(tv, pos as int)->Ok_0.0;
        assert(Seq::<NodeView>::empty() + more =~= more);
    }
    let ghost goal = initializer_tail(tv, nodes_view(nodes@), types_view(types@), start as int);
    let mut cur = start;
    let mut done = false;
    while !done
        invariant
            pos < cur <= toks.len(),
            tv == tokens_view(toks@),
            types.len() > 0,
            all_typed(nodes_view(nodes@)),
            forall|k: int| 0 <= k < types.len() ==> !(#[trigger] types@[k])@.is_empty(),
            initializer_tail(tv, nodes_view(nodes@), types_view(types@), cur as int) == goal,
            done ==> goal == (nodes_view(nodes@), types_view(types@), cur as int),
        decreases toks.len() - cur, if done { 0int } else { 1int },
    {
        if !is_symbol(toks, cur, Symbol::Comma) {
            done = true;
        } else {
            match p_initializer_item(toks, cur + 1, &mut nodes) {
                Ok((ty, after)) => {
                    push_type(&mut types, ty);
                    cur = after;
                },
                Err(_) => {
                    done = true;
                },
            }
        }
    }
    let ty = if types.len() == 1 {
        types[0].duplicate()
    } else {
        TypeExpression::composite(types)
    };
    Ok((ParseNode::of(NodeType::InitializerList, nodes, ty), cur))
}

/// Parses a designation at `pos`.
///
/// designation: designator-list '='
pub fn p_designation(toks: &[Token], pos: usize) -> (r: Parsed)
    ensures
        parsed_view(r) == designation(tokens_view(toks@), pos as int),
        advances(r, toks.len(), pos),
        well_typed(r),
    decreases toks.len() - pos, rank(Rule::Designation), 1int,
{
    check_pos(pos, toks.len())?;
    let (list, p) = p_designator_list(toks, pos)?;
    check_tok(p, toks, Symbol::Assign)?;
    Ok((ParseNode::wrap(NodeType::Designation, list), p + 1))
}

/// Parses a designator-list at `pos`.
///
/// designator-list: designator { designator }
pub fn p_designator_list(toks: &[Token], pos: usize) -> (r: Parsed)
    ensures
        parsed_view(r) == designator_list(tokens_view(toks@), pos as int),
        advances(r, toks.len(), pos),
        well_typed(r),
    decreases toks.len() - pos, rank(Rule::DesignatorList), 1int,
{
    p_repeated_list(toks, pos, NodeType::DesignatorList, Rule::Designator, ListTyping::Flatten)
}

/// Parses a designator at `pos`.
///
/// designator: '[' constant-expression ']' | '.' identifier
pub fn p_designator(toks: &[Token], pos: usize) -> (r: Parsed)
    ensures
        parsed_view(r) == designator(tokens_view(toks@), pos as int),
        advances(r, toks.len(), pos),
        well_typed(r),
    decreases toks.len() - pos, rank(Rule::Designator), 1int,
{
    check_pos(pos, toks.len())?;
    if is_symbol(toks, pos, Symbol::LBracket) {
        let (index, p) = p_constant_expression(toks, pos + 1)?;
        check_tok(p, toks, Symbol::RBracket)?;
        return Ok((ParseNode::wrap(NodeType::Designator, index), p + 1));
    }
    check_tok(pos, toks, Symbol::Dot)?;
    wrap_parsed(NodeType::Designator, p_identifier(toks, pos + 1))
}

/// Parses a static-assert-declaration at `pos`.
///
/// static-assert-declaration: '_Static_assert' '(' constant-expression ','
/// string ')' ';'
pub fn p_static_assert_declaration(toks: &[Token], pos: usize) -> (r: Parsed)
    ensures
        parsed_view(r) == static_assert_declaration(tokens_view(toks@), pos as int),
        advances(r, toks.len(), pos),
        well_typed(r),
    decreases toks.len() - pos, rank(Rule::StaticAssertDeclaration), 1int,
{
    check_tok(pos, toks, Symbol::StaticAssert)?;
    check_tok(pos + 1, toks, Symbol::LParen)?;
    let (condition, p) = p_constant_expression(toks, pos + 2)?;
    check_tok(p, toks, Symbol::Comma)?;
    let (message, _) = p_string(toks, p + 1)?;
    check_tok(p + 2, toks, Symbol::RParen)?;
    check_tok(p + 3, toks, Symbol::Semicolon)?;
    let node = ParseNode::binary(
        NodeType::StaticAssertDeclaration,
        condition,
        message,
        TypeExpression::new_val(BaseType::NoneExpression),
    );
    Ok((node, p + 4))
}

/// The value of an optional tag.
pub open spec fn tag_view(t: Option<BaseType>) -> Option<BaseTypeView> {
    match t {
        Some(tag) => Some(tag@),
        None => None,
    }
}

/// The tag of a storage class.
pub fn storage_class(s: Symbol) -> (t: Option<BaseType>)
    ensures
        tag_view(t) == storage_class_tag(s),
{
    match s {
        Symbol::Extern => Some(BaseType::Extern),
        Symbol::Static => Some(BaseType::Static),
        Symbol::ThreadLocal => Some(BaseType::ThreadLocal),
        Symbol::Auto => Some(BaseType::Auto),
        Symbol::Register => Some(BaseType::Register),
        _ => None,
    }
}

/// The tag of a type keyword.
pub fn type_keyword(s: Symbol) -> (t: Option<BaseType>)
    ensures
        tag_view(t) == type_keyword_tag(s),
{
    match s {
        Symbol::Void => Some(BaseType::Void),
        Symbol::Char => Some(BaseType::Char),
        Symbol::Short => Some(BaseType::Short),
        Symbol::Int => Some(BaseType::Int),
        Symbol::Long => Some(BaseType::Long),
        Symbol::Float => Some(BaseType::Float),
        Symbol::Double => Some(BaseType::Double),
        Symbol::Signed => Some(BaseType::Signed),
        Symbol::Unsigned => Some(BaseType::Unsigned),
        Symbol::Bool => Some(BaseType::Bool),
        Symbol::Complex => Some(BaseType::Complex),
        Symbol::Imaginary => Some(BaseType::Imaginary),
        _ => None,
    }
}

/// The tag of a type qualifier.
pub fn qualifier(s: Symbol) -> (t: Option<BaseType>)
    ensures
        tag_view(t) == type_qualifier_tag(s),
{
    match s {
        Symbol::Const => Some(BaseType::Const),
        Symbol::Restrict => Some(BaseType::Restrict),
        Symbol::Volatile => Some(BaseType::Volatile),
        Symbol::Atomic => Some(BaseType::Atomic),
        _ => None,
    }
}

/// The tag of a function specifier.
pub fn function_marker(s: Symbol) -> (t: Option<BaseType>)
    ensures
        tag_view(t) == function_specifier_tag(s),
{
    match s {
        Symbol::Inline => Some(BaseType::Inline),
        Symbol::Noreturn => Some(BaseType::Noreturn),
        _ => None,
    }
}

/// Whether a value of the type can be the value of an enumerator.
pub fn enumerator_type(t: &TypeExpression) -> (b: bool)
    ensures
        b == is_enumerator_type(t@),
{
    judge_type_same(t, &TypeExpression::new_val(BaseType::Int)) || judge_type_same(
        t,
        &TypeExpression::new_val(BaseType::Bool),
    ) || judge_type_same(t, &TypeExpression::new_val(BaseType::Long)) || judge_type_same(
        t,
        &TypeExpression::new_val(BaseType::Signed),
    ) || judge_type_same(t, &TypeExpression::new_val(BaseType::Unsigned))
}

/// Parses one declaration specifier at `pos`.
pub fn p_declaration_specifier(toks: &[Token], pos: usize) -> (r: Parsed)
    ensures
        parsed_view(r) == declaration_specifier(tokens_view(toks@), pos as int),
        advances(r, toks.len(), pos),
        well_typed(r),
    decreases toks.len() - pos, rank(Rule::DeclarationSpecifiers), 0int,
{
    if let Ok(found) = p_storage_class_specifier(toks, pos) {
        return Ok(found);
    }
    if let Ok(found) = p_type_specifier(toks, pos) {
        return Ok(found);
    }
    if let Ok(found) = p_type_qualifier(toks, pos) {
        return Ok(found);
    }
    if let Ok(found) = p_function_specifier(toks, pos) {
        return Ok(found);
    }
    if let Ok(found) = p_alignment_specifier(toks, pos) {
        return Ok(found);
    }
    Err(no_viable(Rule::DeclarationSpecifiers, pos))
}

/// Parses one specifier or qualifier at `pos`.
pub fn p_specifier_qualifier(toks: &[Token], pos: usize) -> (r: Parsed)
    ensures
        parsed_view(r) == specifier_qualifier(tokens_view(toks@), pos as int),
        advances(r, toks.len(), pos),
        well_typed(r),
    decreases toks.len() - pos, rank(Rule::SpecifierQualifierList), 0int,
{
    if let Ok(found) = p_type_specifier(toks, pos) {
        return Ok(found);
    }
    if let Ok(found) = p_type_qualifier(toks, pos) {
        return Ok(found);
    }
    Err(no_viable(Rule::SpecifierQualifierList, pos))
}

/// Parses a type specifier that is not a keyword at `pos`.
pub fn p_compound_type_specifier(toks: &[Token], pos: usize) -> (r: Parsed)
    ensures
        parsed_view(r) == compound_type_specifier(tokens_view(toks@), pos as int),
        advances(r, toks.len(), pos),
        well_typed(r),
    decreases toks.len() - pos, rank(Rule::TypeSpecifier), 0int,
{
    if let Ok((inner, p)) = p_atomic_type_specifier(toks, pos) {
        return Ok((ParseNode::wrap(NodeType::TypeSpecifier(None), inner), p));
    }
    if let Ok((inner, p)) = p_struct_or_union_specifier(toks, pos) {
        return Ok((ParseNode::wrap(NodeType::TypeSpecifier(None), inner), p));
    }
    if let Ok((inner, p)) = p_enum_specifier(toks, pos) {
        return Ok((ParseNode::wrap(NodeType::TypeSpecifier(None), inner), p));
    }
    Err(no_viable(Rule::TypeSpecifier, pos))
}

/// Parses the body of a structure or union at `pos`: the list of its
/// declarations, and the position after the closing brace.
pub fn p_struct_body(toks: &[Token], pos: usize) -> (r: Parsed)
    ensures
        parsed_view(r) == struct_body(tokens_view(toks@), pos as int),
        advances(r, toks.len(), pos),
        well_typed(r),
    decreases toks.len() - pos, rank(Rule::StructOrUnionSpecifier), 0int,
{
    check_tok(pos, toks, Symbol::LBrace)?;
    let (list, p) = p_struct_declaration_list(toks, pos + 1)?;
    check_tok(p, toks, Symbol::RBrace)?;
    Ok((list, p + 1))
}

/// Parses the body of an enumeration at `pos`: the list of its enumerators,
/// and the position after the closing brace.
pub fn p_enum_body(toks: &[Token], pos: usize) -> (r: Parsed)
    ensures
        parsed_view(r) == enum_body(tokens_view(toks@), pos as int),
        advances(r, toks.len(), pos),
        well_typed(r),
    decreases toks.len() - pos, rank(Rule::EnumSpecifier), 0int,
{
    check_tok(pos, toks, Symbol::LBrace)?;
    let (list, p) = p_enumerator_list(toks, pos + 1)?;
    let q = check_closing_brace(toks, p)?;
    Ok((list, q))
}

/// Parses what a direct declarator starts with at `pos`.
pub fn p_direct_declarator_base(toks: &[Token], pos: usize) -> (r: Parsed)
    ensures
        parsed_view(r) == direct_declarator_base(tokens_view(toks@), pos as int),
        advances(r, toks.len(), pos),
        well_typed(r),
    decreases toks.len() - pos, rank(Rule::DirectDeclarator), 0int,
{
    if let Ok(found) = p_identifier(toks, pos) {
        return Ok(found);
    }
    if !is_symbol(toks, pos, Symbol::LParen) {
        return Err(no_viable(Rule::DirectDeclarator, pos));
    }
    let (inner, p) = p_declarator(toks, pos + 1)?;
    check_tok(p, toks, Symbol::RParen)?;
    Ok((inner, p + 1))
}

/// The length that the tokens from `start` to `end` give an array.
pub fn literal_length(toks: &[Token], start: usize, end: usize) -> (n: u64)
    ensures
        n as nat == array_length(tokens_view(toks@), start as int, end as int),
{
    if start < toks.len() && end == start + 1 {
        match &toks[start] {
            Token::IntConstant(v) => {
                if *v >= 0 {
                    *v as u64
                } else {
                    0
                }
            },
            _ => 0,
        }
    } else {
        0
    }
}

/// Parses an array suffix at `pos`, as a node of the given kind.
pub fn p_array_suffix(toks: &[Token], pos: usize, entry: NodeType) -> (r: Parsed)
    ensures
        parsed_view(r) == array_suffix(entry@, tokens_view(toks@), pos as int),
        advances(r, toks.len(), pos),
        well_typed(r),
    decreases toks.len() - pos, 0int, 0int,
{
    check_tok(pos, toks, Symbol::LBracket)?;
    if is_symbol(toks, pos + 1, Symbol::RBracket) {
        return Ok((ParseNode::leaf(entry, TypeExpression::new_val(BaseType::Array(0))), pos + 2));
    }
    let (length, p) = p_assignment_expression(toks, pos + 1)?;
    check_tok(p, toks, Symbol::RBracket)?;
    let n = literal_length(toks, pos + 1, p);
    let ty = TypeExpression::tagged(BaseType::Array(n), one_type(length.type_of()));
    Ok((ParseNode::unary(entry, length, ty), p + 1))
}

/// Parses one item of an initializer list at `pos` and appends its nodes to
/// `nodes`. Returns the type of the item's initializer and the position
/// after the item; on failure `nodes` is as it was.
pub fn p_initializer_item(toks: &[Token], pos: usize, nodes: &mut Vec<ParseNode>) -> (r: Result<
    (TypeExpression, usize),
    ParseError,
>)
    ensures
        match initializer_item(tokens_view(toks@), pos as int) {
            Ok((more, ty, end)) => r matches Ok((got, after)) && got@ == ty && after == end && pos
                < after <= toks.len() && nodes_view(final(nodes)@) == nodes_view(old(nodes)@)
                + more && !ty.is_empty() && (all_typed(nodes_view(old(nodes)@)) ==> all_typed(
                nodes_view(final(nodes)@),
            )),
            Err(e) => r matches Err(got) && got@ == e && final(nodes)@ == old(nodes)@,
        },
    decreases toks.len() - pos, rank(Rule::InitializerList) - 2, 0int,
{
    let ghost before = nodes_view(nodes@);
    match p_initializer(toks, pos) {
        Ok((value, p)) => {
            let ty = value.type_of();
            proof {
                assert(before.push(value@) =~= before + seq![value@]);
            }
            push_node(nodes, value);
            Ok((ty, p))
        },
        Err(_) => {
            let (target, p) = match p_designation(toks, pos) {
                Ok(found) => found,
                Err(_) => return Err(no_viable(Rule::InitializerList, pos)),
            };
            let (value, q) = p_initializer(toks, p)?;
            let ty = value.type_of();
            proof {
                assert(before.push(target@).push(value@) =~= before + seq![target@, value@]);
            }
            push_node(nodes, target);
            push_node(nodes, value);
            Ok((ty, q))
        },
    }
}

/// The node of a structure or union with a tag and a body.
pub fn tagged_struct(keyword: ParseNode, tag: ParseNode, list: ParseNode) -> (n: ParseNode)
    ensures
        n@ == NodeView::of(
            Kind::StructOrUnionSpecifier,
            seq![keyword@, tag@, list@],
            TypeView::composite(seq![keyword@.ty, tag@.ty, list@.ty]),
        ),
        typed(keyword@) && typed(tag@) && typed(list@) ==> typed(n@),
{
    let ty = TypeExpression::composite(
        three_types(keyword.type_of(), tag.type_of(), list.type_of()),
    );
    let children = three_nodes(keyword, tag, list);
    ParseNode::of(NodeType::StructOrUnionSpecifier, children, ty)
}

/// The node of a specifier sequence, and where it ends: over the first
/// specifier and the rest, where there is a rest, and else over the first
/// alone, ending at `end`.
pub fn specifier_node(entry: NodeType, first: ParseNode, rest: Parsed, end: usize) -> (r: (
    ParseNode,
    usize,
))
    ensures
        r.0@ == specifier_sequence(entry@, first@, parsed_view(rest)),
        r.1 == (match rest {
            Ok((_, after)) => after,
            Err(_) => end,
        }),
        typed(first@) && well_typed(rest) ==> typed(r.0@),
{
    match rest {
        Ok((more, after)) => {
            let ty = TypeExpression::pair(first.type_of(), more.type_of());
            (ParseNode::binary(entry, first, more, ty), after)
        },
        Err(_) => (ParseNode::wrap(entry, first), end),
    }
}

} // verus!
