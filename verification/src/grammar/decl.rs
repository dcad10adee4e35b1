//! Declarations, defined: specifiers, declarators, type names and
//! initializers.

use crate::ast::{Kind, NodeView};
use crate::error::ErrorView;
use crate::grammar::expr::{
    assignment_expression, constant_expression, enumeration_constant, identifier, none_type,
    string,
};
use crate::grammar::{
    at, closing_brace, fwd, mismatch, no_alternative, out_of_range, repeated_list, separated_list,
    sym_at, unexpected, wrap_ok, ListTyping, ParsedView,
};
use crate::rule::{rank, Rule};
use crate::sema::types_same;
use crate::token::{Symbol, TokenView};
use crate::types::{BaseTypeView, TypeView};
use vstd::prelude::*;

verus! {

/// declaration: declaration-specifiers ';'
/// | declaration-specifiers init-declarator-list ';'
/// | static-assert-declaration
pub open spec fn declaration(toks: Seq<TokenView>, pos: int) -> ParsedView
    decreases toks.len() - pos, rank(Rule::Declaration), 1int,
{
    let kind = Kind::Declaration;
    if out_of_range(toks, pos) {
        Err(ErrorView::PositionOutOfRange)
    } else {
        match fwd(declaration_specifiers(toks, pos), toks, pos) {
            Ok((specifiers, p)) => if at(toks, p, Symbol::Semicolon) {
                Ok((NodeView::wrap(kind, specifiers), p + 1))
            } else {
                match fwd(init_declarator_list(toks, p), toks, p) {
                    Err(e) => Err(e),
                    Ok((list, q)) => if !at(toks, q, Symbol::Semicolon) {
                        Err(mismatch(toks, q, Symbol::Semicolon))
                    } else {
                        Ok(
                            (
                                NodeView::binary(
                                    kind,
                                    specifiers,
                                    list,
                                    TypeView::pair(specifiers.ty, list.ty),
                                ),
                                q + 1,
                            ),
                        )
                    },
                }
            },
            Err(_) => match fwd(static_assert_declaration(toks, pos), toks, pos) {
                Ok((inner, p)) => Ok((NodeView::wrap(kind, inner), p)),
                Err(_) => Err(no_alternative(Rule::Declaration, pos)),
            },
        }
    }
}

/// One declaration specifier: the first of storage-class-specifier,
/// type-specifier, type-qualifier, function-specifier and
/// alignment-specifier that is at the position.
pub open spec fn declaration_specifier(toks: Seq<TokenView>, pos: int) -> ParsedView
    decreases toks.len() - pos, rank(Rule::DeclarationSpecifiers), 0int,
{
    if storage_class_specifier(toks, pos) is Ok {
        storage_class_specifier(toks, pos)
    } else if fwd(type_specifier(toks, pos), toks, pos) is Ok {
        type_specifier(toks, pos)
    } else if type_qualifier(toks, pos) is Ok {
        type_qualifier(toks, pos)
    } else if function_specifier(toks, pos) is Ok {
        function_specifier(toks, pos)
    } else if fwd(alignment_specifier(toks, pos), toks, pos) is Ok {
        alignment_specifier(toks, pos)
    } else {
        Err(no_alternative(Rule::DeclarationSpecifiers, pos))
    }
}

/// The node of a specifier sequence: over the first specifier alone, with
/// its type, or over the first and the rest, with the pair of their types.
pub open spec fn specifier_sequence(kind: Kind, first: NodeView, rest: ParsedView) -> NodeView {
    match rest {
        Ok((more, _)) => NodeView::binary(kind, first, more, TypeView::pair(first.ty, more.ty)),
        Err(_) => NodeView::wrap(kind, first),
    }
}

/// declaration-specifiers: specifier [ declaration-specifiers ]
pub open spec fn declaration_specifiers(toks: Seq<TokenView>, pos: int) -> ParsedView
    decreases toks.len() - pos, rank(Rule::DeclarationSpecifiers), 1int,
{
    if out_of_range(toks, pos) {
        Err(ErrorView::PositionOutOfRange)
    } else {
        match fwd(declaration_specifier(toks, pos), toks, pos) {
            Err(e) => Err(e),
            Ok((first, p)) => {
                let rest = fwd(declaration_specifiers(toks, p), toks, p);
                Ok(
                    (
                        specifier_sequence(Kind::DeclarationSpecifiers, first, rest),
                        match rest {
                            Ok((_, q)) => q,
                            Err(_) => p,
                        },
                    ),
                )
            },
        }
    }
}

/// init-declarator-list: init-declarator { ',' init-declarator }
pub open spec fn init_declarator_list(toks: Seq<TokenView>, pos: int) -> ParsedView
    decreases toks.len() - pos, rank(Rule::InitDeclaratorList), 1int,
{
    separated_list(
        Kind::InitDeclaratorList,
        Rule::InitDeclarator,
        ListTyping::Flatten,
        toks,
        pos,
    )
}

/// init-declarator: declarator [ '=' initializer ]. The initializer must
/// have the declarator's type.
pub open spec fn init_declarator(toks: Seq<TokenView>, pos: int) -> ParsedView
    decreases toks.len() - pos, rank(Rule::InitDeclarator), 1int,
{
    let kind = Kind::InitDeclarator;
    if out_of_range(toks, pos) {
        Err(ErrorView::PositionOutOfRange)
    } else {
        match fwd(declarator(toks, pos), toks, pos) {
            Err(e) => Err(e),
            Ok((name, p)) => if !at(toks, p, Symbol::Assign) {
                Ok((NodeView::wrap(kind, name), p))
            } else {
                match fwd(initializer(toks, p + 1), toks, p + 1) {
                    Err(e) => Err(e),
                    Ok((value, q)) => if types_same(name.ty, value.ty) {
                        Ok((NodeView::binary(kind, name, value, name.ty), q))
                    } else {
                        Err(
                            ErrorView::IllegalTypeCombination {
                                left: name.ty,
                                right: value.ty,
                                operator: Symbol::Assign,
                            },
                        )
                    },
                }
            },
        }
    }
}

/// The tag of a storage class.
pub open spec fn storage_class_tag(s: Symbol) -> Option<BaseTypeView> {
    match s {
        Symbol::Extern => Some(BaseTypeView::Extern),
        Symbol::Static => Some(BaseTypeView::Static),
        Symbol::ThreadLocal => Some(BaseTypeView::ThreadLocal),
        Symbol::Auto => Some(BaseTypeView::Auto),
        Symbol::Register => Some(BaseTypeView::Register),
        _ => None,
    }
}

/// The node of a keyword that is a production by itself, or the failure of
/// the production at the position.
pub open spec fn keyword_node(
    rule: Rule,
    kind: Kind,
    tag: Option<BaseTypeView>,
    toks: Seq<TokenView>,
    pos: int,
) -> ParsedView {
    match tag {
        Some(tag) => Ok((NodeView::leaf(kind, TypeView::of(tag)), pos + 1)),
        None => Err(unexpected(toks, pos, rule)),
    }
}

/// storage-class-specifier: 'extern' | 'static' | '_Thread_local' | 'auto'
/// | 'register'. A `typedef` is not supported.
pub open spec fn storage_class_specifier(toks: Seq<TokenView>, pos: int) -> ParsedView {
    if out_of_range(toks, pos) {
        Err(ErrorView::PositionOutOfRange)
    } else {
        match sym_at(toks, pos) {
            Some(Symbol::Typedef) => Err(ErrorView::UnsupportedFeature { position: pos }),
            Some(s) => keyword_node(
                Rule::StorageClassSpecifier,
                Kind::StorageClassSpecifier(s),
                storage_class_tag(s),
                toks,
                pos,
            ),
            None => Err(unexpected(toks, pos, Rule::StorageClassSpecifier)),
        }
    }
}

/// The tag of a type keyword.
pub open spec fn type_keyword_tag(s: Symbol) -> Option<BaseTypeView> {
    match s {
        Symbol::Void => Some(BaseTypeView::Void),
        Symbol::Char => Some(BaseTypeView::Char),
        Symbol::Short => Some(BaseTypeView::Short),
        Symbol::Int => Some(BaseTypeView::Int),
        Symbol::Long => Some(BaseTypeView::Long),
        Symbol::Float => Some(BaseTypeView::Float),
        Symbol::Double => Some(BaseTypeView::Double),
        Symbol::Signed => Some(BaseTypeView::Signed),
        Symbol::Unsigned => Some(BaseTypeView::Unsigned),
        Symbol::Bool => Some(BaseTypeView::Bool),
        Symbol::Complex => Some(BaseTypeView::Complex),
        Symbol::Imaginary => Some(BaseTypeView::Imaginary),
        _ => None,
    }
}

/// A type specifier that is not a keyword: the first of
/// atomic-type-specifier, struct-or-union-specifier and enum-specifier that
/// is at the position.
pub open spec fn compound_type_specifier(toks: Seq<TokenView>, pos: int) -> ParsedView
    decreases toks.len() - pos, rank(Rule::TypeSpecifier), 0int,
{
    let kind = Kind::TypeSpecifier(None);
    if fwd(atomic_type_specifier(toks, pos), toks, pos) is Ok {
        wrap_ok(kind, atomic_type_specifier(toks, pos))
    } else if fwd(struct_or_union_specifier(toks, pos), toks, pos) is Ok {
        wrap_ok(kind, struct_or_union_specifier(toks, pos))
    } else if fwd(enum_specifier(toks, pos), toks, pos) is Ok {
        wrap_ok(kind, enum_specifier(toks, pos))
    } else {
        Err(no_alternative(Rule::TypeSpecifier, pos))
    }
}

/// type-specifier: a type keyword | atomic-type-specifier
/// | struct-or-union-specifier | enum-specifier. A typedef name is not
/// supported.
pub open spec fn type_specifier(toks: Seq<TokenView>, pos: int) -> ParsedView
    decreases toks.len() - pos, rank(Rule::TypeSpecifier), 1int,
{
    if out_of_range(toks, pos) {
        Err(ErrorView::PositionOutOfRange)
    } else {
        match sym_at(toks, pos) {
            Some(Symbol::TypedefName) => Err(ErrorView::UnsupportedFeature { position: pos }),
            Some(s) => match type_keyword_tag(s) {
                Some(tag) => Ok(
                    (NodeView::leaf(Kind::TypeSpecifier(Some(s)), TypeView::of(tag)), pos + 1),
                ),
                None => compound_type_specifier(toks, pos),
            },
            None => compound_type_specifier(toks, pos),
        }
    }
}

/// The body of a structure or union: '{' struct-declaration-list '}'.
pub open spec fn struct_body(toks: Seq<TokenView>, pos: int) -> ParsedView
    decreases toks.len() - pos, rank(Rule::StructOrUnionSpecifier), 0int,
{
    if !at(toks, pos, Symbol::LBrace) {
        Err(mismatch(toks, pos, Symbol::LBrace))
    } else {
        match fwd(struct_declaration_list(toks, pos + 1), toks, pos + 1) {
            Err(e) => Err(e),
            Ok((list, p)) => if !at(toks, p, Symbol::RBrace) {
                Err(mismatch(toks, p, Symbol::RBrace))
            } else {
                Ok((list, p + 1))
            },
        }
    }
}

/// struct-or-union-specifier: struct-or-union '{' struct-declaration-list '}'
/// | struct-or-union identifier '{' struct-declaration-list '}'
/// | struct-or-union identifier
pub open spec fn struct_or_union_specifier(toks: Seq<TokenView>, pos: int) -> ParsedView
    decreases toks.len() - pos, rank(Rule::StructOrUnionSpecifier), 1int,
{
    let kind = Kind::StructOrUnionSpecifier;
    match struct_or_union(toks, pos) {
        Err(e) => Err(e),
        Ok((keyword, _)) => match identifier(toks, pos + 1) {
            Ok((tag, _)) => if !at(toks, pos + 2, Symbol::LBrace) {
                Ok((NodeView::binary(kind, keyword, tag, TypeView::pair(keyword.ty, tag.ty)), pos + 2))
            } else {
                match fwd(struct_body(toks, pos + 2), toks, pos + 2) {
                    Err(e) => Err(e),
                    Ok((list, q)) => Ok(
                        (
                            NodeView::of(
                                kind,
                                seq![keyword, tag, list],
                                TypeView::composite(seq![keyword.ty, tag.ty, list.ty]),
                            ),
                            q,
                        ),
                    ),
                }
            },
            Err(_) => match fwd(struct_body(toks, pos + 1), toks, pos + 1) {
                Err(e) => Err(e),
                Ok((list, q)) => Ok(
                    (NodeView::binary(kind, keyword, list, TypeView::pair(keyword.ty, list.ty)), q),
                ),
            },
        },
    }
}

/// struct-or-union: 'struct' | 'union'
pub open spec fn struct_or_union(toks: Seq<TokenView>, pos: int) -> ParsedView {
    if out_of_range(toks, pos) {
        Err(ErrorView::PositionOutOfRange)
    } else {
        match sym_at(toks, pos) {
            Some(Symbol::Struct) => Ok(
                (
                    NodeView::leaf(
                        Kind::StructOrUnion(Symbol::Struct),
                        TypeView::of(BaseTypeView::Struct),
                    ),
                    pos + 1,
                ),
            ),
            Some(Symbol::Union) => Ok(
                (
                    NodeView::leaf(
                        Kind::StructOrUnion(Symbol::Union),
                        TypeView::of(BaseTypeView::Union),
                    ),
                    pos + 1,
                ),
            ),
            _ => Err(unexpected(toks, pos, Rule::StructOrUnion)),
        }
    }
}

/// struct-declaration-list: struct-declaration { struct-declaration }
pub open spec fn struct_declaration_list(toks: Seq<TokenView>, pos: int) -> ParsedView
    decreases toks.len() - pos, rank(Rule::StructDeclarationList), 1int,
{
    repeated_list(
        Kind::StructDeclarationList,
        Rule::StructDeclaration,
        ListTyping::Flatten,
        toks,
        pos,
    )
}

/// struct-declaration: specifier-qualifier-list ';'
/// | specifier-qualifier-list struct-declarator-list ';'
/// | static-assert-declaration
pub open spec fn struct_declaration(toks: Seq<TokenView>, pos: int) -> ParsedView
    decreases toks.len() - pos, rank(Rule::StructDeclaration), 1int,
{
    let kind = Kind::StructDeclaration;
    if out_of_range(toks, pos) {
        Err(ErrorView::PositionOutOfRange)
    } else {
        match fwd(specifier_qualifier_list(toks, pos), toks, pos) {
            Ok((specifiers, p)) => if at(toks, p, Symbol::Semicolon) {
                Ok((NodeView::wrap(kind, specifiers), p + 1))
            } else {
                match fwd(struct_declarator_list(toks, p), toks, p) {
                    Err(e) => Err(e),
                    Ok((list, q)) => if !at(toks, q, Symbol::Semicolon) {
                        Err(mismatch(toks, q, Symbol::Semicolon))
                    } else {
                        Ok(
                            (
                                NodeView::binary(
                                    kind,
                                    specifiers,
                                    list,
                                    TypeView::pair(specifiers.ty, list.ty),
                                ),
                                q + 1,
                            ),
                        )
                    },
                }
            },
            Err(_) => match fwd(static_assert_declaration(toks, pos), toks, pos) {
                Ok((inner, p)) => Ok((NodeView::wrap(kind, inner), p)),
                Err(_) => Err(no_alternative(Rule::StructDeclaration, pos)),
            },
        }
    }
}

/// One specifier or qualifier: a type-specifier or, failing that, a
/// type-qualifier.
pub open spec fn specifier_qualifier(toks: Seq<TokenView>, pos: int) -> ParsedView
    decreases toks.len() - pos, rank(Rule::SpecifierQualifierList), 0int,
{
    if fwd(type_specifier(toks, pos), toks, pos) is Ok {
        type_specifier(toks, pos)
    } else if type_qualifier(toks, pos) is Ok {
        type_qualifier(toks, pos)
    } else {
        Err(no_alternative(Rule::SpecifierQualifierList, pos))
    }
}

/// specifier-qualifier-list: specifier-or-qualifier
/// [ specifier-qualifier-list ]
pub open spec fn specifier_qualifier_list(toks: Seq<TokenView>, pos: int) -> ParsedView
    decreases toks.len() - pos, rank(Rule::SpecifierQualifierList), 1int,
{
    if out_of_range(toks, pos) {
        Err(ErrorView::PositionOutOfRange)
    } else {
        match fwd(specifier_qualifier(toks, pos), toks, pos) {
            Err(e) => Err(e),
            Ok((first, p)) => {
                let rest = fwd(specifier_qualifier_list(toks, p), toks, p);
                Ok(
                    (
                        specifier_sequence(Kind::SpecifierQualifierList, first, rest),
                        match rest {
                            Ok((_, q)) => q,
                            Err(_) => p,
                        },
                    ),
                )
            },
        }
    }
}

/// struct-declarator-list: struct-declarator { ',' struct-declarator }
pub open spec fn struct_declarator_list(toks: Seq<TokenView>, pos: int) -> ParsedView
    decreases toks.len() - pos, rank(Rule::StructDeclaratorList), 1int,
{
    separated_list(
        Kind::StructDeclaratorList,
        Rule::StructDeclarator,
        ListTyping::Flatten,
        toks,
        pos,
    )
}

/// struct-declarator: ':' constant-expression
/// | declarator [ ':' constant-expression ]
pub open spec fn struct_declarator(toks: Seq<TokenView>, pos: int) -> ParsedView
    decreases toks.len() - pos, rank(Rule::StructDeclarator), 1int,
{
    let kind = Kind::StructDeclarator;
    if out_of_range(toks, pos) {
        Err(ErrorView::PositionOutOfRange)
    } else if at(toks, pos, Symbol::Colon) {
        wrap_ok(kind, fwd(constant_expression(toks, pos + 1), toks, pos + 1))
    } else {
        match fwd(declarator(toks, pos), toks, pos) {
            Err(e) => Err(e),
            Ok((name, p)) => if !at(toks, p, Symbol::Colon) {
                Ok((NodeView::wrap(kind, name), p))
            } else {
                match fwd(constant_expression(toks, p + 1), toks, p + 1) {
                    Err(e) => Err(e),
                    Ok((width, q)) => Ok(
                        (NodeView::binary(kind, name, width, TypeView::pair(name.ty, width.ty)), q),
                    ),
                }
            },
        }
    }
}

/// The type of an enumeration: `int`.
pub open spec fn enum_type() -> TypeView {
    TypeView::of(BaseTypeView::Int)
}

/// The body of an enumeration: '{' enumerator-list [','] '}'.
pub open spec fn enum_body(toks: Seq<TokenView>, pos: int) -> ParsedView
    decreases toks.len() - pos, rank(Rule::EnumSpecifier), 0int,
{
    if !at(toks, pos, Symbol::LBrace) {
        Err(mismatch(toks, pos, Symbol::LBrace))
    } else {
        match fwd(enumerator_list(toks, pos + 1), toks, pos + 1) {
            Err(e) => Err(e),
            Ok((list, p)) => match closing_brace(toks, p) {
                Err(e) => Err(e),
                Ok(q) => Ok((list, q)),
            },
        }
    }
}

/// enum-specifier: 'enum' '{' enumerator-list [','] '}'
/// | 'enum' identifier '{' enumerator-list [','] '}' | 'enum' identifier
pub open spec fn enum_specifier(toks: Seq<TokenView>, pos: int) -> ParsedView
    decreases toks.len() - pos, rank(Rule::EnumSpecifier), 1int,
{
    if !at(toks, pos, Symbol::Enum) {
        Err(mismatch(toks, pos, Symbol::Enum))
    } else if at(toks, pos + 1, Symbol::LBrace) {
        match fwd(enum_body(toks, pos + 1), toks, pos + 1) {
            Err(e) => Err(e),
            Ok((list, q)) => Ok((NodeView::unary(Kind::EnumSpecifier(None), list, enum_type()), q)),
        }
    } else if out_of_range(toks, pos + 1) {
        Err(ErrorView::PositionOutOfRange)
    } else {
        match toks[pos + 1] {
            TokenView::Identifier(name) => if !at(toks, pos + 2, Symbol::LBrace) {
                Ok((NodeView::leaf(Kind::EnumSpecifier(Some(name)), enum_type()), pos + 2))
            } else {
                match fwd(enum_body(toks, pos + 2), toks, pos + 2) {
                    Err(e) => Err(e),
                    Ok((list, q)) => Ok(
                        (NodeView::unary(Kind::EnumSpecifier(Some(name)), list, enum_type()), q),
                    ),
                }
            },
            _ => Err(unexpected(toks, pos + 1, Rule::EnumSpecifier)),
        }
    }
}

/// enumerator-list: enumerator { ',' enumerator }
pub open spec fn enumerator_list(toks: Seq<TokenView>, pos: int) -> ParsedView
    decreases toks.len() - pos, rank(Rule::EnumeratorList), 1int,
{
    separated_list(Kind::EnumeratorList, Rule::Enumerator, ListTyping::Composite, toks, pos)
}

/// Whether a value of the type can be the value of an enumerator.
pub open spec fn is_enumerator_type(t: TypeView) -> bool {
    types_same(t, TypeView::of(BaseTypeView::Int)) || types_same(
        t,
        TypeView::of(BaseTypeView::Bool),
    ) || types_same(t, TypeView::of(BaseTypeView::Long)) || types_same(
        t,
        TypeView::of(BaseTypeView::Signed),
    ) || types_same(t, TypeView::of(BaseTypeView::Unsigned))
}

/// enumerator: enumeration-constant [ '=' constant-expression ]. The value
/// must have an integer type.
pub open spec fn enumerator(toks: Seq<TokenView>, pos: int) -> ParsedView
    decreases toks.len() - pos, rank(Rule::Enumerator), 1int,
{
    let kind = Kind::Enumerator;
    match enumeration_constant(toks, pos) {
        Err(e) => Err(e),
        Ok((name, _)) => if !at(toks, pos + 1, Symbol::Assign) {
            Ok((NodeView::wrap(kind, name), pos + 1))
        } else {
            match fwd(constant_expression(toks, pos + 2), toks, pos + 2) {
                Err(e) => Err(e),
                Ok((value, q)) => if is_enumerator_type(value.ty) {
                    Ok((NodeView::binary(kind, name, value, TypeView::pair(name.ty, value.ty)), q))
                } else {
                    Err(
                        ErrorView::IllegalTypeCombination {
                            left: name.ty,
                            right: value.ty,
                            operator: Symbol::Assign,
                        },
                    )
                },
            }
        },
    }
}

/// atomic-type-specifier: '_Atomic' '(' type-name ')'
pub open spec fn atomic_type_specifier(toks: Seq<TokenView>, pos: int) -> ParsedView
    decreases toks.len() - pos, rank(Rule::AtomicTypeSpecifier), 1int,
{
    if !at(toks, pos, Symbol::Atomic) {
        Err(mismatch(toks, pos, Symbol::Atomic))
    } else if !at(toks, pos + 1, Symbol::LParen) {
        Err(mismatch(toks, pos + 1, Symbol::LParen))
    } else {
        match fwd(typename(toks, pos + 2), toks, pos + 2) {
            Err(e) => Err(e),
            Ok((name, p)) => if !at(toks, p, Symbol::RParen) {
                Err(mismatch(toks, p, Symbol::RParen))
            } else {
                Ok(
                    (
                        NodeView::unary(
                            Kind::AtomicTypeSpecifier,
                            name,
                            TypeView::tagged(BaseTypeView::Atomic, seq![name.ty]),
                        ),
                        p + 1,
                    ),
                )
            },
        }
    }
}

/// The tag of a type qualifier.
pub open spec fn type_qualifier_tag(s: Symbol) -> Option<BaseTypeView> {
    match s {
        Symbol::Const => Some(BaseTypeView::Const),
        Symbol::Restrict => Some(BaseTypeView::Restrict),
        Symbol::Volatile => Some(BaseTypeView::Volatile),
        Symbol::Atomic => Some(BaseTypeView::Atomic),
        _ => None,
    }
}

/// type-qualifier: 'const' | 'restrict' | 'volatile' | '_Atomic'
pub open spec fn type_qualifier(toks: Seq<TokenView>, pos: int) -> ParsedView {
    if out_of_range(toks, pos) {
        Err(ErrorView::PositionOutOfRange)
    } else {
        match sym_at(toks, pos) {
            Some(s) => keyword_node(
                Rule::TypeQualifier,
                Kind::TypeQualifier(s),
                type_qualifier_tag(s),
                toks,
                pos,
            ),
            None => Err(unexpected(toks, pos, Rule::TypeQualifier)),
        }
    }
}

/// The tag of a function specifier.
pub open spec fn function_specifier_tag(s: Symbol) -> Option<BaseTypeView> {
    match s {
        Symbol::Inline => Some(BaseTypeView::Inline),
        Symbol::Noreturn => Some(BaseTypeView::Noreturn),
        _ => None,
    }
}

/// function-specifier: 'inline' | '_Noreturn'
pub open spec fn function_specifier(toks: Seq<TokenView>, pos: int) -> ParsedView {
    if out_of_range(toks, pos) {
        Err(ErrorView::PositionOutOfRange)
    } else {
        match sym_at(toks, pos) {
            Some(s) => keyword_node(
                Rule::FunctionSpecifier,
                Kind::FunctionSpecifier(s),
                function_specifier_tag(s),
                toks,
                pos,
            ),
            None => Err(unexpected(toks, pos, Rule::FunctionSpecifier)),
        }
    }
}

/// alignment-specifier: '_Alignas' '(' type-name ')'
/// | '_Alignas' '(' constant-expression ')'
pub open spec fn alignment_specifier(toks: Seq<TokenView>, pos: int) -> ParsedView
    decreases toks.len() - pos, rank(Rule::AlignmentSpecifier), 1int,
{
    if !at(toks, pos, Symbol::Alignas) {
        Err(mismatch(toks, pos, Symbol::Alignas))
    } else if !at(toks, pos + 1, Symbol::LParen) {
        Err(mismatch(toks, pos + 1, Symbol::LParen))
    } else {
        let operand = match fwd(typename(toks, pos + 2), toks, pos + 2) {
            Ok(found) => Ok(found),
            Err(_) => match fwd(constant_expression(toks, pos + 2), toks, pos + 2) {
                Ok(found) => Ok(found),
                Err(_) => Err(no_alternative(Rule::AlignmentSpecifier, pos + 2)),
            },
        };
        match operand {
            Err(e) => Err(e),
            Ok((inner, p)) => if !at(toks, p, Symbol::RParen) {
                Err(mismatch(toks, p, Symbol::RParen))
            } else {
                Ok((NodeView::unary(Kind::AlignmentSpecifier, inner, none_type()), p + 1))
            },
        }
    }
}

/// declarator: direct-declarator | pointer direct-declarator
pub open spec fn declarator(toks: Seq<TokenView>, pos: int) -> ParsedView
    decreases toks.len() - pos, rank(Rule::Declarator), 1int,
{
    let kind = Kind::Declarator;
    if out_of_range(toks, pos) {
        Err(ErrorView::PositionOutOfRange)
    } else {
        match fwd(direct_declarator(toks, pos), toks, pos) {
            Ok((direct, p)) => Ok((NodeView::wrap(kind, direct), p)),
            Err(_) => match fwd(pointer(toks, pos), toks, pos) {
                Err(_) => Err(no_alternative(Rule::Declarator, pos)),
                Ok((stars, p)) => match fwd(direct_declarator(toks, p), toks, p) {
                    Err(e) => Err(e),
                    Ok((direct, q)) => Ok(
                        (
                            NodeView::binary(kind, stars, direct, TypeView::pair(stars.ty, direct.ty)),
                            q,
                        ),
                    ),
                },
            },
        }
    }
}

/// What a direct declarator starts with: identifier | '(' declarator ')'.
pub open spec fn direct_declarator_base(toks: Seq<TokenView>, pos: int) -> ParsedView
    decreases toks.len() - pos, rank(Rule::DirectDeclarator), 0int,
{
    if identifier(toks, pos) is Ok {
        identifier(toks, pos)
    } else if !at(toks, pos, Symbol::LParen) {
        Err(no_alternative(Rule::DirectDeclarator, pos))
    } else {
        match fwd(declarator(toks, pos + 1), toks, pos + 1) {
            Err(e) => Err(e),
            Ok((inner, p)) => if !at(toks, p, Symbol::RParen) {
                Err(mismatch(toks, p, Symbol::RParen))
            } else {
                Ok((inner, p + 1))
            },
        }
    }
}

/// direct-declarator: ( identifier | '(' declarator ')' ) { suffix }. The
/// suffixes, if any, stand in one list, after what they apply to.
pub open spec fn direct_declarator(toks: Seq<TokenView>, pos: int) -> ParsedView
    decreases toks.len() - pos, rank(Rule::DirectDeclarator), 1int,
{
    let kind = Kind::DirectDeclarator;
    if out_of_range(toks, pos) {
        Err(ErrorView::PositionOutOfRange)
    } else {
        match fwd(direct_declarator_base(toks, pos), toks, pos) {
            Err(e) => Err(e),
            Ok((base, p)) => match fwd(direct_declarator_post_list(toks, p), toks, p) {
                Ok((suffixes, q)) => Ok(
                    (
                        NodeView::binary(kind, base, suffixes, TypeView::pair(base.ty, suffixes.ty)),
                        q,
                    ),
                ),
                Err(_) => Ok((NodeView::wrap(kind, base), p)),
            },
        }
    }
}

/// direct-declarator-post-list: suffix { suffix }. The types of the
/// suffixes stand in the order of the suffixes.
pub open spec fn direct_declarator_post_list(toks: Seq<TokenView>, pos: int) -> ParsedView
    decreases toks.len() - pos, rank(Rule::DirectDeclaratorPostList), 1int,
{
    repeated_list(
        Kind::DirectDeclaratorPostList,
        Rule::DirectDeclaratorPost,
        ListTyping::Flatten,
        toks,
        pos,
    )
}

/// The length that the tokens from `start` to `end` give an array: the
/// value of the integer constant, where they are one integer constant that
/// is not negative, and 0 otherwise.
pub open spec fn array_length(toks: Seq<TokenView>, start: int, end: int) -> nat {
    if end == start + 1 && !out_of_range(toks, start) {
        match toks[start] {
            TokenView::IntConstant(v) => if 0 <= v {
                v as nat
            } else {
                0
            },
            _ => 0,
        }
    } else {
        0
    }
}

/// The type of a function without parameters.
pub open spec fn plain_function_type() -> TypeView {
    TypeView::of(BaseTypeView::Function)
}

/// The array suffix that starts at the position: '[' ']'
/// | '[' assignment-expression ']'. Its type is an array of the length the
/// expression gives, over the type of the expression.
pub open spec fn array_suffix(kind: Kind, toks: Seq<TokenView>, pos: int) -> ParsedView
    decreases toks.len() - pos, 0int, 0int,
{
    if !at(toks, pos, Symbol::LBracket) {
        Err(mismatch(toks, pos, Symbol::LBracket))
    } else if at(toks, pos + 1, Symbol::RBracket) {
        Ok((NodeView::leaf(kind, TypeView::of(BaseTypeView::Array(0))), pos + 2))
    } else {
        match fwd(assignment_expression(toks, pos + 1), toks, pos + 1) {
            Err(e) => Err(e),
            Ok((length, p)) => if !at(toks, p, Symbol::RBracket) {
                Err(mismatch(toks, p, Symbol::RBracket))
            } else {
                Ok(
                    (
                        NodeView::unary(
                            kind,
                            length,
                            TypeView::tagged(
                                BaseTypeView::Array(array_length(toks, pos + 1, p)),
                                seq![length.ty],
                            ),
                        ),
                        p + 1,
                    ),
                )
            },
        }
    }
}

/// One suffix of a direct declarator: '(' ')' | '(' parameter-type-list ')'
/// | '(' identifier-list ')' | '[' ']' | '[' assignment-expression ']'.
/// A parenthesis with a list has the type of the list, an empty one the
/// type of a function without parameters; a bracket makes an array type.
pub open spec fn direct_declarator_post(toks: Seq<TokenView>, pos: int) -> ParsedView
    decreases toks.len() - pos, rank(Rule::DirectDeclaratorPost), 1int,
{
    if out_of_range(toks, pos) {
        Err(ErrorView::PositionOutOfRange)
    } else {
        match sym_at(toks, pos) {
            Some(Symbol::LParen) => {
                let kind = Kind::DirectDeclaratorPost(Symbol::LParen);
                if at(toks, pos + 1, Symbol::RParen) {
                    Ok((NodeView::leaf(kind, plain_function_type()), pos + 2))
                } else {
                    let list = match fwd(parameter_type_list(toks, pos + 1), toks, pos + 1) {
                        Ok(found) => Ok(found),
                        Err(_) => fwd(identifier_list(toks, pos + 1), toks, pos + 1),
                    };
                    match list {
                        Err(e) => Err(e),
                        Ok((parameters, p)) => if !at(toks, p, Symbol::RParen) {
                            Err(mismatch(toks, p, Symbol::RParen))
                        } else {
                            Ok((NodeView::wrap(kind, parameters), p + 1))
                        },
                    }
                }
            },
            Some(Symbol::LBracket) => array_suffix(
                Kind::DirectDeclaratorPost(Symbol::LBracket),
                toks,
                pos,
            ),
            _ => Err(unexpected(toks, pos, Rule::DirectDeclaratorPost)),
        }
    }
}

/// The type of a pointer over the given parts.
pub open spec fn pointer_type(parts: Seq<TypeView>) -> TypeView {
    TypeView::tagged(BaseTypeView::Pointer, parts)
}

/// pointer: '*' [ type-qualifier-list ] [ pointer ]. Its type is a pointer
/// over the types of what follows the star, so that pointers nest.
pub open spec fn pointer(toks: Seq<TokenView>, pos: int) -> ParsedView
    decreases toks.len() - pos, rank(Rule::Pointer), 1int,
{
    let kind = Kind::Pointer;
    if !at(toks, pos, Symbol::Star) {
        Err(mismatch(toks, pos, Symbol::Star))
    } else {
        match fwd(type_qualifier_list(toks, pos + 1), toks, pos + 1) {
            Ok((qualifiers, p)) => match fwd(pointer(toks, p), toks, p) {
                Ok((more, q)) => Ok(
                    (
                        NodeView::binary(
                            kind,
                            qualifiers,
                            more,
                            pointer_type(seq![qualifiers.ty, more.ty]),
                        ),
                        q,
                    ),
                ),
                Err(_) => Ok(
                    (NodeView::unary(kind, qualifiers, pointer_type(seq![qualifiers.ty])), p),
                ),
            },
            Err(_) => match fwd(pointer(toks, pos + 1), toks, pos + 1) {
                Ok((more, q)) => Ok((NodeView::unary(kind, more, pointer_type(seq![more.ty])), q)),
                Err(_) => Ok((NodeView::leaf(kind, pointer_type(Seq::empty())), pos + 1)),
            },
        }
    }
}

/// type-qualifier-list: type-qualifier { type-qualifier }
pub open spec fn type_qualifier_list(toks: Seq<TokenView>, pos: int) -> ParsedView
    decreases toks.len() - pos, rank(Rule::TypeQualifierList), 1int,
{
    repeated_list(
        Kind::TypeQualifierList,
        Rule::TypeQualifier,
        ListTyping::Composite,
        toks,
        pos,
    )
}

/// parameter-type-list: parameter-list [ ',' '...' ]. The ellipsis marks
/// the type of the list.
pub open spec fn parameter_type_list(toks: Seq<TokenView>, pos: int) -> ParsedView
    decreases toks.len() - pos, rank(Rule::ParameterTypeList), 1int,
{
    if out_of_range(toks, pos) {
        Err(ErrorView::PositionOutOfRange)
    } else {
        match fwd(parameter_list(toks, pos), toks, pos) {
            Err(e) => Err(e),
            Ok((list, p)) => if !at(toks, p, Symbol::Comma) {
                Ok((NodeView::wrap(Kind::ParameterTypeList(false), list), p))
            } else if !at(toks, p + 1, Symbol::Ellipsis) {
                Err(mismatch(toks, p + 1, Symbol::Ellipsis))
            } else {
                Ok(
                    (
                        NodeView::unary(
                            Kind::ParameterTypeList(true),
                            list,
                            list.ty.with_val(BaseTypeView::VaList),
                        ),
                        p + 2,
                    ),
                )
            },
        }
    }
}

/// parameter-list: parameter-declaration { ',' parameter-declaration }
pub open spec fn parameter_list(toks: Seq<TokenView>, pos: int) -> ParsedView
    decreases toks.len() - pos, rank(Rule::ParameterList), 1int,
{
    separated_list(
        Kind::ParameterList,
        Rule::ParameterDeclaration,
        ListTyping::Composite,
        toks,
        pos,
    )
}

/// parameter-declaration: declaration-specifiers declarator
/// | declaration-specifiers abstract-declarator | declaration-specifiers
pub open spec fn parameter_declaration(toks: Seq<TokenView>, pos: int) -> ParsedView
    decreases toks.len() - pos, rank(Rule::ParameterDeclaration), 1int,
{
    let kind = Kind::ParameterDeclaration;
    if out_of_range(toks, pos) {
        Err(ErrorView::PositionOutOfRange)
    } else {
        match fwd(declaration_specifiers(toks, pos), toks, pos) {
            Err(e) => Err(e),
            Ok((specifiers, p)) => match fwd(declarator(toks, p), toks, p) {
                Ok((name, q)) => Ok(
                    (
                        NodeView::binary(
                            kind,
                            specifiers,
                            name,
                            TypeView::pair(specifiers.ty, name.ty),
                        ),
                        q,
                    ),
                ),
                Err(_) => match fwd(abstract_declarator(toks, p), toks, p) {
                    Ok((shape, q)) => Ok(
                        (
                            NodeView::binary(
                                kind,
                                specifiers,
                                shape,
                                TypeView::pair(specifiers.ty, shape.ty),
                            ),
                            q,
                        ),
                    ),
                    Err(_) => Ok((NodeView::wrap(kind, specifiers), p)),
                },
            },
        }
    }
}

/// identifier-list: identifier { ',' identifier }
pub open spec fn identifier_list(toks: Seq<TokenView>, pos: int) -> ParsedView
    decreases toks.len() - pos, rank(Rule::IdentifierList), 1int,
{
    separated_list(Kind::IdentifierList, Rule::Identifier, ListTyping::Flatten, toks, pos)
}

/// type-name: specifier-qualifier-list [ abstract-declarator ]
pub open spec fn typename(toks: Seq<TokenView>, pos: int) -> ParsedView
    decreases toks.len() - pos, rank(Rule::TypeName), 1int,
{
    let kind = Kind::TypeName;
    if out_of_range(toks, pos) {
        Err(ErrorView::PositionOutOfRange)
    } else {
        match fwd(specifier_qualifier_list(toks, pos), toks, pos) {
            Err(e) => Err(e),
            Ok((specifiers, p)) => match fwd(abstract_declarator(toks, p), toks, p) {
                Ok((shape, q)) => Ok(
                    (
                        NodeView::binary(
                            kind,
                            specifiers,
                            shape,
                            TypeView::pair(specifiers.ty, shape.ty),
                        ),
                        q,
                    ),
                ),
                Err(_) => Ok((NodeView::wrap(kind, specifiers), p)),
            },
        }
    }
}

/// abstract-declarator: pointer [ direct-abstract-declarator ]
/// | direct-abstract-declarator
pub open spec fn abstract_declarator(toks: Seq<TokenView>, pos: int) -> ParsedView
    decreases toks.len() - pos, rank(Rule::AbstractDeclarator), 1int,
{
    let kind = Kind::AbstractDeclarator;
    if out_of_range(toks, pos) {
        Err(ErrorView::PositionOutOfRange)
    } else {
        match fwd(pointer(toks, pos), toks, pos) {
            Ok((stars, p)) => match fwd(direct_abstract_declarator(toks, p), toks, p) {
                Ok((direct, q)) => Ok(
                    (NodeView::binary(kind, stars, direct, pointer_type(seq![direct.ty])), q),
                ),
                Err(_) => Ok((NodeView::unary(kind, stars, pointer_type(Seq::empty())), p)),
            },
            Err(_) => match fwd(direct_abstract_declarator(toks, pos), toks, pos) {
                Ok((direct, p)) => Ok((NodeView::wrap(kind, direct), p)),
                Err(_) => Err(no_alternative(Rule::AbstractDeclarator, pos)),
            },
        }
    }
}

/// direct-abstract-declarator: block { block }
pub open spec fn direct_abstract_declarator(toks: Seq<TokenView>, pos: int) -> ParsedView
    decreases toks.len() - pos, rank(Rule::DirectAbstractDeclarator), 1int,
{
    repeated_list(
        Kind::DirectAbstractDeclarator,
        Rule::DirectAbstractDeclaratorBlock,
        ListTyping::Flatten,
        toks,
        pos,
    )
}

/// One block of a direct abstract declarator: '(' ')'
/// | '(' abstract-declarator ')' | '(' parameter-type-list ')' | '[' ']'
/// | '[' assignment-expression ']'
pub open spec fn direct_abstract_declarator_block(toks: Seq<TokenView>, pos: int) -> ParsedView
    decreases toks.len() - pos, rank(Rule::DirectAbstractDeclaratorBlock), 1int,
{
    if out_of_range(toks, pos) {
        Err(ErrorView::PositionOutOfRange)
    } else {
        match sym_at(toks, pos) {
            Some(Symbol::LParen) => {
                let kind = Kind::DirectAbstractDeclaratorBlock(Symbol::LParen);
                if at(toks, pos + 1, Symbol::RParen) {
                    Ok((NodeView::leaf(kind, plain_function_type()), pos + 2))
                } else {
                    match fwd(abstract_declarator(toks, pos + 1), toks, pos + 1) {
                        Ok((inner, p)) => if !at(toks, p, Symbol::RParen) {
                            Err(mismatch(toks, p, Symbol::RParen))
                        } else {
                            Ok((NodeView::wrap(kind, inner), p + 1))
                        },
                        Err(_) => match fwd(parameter_type_list(toks, pos + 1), toks, pos + 1) {
                            Err(e) => Err(e),
                            Ok((parameters, p)) => if !at(toks, p, Symbol::RParen) {
                                Err(mismatch(toks, p, Symbol::RParen))
                            } else {
                                Ok((NodeView::wrap(kind, parameters), p + 1))
                            },
                        },
                    }
                }
            },
            Some(Symbol::LBracket) => array_suffix(
                Kind::DirectAbstractDeclaratorBlock(Symbol::LBracket),
                toks,
                pos,
            ),
            _ => Err(unexpected(toks, pos, Rule::DirectAbstractDeclaratorBlock)),
        }
    }
}

/// initializer: assignment-expression | '{' initializer-list [','] '}'
pub open spec fn initializer(toks: Seq<TokenView>, pos: int) -> ParsedView
    decreases toks.len() - pos, rank(Rule::Initializer), 1int,
{
    let kind = Kind::Initializer;
    if out_of_range(toks, pos) {
        Err(ErrorView::PositionOutOfRange)
    } else {
        match fwd(assignment_expression(toks, pos), toks, pos) {
            Ok((value, p)) => Ok((NodeView::wrap(kind, value), p)),
            Err(_) => if !at(toks, pos, Symbol::LBrace) {
                Err(mismatch(toks, pos, Symbol::LBrace))
            } else {
                match fwd(initializer_list(toks, pos + 1), toks, pos + 1) {
                    Err(e) => Err(e),
                    Ok((list, p)) => match closing_brace(toks, p) {
                        Err(e) => Err(e),
                        Ok(q) => Ok((NodeView::wrap(kind, list), q)),
                    },
                }
            },
        }
    }
}

/// One item of an initializer list: [ designation ] initializer. It gives
/// the nodes it adds to the list, the type of its initializer, and the
/// position after it.
pub open spec fn initializer_item(toks: Seq<TokenView>, pos: int) -> Result<
    (Seq<NodeView>, TypeView, int),
    ErrorView,
>
    decreases toks.len() - pos, rank(Rule::InitializerList) - 2, 0int,
{
    match fwd(initializer(toks, pos), toks, pos) {
        Ok((value, p)) => Ok((seq![value], value.ty, p)),
        Err(_) => match fwd(designation(toks, pos), toks, pos) {
            Err(_) => Err(no_alternative(Rule::InitializerList, pos)),
            Ok((target, p)) => match fwd(initializer(toks, p), toks, p) {
                Err(e) => Err(e),
                Ok((value, q)) => Ok((seq![target, value], value.ty, q)),
            },
        },
    }
}

/// An item result that moved forward: a success is kept only if it ends
/// after `pos` and within the tokens.
pub open spec fn fwd_item(
    r: Result<(Seq<NodeView>, TypeView, int), ErrorView>,
    toks: Seq<TokenView>,
    pos: int,
) -> Result<(Seq<NodeView>, TypeView, int), ErrorView> {
    match r {
        Ok((_, _, end)) => if pos < end <= toks.len() {
            r
        } else {
            Err(ErrorView::PositionOutOfRange)
        },
        Err(_) => r,
    }
}

/// What follows the first item of an initializer list: while a comma is at
/// the position and an item follows it, the item joins the list. A comma
/// that no item follows is left where it is.
pub open spec fn initializer_tail(
    toks: Seq<TokenView>,
    nodes: Seq<NodeView>,
    types: Seq<TypeView>,
    pos: int,
) -> (Seq<NodeView>, Seq<TypeView>, int)
    decreases toks.len() - pos, rank(Rule::InitializerList) - 1, 0int,
{
    if !at(toks, pos, Symbol::Comma) {
        (nodes, types, pos)
    } else {
        match fwd_item(initializer_item(toks, pos + 1), toks, pos + 1) {
            Ok((more, ty, p)) => initializer_tail(toks, nodes + more, types.push(ty), p),
            Err(_) => (nodes, types, pos),
        }
    }
}

/// The type of an initializer list with initializers of the given types:
/// of one, its type; of several, the composite of their types.
pub open spec fn initializer_list_type(types: Seq<TypeView>) -> TypeView {
    if types.len() == 1 {
        types[0]
    } else {
        TypeView::composite(types)
    }
}

/// initializer-list: item { ',' item }, where an item is
/// [ designation ] initializer. Designations and initializers are the
/// children of the list, in order.
pub open spec fn initializer_list(toks: Seq<TokenView>, pos: int) -> ParsedView
    decreases toks.len() - pos, rank(Rule::InitializerList), 1int,
{
    if out_of_range(toks, pos) {
        Err(ErrorView::PositionOutOfRange)
    } else {
        match fwd_item(initializer_item(toks, pos), toks, pos) {
            Err(e) => Err(e),
            Ok((first, ty, p)) => {
                let (nodes, types, end) = initializer_tail(toks, first, seq![ty], p);
                Ok((NodeView::of(Kind::InitializerList, nodes, initializer_list_type(types)), end))
            },
        }
    }
}

/// designation: designator-list '='
pub open spec fn designation(toks: Seq<TokenView>, pos: int) -> ParsedView
    decreases toks.len() - pos, rank(Rule::Designation), 1int,
{
    if out_of_range(toks, pos) {
        Err(ErrorView::PositionOutOfRange)
    } else {
        match fwd(designator_list(toks, pos), toks, pos) {
            Err(e) => Err(e),
            Ok((list, p)) => if !at(toks, p, Symbol::Assign) {
                Err(mismatch(toks, p, Symbol::Assign))
            } else {
                Ok((NodeView::wrap(Kind::Designation, list), p + 1))
            },
        }
    }
}

/// designator-list: designator { designator }
pub open spec fn designator_list(toks: Seq<TokenView>, pos: int) -> ParsedView
    decreases toks.len() - pos, rank(Rule::DesignatorList), 1int,
{
    repeated_list(Kind::DesignatorList, Rule::Designator, ListTyping::Flatten, toks, pos)
}

/// designator: '[' constant-expression ']' | '.' identifier
pub open spec fn designator(toks: Seq<TokenView>, pos: int) -> ParsedView
    decreases toks.len() - pos, rank(Rule::Designator), 1int,
{
    let kind = Kind::Designator;
    if out_of_range(toks, pos) {
        Err(ErrorView::PositionOutOfRange)
    } else if at(toks, pos, Symbol::LBracket) {
        match fwd(constant_expression(toks, pos + 1), toks, pos + 1) {
            Err(e) => Err(e),
            Ok((index, p)) => if !at(toks, p, Symbol::RBracket) {
                Err(mismatch(toks, p, Symbol::RBracket))
            } else {
                Ok((NodeView::wrap(kind, index), p + 1))
            },
        }
    } else if !at(toks, pos, Symbol::Dot) {
        Err(mismatch(toks, pos, Symbol::Dot))
    } else {
        wrap_ok(kind, identifier(toks, pos + 1))
    }
}

/// static-assert-declaration: '_Static_assert' '(' constant-expression ','
/// string ')' ';'
pub open spec fn static_assert_declaration(toks: Seq<TokenView>, pos: int) -> ParsedView
    decreases toks.len() - pos, rank(Rule::StaticAssertDeclaration), 1int,
{
    if !at(toks, pos, Symbol::StaticAssert) {
        Err(mismatch(toks, pos, Symbol::StaticAssert))
    } else if !at(toks, pos + 1, Symbol::LParen) {
        Err(mismatch(toks, pos + 1, Symbol::LParen))
    } else {
        match fwd(constant_expression(toks, pos + 2), toks, pos + 2) {
            Err(e) => Err(e),
            Ok((condition, p)) => if !at(toks, p, Symbol::Comma) {
                Err(mismatch(toks, p, Symbol::Comma))
            } else {
                match string(toks, p + 1) {
                    Err(e) => Err(e),
                    Ok((message, _)) => if !at(toks, p + 2, Symbol::RParen) {
                        Err(mismatch(toks, p + 2, Symbol::RParen))
                    } else if !at(toks, p + 3, Symbol::Semicolon) {
                        Err(mismatch(toks, p + 3, Symbol::Semicolon))
                    } else {
                        Ok(
                            (
                                NodeView::binary(
                                    Kind::StaticAssertDeclaration,
                                    condition,
                                    message,
                                    none_type(),
                                ),
                                p + 4,
                            ),
                        )
                    },
                }
            },
        }
    }
}

} // verus!
