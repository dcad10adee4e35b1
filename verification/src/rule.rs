//! The productions of the grammar, by name, and the order in which one may
//! start another without consuming a token.

use vstd::prelude::*;

verus! {

/// A production of the grammar.
#[derive(Clone, Copy, PartialEq, Eq, Structural, Debug, Hash)]
pub enum Rule {
    Identifier,
    Constant,
    EnumerationConstant,
    StringLiteral,
    PrimaryExpression,
    GenericSelection,
    GenericAssocList,
    GenericAssociation,
    PostfixExpression,
    PostfixExpressionPost,
    ArgumentExpressionList,
    UnaryExpression,
    UnaryOperator,
    CastExpression,
    MultiplicativeExpression,
    AdditiveExpression,
    ShiftExpression,
    RelationalExpression,
    EqualityExpression,
    AndExpression,
    ExclusiveOrExpression,
    InclusiveOrExpression,
    LogicalAndExpression,
    LogicalOrExpression,
    ConditionalExpression,
    AssignmentExpression,
    AssignmentOperator,
    Expression,
    ConstantExpression,
    Declaration,
    DeclarationSpecifiers,
    InitDeclaratorList,
    InitDeclarator,
    StorageClassSpecifier,
    TypeSpecifier,
    StructOrUnionSpecifier,
    StructOrUnion,
    StructDeclarationList,
    StructDeclaration,
    SpecifierQualifierList,
    StructDeclaratorList,
    StructDeclarator,
    EnumSpecifier,
    EnumeratorList,
    Enumerator,
    AtomicTypeSpecifier,
    TypeQualifier,
    FunctionSpecifier,
    AlignmentSpecifier,
    Declarator,
    DirectDeclarator,
    DirectDeclaratorPostList,
    DirectDeclaratorPost,
    Pointer,
    TypeQualifierList,
    ParameterTypeList,
    ParameterList,
    ParameterDeclaration,
    IdentifierList,
    TypeName,
    AbstractDeclarator,
    DirectAbstractDeclarator,
    DirectAbstractDeclaratorBlock,
    Initializer,
    InitializerList,
    Designation,
    DesignatorList,
    Designator,
    StaticAssertDeclaration,
    Statement,
    LabeledStatement,
    CompoundStatement,
    BlockItemList,
    BlockItem,
    ExpressionStatement,
    SelectionStatement,
    IterationStatement,
    JumpStatement,
    ExternalDeclaration,
    FunctionDefinition,
    DeclarationList,
    TranslationUnit,
}

/// The rank of a production. A production tries another one at its own
/// starting position only if that one has a lower rank: so no production
/// comes back to itself without a token consumed, and every parse ends. The
/// productions of rank 0 consume a token before they try anything.
pub open spec fn rank(rule: Rule) -> int {
    match rule {
        Rule::TypeQualifierList | Rule::StructOrUnionSpecifier | Rule::IdentifierList | Rule::DirectDeclaratorPostList | Rule::DirectDeclarator | Rule::DirectAbstractDeclarator | Rule::Enumerator | Rule::PrimaryExpression | Rule::DesignatorList => 5,
        Rule::TypeSpecifier | Rule::Declarator | Rule::AbstractDeclarator | Rule::EnumeratorList | Rule::PostfixExpression | Rule::Designation => 10,
        Rule::SpecifierQualifierList | Rule::DeclarationSpecifiers | Rule::InitDeclarator | Rule::StructDeclarator | Rule::UnaryExpression => 15,
        Rule::TypeName | Rule::ParameterDeclaration | Rule::InitDeclaratorList | Rule::StructDeclaratorList | Rule::StructDeclaration | Rule::Declaration | Rule::FunctionDefinition | Rule::CastExpression => 20,
        Rule::ParameterList | Rule::StructDeclarationList | Rule::DeclarationList | Rule::ExternalDeclaration | Rule::GenericAssociation | Rule::MultiplicativeExpression => 25,
        Rule::ParameterTypeList | Rule::TranslationUnit | Rule::GenericAssocList | Rule::AdditiveExpression => 30,
        Rule::ShiftExpression => 35,
        Rule::RelationalExpression => 40,
        Rule::EqualityExpression => 45,
        Rule::AndExpression => 50,
        Rule::ExclusiveOrExpression => 55,
        Rule::InclusiveOrExpression => 60,
        Rule::LogicalAndExpression => 65,
        Rule::LogicalOrExpression => 70,
        Rule::ConditionalExpression => 75,
        Rule::ConstantExpression | Rule::AssignmentExpression => 80,
        Rule::ArgumentExpressionList | Rule::Expression | Rule::Initializer => 85,
        Rule::InitializerList | Rule::ExpressionStatement => 90,
        Rule::Statement => 95,
        Rule::BlockItem => 100,
        Rule::BlockItemList => 105,
        _ => 0,
    }
}

} // verus!
