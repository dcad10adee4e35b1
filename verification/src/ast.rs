//! The parse tree.
//!
//! A node says which production made it, holds the nodes it was made from,
//! in order, and carries the type the parser gave it.

use crate::token::Symbol;
use crate::types::{TypeExpression, TypeView};
use vstd::prelude::*;

verus! {

/// The value of a constant.
#[derive(PartialEq, Eq, Debug)]
pub enum ConstantType {
    Integer(i64),
    /// A floating value, held as the bit pattern of its double.
    Floating(u64),
    /// A name that an enumeration has declared.
    Enumeration(String),
}

/// The mathematical value of a [`ConstantType`].
pub ghost enum ConstantView {
    Integer(int),
    Floating(int),
    Enumeration(Seq<char>),
}

impl View for ConstantType {
    type V = ConstantView;

    open spec fn view(&self) -> ConstantView {
        match *self {
            ConstantType::Integer(v) => ConstantView::Integer(v as int),
            ConstantType::Floating(bits) => ConstantView::Floating(bits as int),
            ConstantType::Enumeration(name) => ConstantView::Enumeration(name@),
        }
    }
}

/// What labels a statement.
#[derive(PartialEq, Eq, Debug)]
pub enum Label {
    Name(String),
    Case,
    Default,
}

/// The mathematical value of a [`Label`].
pub ghost enum LabelView {
    Name(Seq<char>),
    Case,
    Default,
}

impl View for Label {
    type V = LabelView;

    open spec fn view(&self) -> LabelView {
        match *self {
            Label::Name(name) => LabelView::Name(name@),
            Label::Case => LabelView::Case,
            Label::Default => LabelView::Default,
        }
    }
}

/// The text of an optional string.
pub open spec fn option_text(s: Option<String>) -> Option<Seq<char>> {
    match s {
        Some(text) => Some(text@),
        None => None,
    }
}

/// Which production made a node, with what the production keeps of its
/// tokens.
#[derive(PartialEq, Eq, Debug)]
pub enum NodeType {
    /// An identifier; carries its name.
    Identifier(String),
    /// A constant; carries its value.
    Constant(ConstantType),
    /// The name of an enumerator being declared.
    EnumerationConstant(String),
    /// A string; carries its text.
    StringLiteral(String),
    PrimaryExpression,
    GenericSelection,
    GenericAssocList,
    GenericAssociation,
    PostfixExpression,
    /// One postfix suffix; carries the token that opens it.
    PostfixExpressionPost(Symbol),
    ArgumentExpressionList,
    /// Carries `++`, `--`, `sizeof` or `_Alignof` where one leads.
    UnaryExpression(Option<Symbol>),
    UnaryOperator(Symbol),
    CastExpression,
    MultiplicativeExpression,
    AdditiveExpression,
    ShiftExpression,
    RelationalExpression,
    EqualityExpression,
    AndExpression,
    ExclusiveOrExpression,
    InclusiveOrExpression,
    LogicalAndExpression,
    LogicalOrExpression,
    /// Two operands joined by the operator it carries.
    BinaryExpression(Symbol),
    ConditionalExpression,
    AssignmentExpression,
    AssignmentOperator(Symbol),
    Expression,
    ConstantExpression,
    Declaration,
    DeclarationSpecifiers,
    InitDeclaratorList,
    InitDeclarator,
    StorageClassSpecifier(Symbol),
    /// Carries the keyword where the specifier is one.
    TypeSpecifier(Option<Symbol>),
    StructOrUnionSpecifier,
    StructOrUnion(Symbol),
    StructDeclarationList,
    StructDeclaration,
    SpecifierQualifierList,
    StructDeclaratorList,
    StructDeclarator,
    /// Carries the tag where the enumeration has one.
    EnumSpecifier(Option<String>),
    EnumeratorList,
    Enumerator,
    AtomicTypeSpecifier,
    TypeQualifier(Symbol),
    FunctionSpecifier(Symbol),
    AlignmentSpecifier,
    Declarator,
    DirectDeclarator,
    DirectDeclaratorPostList,
    /// One declarator suffix; carries the token that opens it.
    DirectDeclaratorPost(Symbol),
    Pointer,
    TypeQualifierList,
    /// Carries whether the list ends in `...`.
    ParameterTypeList(bool),
    ParameterList,
    ParameterDeclaration,
    IdentifierList,
    TypeName,
    AbstractDeclarator,
    DirectAbstractDeclarator,
    /// One abstract-declarator suffix; carries the token that opens it.
    DirectAbstractDeclaratorBlock(Symbol),
    Initializer,
    InitializerList,
    Designation,
    DesignatorList,
    Designator,
    StaticAssertDeclaration,
    Statement,
    /// Carries the label.
    LabeledStatement(Label),
    CompoundStatement,
    BlockItemList,
    BlockItem,
    ExpressionStatement,
    /// Carries `if` or `switch`.
    SelectionStatement(Symbol),
    /// Carries `while`, `do` or `for`.
    IterationStatement(Symbol),
    /// Carries the keyword and, for `goto`, the target.
    JumpStatement(Symbol, Option<String>),
    ExternalDeclaration,
    FunctionDefinition,
    DeclarationList,
    TranslationUnit,
}

/// The mathematical value of a [`NodeType`].
pub ghost enum Kind {
    Identifier(Seq<char>),
    Constant(ConstantView),
    EnumerationConstant(Seq<char>),
    StringLiteral(Seq<char>),
    PrimaryExpression,
    GenericSelection,
    GenericAssocList,
    GenericAssociation,
    PostfixExpression,
    PostfixExpressionPost(Symbol),
    ArgumentExpressionList,
    UnaryExpression(Option<Symbol>),
    UnaryOperator(Symbol),
    CastExpression,
    MultiplicativeExpression,
    AdditiveExpression,
    ShiftExpression,
    RelationalExpression,
    EqualityExpression,
    AndExpression,
    ExclusiveOrExpression,
    InclusiveOrExpression,
    LogicalAndExpression,
    LogicalOrExpression,
    BinaryExpression(Symbol),
    ConditionalExpression,
    AssignmentExpression,
    AssignmentOperator(Symbol),
    Expression,
    ConstantExpression,
    Declaration,
    DeclarationSpecifiers,
    InitDeclaratorList,
    InitDeclarator,
    StorageClassSpecifier(Symbol),
    TypeSpecifier(Option<Symbol>),
    StructOrUnionSpecifier,
    StructOrUnion(Symbol),
    StructDeclarationList,
    StructDeclaration,
    SpecifierQualifierList,
    StructDeclaratorList,
    StructDeclarator,
    EnumSpecifier(Option<Seq<char>>),
    EnumeratorList,
    Enumerator,
    AtomicTypeSpecifier,
    TypeQualifier(Symbol),
    FunctionSpecifier(Symbol),
    AlignmentSpecifier,
    Declarator,
    DirectDeclarator,
    DirectDeclaratorPostList,
    DirectDeclaratorPost(Symbol),
    Pointer,
    TypeQualifierList,
    ParameterTypeList(bool),
    ParameterList,
    ParameterDeclaration,
    IdentifierList,
    TypeName,
    AbstractDeclarator,
    DirectAbstractDeclarator,
    DirectAbstractDeclaratorBlock(Symbol),
    Initializer,
    InitializerList,
    Designation,
    DesignatorList,
    Designator,
    StaticAssertDeclaration,
    Statement,
    LabeledStatement(LabelView),
    CompoundStatement,
    BlockItemList,
    BlockItem,
    ExpressionStatement,
    SelectionStatement(Symbol),
    IterationStatement(Symbol),
    JumpStatement(Symbol, Option<Seq<char>>),
    ExternalDeclaration,
    FunctionDefinition,
    DeclarationList,
    TranslationUnit,
}

impl View for NodeType {
    type V = Kind;

    open spec fn view(&self) -> Kind {
        match *self {
            NodeType::Identifier(s) => Kind::Identifier(s@),
            NodeType::Constant(c) => Kind::Constant(c@),
            NodeType::EnumerationConstant(s) => Kind::EnumerationConstant(s@),
            NodeType::StringLiteral(s) => Kind::StringLiteral(s@),
            NodeType::PrimaryExpression => Kind::PrimaryExpression,
            NodeType::GenericSelection => Kind::GenericSelection,
            NodeType::GenericAssocList => Kind::GenericAssocList,
            NodeType::GenericAssociation => Kind::GenericAssociation,
            NodeType::PostfixExpression => Kind::PostfixExpression,
            NodeType::PostfixExpressionPost(s) => Kind::PostfixExpressionPost(s),
            NodeType::ArgumentExpressionList => Kind::ArgumentExpressionList,
            NodeType::UnaryExpression(s) => Kind::UnaryExpression(s),
            NodeType::UnaryOperator(s) => Kind::UnaryOperator(s),
            NodeType::CastExpression => Kind::CastExpression,
            NodeType::MultiplicativeExpression => Kind::MultiplicativeExpression,
            NodeType::AdditiveExpression => Kind::AdditiveExpression,
            NodeType::ShiftExpression => Kind::ShiftExpression,
            NodeType::RelationalExpression => Kind::RelationalExpression,
            NodeType::EqualityExpression => Kind::EqualityExpression,
            NodeType::AndExpression => Kind::AndExpression,
            NodeType::ExclusiveOrExpression => Kind::ExclusiveOrExpression,
            NodeType::InclusiveOrExpression => Kind::InclusiveOrExpression,
            NodeType::LogicalAndExpression => Kind::LogicalAndExpression,
            NodeType::LogicalOrExpression => Kind::LogicalOrExpression,
            NodeType::BinaryExpression(s) => Kind::BinaryExpression(s),
            NodeType::ConditionalExpression => Kind::ConditionalExpression,
            NodeType::AssignmentExpression => Kind::AssignmentExpression,
            NodeType::AssignmentOperator(s) => Kind::AssignmentOperator(s),
            NodeType::Expression => Kind::Expression,
            NodeType::ConstantExpression => Kind::ConstantExpression,
            NodeType::Declaration => Kind::Declaration,
            NodeType::DeclarationSpecifiers => Kind::DeclarationSpecifiers,
            NodeType::InitDeclaratorList => Kind::InitDeclaratorList,
            NodeType::InitDeclarator => Kind::InitDeclarator,
            NodeType::StorageClassSpecifier(s) => Kind::StorageClassSpecifier(s),
            NodeType::TypeSpecifier(s) => Kind::TypeSpecifier(s),
            NodeType::StructOrUnionSpecifier => Kind::StructOrUnionSpecifier,
            NodeType::StructOrUnion(s) => Kind::StructOrUnion(s),
            NodeType::StructDeclarationList => Kind::StructDeclarationList,
            NodeType::StructDeclaration => Kind::StructDeclaration,
            NodeType::SpecifierQualifierList => Kind::SpecifierQualifierList,
            NodeType::StructDeclaratorList => Kind::StructDeclaratorList,
            NodeType::StructDeclarator => Kind::StructDeclarator,
            NodeType::EnumSpecifier(s) => Kind::EnumSpecifier(option_text(s)),
            NodeType::EnumeratorList => Kind::EnumeratorList,
            NodeType::Enumerator => Kind::Enumerator,
            NodeType::AtomicTypeSpecifier => Kind::AtomicTypeSpecifier,
            NodeType::TypeQualifier(s) => Kind::TypeQualifier(s),
            NodeType::FunctionSpecifier(s) => Kind::FunctionSpecifier(s),
            NodeType::AlignmentSpecifier => Kind::AlignmentSpecifier,
            NodeType::Declarator => Kind::Declarator,
            NodeType::DirectDeclarator => Kind::DirectDeclarator,
            NodeType::DirectDeclaratorPostList => Kind::DirectDeclaratorPostList,
            NodeType::DirectDeclaratorPost(s) => Kind::DirectDeclaratorPost(s),
            NodeType::Pointer => Kind::Pointer,
            NodeType::TypeQualifierList => Kind::TypeQualifierList,
            NodeType::ParameterTypeList(b) => Kind::ParameterTypeList(b),
            NodeType::ParameterList => Kind::ParameterList,
            NodeType::ParameterDeclaration => Kind::ParameterDeclaration,
            NodeType::IdentifierList => Kind::IdentifierList,
            NodeType::TypeName => Kind::TypeName,
            NodeType::AbstractDeclarator => Kind::AbstractDeclarator,
            NodeType::DirectAbstractDeclarator => Kind::DirectAbstractDeclarator,
            NodeType::DirectAbstractDeclaratorBlock(s) => Kind::DirectAbstractDeclaratorBlock(s),
            NodeType::Initializer => Kind::Initializer,
            NodeType::InitializerList => Kind::InitializerList,
            NodeType::Designation => Kind::Designation,
            NodeType::DesignatorList => Kind::DesignatorList,
            NodeType::Designator => Kind::Designator,
            NodeType::StaticAssertDeclaration => Kind::StaticAssertDeclaration,
            NodeType::Statement => Kind::Statement,
            NodeType::LabeledStatement(l) => Kind::LabeledStatement(l@),
            NodeType::CompoundStatement => Kind::CompoundStatement,
            NodeType::BlockItemList => Kind::BlockItemList,
            NodeType::BlockItem => Kind::BlockItem,
            NodeType::ExpressionStatement => Kind::ExpressionStatement,
            NodeType::SelectionStatement(s) => Kind::SelectionStatement(s),
            NodeType::IterationStatement(s) => Kind::IterationStatement(s),
            NodeType::JumpStatement(s, t) => Kind::JumpStatement(s, option_text(t)),
            NodeType::ExternalDeclaration => Kind::ExternalDeclaration,
            NodeType::FunctionDefinition => Kind::FunctionDefinition,
            NodeType::DeclarationList => Kind::DeclarationList,
            NodeType::TranslationUnit => Kind::TranslationUnit,
        }
    }
}

impl NodeType {
    /// The production's name.
    pub fn name(&self) -> (s: &'static str)
        ensures
            s@ == kind_name(self@),
    {
        match self {
            NodeType::Identifier(_) => "Identifier",
            NodeType::Constant(_) => "Constant",
            NodeType::EnumerationConstant(_) => "EnumerationConstant",
            NodeType::StringLiteral(_) => "StringLiteral",
            NodeType::PrimaryExpression => "PrimaryExpression",
            NodeType::GenericSelection => "GenericSelection",
            NodeType::GenericAssocList => "GenericAssocList",
            NodeType::GenericAssociation => "GenericAssociation",
            NodeType::PostfixExpression => "PostfixExpression",
            NodeType::PostfixExpressionPost(_) => "PostfixExpressionPost",
            NodeType::ArgumentExpressionList => "ArgumentExpressionList",
            NodeType::UnaryExpression(_) => "UnaryExpression",
            NodeType::UnaryOperator(_) => "UnaryOperator",
            NodeType::CastExpression => "CastExpression",
            NodeType::MultiplicativeExpression => "MultiplicativeExpression",
            NodeType::AdditiveExpression => "AdditiveExpression",
            NodeType::ShiftExpression => "ShiftExpression",
            NodeType::RelationalExpression => "RelationalExpression",
            NodeType::EqualityExpression => "EqualityExpression",
            NodeType::AndExpression => "AndExpression",
            NodeType::ExclusiveOrExpression => "ExclusiveOrExpression",
            NodeType::InclusiveOrExpression => "InclusiveOrExpression",
            NodeType::LogicalAndExpression => "LogicalAndExpression",
            NodeType::LogicalOrExpression => "LogicalOrExpression",
            NodeType::BinaryExpression(_) => "BinaryExpression",
            NodeType::ConditionalExpression => "ConditionalExpression",
            NodeType::AssignmentExpression => "AssignmentExpression",
            NodeType::AssignmentOperator(_) => "AssignmentOperator",
            NodeType::Expression => "Expression",
            NodeType::ConstantExpression => "ConstantExpression",
            NodeType::Declaration => "Declaration",
            NodeType::DeclarationSpecifiers => "DeclarationSpecifiers",
            NodeType::InitDeclaratorList => "InitDeclaratorList",
            NodeType::InitDeclarator => "InitDeclarator",
            NodeType::StorageClassSpecifier(_) => "StorageClassSpecifier",
            NodeType::TypeSpecifier(_) => "TypeSpecifier",
            NodeType::StructOrUnionSpecifier => "StructOrUnionSpecifier",
            NodeType::StructOrUnion(_) => "StructOrUnion",
            NodeType::StructDeclarationList => "StructDeclarationList",
            NodeType::StructDeclaration => "StructDeclaration",
            NodeType::SpecifierQualifierList => "SpecifierQualifierList",
            NodeType::StructDeclaratorList => "StructDeclaratorList",
            NodeType::StructDeclarator => "StructDeclarator",
            NodeType::EnumSpecifier(_) => "EnumSpecifier",
            NodeType::EnumeratorList => "EnumeratorList",
            NodeType::Enumerator => "Enumerator",
            NodeType::AtomicTypeSpecifier => "AtomicTypeSpecifier",
            NodeType::TypeQualifier(_) => "TypeQualifier",
            NodeType::FunctionSpecifier(_) => "FunctionSpecifier",
            NodeType::AlignmentSpecifier => "AlignmentSpecifier",
            NodeType::Declarator => "Declarator",
            NodeType::DirectDeclarator => "DirectDeclarator",
            NodeType::DirectDeclaratorPostList => "DirectDeclaratorPostList",
            NodeType::DirectDeclaratorPost(_) => "DirectDeclaratorPost",
            NodeType::Pointer => "Pointer",
            NodeType::TypeQualifierList => "TypeQualifierList",
            NodeType::ParameterTypeList(_) => "ParameterTypeList",
            NodeType::ParameterList => "ParameterList",
            NodeType::ParameterDeclaration => "ParameterDeclaration",
            NodeType::IdentifierList => "IdentifierList",
            NodeType::TypeName => "TypeName",
            NodeType::AbstractDeclarator => "AbstractDeclarator",
            NodeType::DirectAbstractDeclarator => "DirectAbstractDeclarator",
            NodeType::DirectAbstractDeclaratorBlock(_) => "DirectAbstractDeclaratorBlock",
            NodeType::Initializer => "Initializer",
            NodeType::InitializerList => "InitializerList",
            NodeType::Designation => "Designation",
            NodeType::DesignatorList => "DesignatorList",
            NodeType::Designator => "Designator",
            NodeType::StaticAssertDeclaration => "StaticAssertDeclaration",
            NodeType::Statement => "Statement",
            NodeType::LabeledStatement(_) => "LabeledStatement",
            NodeType::CompoundStatement => "CompoundStatement",
            NodeType::BlockItemList => "BlockItemList",
            NodeType::BlockItem => "BlockItem",
            NodeType::ExpressionStatement => "ExpressionStatement",
            NodeType::SelectionStatement(_) => "SelectionStatement",
            NodeType::IterationStatement(_) => "IterationStatement",
            NodeType::JumpStatement(_, _) => "JumpStatement",
            NodeType::ExternalDeclaration => "ExternalDeclaration",
            NodeType::FunctionDefinition => "FunctionDefinition",
            NodeType::DeclarationList => "DeclarationList",
            NodeType::TranslationUnit => "TranslationUnit",
        }
    }
}

/// The name of the production that a kind stands for.
pub open spec fn kind_name(k: Kind) -> Seq<char> {
    match k {
        Kind::Identifier(_) => "Identifier"@,
        Kind::Constant(_) => "Constant"@,
        Kind::EnumerationConstant(_) => "EnumerationConstant"@,
        Kind::StringLiteral(_) => "StringLiteral"@,
        Kind::PrimaryExpression => "PrimaryExpression"@,
        Kind::GenericSelection => "GenericSelection"@,
        Kind::GenericAssocList => "GenericAssocList"@,
        Kind::GenericAssociation => "GenericAssociation"@,
        Kind::PostfixExpression => "PostfixExpression"@,
        Kind::PostfixExpressionPost(_) => "PostfixExpressionPost"@,
        Kind::ArgumentExpressionList => "ArgumentExpressionList"@,
        Kind::UnaryExpression(_) => "UnaryExpression"@,
        Kind::UnaryOperator(_) => "UnaryOperator"@,
        Kind::CastExpression => "CastExpression"@,
        Kind::MultiplicativeExpression => "MultiplicativeExpression"@,
        Kind::AdditiveExpression => "AdditiveExpression"@,
        Kind::ShiftExpression => "ShiftExpression"@,
        Kind::RelationalExpression => "RelationalExpression"@,
        Kind::EqualityExpression => "EqualityExpression"@,
        Kind::AndExpression => "AndExpression"@,
        Kind::ExclusiveOrExpression => "ExclusiveOrExpression"@,
        Kind::InclusiveOrExpression => "InclusiveOrExpression"@,
        Kind::LogicalAndExpression => "LogicalAndExpression"@,
        Kind::LogicalOrExpression => "LogicalOrExpression"@,
        Kind::BinaryExpression(_) => "BinaryExpression"@,
        Kind::ConditionalExpression => "ConditionalExpression"@,
        Kind::AssignmentExpression => "AssignmentExpression"@,
        Kind::AssignmentOperator(_) => "AssignmentOperator"@,
        Kind::Expression => "Expression"@,
        Kind::ConstantExpression => "ConstantExpression"@,
        Kind::Declaration => "Declaration"@,
        Kind::DeclarationSpecifiers => "DeclarationSpecifiers"@,
        Kind::InitDeclaratorList => "InitDeclaratorList"@,
        Kind::InitDeclarator => "InitDeclarator"@,
        Kind::StorageClassSpecifier(_) => "StorageClassSpecifier"@,
        Kind::TypeSpecifier(_) => "TypeSpecifier"@,
        Kind::StructOrUnionSpecifier => "StructOrUnionSpecifier"@,
        Kind::StructOrUnion(_) => "StructOrUnion"@,
        Kind::StructDeclarationList => "StructDeclarationList"@,
        Kind::StructDeclaration => "StructDeclaration"@,
        Kind::SpecifierQualifierList => "SpecifierQualifierList"@,
        Kind::StructDeclaratorList => "StructDeclaratorList"@,
        Kind::StructDeclarator => "StructDeclarator"@,
        Kind::EnumSpecifier(_) => "EnumSpecifier"@,
        Kind::EnumeratorList => "EnumeratorList"@,
        Kind::Enumerator => "Enumerator"@,
        Kind::AtomicTypeSpecifier => "AtomicTypeSpecifier"@,
        Kind::TypeQualifier(_) => "TypeQualifier"@,
        Kind::FunctionSpecifier(_) => "FunctionSpecifier"@,
        Kind::AlignmentSpecifier => "AlignmentSpecifier"@,
        Kind::Declarator => "Declarator"@,
        Kind::DirectDeclarator => "DirectDeclarator"@,
        Kind::DirectDeclaratorPostList => "DirectDeclaratorPostList"@,
        Kind::DirectDeclaratorPost(_) => "DirectDeclaratorPost"@,
        Kind::Pointer => "Pointer"@,
        Kind::TypeQualifierList => "TypeQualifierList"@,
        Kind::ParameterTypeList(_) => "ParameterTypeList"@,
        Kind::ParameterList => "ParameterList"@,
        Kind::ParameterDeclaration => "ParameterDeclaration"@,
        Kind::IdentifierList => "IdentifierList"@,
        Kind::TypeName => "TypeName"@,
        Kind::AbstractDeclarator => "AbstractDeclarator"@,
        Kind::DirectAbstractDeclarator => "DirectAbstractDeclarator"@,
        Kind::DirectAbstractDeclaratorBlock(_) => "DirectAbstractDeclaratorBlock"@,
        Kind::Initializer => "Initializer"@,
        Kind::InitializerList => "InitializerList"@,
        Kind::Designation => "Designation"@,
        Kind::DesignatorList => "DesignatorList"@,
        Kind::Designator => "Designator"@,
        Kind::StaticAssertDeclaration => "StaticAssertDeclaration"@,
        Kind::Statement => "Statement"@,
        Kind::LabeledStatement(_) => "LabeledStatement"@,
        Kind::CompoundStatement => "CompoundStatement"@,
        Kind::BlockItemList => "BlockItemList"@,
        Kind::BlockItem => "BlockItem"@,
        Kind::ExpressionStatement => "ExpressionStatement"@,
        Kind::SelectionStatement(_) => "SelectionStatement"@,
        Kind::IterationStatement(_) => "IterationStatement"@,
        Kind::JumpStatement(_, _) => "JumpStatement"@,
        Kind::ExternalDeclaration => "ExternalDeclaration"@,
        Kind::FunctionDefinition => "FunctionDefinition"@,
        Kind::DeclarationList => "DeclarationList"@,
        Kind::TranslationUnit => "TranslationUnit"@,
    }
}

/// One node of the parse tree.
#[derive(PartialEq, Eq, Debug)]
pub struct ParseNode {
    pub entry: NodeType,
    pub child: Vec<ParseNode>,
    pub type_exp: TypeExpression,
}

/// The mathematical value of a [`ParseNode`]: a tree over sequences.
pub ghost struct NodeView {
    pub kind: Kind,
    pub children: Seq<NodeView>,
    pub ty: TypeView,
}

/// The value of a node, children included.
pub open spec fn node_view(n: ParseNode) -> NodeView
    decreases n,
{
    NodeView {
        kind: n.entry@,
        children: Seq::new(
            n.child@.len(),
            |i: int|
                if 0 <= i < n.child@.len() {
                    node_view(n.child@[i])
                } else {
                    arbitrary()
                },
        ),
        ty: n.type_exp@,
    }
}

/// The values of a sequence of nodes.
pub open spec fn nodes_view(s: Seq<ParseNode>) -> Seq<NodeView> {
    Seq::new(s.len(), |i: int| node_view(s[i]))
}

impl View for ParseNode {
    type V = NodeView;

    open spec fn view(&self) -> NodeView {
        node_view(*self)
    }
}

impl NodeView {
    /// A node without children.
    pub open spec fn leaf(kind: Kind, ty: TypeView) -> NodeView {
        NodeView { kind, children: Seq::empty(), ty }
    }

    /// A node over one child, whose type it takes over unchanged.
    pub open spec fn wrap(kind: Kind, child: NodeView) -> NodeView {
        NodeView { kind, children: seq![child], ty: child.ty }
    }

    /// A node over one child, with a type of its own.
    pub open spec fn unary(kind: Kind, child: NodeView, ty: TypeView) -> NodeView {
        NodeView { kind, children: seq![child], ty }
    }

    /// A node over two children.
    pub open spec fn binary(kind: Kind, first: NodeView, second: NodeView, ty: TypeView) -> NodeView {
        NodeView { kind, children: seq![first, second], ty }
    }

    /// A node over the given children.
    pub open spec fn of(kind: Kind, children: Seq<NodeView>, ty: TypeView) -> NodeView {
        NodeView { kind, children, ty }
    }
}

/// Whether the children of a node from the `i`-th on are typed throughout.
pub closed spec fn typed_from(n: NodeView, i: nat) -> bool
    decreases n, n.children.len() - i,
{
    i >= n.children.len() || (typed(n.children[i as int]) && typed_from(n, i + 1))
}

/// Whether a tree is typed throughout: no node of it has the empty type.
pub closed spec fn typed(n: NodeView) -> bool
    decreases n, n.children.len() + 1,
{
    !n.ty.is_empty() && typed_from(n, 0)
}

/// Whether every tree of a sequence is typed throughout.
pub open spec fn all_typed(s: Seq<NodeView>) -> bool {
    forall|i: int| 0 <= i < s.len() ==> #[trigger] typed(s[i])
}

proof fn lemma_typed_from_child(n: NodeView, i: nat, k: int)
    requires
        typed_from(n, i),
        i <= k < n.children.len(),
    ensures
        typed(n.children[k]),
    decreases k - i,
{
    if i < k {
        lemma_typed_from_child(n, i + 1, k);
    }
}

proof fn lemma_typed_from_all(n: NodeView, i: nat)
    requires
        all_typed(n.children),
    ensures
        typed_from(n, i),
    decreases n.children.len() - i,
{
    if i < n.children.len() {
        assert(typed(n.children[i as int]));
        lemma_typed_from_all(n, i + 1);
    }
}

/// A tree is typed throughout exactly if it has a type itself and each of
/// its children is typed throughout.
pub proof fn lemma_typed_unfolds(n: NodeView)
    ensures
        typed(n) <==> !n.ty.is_empty() && all_typed(n.children),
{
    if typed(n) {
        lemma_typed_parts(n);
    }
    if !n.ty.is_empty() && all_typed(n.children) {
        lemma_typed_node(n);
    }
}

/// A tree that is typed throughout has a type itself, and typed children.
pub proof fn lemma_typed_parts(n: NodeView)
    requires
        typed(n),
    ensures
        !n.ty.is_empty(),
        all_typed(n.children),
{
    assert forall|k: int| 0 <= k < n.children.len() implies #[trigger] typed(n.children[k]) by {
        lemma_typed_from_child(n, 0, k);
    }
}

/// A node with a type over typed children is typed throughout.
pub proof fn lemma_typed_node(n: NodeView)
    requires
        !n.ty.is_empty(),
        all_typed(n.children),
    ensures
        typed(n),
{
    lemma_typed_from_all(n, 0);
}

/// The types of a sequence of nodes, in order.
pub open spec fn node_types(s: Seq<NodeView>) -> Seq<TypeView> {
    Seq::new(s.len(), |i: int| s[i].ty)
}

/// Pushing onto a sequence of nodes pushes the value.
pub proof fn lemma_nodes_view_push(s: Seq<ParseNode>, n: ParseNode)
    ensures
        nodes_view(s.push(n)) == nodes_view(s).push(n@),
{
    assert(nodes_view(s.push(n)) =~= nodes_view(s).push(n@));
}

impl ParseNode {
    /// The value of a node is the value of its parts.
    pub proof fn lemma_view(&self)
        ensures
            self@.kind == self.entry@,
            self@.children == nodes_view(self.child@),
            self@.ty == self.type_exp@,
    {
        assert(self@.children =~= nodes_view(self.child@));
    }

    /// A node without children and without a type yet.
    pub fn new(entry: NodeType) -> (n: ParseNode)
        ensures
            n@ == NodeView::leaf(entry@, TypeView::empty()),
    {
        ParseNode::leaf(entry, TypeExpression::new())
    }

    /// A node without children.
    pub fn leaf(entry: NodeType, type_exp: TypeExpression) -> (n: ParseNode)
        ensures
            n@ == NodeView::leaf(entry@, type_exp@),
            !type_exp@.is_empty() ==> typed(n@),
    {
        let n = ParseNode { entry, child: Vec::new(), type_exp };
        proof {
            n.lemma_view();
            assert(nodes_view(n.child@) =~= Seq::empty());
            if !type_exp@.is_empty() {
                lemma_typed_node(n@);
            }
        }
        n
    }

    /// A node over the given children.
    pub fn of(entry: NodeType, children: Vec<ParseNode>, type_exp: TypeExpression) -> (n: ParseNode)
        ensures
            n@ == NodeView::of(entry@, nodes_view(children@), type_exp@),
            all_typed(nodes_view(children@)) && !type_exp@.is_empty() ==> typed(n@),
    {
        let n = ParseNode { entry, child: children, type_exp };
        proof {
            n.lemma_view();
            if all_typed(nodes_view(children@)) && !type_exp@.is_empty() {
                lemma_typed_node(n@);
            }
        }
        n
    }

    /// A node over one child, whose type it takes over unchanged.
    pub fn wrap(entry: NodeType, child: ParseNode) -> (n: ParseNode)
        ensures
            n@ == NodeView::wrap(entry@, child@),
            typed(child@) ==> typed(n@),
    {
        let type_exp = child.type_exp.duplicate();
        proof {
            child.lemma_view();
            if typed(child@) {
                lemma_typed_parts(child@);
            }
        }
        ParseNode::unary(entry, child, type_exp)
    }

    /// A node over one child, with a type of its own.
    pub fn unary(entry: NodeType, child: ParseNode, type_exp: TypeExpression) -> (n: ParseNode)
        ensures
            n@ == NodeView::unary(entry@, child@, type_exp@),
            typed(child@) && !type_exp@.is_empty() ==> typed(n@),
    {
        let children = one_node(child);
        ParseNode::of(entry, children, type_exp)
    }

    /// A node over two children.
    pub fn binary(entry: NodeType, first: ParseNode, second: ParseNode, type_exp: TypeExpression) -> (n:
        ParseNode)
        ensures
            n@ == NodeView::binary(entry@, first@, second@, type_exp@),
            typed(first@) && typed(second@) && !type_exp@.is_empty() ==> typed(n@),
    {
        let children = two_nodes(first, second);
        ParseNode::of(entry, children, type_exp)
    }

    /// The node's type.
    pub fn ty(&self) -> (t: &TypeExpression)
        ensures
            t@ == self@.ty,
            typed(self@) ==> !t@.is_empty(),
    {
        proof {
            self.lemma_view();
            if typed(self@) {
                lemma_typed_parts(self@);
            }
        }
        &self.type_exp
    }

    /// A copy of the node's type.
    pub fn type_of(&self) -> (t: TypeExpression)
        ensures
            t@ == self@.ty,
            typed(self@) ==> !t@.is_empty(),
    {
        proof {
            self.lemma_view();
            if typed(self@) {
                lemma_typed_parts(self@);
            }
        }
        self.type_exp.duplicate()
    }
}

/// A list of one node.
pub fn one_node(n: ParseNode) -> (list: Vec<ParseNode>)
    ensures
        list@ == seq![n],
        nodes_view(list@) == seq![n@],
        typed(n@) ==> all_typed(nodes_view(list@)),
{
    let mut list: Vec<ParseNode> = Vec::new();
    list.push(n);
    proof {
        assert(list@ =~= seq![n]);
        assert(nodes_view(list@) =~= seq![n@]);
    }
    list
}

/// A list of two nodes.
pub fn two_nodes(first: ParseNode, second: ParseNode) -> (list: Vec<ParseNode>)
    ensures
        list@ == seq![first, second],
        nodes_view(list@) == seq![first@, second@],
        typed(first@) && typed(second@) ==> all_typed(nodes_view(list@)),
{
    let mut list: Vec<ParseNode> = Vec::new();
    list.push(first);
    list.push(second);
    proof {
        assert(list@ =~= seq![first, second]);
        assert(nodes_view(list@) =~= seq![first@, second@]);
    }
    list
}

/// A list of three nodes.
pub fn three_nodes(first: ParseNode, second: ParseNode, third: ParseNode) -> (list: Vec<ParseNode>)
    ensures
        list@ == seq![first, second, third],
        nodes_view(list@) == seq![first@, second@, third@],
        typed(first@) && typed(second@) && typed(third@) ==> all_typed(nodes_view(list@)),
{
    let mut list: Vec<ParseNode> = Vec::new();
    list.push(first);
    list.push(second);
    list.push(third);
    proof {
        assert(list@ =~= seq![first, second, third]);
        assert(nodes_view(list@) =~= seq![first@, second@, third@]);
    }
    list
}

/// A list of four nodes.
pub fn four_nodes(first: ParseNode, second: ParseNode, third: ParseNode, fourth: ParseNode) -> (list:
    Vec<ParseNode>)
    ensures
        nodes_view(list@) == seq![first@, second@, third@, fourth@],
        typed(first@) && typed(second@) && typed(third@) && typed(fourth@) ==> all_typed(
            nodes_view(list@),
        ),
{
    let mut list: Vec<ParseNode> = Vec::new();
    list.push(first);
    list.push(second);
    list.push(third);
    list.push(fourth);
    proof {
        assert(nodes_view(list@) =~= seq![first@, second@, third@, fourth@]);
    }
    list
}

/// Appends a node to a list of nodes.
pub fn push_node(list: &mut Vec<ParseNode>, n: ParseNode)
    ensures
        final(list)@ == old(list)@.push(n),
        nodes_view(final(list)@) == nodes_view(old(list)@).push(n@),
        all_typed(nodes_view(old(list)@)) && typed(n@) ==> all_typed(nodes_view(final(list)@)),
{
    proof {
        lemma_nodes_view_push(list@, n);
    }
    list.push(n);
}

/// The types of the nodes of a list, in order.
pub fn types_of(list: &Vec<ParseNode>) -> (types: Vec<TypeExpression>)
    ensures
        crate::types::types_view(types@) == node_types(nodes_view(list@)),
{
    let mut types: Vec<TypeExpression> = Vec::new();
    let mut i: usize = 0;
    while i < list.len()
        invariant
            i <= list.len(),
            types@.len() == i,
            forall|k: int| 0 <= k < i ==> types@[k]@ == list@[k]@.ty,
        decreases list.len() - i,
    {
        let t = list[i].type_of();
        types.push(t);
        i = i + 1;
    }
    proof {
        assert(crate::types::types_view(types@) =~= node_types(nodes_view(list@)));
    }
    types
}

} // verus!
