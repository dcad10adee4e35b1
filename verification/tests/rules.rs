use c11_parser::ast::{types_of, NodeType, ParseNode};
use c11_parser::error::ParseError;
use c11_parser::sema::{
    classify, implicit_type_cast, judge_cast, judge_combine_type, judge_type_same,
    names_something, same_structure, same_tag, unresolved, TypeClass, MAX_INTEGER_RANK,
};
use c11_parser::token::{Encoding, Symbol, Token};
use c11_parser::types::{BaseType, TypeExpression};

fn ty(tag: BaseType) -> TypeExpression {
    TypeExpression::new_val(tag)
}

fn name(text: &str) -> TypeExpression {
    ty(BaseType::Identifier(text.to_string()))
}

#[test]
fn classes_of_tags() {
    assert_eq!(classify(&ty(BaseType::Void)), TypeClass::Void);
    assert_eq!(classify(&ty(BaseType::NoneExpression)), TypeClass::Void);
    assert_eq!(classify(&ty(BaseType::Bool)), TypeClass::Arithmetic(1));
    assert_eq!(classify(&ty(BaseType::Char)), TypeClass::Arithmetic(2));
    assert_eq!(classify(&ty(BaseType::Short)), TypeClass::Arithmetic(3));
    assert_eq!(classify(&ty(BaseType::Int)), TypeClass::Arithmetic(4));
    assert_eq!(classify(&ty(BaseType::Signed)), TypeClass::Arithmetic(4));
    assert_eq!(classify(&ty(BaseType::Unsigned)), TypeClass::Arithmetic(5));
    assert_eq!(classify(&ty(BaseType::Long)), TypeClass::Arithmetic(6));
    assert_eq!(classify(&ty(BaseType::SizeT)), TypeClass::Arithmetic(7));
    assert_eq!(classify(&ty(BaseType::Float)), TypeClass::Arithmetic(8));
    assert_eq!(classify(&ty(BaseType::Double)), TypeClass::Arithmetic(9));
    assert_eq!(classify(&ty(BaseType::Complex)), TypeClass::Arithmetic(10));
    assert_eq!(classify(&ty(BaseType::Pointer)), TypeClass::Address);
    assert_eq!(classify(&ty(BaseType::VoidPointer)), TypeClass::Address);
    assert_eq!(classify(&ty(BaseType::Array(4))), TypeClass::Address);
    assert_eq!(classify(&ty(BaseType::Struct)), TypeClass::Aggregate);
    assert_eq!(classify(&ty(BaseType::Union)), TypeClass::Aggregate);
    assert_eq!(classify(&name("x")), TypeClass::Unresolved);
    assert_eq!(classify(&ty(BaseType::Const)), TypeClass::Unresolved);
    assert_eq!(classify(&ty(BaseType::Static)), TypeClass::Unresolved);
    assert_eq!(classify(&TypeExpression::new()), TypeClass::Unresolved);
    assert_eq!(MAX_INTEGER_RANK, 7);
}

#[test]
fn class_of_a_composite_is_that_of_its_first_part() {
    let t = TypeExpression::pair(ty(BaseType::Struct), name("S"));
    assert_eq!(classify(&t), TypeClass::Aggregate);
    let nested = TypeExpression::pair(t, ty(BaseType::Long));
    assert_eq!(classify(&nested), TypeClass::Aggregate);
    let t = TypeExpression::pair(ty(BaseType::Unsigned), ty(BaseType::Long));
    assert_eq!(classify(&t), TypeClass::Arithmetic(5));
    // a tag of its own comes before the parts
    let t = TypeExpression::tagged(BaseType::Pointer, vec![ty(BaseType::Struct)]);
    assert_eq!(classify(&t), TypeClass::Address);
}

#[test]
fn same_types() {
    assert!(judge_type_same(&ty(BaseType::Long), &ty(BaseType::Long)));
    assert!(!judge_type_same(&ty(BaseType::Long), &ty(BaseType::Double)));
    assert!(!judge_type_same(&ty(BaseType::Long), &ty(BaseType::Int)));
    assert!(judge_type_same(&name("a"), &ty(BaseType::Double)));
    assert!(judge_type_same(&ty(BaseType::Double), &name("a")));
    assert!(!judge_type_same(&ty(BaseType::Array(3)), &ty(BaseType::Array(4))));
    let a = TypeExpression::tagged(BaseType::Pointer, vec![ty(BaseType::Int)]);
    let b = TypeExpression::tagged(BaseType::Pointer, vec![ty(BaseType::Int)]);
    let c = TypeExpression::tagged(BaseType::Pointer, vec![ty(BaseType::Char)]);
    assert!(judge_type_same(&a, &b));
    assert!(!judge_type_same(&a, &c));
}

#[test]
fn types_that_mention_a_name_are_not_compared() {
    let declared = TypeExpression::pair(TypeExpression::tagged(BaseType::Pointer, vec![]), name("p"));
    assert_eq!(classify(&declared), TypeClass::Address);
    assert!(names_something(&declared));
    assert!(unresolved(&declared));
    assert!(judge_type_same(&declared, &ty(BaseType::Long)));
    assert!(judge_type_same(&ty(BaseType::Double), &declared));
    let deep = TypeExpression::tagged(
        BaseType::Pointer,
        vec![TypeExpression::composite(vec![ty(BaseType::Int), name("x")])],
    );
    assert!(names_something(&deep));
    let plain = TypeExpression::tagged(BaseType::Pointer, vec![ty(BaseType::Int)]);
    assert!(!names_something(&plain));
    assert!(!unresolved(&plain));
    assert!(!names_something(&TypeExpression::new()));
    assert!(unresolved(&TypeExpression::new()));
    assert!(unresolved(&ty(BaseType::Const)));
    assert!(!judge_type_same(&plain, &ty(BaseType::Long)));
    // a cast still goes by the class
    assert!(!judge_cast(&ty(BaseType::Double), &declared));
}

#[test]
fn structural_equality() {
    assert!(same_tag(&BaseType::Array(3), &BaseType::Array(3)));
    assert!(!same_tag(&BaseType::Array(3), &BaseType::Array(4)));
    assert!(same_tag(
        &BaseType::Identifier("a".to_string()),
        &BaseType::Identifier("a".to_string())
    ));
    assert!(!same_tag(
        &BaseType::Identifier("a".to_string()),
        &BaseType::Identifier("b".to_string())
    ));
    assert!(!same_tag(&BaseType::Int, &BaseType::Signed));
    assert!(same_structure(&name("a"), &name("a")));
    assert!(!same_structure(&name("a"), &name("b")));
    let one = TypeExpression::composite(vec![ty(BaseType::Int)]);
    let two = TypeExpression::composite(vec![ty(BaseType::Int), ty(BaseType::Int)]);
    assert!(!same_structure(&one, &two));
    assert!(!same_structure(&one, &ty(BaseType::Int)));
    assert_eq!(same_structure(&one, &two), one == two);
    assert!(same_structure(&two, &two.duplicate()));
}

#[test]
fn casts() {
    let int = ty(BaseType::Int);
    let long = ty(BaseType::Long);
    let double = ty(BaseType::Double);
    let pointer = ty(BaseType::Pointer);
    let structure = ty(BaseType::Struct);
    let void = ty(BaseType::Void);
    assert!(judge_cast(&int, &long));
    assert!(judge_cast(&double, &int));
    assert!(judge_cast(&pointer, &long));
    assert!(judge_cast(&long, &pointer));
    assert!(judge_cast(&pointer, &pointer));
    assert!(!judge_cast(&pointer, &double));
    assert!(!judge_cast(&double, &pointer));
    assert!(!judge_cast(&int, &structure));
    assert!(!judge_cast(&structure, &int));
    assert!(!judge_cast(&structure, &structure));
    assert!(judge_cast(&void, &structure));
    assert!(judge_cast(&void, &void));
    assert!(!judge_cast(&int, &void));
    assert!(judge_cast(&name("t"), &structure));
    assert!(judge_cast(&structure, &name("v")));
}

#[test]
fn combinations() {
    let int = ty(BaseType::Int);
    let long = ty(BaseType::Long);
    let double = ty(BaseType::Double);
    let pointer = ty(BaseType::Pointer);
    let structure = ty(BaseType::Struct);
    let void = ty(BaseType::Void);
    // the wider of two numbers
    assert_eq!(judge_combine_type(&int, &long, Symbol::Plus), Some(ty(BaseType::Long)));
    assert_eq!(judge_combine_type(&long, &int, Symbol::Star), Some(ty(BaseType::Long)));
    assert_eq!(judge_combine_type(&double, &int, Symbol::Slash), Some(ty(BaseType::Double)));
    assert_eq!(judge_combine_type(&int, &ty(BaseType::Signed), Symbol::Minus), Some(ty(BaseType::Int)));
    // a shift has the type of its left operand
    assert_eq!(judge_combine_type(&int, &long, Symbol::ShiftLeft), Some(ty(BaseType::Int)));
    // integers only
    assert_eq!(judge_combine_type(&int, &double, Symbol::Percent), None);
    assert_eq!(judge_combine_type(&double, &int, Symbol::Ampersand), None);
    assert_eq!(judge_combine_type(&int, &long, Symbol::Pipe), Some(ty(BaseType::Long)));
    // comparisons and logical operators are int
    assert_eq!(judge_combine_type(&double, &long, Symbol::Less), Some(ty(BaseType::Int)));
    assert_eq!(judge_combine_type(&pointer, &pointer, Symbol::EqualEqual), Some(ty(BaseType::Int)));
    assert_eq!(judge_combine_type(&double, &pointer, Symbol::AndAnd), Some(ty(BaseType::Int)));
    // addresses
    assert_eq!(judge_combine_type(&pointer, &int, Symbol::Plus), Some(ty(BaseType::Pointer)));
    assert_eq!(judge_combine_type(&pointer, &int, Symbol::Minus), Some(ty(BaseType::Pointer)));
    assert_eq!(judge_combine_type(&int, &pointer, Symbol::Plus), Some(ty(BaseType::Pointer)));
    assert_eq!(judge_combine_type(&int, &pointer, Symbol::Minus), None);
    assert_eq!(judge_combine_type(&pointer, &pointer, Symbol::Minus), Some(ty(BaseType::Long)));
    assert_eq!(judge_combine_type(&pointer, &pointer, Symbol::Plus), None);
    assert_eq!(judge_combine_type(&pointer, &double, Symbol::Plus), None);
    assert_eq!(judge_combine_type(&pointer, &int, Symbol::Star), None);
    // what has no value, and aggregates, never combine
    assert_eq!(judge_combine_type(&structure, &int, Symbol::Plus), None);
    assert_eq!(judge_combine_type(&int, &void, Symbol::Plus), None);
    assert_eq!(judge_combine_type(&structure, &structure, Symbol::EqualEqual), None);
    // an unresolved operand takes the type of the other
    assert_eq!(judge_combine_type(&name("a"), &long, Symbol::Plus), Some(ty(BaseType::Long)));
    assert_eq!(judge_combine_type(&double, &name("a"), Symbol::Percent), Some(ty(BaseType::Double)));
    assert_eq!(judge_combine_type(&name("a"), &name("b"), Symbol::Plus), Some(name("a")));
    assert_eq!(judge_combine_type(&name("a"), &structure, Symbol::Plus), None);
    // no binary operator
    assert_eq!(judge_combine_type(&int, &int, Symbol::Comma), None);
    assert_eq!(judge_combine_type(&int, &int, Symbol::Assign), None);
}

#[test]
fn implicit_conversions() {
    let int = ty(BaseType::Int);
    let double = ty(BaseType::Double);
    let pointer = ty(BaseType::Pointer);
    let structure = ty(BaseType::Struct);
    let void = ty(BaseType::Void);
    assert_eq!(implicit_type_cast(&int, &double), Ok(ty(BaseType::Int)));
    assert_eq!(implicit_type_cast(&double, &int), Ok(ty(BaseType::Double)));
    assert_eq!(implicit_type_cast(&pointer, &pointer), Ok(ty(BaseType::Pointer)));
    assert_eq!(implicit_type_cast(&pointer, &int), Ok(ty(BaseType::Pointer)));
    assert_eq!(implicit_type_cast(&name("a"), &double), Ok(ty(BaseType::Double)));
    assert_eq!(implicit_type_cast(&double, &name("a")), Ok(ty(BaseType::Double)));
    assert_eq!(implicit_type_cast(&name("a"), &name("b")), Ok(name("a")));
    assert_eq!(implicit_type_cast(&structure, &structure), Ok(ty(BaseType::Struct)));
    assert_eq!(
        implicit_type_cast(&pointer, &double),
        Err(ParseError::IllegalAssignment { left: ty(BaseType::Pointer), right: ty(BaseType::Double) })
    );
    assert_eq!(
        implicit_type_cast(&int, &pointer),
        Err(ParseError::IllegalAssignment { left: ty(BaseType::Int), right: ty(BaseType::Pointer) })
    );
    assert!(implicit_type_cast(&int, &structure).is_err());
    assert!(implicit_type_cast(&void, &int).is_err());
    assert!(implicit_type_cast(&int, &void).is_err());
    assert!(implicit_type_cast(&name("a"), &void).is_err());
    let other = TypeExpression::pair(ty(BaseType::Struct), name("S"));
    assert!(implicit_type_cast(&structure, &other).is_err());
}

#[test]
fn type_constructors() {
    let empty = TypeExpression::new();
    assert!(empty.is_empty());
    assert!(empty.val.is_empty() && empty.child.is_empty());
    let long = TypeExpression::new_val(BaseType::Long);
    assert_eq!(long.val, vec![BaseType::Long]);
    assert!(long.child.is_empty());
    assert!(!long.is_empty());
    let two = TypeExpression::new_val2(BaseType::Array(2), BaseType::Char);
    assert_eq!(two.val, vec![BaseType::Array(2), BaseType::Char]);
    let pair = TypeExpression::pair(ty(BaseType::Int), ty(BaseType::Char));
    assert!(pair.val.is_empty());
    assert_eq!(pair.child, vec![ty(BaseType::Int), ty(BaseType::Char)]);
    assert_eq!(pair, TypeExpression::composite(vec![ty(BaseType::Int), ty(BaseType::Char)]));
    assert!(!TypeExpression::composite(vec![ty(BaseType::Int)]).is_empty());
    let tagged = TypeExpression::tagged(BaseType::Pointer, vec![ty(BaseType::Int)]);
    assert_eq!(tagged.val, vec![BaseType::Pointer]);
    assert_eq!(tagged.child, vec![ty(BaseType::Int)]);
    let more = pair.with_val(BaseType::VaList);
    assert_eq!(more.val, vec![BaseType::VaList]);
    assert_eq!(more.child.len(), 2);
    let copy = more.duplicate();
    assert_eq!(copy, more);
    assert_eq!(BaseType::Identifier("n".to_string()).duplicate(), BaseType::Identifier("n".to_string()));
}

#[test]
fn node_constructors() {
    let leaf = ParseNode::new(NodeType::Pointer);
    assert!(leaf.child.is_empty());
    assert!(leaf.type_exp.is_empty());
    let a = ParseNode::leaf(NodeType::Identifier("a".to_string()), name("a"));
    let b = ParseNode::leaf(NodeType::Identifier("b".to_string()), name("b"));
    let wrapped = ParseNode::wrap(NodeType::PrimaryExpression, a);
    assert_eq!(wrapped.child.len(), 1);
    assert_eq!(wrapped.type_exp, name("a"));
    assert_eq!(wrapped.type_of(), name("a"));
    assert_eq!(*wrapped.ty(), name("a"));
    let both = ParseNode::binary(NodeType::Expression, wrapped, b, ty(BaseType::Int));
    assert_eq!(both.child.len(), 2);
    assert_eq!(both.child[1].entry, NodeType::Identifier("b".to_string()));
    assert_eq!(both.type_exp, ty(BaseType::Int));
    assert_eq!(types_of(&both.child), vec![name("a"), name("b")]);
    assert_eq!(NodeType::Expression.name(), "Expression");
    assert_eq!(NodeType::BinaryExpression(Symbol::Plus).name(), "BinaryExpression");
}

#[test]
fn tokens() {
    let t = Token::Identifier("x".to_string());
    assert_eq!(t.duplicate(), t);
    assert_eq!(t.symbol(), None);
    assert_eq!(Token::Symbol(Symbol::Comma).symbol(), Some(Symbol::Comma));
    let s = Token::StringLiteral("a".to_string(), Encoding::Wide);
    assert_eq!(s.duplicate(), s);
    assert_ne!(s, Token::StringLiteral("a".to_string(), Encoding::Plain));
    assert_eq!(Token::FloatConstant(1.5f64.to_bits()).duplicate(), Token::FloatConstant(1.5f64.to_bits()));
}
