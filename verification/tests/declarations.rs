use c11_parser::ast::{NodeType, ParseNode};
use c11_parser::cursor::check_closing_brace;
use c11_parser::error::{Expected, ParseError};
use c11_parser::parser::decl::{
    literal_length, p_alignment_specifier, p_atomic_type_specifier, p_declaration,
    p_declaration_specifiers, p_designation, p_direct_abstract_declarator_block,
    p_direct_declarator, p_direct_declarator_post,
    p_enum_specifier, p_enumerator, p_enumerator_list, p_init_declarator, p_initializer,
    p_initializer_list, p_parameter_declaration, p_parameter_type_list, p_pointer,
    p_static_assert_declaration, p_storage_class_specifier, p_struct_declaration,
    p_struct_or_union_specifier, p_type_name, p_type_specifier,
};
use c11_parser::token::{Encoding, Symbol, Token};
use c11_parser::types::{BaseType, TypeExpression};

fn keyword(word: &str) -> Option<Symbol> {
    Some(match word {
        "auto" => Symbol::Auto,
        "break" => Symbol::Break,
        "case" => Symbol::Case,
        "char" => Symbol::Char,
        "const" => Symbol::Const,
        "continue" => Symbol::Continue,
        "default" => Symbol::Default,
        "do" => Symbol::Do,
        "double" => Symbol::Double,
        "else" => Symbol::Else,
        "enum" => Symbol::Enum,
        "extern" => Symbol::Extern,
        "float" => Symbol::Float,
        "for" => Symbol::For,
        "goto" => Symbol::Goto,
        "if" => Symbol::If,
        "inline" => Symbol::Inline,
        "int" => Symbol::Int,
        "long" => Symbol::Long,
        "register" => Symbol::Register,
        "restrict" => Symbol::Restrict,
        "return" => Symbol::Return,
        "short" => Symbol::Short,
        "signed" => Symbol::Signed,
        "sizeof" => Symbol::Sizeof,
        "static" => Symbol::Static,
        "struct" => Symbol::Struct,
        "switch" => Symbol::Switch,
        "typedef" => Symbol::Typedef,
        "union" => Symbol::Union,
        "unsigned" => Symbol::Unsigned,
        "void" => Symbol::Void,
        "volatile" => Symbol::Volatile,
        "while" => Symbol::While,
        "_Alignas" => Symbol::Alignas,
        "_Alignof" => Symbol::Alignof,
        "_Atomic" => Symbol::Atomic,
        "_Bool" => Symbol::Bool,
        "_Complex" => Symbol::Complex,
        "_Generic" => Symbol::Generic,
        "_Imaginary" => Symbol::Imaginary,
        "_Noreturn" => Symbol::Noreturn,
        "_Static_assert" => Symbol::StaticAssert,
        "_Thread_local" => Symbol::ThreadLocal,
        "__func__" => Symbol::FuncName,
        _ => return None,
    })
}

fn punctuator(text: &str) -> Option<Symbol> {
    Some(match text {
        "..." => Symbol::Ellipsis,
        "<<=" => Symbol::ShlAssign,
        ">>=" => Symbol::ShrAssign,
        "->" => Symbol::Arrow,
        "++" => Symbol::Increment,
        "--" => Symbol::Decrement,
        "<<" => Symbol::ShiftLeft,
        ">>" => Symbol::ShiftRight,
        "<=" => Symbol::LessEqual,
        ">=" => Symbol::GreaterEqual,
        "==" => Symbol::EqualEqual,
        "!=" => Symbol::NotEqual,
        "&&" => Symbol::AndAnd,
        "||" => Symbol::OrOr,
        "*=" => Symbol::MulAssign,
        "/=" => Symbol::DivAssign,
        "%=" => Symbol::ModAssign,
        "+=" => Symbol::AddAssign,
        "-=" => Symbol::SubAssign,
        "&=" => Symbol::AndAssign,
        "^=" => Symbol::XorAssign,
        "|=" => Symbol::OrAssign,
        "(" => Symbol::LParen,
        ")" => Symbol::RParen,
        "{" => Symbol::LBrace,
        "}" => Symbol::RBrace,
        "[" => Symbol::LBracket,
        "]" => Symbol::RBracket,
        "," => Symbol::Comma,
        ";" => Symbol::Semicolon,
        ":" => Symbol::Colon,
        "." => Symbol::Dot,
        "&" => Symbol::Ampersand,
        "*" => Symbol::Star,
        "+" => Symbol::Plus,
        "-" => Symbol::Minus,
        "~" => Symbol::Tilde,
        "!" => Symbol::Bang,
        "/" => Symbol::Slash,
        "%" => Symbol::Percent,
        "<" => Symbol::Less,
        ">" => Symbol::Greater,
        "^" => Symbol::Caret,
        "|" => Symbol::Pipe,
        "?" => Symbol::Question,
        "=" => Symbol::Assign,
        _ => return None,
    })
}

/// Splits a piece of C into tokens; enough of a lexer for these tests.
fn lex(src: &str) -> Vec<Token> {
    let chars: Vec<char> = src.chars().collect();
    let mut toks = Vec::new();
    let mut i = 0;
    while i < chars.len() {
        let c = chars[i];
        if c.is_whitespace() {
            i += 1;
        } else if c.is_ascii_alphabetic() || c == '_' {
            let start = i;
            while i < chars.len() && (chars[i].is_ascii_alphanumeric() || chars[i] == '_') {
                i += 1;
            }
            let word: String = chars[start..i].iter().collect();
            match keyword(&word) {
                Some(s) => toks.push(Token::Symbol(s)),
                None => toks.push(Token::Identifier(word)),
            }
        } else if c.is_ascii_digit() {
            let start = i;
            while i < chars.len() && (chars[i].is_ascii_digit() || chars[i] == '.') {
                i += 1;
            }
            let text: String = chars[start..i].iter().collect();
            if text.contains('.') {
                toks.push(Token::FloatConstant(text.parse::<f64>().unwrap().to_bits()));
            } else {
                toks.push(Token::IntConstant(text.parse::<i64>().unwrap()));
            }
        } else if c == '"' {
            let start = i + 1;
            i += 1;
            while chars[i] != '"' {
                i += 1;
            }
            toks.push(Token::StringLiteral(chars[start..i].iter().collect(), Encoding::Plain));
            i += 1;
        } else {
            let mut found = false;
            for len in [3usize, 2, 1] {
                if i + len <= chars.len() {
                    let text: String = chars[i..i + len].iter().collect();
                    if let Some(s) = punctuator(&text) {
                        toks.push(Token::Symbol(s));
                        i += len;
                        found = true;
                        break;
                    }
                }
            }
            assert!(found, "no token at {}", i);
        }
    }
    toks
}

/// The first node, in depth-first order, of the production with the given
/// name.
fn first_of<'a>(node: &'a ParseNode, name: &str) -> Option<&'a ParseNode> {
    if node.entry.name() == name {
        return Some(node);
    }
    for child in &node.child {
        if let Some(found) = first_of(child, name) {
            return Some(found);
        }
    }
    None
}

fn ty(tag: BaseType) -> TypeExpression {
    TypeExpression::new_val(tag)
}

#[test]
fn declarator_suffix_composition() {
    // int * a [ 3 ] ;
    let toks = lex("int *a[3];");
    let (declaration, end) = p_declaration(&toks, 0).unwrap();
    assert_eq!(end, toks.len());
    let declarator = first_of(&declaration, "Declarator").unwrap();
    // a pointer, then the direct declarator it applies to
    assert_eq!(declarator.child.len(), 2);
    assert_eq!(declarator.child[0].entry, NodeType::Pointer);
    assert_eq!(declarator.child[1].entry, NodeType::DirectDeclarator);
    let pointer = TypeExpression::tagged(BaseType::Pointer, vec![]);
    let array_of_3 = TypeExpression::tagged(BaseType::Array(3), vec![ty(BaseType::Long)]);
    let direct = TypeExpression::pair(ty(BaseType::Identifier("a".to_string())), array_of_3);
    assert_eq!(declarator.type_exp, TypeExpression::pair(pointer, direct));
    // the chain reads: pointer, then the name, then array of 3
    assert_eq!(declarator.type_exp.child[0].val, vec![BaseType::Pointer]);
    assert_eq!(declarator.type_exp.child[1].child[1].val, vec![BaseType::Array(3)]);
}

#[test]
fn suffixes_compose_left_to_right() {
    let toks = lex("a[2][5]");
    let (direct, end) = p_direct_declarator(&toks, 0).unwrap();
    assert_eq!(end, 7);
    let suffixes = &direct.child[1];
    assert_eq!(suffixes.entry, NodeType::DirectDeclaratorPostList);
    assert_eq!(suffixes.child.len(), 2);
    assert_eq!(
        suffixes.type_exp,
        TypeExpression::pair(
            TypeExpression::tagged(BaseType::Array(2), vec![ty(BaseType::Long)]),
            TypeExpression::tagged(BaseType::Array(5), vec![ty(BaseType::Long)]),
        )
    );
}

#[test]
fn array_length_is_the_literal_or_zero() {
    let toks = lex("[3]");
    let (suffix, _) = p_direct_declarator_post(&toks, 0).unwrap();
    assert_eq!(suffix.type_exp.val, vec![BaseType::Array(3)]);
    let toks = lex("[n]");
    let (suffix, _) = p_direct_declarator_post(&toks, 0).unwrap();
    assert_eq!(suffix.type_exp.val, vec![BaseType::Array(0)]);
    assert_eq!(suffix.type_exp.child, vec![ty(BaseType::Identifier("n".to_string()))]);
    let toks = lex("[2 + 1]");
    let (suffix, end) = p_direct_declarator_post(&toks, 0).unwrap();
    assert_eq!(end, 5);
    assert_eq!(suffix.type_exp.val, vec![BaseType::Array(0)]);
    let toks = lex("[]");
    let (suffix, end) = p_direct_declarator_post(&toks, 0).unwrap();
    assert_eq!(end, 2);
    assert_eq!(suffix.type_exp, ty(BaseType::Array(0)));
    assert_eq!(literal_length(&lex("7"), 0, 1), 7);
    assert_eq!(literal_length(&lex("7 8"), 0, 2), 0);
    assert_eq!(literal_length(&[Token::IntConstant(-4)], 0, 1), 0);
}

#[test]
fn function_suffix_has_the_type_of_its_list() {
    let toks = lex("()");
    let (suffix, end) = p_direct_declarator_post(&toks, 0).unwrap();
    assert_eq!(end, 2);
    assert_eq!(suffix.type_exp, ty(BaseType::Function));
    let toks = lex("(int a, double b)");
    let (suffix, end) = p_direct_declarator_post(&toks, 0).unwrap();
    assert_eq!(end, toks.len());
    assert_eq!(suffix.child[0].entry, NodeType::ParameterTypeList(false));
    assert_eq!(suffix.type_exp, suffix.child[0].type_exp);
    assert_eq!(
        suffix.type_exp,
        TypeExpression::composite(vec![
            TypeExpression::pair(ty(BaseType::Int), ty(BaseType::Identifier("a".to_string()))),
            TypeExpression::pair(ty(BaseType::Double), ty(BaseType::Identifier("b".to_string()))),
        ])
    );
    let toks = lex("(int, ...)");
    let (suffix, _) = p_direct_declarator_post(&toks, 0).unwrap();
    assert_eq!(suffix.type_exp.val, vec![BaseType::VaList]);
    let toks = lex("(int)");
    let (block, end) = p_direct_abstract_declarator_block(&toks, 0).unwrap();
    assert_eq!(end, 3);
    assert_eq!(block.type_exp, TypeExpression::composite(vec![ty(BaseType::Int)]));
    let toks = lex("()");
    let (block, _) = p_direct_abstract_declarator_block(&toks, 0).unwrap();
    assert_eq!(block.type_exp, ty(BaseType::Function));
    let toks = lex("(a, b)");
    let (suffix, _) = p_direct_declarator_post(&toks, 0).unwrap();
    assert_eq!(suffix.child[0].entry, NodeType::IdentifierList);
    assert_eq!(suffix.child[0].child.len(), 2);
}

#[test]
fn pointers_nest() {
    let toks = lex("* const * volatile x");
    let (pointer, end) = p_pointer(&toks, 0).unwrap();
    assert_eq!(end, 4);
    assert_eq!(pointer.child.len(), 2);
    assert_eq!(pointer.child[0].entry, NodeType::TypeQualifierList);
    assert_eq!(pointer.child[1].entry, NodeType::Pointer);
    assert_eq!(pointer.type_exp.val, vec![BaseType::Pointer]);
    assert_eq!(pointer.type_exp.child[1].val, vec![BaseType::Pointer]);
    let toks = lex("*");
    let (pointer, end) = p_pointer(&toks, 0).unwrap();
    assert_eq!(end, 1);
    assert_eq!(pointer.type_exp, TypeExpression::tagged(BaseType::Pointer, vec![]));
}

#[test]
fn parenthesized_declarator() {
    let toks = lex("(*f)(int)");
    let (direct, end) = p_direct_declarator(&toks, 0).unwrap();
    assert_eq!(end, toks.len());
    assert_eq!(direct.child[0].entry, NodeType::Declarator);
    assert_eq!(direct.child[1].entry, NodeType::DirectDeclaratorPostList);
    let toks = lex("(*f");
    assert_eq!(p_direct_declarator(&toks, 0), Err(ParseError::PositionOutOfRange));
}

#[test]
fn plain_declaration() {
    let toks = lex("int a;");
    let (declaration, end) = p_declaration(&toks, 0).unwrap();
    assert_eq!(end, 3);
    assert_eq!(declaration.child.len(), 2);
    assert_eq!(
        declaration.type_exp,
        TypeExpression::pair(ty(BaseType::Int), ty(BaseType::Identifier("a".to_string())))
    );
    let toks = lex("int;");
    let (declaration, end) = p_declaration(&toks, 0).unwrap();
    assert_eq!(end, 2);
    assert_eq!(declaration.child.len(), 1);
    assert_eq!(declaration.type_exp, ty(BaseType::Int));
}

#[test]
fn declaration_needs_its_semicolon() {
    let toks = lex("int a )");
    assert_eq!(
        p_declaration(&toks, 0),
        Err(ParseError::UnexpectedToken {
            expected: Expected::Symbol(Symbol::Semicolon),
            found: Token::Symbol(Symbol::RParen),
            position: 2,
        })
    );
}

#[test]
fn several_declarators() {
    let toks = lex("int a, *b, c[2];");
    let (declaration, end) = p_declaration(&toks, 0).unwrap();
    assert_eq!(end, toks.len());
    let list = &declaration.child[1];
    assert_eq!(list.entry, NodeType::InitDeclaratorList);
    assert_eq!(list.child.len(), 3);
    assert_eq!(list.type_exp.child.len(), 3);
}

#[test]
fn initialized_declaration() {
    let toks = lex("int a = 1;");
    let (declaration, end) = p_declaration(&toks, 0).unwrap();
    assert_eq!(end, toks.len());
    let init = first_of(&declaration, "InitDeclarator").unwrap();
    assert_eq!(init.child.len(), 2);
    assert_eq!(init.child[1].entry, NodeType::Initializer);
    assert_eq!(init.type_exp, ty(BaseType::Identifier("a".to_string())));
}

#[test]
fn declarator_takes_any_initializer_until_its_name_is_resolved() {
    for src in ["a = 1.5", "*p = 0", "*s = \"text\"", "*p = &x", "a[] = {1, 2}", "m[2][2] = {{1, 2}, {3, 4}}"] {
        let toks = lex(src);
        let (node, end) = p_init_declarator(&toks, 0).unwrap();
        assert_eq!(end, toks.len(), "{}", src);
        assert_eq!(node.child.len(), 2);
        assert_eq!(node.type_exp, node.child[0].type_exp);
    }
    let toks = lex("int *p = 0, n = sizeof(int);");
    let (declaration, end) = p_declaration(&toks, 0).unwrap();
    assert_eq!(end, toks.len());
    assert_eq!(declaration.child[1].child.len(), 2);
}

#[test]
fn initializer_must_parse() {
    let toks = lex("a = ;");
    assert!(p_init_declarator(&toks, 0).is_err());
    // what fails as an expression is tried as a braced list, and the
    // failure of the last alternative is the one reported
    let toks = lex("a = 1 ? 2 : 3.0");
    assert_eq!(
        p_init_declarator(&toks, 0),
        Err(ParseError::UnexpectedToken {
            expected: Expected::Symbol(Symbol::LBrace),
            found: Token::IntConstant(1),
            position: 2,
        })
    );
}

#[test]
fn specifier_sequences_nest_to_the_right() {
    let toks = lex("static const unsigned long x");
    let (specifiers, end) = p_declaration_specifiers(&toks, 0).unwrap();
    assert_eq!(end, 4);
    assert_eq!(specifiers.child.len(), 2);
    assert_eq!(specifiers.child[0].entry, NodeType::StorageClassSpecifier(Symbol::Static));
    assert_eq!(specifiers.child[1].entry, NodeType::DeclarationSpecifiers);
    assert_eq!(
        specifiers.type_exp,
        TypeExpression::pair(
            ty(BaseType::Static),
            TypeExpression::pair(
                ty(BaseType::Const),
                TypeExpression::pair(ty(BaseType::Unsigned), ty(BaseType::Long)),
            ),
        )
    );
}

#[test]
fn every_keyword_specifier_has_its_tag() {
    let cases = [
        ("void", BaseType::Void),
        ("char", BaseType::Char),
        ("short", BaseType::Short),
        ("int", BaseType::Int),
        ("long", BaseType::Long),
        ("float", BaseType::Float),
        ("double", BaseType::Double),
        ("signed", BaseType::Signed),
        ("unsigned", BaseType::Unsigned),
        ("_Bool", BaseType::Bool),
        ("_Complex", BaseType::Complex),
        ("_Imaginary", BaseType::Imaginary),
        ("extern", BaseType::Extern),
        ("static", BaseType::Static),
        ("_Thread_local", BaseType::ThreadLocal),
        ("auto", BaseType::Auto),
        ("register", BaseType::Register),
        ("const", BaseType::Const),
        ("restrict", BaseType::Restrict),
        ("volatile", BaseType::Volatile),
        ("_Atomic", BaseType::Atomic),
        ("inline", BaseType::Inline),
        ("_Noreturn", BaseType::Noreturn),
    ];
    for (src, tag) in cases {
        let toks = lex(src);
        let (node, end) = p_declaration_specifiers(&toks, 0).unwrap();
        assert_eq!(end, 1);
        assert_eq!(node.type_exp, ty(tag));
        assert_eq!(node.child.len(), 1);
        assert!(node.child[0].child.is_empty());
    }
}

#[test]
fn typedef_is_not_supported() {
    let toks = lex("typedef int t;");
    assert_eq!(
        p_storage_class_specifier(&toks, 0),
        Err(ParseError::UnsupportedFeature { position: 0 })
    );
    assert!(p_declaration(&toks, 0).is_err());
    let toks = vec![Token::Symbol(Symbol::TypedefName)];
    assert_eq!(p_type_specifier(&toks, 0), Err(ParseError::UnsupportedFeature { position: 0 }));
}

#[test]
fn structure_specifier() {
    let toks = lex("struct point { int x; int y; }");
    let (node, end) = p_struct_or_union_specifier(&toks, 0).unwrap();
    assert_eq!(end, toks.len());
    assert_eq!(node.child.len(), 3);
    assert_eq!(node.child[0].entry, NodeType::StructOrUnion(Symbol::Struct));
    assert_eq!(node.child[1].entry, NodeType::Identifier("point".to_string()));
    assert_eq!(node.child[2].entry, NodeType::StructDeclarationList);
    assert_eq!(node.child[2].child.len(), 2);
    let toks = lex("union { int x; }");
    let (node, end) = p_struct_or_union_specifier(&toks, 0).unwrap();
    assert_eq!(end, toks.len());
    assert_eq!(node.child.len(), 2);
    let toks = lex("struct point p");
    let (node, end) = p_struct_or_union_specifier(&toks, 0).unwrap();
    assert_eq!(end, 2);
    assert_eq!(
        node.type_exp,
        TypeExpression::pair(
            ty(BaseType::Struct),
            ty(BaseType::Identifier("point".to_string()))
        )
    );
}

#[test]
fn structure_body_needs_its_closing_brace() {
    let toks = lex("struct { int x; )");
    assert_eq!(
        p_struct_or_union_specifier(&toks, 0),
        Err(ParseError::UnexpectedToken {
            expected: Expected::Symbol(Symbol::RBrace),
            found: Token::Symbol(Symbol::RParen),
            position: 5,
        })
    );
}

#[test]
fn bit_fields() {
    let toks = lex("unsigned flag : 1, : 3;");
    let (node, end) = p_struct_declaration(&toks, 0).unwrap();
    assert_eq!(end, toks.len());
    let list = &node.child[1];
    assert_eq!(list.entry, NodeType::StructDeclaratorList);
    assert_eq!(list.child.len(), 2);
    assert_eq!(list.child[0].child.len(), 2);
    assert_eq!(list.child[1].child.len(), 1);
    assert_eq!(list.child[1].child[0].entry, NodeType::ConstantExpression);
}

#[test]
fn enumeration_specifier() {
    let toks = lex("enum color { RED, GREEN = 2, BLUE, }");
    let (node, end) = p_enum_specifier(&toks, 0).unwrap();
    assert_eq!(end, toks.len());
    assert_eq!(node.entry, NodeType::EnumSpecifier(Some("color".to_string())));
    assert_eq!(node.type_exp, ty(BaseType::Int));
    let list = &node.child[0];
    assert_eq!(list.child.len(), 3);
    assert_eq!(list.child[1].child.len(), 2);
    let toks = lex("enum { A }");
    let (node, end) = p_enum_specifier(&toks, 0).unwrap();
    assert_eq!(end, 4);
    assert_eq!(node.entry, NodeType::EnumSpecifier(None));
    let toks = lex("enum color c");
    let (node, end) = p_enum_specifier(&toks, 0).unwrap();
    assert_eq!(end, 2);
    assert!(node.child.is_empty());
}

#[test]
fn enumerator_list_leaves_trailing_comma() {
    let toks = lex("A, B, }");
    let (list, end) = p_enumerator_list(&toks, 0).unwrap();
    assert_eq!(list.child.len(), 2);
    assert_eq!(end, 3);
    assert_eq!(toks[end], Token::Symbol(Symbol::Comma));
}

#[test]
fn enumerator_value_must_be_an_integer() {
    let toks = lex("A = 1.5");
    assert_eq!(
        p_enumerator(&toks, 0),
        Err(ParseError::IllegalTypeCombination {
            left: ty(BaseType::Identifier("A".to_string())),
            right: ty(BaseType::Double),
            operator: Symbol::Assign,
        })
    );
    let toks = lex("A = 1");
    let (node, end) = p_enumerator(&toks, 0).unwrap();
    assert_eq!(end, 3);
    assert_eq!(
        node.type_exp,
        TypeExpression::pair(ty(BaseType::Identifier("A".to_string())), ty(BaseType::Long))
    );
}

#[test]
fn atomic_and_alignment_specifiers() {
    let toks = lex("_Atomic(int)");
    let (node, end) = p_atomic_type_specifier(&toks, 0).unwrap();
    assert_eq!(end, 4);
    assert_eq!(node.type_exp, TypeExpression::tagged(BaseType::Atomic, vec![ty(BaseType::Int)]));
    let toks = lex("_Alignas(double)");
    let (node, end) = p_alignment_specifier(&toks, 0).unwrap();
    assert_eq!(end, 4);
    assert_eq!(node.child[0].entry, NodeType::TypeName);
    assert_eq!(node.type_exp, ty(BaseType::NoneExpression));
    let toks = lex("_Alignas(8)");
    let (node, _) = p_alignment_specifier(&toks, 0).unwrap();
    assert_eq!(node.child[0].entry, NodeType::ConstantExpression);
    let toks = lex("_Alignas(8");
    assert_eq!(p_alignment_specifier(&toks, 0), Err(ParseError::PositionOutOfRange));
}

#[test]
fn parameter_list_with_ellipsis() {
    let toks = lex("int a, double *b, ...)");
    let (node, end) = p_parameter_type_list(&toks, 0).unwrap();
    assert_eq!(end, 8);
    assert_eq!(node.entry, NodeType::ParameterTypeList(true));
    assert_eq!(node.child[0].child.len(), 2);
    assert_eq!(node.type_exp.val, vec![BaseType::VaList]);
    assert_eq!(node.type_exp.child.len(), 2);
    let toks = lex("int a, double b)");
    let (node, end) = p_parameter_type_list(&toks, 0).unwrap();
    assert_eq!(end, 5);
    assert_eq!(node.entry, NodeType::ParameterTypeList(false));
    assert!(node.type_exp.val.is_empty());
    let toks = lex("int a, )");
    assert_eq!(
        p_parameter_type_list(&toks, 0),
        Err(ParseError::UnexpectedToken {
            expected: Expected::Symbol(Symbol::Ellipsis),
            found: Token::Symbol(Symbol::RParen),
            position: 3,
        })
    );
}

#[test]
fn parameter_declarations() {
    let toks = lex("int a");
    let (node, end) = p_parameter_declaration(&toks, 0).unwrap();
    assert_eq!((node.child.len(), end), (2, 2));
    assert_eq!(node.child[1].entry, NodeType::Declarator);
    let toks = lex("int *");
    let (node, end) = p_parameter_declaration(&toks, 0).unwrap();
    assert_eq!((node.child.len(), end), (2, 2));
    assert_eq!(node.child[1].entry, NodeType::AbstractDeclarator);
    let toks = lex("int");
    let (node, end) = p_parameter_declaration(&toks, 0).unwrap();
    assert_eq!((node.child.len(), end), (1, 1));
    assert_eq!(node.type_exp, ty(BaseType::Int));
}

#[test]
fn type_names() {
    let toks = lex("unsigned int");
    let (node, end) = p_type_name(&toks, 0).unwrap();
    assert_eq!(end, 2);
    assert_eq!(node.type_exp, TypeExpression::pair(ty(BaseType::Unsigned), ty(BaseType::Int)));
    let toks = lex("char *[4]");
    let (node, end) = p_type_name(&toks, 0).unwrap();
    assert_eq!(end, 5);
    assert_eq!(node.child[1].entry, NodeType::AbstractDeclarator);
    let toks = lex("int (*)(void)");
    let (_, end) = p_type_name(&toks, 0).unwrap();
    assert_eq!(end, toks.len());
}

#[test]
fn initializer_lists() {
    let toks = lex("{1, 2, 3}");
    let (node, end) = p_initializer(&toks, 0).unwrap();
    assert_eq!(end, 7);
    let list = &node.child[0];
    assert_eq!(list.entry, NodeType::InitializerList);
    assert_eq!(list.child.len(), 3);
    assert_eq!(list.type_exp.child.len(), 3);
    let toks = lex("{1, 2,}");
    let (_, end) = p_initializer(&toks, 0).unwrap();
    assert_eq!(end, 6);
    let toks = lex("{1.5}");
    let (node, _) = p_initializer(&toks, 0).unwrap();
    assert_eq!(node.type_exp, ty(BaseType::Double));
    let toks = lex("{{1, 2}, {3, 4}}");
    let (node, end) = p_initializer(&toks, 0).unwrap();
    assert_eq!(end, toks.len());
    assert_eq!(node.child[0].child.len(), 2);
}

#[test]
fn initializer_list_leaves_trailing_comma() {
    let toks = lex("1, 2, }");
    let (list, end) = p_initializer_list(&toks, 0).unwrap();
    assert_eq!(list.child.len(), 2);
    assert_eq!(end, 3);
}

#[test]
fn designated_initializers() {
    let toks = lex("{ .x = 1, [0] = 2.5, 3 }");
    let (node, end) = p_initializer(&toks, 0).unwrap();
    assert_eq!(end, toks.len());
    let list = &node.child[0];
    // designation, initializer, designation, initializer, initializer
    assert_eq!(list.child.len(), 5);
    assert_eq!(list.child[0].entry, NodeType::Designation);
    assert_eq!(list.child[1].entry, NodeType::Initializer);
    assert_eq!(list.child[2].entry, NodeType::Designation);
    assert_eq!(list.child[4].entry, NodeType::Initializer);
    assert_eq!(
        list.type_exp,
        TypeExpression::composite(vec![
            ty(BaseType::Long),
            ty(BaseType::Double),
            ty(BaseType::Long)
        ])
    );
    let toks = lex(".a.b[1] =");
    let (node, end) = p_designation(&toks, 0).unwrap();
    assert_eq!(end, toks.len());
    assert_eq!(node.child[0].child.len(), 3);
}

#[test]
fn static_assertion() {
    let toks = lex("_Static_assert(1, \"no\");");
    let (node, end) = p_static_assert_declaration(&toks, 0).unwrap();
    assert_eq!(end, toks.len());
    assert_eq!(node.child.len(), 2);
    assert_eq!(node.child[1].entry, NodeType::StringLiteral("no".to_string()));
    assert_eq!(node.type_exp, ty(BaseType::NoneExpression));
    let (declaration, _) = p_declaration(&toks, 0).unwrap();
    assert_eq!(declaration.child[0].entry, NodeType::StaticAssertDeclaration);
}

#[test]
fn closing_brace_takes_one_comma() {
    assert_eq!(check_closing_brace(&lex("}"), 0), Ok(1));
    assert_eq!(check_closing_brace(&lex(", }"), 0), Ok(2));
    assert!(check_closing_brace(&lex(", , }"), 0).is_err());
    assert_eq!(check_closing_brace(&lex(","), 0), Err(ParseError::PositionOutOfRange));
}
