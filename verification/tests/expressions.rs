use c11_parser::ast::{ConstantType, NodeType, ParseNode};
use c11_parser::cursor::{check_pos, check_tok, is_symbol, symbol_at};
use c11_parser::error::{Expected, ParseError};
use c11_parser::parser::expr::{
    p_additive_expression, p_argument_expression_list, p_assignment_expression,
    p_cast_expression, p_conditional_expression, p_constant, p_expression, p_generic_selection,
    p_identifier, p_logical_or_expression, p_multiplicative_expression, p_postfix_expression,
    p_postfix_expression_post, p_primary_expression, p_relational_expression, p_string,
    p_unary_expression,
};
use c11_parser::parser::{p_binary_level, parse_rule};
use c11_parser::rule::Rule;
use c11_parser::token::{Encoding, Symbol, Token};
use c11_parser::types::{BaseType, TypeExpression};

fn keyword(word: &str) -> Option<Symbol> {
    Some(match word {
        "auto" => Symbol::Auto,
        "break" => Symbol::Break,
        "case" => Symbol::Case,
        "char" => Symbol::Char,
        "const" => Symbol::Const,
        "continue" => Symbol::Continue,
        "default" => Symbol::Default,
        "do" => Symbol::Do,
        "double" => Symbol::Double,
        "else" => Symbol::Else,
        "enum" => Symbol::Enum,
        "extern" => Symbol::Extern,
        "float" => Symbol::Float,
        "for" => Symbol::For,
        "goto" => Symbol::Goto,
        "if" => Symbol::If,
        "inline" => Symbol::Inline,
        "int" => Symbol::Int,
        "long" => Symbol::Long,
        "register" => Symbol::Register,
        "restrict" => Symbol::Restrict,
        "return" => Symbol::Return,
        "short" => Symbol::Short,
        "signed" => Symbol::Signed,
        "sizeof" => Symbol::Sizeof,
        "static" => Symbol::Static,
        "struct" => Symbol::Struct,
        "switch" => Symbol::Switch,
        "typedef" => Symbol::Typedef,
        "union" => Symbol::Union,
        "unsigned" => Symbol::Unsigned,
        "void" => Symbol::Void,
        "volatile" => Symbol::Volatile,
        "while" => Symbol::While,
        "_Alignas" => Symbol::Alignas,
        "_Alignof" => Symbol::Alignof,
        "_Atomic" => Symbol::Atomic,
        "_Bool" => Symbol::Bool,
        "_Complex" => Symbol::Complex,
        "_Generic" => Symbol::Generic,
        "_Imaginary" => Symbol::Imaginary,
        "_Noreturn" => Symbol::Noreturn,
        "_Static_assert" => Symbol::StaticAssert,
        "_Thread_local" => Symbol::ThreadLocal,
        "__func__" => Symbol::FuncName,
        _ => return None,
    })
}

fn punctuator(text: &str) -> Option<Symbol> {
    Some(match text {
        "..." => Symbol::Ellipsis,
        "<<=" => Symbol::ShlAssign,
        ">>=" => Symbol::ShrAssign,
        "->" => Symbol::Arrow,
        "++" => Symbol::Increment,
        "--" => Symbol::Decrement,
        "<<" => Symbol::ShiftLeft,
        ">>" => Symbol::ShiftRight,
        "<=" => Symbol::LessEqual,
        ">=" => Symbol::GreaterEqual,
        "==" => Symbol::EqualEqual,
        "!=" => Symbol::NotEqual,
        "&&" => Symbol::AndAnd,
        "||" => Symbol::OrOr,
        "*=" => Symbol::MulAssign,
        "/=" => Symbol::DivAssign,
        "%=" => Symbol::ModAssign,
        "+=" => Symbol::AddAssign,
        "-=" => Symbol::SubAssign,
        "&=" => Symbol::AndAssign,
        "^=" => Symbol::XorAssign,
        "|=" => Symbol::OrAssign,
        "(" => Symbol::LParen,
        ")" => Symbol::RParen,
        "{" => Symbol::LBrace,
        "}" => Symbol::RBrace,
        "[" => Symbol::LBracket,
        "]" => Symbol::RBracket,
        "," => Symbol::Comma,
        ";" => Symbol::Semicolon,
        ":" => Symbol::Colon,
        "." => Symbol::Dot,
        "&" => Symbol::Ampersand,
        "*" => Symbol::Star,
        "+" => Symbol::Plus,
        "-" => Symbol::Minus,
        "~" => Symbol::Tilde,
        "!" => Symbol::Bang,
        "/" => Symbol::Slash,
        "%" => Symbol::Percent,
        "<" => Symbol::Less,
        ">" => Symbol::Greater,
        "^" => Symbol::Caret,
        "|" => Symbol::Pipe,
        "?" => Symbol::Question,
        "=" => Symbol::Assign,
        _ => return None,
    })
}

/// Splits a piece of C into tokens; enough of a lexer for these tests.
fn lex(src: &str) -> Vec<Token> {
    let chars: Vec<char> = src.chars().collect();
    let mut toks = Vec::new();
    let mut i = 0;
    while i < chars.len() {
        let c = chars[i];
        if c.is_whitespace() {
            i += 1;
        } else if c.is_ascii_alphabetic() || c == '_' {
            let start = i;
            while i < chars.len() && (chars[i].is_ascii_alphanumeric() || chars[i] == '_') {
                i += 1;
            }
            let word: String = chars[start..i].iter().collect();
            match keyword(&word) {
                Some(s) => toks.push(Token::Symbol(s)),
                None => toks.push(Token::Identifier(word)),
            }
        } else if c.is_ascii_digit() {
            let start = i;
            while i < chars.len() && (chars[i].is_ascii_digit() || chars[i] == '.') {
                i += 1;
            }
            let text: String = chars[start..i].iter().collect();
            if text.contains('.') {
                toks.push(Token::FloatConstant(text.parse::<f64>().unwrap().to_bits()));
            } else {
                toks.push(Token::IntConstant(text.parse::<i64>().unwrap()));
            }
        } else if c == '"' {
            let start = i + 1;
            i += 1;
            while chars[i] != '"' {
                i += 1;
            }
            toks.push(Token::StringLiteral(chars[start..i].iter().collect(), Encoding::Plain));
            i += 1;
        } else {
            let mut found = false;
            for len in [3usize, 2, 1] {
                if i + len <= chars.len() {
                    let text: String = chars[i..i + len].iter().collect();
                    if let Some(s) = punctuator(&text) {
                        toks.push(Token::Symbol(s));
                        i += len;
                        found = true;
                        break;
                    }
                }
            }
            assert!(found, "no token at {}", i);
        }
    }
    toks
}

/// The first node, in depth-first order, of the production with the given
/// name.
fn first_of<'a>(node: &'a ParseNode, name: &str) -> Option<&'a ParseNode> {
    if node.entry.name() == name {
        return Some(node);
    }
    for child in &node.child {
        if let Some(found) = first_of(child, name) {
            return Some(found);
        }
    }
    None
}

fn ty(tag: BaseType) -> TypeExpression {
    TypeExpression::new_val(tag)
}

#[test]
fn integer_constant_is_typed_long() {
    let toks = lex("1");
    let (node, end) = p_constant(&toks, 0).unwrap();
    assert_eq!(end, 1);
    assert_eq!(node.entry, NodeType::Constant(ConstantType::Integer(1)));
    assert_eq!(node.type_exp, ty(BaseType::Long));
    assert!(node.child.is_empty());
}

#[test]
fn integer_constant_stays_long_up_the_cascade() {
    let toks = lex("1");
    let (node, end) = p_expression(&toks, 0).unwrap();
    assert_eq!(end, 1);
    assert_eq!(node.entry, NodeType::Expression);
    assert_eq!(node.type_exp, ty(BaseType::Long));
    let mut cur = &node;
    let mut depth = 0;
    while cur.child.len() == 1 {
        assert_eq!(cur.type_exp, ty(BaseType::Long));
        cur = &cur.child[0];
        depth += 1;
    }
    assert_eq!(cur.entry, NodeType::Constant(ConstantType::Integer(1)));
    assert_eq!(depth, 17);
}

#[test]
fn large_integer_constant_is_still_long() {
    let toks = vec![Token::IntConstant(i64::MAX)];
    let (node, _) = p_constant(&toks, 0).unwrap();
    assert_eq!(node.type_exp, ty(BaseType::Long));
    assert_ne!(node.type_exp, ty(BaseType::Int));
}

#[test]
fn floating_constant_is_double() {
    let toks = lex("3.0");
    let (node, end) = p_constant(&toks, 0).unwrap();
    assert_eq!(end, 1);
    assert_eq!(node.entry, NodeType::Constant(ConstantType::Floating(3.0f64.to_bits())));
    assert_eq!(node.type_exp, ty(BaseType::Double));
}

#[test]
fn enumeration_constant_token_is_long() {
    let toks = vec![Token::EnumConstant("RED".to_string())];
    let (node, _) = p_constant(&toks, 0).unwrap();
    assert_eq!(node.entry, NodeType::Constant(ConstantType::Enumeration("RED".to_string())));
    assert_eq!(node.type_exp, ty(BaseType::Long));
}

#[test]
fn identifier_carries_its_name() {
    let toks = lex("count");
    let (node, end) = p_identifier(&toks, 0).unwrap();
    assert_eq!(end, 1);
    assert_eq!(node.entry, NodeType::Identifier("count".to_string()));
    assert_eq!(node.type_exp, ty(BaseType::Identifier("count".to_string())));
}

#[test]
fn string_is_an_array_of_its_length() {
    let toks = lex("\"hello\"");
    let (node, end) = p_string(&toks, 0).unwrap();
    assert_eq!(end, 1);
    assert_eq!(node.entry, NodeType::StringLiteral("hello".to_string()));
    assert_eq!(node.type_exp, TypeExpression::new_val2(BaseType::Array(5), BaseType::Char));
}

#[test]
fn string_length_counts_bytes() {
    // one character, two bytes
    let toks = lex("\"\u{e9}\"");
    let (node, _) = p_string(&toks, 0).unwrap();
    assert_eq!(node.entry, NodeType::StringLiteral("\u{e9}".to_string()));
    assert_eq!(node.type_exp, TypeExpression::new_val2(BaseType::Array(2), BaseType::Char));
    // three characters of three bytes each, and two of one
    let toks = vec![Token::StringLiteral("a\u{65e5}\u{672c}\u{8a9e}b".to_string(), Encoding::Utf8)];
    let (node, end) = p_string(&toks, 0).unwrap();
    assert_eq!(end, 1);
    assert_eq!(node.type_exp, TypeExpression::new_val2(BaseType::Array(11), BaseType::Char));
    // four bytes for one character
    let toks = vec![Token::StringLiteral("\u{1f600}".to_string(), Encoding::Utf32)];
    let (node, _) = p_string(&toks, 0).unwrap();
    assert_eq!(node.type_exp, TypeExpression::new_val2(BaseType::Array(4), BaseType::Char));
    // no terminator is counted
    let toks = vec![Token::StringLiteral(String::new(), Encoding::Plain)];
    let (node, _) = p_string(&toks, 0).unwrap();
    assert_eq!(node.type_exp, TypeExpression::new_val2(BaseType::Array(0), BaseType::Char));
}

#[test]
fn encoding_tag_does_not_change_the_string() {
    let plain = vec![Token::StringLiteral("caf\u{e9}".to_string(), Encoding::Plain)];
    let wide = vec![Token::StringLiteral("caf\u{e9}".to_string(), Encoding::Wide)];
    assert_eq!(p_string(&plain, 0), p_string(&wide, 0));
    let (node, _) = p_string(&plain, 0).unwrap();
    assert_eq!(node.type_exp, TypeExpression::new_val2(BaseType::Array(5), BaseType::Char));
}

#[test]
fn func_name_is_the_placeholder() {
    let toks = lex("__func__");
    let (node, _) = p_string(&toks, 0).unwrap();
    assert_eq!(node.entry, NodeType::StringLiteral("__func_name__".to_string()));
    assert_eq!(node.type_exp, TypeExpression::new_val2(BaseType::Array(13), BaseType::Char));
}

#[test]
fn additive_operators_group_to_the_left() {
    let toks = lex("a + b - c");
    let (node, end) = p_additive_expression(&toks, 0).unwrap();
    assert_eq!(end, 5);
    assert_eq!(node.entry, NodeType::AdditiveExpression);
    assert_eq!(node.child.len(), 1);
    let outer = &node.child[0];
    assert_eq!(outer.entry, NodeType::BinaryExpression(Symbol::Minus));
    assert_eq!(outer.child.len(), 2);
    let inner = &outer.child[0];
    assert_eq!(inner.entry, NodeType::BinaryExpression(Symbol::Plus));
    assert_eq!(inner.child[0].entry, NodeType::MultiplicativeExpression);
    assert_eq!(inner.child[1].entry, NodeType::MultiplicativeExpression);
    assert_eq!(
        first_of(&inner.child[0], "Identifier").unwrap().entry,
        NodeType::Identifier("a".to_string())
    );
    assert_eq!(
        first_of(&inner.child[1], "Identifier").unwrap().entry,
        NodeType::Identifier("b".to_string())
    );
    let right = &outer.child[1];
    assert_eq!(right.entry, NodeType::MultiplicativeExpression);
    assert_eq!(
        first_of(right, "Identifier").unwrap().entry,
        NodeType::Identifier("c".to_string())
    );
    assert!(first_of(right, "BinaryExpression").is_none());
}

#[test]
fn multiplicative_operators_group_to_the_left() {
    let toks = lex("8 / 4 * 2 % 3");
    let (node, end) = p_multiplicative_expression(&toks, 0).unwrap();
    assert_eq!(end, 7);
    let top = &node.child[0];
    assert_eq!(top.entry, NodeType::BinaryExpression(Symbol::Percent));
    let mid = &top.child[0];
    assert_eq!(mid.entry, NodeType::BinaryExpression(Symbol::Star));
    let low = &mid.child[0];
    assert_eq!(low.entry, NodeType::BinaryExpression(Symbol::Slash));
    assert_eq!(low.child[0].entry, NodeType::CastExpression);
    assert_eq!(node.type_exp, ty(BaseType::Long));
}

#[test]
fn every_level_groups_to_the_left() {
    let cases = [
        ("a << b >> c", Symbol::ShiftRight, Symbol::ShiftLeft),
        ("a < b >= c", Symbol::GreaterEqual, Symbol::Less),
        ("a == b != c", Symbol::NotEqual, Symbol::EqualEqual),
        ("a & b & c", Symbol::Ampersand, Symbol::Ampersand),
        ("a ^ b ^ c", Symbol::Caret, Symbol::Caret),
        ("a | b | c", Symbol::Pipe, Symbol::Pipe),
        ("a && b && c", Symbol::AndAnd, Symbol::AndAnd),
        ("a || b || c", Symbol::OrOr, Symbol::OrOr),
    ];
    for (src, last, first) in cases {
        let toks = lex(src);
        let (node, end) = p_logical_or_expression(&toks, 0).unwrap();
        assert_eq!(end, 5);
        let outer = first_of(&node, "BinaryExpression").unwrap();
        assert_eq!(outer.entry, NodeType::BinaryExpression(last));
        let inner = first_of(&outer.child[0], "BinaryExpression").unwrap();
        assert_eq!(inner.entry, NodeType::BinaryExpression(first));
        assert!(first_of(&outer.child[1], "BinaryExpression").is_none());
    }
}

#[test]
fn higher_levels_bind_tighter() {
    let toks = lex("1 + 2 * 3");
    let (node, end) = p_additive_expression(&toks, 0).unwrap();
    assert_eq!(end, 5);
    let plus = &node.child[0];
    assert_eq!(plus.entry, NodeType::BinaryExpression(Symbol::Plus));
    assert!(first_of(&plus.child[0], "BinaryExpression").is_none());
    let times = first_of(&plus.child[1], "BinaryExpression").unwrap();
    assert_eq!(times.entry, NodeType::BinaryExpression(Symbol::Star));
}

#[test]
fn lone_operand_keeps_its_type() {
    let toks = lex("3.0");
    let (node, _) = p_logical_or_expression(&toks, 0).unwrap();
    assert_eq!(node.type_exp, ty(BaseType::Double));
    assert_eq!(node.child.len(), 1);
    assert_eq!(node.child[0].entry, NodeType::LogicalAndExpression);
}

#[test]
fn operator_at_the_end_of_the_tokens_fails() {
    let toks = lex("1 +");
    assert_eq!(p_additive_expression(&toks, 0), Err(ParseError::PositionOutOfRange));
}

#[test]
fn mixed_arithmetic_takes_the_wider_type() {
    let toks = lex("1 + 2.0");
    let (node, _) = p_additive_expression(&toks, 0).unwrap();
    assert_eq!(node.type_exp, ty(BaseType::Double));
    let toks = lex("2.0 + 1");
    let (node, _) = p_additive_expression(&toks, 0).unwrap();
    assert_eq!(node.type_exp, ty(BaseType::Double));
}

#[test]
fn comparison_is_int() {
    let toks = lex("1 < 2.0");
    let (node, _) = p_relational_expression(&toks, 0).unwrap();
    assert_eq!(node.type_exp, ty(BaseType::Int));
}

#[test]
fn remainder_of_a_double_is_rejected() {
    let toks = lex("1 % 2.0");
    assert_eq!(
        p_multiplicative_expression(&toks, 0),
        Err(ParseError::IllegalTypeCombination {
            left: ty(BaseType::Long),
            right: ty(BaseType::Double),
            operator: Symbol::Percent,
        })
    );
}

#[test]
fn argument_list_leaves_trailing_comma() {
    // f ( a , b , )
    let toks = lex("f(a, b,)");
    let (list, end) = p_argument_expression_list(&toks, 2).unwrap();
    assert_eq!(list.entry, NodeType::ArgumentExpressionList);
    assert_eq!(list.child.len(), 2);
    assert_eq!(end, 5);
    assert_eq!(toks[end], Token::Symbol(Symbol::Comma));
    assert_eq!(
        first_of(&list.child[0], "Identifier").unwrap().entry,
        NodeType::Identifier("a".to_string())
    );
    assert_eq!(
        first_of(&list.child[1], "Identifier").unwrap().entry,
        NodeType::Identifier("b".to_string())
    );
}

#[test]
fn call_with_trailing_comma_is_rejected_by_the_call() {
    let toks = lex("f(a, b,)");
    assert_eq!(
        p_postfix_expression_post(&toks, 1),
        Err(ParseError::UnexpectedToken {
            expected: Expected::Symbol(Symbol::RParen),
            found: Token::Symbol(Symbol::Comma),
            position: 5,
        })
    );
    // the postfix expression then is `f` alone
    let (node, end) = p_postfix_expression(&toks, 0).unwrap();
    assert_eq!(end, 1);
    assert_eq!(node.child.len(), 1);
}

#[test]
fn argument_list_without_trailing_comma() {
    let toks = lex("f(a, b, c)");
    let (list, end) = p_argument_expression_list(&toks, 2).unwrap();
    assert_eq!(list.child.len(), 3);
    assert_eq!(end, 7);
    let (call, end) = p_postfix_expression(&toks, 0).unwrap();
    assert_eq!(end, 8);
    assert_eq!(call.child.len(), 2);
    assert_eq!(call.child[1].entry, NodeType::PostfixExpressionPost(Symbol::LParen));
}

#[test]
fn single_argument_list_has_the_argument_type() {
    let toks = lex("1");
    let (list, _) = p_argument_expression_list(&toks, 0).unwrap();
    assert_eq!(list.child.len(), 1);
    assert_eq!(list.type_exp, ty(BaseType::Long));
    let toks = lex("1, 2.0");
    let (list, _) = p_argument_expression_list(&toks, 0).unwrap();
    assert_eq!(
        list.type_exp,
        TypeExpression::pair(ty(BaseType::Long), ty(BaseType::Double))
    );
}

#[test]
fn comma_expression_has_the_last_type() {
    let toks = lex("1, 2.0");
    let (node, end) = p_expression(&toks, 0).unwrap();
    assert_eq!(end, 3);
    assert_eq!(node.child.len(), 2);
    assert_eq!(node.type_exp, ty(BaseType::Double));
}

#[test]
fn ternary_type_mismatch_is_rejected() {
    let toks = lex("1 ? 2 : 3.0");
    assert_eq!(
        p_conditional_expression(&toks, 0),
        Err(ParseError::IllegalTypeCombination {
            left: ty(BaseType::Long),
            right: ty(BaseType::Double),
            operator: Symbol::Colon,
        })
    );
    assert!(p_expression(&toks, 0).is_err());
}

#[test]
fn ternary_type_match_succeeds() {
    let toks = lex("1 ? 2 : 3");
    let (node, end) = p_conditional_expression(&toks, 0).unwrap();
    assert_eq!(end, 5);
    assert_eq!(node.entry, NodeType::ConditionalExpression);
    assert_eq!(node.child.len(), 3);
    assert_eq!(node.type_exp, ty(BaseType::Long));
}

#[test]
fn ternary_condition_must_be_a_condition_type() {
    let toks = lex("1.5 ? 2 : 3");
    assert_eq!(
        p_conditional_expression(&toks, 0),
        Err(ParseError::IllegalTypeCombination {
            left: ty(BaseType::Double),
            right: ty(BaseType::Int),
            operator: Symbol::Question,
        })
    );
}

#[test]
fn ternary_nests_to_the_right() {
    let toks = lex("a ? 1 : b ? 2 : 3");
    let (node, end) = p_conditional_expression(&toks, 0).unwrap();
    assert_eq!(end, 9);
    assert_eq!(node.child.len(), 3);
    assert_eq!(node.child[2].entry, NodeType::ConditionalExpression);
    assert_eq!(node.child[2].child.len(), 3);
}

#[test]
fn cast_to_int_succeeds() {
    let toks = lex("(int)(1)");
    let (node, end) = p_cast_expression(&toks, 0).unwrap();
    assert_eq!(end, 6);
    assert_eq!(node.entry, NodeType::CastExpression);
    assert_eq!(node.child.len(), 2);
    assert_eq!(node.child[0].entry, NodeType::TypeName);
    assert_eq!(node.child[1].entry, NodeType::CastExpression);
    assert_eq!(node.type_exp, ty(BaseType::Int));
}

#[test]
fn cast_to_a_structure_is_rejected() {
    let toks = lex("(struct S)(1)");
    let result = p_cast_expression(&toks, 0);
    assert_eq!(
        result,
        Err(ParseError::IllegalCast {
            from: ty(BaseType::Long),
            to: TypeExpression::pair(
                ty(BaseType::Struct),
                ty(BaseType::Identifier("S".to_string()))
            ),
        })
    );
    assert!(p_expression(&toks, 0).is_err());
}

#[test]
fn cast_of_a_pointer_to_double_is_rejected() {
    let toks = lex("(double)&a");
    assert!(matches!(p_cast_expression(&toks, 0), Err(ParseError::IllegalCast { .. })));
    let toks = lex("(long)&a");
    let (node, _) = p_cast_expression(&toks, 0).unwrap();
    assert_eq!(node.type_exp, ty(BaseType::Long));
}

#[test]
fn cast_to_void_is_always_allowed() {
    let toks = lex("(void)1.5");
    let (node, _) = p_cast_expression(&toks, 0).unwrap();
    assert_eq!(node.type_exp, ty(BaseType::Void));
}

#[test]
fn address_of_is_a_pointer_to_the_operand() {
    let toks = lex("&1");
    let (node, end) = p_unary_expression(&toks, 0).unwrap();
    assert_eq!(end, 2);
    assert_eq!(node.entry, NodeType::UnaryExpression(None));
    assert_eq!(node.child[0].entry, NodeType::UnaryOperator(Symbol::Ampersand));
    assert_eq!(
        node.type_exp,
        TypeExpression::tagged(BaseType::Pointer, vec![ty(BaseType::Long)])
    );
}

#[test]
fn dereference_is_a_pointer_to_no_particular_type() {
    let toks = lex("*p");
    let (node, _) = p_unary_expression(&toks, 0).unwrap();
    assert_eq!(
        node.type_exp,
        TypeExpression::new_val2(BaseType::Pointer, BaseType::VoidPointer)
    );
}

#[test]
fn other_unary_operators_keep_the_operand_type() {
    for src in ["-1.5", "+1.5", "!1.5", "~1.5"] {
        let toks = lex(src);
        let (node, end) = p_unary_expression(&toks, 0).unwrap();
        assert_eq!(end, 2);
        assert_eq!(node.type_exp, ty(BaseType::Double));
    }
}

#[test]
fn increment_keeps_the_operand_type() {
    let toks = lex("++a");
    let (node, end) = p_unary_expression(&toks, 0).unwrap();
    assert_eq!(end, 2);
    assert_eq!(node.entry, NodeType::UnaryExpression(Some(Symbol::Increment)));
    assert_eq!(node.type_exp, ty(BaseType::Identifier("a".to_string())));
}

#[test]
fn sizeof_is_the_size_type() {
    for src in ["sizeof 1.5", "sizeof(int)", "sizeof(x)", "_Alignof(double)"] {
        let toks = lex(src);
        let (node, end) = p_unary_expression(&toks, 0).unwrap();
        assert_eq!(end, toks.len());
        assert_eq!(node.type_exp, ty(BaseType::SizeT));
        assert_eq!(node.child.len(), 1);
    }
    let toks = lex("sizeof(int)");
    let (node, _) = p_unary_expression(&toks, 0).unwrap();
    assert_eq!(node.entry, NodeType::UnaryExpression(Some(Symbol::Sizeof)));
    assert_eq!(node.child[0].entry, NodeType::TypeName);
    let toks = lex("sizeof(x)");
    let (node, _) = p_unary_expression(&toks, 0).unwrap();
    assert_eq!(node.child[0].entry, NodeType::UnaryExpression(None));
}

#[test]
fn alignof_needs_a_parenthesized_type() {
    let toks = lex("_Alignof x");
    assert_eq!(
        p_unary_expression(&toks, 0),
        Err(ParseError::UnexpectedToken {
            expected: Expected::Symbol(Symbol::LParen),
            found: Token::Identifier("x".to_string()),
            position: 1,
        })
    );
}

#[test]
fn assignment_takes_the_converted_type() {
    let toks = lex("a = 1");
    let (node, end) = p_assignment_expression(&toks, 0).unwrap();
    assert_eq!(end, 3);
    assert_eq!(node.child.len(), 3);
    assert_eq!(node.child[0].entry, NodeType::UnaryExpression(None));
    assert_eq!(node.child[1].entry, NodeType::AssignmentOperator(Symbol::Assign));
    assert_eq!(node.child[2].entry, NodeType::AssignmentExpression);
    assert_eq!(node.type_exp, ty(BaseType::Long));
}

#[test]
fn assignment_is_right_associative() {
    let toks = lex("a = b += 1");
    let (node, end) = p_assignment_expression(&toks, 0).unwrap();
    assert_eq!(end, 5);
    assert_eq!(node.child.len(), 3);
    assert_eq!(node.child[2].child.len(), 3);
    assert_eq!(node.child[2].child[1].entry, NodeType::AssignmentOperator(Symbol::AddAssign));
}

#[test]
fn illegal_assignment_is_rejected() {
    let toks = lex("&a = 1.5");
    assert_eq!(
        p_assignment_expression(&toks, 0),
        Err(ParseError::IllegalAssignment {
            left: TypeExpression::tagged(
                BaseType::Pointer,
                vec![ty(BaseType::Identifier("a".to_string()))]
            ),
            right: ty(BaseType::Double),
        })
    );
}

#[test]
fn without_an_operator_it_is_a_conditional_expression() {
    let toks = lex("a + 1");
    let (node, end) = p_assignment_expression(&toks, 0).unwrap();
    assert_eq!(end, 3);
    assert_eq!(node.child.len(), 1);
    assert_eq!(node.child[0].entry, NodeType::ConditionalExpression);
}

#[test]
fn postfix_suffixes_follow_the_primary() {
    let toks = lex("a[1].b->c++");
    let (node, end) = p_postfix_expression(&toks, 0).unwrap();
    assert_eq!(end, toks.len());
    assert_eq!(node.child.len(), 5);
    assert_eq!(node.child[0].entry, NodeType::PrimaryExpression);
    assert_eq!(node.child[1].entry, NodeType::PostfixExpressionPost(Symbol::LBracket));
    assert_eq!(node.child[2].entry, NodeType::PostfixExpressionPost(Symbol::Dot));
    assert_eq!(node.child[3].entry, NodeType::PostfixExpressionPost(Symbol::Arrow));
    assert_eq!(node.child[4].entry, NodeType::PostfixExpressionPost(Symbol::Increment));
}

#[test]
fn postfix_type_is_that_of_the_primary() {
    // without a suffix: the type of the primary expression
    let toks = lex("a");
    let (node, _) = p_postfix_expression(&toks, 0).unwrap();
    assert_eq!(node.type_exp, ty(BaseType::Identifier("a".to_string())));
    // with suffixes: a composite of that type alone
    for src in ["a[1]", "a++", "f(1, 2.0)(3).x->y--"] {
        let toks = lex(src);
        let (node, end) = p_postfix_expression(&toks, 0).unwrap();
        assert_eq!(end, toks.len());
        assert!(node.child.len() > 1);
        assert!(node.type_exp.val.is_empty());
        assert_eq!(node.type_exp.child, vec![node.child[0].type_exp.duplicate()]);
    }
    let toks = lex("1[a]");
    let (node, _) = p_postfix_expression(&toks, 0).unwrap();
    assert_eq!(node.type_exp, TypeExpression::composite(vec![ty(BaseType::Long)]));
}

#[test]
fn compound_literal_is_a_postfix_expression() {
    let toks = lex("(int){1, 2,}");
    let (node, end) = p_postfix_expression(&toks, 0).unwrap();
    assert_eq!(end, toks.len());
    assert_eq!(node.child.len(), 2);
    assert_eq!(node.child[0].entry, NodeType::TypeName);
    assert_eq!(node.child[1].entry, NodeType::InitializerList);
    assert_eq!(node.child[1].child.len(), 2);
    // the types of all its children, suffixes included
    let toks = lex("(int){1}.x");
    let (node, end) = p_postfix_expression(&toks, 0).unwrap();
    assert_eq!(end, toks.len());
    assert_eq!(node.child.len(), 3);
    assert_eq!(
        node.type_exp,
        TypeExpression::composite(vec![
            ty(BaseType::Int),
            ty(BaseType::Long),
            ty(BaseType::Identifier("x".to_string())),
        ])
    );
}

#[test]
fn parenthesized_expression_is_primary() {
    let toks = lex("(1 + 2)");
    let (node, end) = p_primary_expression(&toks, 0).unwrap();
    assert_eq!(end, 5);
    assert_eq!(node.child[0].entry, NodeType::Expression);
    assert_eq!(node.type_exp, ty(BaseType::Long));
    let toks = lex("(1 + 2");
    assert_eq!(p_primary_expression(&toks, 0), Err(ParseError::PositionOutOfRange));
}

#[test]
fn generic_selection_reads_its_associations() {
    let toks = lex("_Generic(x, int: 1, default: 2.0)");
    let (node, end) = p_generic_selection(&toks, 0).unwrap();
    assert_eq!(end, toks.len());
    assert_eq!(node.child.len(), 2);
    assert_eq!(node.child[1].entry, NodeType::GenericAssocList);
    assert_eq!(node.child[1].child.len(), 2);
    assert_eq!(node.child[1].child[0].child.len(), 2);
    assert_eq!(node.child[1].child[1].child.len(), 1);
    assert_eq!(node.child[1].child[1].type_exp, ty(BaseType::Double));
}

#[test]
fn out_of_range_position_fails() {
    let toks = lex("1");
    assert_eq!(p_expression(&toks, 1), Err(ParseError::PositionOutOfRange));
    assert_eq!(p_expression(&toks, 7), Err(ParseError::PositionOutOfRange));
    assert_eq!(p_constant(&[], 0), Err(ParseError::PositionOutOfRange));
    assert_eq!(check_pos(0, 0), Err(ParseError::PositionOutOfRange));
    assert_eq!(check_pos(0, 1), Ok(()));
}

#[test]
fn unexpected_token_names_what_was_found() {
    let toks = lex("1");
    assert_eq!(
        p_identifier(&toks, 0),
        Err(ParseError::UnexpectedToken {
            expected: Expected::Rule(Rule::Identifier),
            found: Token::IntConstant(1),
            position: 0,
        })
    );
    assert_eq!(
        check_tok(0, &toks, Symbol::Semicolon),
        Err(ParseError::UnexpectedToken {
            expected: Expected::Symbol(Symbol::Semicolon),
            found: Token::IntConstant(1),
            position: 0,
        })
    );
    assert_eq!(check_tok(1, &toks, Symbol::Semicolon), Err(ParseError::PositionOutOfRange));
}

#[test]
fn no_viable_alternative_names_the_production() {
    let toks = lex(";");
    assert_eq!(
        p_primary_expression(&toks, 0),
        Err(ParseError::NoViableAlternative { rule: Rule::PrimaryExpression, position: 0 })
    );
}

#[test]
fn checks_do_not_move_the_position() {
    let toks = lex("( )");
    assert_eq!(check_tok(0, &toks, Symbol::LParen), Ok(()));
    assert_eq!(check_tok(0, &toks, Symbol::LParen), Ok(()));
    assert!(is_symbol(&toks, 1, Symbol::RParen));
    assert!(!is_symbol(&toks, 2, Symbol::RParen));
    assert_eq!(symbol_at(&toks, 0), Some(Symbol::LParen));
    assert_eq!(symbol_at(&toks, 2), None);
}

#[test]
fn failed_alternative_leaves_nothing_behind() {
    // `( int ) ...` first fails as a parenthesized expression, then is read
    // again from the same position as a cast
    let toks = lex("(int)x");
    assert!(p_unary_expression(&toks, 0).is_err());
    let (node, end) = p_cast_expression(&toks, 0).unwrap();
    assert_eq!(end, 4);
    assert_eq!(node.child.len(), 2);
}

#[test]
fn dispatcher_agrees_with_the_named_parsers() {
    let toks = lex("a + b * (c - 1)");
    assert_eq!(parse_rule(&toks, 0, Rule::Expression), p_expression(&toks, 0));
    assert_eq!(
        parse_rule(&toks, 0, Rule::AdditiveExpression),
        p_additive_expression(&toks, 0)
    );
    assert_eq!(parse_rule(&toks, 4, Rule::PrimaryExpression), p_primary_expression(&toks, 4));
    assert_eq!(
        p_binary_level(&toks, 0, Rule::Expression),
        Err(ParseError::NoViableAlternative { rule: Rule::Expression, position: 0 })
    );
}

#[test]
fn parsing_twice_gives_the_same_tree() {
    let toks = lex("a = b ? c + 1 : d * 2");
    let first = p_expression(&toks, 0);
    let second = p_expression(&toks, 0);
    assert!(first.is_ok());
    assert_eq!(first, second);
    let again = lex("a = b ? c + 1 : d * 2");
    assert_eq!(first, p_expression(&again, 0));
}
