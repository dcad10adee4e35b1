use c11_parser::ast::{Label, NodeType, ParseNode};
use c11_parser::error::{Expected, ParseError};
use c11_parser::parser::stmt::{
    p_compound_statement, p_external_declaration, p_function_definition,
    p_iteration_statement, p_jump_statement, p_labeled_statement, p_selection_statement,
    p_statement, p_translation_unit,
};
use c11_parser::parser::parser_driver;
use c11_parser::rule::Rule;
use c11_parser::token::{Encoding, Symbol, Token};
use c11_parser::types::{BaseType, TypeExpression};

fn keyword(word: &str) -> Option<Symbol> {
    Some(match word {
        "auto" => Symbol::Auto,
        "break" => Symbol::Break,
        "case" => Symbol::Case,
        "char" => Symbol::Char,
        "const" => Symbol::Const,
        "continue" => Symbol::Continue,
        "default" => Symbol::Default,
        "do" => Symbol::Do,
        "double" => Symbol::Double,
        "else" => Symbol::Else,
        "enum" => Symbol::Enum,
        "extern" => Symbol::Extern,
        "float" => Symbol::Float,
        "for" => Symbol::For,
        "goto" => Symbol::Goto,
        "if" => Symbol::If,
        "inline" => Symbol::Inline,
        "int" => Symbol::Int,
        "long" => Symbol::Long,
        "register" => Symbol::Register,
        "restrict" => Symbol::Restrict,
        "return" => Symbol::Return,
        "short" => Symbol::Short,
        "signed" => Symbol::Signed,
        "sizeof" => Symbol::Sizeof,
        "static" => Symbol::Static,
        "struct" => Symbol::Struct,
        "switch" => Symbol::Switch,
        "typedef" => Symbol::Typedef,
        "union" => Symbol::Union,
        "unsigned" => Symbol::Unsigned,
        "void" => Symbol::Void,
        "volatile" => Symbol::Volatile,
        "while" => Symbol::While,
        "_Alignas" => Symbol::Alignas,
        "_Alignof" => Symbol::Alignof,
        "_Atomic" => Symbol::Atomic,
        "_Bool" => Symbol::Bool,
        "_Complex" => Symbol::Complex,
        "_Generic" => Symbol::Generic,
        "_Imaginary" => Symbol::Imaginary,
        "_Noreturn" => Symbol::Noreturn,
        "_Static_assert" => Symbol::StaticAssert,
        "_Thread_local" => Symbol::ThreadLocal,
        "__func__" => Symbol::FuncName,
        _ => return None,
    })
}

fn punctuator(text: &str) -> Option<Symbol> {
    Some(match text {
        "..." => Symbol::Ellipsis,
        "<<=" => Symbol::ShlAssign,
        ">>=" => Symbol::ShrAssign,
        "->" => Symbol::Arrow,
        "++" => Symbol::Increment,
        "--" => Symbol::Decrement,
        "<<" => Symbol::ShiftLeft,
        ">>" => Symbol::ShiftRight,
        "<=" => Symbol::LessEqual,
        ">=" => Symbol::GreaterEqual,
        "==" => Symbol::EqualEqual,
        "!=" => Symbol::NotEqual,
        "&&" => Symbol::AndAnd,
        "||" => Symbol::OrOr,
        "*=" => Symbol::MulAssign,
        "/=" => Symbol::DivAssign,
        "%=" => Symbol::ModAssign,
        "+=" => Symbol::AddAssign,
        "-=" => Symbol::SubAssign,
        "&=" => Symbol::AndAssign,
        "^=" => Symbol::XorAssign,
        "|=" => Symbol::OrAssign,
        "(" => Symbol::LParen,
        ")" => Symbol::RParen,
        "{" => Symbol::LBrace,
        "}" => Symbol::RBrace,
        "[" => Symbol::LBracket,
        "]" => Symbol::RBracket,
        "," => Symbol::Comma,
        ";" => Symbol::Semicolon,
        ":" => Symbol::Colon,
        "." => Symbol::Dot,
        "&" => Symbol::Ampersand,
        "*" => Symbol::Star,
        "+" => Symbol::Plus,
        "-" => Symbol::Minus,
        "~" => Symbol::Tilde,
        "!" => Symbol::Bang,
        "/" => Symbol::Slash,
        "%" => Symbol::Percent,
        "<" => Symbol::Less,
        ">" => Symbol::Greater,
        "^" => Symbol::Caret,
        "|" => Symbol::Pipe,
        "?" => Symbol::Question,
        "=" => Symbol::Assign,
        _ => return None,
    })
}

/// Splits a piece of C into tokens; enough of a lexer for these tests.
fn lex(src: &str) -> Vec<Token> {
    let chars: Vec<char> = src.chars().collect();
    let mut toks = Vec::new();
    let mut i = 0;
    while i < chars.len() {
        let c = chars[i];
        if c.is_whitespace() {
            i += 1;
        } else if c.is_ascii_alphabetic() || c == '_' {
            let start = i;
            while i < chars.len() && (chars[i].is_ascii_alphanumeric() || chars[i] == '_') {
                i += 1;
            }
            let word: String = chars[start..i].iter().collect();
            match keyword(&word) {
                Some(s) => toks.push(Token::Symbol(s)),
                None => toks.push(Token::Identifier(word)),
            }
        } else if c.is_ascii_digit() {
            let start = i;
            while i < chars.len() && (chars[i].is_ascii_digit() || chars[i] == '.') {
                i += 1;
            }
            let text: String = chars[start..i].iter().collect();
            if text.contains('.') {
                toks.push(Token::FloatConstant(text.parse::<f64>().unwrap().to_bits()));
            } else {
                toks.push(Token::IntConstant(text.parse::<i64>().unwrap()));
            }
        } else if c == '"' {
            let start = i + 1;
            i += 1;
            while chars[i] != '"' {
                i += 1;
            }
            toks.push(Token::StringLiteral(chars[start..i].iter().collect(), Encoding::Plain));
            i += 1;
        } else {
            let mut found = false;
            for len in [3usize, 2, 1] {
                if i + len <= chars.len() {
                    let text: String = chars[i..i + len].iter().collect();
                    if let Some(s) = punctuator(&text) {
                        toks.push(Token::Symbol(s));
                        i += len;
                        found = true;
                        break;
                    }
                }
            }
            assert!(found, "no token at {}", i);
        }
    }
    toks
}

/// The first node, in depth-first order, of the production with the given
/// name.
fn first_of<'a>(node: &'a ParseNode, name: &str) -> Option<&'a ParseNode> {
    if node.entry.name() == name {
        return Some(node);
    }
    for child in &node.child {
        if let Some(found) = first_of(child, name) {
            return Some(found);
        }
    }
    None
}

fn ty(tag: BaseType) -> TypeExpression {
    TypeExpression::new_val(tag)
}

#[test]
fn whole_program() {
    let src = "int limit = 10;
        int sum(int n) {
            int total = 0;
            for (int i = 0; i < n; ++i) {
                if (i % 2 == 0) total += i; else continue;
            }
            while (total > limit) total = total - 1;
            do { total++; } while (total < 3);
            switch (total) { case 1: return 1; default: break; }
            done: return total;
        }";
    let toks = lex(src);
    let tree = parser_driver(&toks, "sum.c").unwrap();
    assert_eq!(tree.entry, NodeType::TranslationUnit);
    assert_eq!(tree.child.len(), 2);
    assert_eq!(tree.child[0].child[0].entry, NodeType::Declaration);
    assert_eq!(tree.child[1].child[0].entry, NodeType::FunctionDefinition);
    assert_eq!(tree.type_exp.child.len(), 2);
    assert_eq!(tree.child[1].type_exp.val, vec![BaseType::Function]);
}

#[test]
fn every_node_carries_a_type() {
    fn check(node: &ParseNode) {
        assert!(!node.type_exp.is_empty(), "{:?} has no type", node.entry);
        for child in &node.child {
            check(child);
        }
    }
    let toks = lex(
        "struct s { int a : 2; } v = { .a = 1 };
         enum e { A, B = 2 };
         int f(int x, ...) { x = _Generic(x, int: f(x, 1), default: sizeof(int)); return x++; }",
    );
    let tree = parser_driver(&toks, "t.c").unwrap();
    check(&tree);
}

#[test]
fn trailing_tokens_fail_the_parse() {
    let toks = lex("int a; )");
    assert_eq!(
        parser_driver(&toks, "bad.c"),
        Err(ParseError::TrailingTokens { source: "bad.c".to_string(), position: 3 })
    );
    // the translation unit itself ends before the stray token
    let (unit, end) = p_translation_unit(&toks, 0).unwrap();
    assert_eq!(end, 3);
    assert_eq!(unit.child.len(), 1);
    let toks = lex("int a; int b; 42");
    assert_eq!(
        parser_driver(&toks, "worse.c"),
        Err(ParseError::TrailingTokens { source: "worse.c".to_string(), position: 6 })
    );
}

#[test]
fn source_without_a_declaration_fails() {
    assert_eq!(parser_driver(&[], "empty.c"), Err(ParseError::PositionOutOfRange));
    let toks = lex(")");
    assert!(parser_driver(&toks, "paren.c").is_err());
}

#[test]
fn driver_is_deterministic() {
    let toks = lex("int main() { return 0; }");
    let first = parser_driver(&toks, "main.c");
    let second = parser_driver(&lex("int main() { return 0; }"), "main.c");
    assert!(first.is_ok());
    assert_eq!(first, second);
}

#[test]
fn return_has_the_type_of_its_expression() {
    let toks = lex("return 1.5;");
    let (node, end) = p_jump_statement(&toks, 0).unwrap();
    assert_eq!(end, 3);
    assert_eq!(node.entry, NodeType::JumpStatement(Symbol::Return, None));
    assert_eq!(node.type_exp, ty(BaseType::Double));
    let (statement, _) = p_statement(&toks, 0).unwrap();
    assert_eq!(statement.type_exp, ty(BaseType::Double));
    let toks = lex("return;");
    let (node, end) = p_jump_statement(&toks, 0).unwrap();
    assert_eq!(end, 2);
    assert_eq!(node.type_exp, ty(BaseType::NoneExpression));
}

#[test]
fn return_needs_its_semicolon() {
    let toks = lex("return 1 }");
    assert_eq!(
        p_jump_statement(&toks, 0),
        Err(ParseError::UnexpectedToken {
            expected: Expected::Symbol(Symbol::Semicolon),
            found: Token::Symbol(Symbol::RBrace),
            position: 2,
        })
    );
}

#[test]
fn jumps() {
    let toks = lex("goto out;");
    let (node, end) = p_jump_statement(&toks, 0).unwrap();
    assert_eq!(end, 3);
    assert_eq!(node.entry, NodeType::JumpStatement(Symbol::Goto, Some("out".to_string())));
    assert_eq!(node.type_exp, ty(BaseType::NoneExpression));
    let toks = lex("continue;");
    let (node, _) = p_jump_statement(&toks, 0).unwrap();
    assert_eq!(node.entry, NodeType::JumpStatement(Symbol::Continue, None));
    let toks = lex("break;");
    let (node, _) = p_jump_statement(&toks, 0).unwrap();
    assert_eq!(node.entry, NodeType::JumpStatement(Symbol::Break, None));
    let toks = lex("goto 1;");
    assert_eq!(
        p_jump_statement(&toks, 0),
        Err(ParseError::UnexpectedToken {
            expected: Expected::Rule(Rule::Identifier),
            found: Token::IntConstant(1),
            position: 1,
        })
    );
    assert_eq!(p_jump_statement(&lex("goto"), 0), Err(ParseError::PositionOutOfRange));
}

#[test]
fn statements_other_than_return_have_no_type() {
    for src in [
        "x = 1;",
        ";",
        "{ }",
        "{ x = 1; y = 2; }",
        "if (x) y = 1;",
        "if (x) y = 1; else y = 2;",
        "switch (x) { }",
        "while (x) x = x - 1;",
        "do x = 1; while (x);",
        "for (;;) ;",
        "for (i = 0; i < 3; i++) ;",
        "for (int i = 0; i < 3;) ;",
        "label: x = 1;",
        "case 1: x = 1;",
        "default: ;",
    ] {
        let toks = lex(src);
        let (node, end) = p_statement(&toks, 0).unwrap();
        assert_eq!(end, toks.len(), "{}", src);
        assert_eq!(node.entry, NodeType::Statement);
        assert_eq!(node.type_exp, ty(BaseType::NoneExpression), "{}", src);
    }
}

#[test]
fn selection_statements() {
    let toks = lex("if (a) b = 1; else b = 2;");
    let (node, _) = p_selection_statement(&toks, 0).unwrap();
    assert_eq!(node.entry, NodeType::SelectionStatement(Symbol::If));
    assert_eq!(node.child.len(), 3);
    let toks = lex("if (a) b = 1;");
    let (node, _) = p_selection_statement(&toks, 0).unwrap();
    assert_eq!(node.child.len(), 2);
    let toks = lex("switch (a) b = 1;");
    let (node, _) = p_selection_statement(&toks, 0).unwrap();
    assert_eq!(node.entry, NodeType::SelectionStatement(Symbol::Switch));
    assert_eq!(node.child.len(), 2);
    // an `else` belongs to the nearest `if`
    let toks = lex("if (a) if (b) c = 1; else c = 2;");
    let (node, end) = p_selection_statement(&toks, 0).unwrap();
    assert_eq!(end, toks.len());
    assert_eq!(node.child.len(), 2);
    assert_eq!(first_of(&node.child[1], "SelectionStatement").unwrap().child.len(), 3);
}

#[test]
fn iteration_statements() {
    let toks = lex("while (a) ;");
    let (node, _) = p_iteration_statement(&toks, 0).unwrap();
    assert_eq!(node.entry, NodeType::IterationStatement(Symbol::While));
    assert_eq!(node.child[0].entry, NodeType::Expression);
    assert_eq!(node.child[1].entry, NodeType::Statement);
    let toks = lex("do ; while (a);");
    let (node, end) = p_iteration_statement(&toks, 0).unwrap();
    assert_eq!(end, toks.len());
    assert_eq!(node.entry, NodeType::IterationStatement(Symbol::Do));
    assert_eq!(node.child[0].entry, NodeType::Statement);
    assert_eq!(node.child[1].entry, NodeType::Expression);
    let toks = lex("for (i = 0; i < n; i++) ;");
    let (node, _) = p_iteration_statement(&toks, 0).unwrap();
    assert_eq!(node.entry, NodeType::IterationStatement(Symbol::For));
    assert_eq!(node.child.len(), 4);
    assert_eq!(node.child[0].entry, NodeType::ExpressionStatement);
    assert_eq!(node.child[2].entry, NodeType::Expression);
    let toks = lex("for (int i = 0; i < n;) ;");
    let (node, _) = p_iteration_statement(&toks, 0).unwrap();
    assert_eq!(node.child.len(), 3);
    assert_eq!(node.child[0].entry, NodeType::Declaration);
    let toks = lex("for ) ;");
    assert_eq!(
        p_iteration_statement(&toks, 0),
        Err(ParseError::UnexpectedToken {
            expected: Expected::Symbol(Symbol::LParen),
            found: Token::Symbol(Symbol::RParen),
            position: 1,
        })
    );
    let toks = lex("for ( ) ;");
    assert_eq!(
        p_iteration_statement(&toks, 0),
        Err(ParseError::NoViableAlternative { rule: Rule::IterationStatement, position: 2 })
    );
}

#[test]
fn labeled_statements() {
    let toks = lex("out: ;");
    let (node, _) = p_labeled_statement(&toks, 0).unwrap();
    assert_eq!(node.entry, NodeType::LabeledStatement(Label::Name("out".to_string())));
    assert_eq!(node.child.len(), 1);
    let toks = lex("case 3: ;");
    let (node, _) = p_labeled_statement(&toks, 0).unwrap();
    assert_eq!(node.entry, NodeType::LabeledStatement(Label::Case));
    assert_eq!(node.child.len(), 2);
    let toks = lex("default: ;");
    let (node, _) = p_labeled_statement(&toks, 0).unwrap();
    assert_eq!(node.entry, NodeType::LabeledStatement(Label::Default));
}

#[test]
fn compound_statements() {
    let toks = lex("{ int a; a = 1; }");
    let (node, end) = p_compound_statement(&toks, 0).unwrap();
    assert_eq!(end, toks.len());
    let items = &node.child[0];
    assert_eq!(items.entry, NodeType::BlockItemList);
    assert_eq!(items.child.len(), 2);
    assert_eq!(items.child[0].child[0].entry, NodeType::Declaration);
    assert_eq!(items.child[1].child[0].entry, NodeType::Statement);
    let toks = lex("{ }");
    let (node, end) = p_compound_statement(&toks, 0).unwrap();
    assert_eq!(end, 2);
    assert!(node.child.is_empty());
    let toks = lex("{ a = 1; ");
    assert_eq!(p_compound_statement(&toks, 0), Err(ParseError::PositionOutOfRange));
}

#[test]
fn function_definitions() {
    let toks = lex("int main() { return 0; }");
    let (node, end) = p_function_definition(&toks, 0).unwrap();
    assert_eq!(end, toks.len());
    assert_eq!(node.child.len(), 3);
    assert_eq!(node.child[2].entry, NodeType::CompoundStatement);
    assert_eq!(node.type_exp.child.len(), 3);
    assert_eq!(node.type_exp.child[0], ty(BaseType::Int));
    // with the declarations of its parameters between declarator and body
    let toks = lex("int add(a, b) int a; int b; { return a + b; }");
    let (node, end) = p_function_definition(&toks, 0).unwrap();
    assert_eq!(end, toks.len());
    assert_eq!(node.child.len(), 4);
    assert_eq!(node.child[2].entry, NodeType::DeclarationList);
    assert_eq!(node.child[2].child.len(), 2);
    // a prototype is a declaration, no definition
    let toks = lex("int main();");
    assert!(p_function_definition(&toks, 0).is_err());
    let (node, _) = p_external_declaration(&toks, 0).unwrap();
    assert_eq!(node.child[0].entry, NodeType::Declaration);
}
