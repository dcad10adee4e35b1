//! The token vocabulary the parser reads.
//!
//! A token is either a fixed-spelling symbol (keyword or punctuator) or a
//! token that carries a payload: a name, a number, a piece of text.

use vstd::prelude::*;

verus! {

/// Every keyword and punctuator: the tokens whose spelling is fixed, so that
/// they carry nothing beyond their identity.
#[derive(Clone, Copy, PartialEq, Eq, Structural, Debug, Hash)]
pub enum Symbol {
    // punctuators
    LParen,
    RParen,
    LBrace,
    RBrace,
    LBracket,
    RBracket,
    Comma,
    Semicolon,
    Colon,
    Dot,
    Arrow,
    Increment,
    Decrement,
    Ampersand,
    Star,
    Plus,
    Minus,
    Tilde,
    Bang,
    Slash,
    Percent,
    ShiftLeft,
    ShiftRight,
    Less,
    Greater,
    LessEqual,
    GreaterEqual,
    EqualEqual,
    NotEqual,
    Caret,
    Pipe,
    AndAnd,
    OrOr,
    Question,
    Assign,
    MulAssign,
    DivAssign,
    ModAssign,
    AddAssign,
    SubAssign,
    ShlAssign,
    ShrAssign,
    AndAssign,
    XorAssign,
    OrAssign,
    Ellipsis,
    // keywords
    Auto,
    Break,
    Case,
    Char,
    Const,
    Continue,
    Default,
    Do,
    Double,
    Else,
    Enum,
    Extern,
    Float,
    For,
    Goto,
    If,
    Inline,
    Int,
    Long,
    Register,
    Restrict,
    Return,
    Short,
    Signed,
    Sizeof,
    Static,
    Struct,
    Switch,
    Typedef,
    Union,
    Unsigned,
    Void,
    Volatile,
    While,
    Alignas,
    Alignof,
    Atomic,
    Bool,
    Complex,
    Generic,
    Imaginary,
    Noreturn,
    StaticAssert,
    ThreadLocal,
    /// The predefined identifier `__func__`.
    FuncName,
    /// An identifier that a `typedef` has turned into a type name.
    TypedefName,
}

/// How a string literal is encoded (its prefix, if any).
#[derive(Clone, Copy, PartialEq, Eq, Structural, Debug, Hash)]
pub enum Encoding {
    Plain,
    Utf8,
    Utf16,
    Utf32,
    Wide,
}

/// One token of the input.
#[derive(PartialEq, Eq, Debug)]
pub enum Token {
    Symbol(Symbol),
    Identifier(String),
    IntConstant(i64),
    /// A floating constant, held as the bit pattern of its double.
    FloatConstant(u64),
    EnumConstant(String),
    StringLiteral(String, Encoding),
}

/// The mathematical value of a token.
pub ghost enum TokenView {
    Symbol(Symbol),
    Identifier(Seq<char>),
    IntConstant(int),
    FloatConstant(int),
    EnumConstant(Seq<char>),
    StringLiteral(Seq<char>, Encoding),
}

impl View for Token {
    type V = TokenView;

    open spec fn view(&self) -> TokenView {
        match *self {
            Token::Symbol(s) => TokenView::Symbol(s),
            Token::Identifier(name) => TokenView::Identifier(name@),
            Token::IntConstant(v) => TokenView::IntConstant(v as int),
            Token::FloatConstant(bits) => TokenView::FloatConstant(bits as int),
            Token::EnumConstant(name) => TokenView::EnumConstant(name@),
            Token::StringLiteral(text, enc) => TokenView::StringLiteral(text@, enc),
        }
    }
}

/// The token stream as a sequence of token values.
pub open spec fn tokens_view(toks: Seq<Token>) -> Seq<TokenView> {
    Seq::new(toks.len(), |i: int| toks[i]@)
}

impl Token {
    /// A copy of the token.
    pub fn duplicate(&self) -> (t: Token)
        ensures
            t@ == self@,
    {
        match self {
            Token::Symbol(s) => Token::Symbol(*s),
            Token::Identifier(name) => Token::Identifier(name.clone()),
            Token::IntConstant(v) => Token::IntConstant(*v),
            Token::FloatConstant(bits) => Token::FloatConstant(*bits),
            Token::EnumConstant(name) => Token::EnumConstant(name.clone()),
            Token::StringLiteral(text, enc) => Token::StringLiteral(text.clone(), *enc),
        }
    }

    /// The symbol this token is, if it is one.
    pub fn symbol(&self) -> (s: Option<Symbol>)
        ensures
            s == token_symbol(self@),
    {
        match self {
            Token::Symbol(s) => Some(*s),
            _ => None,
        }
    }
}

/// The symbol a token value is, if it is one.
pub open spec fn token_symbol(t: TokenView) -> Option<Symbol> {
    match t {
        TokenView::Symbol(s) => Some(s),
        _ => None,
    }
}

} // verus!
