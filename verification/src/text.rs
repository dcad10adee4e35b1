//! Values as text: the names of symbols and tags, numbers in decimal, names
//! in quotes, and types and node entries written out. The tree printer
//! builds its lines from these.

use crate::ast::{kind_name, ConstantType, ConstantView, Kind, Label, LabelView, NodeType};
use crate::token::Symbol;
use crate::types::{tags_view, types_view, BaseType, BaseTypeView, TypeExpression, TypeView};
use vstd::prelude::*;

verus! {

/// The name of a symbol.
pub open spec fn symbol_name(s: Symbol) -> Seq<char> {
    match s {
        Symbol::LParen => "LParen"@,
        Symbol::RParen => "RParen"@,
        Symbol::LBrace => "LBrace"@,
        Symbol::RBrace => "RBrace"@,
        Symbol::LBracket => "LBracket"@,
        Symbol::RBracket => "RBracket"@,
        Symbol::Comma => "Comma"@,
        Symbol::Semicolon => "Semicolon"@,
        Symbol::Colon => "Colon"@,
        Symbol::Dot => "Dot"@,
        Symbol::Arrow => "Arrow"@,
        Symbol::Increment => "Increment"@,
        Symbol::Decrement => "Decrement"@,
        Symbol::Ampersand => "Ampersand"@,
        Symbol::Star => "Star"@,
        Symbol::Plus => "Plus"@,
        Symbol::Minus => "Minus"@,
        Symbol::Tilde => "Tilde"@,
        Symbol::Bang => "Bang"@,
        Symbol::Slash => "Slash"@,
        Symbol::Percent => "Percent"@,
        Symbol::ShiftLeft => "ShiftLeft"@,
        Symbol::ShiftRight => "ShiftRight"@,
        Symbol::Less => "Less"@,
        Symbol::Greater => "Greater"@,
        Symbol::LessEqual => "LessEqual"@,
        Symbol::GreaterEqual => "GreaterEqual"@,
        Symbol::EqualEqual => "EqualEqual"@,
        Symbol::NotEqual => "NotEqual"@,
        Symbol::Caret => "Caret"@,
        Symbol::Pipe => "Pipe"@,
        Symbol::AndAnd => "AndAnd"@,
        Symbol::OrOr => "OrOr"@,
        Symbol::Question => "Question"@,
        Symbol::Assign => "Assign"@,
        Symbol::MulAssign => "MulAssign"@,
        Symbol::DivAssign => "DivAssign"@,
        Symbol::ModAssign => "ModAssign"@,
        Symbol::AddAssign => "AddAssign"@,
        Symbol::SubAssign => "SubAssign"@,
        Symbol::ShlAssign => "ShlAssign"@,
        Symbol::ShrAssign => "ShrAssign"@,
        Symbol::AndAssign => "AndAssign"@,
        Symbol::XorAssign => "XorAssign"@,
        Symbol::OrAssign => "OrAssign"@,
        Symbol::Ellipsis => "Ellipsis"@,
        Symbol::Auto => "Auto"@,
        Symbol::Break => "Break"@,
        Symbol::Case => "Case"@,
        Symbol::Char => "Char"@,
        Symbol::Const => "Const"@,
        Symbol::Continue => "Continue"@,
        Symbol::Default => "Default"@,
        Symbol::Do => "Do"@,
        Symbol::Double => "Double"@,
        Symbol::Else => "Else"@,
        Symbol::Enum => "Enum"@,
        Symbol::Extern => "Extern"@,
        Symbol::Float => "Float"@,
        Symbol::For => "For"@,
        Symbol::Goto => "Goto"@,
        Symbol::If => "If"@,
        Symbol::Inline => "Inline"@,
        Symbol::Int => "Int"@,
        Symbol::Long => "Long"@,
        Symbol::Register => "Register"@,
        Symbol::Restrict => "Restrict"@,
        Symbol::Return => "Return"@,
        Symbol::Short => "Short"@,
        Symbol::Signed => "Signed"@,
        Symbol::Sizeof => "Sizeof"@,
        Symbol::Static => "Static"@,
        Symbol::Struct => "Struct"@,
        Symbol::Switch => "Switch"@,
        Symbol::Typedef => "Typedef"@,
        Symbol::Union => "Union"@,
        Symbol::Unsigned => "Unsigned"@,
        Symbol::Void => "Void"@,
        Symbol::Volatile => "Volatile"@,
        Symbol::While => "While"@,
        Symbol::Alignas => "Alignas"@,
        Symbol::Alignof => "Alignof"@,
        Symbol::Atomic => "Atomic"@,
        Symbol::Bool => "Bool"@,
        Symbol::Complex => "Complex"@,
        Symbol::Generic => "Generic"@,
        Symbol::Imaginary => "Imaginary"@,
        Symbol::Noreturn => "Noreturn"@,
        Symbol::StaticAssert => "StaticAssert"@,
        Symbol::ThreadLocal => "ThreadLocal"@,
        Symbol::FuncName => "FuncName"@,
        Symbol::TypedefName => "TypedefName"@,
    }
}

/// The name of a symbol.
pub fn symbol_str(s: Symbol) -> (text: &'static str)
    ensures
        text@ == symbol_name(s),
{
    match s {
        Symbol::LParen => "LParen",
        Symbol::RParen => "RParen",
        Symbol::LBrace => "LBrace",
        Symbol::RBrace => "RBrace",
        Symbol::LBracket => "LBracket",
        Symbol::RBracket => "RBracket",
        Symbol::Comma => "Comma",
        Symbol::Semicolon => "Semicolon",
        Symbol::Colon => "Colon",
        Symbol::Dot => "Dot",
        Symbol::Arrow => "Arrow",
        Symbol::Increment => "Increment",
        Symbol::Decrement => "Decrement",
        Symbol::Ampersand => "Ampersand",
        Symbol::Star => "Star",
        Symbol::Plus => "Plus",
        Symbol::Minus => "Minus",
        Symbol::Tilde => "Tilde",
        Symbol::Bang => "Bang",
        Symbol::Slash => "Slash",
        Symbol::Percent => "Percent",
        Symbol::ShiftLeft => "ShiftLeft",
        Symbol::ShiftRight => "ShiftRight",
        Symbol::Less => "Less",
        Symbol::Greater => "Greater",
        Symbol::LessEqual => "LessEqual",
        Symbol::GreaterEqual => "GreaterEqual",
        Symbol::EqualEqual => "EqualEqual",
        Symbol::NotEqual => "NotEqual",
        Symbol::Caret => "Caret",
        Symbol::Pipe => "Pipe",
        Symbol::AndAnd => "AndAnd",
        Symbol::OrOr => "OrOr",
        Symbol::Question => "Question",
        Symbol::Assign => "Assign",
        Symbol::MulAssign => "MulAssign",
        Symbol::DivAssign => "DivAssign",
        Symbol::ModAssign => "ModAssign",
        Symbol::AddAssign => "AddAssign",
        Symbol::SubAssign => "SubAssign",
        Symbol::ShlAssign => "ShlAssign",
        Symbol::ShrAssign => "ShrAssign",
        Symbol::AndAssign => "AndAssign",
        Symbol::XorAssign => "XorAssign",
        Symbol::OrAssign => "OrAssign",
        Symbol::Ellipsis => "Ellipsis",
        Symbol::Auto => "Auto",
        Symbol::Break => "Break",
        Symbol::Case => "Case",
        Symbol::Char => "Char",
        Symbol::Const => "Const",
        Symbol::Continue => "Continue",
        Symbol::Default => "Default",
        Symbol::Do => "Do",
        Symbol::Double => "Double",
        Symbol::Else => "Else",
        Symbol::Enum => "Enum",
        Symbol::Extern => "Extern",
        Symbol::Float => "Float",
        Symbol::For => "For",
        Symbol::Goto => "Goto",
        Symbol::If => "If",
        Symbol::Inline => "Inline",
        Symbol::Int => "Int",
        Symbol::Long => "Long",
        Symbol::Register => "Register",
        Symbol::Restrict => "Restrict",
        Symbol::Return => "Return",
        Symbol::Short => "Short",
        Symbol::Signed => "Signed",
        Symbol::Sizeof => "Sizeof",
        Symbol::Static => "Static",
        Symbol::Struct => "Struct",
        Symbol::Switch => "Switch",
        Symbol::Typedef => "Typedef",
        Symbol::Union => "Union",
        Symbol::Unsigned => "Unsigned",
        Symbol::Void => "Void",
        Symbol::Volatile => "Volatile",
        Symbol::While => "While",
        Symbol::Alignas => "Alignas",
        Symbol::Alignof => "Alignof",
        Symbol::Atomic => "Atomic",
        Symbol::Bool => "Bool",
        Symbol::Complex => "Complex",
        Symbol::Generic => "Generic",
        Symbol::Imaginary => "Imaginary",
        Symbol::Noreturn => "Noreturn",
        Symbol::StaticAssert => "StaticAssert",
        Symbol::ThreadLocal => "ThreadLocal",
        Symbol::FuncName => "FuncName",
        Symbol::TypedefName => "TypedefName",
    }
}

/// A digit as text.
pub open spec fn digit_text(d: nat) -> Seq<char> {
    if d == 0 {
        "0"@
    } else if d == 1 {
        "1"@
    } else if d == 2 {
        "2"@
    } else if d == 3 {
        "3"@
    } else if d == 4 {
        "4"@
    } else if d == 5 {
        "5"@
    } else if d == 6 {
        "6"@
    } else if d == 7 {
        "7"@
    } else if d == 8 {
        "8"@
    } else {
        "9"@
    }
}

/// A natural number in decimal, without leading zeros.
pub open spec fn decimal(n: nat) -> Seq<char>
    decreases n,
{
    if n < 10 {
        digit_text(n)
    } else {
        decimal(n / 10) + digit_text(n % 10)
    }
}

/// An integer in decimal, with a minus sign where it is negative.
pub open spec fn signed_decimal(i: int) -> Seq<char> {
    if i < 0 {
        "-"@ + decimal((-i) as nat)
    } else {
        decimal(i as nat)
    }
}

/// A digit as text.
pub fn digit_str(d: u64) -> (text: &'static str)
    requires
        d < 10,
    ensures
        text@ == digit_text(d as nat),
{
    if d == 0 {
        "0"
    } else if d == 1 {
        "1"
    } else if d == 2 {
        "2"
    } else if d == 3 {
        "3"
    } else if d == 4 {
        "4"
    } else if d == 5 {
        "5"
    } else if d == 6 {
        "6"
    } else if d == 7 {
        "7"
    } else if d == 8 {
        "8"
    } else {
        "9"
    }
}

/// A number in decimal.
pub fn decimal_text(n: u64) -> (text: String)
    ensures
        text@ == decimal(n as nat),
    decreases n,
{
    if n < 10 {
        String::from_str(digit_str(n))
    } else {
        let mut text = decimal_text(n / 10);
        text.append(digit_str(n % 10));
        text
    }
}

/// A signed number in decimal.
pub fn signed_decimal_text(i: i64) -> (text: String)
    ensures
        text@ == signed_decimal(i as int),
{
    if i < 0 {
        let magnitude: u64 = (-(i as i128)) as u64;
        let mut text = String::from_str("-");
        let digits = decimal_text(magnitude);
        text.append(digits.as_str());
        text
    } else {
        decimal_text(i as u64)
    }
}

/// Whether a character stands for itself between double quotes: a
/// printable ASCII character other than the double quote and the backslash.
pub open spec fn is_plain_char(c: char) -> bool {
    32 <= c as u32 <= 126 && c != '"' && c != '\\'
}

/// Whether every character of a text stands for itself between double
/// quotes.
pub open spec fn is_plain(s: Seq<char>) -> bool {
    forall|i: int| 0 <= i < s.len() ==> is_plain_char(#[trigger] s[i])
}

// What `<str as Debug>::fmt` writes for a text: the text between double
// quotes, with escapes for the characters that need them.
pub uninterp spec fn debug_escaped(s: Seq<char>) -> Seq<char>;

/// The text as std's `Debug` for `str` writes it. Claims only that the
/// result is a function of the text, named `debug_escaped`; not proved.
#[verifier::external_body]
fn escape_text(text: &str) -> (escaped: String)
    ensures
        escaped@ == debug_escaped(text@),
{
    format!("{:?}", text)
}

/// A text between double quotes. A text of plain characters stands as it
/// is; any other is escaped as std's `Debug` escapes it.
pub open spec fn quoted(s: Seq<char>) -> Seq<char> {
    if is_plain(s) {
        "\""@ + s + "\""@
    } else {
        debug_escaped(s)
    }
}

/// Whether every character of a text stands for itself between double
/// quotes.
pub fn plain(text: &str) -> (b: bool)
    ensures
        b == is_plain(text@),
{
    let len = text.unicode_len();
    let mut i: usize = 0;
    while i < len
        invariant
            i <= len,
            len == text@.len(),
            forall|k: int| 0 <= k < i ==> is_plain_char(#[trigger] text@[k]),
        decreases len - i,
    {
        let c = text.get_char(i);
        let code = c as u32;
        if code < 32 || code > 126 || c == '"' || c == '\\' {
            assert(!is_plain_char(text@[i as int]));
            return false;
        }
        i = i + 1;
    }
    true
}

/// A text between double quotes.
pub fn quote(text: &str) -> (out: String)
    ensures
        out@ == quoted(text@),
{
    if plain(text) {
        let mut out = String::from_str("\"");
        out.append(text);
        out.append("\"");
        out
    } else {
        escape_text(text)
    }
}

/// An optional symbol as text: `Some(` name `)` or `None`.
pub open spec fn option_symbol_text(s: Option<Symbol>) -> Seq<char> {
    match s {
        Some(s) => "Some("@ + symbol_name(s) + ")"@,
        None => "None"@,
    }
}

/// An optional symbol as text.
pub fn option_symbol_string(s: Option<Symbol>) -> (out: String)
    ensures
        out@ == option_symbol_text(s),
{
    match s {
        Some(s) => {
            let mut out = String::from_str("Some(");
            out.append(symbol_str(s));
            out.append(")");
            out
        },
        None => String::from_str("None"),
    }
}

/// An optional name as text: `Some(` the name in quotes `)` or `None`.
pub open spec fn option_name_text(s: Option<Seq<char>>) -> Seq<char> {
    match s {
        Some(name) => "Some("@ + quoted(name) + ")"@,
        None => "None"@,
    }
}

/// An optional name as text.
pub fn option_name_string(s: &Option<String>) -> (out: String)
    ensures
        out@ == option_name_text(crate::ast::option_text(*s)),
{
    match s {
        Some(name) => {
            let mut out = String::from_str("Some(");
            let inner = quote(name.as_str());
            out.append(inner.as_str());
            out.append(")");
            out
        },
        None => String::from_str("None"),
    }
}

/// A truth value as text.
pub open spec fn bool_text(b: bool) -> Seq<char> {
    if b {
        "true"@
    } else {
        "false"@
    }
}

/// A truth value as text.
pub fn bool_str(b: bool) -> (text: &'static str)
    ensures
        text@ == bool_text(b),
{
    if b {
        "true"
    } else {
        "false"
    }
}

/// A constant as text: the name of its sort and, in parentheses, its value.
/// A floating constant shows the bits of its double, as a number.
pub open spec fn constant_text(c: ConstantView) -> Seq<char> {
    match c {
        ConstantView::Integer(v) => "Integer("@ + signed_decimal(v) + ")"@,
        ConstantView::Floating(bits) => "Floating("@ + signed_decimal(bits) + ")"@,
        ConstantView::Enumeration(name) => "Enumeration("@ + quoted(name) + ")"@,
    }
}

/// A constant as text.
pub fn constant_string(c: &ConstantType) -> (out: String)
    ensures
        out@ == constant_text(c@),
{
    match c {
        ConstantType::Integer(v) => {
            let mut out = String::from_str("Integer(");
            let inner = signed_decimal_text(*v);
            out.append(inner.as_str());
            out.append(")");
            out
        },
        ConstantType::Floating(bits) => {
            let mut out = String::from_str("Floating(");
            let inner = decimal_text(*bits);
            out.append(inner.as_str());
            out.append(")");
            out
        },
        ConstantType::Enumeration(name) => {
            let mut out = String::from_str("Enumeration(");
            let inner = quote(name.as_str());
            out.append(inner.as_str());
            out.append(")");
            out
        },
    }
}

/// A label as text.
pub open spec fn label_text(l: LabelView) -> Seq<char> {
    match l {
        LabelView::Name(name) => "Name("@ + quoted(name) + ")"@,
        LabelView::Case => "Case"@,
        LabelView::Default => "Default"@,
    }
}

/// A label as text.
pub fn label_string(l: &Label) -> (out: String)
    ensures
        out@ == label_text(l@),
{
    match l {
        Label::Name(name) => {
            let mut out = String::from_str("Name(");
            let inner = quote(name.as_str());
            out.append(inner.as_str());
            out.append(")");
            out
        },
        Label::Case => String::from_str("Case"),
        Label::Default => String::from_str("Default"),
    }
}

/// What a node's entry carries, as text in parentheses; nothing where it
/// carries nothing.
pub open spec fn payload_text(k: Kind) -> Seq<char> {
    match k {
        Kind::Identifier(name) => "("@ + quoted(name) + ")"@,
        Kind::Constant(c) => "("@ + constant_text(c) + ")"@,
        Kind::EnumerationConstant(name) => "("@ + quoted(name) + ")"@,
        Kind::StringLiteral(text) => "("@ + quoted(text) + ")"@,
        Kind::PostfixExpressionPost(s) => "("@ + symbol_name(s) + ")"@,
        Kind::UnaryExpression(s) => "("@ + option_symbol_text(s) + ")"@,
        Kind::UnaryOperator(s) => "("@ + symbol_name(s) + ")"@,
        Kind::BinaryExpression(s) => "("@ + symbol_name(s) + ")"@,
        Kind::AssignmentOperator(s) => "("@ + symbol_name(s) + ")"@,
        Kind::StorageClassSpecifier(s) => "("@ + symbol_name(s) + ")"@,
        Kind::TypeSpecifier(s) => "("@ + option_symbol_text(s) + ")"@,
        Kind::StructOrUnion(s) => "("@ + symbol_name(s) + ")"@,
        Kind::EnumSpecifier(name) => "("@ + option_name_text(name) + ")"@,
        Kind::TypeQualifier(s) => "("@ + symbol_name(s) + ")"@,
        Kind::FunctionSpecifier(s) => "("@ + symbol_name(s) + ")"@,
        Kind::DirectDeclaratorPost(s) => "("@ + symbol_name(s) + ")"@,
        Kind::ParameterTypeList(b) => "("@ + bool_text(b) + ")"@,
        Kind::DirectAbstractDeclaratorBlock(s) => "("@ + symbol_name(s) + ")"@,
        Kind::LabeledStatement(l) => "("@ + label_text(l) + ")"@,
        Kind::SelectionStatement(s) => "("@ + symbol_name(s) + ")"@,
        Kind::IterationStatement(s) => "("@ + symbol_name(s) + ")"@,
        Kind::JumpStatement(s, target) => "("@ + symbol_name(s) + ", "@ + option_name_text(target)
            + ")"@,
        _ => Seq::empty(),
    }
}

/// A node's entry as text: the name of its production and, in parentheses,
/// what it carries.
pub open spec fn entry_text(k: Kind) -> Seq<char> {
    kind_name(k) + payload_text(k)
}

fn in_parentheses(inner: &str) -> (out: String)
    ensures
        out@ == "("@ + inner@ + ")"@,
{
    let mut out = String::from_str("(");
    out.append(inner);
    out.append(")");
    out
}

/// What a node's entry carries, as text.
pub fn payload_string(entry: &NodeType) -> (out: String)
    ensures
        out@ == payload_text(entry@),
{
    match entry {
        NodeType::Identifier(name) => in_parentheses(quote(name.as_str()).as_str()),
        NodeType::Constant(c) => in_parentheses(constant_string(c).as_str()),
        NodeType::EnumerationConstant(name) => in_parentheses(quote(name.as_str()).as_str()),
        NodeType::StringLiteral(text) => in_parentheses(quote(text.as_str()).as_str()),
        NodeType::PostfixExpressionPost(s) => in_parentheses(symbol_str(*s)),
        NodeType::UnaryExpression(s) => in_parentheses(option_symbol_string(*s).as_str()),
        NodeType::UnaryOperator(s) => in_parentheses(symbol_str(*s)),
        NodeType::BinaryExpression(s) => in_parentheses(symbol_str(*s)),
        NodeType::AssignmentOperator(s) => in_parentheses(symbol_str(*s)),
        NodeType::StorageClassSpecifier(s) => in_parentheses(symbol_str(*s)),
        NodeType::TypeSpecifier(s) => in_parentheses(option_symbol_string(*s).as_str()),
        NodeType::StructOrUnion(s) => in_parentheses(symbol_str(*s)),
        NodeType::EnumSpecifier(name) => in_parentheses(option_name_string(name).as_str()),
        NodeType::TypeQualifier(s) => in_parentheses(symbol_str(*s)),
        NodeType::FunctionSpecifier(s) => in_parentheses(symbol_str(*s)),
        NodeType::DirectDeclaratorPost(s) => in_parentheses(symbol_str(*s)),
        NodeType::ParameterTypeList(b) => in_parentheses(bool_str(*b)),
        NodeType::DirectAbstractDeclaratorBlock(s) => in_parentheses(symbol_str(*s)),
        NodeType::LabeledStatement(l) => in_parentheses(label_string(l).as_str()),
        NodeType::SelectionStatement(s) => in_parentheses(symbol_str(*s)),
        NodeType::IterationStatement(s) => in_parentheses(symbol_str(*s)),
        NodeType::JumpStatement(s, target) => {
            let mut out = String::from_str("(");
            out.append(symbol_str(*s));
            out.append(", ");
            out.append(option_name_string(target).as_str());
            out.append(")");
            out
        },
        _ => String::new(),
    }
}

/// A node's entry as text.
pub fn entry_string(entry: &NodeType) -> (out: String)
    ensures
        out@ == entry_text(entry@),
{
    let mut out = String::from_str(entry.name());
    out.append(payload_string(entry).as_str());
    out
}

/// A tag of a type as text.
pub open spec fn tag_text(tag: BaseTypeView) -> Seq<char> {
    match tag {
        BaseTypeView::Void => "Void"@,
        BaseTypeView::Bool => "Bool"@,
        BaseTypeView::Char => "Char"@,
        BaseTypeView::Short => "Short"@,
        BaseTypeView::Int => "Int"@,
        BaseTypeView::Long => "Long"@,
        BaseTypeView::Float => "Float"@,
        BaseTypeView::Double => "Double"@,
        BaseTypeView::Signed => "Signed"@,
        BaseTypeView::Unsigned => "Unsigned"@,
        BaseTypeView::Complex => "Complex"@,
        BaseTypeView::Imaginary => "Imaginary"@,
        BaseTypeView::Pointer => "Pointer"@,
        BaseTypeView::VoidPointer => "VoidPointer"@,
        BaseTypeView::Struct => "Struct"@,
        BaseTypeView::Union => "Union"@,
        BaseTypeView::Function => "Function"@,
        BaseTypeView::Extern => "Extern"@,
        BaseTypeView::Static => "Static"@,
        BaseTypeView::ThreadLocal => "ThreadLocal"@,
        BaseTypeView::Auto => "Auto"@,
        BaseTypeView::Register => "Register"@,
        BaseTypeView::Const => "Const"@,
        BaseTypeView::Restrict => "Restrict"@,
        BaseTypeView::Volatile => "Volatile"@,
        BaseTypeView::Atomic => "Atomic"@,
        BaseTypeView::Inline => "Inline"@,
        BaseTypeView::Noreturn => "Noreturn"@,
        BaseTypeView::SizeT => "SizeT"@,
        BaseTypeView::VaList => "VaList"@,
        BaseTypeView::NoneExpression => "NoneExpression"@,
        BaseTypeView::Array(n) => "Array("@ + decimal(n) + ")"@,
        BaseTypeView::Identifier(name) => "Identifier("@ + quoted(name) + ")"@,
    }
}

/// A tag of a type as text.
pub fn tag_string(tag: &BaseType) -> (out: String)
    ensures
        out@ == tag_text(tag@),
{
    match tag {
        BaseType::Void => String::from_str("Void"),
        BaseType::Bool => String::from_str("Bool"),
        BaseType::Char => String::from_str("Char"),
        BaseType::Short => String::from_str("Short"),
        BaseType::Int => String::from_str("Int"),
        BaseType::Long => String::from_str("Long"),
        BaseType::Float => String::from_str("Float"),
        BaseType::Double => String::from_str("Double"),
        BaseType::Signed => String::from_str("Signed"),
        BaseType::Unsigned => String::from_str("Unsigned"),
        BaseType::Complex => String::from_str("Complex"),
        BaseType::Imaginary => String::from_str("Imaginary"),
        BaseType::Pointer => String::from_str("Pointer"),
        BaseType::VoidPointer => String::from_str("VoidPointer"),
        BaseType::Struct => String::from_str("Struct"),
        BaseType::Union => String::from_str("Union"),
        BaseType::Function => String::from_str("Function"),
        BaseType::Extern => String::from_str("Extern"),
        BaseType::Static => String::from_str("Static"),
        BaseType::ThreadLocal => String::from_str("ThreadLocal"),
        BaseType::Auto => String::from_str("Auto"),
        BaseType::Register => String::from_str("Register"),
        BaseType::Const => String::from_str("Const"),
        BaseType::Restrict => String::from_str("Restrict"),
        BaseType::Volatile => String::from_str("Volatile"),
        BaseType::Atomic => String::from_str("Atomic"),
        BaseType::Inline => String::from_str("Inline"),
        BaseType::Noreturn => String::from_str("Noreturn"),
        BaseType::SizeT => String::from_str("SizeT"),
        BaseType::VaList => String::from_str("VaList"),
        BaseType::NoneExpression => String::from_str("NoneExpression"),
        BaseType::Array(n) => {
            let mut out = String::from_str("Array(");
            out.append(decimal_text(*n).as_str());
            out.append(")");
            out
        },
        BaseType::Identifier(name) => {
            let mut out = String::from_str("Identifier(");
            out.append(quote(name.as_str()).as_str());
            out.append(")");
            out
        },
    }
}

/// The tags of a type from the `i`-th on, each followed by a semicolon.
pub open spec fn tags_text_from(tags: Seq<BaseTypeView>, i: nat) -> Seq<char>
    decreases tags.len() - i,
{
    if i >= tags.len() {
        Seq::empty()
    } else {
        tag_text(tags[i as int]) + ";"@ + tags_text_from(tags, i + 1)
    }
}

/// The components of a type from the `i`-th on, each written out as a type.
pub open spec fn components_text_from(t: TypeView, i: nat) -> Seq<char>
    decreases t, t.child.len() - i,
{
    if i >= t.child.len() {
        Seq::empty()
    } else {
        type_text(t.child[i as int]) + components_text_from(t, i + 1)
    }
}

/// A type as text: between `<` and `>` its tags, each followed by a
/// semicolon, then its components, each written out in the same way.
pub open spec fn type_text(t: TypeView) -> Seq<char>
    decreases t, t.child.len() + 1,
{
    "<"@ + tags_text_from(t.val, 0) + components_text_from(t, 0) + ">"@
}

/// A type as text.
pub fn type_string(t: &TypeExpression) -> (out: String)
    ensures
        out@ == type_text(t@),
    decreases t,
{
    proof {
        t.lemma_view();
    }
    let mut out = String::from_str("<");
    let ghost tags = t@.val;
    let mut i: usize = 0;
    while i < t.val.len()
        invariant
            i <= t.val.len(),
            tags == tags_view(t.val@),
            out@ + tags_text_from(tags, i as nat) == "<"@ + tags_text_from(tags, 0),
        decreases t.val.len() - i,
    {
        let part = tag_string(&t.val[i]);
        proof {
            let rest = tags_text_from(tags, (i + 1) as nat);
            assert(tags_text_from(tags, i as nat) == part@ + ";"@ + rest);
            assert(out@ + part@ + ";"@ + rest =~= out@ + (part@ + ";"@ + rest));
        }
        out.append(part.as_str());
        out.append(";");
        i = i + 1;
    }
    proof {
        assert(out@ + Seq::<char>::empty() =~= out@);
    }
    let ghost head = out@;
    let mut j: usize = 0;
    while j < t.child.len()
        invariant
            j <= t.child.len(),
            t@.child == types_view(t.child@),
            out@ + components_text_from(t@, j as nat) == head + components_text_from(t@, 0),
        decreases t.child.len() - j,
    {
        let part = type_string(&t.child[j]);
        proof {
            let rest = components_text_from(t@, (j + 1) as nat);
            assert(components_text_from(t@, j as nat) == part@ + rest);
            assert(out@ + part@ + rest =~= out@ + (part@ + rest));
        }
        out.append(part.as_str());
        j = j + 1;
    }
    proof {
        assert(out@ + Seq::<char>::empty() =~= out@);
    }
    out.append(">");
    out
}

} // verus!
