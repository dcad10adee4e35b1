//! The typing rules the parser consults.
//!
//! Every rule first sorts its operands into a few classes by their leading
//! tag. A type whose leading tag says nothing about its values (a name not
//! yet resolved, a storage marker, a qualifier) is unresolved, and no rule
//! rejects what it cannot resolve. Names are resolved elsewhere: so two
//! types are also taken to be the same where one of them mentions a name.

use crate::error::ParseError;
use crate::token::Symbol;
use crate::types::{BaseType, BaseTypeView, TypeExpression, TypeView};
use vstd::prelude::*;

verus! {

/// What kind of values a type has.
#[derive(Clone, Copy, PartialEq, Eq, Structural, Debug)]
pub enum TypeClass {
    /// Not known here.
    Unresolved,
    /// No values.
    Void,
    /// Numbers; the rank orders them from narrow to wide.
    Arithmetic(u8),
    /// Pointers and arrays.
    Address,
    /// Structures and unions.
    Aggregate,
}

/// The highest rank that is still an integer type.
pub const MAX_INTEGER_RANK: u8 = 7;

/// The class a single tag stands for.
pub open spec fn tag_class(tag: BaseTypeView) -> TypeClass {
    match tag {
        BaseTypeView::Void | BaseTypeView::NoneExpression => TypeClass::Void,
        BaseTypeView::Bool => TypeClass::Arithmetic(1),
        BaseTypeView::Char => TypeClass::Arithmetic(2),
        BaseTypeView::Short => TypeClass::Arithmetic(3),
        BaseTypeView::Int | BaseTypeView::Signed => TypeClass::Arithmetic(4),
        BaseTypeView::Unsigned => TypeClass::Arithmetic(5),
        BaseTypeView::Long => TypeClass::Arithmetic(6),
        BaseTypeView::SizeT => TypeClass::Arithmetic(7),
        BaseTypeView::Float => TypeClass::Arithmetic(8),
        BaseTypeView::Double => TypeClass::Arithmetic(9),
        BaseTypeView::Complex | BaseTypeView::Imaginary => TypeClass::Arithmetic(10),
        BaseTypeView::Pointer | BaseTypeView::VoidPointer | BaseTypeView::Array(_) => {
            TypeClass::Address
        },
        BaseTypeView::Struct | BaseTypeView::Union => TypeClass::Aggregate,
        _ => TypeClass::Unresolved,
    }
}

/// The class of a type: that of its first tag or, where it has no tag, that
/// of its first component.
pub open spec fn class_of(t: TypeView) -> TypeClass
    decreases t,
{
    if t.val.len() > 0 {
        tag_class(t.val[0])
    } else if t.child.len() > 0 {
        class_of(t.child[0])
    } else {
        TypeClass::Unresolved
    }
}

/// Whether values of the class can be operands: numbers, addresses, and
/// what is not resolved.
pub open spec fn is_operand_class(c: TypeClass) -> bool {
    c is Unresolved || c is Arithmetic || c is Address
}

/// Whether one of the tags is a name.
pub open spec fn tags_mention_name(tags: Seq<BaseTypeView>) -> bool {
    exists|i: int| 0 <= i < tags.len() && #[trigger] tags[i] is Identifier
}

/// Whether one of the components of a type, from the `i`-th on, mentions a
/// name.
pub open spec fn mentions_name_from(t: TypeView, i: nat) -> bool
    decreases t, t.child.len() - i,
{
    i < t.child.len() && (mentions_name(t.child[i as int]) || mentions_name_from(t, i + 1))
}

/// Whether a type mentions, at any depth, a name that is not resolved here.
pub open spec fn mentions_name(t: TypeView) -> bool
    decreases t, t.child.len() + 1,
{
    tags_mention_name(t.val) || mentions_name_from(t, 0)
}

/// Whether a type cannot be compared: its class is unresolved, or it
/// mentions a name that is not resolved.
pub open spec fn is_unresolved(t: TypeView) -> bool {
    class_of(t) is Unresolved || mentions_name(t)
}

/// Whether two types are the same: they are equal, or one of them cannot be
/// compared.
pub open spec fn types_same(a: TypeView, b: TypeView) -> bool {
    is_unresolved(a) || is_unresolved(b) || a == b
}

/// The components from the `i`-th on mention a name exactly if one of them
/// does.
pub proof fn lemma_mentions_name_from(t: TypeView, i: nat)
    ensures
        mentions_name_from(t, i) <==> exists|k: int|
            i <= k < t.child.len() && #[trigger] mentions_name(t.child[k]),
    decreases t.child.len() - i,
{
    if i < t.child.len() {
        lemma_mentions_name_from(t, i + 1);
        if mentions_name(t.child[i as int]) {
            let k = i as int;
            assert(i <= k && k < t.child.len() && mentions_name(t.child[k]));
        }
    }
}

/// Whether a value of type `from` may be cast to type `to`.
pub open spec fn cast_legal(to: TypeView, from: TypeView) -> bool {
    let ct = class_of(to);
    let cf = class_of(from);
    if ct is Unresolved || cf is Unresolved {
        true
    } else if ct is Void {
        true
    } else if cf is Void || ct is Aggregate || cf is Aggregate {
        false
    } else {
        match (ct, cf) {
            (TypeClass::Address, TypeClass::Arithmetic(r)) => r <= MAX_INTEGER_RANK,
            (TypeClass::Arithmetic(r), TypeClass::Address) => r <= MAX_INTEGER_RANK,
            _ => true,
        }
    }
}

/// Whether the symbol compares its operands.
pub open spec fn is_comparison(op: Symbol) -> bool {
    op == Symbol::Less || op == Symbol::Greater || op == Symbol::LessEqual || op
        == Symbol::GreaterEqual || op == Symbol::EqualEqual || op == Symbol::NotEqual
}

/// Whether the symbol is `&&` or `||`.
pub open spec fn is_logical(op: Symbol) -> bool {
    op == Symbol::AndAnd || op == Symbol::OrOr
}

/// Whether the symbol is `<<` or `>>`.
pub open spec fn is_shift(op: Symbol) -> bool {
    op == Symbol::ShiftLeft || op == Symbol::ShiftRight
}

/// Whether the symbol takes integers only.
pub open spec fn is_integer_only(op: Symbol) -> bool {
    op == Symbol::Percent || op == Symbol::Ampersand || op == Symbol::Caret || op == Symbol::Pipe
        || is_shift(op)
}

/// Whether the symbol is a binary operator.
pub open spec fn is_binary_operator(op: Symbol) -> bool {
    op == Symbol::Star || op == Symbol::Slash || op == Symbol::Plus || op == Symbol::Minus
        || is_integer_only(op) || is_comparison(op) || is_logical(op)
}

/// The type of `left op right`, or `None` where the operator does not apply.
///
/// Comparisons and logical operators give `int`. Between two numbers the
/// wider type wins (the left one for a shift). An address moves by an
/// integer, and two addresses subtract to a `long`. An unresolved operand
/// takes the type of the other.
pub open spec fn combine_types(left: TypeView, right: TypeView, op: Symbol) -> Option<TypeView> {
    let cl = class_of(left);
    let cr = class_of(right);
    if !is_binary_operator(op) || !is_operand_class(cl) || !is_operand_class(cr) {
        None
    } else if is_comparison(op) || is_logical(op) {
        Some(TypeView::of(BaseTypeView::Int))
    } else {
        match (cl, cr) {
            (TypeClass::Unresolved, TypeClass::Unresolved) => Some(left),
            (TypeClass::Unresolved, _) => Some(right),
            (_, TypeClass::Unresolved) => Some(left),
            (TypeClass::Arithmetic(a), TypeClass::Arithmetic(b)) => {
                if is_integer_only(op) && (a > MAX_INTEGER_RANK || b > MAX_INTEGER_RANK) {
                    None
                } else if is_shift(op) || a >= b {
                    Some(left)
                } else {
                    Some(right)
                }
            },
            (TypeClass::Address, TypeClass::Arithmetic(b)) => {
                if (op == Symbol::Plus || op == Symbol::Minus) && b <= MAX_INTEGER_RANK {
                    Some(left)
                } else {
                    None
                }
            },
            (TypeClass::Arithmetic(a), TypeClass::Address) => {
                if op == Symbol::Plus && a <= MAX_INTEGER_RANK {
                    Some(right)
                } else {
                    None
                }
            },
            (TypeClass::Address, TypeClass::Address) => {
                if op == Symbol::Minus {
                    Some(TypeView::of(BaseTypeView::Long))
                } else {
                    None
                }
            },
            _ => None,
        }
    }
}

/// The type of `left = right`, or `None` where the right side does not
/// convert to the left.
///
/// The result is the left type; where that is unresolved, the right one.
pub open spec fn implicit_conversion(left: TypeView, right: TypeView) -> Option<TypeView> {
    let cl = class_of(left);
    let cr = class_of(right);
    match (cl, cr) {
        (TypeClass::Void, _) => None,
        (_, TypeClass::Void) => None,
        (TypeClass::Unresolved, TypeClass::Unresolved) => Some(left),
        (TypeClass::Unresolved, _) => Some(right),
        (_, TypeClass::Unresolved) => Some(left),
        (TypeClass::Arithmetic(_), TypeClass::Arithmetic(_)) => Some(left),
        (TypeClass::Address, TypeClass::Address) => Some(left),
        (TypeClass::Address, TypeClass::Arithmetic(r)) => {
            if r <= MAX_INTEGER_RANK {
                Some(left)
            } else {
                None
            }
        },
        (TypeClass::Aggregate, TypeClass::Aggregate) => {
            if left == right {
                Some(left)
            } else {
                None
            }
        },
        _ => None,
    }
}

/// The value of an optional type.
pub open spec fn option_type_view(t: Option<TypeExpression>) -> Option<TypeView> {
    match t {
        Some(t) => Some(t@),
        None => None,
    }
}

/// The class a single tag stands for.
pub fn classify_tag(tag: &BaseType) -> (c: TypeClass)
    ensures
        c == tag_class(tag@),
{
    match tag {
        BaseType::Void | BaseType::NoneExpression => TypeClass::Void,
        BaseType::Bool => TypeClass::Arithmetic(1),
        BaseType::Char => TypeClass::Arithmetic(2),
        BaseType::Short => TypeClass::Arithmetic(3),
        BaseType::Int | BaseType::Signed => TypeClass::Arithmetic(4),
        BaseType::Unsigned => TypeClass::Arithmetic(5),
        BaseType::Long => TypeClass::Arithmetic(6),
        BaseType::SizeT => TypeClass::Arithmetic(7),
        BaseType::Float => TypeClass::Arithmetic(8),
        BaseType::Double => TypeClass::Arithmetic(9),
        BaseType::Complex | BaseType::Imaginary => TypeClass::Arithmetic(10),
        BaseType::Pointer | BaseType::VoidPointer | BaseType::Array(_) => TypeClass::Address,
        BaseType::Struct | BaseType::Union => TypeClass::Aggregate,
        _ => TypeClass::Unresolved,
    }
}

/// The class of a type.
pub fn classify(t: &TypeExpression) -> (c: TypeClass)
    ensures
        c == class_of(t@),
    decreases t,
{
    proof {
        t.lemma_view();
    }
    if t.val.len() > 0 {
        classify_tag(&t.val[0])
    } else if t.child.len() > 0 {
        classify(&t.child[0])
    } else {
        TypeClass::Unresolved
    }
}

/// Whether two tags are equal.
pub fn same_tag(a: &BaseType, b: &BaseType) -> (r: bool)
    ensures
        r == (a@ == b@),
{
    match (a, b) {
        (BaseType::Void, BaseType::Void) => true,
        (BaseType::Bool, BaseType::Bool) => true,
        (BaseType::Char, BaseType::Char) => true,
        (BaseType::Short, BaseType::Short) => true,
        (BaseType::Int, BaseType::Int) => true,
        (BaseType::Long, BaseType::Long) => true,
        (BaseType::Float, BaseType::Float) => true,
        (BaseType::Double, BaseType::Double) => true,
        (BaseType::Signed, BaseType::Signed) => true,
        (BaseType::Unsigned, BaseType::Unsigned) => true,
        (BaseType::Complex, BaseType::Complex) => true,
        (BaseType::Imaginary, BaseType::Imaginary) => true,
        (BaseType::Pointer, BaseType::Pointer) => true,
        (BaseType::VoidPointer, BaseType::VoidPointer) => true,
        (BaseType::Struct, BaseType::Struct) => true,
        (BaseType::Union, BaseType::Union) => true,
        (BaseType::Function, BaseType::Function) => true,
        (BaseType::Extern, BaseType::Extern) => true,
        (BaseType::Static, BaseType::Static) => true,
        (BaseType::ThreadLocal, BaseType::ThreadLocal) => true,
        (BaseType::Auto, BaseType::Auto) => true,
        (BaseType::Register, BaseType::Register) => true,
        (BaseType::Const, BaseType::Const) => true,
        (BaseType::Restrict, BaseType::Restrict) => true,
        (BaseType::Volatile, BaseType::Volatile) => true,
        (BaseType::Atomic, BaseType::Atomic) => true,
        (BaseType::Inline, BaseType::Inline) => true,
        (BaseType::Noreturn, BaseType::Noreturn) => true,
        (BaseType::SizeT, BaseType::SizeT) => true,
        (BaseType::VaList, BaseType::VaList) => true,
        (BaseType::NoneExpression, BaseType::NoneExpression) => true,
        (BaseType::Array(n), BaseType::Array(m)) => *n == *m,
        (BaseType::Identifier(x), BaseType::Identifier(y)) => *x == *y,
        _ => false,
    }
}

/// Whether two types are equal, tag for tag and child for child.
pub fn same_structure(a: &TypeExpression, b: &TypeExpression) -> (r: bool)
    ensures
        r == (a@ == b@),
    decreases a,
{
    proof {
        a.lemma_view();
        b.lemma_view();
    }
    if a.val.len() != b.val.len() || a.child.len() != b.child.len() {
        assert(a@.val.len() == a.val@.len() && b@.val.len() == b.val@.len());
        assert(a@.child.len() == a.child@.len() && b@.child.len() == b.child@.len());
        return false;
    }
    let mut i: usize = 0;
    while i < a.val.len()
        invariant
            i <= a.val.len(),
            a.val.len() == b.val.len(),
            a@.val == crate::types::tags_view(a.val@),
            b@.val == crate::types::tags_view(b.val@),
            forall|k: int| 0 <= k < i ==> a.val@[k]@ == b.val@[k]@,
        decreases a.val.len() - i,
    {
        if !same_tag(&a.val[i], &b.val[i]) {
            assert(a@.val[i as int] != b@.val[i as int]);
            return false;
        }
        i = i + 1;
    }
    let mut j: usize = 0;
    while j < a.child.len()
        invariant
            j <= a.child.len(),
            a.child.len() == b.child.len(),
            a@.child == crate::types::types_view(a.child@),
            b@.child == crate::types::types_view(b.child@),
            forall|k: int| 0 <= k < j ==> a.child@[k]@ == b.child@[k]@,
        decreases a.child.len() - j,
    {
        if !same_structure(&a.child[j], &b.child[j]) {
            assert(a@.child[j as int] != b@.child[j as int]);
            return false;
        }
        j = j + 1;
    }
    proof {
        assert(a@.val =~= b@.val);
        assert(a@.child =~= b@.child);
    }
    true
}

/// Whether a type mentions, at any depth, a name that is not resolved here.
pub fn names_something(t: &TypeExpression) -> (r: bool)
    ensures
        r == mentions_name(t@),
    decreases t,
{
    proof {
        t.lemma_view();
    }
    let mut i: usize = 0;
    while i < t.val.len()
        invariant
            i <= t.val.len(),
            t@.val == crate::types::tags_view(t.val@),
            forall|k: int| 0 <= k < i ==> !(#[trigger] t@.val[k] is Identifier),
        decreases t.val.len() - i,
    {
        match &t.val[i] {
            BaseType::Identifier(_) => {
                assert(t@.val[i as int] is Identifier);
                return true;
            },
            _ => {},
        }
        i = i + 1;
    }
    let mut j: usize = 0;
    while j < t.child.len()
        invariant
            j <= t.child.len(),
            t@.child == crate::types::types_view(t.child@),
            !tags_mention_name(t@.val),
            forall|k: int| 0 <= k < j ==> !(#[trigger] mentions_name(t@.child[k])),
        decreases t.child.len() - j,
    {
        if names_something(&t.child[j]) {
            proof {
                lemma_mentions_name_from(t@, 0);
                assert(mentions_name(t@.child[j as int]));
            }
            return true;
        }
        j = j + 1;
    }
    proof {
        lemma_mentions_name_from(t@, 0);
    }
    false
}

/// Whether a type cannot be compared.
pub fn unresolved(t: &TypeExpression) -> (r: bool)
    ensures
        r == is_unresolved(t@),
{
    match classify(t) {
        TypeClass::Unresolved => true,
        _ => names_something(t),
    }
}

/// Whether two types are the same.
pub fn judge_type_same(a: &TypeExpression, b: &TypeExpression) -> (r: bool)
    ensures
        r == types_same(a@, b@),
{
    unresolved(a) || unresolved(b) || same_structure(a, b)
}

/// Whether a value of type `from` may be cast to type `to`.
pub fn judge_cast(to: &TypeExpression, from: &TypeExpression) -> (r: bool)
    ensures
        r == cast_legal(to@, from@),
{
    let ct = classify(to);
    let cf = classify(from);
    match (ct, cf) {
        (TypeClass::Unresolved, _) => true,
        (_, TypeClass::Unresolved) => true,
        (TypeClass::Void, _) => true,
        (_, TypeClass::Void) => false,
        (TypeClass::Aggregate, _) => false,
        (_, TypeClass::Aggregate) => false,
        (TypeClass::Address, TypeClass::Arithmetic(r)) => r <= MAX_INTEGER_RANK,
        (TypeClass::Arithmetic(r), TypeClass::Address) => r <= MAX_INTEGER_RANK,
        _ => true,
    }
}

fn comparison_operator(op: Symbol) -> (r: bool)
    ensures
        r == is_comparison(op),
{
    match op {
        Symbol::Less
        | Symbol::Greater
        | Symbol::LessEqual
        | Symbol::GreaterEqual
        | Symbol::EqualEqual
        | Symbol::NotEqual => true,
        _ => false,
    }
}

fn logical_operator(op: Symbol) -> (r: bool)
    ensures
        r == is_logical(op),
{
    match op {
        Symbol::AndAnd | Symbol::OrOr => true,
        _ => false,
    }
}

fn shift_operator(op: Symbol) -> (r: bool)
    ensures
        r == is_shift(op),
{
    match op {
        Symbol::ShiftLeft | Symbol::ShiftRight => true,
        _ => false,
    }
}

fn integer_only_operator(op: Symbol) -> (r: bool)
    ensures
        r == is_integer_only(op),
{
    match op {
        Symbol::Percent | Symbol::Ampersand | Symbol::Caret | Symbol::Pipe => true,
        _ => shift_operator(op),
    }
}

fn binary_operator(op: Symbol) -> (r: bool)
    ensures
        r == is_binary_operator(op),
{
    match op {
        Symbol::Star | Symbol::Slash | Symbol::Plus | Symbol::Minus => true,
        _ => integer_only_operator(op) || comparison_operator(op) || logical_operator(op),
    }
}

fn operand_class(c: TypeClass) -> (r: bool)
    ensures
        r == is_operand_class(c),
{
    match c {
        TypeClass::Unresolved | TypeClass::Arithmetic(_) | TypeClass::Address => true,
        _ => false,
    }
}

/// The type of `left op right`, or `None` where the operator does not apply.
pub fn judge_combine_type(left: &TypeExpression, right: &TypeExpression, op: Symbol) -> (r: Option<
    TypeExpression,
>)
    ensures
        option_type_view(r) == combine_types(left@, right@, op),
        !left@.is_empty() && !right@.is_empty() ==> (r matches Some(t) ==> !t@.is_empty()),
{
    let cl = classify(left);
    let cr = classify(right);
    if !binary_operator(op) || !operand_class(cl) || !operand_class(cr) {
        return None;
    }
    if comparison_operator(op) || logical_operator(op) {
        return Some(TypeExpression::new_val(BaseType::Int));
    }
    match (cl, cr) {
        (TypeClass::Unresolved, TypeClass::Unresolved) => Some(left.duplicate()),
        (TypeClass::Unresolved, _) => Some(right.duplicate()),
        (_, TypeClass::Unresolved) => Some(left.duplicate()),
        (TypeClass::Arithmetic(a), TypeClass::Arithmetic(b)) => {
            if integer_only_operator(op) && (a > MAX_INTEGER_RANK || b > MAX_INTEGER_RANK) {
                None
            } else if shift_operator(op) || a >= b {
                Some(left.duplicate())
            } else {
                Some(right.duplicate())
            }
        },
        (TypeClass::Address, TypeClass::Arithmetic(b)) => {
            if (op == Symbol::Plus || op == Symbol::Minus) && b <= MAX_INTEGER_RANK {
                Some(left.duplicate())
            } else {
                None
            }
        },
        (TypeClass::Arithmetic(a), TypeClass::Address) => {
            if op == Symbol::Plus && a <= MAX_INTEGER_RANK {
                Some(right.duplicate())
            } else {
                None
            }
        },
        (TypeClass::Address, TypeClass::Address) => {
            if op == Symbol::Minus {
                Some(TypeExpression::new_val(BaseType::Long))
            } else {
                None
            }
        },
        _ => None,
    }
}

/// The type of `left = right`, or the error that the right side does not
/// convert to the left.
pub fn implicit_type_cast(left: &TypeExpression, right: &TypeExpression) -> (r: Result<
    TypeExpression,
    ParseError,
>)
    ensures
        match implicit_conversion(left@, right@) {
            Some(t) => r matches Ok(got) && got@ == t,
            None => r matches Err(e) && e@ == (crate::error::ErrorView::IllegalAssignment {
                left: left@,
                right: right@,
            }),
        },
        !left@.is_empty() && !right@.is_empty() ==> (r matches Ok(t) ==> !t@.is_empty()),
{
    let cl = classify(left);
    let cr = classify(right);
    let converted = match (cl, cr) {
        (TypeClass::Void, _) => None,
        (_, TypeClass::Void) => None,
        (TypeClass::Unresolved, TypeClass::Unresolved) => Some(left.duplicate()),
        (TypeClass::Unresolved, _) => Some(right.duplicate()),
        (_, TypeClass::Unresolved) => Some(left.duplicate()),
        (TypeClass::Arithmetic(_), TypeClass::Arithmetic(_)) => Some(left.duplicate()),
        (TypeClass::Address, TypeClass::Address) => Some(left.duplicate()),
        (TypeClass::Address, TypeClass::Arithmetic(r)) => {
            if r <= MAX_INTEGER_RANK {
                Some(left.duplicate())
            } else {
                None
            }
        },
        (TypeClass::Aggregate, TypeClass::Aggregate) => {
            if same_structure(left, right) {
                Some(left.duplicate())
            } else {
                None
            }
        },
        _ => None,
    };
    match converted {
        Some(t) => Ok(t),
        None => Err(
            ParseError::IllegalAssignment { left: left.duplicate(), right: right.duplicate() },
        ),
    }
}

} // verus!
