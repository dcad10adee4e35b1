//! Type expressions: the labels the parser attaches to every node.
//!
//! A type expression is a small tree. Its value tags say what it is at the
//! top (`long`, a pointer, an array of some length); its children are the
//! types it is composed of.

use vstd::prelude::*;

verus! {

/// One tag of a type expression.
#[derive(PartialEq, Eq, Debug)]
pub enum BaseType {
    Void,
    Bool,
    Char,
    Short,
    Int,
    Long,
    Float,
    Double,
    Signed,
    Unsigned,
    Complex,
    Imaginary,
    Pointer,
    /// A pointer to no particular type.
    VoidPointer,
    Struct,
    Union,
    Function,
    Extern,
    Static,
    ThreadLocal,
    Auto,
    Register,
    Const,
    Restrict,
    Volatile,
    Atomic,
    Inline,
    Noreturn,
    /// The type of `sizeof` and `_Alignof`.
    SizeT,
    /// Marks a parameter list that ends in `...`.
    VaList,
    /// The type of what has no value: a statement, an operator.
    NoneExpression,
    /// An array of the given length; 0 where the length is not a literal.
    Array(u64),
    /// A name whose type is not resolved here.
    Identifier(String),
}

/// The mathematical value of a [`BaseType`].
pub ghost enum BaseTypeView {
    Void,
    Bool,
    Char,
    Short,
    Int,
    Long,
    Float,
    Double,
    Signed,
    Unsigned,
    Complex,
    Imaginary,
    Pointer,
    VoidPointer,
    Struct,
    Union,
    Function,
    Extern,
    Static,
    ThreadLocal,
    Auto,
    Register,
    Const,
    Restrict,
    Volatile,
    Atomic,
    Inline,
    Noreturn,
    SizeT,
    VaList,
    NoneExpression,
    Array(nat),
    Identifier(Seq<char>),
}

impl View for BaseType {
    type V = BaseTypeView;

    open spec fn view(&self) -> BaseTypeView {
        match *self {
            BaseType::Void => BaseTypeView::Void,
            BaseType::Bool => BaseTypeView::Bool,
            BaseType::Char => BaseTypeView::Char,
            BaseType::Short => BaseTypeView::Short,
            BaseType::Int => BaseTypeView::Int,
            BaseType::Long => BaseTypeView::Long,
            BaseType::Float => BaseTypeView::Float,
            BaseType::Double => BaseTypeView::Double,
            BaseType::Signed => BaseTypeView::Signed,
            BaseType::Unsigned => BaseTypeView::Unsigned,
            BaseType::Complex => BaseTypeView::Complex,
            BaseType::Imaginary => BaseTypeView::Imaginary,
            BaseType::Pointer => BaseTypeView::Pointer,
            BaseType::VoidPointer => BaseTypeView::VoidPointer,
            BaseType::Struct => BaseTypeView::Struct,
            BaseType::Union => BaseTypeView::Union,
            BaseType::Function => BaseTypeView::Function,
            BaseType::Extern => BaseTypeView::Extern,
            BaseType::Static => BaseTypeView::Static,
            BaseType::ThreadLocal => BaseTypeView::ThreadLocal,
            BaseType::Auto => BaseTypeView::Auto,
            BaseType::Register => BaseTypeView::Register,
            BaseType::Const => BaseTypeView::Const,
            BaseType::Restrict => BaseTypeView::Restrict,
            BaseType::Volatile => BaseTypeView::Volatile,
            BaseType::Atomic => BaseTypeView::Atomic,
            BaseType::Inline => BaseTypeView::Inline,
            BaseType::Noreturn => BaseTypeView::Noreturn,
            BaseType::SizeT => BaseTypeView::SizeT,
            BaseType::VaList => BaseTypeView::VaList,
            BaseType::NoneExpression => BaseTypeView::NoneExpression,
            BaseType::Array(n) => BaseTypeView::Array(n as nat),
            BaseType::Identifier(name) => BaseTypeView::Identifier(name@),
        }
    }
}

impl BaseType {
    /// A copy of the tag.
    pub fn duplicate(&self) -> (b: BaseType)
        ensures
            b@ == self@,
    {
        match self {
            BaseType::Void => BaseType::Void,
            BaseType::Bool => BaseType::Bool,
            BaseType::Char => BaseType::Char,
            BaseType::Short => BaseType::Short,
            BaseType::Int => BaseType::Int,
            BaseType::Long => BaseType::Long,
            BaseType::Float => BaseType::Float,
            BaseType::Double => BaseType::Double,
            BaseType::Signed => BaseType::Signed,
            BaseType::Unsigned => BaseType::Unsigned,
            BaseType::Complex => BaseType::Complex,
            BaseType::Imaginary => BaseType::Imaginary,
            BaseType::Pointer => BaseType::Pointer,
            BaseType::VoidPointer => BaseType::VoidPointer,
            BaseType::Struct => BaseType::Struct,
            BaseType::Union => BaseType::Union,
            BaseType::Function => BaseType::Function,
            BaseType::Extern => BaseType::Extern,
            BaseType::Static => BaseType::Static,
            BaseType::ThreadLocal => BaseType::ThreadLocal,
            BaseType::Auto => BaseType::Auto,
            BaseType::Register => BaseType::Register,
            BaseType::Const => BaseType::Const,
            BaseType::Restrict => BaseType::Restrict,
            BaseType::Volatile => BaseType::Volatile,
            BaseType::Atomic => BaseType::Atomic,
            BaseType::Inline => BaseType::Inline,
            BaseType::Noreturn => BaseType::Noreturn,
            BaseType::SizeT => BaseType::SizeT,
            BaseType::VaList => BaseType::VaList,
            BaseType::NoneExpression => BaseType::NoneExpression,
            BaseType::Array(n) => BaseType::Array(*n),
            BaseType::Identifier(name) => BaseType::Identifier(name.clone()),
        }
    }
}

/// The values of a sequence of tags.
pub open spec fn tags_view(s: Seq<BaseType>) -> Seq<BaseTypeView> {
    Seq::new(s.len(), |i: int| s[i]@)
}

/// A type expression: value tags, and the types it is made of.
#[derive(PartialEq, Eq, Debug)]
pub struct TypeExpression {
    pub val: Vec<BaseType>,
    pub child: Vec<TypeExpression>,
}

/// The mathematical value of a [`TypeExpression`].
pub ghost struct TypeView {
    pub val: Seq<BaseTypeView>,
    pub child: Seq<TypeView>,
}

/// The value of a type expression, children included.
pub open spec fn type_view(t: TypeExpression) -> TypeView
    decreases t,
{
    TypeView {
        val: tags_view(t.val@),
        child: Seq::new(
            t.child@.len(),
            |i: int|
                if 0 <= i < t.child@.len() {
                    type_view(t.child@[i])
                } else {
                    arbitrary()
                },
        ),
    }
}

/// The values of a sequence of type expressions.
pub open spec fn types_view(s: Seq<TypeExpression>) -> Seq<TypeView> {
    Seq::new(s.len(), |i: int| type_view(s[i]))
}

impl View for TypeExpression {
    type V = TypeView;

    open spec fn view(&self) -> TypeView {
        type_view(*self)
    }
}

impl TypeView {
    /// The type with no tag and no child: what a node has before it is typed.
    pub open spec fn empty() -> TypeView {
        TypeView { val: Seq::empty(), child: Seq::empty() }
    }

    /// The type that is one tag.
    pub open spec fn of(tag: BaseTypeView) -> TypeView {
        TypeView { val: seq![tag], child: Seq::empty() }
    }

    /// The type that is two tags, such as an array of characters.
    pub open spec fn of2(first: BaseTypeView, second: BaseTypeView) -> TypeView {
        TypeView { val: seq![first, second], child: Seq::empty() }
    }

    /// A type made of the given types, with no tag of its own.
    pub open spec fn composite(children: Seq<TypeView>) -> TypeView {
        TypeView { val: Seq::empty(), child: children }
    }

    /// A type made of two types.
    pub open spec fn pair(first: TypeView, second: TypeView) -> TypeView {
        TypeView::composite(seq![first, second])
    }

    /// A tag applied to the given types: pointer to, array of, function of.
    pub open spec fn tagged(tag: BaseTypeView, children: Seq<TypeView>) -> TypeView {
        TypeView { val: seq![tag], child: children }
    }

    /// This type with one more tag.
    pub open spec fn with_val(self, tag: BaseTypeView) -> TypeView {
        TypeView { val: self.val.push(tag), child: self.child }
    }

    /// Whether this is the empty type.
    pub open spec fn is_empty(self) -> bool {
        self.val.len() == 0 && self.child.len() == 0
    }
}

/// Pushing onto a sequence of types pushes the value.
pub proof fn lemma_types_view_push(s: Seq<TypeExpression>, t: TypeExpression)
    ensures
        types_view(s.push(t)) == types_view(s).push(t@),
{
    assert(types_view(s.push(t)) =~= types_view(s).push(t@));
}

/// Pushing onto a sequence of tags pushes the value.
pub proof fn lemma_tags_view_push(s: Seq<BaseType>, b: BaseType)
    ensures
        tags_view(s.push(b)) == tags_view(s).push(b@),
{
    assert(tags_view(s.push(b)) =~= tags_view(s).push(b@));
}

impl TypeExpression {
    /// The value of a type expression is the value of its parts.
    pub proof fn lemma_view(&self)
        ensures
            self@.val == tags_view(self.val@),
            self@.child == types_view(self.child@),
    {
        assert(self@.child =~= types_view(self.child@));
    }

    /// The empty type.
    pub fn new() -> (t: TypeExpression)
        ensures
            t@ == TypeView::empty(),
    {
        let t = TypeExpression { val: Vec::new(), child: Vec::new() };
        proof {
            t.lemma_view();
            assert(tags_view(t.val@) =~= Seq::empty());
            assert(types_view(t.child@) =~= Seq::empty());
        }
        t
    }

    /// The type that is one tag.
    pub fn new_val(tag: BaseType) -> (t: TypeExpression)
        ensures
            t@ == TypeView::of(tag@),
    {
        let mut val: Vec<BaseType> = Vec::new();
        val.push(tag);
        let t = TypeExpression { val, child: Vec::new() };
        proof {
            t.lemma_view();
            assert(tags_view(t.val@) =~= seq![tag@]);
            assert(types_view(t.child@) =~= Seq::empty());
        }
        t
    }

    /// The type that is two tags.
    pub fn new_val2(first: BaseType, second: BaseType) -> (t: TypeExpression)
        ensures
            t@ == TypeView::of2(first@, second@),
    {
        let mut val: Vec<BaseType> = Vec::new();
        val.push(first);
        val.push(second);
        let t = TypeExpression { val, child: Vec::new() };
        proof {
            t.lemma_view();
            assert(tags_view(t.val@) =~= seq![first@, second@]);
            assert(types_view(t.child@) =~= Seq::empty());
        }
        t
    }

    /// A type made of the given types.
    pub fn composite(children: Vec<TypeExpression>) -> (t: TypeExpression)
        ensures
            t@ == TypeView::composite(types_view(children@)),
    {
        let t = TypeExpression { val: Vec::new(), child: children };
        proof {
            t.lemma_view();
            assert(tags_view(t.val@) =~= Seq::empty());
        }
        t
    }

    /// A type made of two types.
    pub fn pair(first: TypeExpression, second: TypeExpression) -> (t: TypeExpression)
        ensures
            t@ == TypeView::pair(first@, second@),
    {
        let mut child: Vec<TypeExpression> = Vec::new();
        child.push(first);
        child.push(second);
        proof {
            assert(types_view(child@) =~= seq![first@, second@]);
        }
        TypeExpression::composite(child)
    }

    /// A tag applied to the given types.
    pub fn tagged(tag: BaseType, children: Vec<TypeExpression>) -> (t: TypeExpression)
        ensures
            t@ == TypeView::tagged(tag@, types_view(children@)),
    {
        let mut val: Vec<BaseType> = Vec::new();
        val.push(tag);
        let t = TypeExpression { val, child: children };
        proof {
            t.lemma_view();
            assert(tags_view(t.val@) =~= seq![tag@]);
        }
        t
    }

    /// This type with one more tag.
    pub fn with_val(self, tag: BaseType) -> (t: TypeExpression)
        ensures
            t@ == self@.with_val(tag@),
    {
        let ghost before = self;
        let TypeExpression { mut val, child } = self;
        val.push(tag);
        let t = TypeExpression { val, child };
        proof {
            t.lemma_view();
            before.lemma_view();
            lemma_tags_view_push(before.val@, tag);
        }
        t
    }

    /// Whether this is the empty type.
    pub fn is_empty(&self) -> (b: bool)
        ensures
            b == self@.is_empty(),
    {
        proof {
            self.lemma_view();
        }
        self.val.len() == 0 && self.child.len() == 0
    }

    /// A copy of the type.
    pub fn duplicate(&self) -> (t: TypeExpression)
        ensures
            t@ == self@,
        decreases self,
    {
        let mut val: Vec<BaseType> = Vec::new();
        let mut i: usize = 0;
        while i < self.val.len()
            invariant
                i <= self.val.len(),
                val@.len() == i,
                forall|k: int| 0 <= k < i ==> val@[k]@ == self.val@[k]@,
            decreases self.val.len() - i,
        {
            val.push(self.val[i].duplicate());
            i = i + 1;
        }
        let mut child: Vec<TypeExpression> = Vec::new();
        let mut j: usize = 0;
        while j < self.child.len()
            invariant
                j <= self.child.len(),
                child@.len() == j,
                forall|k: int| 0 <= k < j ==> child@[k]@ == self.child@[k]@,
            decreases self.child.len() - j,
        {
            let c = self.child[j].duplicate();
            child.push(c);
            j = j + 1;
        }
        let t = TypeExpression { val, child };
        proof {
            t.lemma_view();
            self.lemma_view();
            assert(tags_view(t.val@) =~= tags_view(self.val@));
            assert(types_view(t.child@) =~= types_view(self.child@));
        }
        t
    }
}

/// The empty list of types.
pub fn no_types() -> (list: Vec<TypeExpression>)
    ensures
        types_view(list@) == Seq::<TypeView>::empty(),
{
    let list: Vec<TypeExpression> = Vec::new();
    proof {
        assert(types_view(list@) =~= Seq::<TypeView>::empty());
    }
    list
}

/// A list of one type.
pub fn one_type(first: TypeExpression) -> (list: Vec<TypeExpression>)
    ensures
        list@ == seq![first],
        types_view(list@) == seq![first@],
{
    let mut list: Vec<TypeExpression> = Vec::new();
    list.push(first);
    proof {
        assert(list@ =~= seq![first]);
        assert(types_view(list@) =~= seq![first@]);
    }
    list
}

/// A list of two types.
pub fn two_types(first: TypeExpression, second: TypeExpression) -> (list: Vec<TypeExpression>)
    ensures
        types_view(list@) == seq![first@, second@],
{
    let mut list: Vec<TypeExpression> = Vec::new();
    list.push(first);
    list.push(second);
    proof {
        assert(types_view(list@) =~= seq![first@, second@]);
    }
    list
}

/// A list of three types.
pub fn three_types(first: TypeExpression, second: TypeExpression, third: TypeExpression) -> (list:
    Vec<TypeExpression>)
    ensures
        types_view(list@) == seq![first@, second@, third@],
{
    let mut list: Vec<TypeExpression> = Vec::new();
    list.push(first);
    list.push(second);
    list.push(third);
    proof {
        assert(types_view(list@) =~= seq![first@, second@, third@]);
    }
    list
}

/// A list of four types.
pub fn four_types(
    first: TypeExpression,
    second: TypeExpression,
    third: TypeExpression,
    fourth: TypeExpression,
) -> (list: Vec<TypeExpression>)
    ensures
        types_view(list@) == seq![first@, second@, third@, fourth@],
{
    let mut list: Vec<TypeExpression> = Vec::new();
    list.push(first);
    list.push(second);
    list.push(third);
    list.push(fourth);
    proof {
        assert(types_view(list@) =~= seq![first@, second@, third@, fourth@]);
    }
    list
}

/// Appends a type to a list of types.
pub fn push_type(list: &mut Vec<TypeExpression>, t: TypeExpression)
    ensures
        final(list)@ == old(list)@.push(t),
        types_view(final(list)@) == types_view(old(list)@).push(t@),
{
    proof {
        lemma_types_view_push(list@, t);
    }
    list.push(t);
}

} // verus!
