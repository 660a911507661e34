//! The library's own picture of the Rust items that the attribute reads: a
//! type, a method signature, a struct and a trait, each holding as text what
//! the expansion looks at.
use vstd::prelude::*;

verus! {

/// A Rust type, as the expansion reads it.
pub enum TypeModel {
    /// A path type such as `std::vec::Vec<Self>`. `prefix` is the text of the
    /// path before its last segment (empty for a one-segment path), `ident`
    /// the identifier of the last segment, `arguments` the text of that
    /// segment's generic arguments, `segment` the text of the whole last
    /// segment, and `args` the angle-bracketed arguments in order (an argument
    /// that is not a type, such as a lifetime, stands as `Other`).
    Path {
        text: String,
        prefix: String,
        ident: String,
        arguments: String,
        segment: String,
        args: Vec<TypeModel>,
    },
    /// A reference type `&T` or `&mut T`; `head` is the text before the
    /// element: the `&`, the lifetime and the `mut`.
    Reference { text: String, head: String, mutable: bool, elem: Box<TypeModel> },
    /// A slice type `[T]`.
    Slice { text: String, elem: Box<TypeModel> },
    /// A tuple type `(A, B, ..)`.
    Tuple { text: String, elems: Vec<TypeModel> },
    /// Any other type.
    Other { text: String },
}

/// The text of a type.
pub open spec fn type_text(t: TypeModel) -> Seq<char> {
    match t {
        TypeModel::Path { text, .. } => text@,
        TypeModel::Reference { text, .. } => text@,
        TypeModel::Slice { text, .. } => text@,
        TypeModel::Tuple { text, .. } => text@,
        TypeModel::Other { text } => text@,
    }
}

impl TypeModel {
    /// The text of the type.
    pub fn text(&self) -> (r: &String)
        ensures
            r@ == type_text(*self),
    {
        match self {
            TypeModel::Path { text, .. } => text,
            TypeModel::Reference { text, .. } => text,
            TypeModel::Slice { text, .. } => text,
            TypeModel::Tuple { text, .. } => text,
            TypeModel::Other { text } => text,
        }
    }
}

/// One parameter of a method.
pub enum ArgModel {
    /// The receiver: `self`, `&self`, `mut self` or `&mut self`; `mutable`
    /// tells whether `mut` is written in it.
    Receiver { mutable: bool },
    /// A typed parameter; `name` is the identifier when its pattern is one.
    Typed { name: Option<String>, ty: TypeModel },
}

/// The signature of a method, with its visibility and attributes.
pub struct SignatureModel {
    /// The text of the visibility (`pub`, `pub(super)`, empty when inherited).
    pub vis: String,
    /// The name of the method.
    pub ident: String,
    /// The parameters, receiver included, in order.
    pub inputs: Vec<ArgModel>,
    /// The return type, if one is written.
    pub output: Option<TypeModel>,
    /// The text of each attribute on the method.
    pub attrs: Vec<String>,
}

/// The receiver of a signature: `Some(mutable)` when it has one.
pub open spec fn receiver_of(inputs: Seq<ArgModel>) -> Option<bool>
    decreases inputs.len(),
{
    if inputs.len() == 0 {
        None
    } else {
        match receiver_of(inputs.drop_last()) {
            Some(m) => Some(m),
            None => match inputs.last() {
                ArgModel::Receiver { mutable } => Some(mutable),
                _ => None,
            },
        }
    }
}

/// The receiver of a signature, found as the first receiver among its parameters.
pub fn find_receiver(inputs: &Vec<ArgModel>) -> (r: Option<bool>)
    ensures
        r == receiver_of(inputs@),
{
    let mut i: usize = 0;
    while i < inputs.len()
        invariant
            i <= inputs.len(),
            receiver_of(inputs@.take(i as int)) is None,
        decreases inputs.len() - i,
    {
        assert(inputs@.take(i + 1).drop_last() =~= inputs@.take(i as int));
        match &inputs[i] {
            ArgModel::Receiver { mutable } => {
                proof {
                    lemma_receiver_of_prefix(inputs@, i as int + 1);
                }
                return Some(*mutable);
            },
            _ => {},
        }
        i = i + 1;
    }
    assert(inputs@.take(inputs.len() as int) =~= inputs@);
    None
}

proof fn lemma_receiver_of_prefix(s: Seq<ArgModel>, k: int)
    requires
        0 <= k <= s.len(),
        receiver_of(s.take(k)) is Some,
    ensures
        receiver_of(s) == receiver_of(s.take(k)),
    decreases s.len() - k,
{
    if k < s.len() {
        assert(s.take(k + 1).drop_last() =~= s.take(k));
        lemma_receiver_of_prefix(s, k + 1);
    } else {
        assert(s.take(k) =~= s);
    }
}

} // verus!
