//! The expansion of an `impl` block of an expanded type: its methods move
//! into a private module as methods of the core type, and the wrapper gets a
//! method of the same signature for each of them.
use vstd::prelude::*;
use vstd::string::*;
use crate::base_methods::{core_method_plan, method_normalization as core_method, CoreMethod};
use crate::errors::{error_is, ErrorKind, ExpansionError};
use crate::model::{SignatureModel, TypeModel};
use crate::names::{contains_isolated, contains_isolated_name, name_lookup_ok};
use crate::text::{cat, cat5, text_eq, texts};
use crate::wrapper_methods::{
    method_normalization as wrapper_method, signature_lookups_ok, wrapper_method_plan,
    WrapperMethod,
};

verus! {

/// An item of an `impl` block: a method, or anything else.
pub enum ImplItemModel {
    Method(SignatureModel),
    Other,
}

/// An `impl` block: the type it implements and the text of its generic
/// parameters, with its items in order.
pub struct ImplModel {
    pub self_ty: TypeModel,
    pub generics: String,
    pub items: Vec<ImplItemModel>,
}

/// What the expansion of an `impl` block gives: for each item, its method on
/// the core side and on the wrapper side (`None` for an item that is not a
/// method: the core side keeps it as it is and the wrapper side drops it), the
/// name of the core type, and the imports of the module that holds the core
/// methods.
pub struct ImplExpansion {
    pub core_methods: Vec<Option<CoreMethod>>,
    pub wrapper_methods: Vec<Option<WrapperMethod>>,
    pub core_type_name: String,
    pub imports: Vec<String>,
}

/// The `Self` checks of every method and of the implemented type are defined.
pub open spec fn impl_lookups_ok(m: ImplModel, origin: Seq<char>) -> bool {
    &&& forall|i: int|
        0 <= i < m.items@.len() ==> match #[trigger] m.items@[i] {
            ImplItemModel::Method(sig) => signature_lookups_ok(sig, origin),
            _ => true,
        }
    &&& m.self_ty matches TypeModel::Path { segment, .. } ==> name_lookup_ok(segment@, origin)
}

/// The refusal of the core side of an item, if any.
pub open spec fn core_refusal(item: ImplItemModel, origin: Seq<char>) -> Option<
    (ErrorKind, Seq<char>),
> {
    match item {
        ImplItemModel::Method(sig) => match core_method_plan(sig, origin) {
            Err(kind) => Some((kind, sig.ident@)),
            Ok(_) => None,
        },
        _ => None,
    }
}

/// The refusal of the wrapper side of an item, if any.
pub open spec fn wrapper_refusal(item: ImplItemModel, origin: Seq<char>, generics: Seq<char>) -> Option<
    (ErrorKind, Seq<char>),
> {
    match item {
        ImplItemModel::Method(sig) => match wrapper_method_plan(sig, origin, generics) {
            Err(kind) => Some((kind, sig.ident@)),
            Ok(_) => None,
        },
        _ => None,
    }
}

/// The first refusal of the core side among the first `k` items.
pub open spec fn first_core_refusal(items: Seq<ImplItemModel>, origin: Seq<char>, k: int) -> Option<
    (ErrorKind, Seq<char>),
>
    decreases k,
{
    if k <= 0 {
        None
    } else {
        match first_core_refusal(items, origin, k - 1) {
            Some(e) => Some(e),
            None => core_refusal(items[k - 1], origin),
        }
    }
}

/// The first refusal of the wrapper side among the first `k` items.
pub open spec fn first_wrapper_refusal(
    items: Seq<ImplItemModel>,
    origin: Seq<char>,
    generics: Seq<char>,
    k: int,
) -> Option<(ErrorKind, Seq<char>)>
    decreases k,
{
    if k <= 0 {
        None
    } else {
        match first_wrapper_refusal(items, origin, generics, k - 1) {
            Some(e) => Some(e),
            None => wrapper_refusal(items[k - 1], origin, generics),
        }
    }
}

/// The refusal of the implemented type: it must be a path, and when its last
/// segment names the expanded type, it must be exactly that name.
pub open spec fn self_type_refusal(t: TypeModel, origin: Seq<char>) -> Option<ErrorKind> {
    match t {
        TypeModel::Path { segment, .. } => if contains_isolated(segment@, origin) && segment@
            != origin {
            Some(ErrorKind::WrongImplType)
        } else {
            None
        },
        _ => Some(ErrorKind::ImplTypeNotPath),
    }
}

/// The refusal of the whole block: first the core side of every method in
/// order, then the implemented type, then the wrapper side of every method.
pub open spec fn impl_refusal(m: ImplModel, origin: Seq<char>) -> Option<(ErrorKind, Seq<char>)> {
    match first_core_refusal(m.items@, origin, m.items@.len() as int) {
        Some(e) => Some(e),
        None => match self_type_refusal(m.self_ty, origin) {
            Some(kind) => Some((kind, origin)),
            None => first_wrapper_refusal(m.items@, origin, m.generics@, m.items@.len() as int),
        },
    }
}

/// The item's core method matches its plan.
pub open spec fn core_method_matches(item: ImplItemModel, c: Option<CoreMethod>, origin: Seq<char>) -> bool {
    match item {
        ImplItemModel::Method(sig) => c matches Some(cm) && core_method_plan(sig, origin) matches Ok(
            plan,
        ) && cm.vis@ == "pub(super)"@ && texts(cm.arg_types@) == plan.0 && crate::wrapper_methods::opt_text(
            cm.output,
        ) == plan.1,
        _ => c is None,
    }
}

/// The item's wrapper method matches its plan.
pub open spec fn wrapper_method_matches(
    item: ImplItemModel,
    w: Option<WrapperMethod>,
    origin: Seq<char>,
    generics: Seq<char>,
) -> bool {
    match item {
        ImplItemModel::Method(sig) => w matches Some(wm) && wrapper_method_plan(
            sig,
            origin,
            generics,
        ) matches Ok(plan) && wm.vis@ == plan.0 && texts(wm.stmts@) == plan.1
            && crate::wrapper_methods::opt_text(wm.output) == plan.2,
        _ => w is None,
    }
}

proof fn lemma_first_core_refusal_stays(items: Seq<ImplItemModel>, origin: Seq<char>, k: int, n: int)
    requires
        0 <= k <= n,
        first_core_refusal(items, origin, k) is Some,
    ensures
        first_core_refusal(items, origin, n) == first_core_refusal(items, origin, k),
    decreases n - k,
{
    if k < n {
        lemma_first_core_refusal_stays(items, origin, k + 1, n);
    }
}

proof fn lemma_first_wrapper_refusal_stays(
    items: Seq<ImplItemModel>,
    origin: Seq<char>,
    generics: Seq<char>,
    k: int,
    n: int,
)
    requires
        0 <= k <= n,
        first_wrapper_refusal(items, origin, generics, k) is Some,
    ensures
        first_wrapper_refusal(items, origin, generics, n) == first_wrapper_refusal(
            items,
            origin,
            generics,
            k,
        ),
    decreases n - k,
{
    if k < n {
        lemma_first_wrapper_refusal_stays(items, origin, generics, k + 1, n);
    }
}

fn core_side(m: &ImplModel, origin: &str) -> (r: Result<Vec<Option<CoreMethod>>, ExpansionError>)
    requires
        impl_lookups_ok(*m, origin@),
    ensures
        match first_core_refusal(m.items@, origin@, m.items@.len() as int) {
            Some((kind, item)) => r matches Err(e) && error_is(e, kind, item),
            None => r matches Ok(v) && v@.len() == m.items@.len() && forall|i: int|
                0 <= i < v@.len() ==> core_method_matches(m.items@[i], #[trigger] v@[i], origin@),
        },
{
    let mut out: Vec<Option<CoreMethod>> = Vec::new();
    let mut i: usize = 0;
    while i < m.items.len()
        invariant
            i <= m.items.len(),
            impl_lookups_ok(*m, origin@),
            first_core_refusal(m.items@, origin@, i as int) is None,
            out@.len() == i,
            forall|j: int| 0 <= j < i ==> core_method_matches(m.items@[j], #[trigger] out@[j], origin@),
        decreases m.items.len() - i,
    {
        match &m.items[i] {
            ImplItemModel::Method(sig) => {
                assert(signature_lookups_ok(*sig, origin@));
                match core_method(sig, origin) {
                    Err(e) => {
                        assert(first_core_refusal(m.items@, origin@, i + 1) is Some);
                        proof {
                            lemma_first_core_refusal_stays(
                                m.items@,
                                origin@,
                                i + 1,
                                m.items@.len() as int,
                            );
                        }
                        return Err(e);
                    },
                    Ok(cm) => {
                        out.push(Some(cm));
                    },
                }
            },
            ImplItemModel::Other => {
                out.push(None);
            },
        }
        i = i + 1;
    }
    Ok(out)
}

fn wrapper_side(m: &ImplModel, origin: &str) -> (r: Result<Vec<Option<WrapperMethod>>, ExpansionError>)
    requires
        impl_lookups_ok(*m, origin@),
    ensures
        match first_wrapper_refusal(m.items@, origin@, m.generics@, m.items@.len() as int) {
            Some((kind, item)) => r matches Err(e) && error_is(e, kind, item),
            None => r matches Ok(v) && v@.len() == m.items@.len() && forall|i: int|
                0 <= i < v@.len() ==> wrapper_method_matches(
                    m.items@[i],
                    #[trigger] v@[i],
                    origin@,
                    m.generics@,
                ),
        },
{
    let mut out: Vec<Option<WrapperMethod>> = Vec::new();
    let mut i: usize = 0;
    while i < m.items.len()
        invariant
            i <= m.items.len(),
            impl_lookups_ok(*m, origin@),
            first_wrapper_refusal(m.items@, origin@, m.generics@, i as int) is None,
            out@.len() == i,
            forall|j: int|
                0 <= j < i ==> wrapper_method_matches(
                    m.items@[j],
                    #[trigger] out@[j],
                    origin@,
                    m.generics@,
                ),
        decreases m.items.len() - i,
    {
        match &m.items[i] {
            ImplItemModel::Method(sig) => {
                assert(signature_lookups_ok(*sig, origin@));
                match wrapper_method(sig, origin, m.generics.as_str()) {
                    Err(e) => {
                        assert(first_wrapper_refusal(m.items@, origin@, m.generics@, i + 1) is Some);
                        proof {
                            lemma_first_wrapper_refusal_stays(
                                m.items@,
                                origin@,
                                m.generics@,
                                i + 1,
                                m.items@.len() as int,
                            );
                        }
                        return Err(e);
                    },
                    Ok(wm) => {
                        out.push(Some(wm));
                    },
                }
            },
            ImplItemModel::Other => {
                out.push(None);
            },
        }
        i = i + 1;
    }
    Ok(out)
}

/// Expands an `impl` block of the type named `original_type_name`: the core
/// methods and the wrapper methods of its items, or the first refusal.
pub fn expantion(item_impl: &ImplModel, original_type_name: &str) -> (r: Result<
    ImplExpansion,
    ExpansionError,
>)
    requires
        impl_lookups_ok(*item_impl, original_type_name@),
    ensures
        match impl_refusal(*item_impl, original_type_name@) {
            Some((kind, item)) => r matches Err(e) && error_is(e, kind, item),
            None => r matches Ok(x) && x.core_methods@.len() == item_impl.items@.len()
                && x.wrapper_methods@.len() == item_impl.items@.len() && (forall|i: int|
                0 <= i < item_impl.items@.len() ==> core_method_matches(
                    item_impl.items@[i],
                    #[trigger] x.core_methods@[i],
                    original_type_name@,
                )) && (forall|i: int|
                0 <= i < item_impl.items@.len() ==> wrapper_method_matches(
                    item_impl.items@[i],
                    #[trigger] x.wrapper_methods@[i],
                    original_type_name@,
                    item_impl.generics@,
                )) && x.core_type_name@ == original_type_name@ + "Core"@ && texts(x.imports@)
                == seq![
                "use super::*;"@,
                "use super::"@ + original_type_name@ + "Core as "@ + original_type_name@ + ";"@,
            ],
        },
{
    let origin = original_type_name;
    let core_methods = match core_side(item_impl, origin) {
        Err(e) => {
            return Err(e);
        },
        Ok(v) => v,
    };
    match &item_impl.self_ty {
        TypeModel::Path { segment, .. } => {
            if contains_isolated_name(segment.as_str(), origin) && !text_eq(
                segment.as_str(),
                origin,
            ) {
                return Err(
                    ExpansionError { kind: ErrorKind::WrongImplType, item: String::from_str(origin) },
                );
            }
        },
        _ => {
            return Err(
                ExpansionError { kind: ErrorKind::ImplTypeNotPath, item: String::from_str(origin) },
            );
        },
    }
    let wrapper_methods = match wrapper_side(item_impl, origin) {
        Err(e) => {
            return Err(e);
        },
        Ok(v) => v,
    };
    let imports = vec![
        String::from_str("use super::*;"),
        cat5("use super::", origin, "Core as ", origin, ";"),
    ];
    assert(texts(imports@) =~= seq![
        "use super::*;"@,
        "use super::"@ + origin@ + "Core as "@ + origin@ + ";"@,
    ]);
    Ok(ImplExpansion {
        core_methods,
        wrapper_methods,
        core_type_name: cat(origin, "Core"),
        imports,
    })
}

} // verus!
