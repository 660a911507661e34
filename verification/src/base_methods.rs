//! The core side of an `impl` expansion: the methods keep their bodies and
//! move into the core type, their visibility becomes `pub(super)`, a reference
//! to `Self` among the parameters becomes a lock guard, and a return type that
//! names the expanded type names `Self` instead.
use vstd::prelude::*;
use vstd::string::*;
use crate::errors::{error_is, ErrorKind, ExpansionError};
use crate::model::{type_text, ArgModel, SignatureModel, TypeModel};
use crate::text::{cat, cat3, join, join_texts, no_spaces, text_eq, texts, without_spaces};
use crate::wrapper_methods::{
    is_self_text, is_self_text_exec, lookups_ok, mentions_self, mentions_self_exec, opt_text,
    signature_lookups_ok,
};

verus! {

/// The text of a parameter type on the core side: a reference to `Self` (or
/// to the expanded type) becomes a guard of the lock, wherever it stands in
/// the generic arguments of a path or in the element of a slice.
pub open spec fn core_arg_type(t: TypeModel, origin: Seq<char>) -> Seq<char>
    decreases t,
{
    match t {
        TypeModel::Path { text, prefix, ident, args, .. } => {
            if args@.len() == 0 {
                text@
            } else {
                prefix@ + ident@ + "<"@ + join(core_arg_types(args@, origin), ","@) + ">"@
            }
        },
        TypeModel::Reference { text, mutable, elem, .. } => {
            if is_self_text(type_text(*elem), origin) {
                if mutable {
                    "&mut RwLockWriteGuard<Self>"@
                } else {
                    "RwLockReadGuard<Self>"@
                }
            } else {
                text@
            }
        },
        TypeModel::Slice { elem, .. } => "["@ + core_arg_type(*elem, origin) + "]"@,
        TypeModel::Tuple { text, .. } => text@,
        TypeModel::Other { text } => text@,
    }
}

/// A parameter typed by a reference to `Self`, or to the expanded type, is a
/// guard of the lock on the core side: a write guard behind `&mut` for a
/// mutable reference, a read guard for a shared one; never the reference as
/// written.
pub proof fn lemma_reference_to_self_becomes_guard(t: TypeModel, origin: Seq<char>)
    requires
        t matches TypeModel::Reference { elem, .. } && (type_text(*elem) == "Self"@ || type_text(
            *elem,
        ) == origin),
    ensures
        t->Reference_mutable ==> core_arg_type(t, origin) == "&mut RwLockWriteGuard<Self>"@,
        !t->Reference_mutable ==> core_arg_type(t, origin) == "RwLockReadGuard<Self>"@,
{
}

/// The core-side texts of a list of generic arguments.
pub open spec fn core_arg_types(args: Seq<TypeModel>, origin: Seq<char>) -> Seq<Seq<char>>
    decreases args,
{
    if args.len() == 0 {
        seq![]
    } else {
        core_arg_types(args.drop_last(), origin).push(core_arg_type(args.last(), origin))
    }
}

/// The text of a parameter type on the core side.
pub fn arg_method_normalization(ty: &TypeModel, original_type_name: &str) -> (r: String)
    ensures
        r@ == core_arg_type(*ty, original_type_name@),
    decreases ty,
{
    let origin = original_type_name;
    match ty {
        TypeModel::Path { text, prefix, ident, args, .. } => {
            if args.len() == 0 {
                String::from_str(text.as_str())
            } else {
                let mut parts: Vec<String> = Vec::new();
                let mut i: usize = 0;
                while i < args.len()
                    invariant
                        i <= args.len(),
                        *ty is Path,
                        ty->Path_args == *args,
                        texts(parts@) == core_arg_types(args@.take(i as int), origin@),
                    decreases args.len() - i,
                {
                    proof {
                        broadcast use vstd::std_specs::vec::axiom_vec_index_decreases;

                        assert(decreases_to!(*args => args[i as int]));
                        assert(decreases_to!(*ty => ty->Path_args));
                    }
                    let part = arg_method_normalization(&args[i], origin);
                    let ghost before = parts@;
                    parts.push(part);
                    assert(args@.take(i + 1).drop_last() =~= args@.take(i as int));
                    assert(texts(parts@) =~= texts(before).push(part@));
                    i = i + 1;
                }
                assert(args@.take(args.len() as int) =~= args@);
                let joined = join_texts(&parts, ",");
                let head = cat3(prefix.as_str(), ident.as_str(), "<");
                cat3(head.as_str(), joined.as_str(), ">")
            }
        },
        TypeModel::Reference { text, mutable, elem, .. } => {
            if is_self_text_exec(elem.text().as_str(), origin) {
                if *mutable {
                    String::from_str("&mut RwLockWriteGuard<Self>")
                } else {
                    String::from_str("RwLockReadGuard<Self>")
                }
            } else {
                String::from_str(text.as_str())
            }
        },
        TypeModel::Slice { elem, .. } => {
            let inner = arg_method_normalization(elem, origin);
            cat3("[", inner.as_str(), "]")
        },
        TypeModel::Tuple { text, .. } => String::from_str(text.as_str()),
        TypeModel::Other { text } => String::from_str(text.as_str()),
    }
}

/// The return type of a core method: `None` when it mentions `Self` in a form
/// that is not supported, `Some(None)` when it stays as written, and
/// `Some(Some(text))` when the expanded type's name gives way to `Self`.
pub open spec fn core_return_plan(t: TypeModel, origin: Seq<char>) -> Option<Option<Seq<char>>> {
    match t {
        TypeModel::Path { prefix, segment, .. } => {
            if mentions_self(segment@, origin) {
                if no_spaces(segment@) == "Vec<Self>"@ || no_spaces(segment@) == "Vec<"@ + origin
                    + ">"@ {
                    Some(Some(prefix@ + "Vec<Self>"@))
                } else if is_self_text(segment@, origin) {
                    Some(Some(prefix@ + "Self"@))
                } else {
                    None
                }
            } else {
                Some(None)
            }
        },
        TypeModel::Reference { head, elem, .. } => {
            let e = type_text(*elem);
            if mentions_self(e, origin) {
                if is_self_text(e, origin) {
                    Some(Some(head@ + " Self"@))
                } else {
                    None
                }
            } else {
                Some(None)
            }
        },
        TypeModel::Slice { elem, .. } => {
            let e = type_text(*elem);
            if mentions_self(e, origin) {
                if is_self_text(e, origin) {
                    Some(Some("[Self]"@))
                } else {
                    None
                }
            } else {
                Some(None)
            }
        },
        _ => if mentions_self(type_text(t), origin) {
            None
        } else {
            Some(None)
        },
    }
}

/// The return type of a core method, when it changes.
pub fn return_method_normalization(ty: &TypeModel, original_type_name: &str, method_name: &str) -> (r:
    Result<Option<String>, ExpansionError>)
    requires
        lookups_ok(*ty, original_type_name@),
    ensures
        match core_return_plan(*ty, original_type_name@) {
            None => r matches Err(e) && error_is(e, ErrorKind::UnsupportedCoreReturn, method_name@),
            Some(o) => r matches Ok(x) && opt_text(x) == o,
        },
{
    let origin = original_type_name;
    let unsupported = ExpansionError {
        kind: ErrorKind::UnsupportedCoreReturn,
        item: String::from_str(method_name),
    };
    match ty {
        TypeModel::Path { prefix, segment, .. } => {
            let seg = segment.as_str();
            if mentions_self_exec(seg, origin) {
                let vec_origin = cat3("Vec<", origin, ">");
                let compact = without_spaces(seg);
                if text_eq(compact.as_str(), "Vec<Self>") || text_eq(
                    compact.as_str(),
                    vec_origin.as_str(),
                ) {
                    Ok(Some(cat(prefix.as_str(), "Vec<Self>")))
                } else if is_self_text_exec(seg, origin) {
                    Ok(Some(cat(prefix.as_str(), "Self")))
                } else {
                    Err(unsupported)
                }
            } else {
                Ok(None)
            }
        },
        TypeModel::Reference { head, elem, .. } => {
            let e = elem.text().as_str();
            if mentions_self_exec(e, origin) {
                if is_self_text_exec(e, origin) {
                    Ok(Some(cat(head.as_str(), " Self")))
                } else {
                    Err(unsupported)
                }
            } else {
                Ok(None)
            }
        },
        TypeModel::Slice { elem, .. } => {
            let e = elem.text().as_str();
            if mentions_self_exec(e, origin) {
                if is_self_text_exec(e, origin) {
                    Ok(Some(String::from_str("[Self]")))
                } else {
                    Err(unsupported)
                }
            } else {
                Ok(None)
            }
        },
        _ => {
            if mentions_self_exec(ty.text().as_str(), origin) {
                Err(unsupported)
            } else {
                Ok(None)
            }
        },
    }
}

/// The core-side texts of the typed parameters of a list of parameters.
pub open spec fn core_param_types(inputs: Seq<ArgModel>, origin: Seq<char>) -> Seq<Seq<char>>
    decreases inputs.len(),
{
    if inputs.len() == 0 {
        seq![]
    } else {
        let prev = core_param_types(inputs.drop_last(), origin);
        match inputs.last() {
            ArgModel::Typed { ty, .. } => prev.push(core_arg_type(ty, origin)),
            _ => prev,
        }
    }
}

/// A method of the core: its visibility, the new text of each typed
/// parameter's type in order, and its new return type when that changes.
pub struct CoreMethod {
    pub vis: String,
    pub arg_types: Vec<String>,
    pub output: Option<String>,
}

/// The core method of a signature, or what was refused.
pub open spec fn core_method_plan(sig: SignatureModel, origin: Seq<char>) -> Result<
    (Seq<Seq<char>>, Option<Seq<char>>),
    ErrorKind,
> {
    let params = core_param_types(sig.inputs@, origin);
    match sig.output {
        None => Ok((params, None)),
        Some(t) => match core_return_plan(t, origin) {
            None => Err(ErrorKind::UnsupportedCoreReturn),
            Some(o) => Ok((params, o)),
        },
    }
}

/// Builds the core method of a signature of an `impl` block of the type
/// named `original_type_name`; its visibility is `pub(super)`.
pub fn method_normalization(sig: &SignatureModel, original_type_name: &str) -> (r: Result<
    CoreMethod,
    ExpansionError,
>)
    requires
        signature_lookups_ok(*sig, original_type_name@),
    ensures
        match core_method_plan(*sig, original_type_name@) {
            Err(kind) => r matches Err(e) && error_is(e, kind, sig.ident@),
            Ok((params, output)) => r matches Ok(m) && m.vis@ == "pub(super)"@ && texts(
                m.arg_types@,
            ) == params && opt_text(m.output) == output,
        },
{
    let mut arg_types: Vec<String> = Vec::new();
    let mut i: usize = 0;
    while i < sig.inputs.len()
        invariant
            i <= sig.inputs.len(),
            texts(arg_types@) == core_param_types(sig.inputs@.take(i as int), original_type_name@),
        decreases sig.inputs.len() - i,
    {
        assert(sig.inputs@.take(i + 1).drop_last() =~= sig.inputs@.take(i as int));
        match &sig.inputs[i] {
            ArgModel::Typed { ty, .. } => {
                let t = arg_method_normalization(ty, original_type_name);
                let ghost before = arg_types@;
                arg_types.push(t);
                assert(texts(arg_types@) =~= texts(before).push(t@));
            },
            _ => {},
        }
        i = i + 1;
    }
    assert(sig.inputs@.take(sig.inputs.len() as int) =~= sig.inputs@);
    let vis = String::from_str("pub(super)");
    match &sig.output {
        None => Ok(CoreMethod { vis, arg_types, output: None }),
        Some(t) => match return_method_normalization(t, original_type_name, sig.ident.as_str()) {
            Err(e) => Err(e),
            Ok(output) => Ok(CoreMethod { vis, arg_types, output }),
        },
    }
}

} // verus!
