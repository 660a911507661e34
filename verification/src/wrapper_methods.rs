//! The wrapper side of an `impl` expansion: every method of the block gets a
//! body that takes the lock of the shared core, converts the parameters that
//! mention `Self`, calls the core method and converts what it returns.
use vstd::prelude::*;
use vstd::string::*;
use crate::errors::{error_is, ErrorKind, ExpansionError};
use crate::model::{find_receiver, receiver_of, type_text, ArgModel, SignatureModel, TypeModel};
use crate::names::{contains_isolated, contains_isolated_name, name_lookup_is_defined, name_lookup_ok};
use crate::text::{cat, cat3, cat4, cat5, no_spaces, push_lines, text_eq, texts, without_spaces};

verus! {

/// `text` names the expanded type as a whole name, as `Self` or by its name.
pub open spec fn mentions_self(text: Seq<char>, origin: Seq<char>) -> bool {
    contains_isolated(text, "Self"@) || contains_isolated(text, origin)
}

/// `text` is exactly `Self` or the name of the expanded type.
pub open spec fn is_self_text(text: Seq<char>, origin: Seq<char>) -> bool {
    text == "Self"@ || text == origin
}

/// The text that the expansion examines of a type for its `Self` checks: the
/// last segment of a path, the element of a reference or a slice, the whole
/// text of any other type.
pub open spec fn checked_text(t: TypeModel) -> Seq<char> {
    match t {
        TypeModel::Path { segment, .. } => segment@,
        TypeModel::Reference { elem, .. } => type_text(*elem),
        TypeModel::Slice { elem, .. } => type_text(*elem),
        _ => type_text(t),
    }
}

/// The `Self` checks on a type are defined.
pub open spec fn lookups_ok(t: TypeModel, origin: Seq<char>) -> bool {
    name_lookup_ok(checked_text(t), "Self"@) && name_lookup_ok(checked_text(t), origin)
}

/// Whether the `Self` checks on a type are defined.
pub fn type_lookups_defined(t: &TypeModel, origin: &str) -> (r: bool)
    ensures
        r == lookups_ok(*t, origin@),
{
    let text = checked_text_of(t);
    name_lookup_is_defined(text.as_str(), "Self") && name_lookup_is_defined(text.as_str(), origin)
}

/// The text that the `Self` checks examine.
pub fn checked_text_of(t: &TypeModel) -> (r: &String)
    ensures
        r@ == checked_text(*t),
{
    match t {
        TypeModel::Path { segment, .. } => segment,
        TypeModel::Reference { elem, .. } => elem.text(),
        TypeModel::Slice { elem, .. } => elem.text(),
        _ => t.text(),
    }
}

/// Whether `text` names the expanded type as a whole name.
pub fn mentions_self_exec(text: &str, origin: &str) -> (r: bool)
    requires
        name_lookup_ok(text@, "Self"@),
        name_lookup_ok(text@, origin@),
    ensures
        r == mentions_self(text@, origin@),
{
    contains_isolated_name(text, "Self") || contains_isolated_name(text, origin)
}

/// Whether `text` is exactly `Self` or the name of the expanded type.
pub fn is_self_text_exec(text: &str, origin: &str) -> (r: bool)
    ensures
        r == is_self_text(text@, origin@),
{
    text_eq(text, "Self") || text_eq(text, origin)
}

/// How an element type relates to `Self`: `Some(true)` when it is `Self`,
/// `Some(false)` when it only mentions it, `None` when it does not.
pub open spec fn self_check(element: Seq<char>, origin: Seq<char>) -> Option<bool> {
    if is_self_text(element, origin) {
        Some(true)
    } else if mentions_self(element, origin) {
        Some(false)
    } else {
        None
    }
}

/// How an element type relates to `Self`.
pub fn self_checker(element_str: &str, origin_type_name: &str) -> (r: Option<bool>)
    requires
        name_lookup_ok(element_str@, "Self"@),
        name_lookup_ok(element_str@, origin_type_name@),
    ensures
        r == self_check(element_str@, origin_type_name@),
{
    if is_self_text_exec(element_str, origin_type_name) {
        Some(true)
    } else if mentions_self_exec(element_str, origin_type_name) {
        Some(false)
    } else {
        None
    }
}

/// The statements that the wrapper method ends with, for its return type,
/// and the return type that replaces the written one; `None` when the return
/// type mentions `Self` in a form that is not supported.
pub open spec fn wrapper_return_plan(
    t: TypeModel,
    call: Seq<char>,
    origin: Seq<char>,
    generics: Seq<char>,
) -> Option<(Seq<Seq<char>>, Option<Seq<char>>)> {
    let ref_guard = origin + "RefLock"@;
    let mut_guard = origin + "MutLock"@;
    match t {
        TypeModel::Path { segment, .. } => {
            if mentions_self(segment@, origin) {
                if no_spaces(segment@) == "Vec<Self>"@ || no_spaces(segment@) == "Vec<"@ + origin
                    + ">"@ {
                    Some(
                        (
                            seq![
                                "let reply = "@ + call + ";"@,
                                "let reply = Self::into_vec_wrapper(reply);"@,
                                "return reply;"@,
                            ],
                            None,
                        ),
                    )
                } else if is_self_text(segment@, origin) {
                    Some((seq!["let reply = "@ + call + ".into();"@, "return reply;"@], None))
                } else {
                    None
                }
            } else {
                Some((seq!["let reply = "@ + call + ";"@, "return reply;"@], None))
            }
        },
        TypeModel::Reference { mutable, elem, .. } => {
            let e = type_text(*elem);
            if mentions_self(e, origin) {
                if is_self_text(e, origin) {
                    Some((seq![call + ";"@, "drop(guard);"@, "return self;"@], None))
                } else {
                    None
                }
            } else if mutable {
                Some(
                    (
                        seq![
                            "let value = "@ + call + ";"@,
                            "let value = (value as *const "@ + e + ") as *mut "@ + e + ";"@,
                            "return "@ + mut_guard + "::new(value, guard);"@,
                        ],
                        Some(mut_guard + "<"@ + e + ">"@),
                    ),
                )
            } else {
                Some(
                    (
                        seq![
                            "let value = "@ + call + ";"@,
                            "let value = value as *const "@ + e + ";"@,
                            "return "@ + ref_guard + "::new(value, guard);"@,
                        ],
                        Some(ref_guard + "<"@ + e + ","@ + generics + ">"@),
                    ),
                )
            }
        },
        TypeModel::Slice { elem, .. } => {
            let e = type_text(*elem);
            if mentions_self(e, origin) {
                if is_self_text(e, origin) {
                    Some(
                        (
                            seq![
                                "let reply = "@ + call + ";"@,
                                "let reply = Self::into_vec_wrapper(reply.to_vec());"@,
                                "return reply;"@,
                            ],
                            Some("Vec<Self>"@),
                        ),
                    )
                } else {
                    None
                }
            } else {
                Some(
                    (
                        seq![
                            "let value = "@ + call + ";"@,
                            "let value = value as *const "@ + e,
                            "return "@ + ref_guard + "::new(value, guard);"@,
                        ],
                        Some(ref_guard + "<"@ + e + ","@ + generics + ">"@),
                    ),
                )
            }
        },
        _ => {
            if mentions_self(type_text(t), origin) {
                None
            } else {
                Some((seq!["let reply = "@ + call + ";"@, "return reply;"@], None))
            }
        },
    }
}

/// The views of an optional text.
pub open spec fn opt_text(o: Option<String>) -> Option<Seq<char>> {
    match o {
        Some(s) => Some(s@),
        None => None,
    }
}

/// Appends to `stmts` the statements with which the wrapper method returns
/// what `call_method_str` gives, and returns the return type that replaces the
/// written one, if any.
pub fn return_method_normalization(
    ty: &TypeModel,
    stmts: &mut Vec<String>,
    call_method_str: &str,
    original_type_name: &str,
    method_name: &str,
    generics: &str,
) -> (r: Result<Option<String>, ExpansionError>)
    requires
        lookups_ok(*ty, original_type_name@),
    ensures
        match wrapper_return_plan(*ty, call_method_str@, original_type_name@, generics@) {
            None => r matches Err(e) && error_is(
                e,
                ErrorKind::UnsupportedWrapperReturn,
                method_name@,
            ) && final(stmts)@ == old(stmts)@,
            Some(plan) => r matches Ok(o) && texts(final(stmts)@) == texts(old(stmts)@) + plan.0
                && opt_text(o) == plan.1,
        },
{
    let call = call_method_str;
    let origin = original_type_name;
    let ref_guard = cat(origin, "RefLock");
    let mut_guard = cat(origin, "MutLock");
    let unsupported = ExpansionError {
        kind: ErrorKind::UnsupportedWrapperReturn,
        item: String::from_str(method_name),
    };
    match ty {
        TypeModel::Path { segment, .. } => {
            let seg = segment.as_str();
            if mentions_self_exec(seg, origin) {
                let vec_origin = cat3("Vec<", origin, ">");
                let compact = without_spaces(seg);
                if text_eq(compact.as_str(), "Vec<Self>") || text_eq(
                    compact.as_str(),
                    vec_origin.as_str(),
                ) {
                    let new = vec![
                        cat3("let reply = ", call, ";"),
                        String::from_str("let reply = Self::into_vec_wrapper(reply);"),
                        String::from_str("return reply;"),
                    ];
                    assert(texts(new@) =~= seq![
                        "let reply = "@ + call@ + ";"@,
                        "let reply = Self::into_vec_wrapper(reply);"@,
                        "return reply;"@,
                    ]);
                    push_lines(stmts, new);
                    Ok(None)
                } else if is_self_text_exec(seg, origin) {
                    let new = vec![
                        cat3("let reply = ", call, ".into();"),
                        String::from_str("return reply;"),
                    ];
                    assert(texts(new@) =~= seq!["let reply = "@ + call@ + ".into();"@, "return reply;"@]);
                    push_lines(stmts, new);
                    Ok(None)
                } else {
                    Err(unsupported)
                }
            } else {
                let new = vec![cat3("let reply = ", call, ";"), String::from_str("return reply;")];
                assert(texts(new@) =~= seq!["let reply = "@ + call@ + ";"@, "return reply;"@]);
                push_lines(stmts, new);
                Ok(None)
            }
        },
        TypeModel::Reference { mutable, elem, .. } => {
            let e = elem.text().as_str();
            if mentions_self_exec(e, origin) {
                if is_self_text_exec(e, origin) {
                    let new = vec![
                        cat(call, ";"),
                        String::from_str("drop(guard);"),
                        String::from_str("return self;"),
                    ];
                    assert(texts(new@) =~= seq![call@ + ";"@, "drop(guard);"@, "return self;"@]);
                    push_lines(stmts, new);
                    Ok(None)
                } else {
                    Err(unsupported)
                }
            } else if *mutable {
                let new = vec![
                    cat3("let value = ", call, ";"),
                    cat5("let value = (value as *const ", e, ") as *mut ", e, ";"),
                    cat3("return ", mut_guard.as_str(), "::new(value, guard);"),
                ];
                assert(texts(new@) =~= seq![
                    "let value = "@ + call@ + ";"@,
                    "let value = (value as *const "@ + e@ + ") as *mut "@ + e@ + ";"@,
                    "return "@ + mut_guard@ + "::new(value, guard);"@,
                ]);
                push_lines(stmts, new);
                Ok(Some(cat4(mut_guard.as_str(), "<", e, ">")))
            } else {
                let new = vec![
                    cat3("let value = ", call, ";"),
                    cat3("let value = value as *const ", e, ";"),
                    cat3("return ", ref_guard.as_str(), "::new(value, guard);"),
                ];
                assert(texts(new@) =~= seq![
                    "let value = "@ + call@ + ";"@,
                    "let value = value as *const "@ + e@ + ";"@,
                    "return "@ + ref_guard@ + "::new(value, guard);"@,
                ]);
                push_lines(stmts, new);
                let out = cat5(ref_guard.as_str(), "<", e, ",", generics);
                Ok(Some(cat(out.as_str(), ">")))
            }
        },
        TypeModel::Slice { elem, .. } => {
            let e = elem.text().as_str();
            if mentions_self_exec(e, origin) {
                if is_self_text_exec(e, origin) {
                    let new = vec![
                        cat3("let reply = ", call, ";"),
                        String::from_str("let reply = Self::into_vec_wrapper(reply.to_vec());"),
                        String::from_str("return reply;"),
                    ];
                    assert(texts(new@) =~= seq![
                        "let reply = "@ + call@ + ";"@,
                        "let reply = Self::into_vec_wrapper(reply.to_vec());"@,
                        "return reply;"@,
                    ]);
                    push_lines(stmts, new);
                    Ok(Some(String::from_str("Vec<Self>")))
                } else {
                    Err(unsupported)
                }
            } else {
                let new = vec![
                    cat3("let value = ", call, ";"),
                    cat("let value = value as *const ", e),
                    cat3("return ", ref_guard.as_str(), "::new(value, guard);"),
                ];
                assert(texts(new@) =~= seq![
                    "let value = "@ + call@ + ";"@,
                    "let value = value as *const "@ + e@,
                    "return "@ + ref_guard@ + "::new(value, guard);"@,
                ]);
                push_lines(stmts, new);
                let out = cat5(ref_guard.as_str(), "<", e, ",", generics);
                Ok(Some(cat(out.as_str(), ">")))
            }
        },
        _ => {
            let t = ty.text().as_str();
            if mentions_self_exec(t, origin) {
                Err(unsupported)
            } else {
                let new = vec![cat3("let reply = ", call, ";"), String::from_str("return reply;")];
                assert(texts(new@) =~= seq!["let reply = "@ + call@ + ";"@, "return reply;"@]);
                push_lines(stmts, new);
                Ok(None)
            }
        },
    }
}

/// The statement that converts a parameter of the wrapper method before the
/// call: `Some(None)` when it needs none, `None` when its type mentions `Self`
/// in a form that is not supported.
pub open spec fn wrapper_arg_plan(t: TypeModel, name: Seq<char>, origin: Seq<char>) -> Option<
    Option<Seq<char>>,
> {
    match t {
        TypeModel::Path { segment, ident, args, .. } => {
            if mentions_self(segment@, origin) {
                if ident@ == "Vec"@ && args@.len() == 1 && is_self_text(type_text(args@[0]), origin) {
                    Some(Some("let "@ + name + " = Self::into_vec_base("@ + name + ");"@))
                } else if is_self_text(segment@, origin) {
                    Some(Some("let "@ + name + " = "@ + name + ".into();"@))
                } else {
                    None
                }
            } else {
                Some(None)
            }
        },
        TypeModel::Slice { elem, .. } => match self_check(type_text(*elem), origin) {
            Some(true) => Some(
                Some("let "@ + name + " = &Self::into_vec_base("@ + name + ".to_vec());"@),
            ),
            Some(false) => None,
            None => Some(None),
        },
        TypeModel::Reference { mutable, elem, .. } => if !mutable && self_slice(*elem, origin) {
            Some(Some("let "@ + name + " = &Self::into_vec_base("@ + name + ".to_vec());"@))
        } else {
            match self_check(type_text(*elem), origin) {
            Some(true) => if mutable {
                Some(Some("let "@ + name + " = &mut "@ + name + "._core.write().unwrap();"@))
            } else {
                Some(Some("let "@ + name + " = "@ + name + "._core.read().unwrap();"@))
            },
            Some(false) => None,
            None => Some(None),
        }
        },
        _ => if mentions_self(type_text(t), origin) {
            None
        } else {
            Some(None)
        },
    }
}

/// The type is a slice of `Self` (or of the expanded type).
pub open spec fn self_slice(t: TypeModel, origin: Seq<char>) -> bool {
    match t {
        TypeModel::Slice { elem, .. } => is_self_text(type_text(*elem), origin),
        _ => false,
    }
}

fn is_self_slice(t: &TypeModel, origin: &str) -> (r: bool)
    ensures
        r == self_slice(*t, origin@),
{
    match t {
        TypeModel::Slice { elem, .. } => is_self_text_exec(elem.text().as_str(), origin),
        _ => false,
    }
}

/// Appends to `stmts` the statement that converts the parameter `arg_name` of
/// type `ty` before the call, when its type needs one.
pub fn arg_method_normalization(
    ty: &TypeModel,
    arg_name: &str,
    origin_type_name: &str,
    stmts: &mut Vec<String>,
    method_name: &str,
) -> (r: Result<(), ExpansionError>)
    requires
        lookups_ok(*ty, origin_type_name@),
    ensures
        match wrapper_arg_plan(*ty, arg_name@, origin_type_name@) {
            None => r matches Err(e) && error_is(e, ErrorKind::UnsupportedParameter, method_name@)
                && final(stmts)@ == old(stmts)@,
            Some(None) => r is Ok && final(stmts)@ == old(stmts)@,
            Some(Some(stmt)) => r is Ok && texts(final(stmts)@) == texts(old(stmts)@).push(stmt),
        },
{
    let origin = origin_type_name;
    let n = arg_name;
    let unsupported = ExpansionError {
        kind: ErrorKind::UnsupportedParameter,
        item: String::from_str(method_name),
    };
    let ghost before = stmts@;
    match ty {
        TypeModel::Path { segment, ident, args, .. } => {
            let seg = segment.as_str();
            if mentions_self_exec(seg, origin) {
                if text_eq(ident.as_str(), "Vec") && args.len() == 1 && is_self_text_exec(
                    args[0].text().as_str(),
                    origin,
                ) {
                    stmts.push(cat5("let ", n, " = Self::into_vec_base(", n, ");"));
                } else if is_self_text_exec(seg, origin) {
                    stmts.push(cat5("let ", n, " = ", n, ".into();"));
                } else {
                    return Err(unsupported);
                }
            }
        },
        TypeModel::Slice { elem, .. } => {
            match self_checker(elem.text().as_str(), origin) {
                Some(true) => {
                    stmts.push(cat5("let ", n, " = &Self::into_vec_base(", n, ".to_vec());"));
                },
                Some(false) => {
                    return Err(unsupported);
                },
                None => {},
            }
        },
        TypeModel::Reference { mutable, elem, .. } => {
            if !*mutable && is_self_slice(elem, origin) {
                stmts.push(cat5("let ", n, " = &Self::into_vec_base(", n, ".to_vec());"));
                assert(texts(stmts@) =~= texts(before).push(stmts@.last()@));
                return Ok(());
            }
            match self_checker(elem.text().as_str(), origin) {
                Some(true) => {
                    if *mutable {
                        stmts.push(cat5("let ", n, " = &mut ", n, "._core.write().unwrap();"));
                    } else {
                        stmts.push(cat5("let ", n, " = ", n, "._core.read().unwrap();"));
                    }
                },
                Some(false) => {
                    return Err(unsupported);
                },
                None => {},
            }
        },
        _ => {
            if mentions_self_exec(ty.text().as_str(), origin) {
                return Err(unsupported);
            }
        },
    }
    assert(texts(stmts@) =~= texts(before) || texts(stmts@) =~= texts(before).push(stmts@.last()@));
    Ok(())
}

/// The name of a parameter as the generated code uses it: its identifier, or
/// nothing when its pattern is not one.
pub open spec fn arg_name(a: ArgModel) -> Seq<char> {
    match a {
        ArgModel::Typed { name: Some(n), .. } => n@,
        _ => seq![],
    }
}

/// What the parameter at `i` adds to the argument list of the call: its
/// identifier, followed by a comma unless it is the last parameter.
pub open spec fn arg_piece(inputs: Seq<ArgModel>, i: int) -> Seq<char> {
    match inputs[i] {
        ArgModel::Typed { name: Some(n), .. } => if i < inputs.len() - 1 {
            n@ + ","@
        } else {
            n@
        },
        _ => seq![],
    }
}

/// The argument list of the call, over the first `k` parameters.
pub open spec fn call_args(inputs: Seq<ArgModel>, k: int) -> Seq<char>
    decreases k,
{
    if k <= 0 {
        seq![]
    } else {
        call_args(inputs, k - 1) + arg_piece(inputs, k - 1)
    }
}

/// The conversion statements of the first `k` parameters; `None` when one of
/// them is not supported.
pub open spec fn arg_stmts(inputs: Seq<ArgModel>, origin: Seq<char>, k: int) -> Option<
    Seq<Seq<char>>,
>
    decreases k,
{
    if k <= 0 {
        Some(seq![])
    } else {
        match arg_stmts(inputs, origin, k - 1) {
            None => None,
            Some(prev) => match inputs[k - 1] {
                ArgModel::Typed { ty, .. } => match wrapper_arg_plan(
                    ty,
                    arg_name(inputs[k - 1]),
                    origin,
                ) {
                    None => None,
                    Some(None) => Some(prev),
                    Some(Some(stmt)) => Some(prev.push(stmt)),
                },
                _ => Some(prev),
            },
        }
    }
}

proof fn lemma_arg_stmts_stay_refused(inputs: Seq<ArgModel>, origin: Seq<char>, k: int, n: int)
    requires
        k <= n,
        arg_stmts(inputs, origin, k) is None,
    ensures
        arg_stmts(inputs, origin, n) is None,
    decreases n - k,
{
    if k < n {
        lemma_arg_stmts_stay_refused(inputs, origin, k + 1, n);
    }
}

/// The `Self` checks on every typed parameter and on the return type are defined.
pub open spec fn signature_lookups_ok(sig: SignatureModel, origin: Seq<char>) -> bool {
    &&& forall|i: int|
        0 <= i < sig.inputs@.len() ==> match #[trigger] sig.inputs@[i] {
            ArgModel::Typed { ty, .. } => lookups_ok(ty, origin),
            _ => true,
        }
    &&& sig.output matches Some(t) ==> lookups_ok(t, origin)
}

/// Whether the `Self` checks of a signature are defined.
pub fn signature_lookups_defined(sig: &SignatureModel, origin: &str) -> (r: bool)
    ensures
        r == signature_lookups_ok(*sig, origin@),
{
    let mut i: usize = 0;
    while i < sig.inputs.len()
        invariant
            i <= sig.inputs.len(),
            forall|j: int|
                0 <= j < i ==> match #[trigger] sig.inputs@[j] {
                    ArgModel::Typed { ty, .. } => lookups_ok(ty, origin@),
                    _ => true,
                },
        decreases sig.inputs.len() - i,
    {
        match &sig.inputs[i] {
            ArgModel::Typed { ty, .. } => {
                if !type_lookups_defined(ty, origin) {
                    return false;
                }
            },
            _ => {},
        }
        i = i + 1;
    }
    match &sig.output {
        Some(t) => type_lookups_defined(t, origin),
        None => true,
    }
}

/// A method of the wrapper: its visibility, its body and, when the written
/// return type is replaced, the new one.
pub struct WrapperMethod {
    pub vis: String,
    pub stmts: Vec<String>,
    pub output: Option<String>,
}

/// The visibility of a wrapper method: `pub(super)` becomes
/// `pub(in super::super)`, since the method moves one module down.
pub open spec fn wrapper_vis(vis: Seq<char>) -> Seq<char> {
    if vis == "pub(super)"@ {
        "pub(in super::super)"@
    } else {
        vis
    }
}

/// The statement that takes the lock, as the receiver asks.
pub open spec fn guard_stmts(receiver: Option<bool>) -> Seq<Seq<char>> {
    match receiver {
        Some(true) => seq!["let mut guard = self._core.write().unwrap();"@],
        Some(false) => seq!["let guard = self._core.read().unwrap();"@],
        None => seq![],
    }
}

/// The call of the core method: through the guard when there is a receiver,
/// through the core type otherwise.
pub open spec fn core_call(sig: SignatureModel, origin: Seq<char>) -> Seq<char> {
    let args = call_args(sig.inputs@, sig.inputs@.len() as int);
    if receiver_of(sig.inputs@) is Some {
        "guard."@ + sig.ident@ + "("@ + args + ")"@
    } else {
        origin + "Core::"@ + sig.ident@ + "("@ + args + ")"@
    }
}

/// The wrapper method of a signature: its visibility, its statements and its
/// new return type; or what was refused.
pub open spec fn wrapper_method_plan(
    sig: SignatureModel,
    origin: Seq<char>,
    generics: Seq<char>,
) -> Result<(Seq<char>, Seq<Seq<char>>, Option<Seq<char>>), ErrorKind> {
    let guard = guard_stmts(receiver_of(sig.inputs@));
    let call = core_call(sig, origin);
    match arg_stmts(sig.inputs@, origin, sig.inputs@.len() as int) {
        None => Err(ErrorKind::UnsupportedParameter),
        Some(a) => match sig.output {
            None => Ok((wrapper_vis(sig.vis@), guard + a + seq![call + ";"@], None)),
            Some(t) => match wrapper_return_plan(t, call, origin, generics) {
                None => Err(ErrorKind::UnsupportedWrapperReturn),
                Some(p) => Ok((wrapper_vis(sig.vis@), guard + a + p.0, p.1)),
            },
        },
    }
}

/// Appends the conversion statements of the parameters to `stmts` and
/// returns the argument list of the call.
fn convert_parameters(sig: &SignatureModel, origin: &str, stmts: &mut Vec<String>) -> (r: Result<
    String,
    ExpansionError,
>)
    requires
        signature_lookups_ok(*sig, origin@),
    ensures
        match arg_stmts(sig.inputs@, origin@, sig.inputs@.len() as int) {
            None => r matches Err(e) && error_is(e, ErrorKind::UnsupportedParameter, sig.ident@),
            Some(a) => r matches Ok(args) && args@ == call_args(
                sig.inputs@,
                sig.inputs@.len() as int,
            ) && texts(final(stmts)@) == texts(old(stmts)@) + a,
        },
{
    let method_name = sig.ident.as_str();
    let ghost start = texts(stmts@);
    let mut args = String::new();
    let len_args = sig.inputs.len();
    let mut i: usize = 0;
    while i < len_args
        invariant
            i <= len_args,
            len_args == sig.inputs@.len(),
            method_name@ == sig.ident@,
            signature_lookups_ok(*sig, origin@),
            args@ == call_args(sig.inputs@, i as int),
            arg_stmts(sig.inputs@, origin@, i as int) matches Some(a) && texts(stmts@) == start + a,
        decreases len_args - i,
    {
        match &sig.inputs[i] {
            ArgModel::Typed { name, ty } => {
                let arg_name_text = match name {
                    Some(n) => {
                        args.append(n.as_str());
                        if i < len_args - 1 {
                            args.append(",");
                        }
                        String::from_str(n.as_str())
                    },
                    None => String::new(),
                };
                assert(arg_name_text@ == arg_name(sig.inputs@[i as int]));
                assert(lookups_ok(*ty, origin@));
                let res = arg_method_normalization(
                    ty,
                    arg_name_text.as_str(),
                    origin,
                    stmts,
                    method_name,
                );
                match res {
                    Err(e) => {
                        assert(arg_stmts(sig.inputs@, origin@, i + 1) is None);
                        proof {
                            lemma_arg_stmts_stay_refused(sig.inputs@, origin@, i + 1, len_args as int);
                        }
                        return Err(e);
                    },
                    Ok(()) => {},
                }
            },
            ArgModel::Receiver { .. } => {},
        }
        i = i + 1;
    }
    Ok(args)
}

/// Builds the wrapper method of a signature of an `impl` block of the type
/// named `origin_type_name`, whose generic parameters read `generics`.
pub fn method_normalization(sig: &SignatureModel, origin_type_name: &str, generics: &str) -> (r:
    Result<WrapperMethod, ExpansionError>)
    requires
        signature_lookups_ok(*sig, origin_type_name@),
    ensures
        match wrapper_method_plan(*sig, origin_type_name@, generics@) {
            Err(kind) => r matches Err(e) && error_is(e, kind, sig.ident@),
            Ok((vis, stmts, output)) => r matches Ok(m) && m.vis@ == vis && texts(m.stmts@)
                == stmts && opt_text(m.output) == output,
        },
{
    let origin = origin_type_name;
    let method_name = sig.ident.as_str();
    let vis = if text_eq(sig.vis.as_str(), "pub(super)") {
        String::from_str("pub(in super::super)")
    } else {
        String::from_str(sig.vis.as_str())
    };
    let receiver = find_receiver(&sig.inputs);
    let mut stmts: Vec<String> = Vec::new();
    match receiver {
        Some(true) => {
            stmts.push(String::from_str("let mut guard = self._core.write().unwrap();"));
        },
        Some(false) => {
            stmts.push(String::from_str("let guard = self._core.read().unwrap();"));
        },
        None => {},
    }
    let ghost guard = guard_stmts(receiver);
    assert(texts(stmts@) =~= guard);
    let args = match convert_parameters(sig, origin, &mut stmts) {
        Err(e) => {
            return Err(e);
        },
        Ok(args) => args,
    };
    let args = args.as_str();
    let call = if receiver.is_some() {
        cat5("guard.", method_name, "(", args, ")")
    } else {
        let core = cat(origin, "Core::");
        cat5(core.as_str(), method_name, "(", args, ")")
    };
    assert(call@ == core_call(*sig, origin@));
    match &sig.output {
        None => {
            stmts.push(cat(call.as_str(), ";"));
            Ok(WrapperMethod { vis, stmts, output: None })
        },
        Some(t) => {
            let res = return_method_normalization(
                t,
                &mut stmts,
                call.as_str(),
                origin,
                method_name,
                generics,
            );
            match res {
                Err(e) => Err(e),
                Ok(output) => Ok(WrapperMethod { vis, stmts, output }),
            }
        },
    }
}

} // verus!
