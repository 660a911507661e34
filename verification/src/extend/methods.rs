//! Rewrites of single methods for the wrapper: the body that forwards to the
//! base type through the lock, the return type that names `Self`, and the
//! visibility.
use vstd::prelude::*;
use vstd::string::*;
use crate::extend::impls::{convert_punctuated_to_string, reference_for, reference_text};
use crate::extend::syntax::{
    error_matches, str_to_stmt, ErrorView, ExtendError, ExtendErrorKind, ImplEntry,
    MethodModel,
};
use crate::model::{ArgModel, TypeModel};
use crate::text::{cat, cat3, text_eq, texts};
use crate::wrapper_methods::call_args;

verus! {

/// A body rewrite: `None` when the method keeps its body, `Some(stmts)` for
/// its new statements.
pub type BlockPlan = Option<Seq<Seq<char>>>;

/// `r` is the rewrite `p`: the method keeps its body, or it gets the new
/// statements, or one of them did not parse and is refused.
pub open spec fn block_result_is(r: Result<Option<Vec<String>>, ExtendError>, p: BlockPlan) -> bool {
    match p {
        None => r matches Ok(None),
        Some(st) => (r matches Ok(Some(v)) && texts(v@) == st) || (r matches Err(x) && x.kind
            == ExtendErrorKind::StatementConstruction && x.method@.len() == 0 && st.contains(
            x.text@,
        )),
    }
}

/// Makes a public method private; any other item stays as it is.
pub fn remove_pub_from_impl_item(item: &mut ImplEntry)
    ensures
        match *old(item) {
            ImplEntry::Fn(m) => *final(item) matches ImplEntry::Fn(n) && n.sig.vis@ == (if m.sig.vis@
                == "pub"@ {
                ""@
            } else {
                m.sig.vis@
            }) && n.sig.ident == m.sig.ident && n.sig.inputs == m.sig.inputs && n.sig.output
                == m.sig.output && n.sig.attrs == m.sig.attrs && n.stmts == m.stmts,
            ImplEntry::Other => *final(item) is Other,
        },
{
    match item {
        ImplEntry::Fn(method) => {
            if text_eq(method.sig.vis.as_str(), "pub") {
                proof {
                    reveal_strlit("");
                }
                method.sig.vis = String::new();
                assert(method.sig.vis@ =~= ""@);
            }
        },
        ImplEntry::Other => {},
    }
}

/// `code` as a one-statement body.
pub open spec fn single_plan(code: Seq<char>) -> BlockPlan {
    Some(seq![code])
}

/// The body for a return type that names `Self`: a wrapper around what the
/// base gives for `Self`, or the call followed by `return self;` for a
/// reference to `Self`; `None` for any other return type.
pub open spec fn extend_block_plan(
    output: Option<TypeModel>,
    reference: Seq<char>,
    ident: Seq<char>,
    inputs: Seq<char>,
) -> BlockPlan {
    match output {
        Some(TypeModel::Path { ident: id, .. }) => if id@ == "Self"@ {
            single_plan(
                "return Self{base: Arc::new(RwLock::new("@ + reference + ident + "("@ + inputs
                    + ")))};"@,
            )
        } else {
            None
        },
        Some(TypeModel::Reference { elem, .. }) => match *elem {
            TypeModel::Path { ident: id, .. } => if id@ == "Self"@ {
                Some(seq![reference + ident + "("@ + inputs + ");"@, "return self;"@])
            } else {
                None
            },
            _ => None,
        },
        _ => None,
    }
}

fn one_stmt(code: &str) -> (r: Result<Option<Vec<String>>, ExtendError>)
    ensures
        block_result_is(r, single_plan(code@)),
{
    match str_to_stmt(code) {
        Ok(s) => {
            let ghost sv = s@;
            let mut v: Vec<String> = Vec::new();
            v.push(s);
            assert(texts(v@) =~= seq![sv]);
            Ok(Some(v))
        },
        Err(e) => {
            assert(seq![code@][0] == code@);
            Err(e)
        },
    }
}

/// The body that a return type naming `Self` calls for.
pub fn remake_block_extend(
    return_type: &Option<TypeModel>,
    reference: &str,
    ident: &str,
    inputs: &str,
) -> (r: Result<Option<Vec<String>>, ExtendError>)
    ensures
        block_result_is(r, extend_block_plan(*return_type, reference@, ident@, inputs@)),
{
    match return_type {
        Some(TypeModel::Path { ident: id, .. }) => {
            if text_eq(id.as_str(), "Self") {
                let a = cat3("return Self{base: Arc::new(RwLock::new(", reference, ident);
                let b = cat3(a.as_str(), "(", inputs);
                let code = cat(b.as_str(), ")))};");
                one_stmt(code.as_str())
            } else {
                Ok(None)
            }
        },
        Some(TypeModel::Reference { elem, .. }) => match &**elem {
            TypeModel::Path { ident: id, .. } => {
                if text_eq(id.as_str(), "Self") {
                    let a = cat3(reference, ident, "(");
                    let code = cat3(a.as_str(), inputs, ");");
                    proof {
                        reveal_strlit("return self;");
                    }
                    let first = match str_to_stmt(code.as_str()) {
                        Ok(s) => s,
                        Err(e) => {
                            assert(seq![code@, "return self;"@][0] == code@);
                            return Err(e);
                        },
                    };
                    let second = match str_to_stmt("return self;") {
                        Ok(s) => s,
                        Err(e) => {
                            assert(seq![code@, "return self;"@][1] == "return self;"@);
                            return Err(e);
                        },
                    };
                    let ghost fv = first@;
                    let ghost sv = second@;
                    let mut v: Vec<String> = Vec::new();
                    v.push(first);
                    v.push(second);
                    assert(texts(v@) =~= seq![fv, sv]);
                    Ok(Some(v))
                } else {
                    Ok(None)
                }
            },
            _ => Ok(None),
        },
        _ => Ok(None),
    }
}

/// The new body of a method for the wrapper: it forwards to the base type,
/// through the write lock for a `mut` receiver, the read lock for another
/// receiver, or the path of `name_base_type` for an associated function.
/// `None` for a method that returns a reference to something other than
/// `Self`, which the wrapper cannot forward.
pub open spec fn remake_plan(m: MethodModel, name_base_type: Seq<char>) -> BlockPlan {
    let reference = reference_text(m.sig.inputs@, name_base_type);
    let inputs = call_args(m.sig.inputs@, m.sig.inputs@.len() as int);
    match m.sig.output {
        Some(t) => match extend_block_plan(Some(t), reference, m.sig.ident@, inputs) {
            Some(st) => Some(st),
            None => if t is Reference {
                None
            } else {
                single_plan("return "@ + reference + m.sig.ident@ + "("@ + inputs + ");"@)
            },
        },
        None => single_plan(reference + m.sig.ident@ + "("@ + inputs + ");"@),
    }
}

/// The new body of a method for the wrapper.
pub fn remake_block(method: &MethodModel, name_base_type: &str) -> (r: Result<
    Option<Vec<String>>,
    ExtendError,
>)
    ensures
        block_result_is(r, remake_plan(*method, name_base_type@)),
{
    let sig = &method.sig;
    let reference = reference_for(sig, name_base_type);
    let inputs = convert_punctuated_to_string(&sig.inputs);
    match &sig.output {
        Some(t) => {
            let extended = remake_block_extend(
                &sig.output,
                reference.as_str(),
                sig.ident.as_str(),
                inputs.as_str(),
            );
            match extended {
                Err(e) => Err(e),
                Ok(Some(st)) => Ok(Some(st)),
                Ok(None) => {
                    if let TypeModel::Reference { .. } = t {
                        Ok(None)
                    } else {
                        let a = cat3("return ", reference.as_str(), sig.ident.as_str());
                        let b = cat3(a.as_str(), "(", inputs.as_str());
                        let code = cat(b.as_str(), ");");
                        one_stmt(code.as_str())
                    }
                },
            }
        },
        None => {
            let a = cat3(reference.as_str(), sig.ident.as_str(), "(");
            let code = cat3(a.as_str(), inputs.as_str(), ");");
            one_stmt(code.as_str())
        },
    }
}

/// The new body of an item for the wrapper: `None` for an item that is not a
/// method or a method that keeps its body.
pub open spec fn change_plan(item: ImplEntry, name_base_type: Seq<char>) -> BlockPlan {
    match item {
        ImplEntry::Fn(m) => remake_plan(m, name_base_type),
        ImplEntry::Other => None,
    }
}

/// The new body of an item for the wrapper.
pub fn change_block_method(original_impl_item: &ImplEntry, name_base_type: &str) -> (r: Result<
    Option<Vec<String>>,
    ExtendError,
>)
    ensures
        block_result_is(r, change_plan(*original_impl_item, name_base_type@)),
{
    match original_impl_item {
        ImplEntry::Fn(method) => remake_block(method, name_base_type),
        ImplEntry::Other => Ok(None),
    }
}

/// The typed parameters of a list, in order.
pub open spec fn typed_only(s: Seq<ArgModel>) -> Seq<ArgModel>
    decreases s.len(),
{
    if s.len() == 0 {
        s
    } else {
        (if s[0] is Typed {
            seq![s[0]]
        } else {
            seq![]
        }) + typed_only(s.skip(1))
    }
}

/// Keeps only the typed parameters, in order.
pub fn filter_inputs(inputs: &mut Vec<ArgModel>)
    ensures
        final(inputs)@ == typed_only(old(inputs)@),
{
    let mut rest: Vec<ArgModel> = Vec::new();
    std::mem::swap(inputs, &mut rest);
    let ghost all = rest@;
    assert(inputs@ + typed_only(rest@) =~= typed_only(all));
    while rest.len() > 0
        invariant
            inputs@ + typed_only(rest@) == typed_only(all),
        decreases rest.len(),
    {
        let ghost before = rest@;
        let a = rest.remove(0);
        assert(rest@ =~= before.skip(1));
        if let ArgModel::Typed { .. } = a {
            let ghost ins = inputs@;
            inputs.push(a);
            assert(inputs@ + typed_only(rest@) =~= ins + typed_only(before));
        } else {
            assert(inputs@ + typed_only(rest@) =~= inputs@ + typed_only(before));
        }
    }
    assert(typed_only(rest@) =~= Seq::<ArgModel>::empty());
    assert(inputs@ =~= typed_only(all));
}

/// The type `Self`.
pub open spec fn is_self_path(t: TypeModel) -> bool {
    t matches TypeModel::Path { text, prefix, ident, arguments, segment, args } && text@ == "Self"@
        && prefix@.len() == 0 && ident@ == "Self"@ && arguments@.len() == 0 && segment@ == "Self"@
        && args@.len() == 0
}

fn self_path() -> (r: TypeModel)
    ensures
        is_self_path(r),
{
    TypeModel::Path {
        text: String::from_str("Self"),
        prefix: String::new(),
        ident: String::from_str("Self"),
        arguments: String::new(),
        segment: String::from_str("Self"),
        args: Vec::new(),
    }
}

/// A method whose return type is a path ending in `original_struct_name`
/// returns `Self` instead; anything else stays as it is.
pub fn transform_method_return_type(item_impl: &mut ImplEntry, original_struct_name: &str)
    ensures
        match *old(item_impl) {
            ImplEntry::Fn(m) => *final(item_impl) matches ImplEntry::Fn(n) && n.sig.vis
                == m.sig.vis && n.sig.ident == m.sig.ident && n.sig.inputs == m.sig.inputs
                && n.sig.attrs == m.sig.attrs && n.stmts == m.stmts && (if m.sig.output matches Some(
                TypeModel::Path { ident, .. },
            ) && ident@ == original_struct_name@ {
                n.sig.output matches Some(t) && is_self_path(t)
            } else {
                n.sig.output == m.sig.output
            }),
            ImplEntry::Other => *final(item_impl) is Other,
        },
{
    match item_impl {
        ImplEntry::Fn(method) => {
            let rename = match &method.sig.output {
                Some(TypeModel::Path { ident, .. }) => text_eq(ident.as_str(), original_struct_name),
                _ => false,
            };
            if rename {
                method.sig.output = Some(self_path());
            }
        },
        ImplEntry::Other => {},
    }
}

} // verus!
