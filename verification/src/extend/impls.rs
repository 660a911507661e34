//! The split of an `impl` block between the base type and its wrapper.
use vstd::prelude::*;
use vstd::string::*;
use crate::extend::syntax::{
    append_rebuilt, error_matches, error_view, parses_as_statement, parses_as_type,
    push_rebuilt, rebuilt_views, ErrorView, ExtendError, ExtendErrorKind, ImplEntry, MethodModel,
    RebuiltItem, RebuiltView,
};
use crate::model::{find_receiver, receiver_of, type_text, ArgModel, SignatureModel, TypeModel};
use crate::text::{cat, cat3, contains_seq, contains_text, replace_all, replace_text, text_eq, texts};
use crate::wrapper_methods::call_args;

verus! {

/// The attribute that keeps a method on the wrapper.
pub const ATTRIBUTE_WRAPPER_NAME: &'static str = "wrapper_method";

/// The attribute that lets the wrapper forward to a private method.
pub const VISIBLE_METHOD: &'static str = "visible_to_wrapper";

/// The parameter is typed by a path whose last segment is the type's name or
/// `Self`.
pub open spec fn self_type_arg(a: ArgModel, name: Seq<char>) -> bool {
    match a {
        ArgModel::Typed { ty, .. } => match ty {
            TypeModel::Path { ident, .. } => ident@ == name || ident@ == "Self"@,
            _ => false,
        },
        _ => false,
    }
}

fn is_self_type_arg(arg: &ArgModel, original_struct_name: &str) -> (r: bool)
    ensures
        r == self_type_arg(*arg, original_struct_name@),
{
    match arg {
        ArgModel::Typed { ty, .. } => match ty {
            TypeModel::Path { ident, .. } => text_eq(ident.as_str(), original_struct_name)
                || text_eq(ident.as_str(), "Self"),
            _ => false,
        },
        _ => false,
    }
}

/// Some parameter is typed by the type's name or `Self`.
pub open spec fn has_self_arg(inputs: Seq<ArgModel>, name: Seq<char>) -> bool {
    exists|i: int| 0 <= i < inputs.len() && #[trigger] self_type_arg(inputs[i], name)
}

/// Some attribute's text holds `word`.
pub open spec fn attr_mentions(attrs: Seq<String>, word: Seq<char>) -> bool {
    exists|j: int| 0 <= j < attrs.len() && #[trigger] contains_seq(attrs[j]@, word)
}

fn any_self_arg(inputs: &Vec<ArgModel>, name: &str) -> (r: bool)
    ensures
        r == has_self_arg(inputs@, name@),
{
    let mut i: usize = 0;
    while i < inputs.len()
        invariant
            i <= inputs.len(),
            forall|j: int| 0 <= j < i ==> !#[trigger] self_type_arg(inputs@[j], name@),
        decreases inputs.len() - i,
    {
        if is_self_type_arg(&inputs[i], name) {
            return true;
        }
        i = i + 1;
    }
    false
}

fn any_attr_contains(attrs: &Vec<String>, word: &str) -> (r: bool)
    ensures
        r == attr_mentions(attrs@, word@),
{
    let mut i: usize = 0;
    while i < attrs.len()
        invariant
            i <= attrs.len(),
            forall|j: int| 0 <= j < i ==> !#[trigger] contains_seq(attrs@[j]@, word@),
        decreases attrs.len() - i,
    {
        if contains_text(attrs[i].as_str(), word) {
            return true;
        }
        i = i + 1;
    }
    false
}

/// The item is a method that stays on the wrapper as it is written: a
/// parameter names the type, or an attribute says `wrapper_method`.
pub open spec fn pre_wrapper(item: ImplEntry, name: Seq<char>) -> bool {
    match item {
        ImplEntry::Fn(m) => has_self_arg(m.sig.inputs@, name) || attr_mentions(
            m.sig.attrs@,
            ATTRIBUTE_WRAPPER_NAME@,
        ),
        ImplEntry::Other => false,
    }
}

fn is_pre_wrapper(impl_item: &ImplEntry, original_struct_name: &str) -> (r: bool)
    ensures
        r == pre_wrapper(*impl_item, original_struct_name@),
{
    match impl_item {
        ImplEntry::Fn(method) => any_self_arg(&method.sig.inputs, original_struct_name)
            || any_attr_contains(&method.sig.attrs, ATTRIBUTE_WRAPPER_NAME),
        ImplEntry::Other => false,
    }
}

/// The method returns `Self` or the type itself.
pub open spec fn builder(m: MethodModel, name: Seq<char>) -> bool {
    match m.sig.output {
        Some(t) => type_text(t) == "Self"@ || type_text(t) == name,
        None => false,
    }
}

fn is_builder(method: &MethodModel, original_struct_name: &str) -> (r: bool)
    ensures
        r == builder(*method, original_struct_name@),
{
    match &method.sig.output {
        Some(t) => text_eq(t.text().as_str(), "Self") || text_eq(
            t.text().as_str(),
            original_struct_name,
        ),
        None => false,
    }
}

/// Statement `i` of a body with the type's name replaced by `Self`; the last
/// statement, when it holds no `;`, becomes a `return` statement.
pub open spec fn normalized_stmt(stmts: Seq<String>, name: Seq<char>, i: int) -> Seq<char> {
    let s1 = replace_all(stmts[i]@, name, "Self"@);
    if !contains_seq(s1, ";"@) && i == stmts.len() - 1 {
        "return "@ + s1 + ";"@
    } else {
        s1
    }
}

/// The method's return type is written as the type's name.
pub open spec fn returns_name(m: MethodModel, name: Seq<char>) -> bool {
    m.sig.output matches Some(t) && type_text(t) == name
}

/// The body of a method with the type's name replaced by `Self`.
pub open spec fn normalized_stmts(m: MethodModel, name: Seq<char>) -> Seq<Seq<char>> {
    Seq::new(m.stmts@.len(), |i: int| normalized_stmt(m.stmts@, name, i))
}

/// The refusals that the normalization of a body can give: one per statement,
/// about its normalized text.
pub open spec fn normalize_errors(m: MethodModel, name: Seq<char>) -> Seq<ErrorView> {
    Seq::new(
        m.stmts@.len(),
        |i: int| (ExtendErrorKind::IncorrectStatement, normalized_stmt(m.stmts@, name, i), m.sig.ident@),
    )
}

/// The body of a method that moves to the base type: the type's name gives
/// way to `Self` in every statement and in the return type. A statement that
/// the parser does not take is refused.
fn normalize_self_types(method: &MethodModel, original_struct_name: &str) -> (r: Result<
    (Vec<String>, bool),
    ExtendError,
>)
    ensures
        match r {
            Ok((s, o)) => texts(s@) == normalized_stmts(*method, original_struct_name@) && o
                == returns_name(*method, original_struct_name@),
            Err(x) => normalize_errors(*method, original_struct_name@).contains(error_view(x)),
        },
{
    let name = original_struct_name;
    let len = method.stmts.len();
    let mut out: Vec<String> = Vec::new();
    let mut i: usize = 0;
    while i < len
        invariant
            i <= len,
            len == method.stmts@.len(),
            name == original_struct_name,
            texts(out@) =~= Seq::new(i as nat, |j: int| normalized_stmt(method.stmts@, name@, j)),
        decreases len - i,
    {
        let s1 = replace_text(method.stmts[i].as_str(), name, "Self");
        proof {
            reveal_strlit("Self");
            reveal_strlit(";");
        }
        let s2 = if !contains_text(s1.as_str(), ";") && i == len - 1 {
            cat3("return ", s1.as_str(), ";")
        } else {
            s1
        };
        assert(s2@ == normalized_stmt(method.stmts@, name@, i as int));
        if !parses_as_statement(s2.as_str()) {
            let e = ExtendError::new(
                ExtendErrorKind::IncorrectStatement,
                s2.as_str(),
                method.sig.ident.as_str(),
            );
            assert(normalize_errors(*method, name@)[i as int] == error_view(e));
            return Err(e);
        }
        let ghost before = out@;
        out.push(s2);
        assert(texts(out@) =~= texts(before).push(s2@));
        i = i + 1;
    }
    let self_output = match &method.sig.output {
        Some(t) => text_eq(t.text().as_str(), name),
        None => false,
    };
    Ok((out, self_output))
}

/// The argument list of a call that passes the method's typed parameters on.
pub fn convert_punctuated_to_string(args: &Vec<ArgModel>) -> (r: String)
    ensures
        r@ == call_args(args@, args@.len() as int),
{
    let mut reply = String::new();
    let len = args.len();
    let mut i: usize = 0;
    while i < len
        invariant
            i <= len,
            len == args@.len(),
            reply@ == call_args(args@, i as int),
        decreases len - i,
    {
        match &args[i] {
            ArgModel::Typed { name: Some(n), .. } => {
                reply.append(n.as_str());
                if i < len - 1 {
                    reply.append(",");
                }
            },
            _ => {},
        }
        proof {
            reveal_strlit(",");
        }
        assert(reply@ =~= call_args(args@, i + 1));
        i = i + 1;
    }
    reply
}

/// The statement of a wrapper builder: it wraps what the base type's method
/// of the same name gives.
pub open spec fn wrapper_block_stmt(m: MethodModel, name: Seq<char>) -> Seq<char> {
    "return Self{base: Arc::new(RwLock::new("@ + name + "Base"@ + "::"@ + m.sig.ident@ + "("@
        + call_args(m.sig.inputs@, m.sig.inputs@.len() as int) + ")))};"@
}

/// The body of a wrapper builder, refused when the parser does not take it.
fn build_wrapper_method_block(method: &MethodModel, original_struct_name: &str) -> (r: Result<
    String,
    ExtendError,
>)
    ensures
        match r {
            Ok(s) => s@ == wrapper_block_stmt(*method, original_struct_name@),
            Err(e) => error_view(e) == (
                ExtendErrorKind::StatementConstruction,
                wrapper_block_stmt(*method, original_struct_name@),
                method.sig.ident@,
            ),
        },
{
    let inputs = convert_punctuated_to_string(&method.sig.inputs);
    let a = cat3("return Self{base: Arc::new(RwLock::new(", original_struct_name, "Base");
    let b = cat3(a.as_str(), "::", method.sig.ident.as_str());
    let c = cat3(b.as_str(), "(", inputs.as_str());
    let code = cat(c.as_str(), ")))};");
    if parses_as_statement(code.as_str()) {
        Ok(code)
    } else {
        Err(
            ExtendError::new(
                ExtendErrorKind::StatementConstruction,
                code.as_str(),
                method.sig.ident.as_str(),
            ),
        )
    }
}

/// The receiver of a signature: `Some(mutable)` when it has one.
pub fn find_self(signature: &SignatureModel) -> (r: Option<bool>)
    ensures
        r == receiver_of(signature.inputs@),
{
    find_receiver(&signature.inputs)
}

/// The method returns a reference.
pub open spec fn reference_output(m: MethodModel) -> bool {
    m.sig.output matches Some(TypeModel::Reference { .. })
}

fn has_reference_output(method: &MethodModel) -> (r: bool)
    ensures
        r == reference_output(*method),
{
    match &method.sig.output {
        Some(TypeModel::Reference { .. }) => true,
        _ => false,
    }
}

/// The method is one that the wrapper sees: it is not private, or it carries
/// the `visible_to_wrapper` attribute.
pub open spec fn ideal(m: MethodModel) -> bool {
    m.sig.vis@.len() > 0 || attr_mentions(m.sig.attrs@, VISIBLE_METHOD@)
}

fn check_if_ideal_method(method: &MethodModel) -> (r: bool)
    ensures
        r == ideal(*method),
{
    !method.sig.vis.as_str().is_empty() || any_attr_contains(&method.sig.attrs, VISIBLE_METHOD)
}

/// How a forwarding call reaches the base: through the write lock for a
/// `mut` receiver, the read lock for another receiver, and the base type's
/// path for an associated function.
pub open spec fn reference_text(inputs: Seq<ArgModel>, base: Seq<char>) -> Seq<char> {
    match receiver_of(inputs) {
        Some(true) => "self.base.write().unwrap()."@,
        Some(false) => "self.base.read().unwrap()."@,
        None => base + "::"@,
    }
}

/// How a forwarding call reaches the base.
pub fn reference_for(sig: &SignatureModel, base: &str) -> (r: String)
    ensures
        r@ == reference_text(sig.inputs@, base@),
{
    match find_self(sig) {
        Some(true) => String::from_str("self.base.write().unwrap()."),
        Some(false) => String::from_str("self.base.read().unwrap()."),
        None => cat(base, "::"),
    }
}

/// The statement of a wrapper method that forwards to the base type.
pub open spec fn forward_stmt(m: MethodModel, base: Seq<char>) -> Seq<char> {
    (if m.sig.output is Some {
        "return"@
    } else {
        ""@
    }) + " "@ + reference_text(m.sig.inputs@, base) + m.sig.ident@ + "("@ + call_args(
        m.sig.inputs@,
        m.sig.inputs@.len() as int,
    ) + ");"@
}

/// What item `i` adds to the base side and to the wrapper side when every
/// statement it generates parses.
pub open spec fn entry_plan(items: Seq<ImplEntry>, i: int, ws: Seq<char>, bs: Seq<char>) -> (
    Seq<RebuiltView>,
    Seq<RebuiltView>,
) {
    let same = RebuiltView::Same(i as nat);
    match items[i] {
        ImplEntry::Other => (seq![same], seq![]),
        ImplEntry::Fn(m) => if !ideal(m) {
            (seq![same], seq![])
        } else if pre_wrapper(items[i], ws) {
            (seq![], seq![same])
        } else if reference_output(m) {
            (seq![same], seq![])
        } else if builder(m, ws) {
            (
                seq![RebuiltView::Rewritten(i as nat, returns_name(m, ws), normalized_stmts(m, ws))],
                seq![RebuiltView::Rewritten(i as nat, false, seq![wrapper_block_stmt(m, ws)])],
            )
        } else {
            (seq![same], seq![RebuiltView::Rewritten(i as nat, false, seq![forward_stmt(m, bs)])])
        },
    }
}

/// The refusals that item `i` can give: one for each statement it generates,
/// when the parser does not take that statement.
pub open spec fn entry_errors(items: Seq<ImplEntry>, i: int, ws: Seq<char>, bs: Seq<char>) -> Seq<
    ErrorView,
> {
    match items[i] {
        ImplEntry::Fn(m) => if !ideal(m) || pre_wrapper(items[i], ws) || reference_output(m) {
            seq![]
        } else if builder(m, ws) {
            normalize_errors(m, ws).push(
                (ExtendErrorKind::StatementConstruction, wrapper_block_stmt(m, ws), m.sig.ident@),
            )
        } else {
            seq![(ExtendErrorKind::StatementConstruction, forward_stmt(m, bs), m.sig.ident@)]
        },
        ImplEntry::Other => seq![],
    }
}

/// What the first `k` items add to the two sides when every generated
/// statement parses.
pub open spec fn rebuild_plan(items: Seq<ImplEntry>, ws: Seq<char>, bs: Seq<char>, k: int) -> (
    Seq<RebuiltView>,
    Seq<RebuiltView>,
)
    decreases k,
{
    if k <= 0 {
        (seq![], seq![])
    } else {
        let (b, w) = rebuild_plan(items, ws, bs, k - 1);
        let (b2, w2) = entry_plan(items, k - 1, ws, bs);
        (b + b2, w + w2)
    }
}

/// The refusals that the first `k` items can give.
pub open spec fn rebuild_errors(items: Seq<ImplEntry>, ws: Seq<char>, bs: Seq<char>, k: int) -> Seq<
    ErrorView,
>
    decreases k,
{
    if k <= 0 {
        seq![]
    } else {
        rebuild_errors(items, ws, bs, k - 1) + entry_errors(items, k - 1, ws, bs)
    }
}

proof fn lemma_errors_kept(
    items: Seq<ImplEntry>,
    ws: Seq<char>,
    bs: Seq<char>,
    i: int,
    e: ErrorView,
    n: int,
)
    requires
        0 <= i < n,
        entry_errors(items, i, ws, bs).contains(e),
    ensures
        rebuild_errors(items, ws, bs, n).contains(e),
    decreases n,
{
    let prev = rebuild_errors(items, ws, bs, n - 1);
    let last = entry_errors(items, n - 1, ws, bs);
    if i == n - 1 {
        let j = choose|j: int| 0 <= j < last.len() && last[j] == e;
        assert((prev + last)[prev.len() + j] == e);
    } else {
        lemma_errors_kept(items, ws, bs, i, e, n - 1);
        let j = choose|j: int| 0 <= j < prev.len() && prev[j] == e;
        assert((prev + last)[j] == e);
    }
}

fn rebuild_entry(items: &Vec<ImplEntry>, i: usize, ws: &str, bs: &str) -> (r: Result<
    (Vec<RebuiltItem>, Vec<RebuiltItem>),
    ExtendError,
>)
    requires
        i < items@.len(),
    ensures
        match r {
            Ok((x, y)) => (rebuilt_views(x@), rebuilt_views(y@)) == entry_plan(
                items@,
                i as int,
                ws@,
                bs@,
            ),
            Err(x) => entry_errors(items@, i as int, ws@, bs@).contains(error_view(x)),
        },
{
    let mut base: Vec<RebuiltItem> = Vec::new();
    let mut wrapper: Vec<RebuiltItem> = Vec::new();
    proof {
        assert(rebuilt_views(Seq::<RebuiltItem>::empty()) =~= Seq::<RebuiltView>::empty());
    }
    match &items[i] {
        ImplEntry::Other => {
            push_rebuilt(&mut base, RebuiltItem::Same(i));
        },
        ImplEntry::Fn(method) => {
            if !check_if_ideal_method(method) {
                push_rebuilt(&mut base, RebuiltItem::Same(i));
            } else if is_pre_wrapper(&items[i], ws) {
                push_rebuilt(&mut wrapper, RebuiltItem::Same(i));
            } else if has_reference_output(method) {
                push_rebuilt(&mut base, RebuiltItem::Same(i));
            } else if is_builder(method, ws) {
                let ghost errs = entry_errors(items@, i as int, ws@, bs@);
                let (stmts, self_output) = match normalize_self_types(method, ws) {
                    Ok(x) => x,
                    Err(e) => {
                        proof {
                            let ne = normalize_errors(*method, ws@);
                            let j = choose|j: int| 0 <= j < ne.len() && ne[j] == error_view(e);
                            assert(errs[j] == error_view(e));
                        }
                        return Err(e);
                    },
                };
                let w = match build_wrapper_method_block(method, ws) {
                    Ok(x) => x,
                    Err(e) => {
                        proof {
                            let ne = normalize_errors(*method, ws@);
                            assert(errs[ne.len() as int] == error_view(e));
                        }
                        return Err(e);
                    },
                };
                let ghost wv = w@;
                push_rebuilt(&mut base, RebuiltItem::Rewritten { source: i, self_output, stmts });
                let mut ws_stmts: Vec<String> = Vec::new();
                ws_stmts.push(w);
                assert(texts(ws_stmts@) =~= seq![wv]);
                push_rebuilt(
                    &mut wrapper,
                    RebuiltItem::Rewritten { source: i, self_output: false, stmts: ws_stmts },
                );
            } else {
                let reference = reference_for(&method.sig, bs);
                let args = convert_punctuated_to_string(&method.sig.inputs);
                let head = if method.sig.output.is_some() {
                    String::from_str("return")
                } else {
                    String::new()
                };
                let a = cat3(head.as_str(), " ", reference.as_str());
                let b = cat3(a.as_str(), method.sig.ident.as_str(), "(");
                let f = cat3(b.as_str(), args.as_str(), ");");
                proof {
                    reveal_strlit("");
                }
                assert(f@ =~= forward_stmt(*method, bs@));
                if !parses_as_statement(f.as_str()) {
                    let e = ExtendError::new(
                        ExtendErrorKind::StatementConstruction,
                        f.as_str(),
                        method.sig.ident.as_str(),
                    );
                    assert(entry_errors(items@, i as int, ws@, bs@)[0] == error_view(e));
                    return Err(e);
                }
                let ghost fv = f@;
                push_rebuilt(&mut base, RebuiltItem::Same(i));
                let mut f_stmts: Vec<String> = Vec::new();
                f_stmts.push(f);
                assert(texts(f_stmts@) =~= seq![fv]);
                push_rebuilt(
                    &mut wrapper,
                    RebuiltItem::Rewritten { source: i, self_output: false, stmts: f_stmts },
                );
            }
        },
    }
    assert((rebuilt_views(base@), rebuilt_views(wrapper@)) =~~= entry_plan(items@, i as int, ws@, bs@));
    Ok((base, wrapper))
}

/// Splits the items of an `impl` block: what goes to the base type is
/// appended to `base_impl_items`, what goes to the wrapper to
/// `wrapper_impl_items`. The type is named `wrapper_self_ty_str` on the
/// wrapper side and `base_self_ty_str` on the base side. On success, both
/// sides are the plan; a refusal is about one of the statements that the
/// plan generates, which the parser did not take.
pub fn rebuild_implementations(
    base_impl_items: &mut Vec<RebuiltItem>,
    wrapper_impl_items: &mut Vec<RebuiltItem>,
    items: &Vec<ImplEntry>,
    wrapper_self_ty_str: &str,
    base_self_ty_str: &str,
) -> (r: Result<(), ExtendError>)
    ensures
        match r {
            Ok(()) => rebuilt_views(final(base_impl_items)@) == rebuilt_views(
                old(base_impl_items)@,
            ) + rebuild_plan(
                items@,
                wrapper_self_ty_str@,
                base_self_ty_str@,
                items@.len() as int,
            ).0 && rebuilt_views(final(wrapper_impl_items)@) == rebuilt_views(
                old(wrapper_impl_items)@,
            ) + rebuild_plan(
                items@,
                wrapper_self_ty_str@,
                base_self_ty_str@,
                items@.len() as int,
            ).1,
            Err(x) => rebuild_errors(
                items@,
                wrapper_self_ty_str@,
                base_self_ty_str@,
                items@.len() as int,
            ).contains(error_view(x)),
        },
{
    let ws = wrapper_self_ty_str;
    let bs = base_self_ty_str;
    let ghost start_b = rebuilt_views(base_impl_items@);
    let ghost start_w = rebuilt_views(wrapper_impl_items@);
    let mut i: usize = 0;
    while i < items.len()
        invariant
            i <= items.len(),
            ws == wrapper_self_ty_str,
            bs == base_self_ty_str,
            rebuilt_views(base_impl_items@) == start_b + rebuild_plan(items@, ws@, bs@, i as int).0,
            rebuilt_views(wrapper_impl_items@) == start_w + rebuild_plan(items@, ws@, bs@, i as int).1,
        decreases items.len() - i,
    {
        match rebuild_entry(items, i, ws, bs) {
            Err(e) => {
                proof {
                    lemma_errors_kept(items@, ws@, bs@, i as int, error_view(e), items@.len() as int);
                }
                return Err(e);
            },
            Ok((b2, w2)) => {
                append_rebuilt(base_impl_items, b2);
                append_rebuilt(wrapper_impl_items, w2);
                proof {
                    let (b, w) = rebuild_plan(items@, ws@, bs@, i as int);
                    let (b3, w3) = entry_plan(items@, i as int, ws@, bs@);
                    assert(start_b + b + b3 =~= start_b + (b + b3));
                    assert(start_w + w + w3 =~= start_w + (w + w3));
                }
            },
        }
        i = i + 1;
    }
    Ok(())
}

/// The index of the item that a rebuilt entry comes from.
pub open spec fn source_of(v: RebuiltView) -> nat {
    match v {
        RebuiltView::Same(i) => i,
        RebuiltView::Rewritten(i, _, _) => i,
    }
}

/// The entries of `s` that come from item `i`, in order.
pub open spec fn for_item(s: Seq<RebuiltView>, i: nat) -> Seq<RebuiltView>
    decreases s.len(),
{
    if s.len() == 0 {
        s
    } else if source_of(s.last()) == i {
        for_item(s.drop_last(), i).push(s.last())
    } else {
        for_item(s.drop_last(), i)
    }
}

proof fn lemma_for_item_add(a: Seq<RebuiltView>, b: Seq<RebuiltView>, i: nat)
    ensures
        for_item(a + b, i) == for_item(a, i) + for_item(b, i),
    decreases b.len(),
{
    if b.len() == 0 {
        assert(a + b =~= a);
        assert(for_item(a, i) + for_item(b, i) =~= for_item(a, i));
    } else {
        lemma_for_item_add(a, b.drop_last(), i);
        assert((a + b).drop_last() =~= a + b.drop_last());
        assert((a + b).last() == b.last());
        if source_of(b.last()) == i {
            assert(for_item(a, i) + for_item(b.drop_last(), i).push(b.last()) =~= (for_item(a, i)
                + for_item(b.drop_last(), i)).push(b.last()));
        }
    }
}

proof fn lemma_for_item_none(s: Seq<RebuiltView>, i: nat)
    requires
        forall|j: int| 0 <= j < s.len() ==> source_of(#[trigger] s[j]) != i,
    ensures
        for_item(s, i) == Seq::<RebuiltView>::empty(),
    decreases s.len(),
{
    if s.len() > 0 {
        assert forall|j: int| 0 <= j < s.drop_last().len() implies source_of(
            #[trigger] s.drop_last()[j],
        ) != i by {
            assert(s.drop_last()[j] == s[j]);
        }
        lemma_for_item_none(s.drop_last(), i);
    }
}

proof fn lemma_for_item_all(s: Seq<RebuiltView>, i: nat)
    requires
        forall|j: int| 0 <= j < s.len() ==> source_of(#[trigger] s[j]) == i,
    ensures
        for_item(s, i) == s,
    decreases s.len(),
{
    if s.len() > 0 {
        assert forall|j: int| 0 <= j < s.drop_last().len() implies source_of(
            #[trigger] s.drop_last()[j],
        ) == i by {
            assert(s.drop_last()[j] == s[j]);
        }
        lemma_for_item_all(s.drop_last(), i);
        assert(s.drop_last().push(s.last()) =~= s);
    }
}

proof fn lemma_entry_sources(items: Seq<ImplEntry>, i: int, ws: Seq<char>, bs: Seq<char>)
    requires
        0 <= i,
    ensures
        forall|j: int|
            0 <= j < entry_plan(items, i, ws, bs).0.len() ==> source_of(
                #[trigger] entry_plan(items, i, ws, bs).0[j],
            ) == i,
        forall|j: int|
            0 <= j < entry_plan(items, i, ws, bs).1.len() ==> source_of(
                #[trigger] entry_plan(items, i, ws, bs).1[j],
            ) == i,
        entry_plan(items, i, ws, bs).0.len() + entry_plan(items, i, ws, bs).1.len()
            >= 1,
{
}

proof fn lemma_prefix_sources(items: Seq<ImplEntry>, ws: Seq<char>, bs: Seq<char>, k: int)
    requires
        0 <= k,
    ensures
        forall|j: int|
            0 <= j < rebuild_plan(items, ws, bs, k).0.len() ==> source_of(
                #[trigger] rebuild_plan(items, ws, bs, k).0[j],
            ) < k,
        forall|j: int|
            0 <= j < rebuild_plan(items, ws, bs, k).1.len() ==> source_of(
                #[trigger] rebuild_plan(items, ws, bs, k).1[j],
            ) < k,
    decreases k,
{
    if k > 0 {
        lemma_prefix_sources(items, ws, bs, k - 1);
        lemma_entry_sources(items, k - 1, ws, bs);
        let (b, w) = rebuild_plan(items, ws, bs, k - 1);
        let (eb, ew) = entry_plan(items, k - 1, ws, bs);
        assert forall|j: int| 0 <= j < b.len() + eb.len() implies source_of(#[trigger] (b + eb)[j])
            < k by {
            if j >= b.len() {
                assert((b + eb)[j] == eb[j - b.len()]);
            }
        }
        assert forall|j: int| 0 <= j < w.len() + ew.len() implies source_of(#[trigger] (w + ew)[j])
            < k by {
            if j >= w.len() {
                assert((w + ew)[j] == ew[j - w.len()]);
            }
        }
    }
}

/// What the split of an `impl` block does with an item depends on that item
/// alone: the entries of each side that come from item `i` are exactly what
/// item `i` gives on its own, whatever the other items are.
pub proof fn lemma_split_by_item(items: Seq<ImplEntry>, ws: Seq<char>, bs: Seq<char>, i: int)
    requires
        0 <= i < items.len(),
    ensures
        for_item(rebuild_plan(items, ws, bs, items.len() as int).0, i as nat) == entry_plan(
            items,
            i,
            ws,
            bs,
        ).0,
        for_item(rebuild_plan(items, ws, bs, items.len() as int).1, i as nat) == entry_plan(
            items,
            i,
            ws,
            bs,
        ).1,
{
    lemma_split_by_item_upto(items, ws, bs, i, items.len() as int);
}

proof fn lemma_split_by_item_upto(items: Seq<ImplEntry>, ws: Seq<char>, bs: Seq<char>, i: int, k: int)
    requires
        0 <= i < k <= items.len(),
    ensures
        for_item(rebuild_plan(items, ws, bs, k).0, i as nat) == entry_plan(
            items,
            i,
            ws,
            bs,
        ).0,
        for_item(rebuild_plan(items, ws, bs, k).1, i as nat) == entry_plan(
            items,
            i,
            ws,
            bs,
        ).1,
    decreases k,
{
    let (b, w) = rebuild_plan(items, ws, bs, k - 1);
    let (eb, ew) = entry_plan(items, k - 1, ws, bs);
    lemma_for_item_add(b, eb, i as nat);
    lemma_for_item_add(w, ew, i as nat);
    lemma_entry_sources(items, k - 1, ws, bs);
    if k - 1 == i {
        lemma_prefix_sources(items, ws, bs, k - 1);
        lemma_for_item_none(b, i as nat);
        lemma_for_item_none(w, i as nat);
        lemma_for_item_all(eb, i as nat);
        lemma_for_item_all(ew, i as nat);
        assert(Seq::<RebuiltView>::empty() + eb =~= eb);
        assert(Seq::<RebuiltView>::empty() + ew =~= ew);
    } else {
        lemma_split_by_item_upto(items, ws, bs, i, k - 1);
        lemma_for_item_none(eb, i as nat);
        lemma_for_item_none(ew, i as nat);
        assert(for_item(b, i as nat) + Seq::<RebuiltView>::empty() =~= for_item(b, i as nat));
        assert(for_item(w, i as nat) + Seq::<RebuiltView>::empty() =~= for_item(w, i as nat));
    }
}

/// No item of an `impl` block is lost in its split: each one gives at least
/// one entry to the base side or to the wrapper side.
pub proof fn lemma_every_item_kept(items: Seq<ImplEntry>, ws: Seq<char>, bs: Seq<char>, i: int)
    requires
        0 <= i < items.len(),
    ensures
        for_item(rebuild_plan(items, ws, bs, items.len() as int).0, i as nat).len()
            + for_item(rebuild_plan(items, ws, bs, items.len() as int).1, i as nat).len()
            >= 1,
{
    lemma_split_by_item(items, ws, bs, i);
    lemma_entry_sources(items, i, ws, bs);
}

/// An item that is not a method, or a method that the wrapper does not see,
/// stays on the base side as it is written and gives nothing to the wrapper;
/// a method that the wrapper sees and that names the type among its
/// parameters (or carries `wrapper_method`) stays on the wrapper side as it
/// is written and gives nothing to the base.
pub proof fn lemma_items_kept_as_written(items: Seq<ImplEntry>, ws: Seq<char>, bs: Seq<char>, i: int)
    requires
        0 <= i < items.len(),
    ensures
        (items[i] is Other || (items[i] matches ImplEntry::Fn(m) && !ideal(m))) ==> (for_item(
            rebuild_plan(items, ws, bs, items.len() as int).0,
            i as nat,
        ) == seq![RebuiltView::Same(i as nat)] && for_item(
            rebuild_plan(items, ws, bs, items.len() as int).1,
            i as nat,
        ).len() == 0),
        (items[i] matches ImplEntry::Fn(m) && ideal(m) && pre_wrapper(items[i], ws)) ==> (for_item(
            rebuild_plan(items, ws, bs, items.len() as int).1,
            i as nat,
        ) == seq![RebuiltView::Same(i as nat)] && for_item(
            rebuild_plan(items, ws, bs, items.len() as int).0,
            i as nat,
        ).len() == 0),
{
    lemma_split_by_item(items, ws, bs, i);
}

/// A method that the wrapper sees and that takes a parameter typed `Self`, or
/// typed by the wrapper's own name, stays on the wrapper side as it is
/// written and gives nothing to the base side: the base type's `Self` is
/// another type, so such a method is never moved there or forwarded to it.
pub proof fn lemma_self_parameter_keeps_method_on_wrapper(
    items: Seq<ImplEntry>,
    ws: Seq<char>,
    bs: Seq<char>,
    i: int,
    k: int,
)
    requires
        0 <= i < items.len(),
        items[i] matches ImplEntry::Fn(m) && ideal(m) && 0 <= k < m.sig.inputs@.len() && (
        m.sig.inputs@[k] matches ArgModel::Typed { ty: TypeModel::Path { ident, .. }, .. } && (
        ident@ == "Self"@ || ident@ == ws)),
    ensures
        for_item(rebuild_plan(items, ws, bs, items.len() as int).1, i as nat) == seq![
            RebuiltView::Same(i as nat),
        ],
        for_item(rebuild_plan(items, ws, bs, items.len() as int).0, i as nat).len() == 0,
{
    let m = items[i]->Fn_0;
    assert(self_type_arg(m.sig.inputs@[k], ws));
    assert(has_self_arg(m.sig.inputs@, ws));
    assert(pre_wrapper(items[i], ws));
    lemma_items_kept_as_written(items, ws, bs, i);
}

/// An `impl` block: the type it implements and its items.
pub struct ImplBlockModel {
    pub self_ty: TypeModel,
    pub items: Vec<ImplEntry>,
}

/// The two `impl` blocks that an `impl` block becomes: the name of the base
/// type, the items of the block for the base type and those of the block for
/// the wrapper; both blocks keep everything else of the block as written.
pub struct ImplSplit {
    pub base_self_ty: String,
    pub base_items: Vec<RebuiltItem>,
    pub wrapper_items: Vec<RebuiltItem>,
}

/// The split of an `impl` block when every generated type and statement
/// parses: the name of the base type and the two sides.
pub open spec fn extend_impl_plan(m: ImplBlockModel) -> (
    Seq<char>,
    Seq<RebuiltView>,
    Seq<RebuiltView>,
) {
    let ws = type_text(m.self_ty);
    let bs = ws + "Base"@;
    let (b, w) = rebuild_plan(m.items@, ws, bs, m.items@.len() as int);
    (bs, b, w)
}

/// The refusals that the split of an `impl` block can give: the name of the
/// base type when it does not parse as a type, or one of the generated
/// statements.
pub open spec fn extend_impl_errors(m: ImplBlockModel) -> Seq<ErrorView> {
    let ws = type_text(m.self_ty);
    let bs = ws + "Base"@;
    seq![(ExtendErrorKind::TypeConstruction, bs, seq![])] + rebuild_errors(
        m.items@,
        ws,
        bs,
        m.items@.len() as int,
    )
}

/// Splits an `impl` block of a type between the base type, named after the
/// type's text followed by `Base`, and the wrapper.
pub fn extend_impl(item_impl: &ImplBlockModel) -> (r: Result<ImplSplit, ExtendError>)
    ensures
        match r {
            Ok(s) => (s.base_self_ty@, rebuilt_views(s.base_items@), rebuilt_views(s.wrapper_items@))
                == extend_impl_plan(*item_impl),
            Err(x) => extend_impl_errors(*item_impl).contains(error_view(x)),
        },
{
    let wrapper_self_ty_str = item_impl.self_ty.text();
    let base_self_ty_str = cat(wrapper_self_ty_str.as_str(), "Base");
    let ghost errs = extend_impl_errors(*item_impl);
    if !parses_as_type(base_self_ty_str.as_str()) {
        proof {
            reveal_strlit("");
        }
        let e = ExtendError::new(ExtendErrorKind::TypeConstruction, base_self_ty_str.as_str(), "");
        assert(error_view(e) =~~= errs[0]);
        return Err(e);
    }
    let mut wrapper_impl_items: Vec<RebuiltItem> = Vec::new();
    let mut base_impl_items: Vec<RebuiltItem> = Vec::new();
    proof {
        assert(rebuilt_views(base_impl_items@) =~= Seq::<RebuiltView>::empty());
        assert(rebuilt_views(wrapper_impl_items@) =~= Seq::<RebuiltView>::empty());
    }
    match rebuild_implementations(
        &mut base_impl_items,
        &mut wrapper_impl_items,
        &item_impl.items,
        wrapper_self_ty_str.as_str(),
        base_self_ty_str.as_str(),
    ) {
        Err(e) => {
            proof {
                let re = rebuild_errors(
                    item_impl.items@,
                    wrapper_self_ty_str@,
                    base_self_ty_str@,
                    item_impl.items@.len() as int,
                );
                let j = choose|j: int| 0 <= j < re.len() && re[j] == error_view(e);
                assert(errs[j + 1] == error_view(e));
            }
            Err(e)
        },
        Ok(()) => {
            proof {
                let (b, w) = rebuild_plan(
                    item_impl.items@,
                    wrapper_self_ty_str@,
                    base_self_ty_str@,
                    item_impl.items@.len() as int,
                );
                assert(Seq::<RebuiltView>::empty() + b =~= b);
                assert(Seq::<RebuiltView>::empty() + w =~= w);
            }
            Ok(
                ImplSplit {
                    base_self_ty: base_self_ty_str,
                    base_items: base_impl_items,
                    wrapper_items: wrapper_impl_items,
                },
            )
        },
    }
}

} // verus!
