//! The struct side: `X` becomes the base struct `XBase`, with its fields
//! private, and a wrapper `X` that holds it behind a shared lock, with the
//! lock accessors, `Clone`, `PartialEq` by address, `Send` and `Sync`.
use vstd::prelude::*;
use vstd::string::*;
use crate::extend::attributes::ATTRIBUTE_NAME;
use crate::extend::impls::{rebuild_errors, rebuild_implementations, rebuild_plan, ImplBlockModel};
use crate::extend::syntax::{
    error_matches, error_view, parses_as_file, parses_as_type, rebuilt_views, ErrorView,
    ExtendError, ExtendErrorKind, RebuiltItem, RebuiltView,
};
use crate::names::{contains_isolated, contains_isolated_name, name_lookup_ok};
use crate::structure::{FieldModel, FieldsModel, StructModel};
use crate::text::{cat, copy_texts, join, join_texts, text_eq, texts};

verus! {

/// The attribute whose attributes go to both structs.
pub const DERIVE_MACRO: &'static str = "derive";

/// The fields can be given names in the base struct: named ones, or none at
/// all (a unit struct, or a tuple struct with no fields).
pub open spec fn fields_listed(f: FieldsModel) -> bool {
    match f {
        FieldsModel::Named(_) => true,
        FieldsModel::Unnamed(v, _) => v.len() == 0,
        FieldsModel::Other(t) => t@.len() == 0,
    }
}

/// The fields, one by one: those of a tuple struct have empty names.
pub open spec fn fields_of(f: FieldsModel) -> Seq<FieldModel> {
    match f {
        FieldsModel::Named(v) => v@,
        FieldsModel::Unnamed(v, _) => v@,
        FieldsModel::Other(_) => seq![],
    }
}

/// A field as plain values: visibility, name, type and attributes.
pub open spec fn field_view(f: FieldModel) -> (Seq<char>, Seq<char>, Seq<char>, Seq<Seq<char>>) {
    (f.vis@, f.ident@, f.ty@, texts(f.attrs@))
}

/// Copies of the fields, one by one.
fn copy_fields(fs: &Vec<FieldModel>) -> (r: Vec<FieldModel>)
    ensures
        r@.len() == fs@.len(),
        forall|i: int| 0 <= i < r@.len() ==> #[trigger] field_view(r@[i]) == field_view(fs@[i]),
{
    let mut r: Vec<FieldModel> = Vec::new();
    let mut i: usize = 0;
    while i < fs.len()
        invariant
            i <= fs.len(),
            r@.len() == i,
            forall|j: int| 0 <= j < i ==> #[trigger] field_view(r@[j]) == field_view(fs@[j]),
        decreases fs.len() - i,
    {
        r.push(
            FieldModel {
                vis: String::from_str(fs[i].vis.as_str()),
                ident: String::from_str(fs[i].ident.as_str()),
                ty: String::from_str(fs[i].ty.as_str()),
                attrs: copy_texts(&fs[i].attrs),
            },
        );
        i = i + 1;
    }
    r
}

/// The fields of a struct, one by one: named ones, the unnamed ones of a
/// tuple struct, or none for a unit struct.
pub fn extract_fields(input: &StructModel) -> (r: Vec<FieldModel>)
    ensures
        r@.len() == fields_of(input.fields).len(),
        forall|i: int|
            0 <= i < r@.len() ==> #[trigger] field_view(r@[i]) == field_view(
                fields_of(input.fields)[i],
            ),
{
    match &input.fields {
        FieldsModel::Named(fs) => copy_fields(fs),
        FieldsModel::Unnamed(fs, _) => copy_fields(fs),
        FieldsModel::Other(_) => Vec::new(),
    }
}

/// Every attribute can be searched for the attribute's name, and each one
/// without it for `derive`.
pub open spec fn attrs_searchable(attrs: Seq<String>) -> bool {
    forall|i: int|
        0 <= i < attrs.len() ==> name_lookup_ok(#[trigger] attrs[i]@, ATTRIBUTE_NAME@) && (
        !contains_isolated(attrs[i]@, ATTRIBUTE_NAME@) ==> name_lookup_ok(
            attrs[i]@,
            DERIVE_MACRO@,
        ))
}

/// The first `k` attributes without the attribute itself, split into the
/// `derive` ones and the others, each in order.
pub open spec fn split_attrs(attrs: Seq<String>, k: int) -> (Seq<Seq<char>>, Seq<Seq<char>>)
    decreases k,
{
    if k <= 0 {
        (seq![], seq![])
    } else {
        let (d, o) = split_attrs(attrs, k - 1);
        let a = attrs[k - 1]@;
        if contains_isolated(a, ATTRIBUTE_NAME@) {
            (d, o)
        } else if contains_isolated(a, DERIVE_MACRO@) {
            (d.push(a), o)
        } else {
            (d, o.push(a))
        }
    }
}

/// A field of the base struct, with its attributes: a `pub` field becomes
/// private.
pub open spec fn field_piece(f: FieldModel) -> Seq<char> {
    (if f.attrs@.len() == 0 {
        ""@
    } else {
        join(texts(f.attrs@), " "@) + " "@
    }) + (if f.vis@ == "pub"@ || f.vis@.len() == 0 {
        ""@
    } else {
        f.vis@ + " "@
    }) + f.ident@ + ": "@ + f.ty@
}

/// The fields of the base struct.
pub open spec fn field_pieces(fields: Seq<FieldModel>) -> Seq<Seq<char>> {
    fields.map_values(|f: FieldModel| field_piece(f))
}

/// The name of the base struct.
pub open spec fn base_name(s: StructModel) -> Seq<char> {
    s.ident@ + "Base"@
}

/// The base struct: the `derive` attributes, separated by commas, and the
/// fields.
pub open spec fn transformed_struct(s: StructModel) -> Seq<char> {
    join(split_attrs(s.attrs@, s.attrs@.len() as int).0, ","@) + " pub struct "@ + base_name(s)
        + " { "@ + join(field_pieces(fields_of(s.fields)), ", "@) + " }"@
}

/// The wrapper struct: the other attributes, then the `derive` ones, each
/// list separated by commas, and the one field that holds the lock.
pub open spec fn wrapper_struct(s: StructModel) -> Seq<char> {
    let (d, o) = split_attrs(s.attrs@, s.attrs@.len() as int);
    join(o, ","@) + " "@ + join(d, ","@) + " "@ + s.vis@ + " struct "@ + s.ident@
        + " {\n    base: std::sync::Arc<std::sync::RwLock<"@ + base_name(s) + ">>,\n}\n"@
}

/// The lock accessors of the wrapper.
pub open spec fn lock_impl(name: Seq<char>, base: Seq<char>) -> Seq<char> {
    "impl "@ + name + " {\n    pub fn write(&mut self) -> LockResult<RwLockWriteGuard<'_, "@ + base
        + ">> {\n        self.base.write()\n    }\n    pub fn read(&self) -> LockResult<RwLockReadGuard<'_, "@
        + base + ">> {\n        self.base.read()\n    }\n}\n"@
}

/// `Clone` of the wrapper: the clone shares the lock.
pub open spec fn clone_impl(name: Seq<char>) -> Seq<char> {
    "impl Clone for "@ + name
        + " {\n    fn clone(&self) -> Self {\n        Self { base: self.base.clone() }\n    }\n}\n"@
}

/// `PartialEq` of the wrapper: two wrappers are equal when they share the lock.
pub open spec fn partial_eq_impl(name: Seq<char>, base: Seq<char>) -> Seq<char> {
    "impl PartialEq for "@ + name
        + " {\n    fn eq(&self, other: &Self) -> bool {\n        let ptr_usize_a = (self.base.as_ref() as *const RwLock<"@
        + base
        + ">) as usize;\n        let ptr_usize_b = (other.base.as_ref() as *const RwLock<"@ + base
        + ">) as usize;\n        ptr_usize_a == ptr_usize_b\n    }\n}\n"@
}

/// `Send` and `Sync` of the wrapper.
pub open spec fn send_sync_impls(name: Seq<char>) -> Seq<char> {
    "unsafe impl Send for "@ + name + " {}\nunsafe impl Sync for "@ + name + " {}\n"@
}

/// The whole expansion of a struct.
pub open spec fn extend_struct_text(s: StructModel) -> Seq<char> {
    "use std::sync::{Arc, RwLock, RwLockReadGuard, RwLockWriteGuard, LockResult};\n"@
        + transformed_struct(s) + "\n"@ + wrapper_struct(s) + lock_impl(s.ident@, base_name(s))
        + clone_impl(s.ident@) + partial_eq_impl(s.ident@, base_name(s)) + send_sync_impls(
        s.ident@,
    )
}

/// An item of a source file: an `impl` block, or anything else.
pub enum FileItem {
    Impl(ImplBlockModel),
    Other,
}

/// The wrapper side of an `impl` block of a file: the index of the block, the
/// type it now implements, and its items.
pub struct WrapperImpl {
    pub source: usize,
    pub self_ty: String,
    pub items: Vec<RebuiltItem>,
}

/// A wrapper block as plain values.
pub open spec fn wrapper_impl_view(w: WrapperImpl) -> (nat, Seq<char>, Seq<RebuiltView>) {
    (w.source as nat, w.self_ty@, rebuilt_views(w.items@))
}

/// What item `i` of a file gives when every generated statement and type
/// parses.
pub open spec fn wrapper_impl_entry(
    items: Seq<FileItem>,
    i: int,
    base_struct: Seq<char>,
    wrapper_struct: Seq<char>,
) -> Seq<(nat, Seq<char>, Seq<RebuiltView>)> {
    match items[i] {
        FileItem::Impl(m) => seq![
            (
                i as nat,
                wrapper_struct,
                rebuild_plan(m.items@, base_struct, wrapper_struct, m.items@.len() as int).1,
            ),
        ],
        FileItem::Other => seq![],
    }
}

/// The refusals that item `i` of a file can give: a generated statement of
/// its split, or the wrapper's name when it does not parse as a type.
pub open spec fn wrapper_impl_errors(
    items: Seq<FileItem>,
    i: int,
    base_struct: Seq<char>,
    wrapper_struct: Seq<char>,
) -> Seq<ErrorView> {
    match items[i] {
        FileItem::Impl(m) => rebuild_errors(
            m.items@,
            base_struct,
            wrapper_struct,
            m.items@.len() as int,
        ).push((ExtendErrorKind::TypeConstruction, wrapper_struct, seq![])),
        FileItem::Other => seq![],
    }
}

/// What the first `k` items of a file give when everything parses.
pub open spec fn wrapper_impls_plan(
    items: Seq<FileItem>,
    base_struct: Seq<char>,
    wrapper_struct: Seq<char>,
    k: int,
) -> Seq<(nat, Seq<char>, Seq<RebuiltView>)>
    decreases k,
{
    if k <= 0 {
        seq![]
    } else {
        wrapper_impls_plan(items, base_struct, wrapper_struct, k - 1) + wrapper_impl_entry(
            items,
            k - 1,
            base_struct,
            wrapper_struct,
        )
    }
}

/// The refusals that the first `k` items of a file can give.
pub open spec fn wrapper_impls_errors(
    items: Seq<FileItem>,
    base_struct: Seq<char>,
    wrapper_struct: Seq<char>,
    k: int,
) -> Seq<ErrorView>
    decreases k,
{
    if k <= 0 {
        seq![]
    } else {
        wrapper_impls_errors(items, base_struct, wrapper_struct, k - 1) + wrapper_impl_errors(
            items,
            k - 1,
            base_struct,
            wrapper_struct,
        )
    }
}

proof fn lemma_file_errors_kept(
    items: Seq<FileItem>,
    b: Seq<char>,
    w: Seq<char>,
    i: int,
    e: ErrorView,
    n: int,
)
    requires
        0 <= i < n,
        wrapper_impl_errors(items, i, b, w).contains(e),
    ensures
        wrapper_impls_errors(items, b, w, n).contains(e),
    decreases n,
{
    let prev = wrapper_impls_errors(items, b, w, n - 1);
    let last = wrapper_impl_errors(items, n - 1, b, w);
    if i == n - 1 {
        let j = choose|j: int| 0 <= j < last.len() && last[j] == e;
        assert((prev + last)[prev.len() + j] == e);
    } else {
        lemma_file_errors_kept(items, b, w, i, e, n - 1);
        let j = choose|j: int| 0 <= j < prev.len() && prev[j] == e;
        assert((prev + last)[j] == e);
    }
}

/// The wrapper side of each `impl` block of a file, in order. On success it
/// is the plan; a refusal is about one of the texts that the plan generates.
pub fn get_wrapper_implementations(
    items: &Vec<FileItem>,
    base_struct_str: &str,
    wrapper_struct_str: &str,
) -> (r: Result<Vec<WrapperImpl>, ExtendError>)
    ensures
        match r {
            Ok(v) => v@.map_values(|w: WrapperImpl| wrapper_impl_view(w)) == wrapper_impls_plan(
                items@,
                base_struct_str@,
                wrapper_struct_str@,
                items@.len() as int,
            ),
            Err(x) => wrapper_impls_errors(
                items@,
                base_struct_str@,
                wrapper_struct_str@,
                items@.len() as int,
            ).contains(error_view(x)),
        },
{
    let mut implementations: Vec<WrapperImpl> = Vec::new();
    let mut i: usize = 0;
    while i < items.len()
        invariant
            i <= items.len(),
            implementations@.map_values(|w: WrapperImpl| wrapper_impl_view(w))
                == wrapper_impls_plan(items@, base_struct_str@, wrapper_struct_str@, i as int),
        decreases items.len() - i,
    {
        let ghost before = implementations@;
        match &items[i] {
            FileItem::Impl(item_impl) => {
                let mut base_items: Vec<RebuiltItem> = Vec::new();
                let mut wrapper_impl_items: Vec<RebuiltItem> = Vec::new();
                proof {
                    assert(rebuilt_views(wrapper_impl_items@) =~= Seq::<RebuiltView>::empty());
                }
                let res = rebuild_implementations(
                    &mut base_items,
                    &mut wrapper_impl_items,
                    &item_impl.items,
                    base_struct_str,
                    wrapper_struct_str,
                );
                let ghost errs = wrapper_impl_errors(
                    items@,
                    i as int,
                    base_struct_str@,
                    wrapper_struct_str@,
                );
                match res {
                    Err(e) => {
                        proof {
                            let re = rebuild_errors(
                                item_impl.items@,
                                base_struct_str@,
                                wrapper_struct_str@,
                                item_impl.items@.len() as int,
                            );
                            let j = choose|j: int| 0 <= j < re.len() && re[j] == error_view(e);
                            assert(errs[j] == error_view(e));
                            lemma_file_errors_kept(
                                items@,
                                base_struct_str@,
                                wrapper_struct_str@,
                                i as int,
                                error_view(e),
                                items@.len() as int,
                            );
                        }
                        return Err(e);
                    },
                    Ok(()) => {},
                }
                if !parses_as_type(wrapper_struct_str) {
                    proof {
                        reveal_strlit("");
                    }
                    let e = ExtendError::new(
                        ExtendErrorKind::TypeConstruction,
                        wrapper_struct_str,
                        "",
                    );
                    proof {
                        assert(errs[errs.len() - 1] =~~= error_view(e));
                        lemma_file_errors_kept(
                            items@,
                            base_struct_str@,
                            wrapper_struct_str@,
                            i as int,
                            error_view(e),
                            items@.len() as int,
                        );
                    }
                    return Err(e);
                }
                proof {
                    let w = rebuild_plan(
                        item_impl.items@,
                        base_struct_str@,
                        wrapper_struct_str@,
                        item_impl.items@.len() as int,
                    ).1;
                    assert(rebuilt_views(wrapper_impl_items@) =~= w);
                }
                implementations.push(
                    WrapperImpl {
                        source: i,
                        self_ty: String::from_str(wrapper_struct_str),
                        items: wrapper_impl_items,
                    },
                );
                assert(implementations@.map_values(|w: WrapperImpl| wrapper_impl_view(w))
                    =~= before.map_values(|w: WrapperImpl| wrapper_impl_view(w)) + wrapper_impl_entry(
                    items@,
                    i as int,
                    base_struct_str@,
                    wrapper_struct_str@,
                ));
            },
            FileItem::Other => {
                assert(implementations@.map_values(|w: WrapperImpl| wrapper_impl_view(w))
                    =~= before.map_values(|w: WrapperImpl| wrapper_impl_view(w)) + wrapper_impl_entry(
                    items@,
                    i as int,
                    base_struct_str@,
                    wrapper_struct_str@,
                ));
            },
        }
        i = i + 1;
    }
    Ok(implementations)
}

fn split_attributes(attrs: &Vec<String>) -> (r: (Vec<String>, Vec<String>))
    requires
        attrs_searchable(attrs@),
    ensures
        (texts(r.0@), texts(r.1@)) == split_attrs(attrs@, attrs@.len() as int),
{
    let mut derive_atributes: Vec<String> = Vec::new();
    let mut attributes: Vec<String> = Vec::new();
    let mut i: usize = 0;
    while i < attrs.len()
        invariant
            i <= attrs.len(),
            attrs_searchable(attrs@),
            (texts(derive_atributes@), texts(attributes@)) == split_attrs(attrs@, i as int),
        decreases attrs.len() - i,
    {
        let a = attrs[i].as_str();
        assert(name_lookup_ok(attrs@[i as int]@, ATTRIBUTE_NAME@));
        if !contains_isolated_name(a, ATTRIBUTE_NAME) {
            let ghost bd = derive_atributes@;
            let ghost bo = attributes@;
            if contains_isolated_name(a, DERIVE_MACRO) {
                derive_atributes.push(String::from_str(a));
                assert(texts(derive_atributes@) =~= texts(bd).push(a@));
            } else {
                attributes.push(String::from_str(a));
                assert(texts(attributes@) =~= texts(bo).push(a@));
            }
        }
        i = i + 1;
    }
    (derive_atributes, attributes)
}

fn field_text(f: &FieldModel) -> (r: String)
    ensures
        r@ == field_piece(*f),
{
    let mut r = if f.attrs.len() == 0 {
        String::new()
    } else {
        let a = join_texts(&f.attrs, " ");
        cat(a.as_str(), " ")
    };
    let v = if text_eq(f.vis.as_str(), "pub") || f.vis.as_str().is_empty() {
        String::new()
    } else {
        cat(f.vis.as_str(), " ")
    };
    proof {
        reveal_strlit("");
    }
    r.append(v.as_str());
    r.append(f.ident.as_str());
    r.append(": ");
    r.append(f.ty.as_str());
    r
}

fn transformed_text(s: &StructModel, derive_joined: &str) -> (r: String)
    requires
        fields_listed(s.fields),
        derive_joined@ == join(split_attrs(s.attrs@, s.attrs@.len() as int).0, ","@),
    ensures
        r@ == transformed_struct(*s),
{
    let fields = extract_fields(s);
    let mut pieces: Vec<String> = Vec::new();
    let mut i: usize = 0;
    while i < fields.len()
        invariant
            i <= fields.len(),
            fields@.len() == fields_of(s.fields).len(),
            forall|j: int|
                0 <= j < fields@.len() ==> #[trigger] field_view(fields@[j]) == field_view(
                    fields_of(s.fields)[j],
                ),
            texts(pieces@) =~= field_pieces(fields_of(s.fields)).take(i as int),
        decreases fields.len() - i,
    {
        let p = field_text(&fields[i]);
        assert(field_view(fields@[i as int]) == field_view(fields_of(s.fields)[i as int]));
        assert(p@ == field_piece(fields_of(s.fields)[i as int]));
        let ghost before = pieces@;
        pieces.push(p);
        assert(texts(pieces@) =~= texts(before).push(p@));
        i = i + 1;
    }
    assert(texts(pieces@) =~= field_pieces(fields_of(s.fields)));
    let fields_joined = join_texts(&pieces, ", ");
    let mut transformed = String::from_str(derive_joined);
    transformed.append(" pub struct ");
    transformed.append(s.ident.as_str());
    transformed.append("Base");
    transformed.append(" { ");
    transformed.append(fields_joined.as_str());
    transformed.append(" }");
    assert(transformed@ =~= transformed_struct(*s));
    transformed
}

fn wrapper_struct_text(s: &StructModel, derive_joined: &str, attrs_joined: &str) -> (r: String)
    requires
        derive_joined@ == join(split_attrs(s.attrs@, s.attrs@.len() as int).0, ","@),
        attrs_joined@ == join(split_attrs(s.attrs@, s.attrs@.len() as int).1, ","@),
    ensures
        r@ == wrapper_struct(*s),
{
    let mut out = String::from_str(attrs_joined);
    out.append(" ");
    out.append(derive_joined);
    out.append(" ");
    out.append(s.vis.as_str());
    out.append(" struct ");
    out.append(s.ident.as_str());
    out.append(" {\n    base: std::sync::Arc<std::sync::RwLock<");
    out.append(s.ident.as_str());
    out.append("Base");
    out.append(">>,\n}\n");
    assert(out@ =~= wrapper_struct(*s));
    out
}

fn lock_impl_text(name: &str, base: &str) -> (r: String)
    ensures
        r@ == lock_impl(name@, base@),
{
    let mut out = String::from_str("impl ");
    out.append(name);
    out.append(" {\n    pub fn write(&mut self) -> LockResult<RwLockWriteGuard<'_, ");
    out.append(base);
    out.append(
        ">> {\n        self.base.write()\n    }\n    pub fn read(&self) -> LockResult<RwLockReadGuard<'_, ",
    );
    out.append(base);
    out.append(">> {\n        self.base.read()\n    }\n}\n");
    assert(out@ =~= lock_impl(name@, base@));
    out
}

fn clone_impl_text(name: &str) -> (r: String)
    ensures
        r@ == clone_impl(name@),
{
    let mut out = String::from_str("impl Clone for ");
    out.append(name);
    out.append(" {\n    fn clone(&self) -> Self {\n        Self { base: self.base.clone() }\n    }\n}\n");
    assert(out@ =~= clone_impl(name@));
    out
}

fn partial_eq_impl_text(name: &str, base: &str) -> (r: String)
    ensures
        r@ == partial_eq_impl(name@, base@),
{
    let mut out = String::from_str("impl PartialEq for ");
    out.append(name);
    out.append(
        " {\n    fn eq(&self, other: &Self) -> bool {\n        let ptr_usize_a = (self.base.as_ref() as *const RwLock<",
    );
    out.append(base);
    out.append(">) as usize;\n        let ptr_usize_b = (other.base.as_ref() as *const RwLock<");
    out.append(base);
    out.append(">) as usize;\n        ptr_usize_a == ptr_usize_b\n    }\n}\n");
    assert(out@ =~= partial_eq_impl(name@, base@));
    out
}

fn send_sync_text(name: &str) -> (r: String)
    ensures
        r@ == send_sync_impls(name@),
{
    let mut out = String::from_str("unsafe impl Send for ");
    out.append(name);
    out.append(" {}\nunsafe impl Sync for ");
    out.append(name);
    out.append(" {}\n");
    assert(out@ =~= send_sync_impls(name@));
    out
}

/// The expansion of a struct, refused when the parser does not take the base
/// struct's text as a file (as with two `derive` attributes, which it
/// separates by a comma).
pub fn extend_struct(item_struct: &StructModel) -> (r: Result<String, ExtendError>)
    requires
        fields_listed(item_struct.fields),
        attrs_searchable(item_struct.attrs@),
    ensures
        match r {
            Ok(t) => t@ == extend_struct_text(*item_struct),
            Err(e) => error_matches(
                e,
                (ExtendErrorKind::FileConstruction, transformed_struct(*item_struct), seq![]),
            ),
        },
{
    let s = item_struct;
    let (derive_atributes, attributes) = split_attributes(&s.attrs);
    let derive_joined = join_texts(&derive_atributes, ",");
    let attrs_joined = join_texts(&attributes, ",");
    let transformed = transformed_text(s, derive_joined.as_str());
    if !parses_as_file(transformed.as_str()) {
        proof {
            reveal_strlit("");
        }
        return Err(ExtendError::new(ExtendErrorKind::FileConstruction, transformed.as_str(), ""));
    }
    let base_name_str = cat(s.ident.as_str(), "Base");
    let name = s.ident.as_str();
    let base = base_name_str.as_str();
    let wrapper = wrapper_struct_text(s, derive_joined.as_str(), attrs_joined.as_str());
    let lock = lock_impl_text(name, base);
    let clone = clone_impl_text(name);
    let eq = partial_eq_impl_text(name, base);
    let send_sync = send_sync_text(name);
    let mut out = String::from_str(
        "use std::sync::{Arc, RwLock, RwLockReadGuard, RwLockWriteGuard, LockResult};\n",
    );
    out.append(transformed.as_str());
    out.append("\n");
    out.append(wrapper.as_str());
    out.append(lock.as_str());
    out.append(clone.as_str());
    out.append(eq.as_str());
    out.append(send_sync.as_str());
    assert(out@ =~= extend_struct_text(*s));
    Ok(out)
}

} // verus!
