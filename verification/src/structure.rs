//! The expansion of a struct: the struct moves, with its fields, into a
//! private module as the core type; in its place stands a wrapper that holds
//! the core behind a shared lock, with an accessor pair per field, a builder,
//! and the companion items that convert between wrapper and core.
use vstd::prelude::*;
use vstd::string::*;
use crate::errors::{error_is, ErrorKind, ExpansionError};
use crate::names::{core_name, full_base_struct_name, get_mut_guard_name, get_ref_guard_name};
use crate::text::{cat, cat3, cat4, contains_seq, contains_text, join, join_texts, text_eq, texts};

verus! {

/// A generic parameter: its name, and whether it is a lifetime.
pub struct GenericParamModel {
    pub name: String,
    pub is_lifetime: bool,
}

/// A named field: the text of its visibility, its name, the text of its type
/// and the text of each of its attributes.
pub struct FieldModel {
    pub vis: String,
    pub ident: String,
    pub ty: String,
    pub attrs: Vec<String>,
}

/// The attribute that keeps the write accessor of a field private.
pub const READ_ONLY_ATTRIBUTE: &'static str = "public_read_only";

/// The field carries the `public_read_only` attribute.
pub open spec fn read_only(f: FieldModel) -> bool {
    exists|j: int| 0 <= j < f.attrs@.len() && #[trigger] contains_seq(f.attrs@[j]@, READ_ONLY_ATTRIBUTE@)
}

/// The visibility of the write accessor of a field: private for a field
/// marked `public_read_only`, the field's own otherwise.
pub open spec fn mut_accessor_vis(f: FieldModel) -> Seq<char> {
    if read_only(f) {
        seq![]
    } else {
        f.vis@
    }
}

/// Whether the field carries the `public_read_only` attribute.
pub fn is_read_only(f: &FieldModel) -> (r: bool)
    ensures
        r == read_only(*f),
{
    let mut j: usize = 0;
    while j < f.attrs.len()
        invariant
            j <= f.attrs.len(),
            forall|k: int| 0 <= k < j ==> !#[trigger] contains_seq(f.attrs@[k]@, READ_ONLY_ATTRIBUTE@),
        decreases f.attrs.len() - j,
    {
        if contains_text(f.attrs[j].as_str(), READ_ONLY_ATTRIBUTE) {
            return true;
        }
        j = j + 1;
    }
    false
}

/// The fields of a struct: named ones; the unnamed fields of a tuple struct,
/// each with an empty name, beside their text as written (`(..)`); or the
/// text of a unit struct's fields, which is empty.
pub enum FieldsModel {
    Named(Vec<FieldModel>),
    Unnamed(Vec<FieldModel>, String),
    Other(String),
}

/// A struct: the text of each attribute, its visibility, its name, the text
/// of its generics (`<..>`, empty when there are none), its generic
/// parameters, the text of the parameters without the angle brackets, the
/// text of its `where` clause, and its fields.
pub struct StructModel {
    pub attrs: Vec<String>,
    pub vis: String,
    pub ident: String,
    pub generics: String,
    pub params: Vec<GenericParamModel>,
    pub params_text: String,
    pub where_clause: String,
    pub fields: FieldsModel,
}

/// Each text followed by a line break.
pub open spec fn lines(items: Seq<Seq<char>>) -> Seq<char>
    decreases items.len(),
{
    if items.len() == 0 {
        seq![]
    } else {
        lines(items.drop_last()) + items.last() + "\n"@
    }
}

/// Each text followed by a line break.
pub fn lines_text(items: &Vec<String>) -> (r: String)
    ensures
        r@ == lines(texts(items@)),
{
    let mut r = String::new();
    let ghost all = texts(items@);
    let mut i: usize = 0;
    while i < items.len()
        invariant
            i <= items.len(),
            all == texts(items@),
            r@ == lines(all.take(i as int)),
        decreases items.len() - i,
    {
        r.append(items[i].as_str());
        r.append("\n");
        assert(all.take(i + 1).drop_last() =~= all.take(i as int));
        i = i + 1;
    }
    assert(all.take(items.len() as int) =~= all);
    r
}

/// The struct has a lifetime parameter.
pub open spec fn has_lifetime(params: Seq<GenericParamModel>) -> bool {
    exists|i: int| 0 <= i < params.len() && #[trigger] params[i].is_lifetime
}

/// The names of the generic parameters.
pub open spec fn param_names(params: Seq<GenericParamModel>) -> Seq<Seq<char>> {
    params.map_values(|p: GenericParamModel| p.name@)
}

/// The generic arguments that name the parameters, bounds left out: `<T, U>`,
/// or nothing when there are no parameters.
pub open spec fn filtered_generics(params: Seq<GenericParamModel>) -> Seq<char> {
    if params.len() == 0 {
        seq![]
    } else {
        "<"@ + join(param_names(params), ", "@) + ">"@
    }
}

/// The generic arguments name every parameter, in order: a single parameter
/// `p` gives `<p>`, and adding a parameter `p` after others adds `, p` before
/// the closing bracket.
pub proof fn lemma_filtered_generics_names_each_parameter(
    params: Seq<GenericParamModel>,
    p: GenericParamModel,
)
    ensures
        filtered_generics(seq![p]) == "<"@ + p.name@ + ">"@,
        params.len() > 0 ==> filtered_generics(params.push(p)) == filtered_generics(
            params,
        ).drop_last() + ", "@ + p.name@ + ">"@,
{
    reveal_strlit("<");
    reveal_strlit(">");
    assert(param_names(seq![p]) =~= seq![p.name@]);
    if params.len() > 0 {
        let n = param_names(params.push(p));
        assert(n.drop_last() =~= param_names(params));
        assert(n.last() == p.name@);
        let j = join(param_names(params), ", "@);
        assert(("<"@ + j + ">"@).drop_last() =~= "<"@ + j);
        assert("<"@ + (j + ", "@ + p.name@) + ">"@ =~= "<"@ + j + ", "@ + p.name@ + ">"@);
    }
}

/// The generic arguments that name the parameters of a struct.
pub fn filter_generics(params: &Vec<GenericParamModel>) -> (r: String)
    ensures
        r@ == filtered_generics(params@),
{
    if params.len() == 0 {
        return String::new();
    }
    let mut names: Vec<String> = Vec::new();
    let mut i: usize = 0;
    while i < params.len()
        invariant
            i <= params.len(),
            names@.len() == i,
            forall|j: int| 0 <= j < i ==> #[trigger] names@[j]@ == params@[j].name@,
        decreases params.len() - i,
    {
        names.push(String::from_str(params[i].name.as_str()));
        i = i + 1;
    }
    assert(texts(names@) =~= param_names(params@));
    let joined = join_texts(&names, ", ");
    cat3("<", joined.as_str(), ">")
}

/// The lines of the named fields of the core: every field `pub(super)`.
pub open spec fn core_fields(fields: Seq<FieldModel>) -> Seq<char>
    decreases fields.len(),
{
    if fields.len() == 0 {
        seq![]
    } else {
        core_fields(fields.drop_last()) + "    pub(super) "@ + fields.last().ident@ + ": "@
            + fields.last().ty@ + ",\n"@
    }
}

/// The core struct: its attributes and `#[doc(hidden)]`, public, with its
/// named fields `pub(super)` and their attributes left out.
pub open spec fn core_struct_text(s: StructModel) -> Seq<char> {
    lines(texts(s.attrs@)) + "#[doc(hidden)]\n"@ + "pub struct "@ + s.ident@ + s.generics@ + " "@
        + s.where_clause@ + match s.fields {
        FieldsModel::Named(fs) => " {\n"@ + core_fields(fs@) + "}\n"@,
        FieldsModel::Unnamed(_, t) => t@ + ";\n"@,
        FieldsModel::Other(t) => t@ + ";\n"@,
    }
}

/// The core struct, or the refusal of a struct with lifetime parameters.
pub fn core_normalization(base: &StructModel) -> (r: Result<String, ExpansionError>)
    ensures
        has_lifetime(base.params@) ==> (r matches Err(e) && error_is(
            e,
            ErrorKind::LifetimesNotSupported,
            base.ident@,
        )),
        !has_lifetime(base.params@) ==> (r matches Ok(t) && t@ == core_struct_text(*base)),
{
    let mut i: usize = 0;
    while i < base.params.len()
        invariant
            i <= base.params.len(),
            forall|j: int| 0 <= j < i ==> !(#[trigger] base.params@[j]).is_lifetime,
        decreases base.params.len() - i,
    {
        if base.params[i].is_lifetime {
            return Err(
                ExpansionError {
                    kind: ErrorKind::LifetimesNotSupported,
                    item: String::from_str(base.ident.as_str()),
                },
            );
        }
        i = i + 1;
    }
    let mut r = lines_text(&base.attrs);
    r.append("#[doc(hidden)]\n");
    r.append("pub struct ");
    r.append(base.ident.as_str());
    r.append(base.generics.as_str());
    r.append(" ");
    r.append(base.where_clause.as_str());
    let ghost head = r@;
    match &base.fields {
        FieldsModel::Named(fs) => {
            let mut body = String::from_str(" {\n");
            let mut k: usize = 0;
            while k < fs.len()
                invariant
                    k <= fs.len(),
                    body@ == " {\n"@ + core_fields(fs@.take(k as int)),
                decreases fs.len() - k,
            {
                body.append("    pub(super) ");
                body.append(fs[k].ident.as_str());
                body.append(": ");
                body.append(fs[k].ty.as_str());
                body.append(",\n");
                assert(fs@.take(k + 1).drop_last() =~= fs@.take(k as int));
                k = k + 1;
            }
            assert(fs@.take(fs.len() as int) =~= fs@);
            body.append("}\n");
            r.append(body.as_str());
        },
        FieldsModel::Unnamed(_, t) => {
            r.append(t.as_str());
            r.append(";\n");
        },
        FieldsModel::Other(t) => {
            r.append(t.as_str());
            r.append(";\n");
        },
    }
    Ok(r)
}

/// The wrapper struct: public, with the `#[repr(C)]` attribute and a single
/// field that holds the core behind a shared lock.
pub open spec fn wrapper_struct_text(s: StructModel) -> Seq<char> {
    "#[repr(C)]\n"@ + "pub struct "@ + s.ident@ + s.generics@ + " "@ + s.where_clause@
        + " {\n    _core: Arc<RwLock<"@ + (core_name(s.ident@) + filtered_generics(s.params@))
        + ">>\n}\n"@
}

/// The wrapper struct.
pub fn wrapper_normalization(wrapper: &StructModel) -> (r: String)
    ensures
        r@ == wrapper_struct_text(*wrapper),
{
    let core = full_base_struct_name(wrapper.ident.as_str());
    let filtered = filter_generics(&wrapper.params);
    let bsn = cat(core.as_str(), filtered.as_str());
    let mut r = String::from_str("#[repr(C)]\n");
    r.append("pub struct ");
    r.append(wrapper.ident.as_str());
    r.append(wrapper.generics.as_str());
    r.append(" ");
    r.append(wrapper.where_clause.as_str());
    r.append(" {\n    _core: Arc<RwLock<");
    r.append(bsn.as_str());
    r.append(">>\n}\n");
    r
}

/// The companion items of a wrapper: conversions, identity, clone, the guard
/// types. A wrapper turns back into its core only as the last handle of the
/// shared lock: the core is moved out of the lock, never copied while another
/// handle still owns it, and a conversion from a handle that is still shared
/// stops with a panic.
pub open spec fn helpers_text(wsn: Seq<char>, bsn: Seq<char>, impl_generics: Seq<char>, generics: Seq<char>, frg: Seq<char>, fmg: Seq<char>) -> Seq<char> {
    "impl "@ +
        wsn +
        "{\n    pub fn extract(self) -> "@ +
        bsn +
        " {\n        self.into()\n    }\n}\nimpl "@ +
        impl_generics +
        " From<"@ +
        wsn +
        "> for "@ +
        bsn +
        " {\n    fn from(wrapper: "@ +
        wsn +
        ") -> Self {\n        Arc::try_unwrap(wrapper._core)\n            .ok()\n            .expect(\"the core is still shared by another handle\")\n            .into_inner()\n            .unwrap()\n    }\n}\nimpl<'a,"@ +
        generics +
        "> From<"@ +
        bsn +
        "> for "@ +
        wsn +
        "{\n    fn from(_core: "@ +
        bsn +
        ") -> Self {\n        return Self {\n            _core: Arc::new(RwLock::new(_core))\n        };\n    }\n}\nimpl "@ +
        impl_generics +
        " PartialEq for "@ +
        wsn +
        "{\n    fn eq(&self, other: &Self) -> bool {\n        let ptr_number = self._core.as_ref() as *const RwLock<"@ +
        bsn +
        "> as usize;\n        let other_ptr_number = other._core.as_ref() as *const RwLock<"@ +
        bsn +
        "> as usize;\n        return ptr_number == other_ptr_number;\n    }\n}\nimpl "@ +
        impl_generics +
        " Clone for "@ +
        wsn +
        "{\n    fn clone(&self) -> Self {\n        return Self { _core: self._core.clone() };\n    }\n}\nunsafe impl "@ +
        impl_generics +
        " Send for "@ +
        wsn +
        "{}\nunsafe impl "@ +
        impl_generics +
        " Sync for "@ +
        wsn +
        "{}\nimpl "@ +
        impl_generics +
        " "@ +
        wsn +
        "{\n    fn into_vec_wrapper(bases : Vec<"@ +
        bsn +
        ">) -> Vec<"@ +
        wsn +
        ">{\n        bases.into_iter().map(|b| b.into()).collect()\n    }\n    fn into_vec_base(multiples : Vec<"@ +
        wsn +
        ">) -> Vec<"@ +
        bsn +
        ">{\n        multiples.into_iter().map(|w| w.into()).collect()\n    }\n}\npub struct "@ +
        frg +
        "{\n    _guard : RwLockReadGuard<'a,"@ +
        bsn +
        ">,\n    reference : &'a T,\n}\nimpl<'a,T,"@ +
        generics +
        "> "@ +
        frg +
        "{\n    fn new( ptr : *const T, guard : RwLockReadGuard<'a,"@ +
        bsn +
        ">)->Self{\n        let reference = unsafe {&*ptr};\n        return Self {_guard : guard , reference };\n    }\n}\nimpl<'a, T,"@ +
        generics +
        "> Deref for "@ +
        frg +
        " {\n    type Target = T;\n    fn deref(&self) -> &Self::Target {\n        return self.reference;\n    }\n}\npub struct "@ +
        fmg +
        "{\n    _guard : RwLockWriteGuard<'a,"@ +
        bsn +
        ">,\n    reference : &'a T,\n    reference_mutable : &'a mut T,\n}\nimpl<'a,T,"@ +
        generics +
        "> "@ +
        fmg +
        "{\n    fn new( ptr : *mut T, guard : RwLockWriteGuard<'a,"@ +
        bsn +
        ">)->Self{\n        let reference = unsafe {&*ptr};\n        let reference_mutable = unsafe {&mut *ptr};\n        return Self {_guard : guard , reference,reference_mutable };\n    }\n}\nimpl<'a, T,"@ +
        generics +
        "> Deref for "@ +
        fmg +
        " {\n    type Target = T;\n    fn deref(&self) -> &Self::Target {\n        return self.reference;\n    }\n}\nimpl<'a, T,"@ +
        generics +
        "> DerefMut for "@ +
        fmg +
        " {\n    fn deref_mut(&mut self) -> &mut Self::Target {\n        return self.reference_mutable;\n    }\n}\n"@
}

fn fill_helpers(wsn: &str, bsn: &str, impl_generics: &str, generics: &str, frg: &str, fmg: &str) -> (r: String)
    ensures
        r@ == helpers_text(wsn@, bsn@, impl_generics@, generics@, frg@, fmg@),
{
    let mut r = String::new();
    r.append("impl ");
    r.append(wsn);
    r.append("{\n    pub fn extract(self) -> ");
    r.append(bsn);
    r.append(" {\n        self.into()\n    }\n}\nimpl ");
    r.append(impl_generics);
    r.append(" From<");
    r.append(wsn);
    r.append("> for ");
    r.append(bsn);
    r.append(" {\n    fn from(wrapper: ");
    r.append(wsn);
    r.append(") -> Self {\n        Arc::try_unwrap(wrapper._core)\n            .ok()\n            .expect(\"the core is still shared by another handle\")\n            .into_inner()\n            .unwrap()\n    }\n}\nimpl<'a,");
    r.append(generics);
    r.append("> From<");
    r.append(bsn);
    r.append("> for ");
    r.append(wsn);
    r.append("{\n    fn from(_core: ");
    r.append(bsn);
    r.append(") -> Self {\n        return Self {\n            _core: Arc::new(RwLock::new(_core))\n        };\n    }\n}\nimpl ");
    r.append(impl_generics);
    r.append(" PartialEq for ");
    r.append(wsn);
    r.append("{\n    fn eq(&self, other: &Self) -> bool {\n        let ptr_number = self._core.as_ref() as *const RwLock<");
    r.append(bsn);
    r.append("> as usize;\n        let other_ptr_number = other._core.as_ref() as *const RwLock<");
    r.append(bsn);
    r.append("> as usize;\n        return ptr_number == other_ptr_number;\n    }\n}\nimpl ");
    r.append(impl_generics);
    r.append(" Clone for ");
    r.append(wsn);
    r.append("{\n    fn clone(&self) -> Self {\n        return Self { _core: self._core.clone() };\n    }\n}\nunsafe impl ");
    r.append(impl_generics);
    r.append(" Send for ");
    r.append(wsn);
    r.append("{}\nunsafe impl ");
    r.append(impl_generics);
    r.append(" Sync for ");
    r.append(wsn);
    r.append("{}\nimpl ");
    r.append(impl_generics);
    r.append(" ");
    r.append(wsn);
    r.append("{\n    fn into_vec_wrapper(bases : Vec<");
    r.append(bsn);
    r.append(">) -> Vec<");
    r.append(wsn);
    r.append(">{\n        bases.into_iter().map(|b| b.into()).collect()\n    }\n    fn into_vec_base(multiples : Vec<");
    r.append(wsn);
    r.append(">) -> Vec<");
    r.append(bsn);
    r.append(">{\n        multiples.into_iter().map(|w| w.into()).collect()\n    }\n}\npub struct ");
    r.append(frg);
    r.append("{\n    _guard : RwLockReadGuard<'a,");
    r.append(bsn);
    r.append(">,\n    reference : &'a T,\n}\nimpl<'a,T,");
    r.append(generics);
    r.append("> ");
    r.append(frg);
    r.append("{\n    fn new( ptr : *const T, guard : RwLockReadGuard<'a,");
    r.append(bsn);
    r.append(">)->Self{\n        let reference = unsafe {&*ptr};\n        return Self {_guard : guard , reference };\n    }\n}\nimpl<'a, T,");
    r.append(generics);
    r.append("> Deref for ");
    r.append(frg);
    r.append(" {\n    type Target = T;\n    fn deref(&self) -> &Self::Target {\n        return self.reference;\n    }\n}\npub struct ");
    r.append(fmg);
    r.append("{\n    _guard : RwLockWriteGuard<'a,");
    r.append(bsn);
    r.append(">,\n    reference : &'a T,\n    reference_mutable : &'a mut T,\n}\nimpl<'a,T,");
    r.append(generics);
    r.append("> ");
    r.append(fmg);
    r.append("{\n    fn new( ptr : *mut T, guard : RwLockWriteGuard<'a,");
    r.append(bsn);
    r.append(">)->Self{\n        let reference = unsafe {&*ptr};\n        let reference_mutable = unsafe {&mut *ptr};\n        return Self {_guard : guard , reference,reference_mutable };\n    }\n}\nimpl<'a, T,");
    r.append(generics);
    r.append("> Deref for ");
    r.append(fmg);
    r.append(" {\n    type Target = T;\n    fn deref(&self) -> &Self::Target {\n        return self.reference;\n    }\n}\nimpl<'a, T,");
    r.append(generics);
    r.append("> DerefMut for ");
    r.append(fmg);
    r.append(" {\n    fn deref_mut(&mut self) -> &mut Self::Target {\n        return self.reference_mutable;\n    }\n}\n");
    r
}
/// The write accessor of a field.
pub open spec fn mut_accessor_text(vis: Seq<char>, ident: Seq<char>, mg: Seq<char>, ty: Seq<char>) -> Seq<char> {
    vis +
        " fn "@ +
        ident +
        "_mut(&mut self) -> "@ +
        mg +
        "<"@ +
        ty +
        ">{\n    let mut guard = self._core.write().unwrap();\n    let value = &mut guard."@ +
        ident +
        ";\n    let value = (value as *const "@ +
        ty +
        ") as *mut "@ +
        ty +
        ";\n    return "@ +
        mg +
        "::new(value, guard);\n}\n"@
}

fn fill_mut_accessor(vis: &str, ident: &str, mg: &str, ty: &str) -> (r: String)
    ensures
        r@ == mut_accessor_text(vis@, ident@, mg@, ty@),
{
    let mut r = String::new();
    r.append(vis);
    r.append(" fn ");
    r.append(ident);
    r.append("_mut(&mut self) -> ");
    r.append(mg);
    r.append("<");
    r.append(ty);
    r.append(">{\n    let mut guard = self._core.write().unwrap();\n    let value = &mut guard.");
    r.append(ident);
    r.append(";\n    let value = (value as *const ");
    r.append(ty);
    r.append(") as *mut ");
    r.append(ty);
    r.append(";\n    return ");
    r.append(mg);
    r.append("::new(value, guard);\n}\n");
    r
}
/// The read accessor of a field.
pub open spec fn ref_accessor_text(vis: Seq<char>, ident: Seq<char>, rg: Seq<char>, ty: Seq<char>) -> Seq<char> {
    vis +
        " fn "@ +
        ident +
        "(&self) -> "@ +
        rg +
        "<"@ +
        ty +
        ">{\n    let guard = self._core.read().unwrap();\n    let value = &guard."@ +
        ident +
        ";\n    let value = value as *const "@ +
        ty +
        ";\n    return "@ +
        rg +
        "::new(value, guard);\n}\n"@
}

fn fill_ref_accessor(vis: &str, ident: &str, rg: &str, ty: &str) -> (r: String)
    ensures
        r@ == ref_accessor_text(vis@, ident@, rg@, ty@),
{
    let mut r = String::new();
    r.append(vis);
    r.append(" fn ");
    r.append(ident);
    r.append("(&self) -> ");
    r.append(rg);
    r.append("<");
    r.append(ty);
    r.append(">{\n    let guard = self._core.read().unwrap();\n    let value = &guard.");
    r.append(ident);
    r.append(";\n    let value = value as *const ");
    r.append(ty);
    r.append(";\n    return ");
    r.append(rg);
    r.append("::new(value, guard);\n}\n");
    r
}
/// The whole expansion of a struct, from its parts.
pub open spec fn expansion_text(vis: Seq<char>, core: Seq<char>, generics: Seq<char>, ident: Seq<char>, filtered: Seq<char>, use_accessor: Seq<char>, core_struct: Seq<char>, wrapper_struct: Seq<char>, access_methods: Seq<char>, helpers: Seq<char>) -> Seq<char> {
    vis +
        " type "@ +
        core +
        generics +
        " = _core::"@ +
        ident +
        filtered +
        ";\nuse std::{\n    fmt::Debug,\n    ops::{Deref, DerefMut},\n    sync::{Arc, RwLock, RwLockReadGuard, RwLockWriteGuard},\n};\nmod _core{\n"@ +
        use_accessor +
        "\n"@ +
        core_struct +
        "}\n"@ +
        wrapper_struct +
        access_methods +
        helpers
}

fn fill_expansion(vis: &str, core: &str, generics: &str, ident: &str, filtered: &str, use_accessor: &str, core_struct: &str, wrapper_struct: &str, access_methods: &str, helpers: &str) -> (r: String)
    ensures
        r@ == expansion_text(vis@, core@, generics@, ident@, filtered@, use_accessor@, core_struct@, wrapper_struct@, access_methods@, helpers@),
{
    let mut r = String::new();
    r.append(vis);
    r.append(" type ");
    r.append(core);
    r.append(generics);
    r.append(" = _core::");
    r.append(ident);
    r.append(filtered);
    r.append(";\nuse std::{\n    fmt::Debug,\n    ops::{Deref, DerefMut},\n    sync::{Arc, RwLock, RwLockReadGuard, RwLockWriteGuard},\n};\nmod _core{\n");
    r.append(use_accessor);
    r.append("\n");
    r.append(core_struct);
    r.append("}\n");
    r.append(wrapper_struct);
    r.append(access_methods);
    r.append(helpers);
    r
}


/// The names that the companion items use: the wrapper and core types with
/// their generic parameters, the generic parameters for an `impl`, the bare
/// parameters, and the two guard types.
pub open spec fn helper_names(s: StructModel) -> (Seq<char>, Seq<char>, Seq<char>, Seq<char>, Seq<char>, Seq<char>) {
    let with = if s.params@.len() > 0 {
        "<"@ + s.params_text@ + ">"@
    } else {
        seq![]
    };
    let generics = if s.params@.len() > 0 {
        s.params_text@
    } else {
        seq![]
    };
    (
        s.ident@ + with,
        core_name(s.ident@) + with,
        with,
        generics,
        s.ident@ + "RefLock"@ + "<'a,T,"@ + generics + ">"@,
        s.ident@ + "MutLock"@ + "<'a,T,"@ + generics + ">"@,
    )
}

/// The companion items of a wrapper.
pub fn generation_help_strutures_and_impls(wrapper: &StructModel) -> (r: String)
    ensures
        ({
            let (wsn, bsn, impl_generics, generics, frg, fmg) = helper_names(*wrapper);
            r@ == helpers_text(wsn, bsn, impl_generics, generics, frg, fmg)
        }),
{
    let ident = wrapper.ident.as_str();
    let (with, generics) = if wrapper.params.len() > 0 {
        (cat3("<", wrapper.params_text.as_str(), ">"), String::from_str(wrapper.params_text.as_str()))
    } else {
        (String::new(), String::new())
    };
    let wsn = cat(ident, with.as_str());
    let core = full_base_struct_name(ident);
    let bsn = cat(core.as_str(), with.as_str());
    let rg = get_ref_guard_name(ident);
    let mg = get_mut_guard_name(ident);
    let frg = cat4(rg.as_str(), "<'a,T,", generics.as_str(), ">");
    let fmg = cat4(mg.as_str(), "<'a,T,", generics.as_str(), ">");
    fill_helpers(
        wsn.as_str(),
        bsn.as_str(),
        with.as_str(),
        generics.as_str(),
        frg.as_str(),
        fmg.as_str(),
    )
}

/// The accessor pair of each field, in order.
pub open spec fn accessors(fields: Seq<FieldModel>, ident: Seq<char>) -> Seq<char>
    decreases fields.len(),
{
    if fields.len() == 0 {
        seq![]
    } else {
        let f = fields.last();
        accessors(fields.drop_last(), ident) + mut_accessor_text(
            mut_accessor_vis(f),
            f.ident@,
            ident + "MutLock"@,
            f.ty@,
        ) + ref_accessor_text(f.vis@, f.ident@, ident + "RefLock"@, f.ty@)
    }
}

/// The accessor pair of one field.
pub open spec fn accessor_pair(f: FieldModel, ident: Seq<char>) -> Seq<char> {
    mut_accessor_text(mut_accessor_vis(f), f.ident@, ident + "MutLock"@, f.ty@)
        + ref_accessor_text(f.vis@, f.ident@, ident + "RefLock"@, f.ty@)
}

#[verifier::spinoff_prover]
proof fn lemma_accessors_concat(a: Seq<FieldModel>, b: Seq<FieldModel>, ident: Seq<char>)
    ensures
        accessors(a + b, ident) == accessors(a, ident) + accessors(b, ident),
    decreases b.len(),
{
    if b.len() == 0 {
        assert(a + b =~= a);
        assert(accessors(a, ident) + accessors(b, ident) =~= accessors(a, ident));
    } else {
        lemma_accessors_concat(a, b.drop_last(), ident);
        assert((a + b).drop_last() =~= a + b.drop_last());
        assert((a + b).last() == b.last());
        let f = b.last();
        assert(accessors(a, ident) + accessors(b.drop_last(), ident) + mut_accessor_text(
            mut_accessor_vis(f),
            f.ident@,
            ident + "MutLock"@,
            f.ty@,
        ) + ref_accessor_text(f.vis@, f.ident@, ident + "RefLock"@, f.ty@) =~= accessors(a, ident)
            + (accessors(b.drop_last(), ident) + mut_accessor_text(
            mut_accessor_vis(f),
            f.ident@,
            ident + "MutLock"@,
            f.ty@,
        ) + ref_accessor_text(f.vis@, f.ident@, ident + "RefLock"@, f.ty@)));
    }
}

/// Every field gets its accessor pair, in the order of the fields: the write
/// accessor `name_mut` with the field's visibility (private when the field is
/// marked `public_read_only`), then the read accessor `name` with the field's
/// visibility.
pub proof fn lemma_field_accessor_pair(fields: Seq<FieldModel>, ident: Seq<char>, i: int)
    requires
        0 <= i < fields.len(),
    ensures
        accessors(fields, ident) == accessors(fields.take(i), ident) + accessor_pair(
            fields[i],
            ident,
        ) + accessors(fields.skip(i + 1), ident),
{
    let single = seq![fields[i]];
    assert(fields =~= fields.take(i) + single + fields.skip(i + 1));
    lemma_accessors_concat(fields.take(i) + single, fields.skip(i + 1), ident);
    lemma_accessors_concat(fields.take(i), single, ident);
    assert(single.drop_last() =~= Seq::<FieldModel>::empty());
    assert(accessors(single.drop_last(), ident) =~= Seq::<char>::empty());
    assert(single.last() == fields[i]);
    assert(accessors(single, ident) =~= accessor_pair(fields[i], ident));
}

/// The parameters of the builder: one `name: type` per field.
pub open spec fn builder_params(fields: Seq<FieldModel>) -> Seq<Seq<char>> {
    fields.map_values(|f: FieldModel| f.ident@ + ": "@ + f.ty@)
}

/// The field names, as the builder lists them.
pub open spec fn field_names(fields: Seq<FieldModel>) -> Seq<Seq<char>> {
    fields.map_values(|f: FieldModel| f.ident@)
}

/// The `impl` block of the accessors and of the builder of a wrapper.
pub open spec fn access_impl_text(ident: Seq<char>, fields: Seq<FieldModel>, generics: Seq<char>) -> Seq<char> {
    "impl"@ + generics + " "@ + ident + generics + "{\n"@ + accessors(fields, ident) + "fn builder("@
        + join(builder_params(fields), ", "@) + ") -> Self{\n    return "@ + core_name(ident)
        + " "@ + generics + "{"@ + join(field_names(fields), ", "@) + "}.into();\n}\n"@ + "}\n"@
}

/// The accessors and the builder of a wrapper: for each field, `name_mut`
/// and `name` with the field's visibility (`name_mut` private for a field
/// marked `public_read_only`), giving guards of the field; and a private
/// `builder` that takes every field and wraps a new core.
pub fn generation_access_fields_for_wrapper(
    original_ident_struct: &str,
    fields: &Vec<FieldModel>,
    generics: &str,
) -> (r: String)
    ensures
        r@ == access_impl_text(original_ident_struct@, fields@, generics@),
{
    let ident = original_ident_struct;
    let mg = get_mut_guard_name(ident);
    let rg = get_ref_guard_name(ident);
    let mut methods = String::new();
    let mut params: Vec<String> = Vec::new();
    let mut names: Vec<String> = Vec::new();
    let mut i: usize = 0;
    while i < fields.len()
        invariant
            i <= fields.len(),
            mg@ == ident@ + "MutLock"@,
            rg@ == ident@ + "RefLock"@,
            methods@ == accessors(fields@.take(i as int), ident@),
            params@.len() == i,
            names@.len() == i,
            forall|j: int| 0 <= j < i ==> #[trigger] params@[j]@ == fields@[j].ident@ + ": "@ + fields@[j].ty@,
            forall|j: int| 0 <= j < i ==> #[trigger] names@[j]@ == fields@[j].ident@,
        decreases fields.len() - i,
    {
        let f = &fields[i];
        let mut_vis = if is_read_only(f) {
            String::new()
        } else {
            String::from_str(f.vis.as_str())
        };
        let m = fill_mut_accessor(mut_vis.as_str(), f.ident.as_str(), mg.as_str(), f.ty.as_str());
        let r = fill_ref_accessor(f.vis.as_str(), f.ident.as_str(), rg.as_str(), f.ty.as_str());
        methods.append(m.as_str());
        methods.append(r.as_str());
        assert(fields@.take(i + 1).drop_last() =~= fields@.take(i as int));
        params.push(cat3(f.ident.as_str(), ": ", f.ty.as_str()));
        names.push(String::from_str(f.ident.as_str()));
        i = i + 1;
    }
    assert(fields@.take(fields.len() as int) =~= fields@);
    assert(texts(params@) =~= builder_params(fields@));
    assert(texts(names@) =~= field_names(fields@));
    let params_text = join_texts(&params, ", ");
    let names_text = join_texts(&names, ", ");
    let core = full_base_struct_name(ident);
    let mut r = String::from_str("impl");
    r.append(generics);
    r.append(" ");
    r.append(ident);
    r.append(generics);
    r.append("{\n");
    r.append(methods.as_str());
    r.append("fn builder(");
    r.append(params_text.as_str());
    r.append(") -> Self{\n    return ");
    r.append(core.as_str());
    r.append(" ");
    r.append(generics);
    r.append("{");
    r.append(names_text.as_str());
    r.append("}.into();\n}\n");
    r.append("}\n");
    r
}

/// The expansion of a struct, or its refusal: a struct with lifetime
/// parameters is refused first, then one whose fields are not named.
/// `is_root` tells whether the struct stands at the root of its crate.
pub open spec fn struct_expansion(s: StructModel, is_root: bool) -> Result<Seq<char>, ErrorKind> {
    if has_lifetime(s.params@) {
        Err(ErrorKind::LifetimesNotSupported)
    } else {
        match s.fields {
            FieldsModel::Named(fs) => {
                let (wsn, bsn, impl_generics, generics, frg, fmg) = helper_names(s);
                Ok(
                    expansion_text(
                        s.vis@,
                        core_name(s.ident@),
                        s.generics@,
                        s.ident@,
                        filtered_generics(s.params@),
                        if is_root {
                            "use crate::*;"@
                        } else {
                            "use super::*;"@
                        },
                        core_struct_text(s),
                        wrapper_struct_text(s),
                        access_impl_text(s.ident@, fs@, s.generics@),
                        helpers_text(wsn, bsn, impl_generics, generics, frg, fmg),
                    ),
                )
            },
            FieldsModel::Unnamed(_, _) => Err(ErrorKind::UnnamedFields),
            FieldsModel::Other(_) => Err(ErrorKind::UnnamedFields),
        }
    }
}

/// Expands a struct.
pub fn expantion(item_struct: &StructModel, is_root: bool) -> (r: Result<String, ExpansionError>)
    ensures
        match struct_expansion(*item_struct, is_root) {
            Err(kind) => r matches Err(e) && error_is(e, kind, item_struct.ident@),
            Ok(text) => r matches Ok(t) && t@ == text,
        },
{
    let core_struct = match core_normalization(item_struct) {
        Ok(t) => t,
        Err(e) => {
            return Err(e);
        },
    };
    let wrapper_struct = wrapper_normalization(item_struct);
    let helpers = generation_help_strutures_and_impls(item_struct);
    match &item_struct.fields {
        FieldsModel::Named(fs) => {
            let access = generation_access_fields_for_wrapper(
                item_struct.ident.as_str(),
                fs,
                item_struct.generics.as_str(),
            );
            let core = full_base_struct_name(item_struct.ident.as_str());
            let filtered = filter_generics(&item_struct.params);
            let use_accessor = if is_root {
                String::from_str("use crate::*;")
            } else {
                String::from_str("use super::*;")
            };
            Ok(
                fill_expansion(
                    item_struct.vis.as_str(),
                    core.as_str(),
                    item_struct.generics.as_str(),
                    item_struct.ident.as_str(),
                    filtered.as_str(),
                    use_accessor.as_str(),
                    core_struct.as_str(),
                    wrapper_struct.as_str(),
                    access.as_str(),
                    helpers.as_str(),
                ),
            )
        },
        _ => Err(
            ExpansionError {
                kind: ErrorKind::UnnamedFields,
                item: String::from_str(item_struct.ident.as_str()),
            },
        ),
    }
}

/// A struct as it stands in a file: its name and its text.
pub struct StructText {
    pub ident: String,
    pub text: String,
}

/// A struct of the same name and the same text stands among `items`.
pub open spec fn stands_among(items: Seq<StructText>, s: StructText) -> bool {
    exists|i: int| 0 <= i < items.len() && (#[trigger] items[i]).ident@ == s.ident@ && items[i].text@ == s.text@
}

/// Whether the struct stands among the top-level structs of the crate's root file.
pub fn struct_is_root(root_structs: &Vec<StructText>, original_struture: &StructText) -> (r: bool)
    ensures
        r == stands_among(root_structs@, *original_struture),
{
    let mut i: usize = 0;
    while i < root_structs.len()
        invariant
            i <= root_structs.len(),
            forall|j: int| 0 <= j < i ==> !((#[trigger] root_structs@[j]).ident@ == original_struture.ident@ && root_structs@[j].text@ == original_struture.text@),
        decreases root_structs.len() - i,
    {
        if text_eq(root_structs[i].ident.as_str(), original_struture.ident.as_str()) && text_eq(
            root_structs[i].text.as_str(),
            original_struture.text.as_str(),
        ) {
            assert(root_structs@[i as int].ident@ == original_struture.ident@);
            return true;
        }
        i = i + 1;
    }
    false
}

} // verus!
