//! The attributes of items, and the names they are read by.
use vstd::prelude::*;
use vstd::string::*;
use crate::extend::impls::ImplBlockModel;
use crate::model::TypeModel;
use crate::structure::StructModel;
use crate::text::{contains_seq, contains_text};

verus! {

/// The name of the attribute.
pub const ATTRIBUTE_NAME: &'static str = "warcrwlock";

/// An attribute: its text, and its path when that path is a single
/// identifier.
pub struct AttrModel {
    pub text: String,
    pub name: Option<String>,
}

/// The text of an optional text.
pub open spec fn opt_view(o: Option<String>) -> Option<Seq<char>> {
    match o {
        Some(s) => Some(s@),
        None => None,
    }
}

/// The name of an attribute: its path, when that is a single identifier.
pub fn get_name_attribute(attribute: &AttrModel) -> (r: Option<String>)
    ensures
        opt_view(r) == opt_view(attribute.name),
{
    match &attribute.name {
        Some(n) => Some(String::from_str(n.as_str())),
        None => None,
    }
}

/// A module: the text of its visibility, its name, and its items when it has
/// a body.
pub struct ModModel {
    pub vis: String,
    pub ident: String,
    pub content: Option<Vec<ModItem>>,
}

/// An item of a module: a struct, an `impl` block or a module, each with its
/// attributes, or any other item with its text.
pub enum ModItem {
    Struct { attrs: Vec<AttrModel>, item: StructModel },
    Impl { attrs: Vec<AttrModel>, block: ImplBlockModel },
    Mod { attrs: Vec<AttrModel>, module: Box<ModModel> },
    Other { text: String },
}

/// The attributes of an item; none for an item that is not a struct, an
/// `impl` block or a module.
pub open spec fn item_attrs(item: ModItem) -> Seq<AttrModel> {
    match item {
        ModItem::Struct { attrs, .. } => attrs@,
        ModItem::Impl { attrs, .. } => attrs@,
        ModItem::Mod { attrs, .. } => attrs@,
        ModItem::Other { .. } => seq![],
    }
}

/// The search for the attribute among the first `k` attributes: `Some(true)`
/// once one whose name holds `warcrwlock` is found, `None` when an attribute
/// whose path is not a single identifier comes first.
pub open spec fn attr_scan(attrs: Seq<AttrModel>, k: int) -> Option<bool>
    decreases k,
{
    if k <= 0 {
        Some(false)
    } else {
        match attr_scan(attrs, k - 1) {
            Some(true) => Some(true),
            None => None,
            Some(false) => match attrs[k - 1].name {
                None => None,
                Some(n) => Some(contains_seq(n@, ATTRIBUTE_NAME@)),
            },
        }
    }
}

/// The search over all the attributes of an item.
pub open spec fn item_scan(item: ModItem) -> Option<bool> {
    attr_scan(item_attrs(item), item_attrs(item).len() as int)
}

fn scan_attrs(attrs: &Vec<AttrModel>) -> (r: bool)
    requires
        attr_scan(attrs@, attrs@.len() as int) is Some,
    ensures
        attr_scan(attrs@, attrs@.len() as int) == Some(r),
{
    let mut i: usize = 0;
    while i < attrs.len()
        invariant
            i <= attrs.len(),
            attr_scan(attrs@, i as int) == Some(false),
            attr_scan(attrs@, attrs@.len() as int) is Some,
        decreases attrs.len() - i,
    {
        let name = get_name_attribute(&attrs[i]);
        match name {
            Some(n) => {
                if contains_text(n.as_str(), ATTRIBUTE_NAME) {
                    proof {
                        lemma_scan_found(attrs@, i + 1, attrs@.len() as int);
                    }
                    return true;
                }
            },
            None => {
                proof {
                    lemma_scan_broken(attrs@, i + 1, attrs@.len() as int);
                }
            },
        }
        i = i + 1;
    }
    false
}

proof fn lemma_scan_found(attrs: Seq<AttrModel>, k: int, n: int)
    requires
        0 <= k <= n,
        attr_scan(attrs, k) == Some(true),
    ensures
        attr_scan(attrs, n) == Some(true),
    decreases n - k,
{
    if k < n {
        lemma_scan_found(attrs, k + 1, n);
    }
}

proof fn lemma_scan_broken(attrs: Seq<AttrModel>, k: int, n: int)
    requires
        0 <= k <= n,
        attr_scan(attrs, k) is None,
    ensures
        attr_scan(attrs, n) is None,
    decreases n - k,
{
    if k < n {
        lemma_scan_broken(attrs, k + 1, n);
    }
}

/// The item carries the attribute: among its attributes, read in order, one
/// whose name holds `warcrwlock` comes before any whose path is not a single
/// identifier.
pub fn has_warcrwlock_attribute(item: &ModItem) -> (r: bool)
    requires
        item_scan(*item) is Some,
    ensures
        item_scan(*item) == Some(r),
{
    match item {
        ModItem::Struct { attrs, .. } => scan_attrs(attrs),
        ModItem::Impl { attrs, .. } => scan_attrs(attrs),
        ModItem::Mod { attrs, .. } => scan_attrs(attrs),
        ModItem::Other { .. } => false,
    }
}

/// The identifier of a type that is a path of one segment without generic
/// arguments.
pub open spec fn single_ident(t: TypeModel) -> Option<Seq<char>> {
    match t {
        TypeModel::Path { prefix, arguments, ident, .. } => if prefix@.len() == 0
            && arguments@.len() == 0 {
            Some(ident@)
        } else {
            None
        },
        _ => None,
    }
}

/// The name of a type that is a single identifier.
pub fn get_type_name(type_: &TypeModel) -> (r: Option<String>)
    ensures
        opt_view(r) == single_ident(*type_),
{
    match type_ {
        TypeModel::Path { prefix, arguments, ident, .. } => {
            if prefix.as_str().is_empty() && arguments.as_str().is_empty() {
                Some(String::from_str(ident.as_str()))
            } else {
                None
            }
        },
        _ => None,
    }
}

} // verus!
