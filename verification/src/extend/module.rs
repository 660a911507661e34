//! The expansion of a whole module: each item without the attribute is
//! expanded on its own, an item that carries it is left out, and any other
//! item stays as it is.
use vstd::prelude::*;
use vstd::string::*;
use crate::extend::attributes::{item_scan, ModItem, ModModel};
use crate::extend::impls::{extend_impl, extend_impl_errors, extend_impl_plan, ImplSplit};
use crate::extend::structs::{
    attrs_searchable, extend_struct, extend_struct_text, fields_listed, transformed_struct,
};
use crate::extend::syntax::{error_view, rebuilt_views, ErrorView, ExtendError, ExtendErrorKind, RebuiltView};
use crate::model::{type_text, TypeModel};
use crate::text::cat3;

pub use crate::extend::attributes::has_warcrwlock_attribute;

verus! {

/// The text of a type.
pub fn get_type_name(type_: &TypeModel) -> (r: String)
    ensures
        r@ == type_text(*type_),
{
    String::from_str(type_.text().as_str())
}

/// What an item of a module becomes, by its index among the module's items:
/// the two blocks of an `impl` block, the expansion of a module or the text of
/// a struct's expansion, or the item as it is.
pub enum ModPart {
    Impl { source: usize, split: ImplSplit },
    Mod { source: usize, expansion: Box<ModExpansion> },
    Struct { source: usize, text: String },
    Item { source: usize },
}

/// The expansion of a module: the head `vis mod name`, and what its items
/// become, in order; the items become the module's body.
pub struct ModExpansion {
    pub head: String,
    pub parts: Vec<ModPart>,
}

/// A part as plain values.
pub enum PartView {
    Impl(nat, Seq<char>, Seq<RebuiltView>, Seq<RebuiltView>),
    Mod(nat, Seq<char>, Seq<PartView>),
    Struct(nat, Seq<char>),
    Item(nat),
}

/// The plain values of an expansion.
pub open spec fn expansion_view(e: ModExpansion) -> (Seq<char>, Seq<PartView>)
    decreases e,
{
    (e.head@, parts_view(e.parts@))
}

/// The plain values of a list of parts.
pub open spec fn parts_view(parts: Seq<ModPart>) -> Seq<PartView>
    decreases parts,
{
    if parts.len() == 0 {
        seq![]
    } else {
        parts_view(parts.drop_last()).push(part_view(parts.last()))
    }
}

/// The plain values of a part.
pub open spec fn part_view(p: ModPart) -> PartView
    decreases p,
{
    match p {
        ModPart::Impl { source, split } => PartView::Impl(
            source as nat,
            split.base_self_ty@,
            rebuilt_views(split.base_items@),
            rebuilt_views(split.wrapper_items@),
        ),
        ModPart::Mod { source, expansion } => PartView::Mod(
            source as nat,
            expansion.head@,
            parts_view(expansion.parts@),
        ),
        ModPart::Struct { source, text } => PartView::Struct(source as nat, text@),
        ModPart::Item { source } => PartView::Item(source as nat),
    }
}

/// The head of a module.
pub open spec fn mod_head(m: ModModel) -> Seq<char> {
    m.vis@ + " mod "@ + m.ident@
}

/// The module has a body, and every item in it can be expanded: the search
/// for the attribute is defined on it and, for an item without the attribute,
/// a struct has its fields listed and its attributes searchable, and a module
/// can be expanded in turn.
pub open spec fn mod_ok(m: ModModel) -> bool
    decreases m,
{
    match m.content {
        Some(items) => items_ok(items@),
        None => false,
    }
}

/// Every item of the list can be expanded.
pub open spec fn items_ok(items: Seq<ModItem>) -> bool
    decreases items,
{
    if items.len() == 0 {
        true
    } else {
        items_ok(items.drop_last()) && item_ok(items.last())
    }
}

/// The item can be expanded.
pub open spec fn item_ok(item: ModItem) -> bool
    decreases item,
{
    item_scan(item) is Some && (item_scan(item) == Some(false) ==> match item {
        ModItem::Struct { item, .. } => fields_listed(item.fields) && attrs_searchable(item.attrs@),
        ModItem::Mod { module, .. } => mod_ok(*module),
        _ => true,
    })
}

/// The expansion of a module, as plain values, when every generated text
/// parses.
pub open spec fn mod_plan(m: ModModel) -> (Seq<char>, Seq<PartView>)
    decreases m,
{
    match m.content {
        Some(items) => (mod_head(m), items_plan(items@)),
        None => (mod_head(m), seq![]),
    }
}

/// What the items of a list become when every generated text parses.
pub open spec fn items_plan(items: Seq<ModItem>) -> Seq<PartView>
    decreases items,
{
    if items.len() == 0 {
        seq![]
    } else {
        items_plan(items.drop_last()) + item_plan(items.last(), items.len() - 1)
    }
}

/// What the item at index `i` becomes: nothing when it carries the attribute.
pub open spec fn item_plan(item: ModItem, i: int) -> Seq<PartView>
    decreases item,
{
    if item_scan(item) == Some(true) {
        seq![]
    } else {
        match item {
            ModItem::Impl { block, .. } => {
                let (bs, b, w) = extend_impl_plan(block);
                seq![PartView::Impl(i as nat, bs, b, w)]
            },
            ModItem::Mod { module, .. } => {
                let (h, ps) = mod_plan(*module);
                seq![PartView::Mod(i as nat, h, ps)]
            },
            ModItem::Struct { item, .. } => seq![PartView::Struct(i as nat, extend_struct_text(item))],
            ModItem::Other { .. } => seq![PartView::Item(i as nat)],
        }
    }
}

/// How many of the items are expanded: those that do not carry the attribute.
pub open spec fn expanded_count(items: Seq<ModItem>) -> nat
    decreases items.len(),
{
    if items.len() == 0 {
        0
    } else {
        expanded_count(items.drop_last()) + if item_scan(items.last()) == Some(true) {
            0nat
        } else {
            1nat
        }
    }
}

/// A list of items gives one part per item without the attribute.
pub proof fn lemma_one_part_per_expanded_item(items: Seq<ModItem>)
    ensures
        items_plan(items).len() == expanded_count(items),
    decreases items.len(),
{
    if items.len() > 0 {
        lemma_one_part_per_expanded_item(items.drop_last());
        let it = items.last();
        let n = (items.len() - 1) as int;
        if item_scan(it) != Some(true) {
            match it {
                ModItem::Impl { block, .. } => {
                    let (bs, b, w) = extend_impl_plan(block);
                    assert(item_plan(it, n) == seq![PartView::Impl(n as nat, bs, b, w)]);
                },
                ModItem::Mod { module, .. } => {
                    let (h, ps) = mod_plan(*module);
                    assert(item_plan(it, n) == seq![PartView::Mod(n as nat, h, ps)]);
                },
                _ => {},
            }
            assert(item_plan(it, n).len() == 1);
        } else {
            assert(item_plan(it, n).len() == 0);
        }
        assert(items_plan(items) == items_plan(items.drop_last()) + item_plan(it, n));
    }
}

/// A module inside a module, without the attribute, is expanded in place:
/// its part keeps the item's index and the module's head, and holds what the
/// nested module's own items become, one part for each of them that does not
/// carry the attribute.
pub proof fn lemma_nested_module_expanded(item: ModItem, i: int)
    requires
        item matches ModItem::Mod { module, .. } && module.content is Some,
        item_scan(item) == Some(false),
    ensures
        item_plan(item, i).len() == 1,
        item_plan(item, i)[0] matches PartView::Mod(j, h, ps) && j == i as nat && h == mod_head(
            *item->Mod_module,
        ) && ps == items_plan(item->Mod_module.content->Some_0@) && ps.len() == expanded_count(
            item->Mod_module.content->Some_0@,
        ),
{
    lemma_one_part_per_expanded_item(item->Mod_module.content->Some_0@);
}

/// `e` is a refusal that the expansion of the module can give: one that an
/// item without the attribute can give.
pub open spec fn mod_may_fail(m: ModModel, e: ErrorView) -> bool
    decreases m,
{
    match m.content {
        Some(items) => items_may_fail(items@, e),
        None => false,
    }
}

/// `e` is a refusal that one of the items can give.
pub open spec fn items_may_fail(items: Seq<ModItem>, e: ErrorView) -> bool
    decreases items,
{
    if items.len() == 0 {
        false
    } else {
        items_may_fail(items.drop_last(), e) || item_may_fail(items.last(), e)
    }
}

/// `e` is a refusal that the item can give: one of its `impl` block's
/// refusals, its struct's file refusal, or one of its module's refusals.
pub open spec fn item_may_fail(item: ModItem, e: ErrorView) -> bool
    decreases item,
{
    item_scan(item) != Some(true) && match item {
        ModItem::Impl { block, .. } => extend_impl_errors(block).contains(e),
        ModItem::Mod { module, .. } => mod_may_fail(*module, e),
        ModItem::Struct { item, .. } => e == (
            ExtendErrorKind::FileConstruction,
            transformed_struct(item),
            Seq::<char>::empty(),
        ),
        ModItem::Other { .. } => false,
    }
}

proof fn lemma_items_prefix(items: Seq<ModItem>, k: int)
    requires
        0 <= k <= items.len(),
        items_ok(items),
    ensures
        items_ok(items.take(k)),
        k < items.len() ==> item_ok(items[k]),
    decreases items.len() - k,
{
    if k < items.len() {
        lemma_items_prefix(items, k + 1);
        assert(items.take(k + 1).drop_last() =~= items.take(k));
    } else {
        assert(items.take(k) =~= items);
    }
}

proof fn lemma_items_may_fail(items: Seq<ModItem>, k: int, e: ErrorView)
    requires
        0 <= k < items.len(),
        item_may_fail(items[k], e),
    ensures
        items_may_fail(items, e),
    decreases items.len() - k,
{
    if k < items.len() - 1 {
        lemma_items_may_fail(items.drop_last(), k, e);
    }
}

/// Expands a module item by item. On success the expansion is the plan; a
/// refusal is one that an item without the attribute can give.
pub fn extend_mod(item_mod: &ModModel) -> (r: Result<ModExpansion, ExtendError>)
    requires
        mod_ok(*item_mod),
    ensures
        match r {
            Ok(x) => expansion_view(x) == mod_plan(*item_mod),
            Err(x) => mod_may_fail(*item_mod, error_view(x)),
        },
    decreases item_mod,
{
    let head = cat3(item_mod.vis.as_str(), " mod ", item_mod.ident.as_str());
    let items = match &item_mod.content {
        Some(items) => items,
        None => {
            return Ok(ModExpansion { head, parts: Vec::new() });
        },
    };
    let mut parts: Vec<ModPart> = Vec::new();
    let mut i: usize = 0;
    while i < items.len()
        invariant
            i <= items.len(),
            item_mod.content == Some(*items),
            items_ok(items@),
            parts_view(parts@) == items_plan(items@.take(i as int)),
        decreases items.len() - i,
    {
        proof {
            lemma_items_prefix(items@, i as int);
            assert(items@.take(i + 1).drop_last() =~= items@.take(i as int));
            assert(items@.take(i + 1).last() == items@[i as int]);
        }
        let item = &items[i];
        let ghost before = parts@;
        let part: Option<ModPart> = if has_warcrwlock_attribute(item) {
            None
        } else {
            match item {
                ModItem::Impl { block, .. } => match extend_impl(block) {
                    Ok(split) => Some(ModPart::Impl { source: i, split }),
                    Err(e) => {
                        proof {
                            assert(item_may_fail(items@[i as int], error_view(e)));
                            lemma_items_may_fail(items@, i as int, error_view(e));
                        }
                        return Err(e);
                    },
                },
                ModItem::Mod { module, .. } => {
                    proof {
                        broadcast use vstd::std_specs::vec::axiom_vec_index_decreases;

                        assert(decreases_to!(*items => items[i as int]));
                        assert(item_mod.content->Some_0 == *items);
                        assert(decreases_to!(item_mod.content => item_mod.content->Some_0));
                        assert(decreases_to!(*item_mod => item_mod.content));
                    }
                    match extend_mod(module) {
                        Ok(expansion) => Some(
                            ModPart::Mod { source: i, expansion: Box::new(expansion) },
                        ),
                        Err(e) => {
                            proof {
                                assert(item_may_fail(items@[i as int], error_view(e)));
                                lemma_items_may_fail(items@, i as int, error_view(e));
                            }
                            return Err(e);
                        },
                    }
                },
                ModItem::Struct { item, .. } => match extend_struct(item) {
                    Ok(text) => Some(ModPart::Struct { source: i, text }),
                    Err(e) => {
                        proof {
                            assert(error_view(e) =~~= (
                                ExtendErrorKind::FileConstruction,
                                transformed_struct(*item),
                                Seq::<char>::empty(),
                            ));
                            assert(item_may_fail(items@[i as int], error_view(e)));
                            lemma_items_may_fail(items@, i as int, error_view(e));
                        }
                        return Err(e);
                    },
                },
                ModItem::Other { .. } => Some(ModPart::Item { source: i }),
            }
        };
        proof {
            let q = item_plan(items@[i as int], i as int);
            assert(part is Some ==> q =~= seq![part_view(part->Some_0)]);
            assert(part is None ==> q =~= Seq::<PartView>::empty());
        }
        match part {
            Some(p) => {
                parts.push(p);
                assert(parts@.drop_last() =~= before);
            },
            None => {},
        }
        proof {
            let pr = items_plan(items@.take(i as int));
            let q = item_plan(items@[i as int], i as int);
            assert(parts_view(parts@) =~= pr + q);
        }
        i = i + 1;
    }
    proof {
        assert(items@.take(items@.len() as int) =~= items@);
    }
    Ok(ModExpansion { head, parts })
}

} // verus!
