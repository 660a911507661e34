//! Whether a struct stands in the crate's root file: the file's text is
//! parsed with `syn`, and the struct is looked for among its top-level
//! structs by name and by text.
use quote::ToTokens;
use vstd::prelude::*;
use vstd::string::*;
use crate::structure::{struct_is_root, StructText};

verus! {

/// A struct of a file as plain values.
pub open spec fn struct_text_view(s: StructText) -> (Seq<char>, Seq<char>) {
    (s.ident@, s.text@)
}

/// The plain values of the items of a file.
pub open spec fn items_view(v: Seq<Option<StructText>>) -> Seq<Option<(Seq<char>, Seq<char>)>> {
    v.map_values(
        |o: Option<StructText>|
            match o {
                Some(s) => Some(struct_text_view(s)),
                None => None,
            },
    )
}

/// Parses `source` with `syn::parse_file` and gives, for each top-level item
/// in order, the name and token text of a struct and nothing for any other
/// item; `None` when the parser does not take the text. Nothing is claimed of
/// the answer: which lexer reads the text, and how token text is printed,
/// depend on whether the code runs inside a procedural macro.
#[verifier::external_body]
fn parse_file_items(source: &str) -> Option<Vec<Option<StructText>>> {
    let file = syn::parse_file(source).ok()?;
    Some(file.items.iter().map(|item| match item {
        syn::Item::Struct(s) => Some(StructText {
            ident: s.ident.to_string(),
            text: s.to_token_stream().to_string(),
        }),
        _ => None,
    }).collect())
}

/// The structs among a file's items, in order.
pub open spec fn structs_of(items: Seq<Option<(Seq<char>, Seq<char>)>>) -> Seq<(Seq<char>, Seq<char>)>
    decreases items.len(),
{
    if items.len() == 0 {
        seq![]
    } else {
        let prev = structs_of(items.drop_last());
        match items.last() {
            Some(s) => prev.push(s),
            None => prev,
        }
    }
}

/// The structs among the top-level items of a file, in order.
pub fn root_structs(items: &Vec<Option<StructText>>) -> (r: Vec<StructText>)
    ensures
        r@.map_values(|s: StructText| struct_text_view(s)) == structs_of(items_view(items@)),
{
    let ghost all = items_view(items@);
    let mut structs: Vec<StructText> = Vec::new();
    let mut i: usize = 0;
    while i < items.len()
        invariant
            i <= items.len(),
            all == items_view(items@),
            structs@.map_values(|s: StructText| struct_text_view(s)) == structs_of(
                all.take(i as int),
            ),
        decreases items.len() - i,
    {
        assert(all.take(i + 1).drop_last() =~= all.take(i as int));
        let ghost before = structs@;
        match &items[i] {
            Some(s) => {
                let copy = StructText {
                    ident: String::from_str(s.ident.as_str()),
                    text: String::from_str(s.text.as_str()),
                };
                structs.push(copy);
                assert(structs@.map_values(|s: StructText| struct_text_view(s)) =~= before.map_values(
                    |s: StructText| struct_text_view(s),
                ).push(struct_text_view(*s)));
            },
            None => {},
        }
        i = i + 1;
    }
    assert(all.take(items.len() as int) =~= all);
    structs
}

/// A struct of this name and text stands among the structs of a file.
pub open spec fn stands_among_views(structs: Seq<(Seq<char>, Seq<char>)>, s: StructText) -> bool {
    exists|i: int| 0 <= i < structs.len() && #[trigger] structs[i] == struct_text_view(s)
}

/// Whether the struct stands among the structs of the top-level items of a
/// file.
pub fn struct_is_root_among(items: &Vec<Option<StructText>>, original_struture: &StructText) -> (r:
    bool)
    ensures
        r == stands_among_views(structs_of(items_view(items@)), *original_struture),
{
    let structs = root_structs(items);
    let found = struct_is_root(&structs, original_struture);
    proof {
        let views = structs@.map_values(|s: StructText| struct_text_view(s));
        if found {
            let i = choose|i: int|
                0 <= i < structs@.len() && (#[trigger] structs@[i]).ident@ == original_struture.ident@
                    && structs@[i].text@ == original_struture.text@;
            assert(views[i] == struct_text_view(*original_struture));
        } else {
            assert forall|i: int| 0 <= i < views.len() implies #[trigger] views[i]
                != struct_text_view(*original_struture) by {
                assert(!((structs@[i]).ident@ == original_struture.ident@ && structs@[i].text@
                    == original_struture.text@));
            }
        }
    }
    found
}

/// Whether the struct stands among the top-level structs of the root file
/// whose text is `source`; `None` when the parser does not take the text.
/// What the parser gives is not stated; what is done with it is
/// `struct_is_root_among`.
pub fn struct_is_root_in(source: &str, original_struture: &StructText) -> Option<bool> {
    let items = parse_file_items(source)?;
    Some(struct_is_root_among(&items, original_struture))
}

} // verus!
