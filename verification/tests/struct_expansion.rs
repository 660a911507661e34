use warcrwlock::root_file::{root_structs, struct_is_root_among, struct_is_root_in as root_struct_is};
use warcrwlock::errors::ErrorKind;
use warcrwlock::structure::{
    core_normalization, expantion, filter_generics, generation_access_fields_for_wrapper,
    generation_help_strutures_and_impls,
    struct_is_root, wrapper_normalization, FieldModel, FieldsModel, GenericParamModel, StructModel,
    StructText,
};

fn s(t: &str) -> String {
    t.to_string()
}

fn my_struct() -> StructModel {
    StructModel {
        attrs: vec![s("#[derive(Debug)]")],
        vis: s("pub"),
        ident: s("MyStruct"),
        generics: s(""),
        params: vec![],
        params_text: s(""),
        where_clause: s(""),
        fields: FieldsModel::Named(vec![
            FieldModel { vis: s("pub"), ident: s("value"), ty: s("usize"), attrs: vec![] },
            FieldModel { vis: s(""), ident: s("value_2"), ty: s("usize"), attrs: vec![] },
        ]),
    }
}

#[test]
fn core_struct_text() {
    let core = core_normalization(&my_struct()).ok().unwrap();
    assert_eq!(
        core,
        "#[derive(Debug)]\n#[doc(hidden)]\npub struct MyStruct  {\n    pub(super) value: usize,\n    pub(super) value_2: usize,\n}\n"
    );
}

#[test]
fn wrapper_struct_text() {
    assert_eq!(
        wrapper_normalization(&my_struct()),
        "#[repr(C)]\npub struct MyStruct  {\n    _core: Arc<RwLock<MyStructCore>>\n}\n"
    );
}

#[test]
fn accessors_keep_field_visibility() {
    let fields = match my_struct().fields {
        FieldsModel::Named(f) => f,
        _ => unreachable!(),
    };
    let text = generation_access_fields_for_wrapper("MyStruct", &fields, "");
    assert!(text.starts_with("impl MyStruct{\npub fn value_mut(&mut self) -> MyStructMutLock<usize>{"));
    assert!(text.contains(" fn value_2(&self) -> MyStructRefLock<usize>{"));
    assert!(text.contains("fn builder(value: usize, value_2: usize) -> Self{\n    return MyStructCore {value, value_2}.into();\n}\n"));
}

#[test]
fn generic_struct_names() {
    let mut m = my_struct();
    m.generics = s("<T : A>");
    m.params = vec![GenericParamModel { name: s("T"), is_lifetime: false }];
    m.params_text = s("T : A");
    assert_eq!(filter_generics(&m.params), "<T>");
    assert!(wrapper_normalization(&m).contains("_core: Arc<RwLock<MyStructCore<T>>>"));
    let text = expantion(&m, false).ok().unwrap();
    assert!(text.starts_with("pub type MyStructCore<T : A> = _core::MyStruct<T>;\n"));
    assert!(text.contains("impl<'a,T : A> From<MyStructCore<T : A>> for MyStruct<T : A>{"));
}

#[test]
fn expansion_uses_crate_or_super() {
    let text = expantion(&my_struct(), true).ok().unwrap();
    assert!(text.contains("mod _core{\nuse crate::*;\n"));
    let text = expantion(&my_struct(), false).ok().unwrap();
    assert!(text.contains("mod _core{\nuse super::*;\n"));
    assert!(text.contains("pub struct MyStructRefLock<'a,T,>{"));
}

#[test]
fn lifetimes_are_refused_before_unnamed_fields() {
    let mut m = my_struct();
    m.params = vec![GenericParamModel { name: s("'a"), is_lifetime: true }];
    m.fields = FieldsModel::Unnamed(
        vec![FieldModel { vis: s(""), ident: s(""), ty: s("usize"), attrs: vec![] }],
        s("(usize)"),
    );
    let e = expantion(&m, false).err().unwrap();
    assert_eq!(e.kind, ErrorKind::LifetimesNotSupported);
    assert_eq!(e.message(), "The warcrwlock macro does not support \"lifetimes\"!");
    m.params = vec![];
    let e = expantion(&m, false).err().unwrap();
    assert_eq!(e.kind, ErrorKind::UnnamedFields);
    assert_eq!(e.message(), "Structure fields must be named.");
}

#[test]
fn root_struct_is_found_by_name_and_text() {
    let roots = vec![
        StructText { ident: s("A"), text: s("struct A { x : u8 }") },
        StructText { ident: s("B"), text: s("struct B { }") },
    ];
    assert!(struct_is_root(&roots, &StructText { ident: s("B"), text: s("struct B { }") }));
    assert!(!struct_is_root(&roots, &StructText { ident: s("A"), text: s("struct A { }") }));
}

#[test]
fn public_read_only_field_keeps_its_write_accessor_private() {
    let fields = vec![
        FieldModel { vis: s("pub"), ident: s("value"), ty: s("usize"), attrs: vec![] },
        FieldModel {
            vis: s("pub"),
            ident: s("value_2"),
            ty: s("usize"),
            attrs: vec![s("#[public_read_only]")],
        },
        FieldModel { vis: s(""), ident: s("value_3"), ty: s("usize"), attrs: vec![] },
    ];
    let text = generation_access_fields_for_wrapper("MyStruct", &fields, "");
    assert!(text.contains("pub fn value_mut(&mut self) -> MyStructMutLock<usize>{"));
    assert!(text.contains("pub fn value(&self) -> MyStructRefLock<usize>{"));
    assert!(text.contains("\n fn value_2_mut(&mut self) -> MyStructMutLock<usize>{"));
    assert!(text.contains("pub fn value_2(&self) -> MyStructRefLock<usize>{"));
    assert!(text.contains("\n fn value_3_mut(&mut self) -> MyStructMutLock<usize>{"));
    assert!(text.contains("\n fn value_3(&self) -> MyStructRefLock<usize>{"));
}

#[test]
fn root_file_structs() {
    let source = "pub struct A { x : u8 }\nfn f() {}\nstruct B;";
    let a = StructText { ident: s("A"), text: s("pub struct A { x : u8 }") };
    assert_eq!(root_struct_is(source, &a), Some(true));
    let other = StructText { ident: s("A"), text: s("pub struct A { y : u8 }") };
    assert_eq!(root_struct_is(source, &other), Some(false));
    assert_eq!(root_struct_is("fn (", &a), None);
    let items = vec![
        Some(StructText { ident: s("A"), text: s("pub struct A { x : u8 }") }),
        None,
        Some(StructText { ident: s("B"), text: s("struct B ;") }),
    ];
    let structs = root_structs(&items);
    assert_eq!(structs.len(), 2);
    assert_eq!(structs[1].ident, "B");
    assert_eq!(structs[1].text, "struct B ;");
    assert!(struct_is_root_among(&items, &a));
    assert!(!struct_is_root_among(&items, &other));
}

#[test]
fn wrapper_gives_back_its_core_by_moving_it_out() {
    let text = generation_help_strutures_and_impls(&my_struct());
    assert!(text.contains("pub fn extract(self) -> MyStructCore {\n        self.into()\n    }"));
    assert!(text.contains(
        "Arc::try_unwrap(wrapper._core)\n            .ok()\n            .expect(\"the core is still shared by another handle\")\n            .into_inner()\n            .unwrap()"
    ));
    assert!(text.contains("multiples.into_iter().map(|w| w.into()).collect()"));
    assert!(!text.contains("ptr::read"));
}
