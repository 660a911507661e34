use warcrwlock::extend::attributes::{
    get_name_attribute, get_type_name as single_type_name, has_warcrwlock_attribute, AttrModel,
    ModItem, ModModel,
};
use warcrwlock::extend::impls::{
    convert_punctuated_to_string, extend_impl, find_self, rebuild_implementations, reference_for,
    ImplBlockModel,
};
use warcrwlock::extend::methods::{
    change_block_method, filter_inputs, remake_block, remake_block_extend,
    remove_pub_from_impl_item, transform_method_return_type,
};
use warcrwlock::extend::module::{extend_mod, get_type_name, ModPart};
use warcrwlock::extend::structs::{
    extend_struct, extract_fields, get_wrapper_implementations, FileItem,
};
use warcrwlock::extend::syntax::{
    str_to_stmt, ExtendErrorKind, ImplEntry, MethodModel, RebuiltItem,
};
use warcrwlock::model::{ArgModel, SignatureModel, TypeModel};
use warcrwlock::structure::{FieldModel, FieldsModel, StructModel};
use warcrwlock::text::{contains_text, replace_text};

fn s(t: &str) -> String {
    t.to_string()
}

fn path(ident: &str) -> TypeModel {
    TypeModel::Path {
        text: s(ident),
        prefix: s(""),
        ident: s(ident),
        arguments: s(""),
        segment: s(ident),
        args: vec![],
    }
}

fn reference(mutable: bool, elem: TypeModel) -> TypeModel {
    let head = if mutable { "& mut" } else { "&" };
    let text = format!("{} {}", head, elem.text());
    TypeModel::Reference { text, head: s(head), mutable, elem: Box::new(elem) }
}

fn typed(name: &str, ty: TypeModel) -> ArgModel {
    ArgModel::Typed { name: Some(s(name)), ty }
}

fn method(
    vis: &str,
    ident: &str,
    inputs: Vec<ArgModel>,
    output: Option<TypeModel>,
    stmts: &[&str],
) -> MethodModel {
    MethodModel {
        sig: SignatureModel { vis: s(vis), ident: s(ident), inputs, output, attrs: vec![] },
        stmts: stmts.iter().map(|x| s(x)).collect(),
    }
}

fn receiver(mutable: bool) -> ArgModel {
    ArgModel::Receiver { mutable }
}

fn counter_impl() -> ImplBlockModel {
    ImplBlockModel {
        self_ty: path("Counter"),
        items: vec![
            ImplEntry::Fn(method(
                "pub",
                "new",
                vec![typed("value", path("usize"))],
                Some(path("Self")),
                &["Counter { value }"],
            )),
            ImplEntry::Fn(method("pub", "get", vec![receiver(false)], Some(path("usize")), &["self . value"])),
            ImplEntry::Fn(method("", "private", vec![receiver(false)], None, &[])),
            ImplEntry::Fn(method(
                "pub",
                "merge",
                vec![receiver(true), typed("other", path("Counter"))],
                None,
                &[],
            )),
            ImplEntry::Fn(method(
                "pub",
                "value_ref",
                vec![receiver(false)],
                Some(reference(false, path("usize"))),
                &["& self . value"],
            )),
            ImplEntry::Other,
        ],
    }
}

fn same(item: &RebuiltItem) -> Option<usize> {
    match item {
        RebuiltItem::Same(i) => Some(*i),
        _ => None,
    }
}

fn rewritten(item: &RebuiltItem) -> Option<(usize, bool, Vec<String>)> {
    match item {
        RebuiltItem::Rewritten { source, self_output, stmts } => {
            Some((*source, *self_output, stmts.clone()))
        }
        _ => None,
    }
}

fn counter_struct(attrs: Vec<String>) -> StructModel {
    StructModel {
        attrs,
        vis: s("pub"),
        ident: s("Counter"),
        generics: s(""),
        params: vec![],
        params_text: s(""),
        where_clause: s(""),
        fields: FieldsModel::Named(vec![
            FieldModel { vis: s("pub"), ident: s("value"), ty: s("usize"), attrs: vec![] },
            FieldModel { vis: s("pub(crate)"), ident: s("step"), ty: s("u8"), attrs: vec![] },
        ]),
    }
}

#[test]
fn text_replace_and_contains() {
    assert_eq!(replace_text("A { a: A }", "A", "Self"), "Self { a: Self }");
    assert_eq!(replace_text("aaa", "aa", "b"), "ba");
    assert_eq!(replace_text("ab", "", "-"), "-a-b-");
    assert!(contains_text("let x = 1;", ";"));
    assert!(!contains_text("x", ";"));
}

#[test]
fn statements_are_checked_by_the_parser() {
    assert_eq!(str_to_stmt("let x = 1;").ok(), Some(s("let x = 1;")));
    let e = str_to_stmt("let = ;").err().unwrap();
    assert_eq!(e.kind, ExtendErrorKind::StatementConstruction);
    assert_eq!(e.message(), "Failure in the construction of statement:\nlet = ;");
}

#[test]
fn call_arguments() {
    let args = vec![receiver(true), typed("a", path("u8")), typed("b", path("u8"))];
    assert_eq!(convert_punctuated_to_string(&args), "a,b");
    assert_eq!(convert_punctuated_to_string(&vec![]), "");
}

#[test]
fn receivers_choose_the_lock() {
    let m = method("pub", "f", vec![receiver(true)], None, &[]);
    assert_eq!(find_self(&m.sig), Some(true));
    assert_eq!(reference_for(&m.sig, "CounterBase"), "self.base.write().unwrap().");
    let r = method("pub", "f", vec![receiver(false)], None, &[]);
    assert_eq!(reference_for(&r.sig, "CounterBase"), "self.base.read().unwrap().");
    let a = method("pub", "f", vec![], None, &[]);
    assert_eq!(find_self(&a.sig), None);
    assert_eq!(reference_for(&a.sig, "CounterBase"), "CounterBase::");
}

#[test]
fn impl_split_between_base_and_wrapper() {
    let split = extend_impl(&counter_impl()).ok().unwrap();
    assert_eq!(split.base_self_ty, "CounterBase");
    assert_eq!(split.base_items.len(), 5);
    assert_eq!(rewritten(&split.base_items[0]), Some((0, false, vec![s("return Self { value };")])));
    assert_eq!(same(&split.base_items[1]), Some(1));
    assert_eq!(same(&split.base_items[2]), Some(2));
    assert_eq!(same(&split.base_items[3]), Some(4));
    assert_eq!(same(&split.base_items[4]), Some(5));
    assert_eq!(split.wrapper_items.len(), 3);
    assert_eq!(
        rewritten(&split.wrapper_items[0]),
        Some((0, false, vec![s("return Self{base: Arc::new(RwLock::new(CounterBase::new(value)))};")]))
    );
    assert_eq!(
        rewritten(&split.wrapper_items[1]),
        Some((1, false, vec![s("return self.base.read().unwrap().get();")]))
    );
    assert_eq!(same(&split.wrapper_items[2]), Some(3));
}

#[test]
fn builder_naming_the_type_returns_self() {
    let block = ImplBlockModel {
        self_ty: path("Counter"),
        items: vec![ImplEntry::Fn(method("pub", "zero", vec![], Some(path("Counter")), &["Counter :: new (0)"]))],
    };
    let mut base = vec![];
    let mut wrapper = vec![];
    assert!(rebuild_implementations(&mut base, &mut wrapper, &block.items, "Counter", "CounterBase").is_ok());
    assert_eq!(rewritten(&base[0]), Some((0, true, vec![s("return Self :: new (0);")])));
    assert_eq!(
        rewritten(&wrapper[0]),
        Some((0, false, vec![s("return Self{base: Arc::new(RwLock::new(CounterBase::zero()))};")]))
    );
}

#[test]
fn incorrect_statement_is_refused() {
    let block = ImplBlockModel {
        self_ty: path("Counter"),
        items: vec![ImplEntry::Fn(method(
            "pub",
            "new",
            vec![],
            Some(path("Self")),
            &["struct Counter ;", "Counter { value : 0 }"],
        ))],
    };
    let e = extend_impl(&block).err().unwrap();
    assert_eq!(e.kind, ExtendErrorKind::IncorrectStatement);
    assert_eq!(e.text, "struct Self ;");
    assert_eq!(e.message(), "The statement(struct Self ;) is incorrect in \"new\" method!");
}

#[test]
fn base_type_that_does_not_parse_is_refused() {
    let mut block = counter_impl();
    block.self_ty = TypeModel::Other { text: s("[u8]") };
    let e = extend_impl(&block).err().unwrap();
    assert_eq!(e.kind, ExtendErrorKind::TypeConstruction);
    assert_eq!(e.text, "[u8]Base");
}

#[test]
fn visibility_and_return_rewrites() {
    let mut item = ImplEntry::Fn(method("pub", "f", vec![], Some(path("Counter")), &[]));
    remove_pub_from_impl_item(&mut item);
    transform_method_return_type(&mut item, "Counter");
    match &item {
        ImplEntry::Fn(m) => {
            assert_eq!(m.sig.vis, "");
            assert_eq!(m.sig.output.as_ref().unwrap().text(), "Self");
        }
        ImplEntry::Other => panic!("a method stays a method"),
    }
    let mut restricted = ImplEntry::Fn(method("pub(crate)", "f", vec![], Some(path("usize")), &[]));
    remove_pub_from_impl_item(&mut restricted);
    transform_method_return_type(&mut restricted, "Counter");
    match &restricted {
        ImplEntry::Fn(m) => {
            assert_eq!(m.sig.vis, "pub(crate)");
            assert_eq!(m.sig.output.as_ref().unwrap().text(), "usize");
        }
        ImplEntry::Other => panic!("a method stays a method"),
    }
}

#[test]
fn remade_blocks() {
    let set = method("pub", "set", vec![receiver(true), typed("v", path("usize"))], None, &[]);
    assert_eq!(remake_block(&set, "CounterBase").ok().unwrap(), Some(vec![s("self.base.write().unwrap().set(v);")]));
    let get = method("pub", "get", vec![receiver(false)], Some(path("usize")), &[]);
    assert_eq!(remake_block(&get, "CounterBase").ok().unwrap(), Some(vec![s("return self.base.read().unwrap().get();")]));
    let new = method("pub", "new", vec![typed("v", path("usize"))], Some(path("Self")), &[]);
    assert_eq!(
        remake_block(&new, "CounterBase").ok().unwrap(),
        Some(vec![s("return Self{base: Arc::new(RwLock::new(CounterBase::new(v)))};")])
    );
    let chain = method("pub", "inc", vec![receiver(true)], Some(reference(true, path("Self"))), &[]);
    assert_eq!(
        remake_block(&chain, "CounterBase").ok().unwrap(),
        Some(vec![s("self.base.write().unwrap().inc();"), s("return self;")])
    );
    let other_ref = method("pub", "value_ref", vec![receiver(false)], Some(reference(false, path("usize"))), &[]);
    assert_eq!(remake_block(&other_ref, "CounterBase").ok().unwrap(), None);
    assert_eq!(change_block_method(&ImplEntry::Other, "CounterBase").ok().unwrap(), None);
    assert_eq!(remake_block_extend(&None, "x.", "f", "").ok().unwrap(), None);
}

#[test]
fn typed_inputs_only() {
    let mut inputs = vec![receiver(true), typed("a", path("u8")), ArgModel::Typed { name: None, ty: path("u8") }];
    filter_inputs(&mut inputs);
    assert_eq!(inputs.len(), 2);
    assert!(inputs.iter().all(|a| matches!(a, ArgModel::Typed { .. })));
}

#[test]
fn attribute_names_and_type_names() {
    let attr = AttrModel { text: s("# [warcrwlock]"), name: Some(s("warcrwlock")) };
    assert_eq!(get_name_attribute(&attr), Some(s("warcrwlock")));
    let item = ModItem::Struct { attrs: vec![attr], item: counter_struct(vec![]) };
    assert!(has_warcrwlock_attribute(&item));
    let plain = ModItem::Struct {
        attrs: vec![AttrModel { text: s("# [derive (Debug)]"), name: Some(s("derive")) }],
        item: counter_struct(vec![]),
    };
    assert!(!has_warcrwlock_attribute(&plain));
    assert!(!has_warcrwlock_attribute(&ModItem::Other { text: s("const X : u8 = 1 ;") }));
    assert_eq!(single_type_name(&path("Counter")), Some(s("Counter")));
    let generic = TypeModel::Path {
        text: s("Vec < u8 >"),
        prefix: s(""),
        ident: s("Vec"),
        arguments: s("< u8 >"),
        segment: s("Vec < u8 >"),
        args: vec![path("u8")],
    };
    assert_eq!(single_type_name(&generic), None);
    assert_eq!(get_type_name(&generic), "Vec < u8 >");
}

#[test]
fn fields_of_a_struct() {
    let fields = extract_fields(&counter_struct(vec![]));
    assert_eq!(fields.len(), 2);
    assert_eq!(fields[1].vis, "pub(crate)");
    assert_eq!(fields[1].ident, "step");
}

#[test]
fn fields_of_a_tuple_struct() {
    let mut st = counter_struct(vec![]);
    st.fields = FieldsModel::Unnamed(
        vec![
            FieldModel { vis: s("pub"), ident: s(""), ty: s("u32"), attrs: vec![] },
            FieldModel { vis: s(""), ident: s(""), ty: s("String"), attrs: vec![] },
        ],
        s("(pub u32, String)"),
    );
    let fields = extract_fields(&st);
    assert_eq!(fields.len(), 2);
    assert_eq!(fields[0].vis, "pub");
    assert_eq!(fields[0].ident, "");
    assert_eq!(fields[1].ty, "String");
    st.fields = FieldsModel::Other(s(""));
    assert!(extract_fields(&st).is_empty());
}

#[test]
fn struct_becomes_base_and_wrapper() {
    let text = extend_struct(&counter_struct(vec![s("# [derive (Debug)]"), s("# [warcrwlock]")])).ok().unwrap();
    let expected = [
        "use std::sync::{Arc, RwLock, RwLockReadGuard, RwLockWriteGuard, LockResult};\n",
        "# [derive (Debug)] pub struct CounterBase { value: usize, pub(crate) step: u8 }\n",
        " # [derive (Debug)] pub struct Counter {\n    base: std::sync::Arc<std::sync::RwLock<CounterBase>>,\n}\n",
        "impl Counter {\n    pub fn write(&mut self) -> LockResult<RwLockWriteGuard<'_, CounterBase>> {\n        self.base.write()\n    }\n    pub fn read(&self) -> LockResult<RwLockReadGuard<'_, CounterBase>> {\n        self.base.read()\n    }\n}\n",
        "impl Clone for Counter {\n    fn clone(&self) -> Self {\n        Self { base: self.base.clone() }\n    }\n}\n",
        "impl PartialEq for Counter {\n    fn eq(&self, other: &Self) -> bool {\n        let ptr_usize_a = (self.base.as_ref() as *const RwLock<CounterBase>) as usize;\n        let ptr_usize_b = (other.base.as_ref() as *const RwLock<CounterBase>) as usize;\n        ptr_usize_a == ptr_usize_b\n    }\n}\n",
        "unsafe impl Send for Counter {}\nunsafe impl Sync for Counter {}\n",
    ]
    .concat();
    assert_eq!(text, expected);
}

#[test]
fn two_derive_attributes_are_refused() {
    let e = extend_struct(&counter_struct(vec![s("# [derive (Debug)]"), s("# [derive (Clone)]")])).err().unwrap();
    assert_eq!(e.kind, ExtendErrorKind::FileConstruction);
    assert_eq!(e.text, "# [derive (Debug)],# [derive (Clone)] pub struct CounterBase { value: usize, pub(crate) step: u8 }");
}

#[test]
fn wrapper_side_of_file_impls() {
    let items = vec![FileItem::Other, FileItem::Impl(counter_impl())];
    let impls = get_wrapper_implementations(&items, "Counter", "CounterBase").ok().unwrap();
    assert_eq!(impls.len(), 1);
    assert_eq!(impls[0].source, 1);
    assert_eq!(impls[0].self_ty, "CounterBase");
    assert_eq!(impls[0].items.len(), 3);
    assert!(get_wrapper_implementations(&vec![FileItem::Other], "Counter", "CounterBase").ok().unwrap().is_empty());
}

#[test]
fn module_items_expand_one_by_one() {
    let module = ModModel {
        vis: s("pub"),
        ident: s("m"),
        content: Some(vec![
            ModItem::Struct { attrs: vec![], item: counter_struct(vec![]) },
            ModItem::Impl { attrs: vec![], block: counter_impl() },
            ModItem::Other { text: s("const X : u8 = 1 ;") },
            ModItem::Struct {
                attrs: vec![AttrModel { text: s("# [warcrwlock]"), name: Some(s("warcrwlock")) }],
                item: counter_struct(vec![]),
            },
            ModItem::Mod {
                attrs: vec![],
                module: Box::new(ModModel { vis: s(""), ident: s("inner"), content: Some(vec![]) }),
            },
        ]),
    };
    let expansion = extend_mod(&module).ok().unwrap();
    assert_eq!(expansion.head, "pub mod m");
    assert_eq!(expansion.parts.len(), 4);
    assert!(matches!(expansion.parts[0], ModPart::Struct { source: 0, .. }));
    assert!(matches!(expansion.parts[1], ModPart::Impl { source: 1, .. }));
    assert!(matches!(expansion.parts[2], ModPart::Item { source: 2 }));
    match &expansion.parts[3] {
        ModPart::Mod { source, expansion } => {
            assert_eq!(*source, 4);
            assert_eq!(expansion.head, " mod inner");
            assert!(expansion.parts.is_empty());
        }
        _ => panic!("the inner module is expanded"),
    }
}

fn my_struct_model() -> StructModel {
    StructModel {
        attrs: vec![],
        vis: s("pub"),
        ident: s("MyStruct"),
        generics: s(""),
        params: vec![],
        params_text: s(""),
        where_clause: s(""),
        fields: FieldsModel::Named(vec![FieldModel { vis: s(""), ident: s("value"), ty: s("usize"), attrs: vec![] }]),
    }
}

fn my_struct_impl() -> ImplBlockModel {
    ImplBlockModel {
        self_ty: path("MyStruct"),
        items: vec![
            ImplEntry::Fn(method("pub", "reset", vec![receiver(true)], None, &["self . value = 0 ;"])),
            ImplEntry::Fn(method("pub", "new", vec![], Some(path("Self")), &["Self { value : 0 }"])),
            ImplEntry::Fn(method(
                "pub",
                "set_value",
                vec![receiver(true), typed("value", path("usize"))],
                None,
                &["self . value = value ;"],
            )),
            ImplEntry::Fn(method("pub", "get_value", vec![receiver(false)], Some(path("usize")), &["self . value"])),
            ImplEntry::Fn(method(
                "pub",
                "value_mut",
                vec![receiver(true)],
                Some(reference(true, path("usize"))),
                &["& mut self . value"],
            )),
            ImplEntry::Fn(method(
                "pub",
                "value_ref",
                vec![receiver(false)],
                Some(reference(false, path("usize"))),
                &["& self . value"],
            )),
        ],
    }
}

fn check_my_struct_split(split: &warcrwlock::extend::impls::ImplSplit) {
    assert_eq!(split.base_self_ty, "MyStructBase");
    let wrapper: Vec<(usize, bool, Vec<String>)> = split.wrapper_items.iter().filter_map(rewritten).collect();
    assert_eq!(
        wrapper,
        vec![
            (0, false, vec![s(" self.base.write().unwrap().reset();")]),
            (1, false, vec![s("return Self{base: Arc::new(RwLock::new(MyStructBase::new()))};")]),
            (2, false, vec![s(" self.base.write().unwrap().set_value(value);")]),
            (3, false, vec![s("return self.base.read().unwrap().get_value();")]),
        ]
    );
    assert_eq!(rewritten(&split.base_items[1]), Some((1, false, vec![s("return Self { value : 0 };")])));
    let base_same: Vec<usize> = split.base_items.iter().filter_map(same).collect();
    assert_eq!(base_same, vec![0, 2, 3, 4, 5]);
}

#[test]
fn test_macro_struture_and_impl() {
    let text = extend_struct(&my_struct_model()).ok().unwrap();
    assert!(text.contains("pub struct MyStructBase { value: usize }"));
    assert!(text.contains("pub fn write(&mut self) -> LockResult<RwLockWriteGuard<'_, MyStructBase>>"));
    assert!(text.contains("pub fn read(&self) -> LockResult<RwLockReadGuard<'_, MyStructBase>>"));
    assert!(text.contains("Self { base: self.base.clone() }"));
    let split = extend_impl(&my_struct_impl()).ok().unwrap();
    check_my_struct_split(&split);
}

#[test]
fn test_macro_in_mod() {
    let module = ModModel {
        vis: s(""),
        ident: s("my_module"),
        content: Some(vec![
            ModItem::Other { text: s("pub const name : & str = \"my_module\" ;") },
            ModItem::Struct { attrs: vec![], item: my_struct_model() },
            ModItem::Impl { attrs: vec![], block: my_struct_impl() },
        ]),
    };
    let expansion = extend_mod(&module).ok().unwrap();
    assert_eq!(expansion.head, " mod my_module");
    assert_eq!(expansion.parts.len(), 3);
    assert!(matches!(expansion.parts[0], ModPart::Item { source: 0 }));
    match &expansion.parts[1] {
        ModPart::Struct { source, text } => {
            assert_eq!(*source, 1);
            assert_eq!(text, &extend_struct(&my_struct_model()).ok().unwrap());
        }
        _ => panic!("the struct is expanded"),
    }
    match &expansion.parts[2] {
        ModPart::Impl { source, split } => {
            assert_eq!(*source, 2);
            check_my_struct_split(split);
        }
        _ => panic!("the impl block is expanded"),
    }
}

#[test]
fn documented_example_forwards_through_the_lock() {
    let block = ImplBlockModel {
        self_ty: path("MyStruct"),
        items: vec![
            ImplEntry::Fn(method("pub", "new", vec![], Some(path("Self")), &["Self { value : 0 , }"])),
            ImplEntry::Fn(method("pub", "increment", vec![receiver(true)], None, &["self . value += 1 ;"])),
            ImplEntry::Fn(method("pub", "get_value", vec![receiver(false)], Some(path("usize")), &["self . value"])),
        ],
    };
    let split = extend_impl(&block).ok().unwrap();
    let wrapper: Vec<(usize, bool, Vec<String>)> = split.wrapper_items.iter().filter_map(rewritten).collect();
    assert_eq!(
        wrapper,
        vec![
            (0, false, vec![s("return Self{base: Arc::new(RwLock::new(MyStructBase::new()))};")]),
            (1, false, vec![s(" self.base.write().unwrap().increment();")]),
            (2, false, vec![s("return self.base.read().unwrap().get_value();")]),
        ]
    );
    let text = extend_struct(&my_struct_model()).ok().unwrap();
    assert!(text.contains(" pub struct MyStruct {\n    base: std::sync::Arc<std::sync::RwLock<MyStructBase>>,\n}\n"));
}

#[test]
fn empty_tuple_struct_becomes_an_empty_base() {
    let mut st = counter_struct(vec![]);
    st.fields = FieldsModel::Unnamed(vec![], s("()"));
    let text = extend_struct(&st).ok().unwrap();
    assert!(text.contains(" pub struct CounterBase {  }\n"));
}
