use warcrwlock::errors::ErrorKind;
use warcrwlock::model::{ArgModel, TypeModel};
use warcrwlock::traits::{
    expansion, has_mutation, GeneratorMethod, TraitItemModel, TraitMethodModel, TraitModel,
    TypeInMethod,
};

fn s(t: &str) -> String {
    t.to_string()
}

fn path(ident: &str) -> TypeModel {
    TypeModel::Path {
        text: s(ident),
        prefix: s(""),
        ident: s(ident),
        arguments: s(""),
        segment: s(ident),
        args: vec![],
    }
}

fn reference(mutable: bool, elem: TypeModel) -> TypeModel {
    let head = if mutable { "& mut" } else { "&" };
    let text = format!("{} {}", head, elem.text());
    TypeModel::Reference { text, head: s(head), mutable, elem: Box::new(elem) }
}

fn trait_method(ident: &str, receiver_mut: bool, output: Option<TypeModel>) -> TraitItemModel {
    let recv = if receiver_mut { "& mut self" } else { "& self" };
    TraitItemModel::Method(TraitMethodModel {
        sig_text: format!("fn {} ({})", ident, recv),
        ident: s(ident),
        generics: s(""),
        inputs_text: s(recv),
        inputs: vec![ArgModel::Receiver { mutable: receiver_mut }],
        output,
    })
}

fn my_trait(items: Vec<TraitItemModel>) -> TraitModel {
    TraitModel { vis: s("pub"), ident: s("MyTrait"), items }
}

#[test]
fn trait_without_mutation_gets_plain_abstract_type() {
    let t = my_trait(vec![trait_method("method_with_ret", false, Some(path("i32")))]);
    assert!(!has_mutation(&t));
    let text = expansion(t).ok().unwrap();
    assert!(text.contains("pub struct MyTraitAbstract {"));
    assert!(text.contains("base: Arc<dyn MyTrait>,"));
    assert!(!text.contains("flag"));
}

#[test]
fn trait_with_mutation_gets_flagged_abstract_type() {
    let t = my_trait(vec![
        trait_method("method_with_ret", false, Some(path("i32"))),
        trait_method("method_with_ret_mut", true, Some(reference(true, path("i32")))),
    ]);
    assert!(has_mutation(&t));
    let text = expansion(t).ok().unwrap();
    assert!(text.contains("pub struct MyTraitAbstract {"));
    assert!(text.contains("pub fn method_with_ret(& self) -> i32 {\nlet _flag = self.flag.read().unwrap();\n"));
    assert!(text.contains(
        "pub fn method_with_ret_mut(& mut self) -> MyTraitMutGuard<i32> {\nlet flag_0 = self.flag.write().unwrap();\n\n let reply = unsafe{ (*self.base).method_with_ret_mut() };\nreturn MyTraitMutGuard::new(reply as *mut i32, flag_0);\n}\n"
    ));
    assert!(text.contains("pub struct MyTraitRefGuard<'a, T : ?Sized> {"));
}

#[test]
fn tuple_return_with_two_references() {
    let tuple = TypeModel::Tuple {
        text: s("(& i32 , & u8 , u16)"),
        elems: vec![reference(false, path("i32")), reference(false, path("u8")), path("u16")],
    };
    let t = my_trait(vec![trait_method("parts", true, Some(tuple))]);
    let text = expansion(t).ok().unwrap();
    assert!(text.contains("-> (MyTraitRefGuard<i32>,MyTraitRefGuard<u8>,u16) {"));
    assert!(text.contains("let flag_0 = self.flag.read().unwrap();\nlet flag_1 = self.flag.read().unwrap();"));
    assert!(text.contains(
        "return (MyTraitRefGuard::new(reply.0 as *const i32, flag_0),MyTraitRefGuard::new(reply.1 as *const u8, flag_1),reply.2);"
    ));
}

#[test]
fn tuple_return_with_two_mutable_references_then_more_is_refused() {
    let tuple = TypeModel::Tuple {
        text: s("(& mut i32 , & mut u8 , u16)"),
        elems: vec![reference(true, path("i32")), reference(true, path("u8")), path("u16")],
    };
    let t = my_trait(vec![trait_method("parts", true, Some(tuple))]);
    let e = expansion(t).err().unwrap();
    assert_eq!(e.kind, ErrorKind::MultipleMutableReferences);
    assert_eq!(
        e.message(),
        "Error(on fn parts (& mut self)):A return tuple cannot have more than one mutable reference."
    );
}

#[test]
fn tuple_return_with_mixed_references_then_more_is_refused() {
    let tuple = TypeModel::Tuple {
        text: s("(& mut i32 , & u8 , u16)"),
        elems: vec![reference(true, path("i32")), reference(false, path("u8")), path("u16")],
    };
    let t = my_trait(vec![trait_method("parts", true, Some(tuple))]);
    assert_eq!(expansion(t).err().unwrap().kind, ErrorKind::MixedReferences);
}

#[test]
fn two_mutable_references_alone_pass() {
    // the check runs before each element, so the last one is never counted
    let tuple = TypeModel::Tuple {
        text: s("(& mut i32 , & mut u8)"),
        elems: vec![reference(true, path("i32")), reference(true, path("u8"))],
    };
    let t = my_trait(vec![trait_method("parts", true, Some(tuple))]);
    assert!(expansion(t).is_ok());
}

#[test]
fn unsupported_return_type_is_refused() {
    let slice = TypeModel::Slice { text: s("[u8]"), elem: Box::new(path("u8")) };
    let t = my_trait(vec![trait_method("bytes", true, Some(slice))]);
    let e = expansion(t).err().unwrap();
    assert_eq!(e.kind, ErrorKind::UnsupportedTraitReturn);
    assert_eq!(e.message(), "Only three types of type can be accepted: path and reference.");
}

#[test]
fn type_in_method_of_reference() {
    let t = TypeInMethod::try_from(&reference(false, path("u8"))).ok().unwrap();
    assert!(t.is_only_ref());
    assert!(!t.is_ref_mut());
    assert_eq!(t.get_normalized_return("T"), "TRefGuard<u8>");
    assert_eq!(t.get_flag_line(3), Some(s("let flag_3 = self.flag.read().unwrap();")));
    assert_eq!(TypeInMethod::get_ident_flag(12), "flag_12");
    assert_eq!(
        t.get_variable_for_reply("reply", "T", "flag_0"),
        "TRefGuard::new(reply as *const u8, flag_0)"
    );
    let p = TypeInMethod::try_from(&path("u8")).ok().unwrap();
    assert_eq!(p.get_flag_line(0), None);
    assert_eq!(p.get_variable_for_reply("reply", "T", "flag_0"), "reply");
}

#[test]
fn generator_argument_list() {
    let item = TraitItemModel::Method(TraitMethodModel {
        sig_text: s("fn f (& self , a : u8 , b : u8)"),
        ident: s("f"),
        generics: s(""),
        inputs_text: s("& self , a : u8 , b : u8"),
        inputs: vec![
            ArgModel::Receiver { mutable: false },
            ArgModel::Typed { name: Some(s("a")), ty: path("u8") },
            ArgModel::Typed { name: Some(s("b")), ty: path("u8") },
        ],
        output: None,
    });
    let g = GeneratorMethod::possible_new("T", item).ok().unwrap().unwrap();
    assert_eq!(g.transform_fn_args(), "(a , b)");
    assert!(!GeneratorMethod::is_self_mutable(&g.trait_item_fn));
    assert_eq!(g.return_type_normalizer().ok().unwrap(), "()");
    assert_eq!(g.get_reply_line(), "return reply;");
}
