use warcrwlock::wrapper_methods::{arg_method_normalization as wrapper_arg, return_method_normalization as wrapper_return};
use warcrwlock::errors::ErrorKind;
use warcrwlock::implementation::{expantion as expand_impl, ImplItemModel, ImplModel};
use warcrwlock::model::{ArgModel, SignatureModel, TypeModel};
use warcrwlock::structure::{expantion as expand_struct, FieldModel, FieldsModel, StructModel};
use warcrwlock::wrapper_methods::method_normalization;

fn s(t: &str) -> String {
    t.to_string()
}

fn path(ident: &str) -> TypeModel {
    TypeModel::Path {
        text: s(ident),
        prefix: s(""),
        ident: s(ident),
        arguments: s(""),
        segment: s(ident),
        args: vec![],
    }
}

fn reference(mutable: bool, elem: TypeModel) -> TypeModel {
    let head = if mutable { "& mut" } else { "&" };
    let text = format!("{} {}", head, elem.text());
    TypeModel::Reference { text, head: s(head), mutable, elem: Box::new(elem) }
}

fn typed(name: &str, ty: TypeModel) -> ArgModel {
    ArgModel::Typed { name: Some(s(name)), ty }
}

fn method(vis: &str, ident: &str, inputs: Vec<ArgModel>, output: Option<TypeModel>) -> SignatureModel {
    SignatureModel { vis: s(vis), ident: s(ident), inputs, output, attrs: vec![] }
}

fn struct_a() -> StructModel {
    StructModel {
        attrs: vec![],
        vis: s("pub"),
        ident: s("A"),
        generics: s(""),
        params: vec![],
        params_text: s(""),
        where_clause: s(""),
        fields: FieldsModel::Named(vec![FieldModel { vis: s(""), ident: s("value"), ty: s("usize"), attrs: vec![] }]),
    }
}

fn impl_a(items: Vec<SignatureModel>) -> ImplModel {
    ImplModel {
        self_ty: path("A"),
        generics: s(""),
        items: items.into_iter().map(ImplItemModel::Method).collect(),
    }
}

fn wrapper_body(m: &SignatureModel) -> Vec<String> {
    method_normalization(m, "A", "").ok().expect("the method is supported").stmts
}

#[test]
fn impl_i_mut_self_o_default() {
    assert!(expand_struct(&struct_a(), false).is_ok());
    let reset = method("pub", "reset", vec![ArgModel::Receiver { mutable: true }], None);
    assert!(expand_impl(&impl_a(vec![method("pub", "reset", vec![ArgModel::Receiver { mutable: true }], None)]), "A").is_ok());
    assert_eq!(
        wrapper_body(&reset),
        vec![s("let mut guard = self._core.write().unwrap();"), s("guard.reset();")]
    );
}

#[test]
fn impl_mut_i_self_imput_o_default() {
    assert!(expand_struct(&struct_a(), false).is_ok());
    let set = || method(
        "pub",
        "set",
        vec![ArgModel::Receiver { mutable: true }, typed("value", path("usize"))],
        None,
    );
    assert!(expand_impl(&impl_a(vec![set()]), "A").is_ok());
    assert_eq!(
        wrapper_body(&set()),
        vec![s("let mut guard = self._core.write().unwrap();"), s("guard.set(value);")]
    );
}

#[test]
fn impl_i_ref_self_output() {
    assert!(expand_struct(&struct_a(), false).is_ok());
    let get = || method("pub", "get", vec![ArgModel::Receiver { mutable: false }], Some(path("usize")));
    assert!(expand_impl(&impl_a(vec![get()]), "A").is_ok());
    assert_eq!(
        wrapper_body(&get()),
        vec![
            s("let guard = self._core.read().unwrap();"),
            s("let reply = guard.get();"),
            s("return reply;"),
        ]
    );
}

#[test]
fn impl_static_o_self() {
    assert!(expand_struct(&struct_a(), false).is_ok());
    let new = || method("pub", "new", vec![], Some(path("Self")));
    assert!(expand_impl(&impl_a(vec![new()]), "A").is_ok());
    assert_eq!(
        wrapper_body(&new()),
        vec![s("let reply = ACore::new().into();"), s("return reply;")]
    );
}

#[test]
fn impl_static_input_o_self() {
    assert!(expand_struct(&struct_a(), false).is_ok());
    let items = || vec![
        method("pub", "new", vec![typed("value", path("usize"))], Some(path("Self"))),
        method("pub", "value", vec![ArgModel::Receiver { mutable: false }], Some(path("usize"))),
        method(
            "pub",
            "static_method",
            vec![typed("current", path("A")), typed("other", path("A"))],
            Some(path("A")),
        ),
        method("pub", "static_method_with_return", vec![], Some(path("A"))),
    ];
    let x = expand_impl(&impl_a(items()), "A").ok().expect("the block is supported");
    let statics = x.wrapper_methods[2].as_ref().unwrap();
    assert_eq!(
        statics.stmts,
        vec![
            s("let current = current.into();"),
            s("let other = other.into();"),
            s("let reply = ACore::static_method(current,other).into();"),
            s("return reply;"),
        ]
    );
    let core = x.core_methods[2].as_ref().unwrap();
    assert_eq!(core.vis, "pub(super)");
    assert_eq!(core.output, Some(s("Self")));
    assert_eq!(x.core_type_name, "ACore");
    assert_eq!(x.imports, vec![s("use super::*;"), s("use super::ACore as A;")]);
}

#[test]
fn wrapper_reference_return_becomes_guard() {
    let m = method(
        "pub",
        "ref_value",
        vec![ArgModel::Receiver { mutable: false }],
        Some(reference(false, path("usize"))),
    );
    let w = method_normalization(&m, "A", "").ok().unwrap();
    assert_eq!(w.output, Some(s("ARefLock<usize,>")));
    assert_eq!(
        w.stmts,
        vec![
            s("let guard = self._core.read().unwrap();"),
            s("let value = guard.ref_value();"),
            s("let value = value as *const usize;"),
            s("return ARefLock::new(value, guard);"),
        ]
    );
    let m = method(
        "pub",
        "mut_value",
        vec![ArgModel::Receiver { mutable: true }],
        Some(reference(true, path("usize"))),
    );
    let w = method_normalization(&m, "A", "T").ok().unwrap();
    assert_eq!(w.output, Some(s("AMutLock<usize>")));
}

#[test]
fn wrapper_self_reference_return_gives_self() {
    let m = method(
        "pub",
        "set_value",
        vec![ArgModel::Receiver { mutable: true }, typed("value", path("usize"))],
        Some(reference(true, path("Self"))),
    );
    let w = method_normalization(&m, "A", "").ok().unwrap();
    assert_eq!(
        w.stmts,
        vec![
            s("let mut guard = self._core.write().unwrap();"),
            s("guard.set_value(value);"),
            s("drop(guard);"),
            s("return self;"),
        ]
    );
    assert_eq!(w.output, None);
}

#[test]
fn wrapper_reference_parameter_takes_lock() {
    let m = method(
        "pub",
        "multiply",
        vec![ArgModel::Receiver { mutable: true }, typed("other", reference(true, path("Self")))],
        None,
    );
    let w = method_normalization(&m, "A", "").ok().unwrap();
    assert_eq!(
        w.stmts,
        vec![
            s("let mut guard = self._core.write().unwrap();"),
            s("let other = &mut other._core.write().unwrap();"),
            s("guard.multiply(other);"),
        ]
    );
}

#[test]
fn wrapper_visibility_moves_down() {
    let m = method("pub(super)", "f", vec![], None);
    let w = method_normalization(&m, "A", "").ok().unwrap();
    assert_eq!(w.vis, "pub(in super::super)");
    let m = method("pub", "f", vec![], None);
    assert_eq!(method_normalization(&m, "A", "").ok().unwrap().vis, "pub");
}

#[test]
fn wrapper_refuses_unsupported_self_return() {
    let option_self = TypeModel::Path {
        text: s("Option < Self >"),
        prefix: s(""),
        ident: s("Option"),
        arguments: s("< Self >"),
        segment: s("Option < Self >"),
        args: vec![path("Self")],
    };
    let m = method("pub", "maybe", vec![], Some(option_self));
    let e = method_normalization(&m, "A", "").err().unwrap();
    assert_eq!(e.kind, ErrorKind::UnsupportedWrapperReturn);
    assert_eq!(
        e.message(),
        "The return Type with Self allowed in the maybe \n            function are: Self, &Self, &mut Self,Vec<Self>. Other formats are not supported! Slice "
    );
}

#[test]
fn wrapper_refuses_unsupported_self_parameter() {
    let option_self = TypeModel::Path {
        text: s("Option < Self >"),
        prefix: s(""),
        ident: s("Option"),
        arguments: s("< Self >"),
        segment: s("Option < Self >"),
        args: vec![path("Self")],
    };
    let m = method("pub", "take", vec![typed("x", option_self)], None);
    let e = method_normalization(&m, "A", "").err().unwrap();
    assert_eq!(e.kind, ErrorKind::UnsupportedParameter);
}

#[test]
fn impl_for_other_type_is_refused() {
    let m = ImplModel { self_ty: path("ABC"), generics: s(""), items: vec![] };
    assert!(expand_impl(&m, "A").is_ok());
    // a single byte after the name is not examined, so `AB` reads as naming `A`
    let m = ImplModel { self_ty: path("AB"), generics: s(""), items: vec![] };
    assert_eq!(expand_impl(&m, "A").err().unwrap().kind, ErrorKind::WrongImplType);
    let m = ImplModel {
        self_ty: reference(false, path("A")),
        generics: s(""),
        items: vec![],
    };
    assert_eq!(expand_impl(&m, "A").err().unwrap().kind, ErrorKind::ImplTypeNotPath);
}

#[test]
fn vec_of_self_return_whatever_its_spacing() {
    use_vec_return("Vec < Self >");
    use_vec_return("Vec<Self>");
}

fn use_vec_return(segment: &str) {
    let ty = TypeModel::Path {
        text: s(segment),
        prefix: s(""),
        ident: s("Vec"),
        arguments: s(&segment[3..]),
        segment: s(segment),
        args: vec![path("Self")],
    };
    let mut stmts = vec![];
    let out = wrapper_return(&ty, &mut stmts, "Base::get_vec(max)", "Base", "get_vec", "").ok().unwrap();
    assert_eq!(out, None);
    assert_eq!(
        stmts,
        vec![s("let reply = Base::get_vec(max);"), s("let reply = Self::into_vec_wrapper(reply);"), s("return reply;")]
    );
}

#[test]
fn slice_of_self_parameter_is_converted() {
    let ty = reference(false, TypeModel::Slice { text: s("[Self]"), elem: Box::new(path("Self")) });
    let mut stmts = vec![];
    assert!(wrapper_arg(&ty, "multiples", "Base", &mut stmts, "multiple_plus_slice").is_ok());
    assert_eq!(stmts, vec![s("let multiples = &Self::into_vec_base(multiples.to_vec());")]);
}

#[test]
fn vec_of_self_parameter_is_converted() {
    let ty = TypeModel::Path {
        text: s("Vec < Self >"),
        prefix: s(""),
        ident: s("Vec"),
        arguments: s("< Self >"),
        segment: s("Vec < Self >"),
        args: vec![path("Self")],
    };
    let mut stmts = vec![];
    assert!(wrapper_arg(&ty, "multiples", "Base", &mut stmts, "multiple_plus").is_ok());
    assert_eq!(stmts, vec![s("let multiples = Self::into_vec_base(multiples);")]);
}
