use warcrwlock::possible_struct::{Base as PossibleBase, A};
use warcrwlock::wrapper_model::basic_impls::Wrapper as BasicWrapper;
use warcrwlock::wrapper_model::user_impls::{Base, Wrapper};

#[test]
fn test_asref_arc() {
    let wrapper = BasicWrapper::new();
    let wrapper2 = BasicWrapper::new();
    println!("wrapper: {}", wrapper.debug_text());
    assert!(!wrapper.same_instance(&wrapper2))
}

#[test]
fn clone_shares_the_core() {
    let wrapper = BasicWrapper::new();
    let copy = wrapper.clone();
    assert!(wrapper.same_instance(&copy));
    let mut writer = copy.clone();
    let mut guard = writer.value_2_mut();
    *guard.get_mut() = 7;
    guard.release();
    let reader = wrapper.value_2();
    assert_eq!(*reader.get(), 7);
    reader.release();
    assert_eq!(wrapper.debug_text(), "Wrapper { value: 0, value_2: 7 }");
}

#[test]
fn user_wrapper_forwards_to_core() {
    let mut a = Wrapper::new(10);
    let b = a.clone();
    a.plus_one();
    assert_eq!(b.copy_value(), 11);
    a.plus(Wrapper::new(4));
    assert_eq!(b.copy_value(), 15);
    let mut guard = a.mut_value();
    *guard.get_mut() = 2;
    guard.release();
    let mut c = b.clone();
    let r = c.ref_value();
    assert_eq!(*r.get(), 2);
    r.release();
    assert_eq!(Wrapper::plus_static(Wrapper::new(1), Wrapper::new(2)).copy_value(), 3);
    assert_eq!(Wrapper::plus_static_manipulate(Wrapper::new(5), Wrapper::new(6)).copy_value(), 11);
    let other = Wrapper::new(1);
    a.plus_manipulate(&3, other.clone());
    assert_eq!(a.copy_value(), 5);
    assert_eq!(other.copy_value(), 4);
}

#[test]
fn user_wrapper_collections() {
    let all = Wrapper::get_vec(4);
    assert_eq!(all.len(), 4);
    assert_eq!(all[3].copy_value(), 3);
    assert_eq!(Wrapper::multiple_plus(all.clone()).copy_value(), 6);
    assert_eq!(Wrapper::multiple_plus_slice(&all).copy_value(), 6);
    assert_eq!(all[2].copy_value(), 2);
}

#[test]
fn user_wrapper_overflow_leaves_value() {
    let mut a = Wrapper::new(usize::MAX);
    a.plus_one();
    assert_eq!(a.copy_value(), usize::MAX);
}

#[test]
fn user_base_arithmetic() {
    let mut b = Base::new(1);
    b.plus_one();
    assert_eq!(b.value, 2);
    b.plus(Base::new(5));
    assert_eq!(*b.ref_value(), 7);
    *b.mut_value() = 1;
    assert_eq!(b.copy_value(), 1);
    assert_eq!(Base::plus_static(Base::new(2), Base::new(3)).value, 5);
    assert_eq!(Base::plus_static_manipulate(&Base::new(2), &Base::new(3)).value, 5);
    let mut other = Base::new(10);
    b.plus_manipulate(&2, &mut other);
    assert_eq!((b.value, other.value), (3, 12));
    let v = Base::get_vec(3);
    assert_eq!(v.iter().map(|x| x.value).collect::<Vec<_>>(), vec![0, 1, 2]);
    assert_eq!(Base::multiple_plus(v).value, 3);
    assert_eq!(Base::multiple_plus_slice(&[Base::new(4), Base::new(5)]).value, 9);
}

#[test]
fn possible_struct_wrapper() {
    let mut a = A::none_some_type(5);
    assert_eq!(a.refself_none_type(), 5);
    assert_eq!(a.refself_none_none(), "5");
    assert_eq!(a.refmutself_none_none(), "5");
    assert_eq!(a.refself_some_none(9), "9");
    assert_eq!(A::none_some_none(3), "3");
    let b = a.clone();
    b.refmutself_some_remuttype(8);
    assert_eq!(a.refself_none_type(), 8);
    a.refmutself_some_none();
    assert_eq!(b.refself_none_type(), 0);
    let mut guard = a.write();
    guard.get_mut().value = 4;
    guard.release();
    let guard = a.read();
    assert_eq!(guard.get().value, 4);
    guard.release();
    assert_eq!(A::none_none_type().refself_none_type(), 0);
    let mut base = PossibleBase::none_some_type(1);
    *base.refmutself_some_refmuttype() = 6;
    assert_eq!(*base.refself_none_reftype(), 6);
    base.refmutself_some_remuttype(2).refmutself_none_none();
    assert_eq!(base.value, 0);
}
