use warcrwlock::test_impl::force_get_private_field_in_wrapper;
use warcrwlock::test_impl::MyStruct as LockedNumber;
use warcrwlock::test_in_model::only_structure::MyStruct;
use warcrwlock::test_in_model::with_generics::Generic;
use warcrwlock::test_in_model::with_into_impl::Number;

#[test]
fn number_methods() {
    let mut a = Number { number: 2 };
    let mut b = Number { number: 3 };
    a.insert(1);
    assert_eq!(a.number, 3);
    let r = a.multiply(&mut b);
    assert_eq!(r.number, 9);
    assert_eq!(b.number, 27);
    let mut other: usize = 4;
    let c = a.full_method_mut_ref(&mut other);
    assert_eq!(c.number, 13);
    assert_eq!(other, 36);
    assert_eq!(*a.ref_value(), 9);
    *a.mut_value() = 5;
    assert_eq!(a.number, 5);
    assert_eq!(a.set_value(7).number, 7);
    a.push_one();
    assert_eq!(a.number, 8);
}

#[test]
fn sequencial_numbers_follow_the_range() {
    let v = Number::sequencial_numbers(3..6);
    assert_eq!(v.iter().map(|n| n.number).collect::<Vec<_>>(), vec![3, 4, 5]);
    assert!(Number::sequencial_numbers(5..5).is_empty());
    assert!(Number::sequencial_numbers(6..2).is_empty());
}

#[test]
fn generic_plus() {
    let mut g = Generic::new(4usize);
    g.plus(Generic::new(6usize));
    let mut h = Generic::new(0usize);
    h.plus(g);
}

#[test]
fn only_structure_and_locked_number() {
    let _m = MyStruct::new(21);
    let _n = LockedNumber::new(42);
}

#[test]
fn test_get_value_field() {
    let instance = LockedNumber::new(42);
    let value = force_get_private_field_in_wrapper(instance);
    let handle = value.acquire_read();
    println!("Valor do campo: {}", handle.borrow());
    assert_eq!(*handle.borrow(), 42);
    handle.release_read();
}
