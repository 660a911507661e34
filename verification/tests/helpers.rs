use warcrwlock::names::{
    contains_isolated_name, full_base_struct_name, get_isolated_name_index, get_mut_guard_name,
    get_ref_guard_name, mod_ident_name, name_lookup_is_defined,
};
use warcrwlock::text::{decimal_text, text_eq};

#[test]
fn test_helpers_get_isolated_name_index() {
    let target = "case";
    //true case
    let content = "true::case::";
    let possible_index = get_isolated_name_index(content, target);
    assert_eq!(possible_index, Some(6));
    //false case
    let content = "false_case";
    let possible_index = get_isolated_name_index(content, target);
    assert_eq!(possible_index, None)
}

#[test]
fn isolated_name_at_start_and_end() {
    assert_eq!(get_isolated_name_index("Self", "Self"), Some(0));
    assert_eq!(get_isolated_name_index("Vec < Self >", "Self"), Some(6));
    assert_eq!(get_isolated_name_index("SelfType", "Self"), None);
    assert_eq!(get_isolated_name_index("MySelf", "Self"), None);
}

#[test]
fn isolated_name_only_first_occurrence_counts() {
    // the first occurrence is preceded by a letter, so the second is not looked at
    assert_eq!(get_isolated_name_index("aSelf Self", "Self"), None);
}

#[test]
fn isolated_name_last_byte_is_not_checked() {
    // with a single byte after the occurrence, that byte is not examined
    assert_eq!(get_isolated_name_index("cases", "case"), Some(0));
    assert_eq!(get_isolated_name_index("casesx", "case"), None);
}

#[test]
fn isolated_name_digits_do_not_bind() {
    assert_eq!(get_isolated_name_index("case1 ", "case"), Some(0));
}

#[test]
fn isolated_name_spaces_removed_from_target() {
    assert_eq!(get_isolated_name_index("Vec<Self>", "Vec < Self >"), Some(0));
}

#[test]
fn isolated_name_same_answer_with_or_without_spaces_in_target() {
    for (content, target) in [("Vec<Self>", "Vec < Self >"), ("a Self b", " Se lf "), ("MySelf", "S elf"), ("usize", " ")] {
        assert_eq!(get_isolated_name_index(content, target), get_isolated_name_index(content, &target.replace(" ", "")));
    }
}

#[test]
fn isolated_name_absent() {
    assert_eq!(get_isolated_name_index("usize", "Self"), None);
    assert!(!contains_isolated_name("usize", "Self"));
    assert!(contains_isolated_name("& mut Self", "Self"));
}

#[test]
fn lookup_defined_on_non_ascii_neighbours() {
    assert!(name_lookup_is_defined("Self", "Self"));
    assert!(!name_lookup_is_defined("éSelf", "Self"));
    assert!(!name_lookup_is_defined("", ""));
    assert!(name_lookup_is_defined("é", "Self"));
}

#[test]
fn guard_and_core_names() {
    assert_eq!(get_ref_guard_name("MyStruct"), "MyStructRefLock");
    assert_eq!(get_mut_guard_name("MyStruct"), "MyStructMutLock");
    assert_eq!(full_base_struct_name("MyStruct"), "MyStructCore");
    assert_eq!(mod_ident_name(0), "_into_0");
    assert_eq!(mod_ident_name(42), "_into_42");
}

#[test]
fn decimal_writing() {
    assert_eq!(decimal_text(0), "0");
    assert_eq!(decimal_text(7), "7");
    assert_eq!(decimal_text(1050), "1050");
    assert_eq!(decimal_text(u64::MAX), "18446744073709551615");
}

#[test]
fn text_equality() {
    assert!(text_eq("Self", "Self"));
    assert!(!text_eq("Self", "Sel"));
    assert!(!text_eq("é", "e"));
}
