//! Name helpers shared by every expansion: the isolated-name search over
//! the text of a type, and the names of the generated companion items.
use vstd::prelude::*;
use vstd::string::*;
use vstd::utf8::*;
use crate::text::{cat, decimal, decimal_text, no_spaces};

verus! {

/// The bytes of `t` without its spaces (the byte of `' '` is 32).
pub open spec fn remove_spaces(t: Seq<u8>) -> Seq<u8>
    decreases t.len(),
{
    if t.len() == 0 {
        seq![]
    } else if t.last() == 32u8 {
        remove_spaces(t.drop_last())
    } else {
        remove_spaces(t.drop_last()).push(t.last())
    }
}

/// `t` occurs in `c` at byte offset `i`.
pub open spec fn occurs_at(c: Seq<u8>, t: Seq<u8>, i: int) -> bool {
    0 <= i && i + t.len() <= c.len() && c.subrange(i, i + t.len()) == t
}

/// The first offset at or after `k` where `t` occurs in `c`.
pub open spec fn find_from(c: Seq<u8>, t: Seq<u8>, k: int) -> Option<int>
    decreases c.len() + 1 - k,
{
    if k < 0 || k + t.len() > c.len() {
        None
    } else if occurs_at(c, t, k) {
        Some(k)
    } else {
        find_from(c, t, k + 1)
    }
}

/// An ASCII letter or the underscore: a byte that continues a word.
pub open spec fn is_word_byte(b: u8) -> bool {
    (65 <= b && b <= 90) || (97 <= b && b <= 122) || b == 95
}

/// Only the first occurrence of `t` in `c` is examined; it is the answer when
/// the byte before it is not a word byte and, when at least two bytes follow
/// it, the byte right after it is not a word byte either.
pub open spec fn isolated_index(c: Seq<u8>, t: Seq<u8>) -> Option<int> {
    match find_from(c, t, 0) {
        None => None,
        Some(start) => {
            let end = start + t.len();
            if start > 0 && is_word_byte(c[start - 1]) {
                None
            } else if end < c.len() - 1 && is_word_byte(c[end]) {
                None
            } else {
                Some(start)
            }
        },
    }
}

/// The search is defined: the neighbours it reads are single-byte characters
/// and the text is not empty once an occurrence was found.
pub open spec fn isolated_lookup_defined(c: Seq<u8>, t: Seq<u8>) -> bool {
    match find_from(c, t, 0) {
        None => true,
        Some(start) => {
            &&& c.len() > 0
            &&& start > 0 ==> c[start - 1] < 128
            &&& start + t.len() < c.len() - 1 ==> c[start + t.len()] < 128
        },
    }
}

/// The isolated-name search on texts, as characters.
pub open spec fn isolated_name_index(content: Seq<char>, target: Seq<char>) -> Option<int> {
    isolated_index(encode_utf8(content), remove_spaces(encode_utf8(target)))
}

/// The isolated-name search on texts is defined.
pub open spec fn name_lookup_ok(content: Seq<char>, target: Seq<char>) -> bool {
    isolated_lookup_defined(encode_utf8(content), remove_spaces(encode_utf8(target)))
}

/// `target` occurs isolated in `content`.
pub open spec fn contains_isolated(content: Seq<char>, target: Seq<char>) -> bool {
    isolated_name_index(content, target) is Some
}

fn remove_space_bytes(t: &[u8]) -> (r: Vec<u8>)
    ensures
        r@ == remove_spaces(t@),
{
    let mut r: Vec<u8> = Vec::new();
    let mut i: usize = 0;
    while i < t.len()
        invariant
            i <= t.len(),
            r@ == remove_spaces(t@.subrange(0, i as int)),
        decreases t.len() - i,
    {
        let b = t[i];
        assert(t@.subrange(0, i + 1).drop_last() =~= t@.subrange(0, i as int));
        if b != 32u8 {
            r.push(b);
        }
        i = i + 1;
    }
    assert(t@.subrange(0, t.len() as int) =~= t@);
    r
}

fn occurs_at_exec(c: &[u8], t: &[u8], k: usize) -> (r: bool)
    requires
        k + t.len() <= c.len(),
    ensures
        r == occurs_at(c@, t@, k as int),
{
    let mut j: usize = 0;
    while j < t.len()
        invariant
            j <= t.len(),
            k + t.len() <= c.len(),
            forall|m: int| 0 <= m < j ==> c@[k + m] == t@[m],
        decreases t.len() - j,
    {
        if c[k + j] != t[j] {
            assert(c@.subrange(k as int, k + t.len())[j as int] != t@[j as int]);
            return false;
        }
        j = j + 1;
    }
    assert(c@.subrange(k as int, k + t.len()) =~= t@);
    true
}

fn find_exec(c: &[u8], t: &[u8]) -> (r: Option<usize>)
    ensures
        r matches Some(i) ==> find_from(c@, t@, 0) == Some(i as int) && i + t@.len() <= c@.len(),
        r is None ==> find_from(c@, t@, 0) is None,
{
    if t.len() > c.len() {
        return None;
    }
    let last: usize = c.len() - t.len();
    let mut k: usize = 0;
    loop
        invariant
            t.len() <= c.len(),
            last == c.len() - t.len(),
            k <= last,
            find_from(c@, t@, 0) == find_from(c@, t@, k as int),
        decreases last - k,
    {
        if occurs_at_exec(c, t, k) {
            return Some(k);
        }
        if k == last {
            assert(find_from(c@, t@, k + 1) is None);
            return None;
        }
        k = k + 1;
    }
}

fn is_word_byte_exec(b: u8) -> (r: bool)
    ensures
        r == is_word_byte(b),
{
    (65 <= b && b <= 90) || (97 <= b && b <= 122) || b == 95
}

/// Finds `target` (its spaces taken out) in `content` as a whole name: the
/// first occurrence is the answer unless a letter or `_` stands right before
/// it or right after it. Of the byte right after it, only one is looked at
/// when at least two bytes follow the occurrence.
pub fn get_isolated_name_index(content: &str, target: &str) -> (r: Option<usize>)
    requires
        name_lookup_ok(content@, target@),
    ensures
        r matches Some(i) ==> isolated_name_index(content@, target@) == Some(i as int),
        r is None <==> isolated_name_index(content@, target@) is None,
{
    let c = content.as_bytes();
    let t = remove_space_bytes(target.as_bytes());
    let t = t.as_slice();
    let c_len = c.len();
    match find_exec(c, t) {
        None => None,
        Some(start) => {
            let end = start + t.len();
            if start > 0 {
                let previous = c[start - 1];
                if is_word_byte_exec(previous) {
                    return None;
                }
            }
            if end < c.len() - 1 {
                let next = c[end];
                if is_word_byte_exec(next) {
                    return None;
                }
            }
            Some(start)
        },
    }
}

/// `target` occurs in `content` as a whole name.
pub fn contains_isolated_name(content: &str, target: &str) -> (r: bool)
    requires
        name_lookup_ok(content@, target@),
    ensures
        r == contains_isolated(content@, target@),
{
    get_isolated_name_index(content, target).is_some()
}

/// Whether the isolated-name search of `target` in `content` is defined.
pub fn name_lookup_is_defined(content: &str, target: &str) -> (r: bool)
    ensures
        r == name_lookup_ok(content@, target@),
{
    let c = content.as_bytes();
    let t = remove_space_bytes(target.as_bytes());
    let t = t.as_slice();
    match find_exec(c, t) {
        None => true,
        Some(start) => {
            if c.len() == 0 {
                return false;
            }
            if start > 0 && c[start - 1] >= 128 {
                return false;
            }
            let end = start + t.len();
            if end < c.len() - 1 && c[end] >= 128 {
                return false;
            }
            true
        },
    }
}

/// A found index is an occurrence of the target, not preceded by a word byte.
pub proof fn lemma_isolated_index_is_occurrence(c: Seq<u8>, t: Seq<u8>)
    ensures
        isolated_index(c, t) matches Some(i) ==> {
            &&& occurs_at(c, t, i)
            &&& (i > 0 ==> !is_word_byte(c[i - 1]))
            &&& forall|j: int| 0 <= j < i ==> !occurs_at(c, t, j)
        },
{
    lemma_find_from_first(c, t, 0);
}

proof fn lemma_find_from_first(c: Seq<u8>, t: Seq<u8>, k: int)
    requires
        k >= 0,
    ensures
        find_from(c, t, k) matches Some(i) ==> {
            &&& k <= i
            &&& occurs_at(c, t, i)
            &&& forall|j: int| k <= j < i ==> !occurs_at(c, t, j)
        },
        find_from(c, t, k) is None ==> forall|j: int| k <= j ==> !occurs_at(c, t, j),
    decreases c.len() + 1 - k,
{
    if k + t.len() > c.len() {
    } else if occurs_at(c, t, k) {
    } else {
        lemma_find_from_first(c, t, k + 1);
    }
}

proof fn lemma_remove_spaces_add(a: Seq<u8>, b: Seq<u8>)
    ensures
        remove_spaces(a + b) == remove_spaces(a) + remove_spaces(b),
    decreases b.len(),
{
    if b.len() == 0 {
        assert(a + b =~= a);
        assert(remove_spaces(a) + remove_spaces(b) =~= remove_spaces(a));
    } else {
        lemma_remove_spaces_add(a, b.drop_last());
        assert((a + b).drop_last() =~= a + b.drop_last());
        assert((a + b).last() == b.last());
        if b.last() != 32u8 {
            assert(remove_spaces(a) + remove_spaces(b.drop_last()).push(b.last()) =~= (
            remove_spaces(a) + remove_spaces(b.drop_last())).push(b.last()));
        }
    }
}

proof fn lemma_remove_spaces_none(s: Seq<u8>)
    requires
        forall|i: int| 0 <= i < s.len() ==> s[i] != 32u8,
    ensures
        remove_spaces(s) == s,
    decreases s.len(),
{
    if s.len() > 0 {
        lemma_remove_spaces_none(s.drop_last());
        assert(s.drop_last().push(s.last()) =~= s);
    }
}

proof fn lemma_remove_spaces_idempotent(s: Seq<u8>)
    ensures
        remove_spaces(remove_spaces(s)) == remove_spaces(s),
    decreases s.len(),
{
    if s.len() > 0 {
        lemma_remove_spaces_idempotent(s.drop_last());
        if s.last() != 32u8 {
            let r = remove_spaces(s.drop_last());
            assert(r.push(s.last()).drop_last() =~= r);
        }
    }
}

proof fn lemma_scalar_spaces(c: char)
    ensures
        remove_spaces(encode_scalar(c as u32)) == (if c == ' ' {
            Seq::<u8>::empty()
        } else {
            encode_scalar(c as u32)
        }),
{
    let v = c as u32;
    let e = encode_scalar(v);
    assert((' ' as u32) == 32u32);
    if has_width_1_encoding(v) {
        assert(((v & 0x7F) as u8) as u32 == v) by (bit_vector)
            requires
                v <= 0x7F,
        ;
        assert(e.len() == 1);
        assert(e[0] as u32 == v);
        if c == ' ' {
            assert(e[0] == 32u8);
            assert(e.drop_last() =~= Seq::<u8>::empty());
            assert(remove_spaces(e) == remove_spaces(e.drop_last()));
        } else {
            assert(v != 32);
            lemma_remove_spaces_none(e);
        }
    } else {
        assert(v > 0x7F);
        assert(c != ' ');
        assert((0xC0u8 | ((v >> 6) & 0x1F) as u8) >= 0x80u8) by (bit_vector);
        assert((0xE0u8 | ((v >> 12) & 0x0F) as u8) >= 0x80u8) by (bit_vector);
        assert((0xF0u8 | ((v >> 18) & 0x7) as u8) >= 0x80u8) by (bit_vector);
        assert((0x80u8 | (v & 0x3F) as u8) >= 0x80u8) by (bit_vector);
        assert((0x80u8 | ((v >> 6) & 0x3F) as u8) >= 0x80u8) by (bit_vector);
        assert((0x80u8 | ((v >> 12) & 0x3F) as u8) >= 0x80u8) by (bit_vector);
        assert forall|i: int| 0 <= i < e.len() implies e[i] != 32u8 by {
            assert(e[i] >= 0x80u8);
        }
        lemma_remove_spaces_none(e);
    }
}

proof fn lemma_encode_without_spaces(t: Seq<char>)
    ensures
        encode_utf8(no_spaces(t)) == remove_spaces(encode_utf8(t)),
    decreases t.len(),
{
    reveal_strlit(" ");
    reveal_strlit("");
    if t.len() > 0 {
        let c = t[0];
        let rest = t.skip(1);
        lemma_encode_without_spaces(rest);
        lemma_scalar_spaces(c);
        lemma_remove_spaces_add(encode_scalar(c as u32), encode_utf8(t.drop_first()));
        assert(t.drop_first() =~= rest);
        assert(t.take(1) =~= seq![c]);
        if c == ' ' {
            assert(t.take(" "@.len() as int) == " "@);
            assert(no_spaces(t) =~= no_spaces(rest));
            assert(Seq::<u8>::empty() + remove_spaces(encode_utf8(rest)) =~= remove_spaces(
                encode_utf8(rest),
            ));
        } else {
            assert(" "@.len() == 1);
            assert(" "@[0] == ' ');
            assert(t.take(1)[0] == c);
            assert(t.take(" "@.len() as int) != " "@);
            assert(no_spaces(t) =~= seq![c] + no_spaces(rest));
            let n = seq![c] + no_spaces(rest);
            assert(n[0] == c);
            assert(n.drop_first() =~= no_spaces(rest));
        }
    } else {
        assert(no_spaces(t) =~= t);
    }
}

/// Spaces in the target never change the isolated-name search: the answer
/// for `target` is the answer for `target` without its spaces, and so is
/// whether the search is defined.
pub proof fn lemma_spaces_in_target_ignored(content: Seq<char>, target: Seq<char>)
    ensures
        isolated_name_index(content, no_spaces(target)) == isolated_name_index(content, target),
        name_lookup_ok(content, no_spaces(target)) == name_lookup_ok(content, target),
{
    lemma_encode_without_spaces(target);
    lemma_remove_spaces_idempotent(encode_utf8(target));
}

/// The name of the core type: the struct's name followed by `Core`.
pub open spec fn core_name(ident: Seq<char>) -> Seq<char> {
    ident + "Core"@
}

/// The name of the core type.
pub fn full_base_struct_name(original_struct_name: &str) -> (r: String)
    ensures
        r@ == core_name(original_struct_name@),
{
    cat(original_struct_name, "Core")
}

/// The name of the read guard of a wrapper: the name followed by `RefLock`.
pub fn get_ref_guard_name(original_name_type: &str) -> (r: String)
    ensures
        r@ == original_name_type@ + "RefLock"@,
{
    cat(original_name_type, "RefLock")
}

/// The name of the write guard of a wrapper: the name followed by `MutLock`.
pub fn get_mut_guard_name(original_name_type: &str) -> (r: String)
    ensures
        r@ == original_name_type@ + "MutLock"@,
{
    cat(original_name_type, "MutLock")
}

/// The name of the module that holds the core methods of the `impl` block
/// that was expanded as the `current_id`-th.
pub fn mod_ident_name(current_id: u64) -> (r: String)
    ensures
        r@ == "_into_"@ + decimal(current_id as nat),
{
    let n = decimal_text(current_id);
    cat("_into_", n.as_str())
}

} // verus!
