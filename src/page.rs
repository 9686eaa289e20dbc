//! Ordering the images of a work by the page number written in their names.
use crate::paths::{
    file_name_of, find_first_from, find_last, first_index_from, last_index_of, path_file_name,
};
use crate::text::{chars_of, parse_u64, parsed_u64};
use vstd::prelude::*;

verus! {

broadcast use vstd::seq_lib::group_to_multiset_ensures;

/// The page number of a file name: the unsigned number between its last `(` and the first `)`
/// after that, or `None` where there is no such pair or no such number.
pub open spec fn page_index(name: Seq<char>) -> Option<u64> {
    match last_index_of(name, '(') {
        Some(left) => match first_index_from(name, ')', left + 1) {
            Some(right) => parsed_u64(name.subrange(left + 1, right)),
            None => None,
        },
        None => None,
    }
}

/// The sort key of a file name: its page number, or the largest key where it has none.
pub open spec fn page_key(name: Seq<char>) -> u64 {
    match page_index(name) {
        Some(k) => k,
        None => u64::MAX,
    }
}

/// The sort key of a path: the key of its file name, or the largest key where it has none.
pub open spec fn path_page_key(p: Seq<char>) -> u64 {
    match path_file_name(p) {
        Some(name) => page_key(name),
        None => u64::MAX,
    }
}

/// Whether the paths are in ascending order of their page keys.
pub open spec fn sorted_by_page(paths: Seq<String>) -> bool {
    forall|a: int, b: int|
        0 <= a < b < paths.len() ==> path_page_key(#[trigger] paths[a]@) <= path_page_key(
            #[trigger] paths[b]@,
        )
}

proof fn lemma_first_index_in_range(s: Seq<char>, c: char, from: int)
    ensures
        first_index_from(s, c, from) matches Some(i) ==> from <= i < s.len(),
    decreases s.len() - from,
{
    if 0 <= from < s.len() && s[from] != c {
        lemma_first_index_in_range(s, c, from + 1);
    }
}

proof fn lemma_last_index_bounded(s: Seq<char>, c: char)
    ensures
        last_index_of(s, c) matches Some(i) ==> 0 <= i < s.len(),
    decreases s.len(),
{
    if s.len() > 0 && s.last() != c {
        lemma_last_index_bounded(s.drop_last(), c);
    }
}

/// The page number in a file name: the number in its last pair of parentheses, if any.
pub fn get_page_index(name: &str) -> (r: Option<u64>)
    ensures
        r == page_index(name@),
{
    let chars = chars_of(name);
    proof {
        lemma_last_index_bounded(chars@, '(');
    }
    match find_last(&chars, '(') {
        Some(left) => {
            assert(left < chars.len());
            proof {
                lemma_first_index_in_range(chars@, ')', left + 1);
            }
            match find_first_from(&chars, ')', left + 1) {
                Some(right) => parse_u64(name.substring_char(left + 1, right)),
                None => None,
            }
        },
        None => None,
    }
}

/// The sort key of a path: the page number of its file name, or `u64::MAX` where it has none.
pub fn page_key_of(path: &str) -> (r: u64)
    ensures
        r == path_page_key(path@),
{
    match file_name_of(path) {
        Some(name) => match get_page_index(name.as_str()) {
            Some(k) => k,
            None => u64::MAX,
        },
        None => u64::MAX,
    }
}

/// The paths in ascending order of page key; paths with equal keys keep no particular order.
pub fn sort_by_page(paths: &Vec<String>) -> (r: Vec<String>)
    ensures
        r@.to_multiset() == paths@.to_multiset(),
        sorted_by_page(r@),
{
    let mut out: Vec<String> = Vec::new();
    let mut keys: Vec<u64> = Vec::new();
    let mut i: usize = 0;
    while i < paths.len()
        invariant
            i <= paths.len(),
            out@.to_multiset() == paths@.take(i as int).to_multiset(),
            keys.len() == out.len(),
            forall|j: int| 0 <= j < keys.len() ==> keys@[j] == path_page_key(#[trigger] out@[j]@),
            forall|a: int, b: int| 0 <= a < b < keys.len() ==> keys@[a] <= keys@[b],
        decreases paths.len() - i,
    {
        let p = paths[i].clone();
        let k = page_key_of(p.as_str());
        let mut pos: usize = 0;
        while pos < keys.len() && keys[pos] <= k
            invariant
                pos <= keys.len(),
                forall|j: int| 0 <= j < pos ==> keys@[j] <= k,
            decreases keys.len() - pos,
        {
            pos += 1;
        }
        assert(pos < keys.len() ==> keys@[pos as int] > k);
        let ghost old_out = out@;
        let ghost old_keys = keys@;
        out.insert(pos, p);
        keys.insert(pos, k);
        assert(paths@.take(i + 1) == paths@.take(i as int).push(paths@[i as int]));
        assert(forall|j: int|
            0 <= j < keys.len() ==> keys@[j] == path_page_key(#[trigger] out@[j]@)) by {
            assert forall|j: int| 0 <= j < keys.len() implies keys@[j] == path_page_key(
                #[trigger] out@[j]@,
            ) by {
                if j < pos {
                    assert(out@[j] == old_out[j]);
                } else if j > pos {
                    assert(out@[j] == old_out[j - 1]);
                }
            }
        }
        assert(forall|a: int, b: int| 0 <= a < b < keys.len() ==> keys@[a] <= keys@[b]) by {
            assert forall|a: int, b: int| 0 <= a < b < keys.len() implies keys@[a] <= keys@[b] by {
                if b < pos {
                } else if b == pos {
                    assert(keys@[a] == old_keys[a]);
                } else if a < pos {
                    assert(old_keys[a] <= k);
                    assert(keys@[b] == old_keys[b - 1]);
                    assert(old_keys[pos as int] > k);
                    assert(old_keys[pos as int] <= old_keys[b - 1]);
                } else if a == pos {
                    assert(old_keys[pos as int] > k);
                    assert(old_keys[pos as int] <= old_keys[b - 1]);
                } else {
                    assert(keys@[a] == old_keys[a - 1]);
                    assert(keys@[b] == old_keys[b - 1]);
                }
            }
        }
        i += 1;
    }
    assert(paths@.take(paths.len() as int) == paths@);
    out
}

} // verus!
