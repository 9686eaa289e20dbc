//! The text of a named list kept beside a collection: one entry per line.
use crate::text::{
    join_lines, join_with_newlines, lines_of, scan_lines, split_lines, str_views, string_views,
    strip_cr,
};
use vstd::prelude::*;

verus! {

/// Whether a list comes back unchanged from its text: no entry holds a line feed, no entry but the
/// last ends with a carriage return, and the last entry is not empty.
pub open spec fn list_round_trips(list: Seq<Seq<char>>) -> bool {
    &&& forall|i: int, j: int| 0 <= i < list.len() && 0 <= j < list[i].len() ==> #[trigger] list[i][j] != '\n'
    &&& forall|i: int| 0 <= i < list.len() - 1 ==> strip_cr(#[trigger] list[i]) == list[i]
    &&& list.len() > 0 ==> list.last().len() > 0
}

proof fn lemma_scan_without_line_feed(s: Seq<char>, t: Seq<char>)
    requires
        forall|j: int| 0 <= j < t.len() ==> t[j] != '\n',
    ensures
        scan_lines(s + t) == (scan_lines(s).0, scan_lines(s).1 + t),
    decreases t.len(),
{
    if t.len() == 0 {
        assert(s + t =~= s);
        assert(scan_lines(s).1 + t =~= scan_lines(s).1);
    } else {
        let shorter = t.drop_last();
        lemma_scan_without_line_feed(s, shorter);
        assert((s + t).drop_last() =~= s + shorter);
        assert(t.last() == t[t.len() - 1]);
        assert((scan_lines(s).1 + shorter).push(t.last()) =~= scan_lines(s).1 + t);
    }
}

proof fn lemma_scan_joined(list: Seq<Seq<char>>)
    requires
        list.len() > 0,
        forall|i: int, j: int| 0 <= i < list.len() && 0 <= j < list[i].len() ==> #[trigger] list[i][j] != '\n',
        forall|i: int| 0 <= i < list.len() - 1 ==> strip_cr(#[trigger] list[i]) == list[i],
    ensures
        scan_lines(join_lines(list)) == (list.drop_last(), list.last()),
    decreases list.len(),
{
    let last = list.last();
    assert(last == list[list.len() - 1]);
    assert forall|j: int| 0 <= j < last.len() implies last[j] != '\n' by {
        assert(list[list.len() - 1][j] != '\n');
    }
    if list.len() == 1 {
        lemma_scan_without_line_feed(Seq::empty(), last);
        assert(Seq::<char>::empty() + last =~= last);
        assert(Seq::<char>::empty() + last =~= join_lines(list));
        assert(list.drop_last() =~= Seq::<Seq<char>>::empty());
    } else {
        let front = list.drop_last();
        assert forall|i: int, j: int| 0 <= i < front.len() && 0 <= j < front[i].len() implies #[trigger] front[i][j] != '\n' by {
            assert(front[i] == list[i]);
        }
        assert forall|i: int| 0 <= i < front.len() - 1 implies strip_cr(#[trigger] front[i]) == front[i] by {
            assert(front[i] == list[i]);
        }
        lemma_scan_joined(front);
        let head = join_lines(front) + seq!['\n'];
        assert(head.drop_last() =~= join_lines(front));
        assert(strip_cr(front.last()) == front.last()) by {
            assert(front.last() == list[list.len() - 2]);
        }
        assert(scan_lines(head) == (front, Seq::<char>::empty())) by {
            assert(front.drop_last().push(front.last()) =~= front);
        }
        lemma_scan_without_line_feed(head, last);
        assert(Seq::<char>::empty() + last =~= last);
    }
}

/// A list that `list_round_trips` admits comes back unchanged when its text is read: writing
/// `["x", "y"]` and reading it gives `["x", "y"]`.
pub proof fn lemma_list_round_trip(list: Seq<Seq<char>>)
    requires
        list_round_trips(list),
    ensures
        lines_of(join_lines(list)) == list,
{
    if list.len() > 0 {
        lemma_scan_joined(list);
        assert(list.drop_last().push(list.last()) =~= list);
    }
}

/// The text of a list: its entries joined with `\n`.
pub fn encode_list(list: &Vec<String>) -> (r: String)
    ensures
        r@ == join_lines(string_views(list@)),
{
    let mut entries: Vec<&str> = Vec::new();
    let mut i: usize = 0;
    while i < list.len()
        invariant
            i <= list.len(),
            str_views(entries@) == string_views(list@.take(i as int)),
        decreases list.len() - i,
    {
        let entry = list[i].as_str();
        entries.push(entry);
        assert(list@.take(i + 1) == list@.take(i as int).push(list@[i as int]));
        assert(string_views(list@.take(i + 1)) == string_views(list@.take(i as int)).push(
            list@[i as int]@,
        ));
        assert(entries@.drop_last() == entries@.take(i as int));
        assert(str_views(entries@) == str_views(entries@.drop_last()).push(entry@));
        i += 1;
    }
    assert(list@.take(list.len() as int) == list@);
    assert(entries@.take(entries.len() as int) == entries@);
    join_with_newlines(&entries, entries.len())
}

/// The entries of a list's text: its lines.
pub fn decode_list(text: &str) -> (r: Vec<String>)
    ensures
        string_views(r@) == lines_of(text@),
{
    let lines = split_lines(text);
    let mut r: Vec<String> = Vec::new();
    let mut i: usize = 0;
    while i < lines.len()
        invariant
            i <= lines.len(),
            string_views(r@) == str_views(lines@.take(i as int)),
        decreases lines.len() - i,
    {
        let entry = lines[i].to_string();
        r.push(entry);
        assert(lines@.take(i + 1) == lines@.take(i as int).push(lines@[i as int]));
        assert(str_views(lines@.take(i + 1)) == str_views(lines@.take(i as int)).push(
            lines@[i as int]@,
        ));
        assert(string_views(r@) == string_views(r@.drop_last()).push(entry@));
        i += 1;
    }
    assert(lines@.take(lines.len() as int) == lines@);
    r
}

} // verus!
