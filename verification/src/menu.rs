//! Menu entries, and the ordering of a menu by the labels of its entries.

use vstd::prelude::*;
use vstd::string::*;
use crate::position::Position;

verus! {

/// An entry of a menu: a label, and either a choice that it stands for or a
/// submenu that it opens. An entry may point at a place on the map.
#[derive(Debug)]
pub struct MenuItem<T> {
    pub name: String,
    pub data: Option<T>,
    pub target: Option<Position>,
    pub submenu: Vec<MenuItem<T>>,
}

impl<T> MenuItem<T> {
    /// An entry that stands for a choice.
    pub fn item(name: String, data: T, target: Option<Position>) -> (entry: MenuItem<T>)
        ensures
            entry.name == name,
            entry.data == Some(data),
            entry.target == target,
            entry.submenu@.len() == 0,
    {
        MenuItem { name, data: Some(data), target, submenu: Vec::new() }
    }

    /// An entry that opens a submenu.
    pub fn group(name: String, submenu: Vec<MenuItem<T>>) -> (entry: MenuItem<T>)
        ensures
            entry.name == name,
            entry.data.is_none(),
            entry.target.is_none(),
            entry.submenu == submenu,
    {
        MenuItem { name, data: None, target: None, submenu }
    }
}

/// Whether `a` comes before `b` in the order of the dictionary, character by
/// character by code point; a proper prefix comes before what it is a prefix
/// of.
pub open spec fn lex_lt(a: Seq<char>, b: Seq<char>) -> bool
    decreases a.len(),
{
    if b.len() == 0 {
        false
    } else if a.len() == 0 {
        true
    } else if a[0] != b[0] {
        (a[0] as u32) < (b[0] as u32)
    } else {
        lex_lt(a.drop_first(), b.drop_first())
    }
}

/// Of two labels at most one comes before the other.
pub proof fn lemma_lex_asymmetric(a: Seq<char>, b: Seq<char>)
    ensures
        !(lex_lt(a, b) && lex_lt(b, a)),
    decreases a.len(),
{
    if a.len() > 0 && b.len() > 0 && a[0] == b[0] {
        lemma_lex_asymmetric(a.drop_first(), b.drop_first());
    }
}

/// Whether `a` comes before `b`, given that they agree on their first `from`
/// characters.
spec fn lex_lt_from(a: Seq<char>, b: Seq<char>, from: int) -> bool {
    lex_lt(a.subrange(from, a.len() as int), b.subrange(from, b.len() as int))
}

/// Compares two labels in the order of the dictionary.
pub fn label_lt(a: &str, b: &str) -> (lt: bool)
    ensures
        lt == lex_lt(a@, b@),
{
    let a_len = a.unicode_len();
    let b_len = b.unicode_len();
    let mut i: usize = 0;
    assert(a@.subrange(0, a@.len() as int) =~= a@);
    assert(b@.subrange(0, b@.len() as int) =~= b@);
    while i < a_len && i < b_len
        invariant
            i <= a_len == a@.len(),
            i <= b_len == b@.len(),
            lex_lt(a@, b@) == lex_lt_from(a@, b@, i as int),
        decreases a_len - i,
    {
        let x = a.get_char(i);
        let y = b.get_char(i);
        let ghost ra = a@.subrange(i as int, a@.len() as int);
        let ghost rb = b@.subrange(i as int, b@.len() as int);
        if x != y {
            return (x as u32) < (y as u32);
        }
        assert(ra.drop_first() =~= a@.subrange(i + 1, a@.len() as int));
        assert(rb.drop_first() =~= b@.subrange(i + 1, b@.len() as int));
        i += 1;
    }
    i < b_len
}

/// Whether `order` lists each of the numbers below `n` once.
pub open spec fn is_permutation(order: Seq<int>, n: int) -> bool {
    &&& order.len() == n
    &&& forall|k: int| 0 <= k < n ==> 0 <= #[trigger] order[k] < n
    &&& forall|a: int, b: int| 0 <= a < b < n ==> #[trigger] order[a] != #[trigger] order[b]
}

/// Whether `submenu` is the menu of `entries` in the order that `order`
/// gives: its entry `k` stands for the choice `entries[order[k]]` under that
/// choice's own text as its label; no entry comes before its predecessor in
/// the order of the dictionary, and entries with one label keep the order in
/// which their choices came.
pub open spec fn is_sorted_menu<T: std::fmt::Display>(
    entries: Seq<T>,
    submenu: Seq<MenuItem<T>>,
    order: Seq<int>,
) -> bool {
    &&& is_permutation(order, entries.len() as int)
    &&& submenu.len() == entries.len()
    &&& forall|k: int|
        0 <= k < submenu.len() ==> {
            &&& (#[trigger] submenu[k]).data == Some(entries[order[k]])
            &&& to_string_from_display_ensures(&entries[order[k]], submenu[k].name)
            &&& submenu[k].target.is_none()
            &&& submenu[k].submenu@.len() == 0
        }
    &&& forall|k: int|
        0 <= k < submenu.len() - 1 ==> {
            &&& !lex_lt(#[trigger] submenu[k + 1].name@, submenu[k].name@)
            &&& !lex_lt(submenu[k].name@, submenu[k + 1].name@) ==> order[k] < order[k + 1]
        }
}

/// Makes a menu of choices: one entry for each choice, labelled with the
/// text of the choice, and the entries in the order of the dictionary by
/// label.
pub fn make_new_submenu<T: std::fmt::Display>(entries: Vec<T>) -> (submenu: Vec<MenuItem<T>>)
    ensures
        exists|order: Seq<int>| is_sorted_menu(entries@, submenu@, order),
{
    let ghost all = entries@;
    let mut rest = entries;
    let mut submenu: Vec<MenuItem<T>> = Vec::new();
    let ghost mut order: Seq<int> = Seq::empty();
    while rest.len() > 0
        invariant
            rest@ == all.subrange(0, rest@.len() as int),
            rest@.len() <= all.len(),
            submenu@.len() == all.len() - rest@.len(),
            order.len() == submenu@.len(),
            forall|k: int| 0 <= k < order.len() ==> rest@.len() <= #[trigger] order[k] < all.len(),
            forall|a: int, b: int|
                0 <= a < b < order.len() ==> #[trigger] order[a] != #[trigger] order[b],
            forall|k: int|
                0 <= k < submenu@.len() ==> {
                    &&& (#[trigger] submenu@[k]).data == Some(all[order[k]])
                    &&& to_string_from_display_ensures(&all[order[k]], submenu@[k].name)
                    &&& submenu@[k].target.is_none()
                    &&& submenu@[k].submenu@.len() == 0
                },
            forall|k: int|
                0 <= k < submenu@.len() - 1 ==> {
                    &&& !lex_lt(#[trigger] submenu@[k + 1].name@, submenu@[k].name@)
                    &&& !lex_lt(submenu@[k].name@, submenu@[k + 1].name@) ==> order[k] < order[k
                        + 1]
                },
        decreases rest.len(),
    {
        let ghost index = rest@.len() - 1;
        let item = rest.pop().unwrap();
        let label = item.to_string();
        let entry = MenuItem::item(label, item, None);
        let mut at: usize = 0;
        while at < submenu.len() && label_lt(submenu[at].name.as_str(), entry.name.as_str())
            invariant
                at <= submenu@.len(),
                forall|k: int| 0 <= k < at ==> lex_lt(#[trigger] submenu@[k].name@, entry.name@),
            decreases submenu@.len() - at,
        {
            at += 1;
        }
        let ghost before = submenu@;
        let ghost order_before = order;
        proof {
            if at > 0 {
                lemma_lex_asymmetric(before[at - 1].name@, entry.name@);
            }
            order = order_before.insert(at as int, index);
        }
        submenu.insert(at, entry);
        proof {
            assert forall|k: int| 0 <= k < submenu@.len() - 1 implies {
                &&& !lex_lt(#[trigger] submenu@[k + 1].name@, submenu@[k].name@)
                &&& !lex_lt(submenu@[k].name@, submenu@[k + 1].name@) ==> order[k] < order[k + 1]
            } by {
                if k > at {
                    assert(!lex_lt(before[k - 1 + 1].name@, before[k - 1].name@));
                }
            }
        }
    }
    assert(is_sorted_menu(all, submenu@, order));
    submenu
}

} // verus!
