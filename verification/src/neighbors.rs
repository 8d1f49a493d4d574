//! The IPv4 neighbours that `ip -4 neigh show dev <iface>` lists: the
//! candidates for the peer's address on a Wi-Fi Direct link.
use vstd::prelude::*;

use crate::numbers::{ipv4_text, is_ipv4_text};
use crate::text::{
    chars_of, is_white_space, lines, lines_of, same_chars, slice, string_of, string_texts, texts,
    trim_start, trim_start_from, white_space,
};

verus! {

/// The first position at or after `i` in `s` that holds white space, or
/// the length of `s` where none does.
pub open spec fn word_end_from(s: Seq<char>, i: int) -> int
    decreases s.len() - i,
{
    if i < 0 || i >= s.len() {
        s.len() as int
    } else if is_white_space(s[i]) {
        i
    } else {
        word_end_from(s, i + 1)
    }
}

/// The first white-space separated word of `line`, if it has one
/// (`split_whitespace().next()`).
pub open spec fn first_word(line: Seq<char>) -> Option<Seq<char>> {
    let t = trim_start(line);
    if t.len() == 0 {
        None
    } else {
        Some(t.take(word_end_from(t, 0)))
    }
}

/// The neighbour address a line lists: its first word, where that is an
/// IPv4 address.
pub open spec fn neighbor_address(line: Seq<char>) -> Option<Seq<char>> {
    match first_word(line) {
        Some(w) => if is_ipv4_text(w) {
            Some(w)
        } else {
            None
        },
        None => None,
    }
}

/// Some line of `lines` lists the neighbour address `a`.
pub open spec fn lists_neighbor(lines: Seq<Seq<char>>, a: Seq<char>) -> bool {
    exists|i: int| 0 <= i < lines.len() && #[trigger] neighbor_address(lines[i]) == Some(a)
}

/// `a` comes before `b` in lexicographic order (that of `str`'s `Ord`).
pub open spec fn lex_lt(a: Seq<char>, b: Seq<char>) -> bool
    decreases a.len(),
{
    if b.len() == 0 {
        false
    } else if a.len() == 0 {
        true
    } else if a[0] < b[0] {
        true
    } else if a[0] > b[0] {
        false
    } else {
        lex_lt(a.drop_first(), b.drop_first())
    }
}

/// Every text of `s` comes before every later one: `s` is sorted and holds
/// no text twice.
pub open spec fn strictly_sorted(s: Seq<Seq<char>>) -> bool {
    forall|i: int, j: int| 0 <= i < j < s.len() ==> lex_lt(#[trigger] s[i], #[trigger] s[j])
}

/// No text comes before itself.
pub proof fn lemma_lex_irreflexive(a: Seq<char>)
    ensures
        !lex_lt(a, a),
    decreases a.len(),
{
    if a.len() > 0 {
        lemma_lex_irreflexive(a.drop_first());
    }
}

/// The order of texts is transitive.
pub proof fn lemma_lex_transitive(a: Seq<char>, b: Seq<char>, c: Seq<char>)
    requires
        lex_lt(a, b),
        lex_lt(b, c),
    ensures
        lex_lt(a, c),
    decreases a.len(),
{
    if a.len() > 0 && b.len() > 0 && c.len() > 0 && a[0] == b[0] && b[0] == c[0] {
        lemma_lex_transitive(a.drop_first(), b.drop_first(), c.drop_first());
    }
}

/// Of two different texts, one comes before the other.
pub proof fn lemma_lex_total(a: Seq<char>, b: Seq<char>)
    requires
        a != b,
    ensures
        lex_lt(a, b) || lex_lt(b, a),
    decreases a.len(),
{
    if a.len() > 0 && b.len() > 0 && a[0] == b[0] {
        if a.drop_first() == b.drop_first() {
            assert(a =~= seq![a[0]] + a.drop_first());
            assert(b =~= seq![b[0]] + b.drop_first());
        }
        lemma_lex_total(a.drop_first(), b.drop_first());
    } else if a.len() == 0 && b.len() == 0 {
        assert(a =~= b);
    }
}

fn lex_less(a: &Vec<char>, b: &Vec<char>) -> (r: bool)
    ensures
        r == lex_lt(a@, b@),
{
    let mut i: usize = 0;
    assert(a@.skip(0) =~= a@);
    assert(b@.skip(0) =~= b@);
    while i < a.len() && i < b.len() && a[i] == b[i]
        invariant
            i <= a.len(),
            i <= b.len(),
            lex_lt(a@, b@) == lex_lt(a@.skip(i as int), b@.skip(i as int)),
        decreases a.len() - i,
    {
        assert(a@.skip(i as int).drop_first() =~= a@.skip(i + 1));
        assert(b@.skip(i as int).drop_first() =~= b@.skip(i + 1));
        i = i + 1;
    }
    if i >= b.len() {
        false
    } else if i >= a.len() {
        true
    } else {
        a[i] < b[i]
    }
}

/// Adds `x` to the strictly sorted `out`, unless it is already there.
fn insert_sorted(out: &mut Vec<Vec<char>>, x: Vec<char>)
    requires
        strictly_sorted(texts(old(out)@)),
    ensures
        strictly_sorted(texts(final(out)@)),
        forall|a: Seq<char>|
            texts(final(out)@).contains(a) <==> (texts(old(out)@).contains(a) || a == x@),
{
    let ghost before = texts(out@);
    let mut p: usize = 0;
    while p < out.len() && lex_less(&out[p], &x)
        invariant
            p <= out.len(),
            before == texts(out@),
            forall|j: int| 0 <= j < p ==> lex_lt(#[trigger] before[j], x@),
        decreases out.len() - p,
    {
        assert(before[p as int] == out[p as int]@);
        p = p + 1;
    }
    if p < out.len() {
        assert(before[p as int] == out[p as int]@);
        if same_chars(&out[p], &x) {
            assert(before.contains(x@));
            return;
        }
        proof {
            lemma_lex_total(before[p as int], x@);
        }
    }
    let ghost xv = x@;
    out.insert(p, x);
    let ghost after = texts(out@);
    assert(after =~= before.insert(p as int, xv));
    assert forall|i: int, j: int| 0 <= i < j < after.len() implies lex_lt(
        #[trigger] after[i],
        #[trigger] after[j],
    ) by {
        if j < p {
        } else if j == p {
        } else if i < p {
            assert(after[i] == before[i]);
            assert(after[j] == before[j - 1]);
        } else if i == p {
            if j - 1 > p {
                lemma_lex_transitive(xv, before[p as int], before[j - 1]);
            }
        } else {
            assert(after[i] == before[i - 1]);
        }
    }
    assert forall|a: Seq<char>| after.contains(a) <==> (before.contains(a) || a == xv) by {
        if after.contains(a) {
            let k = choose|k: int| 0 <= k < after.len() && after[k] == a;
            if k < p {
                assert(before[k] == a);
            } else if k > p {
                assert(before[k - 1] == a);
            }
        }
        if before.contains(a) {
            let k = choose|k: int| 0 <= k < before.len() && before[k] == a;
            if k < p {
                assert(after[k] == a);
            } else {
                assert(after[k + 1] == a);
            }
        }
        if a == xv {
            assert(after[p as int] == a);
        }
    }
}

fn neighbor_address_of(line: &Vec<char>) -> (r: Option<Vec<char>>)
    ensures
        match r {
            Some(w) => neighbor_address(line@) == Some(w@),
            None => neighbor_address(line@) is None,
        },
{
    let mut a: usize = 0;
    while a < line.len() && white_space(line[a])
        invariant
            a <= line.len(),
            trim_start(line@) == trim_start_from(line@, a as int),
        decreases line.len() - a,
    {
        a = a + 1;
    }
    let ghost t = line@.skip(a as int);
    assert(trim_start(line@) == t);
    if a == line.len() {
        return None;
    }
    let mut b = a;
    while b < line.len() && !white_space(line[b])
        invariant
            a <= b <= line.len(),
            t == line@.skip(a as int),
            word_end_from(t, 0) == word_end_from(t, b - a),
        decreases line.len() - b,
    {
        assert(t[b - a] == line@[b as int]);
        b = b + 1;
    }
    proof {
        if b < line.len() {
            assert(t[b - a] == line@[b as int]);
        }
    }
    let word = slice(line, a, b);
    assert(word@ =~= t.take(b - a));
    if ipv4_text(&word) {
        Some(word)
    } else {
        None
    }
}

proof fn lemma_lists_neighbor_step(lines: Seq<Seq<char>>, a: Seq<char>)
    requires
        lines.len() > 0,
    ensures
        lists_neighbor(lines, a) == (lists_neighbor(lines.drop_last(), a) || neighbor_address(
            lines.last(),
        ) == Some(a)),
{
    let p = lines.drop_last();
    let n = lines.len() - 1;
    assert(lines.last() == lines[n]);
    if lists_neighbor(p, a) {
        let j = choose|j: int| 0 <= j < p.len() && #[trigger] neighbor_address(p[j]) == Some(a);
        assert(lines[j] == p[j]);
    }
    if lists_neighbor(lines, a) {
        let j = choose|j: int|
            0 <= j < lines.len() && #[trigger] neighbor_address(lines[j]) == Some(a);
        if j < n {
            assert(p[j] == lines[j]);
        }
    }
}

/// The neighbour addresses that `output` lists, sorted and each once.
pub fn neighbor_candidates_from_output(output: &str) -> (r: Vec<String>)
    ensures
        strictly_sorted(string_texts(r@)),
        forall|a: Seq<char>|
            string_texts(r@).contains(a) <==> lists_neighbor(lines_of(output@), a),
{
    let ls = lines(&chars_of(output));
    let ghost lv = texts(ls@);
    let mut found: Vec<Vec<char>> = Vec::new();
    let mut i: usize = 0;
    while i < ls.len()
        invariant
            i <= ls.len(),
            lv == texts(ls@),
            strictly_sorted(texts(found@)),
            forall|a: Seq<char>|
                texts(found@).contains(a) <==> lists_neighbor(lv.take(i as int), a),
        decreases ls.len() - i,
    {
        let ghost next = lv.take(i + 1);
        assert(next.drop_last() =~= lv.take(i as int));
        assert(next.last() == ls[i as int]@);
        let ghost old_found = texts(found@);
        match neighbor_address_of(&ls[i]) {
            Some(w) => {
                insert_sorted(&mut found, w);
            },
            None => {},
        }
        assert forall|a: Seq<char>|
            texts(found@).contains(a) <==> lists_neighbor(next, a) by {
            lemma_lists_neighbor_step(next, a);
        }
        i = i + 1;
    }
    assert(lv.take(ls.len() as int) =~= lv);
    let mut r: Vec<String> = Vec::new();
    let mut k: usize = 0;
    let ghost fv = texts(found@);
    while k < found.len()
        invariant
            k <= found.len(),
            fv == texts(found@),
            string_texts(r@) == fv.take(k as int),
        decreases found.len() - k,
    {
        assert(fv[k as int] == found[k as int]@);
        let s = string_of(&found[k]);
        let ghost before = string_texts(r@);
        r.push(s);
        assert(string_texts(r@) =~= before.push(s@));
        assert(fv.take(k + 1) =~= fv.take(k as int).push(fv[k as int]));
        k = k + 1;
    }
    assert(fv.take(found.len() as int) =~= fv);
    r
}

/// A strictly sorted list is fixed by the texts it holds: two of them with
/// the same texts are the same list. So the candidates are determined by
/// the neighbours listed.
pub proof fn lemma_strictly_sorted_is_unique(a: Seq<Seq<char>>, b: Seq<Seq<char>>)
    requires
        strictly_sorted(a),
        strictly_sorted(b),
        forall|x: Seq<char>| a.contains(x) <==> b.contains(x),
    ensures
        a == b,
    decreases a.len(),
{
    if a.len() == 0 {
        if b.len() > 0 {
            assert(b.contains(b[0]));
        }
        assert(a =~= b);
    } else if b.len() == 0 {
        assert(a.contains(a[0]));
    } else {
        // The first elements are the least of each list, hence equal.
        assert(a.contains(a[0]));
        assert(b.contains(b[0]));
        let i = choose|i: int| 0 <= i < b.len() && b[i] == a[0];
        let j = choose|j: int| 0 <= j < a.len() && a[j] == b[0];
        if i > 0 {
            assert(lex_lt(b[0], b[i]));
            if j > 0 {
                assert(lex_lt(a[0], a[j]));
                lemma_lex_transitive(a[0], b[0], a[0]);
                lemma_lex_irreflexive(a[0]);
            } else {
                lemma_lex_irreflexive(a[0]);
            }
        }
        assert(a[0] == b[0]);
        let a1 = a.drop_first();
        let b1 = b.drop_first();
        assert forall|x: Seq<char>| a1.contains(x) <==> b1.contains(x) by {
            if a1.contains(x) {
                let k = choose|k: int| 0 <= k < a1.len() && a1[k] == x;
                assert(a[k + 1] == x);
                assert(lex_lt(a[0], a[k + 1]));
                assert(b.contains(x));
                let m = choose|m: int| 0 <= m < b.len() && b[m] == x;
                if m == 0 {
                    lemma_lex_irreflexive(x);
                }
                assert(b1[m - 1] == x);
            }
            if b1.contains(x) {
                let k = choose|k: int| 0 <= k < b1.len() && b1[k] == x;
                assert(b[k + 1] == x);
                assert(lex_lt(b[0], b[k + 1]));
                assert(a.contains(x));
                let m = choose|m: int| 0 <= m < a.len() && a[m] == x;
                if m == 0 {
                    lemma_lex_irreflexive(x);
                }
                assert(a1[m - 1] == x);
            }
        }
        lemma_strictly_sorted_is_unique(a1, b1);
        assert(a =~= seq![a[0]] + a1);
        assert(b =~= seq![b[0]] + b1);
    }
}

} // verus!
