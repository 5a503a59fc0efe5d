//! Ranking documents by how many references they hold.
use vstd::prelude::*;

use crate::text::{decimal_text, push_decimal, push_text, text_eq, text_less, text_lt, texts,
    lemma_text_lt_irreflexive, lemma_text_lt_total, lemma_text_lt_transitive};

verus! {

/// How often `p` occurs in `paths`.
pub open spec fn count_of(paths: Seq<Seq<char>>, p: Seq<char>) -> nat
    decreases paths.len(),
{
    if paths.len() == 0 {
        0
    } else {
        count_of(paths.drop_last(), p) + if paths.last() == p { 1nat } else { 0nat }
    }
}

/// `a` ranks before `b`: it occurs more often, or as often and comes first in text order.
pub open spec fn ranks_before(paths: Seq<Seq<char>>, a: Seq<char>, b: Seq<char>) -> bool {
    count_of(paths, a) > count_of(paths, b) || (count_of(paths, a) == count_of(paths, b) && text_lt(a, b))
}

/// `r` lists the `n` top-ranked distinct paths of `paths` (all of them when there are fewer),
/// best first.
pub open spec fn is_top_files(paths: Seq<Seq<char>>, n: nat, r: Seq<Seq<char>>) -> bool {
    &&& r.len() <= n
    &&& forall|i: int, j: int| 0 <= i < j < r.len() ==> ranks_before(paths, #[trigger] r[i], #[trigger] r[j])
    &&& forall|i: int| 0 <= i < r.len() ==> paths.contains(#[trigger] r[i])
    &&& forall|q: Seq<char>|
        #[trigger] paths.contains(q) && !r.contains(q) ==> r.len() == n && forall|i: int|
            0 <= i < r.len() ==> ranks_before(paths, #[trigger] r[i], q)
}

/// The hotspot line of a path: `{path} ({count})`.
pub open spec fn hotspot_line(paths: Seq<Seq<char>>, p: Seq<char>) -> Seq<char> {
    p + " ("@ + decimal_text(count_of(paths, p)) + ")"@
}

/// The lines of the `n` top-ranked paths, best first.
pub open spec fn are_hotspot_lines(paths: Seq<Seq<char>>, n: nat, lines: Seq<Seq<char>>) -> bool {
    exists|r: Seq<Seq<char>>|
        is_top_files(paths, n, r) && lines == r.map_values(|p: Seq<char>| hotspot_line(paths, p))
}

/// A count never exceeds the number of paths.
pub proof fn lemma_count_of_le(paths: Seq<Seq<char>>, p: Seq<char>)
    ensures
        count_of(paths, p) <= paths.len(),
    decreases paths.len(),
{
    if paths.len() > 0 {
        lemma_count_of_le(paths.drop_last(), p);
    }
}

/// A path occurs in the sequence exactly when its count is positive.
pub proof fn lemma_count_of_contains(paths: Seq<Seq<char>>, p: Seq<char>)
    ensures
        count_of(paths, p) > 0 <==> paths.contains(p),
    decreases paths.len(),
{
    if paths.len() > 0 {
        lemma_count_of_contains(paths.drop_last(), p);
        if paths.drop_last().contains(p) {
            let i = choose|i: int| 0 <= i < paths.drop_last().len() && paths.drop_last()[i] == p;
            assert(paths[i] == p);
        }
        if paths.contains(p) && paths.last() != p {
            let i = choose|i: int| 0 <= i < paths.len() && paths[i] == p;
            assert(paths.drop_last()[i] == p);
        }
    }
}

/// The ranking is a strict total order on distinct paths.
pub proof fn lemma_ranks_before_order(paths: Seq<Seq<char>>, a: Seq<char>, b: Seq<char>, c: Seq<char>)
    ensures
        !ranks_before(paths, a, a),
        a != b ==> ranks_before(paths, a, b) || ranks_before(paths, b, a),
        ranks_before(paths, a, b) ==> !ranks_before(paths, b, a),
        ranks_before(paths, a, b) && ranks_before(paths, b, c) ==> ranks_before(paths, a, c),
{
    lemma_text_lt_irreflexive(a);
    if a != b {
        lemma_text_lt_total(a, b);
    }
    if text_lt(a, b) && text_lt(b, a) {
        lemma_text_lt_transitive(a, b, a);
    }
    if text_lt(a, b) && text_lt(b, c) {
        lemma_text_lt_transitive(a, b, c);
    }
}

/// Occurrences after appending one more path.
proof fn lemma_after_push(before: Seq<Seq<char>>, after: Seq<Seq<char>>, x: Seq<char>)
    requires
        after.drop_last() == before,
        after.len() == before.len() + 1,
        after.last() == x,
    ensures
        forall|q: Seq<char>| #[trigger] count_of(after, q) == count_of(before, q) + if q == x { 1nat } else { 0nat },
        forall|q: Seq<char>| #[trigger] after.contains(q) <==> before.contains(q) || q == x,
{
    assert forall|q: Seq<char>| #[trigger] after.contains(q) <==> before.contains(q) || q == x by {
        if after.contains(q) && q != x {
            let i = choose|i: int| 0 <= i < after.len() && after[i] == q;
            assert(i < before.len());
            assert(before[i] == q);
        }
        if before.contains(q) {
            let i = choose|i: int| 0 <= i < before.len() && before[i] == q;
            assert(after[i] == q);
        }
        if q == x {
            assert(after[after.len() - 1] == x);
        }
    }
}

/// The distinct paths of `paths` with how often each occurs, in order of first occurrence.
fn count_paths(paths: &Vec<String>) -> (r: (Vec<String>, Vec<usize>))
    ensures
        r.0@.len() == r.1@.len(),
        forall|i: int, j: int| 0 <= i < j < r.0@.len() ==> (#[trigger] r.0@[i])@ != (#[trigger] r.0@[j])@,
        forall|i: int| 0 <= i < r.0@.len() ==> r.1@[i] == count_of(texts(paths@), (#[trigger] r.0@[i])@),
        forall|q: Seq<char>| #[trigger] texts(paths@).contains(q) <==> texts(r.0@).contains(q),
{
    let mut names: Vec<String> = Vec::new();
    let mut counts: Vec<usize> = Vec::new();
    let mut k: usize = 0;
    while k < paths.len()
        invariant
            k <= paths@.len(),
            names@.len() == counts@.len(),
            forall|i: int, j: int| 0 <= i < j < names@.len() ==> (#[trigger] names@[i])@ != (#[trigger] names@[j])@,
            forall|i: int|
                0 <= i < names@.len() ==> counts@[i] == count_of(texts(paths@).subrange(0, k as int), (#[trigger] names@[i])@),
            forall|q: Seq<char>| #[trigger] texts(paths@).subrange(0, k as int).contains(q) <==> texts(names@).contains(q),
        decreases paths@.len() - k,
    {
        let x = &paths[k];
        let ghost before = texts(paths@).subrange(0, k as int);
        let ghost after = texts(paths@).subrange(0, (k + 1) as int);
        let ghost old_names = names@;
        let ghost old_counts = counts@;
        assert(after.drop_last() =~= before);
        assert(after.last() == x@);
        proof {
            lemma_after_push(before, after, x@);
        }
        let mut j: usize = 0;
        let mut found = false;
        while j < names.len()
            invariant_except_break
                j <= names@.len(),
                !found,
                forall|i: int| 0 <= i < j ==> (#[trigger] names@[i])@ != x@,
            ensures
                found ==> j < names@.len() && names@[j as int]@ == x@,
                !found ==> forall|i: int| 0 <= i < names@.len() ==> (#[trigger] names@[i])@ != x@,
            decreases names@.len() - j,
        {
            if text_eq(names[j].as_str(), x.as_str()) {
                found = true;
                break;
            }
            j = j + 1;
        }
        if found {
            proof {
                lemma_count_of_le(before, x@);
            }
            let c = counts[j] + 1;
            counts.set(j, c);
            assert(texts(names@)[j as int] == x@);
            assert(texts(names@).contains(x@));
            assert forall|i: int| 0 <= i < names@.len() implies counts@[i] == count_of(after, (#[trigger] names@[i])@) by {
                if i != j {
                    assert(names@[i]@ != x@);
                }
            }
        } else {
            proof {
                assert(!texts(old_names).contains(x@)) by {
                    if texts(old_names).contains(x@) {
                        let i = choose|i: int| 0 <= i < texts(old_names).len() && texts(old_names)[i] == x@;
                        assert(old_names[i]@ == x@);
                    }
                }
                lemma_count_of_contains(before, x@);
            }
            names.push(x.clone());
            counts.push(1);
            assert(texts(names@) =~= texts(old_names).push(x@));
            assert forall|i: int| 0 <= i < names@.len() implies counts@[i] == count_of(after, (#[trigger] names@[i])@) by {
                if i < old_names.len() {
                    assert(names@[i] == old_names[i]);
                    assert(names@[i]@ != x@);
                }
            }
            assert(texts(names@).drop_last() =~= texts(old_names));
            proof {
                lemma_after_push(texts(old_names), texts(names@), x@);
            }
        }
        k = k + 1;
    }
    assert(texts(paths@).subrange(0, paths@.len() as int) =~= texts(paths@));
    (names, counts)
}

/// `q` is one of the first `k` names.
pub open spec fn among_first(names: Seq<String>, k: int, q: Seq<char>) -> bool {
    exists|i: int| 0 <= i < k && (#[trigger] names[i])@ == q
}

/// `q` is the path of one of the ranked entries.
pub open spec fn is_ranked(ranked: Seq<(String, usize)>, q: Seq<char>) -> bool {
    exists|i: int| 0 <= i < ranked.len() && (#[trigger] ranked[i]).0@ == q
}

/// Whether the path `a` (occurring `ca` times) ranks before `b` (occurring `cb` times).
fn ranks_before_exec(a: &String, ca: usize, b: &String, cb: usize, Ghost(paths): Ghost<Seq<Seq<char>>>) -> (r: bool)
    requires
        ca == count_of(paths, a@),
        cb == count_of(paths, b@),
    ensures
        r == ranks_before(paths, a@, b@),
{
    ca > cb || (ca == cb && text_less(a.as_str(), b.as_str()))
}

/// The distinct paths of `paths` ranked best first, each with its count.
fn rank_all(paths: &Vec<String>) -> (r: Vec<(String, usize)>)
    ensures
        forall|i: int, j: int|
            0 <= i < j < r@.len() ==> ranks_before(texts(paths@), (#[trigger] r@[i]).0@, (#[trigger] r@[j]).0@),
        forall|i: int| 0 <= i < r@.len() ==> (#[trigger] r@[i]).1 == count_of(texts(paths@), r@[i].0@),
        forall|q: Seq<char>| #[trigger] texts(paths@).contains(q) <==> is_ranked(r@, q),
{
    let ghost all = texts(paths@);
    let (names, counts) = count_paths(paths);
    let mut sorted: Vec<(String, usize)> = Vec::new();
    let mut k: usize = 0;
    while k < names.len()
        invariant
            all == texts(paths@),
            names@.len() == counts@.len(),
            k <= names@.len(),
            forall|i: int, j: int| 0 <= i < j < names@.len() ==> (#[trigger] names@[i])@ != (#[trigger] names@[j])@,
            forall|i: int| 0 <= i < names@.len() ==> counts@[i] == count_of(all, (#[trigger] names@[i])@),
            forall|i: int, j: int|
                0 <= i < j < sorted@.len() ==> ranks_before(all, (#[trigger] sorted@[i]).0@, (#[trigger] sorted@[j]).0@),
            forall|i: int| 0 <= i < sorted@.len() ==> (#[trigger] sorted@[i]).1 == count_of(all, sorted@[i].0@),
            forall|q: Seq<char>|
                #![trigger among_first(names@, k as int, q)]
                #![trigger is_ranked(sorted@, q)]
                among_first(names@, k as int, q) <==> is_ranked(sorted@, q),
        decreases names@.len() - k,
    {
        let x = &names[k];
        let cx = counts[k];
        let ghost xs = x@;
        let ghost before = sorted@;
        assert(forall|i: int| 0 <= i < k ==> (#[trigger] names@[i])@ != xs);
        let mut p: usize = 0;
        loop
            invariant_except_break
                xs == x@,
                cx == count_of(all, xs),
                before == sorted@,
                p <= sorted@.len(),
                forall|i: int| 0 <= i < sorted@.len() ==> (#[trigger] sorted@[i]).1 == count_of(all, sorted@[i].0@),
                forall|j: int| 0 <= j < p ==> ranks_before(all, (#[trigger] sorted@[j]).0@, xs),
            ensures
                before == sorted@,
                p <= sorted@.len(),
                forall|j: int| 0 <= j < p ==> ranks_before(all, (#[trigger] sorted@[j]).0@, xs),
                p < sorted@.len() ==> !ranks_before(all, sorted@[p as int].0@, xs),
            decreases sorted@.len() - p,
        {
            if p >= sorted.len() {
                break;
            }
            if !ranks_before_exec(&sorted[p].0, sorted[p].1, x, cx, Ghost(all)) {
                break;
            }
            p = p + 1;
        }
        proof {
            if p < before.len() {
                assert(before[p as int].0@ != xs) by {
                    assert(is_ranked(before, before[p as int].0@));
                }
                lemma_ranks_before_order(all, before[p as int].0@, xs, xs);
            }
        }
        sorted.insert(p, (x.clone(), cx));
        proof {
            let after = sorted@;
            assert(after[p as int].0@ == xs);
            assert forall|i: int, j: int| 0 <= i < j < after.len() implies ranks_before(all, (#[trigger] after[i]).0@, (#[trigger] after[j]).0@) by {
                if j < p {
                    assert(after[i] == before[i] && after[j] == before[j]);
                } else if j == p {
                    assert(after[i] == before[i]);
                } else if i < p {
                    assert(after[i] == before[i] && after[j] == before[j - 1]);
                    if p < j - 1 {
                        lemma_ranks_before_order(all, xs, before[p as int].0@, before[j - 1].0@);
                    }
                    lemma_ranks_before_order(all, after[i].0@, xs, after[j].0@);
                } else if i == p {
                    assert(after[j] == before[j - 1]);
                    if p < j - 1 {
                        lemma_ranks_before_order(all, xs, before[p as int].0@, before[j - 1].0@);
                    }
                } else {
                    assert(after[i] == before[i - 1] && after[j] == before[j - 1]);
                }
            }
            assert forall|i: int| 0 <= i < after.len() implies (#[trigger] after[i]).1 == count_of(all, after[i].0@) by {
                if i < p {
                    assert(after[i] == before[i]);
                } else if i > p {
                    assert(after[i] == before[i - 1]);
                }
            }
            assert forall|q: Seq<char>|
                #![trigger among_first(names@, k + 1, q)]
                #![trigger is_ranked(after, q)]
                among_first(names@, k + 1, q) <==> is_ranked(after, q) by {
                if among_first(names@, k + 1, q) {
                    let i = choose|i: int| 0 <= i < k + 1 && (#[trigger] names@[i])@ == q;
                    if i == k {
                        assert(after[p as int].0@ == q);
                    } else {
                        assert(among_first(names@, k as int, q));
                        let m = choose|m: int| 0 <= m < before.len() && (#[trigger] before[m]).0@ == q;
                        if m < p {
                            assert(after[m] == before[m]);
                        } else {
                            assert(after[m + 1] == before[m]);
                        }
                    }
                }
                if is_ranked(after, q) {
                    let i = choose|i: int| 0 <= i < after.len() && (#[trigger] after[i]).0@ == q;
                    if i == p {
                        assert(names@[k as int]@ == q);
                    } else {
                        let m = if i < p { i } else { i - 1 };
                        assert(after[i] == before[m]);
                        assert(is_ranked(before, q));
                    }
                }
            }
        }
        k = k + 1;
    }
    assert forall|q: Seq<char>| #[trigger] all.contains(q) <==> is_ranked(sorted@, q) by {
        if all.contains(q) {
            assert(texts(names@).contains(q));
            let i = choose|i: int| 0 <= i < texts(names@).len() && texts(names@)[i] == q;
            assert(names@[i]@ == q);
            assert(among_first(names@, names@.len() as int, q));
        }
        if is_ranked(sorted@, q) {
            assert(among_first(names@, names@.len() as int, q));
            let i = choose|i: int| 0 <= i < names@.len() && (#[trigger] names@[i])@ == q;
            assert(texts(names@)[i] == q);
        }
    }
    sorted
}

/// The lines `{path} ({count})` of the `n` paths that occur most often in `paths` (ties in
/// text order), best first.
pub fn hotspot_lines(paths: &Vec<String>, n: usize) -> (r: Vec<String>)
    ensures
        are_hotspot_lines(texts(paths@), n as nat, texts(r@)),
{
    let ghost all = texts(paths@);
    let ranked = rank_all(paths);
    let mut lines: Vec<String> = Vec::new();
    let mut i: usize = 0;
    while i < ranked.len() && i < n
        invariant
            all == texts(paths@),
            i <= ranked@.len(),
            i <= n,
            forall|a: int| 0 <= a < ranked@.len() ==> (#[trigger] ranked@[a]).1 == count_of(all, ranked@[a].0@),
            lines@.len() == i,
            forall|a: int| 0 <= a < i ==> (#[trigger] lines@[a])@ == hotspot_line(all, ranked@[a].0@),
        decreases ranked@.len() - i,
    {
        let (path, count) = (&ranked[i].0, ranked[i].1);
        let mut line = String::new();
        push_text(&mut line, path.as_str());
        push_text(&mut line, " (");
        push_decimal(&mut line, count as u64);
        push_text(&mut line, ")");
        assert(line@ =~= hotspot_line(all, ranked@[i as int].0@));
        lines.push(line);
        i = i + 1;
    }
    let ghost top = ranked@.subrange(0, i as int).map_values(|e: (String, usize)| e.0@);
    proof {
        assert forall|q: Seq<char>| #[trigger] all.contains(q) && !top.contains(q) implies top.len() == n && forall|a: int|
            0 <= a < top.len() ==> ranks_before(all, #[trigger] top[a], q) by {
            assert(is_ranked(ranked@, q));
            let m = choose|m: int| 0 <= m < ranked@.len() && (#[trigger] ranked@[m]).0@ == q;
            if m < i {
                assert(top[m] == q);
            }
            assert forall|a: int| 0 <= a < top.len() implies ranks_before(all, #[trigger] top[a], q) by {
                assert(top[a] == ranked@[a].0@);
            }
        }
        assert forall|a: int| 0 <= a < top.len() implies all.contains(#[trigger] top[a]) by {
            assert(top[a] == ranked@[a].0@);
            assert(is_ranked(ranked@, top[a]));
        }
        assert forall|a: int, b: int| 0 <= a < b < top.len() implies ranks_before(all, #[trigger] top[a], #[trigger] top[b]) by {
            assert(top[a] == ranked@[a].0@);
            assert(top[b] == ranked@[b].0@);
        }
        assert(is_top_files(all, n as nat, top));
        assert(texts(lines@) =~= top.map_values(|p: Seq<char>| hotspot_line(all, p)));
    }
    lines
}

} // verus!
