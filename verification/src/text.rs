//! Character-level string helpers shared by the identifier, error and query modules.
use vstd::prelude::*;
use vstd::string::StringExecFns;

verus! {

/// The decimal digit character for `d` (which is below ten).
pub open spec fn digit_char(d: nat) -> char {
    (48 + d) as char
}

/// The decimal text of a natural number, without sign or leading zeros.
pub open spec fn decimal_text(n: nat) -> Seq<char>
    decreases n,
{
    if n < 10 {
        seq![digit_char(n)]
    } else {
        decimal_text(n / 10).push(digit_char(n % 10))
    }
}

/// What `char::to_lowercase` yields for one character (Unicode lower-case mapping).
pub uninterp spec fn char_lowercase(c: char) -> Seq<char>;

/// What the `Debug` formatting of a string slice writes: the text quoted and escaped.
pub uninterp spec fn debug_quoted(s: Seq<char>) -> Seq<char>;

/// Appends one character to a string: `String::push`.
#[verifier::external_body]
pub(crate) fn push_char(s: &mut String, c: char)
    ensures
        final(s)@ == old(s)@.push(c),
{
    s.push(c);
}

/// Appends a string slice to a string.
pub(crate) fn push_text(s: &mut String, t: &str)
    ensures
        final(s)@ == old(s)@ + t@,
{
    s.append(t);
}

/// Whether two string slices hold the same text, compared character by character.
pub(crate) fn text_eq(a: &str, b: &str) -> (r: bool)
    ensures
        r == (a@ == b@),
{
    let n = a.unicode_len();
    let m = b.unicode_len();
    if n != m {
        return false;
    }
    let mut i: usize = 0;
    while i < n
        invariant
            n == a@.len(),
            m == b@.len(),
            n == m,
            i <= n,
            a@.subrange(0, i as int) == b@.subrange(0, i as int),
        decreases n - i,
    {
        let x = a.get_char(i);
        let y = b.get_char(i);
        if x != y {
            assert(a@[i as int] != b@[i as int]);
            return false;
        }
        assert(a@.subrange(0, (i + 1) as int) =~= a@.subrange(0, i as int).push(x));
        assert(b@.subrange(0, (i + 1) as int) =~= b@.subrange(0, i as int).push(y));
        i = i + 1;
    }
    assert(a@ =~= a@.subrange(0, n as int));
    assert(b@ =~= b@.subrange(0, n as int));
    true
}

/// The ASCII lower-case form of a character: `A` to `Z` become `a` to `z`, every other
/// character stays.
pub open spec fn ascii_lower_char(c: char) -> char {
    if 65 <= (c as u32) <= 90 {
        ((c as u32) + 32) as char
    } else {
        c
    }
}

/// Whether a character is ASCII.
pub open spec fn is_ascii_char(c: char) -> bool {
    (c as u32) < 128
}

/// The characters of `char::to_lowercase(c)`, collected in order. As std documents (by
/// pointing to `to_lowercase` for what `to_ascii_lowercase` leaves out), an ASCII character
/// lower-cases to its single ASCII lower-case form.
#[verifier::external_body]
pub(crate) fn lowercase_of(c: char) -> (r: Vec<char>)
    ensures
        r@ == char_lowercase(c),
        is_ascii_char(c) ==> r@ == seq![ascii_lower_char(c)],
{
    c.to_lowercase().collect()
}

/// The `Debug` text of a string slice (`<str as Debug>::fmt`): quoted and escaped.
#[verifier::external_body]
pub(crate) fn debug_quote(s: &str) -> (r: String)
    ensures
        r@ == debug_quoted(s@),
{
    format!("{:?}", s)
}

/// The characters of a string slice, in order.
pub fn chars_of(s: &str) -> (r: Vec<char>)
    ensures
        r@ == s@,
{
    let n = s.unicode_len();
    let mut out: Vec<char> = Vec::new();
    let mut i: usize = 0;
    while i < n
        invariant
            n == s@.len(),
            i <= n,
            out@ == s@.subrange(0, i as int),
        decreases n - i,
    {
        let c = s.get_char(i);
        out.push(c);
        assert(out@ =~= s@.subrange(0, (i + 1) as int));
        i = i + 1;
    }
    assert(out@ =~= s@);
    out
}

/// A string holding exactly the given characters.
pub fn string_from_chars(cs: &Vec<char>) -> (r: String)
    ensures
        r@ == cs@,
{
    let mut out = String::new();
    let mut i: usize = 0;
    while i < cs.len()
        invariant
            i <= cs@.len(),
            out@ == cs@.subrange(0, i as int),
        decreases cs@.len() - i,
    {
        push_char(&mut out, cs[i]);
        assert(out@ =~= cs@.subrange(0, (i + 1) as int));
        i = i + 1;
    }
    assert(out@ =~= cs@);
    out
}

/// A copy of a string slice as an owned string.
pub fn owned(s: &str) -> (r: String)
    ensures
        r@ == s@,
{
    s.to_owned()
}

/// The decimal digits of `n`, most significant first.
pub fn decimal_chars(n: u64) -> (r: Vec<char>)
    ensures
        r@ == decimal_text(n as nat),
    decreases n,
{
    let d: u64 = n % 10;
    let c: char = if d == 0 { '0' } else if d == 1 { '1' } else if d == 2 { '2' } else if d == 3 {
        '3'
    } else if d == 4 { '4' } else if d == 5 { '5' } else if d == 6 { '6' } else if d == 7 {
        '7'
    } else if d == 8 { '8' } else { '9' };
    assert(c == digit_char(d as nat));
    if n < 10 {
        let mut v: Vec<char> = Vec::new();
        v.push(c);
        assert(v@ =~= seq![digit_char(n as nat)]);
        v
    } else {
        let mut v = decimal_chars(n / 10);
        v.push(c);
        v
    }
}

/// Appends the decimal text of `n` to `s`.
pub fn push_decimal(s: &mut String, n: u64)
    ensures
        final(s)@ == old(s)@ + decimal_text(n as nat),
{
    let digits = decimal_chars(n);
    let t = string_from_chars(&digits);
    push_text(s, t.as_str());
}

/// The decimal text of a natural number consists of digit characters only.
pub proof fn lemma_decimal_text_digits(n: nat)
    ensures
        decimal_text(n).len() >= 1,
        forall|i: int|
            0 <= i < decimal_text(n).len() ==> '0' <= #[trigger] decimal_text(n)[i] <= '9',
    decreases n,
{
    if n >= 10 {
        lemma_decimal_text_digits(n / 10);
    }
}

/// `s` starts with `p` when `p` is a prefix of it.
pub open spec fn has_prefix(s: Seq<char>, p: Seq<char>) -> bool {
    p.len() <= s.len() && s.subrange(0, p.len() as int) == p
}

/// `s` with the prefix `p` removed when it has it; `s` unchanged otherwise
/// (`str::strip_prefix(..).unwrap_or(s)`).
pub open spec fn strip_prefix_or_same(s: Seq<char>, p: Seq<char>) -> Seq<char> {
    if has_prefix(s, p) {
        s.subrange(p.len() as int, s.len() as int)
    } else {
        s
    }
}

/// Removes the prefix `p` from `s` when `s` starts with it, else returns `s` unchanged.
pub fn strip_prefix_or_same_exec(s: &str, p: &str) -> (r: String)
    ensures
        r@ == strip_prefix_or_same(s@, p@),
{
    let sc = chars_of(s);
    let pc = chars_of(p);
    if pc.len() > sc.len() {
        return owned(s);
    }
    let mut i: usize = 0;
    while i < pc.len()
        invariant
            pc@ == p@,
            sc@ == s@,
            pc@.len() <= sc@.len(),
            i <= pc@.len(),
            forall|j: int| 0 <= j < i ==> sc@[j] == pc@[j],
        decreases pc@.len() - i,
    {
        if sc[i] != pc[i] {
            assert(s@.subrange(0, p@.len() as int)[i as int] != p@[i as int]);
            return owned(s);
        }
        i = i + 1;
    }
    assert(s@.subrange(0, p@.len() as int) =~= p@);
    let mut rest: Vec<char> = Vec::new();
    let mut k: usize = pc.len();
    while k < sc.len()
        invariant
            sc@ == s@,
            pc@ == p@,
            pc@.len() <= k <= sc@.len(),
            rest@ == sc@.subrange(pc@.len() as int, k as int),
        decreases sc@.len() - k,
    {
        rest.push(sc[k]);
        assert(rest@ =~= sc@.subrange(pc@.len() as int, (k + 1) as int));
        k = k + 1;
    }
    string_from_chars(&rest)
}

/// The first `n` characters of `s` (all of it when shorter): `s.chars().take(n).collect()`.
pub open spec fn char_prefix(s: Seq<char>, n: nat) -> Seq<char> {
    if s.len() <= n {
        s
    } else {
        s.subrange(0, n as int)
    }
}

/// The first `n` characters of `s` as a new string.
pub fn char_prefix_exec(s: &str, n: usize) -> (r: String)
    ensures
        r@ == char_prefix(s@, n as nat),
{
    let sc = chars_of(s);
    let mut out = String::new();
    let mut i: usize = 0;
    while i < sc.len() && i < n
        invariant
            sc@ == s@,
            i <= sc@.len(),
            i <= n,
            out@ == sc@.subrange(0, i as int),
        decreases sc@.len() - i,
    {
        push_char(&mut out, sc[i]);
        assert(out@ =~= sc@.subrange(0, (i + 1) as int));
        i = i + 1;
    }
    assert(s@.len() <= n ==> out@ =~= s@);
    out
}

/// Lexicographic order of texts by character code: a proper prefix comes first.
pub open spec fn text_lt(a: Seq<char>, b: Seq<char>) -> bool
    decreases a.len(),
{
    if a.len() == 0 {
        b.len() > 0
    } else if b.len() == 0 {
        false
    } else if a[0] != b[0] {
        (a[0] as int) < (b[0] as int)
    } else {
        text_lt(a.drop_first(), b.drop_first())
    }
}

/// No text is below itself.
pub proof fn lemma_text_lt_irreflexive(a: Seq<char>)
    ensures
        !text_lt(a, a),
    decreases a.len(),
{
    if a.len() > 0 {
        lemma_text_lt_irreflexive(a.drop_first());
    }
}

/// Of two different texts one is below the other.
pub proof fn lemma_text_lt_total(a: Seq<char>, b: Seq<char>)
    requires
        a != b,
    ensures
        text_lt(a, b) || text_lt(b, a),
    decreases a.len(),
{
    if a.len() > 0 && b.len() > 0 && a[0] == b[0] {
        if a.drop_first() == b.drop_first() {
            assert(a =~= seq![a[0]] + a.drop_first());
            assert(b =~= seq![b[0]] + b.drop_first());
            assert(a =~= b);
        }
        lemma_text_lt_total(a.drop_first(), b.drop_first());
    } else if a.len() == 0 && b.len() == 0 {
        assert(a =~= b);
    } else if a.len() > 0 && b.len() > 0 {
        assert((a[0] as int) != (b[0] as int));
    }
}

/// The order is transitive.
pub proof fn lemma_text_lt_transitive(a: Seq<char>, b: Seq<char>, c: Seq<char>)
    requires
        text_lt(a, b),
        text_lt(b, c),
    ensures
        text_lt(a, c),
    decreases a.len(),
{
    if a.len() > 0 && b.len() > 0 && c.len() > 0 && a[0] == b[0] && b[0] == c[0] {
        lemma_text_lt_transitive(a.drop_first(), b.drop_first(), c.drop_first());
    }
}

/// The order is asymmetric.
pub proof fn lemma_text_lt_asymmetric(a: Seq<char>, b: Seq<char>)
    requires
        text_lt(a, b),
    ensures
        !text_lt(b, a),
{
    if text_lt(b, a) {
        lemma_text_lt_transitive(a, b, a);
        lemma_text_lt_irreflexive(a);
    }
}

/// Whether `a` comes before `b` in the character-code order.
pub fn text_less(a: &str, b: &str) -> (r: bool)
    ensures
        r == text_lt(a@, b@),
{
    let ac = chars_of(a);
    let bc = chars_of(b);
    let mut i: usize = 0;
    assert(a@.skip(0) =~= a@);
    assert(b@.skip(0) =~= b@);
    while i < ac.len() && i < bc.len()
        invariant
            ac@ == a@,
            bc@ == b@,
            i <= ac@.len(),
            i <= bc@.len(),
            text_lt(a@, b@) == text_lt(a@.skip(i as int), b@.skip(i as int)),
        decreases ac@.len() - i,
    {
        let x = ac[i];
        let y = bc[i];
        assert(a@.skip(i as int)[0] == x);
        assert(b@.skip(i as int)[0] == y);
        if x != y {
            return x < y;
        }
        assert(a@.skip(i as int).drop_first() =~= a@.skip(i + 1));
        assert(b@.skip(i as int).drop_first() =~= b@.skip(i + 1));
        i = i + 1;
    }
    i < bc.len()
}

/// The texts of a sequence of strings.
pub open spec fn texts(v: Seq<String>) -> Seq<Seq<char>> {
    v.map_values(|s: String| s@)
}

/// Strictly increasing in the character-code order (so each text at most once).
pub open spec fn strictly_sorted(v: Seq<Seq<char>>) -> bool {
    forall|i: int, j: int| 0 <= i < j < v.len() ==> text_lt(#[trigger] v[i], #[trigger] v[j])
}

/// The distinct texts of `items`, in increasing order (what a sort followed by `dedup` gives).
pub fn sorted_distinct(items: Vec<String>) -> (r: Vec<String>)
    ensures
        strictly_sorted(texts(r@)),
        texts(r@).to_set() == texts(items@).to_set(),
{
    let mut out: Vec<String> = Vec::new();
    let mut k: usize = 0;
    while k < items.len()
        invariant
            k <= items@.len(),
            strictly_sorted(texts(out@)),
            texts(out@).to_set() == texts(items@.subrange(0, k as int)).to_set(),
        decreases items@.len() - k,
    {
        let x = &items[k];
        let ghost xs = x@;
        let ghost before = texts(out@);
        // first position whose text is not below x
        let mut p: usize = 0;
        loop
            invariant_except_break
                xs == x@,
                p <= out@.len(),
                before == texts(out@),
                forall|j: int| 0 <= j < p ==> text_lt(#[trigger] texts(out@)[j], xs),
            ensures
                p <= out@.len(),
                before == texts(out@),
                forall|j: int| 0 <= j < p ==> text_lt(#[trigger] texts(out@)[j], xs),
                p < out@.len() ==> !text_lt(before[p as int], xs),
            decreases out@.len() - p,
        {
            if p >= out.len() {
                break;
            }
            assert(texts(out@)[p as int] == out@[p as int]@);
            if !text_less(out[p].as_str(), x.as_str()) {
                break;
            }
            p = p + 1;
        }
        assert(items@.subrange(0, (k + 1) as int) =~= items@.subrange(0, k as int).push(items@[k as int]));
        assert(texts(items@.subrange(0, (k + 1) as int)) =~= texts(items@.subrange(0, k as int)).push(xs));
        proof {
            texts(items@.subrange(0, k as int)).lemma_push_to_set_commute(xs);
        }
        if p < out.len() && text_eq(out[p].as_str(), x.as_str()) {
            assert(before[p as int] == xs);
            assert(before.to_set().contains(xs));
            assert(before.to_set().insert(xs) =~= before.to_set());
        } else {
            proof {
                if p < out@.len() {
                    lemma_text_lt_total(before[p as int], xs);
                }
            }
            out.insert(p, x.clone());
            proof {
                let after = texts(out@);
                assert(after =~= before.insert(p as int, xs));
                assert forall|i: int, j: int| 0 <= i < j < after.len() implies text_lt(#[trigger] after[i], #[trigger] after[j]) by {
                    if j < p {
                    } else if i < p && j == p {
                    } else if i < p && j > p {
                        assert(after[j] == before[j - 1]);
                        assert(text_lt(before[p as int], before[j - 1]) || p == j - 1);
                        if p < j - 1 {
                            lemma_text_lt_transitive(xs, before[p as int], before[j - 1]);
                        }
                        lemma_text_lt_transitive(after[i], xs, after[j]);
                    } else if i == p {
                        assert(after[j] == before[j - 1]);
                        if p < j - 1 {
                            lemma_text_lt_transitive(xs, before[p as int], before[j - 1]);
                        }
                    } else {
                        assert(after[i] == before[i - 1]);
                        assert(after[j] == before[j - 1]);
                    }
                }
                assert(after.to_set() =~= before.to_set().insert(xs)) by {
                    assert forall|t: Seq<char>| after.to_set().contains(t) implies before.to_set().insert(xs).contains(t) by {
                        let i = choose|i: int| 0 <= i < after.len() && after[i] == t;
                        if i < p {
                            assert(after[i] == before[i]);
                        } else if i > p {
                            assert(after[i] == before[i - 1]);
                        }
                    }
                    assert forall|t: Seq<char>| before.to_set().insert(xs).contains(t) implies after.to_set().contains(t) by {
                        if t == xs {
                            assert(after[p as int] == xs);
                        } else {
                            let i = choose|i: int| 0 <= i < before.len() && before[i] == t;
                            if i < p {
                                assert(after[i] == t);
                            } else {
                                assert(after[i + 1] == t);
                            }
                        }
                    }
                }
            }
        }
        k = k + 1;
    }
    assert(items@.subrange(0, items@.len() as int) =~= items@);
    out
}

/// `s` ends with `p`.
pub open spec fn has_suffix(s: Seq<char>, p: Seq<char>) -> bool {
    p.len() <= s.len() && s.subrange(s.len() - p.len(), s.len() as int) == p
}

/// `p` occurs somewhere in `s`.
pub open spec fn contains_text(s: Seq<char>, p: Seq<char>) -> bool {
    exists|i: int| 0 <= i && i + p.len() <= s.len() && #[trigger] s.subrange(i, i + p.len()) == p
}

/// Whether the characters of `s` from `at` on start with `p`.
fn matches_at(s: &Vec<char>, p: &Vec<char>, at: usize) -> (r: bool)
    requires
        at + p@.len() <= s@.len(),
    ensures
        r == (s@.subrange(at as int, at + p@.len()) == p@),
{
    let n = s.len();
    let mut i: usize = 0;
    while i < p.len()
        invariant
            n == s@.len(),
            at + p@.len() <= s@.len(),
            i <= p@.len(),
            forall|j: int| 0 <= j < i ==> s@[at + j] == p@[j],
        decreases p@.len() - i,
    {
        if s[at + i] != p[i] {
            assert(s@.subrange(at as int, at + p@.len())[i as int] != p@[i as int]);
            return false;
        }
        i = i + 1;
    }
    assert(s@.subrange(at as int, at + p@.len()) =~= p@);
    true
}

/// Whether `s` starts with `p`.
pub fn starts_with_text(s: &str, p: &str) -> (r: bool)
    ensures
        r == has_prefix(s@, p@),
{
    let sc = chars_of(s);
    let pc = chars_of(p);
    if pc.len() > sc.len() {
        return false;
    }
    matches_at(&sc, &pc, 0)
}

/// Whether `s` ends with `p`.
pub fn ends_with_text(s: &str, p: &str) -> (r: bool)
    ensures
        r == has_suffix(s@, p@),
{
    let sc = chars_of(s);
    let pc = chars_of(p);
    if pc.len() > sc.len() {
        return false;
    }
    matches_at(&sc, &pc, sc.len() - pc.len())
}

/// Whether `p` occurs in `s`.
pub fn contains_text_exec(s: &str, p: &str) -> (r: bool)
    ensures
        r == contains_text(s@, p@),
{
    let sc = chars_of(s);
    let pc = chars_of(p);
    if pc.len() > sc.len() {
        return false;
    }
    if pc.len() == 0 {
        assert(s@.subrange(0int, 0int + p@.len()) =~= p@);
        return true;
    }
    let last = sc.len() - pc.len();
    let mut i: usize = 0;
    while i <= last
        invariant
            sc@ == s@,
            pc@ == p@,
            pc@.len() >= 1,
            last == sc@.len() - pc@.len(),
            last < usize::MAX,
            i <= last + 1,
            forall|j: int| 0 <= j < i ==> #[trigger] s@.subrange(j, j + p@.len()) != p@,
        decreases last + 1 - i,
    {
        if matches_at(&sc, &pc, i) {
            return true;
        }
        i = i + 1;
    }
    false
}

/// The texts joined with `sep` between neighbours.
pub open spec fn join_texts(items: Seq<Seq<char>>, sep: Seq<char>) -> Seq<char>
    decreases items.len(),
{
    if items.len() == 0 {
        Seq::empty()
    } else if items.len() == 1 {
        items[0]
    } else {
        join_texts(items.drop_last(), sep) + sep + items.last()
    }
}

/// Appends the strings, `sep` between neighbours, to `out`.
pub fn push_joined(out: &mut String, items: &Vec<String>, sep: &str)
    ensures
        final(out)@ == old(out)@ + join_texts(texts(items@), sep@),
{
    let ghost start = out@;
    let mut i: usize = 0;
    while i < items.len()
        invariant
            i <= items@.len(),
            out@ == start + join_texts(texts(items@.subrange(0, i as int)), sep@),
        decreases items@.len() - i,
    {
        let ghost prefix = texts(items@.subrange(0, (i + 1) as int));
        assert(prefix.drop_last() =~= texts(items@.subrange(0, i as int)));
        assert(prefix.last() == items@[i as int]@);
        if i > 0 {
            push_text(out, sep);
        }
        push_text(out, items[i].as_str());
        i = i + 1;
    }
    assert(items@.subrange(0, items@.len() as int) =~= items@);
}

} // verus!
