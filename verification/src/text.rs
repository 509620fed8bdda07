//! Character-level string operations with their mathematical meaning:
//! trimming a repeated character, removing every occurrence of a pattern or of
//! a set of characters, and splitting on a separator.
use vstd::prelude::*;

verus! {

broadcast use vstd::string::group_string_axioms;

// ---------------------------------------------------------------------------
// Specifications
// ---------------------------------------------------------------------------

/// `s` with every leading `c` removed.
pub open spec fn trim_start_spec(s: Seq<char>, c: char) -> Seq<char>
    decreases s.len(),
{
    if s.len() > 0 && s[0] == c {
        trim_start_spec(s.drop_first(), c)
    } else {
        s
    }
}

/// `s` with every trailing `c` removed.
pub open spec fn trim_end_spec(s: Seq<char>, c: char) -> Seq<char>
    decreases s.len(),
{
    if s.len() > 0 && s.last() == c {
        trim_end_spec(s.drop_last(), c)
    } else {
        s
    }
}

/// `s` with every leading and every trailing `c` removed (`str::trim_matches`
/// with a single character).
pub open spec fn trim_matches_spec(s: Seq<char>, c: char) -> Seq<char> {
    trim_end_spec(trim_start_spec(s, c), c)
}

/// `s` with the non-overlapping occurrences of `pat`, found from left to
/// right, removed (`str::replace(pat, "")`).
pub open spec fn remove_all_spec(s: Seq<char>, pat: Seq<char>) -> Seq<char>
    decreases s.len(),
{
    if pat.len() == 0 || s.len() < pat.len() {
        s
    } else if s.take(pat.len() as int) == pat {
        remove_all_spec(s.skip(pat.len() as int), pat)
    } else {
        seq![s[0]] + remove_all_spec(s.drop_first(), pat)
    }
}

/// `s` with every character that belongs to `set` removed.
pub open spec fn without_chars_spec(s: Seq<char>, set: Seq<char>) -> Seq<char>
    decreases s.len(),
{
    if s.len() == 0 {
        s
    } else if set.contains(s.last()) {
        without_chars_spec(s.drop_last(), set)
    } else {
        without_chars_spec(s.drop_last(), set).push(s.last())
    }
}

/// The pieces of `s` between occurrences of the separator `c`
/// (`str::split` with a single character): one more piece than there are
/// separators.
pub open spec fn split_spec(s: Seq<char>, c: char) -> Seq<Seq<char>>
    decreases s.len(),
{
    if s.len() == 0 {
        seq![Seq::<char>::empty()]
    } else {
        let rest = split_spec(s.drop_last(), c);
        if s.last() == c {
            rest.push(Seq::<char>::empty())
        } else {
            rest.update(rest.len() - 1, rest.last().push(s.last()))
        }
    }
}

/// `t` occurs in `s` as a contiguous piece.
pub open spec fn is_substring(t: Seq<char>, s: Seq<char>) -> bool {
    exists|i: int| 0 <= i && i + t.len() <= s.len() && #[trigger] s.subrange(i, i + t.len()) == t
}

// ---------------------------------------------------------------------------
// Lemmas
// ---------------------------------------------------------------------------

/// Trimming the front stops at the first character that differs from `c`.
pub proof fn lemma_trim_start_at(s: Seq<char>, c: char, a: int)
    requires
        0 <= a <= s.len(),
        forall|j: int| 0 <= j < a ==> s[j] == c,
        a == s.len() || s[a] != c,
    ensures
        trim_start_spec(s, c) == s.skip(a),
    decreases a,
{
    if a == 0 {
        assert(s.skip(0) =~= s);
    } else {
        lemma_trim_start_at(s.drop_first(), c, a - 1);
        assert(s.drop_first().skip(a - 1) =~= s.skip(a));
    }
}

/// Trimming the back stops after the last character that differs from `c`.
pub proof fn lemma_trim_end_at(s: Seq<char>, c: char, b: int)
    requires
        0 <= b <= s.len(),
        forall|j: int| b <= j < s.len() ==> s[j] == c,
        b == 0 || s[b - 1] != c,
    ensures
        trim_end_spec(s, c) == s.take(b),
    decreases s.len() - b,
{
    if b == s.len() {
        assert(s.take(b) =~= s);
    } else {
        lemma_trim_end_at(s.drop_last(), c, b);
        assert(s.drop_last().take(b) =~= s.take(b));
    }
}

/// Trimming the back twice is trimming it once.
pub proof fn lemma_trim_end_idempotent(s: Seq<char>, c: char)
    ensures
        trim_end_spec(trim_end_spec(s, c), c) == trim_end_spec(s, c),
    decreases s.len(),
{
    if s.len() > 0 && s.last() == c {
        lemma_trim_end_idempotent(s.drop_last(), c);
    }
}

/// The result of trimming the back starts like its input unless it is empty.
proof fn lemma_trim_end_keeps_first(s: Seq<char>, c: char)
    requires
        s.len() > 0,
        s[0] != c,
    ensures
        trim_end_spec(s, c).len() > 0,
        trim_end_spec(s, c)[0] == s[0],
    decreases s.len(),
{
    if s.last() == c {
        assert(s.len() > 1);
        lemma_trim_end_keeps_first(s.drop_last(), c);
    }
}

/// Trimming the front leaves nothing that starts with `c`.
proof fn lemma_trim_start_first(s: Seq<char>, c: char)
    ensures
        trim_start_spec(s, c).len() > 0 ==> trim_start_spec(s, c)[0] != c,
    decreases s.len(),
{
    if s.len() > 0 && s[0] == c {
        lemma_trim_start_first(s.drop_first(), c);
    }
}

/// Trimming both ends twice is trimming them once.
pub proof fn lemma_trim_matches_idempotent(s: Seq<char>, c: char)
    ensures
        trim_matches_spec(trim_matches_spec(s, c), c) == trim_matches_spec(s, c),
{
    let t = trim_start_spec(s, c);
    let u = trim_end_spec(t, c);
    lemma_trim_start_first(s, c);
    if u.len() > 0 {
        assert(t.len() > 0);
        lemma_trim_end_keeps_first(t, c);
        assert(trim_start_spec(u, c) == u);
    } else {
        assert(trim_start_spec(u, c) == u);
    }
    lemma_trim_end_idempotent(t, c);
}

/// Surrounding a text with one more `c` on each side does not change what
/// trimming `c` gives.
pub proof fn lemma_trim_matches_wrapped(s: Seq<char>, c: char)
    ensures
        trim_matches_spec(seq![c] + s + seq![c], c) == trim_matches_spec(s, c),
{
    let w = seq![c] + s + seq![c];
    assert(w.drop_first() =~= s + seq![c]);
    assert(trim_start_spec(w, c) == trim_start_spec(s + seq![c], c));
    lemma_trim_start_append_end(s, c);
}

/// Trimming the front of `s` followed by `c`, then trimming the back, is the
/// same as doing so on `s`.
proof fn lemma_trim_start_append_end(s: Seq<char>, c: char)
    ensures
        trim_end_spec(trim_start_spec(s + seq![c], c), c) == trim_end_spec(trim_start_spec(s, c), c),
    decreases s.len(),
{
    let sc = s + seq![c];
    if s.len() == 0 {
        assert(sc =~= seq![c]);
        assert(sc.drop_first() =~= Seq::<char>::empty());
        assert(trim_start_spec(sc, c) == trim_start_spec(Seq::<char>::empty(), c));
    } else if s[0] == c {
        assert(sc.drop_first() =~= s.drop_first() + seq![c]);
        lemma_trim_start_append_end(s.drop_first(), c);
    } else {
        assert(trim_start_spec(sc, c) == sc);
        assert(trim_start_spec(s, c) == s);
        assert(sc.drop_last() =~= s);
    }
}

/// Removing the characters of `set` leaves none of them.
pub proof fn lemma_without_chars_excludes(s: Seq<char>, set: Seq<char>)
    ensures
        forall|c: char| set.contains(c) ==> !(#[trigger] without_chars_spec(s, set).contains(c)),
    decreases s.len(),
{
    if s.len() > 0 {
        lemma_without_chars_excludes(s.drop_last(), set);
        let rest = without_chars_spec(s.drop_last(), set);
        if !set.contains(s.last()) {
            assert forall|c: char| set.contains(c) implies !rest.push(s.last()).contains(c) by {
                if rest.push(s.last()).contains(c) {
                    let k = choose|k: int| 0 <= k < rest.push(s.last()).len() && rest.push(s.last())[k] == c;
                    if k < rest.len() {
                        assert(rest.contains(c));
                    }
                }
            }
        }
    }
}

/// Splitting always yields at least one piece.
pub proof fn lemma_split_nonempty(s: Seq<char>, c: char)
    ensures
        split_spec(s, c).len() >= 1,
    decreases s.len(),
{
    if s.len() > 0 {
        lemma_split_nonempty(s.drop_last(), c);
    }
}

/// A text without the separator is one piece: itself.
pub proof fn lemma_split_without_separator(s: Seq<char>, c: char)
    requires
        !s.contains(c),
    ensures
        split_spec(s, c) == seq![s],
    decreases s.len(),
{
    if s.len() > 0 {
        let d = s.drop_last();
        assert(!d.contains(c)) by {
            if d.contains(c) {
                let k = choose|k: int| 0 <= k < d.len() && d[k] == c;
                assert(s[k] == c);
            }
        }
        lemma_split_without_separator(d, c);
        assert(s[s.len() - 1] == s.last());
        assert(s.last() != c);
        assert(d.push(s.last()) =~= s);
        assert(seq![d].last() == d);
        assert(seq![d].update(0, d.push(s.last())) =~= seq![s]);
    } else {
        assert(s =~= Seq::<char>::empty());
    }
}

/// Splitting `s`, a separator, then `t` gives the pieces of `s` followed by
/// the pieces of `t`.
pub proof fn lemma_split_concat(s: Seq<char>, t: Seq<char>, c: char)
    ensures
        split_spec(s + seq![c] + t, c) == split_spec(s, c) + split_spec(t, c),
    decreases t.len(),
{
    let w = s + seq![c] + t;
    if t.len() == 0 {
        assert(w.drop_last() =~= s);
        assert(w.last() == c);
        assert(split_spec(s, c).push(Seq::<char>::empty()) =~= split_spec(s, c) + seq![Seq::<char>::empty()]);
    } else {
        let t1 = t.drop_last();
        assert(w.drop_last() =~= s + seq![c] + t1);
        assert(w.last() == t.last());
        lemma_split_concat(s, t1, c);
        lemma_split_nonempty(t1, c);
        let a = split_spec(s, c);
        let b = split_spec(t1, c);
        if t.last() == c {
            assert((a + b).push(Seq::<char>::empty()) =~= a + b.push(Seq::<char>::empty()));
        } else {
            assert((a + b).update((a + b).len() - 1, (a + b).last().push(t.last())) =~= a + b.update(
                b.len() - 1,
                b.last().push(t.last()),
            ));
        }
    }
}

/// Removing a pattern that does not occur changes nothing.
pub proof fn lemma_remove_all_absent(s: Seq<char>, pat: Seq<char>)
    requires
        pat.len() > 0,
        !is_substring(pat, s),
    ensures
        remove_all_spec(s, pat) == s,
    decreases s.len(),
{
    if s.len() >= pat.len() {
        if s.take(pat.len() as int) == pat {
            let z: int = 0;
            assert(s.subrange(z, z + pat.len()) =~= s.take(pat.len() as int));
            assert(is_substring(pat, s));
        }
        let d = s.drop_first();
        assert(!is_substring(pat, d)) by {
            if is_substring(pat, d) {
                let i = choose|i: int| 0 <= i && i + pat.len() <= d.len() && #[trigger] d.subrange(i, i + pat.len()) == pat;
                assert(s.subrange(i + 1, (i + 1) + pat.len()) =~= d.subrange(i, i + pat.len()));
                assert(is_substring(pat, s));
            }
        }
        lemma_remove_all_absent(d, pat);
        assert(seq![s[0]] + d =~= s);
    }
}

/// Removing a pattern from the pattern followed by a text in which it does
/// not occur leaves that text.
pub proof fn lemma_remove_all_leading(pat: Seq<char>, t: Seq<char>)
    requires
        pat.len() > 0,
        !is_substring(pat, t),
    ensures
        remove_all_spec(pat + t, pat) == t,
{
    let w = pat + t;
    assert(w.take(pat.len() as int) =~= pat);
    assert(w.skip(pat.len() as int) =~= t);
    lemma_remove_all_absent(t, pat);
}

/// Removing characters none of which occur changes nothing.
pub proof fn lemma_without_chars_none(s: Seq<char>, set: Seq<char>)
    requires
        forall|i: int| 0 <= i < s.len() ==> !set.contains(#[trigger] s[i]),
    ensures
        without_chars_spec(s, set) == s,
    decreases s.len(),
{
    if s.len() > 0 {
        let d = s.drop_last();
        assert forall|i: int| 0 <= i < d.len() implies !set.contains(#[trigger] d[i]) by {
            assert(d[i] == s[i]);
        }
        lemma_without_chars_none(d, set);
        assert(!set.contains(s[s.len() - 1]));
        assert(d.push(s.last()) =~= s);
    }
}

/// Unfolding `remove_all_spec` at position `i` of `s`.
proof fn lemma_remove_all_step(s: Seq<char>, pat: Seq<char>, i: int)
    requires
        pat.len() > 0,
        0 <= i < s.len(),
    ensures
        (i + pat.len() <= s.len() && s.subrange(i, i + pat.len()) == pat) ==> remove_all_spec(
            s.skip(i),
            pat,
        ) == remove_all_spec(s.skip(i + pat.len()), pat),
        !(i + pat.len() <= s.len() && s.subrange(i, i + pat.len()) == pat) ==> remove_all_spec(
            s.skip(i),
            pat,
        ) == seq![s[i]] + remove_all_spec(s.skip(i + 1), pat),
{
    let t = s.skip(i);
    if i + pat.len() <= s.len() {
        assert(t.take(pat.len() as int) =~= s.subrange(i, i + pat.len()));
        assert(t.skip(pat.len() as int) =~= s.skip(i + pat.len()));
        assert(t.drop_first() =~= s.skip(i + 1));
    } else {
        assert(t.len() < pat.len());
        assert(s.skip(i + 1).len() < pat.len());
        assert(t =~= seq![s[i]] + s.skip(i + 1));
    }
}

// ---------------------------------------------------------------------------
// Executable operations
// ---------------------------------------------------------------------------

/// Appends one character to a string.
/// Trusted: `String::push`, which std documents as appending the given
/// character to the end of the string.
#[verifier::external_body]
pub(crate) fn push_char(s: &mut String, c: char)
    ensures
        final(s)@ == old(s)@.push(c),
{
    s.push(c);
}

/// The characters of `s`, in order.
pub fn chars_of(s: &str) -> (r: Vec<char>)
    ensures
        r@ == s@,
{
    let mut r: Vec<char> = Vec::new();
    let n = s.unicode_len();
    let mut i: usize = 0;
    while i < n
        invariant
            n == s@.len(),
            i <= n,
            r@ == s@.take(i as int),
        decreases n - i,
    {
        let c = s.get_char(i);
        r.push(c);
        i = i + 1;
        assert(r@ =~= s@.take(i as int));
    }
    assert(s@.take(n as int) =~= s@);
    r
}

/// The string made of `v[from..to]`.
pub fn string_from_range(v: &Vec<char>, from: usize, to: usize) -> (r: String)
    requires
        from <= to <= v@.len(),
    ensures
        r@ == v@.subrange(from as int, to as int),
{
    let mut r = String::new();
    let mut i: usize = from;
    while i < to
        invariant
            from <= i <= to,
            to <= v@.len(),
            r@ == v@.subrange(from as int, i as int),
        decreases to - i,
    {
        push_char(&mut r, v[i]);
        i = i + 1;
        assert(r@ =~= v@.subrange(from as int, i as int));
    }
    r
}

/// Whether the characters of `s` and `t` are the same.
pub fn same_text(s: &str, t: &str) -> (r: bool)
    ensures
        r == (s@ == t@),
{
    let a = chars_of(s);
    let b = chars_of(t);
    if a.len() != b.len() {
        return false;
    }
    let mut i: usize = 0;
    while i < a.len()
        invariant
            a@ == s@,
            b@ == t@,
            a@.len() == b@.len(),
            i <= a@.len(),
            forall|j: int| 0 <= j < i ==> a@[j] == b@[j],
        decreases a.len() - i,
    {
        if a[i] != b[i] {
            return false;
        }
        i = i + 1;
    }
    assert(a@ =~= b@);
    true
}

/// `s` with every leading and trailing `c` removed.
pub fn trim_char(s: &str, c: char) -> (r: String)
    ensures
        r@ == trim_matches_spec(s@, c),
{
    let v = chars_of(s);
    let n = v.len();
    let mut a: usize = 0;
    while a < n && v[a] == c
        invariant
            n == v@.len(),
            a <= n,
            forall|j: int| 0 <= j < a ==> v@[j] == c,
        decreases n - a,
    {
        a = a + 1;
    }
    let mut b: usize = n;
    while b > a && v[b - 1] == c
        invariant
            n == v@.len(),
            a <= b <= n,
            forall|j: int| b <= j < n ==> v@[j] == c,
        decreases b,
    {
        b = b - 1;
    }
    proof {
        lemma_trim_start_at(v@, c, a as int);
        let t = v@.skip(a as int);
        lemma_trim_end_at(t, c, b - a);
        assert(t.take(b - a) =~= v@.subrange(a as int, b as int));
    }
    string_from_range(&v, a, b)
}

/// Whether `pat` occurs in `v` at position `i`.
fn occurs_at(v: &Vec<char>, pat: &Vec<char>, i: usize) -> (r: bool)
    requires
        i <= v@.len(),
    ensures
        r == (i + pat@.len() <= v@.len() && v@.subrange(i as int, i + pat@.len()) == pat@),
{
    if pat.len() > v.len() - i {
        return false;
    }
    let mut k: usize = 0;
    while k < pat.len()
        invariant
            i + pat@.len() <= v@.len(),
            v@.len() == v.len(),
            k <= pat@.len(),
            forall|j: int| 0 <= j < k ==> v@[i + j] == pat@[j],
        decreases pat.len() - k,
    {
        if v[i + k] != pat[k] {
            assert(v@.subrange(i as int, i + pat@.len())[k as int] != pat@[k as int]);
            return false;
        }
        k = k + 1;
    }
    assert(v@.subrange(i as int, i + pat@.len()) =~= pat@);
    true
}

/// `s` with the occurrences of `pat` removed, as `s.replace(pat, "")` does
/// (an empty pattern leaves `s` as it is).
pub fn remove_all(s: &str, pat: &str) -> (r: String)
    ensures
        r@ == remove_all_spec(s@, pat@),
{
    let v = chars_of(s);
    let p = chars_of(pat);
    if p.len() == 0 {
        return String::from_str(s);
    }
    let mut r = String::new();
    let mut i: usize = 0;
    assert(v@.skip(0) =~= v@);
    while i < v.len()
        invariant
            v@ == s@,
            p@ == pat@,
            p@.len() > 0,
            i <= v@.len(),
            remove_all_spec(v@, p@) == r@ + remove_all_spec(v@.skip(i as int), p@),
        decreases v.len() - i,
    {
        proof {
            lemma_remove_all_step(v@, p@, i as int);
        }
        if occurs_at(&v, &p, i) {
            i = i + p.len();
        } else {
            let ghost before = r@;
            push_char(&mut r, v[i]);
            assert(before + (seq![v@[i as int]] + remove_all_spec(v@.skip(i + 1), p@)) =~= r@
                + remove_all_spec(v@.skip(i + 1), p@));
            i = i + 1;
        }
    }
    assert(v@.skip(i as int) =~= Seq::<char>::empty());
    assert(r@ + Seq::<char>::empty() =~= r@);
    r
}

/// Whether `c` is one of `set`.
pub fn contains_char(set: &[char], c: char) -> (r: bool)
    ensures
        r == set@.contains(c),
{
    let mut i: usize = 0;
    while i < set.len()
        invariant
            i <= set@.len(),
            forall|j: int| 0 <= j < i ==> set@[j] != c,
        decreases set.len() - i,
    {
        if set[i] == c {
            assert(set@[i as int] == c);
            return true;
        }
        i = i + 1;
    }
    false
}

/// `s` with every character of `set` removed, as `s.replace(set, "")` does.
pub fn remove_chars(s: &str, set: &[char]) -> (r: String)
    ensures
        r@ == without_chars_spec(s@, set@),
{
    let v = chars_of(s);
    let mut r = String::new();
    let mut i: usize = 0;
    assert(v@.take(0) =~= Seq::<char>::empty());
    while i < v.len()
        invariant
            v@ == s@,
            i <= v@.len(),
            r@ == without_chars_spec(v@.take(i as int), set@),
        decreases v.len() - i,
    {
        let c = v[i];
        assert(v@.take(i + 1).drop_last() =~= v@.take(i as int));
        if !contains_char(set, c) {
            push_char(&mut r, c);
        }
        i = i + 1;
    }
    assert(v@.take(v@.len() as int) =~= v@);
    r
}


/// The characters of each string of a sequence.
pub open spec fn views_of(v: Seq<String>) -> Seq<Seq<char>> {
    v.map_values(|x: String| x@)
}

/// The pieces of `s` between occurrences of `c`, as `s.split(c)` yields them.
pub fn split_char(s: &str, c: char) -> (r: Vec<String>)
    ensures
        views_of(r@) == split_spec(s@, c),
{
    let v = chars_of(s);
    let mut pieces: Vec<String> = Vec::new();
    let mut cur = String::new();
    let mut i: usize = 0;
    assert(v@.take(0) =~= Seq::<char>::empty());
    assert(views_of(pieces@).push(cur@) =~= split_spec(v@.take(0), c));
    while i < v.len()
        invariant
            v@ == s@,
            i <= v@.len(),
            views_of(pieces@).push(cur@) == split_spec(v@.take(i as int), c),
        decreases v.len() - i,
    {
        let ch = v[i];
        let ghost before = views_of(pieces@).push(cur@);
        assert(v@.take(i + 1).drop_last() =~= v@.take(i as int));
        assert(v@.take(i + 1).last() == ch);
        if ch == c {
            let done = cur;
            pieces.push(done);
            cur = String::new();
            assert(views_of(pieces@) =~= before);
            assert(views_of(pieces@).push(cur@) =~= before.push(Seq::<char>::empty()));
        } else {
            push_char(&mut cur, ch);
            assert(views_of(pieces@).push(cur@) =~= before.update(
                before.len() - 1,
                before.last().push(ch),
            ));
        }
        i = i + 1;
    }
    assert(v@.take(v@.len() as int) =~= v@);
    pieces.push(cur);
    assert(views_of(pieces@) =~= split_spec(s@, c));
    pieces
}

} // verus!
