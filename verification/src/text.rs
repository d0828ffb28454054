//! Small verified helpers on text and on name-keyed tables.

use vstd::prelude::*;
use vstd::string::*;

verus! {

/// Whether two string slices hold the same characters.
pub fn same_text(a: &str, b: &str) -> (r: bool)
    ensures
        r == (a@ == b@),
{
    let sa = String::from_str(a);
    let sb = String::from_str(b);
    sa == sb
}

/// The names of a table whose entries are keyed by a `String`.
pub open spec fn keys_of<T>(entries: Seq<(String, T)>) -> Seq<Seq<char>> {
    entries.map_values(|e: (String, T)| e.0@)
}

/// `i` is the first position at which `name` occurs in `names`.
pub open spec fn first_match(names: Seq<Seq<char>>, name: Seq<char>, i: int) -> bool {
    &&& 0 <= i < names.len()
    &&& names[i] == name
    &&& forall|j: int| 0 <= j < i ==> names[j] != name
}

/// The first position of `name` in `names`, if it occurs there at all.
pub open spec fn position_of(names: Seq<Seq<char>>, name: Seq<char>) -> Option<int> {
    if exists|i: int| first_match(names, name, i) {
        Some(choose|i: int| first_match(names, name, i))
    } else {
        None
    }
}

/// A name occurs at most once at its first position: the first match is unique.
pub proof fn lemma_first_match_unique(names: Seq<Seq<char>>, name: Seq<char>, i: int, k: int)
    requires
        first_match(names, name, i),
        first_match(names, name, k),
    ensures
        i == k,
{
}

/// Where the first match is known, `position_of` gives it.
pub proof fn lemma_position_of_match(names: Seq<Seq<char>>, name: Seq<char>, i: int)
    requires
        first_match(names, name, i),
    ensures
        position_of(names, name) == Some(i),
{
    let k = choose|k: int| first_match(names, name, k);
    lemma_first_match_unique(names, name, i, k);
}

/// Where no position holds the name, `position_of` gives nothing.
pub proof fn lemma_position_of_absent(names: Seq<Seq<char>>, name: Seq<char>)
    requires
        forall|j: int| 0 <= j < names.len() ==> names[j] != name,
    ensures
        position_of(names, name) is None,
{
}

/// Where `position_of` gives nothing, no position holds the name.
pub proof fn lemma_position_of_none(names: Seq<Seq<char>>, name: Seq<char>)
    requires
        position_of(names, name) is None,
    ensures
        forall|j: int| 0 <= j < names.len() ==> names[j] != name,
    decreases names.len(),
{
    if names.len() > 0 {
        let rest = names.drop_last();
        if let Some(p) = position_of(rest, name) {
            assert(first_match(rest, name, p));
            assert forall|j: int| 0 <= j < p implies names[j] != name by {
                assert(names[j] == rest[j]);
            }
            assert(names[p] == rest[p]);
            assert(first_match(names, name, p));
        }
        lemma_position_of_none(rest, name);
        assert forall|j: int| 0 <= j < names.len() implies names[j] != name by {
            if j < names.len() - 1 {
                assert(names[j] == rest[j]);
            } else if names[j] == name {
                assert forall|k: int| 0 <= k < j implies names[k] != name by {
                    assert(names[k] == rest[k]);
                }
                assert(first_match(names, name, j));
            }
        }
    }
}

/// A name's first position after an entry is appended: where it was, else the
/// new last position when the appended name is it.
pub proof fn lemma_position_of_push(names: Seq<Seq<char>>, x: Seq<char>, name: Seq<char>)
    ensures
        position_of(names.push(x), name) == match position_of(names, name) {
            Some(p) => Some(p),
            None => if x == name {
                Some(names.len() as int)
            } else {
                None
            },
        },
{
    let longer = names.push(x);
    match position_of(names, name) {
        Some(p) => {
            assert(first_match(names, name, p));
            assert(first_match(longer, name, p));
            lemma_position_of_match(longer, name, p);
        },
        None => {
            lemma_position_of_none(names, name);
            if x == name {
                assert(first_match(longer, name, names.len() as int));
                lemma_position_of_match(longer, name, names.len() as int);
            } else {
                lemma_position_of_absent(longer, name);
            }
        },
    }
}

/// Finds the first entry of `entries` whose key is `name`.
pub fn position_in<T>(entries: &Vec<(String, T)>, name: &str) -> (r: Option<usize>)
    ensures
        match r {
            Some(i) => position_of(keys_of(entries@), name@) == Some(i as int),
            None => position_of(keys_of(entries@), name@) is None,
        },
{
    let ghost names = keys_of(entries@);
    let mut i: usize = 0;
    while i < entries.len()
        invariant
            i <= entries.len(),
            names == keys_of(entries@),
            forall|j: int| 0 <= j < i ==> names[j] != name@,
        decreases entries.len() - i,
    {
        if same_text(entries[i].0.as_str(), name) {
            proof {
                lemma_position_of_match(names, name@, i as int);
            }
            return Some(i);
        }
        i = i + 1;
    }
    proof {
        lemma_position_of_absent(names, name@);
    }
    None
}


/// `s` without the copies of `c` at its end.
pub open spec fn trim_end_char(s: Seq<char>, c: char) -> Seq<char>
    decreases s.len(),
{
    if s.len() > 0 && s.last() == c {
        trim_end_char(s.drop_last(), c)
    } else {
        s
    }
}

/// `s` without the copies of `c` at its end (as `str::trim_end_matches` with a
/// character pattern gives it).
pub fn trim_end_matches_char(s: &str, c: char) -> (r: String)
    ensures
        r@ == trim_end_char(s@, c),
{
    let mut k = s.unicode_len();
    assert(s@.subrange(0, k as int) == s@);
    while k > 0 && s.get_char(k - 1) == c
        invariant
            k <= s@.len(),
            trim_end_char(s@, c) == trim_end_char(s@.subrange(0, k as int), c),
        decreases k,
    {
        assert(s@.subrange(0, k as int).drop_last() == s@.subrange(0, k - 1));
        k = k - 1;
    }
    String::from_str(s.substring_char(0, k))
}

/// Trimming keeps a prefix of the text, leaves no `c` at its end, and trims
/// nothing more from a text that is already trimmed.
pub proof fn lemma_trim_end_char(s: Seq<char>, c: char)
    ensures
        trim_end_char(s, c).len() == 0 || trim_end_char(s, c).last() != c,
        trim_end_char(s, c).len() <= s.len(),
        trim_end_char(s, c) == s.subrange(0, trim_end_char(s, c).len() as int),
        trim_end_char(trim_end_char(s, c), c) == trim_end_char(s, c),
    decreases s.len(),
{
    if s.len() > 0 && s.last() == c {
        lemma_trim_end_char(s.drop_last(), c);
        assert(s.drop_last().subrange(0, trim_end_char(s, c).len() as int) == s.subrange(
            0,
            trim_end_char(s, c).len() as int,
        ));
    } else {
        assert(s.subrange(0, s.len() as int) == s);
    }
}


/// `a` comes before `b` or equals it in the lexicographic order of characters
/// (the order of `String`'s `Ord`: UTF-8 keeps the order of code points).
pub open spec fn lex_le(a: Seq<char>, b: Seq<char>) -> bool
    decreases a.len(),
{
    if a.len() == 0 {
        true
    } else if b.len() == 0 {
        false
    } else if a[0] != b[0] {
        (a[0] as u32) < (b[0] as u32)
    } else {
        lex_le(a.drop_first(), b.drop_first())
    }
}

/// Any two texts are ordered one way or the other.
pub proof fn lemma_lex_total(a: Seq<char>, b: Seq<char>)
    ensures
        lex_le(a, b) || lex_le(b, a),
    decreases a.len(),
{
    if a.len() > 0 && b.len() > 0 && a[0] == b[0] {
        lemma_lex_total(a.drop_first(), b.drop_first());
    } else if a.len() > 0 && b.len() > 0 {
        assert((a[0] as u32) != (b[0] as u32)) by {
            vstd::utf8::char_u32_cast(a[0], a[0] as u32);
            vstd::utf8::char_u32_cast(b[0], b[0] as u32);
        }
    }
}

/// The order is transitive.
pub proof fn lemma_lex_transitive(a: Seq<char>, b: Seq<char>, c: Seq<char>)
    requires
        lex_le(a, b),
        lex_le(b, c),
    ensures
        lex_le(a, c),
    decreases a.len(),
{
    if a.len() > 0 && b.len() > 0 && c.len() > 0 && a[0] == b[0] && b[0] == c[0] {
        lemma_lex_transitive(a.drop_first(), b.drop_first(), c.drop_first());
    }
}

/// Texts ordered both ways are equal.
pub proof fn lemma_lex_antisymmetric(a: Seq<char>, b: Seq<char>)
    requires
        lex_le(a, b),
        lex_le(b, a),
    ensures
        a == b,
    decreases a.len(),
{
    if a.len() > 0 && b.len() > 0 {
        if a[0] == b[0] {
            lemma_lex_antisymmetric(a.drop_first(), b.drop_first());
            assert(a =~= seq![a[0]] + a.drop_first());
            assert(b =~= seq![b[0]] + b.drop_first());
        } else {
            assert((a[0] as u32) != (b[0] as u32)) by {
                vstd::utf8::char_u32_cast(a[0], a[0] as u32);
            }
        }
    } else if a.len() == 0 && b.len() == 0 {
        assert(a =~= b);
    }
}

/// Whether `a` comes before `b` or equals it (see `lex_le`).
pub fn text_le(a: &str, b: &str) -> (r: bool)
    ensures
        r == lex_le(a@, b@),
{
    let na = a.unicode_len();
    let nb = b.unicode_len();
    let mut i: usize = 0;
    assert(a@.subrange(0, na as int) == a@);
    assert(b@.subrange(0, nb as int) == b@);
    while i < na && i < nb
        invariant
            i <= na == a@.len(),
            i <= nb == b@.len(),
            lex_le(a@, b@) == lex_le(a@.subrange(i as int, na as int), b@.subrange(i as int, nb as int)),
        decreases na - i,
    {
        let ca = a.get_char(i);
        let cb = b.get_char(i);
        let ghost ta = a@.subrange(i as int, na as int);
        let ghost tb = b@.subrange(i as int, nb as int);
        assert(ta[0] == ca && tb[0] == cb);
        if ca != cb {
            return (ca as u32) < (cb as u32);
        }
        assert(ta.drop_first() =~= a@.subrange(i + 1, na as int));
        assert(tb.drop_first() =~= b@.subrange(i + 1, nb as int));
        i = i + 1;
    }
    i == na
}

/// Every text of `s` comes before or equals every later one.
pub open spec fn lex_sorted(s: Seq<Seq<char>>) -> bool {
    forall|i: int, j: int| 0 <= i < j < s.len() ==> lex_le(#[trigger] s[i], #[trigger] s[j])
}

/// The texts of a list of strings.
pub open spec fn texts(v: Seq<String>) -> Seq<Seq<char>> {
    v.map_values(|s: String| s@)
}

/// The texts of `names`, sorted: the result holds the same texts, as many times
/// each, in lexicographic order.
pub fn sorted_texts(names: &Vec<String>) -> (r: Vec<String>)
    ensures
        lex_sorted(texts(r@)),
        texts(r@).to_multiset() == texts(names@).to_multiset(),
{
    let mut out: Vec<String> = Vec::new();
    let mut k: usize = 0;
    assert(texts(out@) =~= Seq::<Seq<char>>::empty());
    assert(names@.subrange(0, 0) =~= Seq::<String>::empty());
    assert(texts(names@.subrange(0, 0)) =~= Seq::<Seq<char>>::empty());
    while k < names.len()
        invariant
            k <= names.len(),
            lex_sorted(texts(out@)),
            texts(out@).to_multiset() == texts(names@.subrange(0, k as int)).to_multiset(),
        decreases names.len() - k,
    {
        let x = names[k].clone();
        let mut p: usize = 0;
        while p < out.len() && text_le(out[p].as_str(), x.as_str())
            invariant
                p <= out.len(),
                forall|j: int| 0 <= j < p ==> lex_le(#[trigger] texts(out@)[j], x@),
            decreases out.len() - p,
        {
            p = p + 1;
        }
        let ghost before = texts(out@);
        proof {
            if p < out.len() {
                lemma_lex_total(out@[p as int]@, x@);
            }
            assert forall|j: int| p <= j < before.len() implies lex_le(x@, #[trigger] before[j]) by {
                if j > p {
                    lemma_lex_transitive(x@, before[p as int], before[j]);
                }
            }
        }
        out.insert(p, x);
        proof {
            assert(texts(out@) =~= before.insert(p as int, names@[k as int]@));
            assert(names@.subrange(0, k + 1) =~= names@.subrange(0, k as int).push(names@[k as int]));
            assert(texts(names@.subrange(0, k + 1)) =~= texts(names@.subrange(0, k as int)).push(
                names@[k as int]@,
            ));
            vstd::seq_lib::to_multiset_insert(before, p as int, names@[k as int]@);
            vstd::seq_lib::to_multiset_build(texts(names@.subrange(0, k as int)), names@[k as int]@);
            assert(texts(out@).to_multiset() == before.to_multiset().insert(names@[k as int]@));
            assert(texts(names@.subrange(0, k + 1)).to_multiset() == texts(
                names@.subrange(0, k as int),
            ).to_multiset().insert(names@[k as int]@));
            let now = texts(out@);
            assert forall|i: int, j: int| 0 <= i < j < now.len() implies lex_le(
                #[trigger] now[i],
                #[trigger] now[j],
            ) by {
                if j < p {
                    assert(now[i] == before[i] && now[j] == before[j]);
                } else if j == p {
                    assert(now[i] == before[i]);
                } else if i < p {
                    assert(now[i] == before[i] && now[j] == before[j - 1]);
                    lemma_lex_transitive(before[i], x@, before[j - 1]);
                } else if i == p {
                    assert(now[j] == before[j - 1]);
                } else {
                    assert(now[i] == before[i - 1] && now[j] == before[j - 1]);
                }
            }
        }
        k = k + 1;
    }
    assert(names@.subrange(0, k as int) =~= names@);
    out
}


/// `**` starts at position `i` of `s`.
pub open spec fn stars_at(s: Seq<char>, i: int) -> bool {
    0 <= i && i + 1 < s.len() && s[i] == '*' && s[i + 1] == '*'
}

/// The pieces of `s` between the `**` marks, scanned from the left, with `cur`
/// as the start of the first piece.
pub open spec fn star_pieces(s: Seq<char>, cur: Seq<char>) -> Seq<Seq<char>>
    decreases s.len(),
{
    if stars_at(s, 0) {
        seq![cur] + star_pieces(s.subrange(2, s.len() as int), Seq::empty())
    } else if s.len() == 0 {
        seq![cur]
    } else {
        star_pieces(s.drop_first(), cur.push(s[0]))
    }
}

/// The pieces of a reply between its `**` marks (as `str::split("**")` gives
/// them); every second piece is emphasised.
pub fn emphasis_pieces(text: &str) -> (r: Vec<(String, bool)>)
    ensures
        r@.len() == star_pieces(text@, Seq::empty()).len(),
        forall|k: int|
            0 <= k < r@.len() ==> (#[trigger] r@[k]).0@ == star_pieces(text@, Seq::empty())[k]
                && r@[k].1 == (k % 2 == 1),
{
    let n = text.unicode_len();
    let ghost s = text@;
    let mut out: Vec<(String, bool)> = Vec::new();
    let mut start: usize = 0;
    let mut i: usize = 0;
    assert(s.subrange(0, 0) =~= Seq::<char>::empty());
    assert(s.subrange(0, n as int) =~= s);
    while i < n
        invariant
            n == s.len(),
            s == text@,
            start <= i <= n,
            out@.len() + star_pieces(s.subrange(i as int, n as int), s.subrange(start as int, i as int)).len()
                == star_pieces(s, Seq::empty()).len(),
            forall|k: int|
                0 <= k < out@.len() ==> (#[trigger] out@[k]).0@ == star_pieces(s, Seq::empty())[k]
                    && out@[k].1 == (k % 2 == 1),
            forall|k: int|
                0 <= k < star_pieces(s.subrange(i as int, n as int), s.subrange(start as int, i as int)).len()
                    ==> #[trigger] star_pieces(s.subrange(i as int, n as int), s.subrange(start as int, i as int))[k]
                    == star_pieces(s, Seq::empty())[out@.len() + k],
        decreases n - i,
    {
        let ghost rest = s.subrange(i as int, n as int);
        let ghost cur = s.subrange(start as int, i as int);
        if i + 1 < n && text.get_char(i) == '*' && text.get_char(i + 1) == '*' {
            assert(stars_at(rest, 0));
            let piece = String::from_str(text.substring_char(start, i));
            let flag = out.len() % 2 == 1;
            let ghost before = out@;
            assert(rest.subrange(2, rest.len() as int) =~= s.subrange(i + 2, n as int));
            assert(s.subrange(i + 2, i + 2) =~= Seq::<char>::empty());
            let ghost tail = star_pieces(s.subrange(i + 2, n as int), Seq::empty());
            assert(star_pieces(rest, cur) =~= seq![cur] + tail);
            assert(star_pieces(rest, cur)[0] == cur);
            out.push((piece, flag));
            assert forall|k: int| 0 <= k < tail.len() implies #[trigger] tail[k] == star_pieces(
                s,
                Seq::empty(),
            )[out@.len() + k] by {
                assert(tail[k] == star_pieces(rest, cur)[k + 1]);
            }
            assert forall|k: int| 0 <= k < out@.len() implies (#[trigger] out@[k]).0@ == star_pieces(
                s,
                Seq::empty(),
            )[k] && out@[k].1 == (k % 2 == 1) by {
                if k < before.len() {
                    assert(out@[k] == before[k]);
                }
            }
            start = i + 2;
            i = i + 2;
        } else {
            assert(!stars_at(rest, 0));
            assert(rest.drop_first() =~= s.subrange(i + 1, n as int));
            assert(cur.push(rest[0]) =~= s.subrange(start as int, i + 1));
            i = i + 1;
        }
    }
    let ghost rest = s.subrange(i as int, n as int);
    let ghost cur = s.subrange(start as int, i as int);
    assert(rest =~= Seq::<char>::empty());
    assert(star_pieces(rest, cur) =~= seq![cur]);
    let piece = String::from_str(text.substring_char(start, i));
    let flag = out.len() % 2 == 1;
    let ghost before = out@;
    out.push((piece, flag));
    assert forall|k: int| 0 <= k < out@.len() implies (#[trigger] out@[k]).0@ == star_pieces(
        s,
        Seq::empty(),
    )[k] && out@[k].1 == (k % 2 == 1) by {
        if k < before.len() {
            assert(out@[k] == before[k]);
        } else {
            assert(star_pieces(rest, cur)[0] == cur);
        }
    }
    out
}

} // verus!
