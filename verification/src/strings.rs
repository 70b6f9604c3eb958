//! Verified text helpers on which the command builders rest.

use vstd::prelude::*;

verus! {

/// `prefix` is a prefix of `s`.
pub open spec fn is_prefix(prefix: Seq<char>, s: Seq<char>) -> bool {
    prefix.len() <= s.len() && s.subrange(0, prefix.len() as int) == prefix
}

/// `suffix` is a suffix of `s`.
pub open spec fn is_suffix(suffix: Seq<char>, s: Seq<char>) -> bool {
    suffix.len() <= s.len() && s.subrange(s.len() - suffix.len(), s.len() as int) == suffix
}

/// The texts of a list of strings.
pub open spec fn texts(v: Seq<String>) -> Seq<Seq<char>> {
    v.map_values(|s: String| s@)
}

/// `s` with every occurrence of `c` taken out, the other characters kept in order.
pub open spec fn remove_char(s: Seq<char>, c: char) -> Seq<char>
    decreases s.len(),
{
    if s.len() == 0 {
        Seq::empty()
    } else if s.last() == c {
        remove_char(s.drop_last(), c)
    } else {
        remove_char(s.drop_last(), c).push(s.last())
    }
}

/// The pieces of `s` between occurrences of `sep`: one more piece than there are
/// separators, empty pieces included.
pub open spec fn split_on(s: Seq<char>, sep: char) -> Seq<Seq<char>>
    decreases s.len(),
{
    if s.len() == 0 {
        seq![Seq::empty()]
    } else {
        let before = split_on(s.drop_last(), sep);
        if s.last() == sep {
            before.push(Seq::empty())
        } else {
            before.update(before.len() - 1, before.last().push(s.last()))
        }
    }
}

/// The ASCII whitespace characters: space, tab, line feed, form feed, carriage return.
pub open spec fn is_ascii_whitespace(c: char) -> bool {
    c == ' ' || c == '\t' || c == '\n' || c == '\x0C' || c == '\r'
}

/// Scanning state after reading `s`: the completed words and the word being read.
pub open spec fn words_scan(s: Seq<char>) -> (Seq<Seq<char>>, Seq<char>)
    decreases s.len(),
{
    if s.len() == 0 {
        (Seq::empty(), Seq::empty())
    } else {
        let (done, cur) = words_scan(s.drop_last());
        if is_ascii_whitespace(s.last()) {
            if cur.len() > 0 {
                (done.push(cur), Seq::empty())
            } else {
                (done, Seq::empty())
            }
        } else {
            (done, cur.push(s.last()))
        }
    }
}

/// The non-empty runs of non-whitespace characters of `s`, in order.
pub open spec fn words(s: Seq<char>) -> Seq<Seq<char>> {
    let (done, cur) = words_scan(s);
    if cur.len() > 0 {
        done.push(cur)
    } else {
        done
    }
}

/// The pieces of `list` with `sep` between each two neighbours.
pub open spec fn join(list: Seq<Seq<char>>, sep: Seq<char>) -> Seq<char>
    decreases list.len(),
{
    if list.len() == 0 {
        Seq::empty()
    } else if list.len() == 1 {
        list[0]
    } else {
        join(list.drop_last(), sep) + sep + list.last()
    }
}

/// The concatenation of the lists in `s`, in order.
pub open spec fn concat_all<A>(s: Seq<Seq<A>>) -> Seq<A>
    decreases s.len(),
{
    if s.len() == 0 {
        Seq::empty()
    } else {
        concat_all(s.drop_last()) + s.last()
    }
}

/// Whether `s` begins with `prefix`.
pub fn starts_with(s: &str, prefix: &str) -> (res: bool)
    ensures
        res == is_prefix(prefix@, s@),
{
    let n = s.unicode_len();
    let m = prefix.unicode_len();
    if m > n {
        return false;
    }
    let mut i: usize = 0;
    while i < m
        invariant
            n == s@.len(),
            m == prefix@.len(),
            m <= n,
            i <= m,
            forall|j: int| 0 <= j < i ==> s@[j] == prefix@[j],
        decreases m - i,
    {
        if s.get_char(i) != prefix.get_char(i) {
            assert(s@.subrange(0, m as int)[i as int] != prefix@[i as int]);
            return false;
        }
        i = i + 1;
    }
    assert(s@.subrange(0, m as int) =~= prefix@);
    true
}

/// Whether `s` ends with `suffix`.
pub fn ends_with(s: &str, suffix: &str) -> (res: bool)
    ensures
        res == is_suffix(suffix@, s@),
{
    let n = s.unicode_len();
    let m = suffix.unicode_len();
    if m > n {
        return false;
    }
    let off: usize = n - m;
    let mut i: usize = 0;
    while i < m
        invariant
            n == s@.len(),
            m == suffix@.len(),
            m <= n,
            off == n - m,
            i <= m,
            forall|j: int| 0 <= j < i ==> s@[off + j] == suffix@[j],
        decreases m - i,
    {
        if s.get_char(off + i) != suffix.get_char(i) {
            assert(s@.subrange(off as int, n as int)[i as int] != suffix@[i as int]);
            return false;
        }
        i = i + 1;
    }
    assert(s@.subrange(off as int, n as int) =~= suffix@);
    true
}

/// Whether two texts are equal.
pub fn str_eq(a: &str, b: &str) -> (res: bool)
    ensures
        res == (a@ == b@),
{
    let n = a.unicode_len();
    let m = b.unicode_len();
    if n != m {
        return false;
    }
    let mut i: usize = 0;
    while i < n
        invariant
            n == a@.len(),
            m == b@.len(),
            n == m,
            i <= n,
            forall|j: int| 0 <= j < i ==> a@[j] == b@[j],
        decreases n - i,
    {
        if a.get_char(i) != b.get_char(i) {
            return false;
        }
        i = i + 1;
    }
    assert(a@ =~= b@);
    true
}

/// A fresh `String` holding `s`.
pub fn owned(s: &str) -> (res: String)
    ensures
        res@ == s@,
{
    String::from_str(s)
}

/// `a` followed by `b`.
pub fn concat_strs(a: &str, b: &str) -> (res: String)
    ensures
        res@ == a@ + b@,
{
    let mut r = String::from_str(a);
    r.append(b);
    r
}

/// Appends the `i`-th character of `s` to `out`.
fn push_char_of(out: &mut String, s: &str, i: usize)
    requires
        i < s@.len() <= usize::MAX,
    ensures
        final(out)@ == old(out)@.push(s@[i as int]),
{
    let piece = s.substring_char(i, i + 1);
    out.append(piece);
    assert(piece@ =~= seq![s@[i as int]]);
}

/// `s` with every occurrence of `c` taken out.
pub fn remove_all(s: &str, c: char) -> (res: String)
    ensures
        res@ == remove_char(s@, c),
{
    let n = s.unicode_len();
    let mut out = String::new();
    let mut i: usize = 0;
    while i < n
        invariant
            n == s@.len(),
            i <= n,
            out@ == remove_char(s@.subrange(0, i as int), c),
        decreases n - i,
    {
        let ch = s.get_char(i);
        assert(s@.subrange(0, i + 1).drop_last() =~= s@.subrange(0, i as int));
        if ch != c {
            push_char_of(&mut out, s, i);
        }
        i = i + 1;
    }
    assert(s@.subrange(0, n as int) =~= s@);
    out
}

/// The pieces of `s` between occurrences of `sep`, empty pieces included.
pub fn split_on_char(s: &str, sep: char) -> (res: Vec<String>)
    ensures
        texts(res@) == split_on(s@, sep),
{
    let n = s.unicode_len();
    let mut done: Vec<String> = Vec::new();
    let mut cur = String::new();
    let mut i: usize = 0;
    assert(split_on(s@.subrange(0, 0), sep) =~= seq![Seq::<char>::empty()]);
    while i < n
        invariant
            n == s@.len(),
            i <= n,
            texts(done@).push(cur@) == split_on(s@.subrange(0, i as int), sep),
        decreases n - i,
    {
        let ch = s.get_char(i);
        let ghost pre = s@.subrange(0, i as int);
        assert(s@.subrange(0, i + 1).drop_last() =~= pre);
        if ch == sep {
            let piece = cur;
            done.push(piece);
            cur = String::new();
            assert(texts(done@).push(cur@) =~= split_on(pre, sep).push(Seq::empty()));
        } else {
            let ghost before = texts(done@).push(cur@);
            push_char_of(&mut cur, s, i);
            assert(texts(done@).push(cur@) =~= before.update(before.len() - 1, before.last().push(ch)));
        }
        i = i + 1;
    }
    assert(s@.subrange(0, n as int) =~= s@);
    done.push(cur);
    assert(texts(done@) =~= split_on(s@, sep));
    done
}

/// Whether `c` is ASCII whitespace.
pub fn char_is_ascii_whitespace(c: char) -> (res: bool)
    ensures
        res == is_ascii_whitespace(c),
{
    c == ' ' || c == '\t' || c == '\n' || c == '\x0C' || c == '\r'
}

/// The words of `s`: its non-empty runs of characters other than ASCII whitespace.
pub fn split_words(s: &str) -> (res: Vec<String>)
    ensures
        texts(res@) == words(s@),
{
    let n = s.unicode_len();
    let mut done: Vec<String> = Vec::new();
    let mut cur = String::new();
    let mut i: usize = 0;
    while i < n
        invariant
            n == s@.len(),
            i <= n,
            (texts(done@), cur@) == words_scan(s@.subrange(0, i as int)),
        decreases n - i,
    {
        let ch = s.get_char(i);
        let ghost pre = s@.subrange(0, i as int);
        assert(s@.subrange(0, i + 1).drop_last() =~= pre);
        if char_is_ascii_whitespace(ch) {
            if cur.unicode_len() > 0 {
                let piece = cur;
                done.push(piece);
                cur = String::new();
                assert(texts(done@) =~= words_scan(pre).0.push(words_scan(pre).1));
            }
        } else {
            push_char_of(&mut cur, s, i);
        }
        assert(cur@ =~= words_scan(s@.subrange(0, i + 1)).1);
        i = i + 1;
    }
    assert(s@.subrange(0, n as int) =~= s@);
    if cur.unicode_len() > 0 {
        done.push(cur);
        assert(texts(done@) =~= words(s@));
    }
    done
}

/// The strings of `list` with `sep` between each two neighbours.
pub fn join_strings(list: &Vec<String>, sep: &str) -> (res: String)
    ensures
        res@ == join(texts(list@), sep@),
{
    let mut out = String::new();
    let n = list.len();
    let mut i: usize = 0;
    while i < n
        invariant
            n == list@.len(),
            i <= n,
            out@ == join(texts(list@).subrange(0, i as int), sep@),
        decreases n - i,
    {
        let ghost pre = texts(list@).subrange(0, i as int);
        assert(texts(list@).subrange(0, i + 1).drop_last() =~= pre);
        if i != 0 {
            out.append(sep);
        }
        out.append(list[i].as_str());
        assert(i == 0 ==> texts(list@).subrange(0, i + 1) =~= seq![list@[0]@]);
        i = i + 1;
    }
    assert(texts(list@).subrange(0, n as int) =~= texts(list@));
    out
}

/// After every `c` is taken out of a text none is left, and taking them out again changes nothing.
pub proof fn lemma_remove_char_absent(s: Seq<char>, c: char)
    ensures
        !remove_char(s, c).contains(c),
        remove_char(remove_char(s, c), c) == remove_char(s, c),
    decreases s.len(),
{
    if s.len() > 0 {
        lemma_remove_char_absent(s.drop_last(), c);
        let r = remove_char(s.drop_last(), c);
        if s.last() != c {
            assert(r.push(s.last()).drop_last() =~= r);
            assert forall|k: int| 0 <= k < r.push(s.last()).len() implies r.push(s.last())[k] != c by {
                if k < r.len() {
                    assert(r[k] != c);
                }
            }
        }
    } else {
        assert(remove_char(s, c) =~= Seq::<char>::empty());
    }
}

/// Splitting always yields at least one piece.
pub proof fn lemma_split_on_nonempty(s: Seq<char>, sep: char)
    ensures
        split_on(s, sep).len() >= 1,
    decreases s.len(),
{
    if s.len() > 0 {
        lemma_split_on_nonempty(s.drop_last(), sep);
    }
}

/// Joining a list whose last piece grows by one character grows the join by that character.
pub proof fn lemma_join_extend_last(list: Seq<Seq<char>>, sep: Seq<char>, x: char)
    requires
        list.len() >= 1,
    ensures
        join(list.update(list.len() - 1, list.last().push(x)), sep) == join(list, sep).push(x),
{
    let updated = list.update(list.len() - 1, list.last().push(x));
    if list.len() == 1 {
        assert(updated[0] == list[0].push(x));
    } else {
        assert(updated.drop_last() =~= list.drop_last());
        assert(join(updated, sep) == join(list.drop_last(), sep) + sep + list.last().push(x));
        assert((join(list.drop_last(), sep) + sep + list.last()).push(x) =~= join(list.drop_last(), sep) + sep
            + list.last().push(x));
    }
}

/// Joining the pieces of `s` split at `sep` with `sep` gives back `s`.
pub proof fn lemma_join_split_on(s: Seq<char>, sep: char)
    ensures
        join(split_on(s, sep), seq![sep]) == s,
    decreases s.len(),
{
    if s.len() == 0 {
        assert(split_on(s, sep) =~= seq![Seq::<char>::empty()]);
        assert(s =~= Seq::<char>::empty());
    } else {
        let before = split_on(s.drop_last(), sep);
        lemma_join_split_on(s.drop_last(), sep);
        lemma_split_on_nonempty(s.drop_last(), sep);
        if s.last() == sep {
            let after = before.push(Seq::<char>::empty());
            assert(after.drop_last() =~= before);
            assert(join(after, seq![sep]) =~= s.drop_last() + seq![sep] + Seq::<char>::empty());
            assert(s.drop_last() + seq![sep] + Seq::<char>::empty() =~= s);
        } else {
            lemma_join_extend_last(before, seq![sep], s.last());
            assert(s.drop_last().push(s.last()) =~= s);
        }
    }
}

/// Every word is non-empty and holds no ASCII whitespace; so does the word being read.
pub proof fn lemma_words_scan_clean(s: Seq<char>)
    ensures
        forall|i: int| 0 <= i < words_scan(s).0.len() ==> #[trigger] words_scan(s).0[i].len() > 0,
        forall|i: int, k: int|
            0 <= i < words_scan(s).0.len() && 0 <= k < words_scan(s).0[i].len()
                ==> !is_ascii_whitespace(#[trigger] words_scan(s).0[i][k]),
        forall|k: int| 0 <= k < words_scan(s).1.len() ==> !is_ascii_whitespace(#[trigger] words_scan(s).1[k]),
    decreases s.len(),
{
    if s.len() > 0 {
        lemma_words_scan_clean(s.drop_last());
        let (done, cur) = words_scan(s.drop_last());
        if !is_ascii_whitespace(s.last()) {
            assert forall|k: int| 0 <= k < cur.push(s.last()).len() implies !is_ascii_whitespace(
                #[trigger] cur.push(s.last())[k],
            ) by {
                if k < cur.len() {
                    assert(cur.push(s.last())[k] == cur[k]);
                }
            }
        }
    }
}

/// The words of a text are non-empty and hold no ASCII whitespace.
pub proof fn lemma_words_clean(s: Seq<char>)
    ensures
        forall|i: int| 0 <= i < words(s).len() ==> #[trigger] words(s)[i].len() > 0,
        forall|i: int, k: int|
            0 <= i < words(s).len() && 0 <= k < words(s)[i].len() ==> !is_ascii_whitespace(
                #[trigger] words(s)[i][k],
            ),
{
    lemma_words_scan_clean(s);
}

} // verus!
