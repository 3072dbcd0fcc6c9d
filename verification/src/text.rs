//! Text primitives of the line protocol: character classes, trimming and the
//! three ways in which a line is cut into tokens.

use vstd::prelude::*;
use vstd::string::*;

verus! {

/// The code points that count as white space: those that Unicode marks
/// as `White_Space`.
pub open spec fn is_whitespace(c: char) -> bool {
    let n = c as u32;
    ||| 0x09 <= n <= 0x0D
    ||| n == 0x20
    ||| n == 0x85
    ||| n == 0xA0
    ||| n == 0x1680
    ||| 0x2000 <= n <= 0x200A
    ||| n == 0x2028
    ||| n == 0x2029
    ||| n == 0x202F
    ||| n == 0x205F
    ||| n == 0x3000
}

/// A class of characters that a scan runs over or stops at.
#[derive(Clone, Copy, Debug)]
pub enum CharClass {
    /// The space character alone.
    Space,
    /// Any white space.
    Blank,
    /// The escape character alone.
    Escape,
}

impl CharClass {
    /// Whether `c` belongs to the class.
    pub open spec fn contains(self, c: char) -> bool {
        match self {
            CharClass::Space => c == ' ',
            CharClass::Blank => is_whitespace(c),
            CharClass::Escape => c == '\u{1b}',
        }
    }

    /// Decides membership of `c`.
    pub fn holds(self, c: char) -> (b: bool)
        ensures
            b == self.contains(c),
    {
        let n: u32 = c as u32;
        match self {
            CharClass::Escape => n == 0x1b,
            CharClass::Space => n == 0x20,
            CharClass::Blank => {
                (0x09 <= n && n <= 0x0D) || n == 0x20 || n == 0x85 || n == 0xA0 || n == 0x1680 || (
                0x2000 <= n && n <= 0x200A) || n == 0x2028 || n == 0x2029 || n == 0x202F || n
                    == 0x205F || n == 0x3000
            },
        }
    }
}

/// Length of the longest prefix of `s` whose characters all lie inside
/// `class` (`inside` true) or all lie outside it (`inside` false).
pub open spec fn run_len(s: Seq<char>, class: CharClass, inside: bool) -> int
    decreases s.len(),
{
    if s.len() == 0 || class.contains(s[0]) != inside {
        0
    } else {
        1 + run_len(s.drop_first(), class, inside)
    }
}

/// The run ends at `k` where the first `k` characters qualify and the one
/// at `k`, if any, does not.
pub proof fn lemma_run_len_is(s: Seq<char>, class: CharClass, inside: bool, k: int)
    requires
        0 <= k <= s.len(),
        forall|j: int| 0 <= j < k ==> class.contains(#[trigger] s[j]) == inside,
        k < s.len() ==> class.contains(s[k]) != inside,
    ensures
        run_len(s, class, inside) == k,
    decreases k,
{
    if k > 0 {
        let t = s.drop_first();
        assert forall|j: int| 0 <= j < k - 1 implies class.contains(#[trigger] t[j]) == inside by {
            assert(t[j] == s[j + 1]);
        }
        lemma_run_len_is(t, class, inside, k - 1);
    }
}

/// The characters of `s`, in order.
pub fn chars_of(s: &str) -> (cs: Vec<char>)
    ensures
        cs@ == s@,
{
    let mut cs: Vec<char> = Vec::new();
    for c in it: s.chars()
        invariant
            cs@ == it.seq().take(it.index()),
            it.seq() == s@,
    {
        cs.push(c);
    }
    cs
}

/// Whether two texts hold the same characters.
pub fn same_text(a: &str, b: &str) -> (same: bool)
    ensures
        same == (a@ == b@),
{
    let x = chars_of(a);
    let y = chars_of(b);
    if x.len() != y.len() {
        return false;
    }
    let n = x.len();
    let mut i: usize = 0;
    while i < n
        invariant
            i <= n,
            n == x.len(),
            n == y.len(),
            x@ == a@,
            y@ == b@,
            forall|j: int| 0 <= j < i ==> x@[j] == y@[j],
        decreases n - i,
    {
        if x[i] != y[i] {
            assert(a@[i as int] != b@[i as int]);
            return false;
        }
        i = i + 1;
    }
    assert(x@ =~= y@);
    true
}

/// The views of a list of strings, in order.
pub open spec fn texts(v: Seq<String>) -> Seq<Seq<char>> {
    Seq::new(v.len(), |i: int| v[i]@)
}

/// `s` without its leading white space.
pub open spec fn trimmed_start(s: Seq<char>) -> Seq<char> {
    s.skip(run_len(s, CharClass::Blank, true))
}

/// `s` without its trailing white space.
pub open spec fn trimmed_end(s: Seq<char>) -> Seq<char> {
    s.take(s.len() - run_len(s.reverse(), CharClass::Blank, true))
}

/// `s` without leading and trailing white space.
pub open spec fn trimmed(s: Seq<char>) -> Seq<char> {
    trimmed_end(trimmed_start(s))
}

/// The fields of `s` between single spaces: one more than it has spaces,
/// empty where two spaces are adjacent or a space stands at an end.
pub open spec fn space_fields(s: Seq<char>) -> Seq<Seq<char>>
    decreases s.len(),
{
    let e = run_len(s, CharClass::Space, false);
    if 0 <= e < s.len() {
        seq![s.take(e)] + space_fields(s.skip(e + 1))
    } else {
        seq![s]
    }
}

/// The first two fields of `s` between single spaces and, as a third, all
/// that follows the second space; fewer where `s` has fewer spaces.
pub open spec fn leading_fields(s: Seq<char>) -> Seq<Seq<char>> {
    let e = run_len(s, CharClass::Space, false);
    if 0 <= e < s.len() {
        let r = s.skip(e + 1);
        let f = run_len(r, CharClass::Space, false);
        if 0 <= f < r.len() {
            seq![s.take(e), r.take(f), r.skip(f + 1)]
        } else {
            seq![s.take(e), r]
        }
    } else {
        seq![s]
    }
}

/// The words of `s`: its maximal runs of characters that are not white
/// space.
pub open spec fn words(s: Seq<char>) -> Seq<Seq<char>>
    decreases s.len(),
{
    let a = run_len(s, CharClass::Blank, true);
    let t = s.skip(a);
    let e = run_len(t, CharClass::Blank, false);
    if 0 <= a <= s.len() && 0 < e <= t.len() {
        seq![t.take(e)] + words(t.skip(e))
    } else {
        seq![]
    }
}

/// Where the run of `class` members (or non-members) that starts at `from`
/// ends.
pub fn scan(cs: &Vec<char>, from: usize, class: CharClass, inside: bool) -> (end: usize)
    requires
        from <= cs.len(),
    ensures
        from <= end <= cs.len(),
        end - from == run_len(cs@.skip(from as int), class, inside),
{
    let n = cs.len();
    let mut i: usize = from;
    while i < n && class.holds(cs[i]) == inside
        invariant
            from <= i <= n,
            n == cs.len(),
            forall|j: int| from <= j < i ==> class.contains(#[trigger] cs@[j]) == inside,
        decreases n - i,
    {
        i = i + 1;
    }
    proof {
        let t = cs@.skip(from as int);
        assert forall|j: int| 0 <= j < i - from implies class.contains(#[trigger] t[j])
            == inside by {
            assert(t[j] == cs@[from + j]);
        }
        lemma_run_len_is(t, class, inside, i - from);
    }
    i
}

/// The characters of `s` from position `from` up to `to`, as a string.
pub fn piece(s: &str, from: usize, to: usize) -> (r: String)
    requires
        from <= to <= s@.len(),
    ensures
        r@ == s@.subrange(from as int, to as int),
{
    String::from_str(s.substring_char(from, to))
}

/// Removes the white space at both ends of `s`.
pub fn trim(s: &str) -> (r: String)
    ensures
        r@ == trimmed(s@),
{
    let cs = chars_of(s);
    let n = cs.len();
    let a = scan(&cs, 0, CharClass::Blank, true);
    let mut b: usize = n;
    while b > a && CharClass::Blank.holds(cs[b - 1])
        invariant
            a <= b <= n,
            n == cs.len(),
            forall|j: int| b <= j < n ==> is_whitespace(#[trigger] cs@[j]),
        decreases b,
    {
        b = b - 1;
    }
    proof {
        assert(cs@.skip(0) =~= cs@);
        let t = trimmed_start(s@);
        assert(t =~= s@.skip(a as int));
        let u = t.reverse();
        assert forall|j: int| 0 <= j < n - b implies CharClass::Blank.contains(#[trigger] u[j])
            == true by {
            assert(u[j] == cs@[n - 1 - j]);
        }
        if n - b < u.len() {
            assert(u[n - b] == cs@[b - 1]);
        }
        lemma_run_len_is(u, CharClass::Blank, true, n - b);
        assert(trimmed(s@) =~= s@.subrange(a as int, b as int));
    }
    piece(s, a, b)
}

/// Cuts `s` at every single space.
pub fn split_spaces(s: &str) -> (out: Vec<String>)
    ensures
        texts(out@) == space_fields(s@),
{
    let cs = chars_of(s);
    let n = cs.len();
    let mut out: Vec<String> = Vec::new();
    let mut start: usize = 0;
    proof {
        assert(s@.skip(0) =~= s@);
        assert(texts(out@) + space_fields(s@) =~= space_fields(s@));
    }
    loop
        invariant_except_break
            start <= n,
            space_fields(s@) == texts(out@) + space_fields(s@.skip(start as int)),
        invariant
            n == cs.len(),
            cs@ == s@,
        ensures
            texts(out@) == space_fields(s@),
        decreases n - start,
    {
        let end = scan(&cs, start, CharClass::Space, false);
        let field = piece(s, start, end);
        proof {
            let t = s@.skip(start as int);
            let e = end - start;
            assert(texts(out@.push(field)) =~= texts(out@) + seq![field@]);
            if end < n {
                assert(t.take(e) =~= field@);
                assert(t.skip(e + 1) =~= s@.skip(end + 1));
            } else {
                assert(t =~= field@);
            }
        }
        out.push(field);
        if end >= n {
            break ;
        }
        start = end + 1;
    }
    out
}

/// Cuts `s` at its first two single spaces.
pub fn split_three(s: &str) -> (out: Vec<String>)
    ensures
        texts(out@) == leading_fields(s@),
{
    let cs = chars_of(s);
    let n = cs.len();
    let mut out: Vec<String> = Vec::new();
    let e = scan(&cs, 0, CharClass::Space, false);
    proof {
        assert(s@.skip(0) =~= s@);
    }
    if e < n {
        let f = scan(&cs, e + 1, CharClass::Space, false);
        let first = piece(s, 0, e);
        out.push(first);
        if f < n {
            let second = piece(s, e + 1, f);
            let third = piece(s, f + 1, n);
            out.push(second);
            out.push(third);
            proof {
                let r = s@.skip(e + 1);
                assert(r.take(f - (e + 1)) =~= second@);
                assert(r.skip(f - (e + 1) + 1) =~= third@);
                assert(s@.take(e as int) =~= first@);
                assert(texts(out@) =~= seq![first@, second@, third@]);
            }
        } else {
            let second = piece(s, e + 1, n);
            out.push(second);
            proof {
                assert(s@.skip(e + 1) =~= second@);
                assert(s@.take(e as int) =~= first@);
                assert(texts(out@) =~= seq![first@, second@]);
            }
        }
    } else {
        let whole = piece(s, 0, n);
        out.push(whole);
        proof {
            assert(whole@ =~= s@);
            assert(texts(out@) =~= seq![s@]);
        }
    }
    out
}

/// Cuts `s` into its words.
pub fn split_words(s: &str) -> (out: Vec<String>)
    ensures
        texts(out@) == words(s@),
{
    let cs = chars_of(s);
    let n = cs.len();
    let mut out: Vec<String> = Vec::new();
    let mut at: usize = 0;
    proof {
        assert(s@.skip(0) =~= s@);
        assert(texts(out@) + words(s@) =~= words(s@));
    }
    loop
        invariant_except_break
            at <= n,
            words(s@) == texts(out@) + words(s@.skip(at as int)),
        invariant
            n == cs.len(),
            cs@ == s@,
        ensures
            texts(out@) == words(s@),
        decreases n - at,
    {
        let a = scan(&cs, at, CharClass::Blank, true);
        let e = scan(&cs, a, CharClass::Blank, false);
        proof {
            let r = s@.skip(at as int);
            assert(r.skip(a - at) =~= s@.skip(a as int));
        }
        if e == a {
            proof {
                assert(texts(out@) + Seq::<Seq<char>>::empty() =~= texts(out@));
            }
            break ;
        }
        let word = piece(s, a, e);
        proof {
            let t = s@.skip(a as int);
            assert(t.take(e - a) =~= word@);
            assert(t.skip(e - a) =~= s@.skip(e as int));
            assert(texts(out@.push(word)) =~= texts(out@) + seq![word@]);
        }
        out.push(word);
        at = e;
    }
    out
}

/// What a run is: it lies inside the text, every character of it
/// qualifies, and the character after it, if any, does not.
pub proof fn lemma_run_len_ends(s: Seq<char>, class: CharClass, inside: bool)
    ensures
        0 <= run_len(s, class, inside) <= s.len(),
        forall|j: int|
            0 <= j < run_len(s, class, inside) ==> class.contains(#[trigger] s[j]) == inside,
        run_len(s, class, inside) < s.len() ==> class.contains(s[run_len(s, class, inside)])
            != inside,
    decreases s.len(),
{
    if s.len() != 0 && class.contains(s[0]) == inside {
        let t = s.drop_first();
        lemma_run_len_ends(t, class, inside);
        assert forall|j: int| 0 <= j < run_len(s, class, inside) implies class.contains(
            #[trigger] s[j],
        ) == inside by {
            if j > 0 {
                assert(s[j] == t[j - 1]);
            }
        }
        if run_len(s, class, inside) < s.len() {
            assert(s[run_len(s, class, inside)] == t[run_len(t, class, inside)]);
        }
    }
}

/// The fields with a single space between each two.
pub open spec fn spaced(fields: Seq<Seq<char>>) -> Seq<char>
    decreases fields.len(),
{
    if fields.len() == 0 {
        Seq::empty()
    } else if fields.len() == 1 {
        fields[0]
    } else {
        fields[0] + seq![' '] + spaced(fields.drop_first())
    }
}

/// Cutting at single spaces loses nothing and leaves no space behind:
/// there is at least one field, no field holds a space, and the fields
/// with a space between each two are the text again.
pub proof fn lemma_space_fields_rejoin(s: Seq<char>)
    ensures
        space_fields(s).len() >= 1,
        forall|i: int, j: int|
            0 <= i < space_fields(s).len() && 0 <= j < space_fields(s)[i].len()
                ==> #[trigger] space_fields(s)[i][j] != ' ',
        spaced(space_fields(s)) == s,
    decreases s.len(),
{
    let e = run_len(s, CharClass::Space, false);
    lemma_run_len_ends(s, CharClass::Space, false);
    if e < s.len() {
        let head = s.take(e);
        let rest = space_fields(s.skip(e + 1));
        lemma_space_fields_rejoin(s.skip(e + 1));
        let all = space_fields(s);
        assert(all == seq![head] + rest);
        assert(all.drop_first() =~= rest);
        assert(all[0] == head);
        assert(spaced(all) == head + seq![' '] + spaced(rest));
        assert(head + seq![' '] + s.skip(e + 1) =~= s);
        assert forall|i: int, j: int|
            0 <= i < all.len() && 0 <= j < all[i].len() implies #[trigger] all[i][j] != ' ' by {
            if i == 0 {
                assert(head[j] == s[j]);
            } else {
                assert(all[i] == rest[i - 1]);
                assert(rest[i - 1][j] != ' ');
            }
        }
    }
}

/// Every word holds a character, and none that is white space.
pub proof fn lemma_words_are_solid(s: Seq<char>)
    ensures
        forall|i: int| 0 <= i < words(s).len() ==> (#[trigger] words(s)[i]).len() > 0,
        forall|i: int, j: int|
            0 <= i < words(s).len() && 0 <= j < words(s)[i].len() ==> !is_whitespace(
                #[trigger] words(s)[i][j],
            ),
    decreases s.len(),
{
    let a = run_len(s, CharClass::Blank, true);
    let t = s.skip(a);
    let e = run_len(t, CharClass::Blank, false);
    lemma_run_len_ends(s, CharClass::Blank, true);
    lemma_run_len_ends(t, CharClass::Blank, false);
    if 0 < e {
        let head = t.take(e);
        let rest = words(t.skip(e));
        lemma_words_are_solid(t.skip(e));
        let all = words(s);
        assert(all == seq![head] + rest);
        assert forall|i: int| 0 <= i < all.len() implies (#[trigger] all[i]).len() > 0 by {
            if i > 0 {
                assert(all[i] == rest[i - 1]);
            }
        }
        assert forall|i: int, j: int|
            0 <= i < all.len() && 0 <= j < all[i].len() implies !is_whitespace(
            #[trigger] all[i][j],
        ) by {
            if i == 0 {
                assert(head[j] == t[j]);
            } else {
                assert(all[i] == rest[i - 1]);
                assert(!is_whitespace(rest[i - 1][j]));
            }
        }
    }
}

/// What is left of a text once trimmed neither begins nor ends with white
/// space.
pub proof fn lemma_trimmed_ends(s: Seq<char>)
    ensures
        trimmed(s).len() > 0 ==> !is_whitespace(trimmed(s).first()) && !is_whitespace(
            trimmed(s).last(),
        ),
{
    let t = trimmed_start(s);
    lemma_run_len_ends(s, CharClass::Blank, true);
    lemma_run_len_ends(t.reverse(), CharClass::Blank, true);
    let k = run_len(t.reverse(), CharClass::Blank, true);
    let u = trimmed(s);
    if u.len() > 0 {
        assert(u =~= t.take(t.len() - k));
        assert(k < t.len());
        assert(t.reverse()[k] == t[t.len() - 1 - k]);
        assert(u.last() == t[t.len() - k - 1]);
        assert(u.first() == t[0]);
        assert(t[0] == s[run_len(s, CharClass::Blank, true)]);
    }
}

/// `s` without its escape characters.
pub open spec fn without_escapes(s: Seq<char>) -> Seq<char>
    decreases s.len(),
{
    let e = run_len(s, CharClass::Escape, false);
    if 0 <= e < s.len() {
        s.take(e) + without_escapes(s.skip(e + 1))
    } else {
        s
    }
}

/// What is left once the escape characters are gone holds none.
pub proof fn lemma_without_escapes_holds_none(s: Seq<char>)
    ensures
        forall|i: int|
            0 <= i < without_escapes(s).len() ==> #[trigger] without_escapes(s)[i] != '\u{1b}',
    decreases s.len(),
{
    let e = run_len(s, CharClass::Escape, false);
    lemma_run_len_ends(s, CharClass::Escape, false);
    if e < s.len() {
        let rest = without_escapes(s.skip(e + 1));
        lemma_without_escapes_holds_none(s.skip(e + 1));
        let all = without_escapes(s);
        assert(all == s.take(e) + rest);
        assert forall|i: int| 0 <= i < all.len() implies #[trigger] all[i] != '\u{1b}' by {
            if i < e {
                assert(all[i] == s[i]);
            } else {
                assert(all[i] == rest[i - e]);
            }
        }
    }
}

/// Takes the escape characters out of `s`.
pub fn strip_escapes(s: &str) -> (out: String)
    ensures
        out@ == without_escapes(s@),
{
    let cs = chars_of(s);
    let n = cs.len();
    let mut out = String::new();
    let mut start: usize = 0;
    proof {
        assert(s@.skip(0) =~= s@);
        assert(out@ + without_escapes(s@) =~= without_escapes(s@));
    }
    loop
        invariant_except_break
            start <= n,
            without_escapes(s@) == out@ + without_escapes(s@.skip(start as int)),
        invariant
            n == cs.len(),
            cs@ == s@,
        ensures
            out@ == without_escapes(s@),
        decreases n - start,
    {
        let end = scan(&cs, start, CharClass::Escape, false);
        let run = piece(s, start, end);
        proof {
            let t = s@.skip(start as int);
            let e = end - start;
            if end < n {
                assert(t.take(e) =~= run@);
                assert(t.skip(e + 1) =~= s@.skip(end + 1));
                assert(out@ + (run@ + without_escapes(s@.skip(end + 1))) =~= (out@ + run@)
                    + without_escapes(s@.skip(end + 1)));
            } else {
                assert(t =~= run@);
            }
        }
        out.append(run.as_str());
        if end >= n {
            break ;
        }
        start = end + 1;
    }
    out
}

} // verus!
