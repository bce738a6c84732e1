//! Character-level helpers shared by the parsers and formatters of the crate.

use vstd::prelude::*;
use vstd::string::StringSliceAdditionalSpecFns;

verus! {

/// Appends one character to a string (std's `String::push`).
/// The contract states what its documentation says: the character is added at the end.
#[verifier::external_body]
pub(crate) fn push_char(s: &mut String, c: char)
    ensures
        final(s)@ == old(s)@.push(c),
{
    s.push(c);
}

/// The characters of a string slice, in order.
pub fn chars_of(s: &str) -> (v: Vec<char>)
    ensures
        v@ == s@,
{
    let n = s.unicode_len();
    let mut v: Vec<char> = Vec::new();
    let mut i: usize = 0;
    while i < n
        invariant
            n == s@.len(),
            i <= n,
            v@ == s@.take(i as int),
        decreases n - i,
    {
        let c = s.get_char(i);
        v.push(c);
        i = i + 1;
        assert(v@ =~= s@.take(i as int));
    }
    assert(s@.take(n as int) =~= s@);
    v
}

/// A string holding exactly the given characters.
pub fn string_from_chars(v: &[char]) -> (s: String)
    ensures
        s@ == v@,
{
    let mut s = String::new();
    let mut i: usize = 0;
    while i < v.len()
        invariant
            i <= v@.len(),
            s@ == v@.take(i as int),
        decreases v.len() - i,
    {
        push_char(&mut s, v[i]);
        i = i + 1;
        assert(s@ =~= v@.take(i as int));
    }
    assert(v@.take(v@.len() as int) =~= v@);
    s
}

/// Whether two string slices hold the same characters.
pub fn str_eq(a: &str, b: &str) -> (r: bool)
    ensures
        r == (a@ == b@),
{
    let x = a.as_bytes();
    let y = b.as_bytes();
    if x.len() != y.len() {
        return false;
    }
    let mut i: usize = 0;
    while i < x.len()
        invariant
            x@ == a.spec_bytes(),
            y@ == b.spec_bytes(),
            x@.len() == y@.len(),
            i <= x@.len(),
            forall|j: int| 0 <= j < i ==> x@[j] == y@[j],
        decreases x.len() - i,
    {
        if x[i] != y[i] {
            return false;
        }
        i = i + 1;
    }
    proof {
        assert(x@ =~= y@);
        vstd::utf8::encode_utf8_decode_utf8(a@);
        vstd::utf8::encode_utf8_decode_utf8(b@);
    }
    true
}

/// `a` followed by `b`.
pub fn concat_str(a: &str, b: &str) -> (s: String)
    ensures
        s@ == a@ + b@,
{
    let mut s = a.to_owned();
    s.append(b);
    s
}

/// The ASCII digit for a value below ten.
pub open spec fn spec_digit(d: nat) -> char {
    ((d + 48) as u8) as char
}

/// The decimal notation of a natural number, without leading zeros.
pub open spec fn spec_decimal(n: nat) -> Seq<char>
    decreases n,
{
    if n < 10 {
        seq![spec_digit(n)]
    } else {
        spec_decimal(n / 10).push(spec_digit(n % 10))
    }
}

/// The decimal notation of an integer, with a leading `-` when it is negative.
pub open spec fn spec_int_decimal(i: int) -> Seq<char> {
    if i < 0 {
        seq!['-'] + spec_decimal((-i) as nat)
    } else {
        spec_decimal(i as nat)
    }
}

fn digit_char(d: u64) -> (c: char)
    requires
        d < 10,
    ensures
        c == spec_digit(d as nat),
{
    let b: u8 = (d as u8) + 48u8;
    b as char
}

/// The decimal notation of `n`, as `format!("{n}")` writes it.
pub fn u64_to_decimal(n: u64) -> (s: String)
    ensures
        s@ == spec_decimal(n as nat),
    decreases n,
{
    if n < 10 {
        let mut s = String::new();
        push_char(&mut s, digit_char(n));
        assert(s@ =~= seq![spec_digit(n as nat)]);
        s
    } else {
        let mut s = u64_to_decimal(n / 10);
        push_char(&mut s, digit_char(n % 10));
        s
    }
}

/// The decimal notation of `i`, as `format!("{i}")` writes it.
pub fn i32_to_decimal(i: i32) -> (s: String)
    ensures
        s@ == spec_int_decimal(i as int),
{
    if i < 0 {
        let mag: u64 = (0i64 - (i as i64)) as u64;
        let digits = u64_to_decimal(mag);
        let mut s = String::new();
        push_char(&mut s, '-');
        s.append(digits.as_str());
        assert(s@ =~= seq!['-'] + spec_decimal((-i) as nat));
        s
    } else {
        u64_to_decimal(i as u64)
    }
}

} // verus!

verus! {

/// Whether two lists of strings hold the same strings in the same order.
pub fn string_lists_equal(a: &Vec<String>, b: &Vec<String>) -> (r: bool)
    ensures
        r == (a.deep_view() == b.deep_view()),
{
    if a.len() != b.len() {
        assert(a.deep_view().len() != b.deep_view().len());
        return false;
    }
    let mut i: usize = 0;
    while i < a.len()
        invariant
            a@.len() == b@.len(),
            i <= a@.len(),
            forall|j: int| 0 <= j < i ==> a@[j]@ == b@[j]@,
        decreases a.len() - i,
    {
        if a[i] != b[i] {
            assert(a.deep_view()[i as int] != b.deep_view()[i as int]);
            return false;
        }
        i = i + 1;
    }
    assert(a.deep_view() =~= b.deep_view());
    true
}

} // verus!

verus! {

/// The pieces of `s` between the occurrences of `c`, as `str::split` with a character
/// gives them: one piece more than there are occurrences, empty pieces included.
pub open spec fn spec_split(s: Seq<char>, c: char) -> Seq<Seq<char>>
    decreases s.len(),
{
    if s.len() == 0 {
        seq![Seq::empty()]
    } else {
        let prev = spec_split(s.drop_last(), c);
        if s.last() == c {
            prev.push(Seq::empty())
        } else {
            prev.update(prev.len() - 1, prev.last().push(s.last()))
        }
    }
}

/// There is always at least one piece.
pub proof fn lemma_split_nonempty(s: Seq<char>, c: char)
    ensures
        spec_split(s, c).len() >= 1,
    decreases s.len(),
{
    if s.len() > 0 {
        lemma_split_nonempty(s.drop_last(), c);
    }
}

/// The character sequences held by a list of character vectors.
pub open spec fn char_views(v: Seq<Vec<char>>) -> Seq<Seq<char>> {
    v.map_values(|x: Vec<char>| x@)
}

/// The pieces of `s` between the occurrences of `c`.
pub fn split_chars(s: &Vec<char>, c: char) -> (r: Vec<Vec<char>>)
    ensures
        char_views(r@) == spec_split(s@, c),
{
    let mut done: Vec<Vec<char>> = Vec::new();
    let mut cur: Vec<char> = Vec::new();
    let mut i: usize = 0;
    assert(char_views(done@).push(cur@) =~= spec_split(s@.take(0), c));
    while i < s.len()
        invariant
            i <= s@.len(),
            char_views(done@).push(cur@) == spec_split(s@.take(i as int), c),
        decreases s.len() - i,
    {
        proof {
            lemma_split_nonempty(s@.take(i as int), c);
        }
        assert(s@.take(i + 1).drop_last() =~= s@.take(i as int));
        let ghost before = char_views(done@);
        let ghost cur_before = cur@;
        if s[i] == c {
            let mut piece: Vec<char> = Vec::new();
            std::mem::swap(&mut piece, &mut cur);
            done.push(piece);
            assert(char_views(done@) =~= before.push(cur_before));
            assert(char_views(done@).push(cur@) =~= spec_split(s@.take(i + 1), c));
        } else {
            cur.push(s[i]);
            assert(char_views(done@) =~= before);
            assert(char_views(done@).push(cur@) =~= spec_split(s@.take(i + 1), c));
        }
        i = i + 1;
    }
    assert(s@.take(s@.len() as int) =~= s@);
    let ghost before = char_views(done@);
    done.push(cur);
    assert(char_views(done@) =~= before.push(cur@));
    done
}

/// `pat` occurs in `s` at `i`.
pub open spec fn matches_at(s: Seq<char>, pat: Seq<char>, i: int) -> bool {
    0 <= i && i + pat.len() <= s.len() && s.subrange(i, i + pat.len()) == pat
}

/// The first place at or after `i` where `pat` occurs in `s`.
pub open spec fn find_from(s: Seq<char>, pat: Seq<char>, i: int) -> Option<int>
    decreases s.len() + 1 - i,
{
    if i < 0 || i + pat.len() > s.len() {
        None
    } else if matches_at(s, pat, i) {
        Some(i)
    } else {
        find_from(s, pat, i + 1)
    }
}

/// The first place where `pat` occurs in `s`, as `str::find` gives it.
pub open spec fn spec_find(s: Seq<char>, pat: Seq<char>) -> Option<int> {
    find_from(s, pat, 0)
}

/// `find_from` finds an occurrence at or after `i`.
pub proof fn lemma_find_from(s: Seq<char>, pat: Seq<char>, i: int)
    requires
        0 <= i,
    ensures
        find_from(s, pat, i) matches Some(k) ==> i <= k && matches_at(s, pat, k),
    decreases s.len() + 1 - i,
{
    if i + pat.len() <= s.len() && !matches_at(s, pat, i) {
        lemma_find_from(s, pat, i + 1);
    }
}

/// Whether `pat` occurs in `s` at `i`.
pub fn matches_at_exec(s: &Vec<char>, pat: &Vec<char>, i: usize) -> (r: bool)
    ensures
        r == matches_at(s@, pat@, i as int),
{
    if i > s.len() || pat.len() > s.len() - i {
        return false;
    }
    let mut j: usize = 0;
    while j < pat.len()
        invariant
            i + pat@.len() <= s@.len(),
            s@.len() == s.len(),
            j <= pat@.len(),
            forall|k: int| 0 <= k < j ==> s@[i + k] == pat@[k],
        decreases pat.len() - j,
    {
        if s[i + j] != pat[j] {
            assert(s@.subrange(i as int, i + pat@.len())[j as int] != pat@[j as int]);
            return false;
        }
        j = j + 1;
    }
    assert(s@.subrange(i as int, i + pat@.len()) =~= pat@);
    true
}

/// The first place where `pat` occurs in `s`.
pub fn find_chars(s: &Vec<char>, pat: &Vec<char>) -> (r: Option<usize>)
    requires
        pat@.len() > 0,
    ensures
        match r {
            Some(k) => spec_find(s@, pat@) == Some(k as int),
            None => spec_find(s@, pat@) is None,
        },
{
    if pat.len() > s.len() {
        return None;
    }
    let last = s.len() - pat.len();
    let mut i: usize = 0;
    while i <= last
        invariant
            last + pat@.len() == s@.len(),
            s@.len() <= usize::MAX,
            pat@.len() > 0,
            i <= last + 1,
            find_from(s@, pat@, 0) == find_from(s@, pat@, i as int),
        decreases last + 1 - i,
    {
        if matches_at_exec(s, pat, i) {
            return Some(i);
        }
        i = i + 1;
    }
    None
}

/// The chars of `s` from `from` up to `to`.
pub fn sub_chars(s: &Vec<char>, from: usize, to: usize) -> (r: Vec<char>)
    requires
        from <= to <= s@.len(),
    ensures
        r@ == s@.subrange(from as int, to as int),
{
    let mut r: Vec<char> = Vec::new();
    let mut i: usize = from;
    while i < to
        invariant
            from <= i <= to,
            to <= s@.len(),
            r@ == s@.subrange(from as int, i as int),
        decreases to - i,
    {
        r.push(s[i]);
        i = i + 1;
        assert(r@ =~= s@.subrange(from as int, i as int));
    }
    r
}

/// `s` without the leading occurrences of `c`, as `str::trim_start_matches` gives it.
pub open spec fn spec_trim_start(s: Seq<char>, c: char) -> Seq<char>
    decreases s.len(),
{
    if s.len() > 0 && s[0] == c {
        spec_trim_start(s.drop_first(), c)
    } else {
        s
    }
}

/// `s` without the trailing occurrences of `c`, as `str::trim_end_matches` gives it.
pub open spec fn spec_trim_end(s: Seq<char>, c: char) -> Seq<char>
    decreases s.len(),
{
    if s.len() > 0 && s.last() == c {
        spec_trim_end(s.drop_last(), c)
    } else {
        s
    }
}

/// `s` without its leading `c`s.
pub fn trim_start_chars(s: &Vec<char>, c: char) -> (r: Vec<char>)
    ensures
        r@ == spec_trim_start(s@, c),
{
    let mut i: usize = 0;
    assert(s@.skip(0) =~= s@);
    while i < s.len() && s[i] == c
        invariant
            i <= s@.len(),
            spec_trim_start(s@.skip(i as int), c) == spec_trim_start(s@, c),
        decreases s.len() - i,
    {
        assert(s@.skip(i as int).drop_first() =~= s@.skip(i + 1));
        i = i + 1;
    }
    assert(s@.skip(i as int) =~= s@.subrange(i as int, s@.len() as int));
    sub_chars(s, i, s.len())
}

/// `s` without its trailing `c`s.
pub fn trim_end_chars(s: &Vec<char>, c: char) -> (r: Vec<char>)
    ensures
        r@ == spec_trim_end(s@, c),
{
    let mut j: usize = s.len();
    assert(s@.take(s@.len() as int) =~= s@);
    while j > 0 && s[j - 1] == c
        invariant
            j <= s@.len(),
            spec_trim_end(s@.take(j as int), c) == spec_trim_end(s@, c),
        decreases j,
    {
        assert(s@.take(j as int).drop_last() =~= s@.take(j - 1));
        j = j - 1;
    }
    assert(s@.take(s@.len() as int) =~= s@);
    assert(s@.take(j as int) =~= s@.subrange(0, j as int));
    sub_chars(s, 0, j)
}

/// `s` with each occurrence of `pat` replaced by `with`, scanning from the left and
/// resuming after each replaced occurrence, as `str::replace` does.
pub open spec fn spec_replace(s: Seq<char>, pat: Seq<char>, with: Seq<char>) -> Seq<char>
    decreases s.len(),
{
    if pat.len() == 0 || s.len() < pat.len() {
        s
    } else if s.take(pat.len() as int) == pat {
        with + spec_replace(s.skip(pat.len() as int), pat, with)
    } else {
        seq![s[0]] + spec_replace(s.drop_first(), pat, with)
    }
}

/// `s` with each occurrence of the non-empty `pat` replaced by `with`.
pub fn replace_all(s: &str, pat: &str, with: &str) -> (r: String)
    requires
        pat@.len() > 0,
    ensures
        r@ == spec_replace(s@, pat@, with@),
{
    let sc = chars_of(s);
    let pc = chars_of(pat);
    let wc = chars_of(with);
    let mut out: Vec<char> = Vec::new();
    let mut i: usize = 0;
    let n = sc.len();
    let m = pc.len();
    assert(sc@.skip(0) =~= sc@);
    assert(out@ =~= Seq::<char>::empty());
    assert(out@ + spec_replace(sc@.skip(0), pc@, wc@) =~= spec_replace(sc@, pc@, wc@));
    while i < n
        invariant
            n == sc@.len(),
            m == pc@.len(),
            m > 0,
            i <= n,
            out@ + spec_replace(sc@.skip(i as int), pc@, wc@) == spec_replace(sc@, pc@, wc@),
        decreases n - i,
    {
        let ghost rest = sc@.skip(i as int);
        if m <= n - i && matches_at_exec(&sc, &pc, i) {
            assert(rest.take(m as int) =~= sc@.subrange(i as int, i + m));
            assert(rest.skip(m as int) =~= sc@.skip(i + m));
            let mut k: usize = 0;
            let ghost out0 = out@;
            while k < wc.len()
                invariant
                    k <= wc@.len(),
                    out@ == out0 + wc@.take(k as int),
                decreases wc.len() - k,
            {
                out.push(wc[k]);
                k = k + 1;
                assert(out@ =~= out0 + wc@.take(k as int));
            }
            assert(wc@.take(wc@.len() as int) =~= wc@);
            assert(out@ + spec_replace(sc@.skip(i + m), pc@, wc@) =~= out0 + (wc@ + spec_replace(rest.skip(m as int), pc@, wc@)));
            i = i + m;
        } else {
            proof {
                if m <= n - i {
                    assert(rest.take(m as int) =~= sc@.subrange(i as int, i + m));
                }
                if rest.len() >= m {
                    assert(rest.drop_first() =~= sc@.skip(i + 1));
                }
            }
            let ghost out0 = out@;
            out.push(sc[i]);
            proof {
                if rest.len() < m {
                    assert(spec_replace(rest, pc@, wc@) == rest);
                    assert(sc@.skip(i + 1) =~= rest.drop_first());
                    assert(rest.drop_first().len() < m);
                    assert(spec_replace(sc@.skip(i + 1), pc@, wc@) == sc@.skip(i + 1));
                    assert(rest =~= seq![sc@[i as int]] + sc@.skip(i + 1));
                }
            }
            assert(out@ + spec_replace(sc@.skip(i + 1), pc@, wc@) =~= out0 + spec_replace(rest, pc@, wc@));
            i = i + 1;
        }
    }
    assert(sc@.skip(n as int) =~= Seq::<char>::empty());
    assert(out@ + spec_replace(sc@.skip(n as int), pc@, wc@) =~= out@);
    string_from_chars(out.as_slice())
}

} // verus!

verus! {

/// A decimal notation has at least one digit.
pub proof fn lemma_decimal_nonempty(n: nat)
    ensures
        spec_decimal(n).len() >= 1,
    decreases n,
{
    if n >= 10 {
        lemma_decimal_nonempty(n / 10);
    }
}

} // verus!
