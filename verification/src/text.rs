//! Character-level text handling: decimal rendering of integers, Unicode
//! whitespace, trimming, line splitting and word splitting.

use vstd::prelude::*;
use vstd::std_specs::iter::IteratorSpec;
use crate::migrations::joined;

verus! {

/// The ASCII digit for a value below ten.
pub open spec fn digit_char(d: nat) -> char {
    if d == 0 { '0' }
    else if d == 1 { '1' }
    else if d == 2 { '2' }
    else if d == 3 { '3' }
    else if d == 4 { '4' }
    else if d == 5 { '5' }
    else if d == 6 { '6' }
    else if d == 7 { '7' }
    else if d == 8 { '8' }
    else { '9' }
}

/// The decimal text of a natural number, without leading zeros.
pub open spec fn decimal(n: nat) -> Seq<char>
    decreases n,
{
    if n < 10 {
        seq![digit_char(n)]
    } else {
        decimal(n / 10).push(digit_char(n % 10))
    }
}

/// The decimal text of an integer, with a leading '-' when it is negative
/// (what `{}` prints for an integer).
pub open spec fn signed_decimal(n: int) -> Seq<char> {
    if n < 0 {
        seq!['-'] + decimal((-n) as nat)
    } else {
        decimal(n as nat)
    }
}

/// The decimal text of a natural number padded with zeros to at least two
/// characters (what `{:02}` prints).
pub open spec fn padded2(n: nat) -> Seq<char> {
    if n < 10 {
        seq!['0'] + decimal(n)
    } else {
        decimal(n)
    }
}

/// Appends one character to a string.
#[verifier::external_body]
pub(crate) fn push_char(s: &mut String, c: char)
    ensures
        final(s)@ == old(s)@.push(c),
{
    s.push(c);
}

fn digit(d: u128) -> (c: char)
    requires
        d < 10,
    ensures
        c == digit_char(d as nat),
{
    if d == 0 { '0' }
    else if d == 1 { '1' }
    else if d == 2 { '2' }
    else if d == 3 { '3' }
    else if d == 4 { '4' }
    else if d == 5 { '5' }
    else if d == 6 { '6' }
    else if d == 7 { '7' }
    else if d == 8 { '8' }
    else { '9' }
}

/// Appends the decimal text of `n`.
pub fn push_decimal(s: &mut String, n: u128)
    ensures
        final(s)@ == old(s)@ + decimal(n as nat),
    decreases n,
{
    if n >= 10 {
        push_decimal(s, n / 10);
    }
    push_char(s, digit(n % 10));
}

/// Appends the decimal text of a signed integer.
pub fn push_signed(s: &mut String, n: i64)
    ensures
        final(s)@ == old(s)@ + signed_decimal(n as int),
{
    if n < 0 {
        push_char(s, '-');
        let m: u64 = if n == i64::MIN { 9223372036854775808u64 } else { (-n) as u64 };
        push_decimal(s, m as u128);
    } else {
        push_decimal(s, n as u128);
    }
}

/// Appends the decimal text of `n` padded with zeros to two characters.
pub fn push_padded2(s: &mut String, n: u32)
    ensures
        final(s)@ == old(s)@ + padded2(n as nat),
{
    if n < 10 {
        push_char(s, '0');
    }
    push_decimal(s, n as u128);
}

/// The characters of a string slice, in order.
pub fn chars_of(s: &str) -> (v: Vec<char>)
    ensures
        v@ == s@,
{
    let mut v: Vec<char> = Vec::new();
    let mut it = s.chars();
    loop
        invariant
            v@ + it.remaining() == s@,
            it.decrease() is Some,
        ensures
            v@ == s@,
        decreases it.decrease()->0,
    {
        match it.next() {
            Some(c) => {
                v.push(c);
            },
            None => {
                break;
            },
        }
    }
    v
}

/// A string made of the given characters.
pub fn string_of(v: &Vec<char>) -> (s: String)
    ensures
        s@ == v@,
{
    let mut s = String::new();
    let mut i: usize = 0;
    while i < v.len()
        invariant
            i <= v.len(),
            s@ == v@.take(i as int),
        decreases v.len() - i,
    {
        push_char(&mut s, v[i]);
        i = i + 1;
        assert(s@ =~= v@.take(i as int));
    }
    assert(v@.take(v.len() as int) =~= v@);
    s
}

} // verus!

verus! {

/// Unicode white space, as `char::is_whitespace` decides it (the
/// `White_Space` property).
pub open spec fn is_space(c: char) -> bool {
    let n = c as u32;
    ||| n == 0x20
    ||| (0x09 <= n && n <= 0x0d)
    ||| n == 0x85
    ||| n == 0xa0
    ||| n == 0x1680
    ||| (0x2000 <= n && n <= 0x200a)
    ||| n == 0x2028
    ||| n == 0x2029
    ||| n == 0x202f
    ||| n == 0x205f
    ||| n == 0x3000
}

/// Decides `is_space`.
pub fn space(c: char) -> (b: bool)
    ensures
        b == is_space(c),
{
    let n = c as u32;
    n == 0x20 || (0x09 <= n && n <= 0x0d) || n == 0x85 || n == 0xa0 || n == 0x1680
        || (0x2000 <= n && n <= 0x200a) || n == 0x2028 || n == 0x2029 || n == 0x202f
        || n == 0x205f || n == 0x3000
}

/// `s` without its leading white space.
pub open spec fn trim_start(s: Seq<char>) -> Seq<char>
    decreases s.len(),
{
    if s.len() > 0 && is_space(s[0]) {
        trim_start(s.drop_first())
    } else {
        s
    }
}

/// `s` without its trailing white space.
pub open spec fn trim_end(s: Seq<char>) -> Seq<char>
    decreases s.len(),
{
    if s.len() > 0 && is_space(s.last()) {
        trim_end(s.drop_last())
    } else {
        s
    }
}

/// `s` without leading and trailing white space (what `str::trim` gives).
pub open spec fn trim(s: Seq<char>) -> Seq<char> {
    trim_end(trim_start(s))
}

/// Every character of `s` is white space.
pub open spec fn is_blank(s: Seq<char>) -> bool {
    forall|i: int| 0 <= i < s.len() ==> is_space(#[trigger] s[i])
}

/// `trim_start` drops exactly the leading run of white space.
proof fn lemma_trim_start_shape(s: Seq<char>) -> (k: int)
    ensures
        0 <= k <= s.len(),
        trim_start(s) == s.skip(k),
        forall|j: int| 0 <= j < k ==> is_space(#[trigger] s[j]),
        k < s.len() ==> !is_space(s[k]),
    decreases s.len(),
{
    if s.len() > 0 && is_space(s[0]) {
        let k0 = lemma_trim_start_shape(s.drop_first());
        assert(s.drop_first().skip(k0) =~= s.skip(k0 + 1));
        assert forall|j: int| 0 <= j < k0 + 1 implies is_space(#[trigger] s[j]) by {
            if j > 0 {
                assert(s[j] == s.drop_first()[j - 1]);
            }
        }
        k0 + 1
    } else {
        assert(s.skip(0) =~= s);
        0
    }
}

/// `trim_end` drops exactly the trailing run of white space.
proof fn lemma_trim_end_shape(s: Seq<char>) -> (k: int)
    ensures
        0 <= k <= s.len(),
        trim_end(s) == s.take(k),
        forall|j: int| k <= j < s.len() ==> is_space(#[trigger] s[j]),
        k > 0 ==> !is_space(s[k - 1]),
    decreases s.len(),
{
    if s.len() > 0 && is_space(s.last()) {
        let k0 = lemma_trim_end_shape(s.drop_last());
        assert(s.drop_last().take(k0) =~= s.take(k0));
        assert forall|j: int| k0 <= j < s.len() implies is_space(#[trigger] s[j]) by {
            if j < s.len() - 1 {
                assert(s[j] == s.drop_last()[j]);
            }
        }
        k0
    } else {
        assert(s.take(s.len() as int) =~= s);
        s.len() as int
    }
}

/// The trimmed text is the part of `s` between its first and its last
/// character that is not white space.
pub proof fn lemma_trim_shape(s: Seq<char>) -> (r: (int, int))
    ensures
        0 <= r.0 <= r.1 <= s.len(),
        trim(s) == s.subrange(r.0, r.1),
        forall|j: int| 0 <= j < r.0 ==> is_space(#[trigger] s[j]),
        forall|j: int| r.1 <= j < s.len() ==> is_space(#[trigger] s[j]),
        r.0 < r.1 ==> !is_space(s[r.0]) && !is_space(s[r.1 - 1]),
{
    let a = lemma_trim_start_shape(s);
    let t = s.skip(a);
    let k = lemma_trim_end_shape(t);
    assert(t.take(k) =~= s.subrange(a, a + k));
    assert forall|j: int| a + k <= j < s.len() implies is_space(#[trigger] s[j]) by {
        assert(s[j] == t[j - a]);
    }
    if 0 < k {
        assert(s[a + k - 1] == t[k - 1]);
    }
    (a, a + k)
}

/// A text trims to nothing exactly when it is all white space.
pub proof fn lemma_trim_empty_iff_blank(s: Seq<char>)
    ensures
        trim(s).len() == 0 <==> is_blank(s),
{
    let r = lemma_trim_shape(s);
    if trim(s).len() == 0 {
        assert forall|i: int| 0 <= i < s.len() implies is_space(#[trigger] s[i]) by {
            if i >= r.0 {
                assert(r.1 <= i);
            }
        }
    }
    if is_blank(s) && r.0 < r.1 {
        assert(is_space(s[r.0]));
    }
}

/// The trimmed copy of `s`.
pub fn trimmed(s: &Vec<char>) -> (t: Vec<char>)
    ensures
        t@ == trim(s@),
{
    let mut a: usize = 0;
    while a < s.len() && space(s[a])
        invariant
            a <= s.len(),
            forall|j: int| 0 <= j < a ==> is_space(#[trigger] s@[j]),
        decreases s.len() - a,
    {
        a = a + 1;
    }
    let mut b: usize = s.len();
    while b > a && space(s[b - 1])
        invariant
            a <= b <= s.len(),
            forall|j: int| b <= j < s.len() ==> is_space(#[trigger] s@[j]),
        decreases b - a,
    {
        b = b - 1;
    }
    let mut t: Vec<char> = Vec::new();
    let mut i: usize = a;
    while i < b
        invariant
            a <= i <= b <= s.len(),
            t@ == s@.subrange(a as int, i as int),
        decreases b - i,
    {
        t.push(s[i]);
        i = i + 1;
        assert(t@ =~= s@.subrange(a as int, i as int));
    }
    proof {
        let r = lemma_trim_shape(s@);
        // both scans stop at the first and last character that is not white space
        if r.0 < r.1 {
            if r.0 < a {
                assert(is_space(s@[r.0 as int]));
            }
            if a < r.0 {
                assert(is_space(s@[a as int]));
            }
            assert(a == r.0);
            if b < r.1 {
                assert(is_space(s@[r.1 - 1]));
            }
            if b > r.1 {
                assert(is_space(s@[b - 1]));
            }
            assert(b == r.1);
        } else {
            assert forall|j: int| 0 <= j < s@.len() implies is_space(#[trigger] s@[j]) by {
                if j >= r.0 {
                    assert(r.1 <= j);
                }
            }
            if a < s.len() {
                assert(is_space(s@[a as int]));
            }
            assert(a == s.len());
            assert(b == a);
        }
    }
    t
}

} // verus!

verus! {

/// A line without the '\r' that ended it, if any.
pub open spec fn strip_cr(line: Seq<char>) -> Seq<char> {
    if line.len() > 0 && line.last() == '\r' {
        line.drop_last()
    } else {
        line
    }
}

/// The lines that `s` has completed so far, and the line still open,
/// reading `s` from left to right.
pub open spec fn line_scan(s: Seq<char>) -> (Seq<Seq<char>>, Seq<char>)
    decreases s.len(),
{
    if s.len() == 0 {
        (seq![], seq![])
    } else {
        let (done, open) = line_scan(s.drop_last());
        if s.last() == '\n' {
            (done.push(strip_cr(open)), seq![])
        } else {
            (done, open.push(s.last()))
        }
    }
}

/// The lines of `s` as `str::lines` yields them: split at each '\n', a '\r'
/// just before it dropped, and no empty line after a final '\n'.
pub open spec fn lines(s: Seq<char>) -> Seq<Seq<char>> {
    let (done, open) = line_scan(s);
    if open.len() == 0 {
        done
    } else {
        done.push(open)
    }
}

fn strip_cr_exec(line: Vec<char>) -> (r: Vec<char>)
    ensures
        r@ == strip_cr(line@),
{
    let mut line = line;
    if line.len() > 0 && line[line.len() - 1] == '\r' {
        line.pop();
    }
    line
}

/// The character sequences that a vector of character vectors holds.
pub open spec fn views(v: Seq<Vec<char>>) -> Seq<Seq<char>> {
    v.map_values(|x: Vec<char>| x@)
}

/// The lines of `s`.
pub fn lines_of(s: &Vec<char>) -> (ls: Vec<Vec<char>>)
    ensures
        views(ls@) == lines(s@),
{
    let mut done: Vec<Vec<char>> = Vec::new();
    let mut open: Vec<char> = Vec::new();
    let mut i: usize = 0;
    while i < s.len()
        invariant
            i <= s.len(),
            (views(done@), open@) == line_scan(s@.take(i as int)),
        decreases s.len() - i,
    {
        let c = s[i];
        assert(s@.take(i as int + 1).drop_last() =~= s@.take(i as int));
        if c == '\n' {
            let finished = strip_cr_exec(open);
            done.push(finished);
            open = Vec::new();
            assert(views(done@) =~= line_scan(s@.take(i as int + 1)).0);
            assert(open@ =~= line_scan(s@.take(i as int + 1)).1);
        } else {
            open.push(c);
            assert(views(done@) =~= line_scan(s@.take(i as int + 1)).0);
        }
        i = i + 1;
    }
    assert(s@.take(s.len() as int) =~= s@);
    if open.len() > 0 {
        done.push(open);
        assert(views(done@) =~= lines(s@));
    }
    done
}

/// `s` holds "$$" somewhere.
pub open spec fn has_dollar_pair(s: Seq<char>) -> bool {
    exists|i: int| 0 <= i && i + 1 < s.len() && s[i] == '$' && #[trigger] s[i + 1] == '$'
}

/// Decides `has_dollar_pair`.
pub fn dollar_pair(s: &Vec<char>) -> (b: bool)
    ensures
        b == has_dollar_pair(s@),
{
    let mut i: usize = 0;
    while i < s.len()
        invariant
            i <= s.len(),
            forall|j: int| 0 <= j < i && j + 1 < s@.len() ==> !(s@[j] == '$' && #[trigger] s@[j + 1] == '$'),
        decreases s.len() - i,
    {
        if i + 1 < s.len() && s[i] == '$' && s[i + 1] == '$' {
            return true;
        }
        i = i + 1;
    }
    false
}

/// `s` ends with ';'.
pub open spec fn ends_with_semicolon(s: Seq<char>) -> bool {
    s.len() > 0 && s.last() == ';'
}

} // verus!

verus! {

/// The words of `s` completed so far, and the word still open, reading `s`
/// from left to right.
pub open spec fn word_scan(s: Seq<char>) -> (Seq<Seq<char>>, Seq<char>)
    decreases s.len(),
{
    if s.len() == 0 {
        (seq![], seq![])
    } else {
        let (done, open) = word_scan(s.drop_last());
        if is_space(s.last()) {
            if open.len() > 0 {
                (done.push(open), seq![])
            } else {
                (done, open)
            }
        } else {
            (done, open.push(s.last()))
        }
    }
}

/// The words of `s` as `str::split_whitespace` yields them: the maximal runs
/// of characters that are not white space, in order.
pub open spec fn words(s: Seq<char>) -> Seq<Seq<char>> {
    let (done, open) = word_scan(s);
    if open.len() > 0 {
        done.push(open)
    } else {
        done
    }
}

/// The character sequences that a vector of strings holds.
pub open spec fn texts(v: Seq<String>) -> Seq<Seq<char>> {
    v.map_values(|c: String| c@)
}

/// The strings made of the given character vectors.
pub fn strings_of(v: &Vec<Vec<char>>) -> (res: Vec<String>)
    ensures
        texts(res@) == views(v@),
{
    let mut res: Vec<String> = Vec::new();
    let mut k: usize = 0;
    while k < v.len()
        invariant
            k <= v.len(),
            res@.len() == k,
            texts(res@) == views(v@).take(k as int),
        decreases v.len() - k,
    {
        let s = string_of(&v[k]);
        assert(views(v@)[k as int] == s@);
        let ghost prev = res@;
        res.push(s);
        assert forall|j: int| 0 <= j < k + 1 implies #[trigger] texts(res@)[j] == views(v@).take(k + 1)[j] by {
            assert(texts(res@)[j] == res@[j]@);
            if j < k {
                assert(texts(prev)[j] == views(v@).take(k as int)[j]);
                assert(texts(prev)[j] == prev[j]@);
            }
        }
        k = k + 1;
        assert(texts(res@) =~= views(v@).take(k as int));
    }
    assert(views(v@).take(v.len() as int) =~= views(v@));
    res
}

/// The words of a string.
pub fn split_words(s: &str) -> (res: Vec<String>)
    ensures
        texts(res@) == words(s@),
{
    let chars = chars_of(s);
    let mut done: Vec<Vec<char>> = Vec::new();
    let mut open: Vec<char> = Vec::new();
    let mut i: usize = 0;
    while i < chars.len()
        invariant
            i <= chars.len(),
            chars@ == s@,
            (views(done@), open@) == word_scan(chars@.take(i as int)),
        decreases chars.len() - i,
    {
        let c = chars[i];
        assert(chars@.take(i as int + 1).drop_last() =~= chars@.take(i as int));
        if space(c) {
            if open.len() > 0 {
                done.push(open);
                open = Vec::new();
                assert(views(done@) =~= word_scan(chars@.take(i as int + 1)).0);
                assert(open@ =~= word_scan(chars@.take(i as int + 1)).1);
            }
        } else {
            open.push(c);
            assert(views(done@) =~= word_scan(chars@.take(i as int + 1)).0);
        }
        i = i + 1;
    }
    assert(chars@.take(chars.len() as int) =~= chars@);
    if open.len() > 0 {
        done.push(open);
        assert(views(done@) =~= words(s@));
    }
    strings_of(&done)
}

/// Holds no white space.
pub open spec fn no_space(s: Seq<char>) -> bool {
    forall|i: int| 0 <= i < s.len() ==> !is_space(#[trigger] s[i])
}

proof fn lemma_word_scan_shape(s: Seq<char>)
    ensures
        forall|i: int| 0 <= i < word_scan(s).0.len() ==> (#[trigger] word_scan(s).0[i]).len() > 0
            && no_space(word_scan(s).0[i]),
        no_space(word_scan(s).1),
    decreases s.len(),
{
    if s.len() > 0 {
        lemma_word_scan_shape(s.drop_last());
        let (done, open) = word_scan(s.drop_last());
        if !is_space(s.last()) {
            assert forall|i: int| 0 <= i < open.push(s.last()).len() implies !is_space(#[trigger] open.push(s.last())[i]) by {
                if i < open.len() {
                    assert(open.push(s.last())[i] == open[i]);
                }
            }
        }
    }
}

/// Every word is non-empty and holds no white space.
pub proof fn lemma_words_shape(s: Seq<char>)
    ensures
        forall|i: int| 0 <= i < words(s).len() ==> (#[trigger] words(s)[i]).len() > 0
            && no_space(words(s)[i]),
{
    lemma_word_scan_shape(s);
}

} // verus!

verus! {

/// Holds no '\r'.
pub open spec fn no_carriage_return(s: Seq<char>) -> bool {
    forall|i: int| 0 <= i < s.len() ==> s[i] != '\r'
}

/// The lines joined, each followed by '\n'.
pub open spec fn terminated(ls: Seq<Seq<char>>) -> Seq<char>
    decreases ls.len(),
{
    if ls.len() == 0 {
        seq![]
    } else {
        terminated(ls.drop_last()) + ls.last().push('\n')
    }
}

proof fn lemma_line_scan_restores(s: Seq<char>)
    requires
        no_carriage_return(s),
    ensures
        terminated(line_scan(s).0) + line_scan(s).1 == s,
        line_scan(s).1.len() == 0 <==> (s.len() == 0 || s.last() == '\n'),
    decreases s.len(),
{
    if s.len() > 0 {
        let p = s.drop_last();
        assert(no_carriage_return(p)) by {
            assert forall|i: int| 0 <= i < p.len() implies p[i] != '\r' by {
                assert(p[i] == s[i]);
            }
        }
        lemma_line_scan_restores(p);
        let (done, open) = line_scan(p);
        if s.last() == '\n' {
            if open.len() > 0 {
                assert(open.last() == p.last()) by {
                    assert((terminated(done) + open).last() == open.last());
                }
                assert(p.last() == s[s.len() - 2]);
            }
            assert(strip_cr(open) == open);
            let d2 = done.push(open);
            assert(d2.drop_last() =~= done);
            assert(terminated(d2) + Seq::<char>::empty() =~= terminated(done) + open + seq!['\n']);
            assert(s =~= p.push('\n'));
        } else {
            assert(terminated(done) + open.push(s.last()) =~= (terminated(done) + open).push(s.last()));
            assert(s =~= p.push(s.last()));
        }
    }
}

/// Writing the lines back, each ended by '\n', gives back a text without
/// '\r': itself when it is empty or ends with '\n', otherwise itself with a
/// final '\n'.
pub proof fn lemma_lines_restore(s: Seq<char>)
    requires
        no_carriage_return(s),
    ensures
        terminated(lines(s)) == (if s.len() == 0 || s.last() == '\n' { s } else { s.push('\n') }),
{
    lemma_line_scan_restores(s);
    let (done, open) = line_scan(s);
    if open.len() > 0 {
        let l = done.push(open);
        assert(l.drop_last() =~= done);
        assert(terminated(l) =~= (terminated(done) + open).push('\n'));
    } else {
        assert(terminated(done) + open =~= terminated(done));
    }
}

/// The two texts are equal.
pub fn same_text(a: &str, b: &str) -> (r: bool)
    ensures
        r == (a@ == b@),
{
    let x = chars_of(a);
    let y = chars_of(b);
    if x.len() != y.len() {
        return false;
    }
    let mut i: usize = 0;
    while i < x.len()
        invariant
            x@ == a@,
            y@ == b@,
            x.len() == y.len(),
            i <= x.len(),
            forall|j: int| 0 <= j < i ==> x@[j] == y@[j],
        decreases x.len() - i,
    {
        if x[i] != y[i] {
            return false;
        }
        i = i + 1;
    }
    assert(x@ =~= y@);
    true
}

} // verus!

verus! {

/// `s` with every white-space character removed.
pub open spec fn without_spaces(s: Seq<char>) -> Seq<char>
    decreases s.len(),
{
    if s.len() == 0 {
        seq![]
    } else if is_space(s.last()) {
        without_spaces(s.drop_last())
    } else {
        without_spaces(s.drop_last()).push(s.last())
    }
}

/// The number of places where a run of characters that are not white space
/// begins.
pub open spec fn run_count(s: Seq<char>) -> nat
    decreases s.len(),
{
    if s.len() == 0 {
        0
    } else {
        let p = s.drop_last();
        run_count(p) + if !is_space(s.last()) && (p.len() == 0 || is_space(p.last())) {
            1nat
        } else {
            0nat
        }
    }
}

proof fn lemma_word_scan_counts(s: Seq<char>)
    ensures
        joined(word_scan(s).0) + word_scan(s).1 == without_spaces(s),
        word_scan(s).0.len() + (if word_scan(s).1.len() > 0 { 1nat } else { 0nat }) == run_count(s),
        word_scan(s).1.len() > 0 <==> (s.len() > 0 && !is_space(s.last())),
    decreases s.len(),
{
    if s.len() == 0 {
        assert(joined(seq![]) + Seq::<char>::empty() =~= Seq::<char>::empty());
    } else {
        let p = s.drop_last();
        let c = s.last();
        lemma_word_scan_counts(p);
        let (done, open) = word_scan(p);
        if is_space(c) {
            if open.len() > 0 {
                let d2 = done.push(open);
                assert(d2.drop_last() =~= done);
                assert(joined(d2) + Seq::<char>::empty() =~= joined(done) + open);
            }
        } else {
            assert(joined(done) + open.push(c) =~= (joined(done) + open).push(c));
        }
    }
}

/// The words hold exactly the text's characters that are not white space,
/// in order, and there are as many words as runs of such characters.
pub proof fn lemma_words_cover_text(s: Seq<char>)
    ensures
        joined(words(s)) == without_spaces(s),
        words(s).len() == run_count(s),
{
    lemma_word_scan_counts(s);
    let (done, open) = word_scan(s);
    if open.len() > 0 {
        let w = done.push(open);
        assert(w.drop_last() =~= done);
    } else {
        assert(joined(done) + open =~= joined(done));
    }
}

} // verus!
