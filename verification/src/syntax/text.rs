//! Byte-level text primitives: whitespace, trimming, substring search and
//! line splitting over UTF-8 encoded text.

use vstd::prelude::*;
use vstd::slice::slice_subrange;
use vstd::utf8::encode_utf8;

verus! {

/// One of the six ASCII bytes that Unicode counts as white space.
pub open spec fn is_ascii_space(b: u8) -> bool {
    b == 0x20 || (0x09 <= b && b <= 0x0d)
}

/// The two-byte encodings of U+0085 and U+00A0.
pub open spec fn is_pair_space(a: u8, b: u8) -> bool {
    a == 0xC2 && (b == 0x85 || b == 0xA0)
}

/// The three-byte encodings of U+1680, U+2000..U+200A, U+2028, U+2029,
/// U+202F, U+205F and U+3000.
pub open spec fn is_triple_space(a: u8, b: u8, c: u8) -> bool {
    ||| (a == 0xE1 && b == 0x9A && c == 0x80)
    ||| (a == 0xE2 && b == 0x80 && ((0x80 <= c && c <= 0x8A) || c == 0xA8 || c == 0xA9 || c == 0xAF))
    ||| (a == 0xE2 && b == 0x81 && c == 0x9F)
    ||| (a == 0xE3 && b == 0x80 && c == 0x80)
}

/// Length of the white-space scalar encoded at the front of `s`, 0 if `s`
/// does not start with one.
pub open spec fn lead_space(s: Seq<u8>) -> int {
    if s.len() >= 1 && is_ascii_space(s[0]) {
        1
    } else if s.len() >= 2 && is_pair_space(s[0], s[1]) {
        2
    } else if s.len() >= 3 && is_triple_space(s[0], s[1], s[2]) {
        3
    } else {
        0
    }
}

/// Length of the white-space scalar encoded at the back of `s`, 0 if `s`
/// does not end with one.
pub open spec fn tail_space(s: Seq<u8>) -> int {
    let n = s.len() as int;
    if n >= 1 && is_ascii_space(s[n - 1]) {
        1
    } else if n >= 2 && is_pair_space(s[n - 2], s[n - 1]) {
        2
    } else if n >= 3 && is_triple_space(s[n - 3], s[n - 2], s[n - 1]) {
        3
    } else {
        0
    }
}

/// `s` without its leading white space.
pub open spec fn trim_start(s: Seq<u8>) -> Seq<u8>
    decreases s.len(),
{
    let k = lead_space(s);
    if k > 0 {
        trim_start(s.skip(k))
    } else {
        s
    }
}

/// `s` without its trailing white space.
pub open spec fn trim_end(s: Seq<u8>) -> Seq<u8>
    decreases s.len(),
{
    let k = tail_space(s);
    if k > 0 {
        trim_end(s.take(s.len() - k))
    } else {
        s
    }
}

/// `s` without leading and trailing white space.
pub open spec fn trim(s: Seq<u8>) -> Seq<u8> {
    trim_end(trim_start(s))
}

/// Indentation of `s` in columns: every leading white-space scalar counts
/// one column, a tab four.
pub open spec fn indent(s: Seq<u8>) -> nat
    decreases s.len(),
{
    let k = lead_space(s);
    if k > 0 {
        (if s[0] == 0x09 { 4nat } else { 1nat }) + indent(s.skip(k))
    } else {
        0
    }
}

/// `needle` stands in `hay` at offset `i`.
pub open spec fn occurs_at(hay: Seq<u8>, needle: Seq<u8>, i: int) -> bool {
    &&& 0 <= i
    &&& i + needle.len() <= hay.len()
    &&& hay.subrange(i, i + needle.len()) == needle
}

/// Offset of the first occurrence of `needle` in `hay` at or after `from`.
pub open spec fn find_from(hay: Seq<u8>, needle: Seq<u8>, from: int) -> Option<int>
    decreases hay.len() + 1 - from,
{
    if from < 0 || from + needle.len() > hay.len() {
        None
    } else if occurs_at(hay, needle, from) {
        Some(from)
    } else {
        find_from(hay, needle, from + 1)
    }
}

/// Offset of the first occurrence of `needle` in `hay`.
pub open spec fn find(hay: Seq<u8>, needle: Seq<u8>) -> Option<int> {
    find_from(hay, needle, 0)
}

/// `hay` begins with `needle`.
pub open spec fn starts_with(hay: Seq<u8>, needle: Seq<u8>) -> bool {
    occurs_at(hay, needle, 0)
}

/// What `find_from` returns is the least offset, at or after `from`, at which
/// `needle` stands; it returns nothing only where there is no such offset.
pub proof fn lemma_find_from(hay: Seq<u8>, needle: Seq<u8>, from: int)
    requires
        0 <= from,
    ensures
        match find_from(hay, needle, from) {
            Some(i) => from <= i && occurs_at(hay, needle, i) && forall|j: int|
                from <= j < i ==> !occurs_at(hay, needle, j),
            None => forall|j: int| from <= j ==> !occurs_at(hay, needle, j),
        },
    decreases hay.len() + 1 - from,
{
    if from + needle.len() > hay.len() {
    } else if occurs_at(hay, needle, from) {
    } else {
        lemma_find_from(hay, needle, from + 1);
    }
}

/// Trimming does not lengthen.
pub proof fn lemma_trim_len(s: Seq<u8>)
    ensures
        trim(s).len() <= s.len(),
        trim_start(s).len() <= s.len(),
        trim_end(s).len() <= s.len(),
    decreases s.len(),
{
    if lead_space(s) > 0 {
        lemma_trim_len(s.skip(lead_space(s)));
    }
    if tail_space(s) > 0 {
        lemma_trim_len(s.take(s.len() - tail_space(s)));
    }
    lemma_trim_end_len(trim_start(s));
}

proof fn lemma_trim_end_len(s: Seq<u8>)
    ensures
        trim_end(s).len() <= s.len(),
    decreases s.len(),
{
    if tail_space(s) > 0 {
        lemma_trim_end_len(s.take(s.len() - tail_space(s)));
    }
}

fn space_at(s: &[u8], i: usize) -> (k: usize)
    requires
        i <= s@.len(),
    ensures
        k == lead_space(s@.skip(i as int)),
        i + k <= s@.len(),
{
    let n: usize = s.len();
    let ghost rest = s@.skip(i as int);
    if i < n {
        assert(rest[0] == s@[i as int]);
        let a: u8 = s[i];
        if a == 0x20 || (0x09 <= a && a <= 0x0d) {
            return 1;
        }
        if n - i >= 2 {
            assert(rest[1] == s@[i + 1]);
            let b: u8 = s[i + 1];
            if a == 0xC2 && (b == 0x85 || b == 0xA0) {
                return 2;
            }
            if n - i >= 3 {
                assert(rest[2] == s@[i + 2]);
                let c: u8 = s[i + 2];
                if (a == 0xE1 && b == 0x9A && c == 0x80) || (a == 0xE2 && b == 0x80 && ((0x80 <= c
                    && c <= 0x8A) || c == 0xA8 || c == 0xA9 || c == 0xAF)) || (a == 0xE2 && b
                    == 0x81 && c == 0x9F) || (a == 0xE3 && b == 0x80 && c == 0x80) {
                    return 3;
                }
            }
        }
    }
    0
}

fn space_before(s: &[u8], lo: usize, j: usize) -> (k: usize)
    requires
        lo <= j <= s@.len(),
    ensures
        k == tail_space(s@.subrange(lo as int, j as int)),
        lo + k <= j,
{
    let ghost part = s@.subrange(lo as int, j as int);
    let m: usize = j - lo;
    if m >= 1 {
        assert(part[m - 1] == s@[j - 1]);
        let c: u8 = s[j - 1];
        if c == 0x20 || (0x09 <= c && c <= 0x0d) {
            return 1;
        }
        if m >= 2 {
            assert(part[m - 2] == s@[j - 2]);
            let b: u8 = s[j - 2];
            if b == 0xC2 && (c == 0x85 || c == 0xA0) {
                return 2;
            }
            if m >= 3 {
                assert(part[m - 3] == s@[j - 3]);
                let a: u8 = s[j - 3];
                if (a == 0xE1 && b == 0x9A && c == 0x80) || (a == 0xE2 && b == 0x80 && ((0x80 <= c
                    && c <= 0x8A) || c == 0xA8 || c == 0xA9 || c == 0xAF)) || (a == 0xE2 && b
                    == 0x81 && c == 0x9F) || (a == 0xE3 && b == 0x80 && c == 0x80) {
                    return 3;
                }
            }
        }
    }
    0
}

/// The part of `s` between its leading and its trailing white space.
pub fn trim_bytes(s: &[u8]) -> (r: &[u8])
    ensures
        r@ == trim(s@),
        r@.len() <= s@.len(),
{
    let n: usize = s.len();
    let mut i: usize = 0;
    let mut k: usize = space_at(s, 0);
    assert(s@.skip(0) =~= s@);
    while k > 0
        invariant
            i <= n,
            n == s@.len(),
            k == lead_space(s@.skip(i as int)),
            i + k <= n,
            trim_start(s@) == trim_start(s@.skip(i as int)),
        decreases n - i,
    {
        assert(s@.skip(i as int).skip(k as int) =~= s@.skip(i + k));
        i = i + k;
        k = space_at(s, i);
    }
    assert(s@.skip(i as int) =~= s@.subrange(i as int, n as int));
    let mut j: usize = n;
    let mut t: usize = space_before(s, i, n);
    while t > 0
        invariant
            i <= j <= n,
            n == s@.len(),
            t == tail_space(s@.subrange(i as int, j as int)),
            i + t <= j,
            trim(s@) == trim_end(s@.subrange(i as int, j as int)),
        decreases j - i,
    {
        assert(s@.subrange(i as int, j as int).take(j - i - t) =~= s@.subrange(
            i as int,
            j - t,
        ));
        j = j - t;
        t = space_before(s, i, j);
    }
    slice_subrange(s, i, j)
}

/// Indentation of `s` in columns.
pub fn indent_of(s: &[u8]) -> (r: usize)
    requires
        s@.len() <= usize::MAX / 4,
    ensures
        r == indent(s@),
{
    let n: usize = s.len();
    let mut i: usize = 0;
    let mut total: usize = 0;
    let mut k: usize = space_at(s, 0);
    assert(s@.skip(0) =~= s@);
    while k > 0
        invariant
            i <= n,
            n == s@.len(),
            n <= usize::MAX / 4,
            k == lead_space(s@.skip(i as int)),
            i + k <= n,
            total <= 4 * i,
            indent(s@) == total + indent(s@.skip(i as int)),
        decreases n - i,
    {
        assert(s@.skip(i as int).skip(k as int) =~= s@.skip(i + k));
        assert(s@.skip(i as int)[0] == s@[i as int]);
        let w: usize = if s[i] == 0x09 { 4 } else { 1 };
        total = total + w;
        i = i + k;
        k = space_at(s, i);
    }
    total
}

/// Whether `needle` stands in `hay` at offset `i`.
pub fn matches_at(hay: &[u8], needle: &[u8], i: usize) -> (r: bool)
    ensures
        r == occurs_at(hay@, needle@, i as int),
{
    let n: usize = hay.len();
    let m: usize = needle.len();
    if i > n || m > n - i {
        return false;
    }
    let mut k: usize = 0;
    while k < m
        invariant
            k <= m,
            m == needle@.len(),
            n == hay@.len(),
            i + m <= n,
            forall|t: int| 0 <= t < k ==> hay@[i + t] == needle@[t],
        decreases m - k,
    {
        if hay[i + k] != needle[k] {
            assert(hay@.subrange(i as int, i + m)[k as int] == hay@[i + k]);
            return false;
        }
        k = k + 1;
    }
    assert(hay@.subrange(i as int, i + m) =~= needle@);
    true
}

/// Offset of the first occurrence of `needle` in `hay` at or after `from`.
pub fn find_bytes_from(hay: &[u8], needle: &[u8], from: usize) -> (r: Option<usize>)
    ensures
        match r {
            Some(i) => find_from(hay@, needle@, from as int) == Some(i as int),
            None => find_from(hay@, needle@, from as int) is None,
        },
{
    let n: usize = hay.len();
    let m: usize = needle.len();
    if from > n || m > n - from {
        return None;
    }
    if m == 0 {
        assert(hay@.subrange(from as int, from as int) =~= needle@);
        return Some(from);
    }
    let mut i: usize = from;
    while i <= n - m
        invariant
            from <= i,
            m <= n,
            i <= n - m + 1,
            0 < m,
            n == hay@.len(),
            m == needle@.len(),
            find_from(hay@, needle@, from as int) == find_from(hay@, needle@, i as int),
        decreases n - m + 1 - i,
    {
        if matches_at(hay, needle, i) {
            return Some(i);
        }
        i = i + 1;
    }
    None
}

/// Offset of the first occurrence of `needle` in `hay`.
pub fn find_bytes(hay: &[u8], needle: &[u8]) -> (r: Option<usize>)
    ensures
        match r {
            Some(i) => find(hay@, needle@) == Some(i as int),
            None => find(hay@, needle@) is None,
        },
{
    find_bytes_from(hay, needle, 0)
}

/// Whether `hay` begins with `needle`.
pub fn has_prefix(hay: &[u8], needle: &[u8]) -> (r: bool)
    ensures
        r == starts_with(hay@, needle@),
{
    matches_at(hay, needle, 0)
}

/// Whether two byte strings are equal.
pub fn bytes_eq(a: &[u8], b: &[u8]) -> (r: bool)
    ensures
        r == (a@ == b@),
{
    if a.len() != b.len() {
        return false;
    }
    let r = matches_at(a, b, 0);
    assert(a@.subrange(0, a@.len() as int) =~= a@);
    r
}

/// Whether `a` stands before `b` in the order of byte strings: at the first
/// position where they differ `a` has the smaller byte, or `a` ends there
/// and `b` goes on.
pub open spec fn bytes_less(a: Seq<u8>, b: Seq<u8>) -> bool
    decreases a.len(),
{
    if b.len() == 0 {
        false
    } else if a.len() == 0 {
        true
    } else if a[0] != b[0] {
        a[0] < b[0]
    } else {
        bytes_less(a.skip(1), b.skip(1))
    }
}

/// Of two different byte strings one stands before the other, and no byte
/// string stands before itself.
pub proof fn lemma_bytes_less_total(a: Seq<u8>, b: Seq<u8>)
    ensures
        a == b ==> !bytes_less(a, b),
        a != b ==> (bytes_less(a, b) <==> !bytes_less(b, a)),
    decreases a.len(),
{
    if a.len() > 0 && b.len() > 0 && a[0] == b[0] {
        lemma_bytes_less_total(a.skip(1), b.skip(1));
        if a.skip(1) == b.skip(1) {
            assert(a =~= seq![a[0]] + a.skip(1));
            assert(b =~= seq![b[0]] + b.skip(1));
        }
    } else if a.len() == 0 && b.len() == 0 {
        assert(a =~= b);
    }
}

/// What stands before a byte string stands before everything behind it.
pub proof fn lemma_bytes_less_transitive(a: Seq<u8>, b: Seq<u8>, c: Seq<u8>)
    requires
        bytes_less(a, b),
        bytes_less(b, c),
    ensures
        bytes_less(a, c),
    decreases a.len(),
{
    if a.len() > 0 && b.len() > 0 && c.len() > 0 && a[0] == b[0] && b[0] == c[0] {
        lemma_bytes_less_transitive(a.skip(1), b.skip(1), c.skip(1));
    }
}

/// Whether `a` stands before `b` in the order of byte strings.
pub fn is_less(a: &[u8], b: &[u8]) -> (r: bool)
    ensures
        r == bytes_less(a@, b@),
{
    let n: usize = a.len();
    let m: usize = b.len();
    let mut i: usize = 0;
    assert(a@.skip(0) =~= a@);
    assert(b@.skip(0) =~= b@);
    while i < n && i < m
        invariant
            i <= n,
            i <= m,
            n == a@.len(),
            m == b@.len(),
            bytes_less(a@, b@) == bytes_less(a@.skip(i as int), b@.skip(i as int)),
        decreases n - i,
    {
        assert(a@.skip(i as int)[0] == a@[i as int]);
        assert(b@.skip(i as int)[0] == b@[i as int]);
        if a[i] != b[i] {
            return a[i] < b[i];
        }
        assert(a@.skip(i as int).skip(1) =~= a@.skip(i + 1));
        assert(b@.skip(i as int).skip(1) =~= b@.skip(i + 1));
        i = i + 1;
    }
    i < m
}

/// Two character sequences with the same UTF-8 encoding are equal.
pub proof fn lemma_encoding_injective(a: Seq<char>, b: Seq<char>)
    requires
        encode_utf8(a) == encode_utf8(b),
    ensures
        a == b,
{
    vstd::utf8::encode_utf8_decode_utf8(a);
    vstd::utf8::encode_utf8_decode_utf8(b);
}

/// Whether two strings are equal.
pub fn str_eq(a: &str, b: &str) -> (r: bool)
    ensures
        r == (a@ == b@),
{
    let r = bytes_eq(a.as_bytes(), b.as_bytes());
    proof {
        if r {
            lemma_encoding_injective(a@, b@);
        }
    }
    r
}

/// Offset of the first line feed at or after `from`, or the end of `text`.
pub open spec fn line_stop(text: Seq<u8>, from: int) -> int
    decreases text.len() - from,
{
    if from < 0 || from >= text.len() || text[from] == 0x0A {
        from
    } else {
        line_stop(text, from + 1)
    }
}

/// `line` without a carriage return at its end.
pub open spec fn strip_cr(line: Seq<u8>) -> Seq<u8> {
    if line.len() > 0 && line.last() == 0x0D {
        line.drop_last()
    } else {
        line
    }
}

/// The lines of `text` from offset `from` on. A line ends at a line feed or
/// at the end of the text; the line feed, and a carriage return before it, do
/// not belong to the line. Text that ends with a line feed has no empty last
/// line.
pub open spec fn lines_from(text: Seq<u8>, from: int) -> Seq<Seq<u8>>
    decreases text.len() - from,
{
    if from < 0 || from >= text.len() {
        Seq::empty()
    } else {
        let stop = line_stop(text, from);
        if from <= stop < text.len() {
            seq![strip_cr(text.subrange(from, stop))] + lines_from(text, stop + 1)
        } else {
            seq![text.subrange(from, text.len() as int)]
        }
    }
}

/// The lines of `text`.
pub open spec fn lines(text: Seq<u8>) -> Seq<Seq<u8>> {
    lines_from(text, 0)
}

/// Sum of the lengths of `lines`.
pub open spec fn total_len(lines: Seq<Seq<u8>>) -> nat
    decreases lines.len(),
{
    if lines.len() == 0 {
        0
    } else {
        total_len(lines.drop_last()) + lines.last().len()
    }
}

/// The byte sequences that the slices of `v` hold.
pub open spec fn views(v: Seq<&[u8]>) -> Seq<Seq<u8>> {
    Seq::new(v.len(), |i: int| v[i]@)
}

/// Appending one sequence adds its length to the sum.
pub proof fn lemma_total_len_push(lines: Seq<Seq<u8>>, line: Seq<u8>)
    ensures
        total_len(lines.push(line)) == total_len(lines) + line.len(),
{
    assert(lines.push(line).drop_last() =~= lines);
}

/// Each sequence is no longer than the sum of all.
pub proof fn lemma_total_len_bounds(lines: Seq<Seq<u8>>, i: int)
    requires
        0 <= i < lines.len(),
    ensures
        lines[i].len() <= total_len(lines),
        total_len(lines.take(i)) + lines[i].len() <= total_len(lines),
    decreases lines.len(),
{
    if i == lines.len() - 1 {
        assert(lines.take(i) =~= lines.drop_last());
    } else {
        lemma_total_len_bounds(lines.drop_last(), i);
        assert(lines.drop_last().take(i) =~= lines.take(i));
    }
}

/// Splits `text` into its lines.
pub fn split_lines(text: &[u8]) -> (r: Vec<&[u8]>)
    ensures
        views(r@) == lines(text@),
        r@.len() <= text@.len(),
        total_len(views(r@)) <= text@.len(),
{
    let n: usize = text.len();
    let mut out: Vec<&[u8]> = Vec::new();
    let mut pos: usize = 0;
    assert(views(out@) =~= Seq::<Seq<u8>>::empty());
    while pos < n
        invariant
            pos <= n,
            n == text@.len(),
            lines(text@) == views(out@) + lines_from(text@, pos as int),
            out@.len() <= pos,
            total_len(views(out@)) <= pos,
        decreases n - pos,
    {
        let mut stop: usize = pos;
        while stop < n && text[stop] != 0x0A
            invariant
                pos <= stop <= n,
                n == text@.len(),
                line_stop(text@, pos as int) == line_stop(text@, stop as int),
            decreases n - stop,
        {
            stop = stop + 1;
        }
        let ghost before = views(out@);
        if stop < n {
            let mut end: usize = stop;
            if end > pos && text[end - 1] == 0x0D {
                end = end - 1;
            }
            let line: &[u8] = slice_subrange(text, pos, end);
            assert(line@ =~= strip_cr(text@.subrange(pos as int, stop as int)));
            out.push(line);
            proof {
                assert(views(out@) =~= before.push(line@));
                lemma_total_len_push(before, line@);
                assert(before + (seq![line@] + lines_from(text@, stop + 1)) =~= before.push(line@)
                    + lines_from(text@, stop + 1));
            }
            pos = stop + 1;
        } else {
            let line: &[u8] = slice_subrange(text, pos, n);
            out.push(line);
            proof {
                assert(views(out@) =~= before.push(line@));
                lemma_total_len_push(before, line@);
                assert(lines_from(text@, n as int) =~= Seq::<Seq<u8>>::empty());
                assert(before + seq![line@] =~= before.push(line@) + lines_from(text@, n as int));
            }
            pos = n;
        }
    }
    assert(lines_from(text@, n as int) =~= Seq::<Seq<u8>>::empty());
    assert(views(out@) + Seq::<Seq<u8>>::empty() =~= views(out@));
    out
}

} // verus!
