//! Helpers on strings and lists of strings.

use vstd::prelude::*;
use vstd::string::StrSliceExecFns;
use crate::syntax::text::str_eq;

verus! {

/// The character sequences that the strings of `v` hold.
pub open spec fn strs(v: Seq<String>) -> Seq<Seq<char>> {
    Seq::new(v.len(), |i: int| v[i]@)
}

/// A copy of `v`.
pub fn clone_strings(v: &Vec<String>) -> (r: Vec<String>)
    ensures
        strs(r@) == strs(v@),
{
    let mut out: Vec<String> = Vec::new();
    let mut i: usize = 0;
    while i < v.len()
        invariant
            i <= v@.len(),
            out@.len() == i,
            forall|j: int| 0 <= j < i ==> out@[j]@ == v@[j]@,
        decreases v@.len() - i,
    {
        out.push(v[i].clone());
        i = i + 1;
    }
    assert(strs(out@) =~= strs(v@));
    out
}

/// Whether two lists hold the same strings in the same order.
pub fn strings_eq(a: &Vec<String>, b: &Vec<String>) -> (r: bool)
    ensures
        r == (strs(a@) == strs(b@)),
{
    if a.len() != b.len() {
        assert(strs(a@).len() != strs(b@).len());
        return false;
    }
    let mut i: usize = 0;
    while i < a.len()
        invariant
            i <= a@.len(),
            a@.len() == b@.len(),
            forall|j: int| 0 <= j < i ==> a@[j]@ == b@[j]@,
        decreases a@.len() - i,
    {
        if !str_eq(a[i].as_str(), b[i].as_str()) {
            assert(strs(a@)[i as int] != strs(b@)[i as int]);
            return false;
        }
        i = i + 1;
    }
    assert(strs(a@) =~= strs(b@));
    true
}

/// Whether `s` is one of `v`.
pub fn contains_string(v: &Vec<String>, s: &str) -> (r: bool)
    ensures
        r == strs(v@).contains(s@),
{
    let ghost all = strs(v@);
    let mut i: usize = 0;
    while i < v.len()
        invariant
            i <= v@.len(),
            all == strs(v@),
            forall|j: int| 0 <= j < i ==> all[j] != s@,
        decreases v@.len() - i,
    {
        if str_eq(v[i].as_str(), s) {
            assert(all[i as int] == s@);
            return true;
        }
        i = i + 1;
    }
    false
}

/// Position of the first of `keys`, at or after `from`, that equals `key`.
pub open spec fn index_of(keys: Seq<Seq<char>>, key: Seq<char>, from: int) -> Option<int>
    decreases keys.len() - from,
{
    if from < 0 || from >= keys.len() {
        None
    } else if keys[from] == key {
        Some(from)
    } else {
        index_of(keys, key, from + 1)
    }
}

/// What `index_of` gives is the first position of the key at or after
/// `from`; it gives nothing only where the key does not occur there.
pub proof fn lemma_index_of(keys: Seq<Seq<char>>, key: Seq<char>, from: int)
    requires
        0 <= from,
    ensures
        match index_of(keys, key, from) {
            Some(i) => from <= i < keys.len() && keys[i] == key && forall|j: int|
                from <= j < i ==> keys[j] != key,
            None => forall|j: int| from <= j < keys.len() ==> keys[j] != key,
        },
    decreases keys.len() - from,
{
    if from < keys.len() && keys[from] != key {
        lemma_index_of(keys, key, from + 1);
    }
}

/// The first position of a key is the position `i` where the key stands at
/// `i` and nowhere before.
pub proof fn lemma_index_is(keys: Seq<Seq<char>>, key: Seq<char>, i: int)
    requires
        0 <= i < keys.len(),
        keys[i] == key,
        forall|j: int| 0 <= j < i ==> keys[j] != key,
    ensures
        index_of(keys, key, 0) == Some(i),
{
    lemma_index_of(keys, key, 0);
}

/// A key that stands nowhere has no position.
pub proof fn lemma_index_none(keys: Seq<Seq<char>>, key: Seq<char>)
    requires
        forall|j: int| 0 <= j < keys.len() ==> keys[j] != key,
    ensures
        index_of(keys, key, 0) is None,
{
    lemma_index_of(keys, key, 0);
}

/// A new key at the end is found at the end, and leaves the position of
/// every other key as it was.
pub proof fn lemma_index_push(keys: Seq<Seq<char>>, added: Seq<char>, key: Seq<char>)
    requires
        index_of(keys, added, 0) is None,
    ensures
        index_of(keys.push(added), key, 0) == (if key == added {
            Some(keys.len() as int)
        } else {
            index_of(keys, key, 0)
        }),
{
    lemma_index_of(keys, added, 0);
    lemma_index_of(keys, key, 0);
    lemma_index_of(keys.push(added), key, 0);
    if key == added {
        lemma_index_is(keys.push(added), key, keys.len() as int);
    } else {
        match index_of(keys, key, 0) {
            Some(i) => {
                lemma_index_is(keys.push(added), key, i);
            },
            None => {
                lemma_index_none(keys.push(added), key);
            },
        }
    }
}

/// A new key that is put in at position `p` is found there, and every other
/// key is found where it was, or one position further if it stood at `p` or
/// behind.
pub proof fn lemma_index_insert(keys: Seq<Seq<char>>, p: int, added: Seq<char>, key: Seq<char>)
    requires
        0 <= p <= keys.len(),
        index_of(keys, added, 0) is None,
    ensures
        index_of(keys.insert(p, added), key, 0) == (if key == added {
            Some(p)
        } else {
            match index_of(keys, key, 0) {
                Some(i) => Some(if i < p {
                    i
                } else {
                    i + 1
                }),
                None => None,
            }
        }),
{
    let after = keys.insert(p, added);
    lemma_index_of(keys, added, 0);
    lemma_index_of(keys, key, 0);
    if key == added {
        lemma_index_is(after, key, p);
    } else {
        match index_of(keys, key, 0) {
            Some(i) => {
                let j = if i < p {
                    i
                } else {
                    i + 1
                };
                assert forall|t: int| 0 <= t < j implies after[t] != key by {
                    if t < p {
                        assert(after[t] == keys[t]);
                    } else if t == p {
                    } else {
                        assert(after[t] == keys[t - 1]);
                    }
                }
                lemma_index_is(after, key, j);
            },
            None => {
                assert forall|t: int| 0 <= t < after.len() implies after[t] != key by {
                    if t < p {
                        assert(after[t] == keys[t]);
                    } else if t == p {
                    } else {
                        assert(after[t] == keys[t - 1]);
                    }
                }
                lemma_index_none(after, key);
            },
        }
    }
}

/// Position of the first of `keys` that equals `key`.
pub fn position(keys: &Vec<String>, key: &str) -> (r: Option<usize>)
    ensures
        match r {
            Some(i) => index_of(strs(keys@), key@, 0) == Some(i as int) && i < keys@.len(),
            None => index_of(strs(keys@), key@, 0) is None,
        },
{
    let ghost all = strs(keys@);
    let mut i: usize = 0;
    while i < keys.len()
        invariant
            i <= keys@.len(),
            all == strs(keys@),
            index_of(all, key@, 0) == index_of(all, key@, i as int),
        decreases keys@.len() - i,
    {
        if str_eq(keys[i].as_str(), key) {
            return Some(i);
        }
        i = i + 1;
    }
    None
}

/// Whether `c` is white space.
pub open spec fn is_space(c: char) -> bool {
    let n = c as u32;
    ||| n == 0x20
    ||| (0x09 <= n && n <= 0x0D)
    ||| n == 0x85
    ||| n == 0xA0
    ||| n == 0x1680
    ||| (0x2000 <= n && n <= 0x200A)
    ||| n == 0x2028
    ||| n == 0x2029
    ||| n == 0x202F
    ||| n == 0x205F
    ||| n == 0x3000
}

/// Whether `c` is white space.
pub fn char_is_space(c: char) -> (r: bool)
    ensures
        r == is_space(c),
{
    let n: u32 = c as u32;
    n == 0x20 || (0x09 <= n && n <= 0x0D) || n == 0x85 || n == 0xA0 || n == 0x1680 || (0x2000 <= n
        && n <= 0x200A) || n == 0x2028 || n == 0x2029 || n == 0x202F || n == 0x205F || n
        == 0x3000
}

/// Position of the first character of `s`, at or after `from`, that is no
/// white space; the length of `s` where there is none.
pub open spec fn skip_spaces(s: Seq<char>, from: int) -> int
    decreases s.len() - from,
{
    if from < 0 || from >= s.len() || !is_space(s[from]) {
        from
    } else {
        skip_spaces(s, from + 1)
    }
}

/// Position behind the last character of `s` before `to`, and not before
/// `low`, that is no white space; `low` where there is none.
pub open spec fn back_spaces(s: Seq<char>, low: int, to: int) -> int
    decreases to - low,
{
    if to <= low || to > s.len() || !is_space(s[to - 1]) {
        to
    } else {
        back_spaces(s, low, to - 1)
    }
}

/// The part of `s` between `from` and `to` without the white space at both
/// ends.
pub open spec fn trimmed_part(s: Seq<char>, from: int, to: int) -> Seq<char> {
    let a = skip_spaces(s.take(to), from);
    let b = back_spaces(s, a, to);
    s.subrange(a, b)
}

/// Position of the first comma of `s` at or after `from`; the length of `s`
/// where there is none.
pub open spec fn comma_from(s: Seq<char>, from: int) -> int
    decreases s.len() - from,
{
    if from < 0 || from >= s.len() || s[from] == ',' {
        from
    } else {
        comma_from(s, from + 1)
    }
}

/// The parts of `s` from `from` on that commas separate, each without the
/// white space at its ends.
pub open spec fn comma_items_from(s: Seq<char>, from: int) -> Seq<Seq<char>>
    decreases s.len() - from,
{
    if from < 0 || from > s.len() {
        Seq::empty()
    } else {
        let stop = comma_from(s, from);
        if from <= stop < s.len() {
            seq![trimmed_part(s, from, stop)] + comma_items_from(s, stop + 1)
        } else {
            seq![trimmed_part(s, from, s.len() as int)]
        }
    }
}

/// The parts of `s` that commas separate, each without the white space at
/// its ends. A text without comma has one part, the empty text too.
pub open spec fn comma_items(s: Seq<char>) -> Seq<Seq<char>> {
    comma_items_from(s, 0)
}

/// Splits `s` at its commas and trims each part.
pub fn split_commas(s: &str) -> (r: Vec<String>)
    ensures
        strs(r@) == comma_items(s@),
{
    let n: usize = s.unicode_len();
    let mut out: Vec<String> = Vec::new();
    let mut pos: usize = 0;
    let mut done: bool = false;
    assert(strs(out@) =~= Seq::<Seq<char>>::empty());
    while !done
        invariant
            pos <= n,
            n == s@.len(),
            !done ==> comma_items(s@) == strs(out@) + comma_items_from(s@, pos as int),
            done ==> comma_items(s@) == strs(out@),
        decreases n - pos + (if done { 0int } else { 1int }),
    {
        let mut stop: usize = pos;
        while stop < n && s.get_char(stop) != ','
            invariant
                pos <= stop <= n,
                n == s@.len(),
                comma_from(s@, pos as int) == comma_from(s@, stop as int),
            decreases n - stop,
        {
            stop = stop + 1;
        }
        let mut a: usize = pos;
        while a < stop && char_is_space(s.get_char(a))
            invariant
                pos <= a <= stop <= n,
                n == s@.len(),
                skip_spaces(s@.take(stop as int), pos as int) == skip_spaces(
                    s@.take(stop as int),
                    a as int,
                ),
            decreases stop - a,
        {
            a = a + 1;
        }
        let mut b: usize = stop;
        while b > a && char_is_space(s.get_char(b - 1))
            invariant
                a <= b <= stop <= n,
                n == s@.len(),
                back_spaces(s@, a as int, stop as int) == back_spaces(s@, a as int, b as int),
            decreases b - a,
        {
            b = b - 1;
        }
        let part: &str = s.substring_char(a, b);
        let ghost before = strs(out@);
        out.push(part.to_owned());
        proof {
            assert(part@ == trimmed_part(s@, pos as int, stop as int));
            assert(strs(out@) =~= before.push(part@));
        }
        if stop < n {
            proof {
                assert(before + (seq![part@] + comma_items_from(s@, stop + 1)) =~= before.push(
                    part@,
                ) + comma_items_from(s@, stop + 1));
            }
            pos = stop + 1;
        } else {
            proof {
                assert(before + seq![part@] =~= before.push(part@));
            }
            done = true;
        }
    }
    out
}

/// The decimal digits of `n`, the most significant first.
pub open spec fn decimal(n: nat) -> Seq<char>
    decreases n,
{
    if n < 10 {
        seq![digit(n)]
    } else {
        decimal(n / 10).push(digit(n % 10))
    }
}

/// The character of the digit `d`.
pub open spec fn digit(d: nat) -> char {
    if d == 0 {
        '0'
    } else if d == 1 {
        '1'
    } else if d == 2 {
        '2'
    } else if d == 3 {
        '3'
    } else if d == 4 {
        '4'
    } else if d == 5 {
        '5'
    } else if d == 6 {
        '6'
    } else if d == 7 {
        '7'
    } else if d == 8 {
        '8'
    } else {
        '9'
    }
}

/// `to_string` of a `usize`, which writes the number in decimal digits
/// without sign, padding or leading zeros.
#[verifier::external_body]
pub(crate) fn usize_to_string(n: usize) -> (s: String)
    ensures
        s@ == decimal(n as nat),
{
    n.to_string()
}

/// The lower-case form that `str::to_lowercase` gives of a string.
pub uninterp spec fn lowercase(s: Seq<char>) -> Seq<char>;

/// `str::to_lowercase`: the result depends on the characters alone.
#[verifier::external_body]
pub(crate) fn to_lowercase(s: &str) -> (r: String)
    ensures
        r@ == lowercase(s@),
{
    s.to_lowercase()
}

/// The string that holds the one character `c`.
#[verifier::external_body]
pub(crate) fn char_to_string(c: char) -> (s: String)
    ensures
        s@ == seq![c],
{
    c.to_string()
}

} // verus!
