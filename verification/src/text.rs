//! Text primitives over sequences of characters: trimming, splitting into
//! fields and words, substring search and decimal rendering.
//!
//! Every executable function here is stated against a spec function on
//! `Seq<char>`, the view of `str` and `String`.

use vstd::prelude::*;
use vstd::string::*;
use vstd::std_specs::iter::IteratorSpec;

verus! {

/// A set of characters that can delimit or pad a piece of text.
#[derive(Clone, Copy, Debug)]
pub enum CharClass {
    /// The characters with the Unicode property `White_Space`.
    Whitespace,
    /// One given character.
    Exactly(char),
}

/// Whether `c` has the Unicode property `White_Space`.
pub open spec fn is_whitespace(c: char) -> bool {
    let n = c as u32;
    ||| 0x09 <= n <= 0x0D
    ||| n == 0x20
    ||| n == 0x85
    ||| n == 0xA0
    ||| n == 0x1680
    ||| 0x2000 <= n <= 0x200A
    ||| n == 0x2028
    ||| n == 0x2029
    ||| n == 0x202F
    ||| n == 0x205F
    ||| n == 0x3000
}

impl CharClass {
    /// Whether `c` belongs to the class.
    pub open spec fn has(self, c: char) -> bool {
        match self {
            CharClass::Whitespace => is_whitespace(c),
            CharClass::Exactly(d) => c == d,
        }
    }

    /// Tests whether `c` belongs to the class.
    pub fn contains(&self, c: char) -> (r: bool)
        ensures
            r == self.has(c),
    {
        match self {
            CharClass::Whitespace => {
                let n: u32 = c as u32;
                (0x09 <= n && n <= 0x0D) || n == 0x20 || n == 0x85 || n == 0xA0 || n == 0x1680 || (
                0x2000 <= n && n <= 0x200A) || n == 0x2028 || n == 0x2029 || n == 0x202F || n
                    == 0x205F || n == 0x3000
            },
            CharClass::Exactly(d) => c == *d,
        }
    }
}

/// How many characters at the front of `s` belong to `class`.
pub open spec fn leading_in(s: Seq<char>, class: CharClass) -> nat
    decreases s.len(),
{
    if s.len() > 0 && class.has(s[0]) {
        1 + leading_in(s.drop_first(), class)
    } else {
        0
    }
}

/// How many characters at the front of `s` do not belong to `class`.
pub open spec fn leading_not_in(s: Seq<char>, class: CharClass) -> nat
    decreases s.len(),
{
    if s.len() > 0 && !class.has(s[0]) {
        1 + leading_not_in(s.drop_first(), class)
    } else {
        0
    }
}

/// How many characters at the back of `s` belong to `class`.
pub open spec fn trailing_in(s: Seq<char>, class: CharClass) -> nat
    decreases s.len(),
{
    if s.len() > 0 && class.has(s.last()) {
        1 + trailing_in(s.drop_last(), class)
    } else {
        0
    }
}

/// `s` without its longest prefix made of characters of `class`.
pub open spec fn without_leading(s: Seq<char>, class: CharClass) -> Seq<char> {
    s.skip(leading_in(s, class) as int)
}

/// `s` without its longest suffix made of characters of `class`.
pub open spec fn without_trailing(s: Seq<char>, class: CharClass) -> Seq<char> {
    s.take(s.len() - trailing_in(s, class))
}

/// `s` without the whitespace at either end.
pub open spec fn trimmed(s: Seq<char>) -> Seq<char> {
    without_trailing(without_leading(s, CharClass::Whitespace), CharClass::Whitespace)
}

/// The pieces of `s` between the characters of `sep`, in order. Two
/// separators in a row, or one at either end, give an empty piece, so there
/// is always one more piece than there are separators.
pub open spec fn fields(s: Seq<char>, sep: CharClass) -> Seq<Seq<char>>
    decreases s.len(),
{
    let k = leading_not_in(s, sep) as int;
    if k < s.len() {
        seq![s.take(k)] + fields(s.skip(k + 1), sep)
    } else {
        seq![s]
    }
}

/// The pieces of `pieces` that hold at least one character, in order.
pub open spec fn nonempty(pieces: Seq<Seq<char>>) -> Seq<Seq<char>>
    decreases pieces.len(),
{
    if pieces.len() == 0 {
        pieces
    } else if pieces.last().len() > 0 {
        nonempty(pieces.drop_last()).push(pieces.last())
    } else {
        nonempty(pieces.drop_last())
    }
}

/// The maximal runs of characters of `s` that are not whitespace, in order.
pub open spec fn words(s: Seq<char>) -> Seq<Seq<char>> {
    nonempty(fields(s, CharClass::Whitespace))
}

/// Whether `pat` stands in `s` at position `i`.
pub open spec fn occurs_at(s: Seq<char>, pat: Seq<char>, i: int) -> bool {
    &&& 0 <= i
    &&& i + pat.len() <= s.len()
    &&& s.subrange(i, i + pat.len()) == pat
}

/// Whether `pat` stands somewhere in `s` as a contiguous run.
pub open spec fn has_substring(s: Seq<char>, pat: Seq<char>) -> bool {
    exists|i: int| occurs_at(s, pat, i)
}

/// The character of the decimal digit `d`.
pub open spec fn digit_char(d: nat) -> char
    recommends
        d < 10,
{
    if d == 0 {
        '0'
    } else if d == 1 {
        '1'
    } else if d == 2 {
        '2'
    } else if d == 3 {
        '3'
    } else if d == 4 {
        '4'
    } else if d == 5 {
        '5'
    } else if d == 6 {
        '6'
    } else if d == 7 {
        '7'
    } else if d == 8 {
        '8'
    } else {
        '9'
    }
}

/// The decimal numeral of `n`, without leading zeros.
pub open spec fn decimal(n: nat) -> Seq<char>
    decreases n,
{
    if n < 10 {
        seq![digit_char(n)]
    } else {
        decimal(n / 10).push(digit_char(n % 10))
    }
}

/// The decimal numeral of `i`, with a minus sign in front of a negative one.
pub open spec fn signed_decimal(i: int) -> Seq<char> {
    if i < 0 {
        seq!['-'] + decimal((-i) as nat)
    } else {
        decimal(i as nat)
    }
}

/// The views of the strings of `v`, in order.
pub open spec fn texts(v: Seq<String>) -> Seq<Seq<char>> {
    Seq::new(v.len(), |i: int| v[i]@)
}

/// If the first `k` characters of `s` belong to `class` and the next one, if
/// any, does not, then `k` is the length of the leading run.
pub proof fn lemma_leading_in(s: Seq<char>, class: CharClass, k: int)
    requires
        0 <= k <= s.len(),
        forall|j: int| 0 <= j < k ==> class.has(#[trigger] s[j]),
        k < s.len() ==> !class.has(s[k]),
    ensures
        leading_in(s, class) == k,
    decreases k,
{
    if k > 0 {
        let rest = s.drop_first();
        assert forall|j: int| 0 <= j < k - 1 implies class.has(#[trigger] rest[j]) by {
            assert(rest[j] == s[j + 1]);
        }
        lemma_leading_in(rest, class, k - 1);
    }
}

/// If the first `k` characters of `s` are outside `class` and the next one,
/// if any, is inside, then `k` is the length of the leading run outside.
pub proof fn lemma_leading_not_in(s: Seq<char>, class: CharClass, k: int)
    requires
        0 <= k <= s.len(),
        forall|j: int| 0 <= j < k ==> !class.has(#[trigger] s[j]),
        k < s.len() ==> class.has(s[k]),
    ensures
        leading_not_in(s, class) == k,
    decreases k,
{
    if k > 0 {
        let rest = s.drop_first();
        assert forall|j: int| 0 <= j < k - 1 implies !class.has(#[trigger] rest[j]) by {
            assert(rest[j] == s[j + 1]);
        }
        lemma_leading_not_in(rest, class, k - 1);
    }
}

/// If the last `k` characters of `s` belong to `class` and the one before
/// them, if any, does not, then `k` is the length of the trailing run.
pub proof fn lemma_trailing_in(s: Seq<char>, class: CharClass, k: int)
    requires
        0 <= k <= s.len(),
        forall|j: int| s.len() - k <= j < s.len() ==> class.has(#[trigger] s[j]),
        k < s.len() ==> !class.has(s[s.len() - k - 1]),
    ensures
        trailing_in(s, class) == k,
    decreases k,
{
    if k > 0 {
        let rest = s.drop_last();
        assert forall|j: int| rest.len() - (k - 1) <= j < rest.len() implies class.has(
            #[trigger] rest[j],
        ) by {
            assert(rest[j] == s[j]);
        }
        lemma_trailing_in(rest, class, k - 1);
    }
}

/// Dropping the empty pieces after adding one piece at the end.
pub proof fn lemma_nonempty_push(pieces: Seq<Seq<char>>, piece: Seq<char>)
    ensures
        nonempty(pieces.push(piece)) == if piece.len() > 0 {
            nonempty(pieces).push(piece)
        } else {
            nonempty(pieces)
        },
{
    assert(pieces.push(piece).drop_last() =~= pieces);
}

/// The characters of `s`, one by one.
pub fn chars_of(s: &str) -> (v: Vec<char>)
    ensures
        v@ == s@,
{
    let mut v: Vec<char> = Vec::new();
    for c in it: s.chars()
        invariant
            v@ == it.seq().take(it.index() as int),
            it.seq() == s@,
    {
        v.push(c);
    }
    v
}

/// Removes from the front of `s` every character of `class`, up to the first
/// character outside it.
pub fn strip_leading<'a>(s: &'a str, class: CharClass) -> (r: &'a str)
    ensures
        r@ == without_leading(s@, class),
{
    let chars = chars_of(s);
    let n = chars.len();
    let mut i: usize = 0;
    while i < n && class.contains(chars[i])
        invariant
            n == chars@.len(),
            i <= n,
            forall|j: int| 0 <= j < i ==> class.has(#[trigger] chars@[j]),
        decreases n - i,
    {
        i += 1;
    }
    proof {
        lemma_leading_in(s@, class, i as int);
    }
    s.substring_char(i, n)
}

/// Removes from the back of `s` every character of `class`, down to the last
/// character outside it.
pub fn strip_trailing<'a>(s: &'a str, class: CharClass) -> (r: &'a str)
    ensures
        r@ == without_trailing(s@, class),
{
    let chars = chars_of(s);
    let n = chars.len();
    let mut end: usize = n;
    while end > 0 && class.contains(chars[end - 1])
        invariant
            n == chars@.len(),
            end <= n,
            forall|j: int| end <= j < n ==> class.has(#[trigger] chars@[j]),
        decreases end,
    {
        end -= 1;
    }
    proof {
        lemma_trailing_in(s@, class, n - end);
    }
    s.substring_char(0, end)
}

/// Removes the whitespace at both ends of `s`.
pub fn trim<'a>(s: &'a str) -> (r: &'a str)
    ensures
        r@ == trimmed(s@),
{
    strip_trailing(strip_leading(s, CharClass::Whitespace), CharClass::Whitespace)
}

/// Splits `s` at every character of `sep`.
pub fn split(s: &str, sep: CharClass) -> (pieces: Vec<String>)
    ensures
        texts(pieces@) == fields(s@, sep),
{
    let chars = chars_of(s);
    let n = chars.len();
    let mut pieces: Vec<String> = Vec::new();
    let mut start: usize = 0;
    let mut i: usize = 0;
    proof {
        assert(s@.skip(0) =~= s@);
        assert(texts(pieces@) + fields(s@, sep) =~= fields(s@, sep));
    }
    while i < n
        invariant
            n == chars@.len(),
            chars@ == s@,
            start <= i <= n,
            forall|j: int| start <= j < i ==> !sep.has(#[trigger] chars@[j]),
            fields(s@, sep) == texts(pieces@) + fields(s@.skip(start as int), sep),
        decreases n - i,
    {
        if sep.contains(chars[i]) {
            let piece = s.substring_char(start, i).to_owned();
            proof {
                let tail = s@.skip(start as int);
                assert forall|j: int| 0 <= j < i - start implies !sep.has(#[trigger] tail[j]) by {
                    assert(tail[j] == chars@[start + j]);
                }
                lemma_leading_not_in(tail, sep, i - start);
                assert(tail.take(i - start) =~= s@.subrange(start as int, i as int));
                assert(tail.skip(i - start + 1) =~= s@.skip(i + 1));
                assert(texts(pieces@.push(piece)) =~= texts(pieces@) + seq![piece@]);
            }
            pieces.push(piece);
            start = i + 1;
        }
        i += 1;
    }
    let piece = s.substring_char(start, n).to_owned();
    proof {
        let tail = s@.skip(start as int);
        assert forall|j: int| 0 <= j < n - start implies !sep.has(#[trigger] tail[j]) by {
            assert(tail[j] == chars@[start + j]);
        }
        lemma_leading_not_in(tail, sep, n - start);
        assert(tail =~= s@.subrange(start as int, n as int));
        assert(texts(pieces@.push(piece)) =~= texts(pieces@) + seq![piece@]);
    }
    pieces.push(piece);
    pieces
}

/// Keeps the strings of `pieces` that are not empty.
pub fn drop_empty(pieces: Vec<String>) -> (kept: Vec<String>)
    ensures
        texts(kept@) == nonempty(texts(pieces@)),
{
    let mut kept: Vec<String> = Vec::new();
    let n = pieces.len();
    let mut i: usize = 0;
    while i < n
        invariant
            n == pieces@.len(),
            i <= n,
            texts(kept@) == nonempty(texts(pieces@).take(i as int)),
        decreases n - i,
    {
        let piece = pieces[i].clone();
        proof {
            let all = texts(pieces@);
            assert(all.take(i + 1) =~= all.take(i as int).push(piece@));
            lemma_nonempty_push(all.take(i as int), piece@);
            assert(texts(kept@.push(piece)) =~= texts(kept@).push(piece@));
        }
        if !piece.as_str().is_empty() {
            kept.push(piece);
        }
        i += 1;
    }
    proof {
        assert(texts(pieces@).take(n as int) =~= texts(pieces@));
    }
    kept
}

/// Splits `s` into its words: the runs of characters between whitespace.
pub fn split_whitespace(s: &str) -> (r: Vec<String>)
    ensures
        texts(r@) == words(s@),
{
    drop_empty(split(s, CharClass::Whitespace))
}

/// Tells whether `pat` stands somewhere in `s`.
pub fn contains(s: &str, pat: &str) -> (r: bool)
    ensures
        r == has_substring(s@, pat@),
{
    let text = chars_of(s);
    let want = chars_of(pat);
    let n = text.len();
    let m = want.len();
    if m > n {
        return false;
    }
    let mut i: usize = 0;
    while i <= n - m
        invariant
            n == text@.len(),
            m == want@.len(),
            text@ == s@,
            want@ == pat@,
            m <= n,
            i <= n - m + 1,
            forall|k: int| 0 <= k < i ==> !occurs_at(s@, pat@, k),
        decreases n - m + 1 - i,
    {
        let mut j: usize = 0;
        while j < m && text[i + j] == want[j]
            invariant
                n == text@.len(),
                m == want@.len(),
                i + m <= n,
                j <= m,
                forall|k: int| 0 <= k < j ==> text@[i + k] == want@[k],
            decreases m - j,
        {
            j += 1;
        }
        if j == m {
            proof {
                assert(s@.subrange(i as int, i + m) =~= pat@);
                assert(occurs_at(s@, pat@, i as int));
            }
            return true;
        }
        proof {
            assert(s@.subrange(i as int, i + m)[j as int] == text@[i + j]);
        }
        i += 1;
    }
    false
}

/// The one-character string of the decimal digit `d`.
fn digit_str(d: u8) -> (r: &'static str)
    requires
        d < 10,
    ensures
        r@ == seq![digit_char(d as nat)],
{
    proof {
        reveal_strlit("0");
        reveal_strlit("1");
        reveal_strlit("2");
        reveal_strlit("3");
        reveal_strlit("4");
        reveal_strlit("5");
        reveal_strlit("6");
        reveal_strlit("7");
        reveal_strlit("8");
        reveal_strlit("9");
    }
    let r = if d == 0 {
        "0"
    } else if d == 1 {
        "1"
    } else if d == 2 {
        "2"
    } else if d == 3 {
        "3"
    } else if d == 4 {
        "4"
    } else if d == 5 {
        "5"
    } else if d == 6 {
        "6"
    } else if d == 7 {
        "7"
    } else if d == 8 {
        "8"
    } else {
        "9"
    };
    assert(r@ =~= seq![digit_char(d as nat)]);
    r
}

/// Appends the decimal numeral of `n` to `out`.
pub fn push_decimal(out: &mut String, n: u64)
    ensures
        final(out)@ == old(out)@ + decimal(n as nat),
    decreases n,
{
    if n >= 10 {
        push_decimal(out, n / 10);
    }
    let d: u8 = (n % 10) as u8;
    out.append(digit_str(d));
    proof {
        if n >= 10 {
            assert(old(out)@ + decimal((n / 10) as nat) + seq![digit_char((n % 10) as nat)]
                =~= old(out)@ + decimal(n as nat));
        }
    }
}

/// Appends the decimal numeral of `i` to `out`, with a minus sign in front
/// of a negative one.
pub fn push_signed_decimal(out: &mut String, i: i64)
    ensures
        final(out)@ == old(out)@ + signed_decimal(i as int),
{
    if i < 0 {
        proof {
            reveal_strlit("-");
        }
        out.append("-");
        let magnitude: u64 = ((-(i + 1)) as u64) + 1;
        push_decimal(out, magnitude);
        proof {
            assert("-"@ =~= seq!['-']);
            assert(old(out)@ + seq!['-'] + decimal(magnitude as nat) =~= old(out)@
                + signed_decimal(i as int));
        }
    } else {
        push_decimal(out, i as u64);
    }
}

} // verus!
