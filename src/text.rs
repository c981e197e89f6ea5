//! Character-level helpers: splitting a line into words, reading and
//! writing decimal numbers, joining words back together.
use vstd::prelude::*;
use vstd::std_specs::iter::IteratorSpec;

verus! {

/// Separators between the words of a protocol line.
pub open spec fn is_space(c: char) -> bool {
    c == ' ' || c == '\t' || c == '\r' || c == '\n'
}

pub open spec fn is_digit(c: char) -> bool {
    48 <= (c as u32) && (c as u32) <= 57
}

/// A non-empty run of decimal digits.
pub open spec fn all_digits(s: Seq<char>) -> bool {
    s.len() > 0 && forall|i: int| 0 <= i < s.len() ==> is_digit(#[trigger] s[i])
}

/// Value of a run of decimal digits, most significant first.
pub open spec fn digits_value(s: Seq<char>) -> nat
    decreases s.len(),
{
    if s.len() == 0 {
        0
    } else {
        digits_value(s.drop_last()) * 10 + ((s.last() as u32) - 48) as nat
    }
}

/// The unsigned number a word spells, if it is one and does not exceed `max`.
pub open spec fn unsigned_of(s: Seq<char>, max: nat) -> Option<nat> {
    if all_digits(s) && digits_value(s) <= max {
        Some(digits_value(s))
    } else {
        None
    }
}

/// The signed 32-bit number a word spells: digits, with an optional leading `-`.
pub open spec fn signed_of(s: Seq<char>) -> Option<int> {
    if s.len() > 0 && s[0] == '-' {
        let rest = s.subrange(1, s.len() as int);
        if all_digits(rest) && digits_value(rest) <= 0x8000_0000 {
            Some(-(digits_value(rest) as int))
        } else {
            None
        }
    } else {
        match unsigned_of(s, 0x7fff_ffff) {
            Some(v) => Some(v as int),
            None => None,
        }
    }
}

/// Splitting `s` into words, `cur` being the word read so far.
pub open spec fn words_from(s: Seq<char>, cur: Seq<char>) -> Seq<Seq<char>>
    decreases s.len(),
{
    if s.len() == 0 {
        if cur.len() == 0 {
            seq![]
        } else {
            seq![cur]
        }
    } else if is_space(s[0]) {
        if cur.len() == 0 {
            words_from(s.drop_first(), seq![])
        } else {
            seq![cur] + words_from(s.drop_first(), seq![])
        }
    } else {
        words_from(s.drop_first(), cur.push(s[0]))
    }
}

/// The maximal runs of non-space characters of `s`, in order.
pub open spec fn words(s: Seq<char>) -> Seq<Seq<char>> {
    words_from(s, seq![])
}

/// The words `ws` with one space between each two.
pub open spec fn join_words(ws: Seq<Seq<char>>) -> Seq<char>
    decreases ws.len(),
{
    if ws.len() == 0 {
        seq![]
    } else if ws.len() == 1 {
        ws[0]
    } else {
        join_words(ws.drop_last()) + seq![' '] + ws.last()
    }
}

pub open spec fn digit_char(d: nat) -> char {
    if d == 0 {
        '0'
    } else if d == 1 {
        '1'
    } else if d == 2 {
        '2'
    } else if d == 3 {
        '3'
    } else if d == 4 {
        '4'
    } else if d == 5 {
        '5'
    } else if d == 6 {
        '6'
    } else if d == 7 {
        '7'
    } else if d == 8 {
        '8'
    } else {
        '9'
    }
}

/// Decimal notation of `n`, without leading zeros.
pub open spec fn decimal_of(n: nat) -> Seq<char>
    decreases n,
{
    if n < 10 {
        seq![digit_char(n)]
    } else {
        decimal_of(n / 10).push(digit_char(n % 10))
    }
}

pub open spec fn view_words(v: Seq<Vec<char>>) -> Seq<Seq<char>> {
    v.map_values(|w: Vec<char>| w@)
}

pub open spec fn view_strings(v: Seq<String>) -> Seq<Seq<char>> {
    v.map_values(|w: String| w@)
}

/// The characters of `s`, in order.
pub(crate) fn chars_of(s: &str) -> (r: Vec<char>)
    ensures
        r@ == s@,
{
    broadcast use vstd::string::group_string_axioms;

    let mut it = s.chars();
    let mut out: Vec<char> = Vec::new();
    loop
        invariant
            it.obeys_prophetic_iter_laws(),
            it.decrease() is Some,
            out@ + it.remaining() == s@,
        ensures
            out@ == s@,
        decreases it.decrease()->0,
    {
        match it.next() {
            Some(c) => {
                out.push(c);
                assert(out@ + it.remaining() =~= s@);
            },
            None => {
                assert(out@ =~= s@);
                break;
            },
        }
    }
    out
}

/// Relies on `FromIterator<&char> for String`: a string of exactly these characters.
#[verifier::external_body]
pub(crate) fn string_of(chars: &Vec<char>) -> (r: String)
    ensures
        r@ == chars@,
{
    chars.iter().collect()
}

/// Whether the word `w` is exactly the text `lit`.
pub fn word_is(w: &Vec<char>, lit: &str) -> (r: bool)
    ensures
        r == (w@ == lit@),
{
    let n = lit.unicode_len();
    if w.len() != n {
        return false;
    }
    let mut i: usize = 0;
    while i < n
        invariant
            n == lit@.len(),
            w@.len() == n,
            i <= n,
            forall|j: int| 0 <= j < i ==> w@[j] == lit@[j],
        decreases n - i,
    {
        if w[i] != lit.get_char(i) {
            return false;
        }
        i = i + 1;
    }
    assert(w@ =~= lit@);
    true
}

fn digit_value(c: char) -> (r: u64)
    requires
        is_digit(c),
    ensures
        r == (c as u32) - 48,
        r < 10,
{
    ((c as u32) - 48) as u64
}

pub fn char_is_digit(c: char) -> (r: bool)
    ensures
        r == is_digit(c),
{
    48 <= (c as u32) && (c as u32) <= 57
}

proof fn lemma_digits_prefix(s: Seq<char>, j: int)
    requires
        0 <= j < s.len(),
    ensures
        s.subrange(0, j + 1).drop_last() =~= s.subrange(0, j),
        s.subrange(0, j + 1).last() == s[j],
{
}

/// Extending a run of digits never lowers its value.
proof fn lemma_digits_grow(s: Seq<char>, j: int, k: int)
    requires
        0 <= j <= k <= s.len(),
    ensures
        digits_value(s.subrange(0, j)) <= digits_value(s.subrange(0, k)),
    decreases k - j,
{
    if j < k {
        lemma_digits_grow(s, j, k - 1);
        lemma_digits_prefix(s, k - 1);
    }
}

/// Reads the digits `w[start..]` as a number no greater than `max`.
pub fn parse_unsigned(w: &Vec<char>, start: usize, max: u64) -> (r: Option<u64>)
    requires
        start <= w@.len(),
    ensures
        r == (match unsigned_of(w@.subrange(start as int, w@.len() as int), max as nat) {
            Some(v) => Some(v as u64),
            None => None::<u64>,
        }),
{
    let ghost s = w@.subrange(start as int, w@.len() as int);
    let n = w.len();
    if start == n {
        return None;
    }
    let mut acc: u64 = 0;
    let mut i: usize = start;
    while i < n
        invariant
            s == w@.subrange(start as int, n as int),
            n == w@.len(),
            start < n,
            start <= i <= n,
            forall|j: int| 0 <= j < i - start ==> is_digit(#[trigger] s[j]),
            acc == digits_value(s.subrange(0, i - start)),
            acc <= max,
        decreases n - i,
    {
        let c = w[i];
        assert(c == s[i - start]);
        if !char_is_digit(c) {
            assert(!all_digits(s));
            return None;
        }
        let d = digit_value(c);
        proof {
            lemma_digits_prefix(s, i - start);
        }
        if d > max || acc > (max - d) / 10 {
            proof {
                if d <= max {
                    assert(acc * 10 + d > max) by (nonlinear_arith)
                        requires
                            acc > (max - d) / 10,
                            d <= max,
                    ;
                }
                if all_digits(s) {
                    lemma_digits_grow(s, i - start + 1, s.len() as int);
                    assert(s.subrange(0, s.len() as int) =~= s);
                }
            }
            return None;
        }
        assert(acc * 10 + d <= max) by (nonlinear_arith)
            requires
                acc <= (max - d) / 10,
                d <= max,
        ;
        acc = acc * 10 + d;
        i = i + 1;
    }
    assert(s.subrange(0, s.len() as int) =~= s);
    Some(acc)
}

/// Reads a whole word as a signed 32-bit number.
pub fn parse_signed(w: &Vec<char>) -> (r: Option<i32>)
    ensures
        r == (match signed_of(w@) {
            Some(v) => Some(v as i32),
            None => None::<i32>,
        }),
{
    if w.len() > 0 && w[0] == '-' {
        match parse_unsigned(w, 1, 0x8000_0000) {
            Some(v) => Some((0 - (v as i64)) as i32),
            None => None,
        }
    } else {
        assert(w@.subrange(0, w@.len() as int) =~= w@);
        match parse_unsigned(w, 0, 0x7fff_ffff) {
            Some(v) => Some(v as i32),
            None => None,
        }
    }
}

fn digit_char_of(d: u64) -> (c: char)
    requires
        d < 10,
    ensures
        c == digit_char(d as nat),
{
    if d == 0 {
        '0'
    } else if d == 1 {
        '1'
    } else if d == 2 {
        '2'
    } else if d == 3 {
        '3'
    } else if d == 4 {
        '4'
    } else if d == 5 {
        '5'
    } else if d == 6 {
        '6'
    } else if d == 7 {
        '7'
    } else if d == 8 {
        '8'
    } else {
        '9'
    }
}

/// The decimal digits of `n`.
pub fn decimal_chars(n: u64) -> (r: Vec<char>)
    ensures
        r@ == decimal_of(n as nat),
    decreases n,
{
    if n < 10 {
        let mut v: Vec<char> = Vec::new();
        v.push(digit_char_of(n));
        assert(v@ =~= seq![digit_char(n as nat)]);
        v
    } else {
        let mut v = decimal_chars(n / 10);
        v.push(digit_char_of(n % 10));
        v
    }
}

/// Appends the characters of `s` to `v`.
pub fn push_all(v: &mut Vec<char>, s: &Vec<char>)
    ensures
        final(v)@ == old(v)@ + s@,
{
    let mut i: usize = 0;
    while i < s.len()
        invariant
            i <= s@.len(),
            v@ == old(v)@ + s@.subrange(0, i as int),
        decreases s@.len() - i,
    {
        v.push(s[i]);
        i = i + 1;
        assert(v@ =~= old(v)@ + s@.subrange(0, i as int));
    }
    assert(s@.subrange(0, s@.len() as int) =~= s@);
}

/// Appends the characters of `s` to `v`.
pub fn push_str(v: &mut Vec<char>, s: &str)
    ensures
        final(v)@ == old(v)@ + s@,
{
    let cs = chars_of(s);
    push_all(v, &cs);
}

/// Splits `s` into its words.
pub fn split_words(s: &Vec<char>) -> (r: Vec<Vec<char>>)
    ensures
        view_words(r@) == words(s@),
{
    let n = s.len();
    let mut out: Vec<Vec<char>> = Vec::new();
    let mut cur: Vec<char> = Vec::new();
    let mut i: usize = 0;
    assert(s@.subrange(0, n as int) =~= s@);
    assert(view_words(out@) + words_from(s@, cur@) =~= words(s@));
    while i < n
        invariant
            n == s@.len(),
            i <= n,
            view_words(out@) + words_from(s@.subrange(i as int, n as int), cur@) == words(s@),
        decreases n - i,
    {
        let ghost rest = s@.subrange(i as int, n as int);
        assert(rest.drop_first() =~= s@.subrange(i + 1, n as int));
        let c = s[i];
        let ghost cv0 = cur@;
        assert(rest[0] == c);
        if c == ' ' || c == '\t' || c == '\r' || c == '\n' {
            if cur.len() > 0 {
                assert(words_from(rest, cv0) == seq![cv0] + words_from(rest.drop_first(), seq![]));
                let ghost before = view_words(out@);
                let ghost cv = cur@;
                out.push(cur);
                cur = Vec::new();
                assert(view_words(out@) =~= before.push(cv));
                assert(before + (seq![cv] + words_from(rest.drop_first(), seq![])) =~= before.push(
                    cv,
                ) + words_from(rest.drop_first(), seq![]));
                assert(cur@ =~= seq![]);
            } else {
                assert(words_from(rest, cv0) == words_from(rest.drop_first(), seq![]));
                assert(cur@ =~= seq![]);
            }
        } else {
            assert(words_from(rest, cv0) == words_from(rest.drop_first(), cv0.push(c)));
            cur.push(c);
        }
        i = i + 1;
    }
    let ghost before = view_words(out@);
    assert(s@.subrange(n as int, n as int) =~= Seq::<char>::empty());
    if cur.len() > 0 {
        let ghost cv = cur@;
        out.push(cur);
        assert(view_words(out@) =~= before + seq![cv]);
    } else {
        assert(before + seq![] =~= before);
    }
    out
}

/// Joins `ws[from..to]` with single spaces.
pub fn join_range(ws: &Vec<Vec<char>>, from: usize, to: usize) -> (r: Vec<char>)
    requires
        from <= to <= ws@.len(),
    ensures
        r@ == join_words(view_words(ws@).subrange(from as int, to as int)),
{
    let mut out: Vec<char> = Vec::new();
    let mut j: usize = from;
    assert(view_words(ws@).subrange(from as int, from as int) =~= Seq::<Seq<char>>::empty());
    while j < to
        invariant
            from <= j <= to <= ws@.len(),
            out@ == join_words(view_words(ws@).subrange(from as int, j as int)),
        decreases to - j,
    {
        let ghost pre = view_words(ws@).subrange(from as int, j as int);
        let ghost next = view_words(ws@).subrange(from as int, j + 1);
        assert(next.drop_last() =~= pre);
        if j > from {
            out.push(' ');
        } else {
            assert(out@ =~= seq![]);
        }
        push_all(&mut out, &ws[j]);
        assert(out@ =~= join_words(next));
        j = j + 1;
    }
    out
}

} // verus!
