//! Character-level text helpers shared by the rest of the crate.
use vstd::prelude::*;
use vstd::std_specs::iter::IteratorSpec;

verus! {

broadcast use vstd::string::group_string_axioms;

/// The characters of `s`, in order.
pub fn chars_of(s: &str) -> (out: Vec<char>)
    ensures
        out@ == s@,
{
    let mut out: Vec<char> = Vec::new();
    for c in it: s.chars()
        invariant
            it.seq() == s@,
            out@ == it.seq().take(it.index()),
    {
        out.push(c);
        assert(out@ == it.seq().take(it.index() + 1));
    }
    assert(out@ == s@);
    out
}


/// Appends the characters of `s` to `out`.
pub fn push_str(out: &mut Vec<char>, s: &str)
    ensures
        final(out)@ == old(out)@ + s@,
{
    let mut tail = chars_of(s);
    out.append(&mut tail);
}

/// The decimal digit character for `d` (`0 <= d < 10`).
pub open spec fn digit_char(d: int) -> char {
    (48 + d) as char
}

/// Decimal notation of a natural number, without sign or leading zeros.
pub open spec fn decimal(n: nat) -> Seq<char>
    decreases n,
{
    if n < 10 {
        seq![digit_char(n as int)]
    } else {
        decimal(n / 10).push(digit_char((n % 10) as int))
    }
}

/// Appends the decimal notation of `n` to `out`.
pub fn push_decimal(out: &mut Vec<char>, n: u32)
    ensures
        final(out)@ == old(out)@ + decimal(n as nat),
    decreases n,
{
    if n >= 10 {
        push_decimal(out, n / 10);
    }
    let d: u8 = (n % 10) as u8;
    let c: char = (48u8 + d) as char;
    out.push(c);
    proof {
        assert(c == digit_char((n % 10) as int));
    }
}

/// The text whose characters are `chars`, collected with std's
/// `FromIterator<&char> for String`. Trusted: the string holds exactly these
/// characters, in order.
#[verifier::external_body]
pub fn string_from_chars(chars: &Vec<char>) -> (s: String)
    ensures
        s@ == chars@,
{
    chars.iter().collect()
}

/// What `format!("{:?}", s)` produces for a string slice: the text in double
/// quotes with its special characters escaped.
pub uninterp spec fn str_debug(s: Seq<char>) -> Seq<char>;

/// Calls std's `Debug` implementation for `str`. Trusted: its result is taken to
/// be `str_debug` of the argument; nothing more is claimed of the escaping.
#[verifier::external_body]
pub fn debug_quoted(s: &str) -> (out: String)
    ensures
        out@ == str_debug(s@),
{
    format!("{:?}", s)
}


/// The characters of `v` from index `i` up to (not including) `j`.
pub fn copy_range(v: &Vec<char>, i: usize, j: usize) -> (out: Vec<char>)
    requires
        i <= j <= v.len(),
    ensures
        out@ == v@.subrange(i as int, j as int),
{
    let mut out: Vec<char> = Vec::new();
    let mut k = i;
    while k < j
        invariant
            i <= k <= j <= v.len(),
            out@ == v@.subrange(i as int, k as int),
        decreases j - k,
    {
        out.push(v[k]);
        k = k + 1;
    }
    out
}

/// Whether `v` and `w` hold the same characters.
pub fn same_chars(v: &Vec<char>, w: &Vec<char>) -> (b: bool)
    ensures
        b == (v@ == w@),
{
    if v.len() != w.len() {
        return false;
    }
    let mut k: usize = 0;
    while k < v.len()
        invariant
            v.len() == w.len(),
            k <= v.len(),
            forall|j: int| 0 <= j < k ==> v@[j] == w@[j],
        decreases v.len() - k,
    {
        if v[k] != w[k] {
            return false;
        }
        k = k + 1;
    }
    assert(v@ == w@);
    true
}

/// `i` is where `s` is split at its first `c`: `s[i] == c` and no `c` stands
/// before it.
pub open spec fn is_first_at(s: Seq<char>, c: char, i: int) -> bool {
    &&& 0 <= i < s.len()
    &&& s[i] == c
    &&& forall|j: int| 0 <= j < i ==> s[j] != c
}

/// `s` split at its first `c` into the part before it and the part after it,
/// or `None` where `c` does not occur (as `str::split_once`).
pub open spec fn split_first(s: Seq<char>, c: char) -> Option<(Seq<char>, Seq<char>)> {
    if exists|i: int| is_first_at(s, c, i) {
        let i = choose|i: int| is_first_at(s, c, i);
        Some((s.take(i), s.skip(i + 1)))
    } else {
        None
    }
}

proof fn lemma_first_unique(s: Seq<char>, c: char, i: int, k: int)
    requires
        is_first_at(s, c, i),
        is_first_at(s, c, k),
    ensures
        i == k,
{
    if i < k {
        assert(s[i] != c);
    } else if k < i {
        assert(s[k] != c);
    }
}

/// Where `s` has `c` at `i` and nowhere before, it splits there.
pub proof fn lemma_split_first_at(s: Seq<char>, c: char, i: int)
    requires
        is_first_at(s, c, i),
    ensures
        split_first(s, c) == Some((s.take(i), s.skip(i + 1))),
{
    let k = choose|k: int| is_first_at(s, c, k);
    lemma_first_unique(s, c, i, k);
}

proof fn lemma_first_exists(s: Seq<char>, c: char, j: int)
    requires
        0 <= j < s.len(),
        s[j] == c,
    ensures
        exists|i: int| is_first_at(s, c, i),
    decreases j,
{
    if exists|k: int| 0 <= k < j && s[k] == c {
        let k = choose|k: int| 0 <= k < j && s[k] == c;
        lemma_first_exists(s, c, k);
    } else {
        assert(is_first_at(s, c, j));
    }
}

/// Where `s` does not split at `c`, `c` does not occur in `s`; where it
/// splits, the part before holds no `c`.
pub proof fn lemma_split_first_parts(s: Seq<char>, c: char)
    ensures
        split_first(s, c) is None ==> forall|j: int| 0 <= j < s.len() ==> s[j] != c,
        split_first(s, c) matches Some((a, b)) ==> (forall|j: int| 0 <= j < a.len() ==> a[j]
            != c) && s == a + seq![c] + b,
{
    if exists|j: int| 0 <= j < s.len() && s[j] == c {
        let j = choose|j: int| 0 <= j < s.len() && s[j] == c;
        lemma_first_exists(s, c, j);
    }
    if exists|i: int| is_first_at(s, c, i) {
        let i = choose|i: int| is_first_at(s, c, i);
        assert(s =~= s.take(i) + seq![c] + s.skip(i + 1));
    }
}

/// Executable [`split_first`].
pub fn split_first_exec(v: &Vec<char>, c: char) -> (r: Option<(Vec<char>, Vec<char>)>)
    ensures
        match r {
            Some((a, b)) => split_first(v@, c) == Some((a@, b@)),
            None => split_first(v@, c) is None,
        },
{
    let mut i: usize = 0;
    while i < v.len()
        invariant
            i <= v.len(),
            forall|j: int| 0 <= j < i ==> v@[j] != c,
        decreases v.len() - i,
    {
        if v[i] == c {
            let before = copy_range(v, 0, i);
            let after = copy_range(v, i + 1, v.len());
            proof {
                assert(is_first_at(v@, c, i as int));
                let k = choose|k: int| is_first_at(v@, c, k);
                lemma_first_unique(v@, c, i as int, k);
                assert(before@ == v@.take(i as int));
                assert(after@ == v@.skip(i + 1));
            }
            return Some((before, after));
        }
        i = i + 1;
    }
    proof {
        if exists|k: int| is_first_at(v@, c, k) {
            let k = choose|k: int| is_first_at(v@, c, k);
            assert(v@[k] != c);
        }
    }
    None
}

/// ASCII lower case of a character; other characters are kept.
pub open spec fn ascii_lower(c: char) -> char {
    if 65 <= (c as u32) <= 90 {
        ((c as u32) + 32) as char
    } else {
        c
    }
}

/// Equality of two texts ignoring ASCII case (as `str::eq_ignore_ascii_case`).
pub open spec fn eq_ignore_ascii_case(a: Seq<char>, b: Seq<char>) -> bool {
    &&& a.len() == b.len()
    &&& forall|i: int| 0 <= i < a.len() ==> ascii_lower(a[i]) == ascii_lower(b[i])
}

fn ascii_lower_exec(c: char) -> (d: char)
    ensures
        d == ascii_lower(c),
{
    let n: u32 = c as u32;
    if 65 <= n && n <= 90 {
        let m: u8 = (n + 32) as u8;
        m as char
    } else {
        c
    }
}

/// Executable [`eq_ignore_ascii_case`].
pub fn eq_ignore_ascii_case_exec(a: &Vec<char>, b: &Vec<char>) -> (r: bool)
    ensures
        r == eq_ignore_ascii_case(a@, b@),
{
    if a.len() != b.len() {
        return false;
    }
    let mut k: usize = 0;
    while k < a.len()
        invariant
            a.len() == b.len(),
            k <= a.len(),
            forall|j: int| 0 <= j < k ==> ascii_lower(a@[j]) == ascii_lower(b@[j]),
        decreases a.len() - k,
    {
        if ascii_lower_exec(a[k]) != ascii_lower_exec(b[k]) {
            return false;
        }
        k = k + 1;
    }
    true
}

/// Texts equal ignoring ASCII case have the same length, and the relation
/// is reflexive and symmetric: a text that extends another (such as
/// `bot_username_dev` beside `bot_username`) never matches it.
pub proof fn lemma_eq_ignore_ascii_case_laws(a: Seq<char>, b: Seq<char>)
    ensures
        eq_ignore_ascii_case(a, b) ==> a.len() == b.len(),
        eq_ignore_ascii_case(a, a),
        eq_ignore_ascii_case(a, b) == eq_ignore_ascii_case(b, a),
        forall|x: Seq<char>| x.len() > 0 ==> !eq_ignore_ascii_case(#[trigger] (a + x), a),
        forall|x: Seq<char>| x.len() > 0 ==> !eq_ignore_ascii_case(a, #[trigger] (a + x)),
{
}

/// Unicode `White_Space` (as `char::is_whitespace`).
pub open spec fn is_whitespace(c: char) -> bool {
    let n = c as u32;
    ||| 9 <= n <= 13
    ||| n == 32
    ||| n == 0x85
    ||| n == 0xA0
    ||| n == 0x1680
    ||| 0x2000 <= n <= 0x200A
    ||| n == 0x2028
    ||| n == 0x2029
    ||| n == 0x202F
    ||| n == 0x205F
    ||| n == 0x3000
}

fn is_whitespace_exec(c: char) -> (b: bool)
    ensures
        b == is_whitespace(c),
{
    let n: u32 = c as u32;
    (9 <= n && n <= 13) || n == 32 || n == 0x85 || n == 0xA0 || n == 0x1680 || (0x2000 <= n && n
        <= 0x200A) || n == 0x2028 || n == 0x2029 || n == 0x202F || n == 0x205F || n == 0x3000
}

/// `s` without its leading and trailing whitespace (as `str::trim`): the
/// range `[lo, hi)` of `s` such that everything outside it is whitespace and
/// its first and last characters are not.
pub open spec fn is_trim_range(s: Seq<char>, lo: int, hi: int) -> bool {
    &&& 0 <= lo <= hi <= s.len()
    &&& forall|j: int| 0 <= j < lo ==> is_whitespace(s[j])
    &&& forall|j: int| hi <= j < s.len() ==> is_whitespace(s[j])
    &&& lo < hi ==> !is_whitespace(s[lo]) && !is_whitespace(s[hi - 1])
}

/// The text `s` with leading and trailing whitespace removed.
pub open spec fn trim(s: Seq<char>) -> Seq<char> {
    let (lo, hi) = choose|lo: int, hi: int| is_trim_range(s, lo, hi);
    s.subrange(lo, hi)
}

proof fn lemma_trim_range_text(s: Seq<char>, lo: int, hi: int, lo2: int, hi2: int)
    requires
        is_trim_range(s, lo, hi),
        is_trim_range(s, lo2, hi2),
    ensures
        s.subrange(lo, hi) == s.subrange(lo2, hi2),
{
    if lo < hi {
        if lo2 < hi2 {
            if lo < lo2 {
                assert(is_whitespace(s[lo]));
            }
            if lo2 < lo {
                assert(is_whitespace(s[lo2]));
            }
            if hi < hi2 {
                assert(is_whitespace(s[hi2 - 1]));
            }
            if hi2 < hi {
                assert(is_whitespace(s[hi - 1]));
            }
        } else {
            assert(lo2 <= lo || hi <= lo2);
            if lo2 <= lo {
                assert(is_whitespace(s[lo]));
            } else {
                assert(is_whitespace(s[lo]));
            }
        }
    } else if lo2 < hi2 {
        if lo <= lo2 {
            assert(is_whitespace(s[lo2]));
        } else {
            assert(is_whitespace(s[lo2]));
        }
    }
    assert(s.subrange(lo, hi) =~= s.subrange(lo2, hi2));
}

/// Every text has a trim range.
pub proof fn lemma_trim_range_exists(s: Seq<char>)
    ensures
        exists|lo: int, hi: int| is_trim_range(s, lo, hi),
    decreases s.len(),
{
    if s.len() == 0 {
        assert(is_trim_range(s, 0, 0));
    } else if is_whitespace(s[0]) {
        let t = s.drop_first();
        lemma_trim_range_exists(t);
        let (lo, hi) = choose|lo: int, hi: int| is_trim_range(t, lo, hi);
        assert(is_trim_range(s, lo + 1, hi + 1)) by {
            assert forall|j: int| 0 <= j < lo + 1 implies is_whitespace(s[j]) by {
                if j > 0 {
                    assert(s[j] == t[j - 1]);
                }
            }
            assert forall|j: int| hi + 1 <= j < s.len() implies is_whitespace(s[j]) by {
                assert(s[j] == t[j - 1]);
            }
        }
    } else if is_whitespace(s[s.len() - 1]) {
        let t = s.drop_last();
        lemma_trim_range_exists(t);
        let (lo, hi) = choose|lo: int, hi: int| is_trim_range(t, lo, hi);
        assert(is_trim_range(s, lo, hi)) by {
            assert forall|j: int| 0 <= j < lo implies is_whitespace(s[j]) by {
                assert(s[j] == t[j]);
            }
            assert forall|j: int| hi <= j < s.len() implies is_whitespace(s[j]) by {
                if j < s.len() - 1 {
                    assert(s[j] == t[j]);
                }
            }
        }
    } else {
        assert(is_trim_range(s, 0, s.len() as int));
    }
}

/// The trimmed text is a part of the text: a character that does not occur
/// in the text does not occur in it either.
pub proof fn lemma_trim_keeps_absent(s: Seq<char>, c: char)
    requires
        forall|j: int| 0 <= j < s.len() ==> s[j] != c,
    ensures
        forall|j: int| 0 <= j < trim(s).len() ==> trim(s)[j] != c,
{
    lemma_trim_range_exists(s);
    let (lo, hi) = choose|lo: int, hi: int| is_trim_range(s, lo, hi);
    assert forall|j: int| 0 <= j < trim(s).len() implies trim(s)[j] != c by {
        assert(trim(s)[j] == s[lo + j]);
    }
}

/// A text that neither starts nor ends with whitespace is its own trim.
pub proof fn lemma_trim_identity(s: Seq<char>)
    requires
        s.len() > 0,
        !is_whitespace(s[0]),
        !is_whitespace(s[s.len() - 1]),
    ensures
        trim(s) == s,
{
    assert(is_trim_range(s, 0, s.len() as int));
    let (lo, hi) = choose|lo: int, hi: int| is_trim_range(s, lo, hi);
    lemma_trim_range_text(s, 0, s.len() as int, lo, hi);
    assert(s.subrange(0, s.len() as int) =~= s);
}

/// Executable [`trim`].
pub fn trim_exec(v: &Vec<char>) -> (out: Vec<char>)
    ensures
        out@ == trim(v@),
{
    let mut lo: usize = 0;
    while lo < v.len() && is_whitespace_exec(v[lo])
        invariant
            lo <= v.len(),
            forall|j: int| 0 <= j < lo ==> is_whitespace(v@[j]),
        decreases v.len() - lo,
    {
        lo = lo + 1;
    }
    let mut hi: usize = v.len();
    while hi > lo && is_whitespace_exec(v[hi - 1])
        invariant
            lo <= hi <= v.len(),
            forall|j: int| hi <= j < v.len() ==> is_whitespace(v@[j]),
        decreases hi,
    {
        hi = hi - 1;
    }
    let out = copy_range(v, lo, hi);
    proof {
        assert(is_trim_range(v@, lo as int, hi as int));
        let (lo2, hi2) = choose|lo2: int, hi2: int| is_trim_range(v@, lo2, hi2);
        lemma_trim_range_text(v@, lo as int, hi as int, lo2, hi2);
    }
    out
}


/// Why a text is not a `u32` (as `core::num::IntErrorKind`).
#[derive(Clone, Copy, Debug, PartialEq, Eq)]
pub enum IntErrorKind {
    Empty,
    InvalidDigit,
    PosOverflow,
}

/// An ASCII decimal digit.
pub open spec fn is_digit(c: char) -> bool {
    48 <= (c as u32) <= 57
}

/// The value of a decimal digit.
pub open spec fn digit_value(c: char) -> int {
    (c as u32) - 48
}

/// Reads the decimal digits `s` after the value `acc` read so far, left to
/// right: a non-digit is `InvalidDigit`, a value above `u32::MAX` is
/// `PosOverflow`, whichever comes first.
pub open spec fn read_digits(acc: int, s: Seq<char>) -> Result<int, IntErrorKind>
    decreases s.len(),
{
    if s.len() == 0 {
        Ok(acc)
    } else if !is_digit(s[0]) {
        Err(IntErrorKind::InvalidDigit)
    } else if acc * 10 + digit_value(s[0]) > u32::MAX {
        Err(IntErrorKind::PosOverflow)
    } else {
        read_digits(acc * 10 + digit_value(s[0]), s.drop_first())
    }
}

/// The value of a decimal `u32` text (as `<u32 as FromStr>::from_str`): an
/// optional leading `+`, then at least one digit.
pub open spec fn parse_u32(s: Seq<char>) -> Result<int, IntErrorKind> {
    if s.len() == 0 {
        Err(IntErrorKind::Empty)
    } else if s.len() == 1 && (s[0] == '+' || s[0] == '-') {
        Err(IntErrorKind::InvalidDigit)
    } else if s[0] == '+' {
        read_digits(0, s.drop_first())
    } else {
        read_digits(0, s)
    }
}

proof fn lemma_read_digits_push(acc: int, s: Seq<char>, c: char)
    ensures
        read_digits(acc, s.push(c)) == match read_digits(acc, s) {
            Ok(v) => if !is_digit(c) {
                Err(IntErrorKind::InvalidDigit)
            } else if v * 10 + digit_value(c) > u32::MAX {
                Err(IntErrorKind::PosOverflow)
            } else {
                Ok(v * 10 + digit_value(c))
            },
            Err(k) => Err(k),
        },
    decreases s.len(),
{
    if s.len() > 0 {
        assert(s.push(c)[0] == s[0]);
        assert(s.push(c).drop_first() =~= s.drop_first().push(c));
        if is_digit(s[0]) && acc * 10 + digit_value(s[0]) <= u32::MAX {
            lemma_read_digits_push(acc * 10 + digit_value(s[0]), s.drop_first(), c);
        }
    } else {
        assert(s.push(c)[0] == c);
        assert(s.push(c).drop_first() =~= Seq::<char>::empty());
        assert(read_digits(acc * 10 + digit_value(c), Seq::<char>::empty()) == Ok::<int, IntErrorKind>(
            acc * 10 + digit_value(c),
        ));
    }
}

/// Decimal notation reads back as the number it shows: `parse_u32` of the
/// decimal text of a `u32` is that number.
pub proof fn lemma_decimal_parses_back(n: u32)
    ensures
        parse_u32(decimal(n as nat)) == Ok::<int, IntErrorKind>(n as int),
        decimal(n as nat).len() > 0,
        forall|j: int| 0 <= j < decimal(n as nat).len() ==> is_digit(#[trigger] decimal(n as nat)[j]),
    decreases n,
{
    let d = (n % 10) as int;
    assert(is_digit(digit_char(d)) && digit_value(digit_char(d)) == d);
    if n < 10 {
        assert(decimal(n as nat) =~= Seq::<char>::empty().push(digit_char(n as int)));
        lemma_read_digits_push(0, Seq::<char>::empty(), digit_char(n as int));
    } else {
        let m = (n / 10) as u32;
        lemma_decimal_parses_back(m);
        lemma_read_digits_push(0, decimal(m as nat), digit_char(d));
        assert(decimal(n as nat) == decimal(m as nat).push(digit_char(d)));
        let t = decimal(n as nat);
        assert forall|j: int| 0 <= j < t.len() implies is_digit(#[trigger] t[j]) by {
            if j < t.len() - 1 {
                assert(t[j] == decimal(m as nat)[j]);
            }
        }
        assert(parse_u32(decimal(m as nat)) == read_digits(0, decimal(m as nat))) by {
            assert(is_digit(decimal(m as nat)[0]));
        }
    }
    assert(is_digit(decimal(n as nat)[0]));
}

/// Executable [`parse_u32`].
pub fn parse_u32_exec(v: &Vec<char>) -> (r: Result<u32, IntErrorKind>)
    ensures
        match r {
            Ok(n) => parse_u32(v@) == Ok::<int, IntErrorKind>(n as int),
            Err(k) => parse_u32(v@) == Err::<int, IntErrorKind>(k),
        },
{
    if v.len() == 0 {
        return Err(IntErrorKind::Empty);
    }
    if v.len() == 1 && (v[0] == '+' || v[0] == '-') {
        return Err(IntErrorKind::InvalidDigit);
    }
    let start: usize = if v[0] == '+' { 1 } else { 0 };
    let ghost digits = v@.skip(start as int);
    assert(parse_u32(v@) == read_digits(0, digits)) by {
        if start == 0 {
            assert(digits =~= v@);
        } else {
            assert(digits =~= v@.drop_first());
        }
    }
    let mut acc: u32 = 0;
    let mut i: usize = start;
    while i < v.len()
        invariant
            start <= i <= v.len(),
            digits == v@.skip(start as int),
            parse_u32(v@) == read_digits(0, digits),
            read_digits(0, digits) == read_digits(acc as int, v@.skip(i as int)),
        decreases v.len() - i,
    {
        let c = v[i];
        let n: u32 = c as u32;
        let ghost rest = v@.skip(i as int);
        assert(rest.len() > 0 && rest[0] == c);
        if n < 48 || n > 57 {
            assert(!is_digit(rest[0]));
            assert(read_digits(acc as int, rest) == Err::<int, IntErrorKind>(
                IntErrorKind::InvalidDigit,
            ));
            return Err(IntErrorKind::InvalidDigit);
        }
        let d: u32 = n - 48;
        assert(is_digit(rest[0]) && digit_value(rest[0]) == d);
        if acc > 429496729 || (acc == 429496729 && d > 5) {
            assert(acc * 10 + d > u32::MAX);
            assert(read_digits(acc as int, rest) == Err::<int, IntErrorKind>(
                IntErrorKind::PosOverflow,
            ));
            return Err(IntErrorKind::PosOverflow);
        }
        assert(v@.skip(i as int).drop_first() =~= v@.skip(i + 1));
        acc = acc * 10 + d;
        i = i + 1;
    }
    assert(v@.skip(i as int).len() == 0);
    Ok(acc)
}

} // verus!
