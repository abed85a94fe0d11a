use vstd::prelude::*;

verus! {

broadcast use vstd::string::group_string_axioms;

/// The characters of `s`, in order.
pub fn chars_of(s: &str) -> (v: Vec<char>)
    ensures
        v@ == s@,
{
    let mut v: Vec<char> = Vec::new();
    for c in it: s.chars()
        invariant
            v@ == it.seq().take(it.index() as int),
            it.seq() == s@,
    {
        v.push(c);
    }
    v
}


/// The decimal digit character for a digit value below ten.
pub open spec fn digit_char(d: nat) -> char {
    ((d + 48) as u32) as char
}

/// The decimal notation of `n`, without sign or leading zeros.
pub open spec fn decimal(n: nat) -> Seq<char>
    decreases n,
{
    if n < 10 {
        seq![digit_char(n)]
    } else {
        decimal(n / 10).push(digit_char(n % 10))
    }
}

fn digit_str(d: u64) -> (s: &'static str)
    requires
        d < 10,
    ensures
        s@ == seq![digit_char(d as nat)],
{
    let digits = "0123456789";
    proof {
        reveal_strlit("0123456789");
    }
    let s = digits.substring_char(d as usize, (d + 1) as usize);
    assert(s@ =~= seq![digit_char(d as nat)]);
    s
}

/// Writes `n` in decimal notation.
pub fn decimal_string(n: u64) -> (s: String)
    ensures
        s@ == decimal(n as nat),
    decreases n,
{
    if n < 10 {
        String::from_str(digit_str(n))
    } else {
        let mut s = decimal_string(n / 10);
        s.append(digit_str(n % 10));
        s
    }
}


/// Whether `c` is an ASCII decimal digit.
pub open spec fn is_digit(c: char) -> bool {
    '0' <= c && c <= '9'
}

/// Whether every character of `s` is an ASCII decimal digit.
pub open spec fn all_digits(s: Seq<char>) -> bool {
    forall|i: int| 0 <= i < s.len() ==> is_digit(#[trigger] s[i])
}

/// The value of a string of decimal digits.
pub open spec fn digits_value(s: Seq<char>) -> nat
    decreases s.len(),
{
    if s.len() == 0 {
        0
    } else {
        digits_value(s.drop_last()) * 10 + (s.last() as nat - '0' as nat) as nat
    }
}

/// What reading `s` as an unsigned 32-bit decimal number gives: an optional
/// leading `+`, then one or more ASCII digits whose value fits in 32 bits.
pub open spec fn parse_u32_spec(s: Seq<char>) -> Option<u32> {
    let d = if s.len() > 0 && s[0] == '+' {
        s.drop_first()
    } else {
        s
    };
    if d.len() > 0 && all_digits(d) && digits_value(d) <= u32::MAX {
        Some(digits_value(d) as u32)
    } else {
        None
    }
}

proof fn lemma_digits_value_prefix_grows(d: Seq<char>, i: int)
    requires
        0 <= i <= d.len(),
        all_digits(d),
    ensures
        digits_value(d.take(i)) <= digits_value(d),
    decreases d.len() - i,
{
    if i < d.len() {
        lemma_digits_value_prefix_grows(d, i + 1);
        assert(d.take(i + 1).drop_last() =~= d.take(i));
        assert(is_digit(d[i]));
    } else {
        assert(d.take(i) =~= d);
    }
}

/// Reads `s` as an unsigned 32-bit decimal number.
pub fn parse_u32(s: &str) -> (r: Option<u32>)
    ensures
        r == parse_u32_spec(s@),
{
    let cs = chars_of(s);
    let n = cs.len();
    let mut start: usize = 0;
    if n > 0 && cs[0] == '+' {
        start = 1;
    }
    let ghost d = if s@.len() > 0 && s@[0] == '+' {
        s@.drop_first()
    } else {
        s@
    };
    assert(d =~= cs@.subrange(start as int, n as int));
    if start == n {
        return None;
    }
    let mut acc: u64 = 0;
    let mut i: usize = start;
    while i < n
        invariant
            start <= i <= n,
            start < n,
            n == cs@.len(),
            cs@ == s@,
            d == (if s@.len() > 0 && s@[0] == '+' {
                s@.drop_first()
            } else {
                s@
            }),
            d == cs@.subrange(start as int, n as int),
            all_digits(cs@.subrange(start as int, i as int)),
            acc == digits_value(cs@.subrange(start as int, i as int)),
            acc <= u32::MAX,
        decreases n - i,
    {
        let c = cs[i];
        let ghost prefix = cs@.subrange(start as int, i as int);
        let ghost next = cs@.subrange(start as int, i + 1);
        assert(next.drop_last() =~= prefix);
        if !('0' <= c && c <= '9') {
            assert(d[i - start] == c);
            assert(!is_digit(d[i - start]));
            return None;
        }
        let digit = (c as u32 - '0' as u32) as u64;
        acc = acc * 10 + digit;
        if acc > 0xffff_ffffu64 {
            proof {
                if all_digits(d) {
                    lemma_digits_value_prefix_grows(d, i - start + 1);
                    assert(d.take(i - start + 1) =~= next);
                }
            }
            return None;
        }
        i = i + 1;
    }
    assert(cs@.subrange(start as int, n as int) =~= d);
    Some(acc as u32)
}


/// Whether `pat` occurs in `s` starting at position `i`.
pub open spec fn occurs_at(s: Seq<char>, pat: Seq<char>, i: int) -> bool {
    0 <= i && i + pat.len() <= s.len() && s.subrange(i, i + pat.len()) == pat
}

/// Whether `pat` occurs anywhere in `s`.
pub open spec fn contains_seq(s: Seq<char>, pat: Seq<char>) -> bool {
    exists|i: int| occurs_at(s, pat, i)
}

/// `s` with every occurrence of the non-empty `pat` replaced by `rep`; the
/// occurrences are taken from left to right and do not overlap.
pub open spec fn replace_all(s: Seq<char>, pat: Seq<char>, rep: Seq<char>) -> Seq<char>
    decreases s.len(),
{
    if pat.len() == 0 || s.len() < pat.len() {
        s
    } else if s.take(pat.len() as int) == pat {
        rep + replace_all(s.skip(pat.len() as int), pat, rep)
    } else {
        seq![s[0]] + replace_all(s.drop_first(), pat, rep)
    }
}

fn matches_at(sv: &Vec<char>, pv: &Vec<char>, i: usize) -> (b: bool)
    requires
        i + pv@.len() <= sv@.len(),
    ensures
        b == occurs_at(sv@, pv@, i as int),
{
    let m = pv.len();
    let mut j: usize = 0;
    while j < m
        invariant
            j <= m,
            m == pv@.len(),
            i + m <= sv.len(),
            forall|k: int| 0 <= k < j ==> sv@[i + k] == pv@[k],
        decreases m - j,
    {
        if sv[i + j] != pv[j] {
            assert(sv@.subrange(i as int, i + m)[j as int] != pv@[j as int]);
            return false;
        }
        j = j + 1;
    }
    assert(sv@.subrange(i as int, i + m) =~= pv@);
    true
}

/// Tells whether `pat` occurs in `s`.
pub fn contains(s: &str, pat: &str) -> (b: bool)
    ensures
        b == contains_seq(s@, pat@),
{
    let sv = chars_of(s);
    let pv = chars_of(pat);
    let n = sv.len();
    let m = pv.len();
    if m > n {
        return false;
    }
    if m == 0 {
        assert(s@.subrange(0, 0) =~= pat@);
        assert(occurs_at(s@, pat@, 0));
        return true;
    }
    let mut i: usize = 0;
    while i <= n - m
        invariant
            0 < m <= n,
            n == s@.len(),
            m == pat@.len(),
            sv@ == s@,
            pv@ == pat@,
            i <= n - m + 1,
            forall|k: int| 0 <= k < i ==> !occurs_at(s@, pat@, k),
        decreases n - m + 1 - i,
    {
        if matches_at(&sv, &pv, i) {
            return true;
        }
        i = i + 1;
    }
    assert forall|k: int| !occurs_at(s@, pat@, k) by {
        if 0 <= k < i {
        }
    }
    false
}

/// `s` with every occurrence of `pat` replaced by `rep`, as `str::replace`
/// does for a non-empty pattern.
pub fn replace(s: &str, pat: &str, rep: &str) -> (r: String)
    requires
        pat@.len() > 0,
    ensures
        r@ == replace_all(s@, pat@, rep@),
{
    let sv = chars_of(s);
    let pv = chars_of(pat);
    let n = sv.len();
    let m = pv.len();
    let mut out = String::new();
    let mut last: usize = 0;
    let mut i: usize = 0;
    assert(s@.skip(0) =~= s@);
    while i < n && n - i >= m
        invariant
            last <= i <= n,
            n == s@.len(),
            m == pat@.len(),
            m > 0,
            sv@ == s@,
            pv@ == pat@,
            replace_all(s@, pat@, rep@) == out@ + s@.subrange(last as int, i as int) + replace_all(
                s@.skip(i as int),
                pat@,
                rep@,
            ),
        decreases n - i,
    {
        let ghost rest = s@.skip(i as int);
        assert(rest.take(m as int) =~= s@.subrange(i as int, i + m));
        if matches_at(&sv, &pv, i) {
            assert(rest.skip(m as int) =~= s@.skip(i + m));
            let piece = s.substring_char(last, i);
            out.append(piece);
            out.append(rep);
            i = i + m;
            last = i;
            assert(s@.subrange(last as int, i as int) =~= Seq::<char>::empty());
        } else {
            assert(rest.drop_first() =~= s@.skip(i + 1));
            assert(s@.subrange(last as int, i as int) + seq![s@[i as int]] =~= s@.subrange(
                last as int,
                i + 1,
            ));
            i = i + 1;
        }
    }
    assert(s@.subrange(last as int, i as int) + s@.skip(i as int) =~= s@.subrange(
        last as int,
        n as int,
    ));
    let tail = s.substring_char(last, n);
    out.append(tail);
    out
}


/// The texts of a sequence of strings.
pub open spec fn texts(v: Seq<String>) -> Seq<Seq<char>> {
    v.map_values(|l: String| l@)
}

/// The position of the first line feed of `s` at or after `start`, or the
/// length of `s` when there is none.
pub open spec fn line_end(s: Seq<char>, start: int) -> int
    decreases s.len() - start,
{
    if start < 0 || start >= s.len() {
        s.len() as int
    } else if s[start] == '\n' {
        start
    } else {
        line_end(s, start + 1)
    }
}

/// The line of `s` from `start` to the line feed at `end` (or to the end of
/// `s`), without the line feed and, when there is one, without a carriage
/// return just before it.
pub open spec fn line_text(s: Seq<char>, start: int, end: int) -> Seq<char> {
    let line = s.subrange(start, end);
    if end < s.len() && line.len() > 0 && line.last() == '\r' {
        line.drop_last()
    } else {
        line
    }
}

/// The lines of `s` that begin at or after `start`.
pub open spec fn lines_from(s: Seq<char>, start: int) -> Seq<Seq<char>>
    decreases s.len() - start,
{
    if start < 0 || start >= s.len() {
        seq![]
    } else {
        let end = line_end(s, start);
        if end < start {
            seq![]
        } else if end >= s.len() {
            seq![line_text(s, start, end)]
        } else {
            seq![line_text(s, start, end)] + lines_from(s, end + 1)
        }
    }
}

/// The lines of `s` as `str::lines` yields them: split at each line feed, a
/// final line feed ending the last line rather than opening an empty one.
pub open spec fn lines_of(s: Seq<char>) -> Seq<Seq<char>> {
    lines_from(s, 0)
}

/// Splits `s` into its lines.
pub fn lines(s: &str) -> (v: Vec<String>)
    ensures
        texts(v@) == lines_of(s@),
{
    let sv = chars_of(s);
    let n = sv.len();
    let mut out: Vec<String> = Vec::new();
    let mut start: usize = 0;
    assert(texts(out@) =~= Seq::<Seq<char>>::empty());
    while start < n
        invariant
            start <= n,
            n == s@.len(),
            sv@ == s@,
            texts(out@) + lines_from(s@, start as int) == lines_of(s@),
        decreases n - start,
    {
        let mut end = start;
        while end < n && sv[end] != '\n'
            invariant
                start <= end <= n,
                n == s@.len(),
                sv@ == s@,
                line_end(s@, start as int) == line_end(s@, end as int),
            decreases n - end,
        {
            end = end + 1;
        }
        let mut stop = end;
        if end < n && end > start && sv[end - 1] == '\r' {
            stop = end - 1;
        }
        let line = String::from_str(s.substring_char(start, stop));
        let ghost old_out = out@;
        assert(line@ =~= line_text(s@, start as int, end as int));
        out.push(line);
        assert(texts(out@) =~= texts(old_out).push(line@));
        if end >= n {
            assert(lines_from(s@, n as int) =~= Seq::<Seq<char>>::empty());
            assert(texts(out@) + lines_from(s@, n as int) =~= texts(old_out) + lines_from(
                s@,
                start as int,
            ));
            start = n;
        } else {
            assert(texts(out@) + lines_from(s@, end + 1) =~= texts(old_out) + lines_from(
                s@,
                start as int,
            ));
            start = end + 1;
        }
    }
    assert(lines_from(s@, start as int) =~= Seq::<Seq<char>>::empty());
    assert(texts(out@) + lines_from(s@, start as int) =~= texts(out@));
    out
}

} // verus!
