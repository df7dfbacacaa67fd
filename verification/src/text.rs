use vstd::prelude::*;

verus! {

/// The character of the decimal digit `d` (`0 <= d < 10`).
pub open spec fn digit_char(d: int) -> char {
    ((d + 48) as u8) as char
}

/// Decimal representation of `n`, most significant digit first, without
/// leading zeros (`"0"` for zero).
pub open spec fn decimal(n: nat) -> Seq<char>
    decreases n,
{
    if n < 10 {
        seq![digit_char(n as int)]
    } else {
        decimal(n / 10).push(digit_char((n % 10) as int))
    }
}

/// Appends one character to a string (`String::push`).
#[verifier::external_body]
pub(crate) fn push_char(s: &mut String, c: char)
    ensures
        final(s)@ == old(s)@.push(c),
{
    s.push(c)
}

/// Appends a string slice to a string.
pub(crate) fn push_str(s: &mut String, t: &str)
    ensures
        final(s)@ == old(s)@ + t@,
{
    s.append(t)
}

/// Whether two string slices hold the same characters.
pub(crate) fn str_equal(a: &str, b: &str) -> (r: bool)
    ensures
        r == (a@ == b@),
{
    let x = chars_of(a);
    let y = chars_of(b);
    if x.len() != y.len() {
        return false;
    }
    let mut i: usize = 0;
    while i < x.len()
        invariant
            i <= x.len(),
            x.len() == y.len(),
            x@ == a@,
            y@ == b@,
            x@.take(i as int) == y@.take(i as int),
        decreases x.len() - i,
    {
        if x[i] != y[i] {
            assert(a@[i as int] != b@[i as int]);
            return false;
        }
        assert(x@.take(i as int + 1) == x@.take(i as int).push(x@[i as int]));
        assert(y@.take(i as int + 1) == y@.take(i as int).push(y@[i as int]));
        i = i + 1;
    }
    assert(x@ == x@.take(x.len() as int));
    assert(y@ == y@.take(y.len() as int));
    true
}

/// The characters of `s`, in order.
pub fn chars_of(s: &str) -> (v: Vec<char>)
    ensures
        v@ == s@,
{
    let mut v: Vec<char> = Vec::new();
    for c in it: s.chars()
        invariant
            v@ == it.seq().take(it.index() as int),
            it.seq() == s@,
    {
        v.push(c);
    }
    v
}

/// A string holding the characters of `v`, in order.
pub fn string_of(v: &Vec<char>) -> (s: String)
    ensures
        s@ == v@,
{
    let mut s = String::new();
    let mut i: usize = 0;
    while i < v.len()
        invariant
            i <= v.len(),
            s@ == v@.take(i as int),
        decreases v.len() - i,
    {
        push_char(&mut s, v[i]);
        assert(v@.take(i as int).push(v@[i as int]) =~= v@.take(i + 1));
        i = i + 1;
    }
    assert(v@.take(v.len() as int) =~= v@);
    s
}

/// The digit `d` as a character.
pub fn digit_to_char(d: u8) -> (c: char)
    requires
        d < 10,
    ensures
        c == digit_char(d as int),
{
    (d + 48) as char
}

/// Appends the decimal representation of `n` to `out`.
pub fn push_decimal(out: &mut String, n: u128)
    ensures
        final(out)@ == old(out)@ + decimal(n as nat),
    decreases n,
{
    if n < 10 {
        push_char(out, digit_to_char(n as u8));
        assert(decimal(n as nat) == seq![digit_char(n as int)]);
    } else {
        push_decimal(out, n / 10);
        push_char(out, digit_to_char((n % 10) as u8));
    }
}

/// Whether `c` has the Unicode `White_Space` property, which is what
/// `char::is_whitespace` tests.
pub open spec fn white_space(c: char) -> bool {
    let v = c as u32;
    ||| 0x9 <= v <= 0xd
    ||| v == 0x20
    ||| v == 0x85
    ||| v == 0xa0
    ||| v == 0x1680
    ||| 0x2000 <= v <= 0x200a
    ||| v == 0x2028
    ||| v == 0x2029
    ||| v == 0x202f
    ||| v == 0x205f
    ||| v == 0x3000
}

/// Whether `c` is white space (see `white_space`).
pub fn is_white_space(c: char) -> (r: bool)
    ensures
        r == white_space(c),
{
    let v = c as u32;
    (0x9 <= v && v <= 0xd) || v == 0x20 || v == 0x85 || v == 0xa0 || v == 0x1680 || (0x2000 <= v
        && v <= 0x200a) || v == 0x2028 || v == 0x2029 || v == 0x202f || v == 0x205f || v == 0x3000
}

/// `s` with every occurrence of `pat` replaced by `rep`, occurrences found
/// from the left without overlapping (what `str::replace` does).
pub open spec fn replace_all(s: Seq<char>, pat: Seq<char>, rep: Seq<char>) -> Seq<char>
    decreases s.len(),
{
    if pat.len() == 0 || s.len() < pat.len() {
        s
    } else if s.take(pat.len() as int) == pat {
        rep + replace_all(s.skip(pat.len() as int), pat, rep)
    } else {
        seq![s[0]] + replace_all(s.skip(1), pat, rep)
    }
}

/// The leading run of characters of `s` that are not white space.
pub open spec fn first_word(s: Seq<char>) -> Seq<char>
    decreases s.len(),
{
    if s.len() == 0 || white_space(s[0]) {
        seq![]
    } else {
        seq![s[0]] + first_word(s.skip(1))
    }
}

/// The leading word of `s` is a prefix of `s`, non-empty when `s` does not
/// start with white space.
pub proof fn lemma_first_word_prefix(s: Seq<char>)
    ensures
        first_word(s).len() <= s.len(),
        first_word(s) == s.take(first_word(s).len() as int),
        s.len() > 0 && !white_space(s[0]) ==> first_word(s).len() >= 1,
    decreases s.len(),
{
    if s.len() > 0 && !white_space(s[0]) {
        lemma_first_word_prefix(s.skip(1));
        assert(first_word(s) =~= s.take(first_word(s).len() as int));
    }
}

/// The words of `s`: its maximal runs of non-white-space characters, in
/// order (what `str::split_whitespace` yields).
pub open spec fn words(s: Seq<char>) -> Seq<Seq<char>>
    decreases s.len(),
{
    if s.len() == 0 {
        seq![]
    } else if white_space(s[0]) {
        words(s.skip(1))
    } else {
        let w = first_word(s);
        proof {
            lemma_first_word_prefix(s);
        }
        seq![w] + words(s.skip(w.len() as int))
    }
}

/// The pieces of `ws` with `sep` between each two of them.
pub open spec fn join(ws: Seq<Seq<char>>, sep: Seq<char>) -> Seq<char>
    decreases ws.len(),
{
    if ws.len() == 0 {
        seq![]
    } else if ws.len() == 1 {
        ws[0]
    } else {
        join(ws.drop_last(), sep) + sep + ws.last()
    }
}

/// `s` without its leading white space.
pub open spec fn trim_start(s: Seq<char>) -> Seq<char>
    decreases s.len(),
{
    if s.len() > 0 && white_space(s[0]) {
        trim_start(s.skip(1))
    } else {
        s
    }
}

/// `s` without its trailing white space.
pub open spec fn trim_end(s: Seq<char>) -> Seq<char>
    decreases s.len(),
{
    if s.len() > 0 && white_space(s.last()) {
        trim_end(s.drop_last())
    } else {
        s
    }
}

/// `s` without leading and trailing white space (what `str::trim` does).
pub open spec fn trim(s: Seq<char>) -> Seq<char> {
    trim_end(trim_start(s))
}

/// The views of a sequence of character vectors.
pub open spec fn views(v: Seq<Vec<char>>) -> Seq<Seq<char>> {
    v.map_values(|w: Vec<char>| w@)
}

/// Whether `pat` occurs in `s` at position `i`.
fn matches_at(s: &Vec<char>, i: usize, pat: &Vec<char>) -> (r: bool)
    requires
        i + pat.len() <= s.len(),
    ensures
        r == (s@.subrange(i as int, i + pat.len()) == pat@),
{
    let mut j: usize = 0;
    while j < pat.len()
        invariant
            j <= pat.len(),
            i + pat.len() <= s.len(),
            forall|t: int| 0 <= t < j ==> s@[i + t] == pat@[t],
        decreases pat.len() - j,
    {
        if s[i + j] != pat[j] {
            assert(s@.subrange(i as int, i + pat.len())[j as int] != pat@[j as int]);
            return false;
        }
        j = j + 1;
    }
    assert(s@.subrange(i as int, i + pat.len()) =~= pat@);
    true
}

/// Appends all of `w` to `out`.
pub fn append_chars(out: &mut Vec<char>, w: &Vec<char>)
    ensures
        final(out)@ == old(out)@ + w@,
{
    let ghost start = out@;
    let mut i: usize = 0;
    while i < w.len()
        invariant
            i <= w.len(),
            out@ == start + w@.take(i as int),
        decreases w.len() - i,
    {
        out.push(w[i]);
        assert(start + w@.take(i as int).push(w@[i as int]) =~= start + w@.take(i + 1));
        i = i + 1;
    }
    assert(w@.take(w.len() as int) =~= w@);
}

/// `s` with every occurrence of `pat` replaced by `rep` (see `replace_all`).
pub fn replace_chars(s: &Vec<char>, pat: &Vec<char>, rep: &Vec<char>) -> (r: Vec<char>)
    requires
        pat.len() > 0,
    ensures
        r@ == replace_all(s@, pat@, rep@),
{
    let mut out: Vec<char> = Vec::new();
    let mut i: usize = 0;
    let n = s.len();
    let m = pat.len();
    assert(s@.skip(0) =~= s@);
    while i < n
        invariant
            i <= n == s.len(),
            m == pat.len() > 0,
            replace_all(s@, pat@, rep@) == out@ + replace_all(s@.skip(i as int), pat@, rep@),
        decreases n - i,
    {
        let ghost rest = s@.skip(i as int);
        if n - i >= m && matches_at(s, i, pat) {
            assert(rest.take(m as int) =~= s@.subrange(i as int, i + m));
            assert(rest.skip(m as int) =~= s@.skip(i + m));
            append_chars(&mut out, rep);
            i = i + m;
        } else {
            if n - i >= m {
                assert(rest.take(m as int) =~= s@.subrange(i as int, i + m));
            }
            assert(rest.skip(1) =~= s@.skip(i + 1));
            assert(rest[0] == s@[i as int]);
            if n - i < m {
                assert(replace_all(rest.skip(1), pat@, rep@) == rest.skip(1));
                assert(rest =~= seq![rest[0]] + rest.skip(1));
            }
            out.push(s[i]);
            i = i + 1;
        }
    }
    assert(s@.skip(n as int) =~= Seq::<char>::empty());
    out
}

/// The words of `s` (see `words`).
pub fn split_words(s: &Vec<char>) -> (r: Vec<Vec<char>>)
    ensures
        views(r@) == words(s@),
{
    let mut out: Vec<Vec<char>> = Vec::new();
    let mut i: usize = 0;
    let n = s.len();
    assert(s@.skip(0) =~= s@);
    assert(views(out@) =~= Seq::<Seq<char>>::empty());
    while i < n
        invariant
            i <= n == s.len(),
            words(s@) == views(out@) + words(s@.skip(i as int)),
        decreases n - i,
    {
        let ghost rest = s@.skip(i as int);
        if is_white_space(s[i]) {
            assert(rest.skip(1) =~= s@.skip(i + 1));
            i = i + 1;
        } else {
            let mut word: Vec<char> = Vec::new();
            let mut j: usize = i;
            assert(s@.subrange(i as int, j as int) =~= Seq::<char>::empty());
            while j < n && !is_white_space(s[j])
                invariant
                    i <= j <= n == s.len(),
                    word@ == s@.subrange(i as int, j as int),
                    first_word(rest) == word@ + first_word(s@.skip(j as int)),
                    rest == s@.skip(i as int),
                decreases n - j,
            {
                assert(s@.skip(j as int).skip(1) =~= s@.skip(j + 1));
                assert(s@.subrange(i as int, j as int).push(s@[j as int]) =~= s@.subrange(
                    i as int,
                    j + 1,
                ));
                assert(word@ + (seq![s@[j as int]] + first_word(s@.skip(j + 1))) =~= word@.push(
                    s@[j as int],
                ) + first_word(s@.skip(j + 1)));
                word.push(s[j]);
                j = j + 1;
            }
            assert(first_word(s@.skip(j as int)) =~= Seq::<char>::empty());
            assert(first_word(rest) =~= word@);
            assert(word@.len() >= 1);
            assert(rest.skip(word@.len() as int) =~= s@.skip(j as int));
            let ghost old_out = out@;
            out.push(word);
            assert(views(out@) =~= views(old_out) + seq![s@.subrange(i as int, j as int)]);
            i = j;
        }
    }
    assert(s@.skip(n as int) =~= Seq::<char>::empty());
    out
}

/// The pieces of `ws` with `sep` between each two (see `join`).
pub fn join_words(ws: &Vec<Vec<char>>, sep: char) -> (r: Vec<char>)
    ensures
        r@ == join(views(ws@), seq![sep]),
{
    let mut out: Vec<char> = Vec::new();
    let mut i: usize = 0;
    while i < ws.len()
        invariant
            i <= ws.len(),
            out@ == join(views(ws@).take(i as int), seq![sep]),
        decreases ws.len() - i,
    {
        let ghost prev = views(ws@).take(i as int);
        assert(views(ws@).take(i + 1).drop_last() =~= prev);
        assert(views(ws@).take(i + 1).last() == ws@[i as int]@);
        if i > 0 {
            out.push(sep);
        } else {
            assert(views(ws@).take(1) =~= seq![ws@[0]@]);
        }
        append_chars(&mut out, &ws[i]);
        i = i + 1;
    }
    assert(views(ws@).take(ws.len() as int) =~= views(ws@));
    out
}

/// `s` without leading and trailing white space (see `trim`).
pub fn trim_chars(s: &Vec<char>) -> (r: Vec<char>)
    ensures
        r@ == trim(s@),
{
    let n = s.len();
    let mut a: usize = 0;
    assert(s@.skip(0) =~= s@);
    while a < n && is_white_space(s[a])
        invariant
            a <= n == s.len(),
            trim_start(s@) == trim_start(s@.skip(a as int)),
        decreases n - a,
    {
        assert(s@.skip(a as int).skip(1) =~= s@.skip(a + 1));
        a = a + 1;
    }
    assert(trim_start(s@) == s@.skip(a as int));
    let mut b: usize = n;
    assert(s@.skip(a as int) =~= s@.subrange(a as int, n as int));
    while b > a && is_white_space(s[b - 1])
        invariant
            a <= b <= n == s.len(),
            trim(s@) == trim_end(s@.subrange(a as int, b as int)),
        decreases b,
    {
        assert(s@.subrange(a as int, b as int).drop_last() =~= s@.subrange(a as int, b - 1));
        b = b - 1;
    }
    let mut out: Vec<char> = Vec::new();
    let mut k: usize = a;
    while k < b
        invariant
            a <= k <= b <= n == s.len(),
            out@ == s@.subrange(a as int, k as int),
        decreases b - k,
    {
        out.push(s[k]);
        assert(s@.subrange(a as int, k as int).push(s@[k as int]) =~= s@.subrange(
            a as int,
            k + 1,
        ));
        k = k + 1;
    }
    out
}

/// The pieces of `s` between the occurrences of `sep` (what `str::split`
/// with a character yields): one more piece than there are separators.
pub open spec fn split_on(s: Seq<char>, sep: char) -> Seq<Seq<char>>
    decreases s.len(),
{
    if s.len() == 0 {
        seq![seq![]]
    } else {
        let before = split_on(s.drop_last(), sep);
        if s.last() == sep {
            before.push(seq![])
        } else {
            before.update(before.len() - 1, before.last().push(s.last()))
        }
    }
}

/// `split_on` never yields an empty list.
pub proof fn lemma_split_on_nonempty(s: Seq<char>, sep: char)
    ensures
        split_on(s, sep).len() >= 1,
    decreases s.len(),
{
    if s.len() > 0 {
        lemma_split_on_nonempty(s.drop_last(), sep);
    }
}

/// Each of `pieces` trimmed of white space.
pub open spec fn trim_all(pieces: Seq<Seq<char>>) -> Seq<Seq<char>> {
    pieces.map_values(|p: Seq<char>| trim(p))
}

/// The pieces of `s` between the occurrences of `sep`, each trimmed of
/// white space.
pub fn split_trimmed(s: &Vec<char>, sep: char) -> (r: Vec<Vec<char>>)
    ensures
        views(r@) == trim_all(split_on(s@, sep)),
{
    let mut done: Vec<Vec<char>> = Vec::new();
    let mut current: Vec<char> = Vec::new();
    let mut i: usize = 0;
    assert(s@.take(0) =~= Seq::<char>::empty());
    assert(views(done@).push(current@) =~= split_on(s@.take(0), sep));
    while i < s.len()
        invariant
            i <= s.len(),
            views(done@).push(current@) == split_on(s@.take(i as int), sep),
        decreases s.len() - i,
    {
        let ghost before = split_on(s@.take(i as int), sep);
        assert(s@.take(i + 1).drop_last() =~= s@.take(i as int));
        assert(s@.take(i + 1).last() == s@[i as int]);
        proof {
            lemma_split_on_nonempty(s@.take(i as int), sep);
        }
        if s[i] == sep {
            let ghost old_done = done@;
            done.push(current);
            current = Vec::new();
            assert(views(done@) =~= views(old_done).push(before.last()));
            assert(views(done@).push(current@) =~= before.push(seq![]));
        } else {
            let ghost old_current = current@;
            current.push(s[i]);
            assert(views(done@).push(current@) =~= before.update(
                before.len() - 1,
                before.last().push(s@[i as int]),
            ));
        }
        i = i + 1;
    }
    assert(s@.take(s.len() as int) =~= s@);
    let ghost pieces = split_on(s@, sep);
    let mut out: Vec<Vec<char>> = Vec::new();
    let mut k: usize = 0;
    let total = done.len();
    while k < total
        invariant
            k <= total == done.len(),
            views(done@).push(current@) == pieces,
            views(out@) == trim_all(pieces).take(k as int),
            out@.len() == k,
            pieces.len() == total + 1,
        decreases total - k,
    {
        let ghost old_out = out@;
        assert(views(done@).push(current@)[k as int] == views(done@)[k as int]);
        assert(views(done@)[k as int] == done@[k as int]@);
        let t = trim_chars(&done[k]);
        out.push(t);
        assert(trim_all(pieces)[k as int] == trim(pieces[k as int]));
        assert forall|j: int| 0 <= j < k + 1 implies #[trigger] views(out@)[j] == trim_all(
            pieces,
        ).take(k + 1)[j] by {
            if j < k {
                assert(views(out@)[j] == out@[j]@);
                assert(views(old_out)[j] == old_out[j]@);
                assert(views(old_out)[j] == trim_all(pieces).take(k as int)[j]);
            } else {
                assert(views(out@)[j] == out@[j]@);
            }
        }
        assert(views(out@) =~= trim_all(pieces).take(k + 1));
        k = k + 1;
    }
    let ghost old_out = out@;
    assert(views(done@).push(current@)[total as int] == current@);
    let t = trim_chars(&current);
    out.push(t);
    assert(pieces.len() == total + 1);
    assert(trim_all(pieces)[total as int] == trim(pieces[total as int]));
    assert forall|j: int| 0 <= j < total + 1 implies #[trigger] views(out@)[j] == trim_all(
        pieces,
    )[j] by {
        if j < total {
            assert(views(out@)[j] == out@[j]@);
            assert(views(old_out)[j] == old_out[j]@);
            assert(views(old_out)[j] == trim_all(pieces).take(total as int)[j]);
        } else {
            assert(views(out@)[j] == out@[j]@);
        }
    }
    assert(views(out@) =~= trim_all(pieces));
    out
}

/// The value of a non-empty string of ASCII digits.
pub open spec fn digits_value(d: Seq<char>) -> nat
    decreases d.len(),
{
    if d.len() == 0 {
        0
    } else {
        digits_value(d.drop_last()) * 10 + (d.last() as nat - 48) as nat
    }
}

/// Whether every character of `d` is an ASCII digit.
pub open spec fn all_digits(d: Seq<char>) -> bool {
    forall|i: int| 0 <= i < d.len() ==> '0' <= #[trigger] d[i] <= '9'
}

/// What `str::parse::<u64>` yields: an optional `+` followed by at least
/// one ASCII digit and nothing else, with a value that fits in 64 bits.
pub open spec fn spec_parse_u64(s: Seq<char>) -> Option<u64> {
    let d = if s.len() > 0 && s[0] == '+' {
        s.skip(1)
    } else {
        s
    };
    if d.len() == 0 || !all_digits(d) || digits_value(d) > u64::MAX {
        None
    } else {
        Some(digits_value(d) as u64)
    }
}

/// A longer run of digits is worth at least as much as its prefix.
pub proof fn lemma_digits_value_grows(d: Seq<char>, i: int)
    requires
        0 <= i <= d.len(),
        all_digits(d),
    ensures
        digits_value(d.take(i)) <= digits_value(d),
    decreases d.len() - i,
{
    if i < d.len() {
        lemma_digits_value_grows(d, i + 1);
        assert(d.take(i + 1).drop_last() =~= d.take(i));
    } else {
        assert(d.take(i) =~= d);
    }
}

/// Parses an unsigned 64-bit number (see `spec_parse_u64`).
pub fn parse_u64(s: &Vec<char>) -> (r: Option<u64>)
    ensures
        r == spec_parse_u64(s@),
{
    let start: usize = if s.len() > 0 && s[0] == '+' { 1 } else { 0 };
    let ghost d = s@.skip(start as int);
    assert(d == (if s@.len() > 0 && s@[0] == '+' {
        s@.skip(1)
    } else {
        s@
    })) by {
        if start == 0 {
            assert(s@.skip(0) =~= s@);
        }
    }
    if start == s.len() {
        return None;
    }
    let mut value: u64 = 0;
    let mut i: usize = start;
    assert(d.take(0) =~= Seq::<char>::empty());
    while i < s.len()
        invariant
            start <= i <= s.len(),
            start < s.len(),
            d == s@.skip(start as int),
            d == (if s@.len() > 0 && s@[0] == '+' {
                s@.skip(1)
            } else {
                s@
            }),
            all_digits(d.take(i - start)),
            value as nat == digits_value(d.take(i - start)),
        decreases s.len() - i,
    {
        let c = s[i];
        assert(d[i - start] == c);
        if c < '0' || c > '9' {
            assert(!all_digits(d));
            return None;
        }
        assert(d.take(i - start + 1).drop_last() =~= d.take(i - start));
        assert(d.take(i - start + 1).last() == c);
        assert(all_digits(d.take(i - start + 1))) by {
            assert forall|t: int| 0 <= t < i - start + 1 implies '0' <= #[trigger] d.take(
                i - start + 1,
            )[t] <= '9' by {
                if t < i - start {
                    assert(d.take(i - start + 1)[t] == d.take(i - start)[t]);
                }
            }
        }
        let digit = (c as u32 - 48) as u64;
        let next = match value.checked_mul(10) {
            Some(v) => v.checked_add(digit),
            None => None,
        };
        match next {
            Some(v) => {
                value = v;
            },
            None => {
                proof {
                    let rest_ok = all_digits(d);
                    if rest_ok {
                        lemma_digits_value_grows(d, i - start + 1);
                    }
                }
                return None;
            },
        }
        i = i + 1;
    }
    assert(d.take(s.len() - start) =~= d);
    Some(value)
}

} // verus!
