//! Decimal and hexadecimal renderings used to build identifiers and messages.
use vstd::prelude::*;

verus! {

/// The character of one decimal digit.
pub open spec fn digit_char(d: int) -> char {
    if d == 0 { '0' }
    else if d == 1 { '1' }
    else if d == 2 { '2' }
    else if d == 3 { '3' }
    else if d == 4 { '4' }
    else if d == 5 { '5' }
    else if d == 6 { '6' }
    else if d == 7 { '7' }
    else if d == 8 { '8' }
    else { '9' }
}

/// Shortest decimal rendering of a natural number (no leading zeros).
pub open spec fn decimal_nat(n: nat) -> Seq<char>
    decreases n,
{
    if n < 10 {
        seq![digit_char(n as int)]
    } else {
        decimal_nat(n / 10) + seq![digit_char((n % 10) as int)]
    }
}

/// Decimal rendering of an integer, with a leading `-` when negative.
pub open spec fn decimal_i64(i: int) -> Seq<char> {
    if i < 0 {
        seq!['-'] + decimal_nat((-i) as nat)
    } else {
        decimal_nat(i as nat)
    }
}

/// The lowercase character of one hexadecimal digit.
pub open spec fn hex_char(d: int) -> char {
    if d < 10 { digit_char(d) }
    else if d == 10 { 'a' }
    else if d == 11 { 'b' }
    else if d == 12 { 'c' }
    else if d == 13 { 'd' }
    else if d == 14 { 'e' }
    else { 'f' }
}

/// Lowercase hexadecimal rendering of bytes, two characters per byte.
pub open spec fn hex_lower(bytes: Seq<u8>) -> Seq<char>
    decreases bytes.len(),
{
    if bytes.len() == 0 {
        seq![]
    } else {
        hex_lower(bytes.drop_last()) + seq![
            hex_char((bytes.last() / 16) as int),
            hex_char((bytes.last() % 16) as int),
        ]
    }
}

fn digit_str(d: u64) -> (s: &'static str)
    requires
        d < 10,
    ensures
        s@ == seq![digit_char(d as int)],
{
    proof {
        reveal_strlit("0");
        reveal_strlit("1");
        reveal_strlit("2");
        reveal_strlit("3");
        reveal_strlit("4");
        reveal_strlit("5");
        reveal_strlit("6");
        reveal_strlit("7");
        reveal_strlit("8");
        reveal_strlit("9");
    }
    if d == 0 { "0" }
    else if d == 1 { "1" }
    else if d == 2 { "2" }
    else if d == 3 { "3" }
    else if d == 4 { "4" }
    else if d == 5 { "5" }
    else if d == 6 { "6" }
    else if d == 7 { "7" }
    else if d == 8 { "8" }
    else { "9" }
}

fn hex_str(d: u8) -> (s: &'static str)
    requires
        d < 16,
    ensures
        s@ == seq![hex_char(d as int)],
{
    proof {
        reveal_strlit("a");
        reveal_strlit("b");
        reveal_strlit("c");
        reveal_strlit("d");
        reveal_strlit("e");
        reveal_strlit("f");
    }
    if d < 10 { digit_str(d as u64) }
    else if d == 10 { "a" }
    else if d == 11 { "b" }
    else if d == 12 { "c" }
    else if d == 13 { "d" }
    else if d == 14 { "e" }
    else { "f" }
}

/// Appends the decimal rendering of `n`.
pub fn append_u64(s: &mut String, n: u64)
    ensures
        final(s)@ == old(s)@ + decimal_nat(n as nat),
    decreases n,
{
    if n < 10 {
        s.append(digit_str(n));
    } else {
        append_u64(s, n / 10);
        s.append(digit_str(n % 10));
    }
}

/// Appends the decimal rendering of `i`, with a leading `-` when negative.
pub fn append_i64(s: &mut String, i: i64)
    ensures
        final(s)@ == old(s)@ + decimal_i64(i as int),
{
    if i < 0 {
        proof {
            reveal_strlit("-");
        }
        s.append("-");
        let magnitude: u64 = if i == i64::MIN {
            9223372036854775808u64
        } else {
            (-i) as u64
        };
        append_u64(s, magnitude);
        assert(final(s)@ =~= old(s)@ + decimal_i64(i as int)) by {
            assert(seq!['-'] + decimal_nat(magnitude as nat) == decimal_i64(i as int));
        }
    } else {
        append_u64(s, i as u64);
    }
}

/// Appends the lowercase hexadecimal rendering of `bytes`.
pub fn append_hex_lower(s: &mut String, bytes: &Vec<u8>)
    ensures
        final(s)@ == old(s)@ + hex_lower(bytes@),
{
    let ghost start = s@;
    let mut i: usize = 0;
    while i < bytes.len()
        invariant
            i <= bytes.len(),
            s@ == start + hex_lower(bytes@.take(i as int)),
        decreases bytes.len() - i,
    {
        let b = bytes[i];
        s.append(hex_str(b / 16));
        s.append(hex_str(b % 16));
        proof {
            assert(bytes@.take(i + 1).drop_last() =~= bytes@.take(i as int));
            assert(bytes@.take(i + 1).last() == b);
        }
        i = i + 1;
    }
    assert(bytes@.take(bytes.len() as int) =~= bytes@);
}


/// ASCII lowercase of one character; other characters are unchanged.
pub open spec fn ascii_lower(c: char) -> char {
    if 'A' <= c <= 'Z' {
        ((c as u32) + 32) as char
    } else {
        c
    }
}

/// ASCII lowercase of every character of a sequence.
pub open spec fn ascii_lower_seq(s: Seq<char>) -> Seq<char> {
    Seq::new(s.len(), |i: int| ascii_lower(s[i]))
}

/// `p` is a prefix of `s`.
pub open spec fn has_prefix(s: Seq<char>, p: Seq<char>) -> bool {
    p.len() <= s.len() && s.subrange(0, p.len() as int) == p
}

pub fn ascii_lower_char(c: char) -> (r: char)
    ensures
        r == ascii_lower(c),
{
    if 'A' <= c && c <= 'Z' {
        let code: u8 = (c as u8) + 32;
        code as char
    } else {
        c
    }
}

/// Character-wise equality of two strings.
pub fn str_equal(a: &str, b: &str) -> (r: bool)
    ensures
        r == (a@ == b@),
{
    let n = a.unicode_len();
    if n != b.unicode_len() {
        return false;
    }
    let mut i: usize = 0;
    while i < n
        invariant
            n == a@.len(),
            n == b@.len(),
            i <= n,
            forall|j: int| 0 <= j < i ==> a@[j] == b@[j],
        decreases n - i,
    {
        if a.get_char(i) != b.get_char(i) {
            return false;
        }
        i = i + 1;
    }
    assert(a@ =~= b@);
    true
}

/// Equality of two strings after ASCII lowercasing both.
pub fn eq_ignore_ascii_case(a: &str, b: &str) -> (r: bool)
    ensures
        r == (ascii_lower_seq(a@) == ascii_lower_seq(b@)),
{
    let n = a.unicode_len();
    if n != b.unicode_len() {
        assert(ascii_lower_seq(a@).len() != ascii_lower_seq(b@).len());
        return false;
    }
    let mut i: usize = 0;
    while i < n
        invariant
            n == a@.len(),
            n == b@.len(),
            i <= n,
            forall|j: int| 0 <= j < i ==> ascii_lower(a@[j]) == ascii_lower(b@[j]),
        decreases n - i,
    {
        if ascii_lower_char(a.get_char(i)) != ascii_lower_char(b.get_char(i)) {
            assert(ascii_lower_seq(a@)[i as int] != ascii_lower_seq(b@)[i as int]);
            return false;
        }
        i = i + 1;
    }
    assert(ascii_lower_seq(a@) =~= ascii_lower_seq(b@));
    true
}

/// `s` begins with `p`.
pub fn starts_with(s: &str, p: &str) -> (r: bool)
    ensures
        r == has_prefix(s@, p@),
{
    let n = p.unicode_len();
    if n > s.unicode_len() {
        return false;
    }
    let mut i: usize = 0;
    while i < n
        invariant
            n == p@.len(),
            n <= s@.len(),
            i <= n,
            forall|j: int| 0 <= j < i ==> s@[j] == p@[j],
        decreases n - i,
    {
        if s.get_char(i) != p.get_char(i) {
            assert(s@.subrange(0, n as int)[i as int] != p@[i as int]);
            return false;
        }
        i = i + 1;
    }
    assert(s@.subrange(0, n as int) =~= p@);
    true
}


/// An ASCII decimal digit.
pub open spec fn is_digit(c: char) -> bool {
    '0' <= c <= '9'
}

/// The value of a sequence of decimal digits.
pub open spec fn digits_value(s: Seq<char>) -> nat
    decreases s.len(),
{
    if s.len() == 0 {
        0
    } else {
        digits_value(s.drop_last()) * 10 + ((s.last() as u32) - ('0' as u32)) as nat
    }
}

/// The digits of an unsigned number: everything after an optional leading `+`.
pub open spec fn unsigned_digits(s: Seq<char>) -> Seq<char> {
    if s.len() > 0 && s[0] == '+' {
        s.skip(1)
    } else {
        s
    }
}

/// What `u32::from_str` accepts: an optional `+`, then one or more decimal
/// digits whose value fits in a `u32`.
pub open spec fn parse_u32(s: Seq<char>) -> Option<nat> {
    let digits = unsigned_digits(s);
    if digits.len() > 0 && (forall|i: int| 0 <= i < digits.len() ==> is_digit(#[trigger] digits[i]))
        && digits_value(digits) <= u32::MAX {
        Some(digits_value(digits))
    } else {
        None
    }
}

proof fn lemma_capped_step(x: nat, d: nat)
    requires
        d < 10,
    ensures
        ({
            let cap: nat = 0x1_0000_0000;
            let capped: nat = if x < cap { x } else { cap };
            let next: nat = capped * 10 + d;
            (if next < cap { next } else { cap }) == (if x * 10 + d < cap { x * 10 + d } else { cap })
        }),
{
    let cap: nat = 0x1_0000_0000;
    if x >= cap {
        assert(x * 10 + d >= cap) by (nonlinear_arith)
            requires
                x >= cap,
        ;
        assert(cap * 10 + d >= cap);
    }
}

/// Parses a decimal `u32` the way `u32::from_str` does.
pub fn parse_u32_str(s: &str) -> (r: Option<u32>)
    ensures
        r is Some <==> parse_u32(s@) is Some,
        r matches Some(v) ==> v as nat == parse_u32(s@)->0,
{
    let n = s.unicode_len();
    let start: usize = if n > 0 && s.get_char(0) == '+' { 1 } else { 0 };
    let ghost digits = unsigned_digits(s@);
    proof {
        assert(digits =~= s@.subrange(start as int, n as int));
    }
    if start >= n {
        return None;
    }
    let mut value: u64 = 0;
    let mut i: usize = start;
    while i < n
        invariant
            n == s@.len(),
            start <= i <= n,
            digits =~= s@.subrange(start as int, n as int),
            digits == unsigned_digits(s@),
            forall|j: int| start <= j < i ==> is_digit(#[trigger] s@[j]),
            value as nat == (if digits_value(s@.subrange(start as int, i as int)) < 0x1_0000_0000 {
                digits_value(s@.subrange(start as int, i as int))
            } else {
                0x1_0000_0000nat
            }),
        decreases n - i,
    {
        let c = s.get_char(i);
        if !('0' <= c && c <= '9') {
            proof {
                assert(digits[i - start] == c);
                assert(!is_digit(digits[i - start]));
                assert(!(forall|j: int| 0 <= j < digits.len() ==> is_digit(#[trigger] digits[j])));
                assert(digits == unsigned_digits(s@));
                assert(parse_u32(s@) is None);
            }
            return None;
        }
        let d: u64 = ((c as u32) - ('0' as u32)) as u64;
        proof {
            let prefix = s@.subrange(start as int, i as int);
            let next = s@.subrange(start as int, i + 1);
            assert(next.drop_last() =~= prefix);
            assert(next.last() == c);
            lemma_capped_step(digits_value(prefix), d as nat);
        }
        let stepped: u64 = value * 10 + d;
        value = if stepped < 0x1_0000_0000u64 { stepped } else { 0x1_0000_0000u64 };
        i = i + 1;
    }
    proof {
        assert(s@.subrange(start as int, n as int) =~= digits);
        assert forall|j: int| 0 <= j < digits.len() implies is_digit(#[trigger] digits[j]) by {
            assert(digits[j] == s@[start + j]);
        }
    }
    if value <= 0xFFFF_FFFFu64 {
        Some(value as u32)
    } else {
        None
    }
}

// ------------------------------------------------------------ text order

/// Lexicographic order of texts by Unicode scalar value, which is also the
/// byte order of their UTF-8 encodings: a proper prefix comes first.
pub open spec fn text_lt(a: Seq<char>, b: Seq<char>) -> bool
    decreases a.len(),
{
    if b.len() == 0 {
        false
    } else if a.len() == 0 {
        true
    } else if a[0] < b[0] {
        true
    } else if a[0] == b[0] {
        text_lt(a.drop_first(), b.drop_first())
    } else {
        false
    }
}

pub proof fn lemma_text_lt_irreflexive(a: Seq<char>)
    ensures
        !text_lt(a, a),
    decreases a.len(),
{
    if a.len() > 0 {
        lemma_text_lt_irreflexive(a.drop_first());
    }
}

pub proof fn lemma_text_lt_transitive(a: Seq<char>, b: Seq<char>, c: Seq<char>)
    requires
        text_lt(a, b),
        text_lt(b, c),
    ensures
        text_lt(a, c),
    decreases a.len(),
{
    if a.len() > 0 && b.len() > 0 && c.len() > 0 && a[0] == b[0] && b[0] == c[0] {
        lemma_text_lt_transitive(a.drop_first(), b.drop_first(), c.drop_first());
    }
}

pub proof fn lemma_text_lt_total(a: Seq<char>, b: Seq<char>)
    ensures
        a == b || text_lt(a, b) || text_lt(b, a),
    decreases a.len(),
{
    if a.len() > 0 && b.len() > 0 && a[0] == b[0] {
        lemma_text_lt_total(a.drop_first(), b.drop_first());
        if a.drop_first() == b.drop_first() {
            assert forall|i: int| 0 <= i < a.len() implies a[i] == b[i] by {
                if i > 0 {
                    assert(a[i] == a.drop_first()[i - 1]);
                    assert(b[i] == b.drop_first()[i - 1]);
                }
            }
            assert(a =~= b);
        }
    } else if a.len() == 0 && b.len() == 0 {
        assert(a =~= b);
    }
}

/// Lexicographic comparison of two texts.
pub fn str_lt(a: &str, b: &str) -> (r: bool)
    ensures
        r == text_lt(a@, b@),
{
    let n = a.unicode_len();
    let m = b.unicode_len();
    let mut i: usize = 0;
    proof {
        assert(a@.skip(0) =~= a@);
        assert(b@.skip(0) =~= b@);
    }
    while i < n && i < m
        invariant
            n == a@.len(),
            m == b@.len(),
            i <= n,
            i <= m,
            text_lt(a@, b@) == text_lt(a@.skip(i as int), b@.skip(i as int)),
        decreases n - i,
    {
        let x = a.get_char(i);
        let y = b.get_char(i);
        if x != y {
            return x < y;
        }
        proof {
            assert(a@.skip(i as int).drop_first() =~= a@.skip(i + 1));
            assert(b@.skip(i as int).drop_first() =~= b@.skip(i + 1));
        }
        i = i + 1;
    }
    n - i < m - i
}

/// Every text of `s` comes before every later one; in particular no text repeats.
pub open spec fn strictly_ascending(s: Seq<Seq<char>>) -> bool {
    forall|i: int, j: int| 0 <= i < j < s.len() ==> text_lt(#[trigger] s[i], #[trigger] s[j])
}

pub open spec fn texts_of(v: Seq<String>) -> Seq<Seq<char>> {
    v.map_values(|s: String| s@)
}

/// The distinct texts of `items` in ascending order, as an ordered set of
/// them would list them.
pub fn sorted_unique(items: Vec<String>) -> (r: Vec<String>)
    ensures
        strictly_ascending(texts_of(r@)),
        forall|x: Seq<char>| texts_of(r@).contains(x) <==> texts_of(items@).contains(x),
{
    let ghost all = texts_of(items@);
    let mut out: Vec<String> = Vec::new();
    let mut remaining = items;
    let ghost mut k: int = 0;
    proof {
        assert(texts_of(out@) =~= Seq::<Seq<char>>::empty());
    }
    while remaining.len() > 0
        invariant
            0 <= k <= all.len(),
            texts_of(remaining@) == all.skip(k),
            strictly_ascending(texts_of(out@)),
            forall|x: Seq<char>| texts_of(out@).contains(x) <==> all.take(k).contains(x),
        decreases remaining@.len(),
    {
        let ghost rem_before = texts_of(remaining@);
        let ghost rem_vec = remaining@;
        let item = remaining.remove(0);
        proof {
            assert(rem_before.len() == rem_vec.len());
            assert(all.skip(k).len() == all.len() - k);
            assert(k < all.len());
            assert(rem_before[0] == item@);
            assert(all.skip(k)[0] == all[k]);
            assert(all[k] == item@);
            assert forall|i: int| 0 <= i < texts_of(remaining@).len() implies #[trigger] texts_of(
                remaining@,
            )[i] == all.skip(k + 1)[i] by {
                assert(remaining@[i] == rem_vec[i + 1]);
                assert(texts_of(remaining@)[i] == rem_before[i + 1]);
                assert(rem_before[i + 1] == all.skip(k)[i + 1]);
            }
            assert(texts_of(remaining@) =~= all.skip(k + 1));
        }
        let ghost before = texts_of(out@);
        let mut pos: usize = 0;
        while pos < out.len()
            invariant
                pos <= out@.len(),
                before == texts_of(out@),
                strictly_ascending(before),
                forall|i: int| 0 <= i < pos ==> text_lt(#[trigger] before[i], item@),
            ensures
                pos <= out@.len(),
                before == texts_of(out@),
                forall|i: int| 0 <= i < pos ==> text_lt(#[trigger] before[i], item@),
                pos < out@.len() ==> !text_lt(before[pos as int], item@),
            decreases out@.len() - pos,
        {
            if !str_lt(out[pos].as_str(), item.as_str()) {
                break;
            }
            pos = pos + 1;
        }
        let duplicate = pos < out.len() && str_equal(out[pos].as_str(), item.as_str());
        if !duplicate {
            let ghost item_view = item@;
            proof {
                if pos < before.len() {
                    lemma_text_lt_total(before[pos as int], item_view);
                    assert forall|j: int| pos <= j < before.len() implies text_lt(
                        item_view,
                        #[trigger] before[j],
                    ) by {
                        if j > pos {
                            lemma_text_lt_transitive(item_view, before[pos as int], before[j]);
                        }
                    }
                }
            }
            out.insert(pos, item);
            proof {
                let after = before.insert(pos as int, item_view);
                assert(texts_of(out@) =~= after);
                assert forall|i: int, j: int| 0 <= i < j < after.len() implies text_lt(
                    #[trigger] after[i],
                    #[trigger] after[j],
                ) by {
                    if j < pos {
                        assert(after[i] == before[i] && after[j] == before[j]);
                    } else if j == pos {
                        assert(after[i] == before[i]);
                    } else if i < pos {
                        assert(after[i] == before[i] && after[j] == before[j - 1]);
                        lemma_text_lt_transitive(before[i], item_view, before[j - 1]);
                    } else if i == pos {
                        assert(after[j] == before[j - 1]);
                    } else {
                        assert(after[i] == before[i - 1] && after[j] == before[j - 1]);
                    }
                }
                let grown = all.take(k + 1);
                assert(grown =~= all.take(k).push(item_view));
                assert forall|x: Seq<char>| after.contains(x) <==> grown.contains(x) by {
                    if grown.contains(x) {
                        let i = choose|i: int| 0 <= i < grown.len() && grown[i] == x;
                        if i < k {
                            assert(all.take(k)[i] == x);
                            assert(all.take(k).contains(x));
                        }
                    }
                    if all.take(k).contains(x) {
                        let i = choose|i: int| 0 <= i < all.take(k).len() && all.take(k)[i] == x;
                        assert(grown[i] == x);
                    }
                    if x == item_view {
                        assert(grown[k] == x);
                    }
                    if after.contains(x) {
                        let i = choose|i: int| 0 <= i < after.len() && after[i] == x;
                        if i < pos {
                            assert(before[i] == x);
                        } else if i > pos {
                            assert(before[i - 1] == x);
                        }
                    }
                    if before.contains(x) {
                        let i = choose|i: int| 0 <= i < before.len() && before[i] == x;
                        if i < pos {
                            assert(after[i] == x);
                        } else {
                            assert(after[i + 1] == x);
                        }
                    }
                    if x == item_view {
                        assert(after[pos as int] == x);
                    }
                }
            }
        } else {
            proof {
                assert(before[pos as int] == item@);
                let grown = all.take(k + 1);
                assert(grown =~= all.take(k).push(item@));
                assert forall|x: Seq<char>| before.contains(x) <==> grown.contains(x) by {
                    if grown.contains(x) {
                        let i = choose|i: int| 0 <= i < grown.len() && grown[i] == x;
                        if i < k {
                            assert(all.take(k)[i] == x);
                            assert(all.take(k).contains(x));
                        }
                    }
                    if all.take(k).contains(x) {
                        let i = choose|i: int| 0 <= i < all.take(k).len() && all.take(k)[i] == x;
                        assert(grown[i] == x);
                    }
                    if x == item@ {
                        assert(before[pos as int] == x);
                        assert(grown[k] == x);
                    }
                }
            }
        }
        proof {
            k = k + 1;
        }
    }
    proof {
        assert(all.take(k) =~= all);
    }
    out
}

} // verus!
