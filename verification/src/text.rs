//! Small text utilities: characters of a string, decimal and hexadecimal
//! rendering, ASCII strings, and the parsing of unsigned integers the way
//! `u64::from_str` does it.

use vstd::prelude::*;
use vstd::string::StrSliceExecFns;

verus! {

/// The characters of `s`, in order.
pub fn chars_of(s: &str) -> (v: Vec<char>)
    ensures
        v@ == s@,
{
    let mut v: Vec<char> = Vec::new();
    for c in it: s.chars()
        invariant
            v@ == it.history(),
    {
        v.push(c);
    }
    v
}

} // verus!

verus! {

/// All bytes are ASCII.
pub open spec fn all_ascii(bytes: Seq<u8>) -> bool {
    forall|i: int| 0 <= i < bytes.len() ==> #[trigger] bytes[i] < 128
}

/// The characters that ASCII bytes stand for.
pub open spec fn ascii_chars(bytes: Seq<u8>) -> Seq<char> {
    bytes.map_values(|b: u8| b as char)
}

/// Turns ASCII bytes into a `String` (`String::from_utf8`); ASCII is valid
/// UTF-8 and each byte becomes the character of the same code.
#[verifier::external_body]
pub(crate) fn ascii_string(bytes: Vec<u8>) -> (s: String)
    requires
        all_ascii(bytes@),
    ensures
        s@ == ascii_chars(bytes@),
{
    String::from_utf8(bytes).unwrap_or_default()
}

/// The ASCII byte of a decimal digit.
pub open spec fn digit_byte(d: int) -> u8 {
    (48 + d) as u8
}

/// Decimal rendering of `n` (no sign, no leading zeros, "0" for zero).
pub open spec fn dec_bytes(n: nat) -> Seq<u8>
    decreases n,
{
    if n < 10 {
        seq![digit_byte(n as int)]
    } else {
        dec_bytes(n / 10).push(digit_byte((n % 10) as int))
    }
}

proof fn lemma_dec_bytes_ascii(n: nat)
    ensures
        all_ascii(dec_bytes(n)),
    decreases n,
{
    if n >= 10 {
        lemma_dec_bytes_ascii(n / 10);
    }
}

fn push_decimal(out: &mut Vec<u8>, n: u64)
    ensures
        final(out)@ == old(out)@ + dec_bytes(n as nat),
    decreases n,
{
    if n >= 10 {
        push_decimal(out, n / 10);
    }
    out.push(48u8 + (n % 10) as u8);
    proof {
        if n >= 10 {
            assert(old(out)@ + dec_bytes(n as nat) =~= (old(out)@ + dec_bytes((n / 10) as nat)).push(
                digit_byte((n % 10) as int),
            ));
        } else {
            assert(old(out)@ + dec_bytes(n as nat) =~= old(out)@.push(digit_byte(n as int)));
        }
    }
}

/// Decimal rendering of `n` as a `String`.
pub fn decimal_string(n: u64) -> (s: String)
    ensures
        s@ == ascii_chars(dec_bytes(n as nat)),
{
    let mut v: Vec<u8> = Vec::new();
    push_decimal(&mut v, n);
    proof {
        assert(v@ =~= dec_bytes(n as nat));
        lemma_dec_bytes_ascii(n as nat);
    }
    ascii_string(v)
}

/// The ASCII byte of a lowercase hexadecimal digit.
pub open spec fn hex_byte(d: int) -> u8 {
    if d < 10 {
        (48 + d) as u8
    } else {
        (87 + d) as u8
    }
}

/// The last `k` lowercase hexadecimal digits of `n`, zero-padded.
pub open spec fn hex_bytes(n: nat, k: nat) -> Seq<u8>
    decreases k,
{
    if k == 0 {
        Seq::empty()
    } else {
        hex_bytes(n / 16, (k - 1) as nat).push(hex_byte((n % 16) as int))
    }
}

proof fn lemma_hex_bytes_ascii(n: nat, k: nat)
    ensures
        all_ascii(hex_bytes(n, k)),
        hex_bytes(n, k).len() == k,
    decreases k,
{
    if k > 0 {
        lemma_hex_bytes_ascii(n / 16, (k - 1) as nat);
    }
}

fn push_hex(out: &mut Vec<u8>, n: u64, k: u32)
    ensures
        final(out)@ == old(out)@ + hex_bytes(n as nat, k as nat),
    decreases k,
{
    if k == 0 {
        assert(old(out)@ + hex_bytes(n as nat, 0) =~= old(out)@);
        return;
    }
    push_hex(out, n / 16, k - 1);
    let d = (n % 16) as u8;
    let b = if d < 10 { 48u8 + d } else { 87u8 + d };
    out.push(b);
    proof {
        assert(old(out)@ + hex_bytes(n as nat, k as nat) =~= (old(out)@ + hex_bytes(
            (n / 16) as nat,
            (k - 1) as nat,
        )).push(hex_byte((n % 16) as int)));
    }
}

/// `n` as exactly sixteen lowercase hexadecimal digits (zero-padded).
pub fn hex16_string(n: u64) -> (s: String)
    ensures
        s@ == ascii_chars(hex_bytes(n as nat, 16)),
        s@.len() == 16,
{
    let mut v: Vec<u8> = Vec::new();
    push_hex(&mut v, n, 16);
    proof {
        assert(v@ =~= hex_bytes(n as nat, 16));
        lemma_hex_bytes_ascii(n as nat, 16);
    }
    ascii_string(v)
}

/// Whether a character is an ASCII decimal digit.
pub open spec fn is_digit(c: char) -> bool {
    '0' <= c <= '9'
}

/// The numeric value of a string of decimal digits (most significant first).
pub open spec fn digits_value(d: Seq<char>) -> nat
    decreases d.len(),
{
    if d.len() == 0 {
        0
    } else {
        digits_value(d.drop_last()) * 10 + ((d.last() as int) - 48) as nat
    }
}

/// The characters after an optional leading `+`.
pub open spec fn unsigned_digits(s: Seq<char>) -> Seq<char> {
    if s.len() > 0 && s[0] == '+' {
        s.subrange(1, s.len() as int)
    } else {
        s
    }
}

/// Every character is an ASCII decimal digit.
pub open spec fn all_digits(d: Seq<char>) -> bool {
    forall|i: int| 0 <= i < d.len() ==> is_digit(#[trigger] d[i])
}

/// How `u64::from_str` reads a string: an optional leading `+`, then at
/// least one ASCII digit and nothing else, with a value that fits.
pub open spec fn parse_u64_spec(s: Seq<char>) -> Option<u64> {
    let d = unsigned_digits(s);
    if d.len() == 0 {
        None
    } else if !all_digits(d) {
        None
    } else if digits_value(d) > u64::MAX {
        None
    } else {
        Some(digits_value(d) as u64)
    }
}

proof fn lemma_digits_value_grows(d: Seq<char>, k: int)
    requires
        0 <= k <= d.len(),
        forall|i: int| 0 <= i < d.len() ==> is_digit(#[trigger] d[i]),
    ensures
        digits_value(d.take(k)) <= digits_value(d),
    decreases d.len() - k,
{
    if k < d.len() {
        lemma_digits_value_grows(d, k + 1);
        assert(d.take(k + 1).drop_last() =~= d.take(k));
    } else {
        assert(d.take(k) =~= d);
    }
}

/// Parses the characters `s[start..]` as `u64::from_str` reads them.
pub fn parse_u64_chars(s: &Vec<char>, start: usize, end: usize) -> (r: Option<u64>)
    requires
        start <= end <= s@.len(),
    ensures
        r == parse_u64_spec(s@.subrange(start as int, end as int)),
{
    let ghost whole = s@.subrange(start as int, end as int);
    let mut i = start;
    if i < end && s[i] == '+' {
        i = i + 1;
    }
    let ghost d = s@.subrange(i as int, end as int);
    proof {
        if whole.len() > 0 && whole[0] == '+' {
            assert(d =~= whole.subrange(1, whole.len() as int));
        } else {
            assert(d =~= whole);
        }
    }
    if i == end {
        return None;
    }
    let first = i;
    let mut acc: u64 = 0;
    while i < end
        invariant
            first <= i <= end <= s@.len(),
            start <= first,
            d == s@.subrange(first as int, end as int),
            whole == s@.subrange(start as int, end as int),
            d.len() > 0,
            d == unsigned_digits(whole),
            forall|j: int| first <= j < i ==> is_digit(#[trigger] s@[j]),
            acc == digits_value(s@.subrange(first as int, i as int)),
        decreases end - i,
    {
        let c = s[i];
        if !('0' <= c && c <= '9') {
            proof {
                assert(d[i - first] == c);
                assert(!is_digit(d[i - first]));
            }
            return None;
        }
        let v = (c as u32 - 48) as u64;
        proof {
            assert(s@.subrange(first as int, i + 1).drop_last() =~= s@.subrange(
                first as int,
                i as int,
            ));
        }
        if acc > (u64::MAX - v) / 10 {
            proof {
                let p = s@.subrange(first as int, i + 1);
                assert(digits_value(p) == acc * 10 + v);
                assert(digits_value(p) > u64::MAX);
                if all_digits(d) {
                    lemma_digits_value_grows(d, i + 1 - first);
                    assert(d.take(i + 1 - first) =~= p);
                }
            }
            return None;
        }
        acc = acc * 10 + v;
        i = i + 1;
    }
    proof {
        assert(s@.subrange(first as int, i as int) =~= d);
    }
    Some(acc)
}

} // verus!

verus! {

/// Parses a string as `u64::from_str` does.
pub fn parse_u64(s: &str) -> (r: Option<u64>)
    ensures
        r == parse_u64_spec(s@),
{
    let v = chars_of(s);
    proof {
        assert(v@.subrange(0, v@.len() as int) =~= v@);
    }
    parse_u64_chars(&v, 0, v.len())
}

/// Whether two strings hold the same characters.
pub fn str_eq(a: &str, b: &str) -> (r: bool)
    ensures
        r == (a@ == b@),
{
    let va = chars_of(a);
    let vb = chars_of(b);
    if va.len() != vb.len() {
        return false;
    }
    let n = va.len();
    let mut i: usize = 0;
    while i < n
        invariant
            n == va@.len(),
            n == vb@.len(),
            va@ == a@,
            vb@ == b@,
            i <= n,
            forall|j: int| 0 <= j < i ==> va@[j] == vb@[j],
        decreases n - i,
    {
        if va[i] != vb[i] {
            proof {
                assert(va@[i as int] != vb@[i as int]);
                assert(a@[i as int] != b@[i as int]);
            }
            return false;
        }
        i = i + 1;
    }
    proof {
        assert(va@ =~= vb@);
    }
    true
}

/// Position of the first occurrence of `c` in `s`, if any.
pub open spec fn first_index_of(s: Seq<char>, c: char) -> Option<int> {
    if exists|i: int| 0 <= i < s.len() && s[i] == c {
        Some(choose|i: int| 0 <= i < s.len() && s[i] == c && forall|j: int| 0 <= j < i ==> s[j] != c)
    } else {
        None
    }
}

/// Finds the first occurrence of `c` in `v`.
pub fn find_char(v: &Vec<char>, c: char) -> (r: Option<usize>)
    ensures
        match r {
            Some(k) => k < v@.len() && v@[k as int] == c && forall|j: int| 0 <= j < k ==> v@[j] != c,
            None => forall|j: int| 0 <= j < v@.len() ==> v@[j] != c,
        },
        r matches Some(k) ==> first_index_of(v@, c) == Some(k as int),
        r is None ==> first_index_of(v@, c) is None,
{
    let mut i: usize = 0;
    while i < v.len()
        invariant
            i <= v@.len(),
            forall|j: int| 0 <= j < i ==> v@[j] != c,
        decreases v@.len() - i,
    {
        if v[i] == c {
            proof {
                let w = choose|w: int| 0 <= w < v@.len() && v@[w] == c && forall|j: int|
                    0 <= j < w ==> v@[j] != c;
                assert(0 <= w < v@.len() && v@[w] == c && forall|j: int| 0 <= j < w ==> v@[j] != c);
                if w < i {
                } else if w > i {
                    assert(v@[i as int] != c);
                }
            }
            return Some(i);
        }
        i = i + 1;
    }
    None
}

} // verus!

verus! {

/// Whether a character has the Unicode `White_Space` property, which is
/// what `char::is_whitespace` tests.
pub open spec fn is_white_space(c: char) -> bool {
    let n = c as u32;
    (9 <= n <= 13) || n == 32 || n == 0x85 || n == 0xa0 || n == 0x1680 || (0x2000 <= n
        <= 0x200a) || n == 0x2028 || n == 0x2029 || n == 0x202f || n == 0x205f || n == 0x3000
}

/// Tests the Unicode `White_Space` property of a character.
pub fn white_space(c: char) -> (b: bool)
    ensures
        b == is_white_space(c),
{
    let n = c as u32;
    (9 <= n && n <= 13) || n == 32 || n == 0x85 || n == 0xa0 || n == 0x1680 || (0x2000 <= n
        && n <= 0x200a) || n == 0x2028 || n == 0x2029 || n == 0x202f || n == 0x205f || n
        == 0x3000
}

/// Scans `s` from the left: the words completed so far and the word in
/// progress (a word is a maximal run of characters that are not white
/// space).
pub open spec fn word_scan(s: Seq<char>) -> (Seq<Seq<char>>, Seq<char>)
    decreases s.len(),
{
    if s.len() == 0 {
        (Seq::empty(), Seq::empty())
    } else {
        let (done, cur) = word_scan(s.drop_last());
        if is_white_space(s.last()) {
            if cur.len() > 0 {
                (done.push(cur), Seq::empty())
            } else {
                (done, Seq::empty())
            }
        } else {
            (done, cur.push(s.last()))
        }
    }
}

/// The words of `s` in order, as `str::split_whitespace` yields them.
pub open spec fn words(s: Seq<char>) -> Seq<Seq<char>> {
    let (done, cur) = word_scan(s);
    if cur.len() > 0 {
        done.push(cur)
    } else {
        done
    }
}

/// Splits a string into its words (`str::split_whitespace`).
pub fn split_words(s: &str) -> (ws: Vec<String>)
    ensures
        ws@.len() == words(s@).len(),
        forall|k: int| 0 <= k < ws@.len() ==> #[trigger] ws@[k]@ == words(s@)[k],
{
    let v = chars_of(s);
    let mut ws: Vec<String> = Vec::new();
    let ghost mut done: Seq<Seq<char>> = Seq::empty();
    let mut start: usize = 0;
    let mut i: usize = 0;
    proof {
        assert(s@.take(0) =~= Seq::<char>::empty());
        assert(s@.subrange(0, 0) =~= Seq::<char>::empty());
    }
    while i < v.len()
        invariant
            v@ == s@,
            start <= i <= v@.len(),
            word_scan(s@.take(i as int)) == (done, s@.subrange(start as int, i as int)),
            ws@.len() == done.len(),
            forall|k: int| 0 <= k < ws@.len() ==> #[trigger] ws@[k]@ == done[k],
        decreases v@.len() - i,
    {
        proof {
            assert(s@.take(i + 1).drop_last() =~= s@.take(i as int));
            assert(s@.take(i + 1).last() == s@[i as int]);
        }
        let c = v[i];
        if white_space(c) {
            if start < i {
                let w = s.substring_char(start, i).to_owned();
                proof {
                    done = done.push(s@.subrange(start as int, i as int));
                }
                ws.push(w);
            }
            start = i + 1;
            proof {
                assert(s@.subrange(start as int, start as int) =~= Seq::<char>::empty());
            }
        } else {
            proof {
                assert(s@.subrange(start as int, i as int).push(c) =~= s@.subrange(
                    start as int,
                    i + 1,
                ));
            }
        }
        i = i + 1;
    }
    proof {
        assert(s@.take(v@.len() as int) =~= s@);
    }
    if start < v.len() {
        let w = s.substring_char(start, v.len()).to_owned();
        proof {
            done = done.push(s@.subrange(start as int, v@.len() as int));
        }
        ws.push(w);
    }
    ws
}

/// `s` without its leading white space.
pub open spec fn trim_start(s: Seq<char>) -> Seq<char>
    decreases s.len(),
{
    if s.len() > 0 && is_white_space(s[0]) {
        trim_start(s.drop_first())
    } else {
        s
    }
}

/// `s` without its trailing white space.
pub open spec fn trim_end(s: Seq<char>) -> Seq<char>
    decreases s.len(),
{
    if s.len() > 0 && is_white_space(s.last()) {
        trim_end(s.drop_last())
    } else {
        s
    }
}

/// `s` without leading and trailing white space (`str::trim`).
pub open spec fn trimmed(s: Seq<char>) -> Seq<char> {
    trim_end(trim_start(s))
}

/// Removes leading and trailing white space (`str::trim`).
pub fn trim_text(s: &str) -> (t: String)
    ensures
        t@ == trimmed(s@),
{
    let v = chars_of(s);
    let n = v.len();
    let mut a: usize = 0;
    proof {
        assert(s@.subrange(0, n as int) =~= s@);
    }
    loop
        invariant
            v@ == s@,
            n == v@.len(),
            a <= n,
            trim_start(s@) == trim_start(s@.subrange(a as int, n as int)),
        ensures
            a <= n,
            trim_start(s@) == s@.subrange(a as int, n as int),
        decreases n - a,
    {
        if a == n {
            proof {
                assert(s@.subrange(a as int, n as int).len() == 0);
            }
            break;
        }
        if !white_space(v[a]) {
            break;
        }
        proof {
            assert(s@.subrange(a as int, n as int).drop_first() =~= s@.subrange(a + 1, n as int));
        }
        a = a + 1;
    }
    let mut b: usize = n;
    proof {
        assert(s@.subrange(a as int, n as int) =~= s@.subrange(a as int, b as int));
    }
    loop
        invariant
            v@ == s@,
            n == v@.len(),
            a <= b <= n,
            trim_start(s@) == s@.subrange(a as int, n as int),
            trimmed(s@) == trim_end(s@.subrange(a as int, b as int)),
        ensures
            a <= b <= n,
            trimmed(s@) == s@.subrange(a as int, b as int),
        decreases b - a,
    {
        if b == a {
            proof {
                assert(s@.subrange(a as int, b as int).len() == 0);
            }
            break;
        }
        if !white_space(v[b - 1]) {
            proof {
                assert(s@.subrange(a as int, b as int).last() == s@[b - 1]);
            }
            break;
        }
        proof {
            assert(s@.subrange(a as int, b as int).drop_last() =~= s@.subrange(a as int, b - 1));
        }
        b = b - 1;
    }
    s.substring_char(a, b).to_owned()
}

/// Why `u64::from_str` refuses a string.
#[derive(Debug, Clone, Copy, PartialEq, Eq, Structural)]
pub enum IntParseError {
    Empty,
    InvalidDigit,
    PosOverflow,
}

/// The text under which a refusal is reported.
pub open spec fn int_error_text(e: IntParseError) -> Seq<char> {
    match e {
        IntParseError::Empty => "cannot parse integer from empty string"@,
        IntParseError::InvalidDigit => "invalid digit found in string"@,
        IntParseError::PosOverflow => "number too large to fit in target type"@,
    }
}

impl IntParseError {
    /// The text under which the refusal is reported.
    pub fn message(&self) -> (m: String)
        ensures
            m@ == int_error_text(*self),
    {
        match self {
            IntParseError::Empty => "cannot parse integer from empty string".to_owned(),
            IntParseError::InvalidDigit => "invalid digit found in string".to_owned(),
            IntParseError::PosOverflow => "number too large to fit in target type".to_owned(),
        }
    }
}

/// The length of the run of ASCII digits that `d` starts with.
pub open spec fn digit_run(d: Seq<char>) -> nat
    decreases d.len(),
{
    if d.len() > 0 && is_digit(d[0]) {
        1 + digit_run(d.drop_first())
    } else {
        0
    }
}

/// How `u64::from_str` reads a string, refusals included. An empty string
/// is `Empty`. After an optional `+` the digits are read from the left and
/// the first failure decides: a value beyond `u64::MAX` is `PosOverflow`, a
/// character that is not a digit (or nothing after the sign) is
/// `InvalidDigit`.
pub open spec fn u64_from_str(s: Seq<char>) -> Result<u64, IntParseError> {
    if s.len() == 0 {
        Err(IntParseError::Empty)
    } else {
        let d = unsigned_digits(s);
        let k = digit_run(d);
        if d.len() == 0 {
            Err(IntParseError::InvalidDigit)
        } else if digits_value(d.take(k as int)) > u64::MAX {
            Err(IntParseError::PosOverflow)
        } else if k < d.len() {
            Err(IntParseError::InvalidDigit)
        } else {
            Ok(digits_value(d) as u64)
        }
    }
}

proof fn lemma_digit_run(d: Seq<char>, j: int)
    requires
        0 <= j <= d.len(),
        forall|i: int| 0 <= i < j ==> is_digit(#[trigger] d[i]),
    ensures
        digit_run(d) >= j,
        (j == d.len() || !is_digit(d[j])) ==> digit_run(d) == j,
    decreases j,
{
    if j > 0 {
        let t = d.drop_first();
        assert forall|i: int| 0 <= i < j - 1 implies is_digit(#[trigger] t[i]) by {
            assert(t[i] == d[i + 1]);
        }
        lemma_digit_run(t, j - 1);
        assert(is_digit(d[0]));
    }
}

proof fn lemma_digit_run_digits(d: Seq<char>)
    ensures
        digit_run(d) <= d.len(),
        forall|i: int| 0 <= i < digit_run(d) ==> is_digit(#[trigger] d[i]),
        digit_run(d) < d.len() ==> !is_digit(d[digit_run(d) as int]),
    decreases d.len(),
{
    if d.len() > 0 && is_digit(d[0]) {
        let t = d.drop_first();
        lemma_digit_run_digits(t);
        assert forall|i: int| 0 <= i < digit_run(d) implies is_digit(#[trigger] d[i]) by {
            if i > 0 {
                assert(d[i] == t[i - 1]);
            }
        }
        if digit_run(d) < d.len() {
            assert(d[digit_run(d) as int] == t[digit_run(t) as int]);
        }
    }
}

/// Both readers of unsigned numbers agree: a string is read as a number by
/// one exactly when it is read as the same number by the other.
pub proof fn number_readers_agree(s: Seq<char>)
    ensures
        (u64_from_str(s) matches Ok(v) && parse_u64_spec(s) == Some(v)) || (u64_from_str(s) is Err
            && parse_u64_spec(s) is None),
{
    let d = unsigned_digits(s);
    if s.len() > 0 && d.len() > 0 {
        lemma_digit_run_digits(d);
        let k = digit_run(d) as int;
        if k == d.len() {
            assert(d.take(k) =~= d);
            assert(all_digits(d));
        } else {
            assert(!is_digit(d[k]));
            assert(!all_digits(d));
        }
    }
}

/// No word is empty and no word holds white space.
pub proof fn words_are_runs_without_white_space(s: Seq<char>)
    ensures
        forall|k: int|
            0 <= k < words(s).len() ==> (#[trigger] words(s)[k]).len() > 0 && forall|i: int|
                0 <= i < words(s)[k].len() ==> !is_white_space(words(s)[k][i]),
{
    lemma_word_scan(s);
}

proof fn lemma_word_scan(s: Seq<char>)
    ensures
        forall|k: int|
            0 <= k < word_scan(s).0.len() ==> (#[trigger] word_scan(s).0[k]).len() > 0 && forall|
                i: int,
            | 0 <= i < word_scan(s).0[k].len() ==> !is_white_space(word_scan(s).0[k][i]),
        forall|i: int| 0 <= i < word_scan(s).1.len() ==> !is_white_space(#[trigger] word_scan(s).1[i]),
    decreases s.len(),
{
    if s.len() > 0 {
        lemma_word_scan(s.drop_last());
        let (done, cur) = word_scan(s.drop_last());
        let c = s.last();
        if !is_white_space(c) {
            let n = cur.push(c);
            assert forall|i: int| 0 <= i < n.len() implies !is_white_space(#[trigger] n[i]) by {
                if i < cur.len() {
                    assert(n[i] == cur[i]);
                }
            }
        } else if cur.len() > 0 {
            let n = done.push(cur);
            assert forall|k: int| 0 <= k < n.len() implies (#[trigger] n[k]).len() > 0 && forall|
                i: int,
            | 0 <= i < n[k].len() ==> !is_white_space(n[k][i]) by {
                if k < done.len() {
                    assert(n[k] == done[k]);
                }
            }
        }
    }
}

/// Parses a string as `u64::from_str` does, telling why it refuses one.
pub fn read_u64(s: &str) -> (r: Result<u64, IntParseError>)
    ensures
        r == u64_from_str(s@),
{
    let v = chars_of(s);
    let n = v.len();
    if n == 0 {
        return Err(IntParseError::Empty);
    }
    let mut i: usize = 0;
    if v[0] == '+' {
        i = 1;
    }
    let ghost d = unsigned_digits(s@);
    proof {
        if i == 0 {
            assert(d =~= s@.subrange(0, n as int));
        }
    }
    if i == n {
        return Err(IntParseError::InvalidDigit);
    }
    let first = i;
    let mut acc: u64 = 0;
    proof {
        assert(s@.subrange(first as int, first as int) =~= Seq::<char>::empty());
    }
    while i < n
        invariant
            v@ == s@,
            n == v@.len(),
            first <= i <= n,
            d == s@.subrange(first as int, n as int),
            d.len() > 0,
            d == unsigned_digits(s@),
            s@.len() > 0,
            forall|j: int| first <= j < i ==> is_digit(#[trigger] s@[j]),
            acc == digits_value(s@.subrange(first as int, i as int)),
        decreases n - i,
    {
        let c = v[i];
        let ghost m = i - first;
        if !('0' <= c && c <= '9') {
            proof {
                assert forall|j: int| 0 <= j < m implies is_digit(#[trigger] d[j]) by {
                    assert(d[j] == s@[first + j]);
                }
                assert(d[m] == c);
                lemma_digit_run(d, m);
                assert(d.take(m) =~= s@.subrange(first as int, i as int));
            }
            return Err(IntParseError::InvalidDigit);
        }
        let dv = (c as u32 - 48) as u64;
        proof {
            assert(s@.subrange(first as int, i + 1).drop_last() =~= s@.subrange(
                first as int,
                i as int,
            ));
        }
        if acc > (u64::MAX - dv) / 10 {
            proof {
                let p = s@.subrange(first as int, i + 1);
                assert(digits_value(p) == acc * 10 + dv);
                assert(digits_value(p) > u64::MAX);
                assert forall|j: int| 0 <= j < m + 1 implies is_digit(#[trigger] d[j]) by {
                    assert(d[j] == s@[first + j]);
                }
                lemma_digit_run(d, m + 1);
                lemma_digit_run_digits(d);
                let k = digit_run(d) as int;
                let dk = d.take(k);
                assert forall|j: int| 0 <= j < dk.len() implies is_digit(#[trigger] dk[j]) by {
                    assert(dk[j] == d[j]);
                }
                lemma_digits_value_grows(dk, m + 1);
                assert(dk.take(m + 1) =~= p);
            }
            return Err(IntParseError::PosOverflow);
        }
        acc = acc * 10 + dv;
        i = i + 1;
    }
    proof {
        assert(s@.subrange(first as int, n as int) =~= d);
        assert forall|j: int| 0 <= j < d.len() implies is_digit(#[trigger] d[j]) by {
            assert(d[j] == s@[first + j]);
        }
        lemma_digit_run(d, d.len() as int);
        assert(d.take(d.len() as int) =~= d);
    }
    Ok(acc)
}

} // verus!
