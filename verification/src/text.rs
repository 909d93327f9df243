use vstd::prelude::*;

verus! {

/// The character of a decimal digit.
pub open spec fn digit_char(d: nat) -> char {
    if d == 0 { '0' }
    else if d == 1 { '1' }
    else if d == 2 { '2' }
    else if d == 3 { '3' }
    else if d == 4 { '4' }
    else if d == 5 { '5' }
    else if d == 6 { '6' }
    else if d == 7 { '7' }
    else if d == 8 { '8' }
    else { '9' }
}

/// The decimal representation of `n`, without leading zeros.
pub open spec fn decimal(n: nat) -> Seq<char>
    decreases n,
{
    if n < 10 {
        seq![digit_char(n)]
    } else {
        decimal(n / 10).push(digit_char(n % 10))
    }
}

/// `count` zero characters.
pub open spec fn zeros(count: nat) -> Seq<char> {
    Seq::new(count, |i: int| '0')
}

/// The decimal representation of `n`, left-padded with zeros to at least `width` characters
/// (what `{:0width$}` prints).
pub open spec fn padded(n: nat, width: nat) -> Seq<char> {
    if decimal(n).len() < width {
        zeros((width - decimal(n).len()) as nat) + decimal(n)
    } else {
        decimal(n)
    }
}

fn digit_str(d: u64) -> (r: &'static str)
    requires
        d < 10,
    ensures
        r@ == seq![digit_char(d as nat)],
{
    proof {
        reveal_strlit("0");
        reveal_strlit("1");
        reveal_strlit("2");
        reveal_strlit("3");
        reveal_strlit("4");
        reveal_strlit("5");
        reveal_strlit("6");
        reveal_strlit("7");
        reveal_strlit("8");
        reveal_strlit("9");
    }
    if d == 0 { "0" }
    else if d == 1 { "1" }
    else if d == 2 { "2" }
    else if d == 3 { "3" }
    else if d == 4 { "4" }
    else if d == 5 { "5" }
    else if d == 6 { "6" }
    else if d == 7 { "7" }
    else if d == 8 { "8" }
    else { "9" }
}

/// Formats `n` in decimal.
pub fn decimal_string(n: u64) -> (r: String)
    ensures
        r@ == decimal(n as nat),
    decreases n,
{
    if n < 10 {
        String::from_str(digit_str(n))
    } else {
        let mut s = decimal_string(n / 10);
        s.append(digit_str(n % 10));
        s
    }
}

pub proof fn lemma_decimal_len(n: nat)
    ensures
        decimal(n).len() >= 1,
        n < 10 ==> decimal(n).len() == 1,
        10 <= n < 100 ==> decimal(n).len() == 2,
        100 <= n < 1000 ==> decimal(n).len() == 3,
        1000 <= n < 10000 ==> decimal(n).len() == 4,
    decreases n,
{
    if n >= 10 {
        lemma_decimal_len(n / 10);
    }
}

/// Formats `n` in decimal, left-padded with zeros to `width` characters.
pub fn padded_string(n: u64, width: usize) -> (r: String)
    ensures
        r@ == padded(n as nat, width as nat),
{
    let digits = decimal_string(n);
    let len = digits.as_str().unicode_len();
    if len < width {
        let mut r = String::new();
        let mut i: usize = 0;
        while i < width - len
            invariant
                i <= width - len,
                len < width,
                r@ == zeros(i as nat),
            decreases width - len - i,
        {
            proof { reveal_strlit("0"); }
            r.append("0");
            assert(r@ =~= zeros((i + 1) as nat));
            i = i + 1;
        }
        r.append(digits.as_str());
        r
    } else {
        digits
    }
}

/// Concatenation of two strings.
pub fn concat2(a: &str, b: &str) -> (r: String)
    ensures
        r@ == a@ + b@,
{
    let mut r = String::from_str(a);
    r.append(b);
    r
}

/// Concatenation of three strings.
pub fn concat3(a: &str, b: &str, c: &str) -> (r: String)
    ensures
        r@ == a@ + b@ + c@,
{
    let mut r = String::from_str(a);
    r.append(b);
    r.append(c);
    r
}

} // verus!

verus! {

/// Strict lexicographic order on character sequences, comparing characters by code point
/// (for UTF-8 text this is the order in which `<` compares two strings).
pub open spec fn seq_less(a: Seq<char>, b: Seq<char>) -> bool
    decreases a.len(),
{
    if a.len() == 0 {
        b.len() > 0
    } else if b.len() == 0 {
        false
    } else if a[0] != b[0] {
        (a[0] as u32) < (b[0] as u32)
    } else {
        seq_less(a.drop_first(), b.drop_first())
    }
}

proof fn lemma_seq_less_skip(a: Seq<char>, b: Seq<char>, i: int)
    requires
        0 <= i <= a.len(),
        i <= b.len(),
        a.take(i) == b.take(i),
    ensures
        seq_less(a, b) == seq_less(a.skip(i), b.skip(i)),
    decreases i,
{
    if i > 0 {
        assert(a[0] == a.take(i)[0]);
        assert(b[0] == b.take(i)[0]);
        assert(a.drop_first().take(i - 1) =~= a.take(i).drop_first());
        assert(b.drop_first().take(i - 1) =~= b.take(i).drop_first());
        lemma_seq_less_skip(a.drop_first(), b.drop_first(), i - 1);
        assert(a.drop_first().skip(i - 1) =~= a.skip(i));
        assert(b.drop_first().skip(i - 1) =~= b.skip(i));
    } else {
        assert(a.skip(0) =~= a);
        assert(b.skip(0) =~= b);
    }
}

/// Whether `a` sorts strictly before `b`.
pub fn str_less(a: &str, b: &str) -> (r: bool)
    ensures
        r == seq_less(a@, b@),
{
    let la = a.unicode_len();
    let lb = b.unicode_len();
    let mut i: usize = 0;
    while i < la && i < lb
        invariant
            la == a@.len(),
            lb == b@.len(),
            i <= la,
            i <= lb,
            a@.take(i as int) == b@.take(i as int),
        decreases la - i,
    {
        let ca = a.get_char(i);
        let cb = b.get_char(i);
        if ca != cb {
            proof {
                lemma_seq_less_skip(a@, b@, i as int);
                assert(a@.skip(i as int)[0] == ca);
                assert(b@.skip(i as int)[0] == cb);
            }
            return (ca as u32) < (cb as u32);
        }
        assert(a@.take(i + 1) =~= a@.take(i as int).push(ca));
        assert(b@.take(i + 1) =~= b@.take(i as int).push(cb));
        i = i + 1;
    }
    proof {
        lemma_seq_less_skip(a@, b@, i as int);
    }
    i < lb
}

} // verus!

verus! {

/// Whether two strings hold the same characters.
pub fn str_eq(a: &str, b: &str) -> (r: bool)
    ensures
        r == (a@ == b@),
{
    let la = a.unicode_len();
    let lb = b.unicode_len();
    if la != lb {
        return false;
    }
    let mut i: usize = 0;
    while i < la
        invariant
            la == a@.len(),
            lb == b@.len(),
            la == lb,
            i <= la,
            a@.take(i as int) == b@.take(i as int),
        decreases la - i,
    {
        let ca = a.get_char(i);
        let cb = b.get_char(i);
        if ca != cb {
            return false;
        }
        assert(a@.take(i + 1) =~= a@.take(i as int).push(ca));
        assert(b@.take(i + 1) =~= b@.take(i as int).push(cb));
        i = i + 1;
    }
    assert(a@.take(la as int) =~= a@);
    assert(b@.take(lb as int) =~= b@);
    true
}

/// Whether a string has no characters.
pub fn str_is_empty(a: &str) -> (r: bool)
    ensures
        r == (a@.len() == 0),
{
    a.unicode_len() == 0
}

} // verus!

verus! {

/// Whether some string of `list` holds the characters of `s`.
pub open spec fn listed(list: Seq<String>, s: Seq<char>) -> bool {
    exists|i: int| 0 <= i < list.len() && (#[trigger] list[i])@ == s
}

/// Position of the first string of `list` holding `s`, or the length of `list` if none does.
pub open spec fn first_position(list: Seq<String>, s: Seq<char>) -> int
    decreases list.len(),
{
    if list.len() == 0 {
        0
    } else if list[0]@ == s {
        0
    } else {
        1 + first_position(list.drop_first(), s)
    }
}

pub proof fn lemma_first_position(list: Seq<String>, s: Seq<char>)
    ensures
        0 <= first_position(list, s) <= list.len(),
        first_position(list, s) < list.len() <==> listed(list, s),
        first_position(list, s) < list.len() ==> list[first_position(list, s)]@ == s,
        forall|j: int| 0 <= j < first_position(list, s) ==> (#[trigger] list[j])@ != s,
    decreases list.len(),
{
    if list.len() > 0 {
        lemma_first_position(list.drop_first(), s);
        if list[0]@ != s {
            assert forall|j: int| 0 <= j < first_position(list, s) implies (#[trigger] list[j])@ != s by {
                if j > 0 {
                    assert(list[j] == list.drop_first()[j - 1]);
                }
            }
            if listed(list, s) {
                let i = choose|i: int| 0 <= i < list.len() && (#[trigger] list[i])@ == s;
                assert(list.drop_first()[i - 1] == list[i]);
            }
            if first_position(list, s) < list.len() {
                assert(list.drop_first()[first_position(list, s) - 1] == list[first_position(list, s)]);
            }
        }
    }
}

/// Position of the first string of `list` equal to `s`, if any.
pub fn position_of(list: &Vec<String>, s: &str) -> (r: Option<usize>)
    ensures
        match r {
            Some(i) => i == first_position(list@, s@) && i < list@.len(),
            None => !listed(list@, s@),
        },
{
    proof {
        lemma_first_position(list@, s@);
    }
    let mut i: usize = 0;
    while i < list.len()
        invariant
            i <= list@.len(),
            forall|j: int| 0 <= j < i ==> (#[trigger] list@[j])@ != s@,
            0 <= first_position(list@, s@) <= list@.len(),
            first_position(list@, s@) < list@.len() <==> listed(list@, s@),
            first_position(list@, s@) < list@.len() ==> list@[first_position(list@, s@)]@ == s@,
            forall|j: int| 0 <= j < first_position(list@, s@) ==> (#[trigger] list@[j])@ != s@,
        decreases list@.len() - i,
    {
        if str_eq(list[i].as_str(), s) {
            return Some(i);
        }
        i = i + 1;
    }
    None
}

/// Whether `list` holds a string equal to `s`.
pub fn contains_str(list: &Vec<String>, s: &str) -> (r: bool)
    ensures
        r == listed(list@, s@),
{
    proof {
        lemma_first_position(list@, s@);
    }
    match position_of(list, s) {
        Some(_) => true,
        None => false,
    }
}

} // verus!

verus! {

/// Whether `c` is white space in Unicode's sense (the characters `char::is_whitespace` names).
pub open spec fn is_space(c: char) -> bool {
    let u = c as u32;
    (0x9 <= u <= 0xd) || u == 0x20 || u == 0x85 || u == 0xa0 || u == 0x1680 || (0x2000 <= u <= 0x200a)
        || u == 0x2028 || u == 0x2029 || u == 0x202f || u == 0x205f || u == 0x3000
}

pub fn char_is_space(c: char) -> (r: bool)
    ensures
        r == is_space(c),
{
    let u = c as u32;
    (0x9 <= u && u <= 0xd) || u == 0x20 || u == 0x85 || u == 0xa0 || u == 0x1680 || (0x2000 <= u
        && u <= 0x200a) || u == 0x2028 || u == 0x2029 || u == 0x202f || u == 0x205f || u == 0x3000
}

/// Number of leading white-space characters of `s`.
pub open spec fn lead_spaces(s: Seq<char>) -> nat
    decreases s.len(),
{
    if s.len() > 0 && is_space(s[0]) {
        1 + lead_spaces(s.drop_first())
    } else {
        0
    }
}

/// Number of trailing white-space characters of `s`.
pub open spec fn trail_spaces(s: Seq<char>) -> nat
    decreases s.len(),
{
    if s.len() > 0 && is_space(s.last()) {
        1 + trail_spaces(s.drop_last())
    } else {
        0
    }
}

/// `s` without its leading and trailing white space.
pub open spec fn trimmed(s: Seq<char>) -> Seq<char> {
    let front = s.skip(lead_spaces(s) as int);
    front.take(front.len() - trail_spaces(front))
}

proof fn lemma_lead_spaces(s: Seq<char>, i: int)
    requires
        0 <= i <= s.len(),
        forall|j: int| 0 <= j < i ==> is_space(#[trigger] s[j]),
        i == s.len() || !is_space(s[i]),
    ensures
        lead_spaces(s) == i,
    decreases i,
{
    if i > 0 {
        assert forall|j: int| 0 <= j < i - 1 implies is_space(#[trigger] s.drop_first()[j]) by {
            assert(s.drop_first()[j] == s[j + 1]);
        }
        if i - 1 < s.drop_first().len() {
            assert(s.drop_first()[i - 1] == s[i]);
        }
        lemma_lead_spaces(s.drop_first(), i - 1);
    }
}

proof fn lemma_trail_spaces(s: Seq<char>, k: int)
    requires
        0 <= k <= s.len(),
        forall|j: int| s.len() - k <= j < s.len() ==> is_space(#[trigger] s[j]),
        k == s.len() || !is_space(s[s.len() - k - 1]),
    ensures
        trail_spaces(s) == k,
    decreases k,
{
    if k > 0 {
        let d = s.drop_last();
        assert forall|j: int| d.len() - (k - 1) <= j < d.len() implies is_space(#[trigger] d[j]) by {
            assert(d[j] == s[j]);
        }
        if k - 1 < d.len() {
            assert(d[d.len() - (k - 1) - 1] == s[s.len() - k - 1]);
        }
        lemma_trail_spaces(d, k - 1);
    }
}

/// A copy of `s` without its leading and trailing white space.
pub fn trim(s: &str) -> (r: String)
    ensures
        r@ == trimmed(s@),
{
    let n = s.unicode_len();
    let mut start: usize = 0;
    while start < n && char_is_space(s.get_char(start))
        invariant
            n == s@.len(),
            start <= n,
            forall|j: int| 0 <= j < start ==> is_space(#[trigger] s@[j]),
        decreases n - start,
    {
        start = start + 1;
    }
    proof {
        lemma_lead_spaces(s@, start as int);
    }
    let front = s.substring_char(start, n);
    let m = n - start;
    let mut k: usize = 0;
    while k < m && char_is_space(front.get_char(m - k - 1))
        invariant
            m == front@.len(),
            k <= m,
            forall|j: int| m - k <= j < m ==> is_space(#[trigger] front@[j]),
        decreases m - k,
    {
        k = k + 1;
    }
    proof {
        lemma_trail_spaces(front@, k as int);
        assert(front@ =~= s@.skip(start as int));
    }
    let r = front.substring_char(0, m - k);
    assert(r@ =~= front@.take(m - k));
    String::from_str(r)
}

/// The value of an ASCII decimal digit character.
pub open spec fn digit_value(c: char) -> int {
    (c as u32) - ('0' as u32)
}

pub open spec fn is_digit(c: char) -> bool {
    ('0' as u32) <= (c as u32) <= ('9' as u32)
}

/// The number written by a sequence of decimal digits.
pub open spec fn digits_value(s: Seq<char>) -> int
    decreases s.len(),
{
    if s.len() == 0 {
        0
    } else {
        digits_value(s.drop_last()) * 10 + digit_value(s.last())
    }
}

/// The text of a number without its optional leading `+`.
pub open spec fn number_body(s: Seq<char>) -> Seq<char> {
    if s.len() > 0 && s[0] == '+' { s.drop_first() } else { s }
}

pub open spec fn all_digits(s: Seq<char>) -> bool {
    forall|i: int| 0 <= i < s.len() ==> is_digit(#[trigger] s[i])
}

/// What `str::parse::<u32>` gives: the number written by one or more decimal digits, after an
/// optional `+`, when it fits in 32 bits; nothing otherwise.
pub open spec fn parsed_u32(s: Seq<char>) -> Option<u32> {
    let body = number_body(s);
    if body.len() > 0 && all_digits(body) && digits_value(body) <= u32::MAX {
        Some(digits_value(body) as u32)
    } else {
        None
    }
}

proof fn lemma_digits_value_mono(s: Seq<char>, i: int)
    requires
        0 <= i <= s.len(),
        forall|j: int| 0 <= j < s.len() ==> is_digit(#[trigger] s[j]),
    ensures
        0 <= digits_value(s.take(i)) <= digits_value(s),
    decreases s.len() - i,
{
    if i < s.len() {
        lemma_digits_value_mono(s, i + 1);
        assert(s.take(i + 1).drop_last() =~= s.take(i));
        assert(is_digit(s[i]));
    } else {
        assert(s.take(i) =~= s);
    }
    lemma_digits_nonneg(s.take(i));
}

proof fn lemma_digits_nonneg(s: Seq<char>)
    requires
        forall|j: int| 0 <= j < s.len() ==> is_digit(#[trigger] s[j]),
    ensures
        0 <= digits_value(s),
    decreases s.len(),
{
    if s.len() > 0 {
        assert forall|j: int| 0 <= j < s.drop_last().len() implies is_digit(#[trigger] s.drop_last()[j]) by {
            assert(s.drop_last()[j] == s[j]);
        }
        lemma_digits_nonneg(s.drop_last());
        assert(is_digit(s.last()));
    }
}

/// Reads a 32-bit unsigned number as `str::parse::<u32>` does (see `parsed_u32`).
pub fn parse_u32(s: &str) -> (r: Option<u32>)
    ensures
        r == parsed_u32(s@),
{
    let n = s.unicode_len();
    let start: usize = if n > 0 && s.get_char(0) == '+' { 1 } else { 0 };
    let ghost body = number_body(s@);
    assert(body =~= s@.skip(start as int));
    if start >= n {
        return None;
    }
    let mut value: u64 = 0;
    let mut i: usize = start;
    while i < n
        invariant
            n == s@.len(),
            start <= i <= n,
            body == s@.skip(start as int),
            body == number_body(s@),
            forall|j: int| 0 <= j < i - start ==> is_digit(#[trigger] body[j]),
            value == digits_value(body.take(i - start)),
            value <= u32::MAX,
        decreases n - i,
    {
        let c = s.get_char(i);
        assert(body[i - start] == c);
        if !(('0' as u32) <= (c as u32) && (c as u32) <= ('9' as u32)) {
            proof {
                assert(!is_digit(body[i - start]));
                assert(0 <= i - start < body.len());
                assert(!(forall|j: int| 0 <= j < body.len() ==> is_digit(#[trigger] body[j])));
                assert(parsed_u32(s@) is None);
            }
            return None;
        }
        assert(body.take(i + 1 - start).drop_last() =~= body.take(i - start));
        let next = value * 10 + ((c as u32) - ('0' as u32)) as u64;
        assert(digits_value(body.take(i + 1 - start)) == next) by {
            assert(body.take(i + 1 - start).last() == c);
        }
        if next > u32::MAX as u64 {
            proof {
                assert forall|j: int| 0 <= j < i + 1 - start implies is_digit(#[trigger] body.take(i + 1 - start)[j]) by {
                    assert(body.take(i + 1 - start)[j] == body[j]);
                }
                if forall|j: int| 0 <= j < body.len() ==> is_digit(#[trigger] body[j]) {
                    lemma_digits_value_mono(body, i + 1 - start);
                }
            }
            return None;
        }
        value = next;
        i = i + 1;
    }
    assert(body.take(i - start) =~= body);
    Some(value as u32)
}

} // verus!
