use vstd::prelude::*;

use crate::clock::date_text;
use crate::model::{filter_matches, Filter, HistoryItem};
use crate::text::{decimal, digit_char, padded, seq_less, zeros};

verus! {

/// 10 to the power `w`.
pub open spec fn pow10(w: nat) -> nat
    decreases w,
{
    if w == 0 { 1 } else { 10 * pow10((w - 1) as nat) }
}

/// The last `w` decimal digits of `n`, leading zeros included.
pub open spec fn fixed(n: nat, w: nat) -> Seq<char>
    decreases w,
{
    if w == 0 { Seq::empty() } else { fixed(n / 10, (w - 1) as nat).push(digit_char(n % 10)) }
}

proof fn lemma_fixed_len(n: nat, w: nat)
    ensures
        fixed(n, w).len() == w,
    decreases w,
{
    if w > 0 {
        lemma_fixed_len(n / 10, (w - 1) as nat);
    }
}

proof fn lemma_fixed_zero(w: nat)
    ensures
        fixed(0, w) == zeros(w),
    decreases w,
{
    if w > 0 {
        lemma_fixed_zero((w - 1) as nat);
        assert(fixed(0, w) =~= zeros(w));
    }
}

proof fn lemma_decimal_fits(n: nat, w: nat)
    requires
        w > 0,
        n < pow10(w),
    ensures
        decimal(n).len() <= w,
    decreases w,
{
    if n >= 10 {
        assert(n / 10 < pow10((w - 1) as nat));
        lemma_decimal_fits(n / 10, (w - 1) as nat);
    }
}

/// A number below 10 to the `w` printed padded to `w` places is its last `w` digits.
proof fn lemma_padded_fixed(n: nat, w: nat)
    requires
        w > 0,
        n < pow10(w),
    ensures
        padded(n, w) == fixed(n, w),
    decreases w,
{
    lemma_decimal_fits(n, w);
    if n < 10 {
        lemma_fixed_zero((w - 1) as nat);
        assert(padded(n, w) =~= fixed(n, w));
    } else {
        assert(n / 10 < pow10((w - 1) as nat));
        lemma_decimal_fits(n / 10, (w - 1) as nat);
        lemma_padded_fixed(n / 10, (w - 1) as nat);
        assert(padded(n, w) =~= padded(n / 10, (w - 1) as nat).push(digit_char(n % 10)));
    }
}

/// Comparing two texts made of parts of equal length: the first parts decide unless they are
/// the same.
proof fn lemma_seq_less_concat(a1: Seq<char>, b1: Seq<char>, a2: Seq<char>, b2: Seq<char>)
    requires
        a1.len() == a2.len(),
    ensures
        seq_less(a1 + b1, a2 + b2) == if a1 == a2 { seq_less(b1, b2) } else { seq_less(a1, a2) },
    decreases a1.len(),
{
    if a1.len() == 0 {
        assert(a1 + b1 =~= b1);
        assert(a2 + b2 =~= b2);
        assert(a1 =~= a2);
    } else {
        assert((a1 + b1)[0] == a1[0]);
        assert((a2 + b2)[0] == a2[0]);
        if a1[0] == a2[0] {
            lemma_seq_less_concat(a1.drop_first(), b1, a2.drop_first(), b2);
            assert((a1 + b1).drop_first() =~= a1.drop_first() + b1);
            assert((a2 + b2).drop_first() =~= a2.drop_first() + b2);
            if a1.drop_first() == a2.drop_first() {
                assert forall|i: int| 0 <= i < a1.len() implies a1[i] == a2[i] by {
                    if i > 0 {
                        assert(a1[i] == a1.drop_first()[i - 1]);
                        assert(a2[i] == a2.drop_first()[i - 1]);
                    }
                }
                assert(a1 =~= a2);
            } else {
                assert(a1 != a2);
            }
        } else {
            assert(a1 != a2);
        }
    }
}

/// Fixed-width digit strings sort as their numbers do.
proof fn lemma_fixed_order(a: nat, b: nat, w: nat)
    requires
        a < pow10(w),
        b < pow10(w),
    ensures
        seq_less(fixed(a, w), fixed(b, w)) == (a < b),
        (fixed(a, w) == fixed(b, w)) == (a == b),
    decreases w,
{
    if w == 0 {
    } else {
        let w1 = (w - 1) as nat;
        assert(a / 10 < pow10(w1));
        assert(b / 10 < pow10(w1));
        lemma_fixed_order(a / 10, b / 10, w1);
        lemma_fixed_len(a / 10, w1);
        lemma_fixed_len(b / 10, w1);
        let x = digit_char(a % 10);
        let y = digit_char(b % 10);
        lemma_seq_less_concat(fixed(a / 10, w1), seq![x], fixed(b / 10, w1), seq![y]);
        assert(fixed(a, w) =~= fixed(a / 10, w1) + seq![x]);
        assert(fixed(b, w) =~= fixed(b / 10, w1) + seq![y]);
        assert(seq![x].drop_first() =~= Seq::<char>::empty());
        assert(seq![y].drop_first() =~= Seq::<char>::empty());
        assert(!seq_less(Seq::<char>::empty(), Seq::<char>::empty()));
        assert(seq_less(seq![x], seq![y]) == ((x as u32) < (y as u32)));
        assert(a == 10 * (a / 10) + a % 10);
        assert(b == 10 * (b / 10) + b % 10);
        if fixed(a, w) == fixed(b, w) {
            assert(fixed(a, w)[w1 as int] == x);
            assert(fixed(b, w)[w1 as int] == y);
            assert(fixed(a, w).drop_last() =~= fixed(a / 10, w1));
            assert(fixed(b, w).drop_last() =~= fixed(b / 10, w1));
        }
    }
}

/// Whether date `(y1, m1, d1)` comes before `(y2, m2, d2)` in the calendar.
pub open spec fn date_before(y1: nat, m1: nat, d1: nat, y2: nat, m2: nat, d2: nat) -> bool {
    y1 < y2 || (y1 == y2 && (m1 < m2 || (m1 == m2 && d1 < d2)))
}

/// Law: dates written `YYYY-MM-DD` (years below 10000, months and days below 100) sort as text
/// exactly as they fall in the calendar, and two such texts are equal only for the same date.
pub proof fn law_date_text_order(y1: nat, m1: nat, d1: nat, y2: nat, m2: nat, d2: nat)
    requires
        y1 < 10000 && m1 < 100 && d1 < 100,
        y2 < 10000 && m2 < 100 && d2 < 100,
    ensures
        seq_less(date_text(y1, m1, d1), date_text(y2, m2, d2)) == date_before(y1, m1, d1, y2, m2, d2),
        (date_text(y1, m1, d1) == date_text(y2, m2, d2)) == (y1 == y2 && m1 == m2 && d1 == d2),
{
    assert(pow10(0) == 1);
    assert(pow10(1) == 10);
    assert(pow10(2) == 100);
    assert(pow10(3) == 1000);
    assert(pow10(4) == 10000);
    reveal_strlit("-");
    lemma_padded_fixed(y1, 4);
    lemma_padded_fixed(y2, 4);
    lemma_padded_fixed(m1, 2);
    lemma_padded_fixed(m2, 2);
    lemma_padded_fixed(d1, 2);
    lemma_padded_fixed(d2, 2);
    lemma_fixed_len(y1, 4);
    lemma_fixed_len(y2, 4);
    lemma_fixed_len(m1, 2);
    lemma_fixed_len(m2, 2);
    lemma_fixed_order(y1, y2, 4);
    lemma_fixed_order(m1, m2, 2);
    lemma_fixed_order(d1, d2, 2);
    let dash = "-"@;
    let (py1, pm1, pd1) = (fixed(y1, 4), fixed(m1, 2), fixed(d1, 2));
    let (py2, pm2, pd2) = (fixed(y2, 4), fixed(m2, 2), fixed(d2, 2));
    let t1 = dash + (pm1 + (dash + pd1));
    let t2 = dash + (pm2 + (dash + pd2));
    assert(date_text(y1, m1, d1) =~= py1 + t1);
    assert(date_text(y2, m2, d2) =~= py2 + t2);
    lemma_seq_less_concat(py1, t1, py2, t2);
    lemma_seq_less_concat(dash, pm1 + (dash + pd1), dash, pm2 + (dash + pd2));
    lemma_seq_less_concat(pm1, dash + pd1, pm2, dash + pd2);
    lemma_seq_less_concat(dash, pd1, dash, pd2);
    if date_text(y1, m1, d1) == date_text(y2, m2, d2) {
        assert((py1 + t1).take(4) =~= py1);
        assert((py2 + t2).take(4) =~= py2);
        assert((py1 + t1).skip(5).take(2) =~= pm1);
        assert((py2 + t2).skip(5).take(2) =~= pm2);
        assert((py1 + t1).skip(8) =~= pd1);
        assert((py2 + t2).skip(8) =~= pd2);
    }
}

/// Law: the history's date range lets through exactly the records dated (as `YYYY-MM-DD`) from
/// its first day to its last, both included.
pub proof fn law_date_range_filter(
    f: Filter, item: HistoryItem,
    y: nat, m: nat, d: nat, ys: nat, ms: nat, ds: nat, ye: nat, me: nat, de: nat,
)
    requires
        f.group is None && f.event is None,
        f.date_start matches Some(s) && s@ == date_text(ys, ms, ds),
        f.date_end matches Some(e) && e@ == date_text(ye, me, de),
        item.date@ == date_text(y, m, d),
        y < 10000 && m < 100 && d < 100,
        ys < 10000 && ms < 100 && ds < 100,
        ye < 10000 && me < 100 && de < 100,
    ensures
        filter_matches(f, item) == (!date_before(y, m, d, ys, ms, ds) && !date_before(ye, me, de, y, m, d)),
{
    law_date_text_order(y, m, d, ys, ms, ds);
    law_date_text_order(ye, me, de, y, m, d);
}

} // verus!
