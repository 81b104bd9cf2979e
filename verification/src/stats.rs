//! The sample history kept for the HUD sparklines, the totals that a stats
//! poll adds up, and the text shown for transfer rates.

use vstd::prelude::*;

use crate::text::{decimal, push_char, push_decimal, push_str};

verus! {

// ─── Ring buffer ─────────────────────────────────────────────────────────────

/// How many samples the history keeps (one minute at one sample a second).
pub const HISTORY_LEN: usize = 60;

/// The history after one more sample: the sample is appended, and once the
/// history is full its oldest sample is dropped.
pub open spec fn push_history<T>(h: Seq<T>, v: T) -> Seq<T> {
    if h.len() < HISTORY_LEN {
        h.push(v)
    } else {
        h.drop_first().push(v)
    }
}

/// The history after a whole series of samples, oldest first.
pub open spec fn push_all<T>(h: Seq<T>, xs: Seq<T>) -> Seq<T>
    decreases xs.len(),
{
    if xs.len() == 0 {
        h
    } else {
        push_history(push_all(h, xs.drop_last()), xs.last())
    }
}

/// The last (at most) `HISTORY_LEN` samples of a series.
pub open spec fn latest_window<T>(xs: Seq<T>) -> Seq<T> {
    if xs.len() <= HISTORY_LEN {
        xs
    } else {
        xs.subrange(xs.len() - HISTORY_LEN, xs.len() as int)
    }
}

/// A fixed-size history of the most recent samples.
pub struct RingBuffer<T> {
    data: Vec<T>,
    head: usize,
    filled: bool,
    blank: T,
}

impl<T> RingBuffer<T> {
    /// The storage has one slot per sample and the write position is a slot.
    pub closed spec fn wf(&self) -> bool {
        &&& self.data@.len() == HISTORY_LEN
        &&& self.head < HISTORY_LEN
    }

    /// The value reported as the latest sample of an empty history.
    pub closed spec fn blank(&self) -> T {
        self.blank
    }

    /// The stored samples, oldest first.
    closed spec fn samples(&self) -> Seq<T> {
        if self.filled {
            Seq::new(
                HISTORY_LEN as nat,
                |i: int| self.data@[(self.head as int + i) % HISTORY_LEN as int],
            )
        } else {
            self.data@.take(self.head as int)
        }
    }
}

impl<T> View for RingBuffer<T> {
    type V = Seq<T>;

    closed spec fn view(&self) -> Seq<T> {
        self.samples()
    }
}

impl<T: Copy> RingBuffer<T> {
    /// An empty history; `blank` is what `latest` reports while it is empty
    /// and fills the unused slots.
    pub fn new(blank: T) -> (r: Self)
        ensures
            r.wf(),
            r@ == Seq::<T>::empty(),
            r.blank() == blank,
    {
        let mut data: Vec<T> = Vec::new();
        let mut i: usize = 0;
        while i < HISTORY_LEN
            invariant
                i <= HISTORY_LEN,
                data@.len() == i,
            decreases HISTORY_LEN - i,
        {
            data.push(blank);
            i = i + 1;
        }
        let r = RingBuffer { data, head: 0, filled: false, blank };
        assert(r@ =~= Seq::<T>::empty());
        r
    }

    /// Records a sample, dropping the oldest once the history is full.
    pub fn push(&mut self, v: T)
        requires
            old(self).wf(),
        ensures
            final(self).wf(),
            final(self)@ == push_history(old(self)@, v),
            final(self).blank() == old(self).blank(),
            final(self)@.len() <= HISTORY_LEN,
    {
        let ghost old_data = self.data@;
        let ghost h = self.head as int;
        let ghost before = self@;
        self.data.set(self.head, v);
        self.head = (self.head + 1) % HISTORY_LEN;
        if self.head == 0 {
            self.filled = true;
        }
        proof {
            let n = HISTORY_LEN as int;
            if old(self).filled {
                assert(before.len() == n);
                assert forall|i: int| 0 <= i < n implies #[trigger] self@[i]
                    == push_history(before, v)[i] by {
                    if i < n - 1 {
                        assert((h + 1) % n + i == h + 1 + i || (h + 1) % n + i == h + 1 + i - n);
                        assert(((h + 1) % n + i) % n == (h + i + 1) % n);
                        assert(before[i + 1] == old_data[(h + (i + 1)) % n]);
                    } else {
                        assert(((h + 1) % n + i) % n == h);
                    }
                }
                assert(self@ =~= push_history(before, v));
            } else if h == n - 1 {
                assert forall|i: int| 0 <= i < n implies #[trigger] self@[i]
                    == push_history(before, v)[i] by {
                    assert((0 + i) % n == i);
                }
                assert(self@ =~= push_history(before, v));
            } else {
                assert(self@ =~= push_history(before, v));
            }
        }
    }

    /// The samples, oldest first.
    pub fn iter(&self) -> (r: Vec<T>)
        requires
            self.wf(),
        ensures
            r@ == self@,
    {
        let len = if self.filled {
            HISTORY_LEN
        } else {
            self.head
        };
        let start = if self.filled {
            self.head
        } else {
            0
        };
        let mut out: Vec<T> = Vec::new();
        let mut i: usize = 0;
        while i < len
            invariant
                self.data@.len() == HISTORY_LEN,
                self.head < HISTORY_LEN,
                len == self@.len(),
                start == (if self.filled {
                    self.head
                } else {
                    0
                }),
                i <= len,
                out@ =~= self@.take(i as int),
            decreases len - i,
        {
            let idx = (start + i) % HISTORY_LEN;
            proof {
                if !self.filled {
                    assert(idx == i);
                }
            }
            out.push(self.data[idx]);
            i = i + 1;
        }
        out
    }

    /// The newest sample, or the blank value while the history is empty.
    pub fn latest(&self) -> (r: T)
        requires
            self.wf(),
        ensures
            r == (if self@.len() == 0 {
                self.blank()
            } else {
                self@.last()
            }),
    {
        if self.head == 0 && !self.filled {
            return self.blank;
        }
        let i = if self.head == 0 {
            HISTORY_LEN - 1
        } else {
            self.head - 1
        };
        proof {
            if self.filled {
                assert(self@.len() == HISTORY_LEN);
                assert((self.head as int + (HISTORY_LEN - 1)) % HISTORY_LEN as int == i);
            }
        }
        self.data[i]
    }
}

impl<T: Copy> Clone for RingBuffer<T> {
    /// A copy holding the same samples.
    fn clone(&self) -> (r: Self)
        ensures
            r@ == self@,
            r.blank() == self.blank(),
            self.wf() ==> r.wf(),
    {
        let mut data: Vec<T> = Vec::new();
        let mut i: usize = 0;
        while i < self.data.len()
            invariant
                i <= self.data@.len(),
                data@ =~= self.data@.take(i as int),
            decreases self.data@.len() - i,
        {
            data.push(self.data[i]);
            i = i + 1;
        }
        assert(data@ =~= self.data@);
        let r = RingBuffer { data, head: self.head, filled: self.filled, blank: self.blank };
        assert(r@ =~= self@);
        r
    }
}

/// A history fed a series of samples from empty holds the last (at most) 60 of
/// them, oldest first.
pub proof fn lemma_history_keeps_latest<T>(xs: Seq<T>)
    ensures
        push_all(Seq::<T>::empty(), xs) == latest_window(xs),
    decreases xs.len(),
{
    if xs.len() > 0 {
        let init = xs.drop_last();
        lemma_history_keeps_latest(init);
        let h = latest_window(init);
        assert(push_all(Seq::<T>::empty(), xs) == push_history(h, xs.last()));
        if init.len() < HISTORY_LEN {
            assert(h.push(xs.last()) =~= xs);
        } else {
            assert(h.drop_first().push(xs.last()) =~= latest_window(xs));
        }
    }
}

// ─── Totals of a poll ────────────────────────────────────────────────────────

/// The sums of the first and of the second components.
pub open spec fn pair_sums(xs: Seq<(u64, u64)>) -> (int, int)
    decreases xs.len(),
{
    if xs.len() == 0 {
        (0, 0)
    } else {
        let s = pair_sums(xs.drop_last());
        (s.0 + xs.last().0, s.1 + xs.last().1)
    }
}

/// Adds up counter pairs (bytes received and sent per interface, or space
/// available and total per disk); `None` when a sum does not fit a `u64`.
pub fn sum_pairs(xs: &[(u64, u64)]) -> (r: Option<(u64, u64)>)
    ensures
        match r {
            Some(s) => s.0 == pair_sums(xs@).0 && s.1 == pair_sums(xs@).1,
            None => pair_sums(xs@).0 > u64::MAX || pair_sums(xs@).1 > u64::MAX,
        },
{
    let mut a: u64 = 0;
    let mut b: u64 = 0;
    let mut i: usize = 0;
    let mut fits = true;
    while i < xs.len()
        invariant
            i <= xs@.len(),
            fits ==> a == pair_sums(xs@.take(i as int)).0 && b == pair_sums(
                xs@.take(i as int),
            ).1,
            !fits ==> pair_sums(xs@.take(i as int)).0 > u64::MAX || pair_sums(
                xs@.take(i as int),
            ).1 > u64::MAX,
        decreases xs@.len() - i,
    {
        let (x, y) = xs[i];
        assert(xs@.take(i as int + 1).drop_last() == xs@.take(i as int));
        proof {
            lemma_pair_sums_monotone(xs@.take(i as int + 1));
        }
        if fits {
            match (a.checked_add(x), b.checked_add(y)) {
                (Some(na), Some(nb)) => {
                    a = na;
                    b = nb;
                },
                _ => {
                    fits = false;
                },
            }
        }
        i = i + 1;
    }
    assert(xs@.take(xs@.len() as int) == xs@);
    if fits {
        Some((a, b))
    } else {
        None
    }
}

/// Sums only grow as pairs are added.
proof fn lemma_pair_sums_monotone(xs: Seq<(u64, u64)>)
    requires
        xs.len() > 0,
    ensures
        pair_sums(xs).0 >= pair_sums(xs.drop_last()).0,
        pair_sums(xs).1 >= pair_sums(xs.drop_last()).1,
{
}

// ─── Random bits ─────────────────────────────────────────────────────────────

/// One xorshift64 step (shifts 13, 7, 17).
pub open spec fn xorshift_step(v: u64) -> u64 {
    let a = v ^ ((v << 13u64) as u64);
    let b = a ^ (a >> 7u64);
    b ^ ((b << 17u64) as u64)
}

/// Advances the xorshift64 generator state.
pub fn xorshift64(v: u64) -> (r: u64)
    ensures
        r == xorshift_step(v),
{
    let mut x = v;
    x ^= x << 13;
    x ^= x >> 7;
    x ^= x << 17;
    x
}

// ─── Rate text ───────────────────────────────────────────────────────────────

pub const KIB: u64 = 1024;

pub const MIB: u64 = 1_048_576;

pub const GIB: u64 = 1_073_741_824;

/// The least whole rate that is at least a tenth of a MiB per second: from
/// here on rates are shown in MB/s.
pub const TENTH_MIB: u64 = 104_858;

/// Integers below this convert to `f64` exactly.
pub const F64_EXACT_LIMIT: u64 = 9_007_199_254_740_992;

/// `num / den` rounded to the nearest integer, ties to even.
pub open spec fn round_half_even(num: nat, den: nat) -> nat {
    let q = num / den;
    let r = num % den;
    if 2 * r > den || (2 * r == den && q % 2 == 1) {
        q + 1
    } else {
        q
    }
}

/// The spacing of `f64` values around `x`: one below 2^53, doubling with each
/// further power of two.
pub open spec fn f64_spacing(x: nat) -> nat
    decreases x,
{
    if x < F64_EXACT_LIMIT {
        1
    } else {
        2 * f64_spacing(x / 2)
    }
}

/// The value of `x as f64` (the nearest `f64`, ties to even).
pub open spec fn as_f64(x: nat) -> nat {
    round_half_even(x, f64_spacing(x)) * f64_spacing(x)
}

/// A count of tenths as text with one decimal, then a unit.
pub open spec fn tenths_text(t: nat, unit: Seq<char>) -> Seq<char> {
    decimal(t / 10) + seq!['.'] + decimal(t % 10) + unit
}

pub open spec fn gb_unit() -> Seq<char> {
    seq![' ', 'G', 'B', '/', 's']
}

pub open spec fn mb_unit() -> Seq<char> {
    seq![' ', 'M', 'B', '/', 's']
}

pub open spec fn kb_unit() -> Seq<char> {
    seq![' ', 'K', 'B', '/', 's']
}

pub open spec fn b_unit() -> Seq<char> {
    seq![' ', 'B', '/', 's']
}

/// A transfer rate as text: GB/s from a GiB per second and MB/s from a tenth
/// of a MiB per second, both with one decimal; KB/s whole; bytes as counted.
/// The value shown is the rate as an `f64` divided by the unit, rounded to
/// the digits shown (ties to even).
pub open spec fn rate_text(bps: u64) -> Seq<char> {
    if bps >= GIB {
        tenths_text(round_half_even(as_f64(bps as nat) * 10, GIB as nat), gb_unit())
    } else if bps >= TENTH_MIB {
        tenths_text(round_half_even(bps as nat * 10, MIB as nat), mb_unit())
    } else if bps >= KIB {
        decimal(round_half_even(bps as nat, KIB as nat)) + kb_unit()
    } else {
        decimal(bps as nat) + b_unit()
    }
}

fn round_div(num: u128, den: u128) -> (r: u128)
    requires
        den > 0,
        den < u128::MAX / 2,
        num < u128::MAX / 2,
    ensures
        r == round_half_even(num as nat, den as nat),
{
    let q = num / den;
    let r = num % den;
    if 2 * r > den || (2 * r == den && q % 2 == 1) {
        q + 1
    } else {
        q
    }
}

/// `x as f64`, as an integer.
fn f64_value(x: u64) -> (r: u128)
    ensures
        r == as_f64(x as nat),
        r <= 2 * (x as int),
{
    let mut unit: u128 = 1;
    let mut y: u64 = x;
    while y >= F64_EXACT_LIMIT
        invariant
            unit >= 1,
            unit * y <= x,
            unit > 1 ==> y >= 1,
            unit <= 4096,
            f64_spacing(x as nat) == unit * f64_spacing(y as nat),
        decreases y,
    {
        let ghost old_y = y;
        let ghost old_unit = unit;
        assert(f64_spacing(y as nat) == 2 * f64_spacing((y / 2) as nat));
        assert(old_unit < 2048) by (nonlinear_arith)
            requires
                old_unit * old_y <= x,
                old_y >= F64_EXACT_LIMIT,
                x <= u64::MAX,
        ;
        y = y / 2;
        unit = unit * 2;
        assert(unit * y <= x) by (nonlinear_arith)
            requires
                unit == 2 * old_unit,
                y == old_y / 2,
                old_unit * old_y <= x,
        ;
        assert(old_unit * (2 * f64_spacing(y as nat)) == unit * f64_spacing(y as nat)) by (
        nonlinear_arith)
            requires
                unit == 2 * old_unit,
        ;
    }
    assert(f64_spacing(y as nat) == 1);
    assert(f64_spacing(x as nat) == unit);
    let q = round_div(x as u128, unit);
    assert(q <= (x as int) / (unit as int) + 1);
    assert(unit <= x || x == 0) by (nonlinear_arith)
        requires
            unit * y <= x,
            unit >= 1,
            unit > 1 ==> y >= 1,
    ;
    assert(f64_spacing(y as nat) == 1);
    assert(q * unit <= 2 * x) by (nonlinear_arith)
        requires
            q <= (x as int) / (unit as int) + 1,
            unit >= 1,
            unit <= x || x == 0,
            x == 0 ==> q == 0,
    ;
    q * unit
}

fn push_tenths(out: &mut String, t: u64)
    ensures
        final(out)@ == old(out)@ + decimal(t as nat / 10) + seq!['.'] + decimal(t as nat % 10),
{
    push_decimal(out, t / 10);
    push_char(out, '.');
    push_decimal(out, t % 10);
}

/// Formats a byte rate for the HUD.
pub fn format_bytes(bps: u64) -> (r: String)
    ensures
        r@ == rate_text(bps),
{
    let mut out = String::new();
    if bps >= GIB {
        let f = f64_value(bps);
        let t = round_div(f * 10, GIB as u128);
        push_tenths(&mut out, t as u64);
        proof {
            reveal_strlit(" GB/s");
        }
        push_str(&mut out, " GB/s");
        assert(out@ =~= rate_text(bps));
    } else if bps >= TENTH_MIB {
        let t = round_div(bps as u128 * 10, MIB as u128);
        push_tenths(&mut out, t as u64);
        proof {
            reveal_strlit(" MB/s");
        }
        push_str(&mut out, " MB/s");
        assert(out@ =~= rate_text(bps));
    } else if bps >= KIB {
        let k = round_div(bps as u128, KIB as u128);
        push_decimal(&mut out, k as u64);
        proof {
            reveal_strlit(" KB/s");
        }
        push_str(&mut out, " KB/s");
        assert(out@ =~= rate_text(bps));
    } else {
        push_decimal(&mut out, bps);
        proof {
            reveal_strlit(" B/s");
        }
        push_str(&mut out, " B/s");
        assert(out@ =~= rate_text(bps));
    }
    out
}

} // verus!
