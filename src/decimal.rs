//! Decimal text to fixed-point quantities (thousandths) and back.

use vstd::prelude::*;

verus! {

broadcast use vstd::string::group_string_axioms;

/// Whole parts beyond this bound are held at it: a quantity's whole part never
/// exceeds `WHOLE_CAP` units.
pub const WHOLE_CAP: i64 = 1_000_000_000_000;

pub open spec fn is_digit(c: char) -> bool {
    '0' <= c && c <= '9'
}

pub open spec fn digit_value(c: char) -> int {
    c as int - '0' as int
}

pub open spec fn all_digits(s: Seq<char>) -> bool {
    forall|i: int| 0 <= i < s.len() ==> is_digit(#[trigger] s[i])
}

/// The number that a string of decimal digits denotes.
pub open spec fn digits_value(s: Seq<char>) -> int
    decreases s.len(),
{
    if s.len() == 0 {
        0
    } else {
        digits_value(s.drop_last()) * 10 + digit_value(s.last())
    }
}

pub open spec fn capped(v: int) -> int {
    if v > WHOLE_CAP {
        WHOLE_CAP as int
    } else {
        v
    }
}

/// Thousandths per unit of the last digit of a fraction of `n` digits.
pub open spec fn fraction_scale(n: int) -> int {
    if n == 0 {
        1000
    } else if n == 1 {
        100
    } else if n == 2 {
        10
    } else {
        1
    }
}

/// `u` is digits, a point at `p`, and at most three digits, with at least one digit in all.
pub open spec fn point_split(u: Seq<char>, p: int) -> bool {
    &&& 0 <= p < u.len()
    &&& u[p] == '.'
    &&& all_digits(u.take(p))
    &&& all_digits(u.skip(p + 1))
    &&& u.len() > 1
    &&& u.len() - p - 1 <= 3
}

/// The value in thousandths of an unsigned decimal text (`12`, `12.5`, `.5`, `12.`),
/// or `None` when the text is not one.
pub open spec fn unsigned_value(u: Seq<char>) -> Option<int> {
    if u.len() > 0 && all_digits(u) {
        Some(capped(digits_value(u)) * 1000)
    } else if exists|p: int| point_split(u, p) {
        let p = choose|p: int| point_split(u, p);
        Some(
            capped(digits_value(u.take(p))) * 1000 + digits_value(u.skip(p + 1)) * fraction_scale(
                u.len() - p - 1,
            ),
        )
    } else {
        None
    }
}

/// The value in thousandths of a decimal text with an optional sign.
pub open spec fn decimal_value(s: Seq<char>) -> Option<int> {
    if s.len() > 0 && s[0] == '-' {
        match unsigned_value(s.skip(1)) {
            Some(v) => Some(-v),
            None => None,
        }
    } else if s.len() > 0 && s[0] == '+' {
        unsigned_value(s.skip(1))
    } else {
        unsigned_value(s)
    }
}

proof fn lemma_capped_step(x: int, d: int)
    requires
        x >= 0,
        0 <= d <= 9,
    ensures
        capped(capped(x) * 10 + d) == capped(x * 10 + d),
{
}

proof fn lemma_point_is_first_non_digit(u: Seq<char>, p: int, q: int)
    requires
        0 <= p < u.len(),
        all_digits(u.take(p)),
        !is_digit(u[p]),
        point_split(u, q),
    ensures
        q == p,
{
    if q < p {
        assert(u.take(p)[q] == u[q]);
    } else if q > p {
        assert(u.take(q)[p] == u[p]);
    }
}

fn digit_of(c: char) -> (r: Option<i64>)
    ensures
        r.is_some() == is_digit(c),
        r.is_some() ==> r.unwrap() as int == digit_value(c),
{
    if '0' <= c && c <= '9' {
        Some((c as u32 - '0' as u32) as i64)
    } else {
        None
    }
}

fn scan_unsigned(u: &Vec<char>) -> (r: Option<i64>)
    ensures
        r.is_some() == unsigned_value(u@).is_some(),
        r.is_some() ==> r.unwrap() as int == unsigned_value(u@).unwrap(),
        r.is_some() ==> 0 <= r.unwrap() <= WHOLE_CAP * 1000 + 999,
{
    let n = u.len();
    let mut i: usize = 0;
    let mut whole: i64 = 0;
    while i < n
        invariant
            i <= n,
            n == u@.len(),
            all_digits(u@.take(i as int)),
            whole as int == capped(digits_value(u@.take(i as int))),
            0 <= whole <= WHOLE_CAP,
        ensures
            i < n ==> !is_digit(u@[i as int]),
        decreases n - i,
    {
        match digit_of(u[i]) {
            None => {
                break ;
            },
            Some(d) => {
                let next = whole * 10 + d;
                proof {
                    assert(u@.take(i + 1).drop_last() =~= u@.take(i as int));
                    assert(u@.take(i + 1).last() == u@[i as int]);
                    lemma_capped_step(digits_value(u@.take(i as int)), d as int);
                }
                whole = if next > WHOLE_CAP {
                    WHOLE_CAP
                } else {
                    next
                };
                i = i + 1;
                assert(all_digits(u@.take(i as int))) by {
                    assert forall|k: int| 0 <= k < i implies is_digit(#[trigger] u@.take(i as int)[k]) by {
                        if k < i - 1 {
                            assert(u@.take(i as int)[k] == u@.take(i - 1)[k]);
                        }
                    }
                }
            },
        }
    }
    if i == n {
        assert(u@.take(n as int) =~= u@);
        if n == 0 {
            assert forall|q: int| !point_split(u@, q) by {}
            return None;
        }
        return Some(whole * 1000);
    }
    let p = i;
    proof {
        assert(!all_digits(u@));
    }
    if u[p] != '.' || n - p - 1 > 3 || n == 1 {
        assert forall|q: int| !point_split(u@, q) by {
            if point_split(u@, q) {
                lemma_point_is_first_non_digit(u@, p as int, q);
            }
        }
        return None;
    }
    let mut j: usize = p + 1;
    let mut frac: i64 = 0;
    while j < n
        invariant
            p < j <= n,
            n == u@.len(),
            u@[p as int] == '.',
            all_digits(u@.take(p as int)),
            n - p - 1 <= 3,
            all_digits(u@.subrange(p + 1, j as int)),
            frac as int == digits_value(u@.subrange(p + 1, j as int)),
            0 <= frac < 1000,
            j - p - 1 <= 3,
            frac < (if j - p - 1 == 0 { 1int } else if j - p - 1 == 1 { 10int } else if j - p - 1 == 2 { 100int } else { 1000int }),
        decreases n - j,
    {
        match digit_of(u[j]) {
            None => {
                assert forall|q: int| !point_split(u@, q) by {
                    if point_split(u@, q) {
                        lemma_point_is_first_non_digit(u@, p as int, q);
                        assert(u@.skip(p + 1)[j - p - 1] == u@[j as int]);
                    }
                }
                return None;
            },
            Some(d) => {
                proof {
                    assert(u@.subrange(p + 1, j + 1).drop_last() =~= u@.subrange(p + 1, j as int));
                    assert(u@.subrange(p + 1, j + 1).last() == u@[j as int]);
                }
                frac = frac * 10 + d;
                j = j + 1;
                assert(all_digits(u@.subrange(p + 1, j as int))) by {
                    assert forall|k: int| 0 <= k < j - p - 1 implies is_digit(
                        #[trigger] u@.subrange(p + 1, j as int)[k],
                    ) by {
                        if k < j - p - 2 {
                            assert(u@.subrange(p + 1, j as int)[k] == u@.subrange(p + 1, j - 1)[k]);
                        }
                    }
                }
            },
        }
    }
    let scale: i64 = if n - p - 1 == 0 {
        1000
    } else if n - p - 1 == 1 {
        100
    } else if n - p - 1 == 2 {
        10
    } else {
        1
    };
    proof {
        assert(u@.subrange(p + 1, n as int) =~= u@.skip(p + 1));
        assert(point_split(u@, p as int));
        assert forall|q: int| point_split(u@, q) implies q == p by {
            lemma_point_is_first_non_digit(u@, p as int, q);
        }
        let c = choose|q: int| point_split(u@, q);
        assert(c == p);
    }
    Some(whole * 1000 + frac * scale)
}

/// Parses a decimal number (optional sign, digits, at most one point, at most three
/// digits after it) into thousandths.
pub fn parse_decimal(s: &str) -> (r: Option<i64>)
    ensures
        r.is_some() == decimal_value(s@).is_some(),
        r.is_some() ==> r.unwrap() as int == decimal_value(s@).unwrap(),
{
    let n = s.unicode_len();
    let mut start: usize = 0;
    let mut negative = false;
    if n > 0 {
        let c = s.get_char(0);
        if c == '-' {
            negative = true;
            start = 1;
        } else if c == '+' {
            start = 1;
        }
    }
    let mut chars: Vec<char> = Vec::new();
    let mut k: usize = start;
    while k < n
        invariant
            start <= k <= n,
            n == s@.len(),
            chars@ == s@.subrange(start as int, k as int),
        decreases n - k,
    {
        chars.push(s.get_char(k));
        assert(chars@ =~= s@.subrange(start as int, k + 1));
        k = k + 1;
    }
    assert(chars@ =~= s@.skip(start as int));
    assert(start == 0 ==> s@.skip(0) =~= s@);
    match scan_unsigned(&chars) {
        None => None,
        Some(v) => {
            if negative {
                Some(-v)
            } else {
                Some(v)
            }
        },
    }
}

pub open spec fn digit_char(d: int) -> char {
    if d == 0 {
        '0'
    } else if d == 1 {
        '1'
    } else if d == 2 {
        '2'
    } else if d == 3 {
        '3'
    } else if d == 4 {
        '4'
    } else if d == 5 {
        '5'
    } else if d == 6 {
        '6'
    } else if d == 7 {
        '7'
    } else if d == 8 {
        '8'
    } else {
        '9'
    }
}

/// The decimal digits of `n`, without leading zeros.
pub open spec fn nat_text(n: nat) -> Seq<char>
    decreases n,
{
    if n < 10 {
        seq![digit_char(n as int)]
    } else {
        nat_text(n / 10).push(digit_char((n % 10) as int))
    }
}

/// A fraction of thousandths as text after a point, trailing zeros dropped.
pub open spec fn fraction_text(f: int) -> Seq<char> {
    if f == 0 {
        seq![]
    } else if f % 100 == 0 {
        seq!['.', digit_char(f / 100)]
    } else if f % 10 == 0 {
        seq!['.', digit_char(f / 100), digit_char((f / 10) % 10)]
    } else {
        seq!['.', digit_char(f / 100), digit_char((f / 10) % 10), digit_char(f % 10)]
    }
}

/// A quantity in thousandths as decimal text: `300000` is `300`, `2500` is `2.5`,
/// `-100` is `-0.1`.
pub open spec fn quantity_text(v: int) -> Seq<char> {
    let m = if v < 0 {
        -v
    } else {
        v
    };
    let sign = if v < 0 {
        seq!['-']
    } else {
        seq![]
    };
    sign + nat_text((m / 1000) as nat) + fraction_text(m % 1000)
}

fn digit_str(d: u64) -> (r: &'static str)
    requires
        d < 10,
    ensures
        r@ == seq![digit_char(d as int)],
{
    if d == 0 {
        let r = "0";
        proof {
            reveal_strlit("0");
            assert(r@ =~= seq!['0']);
        }
        r
    } else if d == 1 {
        let r = "1";
        proof {
            reveal_strlit("1");
            assert(r@ =~= seq!['1']);
        }
        r
    } else if d == 2 {
        let r = "2";
        proof {
            reveal_strlit("2");
            assert(r@ =~= seq!['2']);
        }
        r
    } else if d == 3 {
        let r = "3";
        proof {
            reveal_strlit("3");
            assert(r@ =~= seq!['3']);
        }
        r
    } else if d == 4 {
        let r = "4";
        proof {
            reveal_strlit("4");
            assert(r@ =~= seq!['4']);
        }
        r
    } else if d == 5 {
        let r = "5";
        proof {
            reveal_strlit("5");
            assert(r@ =~= seq!['5']);
        }
        r
    } else if d == 6 {
        let r = "6";
        proof {
            reveal_strlit("6");
            assert(r@ =~= seq!['6']);
        }
        r
    } else if d == 7 {
        let r = "7";
        proof {
            reveal_strlit("7");
            assert(r@ =~= seq!['7']);
        }
        r
    } else if d == 8 {
        let r = "8";
        proof {
            reveal_strlit("8");
            assert(r@ =~= seq!['8']);
        }
        r
    } else {
        let r = "9";
        proof {
            reveal_strlit("9");
            assert(r@ =~= seq!['9']);
        }
        r
    }
}

/// Writes a count in decimal digits.
pub fn format_count(n: u64) -> (r: String)
    ensures
        r@ == nat_text(n as nat),
    decreases n,
{
    if n < 10 {
        String::from_str(digit_str(n))
    } else {
        let mut s = format_count(n / 10);
        s.append(digit_str(n % 10));
        assert(s@ =~= nat_text(n as nat));
        s
    }
}

/// Writes a quantity in thousandths as decimal text.
pub fn format_quantity(v: i64) -> (r: String)
    ensures
        r@ == quantity_text(v as int),
{
    let m: u64 = if v < 0 {
        (-(v as i128)) as u64
    } else {
        v as u64
    };
    let mut s = if v < 0 {
        String::from_str("-")
    } else {
        String::new()
    };
    proof {
        reveal_strlit("-");
    }
    let whole = format_count(m / 1000);
    s.append(whole.as_str());
    let f = m % 1000;
    if f != 0 {
        s.append(".");
        s.append(digit_str(f / 100));
        if f % 100 != 0 {
            s.append(digit_str((f / 10) % 10));
            if f % 10 != 0 {
                s.append(digit_str(f % 10));
            }
        }
    }
    proof {
        reveal_strlit(".");
        assert(s@ =~= quantity_text(v as int));
    }
    s
}

proof fn lemma_digit_char(d: int)
    requires
        0 <= d < 10,
    ensures
        is_digit(digit_char(d)),
        digit_value(digit_char(d)) == d,
{
}

proof fn lemma_nat_text(n: nat)
    ensures
        nat_text(n).len() > 0,
        all_digits(nat_text(n)),
        digits_value(nat_text(n)) == n,
    decreases n,
{
    if n < 10 {
        lemma_digit_char(n as int);
        assert(nat_text(n).drop_last() =~= Seq::<char>::empty());
        assert(digits_value(Seq::<char>::empty()) == 0);
        assert(nat_text(n).last() == digit_char(n as int));
    } else {
        lemma_nat_text(n / 10);
        lemma_digit_char((n % 10) as int);
        assert(nat_text(n).drop_last() =~= nat_text(n / 10));
        assert(nat_text(n).last() == digit_char((n % 10) as int));
        assert(digits_value(nat_text(n)) == digits_value(nat_text(n / 10)) * 10 + (n % 10));
    }
}

proof fn lemma_fraction_digits(f: int)
    requires
        0 < f < 1000,
    ensures
        fraction_text(f).len() >= 2,
        fraction_text(f)[0] == '.',
        all_digits(fraction_text(f).skip(1)),
        fraction_text(f).len() - 1 <= 3,
        digits_value(fraction_text(f).skip(1)) * fraction_scale(fraction_text(f).len() - 1) == f,
{
    let t = fraction_text(f).skip(1);
    let a = digit_char(f / 100);
    let b = digit_char((f / 10) % 10);
    let c = digit_char(f % 10);
    assert(digits_value(Seq::<char>::empty()) == 0);
    assert(seq![a].drop_last() =~= Seq::<char>::empty());
    assert(seq![a, b].drop_last() =~= seq![a]);
    assert(seq![a, b, c].drop_last() =~= seq![a, b]);
    lemma_digit_char(f / 100);
    lemma_digit_char((f / 10) % 10);
    lemma_digit_char(f % 10);
    assert(digits_value(seq![a]) == f / 100);
    assert(digits_value(seq![a, b]) == (f / 100) * 10 + (f / 10) % 10);
    assert(digits_value(seq![a, b, c]) == ((f / 100) * 10 + (f / 10) % 10) * 10 + f % 10);
    if f % 100 == 0 {
        assert(t =~= seq![a]);
    } else if f % 10 == 0 {
        assert(t =~= seq![a, b]);
    } else {
        assert(t =~= seq![a, b, c]);
    }
}

proof fn lemma_unsigned_round_trip(m: int)
    requires
        0 <= m <= WHOLE_CAP * 1000 + 999,
    ensures
        unsigned_value(nat_text((m / 1000) as nat) + fraction_text(m % 1000)) == Some(m),
        (nat_text((m / 1000) as nat) + fraction_text(m % 1000))[0] != '-',
        (nat_text((m / 1000) as nat) + fraction_text(m % 1000))[0] != '+',
{
    let w = nat_text((m / 1000) as nat);
    let f = m % 1000;
    let u = w + fraction_text(f);
    lemma_nat_text((m / 1000) as nat);
    assert(u[0] == w[0]);
    if f == 0 {
        assert(u =~= w);
    } else {
        lemma_fraction_digits(f);
        let p = w.len() as int;
        assert(u.take(p) =~= w);
        assert(u.skip(p + 1) =~= fraction_text(f).skip(1));
        assert(u[p] == '.');
        assert(point_split(u, p));
        assert(!all_digits(u)) by {
            assert(!is_digit(u[p]));
        }
        assert forall|q: int| point_split(u, q) implies q == p by {
            lemma_point_is_first_non_digit(u, p, q);
        }
        let c = choose|q: int| point_split(u, q);
        assert(c == p);
    }
}

/// The text that a quantity is written as parses back to that quantity, for
/// every quantity whose whole part lies within the cap.
pub proof fn lemma_quantity_round_trip(v: int)
    requires
        -(WHOLE_CAP * 1000 + 999) <= v <= WHOLE_CAP * 1000 + 999,
    ensures
        decimal_value(quantity_text(v)) == Some(v),
{
    let m = if v < 0 {
        -v
    } else {
        v
    };
    lemma_unsigned_round_trip(m);
    let u = nat_text((m / 1000) as nat) + fraction_text(m % 1000);
    if v < 0 {
        assert(quantity_text(v) =~= seq!['-'] + u);
        assert(quantity_text(v).skip(1) =~= u);
    } else {
        assert(quantity_text(v) =~= u);
    }
}

} // verus!
