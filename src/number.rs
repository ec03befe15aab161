//! Exact decimal numbers and their textual form.
use vstd::prelude::*;

verus! {

/// A `Decimal` holds its value multiplied by this factor: five fractional digits.
pub const DECIMAL_SCALE: i64 = 100000;

/// An exact decimal number with five fractional digits, the precision at which
/// numbers are printed.
#[derive(Clone, Copy, Debug, PartialEq, Eq, Structural)]
pub struct Decimal {
    pub scaled: i64,
}

pub open spec fn digit_char(d: nat) -> char {
    if d == 0 {
        '0'
    } else if d == 1 {
        '1'
    } else if d == 2 {
        '2'
    } else if d == 3 {
        '3'
    } else if d == 4 {
        '4'
    } else if d == 5 {
        '5'
    } else if d == 6 {
        '6'
    } else if d == 7 {
        '7'
    } else if d == 8 {
        '8'
    } else {
        '9'
    }
}

/// Decimal digits of a natural number, most significant first, without padding.
pub open spec fn nat_text(n: nat) -> Seq<char>
    decreases n,
{
    if n < 10 {
        seq![digit_char(n)]
    } else {
        nat_text(n / 10).push(digit_char(n % 10))
    }
}

/// Drops trailing zero digits from a fraction of `width` digits.
pub open spec fn trim_zeros(frac: nat, width: nat) -> (nat, nat)
    decreases width,
{
    if width > 0 && frac > 0 && frac % 10 == 0 {
        trim_zeros(frac / 10, (width - 1) as nat)
    } else {
        (frac, width)
    }
}

pub open spec fn zeros(n: nat) -> Seq<char> {
    Seq::new(n, |i: int| '0')
}

/// The digits after the decimal point of a fraction `frac` out of 10^5, without
/// trailing zeros.
pub open spec fn fraction_text(frac: nat) -> Seq<char> {
    let (f, w) = trim_zeros(frac, 5);
    zeros((w - nat_text(f).len()) as nat) + nat_text(f)
}

pub open spec fn abs_int(x: int) -> nat {
    if x < 0 {
        (-x) as nat
    } else {
        x as nat
    }
}

/// The text of a decimal: an optional minus sign, the integer part, and the
/// fractional digits after a point when there are any.
pub open spec fn decimal_text(d: Decimal) -> Seq<char> {
    let n = abs_int(d.scaled as int);
    let sign = if d.scaled < 0 {
        "-"@
    } else {
        Seq::empty()
    };
    let frac = n % (DECIMAL_SCALE as nat);
    sign + nat_text(n / (DECIMAL_SCALE as nat)) + if frac == 0 {
        Seq::empty()
    } else {
        "."@ + fraction_text(frac)
    }
}

/// Relies on `u64`'s `ToString`, through its `Display`: the decimal digits of
/// the value, most significant first, with no sign and no padding.
#[verifier::external_body]
fn u64_text(n: u64) -> (r: String)
    ensures
        r@ == nat_text(n as nat),
{
    n.to_string()
}

proof fn lemma_nat_text_len(n: nat)
    ensures
        1 <= nat_text(n).len(),
        n < 100000 ==> nat_text(n).len() <= 5,
        n < 10000 ==> nat_text(n).len() <= 4,
        n < 1000 ==> nat_text(n).len() <= 3,
        n < 100 ==> nat_text(n).len() <= 2,
    decreases n,
{
    if n >= 10 {
        lemma_nat_text_len(n / 10);
    }
}

proof fn lemma_trim_zeros_bound(frac: nat, width: nat)
    requires
        width <= 5,
        frac < pow10(width),
    ensures
        trim_zeros(frac, width).1 <= width,
        trim_zeros(frac, width).0 < pow10(trim_zeros(frac, width).1),
    decreases width,
{
    if width > 0 && frac > 0 && frac % 10 == 0 {
        assert(frac / 10 < pow10((width - 1) as nat));
        lemma_trim_zeros_bound(frac / 10, (width - 1) as nat);
    }
}

pub open spec fn pow10(w: nat) -> nat {
    if w == 0 {
        1
    } else if w == 1 {
        10
    } else if w == 2 {
        100
    } else if w == 3 {
        1000
    } else if w == 4 {
        10000
    } else {
        100000
    }
}

fn append_zeros(out: &mut String, n: usize)
    ensures
        final(out)@ == old(out)@ + zeros(n as nat),
{
    let mut i: usize = 0;
    while i < n
        invariant
            i <= n,
            out@ == old(out)@ + zeros(i as nat),
        decreases n - i,
    {
        out.append("0");
        proof {
            reveal_strlit("0");
        }
        assert(zeros((i + 1) as nat) =~= zeros(i as nat) + "0"@);
        i = i + 1;
    }
}

impl Decimal {
    /// Appends the decimal's text to `out`.
    pub fn write_to(&self, out: &mut String)
        ensures
            final(out)@ == old(out)@ + decimal_text(*self),
    {
        let ghost start = out@;
        let n: u64 = if self.scaled < 0 {
            (-(self.scaled as i128)) as u64
        } else {
            self.scaled as u64
        };
        assert(n as nat == abs_int(self.scaled as int));
        if self.scaled < 0 {
            out.append("-");
        }
        let ghost signed = out@;
        let int_part = u64_text(n / (DECIMAL_SCALE as u64));
        out.append(int_part.as_str());
        let frac = n % (DECIMAL_SCALE as u64);
        let ghost before_frac = out@;
        if frac != 0 {
            out.append(".");
            let mut f: u64 = frac;
            let mut w: usize = 5;
            proof {
                lemma_trim_zeros_bound(frac as nat, 5);
            }
            while w > 0 && f > 0 && f % 10 == 0
                invariant
                    w <= 5,
                    f > 0,
                    f < pow10(w as nat),
                    trim_zeros(f as nat, w as nat) == trim_zeros(frac as nat, 5),
                decreases w,
            {
                f = f / 10;
                w = w - 1;
            }
            let digits = u64_text(f);
            proof {
                lemma_nat_text_len(f as nat);
                assert(w >= 1);
            }
            let len = digits.as_str().unicode_len();
            append_zeros(out, w - len);
            out.append(digits.as_str());
        }
        assert(out@ =~= start + decimal_text(*self));
    }
}

} // verus!
