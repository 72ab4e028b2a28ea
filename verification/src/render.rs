//! The fixed multi-line text form of a view: one `label: value` line per
//! field, in the order callers depend on.

use vstd::prelude::*;

use crate::contriview::ContriView;
use crate::digits::dec_rep;

verus! {

/// The characters of a number's decimal digit string.
pub open spec fn dec_chars(n: int) -> Seq<char>
    recommends
        n >= 0,
{
    dec_rep(n).map_values(|b: u8| b as char)
}

/// Relies on `String::push_str`: appends exactly the given characters.
#[verifier::external_body]
fn push_str(out: &mut String, s: &str)
    ensures
        final(out)@ == old(out)@ + s@,
{
    out.push_str(s);
}

/// Relies on `String::push`: appends exactly the given character.
#[verifier::external_body]
fn push_char(out: &mut String, c: char)
    ensures
        final(out)@ == old(out)@.push(c),
{
    out.push(c);
}

/// Appends the decimal digit string of `n`.
fn push_decimal(out: &mut String, n: u32)
    ensures
        final(out)@ == old(out)@ + dec_chars(n as int),
{
    let mut tmp: Vec<u8> = Vec::new();
    let mut m: u32 = n;
    proof {
        assert(dec_rep(n as int) =~= dec_rep(m as int) + tmp@.reverse());
    }
    while m >= 10
        invariant
            dec_rep(n as int) == dec_rep(m as int) + tmp@.reverse(),
        decreases m,
    {
        let d = (m % 10) as u8 + 48;
        proof {
            assert(tmp@.push(d).reverse() =~= seq![d] + tmp@.reverse());
            assert(dec_rep((m / 10) as int) + (seq![d] + tmp@.reverse()) =~= (dec_rep(
                (m / 10) as int,
            ).push(d)) + tmp@.reverse());
        }
        tmp.push(d);
        m = m / 10;
    }
    let d0 = m as u8 + 48;
    proof {
        assert(tmp@.push(d0).reverse() =~= seq![d0] + tmp@.reverse());
        assert(dec_rep(m as int) =~= seq![d0]);
        assert(seq![d0] + tmp@.reverse() =~= dec_rep(m as int) + tmp@.reverse());
    }
    tmp.push(d0);
    let ghost base = out@;
    let mut j: usize = 0;
    proof {
        assert(out@ =~= base + dec_chars(n as int).take(0));
    }
    while j < tmp.len()
        invariant
            j <= tmp@.len(),
            tmp@.reverse() == dec_rep(n as int),
            out@ == base + dec_chars(n as int).take(j as int),
        decreases tmp@.len() - j,
    {
        let b = tmp[tmp.len() - 1 - j];
        proof {
            assert(tmp@.reverse()[j as int] == tmp@[tmp@.len() - 1 - j as int]);
            assert(dec_chars(n as int)[j as int] == b as char);
            assert((base + dec_chars(n as int).take(j as int)).push(b as char) =~= base
                + dec_chars(n as int).take(j as int + 1));
        }
        push_char(out, b as char);
        j = j + 1;
    }
    proof {
        assert(dec_chars(n as int).take(j as int) =~= dec_chars(n as int));
    }
}

impl ContriView {
    /// The exact text of a rendered view: eight `label: value` lines.
    pub open spec fn render_chars(self) -> Seq<char> {
        "today_contributions: "@ + dec_chars(self.today_contributions as int)
            + "\nweek_contributions: "@ + dec_chars(self.week_contributions as int)
            + "\nmonth_contributions: "@ + dec_chars(self.month_contributions as int)
            + "\nyear_contributions: "@ + dec_chars(self.year_contributions as int)
            + "\nsum_contributions: "@ + dec_chars(self.sum_contributions as int)
            + "\nweek_ave: "@ + dec_chars(self.week_ave as int) + "\nmonth_ave: "@
            + dec_chars(self.month_ave as int) + "\nsum_ave: "@ + dec_chars(
            self.sum_ave as int,
        )
    }

    /// Renders the view into its fixed multi-line text form.
    pub fn render(&self) -> (r: String)
        ensures
            r@ == self.render_chars(),
    {
        let mut out = String::new();
        push_str(&mut out, "today_contributions: ");
        push_decimal(&mut out, self.today_contributions);
        push_str(&mut out, "\nweek_contributions: ");
        push_decimal(&mut out, self.week_contributions);
        push_str(&mut out, "\nmonth_contributions: ");
        push_decimal(&mut out, self.month_contributions);
        push_str(&mut out, "\nyear_contributions: ");
        push_decimal(&mut out, self.year_contributions);
        push_str(&mut out, "\nsum_contributions: ");
        push_decimal(&mut out, self.sum_contributions);
        push_str(&mut out, "\nweek_ave: ");
        push_decimal(&mut out, self.week_ave);
        push_str(&mut out, "\nmonth_ave: ");
        push_decimal(&mut out, self.month_ave);
        push_str(&mut out, "\nsum_ave: ");
        push_decimal(&mut out, self.sum_ave);
        proof {
            assert(out@ =~= self.render_chars());
        }
        out
    }
}

} // verus!
