//! Assembly of the plain-text output line of one ticker.
//!
//! The line holds the symbol, the current value, and one percentage figure
//! per enabled horizon flag, in the fixed order daily, weekly, monthly,
//! yearly; the figures carry a percent sign and single spaces separate the
//! fields.  Turning a binary64 bit pattern into its decimal text is
//! floating-point formatting and stays outside the verified library, so the
//! line is assembled from number texts that the caller has formatted.

use vstd::prelude::*;
use vstd::string::StringExecFns;

use crate::model::Ticker;

verus! {

/// The change fields selected by the four horizon flags, in the fixed order
/// daily, weekly, monthly, yearly.
pub open spec fn spec_selected(t: Ticker, dy: bool, wk: bool, mo: bool, yr: bool) -> Seq<u64> {
    let s = Seq::<u64>::empty();
    let s = if dy {
        s.push(t.daily_change)
    } else {
        s
    };
    let s = if wk {
        s.push(t.wk_change)
    } else {
        s
    };
    let s = if mo {
        s.push(t.mo_change)
    } else {
        s
    };
    if yr {
        s.push(t.yr_change)
    } else {
        s
    }
}

impl Ticker {
    /// The change fields selected by the four horizon flags, in the fixed
    /// order daily, weekly, monthly, yearly.
    pub fn selected_changes(&self, dy: bool, wk: bool, mo: bool, yr: bool) -> (r: Vec<u64>)
        ensures
            r@ == spec_selected(*self, dy, wk, mo, yr),
    {
        let mut v: Vec<u64> = Vec::new();
        if dy {
            v.push(self.daily_change);
        }
        if wk {
            v.push(self.wk_change);
        }
        if mo {
            v.push(self.mo_change);
        }
        if yr {
            v.push(self.yr_change);
        }
        v
    }
}

/// The output line built from a symbol, the formatted current value, and the
/// formatted percentage figures.
pub open spec fn spec_line(symbol: Seq<char>, value: Seq<char>, parts: Seq<Seq<char>>) -> Seq<
    char,
>
    decreases parts.len(),
{
    if parts.len() == 0 {
        symbol + " "@ + value
    } else {
        spec_line(symbol, value, parts.drop_last()) + " "@ + parts.last() + "%"@
    }
}

/// Builds the output line of one ticker from its pre-formatted number texts.
pub fn render_line(symbol: &str, value: &str, parts: &Vec<String>) -> (r: String)
    ensures
        r@ == spec_line(symbol@, value@, parts@.map_values(|p: String| p@)),
{
    let ghost all = parts@.map_values(|p: String| p@);
    let mut line = symbol.to_owned();
    line.append(" ");
    line.append(value);
    proof {
        assert(all.take(0).len() == 0);
    }
    let mut i: usize = 0;
    while i < parts.len()
        invariant
            0 <= i <= parts@.len(),
            all == parts@.map_values(|p: String| p@),
            line@ == spec_line(symbol@, value@, all.take(i as int)),
        decreases parts@.len() - i,
    {
        line.append(" ");
        line.append(parts[i].as_str());
        line.append("%");
        proof {
            assert(all.take(i + 1).drop_last() =~= all.take(i as int));
            assert(all.take(i + 1).last() == parts@[i as int]@);
        }
        i = i + 1;
    }
    proof {
        assert(all.take(parts@.len() as int) =~= all);
    }
    line
}

} // verus!
