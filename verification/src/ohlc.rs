//! The candlestick record and its utilities: construction, validation,
//! trend direction, field projections and timestamp filtering.

use vstd::prelude::*;

use crate::price::{finite_bits, lt_bits, Price};

verus! {

/// Direction of a candle whose close is above its open.
pub const BULLISH: i8 = 1;

/// Direction of a candle whose close is below its open.
pub const BEARISH: i8 = -1;

/// The diagnostic for a non-finite open price.
pub open spec fn msg_open_finite() -> Seq<char> {
    "Open price must be finite"@
}

/// The diagnostic for a non-finite high price.
pub open spec fn msg_high_finite() -> Seq<char> {
    "High price must be finite"@
}

/// The diagnostic for a non-finite low price.
pub open spec fn msg_low_finite() -> Seq<char> {
    "Low price must be finite"@
}

/// The diagnostic for a non-finite close price.
pub open spec fn msg_close_finite() -> Seq<char> {
    "Close price must be finite"@
}

/// The diagnostic for a high price below the low price.
pub open spec fn msg_high_low() -> Seq<char> {
    "High price must be greater than or equal to low price"@
}

/// The diagnostic for a volume that is negative or not finite.
pub open spec fn msg_volume() -> Seq<char> {
    "Volume must be non-negative and finite"@
}

/// The diagnostic for a zero timestamp.
pub open spec fn msg_timestamp() -> Seq<char> {
    "Timestamp must be non-zero"@
}

/// The open prices of a sequence of candles, in order.
pub open spec fn spec_opens(s: Seq<OHLC>) -> Seq<Price> {
    s.map_values(|c: OHLC| c.open)
}

/// The high prices of a sequence of candles, in order.
pub open spec fn spec_highs(s: Seq<OHLC>) -> Seq<Price> {
    s.map_values(|c: OHLC| c.high)
}

/// The low prices of a sequence of candles, in order.
pub open spec fn spec_lows(s: Seq<OHLC>) -> Seq<Price> {
    s.map_values(|c: OHLC| c.low)
}

/// The close prices of a sequence of candles, in order.
pub open spec fn spec_closes(s: Seq<OHLC>) -> Seq<Price> {
    s.map_values(|c: OHLC| c.close)
}

/// All opens from a slice of OHLC, in input order; an empty slice
/// yields an empty vector.
pub fn opens(ohlcs: &[OHLC]) -> (r: Vec<Price>)
    ensures
        r@ == spec_opens(ohlcs@),
{
    let mut r: Vec<Price> = Vec::new();
    let mut i: usize = 0;
    while i < ohlcs.len()
        invariant
            i <= ohlcs.len(),
            r@ =~= spec_opens(ohlcs@.subrange(0, i as int)),
        decreases ohlcs.len() - i,
    {
        r.push(ohlcs[i].open);
        i += 1;
    }
    proof {
        assert(ohlcs@.subrange(0, ohlcs@.len() as int) =~= ohlcs@);
        assert(r@ =~= spec_opens(ohlcs@));
    }
    r
}

/// All highs from a slice of OHLC, in input order; an empty slice
/// yields an empty vector.
pub fn highs(ohlcs: &[OHLC]) -> (r: Vec<Price>)
    ensures
        r@ == spec_highs(ohlcs@),
{
    let mut r: Vec<Price> = Vec::new();
    let mut i: usize = 0;
    while i < ohlcs.len()
        invariant
            i <= ohlcs.len(),
            r@ =~= spec_highs(ohlcs@.subrange(0, i as int)),
        decreases ohlcs.len() - i,
    {
        r.push(ohlcs[i].high);
        i += 1;
    }
    proof {
        assert(ohlcs@.subrange(0, ohlcs@.len() as int) =~= ohlcs@);
        assert(r@ =~= spec_highs(ohlcs@));
    }
    r
}

/// All lows from a slice of OHLC, in input order; an empty slice
/// yields an empty vector.
pub fn lows(ohlcs: &[OHLC]) -> (r: Vec<Price>)
    ensures
        r@ == spec_lows(ohlcs@),
{
    let mut r: Vec<Price> = Vec::new();
    let mut i: usize = 0;
    while i < ohlcs.len()
        invariant
            i <= ohlcs.len(),
            r@ =~= spec_lows(ohlcs@.subrange(0, i as int)),
        decreases ohlcs.len() - i,
    {
        r.push(ohlcs[i].low);
        i += 1;
    }
    proof {
        assert(ohlcs@.subrange(0, ohlcs@.len() as int) =~= ohlcs@);
        assert(r@ =~= spec_lows(ohlcs@));
    }
    r
}

/// All closes from a slice of OHLC, in input order; an empty slice
/// yields an empty vector.
pub fn closes(ohlcs: &[OHLC]) -> (r: Vec<Price>)
    ensures
        r@ == spec_closes(ohlcs@),
{
    let mut r: Vec<Price> = Vec::new();
    let mut i: usize = 0;
    while i < ohlcs.len()
        invariant
            i <= ohlcs.len(),
            r@ =~= spec_closes(ohlcs@.subrange(0, i as int)),
        decreases ohlcs.len() - i,
    {
        r.push(ohlcs[i].close);
        i += 1;
    }
    proof {
        assert(ohlcs@.subrange(0, ohlcs@.len() as int) =~= ohlcs@);
        assert(r@ =~= spec_closes(ohlcs@));
    }
    r
}

/// Options for filtering OHLC slices: two independent, optional,
/// inclusive timestamp bounds. An absent bound imposes no constraint;
/// a bound of zero is a real bound, not "absent".
pub struct Opts {
    pub exclude_before: Option<u64>,
    pub exclude_after: Option<u64>,
}

/// Whether a candle survives the bounds in `opts`: its timestamp is at
/// least `exclude_before` (when set) and at most `exclude_after` (when
/// set).
pub open spec fn keeps(opts: Opts, c: OHLC) -> bool {
    &&& (match opts.exclude_before {
        Some(before) => c.ts >= before,
        None => true,
    })
    &&& (match opts.exclude_after {
        Some(after) => c.ts <= after,
        None => true,
    })
}

/// The subsequence of `s` surviving the bounds in `opts`, in input
/// order.
pub open spec fn spec_filter(s: Seq<OHLC>, opts: Opts) -> Seq<OHLC> {
    s.filter(|c: OHLC| keeps(opts, c))
}

/// A sequence filtered by a predicate that holds everywhere is the
/// sequence itself.
proof fn lemma_filter_everything_kept(s: Seq<OHLC>, pred: spec_fn(OHLC) -> bool)
    requires
        forall|c: OHLC| #[trigger] pred(c),
    ensures
        s.filter(pred) == s,
    decreases s.len(),
{
    reveal(Seq::filter);
    if s.len() == 0 {
        assert(s.filter(pred) =~= s);
    } else {
        lemma_filter_everything_kept(s.drop_last(), pred);
        assert(s.filter(pred) =~= s);
    }
}

/// Filters a slice of OHLC returning a Vector of OHLC matching the
/// supplied options: exactly the candles that [`keeps`] accepts, in
/// input order. With both bounds absent the input comes back
/// unchanged.
pub fn filter(ohlcs: &[OHLC], opts: Opts) -> (r: Vec<OHLC>)
    ensures
        r@ == spec_filter(ohlcs@, opts),
        (opts.exclude_before is None && opts.exclude_after is None ==> r@ == ohlcs@),
{
    let mut r: Vec<OHLC> = Vec::new();
    let mut i: usize = 0;
    while i < ohlcs.len()
        invariant
            i <= ohlcs.len(),
            r@ == spec_filter(ohlcs@.subrange(0, i as int), opts),
        decreases ohlcs.len() - i,
    {
        let c = ohlcs[i];
        let before_ok = match opts.exclude_before {
            Some(before) => c.ts >= before,
            None => true,
        };
        let after_ok = match opts.exclude_after {
            Some(after) => c.ts <= after,
            None => true,
        };
        if before_ok && after_ok {
            r.push(c);
        }
        proof {
            let pred = |cc: OHLC| keeps(opts, cc);
            let prefix = ohlcs@.subrange(0, i as int);
            assert(ohlcs@.subrange(0, i + 1) =~= prefix + seq![c]);
            Seq::filter_distributes_over_add(prefix, seq![c], pred);
            reveal_with_fuel(Seq::<_>::filter, 2);
            assert(seq![c].drop_last() =~= Seq::<OHLC>::empty());
            if pred(c) {
                assert(Seq::<OHLC>::empty().push(c) =~= seq![c]);
                assert(r@ =~= spec_filter(prefix, opts) + seq![c]);
            } else {
                assert(r@ =~= spec_filter(prefix, opts) + Seq::<OHLC>::empty());
            }
            assert(r@ == spec_filter(ohlcs@.subrange(0, i + 1), opts));
        }
        i += 1;
    }
    proof {
        assert(ohlcs@.subrange(0, ohlcs@.len() as int) =~= ohlcs@);
        if opts.exclude_before is None && opts.exclude_after is None {
            let pred = |cc: OHLC| keeps(opts, cc);
            assert(forall|cc: OHLC| #[trigger] pred(cc));
            lemma_filter_everything_kept(ohlcs@, pred);
        }
    }
    r
}

/// A single candlestick: open, high, low and close prices, an optional
/// traded volume, and a caller-defined timestamp.
///
/// Construction does not validate: a candle may hold any values until
/// [`OHLC::validate`] is asked.
#[derive(Clone, Copy, Debug, PartialEq)]
pub struct OHLC {
    pub open: Price,
    pub high: Price,
    pub low: Price,
    pub close: Price,
    pub vol: Option<Price>,
    pub ts: u64,
}

impl OHLC {
    /// Whether the candle satisfies every invariant: all four prices
    /// finite, high at least low, volume (when present) finite and
    /// non-negative, and a non-zero timestamp.
    pub open spec fn valid(self) -> bool {
        &&& finite_bits(self.open.bits)
        &&& finite_bits(self.high.bits)
        &&& finite_bits(self.low.bits)
        &&& finite_bits(self.close.bits)
        &&& !lt_bits(self.high.bits, self.low.bits)
        &&& (match self.vol {
            Some(v) => finite_bits(v.bits) && !lt_bits(v.bits, 0),
            None => true,
        })
        &&& self.ts != 0
    }

    /// The ordered list of every diagnostic the candle triggers. The
    /// checks are independent and all evaluated, in a fixed order, so a
    /// candle breaking several rules reports all of them at once.
    pub open spec fn violations(self) -> Seq<Seq<char>> {
        let open_d: Seq<Seq<char>> = if !finite_bits(self.open.bits) {
            seq![msg_open_finite()]
        } else {
            Seq::empty()
        };
        let high_d: Seq<Seq<char>> = if !finite_bits(self.high.bits) {
            seq![msg_high_finite()]
        } else {
            Seq::empty()
        };
        let low_d: Seq<Seq<char>> = if !finite_bits(self.low.bits) {
            seq![msg_low_finite()]
        } else {
            Seq::empty()
        };
        let close_d: Seq<Seq<char>> = if !finite_bits(self.close.bits) {
            seq![msg_close_finite()]
        } else {
            Seq::empty()
        };
        let high_low_d: Seq<Seq<char>> = if lt_bits(self.high.bits, self.low.bits) {
            seq![msg_high_low()]
        } else {
            Seq::empty()
        };
        let vol_d: Seq<Seq<char>> = match self.vol {
            Some(v) => if !finite_bits(v.bits) || lt_bits(v.bits, 0) {
                seq![msg_volume()]
            } else {
                Seq::empty()
            },
            None => Seq::empty(),
        };
        let ts_d: Seq<Seq<char>> = if self.ts == 0 {
            seq![msg_timestamp()]
        } else {
            Seq::empty()
        };
        open_d + high_d + low_d + close_d + high_low_d + vol_d + ts_d
    }

    /// Return a new OHLC with no volume. Always succeeds; performs no
    /// validation, so every field reads back exactly as given.
    pub fn new(open: Price, high: Price, low: Price, close: Price, ts: u64) -> (r: Self)
        ensures
            r == (OHLC { open, high, low, close, vol: None, ts }),
    {
        OHLC { open, high, low, close, vol: None, ts }
    }

    /// Specify the volume for an OHLC. Pure: the result carries every
    /// field of `self` unchanged except the volume, which is set to
    /// `vol`.
    pub fn with_volume(self, vol: Price) -> (r: Self)
        ensures
            r.open == self.open,
            r.high == self.high,
            r.low == self.low,
            r.close == self.close,
            r.vol == Some(vol),
            r.ts == self.ts,
    {
        OHLC { vol: Some(vol), ..self }
    }

    /// A candle is valid exactly when it triggers no diagnostic: an
    /// empty violation list is a pass, and every invalid candle has at
    /// least one entry to report.
    pub proof fn lemma_valid_iff_no_violations(self)
        ensures
            self.valid() <==> self.violations().len() == 0,
    {
    }

    /// Validate an OHLC. All checks run and every diagnostic triggered
    /// is returned, in the fixed order of [`OHLC::violations`]; a
    /// candle passes exactly when it is [`OHLC::valid`].
    pub fn validate(&self) -> (r: Result<(), Vec<String>>)
        ensures
            r is Ok <==> self.valid(),
            (r matches Err(e) ==> e.deep_view() == self.violations()),
    {
        let mut errors: Vec<String> = Vec::new();

        if !self.open.is_finite() {
            errors.push(String::from_str("Open price must be finite"));
        }
        if !self.high.is_finite() {
            errors.push(String::from_str("High price must be finite"));
        }
        if !self.low.is_finite() {
            errors.push(String::from_str("Low price must be finite"));
        }
        if !self.close.is_finite() {
            errors.push(String::from_str("Close price must be finite"));
        }

        if self.high.lt(&self.low) {
            errors.push(String::from_str("High price must be greater than or equal to low price"));
        }

        if let Some(vol) = self.vol {
            if !vol.is_finite() || vol.lt(&Price::from_bits(0)) {
                errors.push(String::from_str("Volume must be non-negative and finite"));
            }
        }

        if self.ts == 0 {
            errors.push(String::from_str("Timestamp must be non-zero"));
        }

        proof {
            assert(errors.deep_view() =~~= self.violations());
            self.lemma_valid_iff_no_violations();
        }
        if errors.len() == 0 {
            Ok(())
        } else {
            Err(errors)
        }
    }

    /// Create and validate a new OHLC: the candle built by
    /// [`OHLC::new`] when it is valid, otherwise the full diagnostic
    /// list.
    pub fn build(open: Price, high: Price, low: Price, close: Price, ts: u64) -> (r: Result<
        Self,
        Vec<String>,
    >)
        ensures
            ({
                let c = OHLC { open, high, low, close, vol: None, ts };
                &&& (r is Ok <==> c.valid())
                &&& (r matches Ok(built) ==> built == c)
                &&& (r matches Err(e) ==> e.deep_view() == c.violations())
            }),
    {
        let ohlc = Self::new(open, high, low, close, ts);
        match ohlc.validate() {
            Ok(()) => Ok(ohlc),
            Err(errors) => Err(errors),
        }
    }

    /// The trend of the candle in spec terms: `1` when the close is
    /// strictly above the open (bullish), `-1` when strictly below
    /// (bearish), and `0` otherwise — equal values, either zero against
    /// the other, or any comparison involving a NaN.
    pub open spec fn spec_direction(self) -> i8 {
        if lt_bits(self.open.bits, self.close.bits) {
            BULLISH
        } else if lt_bits(self.close.bits, self.open.bits) {
            BEARISH
        } else {
            0
        }
    }

    /// The trend reads only the open and the close: two candles that
    /// agree on those two prices have the same direction, whatever
    /// their highs, lows, volumes and timestamps.
    pub proof fn lemma_direction_ignores_other_fields(self, other: OHLC)
        requires
            self.open == other.open,
            self.close == other.close,
        ensures
            self.spec_direction() == other.spec_direction(),
    {
    }

    /// Returns the direction of the OHLC.
    ///
    /// Will return a zero if the open and close values are equal. Uses
    /// exact double comparison: no epsilon, and high, low, volume and
    /// timestamp play no part.
    pub fn direction(&self) -> (r: i8)
        ensures
            r == self.spec_direction(),
    {
        if self.open.lt(&self.close) {
            BULLISH
        } else if self.close.lt(&self.open) {
            BEARISH
        } else {
            0
        }
    }
}

} // verus!
