use vstd::prelude::*;
use crate::scalar::Scalar;
use crate::time::Timestamp;

verus! {

/// One price bar: the highest and the lowest price of a time span.
#[derive(Copy, Clone, PartialEq, Debug)]
pub struct Bar {
    pub timestamp: Timestamp,
    pub high: Scalar,
    pub low: Scalar,
}

/// Why a period was refused.
#[derive(Copy, Clone, PartialEq, Eq, Structural, Debug)]
pub enum ConfigError {
    /// The period is zero.
    ZeroPeriod,
    /// A window of `2 * period + 1` bars cannot be counted in a `usize`.
    PeriodTooLarge,
}

/// Why a period is refused, if it is: zero, or so large that the size of its
/// window does not fit in a `usize`.
pub open spec fn refusal(period: nat) -> Option<ConfigError> {
    if period == 0 {
        Some(ConfigError::ZeroPeriod)
    } else if 2 * period + 1 > usize::MAX {
        Some(ConfigError::PeriodTooLarge)
    } else {
        None
    }
}

/// The number of bars that a window of the given period holds.
pub open spec fn window_size(period: nat) -> nat {
    2 * period + 1
}

/// The window after one more bar: the bar is appended, and where the window
/// was full its oldest bar is dropped first.
pub open spec fn pushed(window: Seq<Bar>, size: nat, bar: Bar) -> Seq<Bar> {
    if window.len() < size {
        window.push(bar)
    } else {
        window.drop_first().push(bar)
    }
}

/// The window after the given bars were pushed, one by one, into an empty
/// window.
pub open spec fn replay(size: nat, bars: Seq<Bar>) -> Seq<Bar>
    decreases bars.len(),
{
    if bars.len() == 0 {
        Seq::empty()
    } else {
        pushed(replay(size, bars.drop_last()), size, bars.last())
    }
}

/// The last `size` of the given bars, or all of them where they are fewer.
pub open spec fn latest(size: nat, bars: Seq<Bar>) -> Seq<Bar> {
    if bars.len() <= size {
        bars
    } else {
        bars.skip(bars.len() - size)
    }
}

/// First in, first out: a window of at least one bar that was filled from
/// empty holds the latest bars, in the order in which they came.
pub proof fn lemma_replay_keeps_latest(size: nat, bars: Seq<Bar>)
    requires
        size >= 1,
    ensures
        replay(size, bars) == latest(size, bars),
    decreases bars.len(),
{
    if bars.len() == 0 {
        assert(replay(size, bars) =~= latest(size, bars));
    } else {
        let earlier = bars.drop_last();
        lemma_replay_keeps_latest(size, earlier);
        assert(replay(size, bars) =~= latest(size, bars));
    }
}

/// The highs of a window, in order.
pub open spec fn highs_of(window: Seq<Bar>) -> Seq<Scalar> {
    Seq::new(window.len(), |i: int| window[i].high)
}

/// The lows of a window, in order.
pub open spec fn lows_of(window: Seq<Bar>) -> Seq<Scalar> {
    Seq::new(window.len(), |i: int| window[i].low)
}

/// The latest `2 * period + 1` bars of one instrument.
#[derive(Debug)]
pub struct WindowBuffer {
    period: usize,
    bars: Vec<Bar>,
}

impl View for WindowBuffer {
    type V = Seq<Bar>;

    /// The bars in the window, oldest first.
    closed spec fn view(&self) -> Seq<Bar> {
        self.bars@
    }
}

impl WindowBuffer {
    #[verifier::type_invariant]
    spec fn inv(self) -> bool {
        &&& 1 <= self.period
        &&& 2 * self.period + 1 <= usize::MAX
        &&& self.bars@.len() <= 2 * self.period + 1
    }

    /// The period that the window was made with.
    pub closed spec fn spec_period(&self) -> nat {
        self.period as nat
    }

    /// Whether the window holds all of its `2 * period + 1` bars.
    pub open spec fn spec_is_ready(&self) -> bool {
        self@.len() == window_size(self.spec_period())
    }

    /// An empty window for the given period. A period of zero is refused, and
    /// so is one whose window could not be counted.
    pub fn new(period: usize) -> (r: Result<WindowBuffer, ConfigError>)
        ensures
            r is Err <==> refusal(period as nat) is Some,
            r matches Err(e) ==> refusal(period as nat) == Some(e),
            r matches Ok(window) ==> window.spec_period() == period && window@ == Seq::<
                Bar,
            >::empty(),
    {
        if period == 0 {
            return Err(ConfigError::ZeroPeriod);
        }
        if period > (usize::MAX - 1) / 2 {
            return Err(ConfigError::PeriodTooLarge);
        }
        Ok(WindowBuffer { period, bars: Vec::new() })
    }

    /// The period that the window was made with.
    pub fn period(&self) -> (r: usize)
        ensures
            r == self.spec_period(),
            r >= 1,
    {
        proof {
            use_type_invariant(self);
        }
        self.period
    }

    /// The number of bars that the window holds when it is full.
    pub fn capacity(&self) -> (r: usize)
        ensures
            r == window_size(self.spec_period()),
    {
        proof {
            use_type_invariant(self);
        }
        2 * self.period + 1
    }

    /// The number of bars in the window.
    pub fn len(&self) -> (r: usize)
        ensures
            r == self@.len(),
            r <= window_size(self.spec_period()),
    {
        proof {
            use_type_invariant(self);
        }
        self.bars.len()
    }

    /// Whether the window holds all of its `2 * period + 1` bars.
    pub fn is_ready(&self) -> (r: bool)
        ensures
            r == self.spec_is_ready(),
    {
        proof {
            use_type_invariant(self);
        }
        self.bars.len() == 2 * self.period + 1
    }

    /// Appends a bar. A full window drops its oldest bar first.
    pub fn push(&mut self, bar: Bar)
        ensures
            final(self)@ == pushed(old(self)@, window_size(old(self).spec_period()), bar),
            final(self).spec_period() == old(self).spec_period(),
            final(self)@.len() <= window_size(old(self).spec_period()),
            final(self)@.len() == if old(self).spec_is_ready() {
                old(self)@.len()
            } else {
                old(self)@.len() + 1
            },
    {
        proof {
            use_type_invariant(&*self);
        }
        let full: bool = self.bars.len() == 2 * self.period + 1;
        let mut next: Vec<Bar> = Vec::new();
        let mut i: usize = if full {
            1
        } else {
            0
        };
        let ghost kept: Seq<Bar> = if full {
            self.bars@.drop_first()
        } else {
            self.bars@
        };
        let ghost start: int = i as int;
        while i < self.bars.len()
            invariant
                0 <= start <= i <= self.bars@.len(),
                next@.len() == i - start,
                forall|j: int| 0 <= j < i - start ==> next@[j] == self.bars@[start + j],
            decreases self.bars@.len() - i,
        {
            next.push(self.bars[i]);
            i += 1;
        }
        assert(next@ =~= kept);
        next.push(bar);
        self.bars = next;
    }

    /// The bar at the given place, counted from the oldest.
    pub fn get(&self, i: usize) -> (r: Option<Bar>)
        ensures
            r is Some <==> i < self@.len(),
            r matches Some(bar) ==> bar == self@[i as int],
    {
        if i < self.bars.len() {
            Some(self.bars[i])
        } else {
            None
        }
    }

    /// The highs of the bars in the window, oldest first.
    pub fn highs(&self) -> (r: Vec<Scalar>)
        ensures
            r@ == highs_of(self@),
    {
        let mut out: Vec<Scalar> = Vec::new();
        let mut i: usize = 0;
        while i < self.bars.len()
            invariant
                i <= self.bars@.len(),
                out@.len() == i,
                forall|j: int| 0 <= j < i ==> out@[j] == self.bars@[j].high,
            decreases self.bars@.len() - i,
        {
            out.push(self.bars[i].high);
            i += 1;
        }
        assert(out@ =~= highs_of(self@));
        out
    }

    /// The lows of the bars in the window, oldest first.
    pub fn lows(&self) -> (r: Vec<Scalar>)
        ensures
            r@ == lows_of(self@),
    {
        let mut out: Vec<Scalar> = Vec::new();
        let mut i: usize = 0;
        while i < self.bars.len()
            invariant
                i <= self.bars@.len(),
                out@.len() == i,
                forall|j: int| 0 <= j < i ==> out@[j] == self.bars@[j].low,
            decreases self.bars@.len() - i,
        {
            out.push(self.bars[i].low);
            i += 1;
        }
        assert(out@ =~= lows_of(self@));
        out
    }
}

} // verus!
