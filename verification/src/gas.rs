//! Gas statistics over the blocks at the chain's head.
//!
//! The window of `count` blocks below the head `h` is `[max(0, h - count),
//! h]`. Each block of the window is fetched in turn; a block that cannot
//! be fetched, or whose gas used does not fit in 64 bits, is left out of
//! the sample. The statistics are those of the sample, and there are none
//! of an empty one.

use vstd::prelude::*;
use crate::entities::Block;
use crate::rpc::{ClientError, RethClient};

verus! {

/// The gas limit against which utilization is measured.
pub const MAX_GAS_LIMIT: u64 = 30_000_000;

/// The gas price that stands for every block, in wei.
pub const ESTIMATED_GAS_PRICE: u64 = 25_000_000_000;

/// A percentage as an exact fraction: `numerator / denominator` percent.
#[derive(Debug, Clone, Copy, PartialEq, Eq, Structural)]
pub struct Percentage {
    pub numerator: u128,
    /// Never zero.
    pub denominator: u64,
}

/// The utilization of `gas_used` out of `gas_limit`: `gas_used /
/// gas_limit * 100` percent, and zero percent of a limit of zero.
pub open spec fn utilization_of(gas_used: u64, gas_limit: u64) -> Percentage {
    if gas_limit == 0 {
        Percentage { numerator: 0, denominator: 1 }
    } else {
        Percentage { numerator: (gas_used * 100) as u128, denominator: gas_limit }
    }
}

/// Calculates gas utilization as a percentage.
pub fn calculate_gas_utilization(gas_used: u64, gas_limit: u64) -> (p: Percentage)
    ensures
        p == utilization_of(gas_used, gas_limit),
        p.denominator > 0,
        gas_limit == 0 ==> p.numerator == 0,
{
    if gas_limit == 0 {
        Percentage { numerator: 0, denominator: 1 }
    } else {
        Percentage { numerator: gas_used as u128 * 100, denominator: gas_limit }
    }
}

/// The summary of a sample of blocks.
#[derive(Debug, Clone, Copy, PartialEq, Eq, Structural)]
pub struct GasStatistics {
    pub avg_gas_used: u64,
    pub avg_gas_price: u64,
    pub max_gas_used: u64,
    pub min_gas_used: u64,
    /// The average gas used, out of `MAX_GAS_LIMIT`.
    pub gas_utilization: Percentage,
    /// The size of the sample.
    pub blocks_analyzed: usize,
}

pub open spec fn sum_of(samples: Seq<u64>) -> nat
    decreases samples.len(),
{
    if samples.len() == 0 {
        0
    } else {
        sum_of(samples.drop_last()) + samples.last() as nat
    }
}

/// The greatest sample; zero of no sample.
pub open spec fn max_of(samples: Seq<u64>) -> u64
    decreases samples.len(),
{
    if samples.len() == 0 {
        0
    } else if samples.last() >= max_of(samples.drop_last()) {
        samples.last()
    } else {
        max_of(samples.drop_last())
    }
}

/// The least sample; `u64::MAX` of no sample.
pub open spec fn min_of(samples: Seq<u64>) -> u64
    decreases samples.len(),
{
    if samples.len() == 0 {
        u64::MAX
    } else if samples.last() <= min_of(samples.drop_last()) {
        samples.last()
    } else {
        min_of(samples.drop_last())
    }
}

/// The statistics of a sample of gas used, one number for each block;
/// none of an empty sample.
pub open spec fn statistics_of(samples: Seq<u64>) -> Option<GasStatistics> {
    if samples.len() == 0 {
        None
    } else {
        let average = (sum_of(samples) / samples.len()) as u64;
        Some(
            GasStatistics {
                avg_gas_used: average,
                avg_gas_price: ESTIMATED_GAS_PRICE,
                max_gas_used: max_of(samples),
                min_gas_used: min_of(samples),
                gas_utilization: utilization_of(average, MAX_GAS_LIMIT),
                blocks_analyzed: samples.len() as usize,
            },
        )
    }
}

/// The sum of a sample is at most its size times the greatest 64-bit
/// number, so the average fits in 64 bits.
pub proof fn lemma_sum_bound(samples: Seq<u64>)
    ensures
        sum_of(samples) <= samples.len() * u64::MAX,
        samples.len() > 0 ==> sum_of(samples) / samples.len() <= u64::MAX,
    decreases samples.len(),
{
    if samples.len() > 0 {
        lemma_sum_bound(samples.drop_last());
        let n = samples.len();
        let s = sum_of(samples);
        assert((n - 1) * u64::MAX + u64::MAX == n * u64::MAX) by (nonlinear_arith);
        assert(s / n <= u64::MAX) by (nonlinear_arith)
            requires
                n > 0,
                s <= n * u64::MAX,
        ;
    }
}

/// Of a sample of one block, the average, the least and the greatest gas
/// used are all that block's gas used.
pub proof fn lemma_single_sample(gas_used: u64)
    ensures
        statistics_of(seq![gas_used]) matches Some(s) && s.blocks_analyzed == 1 && s.avg_gas_used
            == gas_used && s.min_gas_used == gas_used && s.max_gas_used == gas_used,
{
    let samples = seq![gas_used];
    assert(samples.drop_last() =~= Seq::<u64>::empty());
    assert(sum_of(samples.drop_last()) == 0);
    assert(max_of(samples.drop_last()) == 0);
    assert(min_of(samples.drop_last()) == u64::MAX);
    assert(sum_of(samples) == gas_used);
}

/// The least sample is at most the average, and the average at most the
/// greatest.
pub proof fn lemma_average_between(samples: Seq<u64>)
    requires
        samples.len() > 0,
    ensures
        min_of(samples) <= sum_of(samples) / samples.len() <= max_of(samples),
{
    lemma_sum_between(samples);
    let n = samples.len();
    let s = sum_of(samples);
    let lo = min_of(samples);
    let hi = max_of(samples);
    assert(lo <= s / n <= hi) by (nonlinear_arith)
        requires
            n > 0,
            n * lo <= s <= n * hi,
    ;
}

proof fn lemma_sum_between(samples: Seq<u64>)
    ensures
        samples.len() * min_of(samples) <= sum_of(samples) <= samples.len() * max_of(samples),
    decreases samples.len(),
{
    if samples.len() > 0 {
        let rest = samples.drop_last();
        lemma_sum_between(rest);
        let n = rest.len();
        let lo = min_of(samples);
        let hi = max_of(samples);
        let rlo = min_of(rest);
        let rhi = max_of(rest);
        assert(n * lo <= n * rlo && n * rhi <= n * hi) by (nonlinear_arith)
            requires
                lo <= rlo,
                rhi <= hi,
                n >= 0,
        ;
        assert((n + 1) * lo == n * lo + lo && (n + 1) * hi == n * hi + hi) by (nonlinear_arith);
        assert(samples.len() == n + 1);
    }
}

/// The statistics of a sample.
pub fn aggregate(samples: &Vec<u64>) -> (r: Result<GasStatistics, ClientError>)
    ensures
        r is Ok == statistics_of(samples@) is Some,
        r matches Ok(s) ==> statistics_of(samples@) == Some(s),
        r matches Err(e) ==> e == ClientError::NoData,
{
    if samples.len() == 0 {
        return Err(ClientError::NoData);
    }
    let mut total: u128 = 0;
    let mut max: u64 = 0;
    let mut min: u64 = u64::MAX;
    let mut i: usize = 0;
    assert(samples@.take(0) =~= Seq::<u64>::empty());
    while i < samples.len()
        invariant
            i <= samples.len(),
            total == sum_of(samples@.take(i as int)),
            total <= i * u64::MAX,
            max == max_of(samples@.take(i as int)),
            min == min_of(samples@.take(i as int)),
        decreases samples.len() - i,
    {
        let gas_used = samples[i];
        assert(samples@.take(i + 1).drop_last() =~= samples@.take(i as int));
        assert(i * u64::MAX + u64::MAX == (i + 1) * u64::MAX) by (nonlinear_arith);
        assert((i + 1) * u64::MAX <= u128::MAX) by (nonlinear_arith)
            requires
                i + 1 <= u64::MAX + 1,
        ;
        total = total + gas_used as u128;
        if gas_used > max {
            max = gas_used;
        }
        if gas_used < min {
            min = gas_used;
        }
        i += 1;
    }
    assert(samples@.take(samples.len() as int) =~= samples@);
    proof {
        lemma_sum_bound(samples@);
    }
    let average: u64 = (total / samples.len() as u128) as u64;
    Ok(
        GasStatistics {
            avg_gas_used: average,
            avg_gas_price: ESTIMATED_GAS_PRICE,
            max_gas_used: max,
            min_gas_used: min,
            gas_utilization: calculate_gas_utilization(average, MAX_GAS_LIMIT),
            blocks_analyzed: samples.len(),
        },
    )
}

/// The first block of the window of `block_count` blocks below the head
/// `latest`; the window ends at `latest`.
pub fn window_start(latest: u64, block_count: usize) -> (start: u64)
    ensures
        start == if latest >= block_count {
            latest - block_count
        } else {
            0
        },
{
    if block_count as u64 <= latest {
        latest - block_count as u64
    } else {
        0
    }
}

/// A run over the window: the block that is due and the sample so far.
pub struct GasRun {
    next: u64,
    latest: u64,
    samples: Vec<u64>,
}

/// What the caller does next.
pub enum GasStep {
    /// Fetch the block of this height and report the outcome to the run.
    Fetch(GasRun, u64),
    /// The run is over.
    Done(Result<GasStatistics, ClientError>),
}

/// The sample after the outcome of one fetch: with the block's gas used
/// where the fetch gave a block and the number fits in 64 bits, unchanged
/// otherwise.
pub open spec fn sample_after(samples: Seq<u64>, outcome: Result<Block, ClientError>) -> Seq<u64> {
    match outcome {
        Ok(block) => if block.gas_used.value() <= u64::MAX {
            samples.push(block.gas_used.value() as u64)
        } else {
            samples
        },
        Err(_) => samples,
    }
}

/// The sample after the outcomes of the fetches of a window, in window
/// order.
pub open spec fn window_sample(outcomes: Seq<Result<Block, ClientError>>) -> Seq<u64>
    decreases outcomes.len(),
{
    if outcomes.len() == 0 {
        Seq::empty()
    } else {
        sample_after(window_sample(outcomes.drop_last()), outcomes.last())
    }
}

/// Blocks that cannot be fetched leave the sample as it is.
pub proof fn lemma_failures_add_nothing(
    sample: Seq<u64>,
    outcomes: Seq<Result<Block, ClientError>>,
    from: int,
)
    requires
        0 <= from <= outcomes.len(),
        window_sample(outcomes.take(from)) == sample,
        forall|i: int| from <= i < outcomes.len() ==> #[trigger] outcomes[i] is Err,
    ensures
        window_sample(outcomes) == sample,
    decreases outcomes.len() - from,
{
    if from < outcomes.len() {
        let next = outcomes.take(from + 1);
        assert(next.drop_last() =~= outcomes.take(from));
        assert(next.last() == outcomes[from]);
        lemma_failures_add_nothing(sample, outcomes, from + 1);
    } else {
        assert(outcomes.take(from) =~= outcomes);
    }
}

/// A window in which no block can be fetched has no statistics.
pub proof fn lemma_no_success_is_no_data(outcomes: Seq<Result<Block, ClientError>>)
    requires
        forall|i: int| 0 <= i < outcomes.len() ==> #[trigger] outcomes[i] is Err,
    ensures
        statistics_of(window_sample(outcomes)) is None,
{
    assert(outcomes.take(0) =~= Seq::<Result<Block, ClientError>>::empty());
    lemma_failures_add_nothing(Seq::empty(), outcomes, 0);
}

/// A window in which exactly one block can be fetched has the statistics
/// of that block: one block analysed, whose gas used is the average, the
/// least and the greatest.
pub proof fn lemma_one_success_is_the_sample(
    outcomes: Seq<Result<Block, ClientError>>,
    at: int,
)
    requires
        0 <= at < outcomes.len(),
        outcomes[at] is Ok,
        outcomes[at]->Ok_0.gas_used.value() <= u64::MAX,
        forall|i: int| 0 <= i < outcomes.len() && i != at ==> #[trigger] outcomes[i] is Err,
    ensures
        statistics_of(window_sample(outcomes)) matches Some(s) && s.blocks_analyzed == 1
            && s.avg_gas_used == outcomes[at]->Ok_0.gas_used.value() && s.min_gas_used
            == s.avg_gas_used && s.max_gas_used == s.avg_gas_used,
{
    let gas_used = outcomes[at]->Ok_0.gas_used.value() as u64;
    let before = outcomes.take(at);
    assert(before.take(0) =~= Seq::<Result<Block, ClientError>>::empty());
    assert forall|i: int| 0 <= i < before.len() implies #[trigger] before[i] is Err by {
        assert(before[i] == outcomes[i]);
    }
    lemma_failures_add_nothing(Seq::empty(), before, 0);
    let with = outcomes.take(at + 1);
    assert(with.drop_last() =~= before);
    assert(with.last() == outcomes[at]);
    assert(window_sample(with) =~= seq![gas_used]);
    lemma_failures_add_nothing(seq![gas_used], outcomes, at + 1);
    lemma_single_sample(gas_used);
}

/// The step is the fetch of the block `next` in a run that ends at
/// `latest` and holds the sample `samples`.
pub open spec fn is_fetch(step: GasStep, next: u64, latest: u64, samples: Seq<u64>) -> bool {
    match step {
        GasStep::Fetch(run, number) => {
            &&& number == next
            &&& run.due() == next
            &&& run.end() == latest
            &&& run.sample() == samples
        },
        _ => false,
    }
}

/// The step ends the run with the statistics of `samples`, or with the
/// error that there are none.
pub open spec fn is_summary(step: GasStep, samples: Seq<u64>) -> bool {
    match step {
        GasStep::Done(Ok(s)) => statistics_of(samples) == Some(s),
        GasStep::Done(Err(e)) => statistics_of(samples) is None && e == ClientError::NoData,
        _ => false,
    }
}

impl GasRun {
    #[verifier::type_invariant]
    closed spec fn well_formed(self) -> bool {
        self.next <= self.latest
    }

    /// The block that is due.
    pub closed spec fn due(self) -> u64 {
        self.next
    }

    /// The last block of the window.
    pub closed spec fn end(self) -> u64 {
        self.latest
    }

    /// The gas used of the blocks analysed so far, in window order.
    pub closed spec fn sample(self) -> Seq<u64> {
        self.samples@
    }

    /// Begins a run over the window of `block_count` blocks below the
    /// head `latest`, with the fetch of the window's first block.
    pub fn begin(latest: u64, block_count: usize) -> (step: GasStep)
        ensures
            is_fetch(
                step,
                if latest >= block_count {
                    (latest - block_count) as u64
                } else {
                    0
                },
                latest,
                Seq::empty(),
            ),
    {
        let next = window_start(latest, block_count);
        GasStep::Fetch(GasRun { next, latest, samples: Vec::new() }, next)
    }

    /// Takes the outcome of the fetch that was due. The block enters the
    /// sample, a failure does not and ends nothing. Behind the window's
    /// last block the run ends with the statistics of the sample.
    pub fn record(self, outcome: Result<Block, ClientError>) -> (step: GasStep)
        ensures
            self.due() < self.end() ==> is_fetch(
                step,
                (self.due() + 1) as u64,
                self.end(),
                sample_after(self.sample(), outcome),
            ),
            self.due() >= self.end() ==> is_summary(step, sample_after(self.sample(), outcome)),
    {
        proof {
            use_type_invariant(&self);
        }
        let GasRun { next, latest, samples } = self;
        let mut samples = samples;
        match outcome {
            Ok(block) => match block.gas_used.to_u64() {
                Some(gas_used) => {
                    samples.push(gas_used);
                },
                None => {},
            },
            Err(_) => {},
        }
        if next < latest {
            GasStep::Fetch(GasRun { next: next + 1, latest, samples }, next + 1)
        } else {
            GasStep::Done(aggregate(&samples))
        }
    }
}

impl RethClient {
    /// Begins the gas statistics of the `block_count` blocks below the
    /// head, given the outcome of the query for the head's height: a
    /// failure of that query ends the run, its height begins the window.
    pub fn get_gas_statistics(&self, latest: Result<u64, ClientError>, block_count: usize) -> (step:
        GasStep)
        ensures
            latest matches Err(e) ==> step matches GasStep::Done(Err(error)) && error == e,
            latest matches Ok(head) ==> is_fetch(
                step,
                if head >= block_count {
                    (head - block_count) as u64
                } else {
                    0
                },
                head,
                Seq::empty(),
            ),
    {
        match latest {
            Ok(head) => GasRun::begin(head, block_count),
            Err(e) => GasStep::Done(Err(e)),
        }
    }
}

} // verus!
