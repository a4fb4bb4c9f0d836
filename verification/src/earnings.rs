//! The earnings of a cast by earner category: an accumulator over the
//! splits that the upstream reports.
//!
//! Amounts are of a type `A` that the caller chooses, together with the zero
//! to start from and the addition `plus`. The accumulator decides what is
//! added to what, and its contracts say so in terms of `plus`; where `plus`
//! adds exactly, the results are arithmetic sums.

use vstd::prelude::*;
use crate::text::same_text;

verus! {

/// One share of a record's earnings: an amount and the label of who earns it.
#[derive(Clone, Debug, PartialEq)]
pub struct AirstackFarcasterCastMoxieEarningsSplit<A> {
    pub earnings_amount: A,
    pub earner_type: String,
}

/// The earnings of a cast by earner category, and their total.
#[derive(Clone, Debug, PartialEq)]
pub struct Earnings<A> {
    pub channel_fans: A,
    pub creator: A,
    pub network: A,
    pub creator_fans: A,
    pub total: A,
}

/// The earner categories that have a bucket of their own.
#[derive(Clone, Copy, Debug, PartialEq, Eq, Structural)]
pub enum EarnerType {
    ChannelFans,
    Creator,
    Network,
    CreatorFans,
}

/// The category that an upstream label names, if it names one.
pub open spec fn earner_of(label: Seq<char>) -> Option<EarnerType> {
    if label == "CHANNEL_FANS"@ {
        Some(EarnerType::ChannelFans)
    } else if label == "CREATOR"@ {
        Some(EarnerType::Creator)
    } else if label == "NETWORK"@ {
        Some(EarnerType::Network)
    } else if label == "CREATOR_FANS"@ {
        Some(EarnerType::CreatorFans)
    } else {
        None
    }
}

/// `sums` is the run of partial sums of `amounts` from `start`: it begins
/// with `start`, and each further entry is a result of `plus` on the entry
/// before it and the next amount.
pub open spec fn is_running_sum<A, F: Fn(A, A) -> A>(
    plus: F,
    start: A,
    amounts: Seq<A>,
    sums: Seq<A>,
) -> bool {
    &&& sums.len() == amounts.len() + 1
    &&& sums[0] == start
    &&& forall|i: int|
        #![trigger amounts[i]]
        0 <= i < amounts.len() ==> call_ensures(plus, (sums[i], amounts[i]), sums[i + 1])
}

/// `total` is the sum of `amounts` taken in order from `start` with `plus`.
pub open spec fn sums_to<A, F: Fn(A, A) -> A>(
    plus: F,
    start: A,
    amounts: Seq<A>,
    total: A,
) -> bool {
    exists|sums: Seq<A>| #[trigger]
        is_running_sum(plus, start, amounts, sums) && sums.last() == total
}

/// The amounts of all splits, in order.
pub open spec fn amounts<A>(splits: Seq<AirstackFarcasterCastMoxieEarningsSplit<A>>) -> Seq<A> {
    splits.map_values(|split: AirstackFarcasterCastMoxieEarningsSplit<A>| split.earnings_amount)
}

/// The amounts of the splits whose label names the given category, in order.
pub open spec fn amounts_of<A>(
    splits: Seq<AirstackFarcasterCastMoxieEarningsSplit<A>>,
    earner: EarnerType,
) -> Seq<A> {
    amounts(
        splits.filter(
            |split: AirstackFarcasterCastMoxieEarningsSplit<A>|
                earner_of(split.earner_type@) == Some(earner),
        ),
    )
}

impl<A> Earnings<A> {
    /// The bucket of a category.
    pub open spec fn bucket(self, earner: EarnerType) -> A {
        match earner {
            EarnerType::ChannelFans => self.channel_fans,
            EarnerType::Creator => self.creator,
            EarnerType::Network => self.network,
            EarnerType::CreatorFans => self.creator_fans,
        }
    }

    /// Every bucket and the total are `zero`.
    pub open spec fn all_at(self, zero: A) -> bool {
        &&& self.total == zero
        &&& forall|earner: EarnerType| #[trigger] self.bucket(earner) == zero
    }

    /// `next` is what these earnings become by one more split: the amount is
    /// added to the total in any case, and to the bucket that the label
    /// names, if it names one; the other buckets stay as they are.
    pub open spec fn extended_by<F: Fn(A, A) -> A>(
        self,
        split: AirstackFarcasterCastMoxieEarningsSplit<A>,
        plus: F,
        next: Self,
    ) -> bool {
        &&& call_ensures(plus, (self.total, split.earnings_amount), next.total)
        &&& forall|earner: EarnerType|
            if earner_of(split.earner_type@) == Some(earner) {
                call_ensures(
                    plus,
                    (self.bucket(earner), split.earnings_amount),
                    #[trigger] next.bucket(earner),
                )
            } else {
                next.bucket(earner) == self.bucket(earner)
            }
    }

    /// These earnings are what the splits add up to from `zero`: the total is
    /// the sum of every split's amount, whatever its label, and each bucket
    /// the sum of the amounts labelled with its category.
    pub open spec fn accumulates<F: Fn(A, A) -> A>(
        self,
        plus: F,
        zero: A,
        splits: Seq<AirstackFarcasterCastMoxieEarningsSplit<A>>,
    ) -> bool {
        &&& sums_to(plus, zero, amounts(splits), self.total)
        &&& forall|earner: EarnerType|
            sums_to(plus, zero, amounts_of(splits, earner), #[trigger] self.bucket(earner))
    }
}

/// The category that an upstream label names, if it names one.
pub fn classify(label: &str) -> (earner: Option<EarnerType>)
    ensures
        earner == earner_of(label@),
{
    if same_text(label, "CHANNEL_FANS") {
        Some(EarnerType::ChannelFans)
    } else if same_text(label, "CREATOR") {
        Some(EarnerType::Creator)
    } else if same_text(label, "NETWORK") {
        Some(EarnerType::Network)
    } else if same_text(label, "CREATOR_FANS") {
        Some(EarnerType::CreatorFans)
    } else {
        None
    }
}

impl<A: Copy> Earnings<A> {
    /// Earnings before any split: every bucket and the total at `zero`.
    pub fn new(zero: A) -> (earnings: Self)
        ensures
            earnings.all_at(zero),
    {
        Earnings {
            channel_fans: zero,
            creator: zero,
            network: zero,
            creator_fans: zero,
            total: zero,
        }
    }

    /// Adds one split: its amount goes to the bucket that its label names, if
    /// it names one, and to the total in any case.
    pub fn add<F: Fn(A, A) -> A>(
        &mut self,
        split: &AirstackFarcasterCastMoxieEarningsSplit<A>,
        plus: &F,
    )
        requires
            forall|a: A, b: A| call_requires(*plus, (a, b)),
        ensures
            old(self).extended_by(*split, *plus, *final(self)),
    {
        let amount = split.earnings_amount;
        match classify(split.earner_type.as_str()) {
            Some(EarnerType::ChannelFans) => {
                self.channel_fans = plus(self.channel_fans, amount);
            },
            Some(EarnerType::Creator) => {
                self.creator = plus(self.creator, amount);
            },
            Some(EarnerType::Network) => {
                self.network = plus(self.network, amount);
            },
            Some(EarnerType::CreatorFans) => {
                self.creator_fans = plus(self.creator_fans, amount);
            },
            None => {},
        }
        self.total = plus(self.total, amount);
    }
}

/// The sum of no amounts is where it starts.
proof fn lemma_sums_to_start<A, F: Fn(A, A) -> A>(plus: F, start: A, amounts: Seq<A>)
    requires
        amounts.len() == 0,
    ensures
        sums_to(plus, start, amounts, start),
{
    assert(is_running_sum(plus, start, amounts, seq![start]));
}

/// A sum goes on by one amount and one result of `plus`.
proof fn lemma_sums_to_push<A, F: Fn(A, A) -> A>(
    plus: F,
    start: A,
    amounts: Seq<A>,
    sum: A,
    amount: A,
    next: A,
)
    requires
        sums_to(plus, start, amounts, sum),
        call_ensures(plus, (sum, amount), next),
    ensures
        sums_to(plus, start, amounts.push(amount), next),
{
    let sums = choose|sums: Seq<A>| #[trigger]
        is_running_sum(plus, start, amounts, sums) && sums.last() == sum;
    let longer = amounts.push(amount);
    let further = sums.push(next);
    assert forall|i: int| #![trigger longer[i]] 0 <= i < longer.len() implies call_ensures(
        plus,
        (further[i], longer[i]),
        further[i + 1],
    ) by {
        if i < amounts.len() {
            assert(longer[i] == amounts[i]);
        }
    }
    assert(is_running_sum(plus, start, longer, further));
}

/// What one more split adds to the amounts, in all and by category.
proof fn lemma_amounts_step<A>(
    splits: Seq<AirstackFarcasterCastMoxieEarningsSplit<A>>,
    at: int,
    earner: EarnerType,
)
    requires
        0 <= at < splits.len(),
    ensures
        amounts(splits.take(at + 1)) == amounts(splits.take(at)).push(splits[at].earnings_amount),
        amounts_of(splits.take(at + 1), earner) == if earner_of(splits[at].earner_type@) == Some(
            earner,
        ) {
            amounts_of(splits.take(at), earner).push(splits[at].earnings_amount)
        } else {
            amounts_of(splits.take(at), earner)
        },
{
    let longer = splits.take(at + 1);
    let named = |split: AirstackFarcasterCastMoxieEarningsSplit<A>|
        earner_of(split.earner_type@) == Some(earner);
    assert(longer.drop_last() =~= splits.take(at));
    assert(longer.last() == splits[at]);
    assert(amounts(longer) =~= amounts(splits.take(at)).push(splits[at].earnings_amount));
    reveal_with_fuel(Seq::filter, 2);
    if named(splits[at]) {
        assert(longer.filter(named) == splits.take(at).filter(named).push(splits[at]));
        assert(amounts(splits.take(at).filter(named).push(splits[at])) =~= amounts(
            splits.take(at).filter(named),
        ).push(splits[at].earnings_amount));
    } else {
        assert(longer.filter(named) == splits.take(at).filter(named));
    }
}

/// Earnings that stand for some splits, extended by the next split, stand
/// for the splits up to and with that one.
proof fn lemma_accumulates_step<A, F: Fn(A, A) -> A>(
    before: Earnings<A>,
    after: Earnings<A>,
    plus: F,
    zero: A,
    splits: Seq<AirstackFarcasterCastMoxieEarningsSplit<A>>,
    at: int,
)
    requires
        0 <= at < splits.len(),
        before.accumulates(plus, zero, splits.take(at)),
        before.extended_by(splits[at], plus, after),
    ensures
        after.accumulates(plus, zero, splits.take(at + 1)),
{
    let amount = splits[at].earnings_amount;
    lemma_amounts_step(splits, at, EarnerType::Creator);
    lemma_sums_to_push(plus, zero, amounts(splits.take(at)), before.total, amount, after.total);
    assert forall|earner: EarnerType|
        sums_to(
            plus,
            zero,
            amounts_of(splits.take(at + 1), earner),
            #[trigger] after.bucket(earner),
        ) by {
        lemma_amounts_step(splits, at, earner);
        assert(sums_to(plus, zero, amounts_of(splits.take(at), earner), before.bucket(earner)));
        if earner_of(splits[at].earner_type@) == Some(earner) {
            lemma_sums_to_push(
                plus,
                zero,
                amounts_of(splits.take(at), earner),
                before.bucket(earner),
                amount,
                after.bucket(earner),
            );
        }
    }
}

/// Earnings at zero stand for no splits.
proof fn lemma_accumulates_nothing<A, F: Fn(A, A) -> A>(
    earnings: Earnings<A>,
    plus: F,
    zero: A,
    splits: Seq<AirstackFarcasterCastMoxieEarningsSplit<A>>,
)
    requires
        splits.len() == 0,
        earnings.all_at(zero),
    ensures
        earnings.accumulates(plus, zero, splits),
{
    lemma_sums_to_start(plus, zero, amounts(splits));
    assert forall|earner: EarnerType|
        sums_to(plus, zero, amounts_of(splits, earner), #[trigger] earnings.bucket(earner)) by {
        splits.lemma_filter_len(
            |split: AirstackFarcasterCastMoxieEarningsSplit<A>|
                earner_of(split.earner_type@) == Some(earner),
        );
        lemma_sums_to_start(plus, zero, amounts_of(splits, earner));
    }
}

/// The earnings that a record's splits add up to, from `zero` and with
/// `plus`. Without splits every bucket and the total are `zero`.
pub fn accumulate<A: Copy, F: Fn(A, A) -> A>(
    splits: &Vec<AirstackFarcasterCastMoxieEarningsSplit<A>>,
    zero: A,
    plus: &F,
) -> (earnings: Earnings<A>)
    requires
        forall|a: A, b: A| call_requires(*plus, (a, b)),
    ensures
        earnings.accumulates(*plus, zero, splits@),
        splits@.len() == 0 ==> earnings.all_at(zero),
{
    let mut earnings = Earnings::new(zero);
    let mut at: usize = 0;
    proof {
        lemma_accumulates_nothing(earnings, *plus, zero, splits@.take(0));
    }
    while at < splits.len()
        invariant
            at <= splits.len(),
            forall|a: A, b: A| call_requires(*plus, (a, b)),
            earnings.accumulates(*plus, zero, splits@.take(at as int)),
            at == 0 ==> earnings.all_at(zero),
        decreases splits.len() - at,
    {
        let ghost before = earnings;
        earnings.add(&splits[at], plus);
        proof {
            lemma_accumulates_step(before, earnings, *plus, zero, splits@, at as int);
        }
        at = at + 1;
    }
    proof {
        assert(splits@.take(at as int) =~= splits@);
    }
    earnings
}

/// The arithmetic sum of the amounts, each counted at its `value`.
pub open spec fn sum<A>(amounts: Seq<A>, value: spec_fn(A) -> int) -> int
    decreases amounts.len(),
{
    if amounts.len() == 0 {
        0
    } else {
        sum(amounts.drop_last(), value) + value(amounts.last())
    }
}

/// `plus` adds exactly, counted at `value`: the value of each of its results
/// is the sum of the values of its arguments.
pub open spec fn adds_exactly<A, F: Fn(A, A) -> A>(plus: F, value: spec_fn(A) -> int) -> bool {
    forall|a: A, b: A, r: A| #[trigger]
        call_ensures(plus, (a, b), r) ==> value(r) == value(a) + value(b)
}

/// Under an exact addition every partial sum of a run is the arithmetic sum
/// of the amounts before it.
proof fn lemma_running_sum_exact<A, F: Fn(A, A) -> A>(
    plus: F,
    value: spec_fn(A) -> int,
    start: A,
    amounts: Seq<A>,
    sums: Seq<A>,
    upto: int,
)
    requires
        adds_exactly(plus, value),
        is_running_sum(plus, start, amounts, sums),
        0 <= upto <= amounts.len(),
    ensures
        value(sums[upto]) == value(start) + sum(amounts.take(upto), value),
    decreases upto,
{
    if upto > 0 {
        lemma_running_sum_exact(plus, value, start, amounts, sums, upto - 1);
        assert(amounts.take(upto).drop_last() =~= amounts.take(upto - 1));
        assert(amounts.take(upto).last() == amounts[upto - 1]);
        assert(call_ensures(plus, (sums[upto - 1], amounts[upto - 1]), sums[upto - 1 + 1]));
    }
}

/// Under an exact addition, a sum taken with `plus` from a zero is the
/// arithmetic sum.
pub proof fn lemma_sums_to_exact<A, F: Fn(A, A) -> A>(
    plus: F,
    value: spec_fn(A) -> int,
    zero: A,
    amounts: Seq<A>,
    total: A,
)
    requires
        adds_exactly(plus, value),
        value(zero) == 0,
        sums_to(plus, zero, amounts, total),
    ensures
        value(total) == sum(amounts, value),
{
    let sums = choose|sums: Seq<A>| #[trigger]
        is_running_sum(plus, zero, amounts, sums) && sums.last() == total;
    lemma_running_sum_exact(plus, value, zero, amounts, sums, amounts.len() as int);
    assert(amounts.take(amounts.len() as int) =~= amounts);
}

/// The total of accumulated earnings is the arithmetic sum of the amounts of
/// all splits, whatever their labels, and each bucket is the arithmetic sum
/// of the amounts labelled with its category, wherever amounts are added
/// exactly from a zero.
pub proof fn lemma_total_is_sum_of_all_splits<A, F: Fn(A, A) -> A>(
    earnings: Earnings<A>,
    plus: F,
    value: spec_fn(A) -> int,
    zero: A,
    splits: Seq<AirstackFarcasterCastMoxieEarningsSplit<A>>,
)
    requires
        adds_exactly(plus, value),
        value(zero) == 0,
        earnings.accumulates(plus, zero, splits),
    ensures
        value(earnings.total) == sum(amounts(splits), value),
        forall|earner: EarnerType|
            value(#[trigger] earnings.bucket(earner)) == sum(amounts_of(splits, earner), value),
{
    lemma_sums_to_exact(plus, value, zero, amounts(splits), earnings.total);
    assert forall|earner: EarnerType|
        value(#[trigger] earnings.bucket(earner)) == sum(amounts_of(splits, earner), value) by {
        lemma_sums_to_exact(
            plus,
            value,
            zero,
            amounts_of(splits, earner),
            earnings.bucket(earner),
        );
    }
}

} // verus!
