//! Block rewards of a collator and of its delegators.

use vstd::prelude::*;

use crate::per_thing::{
    lemma_perquintill_from_rational_le_one, perquintill_from_rational,
    perquintill_from_rational_spec, PERQUINTILL_ACCURACY,
};

verus! {

/// A stake that an account holds with a collator.
pub struct Stake<A> {
    pub owner: A,
    pub amount: u128,
}

/// A collator candidate, as far as the reward computation reads it.
pub struct Candidate<A> {
    pub id: A,
    pub delegators: Vec<Stake<A>>,
}

/// A reward that is owed to an account.
pub struct Reward<A> {
    pub owner: A,
    pub amount: u128,
}

/// The reward split that a runtime configures for its collators and delegators.
/// Each reward is a function of its arguments, which the two spec functions name.
pub trait RewardRateConfigTrait {
    /// The collator's share of a block's issuance `issue_number`, where it has delegators.
    spec fn collator_reward(issue_number: u128) -> u128;

    /// A delegator's share of a block's issuance `issue_number`, given the parts per
    /// quintillion (`Perquintill`) of the collator's delegated stake that it holds.
    spec fn delegator_reward(issue_number: u128, staking_rate: u64) -> u128;

    /// Computes `collator_reward`.
    fn compute_collator_reward(issue_number: u128) -> (r: u128)
        ensures
            r == Self::collator_reward(issue_number),
    ;

    /// Computes `delegator_reward`.
    fn compute_delegator_reward(issue_number: u128, staking_rate: u64) -> (r: u128)
        ensures
            r == Self::delegator_reward(issue_number, staking_rate),
    ;
}

/// The collator's reward under the reward split of `T`: the whole issuance where the eligible
/// stake is zero, the configured collator share otherwise.
pub open spec fn collator_reward_amount<T: RewardRateConfigTrait, A>(
    delegators: Seq<Stake<A>>,
    min: u128,
    issue_number: u128,
) -> u128 {
    if delegator_sum(delegators, min) == 0 {
        issue_number
    } else {
        T::collator_reward(issue_number)
    }
}

/// The reward of the eligible delegator `d`, whose share of the eligible stake `sum` decides
/// its part of the issuance under the reward split of `T`.
pub open spec fn delegator_reward_of<T: RewardRateConfigTrait, A>(
    d: Stake<A>,
    sum: int,
    issue_number: u128,
) -> Reward<A> {
    Reward { owner: d.owner, amount: T::delegator_reward(issue_number, staking_rate(d.amount, sum)) }
}

/// The delegators' rewards under the reward split of `T`: one for each eligible delegator, in
/// their order.
pub open spec fn delegator_rewards<T: RewardRateConfigTrait, A>(
    delegators: Seq<Stake<A>>,
    min: u128,
    issue_number: u128,
) -> Seq<Reward<A>> {
    eligible(delegators, min).map_values(
        |d: Stake<A>| delegator_reward_of::<T, A>(d, delegator_sum(delegators, min), issue_number),
    )
}

/// The delegators whose stake reaches `min`, in their order.
pub open spec fn eligible<A>(s: Seq<Stake<A>>, min: u128) -> Seq<Stake<A>>
    decreases s.len(),
{
    if s.len() == 0 {
        Seq::empty()
    } else {
        let rest = eligible(s.drop_last(), min);
        if s.last().amount >= min {
            rest.push(s.last())
        } else {
            rest
        }
    }
}

/// The sum of the amounts of `s`.
pub open spec fn total_stake<A>(s: Seq<Stake<A>>) -> int
    decreases s.len(),
{
    if s.len() == 0 {
        0
    } else {
        total_stake(s.drop_last()) + s.last().amount
    }
}

/// The stake delegated to a collator by delegators that reach the minimum.
pub open spec fn delegator_sum<A>(s: Seq<Stake<A>>, min: u128) -> int {
    total_stake(eligible(s, min))
}

/// The share (in `Perquintill` parts) of the eligible stake `sum` that `amount` makes up:
/// `Perquintill::from_rational(amount, sum)`, rounded down, and one whole where the fraction is
/// undefined or above one.
pub open spec fn staking_rate(amount: u128, sum: int) -> u64 {
    perquintill_from_rational_spec(amount as int, sum)
}

/// The sum of the staking rates of the stakes in `s`, relative to `sum`.
pub open spec fn total_rate<A>(s: Seq<Stake<A>>, sum: int) -> int
    decreases s.len(),
{
    if s.len() == 0 {
        0
    } else {
        total_rate(s.drop_last(), sum) + staking_rate(s.last().amount, sum)
    }
}

proof fn lemma_total_stake_nonneg<A>(s: Seq<Stake<A>>)
    ensures
        total_stake(s) >= 0,
    decreases s.len(),
{
    if s.len() > 0 {
        lemma_total_stake_nonneg(s.drop_last());
    }
}

/// Each stake of `s` is at most the total of `s`.
proof fn lemma_stake_le_total<A>(s: Seq<Stake<A>>, k: int)
    requires
        0 <= k < s.len(),
    ensures
        s[k].amount <= total_stake(s),
    decreases s.len(),
{
    lemma_total_stake_nonneg(s.drop_last());
    if k < s.len() - 1 {
        lemma_stake_le_total(s.drop_last(), k);
    }
}

/// One more delegator extends the eligible prefix by itself where it reaches `min`.
proof fn lemma_eligible_step<A>(s: Seq<Stake<A>>, min: u128, i: int)
    requires
        0 <= i < s.len(),
    ensures
        eligible(s.take(i + 1), min) == (if s[i].amount >= min {
            eligible(s.take(i), min).push(s[i])
        } else {
            eligible(s.take(i), min)
        }),
        delegator_sum(s.take(i + 1), min) == delegator_sum(s.take(i), min) + (if s[i].amount
            >= min {
            s[i].amount as int
        } else {
            0int
        }),
{
    let t = s.take(i + 1);
    assert(t.drop_last() =~= s.take(i));
    assert(t.last() == s[i]);
    let e = eligible(s.take(i), min);
    if s[i].amount >= min {
        assert(e.push(s[i]).drop_last() =~= e);
    }
}

/// The eligible stake of a prefix is at most that of the whole sequence.
proof fn lemma_prefix_sum_le<A>(s: Seq<Stake<A>>, min: u128, i: int)
    requires
        0 <= i <= s.len(),
    ensures
        delegator_sum(s.take(i), min) <= delegator_sum(s, min),
    decreases s.len() - i,
{
    if i < s.len() {
        lemma_prefix_sum_le(s, min, i + 1);
        lemma_eligible_step(s, min, i);
    } else {
        assert(s.take(i) =~= s);
    }
}

/// Every stake in `eligible(s, min)` reaches `min`.
proof fn lemma_eligible_reach_min<A>(s: Seq<Stake<A>>, min: u128, k: int)
    requires
        0 <= k < eligible(s, min).len(),
    ensures
        eligible(s, min)[k].amount >= min,
    decreases s.len(),
{
    if s.len() > 0 {
        let rest = eligible(s.drop_last(), min);
        if k < rest.len() {
            lemma_eligible_reach_min(s.drop_last(), min, k);
        }
    }
}

proof fn lemma_eligible_len<A>(s: Seq<Stake<A>>, min: u128)
    ensures
        eligible(s, min).len() <= s.len(),
    decreases s.len(),
{
    if s.len() > 0 {
        lemma_eligible_len(s.drop_last(), min);
    }
}

/// The sum of `floor(10^18 * a / q)` over stakes `a <= q` is at most `10^18 * sum(a) / q`.
proof fn lemma_total_rate_scaled<A>(s: Seq<Stake<A>>, q: int)
    requires
        0 < q <= u128::MAX,
        forall|k: int| 0 <= k < s.len() ==> #[trigger] s[k].amount <= q,
    ensures
        total_rate(s, q) * q <= (PERQUINTILL_ACCURACY as int) * total_stake(s),
    decreases s.len(),
{
    if s.len() > 0 {
        let t = s.drop_last();
        assert forall|k: int| 0 <= k < t.len() implies #[trigger] t[k].amount <= q by {
            assert(t[k] == s[k]);
        }
        lemma_total_rate_scaled(t, q);
        let a = s.last().amount as int;
        assert(s.last() == s[s.len() - 1]);
        let big = PERQUINTILL_ACCURACY as int;
        let r = staking_rate(s.last().amount, q) as int;
        lemma_perquintill_from_rational_le_one(a, q);
        assert(r == big * a / q);
        assert(r * q <= big * a) by (nonlinear_arith)
            requires
                r == big * a / q,
                q > 0,
                big * a >= 0,
        {
            vstd::arithmetic::div_mod::lemma_fundamental_div_mod(big * a, q);
            vstd::arithmetic::div_mod::lemma_mod_pos_bound(big * a, q);
        }
        let rt = total_rate(t, q);
        let st = total_stake(t);
        assert((rt + r) * q == rt * q + r * q) by (nonlinear_arith);
        assert(big * (st + a) == big * st + big * a) by (nonlinear_arith);
    }
}

/// Law: the staking rates handed to the delegator rewards of one block add up to at most
/// one whole `Perquintill`, so the delegators are never promised more than the whole.
pub proof fn lemma_staking_rates_at_most_one<A>(delegators: Seq<Stake<A>>, min: u128)
    requires
        0 < delegator_sum(delegators, min) <= u128::MAX,
    ensures
        total_rate(eligible(delegators, min), delegator_sum(delegators, min))
            <= PERQUINTILL_ACCURACY,
{
    let e = eligible(delegators, min);
    let q = delegator_sum(delegators, min);
    assert forall|k: int| 0 <= k < e.len() implies #[trigger] e[k].amount <= q by {
        lemma_stake_le_total(e, k);
    }
    lemma_total_rate_scaled(e, q);
    let big = PERQUINTILL_ACCURACY as int;
    let rt = total_rate(e, q);
    assert(rt <= big) by (nonlinear_arith)
        requires
            rt * q <= big * q,
            q > 0,
    ;
}

/// Law: with a positive minimum stake, a collator without eligible stake has no delegator
/// that reaches the minimum, so when it is paid the whole issuance no delegator is paid.
pub proof fn lemma_no_eligible_stake_no_delegator<A>(delegators: Seq<Stake<A>>, min: u128)
    requires
        min > 0,
        delegator_sum(delegators, min) == 0,
    ensures
        eligible(delegators, min).len() == 0,
{
    let e = eligible(delegators, min);
    if e.len() > 0 {
        lemma_eligible_reach_min(delegators, min, 0);
        lemma_stake_le_total(e, 0);
    }
}

/// Adds up the stake of the delegators that reach `min`.
fn eligible_stake<A: Copy>(delegators: &Vec<Stake<A>>, min: u128) -> (sum: u128)
    requires
        delegator_sum(delegators@, min) <= u128::MAX,
    ensures
        sum == delegator_sum(delegators@, min),
{
    let n = delegators.len();
    let mut sum: u128 = 0;
    assert(delegators@.take(0) =~= Seq::<Stake<A>>::empty());
    for i in 0..n
        invariant
            n == delegators@.len(),
            delegator_sum(delegators@, min) <= u128::MAX,
            sum == delegator_sum(delegators@.take(i as int), min),
    {
        proof {
            lemma_eligible_step(delegators@, min, i as int);
            lemma_prefix_sum_le(delegators@, min, i + 1);
        }
        if delegators[i].amount >= min {
            sum = sum + delegators[i].amount;
        }
    }
    assert(delegators@.take(n as int) =~= delegators@);
    sum
}

/// The reward of a collator for one block that issues `issue_number`: the whole issuance
/// where no delegator reaches `min_delegator_stake` with a positive sum, otherwise what
/// `compute_collator_reward` makes of it. Each weight is one unit of reference time.
pub fn collator_reward_with<A: Copy, F: Fn(u128) -> u128>(
    stake: &Candidate<A>,
    min_delegator_stake: u128,
    issue_number: u128,
    compute_collator_reward: F,
) -> (res: (u64, u64, Reward<A>))
    requires
        delegator_sum(stake.delegators@, min_delegator_stake) <= u128::MAX,
        call_requires(compute_collator_reward, (issue_number,)),
    ensures
        res.0 == 1,
        res.1 == 1,
        res.2.owner == stake.id,
        delegator_sum(stake.delegators@, min_delegator_stake) == 0 ==> res.2.amount
            == issue_number,
        delegator_sum(stake.delegators@, min_delegator_stake) != 0 ==> call_ensures(
            compute_collator_reward,
            (issue_number,),
            res.2.amount,
        ),
{
    let delegator_sum = eligible_stake(&stake.delegators, min_delegator_stake);
    if delegator_sum == 0 {
        (1, 1, Reward { owner: stake.id, amount: issue_number })
    } else {
        let collator_reward = compute_collator_reward(issue_number);
        (1, 1, Reward { owner: stake.id, amount: collator_reward })
    }
}

/// The rewards of a collator's delegators for one block that issues `issue_number`: one
/// reward for each delegator that reaches `min_delegator_stake`, in their order, worth what
/// `compute_delegator_reward` makes of the issuance and of that delegator's share of the
/// eligible stake. The weights are five units and one unit per reward.
pub fn delegator_rewards_with<A: Copy, F: Fn(u128, u64) -> u128>(
    stake: &Candidate<A>,
    min_delegator_stake: u128,
    issue_number: u128,
    compute_delegator_reward: F,
) -> (res: (u64, u64, Vec<Reward<A>>))
    requires
        delegator_sum(stake.delegators@, min_delegator_stake) <= u128::MAX,
        forall|rate: u64| call_requires(compute_delegator_reward, (issue_number, rate)),
    ensures
        res.0 == 5,
        res.1 == res.2.len(),
        res.2.len() == eligible(stake.delegators@, min_delegator_stake).len(),
        res.2.len() <= stake.delegators.len(),
        forall|k: int|
            0 <= k < res.2.len() ==> #[trigger] res.2[k].owner == eligible(
                stake.delegators@,
                min_delegator_stake,
            )[k].owner,
        forall|k: int|
            0 <= k < res.2.len() ==> call_ensures(
                compute_delegator_reward,
                (
                    issue_number,
                    staking_rate(
                        eligible(stake.delegators@, min_delegator_stake)[k].amount,
                        delegator_sum(stake.delegators@, min_delegator_stake),
                    ),
                ),
                #[trigger] res.2[k].amount,
            ),
{
    let ghost s = stake.delegators@;
    let min = min_delegator_stake;
    let delegator_sum = eligible_stake(&stake.delegators, min);
    let n = stake.delegators.len();
    let mut inner: Vec<Reward<A>> = Vec::new();
    assert(s.take(0) =~= Seq::<Stake<A>>::empty());
    for i in 0..n
        invariant
            n == s.len(),
            s == stake.delegators@,
            delegator_sum == crate::reward::delegator_sum(s, min),
            forall|rate: u64| call_requires(compute_delegator_reward, (issue_number, rate)),
            inner.len() == eligible(s.take(i as int), min).len(),
            forall|k: int|
                0 <= k < inner.len() ==> #[trigger] inner[k].owner == eligible(
                    s.take(i as int),
                    min,
                )[k].owner,
            forall|k: int|
                0 <= k < inner.len() ==> call_ensures(
                    compute_delegator_reward,
                    (
                        issue_number,
                        staking_rate(eligible(s.take(i as int), min)[k].amount, delegator_sum as int),
                    ),
                    #[trigger] inner[k].amount,
                ),
    {
        proof {
            lemma_eligible_step(s, min, i as int);
        }
        let d = &stake.delegators[i];
        if d.amount >= min {
            let rate = perquintill_from_rational(d.amount, delegator_sum);
            let amount = compute_delegator_reward(issue_number, rate);
            inner.push(Reward { owner: d.owner, amount });
        }
    }
    assert(s.take(n as int) =~= s);
    proof {
        lemma_eligible_len(s, min);
    }
    let len = inner.len() as u64;
    (5, len, inner)
}

/// The default block-reward calculator, which takes its reward split from `T`.
pub struct DefaultRewardCalculator<T> {
    pub _phantom: core::marker::PhantomData<T>,
}

impl<T: RewardRateConfigTrait> DefaultRewardCalculator<T> {
    /// The collator's block reward: the whole issuance where no delegator reaches the
    /// minimum stake with a positive sum, otherwise `T`'s collator share.
    pub fn collator_reward_per_block<A: Copy>(
        stake: &Candidate<A>,
        min_delegator_stake: u128,
        issue_number: u128,
    ) -> (res: (u64, u64, Reward<A>))
        requires
            delegator_sum(stake.delegators@, min_delegator_stake) <= u128::MAX,
        ensures
            res.0 == 1,
            res.1 == 1,
            res.2.owner == stake.id,
            res.2.amount == collator_reward_amount::<T, A>(
                stake.delegators@,
                min_delegator_stake,
                issue_number,
            ),
    {
        collator_reward_with(stake, min_delegator_stake, issue_number, T::compute_collator_reward)
    }

    /// The delegators' block rewards: one for each delegator that reaches the minimum stake,
    /// in their order, computed by `T` from the issuance and the delegator's share of the
    /// eligible stake.
    pub fn delegator_reward_per_block<A: Copy>(
        stake: &Candidate<A>,
        min_delegator_stake: u128,
        issue_number: u128,
    ) -> (res: (u64, u64, Vec<Reward<A>>))
        requires
            delegator_sum(stake.delegators@, min_delegator_stake) <= u128::MAX,
        ensures
            res.0 == 5,
            res.1 == res.2.len(),
            res.2.len() <= stake.delegators.len(),
            res.2@ == delegator_rewards::<T, A>(
                stake.delegators@,
                min_delegator_stake,
                issue_number,
            ),
    {
        let res = delegator_rewards_with(
            stake,
            min_delegator_stake,
            issue_number,
            T::compute_delegator_reward,
        );
        let ghost e = eligible(stake.delegators@, min_delegator_stake);
        let ghost sum = delegator_sum(stake.delegators@, min_delegator_stake);
        assert forall|k: int| 0 <= k < res.2.len() implies #[trigger] res.2@[k]
            == delegator_reward_of::<T, A>(e[k], sum, issue_number) by {
            assert(res.2[k].owner == e[k].owner);
            assert(call_ensures(
                T::compute_delegator_reward,
                (issue_number, staking_rate(e[k].amount, sum)),
                res.2[k].amount,
            ));
        }
        assert(res.2@ =~= delegator_rewards::<T, A>(
            stake.delegators@,
            min_delegator_stake,
            issue_number,
        ));
        res
    }
}

/// Law: the collator's reward depends on its delegators only through whether any eligible
/// stake exists: delegators that do not reach the minimum, and the sizes of eligible stakes,
/// leave it unchanged as long as that stays so.
pub proof fn lemma_collator_reward_ignores_delegators<T: RewardRateConfigTrait, A>(
    delegators: Seq<Stake<A>>,
    other: Seq<Stake<A>>,
    min: u128,
    issue_number: u128,
)
    requires
        (delegator_sum(delegators, min) == 0) == (delegator_sum(other, min) == 0),
    ensures
        collator_reward_amount::<T, A>(delegators, min, issue_number)
            == collator_reward_amount::<T, A>(other, min, issue_number),
{
}

/// The last element of `s` occurs in `t`, a reordering of `s`; without the two, what is left
/// of each is a reordering of the other.
proof fn lemma_permutation_last<T>(s: Seq<T>, t: Seq<T>) -> (k: int)
    requires
        s.to_multiset() == t.to_multiset(),
        s.len() > 0,
    ensures
        0 <= k < t.len(),
        t[k] == s.last(),
        s.drop_last().to_multiset() == t.remove(k).to_multiset(),
{
    broadcast use {
        vstd::seq_lib::group_to_multiset_ensures,
        vstd::multiset::group_multiset_axioms,
    };

    let x = s.last();
    assert(s =~= s.drop_last().push(x));
    assert(s.to_multiset() == s.drop_last().to_multiset().insert(x));
    assert(s.to_multiset().count(x) > 0);
    assert(t.contains(x));
    let k = choose|k: int| 0 <= k < t.len() && t[k] == x;
    assert(t.remove(k).to_multiset() == t.to_multiset().remove(x));
    assert(s.drop_last().to_multiset() =~= s.drop_last().to_multiset().insert(x).remove(x));
    k
}

/// Removing a stake takes its amount off the total.
proof fn lemma_total_stake_remove<A>(t: Seq<Stake<A>>, k: int)
    requires
        0 <= k < t.len(),
    ensures
        total_stake(t) == total_stake(t.remove(k)) + t[k].amount,
    decreases t.len(),
{
    if k == t.len() - 1 {
        assert(t.remove(k) =~= t.drop_last());
    } else {
        lemma_total_stake_remove(t.drop_last(), k);
        assert(t.remove(k).drop_last() =~= t.drop_last().remove(k));
        assert(t.remove(k).last() == t.last());
    }
}

/// Reordering stakes leaves their total as it is.
proof fn lemma_total_stake_permutation<A>(s: Seq<Stake<A>>, t: Seq<Stake<A>>)
    requires
        s.to_multiset() == t.to_multiset(),
    ensures
        total_stake(s) == total_stake(t),
    decreases s.len(),
{
    broadcast use vstd::seq_lib::group_to_multiset_ensures;

    if s.len() == 0 {
        assert(t.len() == t.to_multiset().len());
    } else {
        let k = lemma_permutation_last(s, t);
        lemma_total_stake_permutation(s.drop_last(), t.remove(k));
        lemma_total_stake_remove(t, k);
    }
}

/// Removing a stake takes it out of the eligible ones where it was eligible.
proof fn lemma_eligible_remove<A>(t: Seq<Stake<A>>, min: u128, k: int)
    requires
        0 <= k < t.len(),
    ensures
        eligible(t, min).to_multiset() == if t[k].amount >= min {
            eligible(t.remove(k), min).to_multiset().insert(t[k])
        } else {
            eligible(t.remove(k), min).to_multiset()
        },
    decreases t.len(),
{
    broadcast use {
        vstd::seq_lib::group_to_multiset_ensures,
        vstd::multiset::group_multiset_axioms,
    };

    if k == t.len() - 1 {
        assert(t.remove(k) =~= t.drop_last());
    } else {
        let td = t.drop_last();
        let x = t.last();
        lemma_eligible_remove(td, min, k);
        assert(t.remove(k).drop_last() =~= td.remove(k));
        assert(t.remove(k).last() == x);
        let m = eligible(td.remove(k), min).to_multiset();
        if x.amount >= min && t[k].amount >= min {
            assert(m.insert(t[k]).insert(x) =~= m.insert(x).insert(t[k]));
        }
    }
}

/// Reordering stakes reorders the eligible ones.
proof fn lemma_eligible_permutation<A>(s: Seq<Stake<A>>, t: Seq<Stake<A>>, min: u128)
    requires
        s.to_multiset() == t.to_multiset(),
    ensures
        eligible(s, min).to_multiset() == eligible(t, min).to_multiset(),
    decreases s.len(),
{
    broadcast use vstd::seq_lib::group_to_multiset_ensures;

    if s.len() == 0 {
        assert(t.len() == t.to_multiset().len());
        assert(eligible(t, min) =~= Seq::<Stake<A>>::empty());
    } else {
        let k = lemma_permutation_last(s, t);
        lemma_eligible_permutation(s.drop_last(), t.remove(k), min);
        lemma_eligible_remove(t, min, k);
    }
}

/// Reordering a sequence reorders its image under `g`.
proof fn lemma_map_permutation<T, U>(s: Seq<T>, t: Seq<T>, g: spec_fn(T) -> U)
    requires
        s.to_multiset() == t.to_multiset(),
    ensures
        s.map_values(g).to_multiset() == t.map_values(g).to_multiset(),
    decreases s.len(),
{
    broadcast use {
        vstd::seq_lib::group_to_multiset_ensures,
        vstd::multiset::group_multiset_axioms,
    };

    if s.len() == 0 {
        assert(t.len() == t.to_multiset().len());
        assert(s.map_values(g) =~= t.map_values(g));
    } else {
        let k = lemma_permutation_last(s, t);
        lemma_map_permutation(s.drop_last(), t.remove(k), g);
        let x = s.last();
        assert(s.map_values(g) =~= s.drop_last().map_values(g).push(g(x)));
        assert(t.map_values(g).remove(k) =~= t.remove(k).map_values(g));
        let mt = t.map_values(g).to_multiset();
        assert(t.map_values(g)[k] == g(x));
        assert(mt.count(g(x)) > 0);
        assert(mt =~= mt.remove(g(x)).insert(g(x)));
    }
}

/// Law: reordering a collator's delegators reorders their rewards. The eligible stake is the
/// same, and every eligible delegator gets the same reward as before (the calculator hands them
/// out in the new order).
pub proof fn lemma_delegator_rewards_permutation<T: RewardRateConfigTrait, A>(
    delegators: Seq<Stake<A>>,
    reordered: Seq<Stake<A>>,
    min: u128,
    issue_number: u128,
)
    requires
        delegators.to_multiset() == reordered.to_multiset(),
    ensures
        delegator_sum(delegators, min) == delegator_sum(reordered, min),
        delegator_rewards::<T, A>(delegators, min, issue_number).len() == delegator_rewards::<
            T,
            A,
        >(reordered, min, issue_number).len(),
        delegator_rewards::<T, A>(delegators, min, issue_number).to_multiset()
            == delegator_rewards::<T, A>(reordered, min, issue_number).to_multiset(),
{
    broadcast use vstd::seq_lib::group_to_multiset_ensures;

    let e = eligible(delegators, min);
    let e2 = eligible(reordered, min);
    lemma_eligible_permutation(delegators, reordered, min);
    lemma_total_stake_permutation(e, e2);
    let sum = delegator_sum(delegators, min);
    let g = |d: Stake<A>| delegator_reward_of::<T, A>(d, sum, issue_number);
    lemma_map_permutation(e, e2, g);
    assert(delegator_rewards::<T, A>(delegators, min, issue_number) =~= e.map_values(g));
    assert(delegator_rewards::<T, A>(reordered, min, issue_number) =~= e2.map_values(g));
    assert(e.len() == e.to_multiset().len());
    assert(e2.len() == e2.to_multiset().len());
}

/// Law: each delegator reward is `T`'s delegator reward of the issuance that was passed in,
/// unchanged, at the delegator's share of the eligible stake: its stake times `10^18` divided
/// by the eligible stake, rounded down, or one whole where there is no eligible stake. The
/// rewards go to the eligible delegators, one each, in their order.
pub proof fn lemma_delegator_reward_is_share_of_issuance<T: RewardRateConfigTrait, A>(
    delegators: Seq<Stake<A>>,
    min: u128,
    issue_number: u128,
)
    ensures
        delegator_rewards::<T, A>(delegators, min, issue_number).len() == eligible(
            delegators,
            min,
        ).len(),
        forall|k: int|
            0 <= k < eligible(delegators, min).len() ==> {
                let d = #[trigger] eligible(delegators, min)[k];
                let sum = delegator_sum(delegators, min);
                let r = delegator_rewards::<T, A>(delegators, min, issue_number)[k];
                &&& r.owner == d.owner
                &&& r.amount == T::delegator_reward(
                    issue_number,
                    if sum == 0 {
                        1_000_000_000_000_000_000u64
                    } else {
                        (1_000_000_000_000_000_000int * (d.amount as int) / sum) as u64
                    },
                )
            },
{
    let e = eligible(delegators, min);
    let sum = delegator_sum(delegators, min);
    assert forall|k: int| 0 <= k < e.len() implies {
        let d = #[trigger] e[k];
        let r = delegator_rewards::<T, A>(delegators, min, issue_number)[k];
        &&& r.owner == d.owner
        &&& r.amount == T::delegator_reward(
            issue_number,
            if sum == 0 {
                1_000_000_000_000_000_000u64
            } else {
                (1_000_000_000_000_000_000int * (d.amount as int) / sum) as u64
            },
        )
    } by {
        lemma_stake_le_total(e, k);
    }
}

/// All eligible stake is zero where no delegator reaches the minimum with a positive stake.
proof fn lemma_no_positive_eligible_sum_zero<A>(s: Seq<Stake<A>>, min: u128)
    requires
        forall|k: int| 0 <= k < s.len() ==> #[trigger] s[k].amount < min || s[k].amount == 0,
    ensures
        delegator_sum(s, min) == 0,
    decreases s.len(),
{
    if s.len() > 0 {
        let t = s.drop_last();
        assert forall|k: int| 0 <= k < t.len() implies #[trigger] t[k].amount < min || t[k].amount
            == 0 by {
            assert(t[k] == s[k]);
        }
        lemma_no_positive_eligible_sum_zero(t, min);
        assert(s.last() == s[s.len() - 1]);
        if s.last().amount >= min {
            assert(eligible(t, min).push(s.last()).drop_last() =~= eligible(t, min));
        }
    }
}

/// The eligible stake is positive where some delegator reaches the minimum with a positive
/// stake.
proof fn lemma_positive_eligible_sum<A>(s: Seq<Stake<A>>, min: u128, k: int)
    requires
        0 <= k < s.len(),
        s[k].amount >= min,
        s[k].amount > 0,
    ensures
        delegator_sum(s, min) > 0,
    decreases s.len(),
{
    let t = s.drop_last();
    lemma_total_stake_nonneg(eligible(t, min));
    assert(s.last() == s[s.len() - 1]);
    if s.last().amount >= min {
        assert(eligible(t, min).push(s.last()).drop_last() =~= eligible(t, min));
    }
    if k < s.len() - 1 {
        assert(t[k] == s[k]);
        lemma_positive_eligible_sum(t, min, k);
    }
}

/// Law: the collator is paid the whole issuance that was passed in where no delegator reaches
/// the minimum stake with a positive stake, and `T`'s collator reward of that same issuance
/// where one does.
pub proof fn lemma_collator_reward_by_stake<T: RewardRateConfigTrait, A>(
    delegators: Seq<Stake<A>>,
    min: u128,
    issue_number: u128,
)
    ensures
        (forall|k: int|
            0 <= k < delegators.len() ==> #[trigger] delegators[k].amount < min
                || delegators[k].amount == 0) ==> collator_reward_amount::<T, A>(
            delegators,
            min,
            issue_number,
        ) == issue_number,
        (exists|k: int|
            0 <= k < delegators.len() && #[trigger] delegators[k].amount >= min
                && delegators[k].amount > 0) ==> collator_reward_amount::<T, A>(
            delegators,
            min,
            issue_number,
        ) == T::collator_reward(issue_number),
{
    if forall|k: int|
        0 <= k < delegators.len() ==> #[trigger] delegators[k].amount < min
            || delegators[k].amount == 0 {
        lemma_no_positive_eligible_sum_zero(delegators, min);
    }
    if exists|k: int|
        0 <= k < delegators.len() && #[trigger] delegators[k].amount >= min
            && delegators[k].amount > 0 {
        let k = choose|k: int|
            0 <= k < delegators.len() && #[trigger] delegators[k].amount >= min
                && delegators[k].amount > 0;
        lemma_positive_eligible_sum(delegators, min, k);
    }
}

/// Law: the eligible delegators are exactly those that reach the minimum stake, in their order
/// (`Seq::filter` keeps the elements that satisfy a predicate, in order).
pub proof fn lemma_eligible_is_filter<A>(delegators: Seq<Stake<A>>, min: u128)
    ensures
        eligible(delegators, min) == delegators.filter(|d: Stake<A>| d.amount >= min),
    decreases delegators.len(),
{
    reveal(Seq::filter);
    if delegators.len() > 0 {
        lemma_eligible_is_filter(delegators.drop_last(), min);
    }
}

/// Law: the total of some stakes is the sum of their amounts, added up from the first
/// (`Seq::fold_left`).
pub proof fn lemma_total_stake_is_sum<A>(s: Seq<Stake<A>>)
    ensures
        total_stake(s) == s.fold_left(0int, |acc: int, d: Stake<A>| acc + d.amount),
    decreases s.len(),
{
    if s.len() > 0 {
        lemma_total_stake_is_sum(s.drop_last());
    }
}

} // verus!
