//! The weighted choice of what an idle pet does on its own.

use vstd::prelude::*;
use crate::pet::{PetState, PetView};

verus! {

/// A choice with its name's characters.
pub open spec fn choice_view(c: (&str, u64)) -> (Seq<char>, u64) {
    (c.0@, c.1)
}

/// The choices of a list, by their names' characters.
pub open spec fn choices_view(cs: Seq<(&str, u64)>) -> Seq<(Seq<char>, u64)> {
    cs.map_values(|c: (&str, u64)| choice_view(c))
}

/// What an idle pet may do on its own, with the weight of each choice.
pub open spec fn auto_choices_spec() -> Seq<(Seq<char>, u64)> {
    seq![
        ("think"@, 4u64),
        ("wave"@, 3u64),
        ("cheer"@, 3u64),
        ("sit"@, 3u64),
        ("sweep"@, 2u64),
        ("pout"@, 2u64),
        ("surprise"@, 2u64),
        ("walk"@, 3u64),
        ("half_right"@, 1u64),
        ("welcome_agi"@, 1u64),
    ]
}

/// The first `n` choices that the pet has frames for, in order.
pub open spec fn eligible_prefix(choices: Seq<(Seq<char>, u64)>, pet: PetView, n: nat) -> Seq<
    (Seq<char>, u64),
>
    decreases n,
{
    if n == 0 {
        Seq::empty()
    } else {
        let k = (n - 1) as nat;
        let prev = eligible_prefix(choices, pet, k);
        if pet.has_frames(choices[k as int].0) {
            prev.push(choices[k as int])
        } else {
            prev
        }
    }
}

/// The choices of an idle pet that it has frames for, in order.
pub open spec fn eligible_choices(pet: PetView) -> Seq<(Seq<char>, u64)> {
    eligible_prefix(auto_choices_spec(), pet, auto_choices_spec().len())
}

/// The sum of the weights of `choices`.
pub open spec fn total_weight(choices: Seq<(Seq<char>, u64)>) -> nat
    decreases choices.len(),
{
    if choices.len() == 0 {
        0
    } else {
        choices[0].1 as nat + total_weight(choices.drop_first())
    }
}

/// The position picked by `pick`: the first choice whose weight, added to the
/// weights before it, exceeds `pick`.
pub open spec fn picked(choices: Seq<(Seq<char>, u64)>, pick: int) -> int
    decreases choices.len(),
{
    if choices.len() == 0 || pick < choices[0].1 {
        0
    } else {
        1 + picked(choices.drop_first(), pick - choices[0].1)
    }
}

/// The sum of the weights of the choices before position `i`.
pub open spec fn weight_before(choices: Seq<(Seq<char>, u64)>, i: int) -> nat {
    total_weight(choices.subrange(0, i))
}

proof fn lemma_total_weight_split(choices: Seq<(Seq<char>, u64)>, i: int)
    requires
        0 <= i <= choices.len(),
    ensures
        total_weight(choices) == total_weight(choices.subrange(0, i)) + total_weight(
            choices.subrange(i, choices.len() as int),
        ),
    decreases i,
{
    if i == 0 {
        assert(choices.subrange(0, 0) =~= Seq::<(Seq<char>, u64)>::empty());
        assert(choices.subrange(0, choices.len() as int) =~= choices);
    } else {
        let t = choices.drop_first();
        lemma_total_weight_split(t, i - 1);
        assert(choices.subrange(0, i).drop_first() =~= t.subrange(0, i - 1));
        assert(t.subrange(i - 1, t.len() as int) =~= choices.subrange(i, choices.len() as int));
    }
}

/// A pick below the total weight picks a position of the list, one whose weight
/// band holds the pick: the weights before it sum to at most the pick, and with
/// its own weight to more than the pick. So each choice is picked by exactly as
/// many picks as its weight.
pub proof fn lemma_picked_in_band(choices: Seq<(Seq<char>, u64)>, pick: int)
    requires
        0 <= pick < total_weight(choices),
    ensures
        0 <= picked(choices, pick) < choices.len(),
        weight_before(choices, picked(choices, pick)) <= pick,
        pick < weight_before(choices, picked(choices, pick)) + choices[picked(choices, pick)].1,
    decreases choices.len(),
{
    if pick < choices[0].1 {
        assert(choices.subrange(0, 0) =~= Seq::<(Seq<char>, u64)>::empty());
    } else {
        let t = choices.drop_first();
        lemma_picked_in_band(t, pick - choices[0].1);
        let j = picked(t, pick - choices[0].1);
        assert(choices.subrange(0, j + 1).drop_first() =~= t.subrange(0, j));
        assert(choices.subrange(0, j + 1)[0] == choices[0]);
    }
}

proof fn lemma_weight_before_next(choices: Seq<(Seq<char>, u64)>, i: int)
    requires
        0 <= i < choices.len(),
    ensures
        weight_before(choices, i + 1) == weight_before(choices, i) + choices[i].1,
{
    let head = choices.subrange(0, i + 1);
    lemma_total_weight_split(head, i);
    assert(head.subrange(0, i) =~= choices.subrange(0, i));
    assert(head.subrange(i, i + 1) =~= seq![choices[i]]);
    assert(seq![choices[i]].drop_first() =~= Seq::<(Seq<char>, u64)>::empty());
    assert(total_weight(Seq::<(Seq<char>, u64)>::empty()) == 0);
    assert(total_weight(seq![choices[i]]) == choices[i].1);
}

proof fn lemma_weight_before_monotone(choices: Seq<(Seq<char>, u64)>, i: int, j: int)
    requires
        0 <= i <= j <= choices.len(),
    ensures
        weight_before(choices, i) <= weight_before(choices, j),
    decreases j - i,
{
    if i < j {
        lemma_weight_before_monotone(choices, i, j - 1);
        lemma_weight_before_next(choices, j - 1);
    }
}

/// Each choice owns exactly the picks of its weight band: a pick picks the choice
/// at position `k` if and only if it lies between the weights before `k` and those
/// weights plus `k`'s own. So a pick drawn uniformly below the total weight takes
/// each choice with a chance of its weight over the total, and every choice of
/// positive weight can be taken.
pub proof fn lemma_each_choice_owns_its_band(choices: Seq<(Seq<char>, u64)>, k: int, pick: int)
    requires
        0 <= k < choices.len(),
    ensures
        (weight_before(choices, k) <= pick < weight_before(choices, k) + choices[k].1) <==> (0 <= pick
            < total_weight(choices) && picked(choices, pick) == k),
{
    lemma_weight_before_next(choices, k);
    lemma_weight_before_monotone(choices, k + 1, choices.len() as int);
    assert(choices.subrange(0, choices.len() as int) =~= choices);
    if 0 <= pick < total_weight(choices) {
        lemma_picked_in_band(choices, pick);
        let j = picked(choices, pick);
        lemma_weight_before_next(choices, j);
        if j < k {
            lemma_weight_before_monotone(choices, j + 1, k);
        } else if j > k {
            lemma_weight_before_monotone(choices, k + 1, j);
        }
    }
}

proof fn lemma_eligible_bounded(choices: Seq<(Seq<char>, u64)>, pet: PetView, n: nat)
    requires
        n <= choices.len(),
    ensures
        total_weight(eligible_prefix(choices, pet, n)) <= total_weight(choices.subrange(0, n as int)),
        eligible_prefix(choices, pet, n).len() <= n,
    decreases n,
{
    if n > 0 {
        let k = (n - 1) as nat;
        lemma_eligible_bounded(choices, pet, k);
        let prev = eligible_prefix(choices, pet, k);
        lemma_total_weight_split(choices.subrange(0, n as int), k as int);
        assert(choices.subrange(0, n as int).subrange(0, k as int) =~= choices.subrange(0, k as int));
        assert(choices.subrange(0, n as int).subrange(k as int, n as int) =~= seq![choices[k as int]]);
        assert(seq![choices[k as int]].drop_first() =~= Seq::<(Seq<char>, u64)>::empty());
        if pet.has_frames(choices[k as int].0) {
            lemma_total_weight_split(prev.push(choices[k as int]), prev.len() as int);
            assert(prev.push(choices[k as int]).subrange(0, prev.len() as int) =~= prev);
            assert(prev.push(choices[k as int]).subrange(prev.len() as int, (prev.len() + 1) as int) =~= seq![
                choices[k as int],
            ]);
        }
    }
}

proof fn lemma_eligible_prefix_members(choices: Seq<(Seq<char>, u64)>, pet: PetView, n: nat)
    requires
        n <= choices.len(),
        forall|j: int| 0 <= j < choices.len() ==> #[trigger] choices[j].1 > 0,
    ensures
        forall|i: int|
            0 <= i < eligible_prefix(choices, pet, n).len() ==> #[trigger] eligible_prefix(
                choices,
                pet,
                n,
            )[i].1 > 0,
        forall|j: int|
            0 <= j < n && pet.has_frames(#[trigger] choices[j].0) ==> eligible_prefix(
                choices,
                pet,
                n,
            ).contains(choices[j]),
    decreases n,
{
    if n > 0 {
        let k = (n - 1) as nat;
        lemma_eligible_prefix_members(choices, pet, k);
        let prev = eligible_prefix(choices, pet, k);
        if pet.has_frames(choices[k as int].0) {
            let next = prev.push(choices[k as int]);
            assert(next[prev.len() as int] == choices[k as int]);
            assert forall|j: int| 0 <= j < n && pet.has_frames(#[trigger] choices[j].0) implies next.contains(
                choices[j],
            ) by {
                if j < k {
                    let m = choose|m: int| 0 <= m < prev.len() && prev[m] == choices[j];
                    assert(next[m] == choices[j]);
                }
            }
        }
    }
}

/// An idle pet can take up, on its own initiative, every action of its automatic
/// repertoire that it has frames for: some pick below the total weight of its
/// choices picks that action, and by `lemma_each_choice_owns_its_band` exactly as
/// many picks as the action's weight do.
pub proof fn lemma_every_action_with_frames_can_be_picked(pet: PetView, j: int)
    requires
        0 <= j < auto_choices_spec().len(),
        pet.has_frames(auto_choices_spec()[j].0),
    ensures
        exists|pick: int|
            0 <= pick < total_weight(eligible_choices(pet)) && #[trigger] eligible_choices(pet)[picked(
                eligible_choices(pet),
                pick,
            )] == auto_choices_spec()[j],
{
    let auto = auto_choices_spec();
    let cs = eligible_choices(pet);
    assert forall|m: int| 0 <= m < auto.len() implies #[trigger] auto[m].1 > 0 by {}
    lemma_eligible_prefix_members(auto, pet, auto.len());
    assert(cs.contains(auto[j]));
    let k = choose|k: int| 0 <= k < cs.len() && cs[k] == auto[j];
    assert(cs[k].1 > 0);
    lemma_each_choice_owns_its_band(cs, k, weight_before(cs, k) as int);
    assert(cs[picked(cs, weight_before(cs, k) as int)] == auto[j]);
}

/// The choices of an idle pet weigh 24 at most.
pub proof fn lemma_eligible_total_at_most_24(pet: PetView)
    ensures
        total_weight(eligible_choices(pet)) <= 24,
        eligible_choices(pet).len() <= 10,
{
    lemma_eligible_bounded(auto_choices_spec(), pet, 10);
    assert(auto_choices_spec().subrange(0, 10) =~= auto_choices_spec());
    reveal_with_fuel(total_weight, 11);
}

/// The choices the pet has frames for, in order.
pub fn eligible_auto_actions(pet: &PetState) -> (r: Vec<(&'static str, u64)>)
    ensures
        choices_view(r@) == eligible_choices(pet@),
{
    let all: Vec<(&'static str, u64)> = vec![
        ("think", 4),
        ("wave", 3),
        ("cheer", 3),
        ("sit", 3),
        ("sweep", 2),
        ("pout", 2),
        ("surprise", 2),
        ("walk", 3),
        ("half_right", 1),
        ("welcome_agi", 1),
    ];
    assert(choices_view(all@) =~= auto_choices_spec());
    let mut r: Vec<(&'static str, u64)> = Vec::new();
    let mut i: usize = 0;
    while i < all.len()
        invariant
            i <= all.len(),
            choices_view(all@) == auto_choices_spec(),
            choices_view(r@) == eligible_prefix(auto_choices_spec(), pet@, i as nat),
        decreases all.len() - i,
    {
        let c = all[i];
        if pet.has_frames(c.0) {
            let ghost before = r@;
            r.push(c);
            assert(choices_view(r@) =~= choices_view(before).push(choice_view(c)));
        }
        i = i + 1;
    }
    r
}

/// The sum of the weights of `choices`.
pub fn sum_weights(choices: &Vec<(&'static str, u64)>) -> (r: u64)
    requires
        total_weight(choices_view(choices@)) <= u64::MAX,
    ensures
        r == total_weight(choices_view(choices@)),
{
    let ghost cs = choices_view(choices@);
    let mut sum: u64 = 0;
    let mut i: usize = 0;
    while i < choices.len()
        invariant
            i <= choices.len(),
            cs == choices_view(choices@),
            total_weight(cs) <= u64::MAX,
            sum == total_weight(cs.subrange(0, i as int)),
        decreases choices.len() - i,
    {
        proof {
            lemma_total_weight_split(cs.subrange(0, i + 1), i as int);
            assert(cs.subrange(0, i + 1).subrange(0, i as int) =~= cs.subrange(0, i as int));
            assert(cs.subrange(0, i + 1).subrange(i as int, i + 1) =~= seq![cs[i as int]]);
            assert(seq![cs[i as int]].drop_first() =~= Seq::<(Seq<char>, u64)>::empty());
            lemma_total_weight_split(cs, i + 1);
            assert(cs[i as int].1 == choices@[i as int].1);
            assert(total_weight(Seq::<(Seq<char>, u64)>::empty()) == 0);
            assert(total_weight(seq![cs[i as int]]) == cs[i as int].1);
        }
        sum = sum + choices[i].1;
        i = i + 1;
    }
    assert(cs.subrange(0, i as int) =~= cs);
    sum
}

/// The position of `choices` that `pick` picks (see `picked`).
pub fn pick_weighted(choices: &Vec<(&'static str, u64)>, pick: u64) -> (r: usize)
    requires
        pick < total_weight(choices_view(choices@)),
    ensures
        r == picked(choices_view(choices@), pick as int),
        r < choices@.len(),
{
    let ghost cs = choices_view(choices@);
    proof {
        lemma_picked_in_band(cs, pick as int);
    }
    let mut rest: u64 = pick;
    let mut i: usize = 0;
    assert(cs.subrange(0, cs.len() as int) =~= cs);
    while i < choices.len()
        invariant
            i <= choices.len(),
            cs == choices_view(choices@),
            0 <= picked(cs, pick as int) < cs.len(),
            rest < total_weight(cs.subrange(i as int, cs.len() as int)),
            picked(cs, pick as int) == i + picked(cs.subrange(i as int, cs.len() as int), rest as int),
        decreases choices.len() - i,
    {
        let ghost tail = cs.subrange(i as int, cs.len() as int);
        assert(tail[0] == cs[i as int]);
        assert(cs[i as int].1 == choices@[i as int].1);
        if rest < choices[i].1 {
            return i;
        }
        assert(tail.drop_first() =~= cs.subrange(i + 1, cs.len() as int));
        rest = rest - choices[i].1;
        i = i + 1;
    }
    assert(cs.subrange(i as int, cs.len() as int) =~= Seq::<(Seq<char>, u64)>::empty());
    0
}

} // verus!
