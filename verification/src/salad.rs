//! Construction of the initial fruit salad: three fruits in a shuffled
//! order, followed by three more appended in a fixed order.

use vstd::prelude::*;

verus! {

/// Relies on rand's `SliceRandom::shuffle` (a Fisher-Yates shuffle by
/// in-place swaps): the new contents are a rearrangement of the old ones,
/// so the multiset of elements, and with it the length, is unchanged,
/// whatever order the generator produced.
#[verifier::external_body]
fn shuffle_fruits(fruit: &mut Vec<String>)
    ensures
        final(fruit)@.to_multiset() == old(fruit)@.to_multiset(),
        final(fruit).deep_view().to_multiset() == old(fruit).deep_view().to_multiset(),
        final(fruit)@.len() == old(fruit)@.len(),
{
    let mut rng = rand::thread_rng();
    rand::seq::SliceRandom::shuffle(fruit.as_mut_slice(), &mut rng);
}

/// The three fruits that seed the salad, in their order before the shuffle.
pub open spec fn starting_fruits() -> Seq<Seq<char>> {
    seq!["Arbutus"@, "Loquat"@, "Strawberry Tree Berry"@]
}

/// The three fruits appended after the shuffle, in order.
pub open spec fn added_fruits() -> Seq<Seq<char>> {
    seq!["Pomegranate"@, "Fig"@, "Cherry"@]
}

/// Builds the salad: the three starting fruits in some shuffled order,
/// then the three added fruits in their fixed order at the end.
pub fn build_fruit_salad() -> (r: Vec<String>)
    ensures
        r.deep_view().len() == 6,
        r.deep_view().take(3).to_multiset() == starting_fruits().to_multiset(),
        r.deep_view().skip(3) == added_fruits(),
{
    let mut fruit: Vec<String> = Vec::new();
    fruit.push(String::from_str("Arbutus"));
    fruit.push(String::from_str("Loquat"));
    fruit.push(String::from_str("Strawberry Tree Berry"));
    proof {
        assert(fruit.deep_view() =~= starting_fruits());
    }
    shuffle_fruits(&mut fruit);
    let ghost shuffled = fruit.deep_view();
    fruit.push(String::from_str("Pomegranate"));
    fruit.push(String::from_str("Fig"));
    fruit.push(String::from_str("Cherry"));
    proof {
        assert(fruit.deep_view() =~= shuffled + added_fruits());
        assert(fruit.deep_view().take(3) =~= shuffled);
        assert(fruit.deep_view().skip(3) =~= added_fruits());
    }
    fruit
}

} // verus!
