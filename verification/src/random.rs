//! Deciding between choices by chance.

use vstd::prelude::*;

verus! {

/// The texts that are present in `rest`, in their order.
pub open spec fn present(rest: Seq<Option<Seq<char>>>) -> Seq<Seq<char>>
    decreases rest.len(),
{
    if rest.len() == 0 {
        Seq::empty()
    } else {
        match rest.last() {
            Some(text) => present(rest.drop_last()).push(text),
            None => present(rest.drop_last()),
        }
    }
}

/// The choices to decide between: the two that must be given, and those of
/// the others that are.
pub open spec fn gathered(first: Seq<char>, second: Seq<char>, rest: Seq<Option<Seq<char>>>) -> Seq<Seq<char>> {
    seq![first, second] + present(rest)
}

/// The place that the number `random` picks among `len` choices.
pub open spec fn picked(random: u32, len: int) -> int {
    random as int % len
}

/// `RngCore::next_u32` on `rand::rng()`: the next number of the thread's
/// generator. It may be any number, and nothing is promised of it.
#[verifier::external_body]
fn random_u32() -> u32 {
    rand::RngCore::next_u32(&mut rand::rng())
}

/// Gathers the choices to decide between.
pub fn gather_choices(first: String, second: String, rest: Vec<Option<String>>) -> (choices: Vec<String>)
    ensures
        choices.deep_view() == gathered(first@, second@, rest.deep_view()),
{
    let mut choices: Vec<String> = Vec::new();
    let ghost a = first@;
    let ghost b = second@;
    choices.push(first);
    choices.push(second);
    let mut i: usize = 0;
    while i < rest.len()
        invariant
            i <= rest.len(),
            choices.deep_view() == seq![a, b] + present(rest.deep_view().take(i as int)),
        decreases rest.len() - i,
    {
        proof {
            let all = rest.deep_view();
            assert(all.take(i + 1).drop_last() =~= all.take(i as int));
        }
        let ghost before = choices.deep_view();
        match &rest[i] {
            Some(text) => {
                choices.push(text.clone());
                assert(choices.deep_view() =~= before.push(text@));
            },
            None => {},
        }
        i += 1;
    }
    proof {
        assert(rest.deep_view().take(i as int) =~= rest.deep_view());
    }
    choices
}

/// The place that the number `random` picks among `len` choices.
pub fn choice_index(random: u32, len: usize) -> (i: usize)
    requires
        len > 0,
    ensures
        i == picked(random, len as int),
        i < len,
{
    random as usize % len
}

/// Decides by chance between the two choices that must be given and those
/// of the others that are, and answers the one it decided for.
pub fn choose_one(first: String, second: String, rest: Vec<Option<String>>) -> (chosen: String)
    ensures
        gathered(first@, second@, rest.deep_view()).contains(chosen@),
{
    let choices = gather_choices(first, second, rest);
    assert(choices.deep_view().len() >= 2);
    let i = choice_index(random_u32(), choices.len());
    assert(choices.deep_view()[i as int] == choices[i as int]@);
    choices[i].clone()
}

} // verus!
