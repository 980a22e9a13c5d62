//! Random slugs: the alphabet they are drawn from, what a drawn slug looks
//! like, and the draw itself.

use vstd::prelude::*;
use rand::rngs::ThreadRng;
use rand::seq::IndexedRandom;
use crate::registry::Registry;

verus! {

/// Number of characters in a generated slug.
pub const SLUG_LENGTH: usize = 6;

/// The symbols a generated slug is made of: the upper-case and lower-case
/// Latin letters and the decimal digits, each once.
pub open spec fn alphabet() -> Seq<char> {
    "ABCDEFGHIJKLMNOPQRSTUVWXYZabcdefghijklmnopqrstuvwxyz0123456789"@
}

/// A slug as the generator makes them: six symbols of the alphabet, no symbol
/// twice.
pub open spec fn is_generated_slug(slug: Seq<char>) -> bool {
    &&& slug.len() == SLUG_LENGTH
    &&& slug.no_duplicates()
    &&& forall|i: int| 0 <= i < slug.len() ==> alphabet().contains(#[trigger] slug[i])
}

/// Whether some slug of the generator's making is taken in `reg`. While none
/// is, every slug that the generator draws is free.
pub open spec fn holds_generated_slug(reg: Registry) -> bool {
    exists|slug: Seq<char>| reg.contains_key(slug) && is_generated_slug(slug)
}

/// `drawn` lists the items of `pool` at the positions `picks`, which are
/// pairwise different, and there are `amount` of them, or as many as the pool
/// has if that is fewer.
pub open spec fn is_draw_at(drawn: Seq<char>, pool: Seq<char>, amount: nat, picks: Seq<int>) -> bool {
    &&& drawn.len() == if amount <= pool.len() { amount } else { pool.len() }
    &&& picks.len() == drawn.len()
    &&& picks.no_duplicates()
    &&& forall|i: int|
        0 <= i < picks.len() ==> 0 <= #[trigger] picks[i] < pool.len() && drawn[i] == pool[picks[i]]
}

/// `drawn` is a sample of `amount` items of `pool` taken without replacement,
/// in some order.
pub open spec fn is_draw(drawn: Seq<char>, pool: Seq<char>, amount: nat) -> bool {
    exists|picks: Seq<int>| is_draw_at(drawn, pool, amount, picks)
}

/// The alphabet has 62 symbols and none of them twice.
pub proof fn lemma_alphabet_is_a_set()
    ensures
        alphabet().len() == 62,
        alphabet().no_duplicates(),
{
    reveal_strlit("ABCDEFGHIJKLMNOPQRSTUVWXYZabcdefghijklmnopqrstuvwxyz0123456789");
}

/// Six symbols drawn from the alphabet without replacement form a generated
/// slug.
pub proof fn lemma_draw_is_generated_slug(drawn: Seq<char>)
    requires
        is_draw(drawn, alphabet(), SLUG_LENGTH as nat),
    ensures
        is_generated_slug(drawn),
{
    lemma_alphabet_is_a_set();
    let picks = choose|picks: Seq<int>| is_draw_at(drawn, alphabet(), SLUG_LENGTH as nat, picks);
    assert forall|i: int, j: int| 0 <= i < drawn.len() && 0 <= j < drawn.len() && i != j implies drawn[i]
        != drawn[j] by {
        assert(picks[i] != picks[j]);
    }
    assert forall|i: int| 0 <= i < drawn.len() implies alphabet().contains(#[trigger] drawn[i]) by {
        assert(alphabet()[picks[i]] == drawn[i]);
    }
}

/// The alphabet as a vector, in the order of [`alphabet`].
pub fn alphabet_chars() -> (chars: Vec<char>)
    ensures
        chars@ == alphabet(),
{
    let symbols: &str = "ABCDEFGHIJKLMNOPQRSTUVWXYZabcdefghijklmnopqrstuvwxyz0123456789";
    let count: usize = symbols.unicode_len();
    let mut chars: Vec<char> = Vec::new();
    let mut i: usize = 0;
    while i < count
        invariant
            i <= count,
            count == symbols@.len(),
            chars@ == symbols@.subrange(0, i as int),
        decreases count - i,
    {
        chars.push(symbols.get_char(i));
        i += 1;
    }
    assert(symbols@.subrange(0, count as int) =~= symbols@);
    chars
}

/// `rand::rngs::ThreadRng`, the handle to a thread's random generator. It is
/// carried from `rand::rng` to the draw and never looked into.
#[verifier::external_type_specification]
#[verifier::external_body]
pub struct ExThreadRng(ThreadRng);

/// `rand::rng` hands out the calling thread's generator. Nothing is claimed
/// of the handle. The first call on a thread seeds the generator from the
/// operating system, and panics if that source fails.
pub assume_specification[ rand::rng ]() -> (rng: ThreadRng)
;

/// Draws `amount` items of `pool` with `IndexedRandom::choose_multiple` and
/// strings them together in the order drawn. The contract claims what that
/// method documents of every outcome: the items sit at pairwise different
/// positions of the pool, and there are `amount` of them unless the pool is
/// smaller. Which items come, and in what order, is left open. The pool must
/// not be longer than `u32::MAX`: beyond that the method samples by
/// rejection, which asserts that fewer items are asked for than the pool
/// holds. The generator reseeds itself from the operating system now and
/// then during a draw, and panics if that source fails.
#[verifier::external_body]
pub(crate) fn draw_chars(pool: &Vec<char>, rng: &mut ThreadRng, amount: usize) -> (drawn: String)
    requires
        pool@.len() <= u32::MAX,
    ensures
        is_draw(drawn@, pool@, amount as nat),
{
    String::from_iter(pool.choose_multiple(rng, amount))
}

} // verus!
