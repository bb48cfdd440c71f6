//! An example problem: evolve a string of letters and digits toward a target
//! string.

use crate::genetic::Genetic;
use crate::math::Cost;
use crate::random::Random;
use crate::random::RandomSource;
use vstd::prelude::*;

verus! {

/// The string to evolve toward.
pub const TARGET: &'static str = "weasel";

/// A candidate string.
#[derive(Debug, PartialEq, Eq)]
pub struct WSGenome(pub String);

impl Clone for WSGenome {
    fn clone(&self) -> (copy: Self)
        ensures
            copy.0@ == self.0@,
    {
        WSGenome(self.0.clone())
    }
}

/// The number of places that both strings have.
pub open spec fn shared(lhs: Seq<char>, rhs: Seq<char>) -> nat {
    if lhs.len() <= rhs.len() {
        lhs.len()
    } else {
        rhs.len()
    }
}

/// How far apart two characters are, by their code points.
pub open spec fn gap(lhs: char, rhs: char) -> int {
    if lhs as int <= rhs as int {
        rhs as int - lhs as int
    } else {
        lhs as int - rhs as int
    }
}

/// The sum of the gaps between two strings over their first `count` places.
pub open spec fn gaps(lhs: Seq<char>, rhs: Seq<char>, count: nat) -> int
    recommends
        count <= shared(lhs, rhs),
    decreases count,
{
    if count == 0 {
        0
    } else {
        gaps(lhs, rhs, (count - 1) as nat) + gap(lhs[count - 1], rhs[count - 1])
    }
}

/// The distance between two strings: the sum of the gaps between their
/// characters, place by place, as far as both strings reach.
pub open spec fn distance(lhs: Seq<char>, rhs: Seq<char>) -> int {
    gaps(lhs, rhs, shared(lhs, rhs))
}

/// The splice of two strings at a cut: the characters of one up to the cut
/// and of the other after it, as far as both strings reach. Without `swap`
/// the places after the cut come from `lhs`, with it those up to the cut.
pub open spec fn spliced(lhs: Seq<char>, rhs: Seq<char>, cut: int, swap: bool) -> Seq<char> {
    Seq::new(
        shared(lhs, rhs),
        |i: int|
            if (i > cut) != swap {
                lhs[i]
            } else {
                rhs[i]
            },
    )
}

/// The sum of gaps is at most the range of characters for each place.
pub proof fn lemma_gaps_bounded(lhs: Seq<char>, rhs: Seq<char>, count: nat)
    requires
        count <= shared(lhs, rhs),
    ensures
        0 <= gaps(lhs, rhs, count) <= count * 0x10ffff,
    decreases count,
{
    if count > 0 {
        lemma_gaps_bounded(lhs, rhs, (count - 1) as nat);
        lemma_gap_bounded(lhs[count - 1], rhs[count - 1]);
    }
}

/// Whether `cut` is a cut drawn for a string: a draw from the places before
/// its last, or its first place where the string has fewer than two.
pub open spec fn cut_drawn(text: Seq<char>, cut: usize) -> bool {
    if text.len() >= 2 {
        cut < text.len() - 1 && crate::random::drawn_below::<Random>(
            (text.len() - 1) as usize,
            cut,
        )
    } else {
        cut == 0
    }
}

/// No two characters are further apart than the range of characters is wide.
pub proof fn lemma_gap_bounded(lhs: char, rhs: char)
    ensures
        0 <= gap(lhs, rhs) <= 0x10ffff,
{
}

/// The genetic operations on candidate strings.
pub struct WSGenetic {
    random: Random,
}

impl WSGenetic {
    /// The source that the operations take their draws from.
    pub closed spec fn source(&self) -> Random {
        self.random
    }

    /// Make the operations. They take their draws from `random`.
    pub fn new(random: Random) -> (genetic: Self)
        ensures
            genetic.source() == random,
    {
        Self { random }
    }
}

impl Genetic<WSGenome> for WSGenetic {
    /// A string of random letters and digits, as long as the target.
    fn initialize(&mut self) -> (genome: WSGenome)
        ensures
            genome.0@.len() == TARGET@.len(),
            forall|i: int|
                0 <= i < genome.0@.len() ==> crate::random::is_alphanumeric(
                    #[trigger] genome.0@[i],
                ),
    {
        WSGenome(crate::random::make_random_string(&mut self.random, TARGET.unicode_len()))
    }

    /// The distance of the string from the target.
    fn evaluate(&self, genome: &WSGenome) -> (cost: Cost)
        ensures
            cost == distance(TARGET@, genome.0@),
    {
        proof {
            reveal_strlit("weasel");
        }
        let text = genome.0.as_str();
        let target_length = TARGET.unicode_len();
        let length = text.unicode_len();
        let count = if target_length <= length {
            target_length
        } else {
            length
        };
        let mut cost: Cost = 0;
        let mut i: usize = 0;
        while i < count
            invariant
                i <= count,
                count == shared(TARGET@, text@),
                count <= 6,
                cost == gaps(TARGET@, text@, i as nat),
            decreases count - i,
        {
            proof {
                lemma_gaps_bounded(TARGET@, text@, i as nat);
            }
            let wanted = TARGET.get_char(i) as u32;
            let found = text.get_char(i) as u32;
            let apart = if wanted <= found {
                found - wanted
            } else {
                wanted - found
            };
            cost = cost + apart as Cost;
            i += 1;
        }
        cost
    }

    /// A splice of the two strings at a random cut, which lies before the
    /// last place of `lhs`. Which of the two strings comes first is random
    /// too. A string of fewer than two characters leaves no cut to draw: the
    /// cut is then its first place.
    fn crossover(&mut self, lhs: &WSGenome, rhs: &WSGenome) -> (child: WSGenome)
        ensures
            exists|cut: usize, swap: bool|
                cut_drawn(lhs.0@, cut) && crate::random::drawn_ratio::<Random>(1, 2, swap)
                    && child.0@ == #[trigger] spliced(lhs.0@, rhs.0@, cut as int, swap),
    {
        let lhs_str = lhs.0.as_str();
        let rhs_str = rhs.0.as_str();
        let lhs_length = lhs_str.unicode_len();
        let rhs_length = rhs_str.unicode_len();
        let count = if lhs_length <= rhs_length {
            lhs_length
        } else {
            rhs_length
        };
        let crossover_index = if lhs_length >= 2 {
            let drawn = self.random.below(lhs_length - 1);
            assert(crate::random::drawn_below::<Random>((lhs_length - 1) as usize, drawn));
            drawn
        } else {
            0
        };
        let is_swap = self.random.ratio(1, 2);
        assert(crate::random::drawn_ratio::<Random>(1, 2, is_swap));
        let mut result = String::new();
        let mut i: usize = 0;
        while i < count
            invariant
                i <= count,
                count == shared(lhs_str@, rhs_str@),
                result@ == spliced(lhs_str@, rhs_str@, crossover_index as int, is_swap).take(
                    i as int,
                ),
            decreases count - i,
        {
            let ch = if (i > crossover_index) != is_swap {
                lhs_str.get_char(i)
            } else {
                rhs_str.get_char(i)
            };
            result.push(ch);
            i += 1;
        }
        assert(result@ == spliced(lhs_str@, rhs_str@, crossover_index as int, is_swap));
        WSGenome(result)
    }

    /// The string with the character at one random place replaced by a
    /// random letter or digit. An empty string has no place to replace, and
    /// comes back as it is.
    fn mutate(&mut self, genome: &WSGenome) -> (mutant: WSGenome)
        ensures
            genome.0@.len() == 0 ==> mutant.0@ == genome.0@,
            genome.0@.len() > 0 ==> exists|place: usize, ch: char|
                place < genome.0@.len() && crate::random::drawn_below::<Random>(
                    genome.0@.len() as usize,
                    place,
                ) && crate::random::is_alphanumeric(ch) && mutant.0@ == #[trigger] genome.0@.update(
                    place as int,
                    ch,
                ),
    {
        let chars = genome.0.as_str();
        let length = chars.unicode_len();
        if length == 0 {
            return genome.clone();
        }
        let mutate_index = self.random.below(length);
        assert(crate::random::drawn_below::<Random>(length, mutate_index));
        let replacement = self.random.letter();
        let mut result = String::new();
        let mut i: usize = 0;
        while i < length
            invariant
                i <= length,
                length == chars@.len(),
                mutate_index < length,
                result@ == chars@.update(mutate_index as int, replacement).take(i as int),
            decreases length - i,
        {
            let ch = if i == mutate_index {
                replacement
            } else {
                chars.get_char(i)
            };
            result.push(ch);
            i += 1;
        }
        assert(result@ == chars@.update(mutate_index as int, replacement));
        WSGenome(result)
    }
}

} // verus!
