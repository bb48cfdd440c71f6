//! The source of randomness that selection and reproduction draw from.

use rand::distributions::Alphanumeric;
use rand::Rng;
use rand_xoshiro::rand_core::SeedableRng;
use rand_xoshiro::Xoshiro256PlusPlus;
use vstd::prelude::*;

verus! {

/// `rand_xoshiro::Xoshiro256PlusPlus`, the state of a xoshiro256++
/// generator. The crate carries it and never looks into it.
#[verifier::external_type_specification]
#[verifier::external_body]
pub struct ExXoshiro256PlusPlus(Xoshiro256PlusPlus);

/// A stateful stream of random draws.
///
/// The engine consumes one stream, in program order, and never from two
/// threads. An implementation decides how the draws are distributed; the
/// contracts hold the engine to the bounds alone.
pub trait RandomSource {
    /// Draw an index below `bound`, each with the same chance.
    fn below(&mut self, bound: usize) -> (index: usize)
        requires
            bound > 0,
        ensures
            index < bound,
    ;

    /// Draw an offset from `low` to `high`, both included, each with the same
    /// chance.
    fn between(&mut self, low: isize, high: isize) -> (offset: isize)
        requires
            low <= high,
        ensures
            low <= offset <= high,
    ;

    /// Draw a flag that holds with a chance of `numerator` in `denominator`:
    /// never where the numerator is zero, always where the two are equal.
    fn ratio(&mut self, numerator: u32, denominator: u32) -> (hit: bool)
        requires
            numerator <= denominator,
            denominator > 0,
        ensures
            numerator == 0 ==> !hit,
            numerator == denominator ==> hit,
    ;
}

/// A boxed source is a source: so a caller can choose it at run time. Each
/// draw is a draw of the source in the box: a call of its method gives the
/// result, and takes it from what the box held before to what it holds
/// after.
impl<T: RandomSource + ?Sized> RandomSource for Box<T> {
    fn below(&mut self, bound: usize) -> (index: usize)
        ensures
            exists|inner: &mut T|
                &*inner == &**old(self) && &*final(inner) == &**final(self) && call_ensures(
                    T::below,
                    (inner, bound),
                    index,
                ),
    {
        let inner: &mut T = &mut **self;
        inner.below(bound)
    }

    fn between(&mut self, low: isize, high: isize) -> (offset: isize)
        ensures
            exists|inner: &mut T|
                &*inner == &**old(self) && &*final(inner) == &**final(self) && call_ensures(
                    T::between,
                    (inner, low, high),
                    offset,
                ),
    {
        let inner: &mut T = &mut **self;
        inner.between(low, high)
    }

    fn ratio(&mut self, numerator: u32, denominator: u32) -> (hit: bool)
        ensures
            exists|inner: &mut T|
                &*inner == &**old(self) && &*final(inner) == &**final(self) && call_ensures(
                    T::ratio,
                    (inner, numerator, denominator),
                    hit,
                ),
    {
        let inner: &mut T = &mut **self;
        inner.ratio(numerator, denominator)
    }
}

/// Whether `index` is a result of `below(bound)`, in some state of a source.
pub open spec fn drawn_below<R: RandomSource>(bound: usize, index: usize) -> bool {
    exists|source: &mut R| call_ensures(R::below, (source, bound), index)
}

/// Whether `offset` is a result of `between(low, high)`, in some state of a
/// source.
pub open spec fn drawn_between<R: RandomSource>(low: isize, high: isize, offset: isize) -> bool {
    exists|source: &mut R| call_ensures(R::between, (source, low, high), offset)
}

/// Whether `hit` is a result of `ratio(numerator, denominator)`, in some
/// state of a source.
pub open spec fn drawn_ratio<R: RandomSource>(numerator: u32, denominator: u32, hit: bool) -> bool {
    exists|source: &mut R| call_ensures(R::ratio, (source, numerator, denominator), hit)
}

/// The generator that `SeedableRng::seed_from_u64` makes from a seed.
pub uninterp spec fn seeded(seed: u64) -> Xoshiro256PlusPlus;

/// The crate's own source of randomness, a xoshiro256++ generator.
pub struct Random {
    generator: Xoshiro256PlusPlus,
}

impl View for Random {
    type V = Xoshiro256PlusPlus;

    /// The generator that the source holds: the state that its draws come
    /// from.
    closed spec fn view(&self) -> Xoshiro256PlusPlus {
        self.generator
    }
}

/// Whether a character is an ASCII letter or digit.
pub open spec fn is_alphanumeric(ch: char) -> bool {
    ||| '0' <= ch <= '9'
    ||| 'A' <= ch <= 'Z'
    ||| 'a' <= ch <= 'z'
}

/// `SeedableRng::from_entropy` seeds a generator from the operating system.
/// Nothing is promised of its state.
#[verifier::external_body]
fn entropy_generator() -> Xoshiro256PlusPlus {
    Xoshiro256PlusPlus::from_entropy()
}

/// `SeedableRng::seed_from_u64` seeds a generator from one number: it
/// expands the seed by a fixed rule, so that one seed always gives the same
/// generator.
#[verifier::external_body]
fn seeded_generator(seed: u64) -> (generator: Xoshiro256PlusPlus)
    ensures
        generator == seeded(seed),
{
    Xoshiro256PlusPlus::seed_from_u64(seed)
}

/// `Rng::gen_range` on a half-open range from zero: the result lies in the
/// range. It panics on an empty range, which the precondition leaves out.
#[verifier::external_body]
fn uniform_below(generator: &mut Xoshiro256PlusPlus, bound: usize) -> (index: usize)
    requires
        bound > 0,
    ensures
        index < bound,
{
    generator.gen_range(0..bound)
}

/// `Rng::gen_range` on a closed range: the result lies in the range. It
/// panics on an empty range, which the precondition leaves out.
#[verifier::external_body]
fn uniform_between(generator: &mut Xoshiro256PlusPlus, low: isize, high: isize) -> (offset: isize)
    requires
        low <= high,
    ensures
        low <= offset <= high,
{
    generator.gen_range(low..=high)
}

/// `Rng::gen_ratio`: false for a zero numerator, true where numerator and
/// denominator are equal, either value in between. It panics on a zero
/// denominator and on a numerator above the denominator, which the
/// precondition leaves out.
#[verifier::external_body]
fn bernoulli(generator: &mut Xoshiro256PlusPlus, numerator: u32, denominator: u32) -> (hit: bool)
    requires
        numerator <= denominator,
        denominator > 0,
    ensures
        numerator == 0 ==> !hit,
        numerator == denominator ==> hit,
{
    generator.gen_ratio(numerator, denominator)
}

/// `Rng::sample` with the `Alphanumeric` distribution: the byte of one of the
/// 62 ASCII letters and digits.
#[verifier::external_body]
fn alphanumeric(generator: &mut Xoshiro256PlusPlus) -> (byte: u8)
    ensures
        is_alphanumeric(byte as char),
{
    generator.sample(Alphanumeric)
}

/// `String::push` appends one character.
pub assume_specification[ String::push ](text: &mut String, ch: char)
    ensures
        final(text)@ == old(text)@.push(ch),
;

impl RandomSource for Random {
    fn below(&mut self, bound: usize) -> (index: usize) {
        uniform_below(&mut self.generator, bound)
    }

    fn between(&mut self, low: isize, high: isize) -> (offset: isize) {
        uniform_between(&mut self.generator, low, high)
    }

    fn ratio(&mut self, numerator: u32, denominator: u32) -> (hit: bool) {
        bernoulli(&mut self.generator, numerator, denominator)
    }
}

impl Random {
    /// Draw an ASCII letter or digit, each with the same chance.
    pub fn letter(&mut self) -> (ch: char)
        ensures
            is_alphanumeric(ch),
    {
        alphanumeric(&mut self.generator) as char
    }
}

/// Create a source of randomness for use in the genetic algorithm, seeded by
/// the operating system.
pub fn make_random() -> Random {
    Random { generator: entropy_generator() }
}

/// Create a source of randomness with a seed for use in the genetic algorithm.
/// The source holds the generator that the seed gives: two sources made from
/// one seed are in the same state, and give the same draws.
pub fn make_random_from_seed(seed: u64) -> (random: Random)
    ensures
        random@ == seeded(seed),
{
    Random { generator: seeded_generator(seed) }
}

/// Make a random string of `length` ASCII letters and digits.
pub fn make_random_string(random: &mut Random, length: usize) -> (text: String)
    ensures
        text@.len() == length,
        forall|i: int| 0 <= i < length ==> is_alphanumeric(#[trigger] text@[i]),
{
    let mut text = String::new();
    let mut made: usize = 0;
    while made < length
        invariant
            made <= length,
            text@.len() == made,
            forall|i: int| 0 <= i < made ==> is_alphanumeric(#[trigger] text@[i]),
        decreases length - made,
    {
        let ch = random.letter();
        text.push(ch);
        made += 1;
    }
    text
}

} // verus!
