//! The seven-bag randomizer: shapes are drawn without replacement from a
//! shuffled bag of all seven, with the following bag prepared in advance so
//! that upcoming shapes can be previewed.

use vstd::prelude::*;
use vstd::string::StringExecFns;
use vstd::multiset::Multiset;
use vstd::seq_lib::to_multiset_build;
use vstd::seq_lib::to_multiset_len;
use vstd::seq_lib::lemma_multiset_commutative;
use rand::seq::SliceRandom;
use crate::piece::{Piece, Shape};
use crate::pieces::lookup;

verus! {

/// The number of shapes in a bag.
pub const BAG_SIZE: usize = 7;

/// The seven shapes, in the order in which a bag holds them before it is
/// shuffled.
pub open spec fn all_shapes() -> Seq<Shape> {
    seq![Shape::I, Shape::J, Shape::L, Shape::O, Shape::S, Shape::T, Shape::Z]
}

/// Whether `bag` is a rearrangement of the seven shapes.
pub open spec fn is_full_bag(bag: Seq<Shape>) -> bool {
    bag.to_multiset() == all_shapes().to_multiset()
}

/// How often `shape` occurs in `bag`.
pub open spec fn occurrences(bag: Seq<Shape>, shape: Shape) -> nat
    decreases bag.len(),
{
    if bag.len() == 0 {
        0
    } else if bag.last() == shape {
        occurrences(bag.drop_last(), shape) + 1
    } else {
        occurrences(bag.drop_last(), shape)
    }
}

/// The number of occurrences is the multiplicity in the multiset.
pub proof fn lemma_occurrences(bag: Seq<Shape>, shape: Shape)
    ensures
        bag.to_multiset().count(shape) == occurrences(bag, shape),
    decreases bag.len(),
{
    if bag.len() == 0 {
        to_multiset_len(bag);
        assert(bag.to_multiset() =~= Multiset::empty());
    } else {
        lemma_occurrences(bag.drop_last(), shape);
        to_multiset_build(bag.drop_last(), bag.last());
        assert(bag =~= bag.drop_last().push(bag.last()));
    }
}

/// A bag is full exactly when it holds each of the seven shapes once.
pub proof fn lemma_full_bag(bag: Seq<Shape>)
    ensures
        is_full_bag(bag) <==> (forall|shape: Shape| #[trigger] occurrences(bag, shape) == 1),
        is_full_bag(bag) ==> bag.len() == BAG_SIZE,
{
    assert forall|shape: Shape| #[trigger] occurrences(all_shapes(), shape) == 1 by {
        reveal_with_fuel(occurrences, 8);
    }
    assert forall|shape: Shape|
        bag.to_multiset().count(shape) == #[trigger] occurrences(bag, shape)
            && all_shapes().to_multiset().count(shape) == 1 by {
        lemma_occurrences(bag, shape);
        lemma_occurrences(all_shapes(), shape);
    }
    if forall|shape: Shape| #[trigger] occurrences(bag, shape) == 1 {
        assert forall|shape: Shape|
            bag.to_multiset().count(shape) == all_shapes().to_multiset().count(shape) by {
            assert(occurrences(bag, shape) == 1);
        }
        assert(bag.to_multiset() =~= all_shapes().to_multiset());
    }
    if is_full_bag(bag) {
        to_multiset_len(bag);
        to_multiset_len(all_shapes());
    }
}

/// The names of the shapes of `bag`, with a comma between each two.
pub open spec fn names_text(bag: Seq<Shape>) -> Seq<char>
    decreases bag.len(),
{
    if bag.len() == 0 {
        Seq::empty()
    } else if bag.len() == 1 {
        lookup(bag[0]).name@
    } else {
        names_text(bag.drop_last()) + ","@ + lookup(bag.last()).name@
    }
}

/// The position of the last draw as text.
pub open spec fn index_text(index: int) -> Seq<char> {
    if index == -1 {
        "-1"@
    } else if index == 0 {
        "0"@
    } else if index == 1 {
        "1"@
    } else if index == 2 {
        "2"@
    } else if index == 3 {
        "3"@
    } else if index == 4 {
        "4"@
    } else if index == 5 {
        "5"@
    } else {
        "6"@
    }
}

/// The randomizer as a specification sees it.
pub struct BagView {
    /// Position in `current` of the shape drawn last; -1 before the first
    /// draw.
    pub index: int,
    /// The bag being drawn from.
    pub current: Seq<Shape>,
    /// The bag that follows it.
    pub next: Seq<Shape>,
}

impl BagView {
    /// The cursor is in range and both bags are full.
    pub open spec fn wf(self) -> bool {
        &&& -1 <= self.index <= 6
        &&& is_full_bag(self.current)
        &&& is_full_bag(self.next)
    }

    /// Whether the next draw exhausts the current bag and switches to the
    /// following one.
    pub open spec fn refills(self) -> bool {
        self.index >= 6
    }

    /// One draw: the randomizer afterwards and the shape drawn. When the
    /// current bag is exhausted, the following bag becomes the current one
    /// and `fresh` the following one.
    pub open spec fn draw(self, fresh: Seq<Shape>) -> (BagView, Shape) {
        if self.refills() {
            (BagView { index: 0, current: self.next, next: fresh }, self.next[0])
        } else {
            (BagView { index: self.index + 1, ..self }, self.current[self.index + 1])
        }
    }

    /// The shape `offset` draws ahead. Within the current bag it is read
    /// from there, beyond it from the following bag, wrapping around.
    pub open spec fn peek(self, offset: int) -> Shape {
        let n = self.index + offset;
        if 0 <= n <= 6 {
            self.current[n]
        } else {
            self.next[n % 7]
        }
    }

    /// The randomizer as text, for logs.
    pub open spec fn text(self) -> Seq<char> {
        "BagManager { index: "@ + index_text(self.index) + ", current_bag: ["@ + names_text(
            self.current,
        ) + "], next_bag: ["@ + names_text(self.next) + "] }"@
    }

    /// The randomizer after `n` draws, with what is left of `supply`, the
    /// bags that the refills take in turn.
    pub open spec fn advanced(self, supply: Seq<Seq<Shape>>, n: nat) -> (BagView, Seq<Seq<Shape>>)
        decreases n,
    {
        if n == 0 {
            (self, supply)
        } else if self.refills() {
            self.draw(supply[0]).0.advanced(supply.drop_first(), (n - 1) as nat)
        } else {
            self.draw(supply[0]).0.advanced(supply, (n - 1) as nat)
        }
    }

    /// The shapes that the next `n` draws yield, in order, when the refills
    /// take their bags from `supply` in turn.
    pub open spec fn drawn(self, supply: Seq<Seq<Shape>>, n: nat) -> Seq<Shape>
        decreases n,
    {
        if n == 0 {
            Seq::empty()
        } else {
            self.drawn(supply, (n - 1) as nat).push(
                self.advanced(supply, (n - 1) as nat).0.draw(
                    self.advanced(supply, (n - 1) as nat).1[0],
                ).1,
            )
        }
    }
}

/// Calls `shuffle` of `rand::seq::SliceRandom` on a copy of `bag`, with the
/// generator that `rand::thread_rng` hands out.
///
/// The shuffle only swaps elements of the slice, so the result is claimed to
/// hold the same shapes as `bag`, each as often; nothing is claimed about
/// their order. The generator is seeded from the operating system on first
/// use in a thread and panics if that source fails.
#[verifier::external_body]
fn shuffled(bag: [Shape; 7]) -> (mixed: [Shape; 7])
    ensures
        mixed@.to_multiset() == bag@.to_multiset(),
{
    let mut mixed = bag;
    mixed.shuffle(&mut rand::thread_rng());
    mixed
}

/// A bag of the seven shapes in random order.
pub fn get_random_bag() -> (bag: [Shape; 7])
    ensures
        is_full_bag(bag@),
{
    let bag = [Shape::I, Shape::J, Shape::L, Shape::O, Shape::S, Shape::T, Shape::Z];
    assert(bag@ =~= all_shapes());
    shuffled(bag)
}

/// How often `shape` occurs in `bag`.
fn count_shape(bag: &[Shape; 7], shape: Shape) -> (count: usize)
    ensures
        count == occurrences(bag@, shape),
{
    let mut count: usize = 0;
    let mut i: usize = 0;
    while i < BAG_SIZE
        invariant
            i <= BAG_SIZE,
            count <= i,
            count == occurrences(bag@.take(i as int), shape),
        decreases BAG_SIZE - i,
    {
        assert(bag@.take(i + 1).drop_last() =~= bag@.take(i as int));
        if bag[i] == shape {
            count += 1;
        }
        i += 1;
    }
    assert(bag@.take(BAG_SIZE as int) =~= bag@);
    count
}

/// Whether `bag` holds each of the seven shapes once.
pub fn is_permutation(bag: &[Shape; 7]) -> (full: bool)
    ensures
        full == is_full_bag(bag@),
{
    proof {
        lemma_full_bag(bag@);
    }
    count_shape(bag, Shape::I) == 1 && count_shape(bag, Shape::J) == 1 && count_shape(
        bag,
        Shape::L,
    ) == 1 && count_shape(bag, Shape::O) == 1 && count_shape(bag, Shape::S) == 1 && count_shape(
        bag,
        Shape::T,
    ) == 1 && count_shape(bag, Shape::Z) == 1
}

/// The names of the shapes of `bag`, with a comma between each two.
fn names_of(bag: &[Shape; 7]) -> (text: String)
    ensures
        text@ == names_text(bag@),
{
    let mut text = String::from_str(lookup(bag[0]).name);
    assert(bag@.take(1) =~= seq![bag@[0]]);
    let mut i: usize = 1;
    while i < BAG_SIZE
        invariant
            1 <= i <= BAG_SIZE,
            text@ == names_text(bag@.take(i as int)),
        decreases BAG_SIZE - i,
    {
        assert(bag@.take(i + 1).drop_last() =~= bag@.take(i as int));
        text.append(",");
        text.append(lookup(bag[i]).name);
        i += 1;
    }
    assert(bag@.take(BAG_SIZE as int) =~= bag@);
    text
}

/// The randomizer: the bag being drawn from, the prepared bag that follows
/// it, and the position of the last draw.
#[derive(Copy, Clone, Debug)]
pub struct BagManager {
    index: isize,
    current_bag: [Shape; 7],
    next_bag: [Shape; 7],
}

impl View for BagManager {
    type V = BagView;

    closed spec fn view(&self) -> BagView {
        BagView { index: self.index as int, current: self.current_bag@, next: self.next_bag@ }
    }
}

impl BagManager {
    /// The cursor is in range and both bags are full.
    pub open spec fn wf(&self) -> bool {
        self@.wf()
    }

    /// A randomizer with two freshly shuffled bags, before the first draw.
    pub fn new() -> (bag: BagManager)
        ensures
            bag.wf(),
            bag@.index == -1,
    {
        BagManager { index: -1, current_bag: get_random_bag(), next_bag: get_random_bag() }
    }

    /// A randomizer that draws `current` and then `next` in the given order,
    /// before the first draw. `None` unless both hold each shape once.
    pub fn from_shapes(current: [Shape; 7], next: [Shape; 7]) -> (made: Option<BagManager>)
        ensures
            made is Some <==> is_full_bag(current@) && is_full_bag(next@),
            made matches Some(bag) ==> bag.wf() && bag@ == (BagView {
                index: -1,
                current: current@,
                next: next@,
            }),
    {
        if is_permutation(&current) && is_permutation(&next) {
            Some(BagManager { index: -1, current_bag: current, next_bag: next })
        } else {
            None
        }
    }

    /// Whether the next draw switches to the following bag, which takes a
    /// fresh bag to follow that one.
    pub fn needs_refill(&self) -> (refills: bool)
        ensures
            refills == self@.refills(),
    {
        self.index >= 6
    }

    /// Draws the next shape. `fresh` becomes the following bag if this draw
    /// exhausts the current one, and is not looked at otherwise. Where it
    /// is taken, it has to be a full bag.
    pub fn draw(&mut self, fresh: [Shape; 7]) -> (shape: Shape)
        requires
            old(self).wf(),
            old(self)@.refills() ==> is_full_bag(fresh@),
        ensures
            final(self).wf(),
            (final(self)@, shape) == old(self)@.draw(fresh@),
    {
        proof {
            lemma_full_bag(self.current_bag@);
            lemma_full_bag(self.next_bag@);
        }
        if self.index >= 6 {
            self.current_bag = self.next_bag;
            self.next_bag = fresh;
            self.index = 0;
        } else {
            self.index += 1;
        }
        self.current_bag[self.index as usize]
    }

    /// Draws the next shape. When this draw exhausts the current bag, the
    /// following bag takes its place and a freshly shuffled bag follows.
    ///
    /// The bag that follows afterwards is the only thing left open: with it,
    /// the draw is the one that `BagView::draw` describes.
    pub fn next_shape(&mut self) -> (shape: Shape)
        requires
            old(self).wf(),
        ensures
            final(self).wf(),
            (final(self)@, shape) == old(self)@.draw(final(self)@.next),
    {
        if self.needs_refill() {
            self.draw(get_random_bag())
        } else {
            self.draw(self.next_bag)
        }
    }

    /// Draws the next piece: the definition of the shape that `next_shape`
    /// draws.
    pub fn next(&mut self) -> (piece: Piece)
        requires
            old(self).wf(),
        ensures
            final(self).wf(),
            final(self)@ == old(self)@.draw(final(self)@.next).0,
            piece == lookup(old(self)@.draw(final(self)@.next).1),
    {
        lookup(self.next_shape())
    }

    /// The shape `offset` draws ahead, without drawing it.
    pub fn peek_shape(&self, offset: usize) -> (shape: Shape)
        requires
            self.wf(),
        ensures
            shape == self@.peek(offset as int),
    {
        proof {
            lemma_full_bag(self.current_bag@);
            lemma_full_bag(self.next_bag@);
        }
        if offset <= BAG_SIZE {
            let n: isize = self.index + offset as isize;
            if n < 0 {
                self.next_bag[6]
            } else if n <= 6 {
                self.current_bag[n as usize]
            } else {
                self.next_bag[(n - 7) as usize]
            }
        } else {
            let wrapped: usize = ((self.index + 1) as usize + offset % BAG_SIZE + 6) % BAG_SIZE;
            self.next_bag[wrapped]
        }
    }

    /// The randomizer as text, for logs: the position of the last draw and
    /// the names of the shapes of both bags.
    pub fn to_string(&self) -> (text: String)
        requires
            self.wf(),
        ensures
            text@ == self@.text(),
    {
        let index = if self.index == -1 {
            "-1"
        } else if self.index == 0 {
            "0"
        } else if self.index == 1 {
            "1"
        } else if self.index == 2 {
            "2"
        } else if self.index == 3 {
            "3"
        } else if self.index == 4 {
            "4"
        } else if self.index == 5 {
            "5"
        } else {
            "6"
        };
        let mut text = String::from_str("BagManager { index: ");
        text.append(index);
        text.append(", current_bag: [");
        text.append(names_of(&self.current_bag).as_str());
        text.append("], next_bag: [");
        text.append(names_of(&self.next_bag).as_str());
        text.append("] }");
        text
    }

    /// The piece `offset` draws ahead, without drawing it.
    pub fn peek(&self, offset: usize) -> (piece: Piece)
        requires
            self.wf(),
        ensures
            piece == lookup(self@.peek(offset as int)),
    {
        lookup(self.peek_shape(offset))
    }
}

/// `n + m` draws are `n` draws followed by `m` draws.
pub proof fn lemma_draws_split(bag: BagView, supply: Seq<Seq<Shape>>, n: nat, m: nat)
    ensures
        bag.advanced(supply, n + m) == bag.advanced(supply, n).0.advanced(
            bag.advanced(supply, n).1,
            m,
        ),
        bag.drawn(supply, n + m) == bag.drawn(supply, n) + bag.advanced(supply, n).0.drawn(
            bag.advanced(supply, n).1,
            m,
        ),
    decreases n + m,
{
    let (mid, rest) = bag.advanced(supply, n);
    lemma_advanced_split(bag, supply, n, m);
    if m == 0 {
        assert(bag.drawn(supply, n) + mid.drawn(rest, 0) =~= bag.drawn(supply, n));
    } else {
        lemma_draws_split(bag, supply, n, (m - 1) as nat);
        lemma_advanced_split(bag, supply, n, (m - 1) as nat);
        assert(bag.drawn(supply, n + m) =~= bag.drawn(supply, n) + mid.drawn(rest, m));
    }
}

proof fn lemma_advanced_split(bag: BagView, supply: Seq<Seq<Shape>>, n: nat, m: nat)
    ensures
        bag.advanced(supply, n + m) == bag.advanced(supply, n).0.advanced(
            bag.advanced(supply, n).1,
            m,
        ),
    decreases n,
{
    if n > 0 {
        let after = bag.draw(supply[0]).0;
        let rest = if bag.refills() {
            supply.drop_first()
        } else {
            supply
        };
        lemma_advanced_split(after, rest, (n - 1) as nat, m);
    }
}

/// Seven draws that start at a bag boundary yield exactly the bag that
/// begins there, in its order, and end at the next boundary.
pub proof fn lemma_draws_of_a_bag(bag: BagView, supply: Seq<Seq<Shape>>)
    requires
        bag.current.len() == BAG_SIZE,
        bag.next.len() == BAG_SIZE,
        bag.index == -1 || bag.index == 6,
    ensures
        bag.index == -1 ==> bag.drawn(supply, 7) == bag.current && bag.advanced(supply, 7) == ((
            BagView { index: 6, ..bag },
            supply,
        )),
        bag.index == 6 ==> bag.drawn(supply, 7) == bag.next && bag.advanced(supply, 7) == ((
            BagView { index: 6, current: bag.next, next: supply[0] },
            supply.drop_first(),
        )),
{
    reveal_with_fuel(BagView::advanced, 8);
    reveal_with_fuel(BagView::drawn, 8);
    if bag.index == -1 {
        assert(bag.drawn(supply, 7) =~= bag.current);
    } else {
        assert(bag.drawn(supply, 7) =~= bag.next);
    }
}

/// Bag fairness. From a bag boundary, seven draws yield each of the seven
/// shapes exactly once, and fourteen draws yield each exactly twice,
/// whatever full bags the refills take.
pub proof fn lemma_bag_fairness(bag: BagView, supply: Seq<Seq<Shape>>)
    requires
        bag.wf(),
        bag.index == -1 || bag.index == 6,
        supply.len() >= 2,
        forall|k: int| 0 <= k < supply.len() ==> is_full_bag(#[trigger] supply[k]),
    ensures
        is_full_bag(bag.drawn(supply, 7)),
        forall|shape: Shape| #[trigger] bag.drawn(supply, 7).to_multiset().count(shape) == 1,
        bag.drawn(supply, 14).to_multiset() == all_shapes().to_multiset().add(
            all_shapes().to_multiset(),
        ),
        forall|shape: Shape| #[trigger] bag.drawn(supply, 14).to_multiset().count(shape) == 2,
{
    lemma_full_bag(bag.current);
    lemma_full_bag(bag.next);
    lemma_full_bag(supply[0]);
    lemma_draws_of_a_bag(bag, supply);
    let (mid, rest) = bag.advanced(supply, 7);
    lemma_draws_of_a_bag(mid, rest);
    lemma_draws_split(bag, supply, 7, 7);
    let first = bag.drawn(supply, 7);
    let second = mid.drawn(rest, 7);
    assert(is_full_bag(first) && is_full_bag(second));
    lemma_multiset_commutative(first, second);
    assert forall|shape: Shape| all_shapes().to_multiset().count(shape) == 1 by {
        lemma_occurrences(all_shapes(), shape);
        reveal_with_fuel(occurrences, 8);
    }
}

/// A preview agrees with the draws that follow: for `k` from 1 to 7, the
/// shape `k` draws ahead is the shape that the `k`-th draw from here yields,
/// whatever bags the refills take.
pub proof fn lemma_peek_is_kth_draw(bag: BagView, supply: Seq<Seq<Shape>>, k: nat)
    requires
        -1 <= bag.index <= 6,
        1 <= k <= 7,
    ensures
        bag.peek(k as int) == bag.drawn(supply, k)[k - 1],
{
    lemma_kth_draw(bag, supply, (k - 1) as nat);
}

/// The draw that follows `n` earlier ones, for `n` below 7, yields the shape
/// that was `n + 1` draws ahead.
proof fn lemma_kth_draw(bag: BagView, supply: Seq<Seq<Shape>>, n: nat)
    requires
        -1 <= bag.index <= 6,
        n <= 6,
    ensures
        bag.advanced(supply, n).0.draw(bag.advanced(supply, n).1[0]).1 == bag.peek(n + 1 as int),
        bag.drawn(supply, n + 1)[n as int] == bag.peek(n + 1 as int),
        -1 <= bag.advanced(supply, n).0.index <= 6,
    decreases n,
{
    if n > 0 {
        let after = bag.draw(supply[0]).0;
        let rest = if bag.refills() {
            supply.drop_first()
        } else {
            supply
        };
        lemma_kth_draw(after, rest, (n - 1) as nat);
        assert(after.peek(n as int) == bag.peek(n + 1 as int));
    }
    lemma_drawn_len(bag, supply, n);
}

/// `n` draws yield `n` shapes.
pub proof fn lemma_drawn_len(bag: BagView, supply: Seq<Seq<Shape>>, n: nat)
    ensures
        bag.drawn(supply, n).len() == n,
    decreases n,
{
    if n > 0 {
        lemma_drawn_len(bag, supply, (n - 1) as nat);
    }
}

} // verus!
