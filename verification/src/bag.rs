use vstd::prelude::*;

use vstd::multiset::{group_multiset_axioms, Multiset};
use vstd::seq_lib::group_to_multiset_ensures;

use rand::seq::SliceRandom;

use crate::tetromino_type::TetrominoType;

verus! {

/// Model of the piece generator: the current bag and the lookahead bag,
/// each an ordered sequence consumed by popping from the end.
pub ghost struct BagModel {
    pub bag: Seq<TetrominoType>,
    pub lookahead: Seq<TetrominoType>,
}

/// One of each of the seven shapes.
pub open spec fn full_bag() -> Multiset<TetrominoType> {
    seq![
        TetrominoType::I,
        TetrominoType::L,
        TetrominoType::J,
        TetrominoType::O,
        TetrominoType::Z,
        TetrominoType::S,
        TetrominoType::T,
    ].to_multiset()
}

/// The full set holds each shape once and the empty marker not at all.
pub proof fn lemma_full_bag_counts()
    ensures
        full_bag().len() == 7,
        full_bag().count(TetrominoType::E) == 0,
        forall|t: TetrominoType|
            t != TetrominoType::E ==> #[trigger] full_bag().count(t) == 1,
{
    broadcast use group_to_multiset_ensures, group_multiset_axioms;

    let s0 = Seq::<TetrominoType>::empty();
    let s1 = s0.push(TetrominoType::I);
    let s2 = s1.push(TetrominoType::L);
    let s3 = s2.push(TetrominoType::J);
    let s4 = s3.push(TetrominoType::O);
    let s5 = s4.push(TetrominoType::Z);
    let s6 = s5.push(TetrominoType::S);
    let s7 = s6.push(TetrominoType::T);
    assert forall|t: TetrominoType| #[trigger] s0.to_multiset().count(t) == 0 by {
        assert(!s0.contains(t));
    }
    assert(s7 =~= seq![
        TetrominoType::I,
        TetrominoType::L,
        TetrominoType::J,
        TetrominoType::O,
        TetrominoType::Z,
        TetrominoType::S,
        TetrominoType::T,
    ]);
    assert(full_bag() =~= s0.to_multiset().insert(TetrominoType::I).insert(
        TetrominoType::L,
    ).insert(TetrominoType::J).insert(TetrominoType::O).insert(TetrominoType::Z).insert(
        TetrominoType::S,
    ).insert(TetrominoType::T));
}

/// Drained completely, a bag that holds the full set yields each of the
/// seven shapes exactly once, in some order.
pub proof fn lemma_full_bag_each_shape_once(s: Seq<TetrominoType>)
    requires
        s.to_multiset() == full_bag(),
    ensures
        s.len() == 7,
        s.to_multiset().count(TetrominoType::E) == 0,
        forall|t: TetrominoType|
            t != TetrominoType::E ==> #[trigger] s.to_multiset().count(t) == 1,
{
    broadcast use group_to_multiset_ensures;

    lemma_full_bag_counts();
}

/// How one draw changes the generator: the last shape leaves the current
/// bag; when that empties the bag, the lookahead becomes current and a
/// freshly shuffled full permutation takes its place.
pub open spec fn bag_step(pre: BagModel, post: BagModel) -> bool {
    if pre.bag.len() > 1 {
        &&& post.bag == pre.bag.drop_last()
        &&& post.lookahead == pre.lookahead
    } else {
        &&& post.bag == pre.lookahead
        &&& post.lookahead.to_multiset() == full_bag()
    }
}

/// The shape `i` draws from now, reading the tail of the current bag and
/// then the tail of the lookahead bag.
pub open spec fn upcoming(m: BagModel, i: int) -> TetrominoType {
    if i < m.bag.len() {
        m.bag[m.bag.len() - 1 - i]
    } else {
        m.lookahead[m.lookahead.len() - 1 - (i - m.bag.len())]
    }
}

/// The bag randomizer: an ordered permutation of the seven shapes consumed
/// from the end, plus a second, already-shuffled bag of lookahead. Each
/// filled bag holds every shape exactly once, which bounds the gap between
/// repeats of one shape to twelve pieces.
pub struct PieceBag {
    bag: Vec<TetrominoType>,
    next_bag: Vec<TetrominoType>,
}

impl View for PieceBag {
    type V = BagModel;

    closed spec fn view(&self) -> BagModel {
        BagModel { bag: self.bag@, lookahead: self.next_bag@ }
    }
}

impl PieceBag {
    /// The current bag is a nonempty part of one full set; the lookahead
    /// bag always holds a full set.
    pub open spec fn wf(&self) -> bool {
        &&& 1 <= self@.bag.len() <= 7
        &&& self@.bag.to_multiset().subset_of(full_bag())
        &&& self@.lookahead.to_multiset() == full_bag()
    }

    /// Relies on rand's slice shuffle: it reorders the elements of the
    /// vector in place, a permutation of the elements chosen uniformly.
    #[verifier::external_body]
    fn shuffle_shapes(v: &mut Vec<TetrominoType>)
        ensures
            final(v)@.to_multiset() == old(v)@.to_multiset(),
            final(v)@.len() == old(v)@.len(),
    {
        v.shuffle(&mut rand::rng());
    }

    /// A freshly shuffled bag of all seven shapes.
    fn fresh_shuffled() -> (v: Vec<TetrominoType>)
        ensures
            v@.to_multiset() == full_bag(),
            v@.len() == 7,
    {
        let mut v: Vec<TetrominoType> = Vec::new();
        v.push(TetrominoType::from_u8(1));
        v.push(TetrominoType::from_u8(2));
        v.push(TetrominoType::from_u8(3));
        v.push(TetrominoType::from_u8(4));
        v.push(TetrominoType::from_u8(5));
        v.push(TetrominoType::from_u8(6));
        v.push(TetrominoType::from_u8(7));
        proof {
            assert(v@ =~= seq![
                TetrominoType::I,
                TetrominoType::L,
                TetrominoType::J,
                TetrominoType::O,
                TetrominoType::Z,
                TetrominoType::S,
                TetrominoType::T,
            ]);
        }
        Self::shuffle_shapes(&mut v);
        v
    }

    /// Two freshly shuffled bags: a full current bag and a full lookahead.
    pub fn new() -> (b: PieceBag)
        ensures
            b.wf(),
            b@.bag.to_multiset() == full_bag(),
            b@.bag.len() == 7,
            b@.lookahead.to_multiset() == full_bag(),
    {
        let bag = Self::fresh_shuffled();
        let next_bag = Self::fresh_shuffled();
        PieceBag { bag, next_bag }
    }

    /// Removes and returns the last shape of the current bag; when the bag
    /// empties, promotes the lookahead bag and shuffles a fresh one, so the
    /// bag is never left empty.
    pub fn next_shape(&mut self) -> (s: TetrominoType)
        requires
            old(self).wf(),
        ensures
            final(self).wf(),
            s == old(self)@.bag.last(),
            s != TetrominoType::E,
            bag_step(old(self)@, final(self)@),
    {
        let ghost pre_bag = self.bag@;
        let s = self.bag.pop().unwrap();
        proof {
            broadcast use group_to_multiset_ensures, group_multiset_axioms;

            lemma_full_bag_counts();
            assert(pre_bag.contains(s));
            assert(pre_bag.to_multiset().count(s) > 0);
            assert(pre_bag.to_multiset().count(s) <= full_bag().count(s));
            assert(s != TetrominoType::E);
            assert(self.bag@ =~= pre_bag.remove(pre_bag.len() - 1));
            assert(self.bag@.to_multiset() =~= pre_bag.to_multiset().remove(s));
            assert forall|t: TetrominoType| #[trigger] self.bag@.to_multiset().count(t)
                <= full_bag().count(t) by {
                assert(pre_bag.to_multiset().count(t) <= full_bag().count(t));
            }
        }
        if self.bag.len() == 0 {
            core::mem::swap(&mut self.bag, &mut self.next_bag);
            self.next_bag = Self::fresh_shuffled();
            proof {
                broadcast use group_to_multiset_ensures;

                lemma_full_bag_counts();
                assert(self.bag@.len() == self.bag@.to_multiset().len());
            }
        }
        s
    }

    /// The next `n` upcoming shapes, oldest first, without consuming:
    /// reads the tail of the current bag, then the tail of the lookahead.
    pub fn preview(&self, n: usize) -> (v: Vec<TetrominoType>)
        requires
            self.wf(),
            n <= 8,
        ensures
            v@.len() == n,
            forall|i: int| 0 <= i < n ==> #[trigger] v@[i] == upcoming(self@, i),
    {
        proof {
            broadcast use group_to_multiset_ensures;

            lemma_full_bag_counts();
            assert(self.next_bag@.len() == self.next_bag@.to_multiset().len());
        }
        let mut v: Vec<TetrominoType> = Vec::new();
        let b = self.bag.len();
        for i in 0..n
            invariant
                self.wf(),
                n <= 8,
                b == self@.bag.len(),
                self@.lookahead.len() == 7,
                v@.len() == i,
                forall|j: int| 0 <= j < i ==> #[trigger] v@[j] == upcoming(self@, j),
        {
            if i < b {
                v.push(self.bag[b - 1 - i]);
            } else {
                let j = i - b;
                v.push(self.next_bag[self.next_bag.len() - 1 - j]);
            }
        }
        v
    }
}

} // verus!
