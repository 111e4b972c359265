//! Per-square highlight projection.
//!
//! The highlight map is a 64-entry array of small integer tags consumed
//! by the presentation layer: no annotation, reachable target of the
//! selected origin, endpoint of the last completed move, or currently
//! selected origin. The map is stored in display orientation, so a
//! toggle of the display rotation mirrors it in place.

use crate::board::{spec_square_pos, square_pos};
use vstd::prelude::*;

verus! {

/// No annotation on the square.
pub const TAG_NONE: i8 = 0;

/// The square is a legal destination of the selected origin.
pub const TAG_TARGET: i8 = 1;

/// The square is an endpoint of the last completed move.
pub const TAG_LAST_MOVE: i8 = 2;

/// The square is the currently selected origin.
pub const TAG_SELECTED: i8 = -1;

/// The all-clear highlight map.
pub open spec fn spec_blank_map() -> Seq<i8> {
    Seq::new(64, |i: int| TAG_NONE)
}

/// The map mirrored in place: entry i takes the value of entry 63 - i.
pub open spec fn spec_mirrored(s: Seq<i8>) -> Seq<i8> {
    Seq::new(64, |i: int| s[63 - i])
}

/// The map after a completed move from `from` to `to`: exactly the two
/// endpoints carry the last-move tag, in display orientation.
pub open spec fn spec_last_move_map(rotated: bool, from: int, to: int) -> Seq<i8> {
    Seq::new(
        64,
        |i: int|
            if i == spec_square_pos(rotated, from) || i == spec_square_pos(rotated, to) {
                TAG_LAST_MOVE
            } else {
                TAG_NONE
            },
    )
}

/// The map after an origin was selected: the origin carries the selected
/// tag, its legal destinations the target tag, everything else is clear,
/// all in display orientation. The origin wins over a destination equal
/// to it.
pub open spec fn spec_source_map(rotated: bool, from: int, targets: Seq<u8>) -> Seq<i8> {
    Seq::new(
        64,
        |i: int|
            if i == spec_square_pos(rotated, from) {
                TAG_SELECTED
            } else if exists|k: int|
                0 <= k < targets.len() && spec_square_pos(rotated, targets[k] as int) == i {
                TAG_TARGET
            } else {
                TAG_NONE
            },
    )
}

/// The highlight map: one tag per square, in display orientation.
pub struct HighlightMap {
    tags: Vec<i8>,
}

impl View for HighlightMap {
    type V = Seq<i8>;

    closed spec fn view(&self) -> Seq<i8> {
        self.tags@
    }
}

impl HighlightMap {
    /// The map always holds exactly one tag per square.
    pub open spec fn wf(&self) -> bool {
        self@.len() == 64
    }

    /// A fresh, all-clear map.
    pub fn new() -> (r: HighlightMap)
        ensures
            r.wf(),
            r@ =~= spec_blank_map(),
    {
        let mut tags: Vec<i8> = Vec::new();
        let mut i: usize = 0;
        while i < 64
            invariant
                i <= 64,
                tags@.len() == i,
                forall|j: int| 0 <= j < i ==> tags@[j] == TAG_NONE,
            decreases 64 - i,
        {
            tags.push(TAG_NONE);
            i = i + 1;
        }
        HighlightMap { tags }
    }

    /// The tag of the square at display position `i`.
    pub fn get(&self, i: usize) -> (r: i8)
        requires
            self.wf(),
            i < 64,
        ensures
            r == self@[i as int],
    {
        self.tags[i]
    }

    /// Clear every square.
    pub fn clear(&mut self)
        requires
            old(self).wf(),
        ensures
            final(self).wf(),
            final(self)@ =~= spec_blank_map(),
    {
        let mut i: usize = 0;
        while i < 64
            invariant
                i <= 64,
                self.tags@.len() == 64,
                forall|j: int| 0 <= j < i ==> self.tags@[j] == TAG_NONE,
            decreases 64 - i,
        {
            self.tags.set(i, TAG_NONE);
            i = i + 1;
        }
    }

    /// Mirror the map in place, keeping previously computed tags
    /// visually correct after a display-rotation toggle.
    pub fn mirror(&mut self)
        requires
            old(self).wf(),
        ensures
            final(self).wf(),
            final(self)@ =~= spec_mirrored(old(self)@),
    {
        let mut mirrored: Vec<i8> = Vec::new();
        let mut i: usize = 0;
        while i < 64
            invariant
                i <= 64,
                self.tags@.len() == 64,
                self.tags@ == old(self)@,
                mirrored@.len() == i,
                forall|j: int| 0 <= j < i ==> mirrored@[j] == old(self)@[63 - j],
            decreases 64 - i,
        {
            mirrored.push(self.tags[63 - i]);
            i = i + 1;
        }
        self.tags = mirrored;
    }

    /// Record a completed move: clear the map, then tag both endpoints
    /// as last-move at their display positions.
    pub fn mark_last_move(&mut self, rotated: bool, from: u8, to: u8)
        requires
            old(self).wf(),
            from < 64,
            to < 64,
        ensures
            final(self).wf(),
            final(self)@ =~= spec_last_move_map(rotated, from as int, to as int),
    {
        self.clear();
        let pf = square_pos(rotated, from);
        let pt = square_pos(rotated, to);
        self.tags.set(pf as usize, TAG_LAST_MOVE);
        self.tags.set(pt as usize, TAG_LAST_MOVE);
    }

    /// Record a selected origin and its legal destinations: clear the
    /// map, tag each destination as a target, then tag the origin as
    /// selected, all at their display positions.
    pub fn mark_source(&mut self, rotated: bool, from: u8, targets: &Vec<u8>)
        requires
            old(self).wf(),
            from < 64,
            forall|k: int| 0 <= k < targets@.len() ==> targets@[k] < 64,
        ensures
            final(self).wf(),
            final(self)@ =~= spec_source_map(rotated, from as int, targets@),
    {
        self.clear();
        let ghost all = targets@;
        let mut k: usize = 0;
        while k < targets.len()
            invariant
                k <= all.len(),
                targets@ == all,
                forall|j: int| 0 <= j < all.len() ==> all[j] < 64,
                self.tags@.len() == 64,
                forall|i: int|
                    0 <= i < 64 ==> self.tags@[i] == (if exists|j: int|
                        0 <= j < k && spec_square_pos(rotated, all[j] as int) == i {
                        TAG_TARGET
                    } else {
                        TAG_NONE
                    }),
            decreases targets@.len() - k,
        {
            let p = square_pos(rotated, targets[k]);
            self.tags.set(p as usize, TAG_TARGET);
            proof {
                let prev = k as int;
                assert forall|i: int| 0 <= i < 64 implies self.tags@[i] == (if exists|j: int|
                    0 <= j < prev + 1 && spec_square_pos(rotated, all[j] as int) == i {
                    TAG_TARGET
                } else {
                    TAG_NONE
                }) by {
                    if i == spec_square_pos(rotated, all[prev] as int) {
                        assert(0 <= prev < prev + 1 && spec_square_pos(rotated, all[prev] as int)
                            == i);
                    } else {
                        if exists|j: int|
                            0 <= j < prev + 1 && spec_square_pos(rotated, all[j] as int) == i {
                            let j = choose|j: int|
                                0 <= j < prev + 1 && spec_square_pos(rotated, all[j] as int) == i;
                            assert(0 <= j < prev && spec_square_pos(rotated, all[j] as int) == i);
                        }
                    }
                }
            }
            k = k + 1;
        }
        let pf = square_pos(rotated, from);
        self.tags.set(pf as usize, TAG_SELECTED);
    }
}

/// Mirroring the highlight map is its own inverse: toggling the display
/// rotation twice in succession restores the map to its pre-toggle
/// contents exactly.
pub proof fn lemma_mirror_involutive(s: Seq<i8>)
    requires
        s.len() == 64,
    ensures
        spec_mirrored(spec_mirrored(s)) =~= s,
{
}

/// After a completed move the map shows exactly the two move endpoints
/// tagged as last-move and every other square clear; two distinct
/// squares keep distinct display positions.
pub proof fn lemma_last_move_exactly_two(rotated: bool, from: int, to: int)
    requires
        0 <= from < 64,
        0 <= to < 64,
        from != to,
    ensures
        spec_last_move_map(rotated, from, to)[spec_square_pos(rotated, from)] == TAG_LAST_MOVE,
        spec_last_move_map(rotated, from, to)[spec_square_pos(rotated, to)] == TAG_LAST_MOVE,
        spec_square_pos(rotated, from) != spec_square_pos(rotated, to),
        forall|i: int|
            0 <= i < 64 && i != spec_square_pos(rotated, from) && i != spec_square_pos(rotated, to)
                ==> spec_last_move_map(rotated, from, to)[i] == TAG_NONE,
{
}

} // verus!
