//! Deciding whether an image has the shape of a sudoku, and whether runs of
//! cell values are complete sets of the digits 1 to 9, as the rows, columns
//! and boxes of a solved sudoku are.

use std::collections::HashMap;
use vstd::prelude::*;
use vstd::arithmetic::div_mod::{lemma_fundamental_div_mod, lemma_fundamental_div_mod_converse};
use crate::image::GrayImage;

verus! {

broadcast use vstd::std_specs::hash::group_hash_axioms;

/// Whether `value` is one of the digits 1 to 9.
pub open spec fn is_digit(value: u16) -> bool {
    1 <= value <= 9
}

/// A map after a reset: every digit is a key and maps to `false`; the other
/// keys are as they were.
pub open spec fn reset_of(marks: Map<u16, bool>) -> Map<u16, bool> {
    Map::new(
        |k: u16| is_digit(k) || marks.dom().contains(k),
        |k: u16|
            if is_digit(k) {
                false
            } else {
                marks[k]
            },
    )
}

/// Whether the value at position `i` is a digit that has not occurred before
/// it in its group. Groups are the runs of `height` values, the first of
/// which starts at position 0.
pub open spec fn fresh_at(values: Seq<u16>, height: int, i: int) -> bool {
    &&& is_digit(values[i])
    &&& forall|j: int| i - i % height <= j < i ==> values[j] != values[i]
}

/// Whether every value is a digit that is new in its group.
pub open spec fn all_fresh(values: Seq<u16>, height: int) -> bool {
    forall|i: int| 0 <= i < values.len() ==> fresh_at(values, height, i)
}

/// The digits that are still missing in the group of position `i`, before
/// the value at `i` is looked at.
spec fn missing(values: Seq<u16>, height: int, i: int) -> Set<u16> {
    Set::new(
        |d: u16| is_digit(d) && forall|j: int| i - i % height <= j < i ==> values[j] != d,
    )
}

proof fn lemma_mod_step(i: int, h: int)
    requires
        0 <= i,
        0 < h,
    ensures
        0 <= i % h < h,
        (i + 1) % h == (if i % h + 1 == h {
            0
        } else {
            i % h + 1
        }),
{
    lemma_fundamental_div_mod(i, h);
    let q = i / h;
    let r = i % h;
    if r + 1 == h {
        assert(i + 1 == (q + 1) * h + 0) by (nonlinear_arith)
            requires
                i == h * q + r,
                r + 1 == h,
        ;
        lemma_fundamental_div_mod_converse(i + 1, h, q + 1, 0);
    } else {
        assert(i + 1 == q * h + (r + 1)) by (nonlinear_arith)
            requires
                i == h * q + r,
        ;
        lemma_fundamental_div_mod_converse(i + 1, h, q, r + 1);
    }
}

/// The digits that a row, a column or a box still lacks: the keys of the map.
pub struct RowColCheck {
    pub rc_check: HashMap<u16, bool>,
}

impl RowColCheck {
    /// A check without keys.
    pub fn new() -> (check: Self)
        ensures
            check.rc_check@ == Map::<u16, bool>::empty(),
    {
        RowColCheck { rc_check: HashMap::new() }
    }

    /// Makes every digit from 1 to 9 a key again, mapped to `false`.
    pub fn hash_reset(&mut self)
        ensures
            final(self).rc_check@ == reset_of(old(self).rc_check@),
    {
        let mut i: u16 = 1;
        while i < 10
            invariant
                1 <= i <= 10,
                self.rc_check@ == Map::new(
                    |k: u16| 1 <= k < i || old(self).rc_check@.dom().contains(k),
                    |k: u16|
                        if 1 <= k < i {
                            false
                        } else {
                            old(self).rc_check@[k]
                        },
                ),
            decreases 10 - i,
        {
            self.rc_check.insert(i, false);
            i += 1;
        }
        assert(self.rc_check@ =~= reset_of(old(self).rc_check@));
    }

    /// Strikes `value` off where it is a key that maps to `false`, and says
    /// whether it was one.
    pub fn strike(&mut self, value: u16) -> (found: bool)
        ensures
            found == (old(self).rc_check@.contains_key(value) && !old(self).rc_check@[value]),
            found ==> final(self).rc_check@ == old(self).rc_check@.remove(value),
            !found ==> final(self).rc_check@ == old(self).rc_check@,
    {
        let found = match self.rc_check.get(&value) {
            Some(mark) => !*mark,
            None => false,
        };
        if found {
            self.rc_check.remove(&value);
        }
        found
    }
}

/// Whether the image has the shape of a sudoku: nine rows of nine cells, and
/// the maximum 9.
pub fn is_puzzle_grid(image: &GrayImage) -> (ok: bool)
    ensures
        ok == (image.denominator == 9 && image.height == 9 && image.width == 9),
{
    image.denominator == 9 && image.height == 9 && image.width == 9
}

/// Whether every group of `height` values, taken in turn, holds digits from
/// 1 to 9 only and none of them twice.
pub fn groups_complete(values: &Vec<u16>, height: usize) -> (complete: bool)
    requires
        height > 0,
    ensures
        complete == all_fresh(values@, height as int),
{
    let mut check = RowColCheck::new();
    check.hash_reset();
    let mut count: usize = 0;
    assert(check.rc_check@.dom() =~= missing(values@, height as int, 0));
    while count < values.len()
        invariant
            height > 0,
            count <= values.len(),
            check.rc_check@.dom() == missing(values@, height as int, count as int),
            forall|d: u16| check.rc_check@.dom().contains(d) ==> !check.rc_check@[d],
            forall|i: int| 0 <= i < count ==> fresh_at(values@, height as int, i),
        decreases values.len() - count,
    {
        let value = values[count];
        if !check.strike(value) {
            assert(!fresh_at(values@, height as int, count as int));
            return false;
        }
        proof {
            lemma_mod_step(count as int, height as int);
        }
        if (count + 1) % height == 0 {
            check.hash_reset();
        }
        assert(check.rc_check@.dom() =~= missing(values@, height as int, count + 1));
        count += 1;
    }
    true
}

} // verus!
