use crate::side::{
    rect_collision_side_to_u32, side_bits, side_of_code, u32_to_rect_collision_side,
    RectCollisionSide,
};
use vstd::prelude::*;

verus! {

/// The bit set of the sides met by a sequence of contacts, `None` standing for
/// an obstacle that was not touched.
pub open spec fn mask_of(contacts: Seq<Option<RectCollisionSide>>) -> u32
    decreases contacts.len(),
{
    if contacts.len() == 0 {
        0
    } else {
        let before = mask_of(contacts.drop_last());
        match contacts.last() {
            Some(s) => before | side_bits(s),
            None => before,
        }
    }
}

/// The part of `contact` not among the sides in `before`, when it adds any.
pub open spec fn newly_met(before: u32, contact: Option<RectCollisionSide>) -> Option<
    RectCollisionSide,
> {
    match contact {
        Some(s) => {
            let after = before | side_bits(s);
            if after != before {
                Some(side_of_code(before ^ after))
            } else {
                None
            }
        },
        None => None,
    }
}

/// The bits a contact adds are a side's code, none of them already in `before`,
/// and together with `before` they make the new bit set.
proof fn lemma_added_bits(before: u32, s: RectCollisionSide)
    ensures
        ({
            let after = before | side_bits(s);
            let x = before ^ after;
            &&& side_bits(side_of_code(x)) == x
            &&& x & before == 0
            &&& x | after == after
        }),
{
    let b = side_bits(s);
    let after = before | b;
    let x = before ^ after;
    assert(x & before == 0 && x | after == after) by (bit_vector)
        requires
            after == before | b,
            x == before ^ after,
    ;
    assert(x == b & !before) by (bit_vector)
        requires
            after == before | b,
            x == before ^ after,
    ;
    match s {
        RectCollisionSide::NoSide => {
            assert(0u32 & !before == 0) by (bit_vector);
        },
        RectCollisionSide::Left => {
            assert(1u32 & !before == 0 || 1u32 & !before == 1) by (bit_vector);
        },
        RectCollisionSide::Right => {
            assert(2u32 & !before == 0 || 2u32 & !before == 2) by (bit_vector);
        },
        RectCollisionSide::Top => {
            assert(4u32 & !before == 0 || 4u32 & !before == 4) by (bit_vector);
        },
        RectCollisionSide::Bottom => {
            assert(8u32 & !before == 0 || 8u32 & !before == 8) by (bit_vector);
        },
        RectCollisionSide::TopLeft => {
            assert(5u32 & !before == 0 || 5u32 & !before == 1 || 5u32 & !before == 4 || 5u32
                & !before == 5) by (bit_vector);
        },
        RectCollisionSide::TopRight => {
            assert(6u32 & !before == 0 || 6u32 & !before == 2 || 6u32 & !before == 4 || 6u32
                & !before == 6) by (bit_vector);
        },
        RectCollisionSide::BottomLeft => {
            assert(9u32 & !before == 0 || 9u32 & !before == 1 || 9u32 & !before == 8 || 9u32
                & !before == 9) by (bit_vector);
        },
        RectCollisionSide::BottomRight => {
            assert(10u32 & !before == 0 || 10u32 & !before == 2 || 10u32 & !before == 8 || 10u32
                & !before == 10) by (bit_vector);
        },
    }
}

/// The bit set only grows along the contacts.
proof fn lemma_mask_grows(contacts: Seq<Option<RectCollisionSide>>, i: int, j: int)
    requires
        0 <= i <= j <= contacts.len(),
    ensures
        mask_of(contacts.take(i)) | mask_of(contacts.take(j)) == mask_of(contacts.take(j)),
    decreases j - i,
{
    let mi = mask_of(contacts.take(i));
    let mj = mask_of(contacts.take(j));
    if i == j {
        assert(mi | mi == mi) by (bit_vector);
    } else {
        lemma_mask_grows(contacts, i, j - 1);
        let mp = mask_of(contacts.take(j - 1));
        assert(contacts.take(j).drop_last() =~= contacts.take(j - 1));
        assert(contacts.take(j).last() == contacts[j - 1]);
        match contacts[j - 1] {
            Some(s) => {
                let b = side_bits(s);
                assert(mj == mp | b);
                assert(mi | mj == mj) by (bit_vector)
                    requires
                        mi | mp == mp,
                        mj == mp | b,
                ;
            },
            None => {
                assert(mj == mp);
            },
        }
    }
}

/// No side bit is corrected twice in one frame: the sides that two different
/// contacts newly add have no bit in common.
pub proof fn lemma_new_sides_disjoint(contacts: Seq<Option<RectCollisionSide>>, i: int, j: int)
    requires
        0 <= i < j < contacts.len(),
        newly_met(mask_of(contacts.take(i)), contacts[i]) is Some,
        newly_met(mask_of(contacts.take(j)), contacts[j]) is Some,
    ensures
        side_bits(newly_met(mask_of(contacts.take(i)), contacts[i])->0) & side_bits(
            newly_met(mask_of(contacts.take(j)), contacts[j])->0,
        ) == 0,
{
    let mi = mask_of(contacts.take(i));
    let mj = mask_of(contacts.take(j));
    let m1 = mask_of(contacts.take(i + 1));
    let si = contacts[i]->0;
    let sj = contacts[j]->0;
    lemma_added_bits(mi, si);
    lemma_added_bits(mj, sj);
    lemma_mask_grows(contacts, i + 1, j);
    assert(contacts.take(i + 1).drop_last() =~= contacts.take(i));
    assert(contacts.take(i + 1).last() == contacts[i]);
    let xi = mi ^ (mi | side_bits(si));
    let xj = mj ^ (mj | side_bits(sj));
    assert(m1 == mi | side_bits(si));
    assert(xi & xj == 0) by (bit_vector)
        requires
            xi | m1 == m1,
            m1 | mj == mj,
            xj & mj == 0,
    ;
}

/// For the contacts of one moving body with each obstacle of a frame, in
/// order, the side each contact newly adds to the sides met before it: the
/// side along which that obstacle's correction is applied, or `None` when the
/// obstacle adds no side and so gets no correction.
pub fn new_contact_sides(contacts: &Vec<Option<RectCollisionSide>>) -> (r: Vec<
    Option<RectCollisionSide>,
>)
    ensures
        r@.len() == contacts@.len(),
        forall|i: int|
            0 <= i < r@.len() ==> #[trigger] r@[i] == newly_met(
                mask_of(contacts@.take(i)),
                contacts@[i],
            ),
{
    let mut r: Vec<Option<RectCollisionSide>> = Vec::new();
    let mut mask: u32 = 0;
    let mut i: usize = 0;
    assert(contacts@.take(0) =~= Seq::<Option<RectCollisionSide>>::empty());
    while i < contacts.len()
        invariant
            i <= contacts@.len(),
            r@.len() == i,
            mask == mask_of(contacts@.take(i as int)),
            forall|j: int|
                0 <= j < i ==> #[trigger] r@[j] == newly_met(
                    mask_of(contacts@.take(j)),
                    contacts@[j],
                ),
        decreases contacts@.len() - i,
    {
        let c = contacts[i];
        assert(contacts@.take(i as int + 1).drop_last() =~= contacts@.take(i as int));
        assert(contacts@.take(i as int + 1).last() == contacts@[i as int]);
        match c {
            Some(s) => {
                let after = mask | rect_collision_side_to_u32(s);
                if after != mask {
                    r.push(Some(u32_to_rect_collision_side(mask ^ after)));
                } else {
                    r.push(None);
                }
                mask = after;
            },
            None => {
                r.push(None);
            },
        }
        i += 1;
    }
    r
}

} // verus!
