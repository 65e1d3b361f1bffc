//! Row layout: evenly spaced horizontal slots, centered at x = 0, for the
//! in-play cards of a given role.

use vstd::prelude::*;

use crate::cards::Card;
use crate::cards::Role;
use crate::geometry::Point;
use crate::table::Table;

verus! {

/// Width of a card sprite, in world units.
pub const CARD_WIDTH: i64 = 120;

/// Height of a card sprite, in world units.
pub const CARD_HEIGHT: i64 = 168;

/// Half the width of a card sprite: the horizontal half-extent of its
/// bounds.
pub const CARD_HALF_WIDTH: i64 = 60;

/// Half the height of a card sprite: the vertical half-extent of its bounds.
pub const CARD_HALF_HEIGHT: i64 = 84;

/// Horizontal slot width of the character row: a full card height.
pub const CHARACTER_SLOT_WIDTH: i64 = 168;

/// Horizontal slot width of the resource ("Don") row: half a card height.
pub const DON_SLOT_WIDTH: i64 = 84;

/// Vertical position of the character row.
pub const CHARACTER_ROW_Y: i64 = 0;

/// Vertical position of the resource ("Don") row: one and a half card
/// heights above the character row.
pub const DON_ROW_Y: i64 = 252;

/// Horizontal offset assigned to slot `i` of a row of `n` cards with slot
/// width `w`: the leftmost slot sits at `-(n - 1) * w / 2` and each later
/// slot is one slot width further right, so the whole row is centered at 0.
/// Exact whenever `w` is even.
pub open spec fn slot_offset(i: int, n: int, w: int) -> int {
    i * w - (n - 1) * (w / 2)
}

/// Sum of the offsets of the first `k` slots of a row of `n` cards.
pub open spec fn sum_prefix_offsets(k: int, n: int, w: int) -> int
    decreases k,
{
    if k <= 0 {
        0
    } else {
        sum_prefix_offsets(k - 1, n, w) + slot_offset(k - 1, n, w)
    }
}

/// Sum of a sequence of coordinates.
pub open spec fn seq_sum(s: Seq<i64>) -> int
    decreases s.len(),
{
    if s.len() == 0 {
        0
    } else {
        seq_sum(s.drop_last()) + s.last()
    }
}

/// Every slot offset is bounded by the row's total width.
pub proof fn lemma_slot_offset_bound(i: int, n: int, w: int)
    requires
        0 <= i < n,
        0 <= w,
        w % 2 == 0,
    ensures
        -(n * w) <= slot_offset(i, n, w) <= n * w,
{
    let h = w / 2;
    assert(-(n * w) <= i * w - (n - 1) * h <= n * w) by (nonlinear_arith)
        requires
            0 <= i < n,
            0 <= h,
            w == 2 * h,
    ;
}

/// Closed form of the prefix sums: the first `k` slot offsets of a row of
/// `n` cards with even slot width `w` sum to `(w / 2) * k * (k - n)`.
pub proof fn lemma_sum_prefix_closed(k: int, n: int, w: int)
    requires
        0 <= k,
        w % 2 == 0,
    ensures
        sum_prefix_offsets(k, n, w) == (w / 2) * k * (k - n),
    decreases k,
{
    let h = w / 2;
    if k == 0 {
        assert(h * 0 * (0 - n) == 0) by (nonlinear_arith);
    } else {
        lemma_sum_prefix_closed(k - 1, n, w);
        assert(h * (k - 1) * ((k - 1) - n) + ((k - 1) * w - (n - 1) * h) == h * k * (k - n))
            by (nonlinear_arith)
            requires
                w == 2 * h,
        ;
    }
}

/// The row is symmetric: for any number of cards, the offsets of all the
/// slots of a row with even slot width sum to exactly zero.
pub proof fn lemma_row_offsets_sum_zero(n: int, w: int)
    requires
        0 <= n,
        w % 2 == 0,
    ensures
        sum_prefix_offsets(n, n, w) == 0,
{
    lemma_sum_prefix_closed(n, n, w);
    assert((w / 2) * n * (n - n) == 0) by (nonlinear_arith);
}

/// The symmetry law over a concrete row: any sequence of coordinates that
/// assigns slot `i` the offset `slot_offset(i, n, w)` sums to exactly zero.
pub proof fn lemma_row_sum_zero(s: Seq<i64>, n: int, w: int)
    requires
        s.len() == n,
        w % 2 == 0,
        forall|i: int| 0 <= i < n ==> s[i] == slot_offset(i, n, w),
    ensures
        seq_sum(s) == 0,
{
    lemma_seq_sum_matches_prefix(s, n, n, w);
    lemma_row_offsets_sum_zero(n, w);
    assert(s.take(n) =~= s);
}

/// A row of a single card places that card exactly at the center, x = 0.
pub proof fn lemma_single_card_at_center(w: int)
    ensures
        slot_offset(0, 1, w) == 0,
{
}

/// A row of three cards with even slot width `w` places the cards at `-w`,
/// `0` and `w`, in slot order.
pub proof fn lemma_three_cards_flank_center(w: int)
    requires
        w % 2 == 0,
    ensures
        slot_offset(0, 3, w) == -w,
        slot_offset(1, 3, w) == 0,
        slot_offset(2, 3, w) == w,
{
    let h = w / 2;
    assert(w == 2 * h);
}

proof fn lemma_seq_sum_matches_prefix(s: Seq<i64>, k: int, n: int, w: int)
    requires
        s.len() == n,
        0 <= k <= n,
        forall|i: int| 0 <= i < n ==> s[i] == slot_offset(i, n, w),
    ensures
        seq_sum(s.take(k)) == sum_prefix_offsets(k, n, w),
    decreases k,
{
    if k == 0 {
        assert(s.take(0) =~= Seq::<i64>::empty());
    } else {
        lemma_seq_sum_matches_prefix(s, k - 1, n, w);
        assert(s.take(k).drop_last() =~= s.take(k - 1));
        assert(s.take(k).last() == s[k - 1]);
    }
    if k == n {
        assert(s.take(n) =~= s);
    }
}

/// Number of cards in the sequence that are in play with the given role.
pub open spec fn spec_count_role(cards: Seq<Card>, role: Role) -> int
    decreases cards.len(),
{
    if cards.len() == 0 {
        0
    } else {
        spec_count_role(cards.drop_last(), role) + if cards.last().is_in_play_with_role(role) {
            1int
        } else {
            0int
        }
    }
}

/// Rank of the card at position `j` within its row: how many cards before
/// it, in iteration order, are in play with the same role.
pub open spec fn spec_rank(cards: Seq<Card>, j: int, role: Role) -> int {
    spec_count_role(cards.take(j), role)
}

/// The horizontal position the row layout assigns to the card at position
/// `j`: the slot offset of its rank within a row as wide as the whole count.
pub open spec fn spec_slot_x(cards: Seq<Card>, j: int, role: Role, w: int) -> i64 {
    slot_offset(spec_rank(cards, j, role), spec_count_role(cards, role), w) as i64
}

/// The count of a role never exceeds the number of cards and is never
/// negative.
pub proof fn lemma_count_role_bounds(cards: Seq<Card>, role: Role)
    ensures
        0 <= spec_count_role(cards, role) <= cards.len(),
    decreases cards.len(),
{
    if cards.len() > 0 {
        lemma_count_role_bounds(cards.drop_last(), role);
    }
}

proof fn lemma_count_step(cards: Seq<Card>, j: int, role: Role)
    requires
        0 <= j < cards.len(),
    ensures
        spec_count_role(cards.take(j + 1), role) == spec_count_role(cards.take(j), role) + if cards[j].is_in_play_with_role(role) {
            1int
        } else {
            0int
        },
{
    assert(cards.take(j + 1).drop_last() =~= cards.take(j));
    assert(cards.take(j + 1).last() == cards[j]);
}

proof fn lemma_count_take_le(cards: Seq<Card>, j: int, role: Role)
    requires
        0 <= j <= cards.len(),
    ensures
        spec_count_role(cards.take(j), role) <= spec_count_role(cards, role),
    decreases cards.len() - j,
{
    if j == cards.len() {
        assert(cards.take(j) =~= cards);
    } else {
        lemma_count_step(cards, j, role);
        lemma_count_take_le(cards, j + 1, role);
    }
}

/// Two rows whose cards match the role pointwise have the same count.
proof fn lemma_count_equal_pointwise(s1: Seq<Card>, s2: Seq<Card>, role: Role)
    requires
        s1.len() == s2.len(),
        forall|m: int|
            0 <= m < s1.len() ==> (#[trigger] s2[m]).is_in_play_with_role(role) == (
            #[trigger] s1[m]).is_in_play_with_role(role),
    ensures
        spec_count_role(s1, role) == spec_count_role(s2, role),
    decreases s1.len(),
{
    if s1.len() > 0 {
        lemma_count_equal_pointwise(s1.drop_last(), s2.drop_last(), role);
    }
}

/// Relation between a card sequence before and after laying out the row of
/// one role: each card of that role in play moves to the slot of its rank,
/// at the row's height; every other card is untouched.
pub open spec fn row_arranged(pre: Seq<Card>, post: Seq<Card>, role: Role, w: int, row_y: i64) -> bool {
    &&& post.len() == pre.len()
    &&& forall|j: int|
        0 <= j < pre.len() && (#[trigger] pre[j]).is_in_play_with_role(role) ==> post[j] == pre[j].spec_placed(
            spec_slot_x(pre, j, role, w),
            row_y,
        )
    &&& forall|j: int|
        0 <= j < pre.len() && !(#[trigger] pre[j]).is_in_play_with_role(role) ==> post[j] == pre[j]
}

/// Reposition every card that is in play with the given role: the cards
/// keep their iteration order and receive evenly spaced horizontal slots
/// centered at x = 0, all at the row's height. Cards of other roles, out of
/// play, or without a role are untouched. For a fixed input ordering the
/// output is fully deterministic; the ordering itself is the order of the
/// sequence, which the caller must keep stable for reproducible layouts.
pub fn arrange_row(cards: &mut Vec<Card>, role: Role, slot_width: i64, row_y: i64)
    requires
        0 <= slot_width,
        slot_width % 2 == 0,
        spec_count_role(old(cards)@, role) * slot_width <= i64::MAX,
    ensures
        row_arranged(old(cards)@, final(cards)@, role, slot_width as int, row_y),
{
    let ghost pre = cards@;
    let n = cards.len();
    let mut total: usize = 0;
    let mut j: usize = 0;
    while j < n
        invariant
            j <= n,
            n == cards@.len(),
            cards@ == pre,
            total == spec_count_role(pre.take(j as int), role),
            total <= j,
        decreases n - j,
    {
        proof {
            lemma_count_step(pre, j as int, role);
        }
        if cards[j].has_role_in_play(role) {
            total = total + 1;
        }
        j = j + 1;
    }
    proof {
        assert(pre.take(n as int) =~= pre);
    }
    let half: i64 = slot_width / 2;
    let mut rank: usize = 0;
    j = 0;
    while j < n
        invariant
            j <= n,
            n == pre.len(),
            cards@.len() == pre.len(),
            0 <= slot_width,
            slot_width % 2 == 0,
            half == slot_width / 2,
            total == spec_count_role(pre, role),
            total * slot_width <= i64::MAX,
            rank == spec_count_role(pre.take(j as int), role),
            rank <= j,
            forall|m: int| j <= m < n ==> cards@[m] == pre[m],
            forall|m: int|
                0 <= m < j && (#[trigger] pre[m]).is_in_play_with_role(role) ==> cards@[m]
                    == pre[m].spec_placed(
                    spec_slot_x(pre, m, role, slot_width as int),
                    row_y,
                ),
            forall|m: int|
                0 <= m < j && !(#[trigger] pre[m]).is_in_play_with_role(role) ==> cards@[m]
                    == pre[m],
        decreases n - j,
    {
        proof {
            lemma_count_step(pre, j as int, role);
            lemma_count_take_le(pre, j as int + 1, role);
            lemma_count_role_bounds(pre.take(j as int), role);
        }
        if cards[j].has_role_in_play(role) {
            proof {
                lemma_slot_offset_bound(rank as int, total as int, slot_width as int);
                assert(0 <= rank as int * slot_width as int <= total as int * slot_width as int)
                    by (nonlinear_arith)
                    requires
                        0 <= rank as int <= total as int,
                        0 <= slot_width as int,
                ;
                assert(0 <= (total as int - 1) * (slot_width as int / 2) <= total as int
                    * slot_width as int) by (nonlinear_arith)
                    requires
                        1 <= total as int,
                        0 <= slot_width as int,
                        0 <= slot_width as int / 2 <= slot_width as int,
                ;
            }
            let x128: i128 = rank as i128 * slot_width as i128 - (total as i128 - 1)
                * half as i128;
            let x: i64 = x128 as i64;
            cards[j].position = Point { x, y: row_y };
            rank = rank + 1;
        }
        j = j + 1;
    }
}

/// Relation between the table's cards before and after recomputing both
/// rows: in-play character cards line up at the character row's height with
/// character slot spacing, in-play resource ("Don") cards at the resource
/// row's height with resource slot spacing, and every other card is
/// untouched. Both rows are centered at x = 0 and ranked by the one
/// iteration order of the sequence.
pub open spec fn rows_arranged(pre: Seq<Card>, post: Seq<Card>) -> bool {
    &&& post.len() == pre.len()
    &&& forall|j: int|
        0 <= j < pre.len() && (#[trigger] pre[j]).is_in_play_with_role(Role::CharacterCard)
            ==> post[j] == pre[j].spec_placed(
            spec_slot_x(pre, j, Role::CharacterCard, CHARACTER_SLOT_WIDTH as int),
            CHARACTER_ROW_Y,
        )
    &&& forall|j: int|
        0 <= j < pre.len() && (#[trigger] pre[j]).is_in_play_with_role(Role::DonCard) ==> post[j]
            == pre[j].spec_placed(
            spec_slot_x(pre, j, Role::DonCard, DON_SLOT_WIDTH as int),
            DON_ROW_Y,
        )
    &&& forall|j: int|
        0 <= j < pre.len() && !(#[trigger] pre[j]).is_in_play_with_role(Role::CharacterCard) && !(
        #[trigger] pre[j]).is_in_play_with_role(Role::DonCard) ==> post[j] == pre[j]
}

impl Table {
    /// Recompute both play rows, on explicit trigger: reposition the
    /// in-play character cards into an evenly spaced row at the character
    /// row's height, and the in-play resource ("Don") cards into their own,
    /// more tightly spaced row above it. Every other card, the cursor and
    /// the handle counter are untouched.
    pub fn arrange_rows(&mut self)
        requires
            spec_count_role(old(self).cards@, Role::CharacterCard) * CHARACTER_SLOT_WIDTH
                <= i64::MAX,
            spec_count_role(old(self).cards@, Role::DonCard) * DON_SLOT_WIDTH <= i64::MAX,
        ensures
            rows_arranged(old(self).cards@, final(self).cards@),
            final(self).cursor == old(self).cursor,
            final(self).next_id == old(self).next_id,
            old(self).wf() ==> final(self).wf(),
    {
        let ghost pre = self.cards@;
        arrange_row(&mut self.cards, Role::CharacterCard, CHARACTER_SLOT_WIDTH, CHARACTER_ROW_Y);
        let ghost mid = self.cards@;
        proof {
            lemma_placement_keeps_roles(pre, mid);
            lemma_count_equal_pointwise(pre, mid, Role::DonCard);
        }
        arrange_row(&mut self.cards, Role::DonCard, DON_SLOT_WIDTH, DON_ROW_Y);
        let ghost post = self.cards@;
        proof {
            lemma_two_passes_arrange(pre, mid, post);
            lemma_rows_arranged_preserves_wf(*old(self), *self);
        }
    }
}

/// After one layout pass every card keeps its role and zone, so membership
/// in either row is unchanged.
proof fn lemma_placement_keeps_roles(pre: Seq<Card>, post: Seq<Card>)
    requires
        post.len() == pre.len(),
        forall|j: int|
            0 <= j < pre.len() ==> (#[trigger] post[j]).role == pre[j].role && post[j].zone
                == pre[j].zone,
    ensures
        forall|j: int, role: Role|
            0 <= j < pre.len() ==> (#[trigger] post[j].is_in_play_with_role(role))
                == pre[j].is_in_play_with_role(role),
{
}

proof fn lemma_two_passes_arrange(pre: Seq<Card>, mid: Seq<Card>, post: Seq<Card>)
    requires
        row_arranged(pre, mid, Role::CharacterCard, CHARACTER_SLOT_WIDTH as int, CHARACTER_ROW_Y),
        row_arranged(mid, post, Role::DonCard, DON_SLOT_WIDTH as int, DON_ROW_Y),
    ensures
        rows_arranged(pre, post),
{
    assert forall|j: int|
        0 <= j < pre.len() implies (#[trigger] mid[j]).is_in_play_with_role(Role::DonCard)
        == pre[j].is_in_play_with_role(Role::DonCard) && mid[j].is_in_play_with_role(
        Role::CharacterCard,
    ) == pre[j].is_in_play_with_role(Role::CharacterCard) by {}
    lemma_count_equal_pointwise(pre, mid, Role::DonCard);
    assert forall|j: int|
        0 <= j < pre.len() && (#[trigger] pre[j]).is_in_play_with_role(Role::DonCard) implies post[j]
        == pre[j].spec_placed(
        spec_slot_x(pre, j, Role::DonCard, DON_SLOT_WIDTH as int),
        DON_ROW_Y,
    ) by {
        assert(mid[j] == pre[j]);
        lemma_count_equal_pointwise(pre.take(j), mid.take(j), Role::DonCard);
    }
    assert forall|j: int|
        0 <= j < pre.len() && (#[trigger] pre[j]).is_in_play_with_role(Role::CharacterCard) implies post[j]
        == pre[j].spec_placed(
        spec_slot_x(pre, j, Role::CharacterCard, CHARACTER_SLOT_WIDTH as int),
        CHARACTER_ROW_Y,
    ) by {
        assert(!mid[j].is_in_play_with_role(Role::DonCard));
        assert(post[j] == mid[j]);
    }
}

/// The layout moves cards but never changes a handle, a tap state, a
/// rotation or a size, so a well-formed table stays well formed.
proof fn lemma_rows_arranged_preserves_wf(pre: Table, post: Table)
    requires
        rows_arranged(pre.cards@, post.cards@),
        post.next_id == pre.next_id,
    ensures
        pre.wf() ==> post.wf(),
{
    if pre.wf() {
        assert forall|i: int| 0 <= i < post.cards@.len() implies (#[trigger] post.cards@[i]).wf()
            && post.cards@[i].id < post.next_id by {
            assert(pre.cards@[i].wf());
        }
        assert forall|i: int, j: int| 0 <= i < j < post.cards@.len() implies post.cards@[i].id
            != post.cards@[j].id by {
            assert(pre.cards@[i].id != pre.cards@[j].id);
        }
    }
}

/// Sum of the horizontal positions of the cards that are in play with the
/// given role.
pub open spec fn sum_row_x(cards: Seq<Card>, role: Role) -> int
    decreases cards.len(),
{
    if cards.len() == 0 {
        0
    } else {
        sum_row_x(cards.drop_last(), role) + if cards.last().is_in_play_with_role(role) {
            cards.last().position.x as int
        } else {
            0int
        }
    }
}

/// The symmetry law over the table itself: after both rows are recomputed,
/// the horizontal positions of the in-play character cards sum to exactly
/// zero, and so do those of the in-play resource cards — each row is
/// centered at x = 0, whatever the number of cards.
pub proof fn lemma_rows_arranged_are_centered(pre: Seq<Card>, post: Seq<Card>)
    requires
        rows_arranged(pre, post),
        spec_count_role(pre, Role::CharacterCard) * CHARACTER_SLOT_WIDTH <= i64::MAX,
        spec_count_role(pre, Role::DonCard) * DON_SLOT_WIDTH <= i64::MAX,
    ensures
        sum_row_x(post, Role::CharacterCard) == 0,
        sum_row_x(post, Role::DonCard) == 0,
{
    lemma_placed_row_is_centered(pre, post, Role::CharacterCard, CHARACTER_SLOT_WIDTH as int);
    lemma_placed_row_is_centered(pre, post, Role::DonCard, DON_SLOT_WIDTH as int);
}

/// Any placement that sends each card of the role to the slot of its rank,
/// and keeps every card's row membership, yields a row whose horizontal
/// positions sum to zero.
proof fn lemma_placed_row_is_centered(pre: Seq<Card>, post: Seq<Card>, role: Role, w: int)
    requires
        post.len() == pre.len(),
        forall|j: int|
            0 <= j < pre.len() && (#[trigger] pre[j]).is_in_play_with_role(role) ==> post[j].position.x
                == spec_slot_x(pre, j, role, w),
        forall|j: int|
            0 <= j < pre.len() ==> (#[trigger] post[j]).is_in_play_with_role(role) == pre[j].is_in_play_with_role(
                role,
            ),
        0 <= w,
        w % 2 == 0,
        spec_count_role(pre, role) * w <= i64::MAX,
    ensures
        sum_row_x(post, role) == 0,
{
    let total = spec_count_role(pre, role);
    lemma_count_role_bounds(pre, role);
    lemma_sum_row_prefix(pre, post, role, w, pre.len() as int);
    assert(pre.take(pre.len() as int) =~= pre);
    assert(post.take(pre.len() as int) =~= post);
    lemma_row_offsets_sum_zero(total, w);
}

proof fn lemma_sum_row_prefix(pre: Seq<Card>, post: Seq<Card>, role: Role, w: int, k: int)
    requires
        post.len() == pre.len(),
        forall|j: int|
            0 <= j < pre.len() && (#[trigger] pre[j]).is_in_play_with_role(role) ==> post[j].position.x
                == spec_slot_x(pre, j, role, w),
        forall|j: int|
            0 <= j < pre.len() ==> (#[trigger] post[j]).is_in_play_with_role(role) == pre[j].is_in_play_with_role(
                role,
            ),
        0 <= w,
        w % 2 == 0,
        spec_count_role(pre, role) * w <= i64::MAX,
        0 <= k <= pre.len(),
    ensures
        sum_row_x(post.take(k), role) == sum_prefix_offsets(
            spec_count_role(pre.take(k), role),
            spec_count_role(pre, role),
            w,
        ),
    decreases k,
{
    let total = spec_count_role(pre, role);
    if k == 0 {
        assert(post.take(0) =~= Seq::<Card>::empty());
        assert(pre.take(0) =~= Seq::<Card>::empty());
    } else {
        lemma_sum_row_prefix(pre, post, role, w, k - 1);
        lemma_count_step(pre, k - 1, role);
        assert(post.take(k).drop_last() =~= post.take(k - 1));
        assert(post.take(k).last() == post[k - 1]);
        if pre[k - 1].is_in_play_with_role(role) {
            let rank = spec_count_role(pre.take(k - 1), role);
            lemma_count_role_bounds(pre.take(k - 1), role);
            lemma_count_take_le(pre, k, role);
            lemma_slot_offset_bound(rank, total, w);
            assert(post[k - 1].position.x == slot_offset(rank, total, w) as i64);
            assert(slot_offset(rank, total, w) as i64 == slot_offset(rank, total, w));
        }
    }
}

/// Compute the horizontal offsets of a row of `n` cards with the given even
/// slot width: slot `i` receives `slot_offset(i, n, slot_width)`.
pub fn row_offsets(n: usize, slot_width: i64) -> (r: Vec<i64>)
    requires
        0 <= slot_width,
        slot_width % 2 == 0,
        n * slot_width <= i64::MAX,
    ensures
        r@.len() == n,
        forall|i: int| 0 <= i < n ==> r@[i] == slot_offset(i, n as int, slot_width as int),
{
    let half: i64 = slot_width / 2;
    let mut r: Vec<i64> = Vec::new();
    let mut i: usize = 0;
    while i < n
        invariant
            i <= n,
            0 <= slot_width,
            slot_width % 2 == 0,
            half == slot_width / 2,
            n * slot_width <= i64::MAX,
            r@.len() == i,
            forall|j: int| 0 <= j < i ==> r@[j] == slot_offset(j, n as int, slot_width as int),
        decreases n - i,
    {
        proof {
            lemma_slot_offset_bound(i as int, n as int, slot_width as int);
            assert(0 <= i as int * slot_width as int <= n as int * slot_width as int)
                by (nonlinear_arith)
                requires
                    0 <= i as int <= n as int,
                    0 <= slot_width as int,
            ;
            assert(0 <= (n as int - 1) * (slot_width as int / 2) <= n as int * slot_width as int)
                by (nonlinear_arith)
                requires
                    1 <= n as int,
                    0 <= slot_width as int,
                    0 <= slot_width as int / 2 <= slot_width as int,
            ;
        }
        let x128: i128 = i as i128 * slot_width as i128 - (n as i128 - 1) * half as i128;
        r.push(x128 as i64);
        i = i + 1;
    }
    r
}

} // verus!
