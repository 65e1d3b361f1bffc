//! The tabletop: the set of card records, the shared cursor record, and the
//! pointer-interaction handlers that react to inbound notifications.

use vstd::prelude::*;

use crate::actions::PlayAction;
use crate::actions::PlayActionQueue;
use crate::cards::Card;
use crate::cards::Owner;
use crate::cards::Role;
use crate::cards::UNTAPPED_ROTATION_DEGREES;
use crate::geometry::HalfSize;
use crate::geometry::Point;
use crate::geometry::spec_sprite_contains;
use crate::layout::CARD_HALF_HEIGHT;
use crate::layout::CARD_HALF_WIDTH;

verus! {

/// Identity of the pointer button a click notification carries.
#[derive(Clone, Copy, Debug, PartialEq, Eq, Structural)]
pub enum PointerButton {
    Primary,
    Secondary,
    Middle,
}

/// An inbound pointer notification, as routed by the host engine. Click and
/// drag notifications already carry the struck entity; the engine's picking
/// pass resolves the target, so no hit-test is repeated on these paths.
#[derive(Clone, Copy, Debug)]
pub enum InboundEvent {
    PointerClick { button: PointerButton, target: u64 },
    PointerDrag { target: u64, delta: Point },
    PointerMove { position: Point },
}

/// The tabletop state: every card record, the last-known cursor position,
/// and the counter handing out fresh entity handles.
#[derive(Debug)]
pub struct Table {
    /// The card records, in spawn order; this is the iteration order every
    /// handler and the row layout use.
    pub cards: Vec<Card>,
    /// Last-known world-space cursor position, overwritten on every
    /// pointer-move notification. Consumers of the same tick read the value
    /// written by the update phase that runs first; a value read before any
    /// update this tick is at most one tick stale.
    pub cursor: Point,
    /// The next fresh entity handle.
    pub next_id: u64,
}

impl Table {
    /// Every card is well formed, every handle was handed out by the
    /// counter, and no two cards share a handle.
    pub open spec fn wf(self) -> bool {
        &&& forall|i: int| 0 <= i < self.cards@.len() ==> (#[trigger] self.cards@[i]).wf()
        &&& forall|i: int| 0 <= i < self.cards@.len() ==> (#[trigger] self.cards@[i]).id
            < self.next_id
        &&& forall|i: int, j: int|
            0 <= i < j < self.cards@.len() ==> self.cards@[i].id != self.cards@[j].id
    }

    /// Create an empty table with the cursor at the origin.
    pub fn new() -> (table: Table)
        ensures
            table.wf(),
            table.cards@ == Seq::<Card>::empty(),
            table.cursor == (Point { x: 0, y: 0 }),
            table.next_id == 0,
    {
        let table = Table { cards: Vec::new(), cursor: Point { x: 0, y: 0 }, next_id: 0 };
        proof {
            assert(table.cards@ =~= Seq::<Card>::empty());
        }
        table
    }

    /// Record a new cursor position. Nothing else changes.
    pub fn update_cursor(&mut self, position: Point)
        ensures
            final(self).cursor == position,
            final(self).cards == old(self).cards,
            final(self).next_id == old(self).next_id,
    {
        self.cursor = position;
    }

    /// Record a whole tick's pointer-move notifications in order: the last
    /// one wins, and an empty tick leaves the cursor untouched.
    pub fn apply_cursor_moves(&mut self, moves: &Vec<Point>)
        ensures
            final(self).cursor == if moves@.len() > 0 {
                moves@.last()
            } else {
                old(self).cursor
            },
            final(self).cards == old(self).cards,
            final(self).next_id == old(self).next_id,
    {
        let n = moves.len();
        let mut i: usize = 0;
        while i < n
            invariant
                i <= n,
                n == moves@.len(),
                self.cards == old(self).cards,
                self.next_id == old(self).next_id,
                self.cursor == if i > 0 {
                    moves@[i - 1]
                } else {
                    old(self).cursor
                },
            decreases n - i,
        {
            self.update_cursor(moves[i]);
            i = i + 1;
        }
    }
}

/// Relation between the table before and after a click notification: on a
/// secondary-button click, every card carrying the struck handle and the
/// right-clickable tag has its tap state toggled; every other card, and any
/// click with another button or a handle no card carries, changes nothing.
pub open spec fn click_applied(pre: Table, post: Table, button: PointerButton, target: u64) -> bool {
    &&& post.cards@.len() == pre.cards@.len()
    &&& forall|j: int|
        0 <= j < pre.cards@.len() && clicked_card(pre.cards@[j], button, target) ==> (
        #[trigger] post.cards@[j]) == pre.cards@[j].spec_toggled()
    &&& forall|j: int|
        0 <= j < pre.cards@.len() && !clicked_card(pre.cards@[j], button, target) ==> (
        #[trigger] post.cards@[j]) == pre.cards@[j]
    &&& post.cursor == pre.cursor
    &&& post.next_id == pre.next_id
}

/// The click with the given button and struck handle toggles this card: it
/// must be the secondary button, the card must carry the handle, and the
/// card must be right-clickable.
pub open spec fn clicked_card(card: Card, button: PointerButton, target: u64) -> bool {
    button == PointerButton::Secondary && card.id == target && card.right_clickable
}

/// Relation between the table before and after a drag notification: every
/// card carrying the struck handle and the draggable tag moves by the drag
/// delta, exactly once; every other card changes nothing. A handle no
/// draggable card carries makes the whole notification a silent no-op.
pub open spec fn drag_applied(pre: Table, post: Table, target: u64, delta: Point) -> bool {
    &&& post.cards@.len() == pre.cards@.len()
    &&& forall|j: int|
        0 <= j < pre.cards@.len() && dragged_card(pre.cards@[j], target) ==> (
        #[trigger] post.cards@[j]) == pre.cards@[j].spec_dragged(delta)
    &&& forall|j: int|
        0 <= j < pre.cards@.len() && !dragged_card(pre.cards@[j], target) ==> (
        #[trigger] post.cards@[j]) == pre.cards@[j]
    &&& post.cursor == pre.cursor
    &&& post.next_id == pre.next_id
}

/// The drag notification with the given struck handle moves this card: the
/// card must carry the handle and the draggable tag.
pub open spec fn dragged_card(card: Card, target: u64) -> bool {
    card.id == target && card.draggable
}

/// The drag delta keeps the card's position representable: required of the
/// caller because positions are unclamped machine integers.
pub open spec fn drag_fits(cards: Seq<Card>, target: u64, delta: Point) -> bool {
    forall|j: int|
        0 <= j < cards.len() && dragged_card(#[trigger] cards[j], target) ==> i64::MIN <= cards[j].position.x
            + delta.x <= i64::MAX && i64::MIN <= cards[j].position.y - delta.y <= i64::MAX
}

impl Table {
    /// React to a click notification: toggle the tap state of the struck
    /// card if the click was with the secondary button and the card is
    /// right-clickable; otherwise do nothing. A handle no card carries is a
    /// silent no-op.
    pub fn handle_click(&mut self, button: PointerButton, target: u64)
        ensures
            click_applied(*old(self), *final(self), button, target),
            old(self).wf() ==> final(self).wf(),
    {
        let is_secondary = match button {
            PointerButton::Secondary => true,
            _ => false,
        };
        if !is_secondary {
            return ;
        }
        let n = self.cards.len();
        let mut j: usize = 0;
        while j < n
            invariant
                j <= n,
                n == self.cards@.len(),
                self.cards@.len() == old(self).cards@.len(),
                self.cursor == old(self).cursor,
                self.next_id == old(self).next_id,
                button == PointerButton::Secondary,
                forall|m: int|
                    0 <= m < j && clicked_card(#[trigger] old(self).cards@[m], button, target)
                        ==> self.cards@[m] == old(self).cards@[m].spec_toggled(),
                forall|m: int|
                    0 <= m < j && !clicked_card(#[trigger] old(self).cards@[m], button, target)
                        ==> self.cards@[m] == old(self).cards@[m],
                forall|m: int| j <= m < n ==> self.cards@[m] == old(self).cards@[m],
            decreases n - j,
        {
            if self.cards[j].right_clickable && self.cards[j].id == target {
                self.cards[j].toggle_tap();
            }
            j = j + 1;
        }
        proof {
            lemma_toggle_preserves_wf(*old(self), *self, button, target);
        }
    }

    /// React to a drag notification: move the struck card by the delta if it
    /// is draggable; otherwise do nothing. There is no clamping; cards may
    /// be dragged off-screen.
    pub fn handle_drag(&mut self, target: u64, delta: Point)
        requires
            drag_fits(old(self).cards@, target, delta),
        ensures
            drag_applied(*old(self), *final(self), target, delta),
            old(self).wf() ==> final(self).wf(),
    {
        let n = self.cards.len();
        let mut j: usize = 0;
        while j < n
            invariant
                j <= n,
                n == self.cards@.len(),
                self.cards@.len() == old(self).cards@.len(),
                self.cursor == old(self).cursor,
                self.next_id == old(self).next_id,
                drag_fits(old(self).cards@, target, delta),
                forall|m: int|
                    0 <= m < j && dragged_card(#[trigger] old(self).cards@[m], target)
                        ==> self.cards@[m] == old(self).cards@[m].spec_dragged(delta),
                forall|m: int|
                    0 <= m < j && !dragged_card(#[trigger] old(self).cards@[m], target)
                        ==> self.cards@[m] == old(self).cards@[m],
                forall|m: int| j <= m < n ==> self.cards@[m] == old(self).cards@[m],
            decreases n - j,
        {
            if self.cards[j].draggable && self.cards[j].id == target {
                assert(dragged_card(old(self).cards@[j as int], target));
                self.cards[j].apply_drag(delta);
            }
            j = j + 1;
        }
        proof {
            lemma_drag_preserves_wf(*old(self), *self, target, delta);
        }
    }

    /// Dispatch one inbound notification to its handler: clicks toggle tap
    /// state, drags move cards, pointer moves update the cursor record.
    pub fn handle_event(&mut self, event: &InboundEvent)
        requires
            (match *event {
                InboundEvent::PointerDrag { target, delta } => drag_fits(
                    old(self).cards@,
                    target,
                    delta,
                ),
                _ => true,
            }),
        ensures
            (match *event {
                InboundEvent::PointerClick { button, target } => click_applied(
                    *old(self),
                    *final(self),
                    button,
                    target,
                ),
                InboundEvent::PointerDrag { target, delta } => drag_applied(
                    *old(self),
                    *final(self),
                    target,
                    delta,
                ),
                InboundEvent::PointerMove { position } => final(self).cursor == position
                    && final(self).cards == old(self).cards
                    && final(self).next_id == old(self).next_id,
            }),
            old(self).wf() ==> final(self).wf(),
    {
        match event {
            InboundEvent::PointerClick { button, target } => self.handle_click(*button, *target),
            InboundEvent::PointerDrag { target, delta } => self.handle_drag(*target, *delta),
            InboundEvent::PointerMove { position } => self.update_cursor(*position),
        }
    }
}

impl Table {
    /// The card at position `i` is under the last-known cursor position.
    pub open spec fn card_under_cursor(self, i: int) -> bool {
        spec_sprite_contains(self.cursor, self.cards@[i].position, self.cards@[i].size)
    }

    /// Remove the first card, in iteration order, whose sprite bounds
    /// contain the last-known cursor position, and return its handle; when
    /// no card is under the cursor, remove nothing. When at least one card
    /// overlaps the cursor, exactly one card is removed. Which card is first
    /// follows the table's iteration order, which is spawn order here but
    /// implementation-defined in general: callers must not rely on more
    /// than the removal of one overlapping card.
    pub fn remove_card_under_cursor(&mut self) -> (removed: Option<u64>)
        ensures
            (match removed {
                None => *final(self) == *old(self) && forall|j: int|
                    0 <= j < old(self).cards@.len() ==> !old(self).card_under_cursor(j),
                Some(id) => exists|i: int|
                    {
                        &&& 0 <= i < old(self).cards@.len()
                        &&& old(self).card_under_cursor(i)
                        &&& forall|j: int| 0 <= j < i ==> !old(self).card_under_cursor(j)
                        &&& final(self).cards@ == old(self).cards@.remove(i)
                        &&& id == old(self).cards@[i].id
                    },
            }),
            final(self).cursor == old(self).cursor,
            final(self).next_id == old(self).next_id,
            old(self).wf() ==> final(self).wf(),
    {
        let n = self.cards.len();
        let mut j: usize = 0;
        while j < n
            invariant
                j <= n,
                n == self.cards@.len(),
                *self == *old(self),
                forall|m: int| 0 <= m < j ==> !old(self).card_under_cursor(m),
            decreases n - j,
        {
            let hit = crate::geometry::sprite_contains(
                self.cursor,
                self.cards[j].position,
                &self.cards[j].size,
            );
            if hit {
                let id = self.cards[j].id;
                self.cards.remove(j);
                proof {
                    lemma_remove_preserves_wf(*old(self), *self, j as int);
                    assert(old(self).card_under_cursor(j as int));
                    assert(forall|m: int| 0 <= m < j as int ==> !old(self).card_under_cursor(m));
                    assert(self.cards@ == old(self).cards@.remove(j as int));
                    assert(id == old(self).cards@[j as int].id);
                }
                return Some(id);
            }
            j = j + 1;
        }
        None
    }
}

/// A freshly spawned character card: untapped, upright, right-clickable but
/// not draggable, in no zone, owned by nobody, with standard card bounds.
pub open spec fn fresh_character_card(c: Card, id: u64, asset: Seq<char>, position: Point) -> bool {
    &&& c.id == id
    &&& c.asset@ == asset
    &&& c.owner is None
    &&& c.zone is None
    &&& c.role == Some(Role::CharacterCard)
    &&& !c.tapped
    &&& c.right_clickable
    &&& !c.draggable
    &&& c.position == position
    &&& c.rotation_degrees == UNTAPPED_ROTATION_DEGREES
    &&& c.size == Some(HalfSize { x: CARD_HALF_WIDTH, y: CARD_HALF_HEIGHT })
}

/// A freshly dealt resource ("Don") card: untapped, upright, draggable and
/// right-clickable, owned by the first player, in no zone yet, at the deal
/// position, with standard card bounds.
pub open spec fn fresh_don_card(c: Card, id: u64, asset: Seq<char>) -> bool {
    &&& c.id == id
    &&& c.asset@ == asset
    &&& c.owner == Some(Owner::PlayerOne)
    &&& c.zone is None
    &&& c.role == Some(Role::DonCard)
    &&& !c.tapped
    &&& c.right_clickable
    &&& c.draggable
    &&& c.position == (Point { x: DON_DEAL_X, y: DON_DEAL_Y })
    &&& c.rotation_degrees == UNTAPPED_ROTATION_DEGREES
    &&& c.size == Some(HalfSize { x: CARD_HALF_WIDTH, y: CARD_HALF_HEIGHT })
}

/// Where freshly dealt resource cards are placed, horizontally.
pub const DON_DEAL_X: i64 = -100;

/// Where freshly dealt resource cards are placed, vertically.
pub const DON_DEAL_Y: i64 = -100;

impl Table {
    /// Spawn one character card at the given position, with a fresh handle,
    /// and return the handle. The new card is appended at the end of the
    /// iteration order; no existing card changes.
    pub fn spawn_card(&mut self, asset: String, position: Point) -> (id: u64)
        requires
            old(self).next_id < u64::MAX,
        ensures
            id == old(self).next_id,
            final(self).next_id == old(self).next_id + 1,
            final(self).cards@.len() == old(self).cards@.len() + 1,
            forall|j: int|
                0 <= j < old(self).cards@.len() ==> final(self).cards@[j] == old(self).cards@[j],
            fresh_character_card(final(self).cards@.last(), id, asset@, position),
            final(self).cursor == old(self).cursor,
            old(self).wf() ==> final(self).wf(),
    {
        let id = self.next_id;
        let card = Card {
            id,
            asset,
            owner: None,
            zone: None,
            role: Some(Role::CharacterCard),
            tapped: false,
            right_clickable: true,
            draggable: false,
            position,
            rotation_degrees: UNTAPPED_ROTATION_DEGREES,
            size: Some(HalfSize { x: CARD_HALF_WIDTH, y: CARD_HALF_HEIGHT }),
        };
        self.cards.push(card);
        self.next_id = self.next_id + 1;
        id
    }

    /// Deal `count` resource cards, each with a fresh handle, and record a
    /// play action for each in the action log, in deal order: the log grows
    /// by exactly one `PlayCharacter` entry per card, none dropped or
    /// reordered. No existing card or log entry changes.
    pub fn spawn_don_cards(&mut self, queue: &mut PlayActionQueue, count: usize, asset: &String)
        requires
            old(self).next_id + count <= u64::MAX,
        ensures
            final(self).next_id == old(self).next_id + count,
            final(self).cards@.len() == old(self).cards@.len() + count,
            forall|j: int|
                0 <= j < old(self).cards@.len() ==> final(self).cards@[j] == old(self).cards@[j],
            forall|k: int|
                old(self).cards@.len() <= k < final(self).cards@.len() ==> fresh_don_card(
                    #[trigger] final(self).cards@[k],
                    (old(self).next_id + (k - old(self).cards@.len())) as u64,
                    asset@,
                ),
            final(queue).log() == old(queue).log() + Seq::new(
                count as nat,
                |k: int| PlayAction::PlayCharacter { card_entity: (old(self).next_id + k) as u64 },
            ),
            final(self).cursor == old(self).cursor,
            old(self).wf() ==> final(self).wf(),
    {
        let ghost pre = *old(self);
        let ghost pre_log = queue.log();
        let ghost dealt = Seq::new(
            count as nat,
            |k: int| PlayAction::PlayCharacter { card_entity: (pre.next_id + k) as u64 },
        );
        let mut i: usize = 0;
        while i < count
            invariant
                i <= count,
                pre.next_id + count <= u64::MAX,
                self.next_id == pre.next_id + i,
                self.cards@.len() == pre.cards@.len() + i,
                forall|j: int| 0 <= j < pre.cards@.len() ==> self.cards@[j] == pre.cards@[j],
                forall|k: int|
                    pre.cards@.len() <= k < self.cards@.len() ==> fresh_don_card(
                        #[trigger] self.cards@[k],
                        (pre.next_id + (k - pre.cards@.len())) as u64,
                        asset@,
                    ),
                queue.log() == pre_log + dealt.take(i as int),
                self.cursor == pre.cursor,
                pre.wf() ==> self.wf(),
                dealt == Seq::new(
                    count as nat,
                    |k: int| PlayAction::PlayCharacter {
                        card_entity: (pre.next_id + k) as u64,
                    },
                ),
            decreases count - i,
        {
            let id = self.next_id;
            let card = Card {
                id,
                asset: asset.clone(),
                owner: Some(Owner::PlayerOne),
                zone: None,
                role: Some(Role::DonCard),
                tapped: false,
                right_clickable: true,
                draggable: true,
                position: Point { x: DON_DEAL_X, y: DON_DEAL_Y },
                rotation_degrees: UNTAPPED_ROTATION_DEGREES,
                size: Some(HalfSize { x: CARD_HALF_WIDTH, y: CARD_HALF_HEIGHT }),
            };
            self.cards.push(card);
            self.next_id = self.next_id + 1;
            queue.enqueue(PlayAction::PlayCharacter { card_entity: id });
            proof {
                assert(pre_log + dealt.take(i as int + 1) =~= (pre_log + dealt.take(
                    i as int,
                )).push(dealt[i as int]));
            }
            i = i + 1;
        }
        proof {
            assert(pre_log + dealt.take(count as int) =~= pre_log + dealt);
        }
    }
}

proof fn lemma_remove_preserves_wf(pre: Table, post: Table, at: int)
    requires
        0 <= at < pre.cards@.len(),
        post.cards@ == pre.cards@.remove(at),
        post.next_id == pre.next_id,
    ensures
        pre.wf() ==> post.wf(),
{
    if pre.wf() {
        assert forall|i: int| 0 <= i < post.cards@.len() implies (#[trigger] post.cards@[i]).wf()
            && post.cards@[i].id < post.next_id by {
            if i < at {
                assert(post.cards@[i] == pre.cards@[i]);
            } else {
                assert(post.cards@[i] == pre.cards@[i + 1]);
            }
        }
        assert forall|i: int, j: int| 0 <= i < j < post.cards@.len() implies post.cards@[i].id
            != post.cards@[j].id by {
            let pi = if i < at {
                i
            } else {
                i + 1
            };
            let pj = if j < at {
                j
            } else {
                j + 1
            };
            assert(post.cards@[i] == pre.cards@[pi]);
            assert(post.cards@[j] == pre.cards@[pj]);
            assert(pre.cards@[pi].id != pre.cards@[pj].id);
        }
    }
}

proof fn lemma_toggle_preserves_wf(pre: Table, post: Table, button: PointerButton, target: u64)
    requires
        click_applied(pre, post, button, target),
    ensures
        pre.wf() ==> post.wf(),
{
    if pre.wf() {
        assert forall|i: int| 0 <= i < post.cards@.len() implies (#[trigger] post.cards@[i]).wf()
            && post.cards@[i].id < post.next_id by {
            assert(pre.cards@[i].wf());
        }
        assert forall|i: int, j: int| 0 <= i < j < post.cards@.len() implies post.cards@[i].id
            != post.cards@[j].id by {
            assert(pre.cards@[i].id != pre.cards@[j].id);
        }
    }
}

proof fn lemma_drag_preserves_wf(pre: Table, post: Table, target: u64, delta: Point)
    requires
        drag_applied(pre, post, target, delta),
    ensures
        pre.wf() ==> post.wf(),
{
    if pre.wf() {
        assert forall|i: int| 0 <= i < post.cards@.len() implies (#[trigger] post.cards@[i]).wf()
            && post.cards@[i].id < post.next_id by {
            assert(pre.cards@[i].wf());
        }
        assert forall|i: int, j: int| 0 <= i < j < post.cards@.len() implies post.cards@[i].id
            != post.cards@[j].id by {
            assert(pre.cards@[i].id != pre.cards@[j].id);
        }
    }
}

} // verus!
