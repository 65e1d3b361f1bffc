//! The card entity model: identity, categorical tags, transform, and the
//! tap/untap state machine of a single card.

use vstd::prelude::*;

use crate::geometry::HalfSize;
use crate::geometry::Point;

verus! {

/// Which player a card belongs to, when it belongs to one.
#[derive(Clone, Copy, Debug, PartialEq, Eq, Structural)]
pub enum Owner {
    PlayerOne,
    PlayerTwo,
}

/// The zone a card currently occupies, when it occupies one. A card is in at
/// most one zone at a time, which the single optional field enforces.
#[derive(Clone, Copy, Debug, PartialEq, Eq, Structural)]
pub enum Zone {
    InPlay,
    InTrash,
    InLifeFaceDown,
    InLifeFaceUp,
}

/// The role a card plays, when it has one: a character, a "Don" resource
/// card, or a leader.
#[derive(Clone, Copy, Debug, PartialEq, Eq, Structural)]
pub enum Role {
    CharacterCard,
    DonCard,
    LeaderCard,
}

/// Rotation applied to a tapped card, in degrees: tapping turns a card a
/// quarter turn clockwise.
pub const TAPPED_ROTATION_DEGREES: i64 = -90;

/// Rotation of an untapped card, in degrees.
pub const UNTAPPED_ROTATION_DEGREES: i64 = 0;

/// A card record. Identity is an opaque entity handle owned by the
/// surrounding entity store; the record annotates it with tags and a
/// transform.
#[derive(Clone, Debug)]
pub struct Card {
    /// Opaque entity handle.
    pub id: u64,
    /// Reference to the visual resource shown for this card.
    pub asset: String,
    /// Owning player, if any.
    pub owner: Option<Owner>,
    /// Zone the card occupies, if any.
    pub zone: Option<Zone>,
    /// Role of the card, if any.
    pub role: Option<Role>,
    /// Whether the card is tapped. Meaningful only while the card is in play.
    pub tapped: bool,
    /// Whether a secondary-button click on this card toggles its tap state.
    pub right_clickable: bool,
    /// Whether drag notifications move this card.
    pub draggable: bool,
    /// World-space position of the card's center.
    pub position: Point,
    /// Rotation of the card, in degrees: 0 when untapped, -90 when tapped.
    pub rotation_degrees: i64,
    /// Declared sprite half-extents; a card without one is never hit.
    pub size: Option<HalfSize>,
}

impl Card {
    /// A card's rotation always agrees with its tap state, and its declared
    /// size, if any, is a valid rectangle.
    pub open spec fn wf(self) -> bool {
        &&& self.rotation_degrees == if self.tapped {
            TAPPED_ROTATION_DEGREES
        } else {
            UNTAPPED_ROTATION_DEGREES
        }
        &&& match self.size {
            Some(half) => half.wf(),
            None => true,
        }
    }

    /// The card is in play and has the given role.
    pub open spec fn is_in_play_with_role(self, role: Role) -> bool {
        self.zone == Some(Zone::InPlay) && self.role == Some(role)
    }

    /// The same card after a tap toggle: tap state flipped, rotation brought
    /// to agree with it, everything else unchanged.
    pub open spec fn spec_toggled(self) -> Card {
        Card {
            tapped: !self.tapped,
            rotation_degrees: if self.tapped {
                UNTAPPED_ROTATION_DEGREES
            } else {
                TAPPED_ROTATION_DEGREES
            },
            ..self
        }
    }

    /// The same card after a drag by `delta`: the horizontal delta is added
    /// and the vertical delta subtracted (screen-space y grows downward while
    /// world-space y grows upward), everything else unchanged.
    pub open spec fn spec_dragged(self, delta: Point) -> Card {
        Card {
            position: Point {
                x: (self.position.x + delta.x) as i64,
                y: (self.position.y - delta.y) as i64,
            },
            ..self
        }
    }

    /// The same card moved to the given position, everything else
    /// unchanged: what the row layout does to one card.
    pub open spec fn spec_placed(self, x: i64, y: i64) -> Card {
        Card { position: Point { x, y }, ..self }
    }

    /// Build an untapped card with the given identity, visual resource,
    /// position and declared size, and no owner, zone, role or tags.
    pub fn new(id: u64, asset: String, position: Point, size: Option<HalfSize>) -> (card: Card)
        requires
            (match size {
                Some(half) => half.wf(),
                None => true,
            }),
        ensures
            card.wf(),
            card.id == id,
            card.asset == asset,
            card.owner is None,
            card.zone is None,
            card.role is None,
            !card.tapped,
            card.right_clickable,
            !card.draggable,
            card.position == position,
            card.size == size,
    {
        Card {
            id,
            asset,
            owner: None,
            zone: None,
            role: None,
            tapped: false,
            right_clickable: true,
            draggable: false,
            position,
            rotation_degrees: UNTAPPED_ROTATION_DEGREES,
            size,
        }
    }

    /// Decide whether the card is in play with the given role.
    pub fn has_role_in_play(&self, role: Role) -> (r: bool)
        ensures
            r == self.is_in_play_with_role(role),
    {
        let zone_ok = match self.zone {
            Some(zone) => match zone {
                Zone::InPlay => true,
                _ => false,
            },
            None => false,
        };
        let role_ok = match self.role {
            Some(own_role) => own_role == role,
            None => false,
        };
        zone_ok && role_ok
    }

    /// Toggle the tap state: an untapped card turns a quarter turn clockwise
    /// and becomes tapped, a tapped card returns upright and becomes
    /// untapped. Nothing else about the card changes.
    pub fn toggle_tap(&mut self)
        ensures
            *final(self) == old(self).spec_toggled(),
            old(self).wf() ==> final(self).wf(),
    {
        if self.tapped {
            self.tapped = false;
            self.rotation_degrees = UNTAPPED_ROTATION_DEGREES;
        } else {
            self.tapped = true;
            self.rotation_degrees = TAPPED_ROTATION_DEGREES;
        }
    }

    /// Move the card by a drag delta: `delta.x` is added to the horizontal
    /// position and `delta.y` subtracted from the vertical one. There is no
    /// clamping; cards may be dragged off-screen.
    pub fn apply_drag(&mut self, delta: Point)
        requires
            i64::MIN <= old(self).position.x + delta.x <= i64::MAX,
            i64::MIN <= old(self).position.y - delta.y <= i64::MAX,
        ensures
            *final(self) == old(self).spec_dragged(delta),
            old(self).wf() ==> final(self).wf(),
    {
        self.position.x = self.position.x + delta.x;
        self.position.y = self.position.y - delta.y;
    }
}

/// Toggling the tap state twice is a no-op: the rotation returns to the
/// untapped identity and the tapped mark to its previous state, and no other
/// field ever changes.
pub proof fn lemma_toggle_tap_round_trip(card: Card)
    requires
        card.wf(),
    ensures
        card.spec_toggled().spec_toggled() == card,
{
    let twice = card.spec_toggled().spec_toggled();
    assert(twice.tapped == card.tapped);
    assert(twice == card);
}

} // verus!
