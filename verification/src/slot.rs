//! Tile slots: the addressable places of the board.

use vstd::prelude::*;
use crate::glyph::GlyphId;

verus! {

/// What a slot is for.
#[derive(Clone, Copy, Debug, PartialEq, Eq, Structural)]
pub enum SlotKind {
    /// A board tile, which holds one payload.
    Classic,
    /// A place where carriers drop payloads that are of no use.
    Pit,
    /// A place where carriers pick up payloads that are missing.
    Spawner,
}

/// One slot: where it is drawn, what it shows now and what it is to show once the
/// animation has caught up.
#[derive(Clone, Copy, Debug, PartialEq, Eq)]
pub struct TileSlot {
    /// Horizontal position in display units.
    pub x: i32,
    /// Vertical position in display units.
    pub y: i32,
    /// The payload that the slot holds now.
    pub current_payload: Option<GlyphId>,
    /// The payload that the slot is to hold.
    pub target_payload: Option<GlyphId>,
    /// What the slot is for.
    pub kind: SlotKind,
}

impl TileSlot {
    /// The target of this slot, or its current payload unless `target_only`.
    pub open spec fn payload(self, target_only: bool) -> Option<GlyphId> {
        if target_only {
            self.target_payload
        } else {
            self.current_payload
        }
    }

    /// This slot with `payload` as its target, or as its current payload unless
    /// `target_only`; the other payload stays.
    pub open spec fn with_payload(self, payload: Option<GlyphId>, target_only: bool) -> TileSlot {
        if target_only {
            TileSlot { target_payload: payload, ..self }
        } else {
            TileSlot { current_payload: payload, ..self }
        }
    }

    /// This slot with `payload` both as its current and as its target payload.
    pub open spec fn with_payloads(self, payload: Option<GlyphId>) -> TileSlot {
        TileSlot { current_payload: payload, target_payload: payload, ..self }
    }

    /// A slot at `(x, y)` with the two payloads given.
    pub fn new(
        x: i32,
        y: i32,
        current_payload: Option<GlyphId>,
        target_payload: Option<GlyphId>,
        kind: SlotKind,
    ) -> (slot: TileSlot)
        ensures
            slot == (TileSlot { x, y, current_payload, target_payload, kind }),
    {
        TileSlot { x, y, current_payload, target_payload, kind }
    }

    /// The current payload and the target payload, in this order.
    pub fn get_payloads(&self) -> (payloads: [Option<GlyphId>; 2])
        ensures
            payloads[0] == self.current_payload,
            payloads[1] == self.target_payload,
    {
        [self.current_payload, self.target_payload]
    }

    /// Sets the target payload and nothing else.
    pub fn set_target_payload(&mut self, payload: Option<GlyphId>)
        ensures
            *final(self) == old(self).with_payload(payload, true),
    {
        self.target_payload = payload;
    }

    /// Sets the current payload and nothing else.
    pub fn set_current_payload(&mut self, payload: Option<GlyphId>)
        ensures
            *final(self) == old(self).with_payload(payload, false),
    {
        self.current_payload = payload;
    }

    /// Sets both payloads, so that the slot is at rest with `payload`.
    pub fn set_payloads(&mut self, payload: Option<GlyphId>)
        ensures
            *final(self) == old(self).with_payloads(payload),
    {
        self.current_payload = payload;
        self.target_payload = payload;
    }
}

} // verus!
