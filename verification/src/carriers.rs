//! The carriers: how many there are, and whether they are drawn.
//!
//! Carriers bring payloads from tile to tile. How they move is not decided here.
//! What is decided here is whether one more may be created: their number is
//! capped, and a request beyond the cap is dropped without an error.

use vstd::prelude::*;
use crate::glyph::GlyphId;

verus! {

/// The largest number of carriers.
pub const MAX_CARRIERS: usize = 100;

/// The acceleration that every carrier is given, in hundredths of a display unit
/// per tick and tick.
pub const CARRIER_ACCELERATION: u32 = 16;

/// The top speed that every carrier is given, in hundredths of a display unit per
/// tick.
pub const CARRIER_MAX_SPEED: u32 = 2400;

/// One carrier, as it is created.
#[derive(Clone, Copy, Debug, PartialEq, Eq)]
pub struct CarrierToken {
    /// Horizontal position at which the carrier starts, in display units.
    pub x: i32,
    /// Vertical position at which the carrier starts, in display units.
    pub y: i32,
    /// Acceleration in hundredths of a display unit.
    pub acceleration: u32,
    /// Top speed in hundredths of a display unit.
    pub max_speed: u32,
    /// What the carrier carries.
    pub payload: Option<GlyphId>,
}

/// The carrier that is created at `(x, y)`: it has the configured acceleration
/// and top speed, and carries nothing.
pub open spec fn new_carrier(x: i32, y: i32) -> CarrierToken {
    CarrierToken {
        x,
        y,
        acceleration: CARRIER_ACCELERATION,
        max_speed: CARRIER_MAX_SPEED,
        payload: None,
    }
}

/// The carriers after a request to create one at `(x, y)`: one more while there
/// are fewer than the cap allows, else the same.
pub open spec fn after_spawn(carriers: Seq<CarrierToken>, x: i32, y: i32) -> Seq<CarrierToken> {
    if carriers.len() < MAX_CARRIERS {
        carriers.push(new_carrier(x, y))
    } else {
        carriers
    }
}

/// The carriers after one request for each place of `places`, in order.
pub open spec fn after_spawns(carriers: Seq<CarrierToken>, places: Seq<(i32, i32)>) -> Seq<
    CarrierToken,
>
    decreases places.len(),
{
    if places.len() == 0 {
        carriers
    } else {
        after_spawn(after_spawns(carriers, places.drop_last()), places.last().0, places.last().1)
    }
}

/// However many requests are made, the number of carriers grows by one with each
/// until it reaches the cap, and stays there. So from no carriers, one request
/// more than the cap leaves exactly as many carriers as the cap allows.
pub proof fn lemma_spawns_stop_at_cap(carriers: Seq<CarrierToken>, places: Seq<(i32, i32)>)
    requires
        carriers.len() <= MAX_CARRIERS,
    ensures
        after_spawns(carriers, places).len() == (if carriers.len() + places.len() <= MAX_CARRIERS {
            carriers.len() + places.len()
        } else {
            MAX_CARRIERS as nat
        }),
        carriers.len() == 0 && places.len() == MAX_CARRIERS + 1 ==> after_spawns(
            carriers,
            places,
        ).len() == MAX_CARRIERS,
    decreases places.len(),
{
    if places.len() > 0 {
        lemma_spawns_stop_at_cap(carriers, places.drop_last());
    }
}

/// The carriers that exist, and the switch that says whether they are drawn.
#[derive(Clone, Debug)]
pub struct CarrierLifecycle {
    carriers: Vec<CarrierToken>,
    draw_carriers: bool,
}

impl View for CarrierLifecycle {
    type V = Seq<CarrierToken>;

    /// The carriers in the order in which they were created.
    closed spec fn view(&self) -> Seq<CarrierToken> {
        self.carriers@
    }
}

impl CarrierLifecycle {
    /// Whether carriers are drawn.
    pub closed spec fn spec_draw_carriers(&self) -> bool {
        self.draw_carriers
    }

    /// There are never more carriers than the cap allows.
    pub open spec fn wf(&self) -> bool {
        self@.len() <= MAX_CARRIERS
    }

    /// No carriers yet; carriers are drawn.
    pub fn new() -> (lifecycle: CarrierLifecycle)
        ensures
            lifecycle.wf(),
            lifecycle@.len() == 0,
            lifecycle.draw_carriers(),
    {
        CarrierLifecycle { carriers: Vec::new(), draw_carriers: true }
    }

    /// How many carriers there are.
    pub fn count(&self) -> (n: usize)
        ensures
            n == self@.len(),
    {
        self.carriers.len()
    }

    /// The carrier that was created as number `index`.
    pub fn carrier(&self, index: usize) -> (token: CarrierToken)
        requires
            index < self@.len(),
        ensures
            token == self@[index as int],
    {
        self.carriers[index]
    }

    /// Tells whether carriers are drawn.
    #[verifier::when_used_as_spec(spec_draw_carriers)]
    pub fn draw_carriers(&self) -> (drawn: bool)
        ensures
            drawn == self.draw_carriers(),
    {
        self.draw_carriers
    }

    /// Flips the switch that says whether carriers are drawn. The carriers
    /// themselves are not touched: the switch is for the renderer alone.
    pub fn toggle_draw_carriers(&mut self)
        ensures
            final(self).draw_carriers() == !old(self).draw_carriers(),
            final(self)@ == old(self)@,
    {
        self.draw_carriers = !self.draw_carriers;
    }

    /// Creates a carrier at `(x, y)` with the configured acceleration and top
    /// speed, and returns its number.
    pub fn add_one_carrier(&mut self, x: i32, y: i32) -> (index: usize)
        requires
            old(self)@.len() < MAX_CARRIERS,
        ensures
            final(self).wf(),
            index == old(self)@.len(),
            final(self)@ == old(self)@.push(new_carrier(x, y)),
            final(self).draw_carriers() == old(self).draw_carriers(),
    {
        self.carriers.push(
            CarrierToken {
                x,
                y,
                acceleration: CARRIER_ACCELERATION,
                max_speed: CARRIER_MAX_SPEED,
                payload: None,
            },
        );
        self.carriers.len() - 1
    }

    /// Takes a request to create a carrier at `(x, y)`. While there are fewer
    /// carriers than the cap allows, the carrier is created and its number is
    /// returned. At the cap the request is dropped: nothing changes and nothing
    /// is returned.
    pub fn spawn_carrier(&mut self, x: i32, y: i32) -> (index: Option<usize>)
        requires
            old(self).wf(),
        ensures
            final(self).wf(),
            final(self)@ == after_spawn(old(self)@, x, y),
            final(self).draw_carriers() == old(self).draw_carriers(),
            index == (if old(self)@.len() < MAX_CARRIERS {
                Some(old(self)@.len() as usize)
            } else {
                None
            }),
    {
        if self.carriers.len() < MAX_CARRIERS {
            Some(self.add_one_carrier(x, y))
        } else {
            None
        }
    }
}

} // verus!
