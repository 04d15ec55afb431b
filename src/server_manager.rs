//! Connection to an engine owned by this process.

use vstd::prelude::*;

use crate::data_types::{ObjectResponse, SampleObject, ServerInfo};
use crate::engine::{lookup, tick_result, GameEngine};

verus! {

/// Length of one engine tick in whole microseconds: the first count at or
/// past a sixtieth of a second.
pub const TICK_MICROS: u64 = 16_667;

/// Microseconds in one second.
pub const SECOND_MICROS: u64 = 1_000_000;

/// `v` saturated into the range of `u64`.
pub open spec fn sat_u64(v: int) -> u64 {
    if v > u64::MAX {
        u64::MAX
    } else {
        v as u64
    }
}

/// `v` saturated into the range of `u16`.
pub open spec fn sat_u16(v: int) -> u16 {
    if v > u16::MAX {
        u16::MAX
    } else {
        v as u16
    }
}

/// A connection to a simulation owned by this process: time handed to
/// `update` drives the engine's ticks directly.
pub struct ServerManager {
    engine_timer: u64,
    tps_timer: u64,
    tps: u16,
    selected_object: Option<String>,
    engine: GameEngine,
}

impl ServerManager {
    /// Microseconds since the last tick.
    pub closed spec fn engine_clock(&self) -> u64 {
        self.engine_timer
    }

    /// Microseconds since the ticks-per-second figure was last taken.
    pub closed spec fn tps_clock(&self) -> u64 {
        self.tps_timer
    }

    /// Ticks run since the ticks-per-second figure was last taken.
    pub closed spec fn tick_count(&self) -> u16 {
        self.tps
    }

    pub closed spec fn selection(&self) -> Option<String> {
        self.selected_object
    }

    pub closed spec fn engine(&self) -> GameEngine {
        self.engine
    }

    pub open spec fn wf(&self) -> bool {
        self.engine().wf()
    }

    /// Wraps an engine; all timers and counters start at zero and nothing is
    /// selected.
    pub fn new(engine: GameEngine) -> (r: Self)
        requires
            engine.wf(),
        ensures
            r.wf(),
            r.engine() == engine,
            r.engine_clock() == 0,
            r.tps_clock() == 0,
            r.tick_count() == 0,
            r.selection() is None,
    {
        ServerManager { engine_timer: 0, tps_timer: 0, tps: 0, selected_object: None, engine }
    }

    /// Accumulates `elapsed` microseconds. When a tick's worth has gathered,
    /// runs exactly one engine tick, over `elapsed`, and restarts the tick
    /// clock; when, at that tick, a second has gathered too, hands the tick
    /// count to the engine as its ticks-per-second figure and restarts that
    /// count.
    pub fn update(&mut self, elapsed: u64)
        requires
            old(self).wf(),
        ensures
            final(self).wf(),
            final(self).selection() == old(self).selection(),
            ({
                let e = old(self).engine_clock() + elapsed;
                let t = old(self).tps_clock() + elapsed;
                let ticks = sat_u16(old(self).tick_count() + 1);
                if e < TICK_MICROS {
                    &&& final(self).engine() == old(self).engine()
                    &&& final(self).engine_clock() == e
                    &&& final(self).tps_clock() == sat_u64(t)
                    &&& final(self).tick_count() == old(self).tick_count()
                } else {
                    &&& final(self).engine_clock() == 0
                    &&& final(self).engine().registry() == tick_result(
                        old(self).engine().registry(),
                        elapsed,
                    )
                    &&& final(self).engine().size() == old(self).engine().size()
                    &&& if t >= SECOND_MICROS {
                        &&& final(self).engine().info() == (ServerInfo {
                            tps: ticks,
                            ..old(self).engine().info()
                        })
                        &&& final(self).tps_clock() == 0
                        &&& final(self).tick_count() == 0
                    } else {
                        &&& final(self).engine().info() == old(self).engine().info()
                        &&& final(self).tps_clock() == t
                        &&& final(self).tick_count() == ticks
                    }
                }
            }),
    {
        self.engine_timer = self.engine_timer.saturating_add(elapsed);
        self.tps_timer = self.tps_timer.saturating_add(elapsed);
        if self.engine_timer >= TICK_MICROS {
            self.engine_timer = 0;
            self.tps = self.tps.saturating_add(1);
            if self.tps_timer >= SECOND_MICROS {
                self.engine.update_tps(self.tps);
                self.tps = 0;
                self.tps_timer = 0;
            }
            self.engine.game_loop(elapsed);
        }
    }

    /// The engine's current status; a local engine is always reachable.
    pub fn check_connection(&self) -> (r: Option<ServerInfo>)
        ensures
            r == Some(self.engine().info()),
    {
        Some(self.engine.get_server_info())
    }

    /// The public projection of every entity.
    pub fn get_objects(&self) -> (r: Vec<ObjectResponse>)
        ensures
            r@ == Seq::new(
                self.engine().registry().len(),
                |i: int| self.engine().registry()[i].projection(),
            ),
    {
        self.engine.get_objects()
    }

    /// Remembers the entity to report from `get_selected_object`.
    pub fn select_object(&mut self, name: String)
        ensures
            final(self).selection() == Some(name),
            final(self).engine() == old(self).engine(),
            final(self).engine_clock() == old(self).engine_clock(),
            final(self).tps_clock() == old(self).tps_clock(),
            final(self).tick_count() == old(self).tick_count(),
    {
        self.selected_object = Some(name);
    }

    /// A copy of the selected entity, if one is selected and still exists.
    pub fn get_selected_object(&self) -> (r: Option<SampleObject>)
        requires
            self.wf(),
        ensures
            r == match self.selection() {
                Some(name) => lookup(self.engine().registry(), name@),
                None => None,
            },
    {
        match &self.selected_object {
            Some(name) => self.engine.get_object(name, None),
            None => None,
        }
    }

    /// The engine's current status.
    pub fn get_server_info(&self) -> (r: ServerInfo)
        ensures
            r == self.engine().info(),
    {
        self.engine.get_server_info()
    }
}

} // verus!
