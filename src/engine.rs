//! The authoritative engine: the entity registry and the fixed-cadence tick.

use vstd::prelude::*;

use crate::data_types::{health_after_hit, ObjectResponse, SampleObject, ServerInfo, WeaponType, WorldSize};
use crate::geometry::{is_within_radius, within_radius};

verus! {

/// Whole hit points that an active weapon deals, once per tick, to every
/// other entity within its radius of its target.
pub const WEAPON_DAMAGE_PER_TICK: u32 = 1;

/// An active weapon as seen by the damage sweep of one tick.
#[derive(Clone, Copy, Debug)]
pub struct Shot {
    /// Registry index of the firing entity.
    pub shooter: usize,
    pub weapon: WeaponType,
    pub x: i64,
    pub y: i64,
    pub radius: u64,
}

/// No two entities of the registry share a name.
pub open spec fn names_unique(objects: Seq<SampleObject>) -> bool {
    forall|i: int, j: int|
        0 <= i < objects.len() && 0 <= j < objects.len() && i != j ==> #[trigger] objects[i].name@
            != #[trigger] objects[j].name@
}

/// Whether some entity of `objects` is named `name`.
pub open spec fn has_name(objects: Seq<SampleObject>, name: Seq<char>) -> bool {
    exists|i: int| 0 <= i < objects.len() && #[trigger] objects[i].name@ == name
}

/// The entity named `name`, if any.
pub open spec fn lookup(objects: Seq<SampleObject>, name: Seq<char>) -> Option<SampleObject> {
    if has_name(objects, name) {
        Some(objects[choose|i: int| 0 <= i < objects.len() && #[trigger] objects[i].name@ == name])
    } else {
        None
    }
}

/// The active weapons among the first `n` entities, in registry order.
pub open spec fn shots_prefix(objects: Seq<SampleObject>, n: nat) -> Seq<Shot>
    decreases n,
{
    if n == 0 {
        Seq::empty()
    } else {
        let rest = shots_prefix(objects, (n - 1) as nat);
        let o = objects[n - 1];
        if o.weapon_active {
            rest.push(
                Shot {
                    shooter: (n - 1) as usize,
                    weapon: o.weapon_type,
                    x: o.weapon_target_x,
                    y: o.weapon_target_y,
                    radius: o.weapon_radius,
                },
            )
        } else {
            rest
        }
    }
}

/// Whether `shot` hits entity `o` standing at registry index `j`.
pub open spec fn hits(shot: Shot, o: SampleObject, j: int) -> bool {
    shot.shooter != j && within_radius(
        o.x as int,
        o.y as int,
        shot.x as int,
        shot.y as int,
        shot.radius as int,
    )
}

/// Health of entity `o` at index `j` after the shots, applied in order.
pub open spec fn health_after_shots(o: SampleObject, j: int, shots: Seq<Shot>) -> i64
    decreases shots.len(),
{
    if shots.len() == 0 {
        o.shell_health
    } else {
        let h = health_after_shots(o, j, shots.drop_last());
        let s = shots.last();
        if hits(s, o, j) {
            health_after_hit(h, o.shell_type, s.weapon, WEAPON_DAMAGE_PER_TICK)
        } else {
            h
        }
    }
}

/// Every entity after the drive update of one tick.
pub open spec fn moved_all(objects: Seq<SampleObject>, elapsed: u64) -> Seq<SampleObject> {
    Seq::new(objects.len(), |i: int| objects[i].moved(elapsed))
}

/// The registry after one tick: every drive moves, then every active
/// weapon hits every other entity within its radius of its target.
pub open spec fn tick_result(objects: Seq<SampleObject>, elapsed: u64) -> Seq<SampleObject> {
    let moved = moved_all(objects, elapsed);
    let shots = shots_prefix(moved, moved.len());
    Seq::new(
        moved.len(),
        |j: int| SampleObject { shell_health: health_after_shots(moved[j], j, shots), ..moved[j] },
    )
}

/// The authoritative simulation: the registry of entities and the
/// server-wide singletons.
pub struct GameEngine {
    objects: Vec<SampleObject>,
    server_info: ServerInfo,
    world_size: WorldSize,
}

impl GameEngine {
    pub closed spec fn registry(&self) -> Seq<SampleObject> {
        self.objects@
    }

    pub closed spec fn info(&self) -> ServerInfo {
        self.server_info
    }

    pub closed spec fn size(&self) -> WorldSize {
        self.world_size
    }

    pub open spec fn wf(&self) -> bool {
        names_unique(self.registry())
    }

    /// An empty world of the given extent (micro-units).
    pub fn new(width: u64, height: u64) -> (r: Self)
        ensures
            r.wf(),
            r.registry().len() == 0,
            r.info().name@ == "ServerName"@,
            r.info().status@ == "SomeStatus"@,
            r.info().tps == 0,
            r.size() == (WorldSize { width, height }),
    {
        GameEngine {
            objects: Vec::new(),
            server_info: ServerInfo {
                name: "ServerName".to_owned(),
                status: "SomeStatus".to_owned(),
                tps: 0,
            },
            world_size: WorldSize { width, height },
        }
    }

    fn find(&self, name: &String) -> (r: Option<usize>)
        ensures
            match r {
                Some(i) => i < self.registry().len() && self.registry()[i as int].name@ == name@,
                None => !has_name(self.registry(), name@),
            },
    {
        let mut i: usize = 0;
        while i < self.objects.len()
            invariant
                i <= self.objects@.len(),
                forall|k: int| 0 <= k < i ==> #[trigger] self.objects@[k].name@ != name@,
            decreases self.objects@.len() - i,
        {
            if self.objects[i].name == *name {
                return Some(i);
            }
            i = i + 1;
        }
        None
    }

    /// Adds an entity, replacing the one of the same name if there is one.
    pub fn add_object(&mut self, object: SampleObject)
        requires
            old(self).wf(),
        ensures
            final(self).wf(),
            has_name(old(self).registry(), object.name@) ==> exists|i: int|
                0 <= i < old(self).registry().len() && #[trigger] old(
                    self,
                ).registry()[i].name@ == object.name@ && final(self).registry() == old(
                    self,
                ).registry().update(i, object),
            !has_name(old(self).registry(), object.name@) ==> final(self).registry() == old(
                self,
            ).registry().push(object),
            final(self).info() == old(self).info(),
            final(self).size() == old(self).size(),
    {
        match self.find(&object.name) {
            Some(i) => {
                self.objects.set(i, object);
            },
            None => {
                self.objects.push(object);
            },
        }
    }

    /// Removes and returns the entity named `name`.
    pub fn remove_object(&mut self, name: &String) -> (r: Option<SampleObject>)
        requires
            old(self).wf(),
        ensures
            final(self).wf(),
            r == lookup(old(self).registry(), name@),
            !has_name(final(self).registry(), name@),
            has_name(old(self).registry(), name@) ==> exists|i: int|
                0 <= i < old(self).registry().len() && #[trigger] old(self).registry()[i].name@
                    == name@ && final(self).registry() == old(self).registry().remove(i),
            !has_name(old(self).registry(), name@) ==> final(self).registry() == old(
                self,
            ).registry(),
            final(self).info() == old(self).info(),
            final(self).size() == old(self).size(),
    {
        match self.find(name) {
            Some(i) => {
                let o = self.objects.remove(i);
                proof {
                    let old_objs = old(self).registry();
                    assert forall|a: int, b: int|
                        0 <= a < self.objects@.len() && 0 <= b < self.objects@.len() && a != b
                        implies #[trigger] self.objects@[a].name@ != #[trigger] self.objects@[b].name@ by {
                        let a0 = if a < i { a } else { a + 1 };
                        let b0 = if b < i { b } else { b + 1 };
                        assert(self.objects@[a] == old_objs[a0]);
                        assert(self.objects@[b] == old_objs[b0]);
                    }
                    assert forall|k: int| 0 <= k < self.objects@.len() implies #[trigger] self.objects@[k].name@ != name@ by {
                        let k0 = if k < i { k } else { k + 1 };
                        assert(self.objects@[k] == old_objs[k0]);
                    }
                }
                Some(o)
            },
            None => None,
        }
    }

    /// Stores the ticks-per-second figure of the last second.
    pub fn update_tps(&mut self, tps: u16)
        ensures
            final(self).registry() == old(self).registry(),
            final(self).info() == (ServerInfo { tps, ..old(self).info() }),
            final(self).size() == old(self).size(),
    {
        self.server_info.tps = tps;
    }

    /// The public projection of every entity, in registry order.
    pub fn get_objects(&self) -> (r: Vec<ObjectResponse>)
        ensures
            r@ == Seq::new(self.registry().len(), |i: int| self.registry()[i].projection()),
    {
        let mut result: Vec<ObjectResponse> = Vec::new();
        let mut i: usize = 0;
        while i < self.objects.len()
            invariant
                i <= self.objects@.len(),
                result@ == Seq::new(i as nat, |k: int| self.objects@[k].projection()),
            decreases self.objects@.len() - i,
        {
            result.push(self.objects[i].response());
            i = i + 1;
            assert(result@ =~= Seq::new(i as nat, |k: int| self.objects@[k].projection()));
        }
        assert(result@ =~= Seq::new(self.registry().len(), |i: int| self.registry()[i].projection()));
        result
    }

    /// A copy of the entity named `name`, if there is one and the owner
    /// filter admits it; a mismatching owner reads as absent.
    pub fn get_object(&self, name: &String, owner: Option<&String>) -> (r: Option<SampleObject>)
        requires
            self.wf(),
        ensures
            r == match lookup(self.registry(), name@) {
                Some(o) => if o.owner_admits(
                    match owner {
                        Some(s) => Some(s@),
                        None => None,
                    },
                ) {
                    Some(o)
                } else {
                    None
                },
                None => None,
            },
    {
        match self.find(name) {
            Some(i) => {
                let o = &self.objects[i];
                if o.check_owner(owner) {
                    Some(o.duplicate())
                } else {
                    None
                }
            },
            None => None,
        }
    }

    /// The current server-wide status.
    pub fn get_server_info(&self) -> (r: ServerInfo)
        ensures
            r == self.info(),
    {
        self.server_info.duplicate()
    }

    /// The extent of the world.
    pub fn get_world_size(&self) -> (r: WorldSize)
        ensures
            r == self.size(),
    {
        self.world_size
    }
    /// One tick of `elapsed` microseconds: every drive moves, then every
    /// active weapon deals `WEAPON_DAMAGE_PER_TICK` to every other entity
    /// within its radius of its target.
    pub fn game_loop(&mut self, elapsed: u64)
        requires
            old(self).wf(),
        ensures
            final(self).wf(),
            final(self).registry() == tick_result(old(self).registry(), elapsed),
            final(self).info() == old(self).info(),
            final(self).size() == old(self).size(),
    {
        let ghost start = self.objects@;
        let n = self.objects.len();
        let mut i: usize = 0;
        while i < n
            invariant
                n == start.len(),
                self.objects@.len() == n,
                i <= n,
                forall|k: int| 0 <= k < i ==> #[trigger] self.objects@[k] == start[k].moved(elapsed),
                forall|k: int| i <= k < n ==> #[trigger] self.objects@[k] == start[k],
                self.server_info == old(self).server_info,
                self.world_size == old(self).world_size,
            decreases n - i,
        {
            self.objects[i].engine_update(elapsed);
            i = i + 1;
        }
        let ghost moved = self.objects@;
        assert(moved =~= moved_all(start, elapsed));

        let mut shots: Vec<Shot> = Vec::new();
        let mut i: usize = 0;
        while i < n
            invariant
                self.objects@ == moved,
                moved.len() == n,
                i <= n,
                shots@ == shots_prefix(moved, i as nat),
            decreases n - i,
        {
            let o = &self.objects[i];
            if o.weapon_active {
                shots.push(
                    Shot {
                        shooter: i,
                        weapon: o.weapon_type,
                        x: o.weapon_target_x,
                        y: o.weapon_target_y,
                        radius: o.weapon_radius,
                    },
                );
            }
            i = i + 1;
        }

        let mut j: usize = 0;
        while j < n
            invariant
                moved.len() == n,
                self.objects@.len() == n,
                j <= n,
                shots@ == shots_prefix(moved, n as nat),
                forall|k: int|
                    0 <= k < j ==> #[trigger] self.objects@[k] == (SampleObject {
                        shell_health: health_after_shots(moved[k], k, shots@),
                        ..moved[k]
                    }),
                forall|k: int| j <= k < n ==> #[trigger] self.objects@[k] == moved[k],
                self.server_info == old(self).server_info,
                self.world_size == old(self).world_size,
            decreases n - j,
        {
            let ghost before = self.objects@;
            let mut k: usize = 0;
            while k < shots.len()
                invariant
                    moved.len() == n,
                    self.objects@.len() == n,
                    j < n,
                    k <= shots@.len(),
                    self.objects@[j as int] == (SampleObject {
                        shell_health: health_after_shots(moved[j as int], j as int, shots@.take(k as int)),
                        ..moved[j as int]
                    }),
                    before.len() == n,
                    forall|m: int| 0 <= m < n && m != j ==> #[trigger] self.objects@[m] == before[m],
                    self.server_info == old(self).server_info,
                    self.world_size == old(self).world_size,
                decreases shots@.len() - k,
            {
                assert(shots@.take(k as int + 1).drop_last() =~= shots@.take(k as int));
                let s = shots[k];
                let hit = s.shooter != j && is_within_radius(
                    self.objects[j].x,
                    self.objects[j].y,
                    s.x,
                    s.y,
                    s.radius,
                );
                if hit {
                    self.objects[j].shell_damage(s.weapon, WEAPON_DAMAGE_PER_TICK);
                }
                k = k + 1;
            }
            assert(shots@.take(shots@.len() as int) =~= shots@);
            j = j + 1;
        }
        proof {
            let t = tick_result(start, elapsed);
            assert(self.objects@ =~= t);
            assert forall|a: int, b: int|
                0 <= a < self.objects@.len() && 0 <= b < self.objects@.len() && a != b
                implies #[trigger] self.objects@[a].name@ != #[trigger] self.objects@[b].name@ by {
                assert(self.objects@[a].name == start[a].name);
                assert(self.objects@[b].name == start[b].name);
            }
        }
    }
}

} // verus!
