//! Entities, their subsystems, and the server-wide singletons.

use vstd::prelude::*;

use crate::geometry::{is_within_radius, within_radius};

verus! {

/// Server-wide status singleton.
#[derive(Clone, Debug)]
pub struct ServerInfo {
    pub name: String,
    pub status: String,
    pub tps: u16,
}

impl ServerInfo {
    /// Replaces every field at once.
    pub fn replace(&mut self, new_info: ServerInfo)
        ensures
            *final(self) == new_info,
    {
        self.name = new_info.name;
        self.status = new_info.status;
        self.tps = new_info.tps;
    }

    /// A field-by-field copy.
    pub fn duplicate(&self) -> (r: ServerInfo)
        ensures
            r == *self,
    {
        ServerInfo { name: self.name.clone(), status: self.status.clone(), tps: self.tps }
    }
}

/// Extent of the world, in micro-units.
#[derive(Clone, Copy, Debug, PartialEq, Eq, Structural)]
pub struct WorldSize {
    pub width: u64,
    pub height: u64,
}

impl WorldSize {
    /// Replaces both extents at once.
    pub fn replace(&mut self, new_size: WorldSize)
        ensures
            *final(self) == new_size,
    {
        self.width = new_size.width;
        self.height = new_size.height;
    }
}

#[derive(Clone, Copy, Debug, PartialEq, Eq, Structural)]
pub enum ObjectType {
    Asteroid,
    Builder,
    Harvester,
    Battlecruiser,
}

#[derive(Clone, Copy, Debug, PartialEq, Eq, Structural)]
pub enum RadarType {
    Absent,
    Simple,
    Middle,
    Military,
}

#[derive(Clone, Copy, Debug, PartialEq, Eq, Structural)]
pub enum WeaponType {
    Absent,
    Mining,
    Laser,
}

#[derive(Clone, Copy, Debug, PartialEq, Eq, Structural)]
pub enum CargoType {
    Absent,
    Mining,
    Battery,
}

#[derive(Clone, Copy, Debug, PartialEq, Eq, Structural)]
pub enum ArmorType {
    Asteroid,
    Light,
    Middle,
    Heavy,
    Building,
}

impl ObjectType {
    pub open spec fn template_path_spec(self) -> Seq<char> {
        match self {
            ObjectType::Asteroid => "objects/asteroid.json"@,
            ObjectType::Builder => "objects/builder.json"@,
            ObjectType::Harvester => "objects/harvester.json"@,
            ObjectType::Battlecruiser => "objects/battlecruiser.json"@,
        }
    }

    /// Path of the template file that entities of this type are made from.
    pub fn template_path(&self) -> (r: String)
        ensures
            r@ == self.template_path_spec(),
    {
        match *self {
            ObjectType::Asteroid => "objects/asteroid.json".to_owned(),
            ObjectType::Builder => "objects/builder.json".to_owned(),
            ObjectType::Harvester => "objects/harvester.json".to_owned(),
            ObjectType::Battlecruiser => "objects/battlecruiser.json".to_owned(),
        }
    }

    /// The variant whose label is `s`, if any.
    pub fn from_label(s: &String) -> (r: Option<ObjectType>)
        ensures
            match r {
                Some(t) => t.label() == s@,
                None => forall|t: ObjectType| #[trigger] t.label() != s@,
            },
    {
        if *s == "Asteroid".to_owned() {
            Some(ObjectType::Asteroid)
        } else if *s == "Builder".to_owned() {
            Some(ObjectType::Builder)
        } else if *s == "Harvester".to_owned() {
            Some(ObjectType::Harvester)
        } else if *s == "Battlecruiser".to_owned() {
            Some(ObjectType::Battlecruiser)
        } else {
            None
        }
    }

    pub open spec fn label(self) -> Seq<char> {
        match self {
            ObjectType::Asteroid => "Asteroid"@,
            ObjectType::Builder => "Builder"@,
            ObjectType::Harvester => "Harvester"@,
            ObjectType::Battlecruiser => "Battlecruiser"@,
        }
    }

    pub fn to_string(&self) -> (r: String)
        ensures
            r@ == self.label(),
    {
        match *self {
            ObjectType::Asteroid => "Asteroid".to_owned(),
            ObjectType::Builder => "Builder".to_owned(),
            ObjectType::Harvester => "Harvester".to_owned(),
            ObjectType::Battlecruiser => "Battlecruiser".to_owned(),
        }
    }
}

impl RadarType {
    /// The variant whose label is `s`, if any.
    pub fn from_label(s: &String) -> (r: Option<RadarType>)
        ensures
            match r {
                Some(t) => t.label() == s@,
                None => forall|t: RadarType| #[trigger] t.label() != s@,
            },
    {
        if *s == "None".to_owned() {
            Some(RadarType::Absent)
        } else if *s == "Simple".to_owned() {
            Some(RadarType::Simple)
        } else if *s == "Middle".to_owned() {
            Some(RadarType::Middle)
        } else if *s == "Military".to_owned() {
            Some(RadarType::Military)
        } else {
            None
        }
    }

    pub open spec fn label(self) -> Seq<char> {
        match self {
            RadarType::Absent => "None"@,
            RadarType::Simple => "Simple"@,
            RadarType::Middle => "Middle"@,
            RadarType::Military => "Military"@,
        }
    }

    pub fn to_string(&self) -> (r: String)
        ensures
            r@ == self.label(),
    {
        match *self {
            RadarType::Absent => "None".to_owned(),
            RadarType::Middle => "Middle".to_owned(),
            RadarType::Military => "Military".to_owned(),
            RadarType::Simple => "Simple".to_owned(),
        }
    }
}

impl WeaponType {
    /// The variant whose label is `s`, if any.
    pub fn from_label(s: &String) -> (r: Option<WeaponType>)
        ensures
            match r {
                Some(t) => t.label() == s@,
                None => forall|t: WeaponType| #[trigger] t.label() != s@,
            },
    {
        if *s == "None".to_owned() {
            Some(WeaponType::Absent)
        } else if *s == "Mining".to_owned() {
            Some(WeaponType::Mining)
        } else if *s == "Laser".to_owned() {
            Some(WeaponType::Laser)
        } else {
            None
        }
    }

    pub open spec fn label(self) -> Seq<char> {
        match self {
            WeaponType::Absent => "None"@,
            WeaponType::Mining => "Mining"@,
            WeaponType::Laser => "Laser"@,
        }
    }

    pub fn to_string(&self) -> (r: String)
        ensures
            r@ == self.label(),
    {
        match *self {
            WeaponType::Absent => "None".to_owned(),
            WeaponType::Laser => "Laser".to_owned(),
            WeaponType::Mining => "Mining".to_owned(),
        }
    }
}

impl CargoType {
    /// The variant whose label is `s`, if any.
    pub fn from_label(s: &String) -> (r: Option<CargoType>)
        ensures
            match r {
                Some(t) => t.label() == s@,
                None => forall|t: CargoType| #[trigger] t.label() != s@,
            },
    {
        if *s == "None".to_owned() {
            Some(CargoType::Absent)
        } else if *s == "Mining".to_owned() {
            Some(CargoType::Mining)
        } else if *s == "Battery".to_owned() {
            Some(CargoType::Battery)
        } else {
            None
        }
    }

    pub open spec fn label(self) -> Seq<char> {
        match self {
            CargoType::Absent => "None"@,
            CargoType::Mining => "Mining"@,
            CargoType::Battery => "Battery"@,
        }
    }

    pub fn to_string(&self) -> (r: String)
        ensures
            r@ == self.label(),
    {
        match *self {
            CargoType::Absent => "None".to_owned(),
            CargoType::Battery => "Battery".to_owned(),
            CargoType::Mining => "Mining".to_owned(),
        }
    }
}

impl ArmorType {
    /// The variant whose label is `s`, if any.
    pub fn from_label(s: &String) -> (r: Option<ArmorType>)
        ensures
            match r {
                Some(t) => t.label() == s@,
                None => forall|t: ArmorType| #[trigger] t.label() != s@,
            },
    {
        if *s == "Asteroid".to_owned() {
            Some(ArmorType::Asteroid)
        } else if *s == "Light".to_owned() {
            Some(ArmorType::Light)
        } else if *s == "Middle".to_owned() {
            Some(ArmorType::Middle)
        } else if *s == "Heavy".to_owned() {
            Some(ArmorType::Heavy)
        } else if *s == "Building".to_owned() {
            Some(ArmorType::Building)
        } else {
            None
        }
    }

    pub open spec fn label(self) -> Seq<char> {
        match self {
            ArmorType::Asteroid => "Asteroid"@,
            ArmorType::Light => "Light"@,
            ArmorType::Middle => "Middle"@,
            ArmorType::Heavy => "Heavy"@,
            ArmorType::Building => "Building"@,
        }
    }

    pub fn to_string(&self) -> (r: String)
        ensures
            r@ == self.label(),
    {
        match *self {
            ArmorType::Asteroid => "Asteroid".to_owned(),
            ArmorType::Building => "Building".to_owned(),
            ArmorType::Heavy => "Heavy".to_owned(),
            ArmorType::Light => "Light".to_owned(),
            ArmorType::Middle => "Middle".to_owned(),
        }
    }
}

/// Public projection of an entity, used in bulk listings.
#[derive(Clone, Debug)]
pub struct ObjectResponse {
    pub name: String,
    pub owner: String,
    pub x: i64,
    pub y: i64,
    pub otype: ObjectType,
}

impl ObjectResponse {
    /// A field-by-field copy.
    pub fn duplicate(&self) -> (r: ObjectResponse)
        ensures
            r == *self,
    {
        ObjectResponse {
            name: self.name.clone(),
            owner: self.owner.clone(),
            x: self.x,
            y: self.y,
            otype: self.otype,
        }
    }
}

/// Body of the by-name object query.
#[derive(Clone, Debug)]
pub struct ObjectInfoRequest {
    pub name: String,
}

/// A simulated entity with its drive, radar, weapon, cargo and shell.
#[derive(Clone, Debug)]
pub struct SampleObject {
    pub owner: String,
    pub name: String,
    pub otype: ObjectType,
    pub x: i64,
    pub y: i64,
    /// World units per second, on each axis.
    pub drive_speed: u32,
    pub drive_dest_x: i64,
    pub drive_dest_y: i64,
    pub radar_radius: u64,
    pub radar_type: RadarType,
    pub weapon_active: bool,
    pub weapon_type: WeaponType,
    pub weapon_radius: u64,
    pub weapon_target_x: i64,
    pub weapon_target_y: i64,
    pub cargo_type: CargoType,
    pub cargo_max: u64,
    pub cargo_current: u64,
    /// Milli-points; not clamped at zero.
    pub shell_health: i64,
    pub shell_type: ArmorType,
}

/// Damage multiplier of an armor against a weapon, in thousandths.
pub open spec fn damage_permille(armor: ArmorType, weapon: WeaponType) -> int {
    match weapon {
        WeaponType::Absent => 0,
        WeaponType::Mining => match armor {
            ArmorType::Asteroid => 1000,
            ArmorType::Light => 1,
            _ => 0,
        },
        WeaponType::Laser => match armor {
            ArmorType::Asteroid => 1000,
            ArmorType::Light => 1000,
            ArmorType::Middle => 100,
            ArmorType::Heavy => 10,
            ArmorType::Building => 1,
        },
    }
}

/// `v` clamped into the range of `i64`.
pub open spec fn clamp_i64(v: int) -> i64 {
    if v < i64::MIN {
        i64::MIN
    } else if v > i64::MAX {
        i64::MAX
    } else {
        v as i64
    }
}

/// Health in milli-points after a hit of `dmg` whole points (saturating at
/// the bottom of the `i64` range).
pub open spec fn health_after_hit(health: i64, armor: ArmorType, weapon: WeaponType, dmg: u32) -> i64 {
    clamp_i64(health - dmg * damage_permille(armor, weapon))
}

/// Distance in micro-units covered on one axis at `speed` units per second
/// during `elapsed` microseconds.
pub open spec fn travel(speed: u32, elapsed: u64) -> int {
    speed * elapsed
}

/// One axis of the drive: a coordinate off its destination moves `step`
/// toward it, without clamping at the destination.
pub open spec fn axis_step(pos: i64, dest: i64, step: int) -> i64 {
    if pos < dest {
        clamp_i64(pos + step)
    } else if pos > dest {
        clamp_i64(pos - step)
    } else {
        pos
    }
}

/// Exact integer form of the fixed-point helpers above.
fn damage_permille_exec(armor: ArmorType, weapon: WeaponType) -> (m: i64)
    ensures
        m == damage_permille(armor, weapon),
{
    match weapon {
        WeaponType::Absent => 0,
        WeaponType::Mining => match armor {
            ArmorType::Asteroid => 1000,
            ArmorType::Light => 1,
            _ => 0,
        },
        WeaponType::Laser => match armor {
            ArmorType::Asteroid => 1000,
            ArmorType::Light => 1000,
            ArmorType::Middle => 100,
            ArmorType::Heavy => 10,
            ArmorType::Building => 1,
        },
    }
}

fn clamp_to_i64(v: i128) -> (r: i64)
    ensures
        r == clamp_i64(v as int),
{
    if v < i64::MIN as i128 {
        i64::MIN
    } else if v > i64::MAX as i128 {
        i64::MAX
    } else {
        v as i64
    }
}

fn move_axis(pos: i64, dest: i64, speed: u32, elapsed: u64) -> (r: i64)
    ensures
        r == axis_step(pos, dest, travel(speed, elapsed)),
{
    proof {
        assert(0 <= speed as int * elapsed as int <= u32::MAX as int * u64::MAX as int)
            by (nonlinear_arith)
            requires
                0 <= speed <= u32::MAX,
                0 <= elapsed <= u64::MAX,
        ;
    }
    let step: i128 = (speed as i128) * (elapsed as i128);
    if pos < dest {
        clamp_to_i64(pos as i128 + step)
    } else if pos > dest {
        clamp_to_i64(pos as i128 - step)
    } else {
        pos
    }
}

impl SampleObject {
    /// Cargo never exceeds its capacity.
    pub open spec fn wf(self) -> bool {
        self.cargo_current <= self.cargo_max
    }

    /// The entity after one drive update of `elapsed` microseconds.
    pub open spec fn moved(self, elapsed: u64) -> SampleObject {
        SampleObject {
            x: axis_step(self.x, self.drive_dest_x, travel(self.drive_speed, elapsed)),
            y: axis_step(self.y, self.drive_dest_y, travel(self.drive_speed, elapsed)),
            ..self
        }
    }

    /// Whether the entity is exactly on its destination.
    pub open spec fn at_rest(self) -> bool {
        self.x == self.drive_dest_x && self.y == self.drive_dest_y
    }

    /// Whether `other` is another entity (by name) within radar range.
    pub open spec fn sees(self, other: SampleObject) -> bool {
        other.name@ != self.name@ && within_radius(
            other.x as int,
            other.y as int,
            self.x as int,
            self.y as int,
            self.radar_radius as int,
        )
    }

    /// Indices, ascending, of the first `n` entries of `objects` that this
    /// entity sees.
    pub open spec fn scan_prefix(self, objects: Seq<SampleObject>, n: nat) -> Seq<usize>
        decreases n,
    {
        if n == 0 {
            Seq::empty()
        } else {
            let rest = self.scan_prefix(objects, (n - 1) as nat);
            if self.sees(objects[n - 1]) {
                rest.push((n - 1) as usize)
            } else {
                rest
            }
        }
    }

    /// The public projection of this entity.
    pub open spec fn projection(self) -> ObjectResponse {
        ObjectResponse {
            name: self.name,
            owner: self.owner,
            x: self.x,
            y: self.y,
            otype: self.otype,
        }
    }

    /// Whether an optional owner filter admits this entity.
    pub open spec fn owner_admits(self, owner: Option<Seq<char>>) -> bool {
        match owner {
            Some(o) => self.owner@ == o,
            None => true,
        }
    }

    /// A placeholder entity: owner and name "none", everything else zero,
    /// `None` or the first variant.
    pub fn new_empty() -> (r: Self)
        ensures
            r.owner@ == "none"@,
            r.name@ == "none"@,
            r.otype == ObjectType::Asteroid,
            r.x == 0 && r.y == 0,
            r.drive_speed == 0 && r.drive_dest_x == 0 && r.drive_dest_y == 0,
            r.radar_radius == 0 && r.radar_type == RadarType::Absent,
            !r.weapon_active && r.weapon_type == WeaponType::Absent,
            r.weapon_radius == 0 && r.weapon_target_x == 0 && r.weapon_target_y == 0,
            r.cargo_type == CargoType::Absent && r.cargo_max == 0 && r.cargo_current == 0,
            r.shell_health == 0 && r.shell_type == ArmorType::Asteroid,
            r.wf(),
    {
        SampleObject {
            owner: "none".to_owned(),
            name: "none".to_owned(),
            otype: ObjectType::Asteroid,
            x: 0,
            y: 0,
            drive_speed: 0,
            drive_dest_x: 0,
            drive_dest_y: 0,
            radar_radius: 0,
            radar_type: RadarType::Absent,
            weapon_active: false,
            weapon_type: WeaponType::Absent,
            weapon_radius: 0,
            weapon_target_x: 0,
            weapon_target_y: 0,
            cargo_type: CargoType::Absent,
            cargo_max: 0,
            cargo_current: 0,
            shell_health: 0,
            shell_type: ArmorType::Asteroid,
        }
    }

    /// Replaces the whole entity.
    pub fn replace_object(&mut self, new: SampleObject)
        ensures
            *final(self) == new,
    {
        *self = new;
    }

    /// An entity made from the template of its type, with owner, name and
    /// position overridden; it starts at rest on its position.
    pub fn new(template: SampleObject, owner: String, name: String, x: i64, y: i64) -> (r: Self)
        ensures
            r == (SampleObject {
                owner: owner,
                name: name,
                x: x,
                y: y,
                drive_dest_x: x,
                drive_dest_y: y,
                ..template
            }),
    {
        let mut object = template;
        object.owner = owner;
        object.name = name;
        object.x = x;
        object.y = y;
        object.drive_dest_x = x;
        object.drive_dest_y = y;
        object
    }

    /// A field-by-field copy.
    pub fn duplicate(&self) -> (r: SampleObject)
        ensures
            r == *self,
    {
        SampleObject {
            owner: self.owner.clone(),
            name: self.name.clone(),
            ..*self
        }
    }
}

impl SampleObject {
    /// Sets the drive's destination.
    pub fn drive_move_to(&mut self, x: i64, y: i64)
        ensures
            *final(self) == (SampleObject { drive_dest_x: x, drive_dest_y: y, ..*old(self) }),
    {
        self.drive_dest_x = x;
        self.drive_dest_y = y;
    }

    /// Indices, ascending, of every other entity of `objects` within radar
    /// range (boundary included).
    pub fn radar_scan(&self, objects: &Vec<SampleObject>) -> (r: Vec<usize>)
        ensures
            r@ == self.scan_prefix(objects@, objects@.len()),
    {
        let mut result: Vec<usize> = Vec::new();
        let mut i: usize = 0;
        while i < objects.len()
            invariant
                i <= objects@.len(),
                result@ == self.scan_prefix(objects@, i as nat),
            decreases objects@.len() - i,
        {
            let other = &objects[i];
            let seen = other.name != self.name && is_within_radius(
                other.x,
                other.y,
                self.x,
                self.y,
                self.radar_radius,
            );
            if seen {
                result.push(i);
            }
            i = i + 1;
        }
        result
    }

    /// Aims the weapon at a point and keeps it firing.
    pub fn weapon_fire(&mut self, x: i64, y: i64)
        ensures
            *final(self) == (SampleObject {
                weapon_target_x: x,
                weapon_target_y: y,
                weapon_active: true,
                ..*old(self)
            }),
    {
        self.weapon_target_x = x;
        self.weapon_target_y = y;
        self.weapon_active = true;
    }

    /// Stops the weapon; the target is kept.
    pub fn weapon_stop(&mut self)
        ensures
            *final(self) == (SampleObject { weapon_active: false, ..*old(self) }),
    {
        self.weapon_active = false;
    }

    /// Loads `size` into the cargo hold if it fits.
    pub fn cargo_add(&mut self, size: u64) -> (ok: bool)
        ensures
            ok == (old(self).cargo_current + size <= old(self).cargo_max),
            ok ==> *final(self) == (SampleObject {
                cargo_current: (old(self).cargo_current + size) as u64,
                ..*old(self)
            }),
            !ok ==> *final(self) == *old(self),
            old(self).wf() ==> final(self).wf(),
    {
        if size > self.cargo_max || self.cargo_current > self.cargo_max - size {
            return false;
        }
        self.cargo_current = self.cargo_current + size;
        true
    }

    /// Unloads `size` from the cargo hold if that much is there.
    pub fn cargo_remove(&mut self, size: u64) -> (ok: bool)
        ensures
            ok == (old(self).cargo_current - size >= 0),
            ok ==> *final(self) == (SampleObject {
                cargo_current: (old(self).cargo_current - size) as u64,
                ..*old(self)
            }),
            !ok ==> *final(self) == *old(self),
            old(self).wf() ==> final(self).wf(),
    {
        if size > self.cargo_current {
            return false;
        }
        self.cargo_current = self.cargo_current - size;
        true
    }

    /// Takes a hit of `dmg` whole points from a weapon of type `wtype`,
    /// scaled by the armor table; health is not clamped at zero.
    pub fn shell_damage(&mut self, wtype: WeaponType, dmg: u32)
        ensures
            *final(self) == (SampleObject {
                shell_health: health_after_hit(
                    old(self).shell_health,
                    old(self).shell_type,
                    wtype,
                    dmg,
                ),
                ..*old(self)
            }),
    {
        let m = damage_permille_exec(self.shell_type, wtype);
        let loss: i128 = (dmg as i128) * (m as i128);
        self.shell_health = clamp_to_i64(self.shell_health as i128 - loss);
    }

    /// Advances the drive by `elapsed` microseconds, each axis on its own.
    pub fn engine_update(&mut self, elapsed: u64)
        ensures
            *final(self) == old(self).moved(elapsed),
    {
        self.x = move_axis(self.x, self.drive_dest_x, self.drive_speed, elapsed);
        self.y = move_axis(self.y, self.drive_dest_y, self.drive_speed, elapsed);
    }

    /// Whether the optional owner filter admits this entity.
    pub fn check_owner(&self, owner: Option<&String>) -> (r: bool)
        ensures
            r == self.owner_admits(
                match owner {
                    Some(o) => Some(o@),
                    None => None,
                },
            ),
    {
        match owner {
            Some(o) => self.owner == *o,
            None => true,
        }
    }

    /// The public projection of this entity.
    pub fn response(&self) -> (r: ObjectResponse)
        ensures
            r == self.projection(),
    {
        ObjectResponse {
            name: self.name.clone(),
            owner: self.owner.clone(),
            x: self.x,
            y: self.y,
            otype: self.otype,
        }
    }
}

} // verus!
