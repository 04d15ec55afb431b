//! Properties that relate several calls, proved over the contracts.

use vstd::prelude::*;

use crate::data_types::{ArmorType, CargoType, ObjectType, RadarType, SampleObject, WeaponType};
use crate::server_client::{model_update, run_updates, ClientModel};

verus! {

/// `radar_scan` reports index `i` exactly when the scanner sees the entity
/// there.
pub proof fn radar_scan_reports_seen(s: SampleObject, objects: Seq<SampleObject>, i: int)
    requires
        0 <= i < objects.len(),
        objects.len() <= usize::MAX,
    ensures
        s.scan_prefix(objects, objects.len()).contains(i as usize) <==> s.sees(objects[i]),
{
    scan_prefix_members(s, objects, objects.len(), i);
}

proof fn scan_prefix_members(s: SampleObject, objects: Seq<SampleObject>, n: nat, i: int)
    requires
        n <= objects.len(),
        0 <= i < objects.len(),
        objects.len() <= usize::MAX,
    ensures
        s.scan_prefix(objects, n).contains(i as usize) <==> (i < n && s.sees(objects[i])),
        forall|k: int|
            0 <= k < s.scan_prefix(objects, n).len() ==> #[trigger] s.scan_prefix(objects, n)[k]
                < n,
    decreases n,
{
    if n > 0 {
        scan_prefix_members(s, objects, (n - 1) as nat, i);
        let rest = s.scan_prefix(objects, (n - 1) as nat);
        if s.sees(objects[n - 1]) {
            let full = rest.push((n - 1) as usize);
            assert(full[full.len() - 1] == (n - 1) as usize);
            if i == n - 1 {
                assert(full.contains(i as usize));
            } else if full.contains(i as usize) {
                let k = choose|k: int| 0 <= k < full.len() && full[k] == i as usize;
                if k < rest.len() {
                    assert(rest[k] == full[k]);
                }
            }
            assert forall|k: int| 0 <= k < full.len() implies #[trigger] full[k] < n by {
                if k < rest.len() {
                    assert(full[k] == rest[k]);
                }
            }
            if i < n - 1 && rest.contains(i as usize) {
                let k = choose|k: int| 0 <= k < rest.len() && rest[k] == i as usize;
                assert(full[k] == rest[k]);
            }
        } else {
            if i == n - 1 && rest.contains(i as usize) {
                let k = choose|k: int| 0 <= k < rest.len() && rest[k] == i as usize;
                assert(rest[k] < n - 1);
            }
        }
    }
}

/// Radar range is inclusive: another entity exactly one radius away along
/// an axis is seen, one a micro-unit further is not.
pub proof fn radar_boundary_inclusive(s: SampleObject, o: SampleObject)
    requires
        o.name@ != s.name@,
        o.y == s.y,
    ensures
        o.x == s.x + s.radar_radius ==> s.sees(o),
        o.x == s.x + s.radar_radius + 1 ==> !s.sees(o),
{
    let r = s.radar_radius as int;
    assert((r + 1) * (r + 1) > r * r) by (nonlinear_arith)
        requires
            r >= 0,
    ;
}

/// At rest, a drive update changes nothing, whatever the time elapsed.
pub proof fn engine_update_idle_at_rest(o: SampleObject, elapsed: u64)
    requires
        o.at_rest(),
    ensures
        o.moved(elapsed) == o,
{
}

/// While a bulk-listing fetch is outstanding and no result is handed back,
/// any number of updates keep it outstanding and ask for no second one.
pub proof fn objects_fetch_never_doubled(m: ClientModel, elapsed: Seq<u64>)
    requires
        m.objects_fetch is Fetching,
    ensures
        run_updates(m, elapsed).objects_fetch is Fetching,
        forall|k: int|
            0 <= k < elapsed.len() ==> !(#[trigger] model_update(
                run_updates(m, elapsed.take(k)),
                elapsed[k],
            )).1.objects,
    decreases elapsed.len(),
{
    if elapsed.len() > 0 {
        let prefix = elapsed.drop_last();
        objects_fetch_never_doubled(m, prefix);
        assert forall|k: int| 0 <= k < elapsed.len() implies !(#[trigger] model_update(
            run_updates(m, elapsed.take(k)),
            elapsed[k],
        )).1.objects by {
            if k < prefix.len() {
                assert(elapsed.take(k) =~= prefix.take(k));
                assert(elapsed[k] == prefix[k]);
            } else {
                assert(elapsed.take(k) =~= prefix);
            }
        }
    }
}

/// While a server-status fetch is outstanding and no result is handed
/// back, any number of updates keep it outstanding and ask for no second
/// one.
pub proof fn server_info_fetch_never_doubled(m: ClientModel, elapsed: Seq<u64>)
    requires
        m.info_fetch is Fetching,
    ensures
        run_updates(m, elapsed).info_fetch is Fetching,
        forall|k: int|
            0 <= k < elapsed.len() ==> !(#[trigger] model_update(
                run_updates(m, elapsed.take(k)),
                elapsed[k],
            )).1.server_info,
    decreases elapsed.len(),
{
    if elapsed.len() > 0 {
        let prefix = elapsed.drop_last();
        server_info_fetch_never_doubled(m, prefix);
        assert forall|k: int| 0 <= k < elapsed.len() implies !(#[trigger] model_update(
            run_updates(m, elapsed.take(k)),
            elapsed[k],
        )).1.server_info by {
            if k < prefix.len() {
                assert(elapsed.take(k) =~= prefix.take(k));
                assert(elapsed[k] == prefix[k]);
            } else {
                assert(elapsed.take(k) =~= prefix);
            }
        }
    }
}

/// A fetch that completed but is not yet taken in also blocks a second
/// one: only an idle resource is fetched.
pub proof fn only_idle_resources_fetched(m: ClientModel, elapsed: u64)
    ensures
        model_update(m, elapsed).1.objects ==> m.objects_fetch is Idle,
        model_update(m, elapsed).1.server_info ==> m.info_fetch is Idle,
{
}

/// Each ObjectType label names one variant only, so reading back the text that
/// `to_string` wrote gives the same variant.
pub proof fn object_type_label_round_trip(a: ObjectType, b: ObjectType)
    ensures
        a.label() == b.label() ==> a == b,
{
    reveal_strlit("Asteroid");
    reveal_strlit("Builder");
    reveal_strlit("Harvester");
    reveal_strlit("Battlecruiser");
    if a.label() == b.label() && a != b {
        assert(a.label().len() != b.label().len() || a.label()[0] != b.label()[0] || a.label()[1] != b.label()[1]);
    }
}

/// Each RadarType label names one variant only, so reading back the text that
/// `to_string` wrote gives the same variant.
pub proof fn radar_type_label_round_trip(a: RadarType, b: RadarType)
    ensures
        a.label() == b.label() ==> a == b,
{
    reveal_strlit("None");
    reveal_strlit("Simple");
    reveal_strlit("Middle");
    reveal_strlit("Military");
    if a.label() == b.label() && a != b {
        assert(a.label().len() != b.label().len() || a.label()[0] != b.label()[0] || a.label()[1] != b.label()[1]);
    }
}

/// Each WeaponType label names one variant only, so reading back the text that
/// `to_string` wrote gives the same variant.
pub proof fn weapon_type_label_round_trip(a: WeaponType, b: WeaponType)
    ensures
        a.label() == b.label() ==> a == b,
{
    reveal_strlit("None");
    reveal_strlit("Mining");
    reveal_strlit("Laser");
    if a.label() == b.label() && a != b {
        assert(a.label().len() != b.label().len() || a.label()[0] != b.label()[0] || a.label()[1] != b.label()[1]);
    }
}

/// Each CargoType label names one variant only, so reading back the text that
/// `to_string` wrote gives the same variant.
pub proof fn cargo_type_label_round_trip(a: CargoType, b: CargoType)
    ensures
        a.label() == b.label() ==> a == b,
{
    reveal_strlit("None");
    reveal_strlit("Mining");
    reveal_strlit("Battery");
    if a.label() == b.label() && a != b {
        assert(a.label().len() != b.label().len() || a.label()[0] != b.label()[0] || a.label()[1] != b.label()[1]);
    }
}

/// Each ArmorType label names one variant only, so reading back the text that
/// `to_string` wrote gives the same variant.
pub proof fn armor_type_label_round_trip(a: ArmorType, b: ArmorType)
    ensures
        a.label() == b.label() ==> a == b,
{
    reveal_strlit("Asteroid");
    reveal_strlit("Light");
    reveal_strlit("Middle");
    reveal_strlit("Heavy");
    reveal_strlit("Building");
    if a.label() == b.label() && a != b {
        assert(a.label().len() != b.label().len() || a.label()[0] != b.label()[0] || a.label()[1] != b.label()[1]);
    }
}

} // verus!
