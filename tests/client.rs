use complex_crystals::data_types::{ObjectInfoRequest, ObjectResponse, ObjectType, SampleObject, ServerInfo, WorldSize};
use complex_crystals::server_client::{FetchPlan, ServerClient, POLL_MICROS, RECONCILE_MICROS};
use complex_crystals::transport::{
    auth_username, endpoint_url, objects_from_listing, server_info_or_sentinel,
    world_size_or_sentinel, Endpoint,
};

fn response(name: &str, x: i64) -> ObjectResponse {
    ObjectResponse { name: name.to_string(), owner: "o".to_string(), x, y: 0, otype: ObjectType::Builder }
}

#[test]
fn first_update_schedules_both_fetches() {
    let mut c = ServerClient::new("localhost:3000".to_string());
    assert_eq!(c.update(0), FetchPlan { objects: true, server_info: true });
}

#[test]
fn outstanding_fetch_is_never_doubled() {
    let mut c = ServerClient::new("h:1".to_string());
    assert!(c.update(0).objects);
    for _ in 0..10 {
        let plan = c.update(POLL_MICROS);
        assert!(!plan.objects);
        assert!(!plan.server_info);
    }
}

#[test]
fn completed_fetch_reconciles_then_polls_again() {
    let mut c = ServerClient::new("h:1".to_string());
    c.update(0);
    c.complete_objects(Some(vec![response("a", 1), response("b", 2)]));
    c.complete_server_info(Some(ServerInfo { name: "srv".to_string(), status: "up".to_string(), tps: 60 }));
    // completed but not yet taken in: still no second fetch
    assert_eq!(c.update(POLL_MICROS), FetchPlan { objects: false, server_info: false });
    assert_eq!(c.get_objects().len(), 2);
    assert_eq!(c.get_server_info().name, "srv");
    assert_eq!(c.update(POLL_MICROS), FetchPlan { objects: true, server_info: true });
}

#[test]
fn cache_waits_for_fast_timer() {
    let mut c = ServerClient::new("h:1".to_string());
    c.update(0);
    c.complete_objects(Some(vec![response("a", 1)]));
    c.update(RECONCILE_MICROS - 1);
    assert!(c.get_objects().is_empty());
    c.update(1);
    assert_eq!(c.get_objects()[0].name, "a");
}

#[test]
fn undecodable_listing_gives_empty_cache() {
    let mut c = ServerClient::new("h:1".to_string());
    c.update(0);
    c.complete_objects(None);
    c.complete_server_info(None);
    c.update(RECONCILE_MICROS);
    assert!(c.get_objects().is_empty());
    let info = c.get_server_info();
    assert_eq!((info.name.as_str(), info.status.as_str(), info.tps), ("ErrorName", "ErrorStatus", 0));
}

#[test]
fn completion_without_fetch_is_ignored() {
    let mut c = ServerClient::new("h:1".to_string());
    c.complete_objects(Some(vec![response("a", 1)]));
    c.update(RECONCILE_MICROS);
    assert!(c.get_objects().is_empty());
    assert_eq!(c.get_server_info().name, "ServerName");
}

#[test]
fn selection_uses_latest_ticket() {
    let mut c = ServerClient::new("h:1".to_string());
    let first = c.select_object("a".to_string());
    let second = c.select_object("b\"c".to_string());
    assert_ne!(first.ticket, second.ticket);
    assert_eq!(second.url, "http://h:1/object_info");
    assert_eq!(second.body, "{\"name\":\"b\\\"c\"}");
    let mut stale = SampleObject::new_empty();
    stale.name = "a".to_string();
    c.complete_selected(first.ticket, stale);
    c.update(RECONCILE_MICROS);
    assert!(c.get_selected_object().is_none());
    let mut fresh = SampleObject::new_empty();
    fresh.name = "b\"c".to_string();
    c.complete_selected(second.ticket, fresh);
    c.update(RECONCILE_MICROS);
    assert_eq!(c.get_selected_object().unwrap().name, "b\"c");
}

#[test]
fn request_body_escapes_name() {
    let plain = ObjectInfoRequest { name: "ship-1".to_string() };
    assert_eq!(plain.to_json(), "{\"name\":\"ship-1\"}");
    let tricky = ObjectInfoRequest { name: "a\\b\n\u{1}".to_string() };
    assert_eq!(tricky.to_json(), "{\"name\":\"a\\\\b\\n\\u0001\"}");
}

#[test]
fn endpoint_urls() {
    assert_eq!(endpoint_url("host:80", Endpoint::Objects), "http://host:80/objects");
    assert_eq!(endpoint_url("host:80", Endpoint::Info), "http://host:80/info");
    assert_eq!(endpoint_url("host:80", Endpoint::WorldSize), "http://host:80/world_size");
    let c = ServerClient::new("x:9".to_string());
    assert_eq!(c.url(Endpoint::ObjectInfo), "http://x:9/object_info");
    assert_eq!(auth_username(), "admin");
}

#[test]
fn listing_keyed_by_name_last_wins() {
    let r = objects_from_listing(Some(vec![response("a", 1), response("b", 2), response("a", 3)]));
    assert_eq!(r.len(), 2);
    assert_eq!((r[0].name.as_str(), r[0].x), ("a", 3));
    assert_eq!((r[1].name.as_str(), r[1].x), ("b", 2));
    assert!(objects_from_listing(None).is_empty());
}

#[test]
fn decode_sentinels() {
    let ok = server_info_or_sentinel(Some(ServerInfo { name: "n".to_string(), status: "s".to_string(), tps: 3 }));
    assert_eq!(ok.tps, 3);
    let bad = server_info_or_sentinel(None);
    assert_eq!(bad.name, "ErrorName");
    assert_eq!(world_size_or_sentinel(None), WorldSize { width: 0, height: 0 });
    assert_eq!(world_size_or_sentinel(Some(WorldSize { width: 5, height: 6 })), WorldSize { width: 5, height: 6 });
}
