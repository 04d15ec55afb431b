//! Connection to a remote engine: the per-resource polling state machine.

use vstd::prelude::*;

use crate::data_types::{ObjectInfoRequest, ObjectResponse, SampleObject, ServerInfo};
use crate::transport::{
    endpoint_url, keyed_listing, objects_from_listing, server_info_or_sentinel, Endpoint,
};

verus! {

/// Period of the slow timer that schedules the periodic fetches.
pub const POLL_MICROS: u64 = 3_000_000;

/// Period of the fast timer that takes completed fetches into the caches.
pub const RECONCILE_MICROS: u64 = 100_000;

/// Where the background fetch of one kind of resource stands.
#[derive(Clone, Debug)]
pub enum FetchState<T> {
    /// No fetch is outstanding.
    Idle,
    /// A fetch was scheduled and has not completed.
    Fetching,
    /// The fetch completed with this value, not yet taken into the cache.
    Ready(T),
}

/// Which periodic fetches `update` asks the caller to start now.
#[derive(Clone, Copy, Debug, PartialEq, Eq, Structural)]
pub struct FetchPlan {
    pub objects: bool,
    pub server_info: bool,
}

/// A by-name fetch that `select_object` asks the caller to start.
#[derive(Clone, Debug)]
pub struct SelectRequest {
    /// Hand this back with the result, to `complete_selected`.
    pub ticket: u64,
    pub url: String,
    pub body: String,
}

/// The mathematical state of a `ServerClient`.
pub struct ClientModel {
    pub addr: Seq<char>,
    pub poll_clock: u64,
    pub reconcile_clock: u64,
    pub objects_fetch: FetchState<Seq<ObjectResponse>>,
    pub info_fetch: FetchState<ServerInfo>,
    pub selected_fetch: FetchState<SampleObject>,
    pub ticket: u64,
    pub objects: Seq<ObjectResponse>,
    pub info: ServerInfo,
    pub selected: Option<SampleObject>,
}

/// The slow timer fires: it has gathered a polling period.
pub open spec fn poll_due(clock: u64, elapsed: u64) -> bool {
    clock + elapsed >= POLL_MICROS
}

/// The fast timer fires: it has gathered a reconciling period.
pub open spec fn reconcile_due(clock: u64, elapsed: u64) -> bool {
    clock + elapsed >= RECONCILE_MICROS
}

/// A timer after `elapsed` more microseconds: restarted when it fires.
pub open spec fn timer_after(clock: u64, elapsed: u64, period: u64) -> u64 {
    if clock + elapsed >= period {
        0
    } else {
        (clock + elapsed) as u64
    }
}

/// Whether a fetch is started: only when the slow timer fires and no fetch
/// of that kind is outstanding or waiting to be taken in.
pub open spec fn starts<T>(s: FetchState<T>, due: bool) -> bool {
    due && s is Idle
}

/// A fetch state after the slow timer.
pub open spec fn after_poll<T>(s: FetchState<T>, due: bool) -> FetchState<T> {
    if starts(s, due) {
        FetchState::Fetching
    } else {
        s
    }
}

/// A fetch state after the fast timer: a completed fetch is taken in.
pub open spec fn after_reconcile<T>(s: FetchState<T>, due: bool) -> FetchState<T> {
    if due && s is Ready {
        FetchState::Idle
    } else {
        s
    }
}

/// A cache after the fast timer.
pub open spec fn cache_after<T>(cache: T, s: FetchState<T>, due: bool) -> T {
    if due && s is Ready {
        s->Ready_0
    } else {
        cache
    }
}

/// The model after one `update` of `elapsed` microseconds, with the fetches
/// it asks for.
pub open spec fn model_update(m: ClientModel, elapsed: u64) -> (ClientModel, FetchPlan) {
    let poll = poll_due(m.poll_clock, elapsed);
    let rec = reconcile_due(m.reconcile_clock, elapsed);
    let objects_fetch = after_poll(m.objects_fetch, poll);
    let info_fetch = after_poll(m.info_fetch, poll);
    (
        ClientModel {
            poll_clock: timer_after(m.poll_clock, elapsed, POLL_MICROS),
            reconcile_clock: timer_after(m.reconcile_clock, elapsed, RECONCILE_MICROS),
            objects_fetch: after_reconcile(objects_fetch, rec),
            info_fetch: after_reconcile(info_fetch, rec),
            selected_fetch: after_reconcile(m.selected_fetch, rec),
            objects: cache_after(m.objects, objects_fetch, rec),
            info: cache_after(m.info, info_fetch, rec),
            selected: if rec && m.selected_fetch is Ready {
                Some(m.selected_fetch->Ready_0)
            } else {
                m.selected
            },
            ..m
        },
        FetchPlan { objects: starts(m.objects_fetch, poll), server_info: starts(m.info_fetch, poll) },
    )
}

/// The model after a sequence of `update` calls and no completion.
pub open spec fn run_updates(m: ClientModel, elapsed: Seq<u64>) -> ClientModel
    decreases elapsed.len(),
{
    if elapsed.len() == 0 {
        m
    } else {
        model_update(run_updates(m, elapsed.drop_last()), elapsed.last()).0
    }
}

/// Ticket that follows `t`.
pub open spec fn next_ticket(t: u64) -> u64 {
    if t == u64::MAX {
        0
    } else {
        (t + 1) as u64
    }
}

/// A connection to a remote engine polled in the background. The caller
/// runs each fetch this state machine asks for and hands the result back;
/// `update` itself never waits on one.
pub struct ServerClient {
    addr: String,
    update_timer: u64,
    thread_check_timer: u64,
    objects_fetch: FetchState<Vec<ObjectResponse>>,
    server_info_fetch: FetchState<ServerInfo>,
    selected_fetch: FetchState<SampleObject>,
    selected_ticket: u64,
    selected_object: Option<SampleObject>,
    objects: Vec<ObjectResponse>,
    server_info: ServerInfo,
}

impl View for ServerClient {
    type V = ClientModel;

    closed spec fn view(&self) -> ClientModel {
        ClientModel {
            addr: self.addr@,
            poll_clock: self.update_timer,
            reconcile_clock: self.thread_check_timer,
            objects_fetch: match self.objects_fetch {
                FetchState::Idle => FetchState::Idle,
                FetchState::Fetching => FetchState::Fetching,
                FetchState::Ready(v) => FetchState::Ready(v@),
            },
            info_fetch: self.server_info_fetch,
            selected_fetch: self.selected_fetch,
            ticket: self.selected_ticket,
            objects: self.objects@,
            info: self.server_info,
            selected: self.selected_object,
        }
    }
}

impl ServerClient {
    /// A client of the engine at `addr` (host and port). Its slow timer
    /// starts full, so the first `update` schedules both periodic fetches.
    pub fn new(addr: String) -> (r: Self)
        ensures
            r@.addr == addr@,
            r@.poll_clock == POLL_MICROS,
            r@.reconcile_clock == 0,
            r@.objects_fetch is Idle,
            r@.info_fetch is Idle,
            r@.selected_fetch is Idle,
            r@.ticket == 0,
            r@.objects.len() == 0,
            r@.info.name@ == "ServerName"@,
            r@.info.status@ == "SomeStatus"@,
            r@.info.tps == 0,
            r@.selected is None,
    {
        ServerClient {
            addr,
            update_timer: POLL_MICROS,
            thread_check_timer: 0,
            objects_fetch: FetchState::Idle,
            server_info_fetch: FetchState::Idle,
            selected_fetch: FetchState::Idle,
            selected_ticket: 0,
            selected_object: None,
            objects: Vec::new(),
            server_info: ServerInfo {
                name: "ServerName".to_owned(),
                status: "SomeStatus".to_owned(),
                tps: 0,
            },
        }
    }

    /// Advances both timers by `elapsed` microseconds. The slow timer asks
    /// for a fetch of each periodic resource that has none outstanding; the
    /// fast timer takes every completed fetch into its cache.
    pub fn update(&mut self, elapsed: u64) -> (plan: FetchPlan)
        ensures
            (final(self)@, plan) == model_update(old(self)@, elapsed),
    {
        let poll = self.update_timer.saturating_add(elapsed) >= POLL_MICROS;
        let rec = self.thread_check_timer.saturating_add(elapsed) >= RECONCILE_MICROS;
        self.update_timer = if poll {
            0
        } else {
            self.update_timer + elapsed
        };
        self.thread_check_timer = if rec {
            0
        } else {
            self.thread_check_timer + elapsed
        };
        let mut plan = FetchPlan { objects: false, server_info: false };
        if poll {
            if let FetchState::Idle = self.objects_fetch {
                self.objects_fetch = FetchState::Fetching;
                plan.objects = true;
            }
            if let FetchState::Idle = self.server_info_fetch {
                self.server_info_fetch = FetchState::Fetching;
                plan.server_info = true;
            }
        }
        if rec {
            let mut state = FetchState::Idle;
            std::mem::swap(&mut state, &mut self.objects_fetch);
            match state {
                FetchState::Ready(v) => {
                    self.objects = v;
                },
                other => {
                    self.objects_fetch = other;
                },
            }
            let mut state = FetchState::Idle;
            std::mem::swap(&mut state, &mut self.server_info_fetch);
            match state {
                FetchState::Ready(v) => {
                    self.server_info = v;
                },
                other => {
                    self.server_info_fetch = other;
                },
            }
            let mut state = FetchState::Idle;
            std::mem::swap(&mut state, &mut self.selected_fetch);
            match state {
                FetchState::Ready(v) => {
                    self.selected_object = Some(v);
                },
                other => {
                    self.selected_fetch = other;
                },
            }
        }
        proof {
            assert(final(self)@ == model_update(old(self)@, elapsed).0);
        }
        plan
    }

    /// The URL of a resource of the remote engine.
    pub fn url(&self, endpoint: Endpoint) -> (r: String)
        ensures
            r@ == "http://"@ + self@.addr + endpoint.path_spec(),
    {
        endpoint_url(self.addr.as_str(), endpoint)
    }

    /// The bulk listing fetch completed; `parsed` is `None` when its body
    /// failed to decode, which leaves an empty listing.
    pub fn complete_objects(&mut self, parsed: Option<Vec<ObjectResponse>>)
        ensures
            final(self)@ == if old(self)@.objects_fetch is Fetching {
                ClientModel {
                    objects_fetch: FetchState::Ready(
                        match parsed {
                            Some(v) => keyed_listing(v@),
                            None => Seq::empty(),
                        },
                    ),
                    ..old(self)@
                }
            } else {
                old(self)@
            },
    {
        if let FetchState::Fetching = self.objects_fetch {
            let listing = objects_from_listing(parsed);
            self.objects_fetch = FetchState::Ready(listing);
        }
    }

    /// The server status fetch completed; `parsed` is `None` when its body
    /// failed to decode, which leaves the error sentinel.
    pub fn complete_server_info(&mut self, parsed: Option<ServerInfo>)
        ensures
            old(self)@.info_fetch is Fetching ==> final(self)@ == (ClientModel {
                info_fetch: final(self)@.info_fetch,
                ..old(self)@
            }) && final(self)@.info_fetch is Ready && match parsed {
                Some(info) => final(self)@.info_fetch->Ready_0 == info,
                None => final(self)@.info_fetch->Ready_0.name@ == "ErrorName"@
                    && final(self)@.info_fetch->Ready_0.status@ == "ErrorStatus"@
                    && final(self)@.info_fetch->Ready_0.tps == 0,
            },
            !(old(self)@.info_fetch is Fetching) ==> final(self)@ == old(self)@,
    {
        if let FetchState::Fetching = self.server_info_fetch {
            let info = server_info_or_sentinel(parsed);
            self.server_info_fetch = FetchState::Ready(info);
        }
    }

    /// Starts a by-name fetch of `name`, superseding any earlier one, and
    /// returns what the caller needs to run it.
    pub fn select_object(&mut self, name: String) -> (r: SelectRequest)
        ensures
            final(self)@ == (ClientModel {
                selected_fetch: FetchState::Fetching,
                ticket: next_ticket(old(self)@.ticket),
                ..old(self)@
            }),
            r.ticket == next_ticket(old(self)@.ticket),
            r.url@ == "http://"@ + old(self)@.addr + "/object_info"@,
            r.body@ == "{\"name\":"@ + crate::transport::json_quoted(name@) + "}"@,
    {
        let ticket = if self.selected_ticket == u64::MAX {
            0
        } else {
            self.selected_ticket + 1
        };
        self.selected_ticket = ticket;
        self.selected_fetch = FetchState::Fetching;
        let url = endpoint_url(self.addr.as_str(), Endpoint::ObjectInfo);
        let request = ObjectInfoRequest { name };
        let body = request.to_json();
        SelectRequest { ticket, url, body }
    }

    /// The by-name fetch with `ticket` completed with `object`; a result of
    /// a superseded fetch is dropped.
    pub fn complete_selected(&mut self, ticket: u64, object: SampleObject)
        ensures
            final(self)@ == if old(self)@.selected_fetch is Fetching && ticket == old(self)@.ticket {
                ClientModel { selected_fetch: FetchState::Ready(object), ..old(self)@ }
            } else {
                old(self)@
            },
    {
        if ticket == self.selected_ticket {
            if let FetchState::Fetching = self.selected_fetch {
                self.selected_fetch = FetchState::Ready(object);
            }
        }
    }

    /// The cached listing.
    pub fn get_objects(&self) -> (r: Vec<ObjectResponse>)
        ensures
            r@ == self@.objects,
    {
        let mut result: Vec<ObjectResponse> = Vec::new();
        let mut i: usize = 0;
        while i < self.objects.len()
            invariant
                i <= self.objects@.len(),
                result@ == self.objects@.take(i as int),
            decreases self.objects@.len() - i,
        {
            result.push(self.objects[i].duplicate());
            i = i + 1;
            assert(result@ =~= self.objects@.take(i as int));
        }
        assert(self.objects@.take(self.objects@.len() as int) =~= self.objects@);
        result
    }

    /// The cached selected entity.
    pub fn get_selected_object(&self) -> (r: Option<SampleObject>)
        ensures
            r == self@.selected,
    {
        match &self.selected_object {
            Some(o) => Some(o.duplicate()),
            None => None,
        }
    }

    /// The cached server status.
    pub fn get_server_info(&self) -> (r: ServerInfo)
        ensures
            r == self@.info,
    {
        self.server_info.duplicate()
    }
}

} // verus!
