//! The probe scheduler: which probe runs for which service, how each probe
//! is set up from the service's configuration, and how its result is
//! recorded.
use crate::models::service::Service;
use crate::text::text_eq;
use vstd::prelude::*;

verus! {

// ── Probe configuration ───────────────────────────────────

/// The unsigned integer that `serde_json` finds under `key` when `text`
/// parses as a JSON object, `None` otherwise. It depends on the two texts
/// alone.
pub uninterp spec fn json_u64_member(text: Seq<char>, key: Seq<char>) -> Option<u64>;

/// The string that `serde_json` finds under `key` when `text` parses as a
/// JSON object, `None` otherwise. It depends on the two texts alone.
pub uninterp spec fn json_str_member(text: Seq<char>, key: Seq<char>) -> Option<Seq<char>>;

/// Calls `serde_json::from_str::<Value>`, then `Value::get(key)` and
/// `Value::as_u64`. The contract claims that the result is a function of
/// the two texts alone (named `json_u64_member`); the JSON grammar is not
/// restated.
#[verifier::external_body]
fn json_u64_at(text: &str, key: &str) -> (r: Option<u64>)
    ensures
        r == json_u64_member(text@, key@),
{
    match serde_json::from_str::<serde_json::Value>(text) {
        Ok(v) => match v.get(key) {
            Some(x) => x.as_u64(),
            None => None,
        },
        Err(_) => None,
    }
}

/// Calls `serde_json::from_str::<Value>`, then `Value::get(key)` and
/// `Value::as_str`. The contract claims that the result is a function of
/// the two texts alone (named `json_str_member`); the JSON grammar is not
/// restated.
#[verifier::external_body]
fn json_str_at(text: &str, key: &str) -> (r: Option<String>)
    ensures
        match json_str_member(text@, key@) {
            Some(s) => r matches Some(t) && t@ == s,
            None => r is None,
        },
{
    match serde_json::from_str::<serde_json::Value>(text) {
        Ok(v) => match v.get(key) {
            Some(x) => match x.as_str() {
                Some(s) => Some(s.to_string()),
                None => None,
            },
            None => None,
        },
        Err(_) => None,
    }
}

/// How one check of a service is made.
#[derive(Debug)]
pub enum ProbePlan {
    /// Open a TCP connection to `address`.
    Tcp { address: String, timeout_secs: u64 },
    /// Fetch `url` and compare the status code with `expected_status`.
    Http { url: String, timeout_secs: u64, expected_status: u16 },
}

/// The plan for a check: a timeout of 10 s unless configured; a `tcp`
/// service connects to its configured address, or else to its URL; any
/// other service fetches its URL and expects the configured status
/// (truncated to 16 bits), or else 200.
pub open spec fn plan_matches(
    probe_type: Seq<char>,
    url: Seq<char>,
    timeout: Option<u64>,
    address: Option<Seq<char>>,
    expected: Option<u64>,
    r: ProbePlan,
) -> bool {
    let t = match timeout {
        Some(t) => t,
        None => 10u64,
    };
    if probe_type == "tcp"@ {
        r matches ProbePlan::Tcp { address: a, timeout_secs } && timeout_secs == t && a@ == (
        match address {
            Some(a) => a,
            None => url,
        })
    } else {
        r matches ProbePlan::Http { url: u, timeout_secs, expected_status } && timeout_secs == t
            && u@ == url && expected_status == (match expected {
            Some(e) => e as u16,
            None => 200u16,
        })
    }
}

/// The plan for a check from the values read out of a service's probe
/// configuration.
pub fn plan_from_config(
    probe_type: &str,
    url: &str,
    timeout: Option<u64>,
    address: Option<String>,
    expected: Option<u64>,
) -> (r: ProbePlan)
    ensures
        plan_matches(
            probe_type@,
            url@,
            timeout,
            match address {
                Some(a) => Some(a@),
                None => None,
            },
            expected,
            r,
        ),
{
    let timeout_secs = match timeout {
        Some(t) => t,
        None => 10,
    };
    if text_eq(probe_type, "tcp") {
        let address = match address {
            Some(a) => a,
            None => String::from_str(url),
        };
        ProbePlan::Tcp { address, timeout_secs }
    } else {
        let expected_status = match expected {
            Some(e) => e as u16,
            None => 200,
        };
        ProbePlan::Http { url: String::from_str(url), timeout_secs, expected_status }
    }
}

/// The plan for the next check of a service, read from its JSON probe
/// configuration (keys `timeout`, `address`, `expected_status`); a
/// configuration that does not parse counts as empty.
pub fn plan_probe(svc: &Service) -> (r: ProbePlan)
    ensures
        plan_matches(
            svc.probe_type@,
            svc.url@,
            json_u64_member(svc.probe_config@, "timeout"@),
            json_str_member(svc.probe_config@, "address"@),
            json_u64_member(svc.probe_config@, "expected_status"@),
            r,
        ),
{
    let config = svc.probe_config.as_str();
    let timeout = json_u64_at(config, "timeout");
    if text_eq(svc.probe_type.as_str(), "tcp") {
        let address = json_str_at(config, "address");
        plan_from_config(svc.probe_type.as_str(), svc.url.as_str(), timeout, address, None)
    } else {
        let expected = json_u64_at(config, "expected_status");
        plan_from_config(svc.probe_type.as_str(), svc.url.as_str(), timeout, None, expected)
    }
}

/// The pause between two checks of a service: its interval, and never less
/// than 10 s.
pub fn probe_interval_secs(interval_secs: i64) -> (r: u64)
    ensures
        r == (if interval_secs < 10 {
            10
        } else {
            interval_secs
        }),
{
    if interval_secs < 10 {
        10
    } else {
        interval_secs as u64
    }
}

/// The status recorded for a check: `ok` when it passed, `down` when not.
pub fn check_status(ok: bool) -> (r: &'static str)
    ensures
        r@ == (if ok {
            "ok"@
        } else {
            "down"@
        }),
{
    if ok {
        "ok"
    } else {
        "down"
    }
}

// ── Which probes run ──────────────────────────────────────

/// A request to the scheduler.
#[derive(Debug)]
pub enum ProbeCommand {
    /// Start probing a new service.
    Add(Service),
    /// Stop probing the service with this id.
    Remove(String),
    /// A service changed: stop its probe, and start it again if it is
    /// enabled.
    Reload(Service),
}

/// What the scheduler asks its runtime to do.
#[derive(Debug)]
pub enum ProbeAction {
    /// Spawn a probe task for the service and keep its handle under the
    /// service's id, in place of any handle kept there before.
    Start(Service),
    /// Take the handle kept under this id and abort its task.
    Stop(String),
}

/// The ids of the services whose probe tasks the scheduler keeps. No id is
/// kept twice.
pub struct ProbeRegistry {
    running: Vec<String>,
}

/// The ids watched after a command, given those watched before.
pub open spec fn after_command(watched: Set<Seq<char>>, cmd: ProbeCommand) -> Set<Seq<char>> {
    match cmd {
        ProbeCommand::Add(svc) => watched.insert(svc.id@),
        ProbeCommand::Remove(id) => watched.remove(id@),
        ProbeCommand::Reload(svc) => if svc.enabled {
            watched.insert(svc.id@)
        } else {
            watched.remove(svc.id@)
        },
    }
}

/// The actions a command asks for, given the ids watched before: an added
/// service is started; a removed one is stopped if it was watched; a
/// reloaded one is stopped if it was watched and then started if it is
/// enabled.
pub open spec fn actions_for(watched: Set<Seq<char>>, cmd: ProbeCommand) -> Seq<ProbeAction> {
    match cmd {
        ProbeCommand::Add(svc) => seq![ProbeAction::Start(svc)],
        ProbeCommand::Remove(id) => if watched.contains(id@) {
            seq![ProbeAction::Stop(id)]
        } else {
            Seq::empty()
        },
        ProbeCommand::Reload(svc) => (if watched.contains(svc.id@) {
            seq![ProbeAction::Stop(svc.id)]
        } else {
            Seq::empty()
        }) + (if svc.enabled {
            seq![ProbeAction::Start(svc)]
        } else {
            Seq::empty()
        }),
    }
}

/// The enabled services among `services`, in order.
pub open spec fn enabled_services(services: Seq<Service>) -> Seq<Service>
    decreases services.len(),
{
    if services.len() == 0 {
        Seq::empty()
    } else if services.last().enabled {
        enabled_services(services.drop_last()).push(services.last())
    } else {
        enabled_services(services.drop_last())
    }
}

impl ProbeRegistry {
    /// The watched ids, as a sequence.
    pub closed spec fn ids(&self) -> Seq<Seq<char>> {
        self.running@.map_values(|s: String| s@)
    }

    /// No id is watched twice.
    #[verifier::type_invariant]
    spec fn wf(&self) -> bool {
        self.ids().no_duplicates()
    }

    /// The watched ids.
    pub closed spec fn watched(&self) -> Set<Seq<char>> {
        Set::new(|x: Seq<char>| self.ids().contains(x))
    }

    /// A registry that tracks nothing.
    pub fn new() -> (r: ProbeRegistry)
        ensures
            r.watched() == Set::<Seq<char>>::empty(),
    {
        let running: Vec<String> = Vec::new();
        assert(running@.map_values(|s: String| s@) =~= Seq::<Seq<char>>::empty());
        let r = ProbeRegistry { running };
        assert(r.ids() =~= Seq::<Seq<char>>::empty());
        assert(r.watched() =~= Set::<Seq<char>>::empty());
        r
    }

    fn position(&self, id: &str) -> (r: Option<usize>)
        ensures
            match r {
                Some(i) => i < self.running@.len() && self.ids()[i as int] == id@,
                None => !self.ids().contains(id@),
            },
    {
        let n = self.running.len();
        let mut i: usize = 0;
        while i < n
            invariant
                n == self.running@.len(),
                i <= n,
                forall|k: int| 0 <= k < i ==> self.ids()[k] != id@,
            decreases n - i,
        {
            if text_eq(self.running[i].as_str(), id) {
                return Some(i);
            }
            i = i + 1;
        }
        proof {
            if self.ids().contains(id@) {
                let k = choose|k: int| 0 <= k < self.ids().len() && self.ids()[k] == id@;
                assert(self.ids()[k] != id@);
            }
        }
        None
    }

    /// Whether a probe task is kept for this service id.
    pub fn is_running(&self, id: &str) -> (r: bool)
        ensures
            r == self.watched().contains(id@),
    {
        self.position(id).is_some()
    }

    fn track(&mut self, id: String)
        ensures
            final(self).watched() == old(self).watched().insert(id@),
    {
        proof {
            use_type_invariant(&*self);
        }
        if self.position(id.as_str()).is_none() {
            let ghost before = self.ids();
            let mut v: Vec<String> = Vec::new();
            std::mem::swap(&mut v, &mut self.running);
            v.push(id);
            proof {
                let now = v@.map_values(|s: String| s@);
                assert(now =~= before.push(id@));
                assert forall|a: int, b: int| 0 <= a < b < now.len() implies now[a] != now[b] by {
                    if b == before.len() {
                        assert(now[a] == before[a]);
                    }
                }
            }
            self.running = v;
            proof {
                assert forall|x: Seq<char>|
                    #![trigger self.ids().contains(x)]
                    self.ids().contains(x) <==> (before.contains(x) || x == id@) by {
                    if self.ids().contains(x) {
                        let k = choose|k: int| 0 <= k < self.ids().len() && self.ids()[k] == x;
                        if k < before.len() {
                            assert(before[k] == x);
                        }
                    }
                    if before.contains(x) {
                        let k = choose|k: int| 0 <= k < before.len() && before[k] == x;
                        assert(self.ids()[k] == x);
                    }
                    if x == id@ {
                        assert(self.ids()[before.len() as int] == x);
                    }
                }
            }
        }
        assert(self.watched() =~= old(self).watched().insert(id@));
    }

    fn untrack(&mut self, id: &str) -> (was: bool)
        ensures
            was == old(self).watched().contains(id@),
            final(self).watched() == old(self).watched().remove(id@),
    {
        proof {
            use_type_invariant(&*self);
        }
        match self.position(id) {
            Some(i) => {
                let ghost before = self.ids();
                let mut v: Vec<String> = Vec::new();
                std::mem::swap(&mut v, &mut self.running);
                let _ = v.remove(i);
                proof {
                    let now = v@.map_values(|s: String| s@);
                    assert(now =~= before.remove(i as int));
                    assert forall|a: int, b: int|
                        0 <= a < b < now.len() implies now[a] != now[b] by {
                        let a2 = if a < i { a } else { a + 1 };
                        let b2 = if b < i { b } else { b + 1 };
                        assert(now[a] == before[a2]);
                        assert(now[b] == before[b2]);
                    }
                }
                self.running = v;
                proof {
                    assert forall|x: Seq<char>|
                        #![trigger self.ids().contains(x)]
                        self.ids().contains(x) <==> (before.contains(x) && x != id@) by {
                        if self.ids().contains(x) {
                            let k = choose|k: int| 0 <= k < self.ids().len() && self.ids()[k] == x;
                            if k < i {
                                assert(before[k] == x);
                            } else {
                                assert(before[k + 1] == x);
                            }
                        }
                        if before.contains(x) && x != id@ {
                            let k = choose|k: int| 0 <= k < before.len() && before[k] == x;
                            if k < i {
                                assert(self.ids()[k] == x);
                            } else {
                                assert(k != i);
                                assert(self.ids()[k - 1] == x);
                            }
                        }
                    }
                }
                assert(self.watched() =~= old(self).watched().remove(id@));
                true
            },
            None => {
                assert(self.watched() =~= old(self).watched().remove(id@));
                false
            },
        }
    }

    /// Handles one command: updates the watched ids and returns the actions
    /// for the runtime, in the order in which they are to be done.
    pub fn handle(&mut self, cmd: ProbeCommand) -> (actions: Vec<ProbeAction>)
        ensures
            final(self).watched() == after_command(old(self).watched(), cmd),
            actions@ == actions_for(old(self).watched(), cmd),
    {
        let ghost before = self.watched();
        let mut actions: Vec<ProbeAction> = Vec::new();
        match cmd {
            ProbeCommand::Add(svc) => {
                self.track(svc.id.clone());
                actions.push(ProbeAction::Start(svc));
                assert(actions@ =~= seq![ProbeAction::Start(svc)]);
            },
            ProbeCommand::Remove(id) => {
                if self.untrack(id.as_str()) {
                    actions.push(ProbeAction::Stop(id));
                    assert(actions@ =~= seq![ProbeAction::Stop(id)]);
                } else {
                    assert(actions@ =~= Seq::<ProbeAction>::empty());
                }
            },
            ProbeCommand::Reload(svc) => {
                let ghost s = svc;
                if self.untrack(svc.id.as_str()) {
                    actions.push(ProbeAction::Stop(svc.id.clone()));
                }
                let ghost stops = actions@;
                if svc.enabled {
                    self.track(svc.id.clone());
                    actions.push(ProbeAction::Start(svc));
                    assert(actions@ =~= stops + seq![ProbeAction::Start(s)]);
                } else {
                    assert(actions@ =~= stops + Seq::<ProbeAction>::empty());
                }
                assert(self.watched() =~= after_command(before, ProbeCommand::Reload(s)));
            },
        }
        actions
    }

    /// Starts the probes of the services found at startup: every enabled
    /// service is started, in order, and watched.
    pub fn start_all(&mut self, services: Vec<Service>) -> (actions: Vec<ProbeAction>)
        ensures
            final(self).watched() == old(self).watched().union(
                enabled_services(services@).map_values(|s: Service| s.id@).to_set(),
            ),
            actions@ == enabled_services(services@).map_values(|s: Service| ProbeAction::Start(s)),
    {
        let mut actions: Vec<ProbeAction> = Vec::new();
        let n = services.len();
        let ghost all = services@;
        let ghost before = self.watched();
        let mut rest = services;
        let mut i: usize = 0;
        proof {
            assert(all.take(0) =~= Seq::<Service>::empty());
            assert(enabled_services(all.take(0)) =~= Seq::<Service>::empty());
        }
        while i < n
            invariant
                n == all.len(),
                i <= n,
                rest@ =~= all.skip(i as int),
                self.watched() == before.union(
                    enabled_services(all.take(i as int)).map_values(|s: Service| s.id@).to_set(),
                ),
                actions@ == enabled_services(all.take(i as int)).map_values(
                    |s: Service| ProbeAction::Start(s),
                ),
            decreases n - i,
        {
            let svc = rest.remove(0);
            proof {
                assert(svc == all[i as int]);
                assert(all.take(i + 1).drop_last() =~= all.take(i as int));
                assert(all.take(i + 1).last() == all[i as int]);
                assert(rest@ =~= all.skip(i + 1));
            }
            let ghost prev_tracked = self.watched();
            let ghost prev_actions = actions@;
            let ghost e = enabled_services(all.take(i as int));
            if svc.enabled {
                self.track(svc.id.clone());
                actions.push(ProbeAction::Start(svc));
                proof {
                    let e2 = e.push(all[i as int]);
                    assert(enabled_services(all.take(i + 1)) == e2);
                    assert(e2.map_values(|s: Service| ProbeAction::Start(s)) =~= e.map_values(
                        |s: Service| ProbeAction::Start(s),
                    ).push(ProbeAction::Start(all[i as int])));
                    assert(e2.map_values(|s: Service| s.id@) =~= e.map_values(|s: Service| s.id@).push(
                        all[i as int].id@,
                    ));
                    assert(e2.map_values(|s: Service| s.id@).to_set() =~= e.map_values(
                        |s: Service| s.id@,
                    ).to_set().insert(all[i as int].id@)) by {
                        let m1 = e.map_values(|s: Service| s.id@);
                        let m2 = e2.map_values(|s: Service| s.id@);
                        assert forall|x: Seq<char>| m2.contains(x) <==> (m1.contains(x) || x
                            == all[i as int].id@) by {
                            if m2.contains(x) {
                                let k = choose|k: int| 0 <= k < m2.len() && m2[k] == x;
                                if k < m1.len() {
                                    assert(m1[k] == x);
                                }
                            }
                            if m1.contains(x) {
                                let k = choose|k: int| 0 <= k < m1.len() && m1[k] == x;
                                assert(m2[k] == x);
                            }
                            if x == all[i as int].id@ {
                                assert(m2[m1.len() as int] == x);
                            }
                        }
                    }
                    assert(self.watched() =~= before.union(
                        e2.map_values(|s: Service| s.id@).to_set(),
                    ));
                }
            } else {
                proof {
                    assert(enabled_services(all.take(i + 1)) == e);
                }
            }
            i = i + 1;
        }
        proof {
            assert(all.take(n as int) =~= all);
        }
        actions
    }
}

/// After a service is reloaded, its probe runs exactly when the service is
/// enabled.
pub proof fn law_reload_follows_enabled(watched: Set<Seq<char>>, svc: Service)
    ensures
        after_command(watched, ProbeCommand::Reload(svc)).contains(svc.id@) == svc.enabled,
{
}

/// After a service is removed, no probe runs for it.
pub proof fn law_remove_stops(watched: Set<Seq<char>>, id: String)
    ensures
        !after_command(watched, ProbeCommand::Remove(id)).contains(id@),
{
}

/// After a service is added, its probe runs.
pub proof fn law_add_starts(watched: Set<Seq<char>>, svc: Service)
    ensures
        after_command(watched, ProbeCommand::Add(svc)).contains(svc.id@),
{
}

/// A command touches only the service it names: every other id is watched
/// after it exactly when it was watched before.
pub proof fn law_other_services_untouched(watched: Set<Seq<char>>, cmd: ProbeCommand, x: Seq<char>)
    requires
        x != (match cmd {
            ProbeCommand::Add(svc) => svc.id@,
            ProbeCommand::Remove(id) => id@,
            ProbeCommand::Reload(svc) => svc.id@,
        }),
    ensures
        after_command(watched, cmd).contains(x) == watched.contains(x),
{
}

/// Only a watched probe is ever stopped: every stop action names an id that
/// was watched before the command.
pub proof fn law_stops_only_tracked(watched: Set<Seq<char>>, cmd: ProbeCommand, k: int)
    requires
        0 <= k < actions_for(watched, cmd).len(),
        actions_for(watched, cmd)[k] is Stop,
    ensures
        watched.contains(actions_for(watched, cmd)[k]->Stop_0@),
{
    match cmd {
        ProbeCommand::Add(svc) => {},
        ProbeCommand::Remove(id) => {},
        ProbeCommand::Reload(svc) => {
            if !watched.contains(svc.id@) {
                assert(actions_for(watched, cmd) =~= (if svc.enabled {
                    seq![ProbeAction::Start(svc)]
                } else {
                    Seq::empty()
                }));
            }
        },
    }
}

/// The services started at startup are exactly the enabled ones, in their
/// order: what `Seq::filter` keeps of the services for their `enabled` flag,
/// whatever their other fields hold.
pub proof fn law_start_all_is_enabled_filter(services: Seq<Service>)
    ensures
        enabled_services(services) == services.filter(|s: Service| s.enabled),
    decreases services.len(),
{
    reveal(Seq::filter);
    if services.len() > 0 {
        law_start_all_is_enabled_filter(services.drop_last());
    }
}

/// Every enabled service gets a start action at startup, and its id is
/// watched afterwards.
pub proof fn law_start_all_covers_enabled(services: Seq<Service>, i: int)
    requires
        0 <= i < services.len(),
        services[i].enabled,
    ensures
        enabled_services(services).map_values(|s: Service| ProbeAction::Start(s)).contains(
            ProbeAction::Start(services[i]),
        ),
        enabled_services(services).map_values(|s: Service| s.id@).to_set().contains(
            services[i].id@,
        ),
{
    law_start_all_is_enabled_filter(services);
    let pred = |s: Service| s.enabled;
    services.lemma_filter_contains(pred, i);
    let e = enabled_services(services);
    let k = choose|k: int| 0 <= k < e.len() && e[k] == services[i];
    let starts = e.map_values(|s: Service| ProbeAction::Start(s));
    let ids = e.map_values(|s: Service| s.id@);
    assert(starts[k] == ProbeAction::Start(services[i]));
    assert(ids[k] == services[i].id@);
}

/// Only enabled services of the input are started at startup.
pub proof fn law_start_all_starts_only_enabled(services: Seq<Service>, k: int)
    requires
        0 <= k < enabled_services(services).len(),
    ensures
        enabled_services(services)[k].enabled,
        services.contains(enabled_services(services)[k]),
    decreases services.len(),
{
    let p = services.drop_last();
    if services.last().enabled && k == enabled_services(p).len() {
        assert(services[services.len() - 1] == services.last());
    } else {
        law_start_all_starts_only_enabled(p, k);
        let j = choose|j: int| 0 <= j < p.len() && p[j] == enabled_services(p)[k];
        assert(services[j] == p[j]);
    }
}

} // verus!
