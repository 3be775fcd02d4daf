//! Versioned configuration resources.
//!
//! Every resource kind carries a `(version, nonce)` pair: the version is the
//! wall-clock millisecond reading of the last successful update, the nonce a
//! strictly monotonic counter that disambiguates updates landing in the same
//! millisecond. Together they form the ACK token clients echo, and the token
//! the optimistic-concurrency check compares against.

use vstd::prelude::*;
use crate::numfmt::{spec_dec, u64_to_dec};
use crate::text::str_eq;

verus! {

/// The closed set of configurable resource kinds the discovery API exposes.
#[derive(Clone, Copy, Debug, PartialEq, Eq, Structural)]
pub enum ResourceType {
    Listener,
    Route,
    Http,
    Logging,
    Performance,
    VirtualHost,
}

impl ResourceType {
    /// The collection segment of this kind's discovery path, as in
    /// `/v1/discovery:listeners`.
    pub fn collection_name(self) -> (r: &'static str)
        ensures
            r@ == spec_collection_name(self),
    {
        match self {
            ResourceType::Listener => "listeners",
            ResourceType::Route => "routes",
            ResourceType::Http => "http",
            ResourceType::Logging => "logging",
            ResourceType::Performance => "performance",
            ResourceType::VirtualHost => "vhosts",
        }
    }
}

pub open spec fn spec_collection_name(rt: ResourceType) -> Seq<char> {
    match rt {
        ResourceType::Listener => "listeners"@,
        ResourceType::Route => "routes"@,
        ResourceType::Http => "http"@,
        ResourceType::Logging => "logging"@,
        ResourceType::Performance => "performance"@,
        ResourceType::VirtualHost => "vhosts"@,
    }
}

/// Relies on `std::time::SystemTime`: the system clock's milliseconds since
/// the Unix epoch, zero if the clock reads before the epoch. Nothing is
/// promised of the value; callers state what holds for every reading.
#[verifier::external_body]
pub(crate) fn now_unix_millis() -> u64 {
    let ms = std::time::SystemTime::now().duration_since(std::time::UNIX_EPOCH).unwrap_or_default().as_millis();
    u64::try_from(ms).unwrap_or_default()
}

/// The `(version, nonce)` state of one resource kind.
#[derive(Clone, Copy, Debug, PartialEq, Eq, Structural)]
pub struct VersionedResource {
    pub version: u64,
    pub nonce: u64,
}

impl VersionedResource {
    /// The state after one successful update at clock reading `now`.
    pub open spec fn spec_bumped(self, now: u64) -> VersionedResource {
        VersionedResource { version: now, nonce: (self.nonce + 1) as u64 }
    }

    /// A fresh resource stamped with the clock reading `now`; the nonce
    /// starts at 1.
    pub fn new_at(now: u64) -> (r: VersionedResource)
        ensures
            r.version == now,
            r.nonce == 1,
    {
        VersionedResource { version: now, nonce: 1 }
    }

    /// A fresh resource stamped with the current wall clock.
    pub fn new() -> (r: VersionedResource)
        ensures
            r.nonce == 1,
    {
        VersionedResource::new_at(now_unix_millis())
    }

    /// Record one successful update at clock reading `now`: the version
    /// becomes `now` and the nonce increments by exactly one. Returns the
    /// new pair.
    pub fn increment_at(&mut self, now: u64) -> (r: (u64, u64))
        requires
            old(self).nonce < u64::MAX,
        ensures
            *final(self) == old(self).spec_bumped(now),
            r.0 == final(self).version,
            r.1 == final(self).nonce,
    {
        self.version = now;
        self.nonce = self.nonce + 1;
        (self.version, self.nonce)
    }

    /// Record one successful update at the current wall clock.
    pub fn increment(&mut self) -> (r: (u64, u64))
        requires
            old(self).nonce < u64::MAX,
        ensures
            *final(self) == old(self).spec_bumped(final(self).version),
            r.0 == final(self).version,
            r.1 == final(self).nonce,
    {
        let now = now_unix_millis();
        self.increment_at(now)
    }

    /// The current `(version, nonce)` pair; reading never changes the state.
    pub fn get(&self) -> (r: (u64, u64))
        ensures
            r.0 == self.version,
            r.1 == self.nonce,
    {
        (self.version, self.nonce)
    }
}

impl Default for VersionedResource {
    /// A fresh resource stamped with the current wall clock.
    fn default() -> (r: Self)
        ensures
            r.nonce == 1,
    {
        VersionedResource::new()
    }
}

/// Strict lexicographic order on `(version, nonce)` pairs.
pub open spec fn spec_pair_lt(a: VersionedResource, b: VersionedResource) -> bool {
    a.version < b.version || (a.version == b.version && a.nonce < b.nonce)
}

/// The states observed after each of a sequence of successful updates with
/// the given clock readings.
pub open spec fn spec_run_updates(init: VersionedResource, times: Seq<u64>) -> Seq<VersionedResource>
    decreases times.len(),
{
    if times.len() == 0 {
        Seq::empty()
    } else {
        let earlier = spec_run_updates(init, times.drop_last());
        let prev = if earlier.len() == 0 {
            init
        } else {
            earlier.last()
        };
        earlier.push(prev.spec_bumped(times.last()))
    }
}

/// For any sequence of successful updates under a monotonic clock, the
/// observed `(version, nonce)` pairs are strictly increasing in lexicographic
/// order, and each update raises the nonce by exactly one.
pub proof fn lemma_updates_strictly_increase(init: VersionedResource, times: Seq<u64>)
    requires
        init.nonce + times.len() <= u64::MAX,
        forall|i: int|
            0 <= i < times.len() ==> (if i == 0 {
                init.version
            } else {
                times[i - 1]
            }) <= #[trigger] times[i],
    ensures
        spec_run_updates(init, times).len() == times.len(),
        forall|i: int|
            #![trigger spec_run_updates(init, times)[i]]
            0 <= i < times.len() ==> {
                let prev = if i == 0 {
                    init
                } else {
                    spec_run_updates(init, times)[i - 1]
                };
                spec_pair_lt(prev, spec_run_updates(init, times)[i]) && spec_run_updates(
                    init,
                    times,
                )[i].nonce == prev.nonce + 1 && spec_run_updates(init, times)[i].version == times[i]
                    && spec_run_updates(init, times)[i].nonce == init.nonce + i + 1
            },
    decreases times.len(),
{
    if times.len() > 0 {
        let n = times.len() as int;
        let t0 = times.drop_last();
        assert forall|i: int|
            0 <= i < t0.len() implies (if i == 0 {
            init.version
        } else {
            t0[i - 1]
        }) <= #[trigger] t0[i] by {
            assert(t0[i] == times[i]);
            if i > 0 {
                assert(t0[i - 1] == times[i - 1]);
            }
        }
        lemma_updates_strictly_increase(init, t0);
        let earlier = spec_run_updates(init, t0);
        let states = spec_run_updates(init, times);
        let prev = if earlier.len() == 0 {
            init
        } else {
            earlier.last()
        };
        assert(states == earlier.push(prev.spec_bumped(times.last())));
        assert(prev.nonce == init.nonce + n - 1);
        assert forall|i: int| 0 <= i < n implies {
            let p = if i == 0 {
                init
            } else {
                states[i - 1]
            };
            spec_pair_lt(p, #[trigger] states[i]) && states[i].nonce == p.nonce + 1 && states[i].version
                == times[i] && states[i].nonce == init.nonce + i + 1
        } by {
            if i < n - 1 {
                assert(states[i] == earlier[i]);
                if i > 0 {
                    assert(states[i - 1] == earlier[i - 1]);
                }
                assert(t0[i] == times[i]);
            } else {
                assert(states[n - 1] == prev.spec_bumped(times[n - 1]));
                if n >= 2 {
                    assert(states[n - 2] == earlier[n - 2]);
                    assert(earlier[n - 2] == earlier.last());
                    assert(prev.version == t0[n - 2]);
                    assert(t0[n - 2] == times[n - 2]);
                    assert(times[n - 2] <= times[n - 1]);
                } else {
                    assert(init.version <= times[0]);
                }
            }
        }
    }
}

/// One versioned state per resource kind; versions of different kinds evolve
/// independently.
#[derive(Clone, Copy, Debug, PartialEq, Eq, Structural)]
pub struct XdsVersionManager {
    pub listener: VersionedResource,
    pub route: VersionedResource,
    pub http: VersionedResource,
    pub logging: VersionedResource,
    pub performance: VersionedResource,
    pub virtual_hosts: VersionedResource,
}

impl XdsVersionManager {
    /// The state of one kind.
    pub open spec fn spec_resource(self, rt: ResourceType) -> VersionedResource {
        match rt {
            ResourceType::Listener => self.listener,
            ResourceType::Route => self.route,
            ResourceType::Http => self.http,
            ResourceType::Logging => self.logging,
            ResourceType::Performance => self.performance,
            ResourceType::VirtualHost => self.virtual_hosts,
        }
    }

    /// The manager with one kind's state replaced; the other kinds are
    /// untouched.
    pub open spec fn spec_with_resource(self, rt: ResourceType, vr: VersionedResource) -> XdsVersionManager {
        match rt {
            ResourceType::Listener => XdsVersionManager { listener: vr, ..self },
            ResourceType::Route => XdsVersionManager { route: vr, ..self },
            ResourceType::Http => XdsVersionManager { http: vr, ..self },
            ResourceType::Logging => XdsVersionManager { logging: vr, ..self },
            ResourceType::Performance => XdsVersionManager { performance: vr, ..self },
            ResourceType::VirtualHost => XdsVersionManager { virtual_hosts: vr, ..self },
        }
    }

    /// A manager with every kind stamped at clock reading `now` and nonce 1.
    pub fn new_at(now: u64) -> (r: XdsVersionManager)
        ensures
            forall|rt: ResourceType| #[trigger] r.spec_resource(rt) == (VersionedResource {
                version: now,
                nonce: 1,
            }),
    {
        let vr = VersionedResource::new_at(now);
        XdsVersionManager {
            listener: vr,
            route: vr,
            http: vr,
            logging: vr,
            performance: vr,
            virtual_hosts: vr,
        }
    }

    /// A manager with every kind stamped at the current wall clock.
    pub fn new() -> (r: XdsVersionManager)
        ensures
            forall|rt: ResourceType| (#[trigger] r.spec_resource(rt)).nonce == 1,
    {
        XdsVersionManager::new_at(now_unix_millis())
    }

    /// The versioned state of one kind.
    pub fn get_resource(&self, resource_type: ResourceType) -> (r: &VersionedResource)
        ensures
            *r == self.spec_resource(resource_type),
    {
        match resource_type {
            ResourceType::Listener => &self.listener,
            ResourceType::Route => &self.route,
            ResourceType::Http => &self.http,
            ResourceType::Logging => &self.logging,
            ResourceType::Performance => &self.performance,
            ResourceType::VirtualHost => &self.virtual_hosts,
        }
    }

    /// Record a successful update of one kind at clock reading `now`; no
    /// other kind changes.
    pub fn increment_at(&mut self, resource_type: ResourceType, now: u64) -> (r: (u64, u64))
        requires
            old(self).spec_resource(resource_type).nonce < u64::MAX,
        ensures
            *final(self) == old(self).spec_with_resource(
                resource_type,
                old(self).spec_resource(resource_type).spec_bumped(now),
            ),
            r.0 == now,
            r.1 == old(self).spec_resource(resource_type).nonce + 1,
    {
        match resource_type {
            ResourceType::Listener => self.listener.increment_at(now),
            ResourceType::Route => self.route.increment_at(now),
            ResourceType::Http => self.http.increment_at(now),
            ResourceType::Logging => self.logging.increment_at(now),
            ResourceType::Performance => self.performance.increment_at(now),
            ResourceType::VirtualHost => self.virtual_hosts.increment_at(now),
        }
    }

    /// Record a successful update of one kind at the current wall clock.
    pub fn increment(&mut self, resource_type: ResourceType) -> (r: (u64, u64))
        requires
            old(self).spec_resource(resource_type).nonce < u64::MAX,
        ensures
            *final(self) == old(self).spec_with_resource(
                resource_type,
                old(self).spec_resource(resource_type).spec_bumped(r.0),
            ),
            r.1 == old(self).spec_resource(resource_type).nonce + 1,
    {
        let now = now_unix_millis();
        self.increment_at(resource_type, now)
    }

    /// The current `(version, nonce)` pair of one kind; reading never
    /// changes any state.
    pub fn get_version(&self, resource_type: ResourceType) -> (r: (u64, u64))
        ensures
            r.0 == self.spec_resource(resource_type).version,
            r.1 == self.spec_resource(resource_type).nonce,
    {
        self.get_resource(resource_type).get()
    }

    /// The optimistic-concurrency update at the heart of the discovery API:
    /// succeeds — and bumps the kind's version to `now` — exactly when
    /// `version_info` is empty (unconditional write) or spells the kind's
    /// current version in decimal. On conflict nothing changes and the
    /// current pair is returned for the NACK.
    pub fn compare_and_swap(&mut self, resource_type: ResourceType, version_info: &str, now: u64) -> (r: Result<
        (u64, u64),
        (u64, u64),
    >)
        requires
            old(self).spec_resource(resource_type).nonce < u64::MAX,
        ensures
            r is Ok <==> (version_info@.len() == 0 || version_info@ == spec_dec(
                old(self).spec_resource(resource_type).version as nat,
            )),
            r matches Ok(ack) ==> {
                &&& *final(self) == old(self).spec_with_resource(
                    resource_type,
                    old(self).spec_resource(resource_type).spec_bumped(now),
                )
                &&& ack.0 == now
                &&& ack.1 == old(self).spec_resource(resource_type).nonce + 1
            },
            r matches Err(cur) ==> {
                &&& *final(self) == *old(self)
                &&& cur.0 == old(self).spec_resource(resource_type).version
                &&& cur.1 == old(self).spec_resource(resource_type).nonce
            },
    {
        let (current_version, current_nonce) = self.get_version(resource_type);
        if version_info.unicode_len() != 0 {
            let current_str = u64_to_dec(current_version);
            if !str_eq(version_info, current_str.as_str()) {
                return Err((current_version, current_nonce));
            }
        }
        Ok(self.increment_at(resource_type, now))
    }
}

impl Default for XdsVersionManager {
    /// A manager with every kind stamped at the current wall clock.
    fn default() -> (r: Self)
        ensures
            forall|rt: ResourceType| (#[trigger] r.spec_resource(rt)).nonce == 1,
    {
        XdsVersionManager::new()
    }
}

/// Read-after-write: immediately after a successful update at clock reading
/// `now`, a read of the same kind observes exactly the pair the update
/// returned, and every other kind is unchanged.
pub proof fn lemma_read_after_write(
    pre: XdsVersionManager,
    post: XdsVersionManager,
    rt: ResourceType,
    now: u64,
)
    requires
        pre.spec_resource(rt).nonce < u64::MAX,
        post == pre.spec_with_resource(rt, pre.spec_resource(rt).spec_bumped(now)),
    ensures
        post.spec_resource(rt).version == now,
        post.spec_resource(rt).nonce == pre.spec_resource(rt).nonce + 1,
        forall|other: ResourceType|
            other != rt ==> #[trigger] post.spec_resource(other) == pre.spec_resource(other),
{
}

} // verus!
