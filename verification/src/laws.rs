//! What the protocol guarantees, stated over one request's surroundings
//! and proved of the state machine and the tiers.
//!
//! The surroundings of a request are the answers that the tiers and the
//! upstream would give while it runs. [`script`] says, from those answers
//! alone, which actions a request takes and in which order; the first law
//! shows that the state machine takes exactly those. The other laws read
//! consequences off the script and off the tiers' contents.
//!
//! The laws about two requests take each request to happen at one moment
//! and the first to have ended before the second begins. Requests that
//! overlap share the tiers without any order between their steps; of those
//! the laws about a single request still hold, each with the answers that
//! it got.

use crate::clock::is_fresh;
use crate::clock::law_stale_stays_stale;
use crate::disk::is_servable;
use crate::disk::FileProbe;
use crate::failure::is_recent;
use crate::failure::Failures;
use crate::memory::after_put;
use crate::memory::lookup;
use crate::memory::Contents;
use crate::memory::Stored;
use crate::request::next_action;
use crate::request::Action;
use crate::request::Event;
use crate::request::Reply;
use crate::upstream::is_success;
use vstd::prelude::*;

verus! {

/// The answers that a request would get, whichever of them it asks for.
pub struct Surroundings<B> {
    /// Whether the failure tier holds a fresh failure for the key.
    pub recent_failure: bool,
    /// What the memory tier finds for the key.
    pub memory: Option<B>,
    /// What a look at the key's path in the disk tier finds.
    pub probe: FileProbe,
    /// What reading the key's file yields.
    pub file: Option<B>,
    /// The upstream's status, unless it cannot be reached.
    pub status: Option<u16>,
    /// The upstream's response body, unless it cannot be read to its end.
    pub body: Option<B>,
}

/// What comes of `action` in the given surroundings.
pub open spec fn answer<B>(around: Surroundings<B>, action: Action<B>) -> Event<B> {
    match action {
        Action::AskFailureTier => Event::FailureTier(around.recent_failure),
        Action::AskMemoryTier => Event::MemoryTier(around.memory),
        Action::ProbeDisk => Event::Probed(around.probe),
        Action::ReadDisk => Event::DiskRead(around.file),
        Action::SendUpstream => Event::Sent(around.status),
        Action::ReadBody => Event::Body(around.body),
        _ => Event::Completed,
    }
}

/// The actions that the state machine takes from `pending` on, each
/// answered by the surroundings, up to the response or `limit` further
/// steps.
pub open spec fn run<B>(pending: Action<B>, around: Surroundings<B>, limit: nat) -> Seq<Action<B>>
    decreases limit,
{
    if pending is Respond || limit == 0 {
        seq![pending]
    } else {
        seq![pending] + run(
            next_action(pending, answer(around, pending)),
            around,
            (limit - 1) as nat,
        )
    }
}

/// The longest way through the protocol, counted in steps after the first
/// action.
pub open spec fn longest_run() -> nat {
    8
}

/// The body that the disk tier serves, if any: the file's contents where
/// the file may be served and can be read.
pub open spec fn disk_hit<B>(around: Surroundings<B>) -> Option<B> {
    if is_servable(around.probe) {
        around.file
    } else {
        None
    }
}

/// The body that the upstream delivers, if any: the response body where
/// the upstream is reached, reports success and is read to the end.
pub open spec fn fetched<B>(around: Surroundings<B>) -> Option<B> {
    match around.status {
        Some(code) => if is_success(code) {
            around.body
        } else {
            None
        },
        None => None,
    }
}

/// The reply that a request gets: the priority chain of tiers, fastest
/// first, behind the failure tier.
pub open spec fn reply<B>(around: Surroundings<B>) -> Reply<B> {
    if around.recent_failure {
        Reply::UpstreamFailure
    } else if let Some(body) = around.memory {
        Reply::Success(body)
    } else if let Some(body) = disk_hit(around) {
        Reply::Success(body)
    } else if let Some(body) = fetched(around) {
        Reply::Success(body)
    } else {
        Reply::UpstreamFailure
    }
}

/// The actions of the upstream stage, which is reached when every tier
/// missed.
pub open spec fn fetch_script<B>(around: Surroundings<B>) -> Seq<Action<B>> {
    match around.status {
        Some(code) => if is_success(code) {
            match around.body {
                Some(body) => seq![
                    Action::SendUpstream,
                    Action::ReadBody,
                    Action::WriteDisk(body),
                    Action::WriteMemory(body),
                    Action::Respond(Reply::Success(body)),
                ],
                None => seq![
                    Action::SendUpstream,
                    Action::ReadBody,
                    Action::RecordFailure,
                    Action::Respond(Reply::UpstreamFailure),
                ],
            }
        } else {
            seq![
                Action::SendUpstream,
                Action::RecordFailure,
                Action::Respond(Reply::UpstreamFailure),
            ]
        },
        None => seq![
            Action::SendUpstream,
            Action::RecordFailure,
            Action::Respond(Reply::UpstreamFailure),
        ],
    }
}

/// The actions of the disk stage and what follows it.
pub open spec fn disk_script<B>(around: Surroundings<B>) -> Seq<Action<B>> {
    if is_servable(around.probe) {
        match around.file {
            Some(body) => seq![
                Action::ProbeDisk,
                Action::ReadDisk,
                Action::WriteMemory(body),
                Action::Respond(Reply::Success(body)),
            ],
            None => seq![Action::ProbeDisk, Action::ReadDisk] + fetch_script(around),
        }
    } else {
        seq![Action::ProbeDisk] + fetch_script(around)
    }
}

/// Every action of an admitted request, in order, ending with the
/// response.
pub open spec fn script<B>(around: Surroundings<B>) -> Seq<Action<B>> {
    if around.recent_failure {
        seq![Action::AskFailureTier, Action::Respond(Reply::UpstreamFailure)]
    } else {
        match around.memory {
            Some(body) => seq![
                Action::AskFailureTier,
                Action::AskMemoryTier,
                Action::Respond(Reply::Success(body)),
            ],
            None => seq![Action::AskFailureTier, Action::AskMemoryTier] + disk_script(around),
        }
    }
}

/// From the upstream stage on, the state machine follows the script.
proof fn lemma_fetch_run<B>(around: Surroundings<B>)
    ensures
        run(Action::SendUpstream, around, 4) == fetch_script(around),
{
    reveal_with_fuel(run, 5);
}

/// A run that has reached its response is not changed by a higher limit.
proof fn lemma_run_longer<B>(pending: Action<B>, around: Surroundings<B>, limit: nat, more: nat)
    requires
        run(pending, around, limit).last() is Respond,
        limit <= more,
    ensures
        run(pending, around, more) == run(pending, around, limit),
    decreases limit,
{
    if pending is Respond {
    } else if limit == 0 {
    } else {
        let next = next_action(pending, answer(around, pending));
        let rest = run(next, around, (limit - 1) as nat);
        assert(rest.len() > 0);
        lemma_run_longer(next, around, (limit - 1) as nat, (more - 1) as nat);
    }
}

/// The upstream stage ends with a response.
proof fn lemma_fetch_script_ends<B>(around: Surroundings<B>)
    ensures
        fetch_script(around).last() is Respond,
{
}

/// From the disk stage on, the state machine follows the script.
proof fn lemma_disk_run<B>(around: Surroundings<B>)
    ensures
        run(Action::ProbeDisk, around, 6) == disk_script(around),
{
    lemma_fetch_run(around);
    lemma_fetch_script_ends(around);
    lemma_run_longer(Action::SendUpstream, around, 4, 5);
    reveal_with_fuel(run, 4);
}

/// The state machine follows the script: driven from its first action with
/// the answers of its surroundings, it takes the script's actions, in the
/// script's order, and no others. The run ends with the response, within
/// [`longest_run`] steps.
pub proof fn law_machine_follows_script<B>(around: Surroundings<B>)
    ensures
        run(Action::AskFailureTier, around, longest_run()) == script(around),
        script(around).last() == Action::Respond(reply(around)),
{
    lemma_disk_run(around);
    lemma_fetch_script_ends(around);
    reveal_with_fuel(run, 3);
}

/// Each stage is reached only when every earlier one missed: the memory
/// tier is asked only without a recent failure, the disk tier only after a
/// memory miss, the upstream only after a disk miss.
pub proof fn law_stages_in_strict_order<B>(around: Surroundings<B>)
    ensures
        script(around)[0] == Action::<B>::AskFailureTier,
        script(around).contains(Action::AskMemoryTier) <==> !around.recent_failure,
        script(around).contains(Action::ProbeDisk) <==> !around.recent_failure && around.memory
            is None,
        script(around).contains(Action::SendUpstream) <==> !around.recent_failure && around.memory
            is None && disk_hit(around) is None,
{
    let s = script(around);
    if !around.recent_failure {
        assert(s[1] == Action::<B>::AskMemoryTier);
        if around.memory is None {
            assert(s[2] == Action::<B>::ProbeDisk);
            if disk_hit(around) is None {
                if is_servable(around.probe) {
                    assert(s[4] == Action::<B>::SendUpstream);
                } else {
                    assert(s[3] == Action::<B>::SendUpstream);
                }
            }
        }
    }
}

/// A file is read only where it may be served: after a miss in memory, a
/// file that is missing, not a regular file, undated or stale is never
/// read, and the request goes on to the upstream as on any other miss.
pub proof fn law_only_servable_files_are_read<B>(around: Surroundings<B>)
    ensures
        script(around).contains(Action::ReadDisk) <==> !around.recent_failure && around.memory
            is None && is_servable(around.probe),
        !is_servable(around.probe) ==> disk_hit(around) is None,
{
    let s = script(around);
    if !around.recent_failure && around.memory is None && is_servable(around.probe) {
        assert(s[3] == Action::<B>::ReadDisk);
    }
}

/// The body that a request stores in the memory tier, if any: what a disk
/// hit or a fetch delivered after the memory tier missed.
pub open spec fn memory_write<B>(around: Surroundings<B>) -> Option<B> {
    if around.recent_failure || around.memory is Some {
        None
    } else if disk_hit(around) is Some {
        disk_hit(around)
    } else {
        fetched(around)
    }
}

/// The body that a request writes to the disk tier, if any: what a fetch
/// delivered after every tier missed.
pub open spec fn disk_write<B>(around: Surroundings<B>) -> Option<B> {
    if around.recent_failure || around.memory is Some || disk_hit(around) is Some {
        None
    } else {
        fetched(around)
    }
}

/// Whether a request records a failure: every tier missed and the fetch
/// delivered nothing.
pub open spec fn failure_write<B>(around: Surroundings<B>) -> bool {
    !around.recent_failure && around.memory is None && disk_hit(around) is None && fetched(
        around,
    ) is None
}

/// The tiers are written exactly when there is something new to keep, and
/// then with the very body that is served: the memory tier after a disk hit
/// or a fetch, the disk tier after a fetch, the failure tier after a fetch
/// that failed. A request that is refused or served from memory writes
/// nothing.
pub proof fn law_writes<B>(around: Surroundings<B>, body: B)
    ensures
        script(around).contains(Action::WriteMemory(body)) <==> memory_write(around) == Some(body),
        script(around).contains(Action::WriteDisk(body)) <==> disk_write(around) == Some(body),
        script(around).contains(Action::RecordFailure) <==> failure_write(around),
        memory_write(around) matches Some(stored) ==> reply(around) == Reply::Success(stored),
        failure_write(around) ==> reply(around) == Reply::<B>::UpstreamFailure,
{
    let s = script(around);
    if around.recent_failure || around.memory is Some {
    } else if disk_hit(around) is Some {
        assert(s[4] == Action::WriteMemory(disk_hit(around)->0));
    } else if fetched(around) is Some {
        let delivered = fetched(around)->0;
        let first = if is_servable(around.probe) { 6 } else { 5 };
        assert(s[first] == Action::WriteDisk(delivered));
        assert(s[first + 1] == Action::WriteMemory(delivered));
    } else {
        assert(s[s.len() - 2] == Action::<B>::RecordFailure);
    }
}

/// The contents of the two tiers that live in memory.
pub struct Tiers {
    /// The failure tier.
    pub failures: Failures,
    /// The memory tier.
    pub memory: Contents,
}

/// What lies beyond the tiers in memory while one request runs: the disk
/// and the upstream, as far as the request could see them.
pub struct Outside {
    /// What a look at the key's path in the disk tier finds.
    pub probe: FileProbe,
    /// What reading the key's file yields.
    pub file: Option<Seq<u8>>,
    /// The upstream's status, unless it cannot be reached.
    pub status: Option<u16>,
    /// The upstream's response body, unless it cannot be read to its end.
    pub body: Option<Seq<u8>>,
}

/// The surroundings of a request for `key` that runs at `now` against the
/// given tiers.
pub open spec fn seen(tiers: Tiers, outside: Outside, key: Seq<char>, now: u128) -> Surroundings<
    Seq<u8>,
> {
    Surroundings {
        recent_failure: is_recent(tiers.failures, key, now),
        memory: lookup(tiers.memory, key, now),
        probe: outside.probe,
        file: outside.file,
        status: outside.status,
        body: outside.body,
    }
}

/// The tiers as a request for `key` at `now` leaves them, where `evicted`
/// is the key that its write to the memory tier pushed out, if any.
pub open spec fn left_behind(
    tiers: Tiers,
    around: Surroundings<Seq<u8>>,
    key: Seq<char>,
    now: u128,
    evicted: Option<Seq<char>>,
) -> Tiers {
    Tiers {
        failures: if failure_write(around) {
            tiers.failures.insert(key, now)
        } else {
            tiers.failures
        },
        memory: match memory_write(around) {
            Some(body) => after_put(tiers.memory, key, Stored { data: body, stored_at: now }, evicted),
            None => tiers.memory,
        },
    }
}

/// After a successful fetch, the next request for the same key within the
/// expiry window is served from the memory tier: it gets the fetched body,
/// and neither the disk tier nor the upstream is asked.
pub proof fn law_fetch_then_memory_hit(
    tiers: Tiers,
    key: Seq<char>,
    outside: Outside,
    at: u128,
    evicted: Option<Seq<char>>,
    later_outside: Outside,
    later: u128,
)
    requires
        disk_write(seen(tiers, outside, key, at)) is Some,
        at <= later,
        is_fresh(at, later),
    ensures
        ({
            let first = seen(tiers, outside, key, at);
            let body = fetched(first)->0;
            let second = seen(left_behind(tiers, first, key, at, evicted), later_outside, key, later);
            &&& reply(first) == Reply::Success(body)
            &&& script(second) == seq![
                Action::AskFailureTier,
                Action::AskMemoryTier,
                Action::Respond(Reply::Success(body)),
            ]
        }),
{
    if tiers.failures.contains_key(key) {
        law_stale_stays_stale(tiers.failures[key], at, later);
    }
}

/// After a failed fetch, requests for the same key are refused without a
/// new fetch for as long as the failure is fresh. Once it is stale, a
/// request that finds no servable file goes to the upstream again.
pub proof fn law_failure_then_refusal(
    tiers: Tiers,
    key: Seq<char>,
    outside: Outside,
    at: u128,
    evicted: Option<Seq<char>>,
    later_outside: Outside,
    later: u128,
)
    requires
        failure_write(seen(tiers, outside, key, at)),
        at <= later,
    ensures
        ({
            let first = seen(tiers, outside, key, at);
            let second = seen(left_behind(tiers, first, key, at, evicted), later_outside, key, later);
            &&& reply(first) == Reply::<Seq<u8>>::UpstreamFailure
            &&& is_fresh(at, later) ==> script(second) == seq![
                Action::<Seq<u8>>::AskFailureTier,
                Action::Respond(Reply::UpstreamFailure),
            ]
            &&& !is_fresh(at, later) && disk_hit(second) is None ==> script(second).contains(
                Action::SendUpstream,
            )
        }),
{
    let first = seen(tiers, outside, key, at);
    let second = seen(left_behind(tiers, first, key, at, evicted), later_outside, key, later);
    if tiers.memory.contains_key(key) {
        law_stale_stays_stale(tiers.memory[key].stored_at, at, later);
    }
    law_stages_in_strict_order(second);
}

/// A disk hit is promoted: the body goes into the memory tier before the
/// response, and the next request for the same key within the expiry window
/// is served from memory without a look at the disk.
pub proof fn law_disk_hit_then_memory_hit(
    tiers: Tiers,
    key: Seq<char>,
    outside: Outside,
    at: u128,
    evicted: Option<Seq<char>>,
    later_outside: Outside,
    later: u128,
)
    requires
        !is_recent(tiers.failures, key, at),
        lookup(tiers.memory, key, at) is None,
        disk_hit(seen(tiers, outside, key, at)) is Some,
        at <= later,
        is_fresh(at, later),
    ensures
        ({
            let first = seen(tiers, outside, key, at);
            let body = disk_hit(first)->0;
            let second = seen(left_behind(tiers, first, key, at, evicted), later_outside, key, later);
            &&& script(first) == seq![
                Action::AskFailureTier,
                Action::AskMemoryTier,
                Action::ProbeDisk,
                Action::ReadDisk,
                Action::WriteMemory(body),
                Action::Respond(Reply::Success(body)),
            ]
            &&& script(second) == seq![
                Action::AskFailureTier,
                Action::AskMemoryTier,
                Action::Respond(Reply::Success(body)),
            ]
        }),
{
    let first = seen(tiers, outside, key, at);
    let body = disk_hit(first)->0;
    assert(script(first) =~= seq![
        Action::AskFailureTier,
        Action::AskMemoryTier,
        Action::ProbeDisk,
        Action::ReadDisk,
        Action::WriteMemory(body),
        Action::Respond(Reply::Success(body)),
    ]);
    if tiers.failures.contains_key(key) {
        law_stale_stays_stale(tiers.failures[key], at, later);
    }
}

} // verus!
