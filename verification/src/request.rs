//! The protocol of one request.
//!
//! A request is a state machine that never performs outside work itself.
//! It names the one thing to do next, an [`Action`]; whoever drives it does
//! that and reports what came of it, an [`Event`]. The order is fixed:
//! failure tier, memory tier, disk tier, upstream. Each stage is reached
//! only when every earlier one missed.
//!
//! The actions on the two tiers in memory need no outside work once the
//! tier is at hand, so the request performs them itself: see
//! [`Request::ask_failure_tier`], [`Request::ask_memory_tier`],
//! [`Request::record_failure`] and [`Request::write_memory`]. Files and the
//! network stay with the driver, which reports through
//! [`Request::advance`].

use crate::disk::is_servable;
use crate::disk::FileProbe;
use crate::failure::is_recent;
use crate::failure::FailureTier;
use crate::key::valid_datafile;
use crate::key::valid_server;
use crate::key::CacheKey;
use crate::key::Validator;
use crate::memory::after_put;
use crate::memory::is_oldest;
use crate::memory::lookup;
use crate::memory::must_evict;
use crate::memory::MemoryTier;
use crate::memory::Stored;
use crate::payload::body_view;
use crate::payload::bytes_view;
use crate::payload::clone_bytes;
use crate::text::text_view;
use crate::upstream::is_success;
use crate::upstream::status_is_success;
use bytes::Bytes;
use vstd::prelude::*;

verus! {

/// The answer to a request.
#[derive(Debug, PartialEq, Eq)]
pub enum Reply<B> {
    /// The resource, with its body.
    Success(B),
    /// The server or the datafile is not one that is served.
    NotFound,
    /// The upstream failed, now or within the expiry window.
    UpstreamFailure,
}

/// The one thing that a request waits for.
#[derive(Debug, PartialEq, Eq)]
pub enum Action<B> {
    /// Ask the failure tier whether the key failed recently.
    AskFailureTier,
    /// Ask the memory tier for the key.
    AskMemoryTier,
    /// Look at the key's path in the disk tier.
    ProbeDisk,
    /// Read the key's file from the disk tier.
    ReadDisk,
    /// Send the request to the upstream and wait for the status.
    SendUpstream,
    /// Read the upstream's response body to its end.
    ReadBody,
    /// Record a failure for the key in the failure tier.
    RecordFailure,
    /// Write the body to the key's file in the disk tier.
    WriteDisk(B),
    /// Store the body under the key in the memory tier.
    WriteMemory(B),
    /// Answer the request. Nothing follows.
    Respond(Reply<B>),
}

/// What came of an action.
#[derive(Debug, PartialEq, Eq)]
pub enum Event<B> {
    /// The failure tier's answer: whether the key failed recently.
    FailureTier(bool),
    /// The memory tier's answer: the body, on a hit.
    MemoryTier(Option<B>),
    /// What the look at the disk tier found.
    Probed(FileProbe),
    /// The file's contents, unless reading failed.
    DiskRead(Option<B>),
    /// The upstream's status, unless it could not be reached.
    Sent(Option<u16>),
    /// The response body, unless it could not be read to its end.
    Body(Option<B>),
    /// A write or a record was attempted. Whether it succeeded is not asked.
    Completed,
}

impl<B> Reply<B> {
    /// The HTTP status that goes with the reply.
    pub open spec fn spec_status(self) -> u16 {
        match self {
            Reply::Success(_) => 200,
            Reply::NotFound => 404,
            Reply::UpstreamFailure => 502,
        }
    }
}

impl View for Reply<Bytes> {
    type V = Reply<Seq<u8>>;

    open spec fn view(&self) -> Reply<Seq<u8>> {
        match *self {
            Reply::Success(body) => Reply::Success(bytes_view(body)),
            Reply::NotFound => Reply::NotFound,
            Reply::UpstreamFailure => Reply::UpstreamFailure,
        }
    }
}

impl View for Action<Bytes> {
    type V = Action<Seq<u8>>;

    open spec fn view(&self) -> Action<Seq<u8>> {
        match *self {
            Action::AskFailureTier => Action::AskFailureTier,
            Action::AskMemoryTier => Action::AskMemoryTier,
            Action::ProbeDisk => Action::ProbeDisk,
            Action::ReadDisk => Action::ReadDisk,
            Action::SendUpstream => Action::SendUpstream,
            Action::ReadBody => Action::ReadBody,
            Action::RecordFailure => Action::RecordFailure,
            Action::WriteDisk(body) => Action::WriteDisk(bytes_view(body)),
            Action::WriteMemory(body) => Action::WriteMemory(bytes_view(body)),
            Action::Respond(reply) => Action::Respond(reply@),
        }
    }
}

impl View for Event<Bytes> {
    type V = Event<Seq<u8>>;

    open spec fn view(&self) -> Event<Seq<u8>> {
        match *self {
            Event::FailureTier(recent) => Event::FailureTier(recent),
            Event::MemoryTier(found) => Event::MemoryTier(body_view(found)),
            Event::Probed(probe) => Event::Probed(probe),
            Event::DiskRead(read) => Event::DiskRead(body_view(read)),
            Event::Sent(status) => Event::Sent(status),
            Event::Body(read) => Event::Body(body_view(read)),
            Event::Completed => Event::Completed,
        }
    }
}

impl Reply<Bytes> {
    /// The HTTP status that goes with the reply: 200, 404 or 502.
    pub fn status(&self) -> (code: u16)
        ensures
            code == self@.spec_status(),
    {
        match self {
            Reply::Success(_) => 200,
            Reply::NotFound => 404,
            Reply::UpstreamFailure => 502,
        }
    }

    /// The body that goes with the reply: the resource on success, nothing
    /// otherwise.
    pub fn into_body(self) -> (body: Option<Bytes>)
        ensures
            match self@ {
                Reply::Success(octets) => body_view(body) == Some(octets),
                _ => body is None,
            },
    {
        match self {
            Reply::Success(body) => Some(body),
            _ => None,
        }
    }
}

/// The action that follows when `event` answers `pending`. An event that
/// does not answer the pending action changes nothing.
pub open spec fn next_action<B>(pending: Action<B>, event: Event<B>) -> Action<B> {
    match (pending, event) {
        (Action::AskFailureTier, Event::FailureTier(recent)) => if recent {
            Action::Respond(Reply::UpstreamFailure)
        } else {
            Action::AskMemoryTier
        },
        (Action::AskMemoryTier, Event::MemoryTier(found)) => match found {
            Some(body) => Action::Respond(Reply::Success(body)),
            None => Action::ProbeDisk,
        },
        (Action::ProbeDisk, Event::Probed(probe)) => if is_servable(probe) {
            Action::ReadDisk
        } else {
            Action::SendUpstream
        },
        (Action::ReadDisk, Event::DiskRead(read)) => match read {
            Some(body) => Action::WriteMemory(body),
            None => Action::SendUpstream,
        },
        (Action::SendUpstream, Event::Sent(status)) => match status {
            Some(code) => if is_success(code) {
                Action::ReadBody
            } else {
                Action::RecordFailure
            },
            None => Action::RecordFailure,
        },
        (Action::ReadBody, Event::Body(read)) => match read {
            Some(body) => Action::WriteDisk(body),
            None => Action::RecordFailure,
        },
        (Action::RecordFailure, Event::Completed) => Action::Respond(Reply::UpstreamFailure),
        (Action::WriteDisk(body), Event::Completed) => Action::WriteMemory(body),
        (Action::WriteMemory(body), Event::Completed) => Action::Respond(Reply::Success(body)),
        (pending, _) => pending,
    }
}

/// The action that follows when `event` answers `pending`.
pub fn step(pending: Action<Bytes>, event: Event<Bytes>) -> (next: Action<Bytes>)
    ensures
        next@ == next_action(pending@, event@),
{
    match (pending, event) {
        (Action::AskFailureTier, Event::FailureTier(recent)) => if recent {
            Action::Respond(Reply::UpstreamFailure)
        } else {
            Action::AskMemoryTier
        },
        (Action::AskMemoryTier, Event::MemoryTier(found)) => match found {
            Some(body) => Action::Respond(Reply::Success(body)),
            None => Action::ProbeDisk,
        },
        (Action::ProbeDisk, Event::Probed(probe)) => if probe.is_servable() {
            Action::ReadDisk
        } else {
            Action::SendUpstream
        },
        (Action::ReadDisk, Event::DiskRead(read)) => match read {
            Some(body) => Action::WriteMemory(body),
            None => Action::SendUpstream,
        },
        (Action::SendUpstream, Event::Sent(status)) => match status {
            Some(code) => if status_is_success(code) {
                Action::ReadBody
            } else {
                Action::RecordFailure
            },
            None => Action::RecordFailure,
        },
        (Action::ReadBody, Event::Body(read)) => match read {
            Some(body) => Action::WriteDisk(body),
            None => Action::RecordFailure,
        },
        (Action::RecordFailure, Event::Completed) => Action::Respond(Reply::UpstreamFailure),
        (Action::WriteDisk(body), Event::Completed) => Action::WriteMemory(body),
        (Action::WriteMemory(body), Event::Completed) => Action::Respond(Reply::Success(body)),
        (pending, _) => pending,
    }
}

/// One request on its way through the tiers.
pub struct Request {
    key: CacheKey,
    pending: Action<Bytes>,
}

impl View for Request {
    type V = Action<Seq<u8>>;

    /// The action that the request waits for.
    closed spec fn view(&self) -> Action<Seq<u8>> {
        self.pending@
    }
}

impl Request {
    /// The key of the requested resource.
    pub closed spec fn spec_key(&self) -> CacheKey {
        self.key
    }

    /// Admits a request for `datafile` of `server`. A request that names
    /// anything else than a valid server and a valid datafile is answered
    /// at once, before any tier is touched, with [`Reply::NotFound`]. An
    /// admitted request first asks the failure tier.
    pub fn begin(validator: &Validator, server: &str, datafile: &str) -> (r: Result<
        Request,
        Reply<Bytes>,
    >)
        ensures
            r is Ok <==> valid_server(server@) && valid_datafile(datafile@),
            r matches Ok(request) ==> {
                &&& request@ == Action::<Seq<u8>>::AskFailureTier
                &&& request.spec_key().wf()
                &&& request.spec_key().server_view() == server@
                &&& request.spec_key().datafile_view() == datafile@
            },
            r matches Err(reply) ==> reply@ == Reply::<Seq<u8>>::NotFound,
    {
        match validator.key_for(server, datafile) {
            Some(key) => Ok(Request { key, pending: Action::AskFailureTier }),
            None => Err(Reply::NotFound),
        }
    }

    /// The key of the requested resource.
    pub fn key(&self) -> (key: &CacheKey)
        ensures
            *key == self.spec_key(),
    {
        &self.key
    }

    /// The action that the request waits for.
    pub fn pending(&self) -> (action: &Action<Bytes>)
        ensures
            action@ == self@,
    {
        &self.pending
    }

    /// Ends the request and hands out its reply, if it has come to one.
    pub fn into_reply(self) -> (reply: Option<Reply<Bytes>>)
        ensures
            match self@ {
                Action::Respond(answer) => reply matches Some(r) && r@ == answer,
                _ => reply is None,
            },
    {
        match self.pending {
            Action::Respond(reply) => Some(reply),
            _ => None,
        }
    }

    /// Takes what came of the pending action and moves on to the next.
    pub fn advance(&mut self, event: Event<Bytes>)
        ensures
            final(self)@ == next_action(old(self)@, event@),
            final(self).spec_key() == old(self).spec_key(),
    {
        let mut pending: Action<Bytes> = Action::AskFailureTier;
        std::mem::swap(&mut self.pending, &mut pending);
        self.pending = step(pending, event);
    }

    /// Asks the failure tier, at the moment `now`, whether the request's key
    /// failed recently, and moves on with the answer.
    pub fn ask_failure_tier(&mut self, failures: &FailureTier, now: u128)
        ensures
            final(self)@ == next_action(
                old(self)@,
                Event::FailureTier(is_recent(failures@, old(self).spec_key()@, now)),
            ),
            final(self).spec_key() == old(self).spec_key(),
    {
        let recent = failures.is_recent_failure_at(self.key.as_str(), now);
        self.advance(Event::FailureTier(recent));
    }

    /// Asks the memory tier, at the moment `now`, for the request's key, and
    /// moves on with the answer.
    pub fn ask_memory_tier(&mut self, memory: &MemoryTier, now: u128)
        ensures
            final(self)@ == next_action(
                old(self)@,
                Event::MemoryTier(lookup(memory@, old(self).spec_key()@, now)),
            ),
            final(self).spec_key() == old(self).spec_key(),
    {
        let found = memory.get_at(self.key.as_str(), now);
        self.advance(Event::MemoryTier(found));
    }

    /// Where the request waits for a failure to be recorded, records it for
    /// the request's key at the moment `now` and moves on to the response.
    /// Otherwise nothing changes.
    pub fn record_failure(&mut self, failures: &mut FailureTier, now: u128)
        ensures
            final(self).spec_key() == old(self).spec_key(),
            match old(self)@ {
                Action::RecordFailure => {
                    &&& final(self)@ == Action::<Seq<u8>>::Respond(Reply::UpstreamFailure)
                    &&& final(failures)@ == old(failures)@.insert(old(self).spec_key()@, now)
                },
                _ => {
                    &&& final(self)@ == old(self)@
                    &&& final(failures)@ == old(failures)@
                },
            },
    {
        match &self.pending {
            Action::RecordFailure => {
                failures.record_failure_at(self.key.as_str(), now);
                self.advance(Event::Completed);
            },
            _ => {},
        }
    }

    /// Where the request waits for a body to be stored in the memory tier,
    /// stores it under the request's key as written at `now` and moves on to
    /// the response; the key that the write evicted is returned. Otherwise
    /// nothing changes.
    pub fn write_memory(&mut self, memory: &mut MemoryTier, now: u128) -> (evicted: Option<String>)
        ensures
            final(self).spec_key() == old(self).spec_key(),
            match old(self)@ {
                Action::WriteMemory(body) => {
                    &&& final(self)@ == Action::Respond(Reply::Success(body))
                    &&& final(memory).wf()
                    &&& evicted is Some <==> must_evict(old(memory)@, old(self).spec_key()@)
                    &&& evicted matches Some(victim) ==> is_oldest(old(memory)@, victim@)
                    &&& final(memory)@ == after_put(
                        old(memory)@,
                        old(self).spec_key()@,
                        Stored { data: body, stored_at: now },
                        text_view(evicted),
                    )
                },
                _ => {
                    &&& final(self)@ == old(self)@
                    &&& *final(memory) == *old(memory)
                    &&& evicted is None
                },
            },
    {
        match &self.pending {
            Action::WriteMemory(body) => {
                let copy = clone_bytes(body);
                let evicted = memory.put_at(self.key.as_str(), copy, now);
                self.advance(Event::Completed);
                evicted
            },
            _ => None,
        }
    }
}

} // verus!
