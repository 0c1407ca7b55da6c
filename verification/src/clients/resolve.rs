//! Finding out, once per process, which client to use.
//!
//! The answer lives in one cell that all threads share. The cell starts out
//! `Pending`; the first caller to claim it makes it `Busy`, probes the
//! clients in order of preference, and publishes what it found, which makes
//! the cell `Ready` for good. Callers that find the cell `Busy` wait and look
//! again.
//!
//! The library decides; the caller acts. A [`Resolving`] is one caller's
//! place in this protocol: [`Resolving::action`] says what to do next (look
//! at the cell, start a probe, publish), and [`Resolving::step`] takes what
//! came of it. The cell itself is one byte, so that it can be kept in an
//! atomic: claiming is an atomic maximum with [`BUSY`], publishing a store.

use crate::clients::{
    Platform, SystemHttpClient, following, lemma_place_in_preference, place, preference,
    probe_found,
};
use crate::error::{Error, ExitStatus, IoError};
use vstd::prelude::*;

verus! {

/// What the shared cell holds.
#[derive(Clone, Copy, Debug, PartialEq, Eq)]
pub enum ResolutionState {
    /// Nobody has started to probe.
    Pending,
    /// One caller has claimed the cell and is probing.
    Busy,
    /// Probing is over: this client was found, or none was.
    Ready(Option<SystemHttpClient>),
}

/// The byte that stands for `Pending`.
pub const PENDING: u8 = 0;

/// The byte that stands for `Busy`.
pub const BUSY: u8 = 1;

/// The byte that stands for `Ready` with no client found; the bytes above
/// it stand for `Ready` with one of the clients.
pub const READY: u8 = 2;

/// The pause before the second look at a busy cell, in milliseconds.
pub const FIRST_WAIT_MS: u64 = 50;

/// The longest pause between two looks at a busy cell, in milliseconds.
pub const LONGEST_WAIT_MS: u64 = 2000;

/// The pause that follows a pause of `wait_ms`: the first one is
/// [`FIRST_WAIT_MS`], each further one twice the one before, and none is
/// longer than [`LONGEST_WAIT_MS`].
pub open spec fn next_wait(wait_ms: u64) -> u64 {
    if wait_ms == 0 {
        FIRST_WAIT_MS
    } else if 2 * wait_ms >= LONGEST_WAIT_MS {
        LONGEST_WAIT_MS
    } else {
        (2 * wait_ms) as u64
    }
}

impl ResolutionState {
    /// How far the cell has come: `Pending`, then `Busy`, then `Ready`.
    pub open spec fn rank(self) -> nat {
        match self {
            ResolutionState::Pending => 0,
            ResolutionState::Busy => 1,
            ResolutionState::Ready(_) => 2,
        }
    }

    /// What the cell holds after a caller has tried to claim it: a pending
    /// cell becomes busy, any other stays as it is.
    pub open spec fn claimed(self) -> ResolutionState {
        match self {
            ResolutionState::Pending => ResolutionState::Busy,
            _ => self,
        }
    }

    /// The byte that stands for this state.
    pub open spec fn byte(self) -> u8 {
        match self {
            ResolutionState::Pending => PENDING,
            ResolutionState::Busy => BUSY,
            ResolutionState::Ready(None) => READY,
            ResolutionState::Ready(Some(SystemHttpClient::wget)) => 3,
            ResolutionState::Ready(Some(SystemHttpClient::cURL)) => 4,
            ResolutionState::Ready(Some(SystemHttpClient::PowerShell)) => 5,
        }
    }

    /// The state that `byte` stands for, if it stands for one.
    pub open spec fn of_byte(byte: u8) -> Option<ResolutionState> {
        if byte == PENDING {
            Some(ResolutionState::Pending)
        } else if byte == BUSY {
            Some(ResolutionState::Busy)
        } else if byte == READY {
            Some(ResolutionState::Ready(None))
        } else if byte == 3 {
            Some(ResolutionState::Ready(Some(SystemHttpClient::wget)))
        } else if byte == 4 {
            Some(ResolutionState::Ready(Some(SystemHttpClient::cURL)))
        } else if byte == 5 {
            Some(ResolutionState::Ready(Some(SystemHttpClient::PowerShell)))
        } else {
            None
        }
    }

    /// The client that a finished resolution has found, if it found one.
    pub open spec fn client(self) -> Option<SystemHttpClient> {
        match self {
            ResolutionState::Ready(found) => found,
            _ => None,
        }
    }

    /// What the cell holds after a caller has tried to claim it.
    pub fn claim(self) -> (after: ResolutionState)
        ensures
            after == self.claimed(),
    {
        match self {
            ResolutionState::Pending => ResolutionState::Busy,
            _ => self,
        }
    }

    /// The byte that stands for this state.
    pub fn to_byte(self) -> (byte: u8)
        ensures
            byte == self.byte(),
    {
        match self {
            ResolutionState::Pending => PENDING,
            ResolutionState::Busy => BUSY,
            ResolutionState::Ready(None) => READY,
            ResolutionState::Ready(Some(SystemHttpClient::wget)) => 3,
            ResolutionState::Ready(Some(SystemHttpClient::cURL)) => 4,
            ResolutionState::Ready(Some(SystemHttpClient::PowerShell)) => 5,
        }
    }

    /// The state that `byte` stands for, if it stands for one.
    pub fn from_byte(byte: u8) -> (state: Option<ResolutionState>)
        ensures
            state == Self::of_byte(byte),
    {
        if byte == PENDING {
            Some(ResolutionState::Pending)
        } else if byte == BUSY {
            Some(ResolutionState::Busy)
        } else if byte == READY {
            Some(ResolutionState::Ready(None))
        } else if byte == 3 {
            Some(ResolutionState::Ready(Some(SystemHttpClient::wget)))
        } else if byte == 4 {
            Some(ResolutionState::Ready(Some(SystemHttpClient::cURL)))
        } else if byte == 5 {
            Some(ResolutionState::Ready(Some(SystemHttpClient::PowerShell)))
        } else {
            None
        }
    }
}

/// Every state is read back from its byte.
pub proof fn lemma_byte_round_trip(state: ResolutionState)
    ensures
        ResolutionState::of_byte(state.byte()) == Some(state),
{
}

/// Claiming the cell is taking the maximum of its byte and [`BUSY`], which
/// is one atomic operation.
pub proof fn lemma_claim_is_maximum(state: ResolutionState)
    ensures
        state.claimed().byte() == if state.byte() >= BUSY {
            state.byte()
        } else {
            BUSY
        },
{
}

/// What the driver of a [`Resolving`] has to do next.
#[derive(Clone, Copy, Debug, PartialEq, Eq)]
pub enum Action {
    /// Wait this many milliseconds, then claim the cell, in one atomic
    /// step, and report what it held before.
    Claim { wait_ms: u64 },
    /// Start the probe of this client and report how the attempt went.
    Probe(SystemHttpClient),
    /// Store `Ready` with this finding in the cell and report that it is
    /// done.
    Publish(Option<SystemHttpClient>),
    /// Nothing is left to do: this is the client to use, if any.
    Return(Option<SystemHttpClient>),
}

/// What came of an [`Action`].
#[derive(Debug)]
pub enum Event {
    /// What the cell held just before it was claimed.
    Seen(ResolutionState),
    /// How the attempt to start a probe went.
    Probed(Result<ExitStatus, IoError>),
    /// The finding stands in the cell.
    Published,
}

/// One caller's place in the protocol.
#[derive(Clone, Copy, Debug, PartialEq, Eq)]
pub enum Resolving {
    /// About to look at the cell, after a pause of `wait_ms` milliseconds.
    Claiming { wait_ms: u64 },
    /// Holds the claim and is about to probe this client.
    Probing(SystemHttpClient),
    /// Holds the claim and is about to publish this finding.
    Publishing(Option<SystemHttpClient>),
    /// Knows the answer.
    Resolved(Option<SystemHttpClient>),
}

impl Resolving {
    /// What has to be done in this place.
    pub open spec fn pending(self) -> Action {
        match self {
            Resolving::Claiming { wait_ms } => Action::Claim { wait_ms },
            Resolving::Probing(client) => Action::Probe(client),
            Resolving::Publishing(found) => Action::Publish(found),
            Resolving::Resolved(found) => Action::Return(found),
        }
    }

    /// The place that follows this one when `event` came of the pending
    /// action.
    ///
    /// A caller that sees the cell pending has claimed it and probes the
    /// first client; one that sees it busy looks again after a pause; one
    /// that sees it ready has the answer. A probe that shows its client to
    /// be installed ends the search; any other moves on to the following
    /// client, and after the last one the finding is that there is none.
    /// An event that does not answer the pending action changes nothing.
    pub open spec fn next(self, event: Event, platform: Platform) -> Resolving {
        match (self, event) {
            (Resolving::Claiming { wait_ms }, Event::Seen(seen)) => match seen {
                ResolutionState::Pending => Resolving::Probing(preference(platform)[0]),
                ResolutionState::Busy => Resolving::Claiming { wait_ms: next_wait(wait_ms) },
                ResolutionState::Ready(found) => Resolving::Resolved(found),
            },
            (Resolving::Probing(client), Event::Probed(attempt)) => if probe_found(attempt) {
                Resolving::Publishing(Some(client))
            } else {
                match following(platform, client) {
                    Some(other) => Resolving::Probing(other),
                    None => Resolving::Publishing(None),
                }
            },
            (Resolving::Publishing(found), Event::Published) => Resolving::Resolved(found),
            _ => self,
        }
    }

    /// Whether this caller holds the claim on the cell.
    pub open spec fn holds_claim(self) -> bool {
        self is Probing || self is Publishing
    }

    /// The place in which every caller starts: about to look at the cell,
    /// without a pause.
    pub fn start() -> (place: Resolving)
        ensures
            place == (Resolving::Claiming { wait_ms: 0 }),
    {
        Resolving::Claiming { wait_ms: 0 }
    }

    /// What has to be done in this place.
    pub fn action(&self) -> (action: Action)
        ensures
            action == self.pending(),
    {
        match *self {
            Resolving::Claiming { wait_ms } => Action::Claim { wait_ms },
            Resolving::Probing(client) => Action::Probe(client),
            Resolving::Publishing(found) => Action::Publish(found),
            Resolving::Resolved(found) => Action::Return(found),
        }
    }

    /// The place that follows this one when `event` came of the pending
    /// action.
    pub fn step(self, event: Event, platform: Platform) -> (place: Resolving)
        ensures
            place == self.next(event, platform),
    {
        match (self, event) {
            (Resolving::Claiming { wait_ms }, Event::Seen(seen)) => match seen {
                ResolutionState::Pending => Resolving::Probing(SystemHttpClient::first(platform)),
                ResolutionState::Busy => Resolving::Claiming { wait_ms: following_wait(wait_ms) },
                ResolutionState::Ready(found) => Resolving::Resolved(found),
            },
            (Resolving::Probing(client), Event::Probed(attempt)) => {
                if client.installed(&attempt) {
                    Resolving::Publishing(Some(client))
                } else {
                    match client.next(platform) {
                        Some(other) => Resolving::Probing(other),
                        None => Resolving::Publishing(None),
                    }
                }
            },
            (Resolving::Publishing(found), Event::Published) => Resolving::Resolved(found),
            (place, _) => place,
        }
    }
}

/// The first client in the order of preference, from place `from` on,
/// whose probe shows it to be installed, where `attempts` says how the
/// probe of each client goes.
pub open spec fn first_usable(
    platform: Platform,
    attempts: spec_fn(SystemHttpClient) -> Result<ExitStatus, IoError>,
    from: int,
) -> Option<SystemHttpClient>
    decreases preference(platform).len() - from,
{
    if from < 0 || from >= preference(platform).len() {
        None
    } else if probe_found(attempts(preference(platform)[from])) {
        Some(preference(platform)[from])
    } else {
        first_usable(platform, attempts, from + 1)
    }
}

/// The place that a caller reaches from `place` by probing, at most `limit`
/// times, where `attempts` says how the probe of each client goes.
pub open spec fn probed_through(
    place: Resolving,
    attempts: spec_fn(SystemHttpClient) -> Result<ExitStatus, IoError>,
    platform: Platform,
    limit: nat,
) -> Resolving
    decreases limit,
{
    match place {
        Resolving::Probing(client) if limit > 0 => probed_through(
            place.next(Event::Probed(attempts(client)), platform),
            attempts,
            platform,
            (limit - 1) as nat,
        ),
        _ => place,
    }
}

/// The caller that holds the claim probes the clients strictly in order of
/// preference and stops at the first one that is installed: however the
/// probes go, after at most one probe per client it is about to publish the
/// first usable client, or that there is none.
pub proof fn lemma_probing_finds_first_usable(
    platform: Platform,
    attempts: spec_fn(SystemHttpClient) -> Result<ExitStatus, IoError>,
)
    ensures
        probed_through(
            Resolving::Probing(preference(platform)[0]),
            attempts,
            platform,
            preference(platform).len(),
        ) == Resolving::Publishing(first_usable(platform, attempts, 0)),
{
    lemma_probing_from(platform, attempts, 0);
}

proof fn lemma_probing_from(
    platform: Platform,
    attempts: spec_fn(SystemHttpClient) -> Result<ExitStatus, IoError>,
    from: int,
)
    requires
        0 <= from < preference(platform).len(),
    ensures
        probed_through(
            Resolving::Probing(preference(platform)[from]),
            attempts,
            platform,
            (preference(platform).len() - from) as nat,
        ) == Resolving::Publishing(first_usable(platform, attempts, from)),
    decreases preference(platform).len() - from,
{
    let client = preference(platform)[from];
    lemma_place_in_preference(platform, client);
    assert(place(platform, client) == from);
    let limit = (preference(platform).len() - from) as nat;
    let after = Resolving::Probing(client).next(Event::Probed(attempts(client)), platform);
    assert(probed_through(Resolving::Probing(client), attempts, platform, limit)
        == probed_through(after, attempts, platform, (limit - 1) as nat));
    if probe_found(attempts(client)) {
    } else if from + 1 < preference(platform).len() {
        lemma_probing_from(platform, attempts, from + 1);
    } else {
        assert(first_usable(platform, attempts, from + 1) == None::<SystemHttpClient>);
    }
}

/// The cell together with every caller there is or will be: the model of a
/// process in which any number of threads resolve at the same time.
pub struct World {
    /// What the cell holds.
    pub cell: ResolutionState,
    /// The place of each caller.
    pub callers: Seq<Resolving>,
}

impl World {
    /// A process at its start: the cell is pending, and each of the
    /// `callers` callers is about to look at it for the first time.
    pub open spec fn initial(callers: nat) -> World {
        World {
            cell: ResolutionState::Pending,
            callers: Seq::new(callers, |i: int| Resolving::Claiming { wait_ms: 0 }),
        }
    }

    /// The process after caller `who` has carried out its pending action;
    /// `attempt` is how the probe goes, if the action is a probe. Claiming
    /// and publishing each touch the cell in one atomic step.
    pub open spec fn after(
        self,
        who: int,
        attempt: Result<ExitStatus, IoError>,
        platform: Platform,
    ) -> World {
        let me = self.callers[who];
        match me.pending() {
            Action::Claim { .. } => World {
                cell: self.cell.claimed(),
                callers: self.callers.update(who, me.next(Event::Seen(self.cell), platform)),
            },
            Action::Probe(_) => World {
                cell: self.cell,
                callers: self.callers.update(who, me.next(Event::Probed(attempt), platform)),
            },
            Action::Publish(found) => World {
                cell: ResolutionState::Ready(found),
                callers: self.callers.update(who, me.next(Event::Published, platform)),
            },
            Action::Return(_) => self,
        }
    }

    /// The process after the steps of `schedule` have been taken in order;
    /// each step names the caller that acts and how its probe goes.
    pub open spec fn after_all(
        self,
        schedule: Seq<(int, Result<ExitStatus, IoError>)>,
        platform: Platform,
    ) -> World
        decreases schedule.len(),
    {
        if schedule.len() == 0 {
            self
        } else {
            self.after_all(schedule.drop_last(), platform).after(
                schedule.last().0,
                schedule.last().1,
                platform,
            )
        }
    }

    /// What holds of the process at every moment: the cell is busy exactly
    /// while one caller, and only one, holds the claim; and every caller that
    /// has its answer has the answer that stands in the cell.
    pub open spec fn consistent(self) -> bool {
        &&& forall|i: int, j: int|
            0 <= i < self.callers.len() && 0 <= j < self.callers.len()
                && #[trigger] self.callers[i].holds_claim()
                && #[trigger] self.callers[j].holds_claim() ==> i == j
        &&& self.cell is Busy <==> exists|i: int|
            0 <= i < self.callers.len() && #[trigger] self.callers[i].holds_claim()
        &&& forall|i: int|
            0 <= i < self.callers.len() ==> (#[trigger] self.callers[i] matches Resolving::Resolved(
                found,
            ) ==> self.cell == ResolutionState::Ready(found))
    }
}

/// A process is consistent at its start.
pub proof fn lemma_initial_consistent(callers: nat)
    ensures
        World::initial(callers).consistent(),
{
}

/// Whatever a caller does next and however its probe goes, the process
/// stays consistent, the cell never moves backwards, a cell that is ready
/// never changes, and no caller loses the answer it has.
pub proof fn lemma_step_consistent(
    world: World,
    who: int,
    attempt: Result<ExitStatus, IoError>,
    platform: Platform,
)
    requires
        world.consistent(),
        0 <= who < world.callers.len(),
    ensures
        world.after(who, attempt, platform).consistent(),
        world.after(who, attempt, platform).callers.len() == world.callers.len(),
        world.after(who, attempt, platform).cell.rank() >= world.cell.rank(),
        world.cell is Ready ==> world.after(who, attempt, platform).cell == world.cell,
        forall|i: int|
            0 <= i < world.callers.len() && #[trigger] world.callers[i] is Resolved
                ==> world.after(who, attempt, platform).callers[i] == world.callers[i],
{
    let next = world.after(who, attempt, platform);
    let me = world.callers[who];
    match me {
        Resolving::Claiming { .. } => {
            if world.cell is Pending {
                assert(next.callers[who].holds_claim());
            } else if world.cell is Busy {
                let holder = choose|i: int|
                    0 <= i < world.callers.len() && #[trigger] world.callers[i].holds_claim();
                assert(next.callers[holder].holds_claim());
            }
        },
        Resolving::Probing(_) => {
            assert(me.holds_claim());
            assert(next.callers[who].holds_claim());
        },
        Resolving::Publishing(_) => {
            assert(me.holds_claim());
        },
        Resolving::Resolved(_) => {},
    }
}

/// However many callers resolve at the same time, in whatever order they
/// act and however the probes go, the process is consistent at every
/// moment.
pub proof fn lemma_every_run_consistent(
    callers: nat,
    schedule: Seq<(int, Result<ExitStatus, IoError>)>,
    platform: Platform,
)
    requires
        forall|k: int| 0 <= k < schedule.len() ==> 0 <= (#[trigger] schedule[k]).0 < callers,
    ensures
        World::initial(callers).after_all(schedule, platform).consistent(),
        World::initial(callers).after_all(schedule, platform).callers.len() == callers,
    decreases schedule.len(),
{
    if schedule.len() > 0 {
        let earlier = schedule.drop_last();
        assert forall|k: int| 0 <= k < earlier.len() implies 0 <= (#[trigger] earlier[k]).0
            < callers by {
            assert(earlier[k] == schedule[k]);
        }
        lemma_every_run_consistent(callers, earlier, platform);
        lemma_step_consistent(
            World::initial(callers).after_all(earlier, platform),
            schedule.last().0,
            schedule.last().1,
            platform,
        );
    }
}

/// All callers get the same answer: in a consistent process, any two
/// callers that have their answer have the same client, or both have none.
pub proof fn lemma_answers_agree(world: World, one: int, other: int)
    requires
        world.consistent(),
        0 <= one < world.callers.len(),
        0 <= other < world.callers.len(),
        world.callers[one] is Resolved,
        world.callers[other] is Resolved,
    ensures
        world.callers[one] == world.callers[other],
        world.cell is Ready,
{
}

/// The pause that follows a pause of `wait_ms`.
pub fn following_wait(wait_ms: u64) -> (next: u64)
    ensures
        next == next_wait(wait_ms),
        0 < next <= LONGEST_WAIT_MS,
{
    if wait_ms == 0 {
        FIRST_WAIT_MS
    } else if wait_ms >= LONGEST_WAIT_MS / 2 {
        LONGEST_WAIT_MS
    } else {
        2 * wait_ms
    }
}

/// The client to use, or the error that says that none is installed. The
/// answer is that of a finished resolution, and holds for as long as the
/// process lives.
pub fn resolve(state: ResolutionState) -> (r: Result<SystemHttpClient, Error>)
    requires
        state is Ready,
    ensures
        match state.client() {
            Some(client) => r == Ok::<SystemHttpClient, Error>(client),
            None => r == Err::<SystemHttpClient, Error>(Error::SystemHTTPClientNotFound),
        },
{
    match state {
        ResolutionState::Ready(Some(client)) => Ok(client),
        _ => Err(Error::SystemHTTPClientNotFound),
    }
}

/// Whether the finished resolution has found a client that can be used.
pub fn installed(state: ResolutionState) -> (found: bool)
    requires
        state is Ready,
    ensures
        found == state.client().is_some(),
{
    match state {
        ResolutionState::Ready(Some(_)) => true,
        _ => false,
    }
}

/// The client that is used for requests, if the finished resolution has
/// found one.
pub fn http_client(state: ResolutionState) -> (client: Option<SystemHttpClient>)
    requires
        state is Ready,
    ensures
        client == state.client(),
{
    match state {
        ResolutionState::Ready(found) => found,
        _ => None,
    }
}

} // verus!
