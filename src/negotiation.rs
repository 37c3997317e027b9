//! The race, inside a launch, between the requested channels connecting and
//! the emulator exiting.
//!
//! Each requested channel's socket accepts one connection; the launch
//! succeeds once every channel is connected, and fails if the process exits
//! first, whatever its exit status. Events after the race is decided change
//! nothing.
use vstd::prelude::*;
use crate::error::{Error, ErrorKind, views};
use crate::exit::ProcessExit;
use crate::qemu::{ConfigModel, LaunchPlan, launch_sockets};

verus! {

/// Where the race stands.
#[derive(Clone, Copy, Debug, PartialEq, Eq, Structural)]
pub enum RaceOutcome {
    /// Some channel is still unconnected and the process runs.
    Pending,
    /// Every channel connected while the process ran.
    Ready,
    /// The process exited before every channel connected.
    ExitedEarly,
}

/// The state of the race: the requested channels, which of them connected,
/// and the outcome so far.
#[derive(Debug)]
pub struct ChannelRace {
    channels: Vec<String>,
    connected: Vec<bool>,
    outcome: RaceOutcome,
}

/// The race as mathematical values.
pub struct RaceModel {
    pub channels: Seq<Seq<char>>,
    pub connected: Seq<bool>,
    pub outcome: RaceOutcome,
}

/// Every flag is set.
pub open spec fn all_set(s: Seq<bool>) -> bool {
    forall|i: int| 0 <= i < s.len() ==> #[trigger] s[i]
}

/// The names of the connected channels.
pub open spec fn connected_names(m: RaceModel) -> Set<Seq<char>> {
    Set::new(|c: Seq<char>| exists|i: int| 0 <= i < m.channels.len() && m.connected[i] && m.channels[i] == c)
}

/// The race after the process exits: undecided, it is lost; decided, it
/// stays as it was.
pub open spec fn after_exit(m: RaceModel) -> RaceModel {
    if m.outcome == RaceOutcome::Pending {
        RaceModel { outcome: RaceOutcome::ExitedEarly, ..m }
    } else {
        m
    }
}

impl View for ChannelRace {
    type V = RaceModel;

    closed spec fn view(&self) -> RaceModel {
        RaceModel { channels: views(self.channels@), connected: self.connected@, outcome: self.outcome }
    }
}

impl ChannelRace {
    /// One flag for each channel, and the race decided exactly when every
    /// channel connected.
    pub open spec fn wf(&self) -> bool {
        &&& self@.connected.len() == self@.channels.len()
        &&& (self@.outcome == RaceOutcome::Ready <==> all_set(self@.connected))
    }

    /// A race over `channels`, none connected yet; with no channel it is
    /// already won.
    pub fn new(channels: Vec<String>) -> (r: ChannelRace)
        ensures
            r.wf(),
            r@.channels == views(channels@),
            r@.connected == Seq::new(channels@.len(), |i: int| false),
            r@.outcome == if channels@.len() == 0 {
                RaceOutcome::Ready
            } else {
                RaceOutcome::Pending
            },
    {
        let n = channels.len();
        let mut connected: Vec<bool> = Vec::new();
        let mut i: usize = 0;
        while i < n
            invariant
                i <= n,
                connected@ == Seq::new(i as nat, |k: int| false),
            decreases n - i,
        {
            connected.push(false);
            i = i + 1;
            proof {
                assert(connected@ =~= Seq::new(i as nat, |k: int| false));
            }
        }
        let outcome = if n == 0 {
            RaceOutcome::Ready
        } else {
            proof {
                assert(!connected@[0]);
            }
            RaceOutcome::Pending
        };
        ChannelRace { channels, connected, outcome }
    }

    /// The race of a launch: over the channels of its sockets, in order.
    pub fn for_launch(plan: &LaunchPlan) -> (r: ChannelRace)
        ensures
            r.wf(),
            r@.channels == plan.socket_views().map_values(|s: (Seq<char>, Seq<char>)| s.1),
            r@.connected == Seq::new(plan.sockets@.len(), |i: int| false),
            r@.outcome == if plan.sockets@.len() == 0 {
                RaceOutcome::Ready
            } else {
                RaceOutcome::Pending
            },
    {
        let mut channels: Vec<String> = Vec::new();
        let mut i: usize = 0;
        while i < plan.sockets.len()
            invariant
                i <= plan.sockets@.len(),
                channels@.len() == i,
                views(channels@) == plan.socket_views().map_values(|s: (Seq<char>, Seq<char>)| s.1).subrange(0, i as int),
            decreases plan.sockets@.len() - i,
        {
            let ghost before = channels@;
            channels.push(plan.sockets[i].channel.clone());
            proof {
                assert(channels@.len() == i + 1);
                assert(forall|k: int| 0 <= k < i ==> channels@[k] == before[k]);
                assert(channels@[i as int]@ == plan.sockets@[i as int].channel@);
                assert(plan.socket_views()[i as int].1 == plan.sockets@[i as int].channel@);
                assert(views(channels@) =~= plan.socket_views().map_values(|s: (Seq<char>, Seq<char>)| s.1).subrange(0, i as int + 1));
            }
            i = i + 1;
        }
        proof {
            assert(plan.socket_views().map_values(|s: (Seq<char>, Seq<char>)| s.1).subrange(0, i as int) =~= plan.socket_views().map_values(|s: (Seq<char>, Seq<char>)| s.1));
        }
        ChannelRace::new(channels)
    }

    /// Where the race stands.
    pub fn outcome(&self) -> (r: RaceOutcome)
        ensures
            r == self@.outcome,
    {
        self.outcome
    }

    /// The name of the channel with this index.
    pub fn channel(&self, index: usize) -> (r: &String)
        requires
            index < self@.channels.len(),
        ensures
            r@ == self@.channels[index as int],
    {
        &self.channels[index]
    }

    fn all_connected(&self) -> (r: bool)
        ensures
            r == all_set(self.connected@),
    {
        let mut i: usize = 0;
        while i < self.connected.len()
            invariant
                i <= self.connected@.len(),
                forall|k: int| 0 <= k < i ==> #[trigger] self.connected@[k],
            decreases self.connected@.len() - i,
        {
            if !self.connected[i] {
                return false;
            }
            i = i + 1;
        }
        true
    }

    /// A connection arrived on the socket of channel `index`. It is kept, and
    /// `true` returned, when the race is undecided and the channel had none:
    /// the first connection wins, and one after the race is decided counts as
    /// none. The race is won when that was the last channel.
    pub fn on_connect(&mut self, index: usize) -> (accepted: bool)
        requires
            old(self).wf(),
        ensures
            final(self).wf(),
            final(self)@.channels == old(self)@.channels,
            accepted == (old(self)@.outcome == RaceOutcome::Pending && index < old(self)@.channels.len()
                && !old(self)@.connected[index as int]),
            accepted ==> final(self)@.connected == old(self)@.connected.update(index as int, true),
            !accepted ==> final(self)@ == old(self)@,
            old(self)@.outcome != RaceOutcome::Pending ==> final(self)@.outcome == old(self)@.outcome,
            old(self)@.outcome == RaceOutcome::Pending ==> final(self)@.outcome != RaceOutcome::ExitedEarly,
    {
        match self.outcome {
            RaceOutcome::Pending => {},
            _ => {
                return false;
            },
        }
        if index >= self.connected.len() || self.connected[index] {
            return false;
        }
        self.connected.set(index, true);
        if self.all_connected() {
            self.outcome = RaceOutcome::Ready;
        }
        true
    }

    /// The process exited. Before every channel connected, this loses the
    /// race, whatever the exit status; afterwards it changes nothing.
    pub fn on_exit(&mut self, status: ProcessExit) -> (r: RaceOutcome)
        requires
            old(self).wf(),
        ensures
            final(self).wf(),
            final(self)@ == after_exit(old(self)@),
            r == final(self)@.outcome,
    {
        match self.outcome {
            RaceOutcome::Pending => {
                self.outcome = RaceOutcome::ExitedEarly;
            },
            _ => {},
        }
        self.outcome
    }

    /// The result of a decided race: success when every channel connected, a
    /// channel negotiation error when the process exited first.
    pub fn result(&self) -> (r: Result<(), Error>)
        requires
            self@.outcome != RaceOutcome::Pending,
        ensures
            r is Ok <==> self@.outcome == RaceOutcome::Ready,
            r matches Err(e) ==> e.kind == ErrorKind::ChannelNegotiation,
    {
        match self.outcome {
            RaceOutcome::Ready => Ok(()),
            _ => Err(Error::new(ErrorKind::ChannelNegotiation, "QEMU child process exited during initialization")),
        }
    }
}

/// A won race has connected exactly the requested channels: the names of the
/// streams handed to the caller are the set of requested names.
pub proof fn lemma_ready_connects_requested(race: ChannelRace)
    requires
        race.wf(),
        race@.outcome == RaceOutcome::Ready,
    ensures
        connected_names(race@) == race@.channels.to_set(),
{
    let m = race@;
    assert forall|c: Seq<char>| m.channels.to_set().contains(c) implies connected_names(m).contains(c) by {
        let i = choose|i: int| 0 <= i < m.channels.len() && m.channels[i] == c;
        assert(m.connected[i]);
    }
    assert(connected_names(m) =~= m.channels.to_set());
}

/// The race of a launch runs over exactly the configuration's channels, so a
/// won race hands the caller one stream for each requested channel and no
/// other: the names of the streams are the set of requested channels.
pub proof fn lemma_launch_streams_are_requested(m: ConfigModel, plan: LaunchPlan, race: ChannelRace)
    requires
        plan.socket_views() == launch_sockets(m),
        race.wf(),
        race@.channels == plan.socket_views().map_values(|s: (Seq<char>, Seq<char>)| s.1),
        race@.outcome == RaceOutcome::Ready,
    ensures
        connected_names(race@) == m.channels.to_set(),
{
    assert(race@.channels =~= m.channels);
    lemma_ready_connects_requested(race);
}

/// An exit before every channel connected loses the race. The state after an
/// exit does not depend on the exit status at all (see `on_exit`), so this
/// holds for a clean exit as much as for a failure or a kill.
pub proof fn lemma_early_exit_fails(m: RaceModel)
    requires
        m.connected.len() == m.channels.len(),
        m.outcome == RaceOutcome::Ready <==> all_set(m.connected),
        !all_set(m.connected),
    ensures
        after_exit(m).outcome == RaceOutcome::ExitedEarly,
{
}

} // verus!
