//! Establishing the connection to the broker, with a bounded number of
//! attempts, and opening channels on it.
//!
//! The caller tries to connect and reports each outcome; the connection
//! answers with what to do next. Channels are opened in the same way.

use vstd::prelude::*;

verus! {

/// How many times a connection is attempted before giving up.
pub const MAX_ATTEMPTS: u32 = 5;

/// How many seconds pass between a failed attempt and the next one.
pub const RETRY_DELAY_SECS: u64 = 3;

/// Where a connection stands.
#[derive(Clone, Copy, Debug, PartialEq, Eq, Structural)]
pub enum LinkStatus {
    /// No attempt has succeeded yet and attempts are left.
    Connecting,
    /// An attempt succeeded and the connection is alive.
    Connected,
    /// Every attempt failed.
    Failed,
    /// The connection was established and has ended since.
    Closed,
}

/// What the caller does next to establish the connection.
#[derive(Clone, Copy, Debug, PartialEq, Eq, Structural)]
pub enum ConnectStep {
    /// Wait `delay_secs` seconds, try to connect, and report the outcome.
    Attempt { delay_secs: u64 },
    /// The connection is established.
    Ready,
    /// All attempts failed: the relay cannot start.
    GiveUp { attempts: u32 },
    /// The connection has ended.
    Closed,
}

/// A connection as a mathematical value.
pub struct Link {
    /// Where the connection stands.
    pub status: LinkStatus,
    /// How many attempts were made and reported.
    pub attempts: nat,
}

impl Link {
    /// A connection before its first attempt.
    pub open spec fn fresh() -> Link {
        Link { status: LinkStatus::Connecting, attempts: 0 }
    }

    /// While connecting, attempts are left; a connection that gave up has
    /// used them all; one that was established took at least one.
    pub open spec fn valid(self) -> bool {
        match self.status {
            LinkStatus::Connecting => self.attempts < MAX_ATTEMPTS,
            LinkStatus::Failed => self.attempts == MAX_ATTEMPTS,
            LinkStatus::Connected | LinkStatus::Closed => 1 <= self.attempts <= MAX_ATTEMPTS,
        }
    }

    /// The connection after an attempt was reported. Only a connection that
    /// is still connecting takes a report.
    pub open spec fn after_attempt(self, established: bool) -> Link {
        if self.status != LinkStatus::Connecting {
            self
        } else if established {
            Link { status: LinkStatus::Connected, attempts: self.attempts + 1 }
        } else if self.attempts + 1 >= MAX_ATTEMPTS {
            Link { status: LinkStatus::Failed, attempts: self.attempts + 1 }
        } else {
            Link { status: LinkStatus::Connecting, attempts: self.attempts + 1 }
        }
    }

    /// The connection after the transport ended.
    pub open spec fn after_close(self) -> Link {
        if self.status == LinkStatus::Connected {
            Link { status: LinkStatus::Closed, attempts: self.attempts }
        } else {
            self
        }
    }

    /// What the caller does next: the first attempt is made at once, each
    /// later one after the delay.
    pub open spec fn step(self) -> ConnectStep {
        match self.status {
            LinkStatus::Connecting => ConnectStep::Attempt {
                delay_secs: if self.attempts == 0 {
                    0
                } else {
                    RETRY_DELAY_SECS
                },
            },
            LinkStatus::Connected => ConnectStep::Ready,
            LinkStatus::Failed => ConnectStep::GiveUp { attempts: self.attempts as u32 },
            LinkStatus::Closed => ConnectStep::Closed,
        }
    }

    /// The connection after a series of attempts was reported, first to last.
    pub open spec fn after_attempts(self, outcomes: Seq<bool>) -> Link
        decreases outcomes.len(),
    {
        if outcomes.len() == 0 {
            self
        } else {
            self.after_attempts(outcomes.drop_last()).after_attempt(outcomes.last())
        }
    }
}

/// `failures` failed attempts in a row.
pub open spec fn refusals(failures: nat) -> Seq<bool> {
    Seq::new(failures, |i: int| false)
}

/// Whatever is reported, no more attempts are made than the maximum, and a
/// report never lowers their number.
pub proof fn law_attempts_stay_within_the_maximum(link: Link, outcomes: Seq<bool>)
    requires
        link.valid(),
    ensures
        link.after_attempts(outcomes).valid(),
        link.attempts <= link.after_attempts(outcomes).attempts <= MAX_ATTEMPTS,
    decreases outcomes.len(),
{
    if outcomes.len() > 0 {
        law_attempts_stay_within_the_maximum(link, outcomes.drop_last());
    }
}

/// After `failures` failed attempts, fewer than the maximum, a fresh
/// connection is still connecting and has counted each of them.
pub proof fn lemma_refused(failures: nat)
    requires
        failures < MAX_ATTEMPTS,
    ensures
        Link::fresh().after_attempts(refusals(failures)) == (Link {
            status: LinkStatus::Connecting,
            attempts: failures,
        }),
    decreases failures,
{
    if failures > 0 {
        lemma_refused((failures - 1) as nat);
        assert(refusals(failures).drop_last() =~= refusals((failures - 1) as nat));
    }
}

/// A broker that refuses the first `failures` attempts, fewer than the
/// maximum, and then accepts: the connection is established, and the number of
/// attempts is `failures + 1`.
pub proof fn law_connects_after_refusals(failures: nat)
    requires
        failures < MAX_ATTEMPTS,
    ensures
        Link::fresh().after_attempts(refusals(failures).push(true)) == (Link {
            status: LinkStatus::Connected,
            attempts: failures + 1,
        }),
        Link::fresh().after_attempts(refusals(failures).push(true)).step() == ConnectStep::Ready,
{
    lemma_refused(failures);
    let outcomes = refusals(failures).push(true);
    assert(outcomes.drop_last() =~= refusals(failures));
}

/// A broker that refuses the first `failures` attempts, where `failures` is at
/// least the maximum: the connection gives up after exactly the maximum number
/// of attempts, whatever is reported after them.
pub proof fn law_gives_up_after_max_attempts(failures: nat, later: Seq<bool>)
    requires
        failures >= MAX_ATTEMPTS,
    ensures
        Link::fresh().after_attempts(refusals(failures) + later) == (Link {
            status: LinkStatus::Failed,
            attempts: MAX_ATTEMPTS as nat,
        }),
        Link::fresh().after_attempts(refusals(failures) + later).step() == (ConnectStep::GiveUp {
            attempts: MAX_ATTEMPTS,
        }),
    decreases failures + later.len(),
{
    let outcomes = refusals(failures) + later;
    if later.len() > 0 {
        law_gives_up_after_max_attempts(failures, later.drop_last());
        assert(outcomes.drop_last() =~= refusals(failures) + later.drop_last());
    } else if failures > MAX_ATTEMPTS {
        law_gives_up_after_max_attempts((failures - 1) as nat, later);
        assert(outcomes.drop_last() =~= refusals((failures - 1) as nat) + later);
    } else {
        lemma_refused((failures - 1) as nat);
        assert(outcomes.drop_last() =~= refusals((failures - 1) as nat));
    }
}

/// A channel on the connection.
#[derive(Clone, Copy, Debug, PartialEq, Eq, Structural)]
pub struct Channel {
    /// How many unacknowledged deliveries the broker sends on this channel
    /// before it waits; `None` if there is no such quota.
    pub prefetch_count: Option<u16>,
}

/// Why a channel could not be had.
#[derive(Clone, Copy, Debug, PartialEq, Eq, Structural)]
pub enum ChannelError {
    /// The channel could not be opened.
    Open,
    /// The broker rejected the quota.
    Qos,
}

/// What the caller does next to open a channel.
#[derive(Clone, Copy, Debug, PartialEq, Eq, Structural)]
pub enum ChannelStep {
    /// Open a channel on the connection and report the outcome.
    Open,
    /// Ask the broker for this quota on the channel and report the outcome.
    SetQos { prefetch_count: u16 },
    /// The channel is ready.
    Ready(Channel),
    /// The channel could not be had.
    Failed(ChannelError),
}

/// The opening of one channel.
#[derive(Clone, Copy, Debug, PartialEq, Eq, Structural)]
pub struct ChannelSetup {
    /// The quota that the channel is to have.
    pub prefetch_count: Option<u16>,
    /// What the caller does next.
    pub step: ChannelStep,
}

impl ChannelSetup {
    /// The opening of a channel before anything was asked of the broker.
    pub open spec fn begin(prefetch_count: Option<u16>) -> ChannelSetup {
        ChannelSetup { prefetch_count, step: ChannelStep::Open }
    }

    /// The opening after the broker answered the pending request. A channel
    /// with a quota gets it right after it was opened; one without is ready
    /// then. A refusal ends the opening. Once it has ended nothing changes.
    pub open spec fn after(self, accepted: bool) -> ChannelSetup {
        match self.step {
            ChannelStep::Open => if !accepted {
                ChannelSetup { step: ChannelStep::Failed(ChannelError::Open), ..self }
            } else {
                match self.prefetch_count {
                    Some(n) => ChannelSetup {
                        step: ChannelStep::SetQos { prefetch_count: n },
                        ..self
                    },
                    None => ChannelSetup {
                        step: ChannelStep::Ready(Channel { prefetch_count: None }),
                        ..self
                    },
                }
            },
            ChannelStep::SetQos { prefetch_count } => if accepted {
                ChannelSetup {
                    step: ChannelStep::Ready(Channel { prefetch_count: Some(prefetch_count) }),
                    ..self
                }
            } else {
                ChannelSetup { step: ChannelStep::Failed(ChannelError::Qos), ..self }
            },
            ChannelStep::Ready(_) | ChannelStep::Failed(_) => self,
        }
    }

    /// Takes the broker's answer to the pending request and says what to do next.
    pub fn advance(&mut self, accepted: bool) -> (step: ChannelStep)
        ensures
            *final(self) == old(self).after(accepted),
            step == final(self).step,
    {
        let next: ChannelStep = match self.step {
            ChannelStep::Open => {
                if !accepted {
                    ChannelStep::Failed(ChannelError::Open)
                } else {
                    match self.prefetch_count {
                        Some(n) => ChannelStep::SetQos { prefetch_count: n },
                        None => ChannelStep::Ready(Channel { prefetch_count: None }),
                    }
                }
            },
            ChannelStep::SetQos { prefetch_count } => {
                if accepted {
                    ChannelStep::Ready(Channel { prefetch_count: Some(prefetch_count) })
                } else {
                    ChannelStep::Failed(ChannelError::Qos)
                }
            },
            ChannelStep::Ready(channel) => ChannelStep::Ready(channel),
            ChannelStep::Failed(error) => ChannelStep::Failed(error),
        };
        self.step = next;
        next
    }
}

/// The connection to the broker.
#[derive(Debug)]
pub struct AMQPConnection {
    url: String,
    status: LinkStatus,
    attempts: u32,
}

impl View for AMQPConnection {
    type V = Link;

    closed spec fn view(&self) -> Link {
        Link { status: self.status, attempts: self.attempts as nat }
    }
}

impl Clone for AMQPConnection {
    fn clone(&self) -> (copy: Self)
        ensures
            copy@ == self@,
            copy.url_of() == self.url_of(),
    {
        proof {
            use_type_invariant(self);
        }
        AMQPConnection { url: self.url.clone(), status: self.status, attempts: self.attempts }
    }
}

impl AMQPConnection {
    #[verifier::type_invariant]
    spec fn inv(self) -> bool {
        self@.valid()
    }

    /// The address of the broker.
    pub closed spec fn url_of(self) -> Seq<char> {
        self.url@
    }

    /// A connection to the broker at `amqp_url`, before its first attempt.
    /// The caller connects and reports the outcome to `connect_with_retry`.
    pub fn new(amqp_url: &str) -> (connection: Self)
        ensures
            connection@ == Link::fresh(),
            connection@.step() == (ConnectStep::Attempt { delay_secs: 0 }),
            connection.url_of() == amqp_url@,
    {
        AMQPConnection { url: amqp_url.to_owned(), status: LinkStatus::Connecting, attempts: 0 }
    }

    /// The address of the broker.
    pub fn url(&self) -> (url: &String)
        ensures
            url@ == self.url_of(),
    {
        &self.url
    }

    /// Takes the outcome of an attempt and says what to do next: the
    /// connection is ready after a success, another attempt follows a failure
    /// after the delay, and after the last failure the connection gives up.
    pub fn connect_with_retry(&mut self, established: bool) -> (step: ConnectStep)
        ensures
            final(self)@ == old(self)@.after_attempt(established),
            step == final(self)@.step(),
            final(self)@.valid(),
            final(self).url_of() == old(self).url_of(),
    {
        proof {
            use_type_invariant(&*self);
        }
        match self.status {
            LinkStatus::Connecting => {
                let attempts: u32 = self.attempts + 1;
                let status: LinkStatus = if established {
                    LinkStatus::Connected
                } else if attempts >= MAX_ATTEMPTS {
                    LinkStatus::Failed
                } else {
                    LinkStatus::Connecting
                };
                let mut url: String = String::new();
                std::mem::swap(&mut url, &mut self.url);
                *self = AMQPConnection { url, status, attempts };
            },
            _ => {},
        }
        self.next_step()
    }

    /// What the caller does next to establish the connection.
    pub fn next_step(&self) -> (step: ConnectStep)
        ensures
            step == self@.step(),
    {
        match self.status {
            LinkStatus::Connecting => {
                if self.attempts == 0 {
                    ConnectStep::Attempt { delay_secs: 0 }
                } else {
                    ConnectStep::Attempt { delay_secs: RETRY_DELAY_SECS }
                }
            },
            LinkStatus::Connected => ConnectStep::Ready,
            LinkStatus::Failed => ConnectStep::GiveUp { attempts: self.attempts },
            LinkStatus::Closed => ConnectStep::Closed,
        }
    }

    /// Records that the transport has ended. There is no reconnection.
    pub fn close(&mut self)
        ensures
            final(self)@ == old(self)@.after_close(),
            final(self).url_of() == old(self).url_of(),
    {
        proof {
            use_type_invariant(&*self);
        }
        if self.status == LinkStatus::Connected {
            self.status = LinkStatus::Closed;
        }
    }

    /// How many attempts were made and reported.
    pub fn attempts(&self) -> (n: u32)
        ensures
            n == self@.attempts,
            n <= MAX_ATTEMPTS,
    {
        proof {
            use_type_invariant(self);
        }
        self.attempts
    }

    /// Begins to open a channel without a quota.
    pub fn create_channel(&self) -> (setup: ChannelSetup)
        ensures
            setup == ChannelSetup::begin(None),
    {
        ChannelSetup { prefetch_count: None, step: ChannelStep::Open }
    }

    /// Begins to open a channel on which the broker sends at most
    /// `prefetch_count` unacknowledged deliveries.
    pub fn create_channel_with_qos(&self, prefetch_count: u16) -> (setup: ChannelSetup)
        ensures
            setup == ChannelSetup::begin(Some(prefetch_count)),
    {
        ChannelSetup { prefetch_count: Some(prefetch_count), step: ChannelStep::Open }
    }

    /// Whether the connection is established and alive.
    pub fn is_connected(&self) -> (connected: bool)
        ensures
            connected == (self@.status == LinkStatus::Connected),
    {
        self.status == LinkStatus::Connected
    }
}

} // verus!
