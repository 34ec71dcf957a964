use vstd::prelude::*;

use crate::config::Config;
use crate::voice_stats::{SessionRecord, VoiceStats, spec_duration};

verus! {

/// The semantic transition a presence change amounts to, derived from the
/// pair of channels and never stored.
#[derive(Clone, Copy, Debug, PartialEq, Eq, Structural)]
pub enum Transition {
    /// Connected from nowhere into a channel other than AFK.
    Joined,
    /// Ended up in the AFK channel, wherever from: accounting pauses.
    JoinedAfk,
    /// Disconnected entirely.
    Left,
    /// Came out of the AFK channel into another channel: accounting resumes.
    LeftAfk,
    /// Switched between two channels, neither of them AFK.
    Moved,
    /// Nothing changed: the channel before and after are the same.
    NoChange,
}

/// Classifies a presence change. Entering the AFK channel always yields
/// JoinedAfk, whatever the previous channel was, except when nothing moved
/// at all; the order of the tests below is the precedence.
pub open spec fn spec_classify(
    previous: Option<u64>,
    next: Option<u64>,
    afk_channel_id: u64,
) -> Transition {
    if previous == next {
        Transition::NoChange
    } else if next == Some(afk_channel_id) {
        Transition::JoinedAfk
    } else if previous is None {
        Transition::Joined
    } else if next is None {
        Transition::Left
    } else if previous == Some(afk_channel_id) {
        Transition::LeftAfk
    } else {
        Transition::Moved
    }
}

/// The channel a reap check is owed on after a transition: the channel the
/// user just left, provided there is one and it is not the generator
/// channel itself.
pub open spec fn spec_reap_check(
    transition: Transition,
    previous: Option<u64>,
    generator_channel_id: u64,
) -> Option<u64> {
    match transition {
        Transition::Left | Transition::JoinedAfk | Transition::LeftAfk | Transition::Moved => {
            if previous matches Some(p) && p != generator_channel_id {
                Some(previous->Some_0)
            } else {
                None
            }
        },
        Transition::Joined | Transition::NoChange => None,
    }
}

/// Whether a transition calls for provisioning a new room: the user ended
/// up in the generator channel. Ending in the AFK channel never provisions.
pub open spec fn spec_provision(
    transition: Transition,
    next: Option<u64>,
    generator_channel_id: u64,
) -> bool {
    &&& next == Some(generator_channel_id)
    &&& transition != Transition::NoChange
    &&& transition != Transition::JoinedAfk
}

/// One presence change for one user, with the configured channel ids it is
/// judged against and the username snapshot taken at event time.
#[derive(Debug)]
pub struct VoiceStateTransition {
    pub user_id: u64,
    pub username: String,
    pub old_channel: Option<u64>,
    pub new_channel: Option<u64>,
    pub generator_channel_id: u64,
    pub afk_channel_id: u64,
    pub managed_category_id: u64,
}

/// What a transition owes to the remote platform: a reap check on the
/// channel left behind and a provisioning of a new room. These run, and may
/// fail and abandon the transition, before the registry is touched.
#[derive(Debug)]
pub struct EventPlan {
    pub reap_check: Option<u64>,
    pub provision: bool,
}

impl VoiceStateTransition {
    /// Gathers one event: the channel pair, the user's snapshot, and the
    /// channel ids from configuration.
    pub fn new(
        config: &Config,
        user_id: u64,
        username: String,
        old_channel: Option<u64>,
        new_channel: Option<u64>,
    ) -> (t: VoiceStateTransition)
        ensures
            t.user_id == user_id,
            t.username == username,
            t.old_channel == old_channel,
            t.new_channel == new_channel,
            t.generator_channel_id == config.generator.channel_id,
            t.afk_channel_id == config.generator.afk_channel_id,
            t.managed_category_id == config.generator.parent_id,
    {
        VoiceStateTransition {
            user_id,
            username,
            old_channel,
            new_channel,
            generator_channel_id: config.generator.channel_id,
            afk_channel_id: config.generator.afk_channel_id,
            managed_category_id: config.generator.parent_id,
        }
    }

    /// The transition this event amounts to.
    pub open spec fn spec_transition(self) -> Transition {
        spec_classify(self.old_channel, self.new_channel, self.afk_channel_id)
    }

    pub fn is_joining(&self) -> (b: bool)
        ensures
            b == (self.old_channel is None && self.new_channel is Some),
    {
        self.old_channel.is_none() && self.new_channel.is_some()
    }

    pub fn is_leaving(&self) -> (b: bool)
        ensures
            b == (self.old_channel is Some && self.new_channel is None),
    {
        self.old_channel.is_some() && self.new_channel.is_none()
    }

    pub fn is_moving(&self) -> (b: bool)
        ensures
            b == (self.old_channel is Some && self.new_channel is Some && self.old_channel
                != self.new_channel),
    {
        match (self.old_channel, self.new_channel) {
            (Some(old_id), Some(new_id)) => old_id != new_id,
            _ => false,
        }
    }

    pub fn is_joining_generator(&self) -> (b: bool)
        ensures
            b == (self.new_channel == Some(self.generator_channel_id)),
    {
        self.new_channel == Some(self.generator_channel_id)
    }

    pub fn is_joining_afk(&self) -> (b: bool)
        ensures
            b == (self.new_channel == Some(self.afk_channel_id)),
    {
        self.new_channel == Some(self.afk_channel_id)
    }

    pub fn is_leaving_afk(&self) -> (b: bool)
        ensures
            b == (self.old_channel == Some(self.afk_channel_id)),
    {
        self.old_channel == Some(self.afk_channel_id)
    }

    /// The transition this event amounts to, by the precedence of
    /// `spec_classify`.
    pub fn classify(&self) -> (t: Transition)
        ensures
            t == self.spec_transition(),
    {
        if self.old_channel == self.new_channel {
            Transition::NoChange
        } else if self.is_joining_afk() {
            Transition::JoinedAfk
        } else if self.old_channel.is_none() {
            Transition::Joined
        } else if self.new_channel.is_none() {
            Transition::Left
        } else if self.is_leaving_afk() {
            Transition::LeftAfk
        } else {
            Transition::Moved
        }
    }

    /// Decides what the transition owes to the remote platform. This is the
    /// decide phase: it reads nothing mutable and changes nothing, so the
    /// caller can carry the plan out — and abandon the transition where a
    /// remote call fails — before the registry moves.
    pub fn plan(&self) -> (plan: EventPlan)
        ensures
            ({
                let t = self.spec_transition();
                &&& plan.reap_check == spec_reap_check(t, self.old_channel, self.generator_channel_id)
                &&& plan.provision == spec_provision(t, self.new_channel, self.generator_channel_id)
            }),
    {
        let transition = self.classify();
        EventPlan {
            reap_check: self.reap_check_for(transition),
            provision: self.should_provision(transition),
        }
    }

    /// Applies the event to the session registry, once the plan's remote
    /// actions have succeeded: a failure there abandons the transition with
    /// the registry untouched, as the error design asks. Joining and leaving
    /// AFK open a session; leaving and entering AFK close one, yielding a
    /// record to persist exactly when a session was open — a leave with no
    /// prior join yields no record, hence no storage write. A move between
    /// ordinary channels touches the registry not at all.
    pub fn handle(&self, stats: &mut VoiceStats) -> (record: Option<SessionRecord>)
        ensures
            ({
                let t = self.spec_transition();
                &&& (t == Transition::Joined || t == Transition::LeftAfk) ==> {
                    &&& final(stats).sessions() == old(stats).sessions().insert(
                        self.user_id,
                        final(stats).sessions()[self.user_id],
                    )
                    &&& record is None
                }
                &&& (t == Transition::Left || t == Transition::JoinedAfk) ==> {
                    &&& final(stats).sessions() == old(stats).sessions().remove(self.user_id)
                    &&& (record is Some <==> old(stats).sessions().contains_key(self.user_id))
                    &&& (record matches Some(rec) ==> rec.user_id == self.user_id && rec.username@
                        == self.username@ && rec.duration_seconds == spec_duration(
                        old(stats).sessions()[self.user_id],
                        rec.occurred_at,
                    ))
                }
                &&& (t == Transition::Moved || t == Transition::NoChange) ==> final(stats).sessions()
                    == old(stats).sessions() && record is None
            }),
    {
        let transition = self.classify();
        match transition {
            Transition::Joined | Transition::LeftAfk => {
                stats.user_joined(self.user_id);
                None
            },
            Transition::Left | Transition::JoinedAfk => stats.user_left(
                self.user_id,
                self.username.as_str(),
            ),
            Transition::Moved | Transition::NoChange => None,
        }
    }

    /// The reap check owed after a transition, per `spec_reap_check`.
    fn reap_check_for(&self, transition: Transition) -> (check: Option<u64>)
        ensures
            check == spec_reap_check(transition, self.old_channel, self.generator_channel_id),
    {
        match transition {
            Transition::Left | Transition::JoinedAfk | Transition::LeftAfk | Transition::Moved => {
                match self.old_channel {
                    Some(p) => {
                        if p != self.generator_channel_id {
                            Some(p)
                        } else {
                            None
                        }
                    },
                    None => None,
                }
            },
            Transition::Joined | Transition::NoChange => None,
        }
    }

    /// Whether provisioning is owed, per `spec_provision`.
    fn should_provision(&self, transition: Transition) -> (b: bool)
        ensures
            b == spec_provision(transition, self.new_channel, self.generator_channel_id),
    {
        self.is_joining_generator() && transition != Transition::NoChange && transition
            != Transition::JoinedAfk
    }
}

/// The reap decision, taken on the channel's state as fetched live just
/// before: an ephemeral room is deleted exactly when it sits under the
/// managed category and nobody is left in it.
pub fn should_reap(
    channel_parent_id: Option<u64>,
    managed_category_id: u64,
    member_count: usize,
) -> (reap: bool)
    ensures
        reap == (channel_parent_id == Some(managed_category_id) && member_count == 0),
{
    channel_parent_id == Some(managed_category_id) && member_count == 0
}

/// Where and under what name a new room is provisioned.
#[derive(Debug)]
pub struct ProvisionPlan {
    pub category_id: u64,
    pub name: String,
}

/// Decides the provisioning for a join of the generator channel, given the
/// generator channel's parent category as fetched live: no parent means a
/// misconfiguration and no room; otherwise the room goes under that parent,
/// named by a rarity draw, or by the fixed default name when the draw
/// selects nothing.
pub fn provision_for(config: &Config, parent_id: Option<u64>) -> (plan: Option<ProvisionPlan>)
    ensures
        match plan {
            Some(p) => parent_id == Some(p.category_id) && (config.channels.spec_contains_name(
                p.name@,
            ) || p.name@ == "channel"@),
            None => parent_id is None,
        },
{
    match parent_id {
        None => None,
        Some(category_id) => {
            let name = match config.drop_rates.get_random_drop(&config.channels) {
                Some(picked) => picked.as_str().to_owned(),
                None => "channel".to_owned(),
            };
            Some(ProvisionPlan { category_id, name })
        },
    }
}

/// Law: ending up in the AFK channel is classified JoinedAfk whatever the
/// previous channel was — precedence over Joined, Left and Moved — for
/// every pairing in which something moved at all. The one excluded pairing
/// is staying put in the AFK channel, which moves nothing and is NoChange.
pub proof fn lemma_afk_precedence(previous: Option<u64>, afk_channel_id: u64)
    requires
        previous != Some(afk_channel_id),
    ensures
        spec_classify(previous, Some(afk_channel_id), afk_channel_id) == Transition::JoinedAfk,
{
}

} // verus!
