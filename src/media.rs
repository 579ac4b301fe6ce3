//! Media players on the session bus: which bus names are players, what the
//! remote's transport keys ask of them, and the deck status that sums up
//! their playback states.
use vstd::prelude::*;

use crate::event::{Event, KeyCode, Request};
use crate::text::{has_prefix, starts_with, text_is};
use crate::meta_command::{DeckInfo, MetaCommand};

verus! {

/// Relative seek, in microseconds, for the fast-forward and rewind keys.
pub const SEEK_STEP_US: i64 = 10_000_000;

/// Whether a bus name belongs to a media player: it lies under the
/// `org.mpris.MediaPlayer2` namespace.
pub open spec fn is_player_name(name: Seq<char>) -> bool {
    has_prefix(name, "org.mpris.MediaPlayer2."@)
}

pub fn is_media_player_name(name: &str) -> (r: bool)
    ensures
        r == is_player_name(name@),
{
    starts_with(name, "org.mpris.MediaPlayer2.")
}

/// The media players known on the bus, by bus name, each with an entry `T`
/// (the player, or its resolution in progress). Names are unique.
pub struct PlayerTable<T> {
    pub entries: Vec<(String, T)>,
}

impl<T> PlayerTable<T> {
    pub open spec fn names_unique(&self) -> bool {
        forall|i: int, j: int|
            0 <= i < j < self.entries@.len() ==> #[trigger] self.entries@[i].0@
                != #[trigger] self.entries@[j].0@
    }

    /// Whether the entry at `i` is the one for `name`.
    pub open spec fn is_entry(&self, i: int, name: Seq<char>) -> bool {
        0 <= i < self.entries@.len() && self.entries@[i].0@ == name
    }

    pub open spec fn holds(&self, name: Seq<char>) -> bool {
        exists|i: int| self.is_entry(i, name)
    }

    pub fn new() -> (r: PlayerTable<T>)
        ensures
            r.entries@.len() == 0,
            r.names_unique(),
    {
        PlayerTable { entries: Vec::new() }
    }

    fn find(&self, name: &str) -> (r: Option<usize>)
        ensures
            r matches Some(i) ==> self.is_entry(i as int, name@),
            r is None ==> !self.holds(name@),
    {
        let mut i: usize = 0;
        while i < self.entries.len()
            invariant
                i <= self.entries@.len(),
                forall|j: int| 0 <= j < i ==> !self.is_entry(j, name@),
            decreases self.entries@.len() - i,
        {
            if text_is(self.entries[i].0.as_str(), name) {
                return Some(i);
            }
            i += 1;
        }
        None
    }

    /// The owner of bus name `name` changed. With a new owner, `entry`
    /// takes the place of the name's entry, or is added; without one, the
    /// name's entry is removed at once, since nothing else would end it.
    /// Returns whether the deck status must be recomputed: a removal may
    /// change it, while a new player counts only once it reports a status.
    pub fn owner_changed(&mut self, name: String, entry: Option<T>) -> (recompute: bool)
        requires
            old(self).names_unique(),
        ensures
            final(self).names_unique(),
            recompute == entry is None,
            match entry {
                Some(e) => if old(self).holds(name@) {
                    exists|i: int|
                        old(self).is_entry(i, name@) && final(self).entries@ == old(
                            self,
                        ).entries@.update(i, (name, e))
                } else {
                    final(self).entries@ == old(self).entries@.push((name, e))
                },
                None => if old(self).holds(name@) {
                    exists|i: int|
                        old(self).is_entry(i, name@) && final(self).entries@ == old(
                            self,
                        ).entries@.remove(i)
                } else {
                    final(self).entries@ == old(self).entries@
                },
            },
    {
        let found = self.find(name.as_str());
        match entry {
            Some(e) => {
                match found {
                    Some(i) => {
                        self.entries[i] = (name, e);
                        proof {
                            let n = self.entries@;
                            assert forall|a: int, b: int|
                                0 <= a < b < n.len() implies #[trigger] n[a].0@ != #[trigger] n[b].0@ by {
                                assert(old(self).entries@[a].0@ != old(self).entries@[b].0@);
                            }
                        }
                    },
                    None => {
                        self.entries.push((name, e));
                        proof {
                            let n = self.entries@;
                            let o = old(self).entries@;
                            assert forall|a: int, b: int|
                                0 <= a < b < n.len() implies #[trigger] n[a].0@ != #[trigger] n[b].0@ by {
                                if b == o.len() {
                                    assert(!old(self).is_entry(a, n[b].0@));
                                } else {
                                    assert(o[a].0@ != o[b].0@);
                                }
                            }
                        }
                    },
                }
                false
            },
            None => {
                match found {
                    Some(i) => {
                        self.entries.remove(i);
                        proof {
                            let n = self.entries@;
                            let o = old(self).entries@;
                            assert forall|a: int, b: int|
                                0 <= a < b < n.len() implies #[trigger] n[a].0@ != #[trigger] n[b].0@ by {
                                let oa = if a < i { a } else { a + 1 };
                                let ob = if b < i { b } else { b + 1 };
                                assert(n[a] == o[oa]);
                                assert(n[b] == o[ob]);
                                assert(o[oa].0@ != o[ob].0@);
                            }
                        }
                    },
                    None => {},
                }
                true
            },
        }
    }
}

/// A call made on every media player.
#[derive(Debug, Clone, Copy, PartialEq, Eq, Structural)]
pub enum PlayerCommand {
    Play,
    PlayPause,
    Stop,
    /// Pause, then seek by the given offset in microseconds.
    PauseAndSeek { offset_us: i64 },
    Next,
    Previous,
}

/// The player call that an initial press of `key` asks for.
pub open spec fn player_command_for(key: KeyCode) -> Option<PlayerCommand> {
    match key {
        KeyCode::Play => Some(PlayerCommand::Play),
        KeyCode::Pause => Some(PlayerCommand::PlayPause),
        KeyCode::Stop => Some(PlayerCommand::Stop),
        KeyCode::FastForward => Some(PlayerCommand::PauseAndSeek { offset_us: SEEK_STEP_US }),
        KeyCode::Rewind => Some(PlayerCommand::PauseAndSeek { offset_us: (-SEEK_STEP_US) as i64 }),
        KeyCode::Forward => Some(PlayerCommand::Next),
        KeyCode::Backward => Some(PlayerCommand::Previous),
        _ => None,
    }
}

/// What the media players are asked to do on `event`: a transport call for
/// an initial press of a transport key, nothing otherwise.
pub fn player_command(event: &Event) -> (r: Option<PlayerCommand>)
    ensures
        r == (match event.initial_key() {
            Some(key) => player_command_for(key),
            None => None,
        }),
{
    match event.initial_key_of() {
        Some(KeyCode::Play) => Some(PlayerCommand::Play),
        Some(KeyCode::Pause) => Some(PlayerCommand::PlayPause),
        Some(KeyCode::Stop) => Some(PlayerCommand::Stop),
        Some(KeyCode::FastForward) => Some(PlayerCommand::PauseAndSeek { offset_us: SEEK_STEP_US }),
        Some(KeyCode::Rewind) => Some(PlayerCommand::PauseAndSeek { offset_us: -SEEK_STEP_US }),
        Some(KeyCode::Forward) => Some(PlayerCommand::Next),
        Some(KeyCode::Backward) => Some(PlayerCommand::Previous),
        _ => None,
    }
}

/// A player's playback status, as its cached property says it.
#[derive(Debug, Clone, Copy, PartialEq, Eq, Structural)]
pub enum PlaybackStatus {
    Playing,
    Paused,
    Stopped,
    /// Not cached, not readable, or a value outside the three above.
    Unknown,
}

impl PlaybackStatus {
    pub open spec fn of_text(text: Seq<char>) -> PlaybackStatus {
        if text == "Playing"@ {
            PlaybackStatus::Playing
        } else if text == "Paused"@ {
            PlaybackStatus::Paused
        } else if text == "Stopped"@ {
            PlaybackStatus::Stopped
        } else {
            PlaybackStatus::Unknown
        }
    }

    /// Reads the text of the playback-status property.
    pub fn parse(text: &str) -> (r: PlaybackStatus)
        ensures
            r == PlaybackStatus::of_text(text@),
    {
        proof {
            reveal_strlit("Playing");
            reveal_strlit("Paused");
            reveal_strlit("Stopped");
        }
        if text_is(text, "Playing") {
            PlaybackStatus::Playing
        } else if text_is(text, "Paused") {
            PlaybackStatus::Paused
        } else if text_is(text, "Stopped") {
            PlaybackStatus::Stopped
        } else {
            PlaybackStatus::Unknown
        }
    }

    /// The deck status that one player in this state stands for.
    pub open spec fn deck_info(self) -> DeckInfo {
        match self {
            PlaybackStatus::Playing => DeckInfo::Play,
            PlaybackStatus::Paused => DeckInfo::Still,
            _ => DeckInfo::Stop,
        }
    }
}

/// The deck status of a set of players: the most active state among them,
/// `Stop` when there are none.
pub open spec fn aggregate_deck_info(statuses: Seq<PlaybackStatus>) -> DeckInfo
    decreases statuses.len(),
{
    if statuses.len() == 0 {
        DeckInfo::Stop
    } else {
        aggregate_deck_info(statuses.drop_last()).spec_min(statuses.last().deck_info())
    }
}

pub fn aggregate(statuses: &[PlaybackStatus]) -> (r: DeckInfo)
    ensures
        r == aggregate_deck_info(statuses@),
{
    let mut acc = DeckInfo::Stop;
    let mut i: usize = 0;
    while i < statuses.len()
        invariant
            i <= statuses@.len(),
            acc == aggregate_deck_info(statuses@.subrange(0, i as int)),
        decreases statuses@.len() - i,
    {
        let status = statuses[i];
        let deck = match status {
            PlaybackStatus::Playing => DeckInfo::Play,
            PlaybackStatus::Paused => DeckInfo::Still,
            _ => DeckInfo::Stop,
        };
        proof {
            assert(statuses@.subrange(0, i + 1).drop_last() =~= statuses@.subrange(0, i as int));
        }
        acc = acc.min(deck);
        i += 1;
    }
    proof {
        assert(statuses@.subrange(0, statuses@.len() as int) =~= statuses@);
    }
    acc
}

/// Whether some player in `statuses` is in state `status`.
pub open spec fn some_player_is(statuses: Seq<PlaybackStatus>, status: PlaybackStatus) -> bool {
    exists|i: int| 0 <= i < statuses.len() && statuses[i] == status
}

/// The aggregate deck status is `Play` exactly when some player is playing,
/// `Still` exactly when none is playing and some is paused, and `Stop`
/// otherwise (in particular when there are no players).
pub proof fn lemma_aggregate_deck_info(statuses: Seq<PlaybackStatus>)
    ensures
        (aggregate_deck_info(statuses) == DeckInfo::Play) <==> some_player_is(
            statuses,
            PlaybackStatus::Playing,
        ),
        (aggregate_deck_info(statuses) == DeckInfo::Still) <==> (!some_player_is(
            statuses,
            PlaybackStatus::Playing,
        ) && some_player_is(statuses, PlaybackStatus::Paused)),
        (aggregate_deck_info(statuses) == DeckInfo::Stop) <==> (!some_player_is(
            statuses,
            PlaybackStatus::Playing,
        ) && !some_player_is(statuses, PlaybackStatus::Paused)),
    decreases statuses.len(),
{
    if statuses.len() > 0 {
        let init = statuses.drop_last();
        lemma_aggregate_deck_info(init);
        let n = statuses.len() - 1;
        assert forall|st: PlaybackStatus| #[trigger]
            some_player_is(statuses, st) <==> (some_player_is(init, st) || statuses.last()
                == st) by {
            if some_player_is(statuses, st) {
                let i = choose|i: int| 0 <= i < statuses.len() && statuses[i] == st;
                if i < n {
                    assert(init[i] == st);
                }
            }
            if some_player_is(init, st) {
                let i = choose|i: int| 0 <= i < init.len() && init[i] == st;
                assert(statuses[i] == st);
            }
            if statuses.last() == st {
                assert(statuses[n] == st);
            }
        }
        assert(some_player_is(statuses, PlaybackStatus::Playing) <==> (some_player_is(
            init,
            PlaybackStatus::Playing,
        ) || statuses.last() == PlaybackStatus::Playing));
        assert(some_player_is(statuses, PlaybackStatus::Paused) <==> (some_player_is(
            init,
            PlaybackStatus::Paused,
        ) || statuses.last() == PlaybackStatus::Paused));
    }
}

/// The deck status last reported for the players, so that a new one is
/// reported only when it differs.
pub struct DeckTracker {
    pub reported: DeckInfo,
}

impl DeckTracker {
    /// Before any report the deck is taken to be stopped.
    pub fn new() -> (r: DeckTracker)
        ensures
            r.reported == DeckInfo::Stop,
    {
        DeckTracker { reported: DeckInfo::Stop }
    }

    /// Recomputes the deck status from the players' current statuses. Asks
    /// for a deck-status report exactly when it differs from the last one.
    pub fn update(&mut self, statuses: &[PlaybackStatus]) -> (r: Option<Request>)
        ensures
            final(self).reported == aggregate_deck_info(statuses@),
            (old(self).reported == aggregate_deck_info(statuses@)) ==> r is None,
            (old(self).reported != aggregate_deck_info(statuses@)) ==> r == Some(
                Request::MetaCommand(MetaCommand::DeckInfo(aggregate_deck_info(statuses@))),
            ),
    {
        let deck = aggregate(statuses);
        if deck == self.reported {
            None
        } else {
            self.reported = deck;
            Some(Request::MetaCommand(MetaCommand::DeckInfo(deck)))
        }
    }
}

} // verus!
