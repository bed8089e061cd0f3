//! Playable items: tracks and episodes, and what a player asks of either.

use vstd::prelude::*;
use crate::availability::{
    available_for_user, catalogue_of, open_and_allowed, restriction_views, starts, Availability,
    Date, Restriction, UnavailabilityReason, UserData,
};
use crate::spotify_id::{uri_of, SpotifyId, SpotifyItemType};

verus! {

/// Why an id names nothing that can be loaded as an item.
#[derive(Clone, Copy, Debug, PartialEq, Eq, Structural)]
pub enum MetadataError {
    /// The id names something that cannot be played.
    NonPlayable,
}

/// The record from which an item is loaded.
#[derive(Clone, Copy, Debug, PartialEq, Eq, Structural)]
pub enum Record {
    Track,
    Episode,
}

/// One encoding of an item: its format, by number, and the id of its file.
#[derive(Clone, Debug)]
pub struct AudioFile {
    pub format: i32,
    pub file_id: [u8; 20],
}

/// The encodings in which an item can be had.
#[derive(Clone, Debug)]
pub struct AudioFiles {
    pub files: Vec<AudioFile>,
}

/// A piece of music.
#[derive(Clone, Debug)]
pub struct Track {
    pub id: SpotifyId,
    pub name: String,
    pub duration: i32,
    pub is_explicit: bool,
    pub files: AudioFiles,
    pub availability: Vec<Availability>,
    pub restrictions: Vec<Restriction>,
    pub earliest_live_timestamp: Date,
}

/// An episode of a show.
#[derive(Clone, Debug)]
pub struct Episode {
    pub id: SpotifyId,
    pub name: String,
    pub duration: i32,
    pub is_explicit: bool,
    pub audio: AudioFiles,
    pub availability: Vec<Availability>,
    pub restrictions: Vec<Restriction>,
}

/// Anything that can be played.
#[derive(Clone, Debug)]
pub enum AudioItem {
    Track(Track),
    Episode(Episode),
}

/// The record that holds the item of a kind, where the kind can be played.
pub open spec fn record_of(item_type: SpotifyItemType) -> Result<Record, MetadataError> {
    match item_type {
        SpotifyItemType::Track => Ok(Record::Track),
        SpotifyItemType::Episode => Ok(Record::Episode),
        _ => Err(MetadataError::NonPlayable),
    }
}

impl AudioItem {
    pub open spec fn spec_id(self) -> SpotifyId {
        match self {
            AudioItem::Track(t) => t.id,
            AudioItem::Episode(e) => e.id,
        }
    }

    pub open spec fn spec_name(self) -> Seq<char> {
        match self {
            AudioItem::Track(t) => t.name@,
            AudioItem::Episode(e) => e.name@,
        }
    }

    pub open spec fn spec_duration(self) -> i32 {
        match self {
            AudioItem::Track(t) => t.duration,
            AudioItem::Episode(e) => e.duration,
        }
    }

    pub open spec fn spec_is_explicit(self) -> bool {
        match self {
            AudioItem::Track(t) => t.is_explicit,
            AudioItem::Episode(e) => e.is_explicit,
        }
    }

    pub open spec fn spec_files(self) -> AudioFiles {
        match self {
            AudioItem::Track(t) => t.files,
            AudioItem::Episode(e) => e.audio,
        }
    }

    /// Whether the item can be played by the user at `now`. A track that is
    /// not live yet is under embargo; after that, and for an episode, the
    /// periods of availability and the restrictions decide.
    pub open spec fn availability_at(self, user: UserData, now: Date) -> Result<
        (),
        UnavailabilityReason,
    > {
        match self {
            AudioItem::Track(t) => if now.timestamp_ms < t.earliest_live_timestamp.timestamp_ms {
                Err(UnavailabilityReason::Embargo)
            } else {
                open_and_allowed(
                    starts(t.availability@),
                    restriction_views(t.restrictions@),
                    catalogue_of(user),
                    user.country@,
                    now.timestamp_ms as int,
                )
            },
            AudioItem::Episode(e) => open_and_allowed(
                starts(e.availability@),
                restriction_views(e.restrictions@),
                catalogue_of(user),
                user.country@,
                now.timestamp_ms as int,
            ),
        }
    }

    /// The first step of loading the item that `id` names: the record to
    /// load it from. Tracks and episodes can be played, nothing else.
    pub fn get_file(id: &SpotifyId) -> (r: Result<Record, MetadataError>)
        ensures
            r == record_of(id.item_type),
    {
        match id.item_type {
            SpotifyItemType::Track => Ok(Record::Track),
            SpotifyItemType::Episode => Ok(Record::Episode),
            _ => Err(MetadataError::NonPlayable),
        }
    }

    /// The id of the item.
    pub fn id(&self) -> (id: SpotifyId)
        ensures
            id == self.spec_id(),
    {
        match self {
            AudioItem::Track(t) => t.id,
            AudioItem::Episode(e) => e.id,
        }
    }

    /// The address of the item.
    pub fn spotify_uri(&self) -> (uri: String)
        ensures
            uri@ == uri_of(self.spec_id()),
    {
        self.id().to_uri()
    }

    /// The title of the item.
    pub fn name(&self) -> (name: &str)
        ensures
            name@ == self.spec_name(),
    {
        match self {
            AudioItem::Track(t) => t.name.as_str(),
            AudioItem::Episode(e) => e.name.as_str(),
        }
    }

    /// The length of the item, in milliseconds.
    pub fn duration(&self) -> (duration: i32)
        ensures
            duration == self.spec_duration(),
    {
        match self {
            AudioItem::Track(t) => t.duration,
            AudioItem::Episode(e) => e.duration,
        }
    }

    /// Whether the item is marked as explicit.
    pub fn is_explicit(&self) -> (explicit: bool)
        ensures
            explicit == self.spec_is_explicit(),
    {
        match self {
            AudioItem::Track(t) => t.is_explicit,
            AudioItem::Episode(e) => e.is_explicit,
        }
    }

    /// The encodings in which the item can be had.
    pub fn files(&self) -> (files: &AudioFiles)
        ensures
            *files == self.spec_files(),
    {
        match self {
            AudioItem::Track(t) => &t.files,
            AudioItem::Episode(e) => &e.audio,
        }
    }

    /// Whether the item can be played by the user at `now`.
    pub fn availability(&self, user_data: &UserData, now: Date) -> (verdict: Result<
        (),
        UnavailabilityReason,
    >)
        ensures
            verdict == self.availability_at(*user_data, now),
    {
        match self {
            AudioItem::Track(t) => {
                if now.timestamp_ms < t.earliest_live_timestamp.timestamp_ms {
                    return Err(UnavailabilityReason::Embargo);
                }
                available_for_user(user_data, &t.availability, &t.restrictions, now)
            },
            AudioItem::Episode(e) => available_for_user(
                user_data,
                &e.availability,
                &e.restrictions,
                now,
            ),
        }
    }
}

} // verus!
