use token_broker::availability::{
    allowed_for_user, available, available_for_user, Availability, Date, Restriction,
    UnavailabilityReason, UserData,
};
use token_broker::item::{AudioFile, AudioFiles, AudioItem, Episode, MetadataError, Record, Track};
use token_broker::spotify_id::{SpotifyId, SpotifyItemType};
use token_broker::strings::contains;

fn strings(items: &[&str]) -> Vec<String> {
    items.iter().map(|s| s.to_string()).collect()
}

fn user(country: &str, catalogue: Option<&str>) -> UserData {
    UserData { country: country.to_string(), catalogue: catalogue.map(|c| c.to_string()) }
}

fn restriction(
    catalogues: &[&str],
    allowed: Option<&[&str]>,
    forbidden: Option<&[&str]>,
) -> Restriction {
    Restriction {
        catalogue_strs: strings(catalogues),
        countries_allowed: allowed.map(strings),
        countries_forbidden: forbidden.map(strings),
    }
}

fn from(start: i64) -> Availability {
    Availability { catalogue_strs: Vec::new(), start: Date { timestamp_ms: start } }
}

fn at(timestamp_ms: i64) -> Date {
    Date { timestamp_ms }
}

fn track(live: i64, availability: Vec<Availability>, restrictions: Vec<Restriction>) -> AudioItem {
    AudioItem::Track(Track {
        id: SpotifyId { id: 238762092608182713602505436543891614649, item_type: SpotifyItemType::Track },
        name: "Song".to_string(),
        duration: 215_000,
        is_explicit: true,
        files: AudioFiles { files: vec![AudioFile { format: 1, file_id: [7; 20] }] },
        availability,
        restrictions,
        earliest_live_timestamp: at(live),
    })
}

fn episode(availability: Vec<Availability>, restrictions: Vec<Restriction>) -> AudioItem {
    AudioItem::Episode(Episode {
        id: SpotifyId { id: 1, item_type: SpotifyItemType::Episode },
        name: "Talk".to_string(),
        duration: -1,
        is_explicit: false,
        audio: AudioFiles { files: Vec::new() },
        availability,
        restrictions,
    })
}

#[test]
fn contains_compares_whole_strings() {
    let list = strings(&["premium", "free"]);
    assert!(contains(&list, &"free".to_string()));
    assert!(!contains(&list, &"fre".to_string()));
    assert!(!contains(&Vec::new(), &"free".to_string()));
}

#[test]
fn no_restriction_allows() {
    assert_eq!(allowed_for_user(&user("DE", None), &Vec::new()), Ok(()));
}

#[test]
fn whitelist_decides() {
    let rules = vec![restriction(&["premium"], Some(&["DE", "FR"]), None)];
    assert_eq!(allowed_for_user(&user("FR", None), &rules), Ok(()));
    assert_eq!(
        allowed_for_user(&user("US", None), &rules),
        Err(UnavailabilityReason::NotWhitelisted)
    );
}

#[test]
fn blacklist_decides() {
    let rules = vec![restriction(&["premium"], None, Some(&["DE", "FR"]))];
    assert_eq!(allowed_for_user(&user("FR", None), &rules), Err(UnavailabilityReason::Blacklisted));
    assert_eq!(allowed_for_user(&user("US", None), &rules), Ok(()));
}

#[test]
fn whitelist_goes_before_blacklist() {
    let rules = vec![restriction(&["premium"], Some(&["DE"]), Some(&["DE"]))];
    assert_eq!(allowed_for_user(&user("DE", None), &rules), Ok(()));
    assert_eq!(
        allowed_for_user(&user("US", None), &rules),
        Err(UnavailabilityReason::NotWhitelisted)
    );
}

#[test]
fn catalogue_selects_the_restriction() {
    let rules = vec![
        restriction(&["free"], None, Some(&["DE"])),
        restriction(&["premium", "shuffle"], Some(&["US"]), None),
    ];
    assert_eq!(allowed_for_user(&user("DE", Some("free")), &rules), Err(UnavailabilityReason::Blacklisted));
    assert_eq!(
        allowed_for_user(&user("DE", Some("premium")), &rules),
        Err(UnavailabilityReason::NotWhitelisted)
    );
    assert_eq!(allowed_for_user(&user("DE", None), &rules), Err(UnavailabilityReason::NotWhitelisted));
    assert_eq!(allowed_for_user(&user("US", Some("shuffle")), &rules), Ok(()));
    assert_eq!(allowed_for_user(&user("DE", Some("family")), &rules), Ok(()));
}

#[test]
fn restriction_without_lists_is_passed_over() {
    let rules = vec![
        restriction(&["premium"], None, None),
        restriction(&["premium"], None, Some(&["DE"])),
        restriction(&["premium"], Some(&["DE"]), None),
    ];
    assert_eq!(allowed_for_user(&user("DE", None), &rules), Err(UnavailabilityReason::Blacklisted));
    assert_eq!(allowed_for_user(&user("US", None), &rules), Ok(()));
}

#[test]
fn empty_whitelist_allows_nobody() {
    let rules = vec![restriction(&["premium"], Some(&[]), None)];
    assert_eq!(
        allowed_for_user(&user("DE", None), &rules),
        Err(UnavailabilityReason::NotWhitelisted)
    );
}

#[test]
fn availability_needs_one_period_begun() {
    assert_eq!(available(&Vec::new(), at(0)), Ok(()));
    assert_eq!(available(&vec![from(100)], at(99)), Err(UnavailabilityReason::Embargo));
    assert_eq!(available(&vec![from(100)], at(100)), Ok(()));
    assert_eq!(available(&vec![from(500), from(100)], at(250)), Ok(()));
    assert_eq!(available(&vec![from(500), from(300)], at(250)), Err(UnavailabilityReason::Embargo));
    assert_eq!(available(&vec![from(i64::MIN)], at(i64::MIN)), Ok(()));
}

#[test]
fn embargo_goes_before_restrictions() {
    let rules = vec![restriction(&["premium"], None, Some(&["DE"]))];
    let who = user("DE", None);
    assert_eq!(
        available_for_user(&who, &vec![from(100)], &rules, at(50)),
        Err(UnavailabilityReason::Embargo)
    );
    assert_eq!(
        available_for_user(&who, &vec![from(100)], &rules, at(150)),
        Err(UnavailabilityReason::Blacklisted)
    );
    assert_eq!(available_for_user(&user("US", None), &vec![from(100)], &rules, at(150)), Ok(()));
}

#[test]
fn track_is_embargoed_until_live() {
    let item = track(1_000, Vec::new(), Vec::new());
    let who = user("DE", None);
    assert_eq!(item.availability(&who, at(999)), Err(UnavailabilityReason::Embargo));
    assert_eq!(item.availability(&who, at(1_000)), Ok(()));
    let blocked = track(1_000, vec![from(0)], vec![restriction(&["premium"], Some(&["US"]), None)]);
    assert_eq!(blocked.availability(&who, at(999)), Err(UnavailabilityReason::Embargo));
    assert_eq!(blocked.availability(&who, at(2_000)), Err(UnavailabilityReason::NotWhitelisted));
}

#[test]
fn episode_goes_by_periods_and_restrictions() {
    let item = episode(vec![from(10)], vec![restriction(&["free"], None, Some(&["DE"]))]);
    assert_eq!(item.availability(&user("DE", Some("free")), at(5)), Err(UnavailabilityReason::Embargo));
    assert_eq!(
        item.availability(&user("DE", Some("free")), at(10)),
        Err(UnavailabilityReason::Blacklisted)
    );
    assert_eq!(item.availability(&user("DE", None), at(10)), Ok(()));
}

#[test]
fn item_getters_read_either_kind() {
    let song = track(0, Vec::new(), Vec::new());
    assert_eq!(song.name(), "Song");
    assert_eq!(song.duration(), 215_000);
    assert!(song.is_explicit());
    assert_eq!(song.files().files.len(), 1);
    assert_eq!(song.files().files[0].format, 1);
    assert_eq!(song.files().files[0].file_id, [7; 20]);
    assert_eq!(song.id().item_type, SpotifyItemType::Track);
    let talk = episode(Vec::new(), Vec::new());
    assert_eq!(talk.name(), "Talk");
    assert_eq!(talk.duration(), -1);
    assert!(!talk.is_explicit());
    assert!(talk.files().files.is_empty());
    assert_eq!(talk.id(), SpotifyId { id: 1, item_type: SpotifyItemType::Episode });
}

#[test]
fn uri_is_scheme_kind_and_base62() {
    let song = track(0, Vec::new(), Vec::new());
    assert_eq!(song.spotify_uri(), "spotify:track:5sWHDYs0csV6RS48xBl0tH");
    assert_eq!(song.id().to_base62(), "5sWHDYs0csV6RS48xBl0tH");
    let talk = episode(Vec::new(), Vec::new());
    assert_eq!(talk.spotify_uri(), "spotify:episode:0000000000000000000001");
}

#[test]
fn base62_of_the_extremes() {
    let zero = SpotifyId { id: 0, item_type: SpotifyItemType::Unknown };
    assert_eq!(zero.to_base62(), "0000000000000000000000");
    assert_eq!(zero.to_uri(), "spotify:unknown:0000000000000000000000");
    let top = SpotifyId { id: u128::MAX, item_type: SpotifyItemType::Album };
    assert_eq!(top.to_base62(), "7N42dgm5tFLK9N8MT7fHC7");
    let sixty_one = SpotifyId { id: 61, item_type: SpotifyItemType::Show };
    assert_eq!(sixty_one.to_uri(), "spotify:show:000000000000000000000Z");
    let sixty_two = SpotifyId { id: 62, item_type: SpotifyItemType::Artist };
    assert_eq!(sixty_two.to_uri(), "spotify:artist:0000000000000000000010");
}

#[test]
fn every_kind_has_its_word() {
    assert_eq!(SpotifyItemType::Album.name(), "album");
    assert_eq!(SpotifyItemType::Artist.name(), "artist");
    assert_eq!(SpotifyItemType::Episode.name(), "episode");
    assert_eq!(SpotifyItemType::Playlist.name(), "playlist");
    assert_eq!(SpotifyItemType::Show.name(), "show");
    assert_eq!(SpotifyItemType::Track.name(), "track");
    assert_eq!(SpotifyItemType::Local.name(), "local");
    assert_eq!(SpotifyItemType::Unknown.name(), "unknown");
}

#[test]
fn only_tracks_and_episodes_are_playable() {
    let id = |item_type| SpotifyId { id: 9, item_type };
    assert_eq!(AudioItem::get_file(&id(SpotifyItemType::Track)), Ok(Record::Track));
    assert_eq!(AudioItem::get_file(&id(SpotifyItemType::Episode)), Ok(Record::Episode));
    for kind in [
        SpotifyItemType::Album,
        SpotifyItemType::Artist,
        SpotifyItemType::Playlist,
        SpotifyItemType::Show,
        SpotifyItemType::Local,
        SpotifyItemType::Unknown,
    ] {
        assert_eq!(AudioItem::get_file(&id(kind)), Err(MetadataError::NonPlayable));
    }
}
