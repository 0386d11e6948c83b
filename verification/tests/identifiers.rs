use spotify_dl::error::{Error, Subject};
use spotify_dl::track::{Album, Playlist, Track};
use spotify_dl::uri::{canonical_text, parse_uri_or_url, parse_url, ResourceUri, WEB_LINK_PATTERN};

const ABC123: u128 = 33_536_566_819;

#[test]
fn canonical_track_uri() {
    assert_eq!(
        parse_uri_or_url("spotify:track:0000000000000000ABC123"),
        Some(ResourceUri::Track { id: ABC123 })
    );
}

#[test]
fn canonical_track_uri_of_a_real_id() {
    assert_eq!(
        parse_uri_or_url("spotify:track:5sWHDYs0csV6RS48xBl0tH"),
        Some(ResourceUri::Track { id: 238762092608182713602505436543891614649 })
    );
}

#[test]
fn web_link_with_locale_and_query() {
    assert_eq!(
        parse_uri_or_url("https://open.spotify.com/intl-en/track/0000000000000000ABC123?si=xyz"),
        Some(ResourceUri::Track { id: ABC123 })
    );
}

#[test]
fn web_link_without_locale() {
    assert_eq!(
        parse_uri_or_url("https://open.spotify.com/track/0000000000000000ABC123"),
        Some(ResourceUri::Track { id: ABC123 })
    );
}

#[test]
fn web_link_and_uri_agree() {
    let by_uri = parse_uri_or_url("spotify:album:4GNcXTGWmnZ3ySrqvol3o4");
    let by_link = parse_uri_or_url("https://open.spotify.com/intl-de/album/4GNcXTGWmnZ3ySrqvol3o4");
    assert_eq!(by_uri, Some(ResourceUri::Album { id: 204841891221366092811751085145916697048 }));
    assert_eq!(by_link, by_uri);
}

#[test]
fn web_link_is_found_inside_a_longer_text() {
    assert_eq!(
        parse_url("see https://open.spotify.com/episode/0000000000000000ABC123 for more"),
        Some(ResourceUri::Episode { id: ABC123 })
    );
}

#[test]
fn web_link_reader_does_not_read_a_canonical_uri() {
    assert_eq!(parse_url("spotify:track:0000000000000000ABC123"), None);
}

#[test]
fn web_link_of_another_host_is_refused() {
    assert_eq!(parse_uri_or_url("https://open.example.com/track/0000000000000000ABC123"), None);
    assert_eq!(parse_uri_or_url("https://openxspotify.com/track/0000000000000000ABC123"), None);
}

#[test]
fn web_link_with_a_long_locale_is_refused() {
    assert_eq!(
        parse_uri_or_url("https://open.spotify.com/intl-eng/track/0000000000000000ABC123"),
        None
    );
}

#[test]
fn web_link_id_stops_at_the_first_other_character() {
    // The id group takes letters and digits only, so the id read here has 21
    // characters and the canonical parser refuses it.
    assert_eq!(parse_uri_or_url("https://open.spotify.com/track/000000000000000ABC123-0"), None);
}

#[test]
fn not_an_identifier() {
    assert_eq!(parse_uri_or_url("not a valid identifier"), None);
    assert_eq!(Track::new("not a valid identifier"), Err(Error::InvalidIdentifier(Subject::Track)));
}

#[test]
fn short_id_is_refused() {
    assert_eq!(parse_uri_or_url("spotify:track:ABC123"), None);
    assert_eq!(parse_uri_or_url("https://open.spotify.com/intl-en/track/ABC123?si=xyz"), None);
}

#[test]
fn id_out_of_range_is_refused() {
    assert_eq!(parse_uri_or_url("spotify:track:ZZZZZZZZZZZZZZZZZZZZZZ"), None);
}

#[test]
fn foreign_scheme_is_refused() {
    assert_eq!(parse_uri_or_url("deezer:track:0000000000000000ABC123"), None);
}

#[test]
fn episode_uri() {
    assert_eq!(
        parse_uri_or_url("spotify:episode:4GNcXTGWmnZ3ySrqvol3o4"),
        Some(ResourceUri::Episode { id: 204841891221366092811751085145916697048 })
    );
}

#[test]
fn playlist_uri_without_owner() {
    assert_eq!(
        parse_uri_or_url("spotify:playlist:37i9dQZF1DWSw8liJZcPOI"),
        Some(ResourceUri::Playlist { id: 136159921382084734723401526672209703396, user: None })
    );
}

#[test]
fn playlist_uri_with_owner() {
    assert_eq!(
        parse_uri_or_url("spotify:user:spotify:playlist:37i9dQZF1DWSw8liJZcPOI"),
        Some(ResourceUri::Playlist {
            id: 136159921382084734723401526672209703396,
            user: Some("spotify".to_string()),
        })
    );
}

#[test]
fn artist_uri_and_link() {
    let artist = Some(ResourceUri::Artist { id: 204841891221366092811751085145916697048 });
    assert_eq!(parse_uri_or_url("spotify:artist:4GNcXTGWmnZ3ySrqvol3o4"), artist);
    assert_eq!(parse_uri_or_url("https://open.spotify.com/artist/4GNcXTGWmnZ3ySrqvol3o4"), artist);
}

#[test]
fn kinds_of_no_use_are_other() {
    assert_eq!(parse_uri_or_url("spotify:show:4GNcXTGWmnZ3ySrqvol3o4"), Some(ResourceUri::Other));
    assert_eq!(
        parse_uri_or_url("spotify:arbitrarywhatever:5sWHDYs0csV6RS48xBl0tH"),
        Some(ResourceUri::Other)
    );
    assert_eq!(
        parse_uri_or_url("spotify:local:David+Wise:Tropical+Freeze:Snomads+Island:127"),
        Some(ResourceUri::Other)
    );
    assert_eq!(
        parse_uri_or_url("https://open.spotify.com/show/4GNcXTGWmnZ3ySrqvol3o4"),
        Some(ResourceUri::Other)
    );
}

#[test]
fn kinds_are_told_apart() {
    assert!(ResourceUri::Track { id: 1 }.is_playable());
    assert!(ResourceUri::Episode { id: 1 }.is_playable());
    assert!(!ResourceUri::Album { id: 1 }.is_playable());
    assert!(!ResourceUri::Playlist { id: 1, user: None }.is_playable());
    assert!(!ResourceUri::Artist { id: 1 }.is_playable());
    assert!(!ResourceUri::Other.is_playable());
    assert!(ResourceUri::Album { id: 1 }.is_collection());
    assert!(ResourceUri::Playlist { id: 1, user: None }.is_collection());
    assert!(!ResourceUri::Track { id: 1 }.is_collection());
    assert!(!ResourceUri::Episode { id: 1 }.is_collection());
    assert!(!ResourceUri::Artist { id: 1 }.is_collection());
    assert!(!ResourceUri::Other.is_collection());
}

#[test]
fn pattern_is_the_web_link_pattern() {
    assert_eq!(
        WEB_LINK_PATTERN,
        "https://open\\.spotify\\.com(?:/intl-[a-z]{2})?/(\\w+)/([a-zA-Z0-9]+)"
    );
}

#[test]
fn track_new_wraps_a_track_or_an_episode() {
    let track = Track::new("spotify:track:0000000000000000ABC123").unwrap();
    assert_eq!(*track.uri(), ResourceUri::Track { id: ABC123 });
    let episode = Track::new("https://open.spotify.com/episode/0000000000000000ABC123").unwrap();
    assert_eq!(*episode.uri(), ResourceUri::Episode { id: ABC123 });
}

#[test]
fn track_new_refuses_every_other_kind() {
    let refused = Err(Error::InvalidIdentifier(Subject::Track));
    assert_eq!(Track::new("spotify:album:0000000000000000ABC123"), refused);
    assert_eq!(Track::new("spotify:playlist:0000000000000000ABC123"), refused);
    assert_eq!(Track::new("spotify:artist:0000000000000000ABC123"), refused);
    assert_eq!(Track::new("spotify:show:0000000000000000ABC123"), refused);
    assert_eq!(Track::new("https://open.spotify.com/album/0000000000000000ABC123"), refused);
}

#[test]
fn track_from_uri_wraps_a_track_or_an_episode_only() {
    let refused = Err(Error::InvalidIdentifier(Subject::Track));
    assert_eq!(*Track::from_uri(ResourceUri::Track { id: 7 }).unwrap().uri(), ResourceUri::Track { id: 7 });
    assert_eq!(*Track::from_uri(ResourceUri::Episode { id: 7 }).unwrap().uri(), ResourceUri::Episode { id: 7 });
    assert_eq!(Track::from_uri(ResourceUri::Album { id: 7 }), refused);
    assert_eq!(Track::from_uri(ResourceUri::Playlist { id: 7, user: None }), refused);
    assert_eq!(Track::from_uri(ResourceUri::Artist { id: 7 }), refused);
    assert_eq!(Track::from_uri(ResourceUri::Other), refused);
}

#[test]
fn track_get_tracks_and_clone() {
    let track = Track::from_uri(ResourceUri::Episode { id: 7 }).unwrap();
    assert_eq!(track.get_tracks(), vec![Track::from_uri(ResourceUri::Episode { id: 7 }).unwrap()]);
    assert_eq!(track.clone(), track);
}

#[test]
fn album_new_and_from_uri() {
    let album = Album::new("https://open.spotify.com/album/0000000000000000ABC123").unwrap();
    assert_eq!(*album.uri(), ResourceUri::Album { id: ABC123 });
    assert!(matches!(Album::new("nothing"), Err(Error::InvalidIdentifier(Subject::Album))));
    assert_eq!(*Album::from_uri(ResourceUri::Album { id: 1 }).uri(), ResourceUri::Album { id: 1 });
}

#[test]
fn playlist_new_and_from_uri() {
    let playlist = Playlist::new("spotify:playlist:0000000000000000ABC123").unwrap();
    assert_eq!(*playlist.uri(), ResourceUri::Playlist { id: ABC123, user: None });
    assert!(matches!(Playlist::new(""), Err(Error::InvalidIdentifier(Subject::Playlist))));
    let uri = ResourceUri::Playlist { id: 2, user: Some("me".to_string()) };
    assert_eq!(*Playlist::from_uri(uri.clone()).uri(), uri);
}

#[test]
fn collections_list_their_tracks_in_order() {
    let listed = vec![
        ResourceUri::Track { id: 3 },
        ResourceUri::Track { id: 1 },
        ResourceUri::Episode { id: 2 },
    ];
    let expected = vec![
        Track::from_uri(ResourceUri::Track { id: 3 }).unwrap(),
        Track::from_uri(ResourceUri::Track { id: 1 }).unwrap(),
        Track::from_uri(ResourceUri::Episode { id: 2 }).unwrap(),
    ];
    let album = Album::from_uri(ResourceUri::Album { id: 9 });
    assert_eq!(album.get_tracks(listed.clone()), expected);
    let playlist = Playlist::from_uri(ResourceUri::Playlist { id: 9, user: None });
    assert_eq!(playlist.get_tracks(listed), expected);
    assert_eq!(album.get_tracks(Vec::new()), Vec::new());
}

#[test]
fn collections_leave_out_what_is_no_track() {
    let listed = vec![
        ResourceUri::Other,
        ResourceUri::Track { id: 3 },
        ResourceUri::Album { id: 4 },
        ResourceUri::Artist { id: 5 },
        ResourceUri::Episode { id: 2 },
        ResourceUri::Playlist { id: 6, user: None },
    ];
    let expected = vec![
        Track::from_uri(ResourceUri::Track { id: 3 }).unwrap(),
        Track::from_uri(ResourceUri::Episode { id: 2 }).unwrap(),
    ];
    let playlist = Playlist::from_uri(ResourceUri::Playlist { id: 9, user: None });
    assert_eq!(playlist.get_tracks(listed.clone()), expected);
    let album = Album::from_uri(ResourceUri::Album { id: 9 });
    assert_eq!(album.get_tracks(listed), expected);
    assert_eq!(album.get_tracks(vec![ResourceUri::Other]), Vec::new());
}

#[test]
fn error_messages() {
    assert_eq!(Error::InvalidIdentifier(Subject::Track).message(), "Invalid track");
    assert_eq!(Error::InvalidIdentifier(Subject::Artist).message(), "Invalid artist");
    assert_eq!(Error::InvalidIdentifier(Subject::Album).message(), "Invalid album");
    assert_eq!(Error::InvalidIdentifier(Subject::Playlist).message(), "Invalid playlist");
    assert_eq!(Error::MetadataFetchFailure(Subject::Track).message(), "Failed to get metadata");
    assert_eq!(Error::MetadataFetchFailure(Subject::Artist).message(), "Failed to get artist");
    assert_eq!(Error::MetadataFetchFailure(Subject::Album).message(), "Failed to get album");
    assert_eq!(Error::MetadataFetchFailure(Subject::Playlist).message(), "Failed to get playlist");
}

#[test]
fn canonical_text_of_capture_groups() {
    let whole = Some("https://open.spotify.com/track/abc".to_string());
    let kind = Some("track".to_string());
    let id = Some("abc".to_string());
    assert_eq!(
        canonical_text(&vec![whole.clone(), kind.clone(), id.clone()]),
        Some("spotify:track:abc".to_string())
    );
    assert_eq!(canonical_text(&vec![whole.clone(), kind.clone(), None]), None);
    assert_eq!(canonical_text(&vec![whole.clone(), None, id]), None);
    assert_eq!(canonical_text(&vec![whole, kind]), None);
    assert_eq!(canonical_text(&Vec::new()), None);
}
