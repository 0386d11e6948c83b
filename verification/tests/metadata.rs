use spotify_dl::assemble::Assembly;
use spotify_dl::error::{Error, Subject};
use spotify_dl::metadata::{
    AlbumMetadata, AlbumRecord, ArtistMetadata, ArtistRecord, CoverRetriever, Image, ImageSize,
    Tags, TrackMetadata, TrackRecord,
};
use spotify_dl::track::Track;
use spotify_dl::uri::ResourceUri;

fn image(first: u8) -> Image {
    let mut id = [0u8; 20];
    id[0] = first;
    Image { id, size: ImageSize::Default, width: 640, height: 640 }
}

fn track_record(artists: usize) -> TrackRecord {
    TrackRecord {
        name: "Song".to_string(),
        duration: 180_000,
        album: ResourceUri::Album { id: 77 },
        artists: (0..artists).map(|i| ResourceUri::Artist { id: 1000 + i as u128 }).collect(),
    }
}

fn artists(names: &[&str]) -> Vec<ArtistRecord> {
    names.iter().map(|n| ArtistRecord { name: n.to_string() }).collect()
}

fn album(covers: Vec<Image>) -> AlbumRecord {
    AlbumRecord { name: "Album".to_string(), covers }
}

fn metadata(names: &[&str], covers: Vec<Image>) -> TrackMetadata {
    TrackMetadata::from(
        track_record(names.len()),
        artists(names),
        album(covers.clone()),
        CoverRetriever::new(covers),
    )
}

#[test]
fn four_artists_are_cut_to_three() {
    assert_eq!(metadata(&["A", "B", "C", "D"], vec![]).display_string(|text| text), "A, B, C, ... - Song");
}

#[test]
fn two_artists_are_all_named() {
    assert_eq!(metadata(&["A", "B"], vec![]).display_string(|text| text), "A, B - Song");
}

#[test]
fn three_artists_are_all_named() {
    assert_eq!(metadata(&["A", "B", "C"], vec![]).display_string(|text| text), "A, B, C - Song");
}

#[test]
fn five_artists_are_cut_to_three() {
    assert_eq!(
        metadata(&["Ann", "Bob", "Cy", "Di", "Ed"], vec![]).display_string(|text| text),
        "Ann, Bob, Cy, ... - Song"
    );
}

#[test]
fn one_artist_and_none() {
    assert_eq!(metadata(&["A"], vec![]).display_string(|text| text), "A - Song");
    assert_eq!(metadata(&[], vec![]).display_string(|text| text), " - Song");
}

#[test]
fn display_string_keeps_every_character() {
    let mut m = metadata(&["AC/DC"], vec![]);
    m.track_name = "What? \u{e9}".to_string();
    assert_eq!(m.display_string(|text| text), "AC/DC - What? \u{e9}");
}

#[test]
fn display_string_is_passed_through_the_sanitizer() {
    let mut m = metadata(&["AC/DC", "B"], vec![]);
    m.track_name = "What?".to_string();
    let strip = |text: String| text.chars().filter(|c| *c != '/' && *c != '?').collect::<String>();
    assert_eq!(m.display_string(strip), "ACDC, B - What");
    assert_eq!(m.display_string(|text| text.to_uppercase()), "AC/DC, B - WHAT?");
}

#[test]
fn approx_size_of_three_minutes() {
    assert_eq!(metadata(&["A"], vec![]).approx_size(), 180 * 44100 * 2 * 4);
    assert_eq!(metadata(&["A"], vec![]).approx_size(), 63_504_000);
}

#[test]
fn approx_size_counts_whole_seconds() {
    let mut m = metadata(&["A"], vec![]);
    m.duration = 1_999;
    assert_eq!(m.approx_size(), 352_800);
    m.duration = 999;
    assert_eq!(m.approx_size(), 0);
    m.duration = 0;
    assert_eq!(m.approx_size(), 0);
}

#[test]
fn from_puts_the_records_together() {
    let m = metadata(&["A", "B"], vec![image(1), image(2)]);
    assert_eq!(
        m.artists,
        vec![ArtistMetadata { name: "A".to_string() }, ArtistMetadata { name: "B".to_string() }]
    );
    assert_eq!(m.track_name, "Song");
    assert_eq!(m.duration, 180_000);
    assert_eq!(
        m.album,
        AlbumMetadata { name: "Album".to_string(), covers: Some(vec![image(1), image(2)]) }
    );
    assert_eq!(m.image_retriever.request(), Some(image(1).id));
}

#[test]
fn artist_and_album_metadata_from_records() {
    assert_eq!(
        ArtistMetadata::from(ArtistRecord { name: "A".to_string() }),
        ArtistMetadata { name: "A".to_string() }
    );
    assert_eq!(
        AlbumMetadata::from(album(vec![image(9), image(8), image(7)])),
        AlbumMetadata {
            name: "Album".to_string(),
            covers: Some(vec![image(9), image(8), image(7)]),
        }
    );
    assert_eq!(
        AlbumMetadata::from(album(vec![image(9)])),
        AlbumMetadata { name: "Album".to_string(), covers: Some(vec![image(9)]) }
    );
    assert_eq!(
        AlbumMetadata::from(album(vec![])),
        AlbumMetadata { name: "Album".to_string(), covers: None }
    );
}

#[test]
fn tags_without_cover_images() {
    let m = metadata(&["A", "B"], vec![]);
    assert_eq!(m.image_retriever.request(), None);
    let expected = Tags {
        title: "Song".to_string(),
        artists: vec!["A".to_string(), "B".to_string()],
        album_title: "Album".to_string(),
        album_cover: None,
    };
    assert_eq!(m.tags(None), Ok(expected));
    // Without a cover image nothing was asked for, so nothing is taken.
    assert_eq!(m.tags(Some(vec![1, 2, 3])).unwrap().album_cover, None);
}

#[test]
fn tags_with_a_fetched_cover() {
    let m = metadata(&["A"], vec![image(4), image(5)]);
    assert_eq!(m.image_retriever.request(), Some(image(4).id));
    let tags = m.tags(Some(vec![0xff, 0xd8])).unwrap();
    assert_eq!(tags.album_cover, Some(vec![0xff, 0xd8]));
    assert_eq!(tags.title, "Song");
    assert_eq!(tags.artists, vec!["A".to_string()]);
    assert_eq!(tags.album_title, "Album");
}

#[test]
fn tags_with_a_failed_cover_fetch() {
    let m = metadata(&["A"], vec![image(4)]);
    assert_eq!(m.tags(None).unwrap().album_cover, None);
}

#[test]
fn cover_can_be_asked_for_again() {
    let retriever = CoverRetriever::new(vec![image(4)]);
    assert_eq!(retriever.request(), Some(image(4).id));
    assert_eq!(retriever.cover(None), None);
    assert_eq!(retriever.request(), Some(image(4).id));
    assert_eq!(retriever.cover(Some(vec![1])), Some(vec![1]));
}

fn artist_stage(next: Result<Assembly, Error>) -> spotify_dl::assemble::ArtistStage {
    match next {
        Ok(Assembly::Artist(stage)) => stage,
        _ => panic!("an artist is asked for next"),
    }
}

fn album_stage(next: Result<Assembly, Error>) -> spotify_dl::assemble::AlbumStage {
    match next {
        Ok(Assembly::Album(stage)) => stage,
        _ => panic!("the album is asked for next"),
    }
}

#[test]
fn assembly_asks_for_track_artists_album() {
    let track = Track::from_uri(ResourceUri::Track { id: 5 }).unwrap();
    let stage = track.metadata();
    assert_eq!(*stage.request(), ResourceUri::Track { id: 5 });

    let stage = artist_stage(stage.resume(Some(track_record(2))));
    assert_eq!(*stage.request(), ResourceUri::Artist { id: 1000 });
    let stage = artist_stage(stage.resume(Some(ArtistRecord { name: "A".to_string() })));
    assert_eq!(*stage.request(), ResourceUri::Artist { id: 1001 });
    let stage = album_stage(stage.resume(Some(ArtistRecord { name: "B".to_string() })));
    assert_eq!(*stage.request(), ResourceUri::Album { id: 77 });

    let m = stage.resume(Some(album(vec![image(3), image(2)]))).unwrap();
    assert_eq!(m.display_string(|text| text), "A, B - Song");
    assert_eq!(m.duration, 180_000);
    assert_eq!(
        m.album,
        AlbumMetadata { name: "Album".to_string(), covers: Some(vec![image(3), image(2)]) }
    );
    assert_eq!(m.image_retriever.request(), Some(image(3).id));
}

#[test]
fn assembly_of_a_track_without_artists() {
    let track = Track::from_uri(ResourceUri::Track { id: 5 }).unwrap();
    let stage = album_stage(track.metadata().resume(Some(track_record(0))));
    let m = stage.resume(Some(album(vec![]))).unwrap();
    assert_eq!(m.display_string(|text| text), " - Song");
    assert_eq!(m.tags(None).unwrap().album_cover, None);
}

#[test]
fn clone_keeps_everything() {
    let m = metadata(&["A", "B"], vec![image(1), image(2)]);
    let copy = m.clone();
    assert_eq!(copy.artists, m.artists);
    assert_eq!(copy.track_name, m.track_name);
    assert_eq!(copy.album, m.album);
    assert_eq!(copy.duration, m.duration);
    assert_eq!(copy.image_retriever.request(), m.image_retriever.request());
}

#[test]
fn failed_track_fetch() {
    let track = Track::from_uri(ResourceUri::Track { id: 5 }).unwrap();
    assert!(matches!(
        track.metadata().resume(None),
        Err(Error::MetadataFetchFailure(Subject::Track))
    ));
}

#[test]
fn failed_artist_fetch() {
    let track = Track::from_uri(ResourceUri::Track { id: 5 }).unwrap();
    let stage = artist_stage(track.metadata().resume(Some(track_record(3))));
    let stage = artist_stage(stage.resume(Some(ArtistRecord { name: "A".to_string() })));
    assert!(matches!(stage.resume(None), Err(Error::MetadataFetchFailure(Subject::Artist))));
}

#[test]
fn failed_album_fetch() {
    let track = Track::from_uri(ResourceUri::Track { id: 5 }).unwrap();
    let stage = album_stage(track.metadata().resume(Some(track_record(0))));
    assert!(matches!(stage.resume(None), Err(Error::MetadataFetchFailure(Subject::Album))));
}
