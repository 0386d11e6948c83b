//! Resolution of a batch of identifiers into track references.
//!
//! A track or an episode is its own reference. An album or a playlist has to
//! be looked up: resolution then stops with a `Resolver` that names the
//! collection, and goes on when the caller hands in what the service listed.
//! Every other kind is passed over, among the identifiers of the batch and
//! among those of a listing. One text that is no identifier, or one listing
//! that could not be fetched, fails the whole batch.
//!
//! A resolution is stated over the identifiers that its track references wrap.
use crate::error::{Error, Subject};
use crate::track::{playable, uris_of, Album, Playlist, Track};
use crate::uri::{identifier, is_collection, is_playable, parse_uri_or_url, ResourceUri};
use vstd::prelude::*;

verus! {

/// Where resolution stands: at a collection whose listing is needed, or at its end.
pub enum Progress {
    /// The identifier at `next` names the collection `uri`; `tracks` are the
    /// tracks of the identifiers before it.
    Awaiting { ids: Seq<String>, next: nat, tracks: Seq<ResourceUri>, uri: ResourceUri },
    /// All identifiers gave their tracks, or one failed.
    Done(Result<Seq<ResourceUri>, Error>),
}

/// Whether an identifier is passed over: it names neither a track or an
/// episode nor a collection.
pub open spec fn is_unsupported(uri: ResourceUri) -> bool {
    !is_playable(uri) && !is_collection(uri)
}

/// What a failed fetch for this collection is reported as.
pub open spec fn subject_of(uri: ResourceUri) -> Subject {
    if uri is Playlist {
        Subject::Playlist
    } else {
        Subject::Album
    }
}

/// Resolution from the identifier at `next` on, with `tracks` gathered so far:
/// up to the first collection, the first text that is no identifier, or the end.
pub open spec fn scan(ids: Seq<String>, next: nat, tracks: Seq<ResourceUri>) -> Progress
    decreases ids.len() - next,
{
    if next >= ids.len() {
        Progress::Done(Ok(tracks))
    } else {
        match identifier(ids[next as int]@) {
            None => Progress::Done(Err(Error::InvalidIdentifier(Subject::Track))),
            Some(uri) => if is_collection(uri) {
                Progress::Awaiting { ids, next, tracks, uri }
            } else if is_playable(uri) {
                scan(ids, next + 1, tracks.push(uri))
            } else {
                scan(ids, next + 1, tracks)
            },
        }
    }
}

/// Resolution after the answer to a request: a failed fetch ends it, a listing
/// adds its tracks and episodes in the listed order and resolution goes on
/// behind the collection.
pub open spec fn resumed(
    ids: Seq<String>,
    next: nat,
    tracks: Seq<ResourceUri>,
    uri: ResourceUri,
    listing: Option<Seq<ResourceUri>>,
) -> Progress {
    match listing {
        None => Progress::Done(Err(Error::MetadataFetchFailure(subject_of(uri)))),
        Some(listed) => scan(ids, next + 1, tracks + playable(listed)),
    }
}

/// An answer of the service as a sequence.
pub open spec fn listing_of(answer: Option<Vec<ResourceUri>>) -> Option<Seq<ResourceUri>> {
    match answer {
        Some(listed) => Some(listed@),
        None => None,
    }
}

/// A collection to ask the service for.
pub enum Collection {
    Album(Album),
    Playlist(Playlist),
}

impl View for Collection {
    type V = ResourceUri;

    /// The identifier of the collection.
    open spec fn view(&self) -> ResourceUri {
        match *self {
            Collection::Album(album) => album@,
            Collection::Playlist(playlist) => playlist@,
        }
    }
}

/// What one identifier asks of resolution.
pub enum Expansion {
    /// A track or an episode: the one reference that it contributes.
    Track(Track),
    /// An album or a playlist: its listing has to be fetched.
    Collection(Collection),
    /// Any other kind: it is passed over.
    Nothing,
}

/// Tells by its kind what an identifier contributes.
pub fn expand(uri: ResourceUri) -> (expansion: Expansion)
    ensures
        match uri {
            ResourceUri::Track { .. } | ResourceUri::Episode { .. } => expansion
                matches Expansion::Track(track) && track@ == uri,
            ResourceUri::Album { .. } => expansion matches Expansion::Collection(
                Collection::Album(album),
            ) && album@ == uri,
            ResourceUri::Playlist { .. } => expansion matches Expansion::Collection(
                Collection::Playlist(playlist),
            ) && playlist@ == uri,
            ResourceUri::Artist { .. } | ResourceUri::Other => expansion is Nothing,
        },
{
    match uri {
        ResourceUri::Album { .. } => Expansion::Collection(
            Collection::Album(Album::from_uri(uri)),
        ),
        ResourceUri::Playlist { .. } => Expansion::Collection(
            Collection::Playlist(Playlist::from_uri(uri)),
        ),
        _ => match Track::from_uri(uri) {
            Ok(track) => Expansion::Track(track),
            Err(_) => Expansion::Nothing,
        },
    }
}

/// A resolution that waits for the listing of a collection.
pub struct Resolver {
    ids: Vec<String>,
    next: usize,
    tracks: Vec<Track>,
    pending: Collection,
}

/// One step of resolution.
pub enum Step {
    /// The listing of `Resolver::request` is needed to go on.
    Fetch(Resolver),
    /// The tracks of the whole batch in input order, or the first failure.
    Done(Result<Vec<Track>, Error>),
}

impl View for Step {
    type V = Progress;

    open spec fn view(&self) -> Progress {
        match *self {
            Step::Fetch(resolver) => Progress::Awaiting {
                ids: resolver.ids(),
                next: resolver.position(),
                tracks: resolver.tracks(),
                uri: resolver.pending(),
            },
            Step::Done(Ok(tracks)) => Progress::Done(Ok(uris_of(tracks@))),
            Step::Done(Err(e)) => Progress::Done(Err(e)),
        }
    }
}

impl Resolver {
    #[verifier::type_invariant]
    spec fn inv(self) -> bool {
        &&& self.next < self.ids.len()
        &&& self.pending is Album ==> self.pending@ is Album
        &&& self.pending is Playlist ==> self.pending@ is Playlist
    }

    /// The identifiers of the batch.
    pub closed spec fn ids(self) -> Seq<String> {
        self.ids@
    }

    /// The index of the identifier that names the pending collection.
    pub closed spec fn position(self) -> nat {
        self.next as nat
    }

    /// The tracks of the identifiers before the pending collection.
    pub closed spec fn tracks(self) -> Seq<ResourceUri> {
        uris_of(self.tracks@)
    }

    /// The identifier of the pending collection.
    pub closed spec fn pending(self) -> ResourceUri {
        self.pending@
    }

    /// The collection whose listing is needed.
    pub fn request(&self) -> (collection: &Collection)
        ensures
            collection@ == self.pending(),
            is_collection(self.pending()),
            *collection is Album <==> self.pending() is Album,
    {
        proof {
            use_type_invariant(self);
        }
        &self.pending
    }

    /// Goes on with the answer of the service: the identifiers that the pending
    /// collection lists, or `None` where the fetch failed.
    pub fn resume(self, listing: Option<Vec<ResourceUri>>) -> (step: Step)
        ensures
            step@ == resumed(
                self.ids(),
                self.position(),
                self.tracks(),
                self.pending(),
                listing_of(listing),
            ),
    {
        proof {
            use_type_invariant(&self);
        }
        let Resolver { ids, next, tracks, pending } = self;
        match listing {
            None => {
                let subject = match pending {
                    Collection::Album(_) => Subject::Album,
                    Collection::Playlist(_) => Subject::Playlist,
                };
                Step::Done(Err(Error::MetadataFetchFailure(subject)))
            },
            Some(listed) => {
                let ghost before = tracks@;
                let mut tracks = tracks;
                let mut listed_tracks = match pending {
                    Collection::Album(album) => album.get_tracks(listed),
                    Collection::Playlist(playlist) => playlist.get_tracks(listed),
                };
                let ghost more = listed_tracks@;
                tracks.append(&mut listed_tracks);
                assert(uris_of(tracks@) == uris_of(before) + uris_of(more));
                advance(ids, next + 1, tracks)
            },
        }
    }
}

/// Resolves from the identifier at `start` on.
fn advance(ids: Vec<String>, start: usize, gathered: Vec<Track>) -> (step: Step)
    requires
        start <= ids.len(),
    ensures
        step@ == scan(ids@, start as nat, uris_of(gathered@)),
{
    let mut tracks = gathered;
    let mut next: usize = start;
    while next < ids.len()
        invariant
            next <= ids.len(),
            scan(ids@, next as nat, uris_of(tracks@)) == scan(
                ids@,
                start as nat,
                uris_of(gathered@),
            ),
        decreases ids.len() - next,
    {
        match parse_uri_or_url(ids[next].as_str()) {
            None => {
                return Step::Done(Err(Error::InvalidIdentifier(Subject::Track)));
            },
            Some(uri) => {
                match expand(uri) {
                    Expansion::Track(track) => {
                        let ghost before = tracks@;
                        let mut own = track.get_tracks();
                        let ghost one = own@;
                        tracks.append(&mut own);
                        assert(uris_of(tracks@) == uris_of(before) + uris_of(one));
                        assert(uris_of(tracks@) == uris_of(before).push(uri));
                    },
                    Expansion::Collection(pending) => {
                        return Step::Fetch(Resolver { ids, next, tracks, pending });
                    },
                    Expansion::Nothing => {},
                }
            },
        }
        next += 1;
    }
    Step::Done(Ok(tracks))
}

/// Resolves a batch of identifiers, each a canonical URI or a web link, into
/// track references in input order, up to the first collection that has to be
/// looked up.
pub fn get_tracks(spotify_ids: Vec<String>) -> (step: Step)
    ensures
        step@ == scan(spotify_ids@, 0, Seq::empty()),
{
    let gathered: Vec<Track> = Vec::new();
    assert(uris_of(gathered@) == Seq::<ResourceUri>::empty());
    advance(spotify_ids, 0, gathered)
}

/// Whether a text is an identifier that resolution passes over.
pub open spec fn is_passed_over(text: Seq<char>) -> bool {
    identifier(text) matches Some(uri) && is_unsupported(uri)
}

/// The positions before `end` of the identifiers that resolution passes
/// over, in rising order.
pub open spec fn passed_over_before(ids: Seq<String>, end: nat) -> Seq<usize>
    decreases end,
{
    if end == 0 {
        Seq::empty()
    } else {
        let before = passed_over_before(ids, (end - 1) as nat);
        if is_passed_over(ids[end - 1]@) {
            before.push((end - 1) as usize)
        } else {
            before
        }
    }
}

/// The positions of the identifiers of a batch that resolution passes over
/// because of their kind, for the caller to tell the user.
pub fn passed_over(spotify_ids: &Vec<String>) -> (positions: Vec<usize>)
    ensures
        positions@ == passed_over_before(spotify_ids@, spotify_ids@.len()),
{
    let mut positions: Vec<usize> = Vec::new();
    let mut i: usize = 0;
    while i < spotify_ids.len()
        invariant
            i <= spotify_ids.len(),
            positions@ == passed_over_before(spotify_ids@, i as nat),
        decreases spotify_ids.len() - i,
    {
        match parse_uri_or_url(spotify_ids[i].as_str()) {
            Some(uri) => {
                if !uri.is_playable() && !uri.is_collection() {
                    positions.push(i);
                }
            },
            None => {},
        }
        i += 1;
    }
    positions
}

/// A position is among those passed over exactly where its text is an
/// identifier of a kind that resolution has no use for.
pub proof fn law_passed_over_positions(ids: Seq<String>, end: nat, position: usize)
    requires
        end <= ids.len() <= usize::MAX,
    ensures
        passed_over_before(ids, end).contains(position) <==> position < end && is_passed_over(
            ids[position as int]@,
        ),
    decreases end,
{
    if end > 0 {
        let before = passed_over_before(ids, (end - 1) as nat);
        law_passed_over_positions(ids, (end - 1) as nat, position);
        if is_passed_over(ids[end - 1]@) {
            let last = (end - 1) as usize;
            assert(before.push(last).last() == last);
            assert(forall|k: int| 0 <= k < before.len() ==> before.push(last)[k] == before[k]);
            if before.push(last).contains(position) {
                let k = choose|k: int| 0 <= k < before.len() + 1 && before.push(last)[k] == position;
                if k < before.len() {
                    assert(before[k] == position);
                }
            }
            if before.contains(position) {
                let k = choose|k: int| 0 <= k < before.len() && before[k] == position;
                assert(before.push(last)[k] == position);
            }
            if position == last {
                assert(before.push(last)[before.len() as int] == position);
            }
        }
    }
}

/// Resolution driven to the point where the answers run out: each answer is
/// handed to the request that is then pending, in order.
pub open spec fn run(progress: Progress, answers: Seq<Option<Seq<ResourceUri>>>) -> Progress
    decreases answers.len(),
{
    match progress {
        Progress::Done(_) => progress,
        Progress::Awaiting { ids, next, tracks, uri } => if answers.len() == 0 {
            progress
        } else {
            run(resumed(ids, next, tracks, uri, answers[0]), answers.drop_first())
        },
    }
}

/// Where a batch stands once the service has given these answers.
pub open spec fn resolution(ids: Seq<String>, answers: Seq<Option<Seq<ResourceUri>>>) -> Progress {
    run(scan(ids, 0, Seq::empty()), answers)
}

/// How many of the identifiers name a collection.
pub open spec fn collections(ids: Seq<String>) -> nat
    decreases ids.len(),
{
    if ids.len() == 0 {
        0
    } else if is_collection(identifier(ids[0]@)->0) {
        1 + collections(ids.drop_first())
    } else {
        collections(ids.drop_first())
    }
}

/// The tracks of a batch of identifiers, given the listing of each collection
/// among them: what each identifier contributes, one after the other. A track
/// or an episode contributes itself, a collection the tracks and episodes that
/// it lists, any other kind nothing.
pub open spec fn expansion(ids: Seq<String>, listings: Seq<Seq<ResourceUri>>) -> Seq<ResourceUri>
    decreases ids.len(),
{
    if ids.len() == 0 {
        Seq::empty()
    } else {
        let uri = identifier(ids[0]@)->0;
        if is_collection(uri) {
            playable(listings[0]) + expansion(ids.drop_first(), listings.drop_first())
        } else if is_playable(uri) {
            seq![uri] + expansion(ids.drop_first(), listings)
        } else {
            expansion(ids.drop_first(), listings)
        }
    }
}

/// The answers of a service that fetches every listing.
pub open spec fn fetched(listings: Seq<Seq<ResourceUri>>) -> Seq<Option<Seq<ResourceUri>>> {
    listings.map_values(|listed: Seq<ResourceUri>| Some(listed))
}

/// Whether a progress cannot end in a list of tracks because the text at
/// `bad` is still ahead.
spec fn doomed(progress: Progress, all: Seq<String>, bad: int) -> bool {
    match progress {
        Progress::Done(outcome) => outcome is Err,
        Progress::Awaiting { ids, next, .. } => ids == all && next < bad,
    }
}

proof fn lemma_scan_doomed(ids: Seq<String>, next: nat, tracks: Seq<ResourceUri>, bad: int)
    requires
        next <= bad < ids.len(),
        identifier(ids[bad]@) is None,
    ensures
        doomed(scan(ids, next, tracks), ids, bad),
    decreases ids.len() - next,
{
    if next < bad {
        match identifier(ids[next as int]@) {
            None => {},
            Some(uri) => {
                if is_collection(uri) {
                } else if is_playable(uri) {
                    lemma_scan_doomed(ids, next + 1, tracks.push(uri), bad);
                } else {
                    lemma_scan_doomed(ids, next + 1, tracks, bad);
                }
            },
        }
    }
}

proof fn lemma_run_doomed(
    progress: Progress,
    answers: Seq<Option<Seq<ResourceUri>>>,
    all: Seq<String>,
    bad: int,
)
    requires
        0 <= bad < all.len(),
        identifier(all[bad]@) is None,
        doomed(progress, all, bad),
    ensures
        doomed(run(progress, answers), all, bad),
    decreases answers.len(),
{
    match progress {
        Progress::Done(_) => {},
        Progress::Awaiting { ids, next, tracks, uri } => {
            if answers.len() > 0 {
                match answers[0] {
                    None => {},
                    Some(listed) => {
                        lemma_scan_doomed(ids, next + 1, tracks + playable(listed), bad);
                    },
                }
                lemma_run_doomed(
                    resumed(ids, next, tracks, uri, answers[0]),
                    answers.drop_first(),
                    all,
                    bad,
                );
            }
        },
    }
}

/// One text that is no identifier fails the whole batch: whatever the other
/// identifiers are and whatever the service answers, resolution never ends in
/// a list of tracks, not even in the tracks of the identifiers before it.
pub proof fn law_invalid_identifier_fails_batch(
    ids: Seq<String>,
    answers: Seq<Option<Seq<ResourceUri>>>,
    bad: int,
)
    requires
        0 <= bad < ids.len(),
        identifier(ids[bad]@) is None,
    ensures
        resolution(ids, answers) matches Progress::Done(outcome) ==> outcome is Err,
{
    lemma_scan_doomed(ids, 0, Seq::empty(), bad);
    lemma_run_doomed(scan(ids, 0, Seq::empty()), answers, ids, bad);
}

proof fn lemma_run_reports(
    ids: Seq<String>,
    next: nat,
    tracks: Seq<ResourceUri>,
    answers: Seq<Option<Seq<ResourceUri>>>,
    bad: int,
)
    requires
        next <= bad < ids.len(),
        identifier(ids[bad]@) is None,
        forall|i: int| 0 <= i < answers.len() ==> (#[trigger] answers[i]) is Some,
        answers.len() >= collections(ids.skip(next as int)),
    ensures
        run(scan(ids, next, tracks), answers) == Progress::Done(
            Err(Error::InvalidIdentifier(Subject::Track)),
        ),
    decreases ids.len() - next,
{
    let rest = ids.skip(next as int);
    assert(rest[0] == ids[next as int]);
    assert(rest.drop_first() == ids.skip((next + 1) as int));
    match identifier(ids[next as int]@) {
        None => {},
        Some(uri) => {
            if is_collection(uri) {
                let listed = answers[0]->0;
                lemma_run_reports(
                    ids,
                    next + 1,
                    tracks + playable(listed),
                    answers.drop_first(),
                    bad,
                );
            } else if is_playable(uri) {
                lemma_run_reports(ids, next + 1, tracks.push(uri), answers, bad);
            } else {
                lemma_run_reports(ids, next + 1, tracks, answers, bad);
            }
        },
    }
}

/// Where the service fetches every listing that it is asked for, a batch with
/// a text that is no identifier ends, and ends in `InvalidIdentifier`.
pub proof fn law_invalid_identifier_is_reported(
    ids: Seq<String>,
    answers: Seq<Option<Seq<ResourceUri>>>,
    bad: int,
)
    requires
        0 <= bad < ids.len(),
        identifier(ids[bad]@) is None,
        forall|i: int| 0 <= i < answers.len() ==> (#[trigger] answers[i]) is Some,
        answers.len() >= collections(ids),
    ensures
        resolution(ids, answers) == Progress::Done(Err(Error::InvalidIdentifier(Subject::Track))),
{
    assert(ids.skip(0) == ids);
    lemma_run_reports(ids, 0, Seq::empty(), answers, bad);
}

proof fn lemma_run_expands(
    ids: Seq<String>,
    next: nat,
    tracks: Seq<ResourceUri>,
    listings: Seq<Seq<ResourceUri>>,
)
    requires
        next <= ids.len(),
        forall|i: int| 0 <= i < ids.len() ==> identifier(#[trigger] ids[i]@) is Some,
        listings.len() == collections(ids.skip(next as int)),
    ensures
        run(scan(ids, next, tracks), fetched(listings)) == Progress::Done(
            Ok(tracks + expansion(ids.skip(next as int), listings)),
        ),
    decreases ids.len() - next,
{
    let rest = ids.skip(next as int);
    if next == ids.len() {
        assert(tracks + expansion(rest, listings) == tracks);
    } else {
        assert(rest[0] == ids[next as int]);
        assert(rest.drop_first() == ids.skip((next + 1) as int));
        let uri = identifier(ids[next as int]@)->0;
        if is_collection(uri) {
            let more = playable(listings[0]);
            assert(fetched(listings).drop_first() == fetched(listings.drop_first()));
            lemma_run_expands(ids, next + 1, tracks + more, listings.drop_first());
            assert((tracks + more) + expansion(ids.skip((next + 1) as int), listings.drop_first())
                == tracks + expansion(rest, listings));
        } else if is_playable(uri) {
            lemma_run_expands(ids, next + 1, tracks.push(uri), listings);
            assert(tracks.push(uri) + expansion(ids.skip((next + 1) as int), listings) == tracks
                + expansion(rest, listings));
        } else {
            lemma_run_expands(ids, next + 1, tracks, listings);
        }
    }
}

/// Where every text is an identifier and the service fetches every listing,
/// resolution ends in the tracks that the identifiers contribute one after the
/// other: input order across identifiers, the listed order within a collection.
pub proof fn law_resolution_is_expansion(ids: Seq<String>, listings: Seq<Seq<ResourceUri>>)
    requires
        forall|i: int| 0 <= i < ids.len() ==> identifier(#[trigger] ids[i]@) is Some,
        listings.len() == collections(ids),
    ensures
        resolution(ids, fetched(listings)) == Progress::Done(Ok(expansion(ids, listings))),
{
    assert(ids.skip(0) == ids);
    lemma_run_expands(ids, 0, Seq::empty(), listings);
    assert(Seq::<ResourceUri>::empty() + expansion(ids, listings) == expansion(ids, listings));
}

/// The tracks of two batches put together are the tracks of the first followed
/// by the tracks of the second: nothing is sorted again or left out.
pub proof fn law_expansion_concatenates(
    first: Seq<String>,
    first_listings: Seq<Seq<ResourceUri>>,
    second: Seq<String>,
    second_listings: Seq<Seq<ResourceUri>>,
)
    requires
        first_listings.len() == collections(first),
    ensures
        collections(first + second) == collections(first) + collections(second),
        expansion(first + second, first_listings + second_listings) == expansion(
            first,
            first_listings,
        ) + expansion(second, second_listings),
    decreases first.len(),
{
    if first.len() == 0 {
        assert(first + second == second);
        assert(first_listings + second_listings == second_listings);
        assert(expansion(first, first_listings) + expansion(second, second_listings) == expansion(
            second,
            second_listings,
        ));
    } else {
        let both = first + second;
        assert(both[0] == first[0]);
        assert(both.drop_first() == first.drop_first() + second);
        let uri = identifier(first[0]@)->0;
        if is_collection(uri) {
            let listings = first_listings + second_listings;
            assert(listings[0] == first_listings[0]);
            assert(listings.drop_first() == first_listings.drop_first() + second_listings);
            law_expansion_concatenates(
                first.drop_first(),
                first_listings.drop_first(),
                second,
                second_listings,
            );
            assert(expansion(both, listings) == expansion(first, first_listings) + expansion(
                second,
                second_listings,
            ));
        } else {
            law_expansion_concatenates(first.drop_first(), first_listings, second, second_listings);
            assert(expansion(both, first_listings + second_listings) == expansion(
                first,
                first_listings,
            ) + expansion(second, second_listings));
        }
    }
}

/// Every reference that a batch resolves to is to a track or an episode,
/// whatever the identifiers are and whatever the collections list.
pub proof fn law_expansion_names_tracks(ids: Seq<String>, listings: Seq<Seq<ResourceUri>>)
    ensures
        forall|k: int|
            0 <= k < expansion(ids, listings).len() ==> is_playable(
                #[trigger] expansion(ids, listings)[k],
            ),
    decreases ids.len(),
{
    if ids.len() > 0 {
        let uri = identifier(ids[0]@)->0;
        let all = expansion(ids, listings);
        if is_collection(uri) {
            let rest = expansion(ids.drop_first(), listings.drop_first());
            let listed = playable(listings[0]);
            law_expansion_names_tracks(ids.drop_first(), listings.drop_first());
            assert forall|k: int| 0 <= k < all.len() implies is_playable(#[trigger] all[k]) by {
                if k < listed.len() {
                    listings[0].lemma_filter_pred(|uri: ResourceUri| is_playable(uri), k);
                    assert(all[k] == listed[k]);
                } else {
                    assert(all[k] == rest[k - listed.len()]);
                }
            }
        } else if is_playable(uri) {
            law_expansion_names_tracks(ids.drop_first(), listings);
            assert forall|k: int| 0 <= k < all.len() implies is_playable(#[trigger] all[k]) by {
                if k > 0 {
                    assert(all[k] == expansion(ids.drop_first(), listings)[k - 1]);
                }
            }
        } else {
            law_expansion_names_tracks(ids.drop_first(), listings);
        }
    }
}

} // verus!
