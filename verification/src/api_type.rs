//! The records that the music service sends: accounts, playlists, tracks and
//! the audio files behind tracks.
use vstd::prelude::*;

verus! {

#[derive(Debug, Clone)]
pub struct Profile {
    pub nickname: String,
    pub user_id: i64,
    pub avatar_url: String,
    pub signature: String,
    pub playlist_count: i32,
    pub followeds: i32,
    pub follows: i32,
    pub event_count: i32,
    pub playlist_be_subscribed_count: i32,
}

#[derive(Debug, Clone)]
pub struct Account {
    pub id: i64,
    pub user_name: String,
    pub salt: String,
    pub vip_type: i32,
}

#[derive(Debug, Clone)]
pub struct AccountDetail {
    pub code: i32,
    pub account: Account,
    pub profile: Profile,
    pub token: String,
    pub cookie: String,
}

#[derive(Debug, Clone)]
pub struct OtherAccount {
    pub nickname: String,
    pub user_id: i64,
    pub avatar_url: String,
    pub signature: String,
}

#[derive(Debug, Clone)]
pub struct Playlist {
    pub creator: OtherAccount,
    pub cover_img_url: String,
    pub special_type: i32,
    pub play_count: i32,
    pub track_count: i32,
    pub subscribed_count: i32,
    pub name: String,
    pub id: i64,
}

#[derive(Debug, Clone)]
pub struct UserPlaylist {
    pub version: String,
    pub more: bool,
    pub playlist: Vec<Playlist>,
    pub code: i32,
}

#[derive(Debug, Clone)]
pub struct Artist {
    pub id: i64,
    pub name: String,
}

#[derive(Debug, Clone)]
pub struct Album {
    pub id: i64,
    pub name: String,
    pub pic_url: String,
}

/// One track. Its identity is `id`; `dt` is its duration in milliseconds.
#[derive(Debug, Clone)]
pub struct Track {
    pub id: i64,
    pub name: String,
    pub ar: Vec<Artist>,
    pub al: Album,
    pub dt: i32,
}

#[derive(Debug, Clone)]
pub struct PlaylistDetail {
    pub creator: OtherAccount,
    pub cover_img_url: String,
    pub special_type: i32,
    pub play_count: i32,
    pub track_count: i32,
    pub subscribed_count: i32,
    pub name: String,
    pub id: i64,
    pub tracks: Vec<Track>,
}

#[derive(Debug, Clone)]
pub struct PlaylistDetailRep {
    pub code: i32,
    pub playlist: PlaylistDetail,
}

/// The audio file behind a track, as the service resolves it.
#[derive(Debug, Clone)]
pub struct MusicDetail {
    pub id: i64,
    pub url: String,
    pub size: i32,
    pub br: i32,
    pub md5: String,
}

#[derive(Debug, Clone)]
pub struct Musics {
    pub data: Vec<MusicDetail>,
    pub code: i32,
}

/// What an artist is, with its name as a sequence of characters.
pub struct ArtistView {
    pub id: i64,
    pub name: Seq<char>,
}

/// What an album is, with its texts as sequences of characters.
pub struct AlbumView {
    pub id: i64,
    pub name: Seq<char>,
    pub pic_url: Seq<char>,
}

/// What a track is, with its texts as sequences of characters.
pub struct TrackView {
    pub id: i64,
    pub name: Seq<char>,
    pub ar: Seq<ArtistView>,
    pub al: AlbumView,
    pub dt: i32,
}

impl View for Artist {
    type V = ArtistView;

    open spec fn view(&self) -> ArtistView {
        ArtistView { id: self.id, name: self.name@ }
    }
}

impl View for Album {
    type V = AlbumView;

    open spec fn view(&self) -> AlbumView {
        AlbumView { id: self.id, name: self.name@, pic_url: self.pic_url@ }
    }
}

impl View for Track {
    type V = TrackView;

    open spec fn view(&self) -> TrackView {
        TrackView {
            id: self.id,
            name: self.name@,
            ar: self.ar@.map_values(|a: Artist| a@),
            al: self.al@,
            dt: self.dt,
        }
    }
}

/// The tracks of a list, each by its view.
pub open spec fn tracks_view(tracks: Seq<Track>) -> Seq<TrackView> {
    tracks.map_values(|t: Track| t@)
}

impl Track {
    /// A copy of the track that holds the same as the track itself.
    pub fn duplicate(&self) -> (copy: Track)
        ensures
            copy@ == self@,
    {
        let mut ar: Vec<Artist> = Vec::new();
        let mut i: usize = 0;
        while i < self.ar.len()
            invariant
                i <= self.ar.len(),
                ar@.map_values(|a: Artist| a@) == self.ar@.take(i as int).map_values(
                    |a: Artist| a@,
                ),
            decreases self.ar.len() - i,
        {
            let ghost before = ar@.map_values(|a: Artist| a@);
            let artist = Artist { id: self.ar[i].id, name: self.ar[i].name.clone() };
            ar.push(artist);
            i += 1;
            proof {
                assert(ar@.map_values(|a: Artist| a@) =~= before.push(artist@));
                assert(self.ar@.take(i as int).map_values(|a: Artist| a@) =~= before.push(
                    self.ar@[i - 1]@,
                ));
            }
        }
        proof {
            assert(self.ar@.take(self.ar.len() as int) =~= self.ar@);
        }
        Track {
            id: self.id,
            name: self.name.clone(),
            ar,
            al: Album {
                id: self.al.id,
                name: self.al.name.clone(),
                pic_url: self.al.pic_url.clone(),
            },
            dt: self.dt,
        }
    }
}

/// A copy of a list of tracks that holds the same tracks in the same order.
pub fn duplicate_tracks(tracks: &Vec<Track>) -> (copy: Vec<Track>)
    ensures
        tracks_view(copy@) == tracks_view(tracks@),
{
    let mut copy: Vec<Track> = Vec::new();
    let mut i: usize = 0;
    while i < tracks.len()
        invariant
            i <= tracks.len(),
            tracks_view(copy@) == tracks_view(tracks@.take(i as int)),
        decreases tracks.len() - i,
    {
        let ghost before = tracks_view(copy@);
        let t = tracks[i].duplicate();
        copy.push(t);
        i += 1;
        proof {
            assert(tracks_view(copy@) =~= before.push(t@));
            assert(tracks_view(tracks@.take(i as int)) =~= before.push(tracks@[i - 1]@));
        }
    }
    proof {
        assert(tracks@.take(tracks.len() as int) =~= tracks@);
    }
    copy
}

} // verus!
