//! The player engine as a state machine over plain values.
//!
//! [`Player`] is the engine's whole state; each intent and each answer of the
//! host is a function from a state to a [`Step`]: the next state and the
//! outside work, an [`EffectView`], that the step asks of the host. The
//! engine never waits: a step that needs the service, the disk or the sound
//! card names the work, and the outcome comes back as an answer.
use vstd::prelude::*;
use crate::api_type::{AccountDetail, MusicDetail, Playlist, Track, TrackView, tracks_view};
use crate::input::{InputView, Key};
use crate::lyric_parser::lyric_rows;

verus! {

/// Which list the arrow keys move in.
#[derive(Debug, Clone, Copy, PartialEq, Eq, Structural)]
pub enum Focus {
    Playlist,
    Track,
}

/// The page that is shown.
#[derive(Debug, Clone, Copy, PartialEq, Eq, Structural)]
pub enum Route {
    Login,
    Loading,
    Home,
    Search,
    MusicAnalysis,
}

/// How the last piece of outside work ended.
#[derive(Debug, Clone, Copy, PartialEq, Eq, Structural)]
pub enum Status {
    Ready,
    AuthError,
    NetworkError,
    UnavailableTrack,
}

impl Status {
    /// The line that tells the user how the last piece of outside work
    /// ended; it is empty when all went well.
    pub open spec fn text(self) -> Seq<char> {
        match self {
            Status::Ready => ""@,
            Status::AuthError => "login failed"@,
            Status::NetworkError => "the service did not answer"@,
            Status::UnavailableTrack => "this track is not available"@,
        }
    }

    /// The status as a line for the screen.
    pub fn message(self) -> (line: &'static str)
        ensures
            line@ == self.text(),
    {
        match self {
            Status::Ready => "",
            Status::AuthError => "login failed",
            Status::NetworkError => "the service did not answer",
            Status::UnavailableTrack => "this track is not available",
        }
    }
}

/// The answer that the start-up sequence waits for.
#[derive(Debug, Clone, Copy, PartialEq, Eq, Structural)]
pub enum Boot {
    Idle,
    Account,
    Likes,
    Playlists,
    Detail,
}

/// The answer that a playback start waits for.
#[derive(Debug, Clone, Copy, PartialEq, Eq, Structural)]
pub enum Stage {
    Resolve,
    Download,
    Lyric,
}

/// Play state, position in milliseconds, and volume in hundredths of full
/// volume.
#[derive(Debug, Clone, Copy, PartialEq, Eq, Structural)]
pub struct PlayerController {
    pub is_pause: bool,
    pub seek: i32,
    pub volume: u8,
}

/// A list with a cursor. The cursor stands on an item, or at 0 in an empty
/// list.
#[derive(Debug, Clone)]
pub struct StatefulList<T> {
    pub items: Vec<T>,
    pub selected: usize,
}

/// The cursor after one step down in a list of `len` items: it stops at the
/// last item.
pub open spec fn cursor_down(selected: usize, len: nat) -> usize {
    if selected + 1 < len {
        (selected + 1) as usize
    } else {
        selected
    }
}

/// The cursor after one step up: it stops at the first item.
pub open spec fn cursor_up(selected: usize) -> usize {
    if selected > 0 {
        (selected - 1) as usize
    } else {
        selected
    }
}

/// Whether a cursor stands inside a list of `len` items.
pub open spec fn cursor_ok(selected: usize, len: nat) -> bool {
    selected == 0 || selected < len
}

impl<T> StatefulList<T> {
    pub fn with_items(items: Vec<T>) -> (list: Self)
        ensures
            list.items == items,
            list.selected == 0,
    {
        StatefulList { items, selected: 0 }
    }

    pub fn next(&mut self)
        ensures
            final(self).items == old(self).items,
            final(self).selected == cursor_down(old(self).selected, old(self).items@.len()),
    {
        if self.selected < self.items.len() && self.selected + 1 < self.items.len() {
            self.selected = self.selected + 1;
        }
    }

    pub fn previous(&mut self)
        ensures
            final(self).items == old(self).items,
            final(self).selected == cursor_up(old(self).selected),
    {
        if self.selected > 0 {
            self.selected = self.selected - 1;
        }
    }
}

/// The list that a playback start brings with it as the new queue.
#[derive(Debug)]
pub struct Adoption {
    pub queue: Vec<Track>,
    pub index: usize,
    pub playlist: usize,
}

/// A playback start that is under way.
#[derive(Debug)]
pub struct Starting {
    pub stage: Stage,
    pub id: i64,
    pub name: String,
    pub path: String,
    pub adopt: Option<Adoption>,
}

/// A queue to adopt, as plain values.
pub struct AdoptionView {
    pub queue: Seq<TrackView>,
    pub index: usize,
    pub playlist: usize,
}

/// A playback start under way, as plain values.
pub struct StartingView {
    pub stage: Stage,
    pub id: i64,
    pub name: Seq<char>,
    pub path: Seq<char>,
    pub adopt: Option<AdoptionView>,
}

impl View for Adoption {
    type V = AdoptionView;

    open spec fn view(&self) -> AdoptionView {
        AdoptionView { queue: tracks_view(self.queue@), index: self.index, playlist: self.playlist }
    }
}

impl View for Starting {
    type V = StartingView;

    open spec fn view(&self) -> StartingView {
        StartingView {
            stage: self.stage,
            id: self.id,
            name: self.name@,
            path: self.path@,
            adopt: match self.adopt {
                Some(a) => Some(a@),
                None => None,
            },
        }
    }
}

/// Outside work that the host does for the engine.
#[derive(Debug)]
pub enum Effect {
    /// Nothing to do.
    Nothing,
    /// Pause the sink.
    Pause,
    /// Let the sink play on.
    Resume,
    /// Set the sink's volume, in hundredths.
    Volume(u8),
    /// Log in; the outcome goes to `on_login`.
    Login { phone: String, password: String },
    /// Fetch the ids of the liked tracks; the outcome goes to `on_like_list`.
    LikeList { user: i64 },
    /// Fetch the user's playlists; the outcome goes to `on_playlists`.
    Playlists { user: i64 },
    /// Fetch the tracks of a playlist; the outcome goes to `on_playlist_detail`.
    PlaylistDetail { playlist: i64 },
    /// Resolve a track to its audio file; the outcome goes to `on_music_detail`.
    MusicDetail { track: i64 },
    /// Bring the file behind `url` to the audio folder under `file_name`,
    /// unless it is there already; the outcome goes to `on_download`.
    Download { url: String, file_name: String },
    /// Fetch the lyric text of a track; the outcome goes to `on_lyric`.
    Lyric { track: i64 },
    /// Replace what the sink plays by the file at `path`, at `volume`
    /// hundredths.
    Play { path: String, volume: u8 },
}

/// An effect as plain values.
pub enum EffectView {
    Nothing,
    Pause,
    Resume,
    Volume(u8),
    Login { phone: Seq<char>, password: Seq<char> },
    LikeList { user: i64 },
    Playlists { user: i64 },
    PlaylistDetail { playlist: i64 },
    MusicDetail { track: i64 },
    Download { url: Seq<char>, file_name: Seq<char> },
    Lyric { track: i64 },
    Play { path: Seq<char>, volume: u8 },
}

impl View for Effect {
    type V = EffectView;

    open spec fn view(&self) -> EffectView {
        match *self {
            Effect::Nothing => EffectView::Nothing,
            Effect::Pause => EffectView::Pause,
            Effect::Resume => EffectView::Resume,
            Effect::Volume(v) => EffectView::Volume(v),
            Effect::Login { phone, password } => EffectView::Login {
                phone: phone@,
                password: password@,
            },
            Effect::LikeList { user } => EffectView::LikeList { user },
            Effect::Playlists { user } => EffectView::Playlists { user },
            Effect::PlaylistDetail { playlist } => EffectView::PlaylistDetail { playlist },
            Effect::MusicDetail { track } => EffectView::MusicDetail { track },
            Effect::Download { url, file_name } => EffectView::Download {
                url: url@,
                file_name: file_name@,
            },
            Effect::Lyric { track } => EffectView::Lyric { track },
            Effect::Play { path, volume } => EffectView::Play { path: path@, volume },
        }
    }
}

/// The engine's state as plain values.
pub struct Player {
    pub route: Route,
    pub focus: Focus,
    pub inputs: Seq<InputView>,
    pub system_tick: u64,
    pub tick_rate: u64,
    pub title: Seq<char>,
    pub should_quit: bool,
    pub userinfo: Option<AccountDetail>,
    pub playlists: Seq<Playlist>,
    pub playlist_cursor: usize,
    pub playing_playlist: usize,
    pub tracks: Seq<TrackView>,
    pub track_cursor: usize,
    pub likes: Seq<i64>,
    pub queue: Seq<TrackView>,
    pub current_index: usize,
    pub is_pause: bool,
    pub seek: i32,
    pub volume: u8,
    pub show_lyric: bool,
    pub lyric: Seq<(int, Seq<char>)>,
    pub status: Status,
    pub boot: Boot,
    pub starting: Option<StartingView>,
}

/// A state and the work that the step into it asks of the host.
pub struct Step {
    pub next: Player,
    pub effect: EffectView,
}

/// The ids of `likes` without `id`, in their order.
pub open spec fn without(likes: Seq<i64>, id: i64) -> Seq<i64>
    decreases likes.len(),
{
    if likes.len() == 0 {
        likes
    } else if likes.last() == id {
        without(likes.drop_last(), id)
    } else {
        without(likes.drop_last(), id).push(likes.last())
    }
}

/// The index of the first field that has the focus, or of the last field
/// where none has it.
pub open spec fn focused_input(inputs: Seq<InputView>, from: int) -> int
    decreases inputs.len() - from,
{
    if from < 0 || from >= inputs.len() {
        inputs.len() - 1
    } else if inputs[from].focus {
        from
    } else {
        focused_input(inputs, from + 1)
    }
}

/// The file extension that a URL ends in: what follows its last dot, or
/// `mp3` where it holds no dot.
pub open spec fn extension_of(url: Seq<char>) -> Seq<char> {
    if exists|i: int| 0 <= i < url.len() && url[i] == '.' {
        let dot = choose|i: int|
            0 <= i < url.len() && url[i] == '.' && forall|j: int|
                i < j < url.len() ==> url[j] != '.';
        url.subrange(dot + 1, url.len() as int)
    } else {
        "mp3"@
    }
}

/// The name under which a track's file is kept: the track's name, a dot, and
/// the extension of the URL, both made fit for a file name.
pub open spec fn file_name_of(name: Seq<char>, url: Seq<char>) -> Seq<char> {
    plain(name) + seq!['.'] + plain(extension_of(url))
}

/// Whether a character parts the names of a path.
pub open spec fn is_separator(c: char) -> bool {
    c == '/' || c == '\\'
}

/// A text made fit for a file name: an underscore stands in for each
/// character that would part a path.
pub open spec fn plain(text: Seq<char>) -> Seq<char> {
    text.map_values(|c: char| if is_separator(c) { '_' } else { c })
}

/// A file name that the engine makes holds no character that parts a path,
/// so it names a file inside the folder that it is meant for.
pub proof fn lemma_file_name_is_plain(name: Seq<char>, url: Seq<char>)
    ensures
        forall|i: int|
            0 <= i < file_name_of(name, url).len() ==> !is_separator(
                #[trigger] file_name_of(name, url)[i],
            ),
{
}

/// The URL of the first audio file of an answer, if the answer came, holds a
/// file and that file has a URL.
pub open spec fn first_url(details: Option<Vec<MusicDetail>>) -> Option<Seq<char>> {
    match details {
        Some(v) => if v@.len() > 0 && v@[0].url@.len() > 0 {
            Some(v@[0].url@)
        } else {
            None
        },
        None => None,
    }
}

impl Player {
    /// What holds of every state that the engine reaches: the volume is at
    /// most 100 hundredths, the position is not negative, each cursor and the
    /// queue's index stand inside their lists, and no list is longer than
    /// the machine can count.
    pub open spec fn wf(self) -> bool {
        &&& self.volume <= 100
        &&& self.seek >= 0
        &&& cursor_ok(self.playlist_cursor, self.playlists.len())
        &&& cursor_ok(self.track_cursor, self.tracks.len())
        &&& self.playlists.len() <= usize::MAX
        &&& self.tracks.len() <= usize::MAX
        &&& self.queue.len() <= usize::MAX
        &&& self.queue.len() > 0 ==> self.current_index < self.queue.len()
        &&& match self.starting {
            Some(s) => match s.adopt {
                Some(a) => a.index < a.queue.len() <= usize::MAX,
                None => true,
            },
            None => true,
        }
    }

    /// A step that changes the state and asks for no outside work.
    pub open spec fn quiet(self) -> Step {
        Step { next: self, effect: EffectView::Nothing }
    }

    /// The id of the account that is logged in, or 1 before a login.
    pub open spec fn user_id(self) -> i64 {
        match self.userinfo {
            Some(a) => a.account.id,
            None => 1,
        }
    }

    /// The cursor of the focused list moves up by one and stops at the top.
    pub open spec fn navigate_up(self) -> Player {
        match self.focus {
            Focus::Playlist => Player { playlist_cursor: cursor_up(self.playlist_cursor), ..self },
            Focus::Track => Player { track_cursor: cursor_up(self.track_cursor), ..self },
        }
    }

    /// The cursor of the focused list moves down by one and stops at the
    /// bottom.
    pub open spec fn navigate_down(self) -> Player {
        match self.focus {
            Focus::Playlist => Player {
                playlist_cursor: cursor_down(self.playlist_cursor, self.playlists.len()),
                ..self
            },
            Focus::Track => Player {
                track_cursor: cursor_down(self.track_cursor, self.tracks.len()),
                ..self
            },
        }
    }

    /// The focus goes to the other list.
    pub open spec fn toggle_focus(self) -> Player {
        Player {
            focus: match self.focus {
                Focus::Playlist => Focus::Track,
                Focus::Track => Focus::Playlist,
            },
            ..self
        }
    }

    /// Pause flips, and the sink is told.
    pub open spec fn toggle_pause(self) -> Step {
        Step {
            next: Player { is_pause: !self.is_pause, ..self },
            effect: if self.is_pause {
                EffectView::Resume
            } else {
                EffectView::Pause
            },
        }
    }

    /// One hundredth louder, and the sink is told; at full volume nothing
    /// happens.
    pub open spec fn volume_up(self) -> Step {
        if self.volume < 100 {
            let v = (self.volume + 1) as u8;
            Step { next: Player { volume: v, ..self }, effect: EffectView::Volume(v) }
        } else {
            self.quiet()
        }
    }

    /// One hundredth quieter, and the sink is told; at volume 0 nothing
    /// happens.
    pub open spec fn volume_down(self) -> Step {
        if self.volume > 0 {
            let v = (self.volume - 1) as u8;
            Step { next: Player { volume: v, ..self }, effect: EffectView::Volume(v) }
        } else {
            self.quiet()
        }
    }

    /// The lyric line is shown or hidden.
    pub open spec fn toggle_lyric(self) -> Player {
        Player { show_lyric: !self.show_lyric, ..self }
    }

    /// The host is asked to stop.
    pub open spec fn quit(self) -> Player {
        Player { should_quit: true, ..self }
    }

    /// The track that is playing is liked if it was not, and no longer liked
    /// if it was. Without a queue nothing happens.
    pub open spec fn toggle_like(self) -> Player {
        if self.queue.len() > 0 && self.current_index < self.queue.len() {
            let id = self.queue[self.current_index as int].id;
            Player {
                likes: if self.likes.contains(id) {
                    without(self.likes, id)
                } else {
                    self.likes.push(id)
                },
                ..self
            }
        } else {
            self
        }
    }

    /// Every field of the form handles the key.
    pub open spec fn edit(self, key: Key) -> Player {
        Player { inputs: self.inputs.map_values(|i: InputView| i.on_key(key)), ..self }
    }

    /// The focus of the form goes from the first field that has it, or from
    /// the last field where none has it, to the field behind, and from the
    /// last field to the first.
    pub open spec fn focus_next_input(self) -> Player {
        if self.inputs.len() > 0 {
            let index = focused_input(self.inputs, 0);
            let next = (index + 1) % (self.inputs.len() as int);
            let cleared = self.inputs.update(index, InputView { focus: false, ..self.inputs[index] });
            Player {
                inputs: cleared.update(next, InputView { focus: true, ..cleared[next] }),
                ..self
            }
        } else {
            self
        }
    }

    /// A playback start begins: the engine notes the track, and the queue
    /// that comes with it, and asks for the track's audio file.
    pub open spec fn begin(self, track: TrackView, adopt: Option<AdoptionView>) -> Step {
        Step {
            next: Player {
                starting: Some(
                    StartingView {
                        stage: Stage::Resolve,
                        id: track.id,
                        name: track.name,
                        path: Seq::empty(),
                        adopt,
                    },
                ),
                ..self
            },
            effect: EffectView::MusicDetail { track: track.id },
        }
    }

    /// The queue moves on by one track, from the last to the first, and that
    /// track is started. Without a queue nothing happens.
    pub open spec fn next_track(self) -> Step {
        if self.queue.len() > 0 {
            let index = ((self.current_index + 1) % (self.queue.len() as int)) as usize;
            (Player { current_index: index, ..self }).begin(self.queue[index as int], None)
        } else {
            self.quiet()
        }
    }

    /// The queue moves back by one track, from the first to the last, and
    /// that track is started. Without a queue nothing happens.
    pub open spec fn previous_track(self) -> Step {
        if self.queue.len() > 0 {
            let index = ((self.current_index + self.queue.len() - 1) % (self.queue.len() as int)) as usize;
            (Player { current_index: index, ..self }).begin(self.queue[index as int], None)
        } else {
            self.quiet()
        }
    }

    /// Enter on the home page. On the playlists: the focus goes to the
    /// tracks and the tracks of the playlist under the cursor are asked for.
    /// On the tracks: the track under the cursor is started, and the list it
    /// stands in becomes the queue once it plays. On another page, or in an
    /// empty list, nothing happens.
    pub open spec fn activate(self) -> Step {
        if self.route != Route::Home {
            self.quiet()
        } else {
            match self.focus {
                Focus::Playlist => if self.playlist_cursor < self.playlists.len() {
                    Step {
                        next: self.toggle_focus(),
                        effect: EffectView::PlaylistDetail {
                            playlist: self.playlists[self.playlist_cursor as int].id,
                        },
                    }
                } else {
                    self.quiet()
                },
                Focus::Track => if self.track_cursor < self.tracks.len() {
                    self.begin(
                        self.tracks[self.track_cursor as int],
                        Some(
                            AdoptionView {
                                queue: self.tracks,
                                index: self.track_cursor,
                                playlist: self.playlist_cursor,
                            },
                        ),
                    )
                } else {
                    self.quiet()
                },
            }
        }
    }

    /// One tick. The tick counter goes up by one, as far as it can. While
    /// paused nothing else happens. When the sink has run empty the track has
    /// ended: the engine pauses and moves on to the next track. Otherwise the
    /// position moves on by the tick rate, as far as it can be counted.
    pub open spec fn tick(self, sink_empty: bool) -> Step {
        let ticked = Player {
            system_tick: if self.system_tick < u64::MAX {
                (self.system_tick + 1) as u64
            } else {
                self.system_tick
            },
            ..self
        };
        if ticked.is_pause {
            ticked.quiet()
        } else if sink_empty {
            (Player { is_pause: true, ..ticked }).next_track()
        } else {
            (Player {
                seek: if ticked.seek + ticked.tick_rate <= i32::MAX {
                    (ticked.seek + ticked.tick_rate) as i32
                } else {
                    i32::MAX
                },
                ..ticked
            }).quiet()
        }
    }
}

/// What an answer holds, where the answer is a list of ids.
pub open spec fn ids_view(ids: Option<Vec<i64>>) -> Option<Seq<i64>> {
    match ids {
        Some(v) => Some(v@),
        None => None,
    }
}

/// What an answer holds, where the answer is a list of playlists.
pub open spec fn playlists_view(list: Option<Vec<Playlist>>) -> Option<Seq<Playlist>> {
    match list {
        Some(v) => Some(v@),
        None => None,
    }
}

/// What an answer holds, where the answer is a list of tracks.
pub open spec fn detail_view(tracks: Option<Vec<Track>>) -> Option<Seq<TrackView>> {
    match tracks {
        Some(v) => Some(tracks_view(v@)),
        None => None,
    }
}

/// What an answer holds, where the answer is a text.
pub open spec fn text_view(text: Option<String>) -> Option<Seq<char>> {
    match text {
        Some(t) => Some(t@),
        None => None,
    }
}

impl Player {
    /// A start-up that failed: back to the login page, with the reason.
    pub open spec fn boot_failed(self, status: Status) -> Step {
        (Player { route: Route::Login, boot: Boot::Idle, status, ..self }).quiet()
    }

    /// The login begins: the loading page is shown and the host is asked to
    /// log in with what the first two fields of the form hold. A form with
    /// fewer fields cannot log in, and nothing happens.
    pub open spec fn login(self) -> Step {
        if self.inputs.len() >= 2 {
            Step {
                next: Player {
                    route: Route::Loading,
                    boot: Boot::Account,
                    status: Status::Ready,
                    ..self
                },
                effect: EffectView::Login {
                    phone: self.inputs[0].val,
                    password: self.inputs[1].val,
                },
            }
        } else {
            self.quiet()
        }
    }

    /// The answer to the login. With an account the start-up goes on to the
    /// liked tracks; without one it fails. An answer that the start-up does
    /// not wait for is ignored.
    pub open spec fn login_answer(self, account: Option<AccountDetail>) -> Step {
        if self.boot != Boot::Account {
            self.quiet()
        } else {
            match account {
                Some(a) => Step {
                    next: Player { userinfo: Some(a), boot: Boot::Likes, ..self },
                    effect: EffectView::LikeList { user: a.account.id },
                },
                None => self.boot_failed(Status::AuthError),
            }
        }
    }

    /// The answer with the liked tracks: the start-up goes on to the
    /// playlists, or fails.
    pub open spec fn like_list_answer(self, ids: Option<Seq<i64>>) -> Step {
        if self.boot != Boot::Likes {
            self.quiet()
        } else {
            match ids {
                Some(l) => Step {
                    next: Player { likes: l, boot: Boot::Playlists, ..self },
                    effect: EffectView::Playlists { user: self.user_id() },
                },
                None => self.boot_failed(Status::NetworkError),
            }
        }
    }

    /// The answer with the playlists: they are shown with the cursor on the
    /// first, and the start-up goes on to the tracks of the first; with no
    /// playlist at all it is done. Without an answer it fails.
    pub open spec fn playlists_answer(self, list: Option<Seq<Playlist>>) -> Step {
        if self.boot != Boot::Playlists {
            self.quiet()
        } else {
            match list {
                Some(l) => if l.len() > 0 {
                    Step {
                        next: Player {
                            playlists: l,
                            playlist_cursor: 0,
                            boot: Boot::Detail,
                            ..self
                        },
                        effect: EffectView::PlaylistDetail { playlist: l[0].id },
                    }
                } else {
                    (Player {
                        playlists: l,
                        playlist_cursor: 0,
                        boot: Boot::Idle,
                        route: Route::Home,
                        ..self
                    }).quiet()
                },
                None => self.boot_failed(Status::NetworkError),
            }
        }
    }

    /// The answer with the tracks of a playlist: they are shown with the
    /// cursor on the first. Where the start-up waited for it, the start-up is
    /// done and the home page is shown, or it fails. Otherwise a missing
    /// answer only leaves its reason.
    pub open spec fn playlist_detail_answer(self, tracks: Option<Seq<TrackView>>) -> Step {
        if self.boot == Boot::Detail {
            match tracks {
                Some(t) => (Player {
                    tracks: t,
                    track_cursor: 0,
                    boot: Boot::Idle,
                    route: Route::Home,
                    ..self
                }).quiet(),
                None => self.boot_failed(Status::NetworkError),
            }
        } else {
            match tracks {
                Some(t) => (Player {
                    tracks: t,
                    track_cursor: 0,
                    status: Status::Ready,
                    ..self
                }).quiet(),
                None => (Player { status: Status::NetworkError, ..self }).quiet(),
            }
        }
    }

    /// A playback start that failed: it is given up, with the reason, and
    /// what plays goes on.
    pub open spec fn start_failed(self) -> Step {
        (Player { starting: None, status: Status::UnavailableTrack, ..self }).quiet()
    }

    /// Whether a playback start waits for the answer of `stage`.
    pub open spec fn awaits(self, stage: Stage) -> bool {
        self.starting.is_some() && self.starting.unwrap().stage == stage
    }

    /// The answer with the audio file of the track to start: the host is
    /// asked to bring the file to the audio folder, under the track's name
    /// and the extension of the URL. Without a URL the start fails.
    pub open spec fn music_detail_answer(self, url: Option<Seq<char>>) -> Step {
        if !self.awaits(Stage::Resolve) {
            self.quiet()
        } else {
            let s = self.starting.unwrap();
            match url {
                Some(u) => Step {
                    next: Player {
                        starting: Some(StartingView { stage: Stage::Download, ..s }),
                        ..self
                    },
                    effect: EffectView::Download { url: u, file_name: file_name_of(s.name, u) },
                },
                None => self.start_failed(),
            }
        }
    }

    /// The answer with the place of the file: the lyric is asked for.
    /// Without a file the start fails.
    pub open spec fn download_answer(self, path: Option<Seq<char>>) -> Step {
        if !self.awaits(Stage::Download) {
            self.quiet()
        } else {
            let s = self.starting.unwrap();
            match path {
                Some(p) => Step {
                    next: Player {
                        starting: Some(StartingView { stage: Stage::Lyric, path: p, ..s }),
                        ..self
                    },
                    effect: EffectView::Lyric { track: s.id },
                },
                None => self.start_failed(),
            }
        }
    }

    /// The answer with the lyric text ends a playback start: the timeline is
    /// read from the text, and is empty without one; the queue that came with
    /// the start is adopted; the position is 0, the engine plays, and the
    /// sink is handed the file at the engine's volume.
    pub open spec fn lyric_answer(self, text: Option<Seq<char>>) -> Step {
        if !self.awaits(Stage::Lyric) {
            self.quiet()
        } else {
            let s = self.starting.unwrap();
            let adopted = match s.adopt {
                Some(a) => Player {
                    queue: a.queue,
                    current_index: a.index,
                    playing_playlist: a.playlist,
                    ..self
                },
                None => self,
            };
            Step {
                next: Player {
                    lyric: match text {
                        Some(t) => lyric_rows(t),
                        None => Seq::empty(),
                    },
                    is_pause: false,
                    seek: 0,
                    status: Status::Ready,
                    starting: None,
                    ..adopted
                },
                effect: EffectView::Play { path: s.path, volume: self.volume },
            }
        }
    }

    /// A key without Ctrl that is a character: `q` quits, the space bar
    /// pauses and resumes, `-` and `=` turn the volume down and up.
    pub open spec fn key(self, c: char) -> Step {
        if c == 'q' {
            self.quit().quiet()
        } else if c == ' ' {
            self.toggle_pause()
        } else if c == '-' {
            self.volume_down()
        } else if c == '=' {
            self.volume_up()
        } else {
            self.quiet()
        }
    }

    /// A key with Ctrl: the arrows skip and set the volume, `l` likes, `d`
    /// shows or hides the lyric, `i` moves the focus of the form, Enter logs
    /// in.
    pub open spec fn ctrl_key(self, code: Key) -> Step {
        match code {
            Key::Left => self.previous_track(),
            Key::Right => self.next_track(),
            Key::Up => self.volume_up(),
            Key::Down => self.volume_down(),
            Key::Char(c) => if c == 'l' {
                self.toggle_like().quiet()
            } else if c == 'd' {
                self.toggle_lyric().quiet()
            } else if c == 'i' {
                self.focus_next_input().quiet()
            } else {
                self.quiet()
            },
            Key::Enter => self.login(),
            _ => self.quiet(),
        }
    }
}

/// What the user, or the clock, asks of the engine.
#[derive(Debug, Clone, Copy, PartialEq, Eq, Structural)]
pub enum Intent {
    NavigateUp,
    NavigateDown,
    NavigateLeft,
    NavigateRight,
    Activate,
    TogglePause,
    VolumeUp,
    VolumeDown,
    NextTrack,
    PrevTrack,
    ToggleLike,
    ToggleLyric,
    FocusNextInput,
    Login,
    Quit,
    /// One tick of the clock, with what the sink says of itself.
    Tick { sink_empty: bool },
}

impl Player {
    /// The step that an intent makes.
    pub open spec fn step(self, intent: Intent) -> Step {
        match intent {
            Intent::NavigateUp => self.navigate_up().quiet(),
            Intent::NavigateDown => self.navigate_down().quiet(),
            Intent::NavigateLeft => self.toggle_focus().quiet(),
            Intent::NavigateRight => self.toggle_focus().quiet(),
            Intent::Activate => self.activate(),
            Intent::TogglePause => self.toggle_pause(),
            Intent::VolumeUp => self.volume_up(),
            Intent::VolumeDown => self.volume_down(),
            Intent::NextTrack => self.next_track(),
            Intent::PrevTrack => self.previous_track(),
            Intent::ToggleLike => self.toggle_like().quiet(),
            Intent::ToggleLyric => self.toggle_lyric().quiet(),
            Intent::FocusNextInput => self.focus_next_input().quiet(),
            Intent::Login => self.login(),
            Intent::Quit => self.quit().quiet(),
            Intent::Tick { sink_empty } => self.tick(sink_empty),
        }
    }
}

/// The intent that a key stands for, with or without Ctrl, if any. Keys
/// that write into the form stand for none.
pub open spec fn intent_of(key: Key, ctrl: bool) -> Option<Intent> {
    if ctrl {
        match key {
            Key::Left => Some(Intent::PrevTrack),
            Key::Right => Some(Intent::NextTrack),
            Key::Up => Some(Intent::VolumeUp),
            Key::Down => Some(Intent::VolumeDown),
            Key::Char(c) => if c == 'l' {
                Some(Intent::ToggleLike)
            } else if c == 'd' {
                Some(Intent::ToggleLyric)
            } else if c == 'i' {
                Some(Intent::FocusNextInput)
            } else {
                None
            },
            Key::Enter => Some(Intent::Login),
            _ => None,
        }
    } else {
        match key {
            Key::Char(c) => if c == 'q' {
                Some(Intent::Quit)
            } else if c == ' ' {
                Some(Intent::TogglePause)
            } else if c == '-' {
                Some(Intent::VolumeDown)
            } else if c == '=' {
                Some(Intent::VolumeUp)
            } else {
                None
            },
            Key::Left => Some(Intent::NavigateLeft),
            Key::Right => Some(Intent::NavigateRight),
            Key::Up => Some(Intent::NavigateUp),
            Key::Down => Some(Intent::NavigateDown),
            Key::Enter => Some(Intent::Activate),
            _ => None,
        }
    }
}

impl Player {
    /// Whether the keys go into the form: the login page is shown and one of
    /// its fields has the focus.
    pub open spec fn editing(self) -> bool {
        self.route == Route::Login && exists|i: int|
            0 <= i < self.inputs.len() && (#[trigger] self.inputs[i]).focus
    }

    /// The step that a key makes, pressed with or without Ctrl. While the
    /// form is edited a key without Ctrl goes into the form; any other key
    /// makes the step of the intent that it stands for, if it stands for
    /// one.
    pub open spec fn press(self, key: Key, ctrl: bool) -> Step {
        if !ctrl && self.editing() {
            self.edit(key).quiet()
        } else {
            match intent_of(key, ctrl) {
                Some(intent) => self.step(intent),
                None => self.quiet(),
            }
        }
    }
}

/// The intent that a key stands for.
pub fn intent_of_key(key: Key, ctrl: bool) -> (intent: Option<Intent>)
    ensures
        intent == intent_of(key, ctrl),
{
    if ctrl {
        match key {
            Key::Left => Some(Intent::PrevTrack),
            Key::Right => Some(Intent::NextTrack),
            Key::Up => Some(Intent::VolumeUp),
            Key::Down => Some(Intent::VolumeDown),
            Key::Char(c) => if c == 'l' {
                Some(Intent::ToggleLike)
            } else if c == 'd' {
                Some(Intent::ToggleLyric)
            } else if c == 'i' {
                Some(Intent::FocusNextInput)
            } else {
                None
            },
            Key::Enter => Some(Intent::Login),
            _ => None,
        }
    } else {
        match key {
            Key::Char(c) => if c == 'q' {
                Some(Intent::Quit)
            } else if c == ' ' {
                Some(Intent::TogglePause)
            } else if c == '-' {
                Some(Intent::VolumeDown)
            } else if c == '=' {
                Some(Intent::VolumeUp)
            } else {
                None
            },
            Key::Left => Some(Intent::NavigateLeft),
            Key::Right => Some(Intent::NavigateRight),
            Key::Up => Some(Intent::NavigateUp),
            Key::Down => Some(Intent::NavigateDown),
            Key::Enter => Some(Intent::Activate),
            _ => None,
        }
    }
}

/// One step forward and one step back on a ring of `n` places stay on the
/// ring, and are the neighbours of `i`.
pub proof fn lemma_ring(i: int, n: int)
    requires
        0 <= i < n,
    ensures
        (i + 1) % n == (if i + 1 == n { 0 } else { i + 1 }),
        (i + n - 1) % n == (if i == 0 { n - 1 } else { i - 1 }),
{
    if i + 1 == n {
        assert((i + 1) % n == 0) by (nonlinear_arith)
            requires
                i + 1 == n,
                n > 0,
        ;
    } else {
        assert((i + 1) % n == i + 1) by (nonlinear_arith)
            requires
                0 <= i + 1 < n,
        ;
    }
    if i == 0 {
        assert((i + n - 1) % n == n - 1) by (nonlinear_arith)
            requires
                i == 0,
                n > 0,
        ;
    } else {
        assert((i + n - 1) % n == i - 1) by (nonlinear_arith)
            requires
                0 < i < n,
        ;
    }
}

/// Skipping keeps a reachable state reachable.
pub proof fn lemma_skip_keeps_wf(p: Player)
    requires
        p.wf(),
    ensures
        p.next_track().next.wf(),
        p.previous_track().next.wf(),
{
    if p.queue.len() > 0 {
        lemma_ring(p.current_index as int, p.queue.len() as int);
    }
}

/// Every step of an intent leads from a reachable state to a reachable
/// state.
pub proof fn lemma_step_keeps_wf(p: Player, intent: Intent)
    requires
        p.wf(),
    ensures
        p.step(intent).next.wf(),
{
    match intent {
        Intent::NextTrack => {
            lemma_skip_keeps_wf(p);
        },
        Intent::PrevTrack => {
            lemma_skip_keeps_wf(p);
        },
        Intent::Tick { sink_empty } => {
            let ticked = Player {
                system_tick: if p.system_tick < u64::MAX {
                    (p.system_tick + 1) as u64
                } else {
                    p.system_tick
                },
                ..p
            };
            lemma_skip_keeps_wf(Player { is_pause: true, ..ticked });
        },
        _ => {},
    }
}

/// Anything that makes the engine step: an intent, a key written into the
/// form, or the outcome of outside work.
pub enum Event {
    Intent(Intent),
    Edit(Key),
    Login(Option<AccountDetail>),
    LikeList(Option<Seq<i64>>),
    Playlists(Option<Seq<Playlist>>),
    PlaylistDetail(Option<Seq<TrackView>>),
    MusicDetail(Option<Seq<char>>),
    Download(Option<Seq<char>>),
    Lyric(Option<Seq<char>>),
}

impl Event {
    /// Whether the lists that the event brings are of a length that the
    /// machine can count, as every list that the host hands over is.
    pub open spec fn fits(self) -> bool {
        match self {
            Event::Playlists(Some(l)) => l.len() <= usize::MAX,
            Event::PlaylistDetail(Some(t)) => t.len() <= usize::MAX,
            _ => true,
        }
    }
}

impl Player {
    /// The step that an event makes.
    pub open spec fn react(self, event: Event) -> Step {
        match event {
            Event::Intent(i) => self.step(i),
            Event::Edit(k) => self.edit(k).quiet(),
            Event::Login(a) => self.login_answer(a),
            Event::LikeList(l) => self.like_list_answer(l),
            Event::Playlists(l) => self.playlists_answer(l),
            Event::PlaylistDetail(t) => self.playlist_detail_answer(t),
            Event::MusicDetail(u) => self.music_detail_answer(u),
            Event::Download(p) => self.download_answer(p),
            Event::Lyric(t) => self.lyric_answer(t),
        }
    }

    /// The state after a sequence of events, first to last.
    pub open spec fn run(self, events: Seq<Event>) -> Player
        decreases events.len(),
    {
        if events.len() == 0 {
            self
        } else {
            self.run(events.drop_last()).react(events.last()).next
        }
    }

    /// The state after `n` steps to the next track.
    pub open spec fn forward(self, n: nat) -> Player
        decreases n,
    {
        if n == 0 {
            self
        } else {
            self.forward((n - 1) as nat).next_track().next
        }
    }
}

/// The answers of the start-up lead from a reachable state to a reachable
/// state.
pub proof fn lemma_boot_keeps_wf(
    p: Player,
    account: Option<AccountDetail>,
    ids: Option<Seq<i64>>,
    list: Option<Seq<Playlist>>,
    tracks: Option<Seq<TrackView>>,
)
    requires
        p.wf(),
        Event::Playlists(list).fits(),
        Event::PlaylistDetail(tracks).fits(),
    ensures
        p.login_answer(account).next.wf(),
        p.like_list_answer(ids).next.wf(),
        p.playlists_answer(list).next.wf(),
        p.playlist_detail_answer(tracks).next.wf(),
{
}

/// The answers of a playback start lead from a reachable state to a
/// reachable state.
pub proof fn lemma_start_keeps_wf(p: Player, answer: Option<Seq<char>>)
    requires
        p.wf(),
    ensures
        p.music_detail_answer(answer).next.wf(),
        p.download_answer(answer).next.wf(),
        p.lyric_answer(answer).next.wf(),
{
}

/// Every step of an event leads from a reachable state to a reachable
/// state.
pub proof fn lemma_react_keeps_wf(p: Player, event: Event)
    requires
        p.wf(),
        event.fits(),
    ensures
        p.react(event).next.wf(),
{
    match event {
        Event::Intent(i) => {
            lemma_step_keeps_wf(p, i);
        },
        Event::Edit(k) => {},
        Event::Login(a) => {
            lemma_boot_keeps_wf(p, a, None, None, None);
        },
        Event::LikeList(l) => {
            lemma_boot_keeps_wf(p, None, l, None, None);
        },
        Event::Playlists(l) => {
            lemma_boot_keeps_wf(p, None, None, l, None);
        },
        Event::PlaylistDetail(t) => {
            lemma_boot_keeps_wf(p, None, None, None, t);
        },
        Event::MusicDetail(u) => {
            lemma_start_keeps_wf(p, u);
        },
        Event::Download(d) => {
            lemma_start_keeps_wf(p, d);
        },
        Event::Lyric(t) => {
            lemma_start_keeps_wf(p, t);
        },
    }
}

/// Whatever happens, in whatever order, the state stays a reachable one: the
/// volume stays between 0 and 100 hundredths, the position is never
/// negative, and each cursor and the queue's index stay inside their lists.
pub proof fn lemma_run_keeps_wf(p: Player, events: Seq<Event>)
    requires
        p.wf(),
        forall|i: int| 0 <= i < events.len() ==> (#[trigger] events[i]).fits(),
    ensures
        p.run(events).wf(),
        0 <= p.run(events).volume <= 100,
        p.run(events).seek >= 0,
    decreases events.len(),
{
    if events.len() > 0 {
        lemma_run_keeps_wf(p, events.drop_last());
        lemma_react_keeps_wf(p.run(events.drop_last()), events.last());
    }
}

/// Turning the volume up at full volume changes nothing and asks nothing of
/// the sink, and so does turning it down at volume 0. Elsewhere a step moves
/// the volume by exactly one hundredth.
pub proof fn lemma_volume_steps(p: Player)
    requires
        p.wf(),
    ensures
        p.volume == 100 ==> p.step(Intent::VolumeUp) == p.quiet(),
        p.volume == 0 ==> p.step(Intent::VolumeDown) == p.quiet(),
        p.volume < 100 ==> p.step(Intent::VolumeUp).next.volume == p.volume + 1,
        p.volume > 0 ==> p.step(Intent::VolumeDown).next.volume == p.volume - 1,
{
}

/// After a pause toggle the engine is paused exactly if it was not before,
/// and two toggles in a row give the state back.
pub proof fn lemma_toggle_pause(p: Player)
    ensures
        p.step(Intent::TogglePause).next.is_pause == !p.is_pause,
        p.step(Intent::TogglePause).next.step(Intent::TogglePause).next == p,
{
}

/// A step to the next track and then one to the previous track, with the
/// queue left as it is, bring the queue's index back to where it was.
pub proof fn lemma_next_then_previous(p: Player)
    requires
        p.wf(),
    ensures
        p.step(Intent::NextTrack).next.queue == p.queue,
        p.step(Intent::NextTrack).next.step(Intent::PrevTrack).next.queue == p.queue,
        p.step(Intent::NextTrack).next.step(Intent::PrevTrack).next.current_index
            == p.current_index,
{
    if p.queue.len() > 0 {
        let n = p.queue.len() as int;
        lemma_ring(p.current_index as int, n);
        lemma_ring(p.next_track().next.current_index as int, n);
    }
}

/// After `k` steps to the next track, at most as many as the queue has
/// tracks, the queue is the same and its index has moved on by `k` places
/// round the ring.
pub proof fn lemma_forward(p: Player, k: nat)
    requires
        p.wf(),
        p.queue.len() > 0,
        k <= p.queue.len(),
    ensures
        p.forward(k).wf(),
        p.forward(k).queue == p.queue,
        p.forward(k).current_index == (if p.current_index + k < p.queue.len() {
            p.current_index + k
        } else {
            p.current_index + k - p.queue.len()
        }),
    decreases k,
{
    if k > 0 {
        let before = p.forward((k - 1) as nat);
        lemma_forward(p, (k - 1) as nat);
        lemma_ring(before.current_index as int, p.queue.len() as int);
        lemma_skip_keeps_wf(before);
    }
}

/// As many steps to the next track as the queue has tracks bring the
/// queue's index back to where it was.
pub proof fn lemma_next_is_cyclic(p: Player)
    requires
        p.wf(),
        p.queue.len() > 0,
    ensures
        p.forward(p.queue.len()).current_index == p.current_index,
        p.forward(p.queue.len()).queue == p.queue,
{
    lemma_forward(p, p.queue.len());
}

/// Left and right both move the focus to the other list and change nothing
/// else; twice gives the state back.
pub proof fn lemma_focus_toggles(p: Player)
    ensures
        p.step(Intent::NavigateLeft).next.focus != p.focus,
        p.step(Intent::NavigateRight).next.focus != p.focus,
        p.step(Intent::NavigateLeft) == p.step(Intent::NavigateRight),
        p.step(Intent::NavigateLeft).next == (Player {
            focus: p.step(Intent::NavigateLeft).next.focus,
            ..p
        }),
        p.step(Intent::NavigateLeft).next.step(Intent::NavigateRight).next == p,
{
}

/// A tick while paused leaves the position where it is; it only counts the
/// tick and asks nothing of the host.
pub proof fn lemma_tick_while_paused(p: Player, sink_empty: bool)
    requires
        p.is_pause,
    ensures
        p.step(Intent::Tick { sink_empty }).next.seek == p.seek,
        p.step(Intent::Tick { sink_empty }).next == (Player {
            system_tick: p.step(Intent::Tick { sink_empty }).next.system_tick,
            ..p
        }),
        p.step(Intent::Tick { sink_empty }).effect == EffectView::Nothing,
{
}

/// A tick never moves the position back.
pub proof fn lemma_tick_moves_on(p: Player, sink_empty: bool)
    requires
        p.wf(),
    ensures
        p.step(Intent::Tick { sink_empty }).next.seek >= p.seek,
{
}

/// A login that succeeds asks the host for exactly four things, in this
/// order: the login, the liked tracks, the playlists, and the tracks of the
/// first playlist. The loading page is shown from the first request until the
/// last answer, and the home page after it.
pub proof fn lemma_bootstrap_order(
    p: Player,
    account: AccountDetail,
    ids: Seq<i64>,
    list: Seq<Playlist>,
    tracks: Seq<TrackView>,
)
    requires
        p.inputs.len() >= 2,
        list.len() > 0,
    ensures
        ({
            let a = p.step(Intent::Login);
            let b = a.next.login_answer(Some(account));
            let c = b.next.like_list_answer(Some(ids));
            let d = c.next.playlists_answer(Some(list));
            let e = d.next.playlist_detail_answer(Some(tracks));
            &&& a.effect == (EffectView::Login { phone: p.inputs[0].val, password: p.inputs[1].val })
            &&& b.effect == (EffectView::LikeList { user: account.account.id })
            &&& c.effect == (EffectView::Playlists { user: account.account.id })
            &&& d.effect == (EffectView::PlaylistDetail { playlist: list[0].id })
            &&& e.effect == EffectView::Nothing
            &&& a.next.route == Route::Loading
            &&& b.next.route == Route::Loading
            &&& c.next.route == Route::Loading
            &&& d.next.route == Route::Loading
            &&& e.next.route == Route::Home
            &&& e.next.likes == ids
            &&& e.next.playlists == list
            &&& e.next.tracks == tracks
        }),
{
}

/// A start-up that fails at any of its four answers shows the login page
/// again, asks for nothing more, and never shows the home page on the way.
pub proof fn lemma_bootstrap_failure(p: Player)
    requires
        p.route == Route::Loading,
        p.boot != Boot::Idle,
    ensures
        p.boot == Boot::Account ==> p.login_answer(None) == p.boot_failed(Status::AuthError),
        p.boot == Boot::Likes ==> p.like_list_answer(None) == p.boot_failed(Status::NetworkError),
        p.boot == Boot::Playlists ==> p.playlists_answer(None) == p.boot_failed(
            Status::NetworkError,
        ),
        p.boot == Boot::Detail ==> p.playlist_detail_answer(None) == p.boot_failed(
            Status::NetworkError,
        ),
        forall|s: Status|
            (#[trigger] p.boot_failed(s)).next.route == Route::Login && p.boot_failed(s).effect
                == EffectView::Nothing,
{
}

} // verus!
