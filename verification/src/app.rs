//! The engine that the host drives: [`App`] holds the state and each method
//! makes one step of [`Player`], the state machine that it runs.
use vstd::prelude::*;
use vstd::string::StringExecFns;
use crate::api_type::{AccountDetail, MusicDetail, Playlist, Track, tracks_view, duplicate_tracks};
use crate::input::{Input, InputView, Key, inputs_view};
use tui::style::Style;
use crate::lyric_parser::{
    LyricRow, rows_view, parse_rows, lyric_at, none_started, is_latest_started, no_lyric,
};
use crate::text::chars_of;
pub use crate::player::{
    Focus, Route, Status, Boot, Stage, PlayerController, StatefulList, Adoption, Starting, Effect,
    EffectView, Player, Step, Intent, intent_of_key,
};
use crate::player::{
    without, focused_input, file_name_of, plain, first_url, ids_view, playlists_view, detail_view,
    text_view, StartingView, lemma_ring, lemma_step_keeps_wf, lemma_boot_keeps_wf,
    lemma_start_keeps_wf,
};

verus! {

/// The engine.
#[derive(Debug)]
pub struct App {
    pub route: Route,
    pub inputs: Vec<Input>,
    pub system_tick: u64,
    pub tick_rate: u64,
    pub title: String,
    pub should_quit: bool,
    pub userinfo: Option<AccountDetail>,
    pub playlists_state: StatefulList<Playlist>,
    pub playing_playlist_idx: usize,
    pub current_playlist_track_state: StatefulList<Track>,
    pub likelist: Vec<i64>,
    pub focus: Focus,
    pub current_track_idx: usize,
    pub current_tracks: Vec<Track>,
    pub player_controller: PlayerController,
    pub show_lrc: bool,
    pub lrc: Vec<LyricRow>,
    pub status: Status,
    pub boot: Boot,
    pub starting: Option<Starting>,
}

impl View for App {
    type V = Player;

    open spec fn view(&self) -> Player {
        Player {
            route: self.route,
            focus: self.focus,
            inputs: inputs_view(self.inputs@),
            system_tick: self.system_tick,
            tick_rate: self.tick_rate,
            title: self.title@,
            should_quit: self.should_quit,
            userinfo: self.userinfo,
            playlists: self.playlists_state.items@,
            playlist_cursor: self.playlists_state.selected,
            playing_playlist: self.playing_playlist_idx,
            tracks: tracks_view(self.current_playlist_track_state.items@),
            track_cursor: self.current_playlist_track_state.selected,
            likes: self.likelist@,
            queue: tracks_view(self.current_tracks@),
            current_index: self.current_track_idx,
            is_pause: self.player_controller.is_pause,
            seek: self.player_controller.seek,
            volume: self.player_controller.volume,
            show_lyric: self.show_lrc,
            lyric: rows_view(self.lrc@),
            status: self.status,
            boot: self.boot,
            starting: match self.starting {
                Some(s) => Some(s@),
                None => None,
            },
        }
    }
}

/// The state in which an engine starts: the login page with a form of two
/// empty fields in the given styles, nothing loaded, nothing queued, paused
/// at full volume.
pub open spec fn initial(title: Seq<char>, tick_rate: u64, first: Style, second: Style) -> Player {
    Player {
        route: Route::Login,
        focus: Focus::Playlist,
        inputs: seq![
            InputView {
                block: true,
                val: Seq::empty(),
                title: "👦用户名"@,
                style: first,
                focus: false,
                is_password: false,
                placeholder: "请输入用户名"@,
            },
            InputView {
                block: true,
                val: Seq::empty(),
                title: "🔒密码"@,
                style: second,
                focus: false,
                is_password: true,
                placeholder: "请输入密码"@,
            },
        ],
        system_tick: 0,
        tick_rate,
        title,
        should_quit: false,
        userinfo: None,
        playlists: Seq::empty(),
        playlist_cursor: 0,
        playing_playlist: 0,
        tracks: Seq::empty(),
        track_cursor: 0,
        likes: Seq::empty(),
        queue: Seq::empty(),
        current_index: 0,
        is_pause: true,
        seek: 0,
        volume: 100,
        show_lyric: true,
        lyric: Seq::empty(),
        status: Status::Ready,
        boot: Boot::Idle,
        starting: None,
    }
}

/// Appends `v[from..]` with an underscore in place of each character that
/// would part a path.
fn push_plain(s: &mut String, v: &Vec<char>, from: usize)
    requires
        from <= v.len(),
    ensures
        final(s)@ == old(s)@ + plain(v@.subrange(from as int, v.len() as int)),
{
    let ghost start = s@;
    let mut i: usize = from;
    while i < v.len()
        invariant
            from <= i <= v.len(),
            s@ == start + plain(v@.subrange(from as int, i as int)),
        decreases v.len() - i,
    {
        let c = v[i];
        if c == '/' || c == '\\' {
            s.push('_');
        } else {
            s.push(c);
        }
        i += 1;
        proof {
            assert(s@ =~= start + plain(v@.subrange(from as int, i as int)));
        }
    }
}

/// The name under which the file of a track is kept: the track's name, a
/// dot, and what follows the last dot of the URL, or `mp3` for a URL without
/// a dot. An underscore stands in for each slash and backslash, so that the
/// name stays inside the folder it is meant for.
pub fn media_file_name(track_name: &str, url: &str) -> (name: String)
    ensures
        name@ == file_name_of(track_name@, url@),
{
    let u = chars_of(url);
    let n = u.len();
    let mut i: usize = n;
    while i > 0 && u[i - 1] != '.'
        invariant
            i <= n,
            n == u.len(),
            forall|j: int| i <= j < n ==> u@[j] != '.',
        decreases i,
    {
        i -= 1;
    }
    let t = chars_of(track_name);
    let mut name = String::new();
    push_plain(&mut name, &t, 0);
    name.push('.');
    proof {
        assert(t@.subrange(0, t.len() as int) =~= track_name@);
    }
    if i > 0 {
        push_plain(&mut name, &u, i);
        proof {
            let found = i - 1;
            assert(0 <= found < url@.len() && url@[found] == '.');
            let dot = choose|k: int|
                0 <= k < url@.len() && url@[k] == '.' && forall|j: int|
                    k < j < url@.len() ==> url@[j] != '.';
            assert(dot == found);
            assert(name@ =~= file_name_of(track_name@, url@));
        }
    } else {
        name.append("mp3");
        proof {
            reveal_strlit("mp3");
            assert(plain("mp3"@) =~= "mp3"@);
            assert(name@ =~= file_name_of(track_name@, url@));
        }
    }
    name
}

impl App {
    /// An engine in its first state.
    pub fn new(title: &str, tick_rate: u64) -> (app: Self)
        ensures
            app.inputs.len() == 2,
            app@ == initial(title@, tick_rate, app.inputs[0].style, app.inputs[1].style),
            app@.wf(),
    {
        let username = Input::default().title(String::from_str("👦用户名")).placeholder(
            String::from_str("请输入用户名"),
        ).block(true);
        let password = Input::default().title(String::from_str("🔒密码")).placeholder(
            String::from_str("请输入密码"),
        ).is_password(true).block(true);
        let mut inputs: Vec<Input> = Vec::new();
        inputs.push(username);
        inputs.push(password);
        let app = App {
            route: Route::Login,
            inputs,
            system_tick: 0,
            tick_rate,
            title: String::from_str(title),
            should_quit: false,
            userinfo: None,
            playlists_state: StatefulList::with_items(Vec::new()),
            playing_playlist_idx: 0,
            current_playlist_track_state: StatefulList::with_items(Vec::new()),
            likelist: Vec::new(),
            focus: Focus::Playlist,
            current_track_idx: 0,
            current_tracks: Vec::new(),
            player_controller: PlayerController { is_pause: true, seek: 0, volume: 100 },
            show_lrc: true,
            lrc: Vec::new(),
            status: Status::Ready,
            boot: Boot::Idle,
            starting: None,
        };
        proof {
            assert(app@.inputs =~= initial(
                title@,
                tick_rate,
                app.inputs[0].style,
                app.inputs[1].style,
            ).inputs);
            assert(app@.tracks =~= Seq::empty());
            assert(app@.queue =~= Seq::empty());
            assert(app@.lyric =~= Seq::empty());
            assert(app@.playlists =~= Seq::empty());
            assert(app@.likes =~= Seq::empty());
        }
        app
    }

    /// Whether the state is one that the engine can have reached.
    pub fn valid(&self) -> (ok: bool)
        ensures
            ok == self@.wf(),
    {
        let lists = (self.playlists_state.selected == 0 || self.playlists_state.selected
            < self.playlists_state.items.len()) && (self.current_playlist_track_state.selected == 0
            || self.current_playlist_track_state.selected
            < self.current_playlist_track_state.items.len());
        let queue = self.current_tracks.len() == 0 || self.current_track_idx
            < self.current_tracks.len();
        let start = match &self.starting {
            Some(s) => match &s.adopt {
                Some(a) => a.index < a.queue.len(),
                None => true,
            },
            None => true,
        };
        proof {
            assert(self@.playlists.len() == self.playlists_state.items.len());
            assert(self@.tracks.len() == self.current_playlist_track_state.items.len());
            assert(self@.queue.len() == self.current_tracks.len());
            if self.starting.is_some() && self.starting.unwrap().adopt.is_some() {
                let a = self.starting.unwrap().adopt.unwrap();
                assert(a@.queue.len() == a.queue.len());
            }
        }
        self.player_controller.volume <= 100 && self.player_controller.seek >= 0 && lists && queue
            && start
    }

    /// Shows these playlists, with the cursor on the first.
    pub fn set_playlists(&mut self, list: Vec<Playlist>)
        ensures
            final(self)@ == (Player { playlists: list@, playlist_cursor: 0, ..old(self)@ }),
            old(self)@.wf() ==> final(self)@.wf(),
    {
        proof {
            assert(list@.len() == list.len());
        }
        self.playlists_state = StatefulList::with_items(list);
    }

    /// Shows these tracks, with the cursor on the first.
    pub fn set_current_playlist(&mut self, list: Vec<Track>)
        ensures
            final(self)@ == (Player {
                tracks: tracks_view(list@),
                track_cursor: 0,
                ..old(self)@
            }),
            old(self)@.wf() ==> final(self)@.wf(),
    {
        proof {
            assert(tracks_view(list@).len() == list.len());
        }
        self.current_playlist_track_state = StatefulList::with_items(list);
    }

    pub fn on_up(&mut self)
        ensures
            final(self)@ == old(self)@.navigate_up(),
            old(self)@.wf() ==> final(self)@.wf(),
    {
        match self.focus {
            Focus::Playlist => self.playlists_state.previous(),
            Focus::Track => self.current_playlist_track_state.previous(),
        }
    }

    pub fn on_down(&mut self)
        ensures
            final(self)@ == old(self)@.navigate_down(),
            old(self)@.wf() ==> final(self)@.wf(),
    {
        match self.focus {
            Focus::Playlist => self.playlists_state.next(),
            Focus::Track => self.current_playlist_track_state.next(),
        }
    }

    pub fn on_right(&mut self)
        ensures
            final(self)@ == old(self)@.toggle_focus(),
            old(self)@.wf() ==> final(self)@.wf(),
    {
        match self.focus {
            Focus::Playlist => self.focus = Focus::Track,
            Focus::Track => self.focus = Focus::Playlist,
        }
    }

    pub fn on_left(&mut self)
        ensures
            final(self)@ == old(self)@.toggle_focus(),
            old(self)@.wf() ==> final(self)@.wf(),
    {
        match self.focus {
            Focus::Playlist => self.focus = Focus::Track,
            Focus::Track => self.focus = Focus::Playlist,
        }
    }

    pub fn on_space(&mut self) -> (effect: Effect)
        ensures
            final(self)@ == old(self)@.toggle_pause().next,
            effect@ == old(self)@.toggle_pause().effect,
            old(self)@.wf() ==> final(self)@.wf(),
    {
        self.player_controller.is_pause = !self.player_controller.is_pause;
        if self.player_controller.is_pause {
            Effect::Pause
        } else {
            Effect::Resume
        }
    }

    pub fn volume_up(&mut self) -> (effect: Effect)
        ensures
            final(self)@ == old(self)@.volume_up().next,
            effect@ == old(self)@.volume_up().effect,
            old(self)@.wf() ==> final(self)@.wf(),
    {
        if self.player_controller.volume < 100 {
            self.player_controller.volume = self.player_controller.volume + 1;
            Effect::Volume(self.player_controller.volume)
        } else {
            Effect::Nothing
        }
    }

    pub fn volume_down(&mut self) -> (effect: Effect)
        ensures
            final(self)@ == old(self)@.volume_down().next,
            effect@ == old(self)@.volume_down().effect,
            old(self)@.wf() ==> final(self)@.wf(),
    {
        if self.player_controller.volume > 0 {
            self.player_controller.volume = self.player_controller.volume - 1;
            Effect::Volume(self.player_controller.volume)
        } else {
            Effect::Nothing
        }
    }

    pub fn show_lrc(&mut self)
        ensures
            final(self)@ == old(self)@.toggle_lyric(),
            old(self)@.wf() ==> final(self)@.wf(),
    {
        self.show_lrc = !self.show_lrc;
    }

    /// Takes a callback and keeps nothing of it: there is nothing yet that
    /// would call it.
    pub fn register<F>(&mut self, func: F) where F: FnMut()
        ensures
            final(self)@ == old(self)@,
            old(self)@.wf() ==> final(self)@.wf(),
    {
        let _ = func;
    }

    /// The help page is not there yet: nothing changes.
    pub fn show_help(&mut self)
        ensures
            final(self)@ == old(self)@,
            old(self)@.wf() ==> final(self)@.wf(),
    {
    }

    pub fn goto_page(&mut self, route: Route)
        ensures
            final(self)@ == (Player { route, ..old(self)@ }),
            old(self)@.wf() ==> final(self)@.wf(),
    {
        self.route = route;
    }

    pub fn is_liked(&self, id: &i64) -> (liked: bool)
        ensures
            liked == self@.likes.contains(*id),
    {
        let mut i: usize = 0;
        while i < self.likelist.len()
            invariant
                i <= self.likelist.len(),
                forall|j: int| 0 <= j < i ==> self.likelist@[j] != *id,
            decreases self.likelist.len() - i,
        {
            if self.likelist[i] == *id {
                return true;
            }
            i += 1;
        }
        false
    }

    /// Likes the track that is playing, or takes the like back.
    pub fn like(&mut self)
        requires
            old(self)@.wf(),
        ensures
            final(self)@ == old(self)@.toggle_like(),
            final(self)@.wf(),
    {
        proof {
            lemma_step_keeps_wf(self@, Intent::ToggleLike);
        }
        if self.current_tracks.len() > 0 {
            let id = self.current_tracks[self.current_track_idx].id;
            if self.is_liked(&id) {
                let mut kept: Vec<i64> = Vec::new();
                let mut i: usize = 0;
                while i < self.likelist.len()
                    invariant
                        i <= self.likelist.len(),
                        kept@ == without(self.likelist@.take(i as int), id),
                    decreases self.likelist.len() - i,
                {
                    if self.likelist[i] != id {
                        kept.push(self.likelist[i]);
                    }
                    i += 1;
                    proof {
                        assert(self.likelist@.take(i as int).drop_last() =~= self.likelist@.take(
                            i - 1,
                        ));
                    }
                }
                proof {
                    assert(self.likelist@.take(self.likelist.len() as int) =~= self.likelist@);
                }
                self.likelist = kept;
            } else {
                self.likelist.push(id);
            }
        }
    }

    /// The track under the cursor of the track list.
    pub fn current_track(&self) -> (track: &Track)
        requires
            self.current_playlist_track_state.selected
                < self.current_playlist_track_state.items.len(),
        ensures
            *track == self.current_playlist_track_state.items[self.current_playlist_track_state.selected as int],
    {
        &self.current_playlist_track_state.items[self.current_playlist_track_state.selected]
    }

    /// The track that the queue stands on, if there is a queue.
    pub fn current_playing_track(&self) -> (track: Option<&Track>)
        requires
            self@.wf(),
        ensures
            self.current_tracks.len() == 0 ==> track.is_none(),
            self.current_tracks.len() > 0 ==> track == Some(
                &self.current_tracks[self.current_track_idx as int],
            ),
    {
        if self.current_tracks.len() == 0 {
            None
        } else {
            Some(&self.current_tracks[self.current_track_idx])
        }
    }

    /// The playlist that the queue was taken from.
    pub fn current_playing_playlist(&self) -> (playlist: &Playlist)
        requires
            self.playing_playlist_idx < self.playlists_state.items.len(),
        ensures
            *playlist == self.playlists_state.items[self.playing_playlist_idx as int],
    {
        &self.playlists_state.items[self.playing_playlist_idx]
    }

    /// The playlist under the cursor.
    pub fn current_playlist(&self) -> (playlist: &Playlist)
        requires
            self.playlists_state.selected < self.playlists_state.items.len(),
        ensures
            *playlist == self.playlists_state.items[self.playlists_state.selected as int],
    {
        &self.playlists_state.items[self.playlists_state.selected]
    }

    /// The lyric line to show at the position of the track: the last row
    /// that has started, the first row before any has, a notice without
    /// rows.
    pub fn get_avaiable_lrc_row(&self) -> (line: &str)
        ensures
            self.lrc.len() == 0 ==> line@ == no_lyric(),
            self.lrc.len() > 0 && none_started(self.lrc@, self.player_controller.seek as int)
                ==> line@ == self.lrc[0].content@,
            forall|k: int|
                is_latest_started(self.lrc@, self.player_controller.seek as int, k) ==> line@
                    == self.lrc[k].content@,
    {
        lyric_at(&self.lrc, self.player_controller.seek)
    }
}

impl App {
    /// Notes a playback start and asks for the audio file of the track.
    fn begin(&mut self, id: i64, name: String, adopt: Option<Adoption>) -> (effect: Effect)
        ensures
            final(self)@ == (Player {
                starting: Some(
                    StartingView {
                        stage: Stage::Resolve,
                        id,
                        name: name@,
                        path: Seq::empty(),
                        adopt: match adopt {
                            Some(a) => Some(a@),
                            None => None,
                        },
                    },
                ),
                ..old(self)@
            }),
            effect@ == (EffectView::MusicDetail { track: id }),
    {
        self.starting = Some(
            Starting { stage: Stage::Resolve, id, name, path: String::new(), adopt },
        );
        Effect::MusicDetail { track: id }
    }

    /// Moves the queue on by one track and starts that track.
    pub fn next_track(&mut self) -> (effect: Effect)
        requires
            old(self)@.wf(),
        ensures
            final(self)@ == old(self)@.next_track().next,
            effect@ == old(self)@.next_track().effect,
            final(self)@.wf(),
    {
        proof {
            lemma_step_keeps_wf(self@, Intent::NextTrack);
        }
        let len = self.current_tracks.len();
        if len > 0 {
            let index = if self.current_track_idx + 1 == len {
                0
            } else {
                self.current_track_idx + 1
            };
            proof {
                lemma_ring(self.current_track_idx as int, len as int);
            }
            self.current_track_idx = index;
            let id = self.current_tracks[index].id;
            let name = self.current_tracks[index].name.clone();
            self.begin(id, name, None)
        } else {
            Effect::Nothing
        }
    }

    /// Moves the queue back by one track and starts that track.
    pub fn previous_track(&mut self) -> (effect: Effect)
        requires
            old(self)@.wf(),
        ensures
            final(self)@ == old(self)@.previous_track().next,
            effect@ == old(self)@.previous_track().effect,
            final(self)@.wf(),
    {
        proof {
            lemma_step_keeps_wf(self@, Intent::PrevTrack);
        }
        let len = self.current_tracks.len();
        if len > 0 {
            let index = if self.current_track_idx == 0 {
                len - 1
            } else {
                self.current_track_idx - 1
            };
            proof {
                lemma_ring(self.current_track_idx as int, len as int);
            }
            self.current_track_idx = index;
            let id = self.current_tracks[index].id;
            let name = self.current_tracks[index].name.clone();
            self.begin(id, name, None)
        } else {
            Effect::Nothing
        }
    }

    /// Enter.
    pub fn on_enter(&mut self) -> (effect: Effect)
        requires
            old(self)@.wf(),
        ensures
            final(self)@ == old(self)@.activate().next,
            effect@ == old(self)@.activate().effect,
            final(self)@.wf(),
    {
        proof {
            lemma_step_keeps_wf(self@, Intent::Activate);
        }
        if self.route != Route::Home {
            return Effect::Nothing;
        }
        match self.focus {
            Focus::Playlist => {
                if self.playlists_state.selected < self.playlists_state.items.len() {
                    let playlist = self.playlists_state.items[self.playlists_state.selected].id;
                    self.on_left();
                    Effect::PlaylistDetail { playlist }
                } else {
                    Effect::Nothing
                }
            },
            Focus::Track => {
                let index = self.current_playlist_track_state.selected;
                if index < self.current_playlist_track_state.items.len() {
                    let id = self.current_playlist_track_state.items[index].id;
                    let name = self.current_playlist_track_state.items[index].name.clone();
                    let adopt = Adoption {
                        queue: duplicate_tracks(&self.current_playlist_track_state.items),
                        index,
                        playlist: self.playlists_state.selected,
                    };
                    self.begin(id, name, Some(adopt))
                } else {
                    Effect::Nothing
                }
            },
        }
    }

    /// One tick of the clock; `sink_empty` says whether the sink has played
    /// all that it was given.
    pub fn on_tick(&mut self, sink_empty: bool) -> (effect: Effect)
        requires
            old(self)@.wf(),
        ensures
            final(self)@ == old(self)@.tick(sink_empty).next,
            effect@ == old(self)@.tick(sink_empty).effect,
            final(self)@.wf(),
    {
        proof {
            lemma_step_keeps_wf(self@, Intent::Tick { sink_empty });
        }
        if self.system_tick < u64::MAX {
            self.system_tick = self.system_tick + 1;
        }
        if self.player_controller.is_pause {
            return Effect::Nothing;
        }
        if sink_empty {
            self.player_controller.is_pause = true;
            return self.next_track();
        }
        let room = (i32::MAX - self.player_controller.seek) as u64;
        if self.tick_rate <= room {
            self.player_controller.seek = self.player_controller.seek + self.tick_rate as i32;
        } else {
            self.player_controller.seek = i32::MAX;
        }
        Effect::Nothing
    }

    /// Begins the login with what the form holds.
    pub fn login(&mut self) -> (effect: Effect)
        ensures
            final(self)@ == old(self)@.login().next,
            effect@ == old(self)@.login().effect,
            old(self)@.wf() ==> final(self)@.wf(),
    {
        if self.inputs.len() >= 2 {
            self.route = Route::Loading;
            self.boot = Boot::Account;
            self.status = Status::Ready;
            Effect::Login { phone: self.inputs[0].val.clone(), password: self.inputs[1].val.clone() }
        } else {
            Effect::Nothing
        }
    }

    /// Gives up the start-up and shows the login page again.
    fn boot_failed(&mut self, status: Status)
        ensures
            final(self)@ == old(self)@.boot_failed(status).next,
    {
        self.route = Route::Login;
        self.boot = Boot::Idle;
        self.status = status;
    }

    /// The outcome of the login: the account, or nothing where it failed.
    pub fn on_login(&mut self, account: Option<AccountDetail>) -> (effect: Effect)
        ensures
            final(self)@ == old(self)@.login_answer(account).next,
            effect@ == old(self)@.login_answer(account).effect,
            old(self)@.wf() ==> final(self)@.wf(),
    {
        proof {
            if self@.wf() {
                lemma_boot_keeps_wf(self@, account, None, None, None);
            }
        }
        if self.boot != Boot::Account {
            return Effect::Nothing;
        }
        match account {
            Some(a) => {
                let user = a.account.id;
                self.userinfo = Some(a);
                self.boot = Boot::Likes;
                Effect::LikeList { user }
            },
            None => {
                self.boot_failed(Status::AuthError);
                Effect::Nothing
            },
        }
    }

    /// The outcome of fetching the liked tracks.
    pub fn on_like_list(&mut self, ids: Option<Vec<i64>>) -> (effect: Effect)
        ensures
            final(self)@ == old(self)@.like_list_answer(ids_view(ids)).next,
            effect@ == old(self)@.like_list_answer(ids_view(ids)).effect,
            old(self)@.wf() ==> final(self)@.wf(),
    {
        proof {
            if self@.wf() {
                lemma_boot_keeps_wf(self@, None, ids_view(ids), None, None);
            }
        }
        if self.boot != Boot::Likes {
            return Effect::Nothing;
        }
        match ids {
            Some(l) => {
                self.likelist = l;
                self.boot = Boot::Playlists;
                let user = match &self.userinfo {
                    Some(a) => a.account.id,
                    None => 1,
                };
                Effect::Playlists { user }
            },
            None => {
                self.boot_failed(Status::NetworkError);
                Effect::Nothing
            },
        }
    }

    /// The outcome of fetching the playlists.
    pub fn on_playlists(&mut self, list: Option<Vec<Playlist>>) -> (effect: Effect)
        ensures
            final(self)@ == old(self)@.playlists_answer(playlists_view(list)).next,
            effect@ == old(self)@.playlists_answer(playlists_view(list)).effect,
            old(self)@.wf() ==> final(self)@.wf(),
    {
        proof {
            if self@.wf() {
                if list.is_some() {
                    assert(list.unwrap()@.len() == list.unwrap().len());
                }
                lemma_boot_keeps_wf(self@, None, None, playlists_view(list), None);
            }
        }
        if self.boot != Boot::Playlists {
            return Effect::Nothing;
        }
        match list {
            Some(l) => {
                if l.len() > 0 {
                    let playlist = l[0].id;
                    self.set_playlists(l);
                    self.boot = Boot::Detail;
                    Effect::PlaylistDetail { playlist }
                } else {
                    self.set_playlists(l);
                    self.boot = Boot::Idle;
                    self.route = Route::Home;
                    Effect::Nothing
                }
            },
            None => {
                self.boot_failed(Status::NetworkError);
                Effect::Nothing
            },
        }
    }

    /// The outcome of fetching the tracks of a playlist.
    pub fn on_playlist_detail(&mut self, tracks: Option<Vec<Track>>) -> (effect: Effect)
        ensures
            final(self)@ == old(self)@.playlist_detail_answer(detail_view(tracks)).next,
            effect@ == old(self)@.playlist_detail_answer(detail_view(tracks)).effect,
            old(self)@.wf() ==> final(self)@.wf(),
    {
        proof {
            if self@.wf() {
                if tracks.is_some() {
                    assert(tracks.unwrap()@.len() == tracks.unwrap().len());
                }
                lemma_boot_keeps_wf(self@, None, None, None, detail_view(tracks));
            }
        }
        let booting = self.boot == Boot::Detail;
        match tracks {
            Some(t) => {
                self.set_current_playlist(t);
                if booting {
                    self.boot = Boot::Idle;
                    self.route = Route::Home;
                } else {
                    self.status = Status::Ready;
                }
            },
            None => {
                if booting {
                    self.boot_failed(Status::NetworkError);
                } else {
                    self.status = Status::NetworkError;
                }
            },
        }
        Effect::Nothing
    }

    /// Whether a playback start waits for the answer of `stage`.
    fn awaits(&self, stage: Stage) -> (b: bool)
        ensures
            b == self@.awaits(stage),
    {
        match &self.starting {
            Some(s) => s.stage == stage,
            None => false,
        }
    }

    /// The outcome of resolving the track to start: the audio files that the
    /// service named, or nothing where the request failed.
    pub fn on_music_detail(&mut self, details: Option<Vec<MusicDetail>>) -> (effect: Effect)
        ensures
            final(self)@ == old(self)@.music_detail_answer(first_url(details)).next,
            effect@ == old(self)@.music_detail_answer(first_url(details)).effect,
            old(self)@.wf() ==> final(self)@.wf(),
    {
        proof {
            if self@.wf() {
                lemma_start_keeps_wf(self@, first_url(details));
            }
        }
        if !self.awaits(Stage::Resolve) {
            return Effect::Nothing;
        }
        let mut start = self.starting.take().unwrap();
        if let Some(list) = details {
            if list.len() > 0 && list[0].url.as_str().unicode_len() > 0 {
                let url = list[0].url.clone();
                let file_name = media_file_name(start.name.as_str(), url.as_str());
                start.stage = Stage::Download;
                self.starting = Some(start);
                return Effect::Download { url, file_name };
            }
        }
        self.status = Status::UnavailableTrack;
        Effect::Nothing
    }

    /// The outcome of bringing the file to the audio folder: its path, or
    /// nothing where that failed.
    pub fn on_download(&mut self, path: Option<String>) -> (effect: Effect)
        ensures
            final(self)@ == old(self)@.download_answer(text_view(path)).next,
            effect@ == old(self)@.download_answer(text_view(path)).effect,
            old(self)@.wf() ==> final(self)@.wf(),
    {
        proof {
            if self@.wf() {
                lemma_start_keeps_wf(self@, text_view(path));
            }
        }
        if !self.awaits(Stage::Download) {
            return Effect::Nothing;
        }
        let mut start = self.starting.take().unwrap();
        match path {
            Some(p) => {
                let track = start.id;
                start.stage = Stage::Lyric;
                start.path = p;
                self.starting = Some(start);
                Effect::Lyric { track }
            },
            None => {
                self.status = Status::UnavailableTrack;
                Effect::Nothing
            },
        }
    }

    /// The outcome of fetching the lyric: its text, or nothing where there
    /// is none. The track starts to play either way.
    pub fn on_lyric(&mut self, text: Option<String>) -> (effect: Effect)
        ensures
            final(self)@ == old(self)@.lyric_answer(text_view(text)).next,
            effect@ == old(self)@.lyric_answer(text_view(text)).effect,
            old(self)@.wf() ==> final(self)@.wf(),
    {
        proof {
            if self@.wf() {
                lemma_start_keeps_wf(self@, text_view(text));
            }
        }
        if !self.awaits(Stage::Lyric) {
            return Effect::Nothing;
        }
        let start = self.starting.take().unwrap();
        let Starting { stage: _, id: _, name: _, path, adopt } = start;
        self.lrc = match text {
            Some(t) => parse_rows(t.as_str()),
            None => Vec::new(),
        };
        if let Some(a) = adopt {
            self.current_tracks = a.queue;
            self.current_track_idx = a.index;
            self.playing_playlist_idx = a.playlist;
        }
        self.player_controller.is_pause = false;
        self.player_controller.seek = 0;
        self.status = Status::Ready;
        proof {
            if text.is_none() {
                assert(rows_view(self.lrc@) =~= Seq::empty());
            }
        }
        Effect::Play { path, volume: self.player_controller.volume }
    }

    /// Moves the focus of the form to the next field.
    pub fn focus_next_input(&mut self)
        ensures
            final(self)@ == old(self)@.focus_next_input(),
            old(self)@.wf() ==> final(self)@.wf(),
    {
        let len = self.inputs.len();
        if len > 0 {
            let mut index: usize = 0;
            while index < len && !self.inputs[index].focus
                invariant
                    index <= len,
                    len == self.inputs.len(),
                    *self == *old(self),
                    focused_input(inputs_view(self.inputs@), 0) == focused_input(
                        inputs_view(self.inputs@),
                        index as int,
                    ),
                decreases len - index,
            {
                index += 1;
            }
            if index == len {
                index = len - 1;
            }
            let next = if index + 1 == len {
                0
            } else {
                index + 1
            };
            let ghost before = inputs_view(self.inputs@);
            proof {
                lemma_ring(index as int, len as int);
            }
            self.inputs[index].focus = false;
            let ghost cleared = inputs_view(self.inputs@);
            self.inputs[next].focus = true;
            proof {
                assert(cleared =~= before.update(
                    index as int,
                    InputView { focus: false, ..before[index as int] },
                ));
                assert(inputs_view(self.inputs@) =~= cleared.update(
                    next as int,
                    InputView { focus: true, ..cleared[next as int] },
                ));
            }
        }
    }

    /// Hands a key to every field of the form.
    pub fn input_on_key(&mut self, key: Key)
        ensures
            final(self)@ == old(self)@.edit(key),
            old(self)@.wf() ==> final(self)@.wf(),
    {
        let len = self.inputs.len();
        let mut i: usize = 0;
        while i < len
            invariant
                i <= len,
                len == self.inputs.len(),
                len == old(self).inputs.len(),
                self@ == (Player { inputs: inputs_view(self.inputs@), ..old(self)@ }),
                forall|j: int|
                    0 <= j < i ==> (#[trigger] self.inputs@[j])@ == old(self).inputs@[j]@.on_key(
                        key,
                    ),
                forall|j: int| i <= j < len ==> (#[trigger] self.inputs@[j]) == old(self).inputs@[j],
            decreases len - i,
        {
            self.inputs[i].on_key(key);
            i += 1;
        }
        proof {
            assert(inputs_view(self.inputs@) =~= old(self)@.inputs.map_values(
                |v: InputView| v.on_key(key),
            ));
        }
    }

    /// A character key without Ctrl.
    pub fn on_key(&mut self, c: char) -> (effect: Effect)
        ensures
            final(self)@ == old(self)@.key(c).next,
            effect@ == old(self)@.key(c).effect,
            old(self)@.wf() ==> final(self)@.wf(),
    {
        if c == 'q' {
            self.should_quit = true;
            Effect::Nothing
        } else if c == ' ' {
            self.on_space()
        } else if c == '-' {
            self.volume_down()
        } else if c == '=' {
            self.volume_up()
        } else {
            Effect::Nothing
        }
    }

    /// A key with Ctrl.
    pub fn on_ctrl_key(&mut self, code: Key) -> (effect: Effect)
        requires
            old(self)@.wf(),
        ensures
            final(self)@ == old(self)@.ctrl_key(code).next,
            effect@ == old(self)@.ctrl_key(code).effect,
            final(self)@.wf(),
    {
        match code {
            Key::Left => self.previous_track(),
            Key::Right => self.next_track(),
            Key::Up => self.volume_up(),
            Key::Down => self.volume_down(),
            Key::Char(c) => {
                if c == 'l' {
                    self.like();
                } else if c == 'd' {
                    self.show_lrc();
                } else if c == 'i' {
                    self.focus_next_input();
                }
                Effect::Nothing
            },
            Key::Enter => self.login(),
            _ => Effect::Nothing,
        }
    }

    /// Whether the keys go into the form.
    pub fn is_editing(&self) -> (editing: bool)
        ensures
            editing == self@.editing(),
    {
        if self.route != Route::Login {
            return false;
        }
        let mut i: usize = 0;
        while i < self.inputs.len()
            invariant
                i <= self.inputs.len(),
                self.route == Route::Login,
                forall|j: int| 0 <= j < i ==> !(#[trigger] inputs_view(self.inputs@)[j]).focus,
            decreases self.inputs.len() - i,
        {
            if self.inputs[i].focus {
                proof {
                    assert(0 <= i < self@.inputs.len() && self@.inputs[i as int].focus);
                }
                return true;
            }
            i += 1;
        }
        false
    }

    /// Handles one key, pressed with or without Ctrl.
    pub fn press(&mut self, key: Key, ctrl: bool) -> (effect: Effect)
        requires
            old(self)@.wf(),
        ensures
            final(self)@ == old(self)@.press(key, ctrl).next,
            effect@ == old(self)@.press(key, ctrl).effect,
            final(self)@.wf(),
    {
        if !ctrl && self.is_editing() {
            self.input_on_key(key);
            Effect::Nothing
        } else {
            match intent_of_key(key, ctrl) {
                Some(intent) => self.dispatch(intent),
                None => Effect::Nothing,
            }
        }
    }

    /// Makes the step of one intent. This is the engine's one way in for
    /// what the user and the clock ask.
    pub fn dispatch(&mut self, intent: Intent) -> (effect: Effect)
        requires
            old(self)@.wf(),
        ensures
            final(self)@ == old(self)@.step(intent).next,
            effect@ == old(self)@.step(intent).effect,
            final(self)@.wf(),
    {
        proof {
            lemma_step_keeps_wf(self@, intent);
        }
        match intent {
            Intent::NavigateUp => {
                self.on_up();
                Effect::Nothing
            },
            Intent::NavigateDown => {
                self.on_down();
                Effect::Nothing
            },
            Intent::NavigateLeft => {
                self.on_left();
                Effect::Nothing
            },
            Intent::NavigateRight => {
                self.on_right();
                Effect::Nothing
            },
            Intent::Activate => self.on_enter(),
            Intent::TogglePause => self.on_space(),
            Intent::VolumeUp => self.volume_up(),
            Intent::VolumeDown => self.volume_down(),
            Intent::NextTrack => self.next_track(),
            Intent::PrevTrack => self.previous_track(),
            Intent::ToggleLike => {
                self.like();
                Effect::Nothing
            },
            Intent::ToggleLyric => {
                self.show_lrc();
                Effect::Nothing
            },
            Intent::FocusNextInput => {
                self.focus_next_input();
                Effect::Nothing
            },
            Intent::Login => self.login(),
            Intent::Quit => {
                self.should_quit = true;
                Effect::Nothing
            },
            Intent::Tick { sink_empty } => self.on_tick(sink_empty),
        }
    }
}

} // verus!
