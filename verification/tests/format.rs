use ease_music::downloader::{PartialRangeIter, RangeError};
use ease_music::input::{cursor_lit, Input, Key};
use ease_music::network::{
    base_url, like_list_url, login_url, lyric_url, music_detail_url, playlist_detail_url,
    playlists_url,
};
use ease_music::api_type::{Album, Artist, OtherAccount, Playlist, Track};
use ease_music::app::Status;
use ease_music::labels::{artists_line, playlist_label, spinner, track_label, volume_icon};
use ease_music::utils::{pre_format, show_duration};
use tui::style::{Color, Modifier, Style};

fn song(name: &str, artists: &[&str], dt: i32) -> Track {
    Track {
        id: 1,
        name: name.to_string(),
        ar: artists.iter().map(|a| Artist { id: 2, name: a.to_string() }).collect(),
        al: Album { id: 3, name: "LP".to_string(), pic_url: String::new() },
        dt,
    }
}

fn list(name: &str, track_count: i32) -> Playlist {
    Playlist {
        creator: OtherAccount {
            nickname: String::new(),
            user_id: 1,
            avatar_url: String::new(),
            signature: String::new(),
        },
        cover_img_url: String::new(),
        special_type: 0,
        play_count: 0,
        track_count,
        subscribed_count: 0,
        name: name.to_string(),
        id: 1,
    }
}

#[test]
fn playlist_lines() {
    assert_eq!(playlist_label(0, 3, &list("mine", 12)), "1. (12首)mine");
    assert_eq!(playlist_label(2, 9, &list("x", 0)), "03. (0首)x");
    assert_eq!(playlist_label(8, 9, &list("x", -1)), "09. (-1首)x");
    assert_eq!(playlist_label(98, 99, &list("", 7)), "099. (7首)");
    assert_eq!(playlist_label(99, 100, &list("", 7)), "100. (7首)");
}

#[test]
fn track_lines() {
    assert_eq!(
        track_label(0, 2, &song("tune", &["ann", "bob"], 61_000)),
        "1. tune - 01:01 - [ann] - <<LP>>"
    );
    assert_eq!(
        track_label(4, 10, &song("好", &[], 3_600_000)),
        "05. 好 - 1:00:00 - [匿名] - <<LP>>"
    );
}

#[test]
fn artist_lines() {
    assert_eq!(artists_line(&song("t", &[], 0)), "");
    assert_eq!(artists_line(&song("t", &["ann"], 0)), "ann");
    assert_eq!(artists_line(&song("t", &["ann", "bob", "周"], 0)), "ann,bob,周");
}

#[test]
fn volume_signs_and_spinner() {
    assert_eq!(volume_icon(100), "🔊");
    assert_eq!(volume_icon(51), "🔊");
    assert_eq!(volume_icon(50), "🔉");
    assert_eq!(volume_icon(1), "🔉");
    assert_eq!(volume_icon(0), "🔈");
    assert_eq!(spinner(0), '|');
    assert_eq!(spinner(1), '/');
    assert_eq!(spinner(2), '-');
    assert_eq!(spinner(3), '\\');
    assert_eq!(spinner(4), '|');
    assert_eq!(spinner(u64::MAX), '\\');
}

#[test]
fn status_lines() {
    assert_eq!(Status::Ready.message(), "");
    assert_eq!(Status::AuthError.message(), "login failed");
    assert_eq!(Status::NetworkError.message(), "the service did not answer");
    assert_eq!(Status::UnavailableTrack.message(), "this track is not available");
}

#[test]
fn pre_format_fills_up_on_the_left() {
    assert_eq!(pre_format(7, 2, '0'), "07");
    assert_eq!(pre_format(7, 1, '0'), "7");
    assert_eq!(pre_format(7, 0, '0'), "7");
    assert_eq!(pre_format(123, 2, '0'), "123");
    assert_eq!(pre_format(5, 4, ' '), "   5");
    assert_eq!(pre_format(-5, 3, '0'), "0-5");
    assert_eq!(pre_format(0, 3, 'x'), "xx0");
}

#[test]
fn show_duration_minutes_and_seconds() {
    assert_eq!(show_duration(0), "00:00");
    assert_eq!(show_duration(999), "00:00");
    assert_eq!(show_duration(1_000), "00:01");
    assert_eq!(show_duration(61_000), "01:01");
    assert_eq!(show_duration(100_000), "01:40");
    assert_eq!(show_duration(3_599_999), "59:59");
}

#[test]
fn show_duration_with_hours() {
    assert_eq!(show_duration(3_600_000), "1:00:00");
    assert_eq!(show_duration(3_661_000), "1:01:01");
    assert_eq!(show_duration(i32::MAX), "596:31:23");
}

#[test]
fn show_duration_below_zero() {
    assert_eq!(show_duration(-1_000), "00:-1");
    assert_eq!(show_duration(-61_000), "-1:-1");
    assert_eq!(show_duration(-999), "00:00");
    assert_eq!(show_duration(i32::MIN), "-31:-23");
}

#[test]
fn service_addresses() {
    assert_eq!(base_url(), "http://49.234.74.97:3000");
    assert_eq!(
        login_url("123", "pw"),
        "http://49.234.74.97:3000/login/cellphone?phone=123&password=pw"
    );
    assert_eq!(playlists_url(42), "http://49.234.74.97:3000/user/playlist?uid=42");
    assert_eq!(playlist_detail_url(-3), "http://49.234.74.97:3000/playlist/detail?id=-3");
    assert_eq!(like_list_url(1), "http://49.234.74.97:3000/likelist?uid=1");
    assert_eq!(lyric_url(186016), "http://49.234.74.97:3000/lyric?id=186016");
    assert_eq!(music_detail_url(&vec![]), "http://49.234.74.97:3000/song/url?id=");
    assert_eq!(music_detail_url(&vec![5]), "http://49.234.74.97:3000/song/url?id=5");
    assert_eq!(
        music_detail_url(&vec![5, -6, 70]),
        "http://49.234.74.97:3000/song/url?id=5,-6,70"
    );
}

#[test]
fn range_walk_rejects_a_zero_buffer() {
    assert_eq!(PartialRangeIter::new(0, 10, 0).err(), Some(RangeError::ZeroBufferSize));
}

#[test]
fn range_walk_covers_every_byte_once() {
    let mut walk = PartialRangeIter::new(0, 9, 4).unwrap();
    assert_eq!(walk.next(), Some("bytes=0-3".to_string()));
    assert_eq!(walk.next(), Some("bytes=4-7".to_string()));
    assert_eq!(walk.next(), Some("bytes=8-9".to_string()));
    assert_eq!(walk.next(), None);
    assert_eq!(walk.next(), None);
    assert_eq!(walk.start, 10);
    let mut one = PartialRangeIter::new(5, 5, 100).unwrap();
    assert_eq!(one.next(), Some("bytes=5-5".to_string()));
    assert_eq!(one.next(), None);
    let mut none = PartialRangeIter::new(6, 5, 1).unwrap();
    assert_eq!(none.next(), None);
    let mut far = PartialRangeIter::new(u64::MAX - 3, u64::MAX - 1, u32::MAX).unwrap();
    assert_eq!(
        far.next(),
        Some("bytes=18446744073709551612-18446744073709551614".to_string())
    );
    assert_eq!(far.next(), None);
}

#[test]
fn input_defaults_and_builders() {
    let input = Input::default();
    assert!(input.block);
    assert!(!input.focus);
    assert!(!input.is_password);
    assert_eq!(input.val, "");
    assert_eq!(input.title, "");
    assert_eq!(input.placeholder, "");
    let input = Input::default()
        .title("t".to_string())
        .placeholder("p".to_string())
        .val("v".to_string())
        .is_password(true)
        .block(false);
    assert_eq!(input.title, "t");
    assert_eq!(input.placeholder, "p");
    assert_eq!(input.val, "v");
    assert!(input.is_password);
    assert!(!input.block);
}

#[test]
fn input_without_focus_ignores_keys() {
    let mut input = Input::default().val("ab".to_string());
    input.on_key(Key::Char('c'));
    input.on_key(Key::Backspace);
    input.on_key(Key::Enter);
    assert_eq!(input.val, "ab");
    assert!(!input.focus);
}

#[test]
fn input_with_focus_edits() {
    let mut input = Input::default();
    input.focus = true;
    input.on_key(Key::Char('a'));
    input.on_key(Key::Char('好'));
    assert_eq!(input.val, "a好");
    input.on_key(Key::Left);
    input.on_key(Key::Other);
    assert_eq!(input.val, "a好");
    input.on_key(Key::Backspace);
    assert_eq!(input.val, "a");
    input.on_key(Key::Backspace);
    input.on_key(Key::Backspace);
    assert_eq!(input.val, "");
    assert!(input.focus);
    input.on_key(Key::Enter);
    assert!(!input.focus);
}

#[test]
fn input_shows_placeholder_stars_or_value() {
    let input = Input::default().placeholder("type".to_string());
    assert_eq!(input.display_text(), "type");
    assert_eq!(input.clone().val("abc".to_string()).display_text(), "abc");
    let secret = input.is_password(true);
    assert_eq!(secret.clone().display_text(), "type");
    assert_eq!(secret.clone().val("abc".to_string()).display_text(), "***");
    assert_eq!(secret.val("好".to_string()).display_text(), "***");
}

#[test]
fn cursor_blinks() {
    assert!(!cursor_lit(0));
    assert!(cursor_lit(1));
    assert!(!cursor_lit(2));
    assert!(cursor_lit(u64::MAX));
}

#[test]
fn input_carries_its_style() {
    let plain = Input::default();
    assert_eq!(plain.style, Style::default());
    let red = Style::default().fg(Color::Red).add_modifier(Modifier::BOLD);
    let mut input = plain.style(red).val("v".to_string()).block(false).is_password(true);
    assert_eq!(input.style, red);
    assert_eq!(input.clone().style, red);
    input.focus = true;
    input.on_key(Key::Char('x'));
    input.on_key(Key::Enter);
    assert_eq!(input.style, red);
    assert_eq!(input.val, "vx");
    let input = input.title("t".to_string()).placeholder("p".to_string());
    assert_eq!(input.style, red);
}
