//! The lines of text that the screen shows for playlists, tracks and the
//! controls.
use vstd::prelude::*;
use vstd::string::StringExecFns;
use crate::api_type::{Artist, Playlist, Track};
use crate::text::{decimal, decimal_digits, padded, push_decimal, push_digits};
use crate::utils::{duration_text, show_duration};

verus! {

/// The number of item `i` of a list of `len` items, counted from 1 and
/// filled up with zeros to the width of the number one above the last.
pub open spec fn number_text(i: nat, len: nat) -> Seq<char> {
    padded(decimal_digits(i + 1), decimal_digits(len + 1).len(), '0')
}

/// The line of a playlist in the list of playlists.
pub open spec fn playlist_text(i: nat, len: nat, p: Playlist) -> Seq<char> {
    number_text(i, len) + ". ("@ + decimal(p.track_count as int) + "首)"@ + p.name@
}

/// The name of the first artist of a track, or a stand-in for a track
/// without artists.
pub open spec fn first_artist(t: Track) -> Seq<char> {
    if t.ar@.len() == 0 {
        "匿名"@
    } else {
        t.ar@[0].name@
    }
}

/// The line of a track in the list of tracks.
pub open spec fn track_text(i: nat, len: nat, t: Track) -> Seq<char> {
    number_text(i, len) + ". "@ + t.name@ + " - "@ + duration_text(t.dt as int) + " - ["@
        + first_artist(t) + "] - <<"@ + t.al.name@ + ">>"@
}

/// The names of some artists with a comma between two of them.
pub open spec fn artists_text(artists: Seq<Artist>) -> Seq<char>
    decreases artists.len(),
{
    if artists.len() == 0 {
        Seq::empty()
    } else if artists.len() == 1 {
        artists[0].name@
    } else {
        artists_text(artists.drop_last()) + seq![','] + artists.last().name@
    }
}

/// Appends the number of item `i` of `len`.
fn push_number(s: &mut String, i: usize, len: usize)
    requires
        i < len < usize::MAX,
    ensures
        final(s)@ == old(s)@ + number_text(i as nat, len as nat),
{
    let mut digits = String::new();
    push_digits(&mut digits, i as u64 + 1);
    let mut last = String::new();
    push_digits(&mut last, len as u64 + 1);
    let have = digits.as_str().unicode_len();
    let want = last.as_str().unicode_len();
    let ghost start = s@;
    proof {
        assert(digits@ =~= decimal_digits((i + 1) as nat));
        assert(last@ =~= decimal_digits((len + 1) as nat));
    }
    if have < want {
        let fill = want - have;
        let mut k: usize = 0;
        while k < fill
            invariant
                k <= fill,
                s@ == start + Seq::new(k as nat, |j: int| '0'),
            decreases fill - k,
        {
            s.push('0');
            k += 1;
            proof {
                assert(s@ =~= start + Seq::new(k as nat, |j: int| '0'));
            }
        }
    } else {
        proof {
            assert(s@ =~= start + Seq::new(0nat, |j: int| '0'));
        }
    }
    s.append(digits.as_str());
    proof {
        assert(s@ =~= start + number_text(i as nat, len as nat));
    }
}

/// The line of playlist `i` of `len` playlists.
pub fn playlist_label(i: usize, len: usize, p: &Playlist) -> (line: String)
    requires
        i < len < usize::MAX,
    ensures
        line@ == playlist_text(i as nat, len as nat, *p),
{
    let mut s = String::new();
    push_number(&mut s, i, len);
    s.append(". (");
    push_decimal(&mut s, p.track_count as i64);
    s.append("首)");
    s.append(p.name.as_str());
    proof {
        assert(s@ =~= playlist_text(i as nat, len as nat, *p));
    }
    s
}

/// The line of track `i` of `len` tracks.
pub fn track_label(i: usize, len: usize, t: &Track) -> (line: String)
    requires
        i < len < usize::MAX,
    ensures
        line@ == track_text(i as nat, len as nat, *t),
{
    let mut s = String::new();
    push_number(&mut s, i, len);
    s.append(". ");
    s.append(t.name.as_str());
    s.append(" - ");
    let duration = show_duration(t.dt);
    s.append(duration.as_str());
    s.append(" - [");
    if t.ar.len() == 0 {
        s.append("匿名");
    } else {
        s.append(t.ar[0].name.as_str());
    }
    s.append("] - <<");
    s.append(t.al.name.as_str());
    s.append(">>");
    proof {
        assert(s@ =~= track_text(i as nat, len as nat, *t));
    }
    s
}

/// The artists of a track in one line.
pub fn artists_line(t: &Track) -> (line: String)
    ensures
        line@ == artists_text(t.ar@),
{
    let mut s = String::new();
    let mut i: usize = 0;
    proof {
        assert(t.ar@.take(0).len() == 0);
    }
    while i < t.ar.len()
        invariant
            i <= t.ar.len(),
            s@ == artists_text(t.ar@.take(i as int)),
        decreases t.ar.len() - i,
    {
        if i > 0 {
            s.push(',');
        }
        s.append(t.ar[i].name.as_str());
        i += 1;
        proof {
            let now = t.ar@.take(i as int);
            assert(now.drop_last() =~= t.ar@.take(i - 1));
            assert(now.last() == t.ar@[i - 1]);
            if i == 1 {
                assert(s@ =~= artists_text(now));
            } else {
                assert(s@ =~= artists_text(now));
            }
        }
    }
    proof {
        assert(t.ar@.take(t.ar.len() as int) =~= t.ar@);
    }
    s
}

/// The sign for a volume given in hundredths: loud above a half, low up to
/// a half, and silent at 0.
pub fn volume_icon(volume: u8) -> (icon: &'static str)
    ensures
        volume > 50 ==> icon@ == "🔊"@,
        0 < volume <= 50 ==> icon@ == "🔉"@,
        volume == 0 ==> icon@ == "🔈"@,
{
    if volume > 50 {
        "🔊"
    } else if volume > 0 {
        "🔉"
    } else {
        "🔈"
    }
}

/// The sign that turns while a page loads, one quarter turn for each tick.
pub fn spinner(system_tick: u64) -> (c: char)
    ensures
        system_tick % 4 == 0 ==> c == '|',
        system_tick % 4 == 1 ==> c == '/',
        system_tick % 4 == 2 ==> c == '-',
        system_tick % 4 == 3 ==> c == '\\',
{
    let phase = system_tick % 4;
    if phase == 0 {
        '|'
    } else if phase == 1 {
        '/'
    } else if phase == 2 {
        '-'
    } else {
        '\\'
    }
}

} // verus!
