//! The addresses of the music service. The engine names the work; the host
//! fetches these addresses and hands the answers back.
use vstd::prelude::*;
use vstd::string::StringExecFns;
use crate::text::{decimal, push_decimal};

verus! {

/// Where the service lives.
pub open spec fn base() -> Seq<char> {
    "http://49.234.74.97:3000"@
}

/// The ids of a list, each in base ten, with a comma between two of them.
pub open spec fn joined(ids: Seq<i64>) -> Seq<char>
    decreases ids.len(),
{
    if ids.len() == 0 {
        Seq::empty()
    } else if ids.len() == 1 {
        decimal(ids[0] as int)
    } else {
        joined(ids.drop_last()) + seq![','] + decimal(ids.last() as int)
    }
}

pub fn base_url() -> (url: String)
    ensures
        url@ == base(),
{
    String::from_str("http://49.234.74.97:3000")
}

/// The address that logs a phone number in with its password.
pub fn login_url(phone: &str, password: &str) -> (url: String)
    ensures
        url@ == base() + "/login/cellphone?phone="@ + phone@ + "&password="@ + password@,
{
    let mut url = base_url();
    url.append("/login/cellphone?phone=");
    url.append(phone);
    url.append("&password=");
    url.append(password);
    url
}

/// The address of the playlists of a user.
pub fn playlists_url(user: i64) -> (url: String)
    ensures
        url@ == base() + "/user/playlist?uid="@ + decimal(user as int),
{
    let mut url = base_url();
    url.append("/user/playlist?uid=");
    push_decimal(&mut url, user);
    url
}

/// The address of a playlist with its tracks.
pub fn playlist_detail_url(playlist: i64) -> (url: String)
    ensures
        url@ == base() + "/playlist/detail?id="@ + decimal(playlist as int),
{
    let mut url = base_url();
    url.append("/playlist/detail?id=");
    push_decimal(&mut url, playlist);
    url
}

/// The address of the ids of the tracks that a user likes.
pub fn like_list_url(user: i64) -> (url: String)
    ensures
        url@ == base() + "/likelist?uid="@ + decimal(user as int),
{
    let mut url = base_url();
    url.append("/likelist?uid=");
    push_decimal(&mut url, user);
    url
}

/// The address of the lyric of a track.
pub fn lyric_url(track: i64) -> (url: String)
    ensures
        url@ == base() + "/lyric?id="@ + decimal(track as int),
{
    let mut url = base_url();
    url.append("/lyric?id=");
    push_decimal(&mut url, track);
    url
}

/// The address of the audio files of some tracks.
pub fn music_detail_url(ids: &Vec<i64>) -> (url: String)
    ensures
        url@ == base() + "/song/url?id="@ + joined(ids@),
{
    let mut url = base_url();
    url.append("/song/url?id=");
    let ghost head = url@;
    let mut i: usize = 0;
    proof {
        assert(ids@.take(0).len() == 0);
        assert(head + joined(ids@.take(0)) =~= head);
    }
    while i < ids.len()
        invariant
            i <= ids.len(),
            url@ == head + joined(ids@.take(i as int)),
        decreases ids.len() - i,
    {
        let ghost before = url@;
        if i > 0 {
            url.push(',');
        }
        push_decimal(&mut url, ids[i]);
        i += 1;
        proof {
            let now = ids@.take(i as int);
            assert(now.drop_last() =~= ids@.take(i - 1));
            assert(now.last() == ids@[i - 1]);
            if i == 1 {
                assert(joined(ids@.take(0)) =~= Seq::<char>::empty());
                assert(url@ =~= head + joined(now));
            } else {
                assert(url@ =~= head + joined(now));
            }
        }
    }
    proof {
        assert(ids@.take(ids.len() as int) =~= ids@);
    }
    url
}

} // verus!
