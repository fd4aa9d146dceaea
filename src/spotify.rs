//! The remote player's state as the worker receives it, and how it becomes a
//! `Model`; the request addresses of the remote service.
use vstd::prelude::*;
use vstd::string::*;

use crate::model::Model;

verus! {

/// Root of every request address of the remote service.
pub const API_BASE: &'static str = "https://api.spotify.com/v1";

/// Separator between two artist names.
pub const ARTIST_SEPARATOR: &'static str = ", ";

pub open spec fn artist_separator() -> Seq<char> {
    seq![',', ' ']
}

/// One performer of a track.
pub struct Artist {
    pub name: String,
}

/// A track as the remote service describes it.
pub struct Track {
    pub id: String,
    pub name: String,
    pub artists: Vec<Artist>,
}

/// The remote player's state; `track` is absent when nothing is loaded.
pub struct Player {
    pub is_playing: bool,
    pub track: Option<Track>,
}

/// The names of the artists, in order.
pub open spec fn artist_names(artists: Seq<Artist>) -> Seq<Seq<char>> {
    artists.map_values(|a: Artist| a.name@)
}

/// The names joined with `", "` between each two neighbours.
pub open spec fn joined(names: Seq<Seq<char>>) -> Seq<char>
    decreases names.len(),
{
    if names.len() == 0 {
        Seq::empty()
    } else if names.len() == 1 {
        names[0]
    } else {
        joined(names.drop_last()) + artist_separator() + names.last()
    }
}

/// The (name, value) pairs as characters.
pub open spec fn pairs_view(params: Seq<(String, String)>) -> Seq<(Seq<char>, Seq<char>)> {
    params.map_values(|p: (String, String)| (p.0@, p.1@))
}

/// The address `url::Url::parse_with_params` makes of `input` and `pairs`, or
/// none where `input` is no absolute address.
pub uninterp spec fn url_with_query(input: Seq<char>, pairs: Seq<(Seq<char>, Seq<char>)>) -> Option<Seq<char>>;

/// Relies on `url::Url::parse_with_params`: parses `input` as an absolute
/// address and appends the pairs, form-encoded, to its query; fails only where
/// `input` does not parse.
#[verifier::external_body]
fn parse_with_params(input: &str, params: &Vec<(String, String)>) -> (r: Option<String>)
    ensures
        match r {
            Some(u) => url_with_query(input@, pairs_view(params@)) == Some(u@),
            None => url_with_query(input@, pairs_view(params@)) is None,
        },
{
    url::Url::parse_with_params(input, params.iter()).ok().map(String::from)
}

/// The address of the service endpoint `path` with the query `params`.
pub fn request_url(path: &str, params: &Vec<(String, String)>) -> (r: Option<String>)
    ensures
        match r {
            Some(u) => url_with_query(API_BASE@ + path@, pairs_view(params@)) == Some(u@),
            None => url_with_query(API_BASE@ + path@, pairs_view(params@)) is None,
        },
{
    let mut full = API_BASE.to_owned();
    full.append(path);
    parse_with_params(full.as_str(), params)
}

/// The artists' names, joined with `", "`.
pub fn join_artists(artists: &Vec<Artist>) -> (r: String)
    ensures
        r@ == joined(artist_names(artists@)),
{
    let ghost names = artist_names(artists@);
    let mut r = String::new();
    let mut i: usize = 0;
    proof {
        reveal_strlit(", ");
        assert(names.take(0) =~= Seq::<Seq<char>>::empty());
    }
    while i < artists.len()
        invariant
            i <= artists@.len(),
            names == artist_names(artists@),
            names.len() == artists@.len(),
            r@ == joined(names.take(i as int)),
        decreases artists@.len() - i,
    {
        let ghost before = r@;
        if i > 0 {
            r.append(ARTIST_SEPARATOR);
            proof {
                reveal_strlit(", ");
                assert(ARTIST_SEPARATOR@ =~= artist_separator());
            }
        }
        r.append(artists[i].name.as_str());
        proof {
            let next = names.take(i + 1);
            assert(next.drop_last() =~= names.take(i as int));
            assert(next.last() == artists@[i as int].name@);
            if i == 0 {
                assert(r@ =~= joined(next));
            } else {
                assert(r@ =~= before + artist_separator() + next.last());
                assert(r@ =~= joined(next));
            }
        }
        i = i + 1;
    }
    proof {
        assert(names.take(artists@.len() as int) =~= names);
    }
    r
}

/// Whether the reply to a saved-status query (one flag per asked track) says
/// that the first track asked about is saved.
pub fn saved_from_reply(flags: &Vec<bool>) -> (r: bool)
    ensures
        r == (flags@.len() > 0 && flags@[0]),
{
    flags.len() > 0 && flags[0]
}

/// The model the display shows for the player's state: the empty model when
/// no track is loaded; else the track's name, its artists joined with `", "`,
/// the playing flag, and `saved`, the track's saved status.
pub fn model_for(player: &Player, saved: bool) -> (r: Model)
    ensures
        player.track is None ==> r.is_empty(),
        player.track matches Some(t) ==> {
            &&& r.track_name@ == t.name@
            &&& r.track_artist@ == joined(artist_names(t.artists@))
            &&& r.playing == player.is_playing
            &&& r.saved == saved
        },
{
    match &player.track {
        None => Model::empty(),
        Some(track) => Model {
            track_name: track.name.clone(),
            track_artist: join_artists(&track.artists),
            playing: player.is_playing,
            saved,
        },
    }
}

} // verus!
