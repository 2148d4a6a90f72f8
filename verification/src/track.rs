//! The track descriptor: one immutable metadata record per audio file.

use vstd::prelude::*;

verus! {

/// Mathematical view of a [`Song`]: every field as a plain sequence or number.
pub struct SongModel {
    pub title: Seq<char>,
    pub artist: Seq<char>,
    pub album: Seq<char>,
    /// Track length in whole seconds.
    pub duration: u64,
    pub date: Seq<char>,
    pub playing: bool,
    pub path: Seq<char>,
}

/// One track of the music library.  Built once by the library loader and
/// never changed afterwards; the playback engine clones it when handing it
/// to the audio output or the user interface.  The duration is kept in
/// whole seconds.
#[derive(Debug, PartialEq)]
pub struct Song {
    pub title: String,
    pub artist: String,
    pub album: String,
    pub duration: u64,
    pub date: String,
    pub playing: bool,
    pub path: String,
}

impl View for Song {
    type V = SongModel;

    open spec fn view(&self) -> SongModel {
        SongModel {
            title: self.title@,
            artist: self.artist@,
            album: self.album@,
            duration: self.duration,
            date: self.date@,
            playing: self.playing,
            path: self.path@,
        }
    }
}

impl Clone for Song {
    fn clone(&self) -> (r: Self)
        ensures
            r@ == self@,
    {
        Song {
            title: self.title.clone(),
            artist: self.artist.clone(),
            album: self.album.clone(),
            duration: self.duration,
            date: self.date.clone(),
            playing: self.playing,
            path: self.path.clone(),
        }
    }
}

impl Default for Song {
    /// A track with empty metadata, as produced for a file whose tags could
    /// not be read.
    fn default() -> (r: Self)
        ensures
            r@.title.len() == 0,
            r@.artist.len() == 0,
            r@.album.len() == 0,
            r@.duration == 0,
            r@.date.len() == 0,
            r@.playing == false,
            r@.path.len() == 0,
    {
        Song {
            title: String::new(),
            artist: String::new(),
            album: String::new(),
            duration: 0,
            date: String::new(),
            playing: false,
            path: String::new(),
        }
    }
}

} // verus!
