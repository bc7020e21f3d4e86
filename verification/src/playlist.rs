use vstd::prelude::*;

use crate::fs_path::FsPath;
use crate::ordering::{correct_order, order_by_tracks};
use crate::song::{Song, SongBuilder, SongView};
use crate::CoreError;

verus! {

/// The specification-level content of a playlist.
pub ghost struct PlaylistView {
    pub name: Seq<char>,
    pub length: u32,
    pub songs: Seq<SongView>,
}

/// A named list of songs read from one directory.
#[derive(Debug)]
pub struct Playlist {
    name: String,
    length: u32,
    songs: Vec<Song>,
}

impl View for Playlist {
    type V = PlaylistView;

    closed spec fn view(&self) -> PlaylistView {
        PlaylistView { name: self.name@, length: self.length, songs: self.songs.deep_view() }
    }
}

impl Playlist {
    /// The songs of the playlist, in their stored order.
    pub fn songs(&self) -> (r: &Vec<Song>)
        ensures
            r.deep_view() == self@.songs,
    {
        &self.songs
    }
}

/// The track numbers of a sequence of songs, positionwise.
pub open spec fn song_tracks(songs: Seq<SongView>) -> Seq<Option<u16>> {
    Seq::new(songs.len(), |i: int| songs[i].track_number)
}

/// Builds a playlist from a directory's songs.
pub struct PlaylistBuilder {
    name: String,
    length: u32,
    songs: Vec<Song>,
}

impl View for PlaylistBuilder {
    type V = PlaylistView;

    closed spec fn view(&self) -> PlaylistView {
        PlaylistView { name: self.name@, length: self.length, songs: self.songs.deep_view() }
    }
}

impl PlaylistBuilder {
    /// An empty, unnamed playlist.
    pub fn new() -> (r: PlaylistBuilder)
        ensures
            r@.name == Seq::<char>::empty(),
            r@.length == 0,
            r@.songs == Seq::<SongView>::empty(),
    {
        let r = PlaylistBuilder { name: String::new(), length: 0, songs: Vec::new() };
        proof {
            assert(r@.songs =~= Seq::<SongView>::empty());
        }
        r
    }

    /// Fills the playlist from the directory at `path`, whose children are
    /// handed in as `names`; `None` means the directory could not be read
    /// and fails with `IoError`. Each child that can be read as a tagged
    /// audio file becomes a song; the others are passed over. The playlist
    /// is named after the lowest path component and counts its songs.
    pub fn from_path(self, path: &FsPath, names: Option<Vec<String>>) -> (r: Result<
        PlaylistBuilder,
        CoreError,
    >)
        ensures
            names is None ==> (r matches Err(e) && e == CoreError::IoError),
            names matches Some(ns) ==> (r matches Ok(b) && {
                &&& b@.name == (if path@.len() > 0 {
                    path@.last()
                } else {
                    Seq::<char>::empty()
                })
                &&& b@.length as int == (if b@.songs.len() < u32::MAX as int {
                    b@.songs.len() as int
                } else {
                    u32::MAX as int
                })
                &&& b@.songs.len() <= ns@.len()
                &&& forall|k: int|
                    0 <= k < b@.songs.len() ==> (#[trigger] b@.songs[k].path).len() == path@.len()
                        + 1 && b@.songs[k].path.drop_last() == path@
            }),
    {
        let ns = match names {
            Some(ns) => ns,
            None => {
                return Err(CoreError::IoError);
            },
        };
        let mut songs: Vec<Song> = Vec::new();
        let mut i: usize = 0;
        while i < ns.len()
            invariant
                i <= ns@.len(),
                songs@.len() <= i,
                forall|k: int|
                    0 <= k < songs@.len() ==> exists|j: int|
                        0 <= j < ns@.len() && (#[trigger] songs@[k]@.path) == path@.push(ns@[j]@),
            decreases ns@.len() - i,
        {
            let mut file_path = path.clone();
            file_path.push(ns[i].clone());
            match SongBuilder::new().from_path(&file_path) {
                Ok(builder) => {
                    let song = builder.build();
                    songs.push(song);
                },
                Err(_) => {},
            }
            i += 1;
        }
        let name = match path.last() {
            Some(s) => s.clone(),
            None => String::new(),
        };
        let length: u32 = if songs.len() >= (u32::MAX as usize) {
            u32::MAX
        } else {
            songs.len() as u32
        };
        let ghost snap = songs@;
        let b = PlaylistBuilder { name, length, songs };
        proof {
            assert(b.songs@ == snap);
            assert(b@.songs.len() == snap.len());
            assert forall|k: int| 0 <= k < b@.songs.len() implies (#[trigger] b@.songs[k].path).len()
                == path@.len() + 1 && b@.songs[k].path.drop_last() == path@ by {
                assert(b@.songs[k] == snap[k]@);
                let j = choose|j: int|
                    0 <= j < ns@.len() && (#[trigger] snap[k]@.path) == path@.push(ns@[j]@);
                assert(snap[k]@.path == path@.push(ns@[j]@));
                assert(path@.push(ns@[j]@).drop_last() =~= path@);
            }
        }
        Ok(b)
    }

    /// Rearranges the songs by the stable ascending order of their track
    /// numbers; when any song has none, the list is left as it stands.
    pub fn sort_by_track_number(self) -> (r: PlaylistBuilder)
        ensures
            r@.name == self@.name,
            r@.length == self@.length,
            correct_order(self@.songs, song_tracks(self@.songs), r@.songs),
    {
        let mut tracks: Vec<Option<u16>> = Vec::new();
        let mut i: usize = 0;
        while i < self.songs.len()
            invariant
                i <= self.songs@.len(),
                self.songs.deep_view().len() == self.songs@.len(),
                tracks@ =~= song_tracks(self.songs.deep_view()).subrange(0, i as int),
            decreases self.songs@.len() - i,
        {
            let t = match self.songs[i].track_number() {
                Ok(n) => Some(n),
                Err(_) => None,
            };
            tracks.push(t);
            proof {
                assert(self.songs.deep_view()[i as int] == self.songs@[i as int]@);
                assert(tracks@ =~= song_tracks(self.songs.deep_view()).subrange(0, i + 1));
            }
            i += 1;
        }
        proof {
            let all = song_tracks(self.songs.deep_view());
            assert(all.subrange(0, all.len() as int) =~= all);
        }
        let PlaylistBuilder { name, length, songs } = self;
        let sorted = order_by_tracks(songs, &tracks);
        PlaylistBuilder { name, length, songs: sorted }
    }

    /// The finished playlist, carrying the builder's fields unchanged.
    pub fn build(self) -> (r: Playlist)
        ensures
            r@ == self@,
    {
        Playlist { name: self.name, length: self.length, songs: self.songs }
    }
}

} // verus!
