use vstd::prelude::*;

use crate::fs_path::FsPath;
use crate::text::{format_minutes_seconds, spec_decimal};
use crate::CoreError;

verus! {

/// The fields a song record carries, at the specification level.
pub ghost struct SongView {
    pub title: Seq<char>,
    pub artist: Option<Seq<char>>,
    pub album: Option<Seq<char>>,
    pub track_number: Option<u16>,
    pub duration: Option<u32>,
    pub path: Seq<Seq<char>>,
}

/// The embedded tag fields of one audio file, each independently absent or
/// present, as plain values.
pub struct TagData {
    pub title: Option<String>,
    pub artist: Option<String>,
    pub album: Option<String>,
    pub track_number: Option<u16>,
}

/// The view of an optional owned string.
pub open spec fn opt_text(o: Option<String>) -> Option<Seq<char>> {
    match o {
        Some(s) => Some(s@),
        None => None,
    }
}

/// One track: its required title, its optional tag fields, and the path of
/// the file it was read from.
#[derive(Debug, PartialEq, Eq, PartialOrd, Ord)]
pub struct Song {
    title: String,
    artist: Option<String>,
    album: Option<String>,
    track_number: Option<u16>,
    duration: Option<u32>,
    path: FsPath,
}

impl View for Song {
    type V = SongView;

    closed spec fn view(&self) -> SongView {
        SongView {
            title: self.title@,
            artist: opt_text(self.artist),
            album: opt_text(self.album),
            track_number: self.track_number,
            duration: self.duration,
            path: self.path@,
        }
    }
}

impl DeepView for Song {
    type V = SongView;

    open spec fn deep_view(&self) -> SongView {
        self@
    }
}

/// An incrementally filled record of the same fields, validated by `build`.
pub struct SongBuilder {
    title: String,
    artist: Option<String>,
    album: Option<String>,
    track_number: Option<u16>,
    duration: Option<u32>,
    path: FsPath,
}

impl View for SongBuilder {
    type V = SongView;

    closed spec fn view(&self) -> SongView {
        SongView {
            title: self.title@,
            artist: opt_text(self.artist),
            album: opt_text(self.album),
            track_number: self.track_number,
            duration: self.duration,
            path: self.path@,
        }
    }
}

/// Clones an optional string, preserving its view.
pub(crate) fn clone_opt_string(o: &Option<String>) -> (r: Option<String>)
    ensures
        opt_text(r) == opt_text(*o),
{
    match o {
        Some(s) => Some(s.clone()),
        None => None,
    }
}

impl Clone for Song {
    fn clone(&self) -> (r: Self)
        ensures
            r@ == self@,
    {
        Song {
            title: self.title.clone(),
            artist: clone_opt_string(&self.artist),
            album: clone_opt_string(&self.album),
            track_number: self.track_number,
            duration: self.duration,
            path: self.path.clone(),
        }
    }
}

impl Song {
    /// A fresh builder with every field absent and the path at the root.
    pub fn new() -> (b: SongBuilder)
        ensures
            b@.title == Seq::<char>::empty(),
            b@.artist is None,
            b@.album is None,
            b@.track_number is None,
            b@.duration is None,
            b@.path == Seq::<Seq<char>>::empty(),
    {
        let b = SongBuilder {
            title: String::new(),
            artist: None,
            album: None,
            track_number: None,
            duration: None,
            path: FsPath::new(),
        };
        b
    }

    /// The duration rendered as minutes and seconds, or `MetadataError`
    /// when the song has no duration.
    pub fn duration_in_minutes_and_seconds(&self) -> (r: Result<String, CoreError>)
        ensures
            self@.duration matches Some(d) ==> r matches Ok(s) && s@ == spec_decimal(
                (d / 60) as nat,
            ) + seq!['m', ' '] + spec_decimal((d % 60) as nat) + seq!['s'],
            self@.duration is None ==> r == Err::<String, CoreError>(CoreError::MetadataError),
    {
        let duration = match self.duration {
            Some(d) => d,
            None => {
                return Err(CoreError::MetadataError);
            },
        };
        Ok(format_minutes_seconds(duration / 60, duration % 60))
    }

    /// The song's title.
    pub fn title(&self) -> (r: String)
        ensures
            r@ == self@.title,
    {
        self.title.clone()
    }

    /// The embedded track number, or `MetadataError` when the song has none.
    pub fn track_number(&self) -> (r: Result<u16, CoreError>)
        ensures
            self@.track_number matches Some(n) ==> r == Ok::<u16, CoreError>(n),
            self@.track_number is None ==> r == Err::<u16, CoreError>(CoreError::MetadataError),
    {
        match self.track_number {
            Some(n) => Ok(n),
            None => Err(CoreError::MetadataError),
        }
    }

    /// The path of the file the song was read from.
    pub fn get_path(&self) -> (r: FsPath)
        ensures
            r@ == self@.path,
    {
        self.path.clone()
    }

    /// The file name of the song: the lowest component of its path, or the
    /// empty string when the path is the root.
    pub fn get_file_name(&self) -> (r: String)
        ensures
            self@.path.len() > 0 ==> r@ == self@.path.last(),
            self@.path.len() == 0 ==> r@ == Seq::<char>::empty(),
    {
        match self.path.last() {
            Some(name) => name.clone(),
            None => String::new(),
        }
    }
}

impl SongBuilder {
    /// A builder holding placeholder values: empty texts, track number
    /// zero and duration zero.
    pub fn new() -> (b: SongBuilder)
        ensures
            b@.title == Seq::<char>::empty(),
            b@.artist == Some(Seq::<char>::empty()),
            b@.album == Some(Seq::<char>::empty()),
            b@.track_number == Some(0u16),
            b@.duration == Some(0u32),
            b@.path == Seq::<Seq<char>>::empty(),
    {
        let b = SongBuilder {
            title: String::new(),
            artist: Some(String::new()),
            album: Some(String::new()),
            track_number: Some(0),
            duration: Some(0),
            path: FsPath::new(),
        };
        b
    }

    /// Fills the builder from tag fields already read from a file. The
    /// title is required; every other field is taken as it is, absent or
    /// present.
    pub fn with_tags(self, tags: TagData, duration: Option<u32>, path: &FsPath) -> (r: Result<
        SongBuilder,
        CoreError,
    >)
        ensures
            tags.title is None ==> r == Err::<SongBuilder, CoreError>(CoreError::MetadataError),
            tags.title matches Some(t) ==> r matches Ok(b) && b@ == (SongView {
                title: t@,
                artist: opt_text(tags.artist),
                album: opt_text(tags.album),
                track_number: tags.track_number,
                duration: duration,
                path: path@,
            }),
    {
        let title = match tags.title {
            Some(t) => t,
            None => {
                return Err(CoreError::MetadataError);
            },
        };
        Ok(
            SongBuilder {
                title,
                artist: tags.artist,
                album: tags.album,
                track_number: tags.track_number,
                duration,
                path: path.clone(),
            },
        )
    }

    /// Sets the duration, in whole seconds, or marks it absent.
    pub fn duration(self, duration: Option<u32>) -> (b: SongBuilder)
        ensures
            b@ == (SongView { duration, ..self@ }),
    {
        SongBuilder { duration, ..self }
    }

    /// Reads the tag fields of the file at `path` and fills the builder
    /// from them; the duration already held by the builder is kept. Fails
    /// with `IoError` when the file cannot be read as a tagged audio file,
    /// and with `MetadataError` when it carries no title.
    pub fn from_path(self, path: &FsPath) -> (r: Result<SongBuilder, CoreError>)
        ensures
            r matches Ok(b) ==> b@.path == path@ && b@.duration == self@.duration,
            r matches Err(e) ==> (e == CoreError::IoError || e == CoreError::MetadataError),
    {
        let text = path.to_text();
        let duration = self.duration;
        match read_tags(text.as_str()) {
            None => Err(CoreError::IoError),
            Some(tags) => self.with_tags(tags, duration, path),
        }
    }

    /// The finished song, carrying the builder's fields unchanged.
    pub fn build(self) -> (r: Song)
        ensures
            r@ == self@,
    {
        Song {
            title: self.title,
            artist: self.artist,
            album: self.album,
            track_number: self.track_number,
            duration: self.duration,
            path: self.path,
        }
    }
}

/// Relies on audiotags::Tag::read_from_path and the tag accessors `title`,
/// `album` and `track_number`: returns the embedded tag fields of the file
/// at `path` as plain values, or `None` when the file cannot be read or
/// holds no recognised tag. What comes back depends on what is on disk, so
/// nothing more is promised of it.
#[verifier::external_body]
fn read_tags(path: &str) -> (r: Option<TagData>)
{
    let tag = audiotags::Tag::new().read_from_path(path).ok()?;
    let album = tag.album();
    Some(
        TagData {
            title: tag.title().map(|s| s.to_owned()),
            artist: album.as_ref().and_then(|a| a.artist.map(|s| s.to_owned())),
            album: album.as_ref().map(|a| a.title.to_owned()),
            track_number: tag.track_number(),
        },
    )
}

} // verus!
