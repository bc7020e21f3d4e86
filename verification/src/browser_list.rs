use vstd::prelude::*;

use crate::fs_path::{spec_path_text, FsPath};
use crate::ordering::{correct_order, order_by_tracks};
use crate::player::{ThreadCommand, ThreadMessage};
use crate::song::{opt_text, SongBuilder};
use crate::text::{spec_ends_with, spec_starts_with, str_ends_with, str_starts_with};
use crate::CoreError;

verus! {

/// Classification of one directory entry, and of the current selection.
#[derive(Clone, Copy, Debug, PartialEq, Eq, Structural)]
pub enum FileType {
    FILE,
    DIRECTORY,
    NONE,
}

/// The specification-level content of a directory entry.
pub ghost struct EntryView {
    pub name: Seq<char>,
    pub kind: FileType,
}

/// One child of a directory: its name and whether it is a file or a
/// directory, as the enumeration reported it.
#[derive(Debug)]
pub struct DirEntry {
    pub name: String,
    pub kind: FileType,
}

impl View for DirEntry {
    type V = EntryView;

    open spec fn view(&self) -> EntryView {
        EntryView { name: self.name@, kind: self.kind }
    }
}

impl DeepView for DirEntry {
    type V = EntryView;

    open spec fn deep_view(&self) -> EntryView {
        self@
    }
}

impl Clone for DirEntry {
    fn clone(&self) -> (r: Self)
        ensures
            r@ == self@,
    {
        DirEntry { name: self.name.clone(), kind: self.kind }
    }
}

/// Hidden entries are those whose name starts with a dot.
pub open spec fn is_hidden(name: Seq<char>) -> bool {
    name.len() > 0 && name[0] == '.'
}

/// The listing without its hidden entries, order kept.
pub open spec fn visible_of(entries: Seq<EntryView>) -> Seq<EntryView>
    decreases entries.len(),
{
    if entries.len() == 0 {
        Seq::empty()
    } else {
        let rest = visible_of(entries.drop_last());
        if is_hidden(entries.last().name) {
            rest
        } else {
            rest.push(entries.last())
        }
    }
}

/// An entry the ordering policy takes for an audio file.
pub open spec fn is_audio_name(name: Seq<char>) -> bool {
    spec_ends_with(name, seq!['.', 'm', 'p', '3'])
}

/// Every entry of the listing looks like an audio file.
pub open spec fn all_audio(entries: Seq<EntryView>) -> bool {
    forall|i: int| 0 <= i < entries.len() ==> is_audio_name(#[trigger] entries[i].name)
}

/// Clones a listing, preserving its content.
fn clone_entries(v: &Vec<DirEntry>) -> (r: Vec<DirEntry>)
    ensures
        r.deep_view() == v.deep_view(),
        r@.len() == v@.len(),
{
    let mut r: Vec<DirEntry> = Vec::new();
    let mut i: usize = 0;
    while i < v.len()
        invariant
            i <= v@.len(),
            r@.len() == i,
            forall|j: int| 0 <= j < i ==> r@[j]@ == v@[j]@,
        decreases v@.len() - i,
    {
        r.push(v[i].clone());
        i += 1;
    }
    proof {
        assert(r.deep_view() =~= v.deep_view());
    }
    r
}

/// True exactly when the two listings hold the same entries in the same
/// order.
fn entries_match(a: &Vec<DirEntry>, b: &Vec<DirEntry>) -> (r: bool)
    ensures
        r == (a.deep_view() == b.deep_view()),
{
    proof {
        assert(a.deep_view().len() == a@.len());
        assert(b.deep_view().len() == b@.len());
    }
    if a.len() != b.len() {
        return false;
    }
    let mut i: usize = 0;
    while i < a.len()
        invariant
            i <= a@.len(),
            a@.len() == b@.len(),
            a.deep_view().len() == a@.len(),
            b.deep_view().len() == b@.len(),
            forall|j: int| 0 <= j < i ==> a.deep_view()[j] == b.deep_view()[j],
        decreases a@.len() - i,
    {
        let same_name = a[i].name == b[i].name;
        let same_kind = a[i].kind == b[i].kind;
        if !(same_name && same_kind) {
            proof {
                assert(a.deep_view()[i as int] == a@[i as int]@);
                assert(b.deep_view()[i as int] == b@[i as int]@);
            }
            return false;
        }
        proof {
            assert(a.deep_view()[i as int] == a@[i as int]@);
            assert(b.deep_view()[i as int] == b@[i as int]@);
        }
        i += 1;
    }
    proof {
        assert(a.deep_view() =~= b.deep_view());
    }
    true
}

/// The Track Ordering Policy: reads the tags of each entry of `entries`
/// under the directory `dir` and rearranges the entries by the stable
/// ascending order of their embedded track numbers; when any entry yields
/// no track number the listing comes back unchanged. What the tags hold
/// depends on the disk, so the contract promises an ordering that is
/// correct for some assignment of track numbers to the entries.
pub fn sort_by_track_number(entries: Vec<DirEntry>, dir: &FsPath) -> (r: Vec<DirEntry>)
    ensures
        exists|tracks: Seq<Option<u16>>|
            tracks.len() == entries@.len() && #[trigger] correct_order(
                entries.deep_view(),
                tracks,
                r.deep_view(),
            ),
        r@.len() == entries@.len(),
{
    let mut tracks: Vec<Option<u16>> = Vec::new();
    let mut i: usize = 0;
    while i < entries.len()
        invariant
            i <= entries@.len(),
            tracks@.len() == i,
        decreases entries@.len() - i,
    {
        let mut file_path = dir.clone();
        file_path.push(entries[i].name.clone());
        let track = match SongBuilder::new().from_path(&file_path) {
            Ok(builder) => {
                let song = builder.build();
                match song.track_number() {
                    Ok(n) => Some(n),
                    Err(_) => None,
                }
            },
            Err(_) => None,
        };
        tracks.push(track);
        i += 1;
    }
    let r = order_by_tracks(entries, &tracks);
    proof {
        assert(tracks@.len() == entries@.len() && correct_order(
            entries.deep_view(),
            tracks@,
            r.deep_view(),
        ));
    }
    r
}

/// Remembers the last ordering the policy computed, keyed by the exact
/// listing and directory it was computed for, so that repeated refreshes
/// of an unchanged directory do not read tags from disk again.
pub struct OrderCache {
    entry: Option<CacheEntry>,
}

struct CacheEntry {
    key_entries: Vec<DirEntry>,
    key_dir: FsPath,
    value: Vec<DirEntry>,
}

impl OrderCache {
    /// The cached value, when present, is a correct ordering of its key.
    pub closed spec fn wf(&self) -> bool {
        match self.entry {
            None => true,
            Some(c) => exists|tracks: Seq<Option<u16>>|
                tracks.len() == c.key_entries@.len() && #[trigger] correct_order(
                    c.key_entries.deep_view(),
                    tracks,
                    c.value.deep_view(),
                ) && c.value@.len() == c.key_entries@.len(),
        }
    }

    /// An empty cache.
    pub fn new() -> (r: OrderCache)
        ensures
            r.wf(),
    {
        OrderCache { entry: None }
    }

    /// The ordering policy with memoization: answers from the cache when
    /// the same listing of the same directory was ordered before, and
    /// otherwise computes the ordering and remembers it.
    pub fn order(&mut self, entries: Vec<DirEntry>, dir: &FsPath) -> (r: Vec<DirEntry>)
        requires
            old(self).wf(),
        ensures
            final(self).wf(),
            exists|tracks: Seq<Option<u16>>|
                tracks.len() == entries@.len() && #[trigger] correct_order(
                    entries.deep_view(),
                    tracks,
                    r.deep_view(),
                ),
            r@.len() == entries@.len(),
    {
        let hit = match &self.entry {
            Some(c) => c.key_dir.matches(dir) && entries_match(&c.key_entries, &entries),
            None => false,
        };
        if hit {
            match &self.entry {
                Some(c) => {
                    let value = clone_entries(&c.value);
                    proof {
                        assert(entries.deep_view().len() == entries@.len());
                        assert(c.key_entries.deep_view().len() == c.key_entries@.len());
                    }
                    return value;
                },
                None => {},
            }
        }
        let key_entries = clone_entries(&entries);
        let key_dir = dir.clone();
        let value = sort_by_track_number(entries, dir);
        let stored = clone_entries(&value);
        self.entry = Some(CacheEntry { key_entries, key_dir, value: stored });
        proof {
            let c = self.entry->0;
            let tracks = choose|tracks: Seq<Option<u16>>|
                tracks.len() == entries@.len() && #[trigger] correct_order(
                    entries.deep_view(),
                    tracks,
                    value.deep_view(),
                );
            assert(tracks.len() == c.key_entries@.len() && correct_order(
                c.key_entries.deep_view(),
                tracks,
                c.value.deep_view(),
            ) && c.value@.len() == c.key_entries@.len());
        }
        value
    }
}

/// The specification-level content of the browser: the displayed directory,
/// its listing, the selection, and the selection's classification.
pub ghost struct BrowserView {
    pub path: Seq<Seq<char>>,
    pub items: Seq<EntryView>,
    pub selected: Option<int>,
    pub file_type: FileType,
    pub current_dir: Option<Seq<char>>,
    pub current_file: Option<Seq<char>>,
}

/// The view with its classification fields derived from the selection: the
/// selected entry's kind, and its name under `current_dir` or
/// `current_file` accordingly.
pub open spec fn spec_classified(v: BrowserView) -> BrowserView {
    match v.selected {
        None => BrowserView {
            file_type: FileType::NONE,
            current_dir: None,
            current_file: None,
            ..v
        },
        Some(i) => {
            let e = v.items[i];
            match e.kind {
                FileType::DIRECTORY => BrowserView {
                    file_type: FileType::DIRECTORY,
                    current_dir: Some(e.name),
                    current_file: None,
                    ..v
                },
                FileType::FILE => BrowserView {
                    file_type: FileType::FILE,
                    current_file: Some(e.name),
                    current_dir: None,
                    ..v
                },
                FileType::NONE => BrowserView {
                    file_type: FileType::NONE,
                    current_dir: None,
                    current_file: None,
                    ..v
                },
            }
        },
    }
}

/// The selection is absent exactly on an empty listing, in bounds
/// otherwise, and the classification fields describe the selected entry.
pub open spec fn selection_consistent(v: BrowserView) -> bool {
    &&& (v.selected is None <==> v.items.len() == 0)
    &&& (v.selected matches Some(i) ==> 0 <= i < v.items.len())
    &&& v == spec_classified(v)
}

/// The selection a refresh keeps: unchanged while still in bounds, clamped
/// to the first entry otherwise, absent on an empty listing.
pub open spec fn spec_clamp(sel: Option<int>, n: int) -> Option<int> {
    if n == 0 {
        None
    } else {
        match sel {
            Some(k) => if 0 <= k < n {
                Some(k)
            } else {
                Some(0int)
            },
            None => Some(0int),
        }
    }
}

/// The selection after moving forward once, wrapping at the end.
pub open spec fn spec_next_index(sel: Option<int>, n: int) -> int {
    match sel {
        Some(i) => if i + 1 >= n {
            0
        } else {
            i + 1
        },
        None => 0,
    }
}

/// The selection after moving backward once, wrapping at the start.
pub open spec fn spec_previous_index(sel: Option<int>, n: int) -> int {
    match sel {
        Some(i) => if i == 0 {
            n - 1
        } else {
            i - 1
        },
        None => 0,
    }
}

/// What one refresh from the raw listing `raw` does to the browser: hidden
/// entries are dropped in order; a listing of audio files alone is handed
/// to the ordering policy, any other listing keeps enumeration order; the
/// selection is clamped; and the classification follows the new selection.
pub open spec fn spec_refreshed(pre: BrowserView, raw: Seq<EntryView>, post: BrowserView) -> bool {
    let vis = visible_of(raw);
    &&& post.path == pre.path
    &&& post.items.len() == vis.len()
    &&& (!all_audio(vis) ==> post.items == vis)
    &&& (all_audio(vis) ==> exists|tracks: Seq<Option<u16>>|
        tracks.len() == vis.len() && #[trigger] correct_order(vis, tracks, post.items))
    &&& post.selected == spec_clamp(pre.selected, post.items.len() as int)
    &&& post == spec_classified(post)
}

/// The selection moved forward `k` times.
pub open spec fn advance_times(i: int, n: int, k: nat) -> int
    decreases k,
{
    if k == 0 {
        i
    } else {
        spec_next_index(Some(advance_times(i, n, (k - 1) as nat)), n)
    }
}

/// The selection moved backward `k` times.
pub open spec fn retreat_times(i: int, n: int, k: nat) -> int
    decreases k,
{
    if k == 0 {
        i
    } else {
        spec_previous_index(Some(retreat_times(i, n, (k - 1) as nat)), n)
    }
}

proof fn lemma_advance_times_shape(i: int, n: int, k: nat)
    requires
        0 <= i < n,
        k <= n,
    ensures
        advance_times(i, n, k) == if i + k < n {
            i + k
        } else {
            i + k - n
        },
    decreases k,
{
    if k > 0 {
        lemma_advance_times_shape(i, n, (k - 1) as nat);
    }
}

proof fn lemma_retreat_times_shape(i: int, n: int, k: nat)
    requires
        0 <= i < n,
        k <= n,
    ensures
        retreat_times(i, n, k) == if i - k >= 0 {
            i - k
        } else {
            i - k + n
        },
    decreases k,
{
    if k > 0 {
        lemma_retreat_times_shape(i, n, (k - 1) as nat);
    }
}

/// Selection wraparound: from any valid position in a listing of `n`
/// entries, moving the selection forward `n` times returns it to where it
/// started, and so does moving it backward `n` times.
pub proof fn lemma_selection_wraparound(i: int, n: int)
    requires
        0 <= i < n,
    ensures
        advance_times(i, n, n as nat) == i,
        retreat_times(i, n, n as nat) == i,
{
    lemma_advance_times_shape(i, n, n as nat);
    lemma_retreat_times_shape(i, n, n as nat);
}

/// A file name the interface hands to the player: an audio suffix it
/// supports.
pub open spec fn is_playable(name: Seq<char>) -> bool {
    spec_ends_with(name, seq!['.', 'm', 'p', '3']) || spec_ends_with(
        name,
        seq!['.', 'f', 'l', 'a', 'c'],
    )
}

/// The state of the file browser: the displayed directory, its listing,
/// the selection with its classification, and the ordering policy's cache.
pub struct BrowserState {
    path: FsPath,
    items: Vec<DirEntry>,
    selected: Option<usize>,
    file_type: FileType,
    current_dir: Option<String>,
    current_file: Option<String>,
    cache: OrderCache,
}

impl View for BrowserState {
    type V = BrowserView;

    closed spec fn view(&self) -> BrowserView {
        BrowserView {
            path: self.path@,
            items: self.items.deep_view(),
            selected: match self.selected {
                Some(i) => Some(i as int),
                None => None,
            },
            file_type: self.file_type,
            current_dir: opt_text(self.current_dir),
            current_file: opt_text(self.current_file),
        }
    }
}

impl BrowserState {
    /// The browser's invariant: its selection is consistent and its cache
    /// holds only correct orderings.
    pub closed spec fn wf(&self) -> bool {
        self.cache.wf() && selection_consistent(self@)
    }

    /// Sets the classification fields from the current selection.
    fn classify(&mut self)
        requires
            old(self).selected matches Some(i) ==> i < old(self).items@.len(),
        ensures
            final(self)@ == spec_classified(old(self)@),
            final(self).cache == old(self).cache,
    {
        match self.selected {
            None => {
                self.file_type = FileType::NONE;
                self.current_dir = None;
                self.current_file = None;
            },
            Some(i) => {
                let name = self.items[i].name.clone();
                let kind = self.items[i].kind;
                match kind {
                    FileType::DIRECTORY => {
                        self.file_type = FileType::DIRECTORY;
                        self.current_dir = Some(name);
                        self.current_file = None;
                    },
                    FileType::FILE => {
                        self.file_type = FileType::FILE;
                        self.current_file = Some(name);
                        self.current_dir = None;
                    },
                    FileType::NONE => {
                        self.file_type = FileType::NONE;
                        self.current_dir = None;
                        self.current_file = None;
                    },
                }
                proof {
                    assert(self.items.deep_view()[i as int] == self.items@[i as int]@);
                }
            },
        }
    }

    /// Rebuilds the listing from a raw enumeration and re-derives the
    /// selection and its classification.
    fn refresh_with(&mut self, raw: Vec<DirEntry>)
        requires
            old(self).cache.wf(),
        ensures
            final(self).cache.wf(),
            selection_consistent(final(self)@),
            spec_refreshed(old(self)@, raw.deep_view(), final(self)@),
    {
        let ghost rawv = raw.deep_view();
        // Drop hidden entries, keeping enumeration order.
        let mut visible: Vec<DirEntry> = Vec::new();
        let mut i: usize = 0;
        while i < raw.len()
            invariant
                i <= raw@.len(),
                rawv == raw.deep_view(),
                rawv.len() == raw@.len(),
                visible.deep_view() == visible_of(rawv.subrange(0, i as int)),
                visible.deep_view().len() == visible@.len(),
            decreases raw@.len() - i,
        {
            let hidden = str_starts_with(raw[i].name.as_str(), ".");
            if !hidden {
                visible.push(raw[i].clone());
            }
            proof {
                reveal_strlit(".");
                assert("."@ =~= seq!['.']);
                let t = rawv.subrange(0, i + 1);
                assert(t.drop_last() =~= rawv.subrange(0, i as int));
                assert(t.last() == rawv[i as int]);
                assert(rawv[i as int] == raw@[i as int]@);
                let name = raw@[i as int]@.name;
                assert(hidden == spec_starts_with(name, "."@));
                if name.len() > 0 {
                    assert(name.subrange(0, 1) =~= seq![name[0]]);
                    assert(seq!['.'][0] == '.');
                }
                assert(hidden == is_hidden(name));
                assert(visible.deep_view() =~= visible_of(t));
            }
            i += 1;
        }
        proof {
            assert(rawv.subrange(0, raw@.len() as int) =~= rawv);
        }
        let ghost vis = visible_of(rawv);
        // A listing of audio files alone is handed to the ordering policy.
        let mut all = true;
        i = 0;
        while i < visible.len()
            invariant
                i <= visible@.len(),
                vis == visible.deep_view(),
                vis.len() == visible@.len(),
                all <==> (forall|j: int| 0 <= j < i ==> is_audio_name(#[trigger] vis[j].name)),
            decreases visible@.len() - i,
        {
            let audio = str_ends_with(visible[i].name.as_str(), ".mp3");
            let new_all = all && audio;
            proof {
                reveal_strlit(".mp3");
                assert(".mp3"@ =~= seq!['.', 'm', 'p', '3']);
                assert(vis[i as int] == visible@[i as int]@);
                assert(audio == is_audio_name(vis[i as int].name));
                if new_all {
                    assert forall|j: int| 0 <= j < i + 1 implies is_audio_name(
                        #[trigger] vis[j].name,
                    ) by {
                        if j == i {
                            assert(is_audio_name(vis[j].name));
                        }
                    }
                } else {
                    if !audio {
                        assert(!is_audio_name(vis[i as int].name));
                    } else {
                        assert(exists|j: int| 0 <= j < i && !is_audio_name(#[trigger] vis[j].name));
                        let j = choose|j: int| 0 <= j < i && !is_audio_name(#[trigger] vis[j].name);
                        assert(!is_audio_name(vis[j].name));
                    }
                }
            }
            all = new_all;
            i += 1;
        }
        proof {
            assert(all <==> all_audio(vis));
        }
        let items = if all {
            let dir = self.path.clone();
            self.cache.order(visible, &dir)
        } else {
            visible
        };
        proof {
            assert(items.deep_view().len() == items@.len());
        }
        let n = items.len();
        self.items = items;
        self.selected = if n == 0 {
            None
        } else {
            match self.selected {
                Some(k) => if k < n {
                    Some(k)
                } else {
                    Some(0)
                },
                None => Some(0),
            }
        };
        self.classify();
    }

    /// Re-reads the displayed directory from the given enumeration:
    /// rebuilds the listing, keeps the selection while it stays in bounds
    /// and clamps it to the first entry otherwise, and re-derives the
    /// selection's classification. When the directory could not be read
    /// (`listing` is `None`) it fails with `IoError` and changes nothing.
    pub fn update_state(&mut self, listing: Option<Vec<DirEntry>>) -> (r: Result<(), CoreError>)
        requires
            old(self).wf(),
        ensures
            final(self).wf(),
            listing is None ==> r == Err::<(), CoreError>(CoreError::IoError) && final(self)@
                == old(self)@,
            listing matches Some(raw) ==> r == Ok::<(), CoreError>(()) && spec_refreshed(
                old(self)@,
                raw.deep_view(),
                final(self)@,
            ),
    {
        let raw = match listing {
            Some(raw) => raw,
            None => {
                return Err(CoreError::IoError);
            },
        };
        self.refresh_with(raw);
        Ok(())
    }

    /// Moves the selection to the next entry, wrapping past the last one
    /// to the first; on an empty listing nothing changes. The selection's
    /// classification follows it.
    pub fn next(&mut self)
        requires
            old(self).wf(),
        ensures
            final(self).wf(),
            final(self)@.path == old(self)@.path,
            final(self)@.items == old(self)@.items,
            old(self)@.items.len() == 0 ==> final(self)@ == old(self)@,
            old(self)@.items.len() > 0 ==> final(self)@.selected == Some(
                spec_next_index(old(self)@.selected, old(self)@.items.len() as int),
            ),
            final(self)@ == spec_classified(final(self)@),
    {
        let n = self.items.len();
        if n == 0 {
            return;
        }
        let i: usize = match self.selected {
            Some(i) => if i + 1 >= n {
                0
            } else {
                i + 1
            },
            None => 0,
        };
        self.selected = Some(i);
        self.classify();
    }

    /// Moves the selection to the previous entry, wrapping past the first
    /// one to the last; on an empty listing nothing changes. The
    /// selection's classification follows it.
    pub fn previous(&mut self)
        requires
            old(self).wf(),
        ensures
            final(self).wf(),
            final(self)@.path == old(self)@.path,
            final(self)@.items == old(self)@.items,
            old(self)@.items.len() == 0 ==> final(self)@ == old(self)@,
            old(self)@.items.len() > 0 ==> final(self)@.selected == Some(
                spec_previous_index(old(self)@.selected, old(self)@.items.len() as int),
            ),
            final(self)@ == spec_classified(final(self)@),
    {
        let n = self.items.len();
        if n == 0 {
            return;
        }
        let i: usize = match self.selected {
            Some(i) => if i == 0 {
                n - 1
            } else {
                i - 1
            },
            None => 0,
        };
        self.selected = Some(i);
        self.classify();
    }

    /// Descends into the selected directory: appends its name to the
    /// displayed path and resets the selection to the first entry; when the
    /// selection is not a directory the path stays. Either way the listing
    /// is refreshed from `listing`, which must enumerate the directory that
    /// is displayed afterwards. When that directory could not be read
    /// (`listing` is `None`) it fails with `IoError` and changes nothing.
    pub fn select(&mut self, listing: Option<Vec<DirEntry>>) -> (r: Result<(), CoreError>)
        requires
            old(self).wf(),
        ensures
            final(self).wf(),
            listing is None ==> r == Err::<(), CoreError>(CoreError::IoError) && final(self)@
                == old(self)@,
            listing matches Some(raw) ==> r == Ok::<(), CoreError>(()) && {
                let descending = old(self)@.file_type == FileType::DIRECTORY
                    && old(self)@.current_dir is Some;
                if descending {
                    spec_refreshed(
                        BrowserView {
                            path: old(self)@.path.push(old(self)@.current_dir->0),
                            selected: Some(0int),
                            ..old(self)@
                        },
                        raw.deep_view(),
                        final(self)@,
                    )
                } else {
                    spec_refreshed(old(self)@, raw.deep_view(), final(self)@)
                }
            },
    {
        let raw = match listing {
            Some(raw) => raw,
            None => {
                return Err(CoreError::IoError);
            },
        };
        if matches!(self.file_type, FileType::DIRECTORY) {
            match crate::song::clone_opt_string(&self.current_dir) {
                Some(dir) => {
                    self.path.push(dir);
                    self.selected = Some(0);
                },
                None => {},
            }
        }
        self.refresh_with(raw);
        Ok(())
    }

    /// Ascends one directory: removes the lowest component of the
    /// displayed path — at the filesystem root the path stays as it is —
    /// and refreshes the listing from `listing`, which must enumerate the
    /// directory that is displayed afterwards. When that directory could
    /// not be read (`listing` is `None`) it fails with `IoError` and
    /// changes nothing.
    pub fn pop(&mut self, listing: Option<Vec<DirEntry>>) -> (r: Result<(), CoreError>)
        requires
            old(self).wf(),
        ensures
            final(self).wf(),
            listing is None ==> r == Err::<(), CoreError>(CoreError::IoError) && final(self)@
                == old(self)@,
            listing matches Some(raw) ==> r == Ok::<(), CoreError>(()) && spec_refreshed(
                BrowserView {
                    path: if old(self)@.path.len() == 0 {
                        old(self)@.path
                    } else {
                        old(self)@.path.drop_last()
                    },
                    ..old(self)@
                },
                raw.deep_view(),
                final(self)@,
            ),
    {
        let raw = match listing {
            Some(raw) => raw,
            None => {
                return Err(CoreError::IoError);
            },
        };
        self.path.pop();
        self.refresh_with(raw);
        Ok(())
    }

    /// The displayed directory's path.
    pub fn get_path(&self) -> (r: FsPath)
        ensures
            r@ == self@.path,
    {
        self.path.clone()
    }

    /// The displayed listing.
    pub fn items(&self) -> (r: &Vec<DirEntry>)
        ensures
            r.deep_view() == self@.items,
    {
        &self.items
    }

    /// The selected position, if any entry is selected.
    pub fn selected_index(&self) -> (r: Option<usize>)
        ensures
            r is None <==> self@.selected is None,
            r matches Some(i) ==> self@.selected == Some(i as int),
    {
        self.selected
    }

    /// The selected entry's name when it is a directory.
    pub fn get_current_dir(&self) -> (r: Option<String>)
        ensures
            opt_text(r) == self@.current_dir,
    {
        crate::song::clone_opt_string(&self.current_dir)
    }

    /// The selected entry's name when it is a file.
    pub fn get_current_file(&self) -> (r: Option<String>)
        ensures
            opt_text(r) == self@.current_file,
    {
        crate::song::clone_opt_string(&self.current_file)
    }

    /// The classification of the selected entry.
    pub fn get_file_type(&self) -> (r: FileType)
        ensures
            r == self@.file_type,
    {
        self.file_type
    }

    /// The message that plays the selected file: `SONG` with the file's
    /// full path, when a file is selected and its suffix is one the player
    /// supports; `None` otherwise. Sending the message is the caller's
    /// part.
    pub fn play_song(&self) -> (r: Option<ThreadMessage>)
        ensures
            match self@.current_file {
                None => r is None,
                Some(f) => if is_playable(f) {
                    r matches Some(m) && m.command == ThreadCommand::SONG && m@.msg == Some(
                        spec_path_text(self@.path) + seq!['/'] + f,
                    )
                } else {
                    r is None
                },
            },
    {
        let file = match &self.current_file {
            Some(f) => f,
            None => {
                return None;
            },
        };
        let playable = str_ends_with(file.as_str(), ".mp3") || str_ends_with(
            file.as_str(),
            ".flac",
        );
        proof {
            reveal_strlit(".mp3");
            reveal_strlit(".flac");
            assert(".mp3"@ =~= seq!['.', 'm', 'p', '3']);
            assert(".flac"@ =~= seq!['.', 'f', 'l', 'a', 'c']);
        }
        if !playable {
            return None;
        }
        let path = self.path.join(file.as_str());
        Some(ThreadMessage { command: ThreadCommand::SONG, msg: Some(path) })
    }
}

/// Builds the initial browser state from a root path and its enumeration.
pub struct BrowserStateBuilder {
    path: Option<FsPath>,
    items: Vec<DirEntry>,
    cache: OrderCache,
}

impl BrowserStateBuilder {
    /// The root path the builder holds.
    pub closed spec fn spec_path(&self) -> Seq<Seq<char>> {
        self.path->0@
    }

    /// The listing the builder holds.
    pub closed spec fn spec_items(&self) -> Seq<EntryView> {
        self.items.deep_view()
    }

    /// A path was set and the cache holds only correct orderings.
    pub closed spec fn wf(&self) -> bool {
        self.path is Some && self.cache.wf()
    }

    /// A builder for the filesystem root with an empty listing.
    pub fn new() -> (r: BrowserStateBuilder)
        ensures
            r.wf(),
            r.spec_path() == Seq::<Seq<char>>::empty(),
            r.spec_items() == Seq::<EntryView>::empty(),
    {
        let r = BrowserStateBuilder {
            path: Some(FsPath::new()),
            items: Vec::new(),
            cache: OrderCache::new(),
        };
        proof {
            assert(r.spec_items() =~= Seq::<EntryView>::empty());
            assert(r.spec_path() =~= Seq::<Seq<char>>::empty());
        }
        r
    }

    /// Sets the directory the browser starts in, building its listing from
    /// the given enumeration exactly as a refresh would: hidden entries
    /// dropped, a listing of audio files alone handed to the ordering
    /// policy. When the directory could not be read (`listing` is `None`)
    /// it fails with `IoError`.
    pub fn path(self, path: FsPath, listing: Option<Vec<DirEntry>>) -> (r: Result<
        BrowserStateBuilder,
        CoreError,
    >)
        requires
            self.wf(),
        ensures
            listing is None ==> r == Err::<BrowserStateBuilder, CoreError>(CoreError::IoError),
            listing matches Some(raw) ==> (r matches Ok(b) && {
                let vis = visible_of(raw.deep_view());
                &&& b.wf()
                &&& b.spec_path() == path@
                &&& b.spec_items().len() == vis.len()
                &&& (!all_audio(vis) ==> b.spec_items() == vis)
                &&& (all_audio(vis) ==> exists|tracks: Seq<Option<u16>>|
                    tracks.len() == vis.len() && #[trigger] correct_order(
                        vis,
                        tracks,
                        b.spec_items(),
                    ))
            }),
    {
        let raw = match listing {
            Some(raw) => raw,
            None => {
                return Err(CoreError::IoError);
            },
        };
        let ghost rawv = raw.deep_view();
        let mut state = BrowserState {
            path,
            items: Vec::new(),
            selected: None,
            file_type: FileType::NONE,
            current_dir: None,
            current_file: None,
            cache: self.cache,
        };
        state.refresh_with(raw);
        let BrowserState { path, items, cache, .. } = state;
        let b = BrowserStateBuilder { path: Some(path), items, cache };
        proof {
            let vis = visible_of(rawv);
            assert(b.spec_items().len() == vis.len());
        }
        Ok(b)
    }

    /// The finished browser state: the listing the builder holds, the
    /// first entry selected — none on an empty listing — and the
    /// selection's classification derived.
    pub fn build(self) -> (r: BrowserState)
        requires
            self.wf(),
        ensures
            r.wf(),
            r@.path == self.spec_path(),
            r@.items == self.spec_items(),
            r@.selected == (if self.spec_items().len() == 0 {
                None
            } else {
                Some(0int)
            }),
            r@ == spec_classified(r@),
    {
        let path = match self.path {
            Some(p) => p,
            None => {
                proof {
                    assert(false);
                }
                FsPath::new()
            },
        };
        let mut state = BrowserState {
            path,
            items: self.items,
            selected: None,
            file_type: FileType::NONE,
            current_dir: None,
            current_file: None,
            cache: self.cache,
        };
        if state.items.len() > 0 {
            state.selected = Some(0);
        }
        state.classify();
        state
    }
}

} // verus!
