use vstd::prelude::*;

use crate::paths::{extension, extension_of, file_stem, file_stem_of};
use crate::text::{chars_of, lowercase, to_lowercase};
use crate::timing::TimeSpan;

verus! {

/// One audio file of a playlist.
#[derive(Clone, Debug)]
pub struct Track {
    /// 1-based position in the playlist's flattened order
    pub index: usize,
    pub title: String,
    pub path: String,
    pub duration: TimeSpan,
}

/// A track with its strings as characters.
pub struct TrackView {
    pub index: usize,
    pub title: Seq<char>,
    pub path: Seq<char>,
    pub duration: TimeSpan,
}

impl View for Track {
    type V = TrackView;

    open spec fn view(&self) -> TrackView {
        TrackView { index: self.index, title: self.title@, path: self.path@, duration: self.duration }
    }
}

/// The views of a list of tracks.
pub open spec fn tracks_view(tracks: Seq<Track>) -> Seq<TrackView> {
    tracks.map_values(|t: Track| t@)
}

/// The file extensions, in lowercase, that count as audio.
pub open spec fn is_audio_extension(e: Seq<char>) -> bool {
    ||| e == "mp3"@
    ||| e == "flac"@
    ||| e == "wav"@
    ||| e == "ogg"@
    ||| e == "m4a"@
    ||| e == "aac"@
    ||| e == "opus"@
    ||| e == "wma"@
}

/// A path names an audio file when its extension, lowercased, is one of the
/// audio extensions.
pub open spec fn is_audio_path(path: Seq<char>) -> bool {
    match extension_of(path) {
        Some(e) => is_audio_extension(lowercase(e)),
        None => false,
    }
}

/// Whether the characters `a` spell the string `b`.
fn chars_equal(a: &Vec<char>, b: &str) -> (r: bool)
    ensures
        r == (a@ == b@),
{
    let n = b.unicode_len();
    if a.len() != n {
        return false;
    }
    let mut i: usize = 0;
    while i < n
        invariant
            n == b@.len(),
            a@.len() == n,
            i <= n,
            forall|j: int| 0 <= j < i ==> a@[j] == b@[j],
        decreases n - i,
    {
        if a[i] != b.get_char(i) {
            return false;
        }
        i = i + 1;
    }
    assert(a@ =~= b@);
    true
}

/// Whether a path names an audio file, judged by its extension.
pub fn is_audio_file(path: &str) -> (r: bool)
    ensures
        r == is_audio_path(path@),
{
    match extension(path) {
        None => false,
        Some(ext) => {
            let lower = to_lowercase(ext.as_str());
            let c = chars_of(lower.as_str());
            chars_equal(&c, "mp3") || chars_equal(&c, "flac") || chars_equal(&c, "wav")
                || chars_equal(&c, "ogg") || chars_equal(&c, "m4a") || chars_equal(&c, "aac")
                || chars_equal(&c, "opus") || chars_equal(&c, "wma")
        },
    }
}

/// One entry met while walking a playlist folder.
#[derive(Clone, Debug)]
pub struct WalkEntry {
    pub path: String,
    pub is_file: bool,
}

/// Whether a walked entry is an audio file that is worth reading.
pub open spec fn wanted(e: WalkEntry) -> bool {
    e.is_file && is_audio_path(e.path@)
}

/// The paths of the audio files among walked entries, in walk order.
pub open spec fn audio_paths(entries: Seq<WalkEntry>) -> Seq<Seq<char>>
    decreases entries.len(),
{
    if entries.len() == 0 {
        Seq::empty()
    } else {
        let rest = audio_paths(entries.drop_last());
        if wanted(entries.last()) {
            rest.push(entries.last().path@)
        } else {
            rest
        }
    }
}

/// The paths of the regular files with an audio extension, in the order
/// they were walked.
pub fn select_audio_files(entries: &Vec<WalkEntry>) -> (r: Vec<String>)
    ensures
        r@.map_values(|s: String| s@) == audio_paths(entries@),
{
    let mut out: Vec<String> = Vec::new();
    let mut i: usize = 0;
    while i < entries.len()
        invariant
            i <= entries.len(),
            out@.map_values(|s: String| s@) == audio_paths(entries@.take(i as int)),
        decreases entries.len() - i,
    {
        let e = &entries[i];
        let keep = e.is_file && is_audio_file(e.path.as_str());
        proof {
            assert(entries@.take(i + 1).drop_last() =~= entries@.take(i as int));
            assert(entries@.take(i + 1).last() == entries@[i as int]);
        }
        if keep {
            out.push(e.path.clone());
            assert(out@.map_values(|s: String| s@) =~= audio_paths(entries@.take(i + 1)));
        } else {
            assert(out@.map_values(|s: String| s@) =~= audio_paths(entries@.take(i + 1)));
        }
        i = i + 1;
    }
    assert(entries@.take(entries.len() as int) =~= entries@);
    out
}

/// The title shown for a track: its tag's title, else the file stem, else
/// "Unknown".
pub open spec fn title_for(tag_title: Option<Seq<char>>, path: Seq<char>) -> Seq<char> {
    match tag_title {
        Some(t) => t,
        None => match file_stem_of(path) {
            Some(s) => s,
            None => "Unknown"@,
        },
    }
}

/// Builds a track from what was read of its file; its position is given
/// later, by `number_tracks`.
pub fn track_from_tags(path: String, tag_title: Option<String>, duration: TimeSpan) -> (r: Track)
    ensures
        r@ == (TrackView {
            index: 0,
            title: title_for(
                match tag_title {
                    Some(t) => Some(t@),
                    None => None,
                },
                path@,
            ),
            path: path@,
            duration,
        }),
{
    let title = match tag_title {
        Some(t) => t,
        None => match file_stem(path.as_str()) {
            Some(s) => s,
            None => String::from_str("Unknown"),
        },
    };
    Track { index: 0, title, path, duration }
}

/// The tracks that were read, in order, skipping the files that failed.
pub open spec fn read_tracks(found: Seq<Option<Track>>) -> Seq<TrackView>
    decreases found.len(),
{
    if found.len() == 0 {
        Seq::empty()
    } else {
        let rest = read_tracks(found.drop_last());
        match found.last() {
            Some(t) => rest.push(t@),
            None => rest,
        }
    }
}

/// Tracks numbered by their 1-based position.
pub open spec fn numbered(tracks: Seq<TrackView>) -> Seq<TrackView> {
    Seq::new(tracks.len(), |i: int| TrackView { index: (i + 1) as usize, ..tracks[i] })
}

/// Keeps the tracks that could be read, in order, and numbers each by its
/// 1-based position.
pub fn number_tracks(found: Vec<Option<Track>>) -> (r: Vec<Track>)
    ensures
        tracks_view(r@) == numbered(read_tracks(found@)),
{
    let mut out: Vec<Track> = Vec::new();
    let mut rest = found;
    let ghost all = rest@;
    let mut i: usize = 0;
    let n = rest.len();
    let mut rev: Vec<Option<Track>> = Vec::new();
    while rest.len() > 0
        invariant
            rest@.len() + rev@.len() == all.len(),
            forall|j: int| 0 <= j < rest@.len() ==> rest@[j] == all[j],
            forall|j: int| 0 <= j < rev@.len() ==> rev@[j] == all[all.len() - 1 - j],
        decreases rest.len(),
    {
        let x = rest.pop().unwrap();
        rev.push(x);
    }
    while rev.len() > 0
        invariant
            n == all.len(),
            i + rev@.len() == all.len(),
            forall|j: int| 0 <= j < rev@.len() ==> rev@[j] == all[all.len() - 1 - j],
            tracks_view(out@) == numbered(read_tracks(all.take(i as int))),
            out@.len() <= i,
        decreases rev.len(),
    {
        let x = rev.pop().unwrap();
        proof {
            assert(x == all[i as int]);
            assert(all.take(i + 1).drop_last() =~= all.take(i as int));
            assert(all.take(i + 1).last() == all[i as int]);
        }
        match x {
            Some(mut t) => {
                let ghost before = out@;
                let ghost t0 = t;
                let ghost r = read_tracks(all.take(i as int));
                assert(read_tracks(all.take(i + 1)) == r.push(t0@));
                assert(before.len() == r.len()) by {
                    assert(tracks_view(before).len() == before.len());
                }
                let pos = out.len();
                t.index = pos + 1;
                out.push(t);
                assert(tracks_view(out@) =~= numbered(r.push(t0@))) by {
                    assert forall|k: int| 0 <= k < out@.len() implies tracks_view(out@)[k]
                        == numbered(r.push(t0@))[k] by {
                        if k < before.len() {
                            assert(out@[k] == before[k]);
                            assert(tracks_view(before)[k] == numbered(r)[k]);
                        }
                    }
                }
            },
            None => {
                assert(tracks_view(out@) =~= numbered(read_tracks(all.take(i + 1))));
            },
        }
        i = i + 1;
    }
    assert(all.take(n as int) =~= all);
    out
}

/// Each of the eight audio extensions, in any letter case (as far as
/// lowercasing maps it to the listed form), makes a path an audio path:
/// mp3, flac, wav, ogg, m4a, aac, opus and wma.
pub proof fn law_audio_extensions(path: Seq<char>, ext: Seq<char>)
    requires
        extension_of(path) == Some(ext),
    ensures
        lowercase(ext) == "mp3"@ ==> is_audio_path(path),
        lowercase(ext) == "flac"@ ==> is_audio_path(path),
        lowercase(ext) == "wav"@ ==> is_audio_path(path),
        lowercase(ext) == "ogg"@ ==> is_audio_path(path),
        lowercase(ext) == "m4a"@ ==> is_audio_path(path),
        lowercase(ext) == "aac"@ ==> is_audio_path(path),
        lowercase(ext) == "opus"@ ==> is_audio_path(path),
        lowercase(ext) == "wma"@ ==> is_audio_path(path),
        extension_of(path) is None ==> !is_audio_path(path),
{
}

} // verus!
