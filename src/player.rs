use crate::engine::AudioEngine;
use crate::engine::PositionTracker;
use crate::music::TermiMusic;
use std::path::Path;
use vstd::prelude::*;
use vstd::string::StrSliceExecFns;

verus! {

#[derive(PartialEq, Eq, Structural, Clone, Copy, Debug)]
pub enum PlayerState {
    Empty,
    Loading,
    Ready,
    Play,
    Pause,
}

/// What the caller found at the path handed to `open`.
pub enum OpenTarget {
    /// A regular file.
    File,
    /// A directory, with the paths of its direct children that are regular
    /// files, in the order the file system listed them.
    Directory(Vec<String>),
    /// Neither a file nor a directory, or nothing at all.
    Missing,
}

/// The last component of a path, or the empty text where it has none.
pub uninterp spec fn path_file_name(p: Seq<char>) -> Seq<char>;

/// Relies on `std::path::Path::file_name`: the final component of the path,
/// taken here as the empty text where there is none; it depends on the path alone.
#[verifier::external_body]
fn file_name_of(path: &str) -> (r: String)
    ensures
        r@ == path_file_name(path@),
{
    match Path::new(path).file_name() {
        Some(n) => n.to_string_lossy().into_owned(),
        None => String::new(),
    }
}

/// The extensions of the audio formats the player opens.
pub open spec fn audio_extension(e: Seq<char>) -> bool {
    e == seq!['m', 'p', '3'] || e == seq!['f', 'l', 'a', 'c'] || e == seq!['w', 'a', 'v'] || e
        == seq!['o', 'g', 'g']
}

/// Index of the last dot in `n`, or -1 where there is none.
pub open spec fn last_dot(n: Seq<char>) -> int
    decreases n.len(),
{
    if n.len() == 0 {
        -1
    } else if n.last() == '.' {
        n.len() - 1
    } else {
        last_dot(n.drop_last())
    }
}

/// The extension of a file name: the text after its last dot, absent where
/// the name has no dot after its first character.
pub open spec fn name_extension(n: Seq<char>) -> Option<Seq<char>> {
    if last_dot(n) <= 0 {
        None
    } else {
        Some(n.subrange(last_dot(n) + 1, n.len() as int))
    }
}

/// A path is an audio file where its file name has an audio extension.
pub open spec fn audio_path(p: Seq<char>) -> bool {
    match name_extension(path_file_name(p)) {
        Some(e) => audio_extension(e),
        None => false,
    }
}

proof fn lemma_last_dot(n: Seq<char>)
    ensures
        -1 <= last_dot(n) < n.len(),
        last_dot(n) >= 0 ==> n[last_dot(n)] == '.',
        forall|j: int| last_dot(n) < j < n.len() ==> n[j] != '.',
    decreases n.len(),
{
    if n.len() > 0 && n.last() != '.' {
        let m = n.drop_last();
        lemma_last_dot(m);
        assert forall|j: int| last_dot(n) < j < n.len() implies n[j] != '.' by {
            if j < m.len() {
                assert(n[j] == m[j]);
            }
        }
    }
}

/// The extension of the file name `name`.
pub fn file_extension(name: &str) -> (r: Option<String>)
    ensures
        match r {
            Some(e) => name_extension(name@) == Some(e@),
            None => name_extension(name@) is None,
        },
{
    let n = name.unicode_len();
    let mut i: usize = n;
    while i > 0
        invariant
            i <= n,
            n == name@.len(),
            forall|j: int| i <= j < n ==> name@[j] != '.',
        ensures
            i <= n,
            forall|j: int| i <= j < n ==> name@[j] != '.',
            i > 0 ==> name@[i - 1] == '.',
        decreases i,
    {
        if name.get_char(i - 1) == '.' {
            break;
        }
        i -= 1;
    }
    proof {
        lemma_last_dot(name@);
        if i == 0 {
            assert(last_dot(name@) == -1) by {
                if last_dot(name@) >= 0 {
                    assert(name@[last_dot(name@)] == '.');
                }
            }
        } else {
            assert(name@[i - 1] == '.');
            assert(last_dot(name@) == i - 1) by {
                if last_dot(name@) < i - 1 {
                    assert(name@[i - 1] != '.');
                }
                if last_dot(name@) > i - 1 {
                    assert(name@[last_dot(name@)] == '.');
                }
            }
        }
    }
    if i <= 1 {
        return None;
    }
    let mut e = String::new();
    let mut j: usize = i;
    while j < n
        invariant
            i <= j <= n,
            n == name@.len(),
            e@ == name@.subrange(i as int, j as int),
        decreases n - j,
    {
        e.push(name.get_char(j));
        j += 1;
        assert(e@ =~= name@.subrange(i as int, j as int));
    }
    Some(e)
}

pub open spec fn paths_view(v: Seq<String>) -> Seq<Seq<char>> {
    v.map_values(|s: String| s@)
}

/// The audio files among `ps`, in their order.
pub open spec fn audio_tracks(ps: Seq<Seq<char>>) -> Seq<Seq<char>>
    decreases ps.len(),
{
    if ps.len() == 0 {
        Seq::empty()
    } else {
        let rest = audio_tracks(ps.drop_last());
        if audio_path(ps.last()) {
            rest.push(ps.last())
        } else {
            rest
        }
    }
}

/// The playlist that opening `path` builds, given what was found there.
pub open spec fn tracks_for(path: Seq<char>, target: OpenTarget) -> Seq<Seq<char>> {
    match target {
        OpenTarget::File => if audio_path(path) {
            seq![path]
        } else {
            Seq::empty()
        },
        OpenTarget::Directory(children) => audio_tracks(paths_view(children@)),
        OpenTarget::Missing => Seq::empty(),
    }
}

/// True of an extension of one of the audio formats the player opens.
pub fn is_audio_extension(ext: &str) -> (r: bool)
    ensures
        r == audio_extension(ext@),
{
    proof {
        reveal_strlit("mp3");
        reveal_strlit("flac");
        reveal_strlit("wav");
        reveal_strlit("ogg");
    }
    let e = ext.to_owned();
    let r = e == "mp3".to_owned() || e == "flac".to_owned() || e == "wav".to_owned() || e
        == "ogg".to_owned();
    proof {
        assert("mp3"@ =~= seq!['m', 'p', '3']);
        assert("flac"@ =~= seq!['f', 'l', 'a', 'c']);
        assert("wav"@ =~= seq!['w', 'a', 'v']);
        assert("ogg"@ =~= seq!['o', 'g', 'g']);
    }
    r
}

/// True of a path whose extension is one of the audio formats.
pub fn is_audio_file(path: &str) -> (r: bool)
    ensures
        r == audio_path(path@),
{
    let name = file_name_of(path);
    match file_extension(name.as_str()) {
        Some(e) => is_audio_extension(e.as_str()),
        None => false,
    }
}


/// The audio files among `paths`, in their order.
pub fn audio_files(paths: &Vec<String>) -> (r: Vec<String>)
    ensures
        paths_view(r@) == audio_tracks(paths_view(paths@)),
{
    let mut r: Vec<String> = Vec::new();
    let mut i: usize = 0;
    while i < paths.len()
        invariant
            i <= paths@.len(),
            paths_view(r@) == audio_tracks(paths_view(paths@).subrange(0, i as int)),
        decreases paths@.len() - i,
    {
        let p = &paths[i];
        let keep = is_audio_file(p.as_str());
        proof {
            let before = paths_view(paths@).subrange(0, i as int);
            let after = paths_view(paths@).subrange(0, i + 1);
            assert(after.drop_last() =~= before);
            assert(after.last() == p@);
        }
        if keep {
            let ghost old_r = r@;
            r.push(p.clone());
            assert(paths_view(r@) =~= paths_view(old_r).push(p@));
        }
        i += 1;
    }
    assert(paths_view(paths@).subrange(0, paths@.len() as int) =~= paths_view(paths@));
    r
}


/// The cursor after `next` on a playlist of `len` tracks.
pub open spec fn next_index(i: int, len: int) -> int {
    if i + 1 >= len {
        0
    } else {
        i + 1
    }
}

/// The cursor after `previous` on a playlist of `len` tracks.
pub open spec fn previous_index(i: int, len: int) -> int {
    if i <= 0 {
        len - 1
    } else {
        i - 1
    }
}

/// True where `status` holds exactly `text`.
pub open spec fn shows(status: Option<String>, text: &str) -> bool {
    match status {
        Some(m) => m@ == text@,
        None => false,
    }
}

/// The transport: a playlist with a cursor, driving an `AudioEngine`, with the
/// state of the play/pause/next/previous controls and a status message.
///
/// Loading a track is the caller's part: after `open`, `next` or `previous`
/// the state is `Loading`, and the caller decodes the track under the cursor
/// and reports the outcome to `update_music`.
pub struct TermiPlayer {
    pub engine: AudioEngine,
    pub playlist: Vec<String>,
    pub current_index: usize,
    pub music: TermiMusic,
    pub state: PlayerState,
    pub status: Option<String>,
}

impl TermiPlayer {
    pub open spec fn wf(self) -> bool {
        &&& self.engine.wf()
        &&& (self.playlist@.len() == 0 <==> self.state == PlayerState::Empty)
        &&& (self.playlist@.len() == 0 ==> self.current_index == 0)
        &&& (self.playlist@.len() > 0 ==> self.current_index < self.playlist@.len())
        &&& (self.state == PlayerState::Play <==> self.engine.position.is_playing)
        &&& (self.playlist@.len() > 0 ==> self.music.title@ == path_file_name(
            self.current_path(),
        ))
    }

    /// The path of the track under the cursor.
    pub open spec fn current_path(self) -> Seq<char> {
        self.playlist@[self.current_index as int]@
    }

    /// A player with an empty playlist, at full volume.
    pub fn new() -> (r: Self)
        ensures
            r.wf(),
            r.state == PlayerState::Empty,
            r.playlist@.len() == 0,
            r.status is None,
            r.engine.volume == crate::engine::MAX_VOLUME,
            r.engine.position == PositionTracker::fresh(None),
    {
        TermiPlayer {
            engine: AudioEngine::new(crate::engine::MAX_VOLUME),
            playlist: Vec::new(),
            current_index: 0,
            music: TermiMusic::default(),
            state: PlayerState::Empty,
            status: None,
        }
    }

    /// The path of the track that the caller is to load, if the playlist has one.
    pub fn current_track(&self) -> (r: Option<&String>)
        requires
            self.wf(),
        ensures
            self.playlist@.len() == 0 ==> r is None,
            self.playlist@.len() > 0 ==> r == Some(&self.playlist@[self.current_index as int]),
    {
        if self.playlist.len() == 0 {
            None
        } else {
            Some(&self.playlist[self.current_index])
        }
    }

    /// Moves the stopped player to the track at `index`: shows its title and
    /// waits for the caller to load it.
    fn select(&mut self, index: usize)
        requires
            old(self).engine.wf(),
            !old(self).engine.position.is_playing,
            index < old(self).playlist@.len(),
        ensures
            final(self).wf(),
            final(self).playlist == old(self).playlist,
            final(self).current_index == index,
            final(self).state == PlayerState::Loading,
            final(self).music.title@ == path_file_name(final(self).current_path()),
            final(self).status == old(self).status,
            final(self).engine == old(self).engine,
    {
        self.current_index = index;
        self.music = TermiMusic { title: file_name_of(self.playlist[index].as_str()) };
        self.state = PlayerState::Loading;
    }

    /// Opens the file or directory at `path`, which the caller found to be
    /// `target`. The playlist is replaced in any case: by the file if it is an
    /// audio file, by the audio files directly inside a directory, or by
    /// nothing. An empty result leaves the player `Empty` with an error status;
    /// otherwise the cursor is on the first track, which waits to be loaded.
    pub fn open(&mut self, path: &str, target: OpenTarget)
        requires
            old(self).wf(),
        ensures
            final(self).wf(),
            paths_view(final(self).playlist@) == tracks_for(path@, target),
            final(self).engine.volume == old(self).engine.volume,
            tracks_for(path@, target).len() == 0 ==> {
                &&& final(self).state == PlayerState::Empty
                &&& shows(final(self).status, "Error: Failed to open.")
                &&& exists|now: u64|
                    final(self).engine.position == #[trigger] old(self).engine.position.paused(
                        now,
                    )
            },
            tracks_for(path@, target).len() > 0 ==> {
                &&& final(self).state == PlayerState::Loading
                &&& final(self).current_index == 0
                &&& final(self).status is None
                &&& final(self).music.title@ == path_file_name(tracks_for(path@, target)[0])
                &&& exists|now: u64|
                    final(self).engine.position == #[trigger] old(self).engine.position.paused(
                        now,
                    )
            },
    {
        let ghost tracks = tracks_for(path@, target);
        let playlist: Vec<String> = match target {
            OpenTarget::File => if is_audio_file(path) {
                let mut v: Vec<String> = Vec::new();
                v.push(path.to_owned());
                assert(paths_view(v@) =~= seq![path@]);
                v
            } else {
                let v: Vec<String> = Vec::new();
                assert(paths_view(v@) =~= Seq::<Seq<char>>::empty());
                v
            },
            OpenTarget::Directory(children) => audio_files(&children),
            OpenTarget::Missing => {
                let v: Vec<String> = Vec::new();
                assert(paths_view(v@) =~= Seq::<Seq<char>>::empty());
                v
            },
        };
        self.engine.pause();
        if playlist.len() == 0 {
            self.playlist = playlist;
            self.current_index = 0;
            self.music = TermiMusic::default();
            self.state = PlayerState::Empty;
            self.status = Some("Error: Failed to open.".to_owned());
            return;
        }
        self.playlist = playlist;
        self.current_index = 0;
        self.status = None;
        self.select(0);
    }

    /// Records the decoder's outcome for the track under the cursor: the
    /// length of the decoded track (absent where the format does not tell it
    /// up front), or an error message. Either way the track's title is shown
    /// and the player is left `Ready`, not playing; a decoded track's position
    /// record starts over. Outside `Loading` there is nothing to record.
    pub fn update_music(&mut self, loaded: Result<Option<u64>, String>)
        requires
            old(self).wf(),
        ensures
            final(self).wf(),
            final(self).playlist == old(self).playlist,
            final(self).current_index == old(self).current_index,
            final(self).engine.volume == old(self).engine.volume,
            old(self).state != PlayerState::Loading ==> *final(self) == *old(self),
            old(self).state == PlayerState::Loading ==> {
                &&& final(self).state == PlayerState::Ready
                &&& final(self).music.title@ == path_file_name(final(self).current_path())
                &&& !final(self).engine.position.is_playing
            },
            old(self).state == PlayerState::Loading ==> match loaded {
                Ok(total) => {
                    &&& shows(final(self).status, "Loaded Music")
                    &&& final(self).engine.position == PositionTracker::fresh(total)
                },
                Err(m) => {
                    &&& final(self).status == Some(m)
                    &&& final(self).engine.position == old(self).engine.position
                },
            },
    {
        if self.state != PlayerState::Loading {
            return;
        }
        self.music = TermiMusic { title: file_name_of(self.playlist[self.current_index].as_str()) };
        match loaded {
            Ok(total) => {
                self.engine.load_audio(total);
                self.status = Some("Loaded Music".to_owned());
            },
            Err(m) => {
                self.status = Some(m);
            },
        }
        self.state = PlayerState::Ready;
    }

    /// Completes the load of the track under the cursor: records the outcome
    /// with `update_music`, then starts a decoded track playing from zero. A
    /// failure is shown and leaves the player `Ready`, not playing.
    pub fn finish_load(&mut self, loaded: Result<Option<u64>, String>)
        requires
            old(self).wf(),
        ensures
            final(self).wf(),
            final(self).playlist == old(self).playlist,
            final(self).current_index == old(self).current_index,
            final(self).engine.volume == old(self).engine.volume,
            old(self).state != PlayerState::Loading ==> *final(self) == *old(self),
            old(self).state == PlayerState::Loading ==> match loaded {
                Ok(total) => {
                    &&& final(self).state == PlayerState::Play
                    &&& shows(final(self).status, "Playing")
                    &&& exists|now: u64|
                        final(self).engine.position == #[trigger] PositionTracker::fresh(
                            total,
                        ).played(now)
                },
                Err(m) => {
                    &&& final(self).state == PlayerState::Ready
                    &&& final(self).status == Some(m)
                    &&& final(self).engine.position == old(self).engine.position
                },
            },
    {
        if self.state != PlayerState::Loading {
            return;
        }
        let decoded = loaded.is_ok();
        self.update_music(loaded);
        if decoded {
            self.play();
        }
    }

    /// Starts or resumes playback where a track is loaded (`Ready`, `Pause`
    /// or `Play`); in `Empty` and `Loading` nothing changes.
    pub fn play(&mut self)
        requires
            old(self).wf(),
        ensures
            final(self).wf(),
            final(self).playlist == old(self).playlist,
            final(self).current_index == old(self).current_index,
            final(self).music == old(self).music,
            final(self).engine.volume == old(self).engine.volume,
            old(self).state == PlayerState::Empty || old(self).state == PlayerState::Loading
                ==> *final(self) == *old(self),
            old(self).state != PlayerState::Empty && old(self).state != PlayerState::Loading ==> {
                &&& final(self).state == PlayerState::Play
                &&& shows(final(self).status, "Playing")
                &&& exists|now: u64|
                    final(self).engine.position == #[trigger] old(self).engine.position.played(
                        now,
                    )
            },
    {
        if self.state == PlayerState::Empty || self.state == PlayerState::Loading {
            return;
        }
        self.engine.play();
        self.state = PlayerState::Play;
        self.status = Some("Playing".to_owned());
    }

    /// Pauses playback where a track is loaded (`Ready`, `Pause` or `Play`);
    /// in `Empty` and `Loading` nothing changes.
    pub fn pause(&mut self)
        requires
            old(self).wf(),
        ensures
            final(self).wf(),
            final(self).playlist == old(self).playlist,
            final(self).current_index == old(self).current_index,
            final(self).music == old(self).music,
            final(self).engine.volume == old(self).engine.volume,
            old(self).state == PlayerState::Empty || old(self).state == PlayerState::Loading
                ==> *final(self) == *old(self),
            old(self).state != PlayerState::Empty && old(self).state != PlayerState::Loading ==> {
                &&& final(self).state == PlayerState::Pause
                &&& shows(final(self).status, "Pause")
                &&& exists|now: u64|
                    final(self).engine.position == #[trigger] old(self).engine.position.paused(
                        now,
                    )
            },
    {
        if self.state == PlayerState::Empty || self.state == PlayerState::Loading {
            return;
        }
        self.engine.pause();
        self.state = PlayerState::Pause;
        self.status = Some("Pause".to_owned());
    }

    /// Pauses when playing; otherwise plays.
    pub fn toggle_play(&mut self)
        requires
            old(self).wf(),
        ensures
            final(self).wf(),
            final(self).playlist == old(self).playlist,
            final(self).current_index == old(self).current_index,
            final(self).engine.volume == old(self).engine.volume,
            final(self).music == old(self).music,
            old(self).state == PlayerState::Play ==> {
                &&& final(self).state == PlayerState::Pause
                &&& shows(final(self).status, "Pause")
                &&& exists|now: u64|
                    final(self).engine.position == #[trigger] old(self).engine.position.paused(
                        now,
                    )
            },
            old(self).state == PlayerState::Pause || old(self).state == PlayerState::Ready ==> {
                &&& final(self).state == PlayerState::Play
                &&& shows(final(self).status, "Playing")
                &&& exists|now: u64|
                    final(self).engine.position == #[trigger] old(self).engine.position.played(
                        now,
                    )
            },
            old(self).state == PlayerState::Empty || old(self).state == PlayerState::Loading
                ==> *final(self) == *old(self),
    {
        if self.state == PlayerState::Play {
            self.pause();
        } else {
            self.play();
        }
    }

    /// Moves the cursor one track on, wrapping to the first, and waits for the
    /// caller to load that track. With an empty playlist nothing changes.
    pub fn next(&mut self)
        requires
            old(self).wf(),
        ensures
            final(self).wf(),
            final(self).playlist == old(self).playlist,
            final(self).engine.volume == old(self).engine.volume,
            old(self).playlist@.len() == 0 ==> *final(self) == *old(self),
            old(self).playlist@.len() > 0 ==> {
                &&& final(self).current_index == next_index(
                    old(self).current_index as int,
                    old(self).playlist@.len() as int,
                )
                &&& final(self).state == PlayerState::Loading
                &&& shows(final(self).status, "Next Music")
                &&& final(self).music.title@ == path_file_name(final(self).current_path())
                &&& exists|now: u64|
                    final(self).engine.position == #[trigger] old(self).engine.position.paused(
                        now,
                    )
            },
    {
        if self.playlist.len() == 0 {
            return;
        }
        let index: usize = if self.current_index + 1 >= self.playlist.len() {
            0
        } else {
            self.current_index + 1
        };
        self.engine.pause();
        self.status = Some("Next Music".to_owned());
        self.select(index);
    }

    /// Moves the cursor one track back, wrapping to the last, and waits for the
    /// caller to load that track. With an empty playlist nothing changes.
    pub fn previous(&mut self)
        requires
            old(self).wf(),
        ensures
            final(self).wf(),
            final(self).playlist == old(self).playlist,
            final(self).engine.volume == old(self).engine.volume,
            old(self).playlist@.len() == 0 ==> *final(self) == *old(self),
            old(self).playlist@.len() > 0 ==> {
                &&& final(self).current_index == previous_index(
                    old(self).current_index as int,
                    old(self).playlist@.len() as int,
                )
                &&& final(self).state == PlayerState::Loading
                &&& shows(final(self).status, "Previous Music")
                &&& final(self).music.title@ == path_file_name(final(self).current_path())
                &&& exists|now: u64|
                    final(self).engine.position == #[trigger] old(self).engine.position.paused(
                        now,
                    )
            },
    {
        if self.playlist.len() == 0 {
            return;
        }
        let index: usize = if self.current_index == 0 {
            self.playlist.len() - 1
        } else {
            self.current_index - 1
        };
        self.engine.pause();
        self.status = Some("Previous Music".to_owned());
        self.select(index);
    }

    /// Stops playback and discards the playlist, to wait for a new path.
    pub fn request_open(&mut self)
        requires
            old(self).wf(),
        ensures
            final(self).wf(),
            final(self).state == PlayerState::Empty,
            final(self).playlist@.len() == 0,
            final(self).current_index == 0,
            final(self).status is None,
            final(self).engine.volume == old(self).engine.volume,
            exists|now: u64|
                final(self).engine.position == #[trigger] old(self).engine.position.paused(now),
    {
        self.engine.pause();
        self.playlist = Vec::new();
        self.current_index = 0;
        self.music = TermiMusic::default();
        self.state = PlayerState::Empty;
        self.status = None;
    }

    pub fn volume_up(&mut self)
        requires
            old(self).wf(),
        ensures
            final(self).wf(),
            final(self).engine.volume == crate::engine::clamp_volume(
                old(self).engine.volume + crate::engine::VOLUME_STEP,
            ),
            final(self).engine.position == old(self).engine.position,
            final(self).state == old(self).state,
            final(self).playlist == old(self).playlist,
            final(self).current_index == old(self).current_index,
    {
        self.engine.volume_up();
    }

    pub fn volume_down(&mut self)
        requires
            old(self).wf(),
        ensures
            final(self).wf(),
            final(self).engine.volume == crate::engine::clamp_volume(
                old(self).engine.volume - crate::engine::VOLUME_STEP,
            ),
            final(self).engine.position == old(self).engine.position,
            final(self).state == old(self).state,
            final(self).playlist == old(self).playlist,
            final(self).current_index == old(self).current_index,
    {
        self.engine.volume_down();
    }

    /// Elapsed and total seconds of the track under the cursor, now.
    pub fn current_position(&self) -> (r: (u64, u64))
        ensures
            exists|now: u64| r == #[trigger] self.engine.position.seconds_at(now),
    {
        self.engine.get_position_seconds()
    }
}

impl Default for TermiPlayer {
    fn default() -> (r: Self)
        ensures
            r.wf(),
            r.state == PlayerState::Empty,
            r.playlist@.len() == 0,
            r.status is None,
            r.engine.volume == crate::engine::MAX_VOLUME,
    {
        TermiPlayer::new()
    }
}

/// The cursor after `k` calls of `next` on a playlist of `len` tracks.
pub open spec fn iterate_next(i: int, len: int, k: nat) -> int
    decreases k,
{
    if k == 0 {
        i
    } else {
        next_index(iterate_next(i, len, (k - 1) as nat), len)
    }
}

/// The cursor after `k` calls of `previous` on a playlist of `len` tracks.
pub open spec fn iterate_previous(i: int, len: int, k: nat) -> int
    decreases k,
{
    if k == 0 {
        i
    } else {
        previous_index(iterate_previous(i, len, (k - 1) as nat), len)
    }
}

proof fn lemma_iterate_next_offset(i: int, len: int, k: nat)
    requires
        0 <= i < len,
        k <= len,
    ensures
        iterate_next(i, len, k) == if i + k < len {
            i + k
        } else {
            i + k - len
        },
    decreases k,
{
    if k > 0 {
        lemma_iterate_next_offset(i, len, (k - 1) as nat);
    }
}

proof fn lemma_iterate_previous_offset(i: int, len: int, k: nat)
    requires
        0 <= i < len,
        k <= len,
    ensures
        iterate_previous(i, len, k) == if i - k >= 0 {
            i - k
        } else {
            i - k + len
        },
    decreases k,
{
    if k > 0 {
        lemma_iterate_previous_offset(i, len, (k - 1) as nat);
    }
}

/// On a playlist of `len` tracks, `len` calls of `next` bring the cursor back
/// to where it was, and so do `len` calls of `previous`.
pub proof fn lemma_navigation_is_circular(i: int, len: int)
    requires
        0 <= i < len,
    ensures
        iterate_next(i, len, len as nat) == i,
        iterate_previous(i, len, len as nat) == i,
{
    lemma_iterate_next_offset(i, len, len as nat);
    lemma_iterate_previous_offset(i, len, len as nat);
}

/// Opening a directory whose children are the audio files `a` and `b`, in
/// that order, gives the playlist `[a, b]`; the cursor then starts on `a`.
pub proof fn lemma_open_directory_of_two(dir: Seq<char>, children: Vec<String>, a: Seq<char>, b: Seq<char>)
    requires
        paths_view(children@) == seq![a, b],
        audio_path(a),
        audio_path(b),
    ensures
        tracks_for(dir, OpenTarget::Directory(children)) == seq![a, b],
{
    let ps = seq![a, b];
    assert(ps.drop_last() =~= seq![a]);
    assert(seq![a].drop_last() =~= Seq::<Seq<char>>::empty());
    assert(Seq::<Seq<char>>::empty().push(a) =~= seq![a]);
    assert(seq![a].push(b) =~= ps);
    assert(audio_tracks(Seq::<Seq<char>>::empty()) == Seq::<Seq<char>>::empty());
    assert(audio_tracks(seq![a]) == seq![a]);
    assert(audio_tracks(ps) == ps);
}

} // verus!
