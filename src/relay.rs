use crate::naming::{dated_filename, dated_name, join_path, joined};
use crate::stamp::{date_changed, now_local, Stamp};
use vstd::prelude::*;

verus! {

/// How the relay reads its next chunk of input.
#[derive(Clone, Copy, Debug, PartialEq, Eq, Structural)]
pub enum ReadMode {
    /// Up to and including the next newline, so that a rotation near the end
    /// of the day is not held back by a large read.
    Line,
    /// As much as is available.
    Bulk,
}

/// What the relay does with a chunk it has read.
#[derive(Clone, Copy, Debug, PartialEq, Eq, Structural)]
pub struct RelayStep {
    /// End of input: stop, successfully.
    pub stop: bool,
    /// Clear the rotation signal and rotate before writing.
    pub rotate: bool,
    /// Append the chunk to the active file.
    pub write: bool,
    /// Pause briefly after writing: the producer is slow.
    pub pause: bool,
}

/// What one wake of the clock watcher decides.
#[derive(Clone, Copy, Debug, PartialEq, Eq, Structural)]
pub struct WatchStep {
    /// The calendar date has moved on: raise the rotation signal.
    pub rotation_due: bool,
    /// The value for the near-end-of-day flag.
    pub near_end: bool,
    /// Seconds to sleep before the next wake.
    pub sleep_secs: u64,
}

pub const FINE_POLL_SECS: u64 = 1;

pub const COARSE_POLL_SECS: u64 = 59;

pub open spec fn mode_for(near_end: bool) -> ReadMode {
    if near_end {
        ReadMode::Line
    } else {
        ReadMode::Bulk
    }
}

pub open spec fn step_of(chunk_len: nat, rotation_due: bool) -> RelayStep {
    RelayStep {
        stop: chunk_len == 0,
        rotate: chunk_len > 0 && rotation_due,
        write: chunk_len > 0,
        pause: chunk_len == 1,
    }
}

/// Polling turns fine-grained in the last minute of every hour.
pub open spec fn near_hour_end(now: Stamp) -> bool {
    now.minute >= 59
}

pub open spec fn watch_of(last: Stamp, now: Stamp) -> WatchStep {
    WatchStep {
        rotation_due: !last.same_day(now),
        near_end: near_hour_end(now),
        sleep_secs: if near_hour_end(now) { FINE_POLL_SECS } else { COARSE_POLL_SECS },
    }
}

/// How to read the next chunk.
pub fn read_mode(near_end: bool) -> (r: ReadMode)
    ensures
        r == mode_for(near_end),
{
    if near_end {
        ReadMode::Line
    } else {
        ReadMode::Bulk
    }
}

/// What to do with a chunk of `chunk_len` bytes while the rotation signal
/// reads `rotation_due`.
pub fn relay_step(chunk_len: usize, rotation_due: bool) -> (r: RelayStep)
    ensures
        r == step_of(chunk_len as nat, rotation_due),
{
    let stop = chunk_len == 0;
    RelayStep { stop, rotate: !stop && rotation_due, write: !stop, pause: chunk_len == 1 }
}

/// One wake of the clock watcher that last saw the date of `last`, at `now`.
pub fn watch_step(last: &Stamp, now: &Stamp) -> (r: WatchStep)
    ensures
        r == watch_of(*last, *now),
{
    let near_end = now.minute >= 59;
    WatchStep {
        rotation_due: date_changed(last, now),
        near_end,
        sleep_secs: if near_end { FINE_POLL_SECS } else { COARSE_POLL_SECS },
    }
}

/// One wake of the clock watcher that last saw the date of `last`: reads
/// the clock and decides. Returns the reading with the decision, or `None`
/// where the clock could not be read.
pub fn watch_now(last: &Stamp) -> (r: Option<(Stamp, WatchStep)>)
    ensures
        r matches Some((now, step)) ==> now.wf() && step == watch_of(*last, now),
{
    match now_local() {
        Some(now) => {
            let step = watch_step(last, &now);
            Some((now, step))
        },
        None => None,
    }
}

/// The path of the file that a rotation now opens inside `folder`, with the
/// clock reading it was named from, or `None` where the clock could not be
/// read.
pub fn current_path(folder: &str, base: &str, fine: bool) -> (r: Option<(String, Stamp)>)
    ensures
        r matches Some((path, now)) ==> now.wf() && path@ == joined(folder@, dated_name(base@, now, fine)),
{
    match now_local() {
        Some(now) => {
            let name = dated_filename(base, &now, fine);
            Some((join_path(folder, name.as_str()), now))
        },
        None => None,
    }
}

/// The files of the log folder as the relay leaves them: each file's
/// contents by path, and the path of the active file.
pub ghost struct Journal {
    pub files: Map<Seq<char>, Seq<u8>>,
    pub active: Seq<char>,
}

pub open spec fn contents_of(files: Map<Seq<char>, Seq<u8>>, path: Seq<char>) -> Seq<u8> {
    if files.contains_key(path) {
        files[path]
    } else {
        Seq::empty()
    }
}

/// The relay's handling of one chunk read while the rotation signal reads
/// `rotation_due`; `name` is the path a rotation at that moment opens
/// (created if absent, appended to otherwise).
pub open spec fn relay_once(j: Journal, chunk: Seq<u8>, rotation_due: bool, name: Seq<char>) -> Journal {
    let s = step_of(chunk.len(), rotation_due);
    if !s.write {
        j
    } else {
        let active = if s.rotate { name } else { j.active };
        Journal {
            files: j.files.insert(active, contents_of(j.files, active) + chunk),
            active,
        }
    }
}

/// The relay's handling of a run of chunks, the i-th read while the signal
/// reads `dues[i]`, a rotation then opening `names[i]`.
pub open spec fn relay_run(
    j: Journal,
    chunks: Seq<Seq<u8>>,
    dues: Seq<bool>,
    names: Seq<Seq<char>>,
) -> Journal
    decreases chunks.len(),
{
    if chunks.len() == 0 || dues.len() != chunks.len() || names.len() != chunks.len() {
        j
    } else {
        relay_once(
            relay_run(j, chunks.drop_last(), dues.drop_last(), names.drop_last()),
            chunks.last(),
            dues.last(),
            names.last(),
        )
    }
}

/// All chunks, one after the other.
pub open spec fn concat_all(chunks: Seq<Seq<u8>>) -> Seq<u8>
    decreases chunks.len(),
{
    if chunks.len() == 0 {
        Seq::empty()
    } else {
        concat_all(chunks.drop_last()) + chunks.last()
    }
}

/// Within one day every rotation computes the active file's own path, so
/// whatever rotations occur, the bytes read all land in that file, in order,
/// each once, after what it held before.
pub proof fn lemma_day_keeps_every_byte(
    j: Journal,
    chunks: Seq<Seq<u8>>,
    dues: Seq<bool>,
    names: Seq<Seq<char>>,
)
    requires
        dues.len() == chunks.len(),
        names.len() == chunks.len(),
        forall|i: int| 0 <= i < chunks.len() ==> #[trigger] chunks[i].len() > 0,
        forall|i: int| 0 <= i < names.len() ==> #[trigger] names[i] == j.active,
    ensures
        relay_run(j, chunks, dues, names).active == j.active,
        contents_of(relay_run(j, chunks, dues, names).files, j.active) == contents_of(j.files, j.active)
            + concat_all(chunks),
    decreases chunks.len(),
{
    if chunks.len() > 0 {
        let (c, d, n) = (chunks.drop_last(), dues.drop_last(), names.drop_last());
        assert forall|i: int| 0 <= i < c.len() implies #[trigger] c[i].len() > 0 by {
            assert(c[i] == chunks[i]);
        }
        assert forall|i: int| 0 <= i < n.len() implies #[trigger] n[i] == j.active by {
            assert(n[i] == names[i]);
        }
        lemma_day_keeps_every_byte(j, c, d, n);
        assert(chunks.last() == chunks[chunks.len() - 1]);
        assert(names.last() == names[names.len() - 1]);
        let prev = relay_run(j, c, d, n);
        assert(contents_of(prev.files, j.active) + chunks.last() =~= contents_of(j.files, j.active)
            + concat_all(chunks));
    } else {
        assert(contents_of(j.files, j.active) + concat_all(chunks) =~= contents_of(j.files, j.active));
    }
}

} // verus!
