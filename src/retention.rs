//! The retention sweep: which files of the output directory are old enough
//! to delete.

use vstd::prelude::*;
use crate::text::texts;

verus! {

/// Age, in seconds, beyond which a video is deleted.
pub const RETENTION_SECS: u64 = 3600;

/// One entry of the output directory, as the file system reports it.
pub struct ArtifactEntry {
    pub path: String,
    /// Extension of the file name, if it has one.
    pub extension: Option<String>,
    pub is_file: bool,
    /// Last modification, in seconds since the Unix epoch, if known.
    pub modified_secs: Option<u64>,
}

/// A video file last modified more than `RETENTION_SECS` before `now`.
pub open spec fn is_expired(e: ArtifactEntry, now: u64) -> bool {
    &&& e.extension.deep_view() == Some("mp4"@)
    &&& e.is_file
    &&& e.modified_secs is Some
    &&& e.modified_secs->Some_0 + RETENTION_SECS < now
}

pub open spec fn expired_at(now: u64) -> spec_fn(ArtifactEntry) -> bool {
    |e: ArtifactEntry| is_expired(e, now)
}

pub open spec fn path_of(e: ArtifactEntry) -> Seq<char> {
    e.path@
}

/// The paths to delete among `entries`, in their order.
pub open spec fn expired_paths(entries: Seq<ArtifactEntry>, now: u64) -> Seq<Seq<char>> {
    entries.filter(expired_at(now)).map_values(|e: ArtifactEntry| path_of(e))
}

/// One sweep selects an entry exactly when it is a video file modified more
/// than `RETENTION_SECS` before `now`: older videos go, newer ones stay.
pub proof fn lemma_sweep_selects_exactly_expired(entries: Seq<ArtifactEntry>, now: u64, i: int)
    requires
        0 <= i < entries.len(),
    ensures
        entries.filter(expired_at(now)).contains(entries[i]) <==> is_expired(entries[i], now),
{
    let kept = entries.filter(expired_at(now));
    if is_expired(entries[i], now) {
        entries.lemma_filter_contains(expired_at(now), i);
    }
    if kept.contains(entries[i]) {
        let j = choose|j: int| 0 <= j < kept.len() && kept[j] == entries[i];
        entries.lemma_filter_pred(expired_at(now), j);
    }
}

/// Whether `entry` is due for deletion at time `now_secs`.
pub fn is_expired_artifact(entry: &ArtifactEntry, now_secs: u64) -> (r: bool)
    ensures
        r == is_expired(*entry, now_secs),
{
    let video_ext = String::from_str("mp4");
    let is_video = match &entry.extension {
        Some(ext) => *ext == video_ext,
        None => false,
    };
    proof { reveal_strlit("mp4"); }
    match entry.modified_secs {
        Some(m) => is_video && entry.is_file && m < now_secs && now_secs - m > RETENTION_SECS,
        None => false,
    }
}

/// One sweep of the output directory at time `now_secs`: the paths of the
/// expired videos, in the order listed. A failure to delete one of them
/// does not concern the others.
pub fn clear_gource_videos(entries: &Vec<ArtifactEntry>, now_secs: u64) -> (r: Vec<String>)
    ensures
        texts(r@) == expired_paths(entries@, now_secs),
{
    let mut out: Vec<String> = Vec::new();
    let mut i: usize = 0;
    while i < entries.len()
        invariant
            i <= entries@.len(),
            texts(out@) == expired_paths(entries@.take(i as int), now_secs),
        decreases entries@.len() - i,
    {
        let ghost before = entries@.take(i as int);
        let ghost after = entries@.take(i + 1);
        proof {
            reveal(Seq::filter);
            assert(after.drop_last() =~= before);
            assert(after.last() == entries@[i as int]);
        }
        if is_expired_artifact(&entries[i], now_secs) {
            let ghost old_out = out@;
            let p = entries[i].path.clone();
            out.push(p);
            let ghost kept = before.filter(expired_at(now_secs));
            assert(after.filter(expired_at(now_secs)) == kept.push(entries@[i as int]));
            assert(texts(out@) =~= texts(old_out).push(p@));
            assert(kept.push(entries@[i as int]).map_values(|e: ArtifactEntry| path_of(e))
                =~= kept.map_values(|e: ArtifactEntry| path_of(e)).push(path_of(entries@[i as int])));
        } else {
            assert(after.filter(expired_at(now_secs)) == before.filter(expired_at(now_secs)));
        }
        assert(texts(out@) =~= expired_paths(after, now_secs));
        i = i + 1;
    }
    assert(entries@.take(entries@.len() as int) =~= entries@);
    out
}

} // verus!
