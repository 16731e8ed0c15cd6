//! Debouncing of file-change events. Raw change notifications arrive in
//! bursts (editors write temp files, touch metadata, then write content); the
//! watcher accumulates changed paths and only once a quiet period has elapsed
//! emits the whole batch, deduplicated, in first-occurrence order.
//!
//! The operating-system watcher that produces the raw events runs outside the
//! library and feeds paths in through [`FileWatcher::register_change`].

use vstd::prelude::*;

use crate::seq_util::dedup_first;

verus! {

/// Relies on `same_file::is_same_file`: whether the two paths name the same
/// file or directory on disk, by filesystem identity rather than string
/// equality; an error counts as not the same. The result depends on what is
/// on disk, so nothing more is promised of it.
#[verifier::external_body]
pub fn is_same_file(lhs: &str, rhs: &str) -> bool {
    same_file::is_same_file(lhs, rhs).unwrap_or(false)
}

/// Collects changed paths and releases them in debounced batches.
pub struct FileWatcher {
    debounce_time_ms: u128,
    changed_files: Vec<String>,
    elapsed_time_ms: u128,
}

/// Mathematical model of the watcher.
#[verifier::ext_equal]
pub ghost struct FileWatcherModel {
    pub debounce_time_ms: nat,
    pub changed_files: Seq<Seq<char>>,
    pub elapsed_time_ms: nat,
}

impl View for FileWatcher {
    type V = FileWatcherModel;

    closed spec fn view(&self) -> FileWatcherModel {
        FileWatcherModel {
            debounce_time_ms: self.debounce_time_ms as nat,
            changed_files: self.changed_files@.map_values(|s: String| s@),
            elapsed_time_ms: self.elapsed_time_ms as nat,
        }
    }
}

/// The elapsed time after one update tick: it only accumulates while changed
/// files are pending, and saturates at the counter's limit.
pub open spec fn spec_elapsed_after(m: FileWatcherModel, delta: nat) -> nat {
    if m.changed_files.len() > 0 {
        if m.elapsed_time_ms + delta > u128::MAX {
            u128::MAX as nat
        } else {
            (m.elapsed_time_ms + delta) as nat
        }
    } else {
        m.elapsed_time_ms
    }
}

impl FileWatcher {
    /// A watcher that will release a batch only once `debounce_time_ms` of
    /// update time has accumulated since changes became pending.
    pub fn new(debounce_time_ms: u128) -> (r: FileWatcher)
        ensures
            r@ == (FileWatcherModel {
                debounce_time_ms: debounce_time_ms as nat,
                changed_files: Seq::empty(),
                elapsed_time_ms: 0nat,
            }),
    {
        let r = FileWatcher { debounce_time_ms, changed_files: Vec::new(), elapsed_time_ms: 0 };
        proof {
            assert(r@ =~= (FileWatcherModel {
                debounce_time_ms: debounce_time_ms as nat,
                changed_files: Seq::empty(),
                elapsed_time_ms: 0nat,
            }));
        }
        r
    }

    /// Records one raw file-change event.
    pub fn register_change(&mut self, path: String)
        ensures
            final(self)@ == (FileWatcherModel {
                changed_files: old(self)@.changed_files.push(path@),
                ..old(self)@
            }),
    {
        self.changed_files.push(path);
        proof {
            assert(self@ =~= (FileWatcherModel {
                changed_files: old(self)@.changed_files.push(path@),
                ..old(self)@
            }));
        }
    }

    /// One update tick of `delta_time_ms`. While changes are pending the
    /// elapsed time accumulates; once it reaches the debounce threshold the
    /// whole pending batch is emitted at once, each distinct path once in
    /// first-occurrence order, and the watcher resets. Before the threshold
    /// the result is empty and the pending set is kept.
    pub fn update(&mut self, delta_time_ms: u128) -> (r: Vec<String>)
        ensures
            ({
                let elapsed = spec_elapsed_after(old(self)@, delta_time_ms as nat);
                if elapsed >= old(self)@.debounce_time_ms {
                    &&& r@.map_values(|s: String| s@) == dedup_first(old(self)@.changed_files)
                    &&& final(self)@ == (FileWatcherModel {
                        changed_files: Seq::empty(),
                        elapsed_time_ms: 0nat,
                        ..old(self)@
                    })
                } else {
                    &&& r@.len() == 0
                    &&& final(self)@ == (FileWatcherModel {
                        elapsed_time_ms: elapsed,
                        ..old(self)@
                    })
                }
            }),
    {
        // track debounce time while changed files are pending
        if self.changed_files.len() > 0 {
            self.elapsed_time_ms = if delta_time_ms > u128::MAX - self.elapsed_time_ms {
                u128::MAX
            } else {
                self.elapsed_time_ms + delta_time_ms
            };
        }

        // release the batch once the debounce period has elapsed
        if self.elapsed_time_ms >= self.debounce_time_ms {
            self.elapsed_time_ms = 0;
            let batch = dedup_paths(&self.changed_files);
            self.changed_files = Vec::new();
            proof {
                assert(self@ =~= (FileWatcherModel {
                    changed_files: Seq::empty(),
                    elapsed_time_ms: 0nat,
                    ..old(self)@
                }));
            }
            batch
        } else {
            proof {
                assert(self@ =~= (FileWatcherModel {
                    elapsed_time_ms: spec_elapsed_after(old(self)@, delta_time_ms as nat),
                    ..old(self)@
                }));
            }
            Vec::new()
        }
    }
}

/// Each distinct path once, in first-occurrence order.
fn dedup_paths(paths: &Vec<String>) -> (r: Vec<String>)
    ensures
        r@.map_values(|s: String| s@) == dedup_first(paths@.map_values(|s: String| s@)),
{
    let ghost all = paths@.map_values(|s: String| s@);
    let mut out: Vec<String> = Vec::new();
    let mut k: usize = 0;
    while k < paths.len()
        invariant
            all == paths@.map_values(|s: String| s@),
            k <= all.len(),
            paths@.len() == all.len(),
            ({
                let ded = dedup_first(all.take(k as int));
                &&& out@.len() == ded.len()
                &&& forall|q: int| 0 <= q < ded.len() ==> (#[trigger] out@[q])@ == ded[q]
            }),
        decreases all.len() - k,
    {
        let ghost ded = dedup_first(all.take(k as int));
        let p = &paths[k];
        let mut found: bool = false;
        let mut j: usize = 0;
        while j < out.len()
            invariant
                j <= out@.len(),
                out@.len() == ded.len(),
                forall|q: int| 0 <= q < ded.len() ==> (#[trigger] out@[q])@ == ded[q],
                found <==> exists|q: int| 0 <= q < j && (#[trigger] out@[q])@ == p@,
            decreases out@.len() - j,
        {
            if string_eq(&out[j], p) {
                found = true;
            }
            j += 1;
        }
        proof {
            assert(all.take(k as int + 1).drop_last() =~= all.take(k as int));
            assert(all.take(k as int + 1).last() == all[k as int]);
            assert(all[k as int] == p@);
            assert(found <==> ded.contains(p@)) by {
                if found {
                    let q = choose|q: int| 0 <= q < out@.len() && (#[trigger] out@[q])@ == p@;
                    assert(ded[q] == p@);
                }
                if ded.contains(p@) {
                    let q = choose|q: int| 0 <= q < ded.len() && ded[q] == p@;
                    assert(out@[q]@ == p@);
                }
            }
        }
        if !found {
            out.push(clone_path(p));
        }
        proof {
            let ded2 = dedup_first(all.take(k as int + 1));
            if found {
                assert(ded2 == ded);
            } else {
                assert(ded2 == ded.push(all[k as int]));
            }
        }
        k += 1;
    }
    proof {
        assert(all.take(all.len() as int) =~= all);
        assert(out@.map_values(|s: String| s@) =~= dedup_first(all));
    }
    out
}

/// Clones a path string, keeping its characters.
fn clone_path(s: &String) -> (r: String)
    ensures
        r@ == s@,
{
    s.clone()
}

/// Compares two strings character for character.
fn string_eq(a: &String, b: &String) -> (r: bool)
    ensures
        r == (a@ == b@),
{
    *a == *b
}

} // verus!
