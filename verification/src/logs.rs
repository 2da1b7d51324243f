//! Choosing the log file to show: the newest of the application's logs.
use vstd::prelude::*;
use crate::text::{chars_of, string_of};

verus! {

/// A file of the logs directory: its name and when it was last modified
/// (in nanoseconds since the Unix epoch; 0 when unknown).
#[derive(Debug)]
pub struct LogEntry {
    pub name: String,
    pub modified_nanos: u128,
}

/// Whether a file name is one of the application's logs (the daily files
/// are named `panoptic.log` followed by the date).
pub open spec fn is_log_name(name: Seq<char>) -> bool {
    "panoptic.log"@.is_prefix_of(name)
}

/// Entry `k` is the log to show: a log file modified no earlier than any
/// other log, and the first listed among those modified at that time.
pub open spec fn is_latest_log(entries: Seq<LogEntry>, k: int) -> bool {
    &&& 0 <= k < entries.len()
    &&& is_log_name(entries[k].name@)
    &&& forall|i: int|
        0 <= i < entries.len() && is_log_name(#[trigger] entries[i].name@) ==> {
            ||| entries[i].modified_nanos < entries[k].modified_nanos
            ||| (entries[i].modified_nanos == entries[k].modified_nanos && k <= i)
        }
}

fn starts_with_log_name(name: &String) -> (b: bool)
    ensures
        b == is_log_name(name@),
{
    let n = chars_of(name.as_str());
    let p = chars_of("panoptic.log");
    proof {
        reveal_strlit("panoptic.log");
    }
    if n.len() < p.len() {
        return false;
    }
    let mut i: usize = 0;
    while i < p.len()
        invariant
            p@ == "panoptic.log"@,
            n@ == name@,
            p.len() <= n.len(),
            i <= p.len(),
            forall|j: int| 0 <= j < i ==> n@[j] == p@[j],
        decreases p.len() - i,
    {
        if n[i] != p[i] {
            return false;
        }
        i = i + 1;
    }
    proof {
        assert(n@.subrange(0, p@.len() as int) =~= p@);
    }
    true
}

/// Which file of the logs directory to show: the newest log file (ties go
/// to the one listed first), or the error "No log files found" when the
/// directory holds no log file.
pub fn latest_log(entries: &Vec<LogEntry>) -> (r: Result<usize, String>)
    ensures
        match r {
            Ok(k) => is_latest_log(entries@, k as int),
            Err(e) => e@ == "No log files found"@ && forall|i: int|
                0 <= i < entries@.len() ==> !is_log_name(#[trigger] entries@[i].name@),
        },
{
    let mut best: Option<usize> = None;
    let mut i: usize = 0;
    while i < entries.len()
        invariant
            i <= entries@.len(),
            match best {
                Some(k) => k < i && is_log_name(entries@[k as int].name@) && forall|j: int|
                    0 <= j < i && is_log_name(#[trigger] entries@[j].name@) ==> {
                        ||| entries@[j].modified_nanos < entries@[k as int].modified_nanos
                        ||| (entries@[j].modified_nanos == entries@[k as int].modified_nanos && k
                            <= j)
                    },
                None => forall|j: int| 0 <= j < i ==> !is_log_name(#[trigger] entries@[j].name@),
            },
        decreases entries@.len() - i,
    {
        if starts_with_log_name(&entries[i].name) {
            match best {
                Some(k) => {
                    if entries[k].modified_nanos < entries[i].modified_nanos {
                        best = Some(i);
                    }
                },
                None => {
                    best = Some(i);
                },
            }
        }
        i = i + 1;
    }
    match best {
        Some(k) => Ok(k),
        None => Err(string_of(&chars_of("No log files found"))),
    }
}

} // verus!
