//! Rekordbox process discovery: the Rekordbox executables found in a process
//! snapshot, expanded to every descendant process (audio helpers included).
use vstd::prelude::*;

use std::collections::HashSet;

use crate::text::{chars_of, eq_ignore_ascii_case, spec_eq_ignore_ascii_case};

verus! {

/// One row of a process snapshot.
#[derive(Clone, Debug)]
pub struct ProcessEntry {
    pub pid: u32,
    pub parent_pid: u32,
    pub executable: String,
}

/// `set` contains the child of every process whose parent it contains.
pub open spec fn closed_under_children(set: Set<u32>, processes: Seq<ProcessEntry>) -> bool {
    forall|i: int|
        0 <= i < processes.len() && #[trigger] set.contains(processes[i].parent_pid)
            ==> set.contains(processes[i].pid)
}

/// `result` is the smallest set that contains `roots` and is closed under
/// taking children in `processes`.
pub open spec fn is_process_closure(
    result: Set<u32>,
    roots: Set<u32>,
    processes: Seq<ProcessEntry>,
) -> bool {
    &&& roots.subset_of(result)
    &&& closed_under_children(result, processes)
    &&& forall|s: Set<u32>|
        #![trigger roots.subset_of(s), closed_under_children(s, processes)]
        roots.subset_of(s) && closed_under_children(s, processes) ==> result.subset_of(s)
}

/// How many snapshot rows have a pid outside `set`.
pub open spec fn missing_count(set: Set<u32>, processes: Seq<ProcessEntry>) -> nat
    decreases processes.len(),
{
    if processes.len() == 0 {
        0
    } else {
        missing_count(set, processes.drop_last()) + if set.contains(processes.last().pid) {
            0nat
        } else {
            1nat
        }
    }
}

proof fn lemma_missing_count_shrinks(
    small: Set<u32>,
    large: Set<u32>,
    processes: Seq<ProcessEntry>,
    k: int,
)
    requires
        small.subset_of(large),
    ensures
        missing_count(large, processes) <= missing_count(small, processes),
        0 <= k < processes.len() && large.contains(processes[k].pid) && !small.contains(
            processes[k].pid,
        ) ==> missing_count(large, processes) < missing_count(small, processes),
    decreases processes.len(),
{
    if processes.len() > 0 {
        let rest = processes.drop_last();
        if 0 <= k < processes.len() - 1 {
            assert(rest[k] == processes[k]);
        }
        lemma_missing_count_shrinks(small, large, rest, k);
    }
}

/// Adds to `included` every process whose parent is included, repeatedly,
/// until nothing changes: the result is `included` closed under children.
#[verifier::loop_isolation(false)]
pub fn expand_process_tree(processes: &[ProcessEntry], mut included: HashSet<u32>) -> (r: HashSet<
    u32,
>)
    ensures
        is_process_closure(r@, included@, processes@),
{
    let ghost roots = included@;
    loop
        invariant
            roots.subset_of(included@),
            forall|s: Set<u32>|
                #![trigger roots.subset_of(s), closed_under_children(s, processes@)]
                roots.subset_of(s) && closed_under_children(s, processes@) ==> included@.subset_of(
                    s,
                ),
        decreases missing_count(included@, processes@),
    {
        let ghost before = included@;
        let mut grew = false;
        let mut grown_at: usize = 0;
        let mut i: usize = 0;
        while i < processes.len()
            invariant
                i <= processes.len(),
                before.subset_of(included@),
                roots.subset_of(included@),
                forall|s: Set<u32>|
                    #![trigger roots.subset_of(s), closed_under_children(s, processes@)]
                    roots.subset_of(s) && closed_under_children(s, processes@)
                        ==> included@.subset_of(s),
                !grew ==> included@ == before,
                !grew ==> forall|j: int|
                    0 <= j < i && #[trigger] before.contains(processes@[j].parent_pid)
                        ==> before.contains(processes@[j].pid),
                grew ==> grown_at < processes.len() && included@.contains(
                    processes@[grown_at as int].pid,
                ) && !before.contains(processes@[grown_at as int].pid),
            decreases processes.len() - i,
        {
            let process = &processes[i];
            if included.contains(&process.parent_pid) {
                let ghost prior = included@;
                let fresh = included.insert(process.pid);
                assert forall|s: Set<u32>|
                    #![trigger roots.subset_of(s), closed_under_children(s, processes@)]
                    roots.subset_of(s) && closed_under_children(s, processes@)
                        implies included@.subset_of(s) by {
                    assert(prior.subset_of(s));
                    assert(s.contains(processes@[i as int].parent_pid));
                }
                if fresh && !grew {
                    grew = true;
                    grown_at = i;
                }
            }
            i = i + 1;
        }
        if !grew {
            assert(closed_under_children(included@, processes@));
            assert(is_process_closure(included@, roots, processes@));
            return included;
        }
        proof {
            lemma_missing_count_shrinks(before, included@, processes@, grown_at as int);
        }
    }
}

/// The Rekordbox executable name, compared without regard to ASCII case.
pub open spec fn is_rekordbox_executable(process: ProcessEntry) -> bool {
    spec_eq_ignore_ascii_case(process.executable@, "rekordbox.exe"@)
}

/// The pids of Rekordbox executables in `processes`.
pub open spec fn rekordbox_roots(processes: Seq<ProcessEntry>) -> Set<u32> {
    Set::new(
        |pid: u32|
            exists|i: int|
                0 <= i < processes.len() && processes[i].pid == pid && is_rekordbox_executable(
                    #[trigger] processes[i],
                ),
    )
}

/// Rekordbox and every process descended from it in a process snapshot.
pub fn rekordbox_process_ids(processes: &[ProcessEntry]) -> (r: HashSet<u32>)
    ensures
        is_process_closure(r@, rekordbox_roots(processes@), processes@),
{
    let name = chars_of("rekordbox.exe");
    let mut roots: HashSet<u32> = HashSet::new();
    let mut i: usize = 0;
    while i < processes.len()
        invariant
            i <= processes.len(),
            name@ == "rekordbox.exe"@,
            forall|pid: u32|
                roots@.contains(pid) <==> exists|j: int|
                    0 <= j < i && processes@[j].pid == pid && is_rekordbox_executable(
                        #[trigger] processes@[j],
                    ),
        decreases processes.len() - i,
    {
        let executable = chars_of(processes[i].executable.as_str());
        if eq_ignore_ascii_case(&executable, &name) {
            roots.insert(processes[i].pid);
        }
        i = i + 1;
    }
    assert(roots@ =~= rekordbox_roots(processes@));
    expand_process_tree(processes, roots)
}

} // verus!
