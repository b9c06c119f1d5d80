use vstd::prelude::*;

verus! {

/// One open application window: the owning process's identity, the window's
/// title, and whether that window currently holds the foreground focus.
#[derive(Debug)]
pub struct Application {
    pub name: String,
    pub pid: u32,
    pub process_name: String,
    pub window_title: String,
    pub is_focused: bool,
}

impl Application {
    /// A deep copy that shares no storage with `self`.
    pub fn duplicate(&self) -> (r: Application)
        ensures
            r == *self,
    {
        Application {
            name: self.name.clone(),
            pid: self.pid,
            process_name: self.process_name.clone(),
            window_title: self.window_title.clone(),
            is_focused: self.is_focused,
        }
    }
}

/// At most one entry of the list is marked as focused.
pub open spec fn at_most_one_focused(apps: Seq<Application>) -> bool {
    forall|i: int, j: int|
        0 <= i < j < apps.len() ==> !(#[trigger] apps[i].is_focused && #[trigger] apps[j].is_focused)
}

/// A process row handed in by the platform adapter: process id, executable
/// name, and the title of the process's window if it has one.
#[derive(Debug)]
pub struct ProcessInfo {
    pub pid: u32,
    pub name: String,
    pub window_title: Option<String>,
}

/// No two rows name the same process.
pub open spec fn distinct_pids(procs: Seq<ProcessInfo>) -> bool {
    forall|i: int, j: int|
        0 <= i < j < procs.len() ==> (#[trigger] procs[i].pid) != (#[trigger] procs[j].pid)
}

/// The application entry built from one process row: focused exactly when
/// the foreground window's owning process is this row's process.
pub open spec fn app_of(p: ProcessInfo, foreground_pid: Option<u32>) -> Application {
    Application {
        name: p.name,
        pid: p.pid,
        process_name: p.name,
        window_title: p.window_title->Some_0,
        is_focused: foreground_pid == Some(p.pid),
    }
}

/// The window list built from a sequence of process rows: one entry per row
/// that has a window, in row order.
pub open spec fn apps_of(procs: Seq<ProcessInfo>, foreground_pid: Option<u32>) -> Seq<Application>
    decreases procs.len(),
{
    if procs.len() == 0 {
        Seq::empty()
    } else {
        let rest = apps_of(procs.drop_last(), foreground_pid);
        if procs.last().window_title is Some {
            rest.push(app_of(procs.last(), foreground_pid))
        } else {
            rest
        }
    }
}

/// Builds the open-window list from the adapter's process rows: keeps the
/// rows that have a window, and marks as focused exactly the row whose
/// process owns the foreground window. When the foreground process is
/// unknown, no entry is focused; in every case at most one entry is focused.
pub fn build_applications(procs: &Vec<ProcessInfo>, foreground_pid: Option<u32>) -> (r: Vec<
    Application,
>)
    requires
        distinct_pids(procs@),
    ensures
        r@ == apps_of(procs@, foreground_pid),
        at_most_one_focused(r@),
{
    let ghost all = procs@;
    let mut r: Vec<Application> = Vec::new();
    let mut i: usize = 0;
    while i < procs.len()
        invariant
            i <= procs.len(),
            procs@ == all,
            distinct_pids(all),
            r@ == apps_of(all.take(i as int), foreground_pid),
            at_most_one_focused(r@),
            forall|k: int|
                0 <= k < r@.len() ==> (#[trigger] r@[k].is_focused) ==> foreground_pid == Some(
                    r@[k].pid,
                ),
            forall|k: int|
                0 <= k < r@.len() ==> exists|j: int|
                    0 <= j < i && (#[trigger] r@[k].pid) == all[j].pid,
        decreases procs.len() - i,
    {
        let p = &procs[i];
        match &p.window_title {
            Some(title) => {
                let focused: bool = match foreground_pid {
                    Some(f) => f == p.pid,
                    None => false,
                };
                let entry = Application {
                    name: p.name.clone(),
                    pid: p.pid,
                    process_name: p.name.clone(),
                    window_title: title.clone(),
                    is_focused: focused,
                };
                proof {
                    assert(entry == app_of(all[i as int], foreground_pid));
                }
                let ghost prev = r@;
                r.push(entry);
                proof {
                    assert(all.take(i as int + 1).drop_last() =~= all.take(i as int));
                    assert(all.take(i as int + 1).last() == all[i as int]);
                    assert(r@ == apps_of(all.take(i as int + 1), foreground_pid));
                    assert forall|a: int, b: int| 0 <= a < b < r@.len() implies !(
                    #[trigger] r@[a].is_focused && #[trigger] r@[b].is_focused) by {
                        if b == r@.len() - 1 && r@[a].is_focused && r@[b].is_focused {
                            let j = choose|j: int| 0 <= j < i && (#[trigger] prev[a].pid)
                                == all[j].pid;
                            assert(all[j].pid == all[i as int].pid);
                            assert(false);
                        }
                    }
                }
            },
            None => {
                proof {
                    assert(all.take(i as int + 1).drop_last() =~= all.take(i as int));
                    assert(all.take(i as int + 1).last() == all[i as int]);
                }
            },
        }
        i = i + 1;
    }
    proof {
        assert(all.take(procs.len() as int) =~= all);
    }
    r
}

} // verus!
