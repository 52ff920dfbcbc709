use vstd::prelude::*;

verus! {

/// Name and working directory of the process in front of a terminal.
#[derive(Clone, Debug)]
pub struct ProcessInfo {
    pub name: String,
    pub cwd: String,
}

/// Relies on sysinfo's process table (`System::refresh_processes`,
/// `Process::name`) to look a process's name up by pid.  The result depends
/// on the machine's process table at the moment of the call, so nothing is
/// promised of it; the composition below is exact in whatever comes back.
#[verifier::external_body]
fn process_name_by_pid(pid: u32) -> (r: Option<String>) {
    let mut sys = sysinfo::System::new();
    let target = sysinfo::Pid::from_u32(pid);
    sys.refresh_processes(sysinfo::ProcessesToUpdate::Some(&[target]), true);
    sys.process(target).map(|p| p.name().to_string_lossy().to_string())
}

/// Relies on sysinfo's per-platform lookup (`Process::cwd`) for a process's
/// working directory by pid.  Platforms or processes it cannot inspect yield
/// `None`; nothing else is promised of a result that mirrors live machine
/// state.
#[verifier::external_body]
fn get_process_cwd(pid: u32) -> (r: Option<String>) {
    let mut sys = sysinfo::System::new();
    let target = sysinfo::Pid::from_u32(pid);
    sys.refresh_processes_specifics(
        sysinfo::ProcessesToUpdate::Some(&[target]),
        true,
        sysinfo::ProcessRefreshKind::nothing().with_cwd(sysinfo::UpdateKind::Always),
    );
    sys.process(target).and_then(|p| p.cwd()).map(|c| c.to_string_lossy().to_string())
}

/// Combine the two lookups: there is information exactly when the process
/// was found at all, and a missing working directory degrades to `~` rather
/// than to an error.
pub fn compose_process_info(name: Option<String>, cwd: Option<String>) -> (r: Option<ProcessInfo>)
    ensures
        (r is Some) <==> (name is Some),
        (r matches Some(info) ==> (Some(info.name) == name && match cwd {
            Some(c) => info.cwd == c,
            None => info.cwd@ == "~"@,
        })),
{
    match name {
        Some(n) => {
            let dir = match cwd {
                Some(c) => c,
                None => "~".to_owned(),
            };
            Some(ProcessInfo { name: n, cwd: dir })
        }
        None => None,
    }
}

/// Which process to inspect for a terminal: the foreground process-group
/// leader where the platform reported one, and the shell itself otherwise.
pub fn choose_probe_pid(foreground: Option<u32>, child_pid: u32) -> (pid: u32)
    ensures
        pid == match foreground {
            Some(p) => p,
            None => child_pid,
        },
{
    match foreground {
        Some(p) => p,
        None => child_pid,
    }
}

/// Best-effort process information by pid: the name from the process table,
/// the working directory from the per-platform lookup, `None` where the
/// process cannot be found.  No failure is ever an error.
pub fn get_process_info_by_pid(pid: u32) -> (r: Option<ProcessInfo>) {
    let name = process_name_by_pid(pid);
    let cwd = get_process_cwd(pid);
    compose_process_info(name, cwd)
}

} // verus!
