//! Resolving a launch request into a single worker, a cluster member, or a
//! local supervisor, and the communication each one uses.

use vstd::prelude::*;

verus! {

/// The port of the first process of a cluster spawned on this machine;
/// process `i` listens on the port `i` after it.
pub const FIRST_LOCAL_PORT: u64 = 2101;

/// The decimal digit for `d`.
pub open spec fn digit_char(d: nat) -> char {
    if d == 0 { '0' }
    else if d == 1 { '1' }
    else if d == 2 { '2' }
    else if d == 3 { '3' }
    else if d == 4 { '4' }
    else if d == 5 { '5' }
    else if d == 6 { '6' }
    else if d == 7 { '7' }
    else if d == 8 { '8' }
    else { '9' }
}

/// The decimal writing of `n`, without leading zeros.
pub open spec fn decimal(n: nat) -> Seq<char>
    decreases n,
{
    if n < 10 {
        seq![digit_char(n)]
    } else {
        decimal(n / 10).push(digit_char(n % 10))
    }
}

/// Relies on `u64`'s `Display` through `ToString::to_string`: the
/// decimal writing of the number.
#[verifier::external_body]
fn decimal_text(n: u64) -> (r: String)
    ensures
        r@ == decimal(n as nat),
{
    n.to_string()
}

/// The address of process `i` of a cluster spawned on this machine.
pub open spec fn local_address(i: nat) -> Seq<char> {
    "localhost:"@ + decimal((FIRST_LOCAL_PORT + i) as nat)
}

/// The addresses of the `processes` processes of a cluster spawned on
/// this machine, in process order.
pub fn local_addresses(processes: usize) -> (r: Vec<String>)
    requires
        processes as int + FIRST_LOCAL_PORT <= u64::MAX,
    ensures
        r@.len() == processes,
        forall|i: int| 0 <= i < processes ==> #[trigger] r@[i]@ == local_address(i as nat),
{
    let mut r: Vec<String> = Vec::new();
    let mut i: usize = 0;
    while i < processes
        invariant
            i <= processes,
            processes as int + FIRST_LOCAL_PORT <= u64::MAX,
            r@.len() == i,
            forall|j: int| 0 <= j < i ==> #[trigger] r@[j]@ == local_address(j as nat),
        decreases processes - i,
    {
        let mut address = String::from_str("localhost:");
        let port = decimal_text(FIRST_LOCAL_PORT + i as u64);
        address.append(port.as_str());
        r.push(address);
        i = i + 1;
    }
    r
}

/// How the workers of a process talk to each other.
#[derive(Debug, Clone, PartialEq, Eq)]
pub enum CommunicationConfig {
    /// All workers are threads of this process.
    Process { threads: usize },
    /// This process is one of a cluster that talks over TCP.
    Cluster { threads: usize, process: usize, addresses: Vec<String> },
}

/// The communication of process `proc_id` running `workers_per_proc`
/// workers: in process when no peer address is given, else in a cluster.
pub fn communication_config(
    addresses: Option<Vec<String>>,
    proc_id: usize,
    workers_per_proc: usize,
) -> (r: CommunicationConfig)
    ensures
        match addresses {
            Some(a) if a@.len() > 0 => r == CommunicationConfig::Cluster {
                threads: workers_per_proc,
                process: proc_id,
                addresses: a,
            },
            _ => r == CommunicationConfig::Process { threads: workers_per_proc },
        },
{
    match addresses {
        Some(a) => {
            if a.len() > 0 {
                CommunicationConfig::Cluster { threads: workers_per_proc, process: proc_id, addresses: a }
            } else {
                CommunicationConfig::Process { threads: workers_per_proc }
            }
        },
        None => CommunicationConfig::Process { threads: workers_per_proc },
    }
}

/// What a launch request comes to.
#[derive(Debug, Clone, PartialEq, Eq)]
pub enum Launch {
    /// Run a single worker in this thread.
    SingleWorker,
    /// Run this process as member `proc_id` of a cluster.
    ClusterMember { addresses: Option<Vec<String>>, proc_id: usize, workers_per_process: usize },
    /// Run this process as child `proc_id` of a cluster of `processes`
    /// processes spawned on this machine, whose addresses are those of
    /// `local_addresses`.
    LocalMember { processes: usize, proc_id: usize, workers_per_process: usize },
    /// Supervise `processes` child processes on this machine; each child
    /// is told its index and becomes a local member.
    SpawnLocal { processes: usize },
}

/// Why a launch request was refused.
#[derive(Debug, Clone, Copy, PartialEq, Eq, Structural)]
pub enum LaunchError {
    /// The request did not come from the official launcher.
    NotFromLauncher,
    /// Both a local topology (processes, workers per process) and a
    /// cluster placement (process id, addresses) were given.
    ConflictingOptions,
}

/// The launch that a request comes to, as `resolve_launch` decides it.
pub open spec fn launch_of(
    from_launcher: bool,
    processes: Option<usize>,
    workers_per_process: Option<usize>,
    process_id: Option<usize>,
    addresses: Option<Vec<String>>,
    child_index: Option<usize>,
) -> Result<Launch, LaunchError> {
    if !from_launcher {
        Err(LaunchError::NotFromLauncher)
    } else if (processes is Some || workers_per_process is Some) && (process_id is Some || addresses is Some) {
        Err(LaunchError::ConflictingOptions)
    } else if process_id is Some {
        Ok(Launch::ClusterMember {
            addresses,
            proc_id: process_id->Some_0,
            workers_per_process: 1,
        })
    } else {
        let p = match processes { Some(p) => p, None => 1usize };
        let w = match workers_per_process { Some(w) => w, None => 1usize };
        if p == 1 && w == 1 {
            Ok(Launch::SingleWorker)
        } else {
            match child_index {
                Some(c) => Ok(Launch::LocalMember { processes: p, proc_id: c, workers_per_process: w }),
                None => Ok(Launch::SpawnLocal { processes: p }),
            }
        }
    }
}

/// Resolves a request to run a dataflow on this machine.
///
/// `from_launcher` says whether the request came from the official
/// launcher; `child_index` is the index that a supervisor gave this
/// process, if it is one of its children.
pub fn resolve_launch(
    from_launcher: bool,
    processes: Option<usize>,
    workers_per_process: Option<usize>,
    process_id: Option<usize>,
    addresses: Option<Vec<String>>,
    child_index: Option<usize>,
) -> (r: Result<Launch, LaunchError>)
    ensures
        r == launch_of(from_launcher, processes, workers_per_process, process_id, addresses, child_index),
{
    if !from_launcher {
        return Err(LaunchError::NotFromLauncher);
    }
    if (processes.is_some() || workers_per_process.is_some()) && (process_id.is_some() || addresses.is_some()) {
        return Err(LaunchError::ConflictingOptions);
    }
    match process_id {
        Some(proc_id) => Ok(Launch::ClusterMember { addresses, proc_id, workers_per_process: 1 }),
        None => {
            let p: usize = match processes {
                Some(p) => p,
                None => 1,
            };
            let w: usize = match workers_per_process {
                Some(w) => w,
                None => 1,
            };
            if p == 1 && w == 1 {
                Ok(Launch::SingleWorker)
            } else {
                match child_index {
                    Some(c) => Ok(Launch::LocalMember { processes: p, proc_id: c, workers_per_process: w }),
                    None => Ok(Launch::SpawnLocal { processes: p }),
                }
            }
        },
    }
}

} // verus!
