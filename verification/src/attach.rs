//! The attach bridge's decisions.
//!
//! The bridge itself is a pair of datagram sockets the host owns; what is
//! decided here is which port pair a named process uses, and which bytes
//! of a receive buffer make up the payload that is passed on verbatim.

use crate::config::Config;
use crate::paths::str_eq;
use vstd::prelude::*;

verus! {

/// The port pair of the named process: `Some` exactly when the config
/// names the process and both of its ports are assigned, and then exactly
/// that `(process_port, connect_port)` pair.
pub fn attach_ports(config: &Config, name: &str) -> (r: Option<(i32, i32)>)
    requires
        config.wf(),
    ensures
        r is Some <==> (exists|k: int|
            0 <= k < config.processes@.len() && config.processes@[k].0@ == name@
                && config.processes@[k].1.process_port is Some
                && config.processes@[k].1.connect_port is Some),
        r matches Some(pp) ==> (exists|k: int|
            0 <= k < config.processes@.len() && config.processes@[k].0@ == name@
                && config.processes@[k].1.process_port == Some(pp.0)
                && config.processes@[k].1.connect_port == Some(pp.1)),
{
    let n = config.processes.len();
    let mut i: usize = 0;
    while i < n
        invariant
            0 <= i <= n,
            n == config.processes@.len(),
            config.wf(),
            forall|k: int| 0 <= k < i ==> config.processes@[k].0@ != name@,
        decreases n - i,
    {
        if str_eq(name, config.processes[i].0.as_str()) {
            proof {
                assert forall|k: int|
                    0 <= k < config.processes@.len() && k != i implies config.processes@[k].0@
                        != name@ by {
                    assert(config.spec_process_names()[k] == config.processes@[k].0@);
                    assert(config.spec_process_names()[i as int] == config.processes@[i as int].0@);
                }
            }
            let cc = &config.processes[i].1;
            match (cc.process_port, cc.connect_port) {
                (Some(pp), Some(cp)) => {
                    proof {
                        assert(config.processes@[i as int].0@ == name@
                            && config.processes@[i as int].1.process_port == Some(pp)
                            && config.processes@[i as int].1.connect_port == Some(cp));
                    }
                    return Some((pp, cp));
                },
                _ => {
                    return None;
                },
            }
        }
        i += 1;
    }
    None
}

/// The payload of one received datagram: the first `n` bytes of the
/// receive buffer, unchanged — what the relay forwards is exactly what
/// arrived.
pub fn datagram_payload(buf: &[u8], n: usize) -> (r: Vec<u8>)
    requires
        n <= buf@.len(),
    ensures
        r@ == buf@.take(n as int),
{
    let mut r: Vec<u8> = Vec::new();
    let mut i: usize = 0;
    while i < n
        invariant
            0 <= i <= n,
            n <= buf@.len(),
            r@ == buf@.take(i as int),
        decreases n - i,
    {
        r.push(buf[i]);
        proof {
            assert(r@ =~= buf@.take(i + 1));
        }
        i += 1;
    }
    r
}

} // verus!
