//! A local tool server run as a child process: what it is started with,
//! whether it runs, and which of its output lines the bridge takes.

use vstd::prelude::*;
use crate::config::{ProcessConfig, ServerConfig, ServerConfigV};
use crate::strmap::StrMap;
use crate::text::{trim, trim_str};

verus! {

/// A local tool server: how it is started, and whether it runs.
pub struct ManagedProcess {
    pub config: ProcessConfig,
    pub running: bool,
}

/// Why no process can be made of a server configuration.
pub enum ProcessError {
    /// The server is remote, not a local process.
    NotAProcess,
}

/// Copies of the strings of `v`.
pub fn clone_strings(v: &Vec<String>) -> (r: Vec<String>)
    ensures
        r@.map_values(|a: String| a@) == v@.map_values(|a: String| a@),
{
    let mut r: Vec<String> = Vec::new();
    let n = v.len();
    for i in 0..n
        invariant
            n == v@.len(),
            r@.len() == i,
            forall|k: int| 0 <= k < i ==> #[trigger] r@[k]@ == v@[k]@,
    {
        r.push(v[i].clone());
    }
    assert(r@.map_values(|a: String| a@) =~= v@.map_values(|a: String| a@));
    r
}

/// A copy of a map of strings.
pub fn clone_string_map(m: &StrMap<String>) -> (r: StrMap<String>)
    requires
        m.wf(),
    ensures
        r.wf(),
        r@ == m@,
        r.entries() == m.entries(),
{
    let mut r: StrMap<String> = StrMap::new();
    let n = m.len();
    for i in 0..n
        invariant
            n == m.entries().len(),
            m.wf(),
            r.wf(),
            r.entries() == m.entries().subrange(0, i as int),
    {
        let k = m.key_at(i);
        let v = m.value_at(i);
        proof {
            m.lemma_position(i as int);
            assert forall|j: int| 0 <= j < i implies #[trigger] r.entries()[j].0 != k@ by {
                assert(m.keys()[j] == m.entries()[j].0);
                assert(m.keys()[i as int] == m.entries()[i as int].0);
            }
            r.lemma_lookup(k@);
            if r@.dom().contains(k@) {
                r.lemma_contains(k@);
            }
        }
        r.insert(k.clone(), v.clone());
        assert(r.entries() =~= m.entries().subrange(0, i + 1));
    }
    assert(m.entries().subrange(0, n as int) =~= m.entries());
    proof {
        assert forall|k: Seq<char>| #[trigger] r@.dom().contains(k) == m@.dom().contains(k) by {
            if r@.dom().contains(k) {
                r.lemma_contains(k);
                m.lemma_position(r.position(k));
            }
            if m@.dom().contains(k) {
                m.lemma_contains(k);
                r.lemma_position(m.position(k));
            }
        }
        assert forall|k: Seq<char>| #[trigger] r@.dom().contains(k) implies r@[k] == m@[k] by {
            r.lemma_contains(k);
            r.lemma_position(r.position(k));
            m.lemma_position(r.position(k));
        }
        assert(r@ =~= m@);
    }
    r
}

impl ManagedProcess {
    /// A process for a local server configuration; it does not run yet.
    pub fn new(config: &ServerConfig) -> (r: Result<ManagedProcess, ProcessError>)
        requires
            config matches ServerConfig::Std { env, .. } ==> env.wf(),
        ensures
            match r {
                Ok(p) => {
                    &&& !p.running
                    &&& p.config.env.wf()
                    &&& config@ matches ServerConfigV::Std { command, args, env }
                    &&& p.config.command@ == command
                    &&& p.config.args@.map_values(|a: String| a@) == args
                    &&& p.config.env@ == env
                },
                Err(e) => config@ is Sse && e is NotAProcess,
            },
    {
        match config {
            ServerConfig::Std { command, args, env } => Ok(
                ManagedProcess {
                    config: ProcessConfig {
                        command: command.clone(),
                        args: clone_strings(args),
                        env: clone_string_map(env),
                    },
                    running: false,
                },
            ),
            ServerConfig::Sse { .. } => Err(ProcessError::NotAProcess),
        }
    }

    /// Records that the process was started.
    pub fn mark_started(&mut self)
        ensures
            final(self).running,
            final(self).config == old(self).config,
    {
        self.running = true;
    }

    /// Records that the process was stopped (or never ran).
    pub fn stop(&mut self)
        ensures
            !final(self).running,
            final(self).config == old(self).config,
    {
        self.running = false;
    }
}

/// What the bridge takes of a line the process wrote: the line without
/// surrounding white space, where anything is left.
pub open spec fn output_line_of(line: Seq<char>) -> Option<Seq<char>> {
    if trim(line).len() == 0 {
        None
    } else {
        Some(trim(line))
    }
}

/// The text passed on for a line the process wrote, if any.
pub fn output_line(line: &str) -> (r: Option<String>)
    ensures
        match r {
            Some(s) => output_line_of(line@) == Some(s@),
            None => output_line_of(line@) is None,
        },
{
    let t = trim_str(line);
    if t.is_empty() {
        None
    } else {
        Some(t.to_owned())
    }
}

} // verus!
