//! The engine session: a state machine over the three protocol states
//! (no child process, child spawned but handshake unconfirmed, ready),
//! together with the write/read primitives and the higher operations
//! (handshake, readiness check, option listing, best-move retrieval).
//!
//! The child's pipe endpoints are modeled as plain values: the lines the
//! engine has emitted and not yet been read stand in a queue, and the
//! command lines written so far stand in a log. The embedding program
//! owns the OS process and keeps such a model in step with it; a test
//! scripts an engine by preloading the queue. A read against an empty
//! queue is exactly a read against a stalled engine: it reports a
//! timeout rather than blocking, and never consumes anything.

use vstd::prelude::*;

use crate::text::spec_starts_with;
use crate::text::line_starts_with;

verus! {

/// The index, within `lines`, of the first line at or after position `i`
/// and before position `end` that starts with `prefix`; `None` when no
/// line in that range matches.
pub open spec fn scan_from(lines: Seq<String>, prefix: Seq<char>, i: int, end: int) -> Option<int>
    decreases end - i,
{
    if i < 0 || i >= end || i >= lines.len() {
        None
    } else if spec_starts_with(lines[i]@, prefix) {
        Some(i)
    } else {
        scan_from(lines, prefix, i + 1, end)
    }
}

/// The index of the first line among the first `bound` of `lines` that
/// starts with `prefix`.
pub open spec fn scan_for(lines: Seq<String>, prefix: Seq<char>, bound: int) -> Option<int> {
    scan_from(lines, prefix, 0, bound)
}

/// How many lines a failed scan consumes: everything available, up to
/// the scan budget.
pub open spec fn scan_cap(budget: int, available: int) -> int {
    if budget < available {
        budget
    } else {
        available
    }
}

/// A found scan index points at the first matching line: the line at the
/// index matches, every line before it (from the scan's start) does not,
/// and the index lies in range.
pub proof fn lemma_scan_found(lines: Seq<String>, prefix: Seq<char>, i: int, end: int, k: int)
    requires
        0 <= i,
        scan_from(lines, prefix, i, end) == Some(k),
    ensures
        i <= k < end,
        k < lines.len(),
        spec_starts_with(lines[k]@, prefix),
        forall|j: int| i <= j < k ==> !spec_starts_with(lines[j]@, prefix),
    decreases end - i,
{
    if i < end && i < lines.len() && !spec_starts_with(lines[i]@, prefix) {
        lemma_scan_found(lines, prefix, i + 1, end, k);
    }
}

/// A failed scan means no line in the scanned range matches.
pub proof fn lemma_scan_none(lines: Seq<String>, prefix: Seq<char>, i: int, end: int)
    requires
        0 <= i,
        scan_from(lines, prefix, i, end) is None,
    ensures
        forall|j: int| i <= j < end && j < lines.len() ==> !spec_starts_with(lines[j]@, prefix),
    decreases end - i,
{
    if i < end && i < lines.len() {
        lemma_scan_none(lines, prefix, i + 1, end);
    }
}

/// The typed failures an operation can report. Every operation returns
/// one of these rather than faulting; nothing is retried silently.
#[derive(Clone, Copy, Debug, PartialEq, Eq, Structural)]
pub enum EngineError {
    /// The child process could not be created.
    SpawnError,
    /// A write was attempted while no process is attached, or the pipe
    /// to the child is closed.
    WriteError,
    /// No complete line became available before the read deadline.
    ReadTimeout,
    /// The scanned lines were exhausted before the expected prefix.
    NotFound,
    /// The readiness check read a line other than the readiness token.
    NotReady,
    /// No best-move line was observed, or it carried no move token.
    NoBestMove,
    /// A stop request against a live process itself faulted.
    TerminationError,
}

/// The three logical states of a session.
#[derive(Clone, Copy, Debug, PartialEq, Eq, Structural)]
pub enum SessionState {
    /// No child process is attached; operations fail cleanly.
    Absent,
    /// A child is attached but the handshake is unconfirmed.
    LiveUnsynchronized,
    /// The handshake sentinel was observed; commands may be issued.
    LiveReady,
}

/// What a successful spawn hands the session: the child's output queue
/// and whether its input pipe accepts writes.
pub struct Transport {
    /// Lines the engine has emitted and the session has not yet read,
    /// oldest first, each stripped of its newline terminator.
    pub pending: Vec<String>,
    /// Whether the child still accepts writes on its input pipe.
    pub alive: bool,
}

/// A session over one managed engine process.
pub struct Engine {
    /// Whether a process handle is currently held.
    pub attached: bool,
    /// Whether the attached child's input pipe accepts writes.
    pub alive: bool,
    /// Whether the handshake sentinel has been observed.
    pub synced: bool,
    /// Lines emitted by the child and not yet read, oldest first.
    /// Meaningful only while a process is attached.
    pub pending: Vec<String>,
    /// Every command line written to the current child, oldest first,
    /// without the newline terminator that accompanies it on the wire.
    pub sent: Vec<String>,
    /// How many lines a single scan may read before it gives up.
    pub scan_budget: usize,
}

impl Engine {
    /// The protocol state the session is in.
    pub open spec fn state_of(self) -> SessionState {
        if !self.attached {
            SessionState::Absent
        } else if !self.synced {
            SessionState::LiveUnsynchronized
        } else {
            SessionState::LiveReady
        }
    }

    /// The characters of every command line written so far.
    pub open spec fn lines_out(self) -> Seq<Seq<char>> {
        Seq::new(self.sent@.len(), |i: int| self.sent@[i]@)
    }

    /// A fresh, inert session: no process, nothing written, nothing
    /// pending.
    pub fn idle(scan_budget: usize) -> (e: Engine)
        ensures
            e.state_of() is Absent,
            !e.attached,
            !e.alive,
            !e.synced,
            e.pending@ == Seq::<String>::empty(),
            e.sent@ == Seq::<String>::empty(),
            e.scan_budget == scan_budget,
    {
        Engine {
            attached: false,
            alive: false,
            synced: false,
            pending: Vec::new(),
            sent: Vec::new(),
            scan_budget,
        }
    }

    /// The protocol state, as a value a caller can branch on.
    pub fn state(&self) -> (s: SessionState)
        ensures
            s == self.state_of(),
    {
        if !self.attached {
            SessionState::Absent
        } else if !self.synced {
            SessionState::LiveUnsynchronized
        } else {
            SessionState::LiveReady
        }
    }

    /// What a single command-line write does to a session: with no
    /// process attached it fails with `WriteError` and changes nothing;
    /// with a closed pipe it fails with `WriteError` and detaches the
    /// session; with a live child it appends `cmd` to the log of
    /// written lines and succeeds.
    pub open spec fn wrote_line(
        pre: Engine,
        post: Engine,
        r: Result<(), EngineError>,
        cmd: Seq<char>,
    ) -> bool {
        &&& post.scan_budget == pre.scan_budget
        &&& post.pending == pre.pending
        &&& (!pre.attached ==> r == Err::<(), EngineError>(EngineError::WriteError) && post == pre)
        &&& (pre.attached && !pre.alive ==> {
            &&& r == Err::<(), EngineError>(EngineError::WriteError)
            &&& !post.attached
            &&& !post.alive
            &&& !post.synced
            &&& post.sent == pre.sent
        })
        &&& (pre.attached && pre.alive ==> {
            &&& r == Ok::<(), EngineError>(())
            &&& post.attached
            &&& post.alive
            &&& post.synced == pre.synced
            &&& post.lines_out() == pre.lines_out().push(cmd)
        })
        &&& (r is Ok <==> pre.attached && pre.alive)
    }

    /// Appends one command line to the child's input. With no process
    /// attached, or with the pipe closed, the write fails with
    /// `WriteError`; a closed pipe additionally detaches the session,
    /// so that an unexpectedly exited child leaves it `Absent`.
    pub fn write(&mut self, cmd: &str) -> (r: Result<(), EngineError>)
        ensures
            Engine::wrote_line(*old(self), *final(self), r, cmd@),
    {
        if !self.attached {
            return Err(EngineError::WriteError);
        }
        if !self.alive {
            self.attached = false;
            self.synced = false;
            return Err(EngineError::WriteError);
        }
        self.sent.push(cmd.to_owned());
        proof {
            assert(final(self).lines_out() =~= old(self).lines_out().push(cmd@));
        }
        Ok(())
    }

    /// Reads one line from the child's output. With no process attached,
    /// or with nothing available before the deadline (an empty queue),
    /// the read fails with `ReadTimeout` and consumes nothing; otherwise
    /// it returns the oldest pending line.
    pub fn read_line(&mut self) -> (r: Result<String, EngineError>)
        ensures
            final(self).attached == old(self).attached,
            final(self).alive == old(self).alive,
            final(self).synced == old(self).synced,
            final(self).scan_budget == old(self).scan_budget,
            final(self).sent == old(self).sent,
            !old(self).attached || old(self).pending@.len() == 0 ==> {
                &&& r == Err::<String, EngineError>(EngineError::ReadTimeout)
                &&& *final(self) == *old(self)
            },
            old(self).attached && old(self).pending@.len() > 0 ==> {
                &&& (r matches Ok(line) && line == old(self).pending@[0])
                &&& final(self).pending@ == old(self).pending@.skip(1)
            },
    {
        if !self.attached {
            return Err(EngineError::ReadTimeout);
        }
        if self.pending.len() == 0 {
            return Err(EngineError::ReadTimeout);
        }
        let line = self.pending.remove(0);
        proof {
            assert(final(self).pending@ =~= old(self).pending@.skip(1));
        }
        Ok(line)
    }

    /// Reads lines until one starting with `expected` is observed, and
    /// returns that line. The scan is bounded: it gives up with
    /// `NotFound` once the per-session line budget is spent or a read
    /// times out, leaving the lines it scanned consumed. With no process
    /// attached it fails with `NotFound` at once and consumes nothing.
    pub fn expect(&mut self, expected: &str) -> (r: Result<String, EngineError>)
        ensures
            final(self).attached == old(self).attached,
            final(self).alive == old(self).alive,
            final(self).synced == old(self).synced,
            final(self).scan_budget == old(self).scan_budget,
            final(self).sent == old(self).sent,
            !old(self).attached ==> {
                &&& r == Err::<String, EngineError>(EngineError::NotFound)
                &&& *final(self) == *old(self)
            },
            old(self).attached ==> match scan_for(
                old(self).pending@,
                expected@,
                old(self).scan_budget as int,
            ) {
                Some(i) => {
                    &&& (r matches Ok(line) && line == old(self).pending@[i])
                    &&& final(self).pending@ == old(self).pending@.skip(i + 1)
                },
                None => {
                    &&& r == Err::<String, EngineError>(EngineError::NotFound)
                    &&& final(self).pending@ == old(self).pending@.skip(
                        scan_cap(old(self).scan_budget as int, old(self).pending@.len() as int),
                    )
                },
            },
    {
        if !self.attached {
            return Err(EngineError::NotFound);
        }
        let ghost pl: Seq<String> = self.pending@;
        let ghost bound: int = self.scan_budget as int;
        let budget = self.scan_budget;
        let mut k: usize = 0;
        while k < budget && self.pending.len() > 0
            invariant
                old(self).attached,
                self.attached == old(self).attached,
                self.alive == old(self).alive,
                self.synced == old(self).synced,
                self.sent == old(self).sent,
                self.scan_budget == old(self).scan_budget,
                budget == old(self).scan_budget,
                bound == budget as int,
                pl == old(self).pending@,
                k <= budget,
                k <= pl.len(),
                self.pending@ == pl.skip(k as int),
                scan_for(pl, expected@, bound) == scan_from(pl, expected@, k as int, bound),
            decreases budget - k,
        {
            let line = self.pending.remove(0);
            proof {
                assert(pl.skip(k as int)[0] == pl[k as int]);
                assert(self.pending@ =~= pl.skip(k as int + 1));
            }
            if line_starts_with(line.as_str(), expected) {
                proof {
                    assert(scan_from(pl, expected@, k as int, bound) == Some(k as int));
                }
                return Ok(line);
            }
            k += 1;
        }
        proof {
            assert(scan_from(pl, expected@, k as int, bound) is None);
            assert(self.pending@ =~= pl.skip(scan_cap(bound, pl.len() as int)));
        }
        Err(EngineError::NotFound)
    }

    /// The handshake: writes the handshake command, then scans for the
    /// completion sentinel. Observing the sentinel moves the session to
    /// `LiveReady`; a scan that gives up leaves the child running and
    /// the session `LiveUnsynchronized`, for the caller to clean up or
    /// retry.
    pub fn uci(&mut self) -> (r: Result<(), EngineError>)
        ensures
            final(self).scan_budget == old(self).scan_budget,
            !old(self).attached ==> {
                &&& r == Err::<(), EngineError>(EngineError::WriteError)
                &&& *final(self) == *old(self)
            },
            old(self).attached && !old(self).alive ==> {
                &&& r == Err::<(), EngineError>(EngineError::WriteError)
                &&& !final(self).attached
                &&& !final(self).synced
                &&& final(self).pending == old(self).pending
                &&& final(self).sent == old(self).sent
            },
            old(self).attached && old(self).alive ==> {
                &&& final(self).attached
                &&& final(self).alive
                &&& final(self).lines_out() == old(self).lines_out().push("uci"@)
                &&& match scan_for(
                    old(self).pending@,
                    "uciok"@,
                    old(self).scan_budget as int,
                ) {
                    Some(i) => {
                        &&& r == Ok::<(), EngineError>(())
                        &&& final(self).synced
                        &&& final(self).pending@ == old(self).pending@.skip(i + 1)
                    },
                    None => {
                        &&& r == Err::<(), EngineError>(EngineError::NotFound)
                        &&& !final(self).synced
                        &&& final(self).pending@ == old(self).pending@.skip(
                            scan_cap(old(self).scan_budget as int, old(self).pending@.len() as int),
                        )
                    },
                }
            },
            r is Ok ==> final(self).state_of() is LiveReady,
    {
        match self.write("uci") {
            Err(e) => {
                return Err(e);
            },
            Ok(()) => {},
        }
        match self.expect("uciok") {
            Ok(_) => {
                self.synced = true;
                Ok(())
            },
            Err(_) => {
                self.synced = false;
                Err(EngineError::NotFound)
            },
        }
    }

    /// The readiness check: writes the readiness command and reads
    /// exactly one line, succeeding only if that line is exactly the
    /// readiness token; any other content fails with `NotReady`, and a
    /// silent child with `ReadTimeout`.
    pub fn isready(&mut self) -> (r: Result<(), EngineError>)
        ensures
            final(self).scan_budget == old(self).scan_budget,
            !old(self).attached ==> {
                &&& r == Err::<(), EngineError>(EngineError::WriteError)
                &&& *final(self) == *old(self)
            },
            old(self).attached && !old(self).alive ==> {
                &&& r == Err::<(), EngineError>(EngineError::WriteError)
                &&& !final(self).attached
                &&& !final(self).synced
                &&& final(self).pending == old(self).pending
                &&& final(self).sent == old(self).sent
            },
            old(self).attached && old(self).alive ==> {
                &&& final(self).attached
                &&& final(self).alive
                &&& final(self).synced == old(self).synced
                &&& final(self).lines_out() == old(self).lines_out().push("isready"@)
                &&& (old(self).pending@.len() == 0 ==> {
                    &&& r == Err::<(), EngineError>(EngineError::ReadTimeout)
                    &&& final(self).pending == old(self).pending
                })
                &&& (old(self).pending@.len() > 0 ==> {
                    &&& final(self).pending@ == old(self).pending@.skip(1)
                    &&& r == (if old(self).pending@[0]@ == "readyok"@ {
                        Ok::<(), EngineError>(())
                    } else {
                        Err::<(), EngineError>(EngineError::NotReady)
                    })
                })
            },
    {
        match self.write("isready") {
            Err(e) => {
                return Err(e);
            },
            Ok(()) => {},
        }
        match self.read_line() {
            Err(e) => Err(e),
            Ok(line) => {
                if crate::text::str_eq(line.as_str(), "readyok") {
                    Ok(())
                } else {
                    Err(EngineError::NotReady)
                }
            },
        }
    }

    /// Writes a position-setup command for a base position in FEN
    /// notation followed by a move list; a pure write, no reply is
    /// expected.
    pub fn position_fen(&mut self, start: &str, moves: &str) -> (r: Result<(), EngineError>)
        ensures
            Engine::wrote_line(
                *old(self),
                *final(self),
                r,
                "position fen "@ + start@ + " moves "@ + moves@,
            ),
    {
        let cmd = crate::commands::position_fen_command(start, moves);
        self.write(cmd.as_str())
    }

    /// Writes a position-setup command for the standard starting
    /// position followed by a move list; a pure write.
    pub fn position_startpos(&mut self, moves: &str) -> (r: Result<(), EngineError>)
        ensures
            Engine::wrote_line(
                *old(self),
                *final(self),
                r,
                "position startpos moves "@ + moves@,
            ),
    {
        let cmd = crate::commands::position_startpos_command(moves);
        self.write(cmd.as_str())
    }

    /// Writes an option-assignment command; a pure write.
    pub fn set_option(&mut self, name: &str, value: &str) -> (r: Result<(), EngineError>)
        ensures
            Engine::wrote_line(
                *old(self),
                *final(self),
                r,
                "setoption name "@ + name@ + " value "@ + value@,
            ),
    {
        let cmd = crate::commands::set_option_command(name, value);
        self.write(cmd.as_str())
    }

    /// Writes the game-reset command; a pure write.
    pub fn new_game(&mut self) -> (r: Result<(), EngineError>)
        ensures
            Engine::wrote_line(*old(self), *final(self), r, "ucinewgame"@),
    {
        self.write("ucinewgame")
    }

    /// Writes the search-stop command; a pure write.
    pub fn stop(&mut self) -> (r: Result<(), EngineError>)
        ensures
            Engine::wrote_line(*old(self), *final(self), r, "stop"@),
    {
        self.write("stop")
    }

    /// Writes the unbounded search-start command; a pure write.
    pub fn go(&mut self) -> (r: Result<(), EngineError>)
        ensures
            Engine::wrote_line(*old(self), *final(self), r, "go infinite"@),
    {
        self.write("go infinite")
    }

    /// Writes the node-limited search-start command; a pure write.
    pub fn go_nodes(&mut self, nodes: usize) -> (r: Result<(), EngineError>)
        ensures
            Engine::wrote_line(
                *old(self),
                *final(self),
                r,
                "go nodes "@ + crate::text::dec_rep(nodes as nat),
            ),
    {
        let cmd = crate::commands::go_nodes_command(nodes as u64);
        self.write(cmd.as_str())
    }

    /// Writes the graceful-exit command; a pure write. The engine is
    /// asked to exit on its own; `terminate` remains available in case
    /// it does not exit promptly.
    pub fn quit(&mut self) -> (r: Result<(), EngineError>)
        ensures
            Engine::wrote_line(*old(self), *final(self), r, "quit"@),
    {
        self.write("quit")
    }

    /// Writes the handshake command again and accumulates every line
    /// read up to and including the completion sentinel, in emission
    /// order: the engine re-emits its capability and option list on
    /// every handshake request. When the scan gives up before the
    /// sentinel, the lines read so far are returned.
    pub fn get_options(&mut self) -> (r: Result<Vec<String>, EngineError>)
        ensures
            final(self).scan_budget == old(self).scan_budget,
            !old(self).attached ==> {
                &&& r == Err::<Vec<String>, EngineError>(EngineError::WriteError)
                &&& *final(self) == *old(self)
            },
            old(self).attached && !old(self).alive ==> {
                &&& r == Err::<Vec<String>, EngineError>(EngineError::WriteError)
                &&& !final(self).attached
                &&& !final(self).synced
                &&& final(self).pending == old(self).pending
                &&& final(self).sent == old(self).sent
            },
            old(self).attached && old(self).alive ==> {
                &&& final(self).attached
                &&& final(self).alive
                &&& final(self).synced == old(self).synced
                &&& final(self).lines_out() == old(self).lines_out().push("uci"@)
                &&& match scan_for(
                    old(self).pending@,
                    "uciok"@,
                    old(self).scan_budget as int,
                ) {
                    Some(i) => {
                        &&& (r matches Ok(v) && v@ == old(self).pending@.take(i + 1))
                        &&& final(self).pending@ == old(self).pending@.skip(i + 1)
                    },
                    None => {
                        &&& (r matches Ok(v) && v@ == old(self).pending@.take(
                            scan_cap(old(self).scan_budget as int, old(self).pending@.len() as int),
                        ))
                        &&& final(self).pending@ == old(self).pending@.skip(
                            scan_cap(old(self).scan_budget as int, old(self).pending@.len() as int),
                        )
                    },
                }
            },
    {
        match self.write("uci") {
            Err(e) => {
                return Err(e);
            },
            Ok(()) => {},
        }
        let ghost pl: Seq<String> = self.pending@;
        let ghost bound: int = self.scan_budget as int;
        let budget = self.scan_budget;
        let mut out: Vec<String> = Vec::new();
        let mut k: usize = 0;
        while k < budget && self.pending.len() > 0
            invariant
                old(self).attached,
                old(self).alive,
                self.attached,
                self.alive,
                self.synced == old(self).synced,
                self.lines_out() == old(self).lines_out().push("uci"@),
                self.scan_budget == old(self).scan_budget,
                budget == self.scan_budget,
                bound == budget as int,
                pl == old(self).pending@,
                k <= budget,
                k <= pl.len(),
                out@ == pl.take(k as int),
                self.pending@ == pl.skip(k as int),
                scan_for(pl, "uciok"@, bound) == scan_from(pl, "uciok"@, k as int, bound),
            decreases budget - k,
        {
            let line = self.pending.remove(0);
            let sentinel_seen = line_starts_with(line.as_str(), "uciok");
            proof {
                assert(pl.skip(k as int)[0] == pl[k as int]);
                assert(self.pending@ =~= pl.skip(k as int + 1));
            }
            out.push(line);
            proof {
                assert(out@ =~= pl.take(k as int + 1));
            }
            if sentinel_seen {
                proof {
                    assert(scan_from(pl, "uciok"@, k as int, bound) == Some(k as int));
                }
                return Ok(out);
            }
            k += 1;
        }
        proof {
            assert(scan_from(pl, "uciok"@, k as int, bound) is None);
            assert(self.pending@ =~= pl.skip(scan_cap(bound, pl.len() as int)));
            assert(out@ =~= pl.take(scan_cap(bound, pl.len() as int)));
        }
        Ok(out)
    }

    /// Scans for the best-move reply and extracts the reported move:
    /// the second whitespace-delimited token of the first line starting
    /// with the best-move prefix. Fails with `NoBestMove` when no such
    /// line is observed within the scan budget, or when the line
    /// carries no second token.
    pub fn get_bestmove(&mut self) -> (r: Result<String, EngineError>)
        ensures
            final(self).attached == old(self).attached,
            final(self).alive == old(self).alive,
            final(self).synced == old(self).synced,
            final(self).scan_budget == old(self).scan_budget,
            final(self).sent == old(self).sent,
            !old(self).attached ==> {
                &&& r == Err::<String, EngineError>(EngineError::NoBestMove)
                &&& *final(self) == *old(self)
            },
            old(self).attached ==> match scan_for(
                old(self).pending@,
                "bestmove"@,
                old(self).scan_budget as int,
            ) {
                Some(i) => {
                    &&& final(self).pending@ == old(self).pending@.skip(i + 1)
                    &&& match crate::text::spec_second_token(old(self).pending@[i]@) {
                        Some(t) => r matches Ok(m) && m@ == t,
                        None => r == Err::<String, EngineError>(EngineError::NoBestMove),
                    }
                },
                None => {
                    &&& r == Err::<String, EngineError>(EngineError::NoBestMove)
                    &&& final(self).pending@ == old(self).pending@.skip(
                        scan_cap(old(self).scan_budget as int, old(self).pending@.len() as int),
                    )
                },
            },
    {
        match self.expect("bestmove") {
            Err(_) => Err(EngineError::NoBestMove),
            Ok(line) => match crate::text::second_token(line.as_str()) {
                Some(m) => Ok(m),
                None => Err(EngineError::NoBestMove),
            },
        }
    }

    /// Populates the session from the outcome of a spawn attempt and
    /// performs the initial handshake. A failed spawn reports
    /// `SpawnError` and leaves the session as it was; a successful one
    /// attaches the child's pipes, clears the command log, writes the
    /// handshake command and scans for its sentinel, as `uci` does.
    pub fn new(&mut self, spawned: Option<Transport>) -> (r: Result<(), EngineError>)
        ensures
            final(self).scan_budget == old(self).scan_budget,
            spawned is None ==> {
                &&& r == Err::<(), EngineError>(EngineError::SpawnError)
                &&& *final(self) == *old(self)
            },
            spawned matches Some(t) ==> {
                &&& (!t.alive ==> {
                    &&& r == Err::<(), EngineError>(EngineError::WriteError)
                    &&& !final(self).attached
                    &&& !final(self).synced
                    &&& final(self).pending == t.pending
                    &&& final(self).lines_out() == Seq::<Seq<char>>::empty()
                })
                &&& (t.alive ==> {
                    &&& final(self).attached
                    &&& final(self).alive
                    &&& final(self).lines_out() == Seq::<Seq<char>>::empty().push("uci"@)
                    &&& match scan_for(t.pending@, "uciok"@, old(self).scan_budget as int) {
                        Some(i) => {
                            &&& r == Ok::<(), EngineError>(())
                            &&& final(self).synced
                            &&& final(self).pending@ == t.pending@.skip(i + 1)
                        },
                        None => {
                            &&& r == Err::<(), EngineError>(EngineError::NotFound)
                            &&& !final(self).synced
                            &&& final(self).pending@ == t.pending@.skip(
                                scan_cap(old(self).scan_budget as int, t.pending@.len() as int),
                            )
                        },
                    }
                })
            },
            r is Ok ==> final(self).state_of() is LiveReady,
    {
        match spawned {
            None => Err(EngineError::SpawnError),
            Some(t) => {
                self.attached = true;
                self.alive = t.alive;
                self.synced = false;
                self.pending = t.pending;
                self.sent = Vec::new();
                proof {
                    assert(self.lines_out() =~= Seq::<Seq<char>>::empty());
                }
                self.uci()
            },
        }
    }

    /// What `terminate` does to a session: with no process attached it
    /// is a no-op that succeeds; with one attached it detaches on an
    /// accepted stop request, and reports `TerminationError` without
    /// detaching when the stop request itself faulted.
    pub open spec fn spec_terminate(e: Engine, stop_accepted: bool) -> (Engine, Result<
        (),
        EngineError,
    >) {
        if !e.attached {
            (e, Ok(()))
        } else if stop_accepted {
            (Engine { attached: false, alive: false, synced: false, ..e }, Ok(()))
        } else {
            (e, Err(EngineError::TerminationError))
        }
    }

    /// Forcibly stops the managed process, if one is attached, and
    /// clears the stored handle. Idempotent: against an absent process
    /// it succeeds with no effect. `stop_accepted` reports whether the
    /// OS-level stop request went through; a faulted request is the one
    /// case that fails, with `TerminationError`.
    pub fn terminate(&mut self, stop_accepted: bool) -> (r: Result<(), EngineError>)
        ensures
            *final(self) == Engine::spec_terminate(*old(self), stop_accepted).0,
            r == Engine::spec_terminate(*old(self), stop_accepted).1,
            final(self).state_of() is Absent || r == Err::<(), EngineError>(
                EngineError::TerminationError,
            ),
    {
        if !self.attached {
            Ok(())
        } else if stop_accepted {
            self.attached = false;
            self.alive = false;
            self.synced = false;
            Ok(())
        } else {
            Err(EngineError::TerminationError)
        }
    }
}

/// For every command, a write against a session whose process is
/// absent fails with `WriteError` and leaves the session untouched,
/// while a write against a live, attached child always succeeds; no
/// other outcome exists for a live child.
pub proof fn lemma_write_liveness(
    pre: Engine,
    post: Engine,
    r: Result<(), EngineError>,
    cmd: Seq<char>,
)
    requires
        Engine::wrote_line(pre, post, r, cmd),
    ensures
        pre.state_of() is Absent ==> r == Err::<(), EngineError>(EngineError::WriteError) && post
            == pre,
        !(pre.state_of() is Absent) && pre.alive ==> r == Ok::<(), EngineError>(()),
{
}

/// Termination is idempotent: once a terminate has succeeded the
/// session holds no process, and terminating again — whatever the OS
/// would have said to a stop request — succeeds and changes nothing.
pub proof fn lemma_terminate_idempotent(e: Engine, first_stop: bool, second_stop: bool)
    requires
        Engine::spec_terminate(e, first_stop).1 is Ok,
    ensures
        Engine::spec_terminate(Engine::spec_terminate(e, first_stop).0, second_stop).0
            == Engine::spec_terminate(e, first_stop).0,
        Engine::spec_terminate(Engine::spec_terminate(e, first_stop).0, second_stop).1 is Ok,
{
}

/// An option-enumeration block is exactly the emitted lines up to and
/// including the first sentinel line: every line before the sentinel is
/// kept, in emission order, the sentinel closes the block, and nothing
/// before the sentinel is excluded.
pub proof fn lemma_options_block(lines: Seq<String>, sentinel: Seq<char>, bound: int, i: int)
    requires
        scan_for(lines, sentinel, bound) == Some(i),
    ensures
        0 <= i < lines.len(),
        lines.take(i + 1).len() == i + 1,
        forall|j: int| 0 <= j <= i ==> lines.take(i + 1)[j] == lines[j],
        spec_starts_with(lines[i]@, sentinel),
        forall|j: int| 0 <= j < i ==> !spec_starts_with(lines[j]@, sentinel),
{
    lemma_scan_found(lines, sentinel, 0, bound, i);
}

} // verus!

