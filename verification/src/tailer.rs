//! The log tailer's verified core. The caller polls the log file and hands
//! every newly read chunk of bytes to `LogTailer::feed`, which assembles the
//! completed lines, in file order, and keeps the trailing partial line for the
//! next chunk. Opening, sleeping and reading are the caller's outside work.

use vstd::prelude::*;

use crate::status::StatusMessage;

verus! {

/// Milliseconds to wait before first opening the log file, so the launched
/// node has time to create it.
pub const SETTLE_DELAY_MS: u64 = 2000;

/// Milliseconds to sleep between polls when no new line is available.
pub const POLL_INTERVAL_MS: u64 = 10;

/// A line as delivered: without its newline, and without one carriage return
/// directly before the newline.
pub open spec fn strip_cr(l: Seq<u8>) -> Seq<u8> {
    if l.len() > 0 && l.last() == 13 {
        l.drop_last()
    } else {
        l
    }
}

/// Scanning the pending bytes `acc` followed by the incoming bytes `s`:
/// the completed lines in order, and the bytes after the last newline.
pub open spec fn sp_scan(acc: Seq<u8>, s: Seq<u8>) -> (Seq<Seq<u8>>, Seq<u8>)
    decreases s.len(),
{
    if s.len() == 0 {
        (seq![], acc)
    } else if s[0] == 10 {
        let r = sp_scan(seq![], s.subrange(1, s.len() as int));
        (seq![strip_cr(acc)] + r.0, r.1)
    } else {
        sp_scan(acc.push(s[0]), s.subrange(1, s.len() as int))
    }
}

/// Feeding a byte stream in two chunks delivers exactly what feeding it whole
/// would: the lines of the first chunk stand first, unchanged and in order,
/// and the rest follows from the carried-over partial line. So no line is
/// ever reordered, duplicated or lost by the chunking of reads.
pub proof fn lemma_scan_append(acc: Seq<u8>, s: Seq<u8>, t: Seq<u8>)
    ensures
        sp_scan(acc, s + t).0 == sp_scan(acc, s).0 + sp_scan(sp_scan(acc, s).1, t).0,
        sp_scan(acc, s + t).1 == sp_scan(sp_scan(acc, s).1, t).1,
    decreases s.len(),
{
    if s.len() == 0 {
        assert(s + t =~= t);
        assert(sp_scan(acc, s).0 + sp_scan(sp_scan(acc, s).1, t).0 =~= sp_scan(acc, t).0);
    } else {
        let rest = s.subrange(1, s.len() as int);
        assert((s + t).len() > 0);
        assert((s + t)[0] == s[0]);
        assert((s + t).subrange(1, (s + t).len() as int) =~= rest + t);
        if s[0] == 10 {
            lemma_scan_append(seq![], rest, t);
            assert((seq![strip_cr(acc)] + sp_scan(seq![], rest).0) + sp_scan(
                sp_scan(seq![], rest).1,
                t,
            ).0 =~= seq![strip_cr(acc)] + sp_scan(seq![], rest + t).0);
        } else {
            lemma_scan_append(acc.push(s[0]), rest, t);
        }
    }
}

/// The lines already delivered after any earlier reads are a prefix of the
/// lines delivered after any later reads, in the same order.
pub proof fn lemma_delivery_order(acc: Seq<u8>, s: Seq<u8>, t: Seq<u8>)
    ensures
        sp_scan(acc, s + t).0.len() >= sp_scan(acc, s).0.len(),
        sp_scan(acc, s + t).0.subrange(0, sp_scan(acc, s).0.len() as int) == sp_scan(acc, s).0,
{
    lemma_scan_append(acc, s, t);
    assert(sp_scan(acc, s + t).0.subrange(0, sp_scan(acc, s).0.len() as int) =~= sp_scan(
        acc,
        s,
    ).0);
}

/// The fixed location of the node's log file below the home directory,
/// joined with `/` separators.
pub open spec fn log_subpath() -> Seq<char> {
    "/.safe/node/local-node/sn_node.log"@
}

/// Relies on `dirs::home_dir`: the platform's lookup of the current user's
/// home directory. The result depends on the environment, so nothing is
/// promised of it; `None` also stands for a path that is not valid Unicode.
#[verifier::external_body]
fn home_dir_string() -> (r: Option<String>) {
    dirs::home_dir().and_then(|p| p.to_str().map(|s| s.to_owned()))
}

/// The path of the node's log file below the given home directory.
pub fn log_file_path(home: &str) -> (p: String)
    ensures
        p@ == home@ + log_subpath(),
{
    home.to_owned().concat("/.safe/node/local-node/sn_node.log")
}

/// Resolve the log file's path from the runtime-discovered home directory;
/// `None` when no home directory can be found. Whatever the environment
/// answers, a resolved path ends in the fixed subpath.
pub fn resolve_log_path() -> (r: Option<String>)
    ensures
        r matches Some(p) ==> exists|h: Seq<char>| p@ == #[trigger] (h + log_subpath()),
{
    match home_dir_string() {
        None => None,
        Some(home) => {
            let p = log_file_path(home.as_str());
            proof {
                assert(p@ == home@ + log_subpath());
            }
            Some(p)
        },
    }
}

/// The status reported when the log file cannot be opened; tailing then
/// simply stops, without retry.
pub fn status_log_file_unavailable() -> (m: StatusMessage)
    ensures
        m.text@ == "Error: cannot open log file"@,
        m.is_error,
{
    StatusMessage::error("Error: cannot open log file")
}

/// The status reported when no home directory can be resolved.
pub fn status_home_dir_unavailable() -> (m: StatusMessage)
    ensures
        m.text@ == "Error: cannot find home dir"@,
        m.is_error,
{
    StatusMessage::error("Error: cannot find home dir")
}

/// Assembles log lines from the chunks the poll loop reads.
pub struct LogTailer {
    pending: Vec<u8>,
}

impl View for LogTailer {
    type V = Seq<u8>;

    /// The bytes read so far that no newline has finished yet.
    closed spec fn view(&self) -> Seq<u8> {
        self.pending@
    }
}

impl LogTailer {
    /// A tailer that has seen nothing yet.
    pub fn new() -> (t: LogTailer)
        ensures
            t@ == Seq::<u8>::empty(),
    {
        LogTailer { pending: Vec::new() }
    }

    /// The bytes held back because no newline has finished them yet.
    pub fn pending_bytes(&self) -> (b: &Vec<u8>)
        ensures
            b@ == self@,
    {
        &self.pending
    }

    /// Take one chunk of newly read bytes and hand back every line it
    /// completes, in file order; what follows the last newline is kept for
    /// the next chunk.
    pub fn feed(&mut self, chunk: &[u8]) -> (lines: Vec<Vec<u8>>)
        ensures
            lines.deep_view() == sp_scan(old(self)@, chunk@).0,
            final(self)@ == sp_scan(old(self)@, chunk@).1,
    {
        let ghost whole = sp_scan(old(self)@, chunk@);
        let mut lines: Vec<Vec<u8>> = Vec::new();
        let mut j: usize = 0;
        proof {
            assert(chunk@.subrange(0, chunk@.len() as int) =~= chunk@);
            assert(lines.deep_view() =~= Seq::<Seq<u8>>::empty());
            assert(lines.deep_view() + whole.0 =~= whole.0);
        }
        while j < chunk.len()
            invariant
                0 <= j <= chunk@.len(),
                whole == sp_scan(old(self)@, chunk@),
                lines.deep_view() + sp_scan(
                    self@,
                    chunk@.subrange(j as int, chunk@.len() as int),
                ).0 == whole.0,
                sp_scan(self@, chunk@.subrange(j as int, chunk@.len() as int)).1 == whole.1,
            decreases chunk@.len() - j,
        {
            let ghost rest = chunk@.subrange(j as int, chunk@.len() as int);
            let ghost pend = self@;
            proof {
                assert(rest[0] == chunk@[j as int]);
                assert(rest.subrange(1, rest.len() as int) =~= chunk@.subrange(
                    j as int + 1,
                    chunk@.len() as int,
                ));
            }
            let b = chunk[j];
            if b == 10 {
                if self.pending.len() > 0 && self.pending[self.pending.len() - 1] == 13 {
                    self.pending.pop();
                }
                proof {
                    assert(self@ == strip_cr(pend));
                }
                let mut line: Vec<u8> = Vec::new();
                core::mem::swap(&mut line, &mut self.pending);
                let ghost lines_pre = lines.deep_view();
                lines.push(line);
                proof {
                    assert(lines.deep_view() =~~= lines_pre.push(strip_cr(pend)));
                    assert(lines.deep_view() + sp_scan(
                        self@,
                        chunk@.subrange(j as int + 1, chunk@.len() as int),
                    ).0 =~= lines_pre + sp_scan(pend, rest).0);
                }
            } else {
                self.pending.push(b);
                proof {
                    assert(self@ == pend.push(b));
                }
            }
            j = j + 1;
        }
        proof {
            assert(chunk@.subrange(j as int, chunk@.len() as int) =~= Seq::<u8>::empty());
            assert(lines.deep_view() + sp_scan(self@, Seq::<u8>::empty()).0 =~= lines.deep_view());
        }
        lines
    }
}

} // verus!
