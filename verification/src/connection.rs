//! The connection layer's verifiable half: framing an inbound byte stream
//! into lines and turning one line into at most one response.
//!
//! The caller owns the socket; it feeds raw bytes in, takes complete lines
//! out, and writes back the response text of each processed line. A line
//! left without terminator when the stream closes is still handed out, so
//! a peer that closes without a final newline is served and never hangs.
//!
//! A connection speaks only when spoken to: no unsolicited notification is
//! sent after accept, and an undecodable line is dropped without a
//! response — observable to the caller for logging, fatal to nothing.

use vstd::prelude::*;

use crate::resources::ResourceRegistry;
use crate::server::McpServer;
use crate::tools::ToolRegistry;
use crate::wire::valid_response;

verus! {

/// ASCII whitespace as the line trimmer sees it: space, tab, carriage
/// return, line feed.
pub open spec fn is_ws(b: u8) -> bool {
    b == 32 || b == 9 || b == 13 || b == 10
}

/// The sequence with its leading whitespace removed.
pub open spec fn trim_start_s(s: Seq<u8>) -> Seq<u8>
    decreases s.len(),
{
    if s.len() > 0 && is_ws(s[0]) {
        trim_start_s(s.skip(1))
    } else {
        s
    }
}

/// The sequence with its trailing whitespace removed.
pub open spec fn trim_end_s(s: Seq<u8>) -> Seq<u8>
    decreases s.len(),
{
    if s.len() > 0 && is_ws(s.last()) {
        trim_end_s(s.drop_last())
    } else {
        s
    }
}

/// The sequence with whitespace removed at both ends.
pub open spec fn trimmed(s: Seq<u8>) -> Seq<u8> {
    trim_end_s(trim_start_s(s))
}

/// Removes leading and trailing ASCII whitespace.
pub fn trim_bytes(line: &[u8]) -> (r: Vec<u8>)
    ensures
        r@ == trimmed(line@),
{
    let n = line.len();
    proof {
        assert(line@.skip(0) =~= line@);
    }
    let mut lo: usize = 0;
    while lo < n && (line[lo] == 32 || line[lo] == 9 || line[lo] == 13 || line[lo] == 10)
        invariant
            n == line@.len(),
            lo <= n,
            trim_start_s(line@) == trim_start_s(line@.skip(lo as int)),
        decreases n - lo,
    {
        proof {
            assert(line@.skip(lo as int).len() > 0 && is_ws(line@.skip(lo as int)[0]));
            assert(line@.skip(lo as int).skip(1) =~= line@.skip(lo as int + 1));
        }
        lo += 1;
    }
    proof {
        if lo < n {
            assert(!is_ws(line@.skip(lo as int)[0]));
        } else {
            assert(line@.skip(lo as int).len() == 0);
        }
        assert(trim_start_s(line@) == line@.skip(lo as int));
    }
    let mut hi: usize = n;
    while hi > lo && (line[hi - 1] == 32 || line[hi - 1] == 9 || line[hi - 1] == 13 || line[hi - 1]
        == 10)
        invariant
            n == line@.len(),
            lo <= hi <= n,
            trim_start_s(line@) == line@.skip(lo as int),
            trim_end_s(line@.skip(lo as int)) == trim_end_s(line@.subrange(lo as int, hi as int)),
        decreases hi,
    {
        proof {
            let cur = line@.subrange(lo as int, hi as int);
            assert(cur.len() > 0 && cur.last() == line@[hi as int - 1] && is_ws(cur.last()));
            assert(cur.drop_last() =~= line@.subrange(lo as int, hi as int - 1));
        }
        hi -= 1;
    }
    proof {
        let cur = line@.subrange(lo as int, hi as int);
        if hi > lo {
            assert(cur.last() == line@[hi as int - 1]);
            assert(!is_ws(cur.last()));
        } else {
            assert(cur.len() == 0);
        }
        assert(trim_end_s(cur) == cur);
        assert(line@.skip(lo as int) =~= line@.subrange(lo as int, n as int));
        assert(trimmed(line@) == cur);
    }
    let mut r: Vec<u8> = Vec::new();
    let mut i: usize = lo;
    while i < hi
        invariant
            lo <= i <= hi <= n,
            n == line@.len(),
            r@ == line@.subrange(lo as int, i as int),
        decreases hi - i,
    {
        r.push(line[i]);
        proof {
            assert(line@.subrange(lo as int, i as int).push(line@[i as int]) =~= line@.subrange(
                lo as int,
                i as int + 1,
            ));
        }
        i += 1;
    }
    proof {
        assert(r@ == trimmed(line@));
    }
    r
}

/// The position of the first line feed, if any.
pub open spec fn find_nl(s: Seq<u8>) -> Option<int>
    decreases s.len(),
{
    if s.len() == 0 {
        None
    } else if s[0] == 10 {
        Some(0)
    } else {
        match find_nl(s.skip(1)) {
            None => None,
            Some(i) => Some(i + 1),
        }
    }
}

/// `find_nl` yields the position of the first line feed.
pub proof fn lemma_find_nl_at(s: Seq<u8>, i: int)
    requires
        0 <= i < s.len(),
        s[i] == 10,
        forall|j: int| 0 <= j < i ==> s[j] != 10,
    ensures
        find_nl(s) == Some(i),
    decreases i,
{
    if i > 0 {
        lemma_find_nl_at(s.skip(1), i - 1);
    }
}

/// `find_nl` yields nothing on a sequence without line feeds.
pub proof fn lemma_find_nl_none(s: Seq<u8>)
    requires
        forall|j: int| 0 <= j < s.len() ==> s[j] != 10,
    ensures
        find_nl(s) is None,
    decreases s.len(),
{
    if s.len() > 0 {
        lemma_find_nl_none(s.skip(1));
    }
}

/// Splits an inbound byte stream into newline-terminated lines.
///
/// Bytes are fed in as they arrive; each complete line comes out without
/// its terminator, and whatever remains when the stream ends is handed out
/// as a final, unterminated line.
pub struct LineFramer {
    buf: Vec<u8>,
}

impl View for LineFramer {
    type V = Seq<u8>;

    closed spec fn view(&self) -> Seq<u8> {
        self.buf@
    }
}

impl LineFramer {
    /// An empty framer.
    pub fn new() -> (r: Self)
        ensures
            r@ == Seq::<u8>::empty(),
    {
        LineFramer { buf: Vec::new() }
    }

    /// Appends freshly read bytes to the buffer.
    pub fn feed(&mut self, data: &[u8])
        ensures
            final(self)@ == old(self)@ + data@,
    {
        let n = data.len();
        let mut i: usize = 0;
        while i < n
            invariant
                n == data@.len(),
                i <= n,
                self.buf@ == old(self)@ + data@.take(i as int),
            decreases n - i,
        {
            self.buf.push(data[i]);
            proof {
                assert(old(self)@ + data@.take(i as int + 1) =~= (old(self)@ + data@.take(
                    i as int,
                )).push(data@[i as int]));
            }
            i += 1;
        }
        proof {
            assert(data@.take(n as int) =~= data@);
        }
    }

    /// Takes the first complete line out of the buffer: the bytes before
    /// the first line feed, which is consumed with the line. `None` when no
    /// complete line is buffered, leaving the buffer as it is.
    pub fn next_line(&mut self) -> (r: Option<Vec<u8>>)
        ensures
            match find_nl(old(self)@) {
                Some(i) => (r matches Some(line) && line@ == old(self)@.take(i) && final(self)@
                    == old(self)@.skip(i + 1)),
                None => r is None && final(self)@ == old(self)@,
            },
    {
        let n = self.buf.len();
        let mut i: usize = 0;
        while i < n && self.buf[i] != 10
            invariant
                n == self.buf@.len(),
                i <= n,
                self == old(self),
                forall|j: int| 0 <= j < i ==> self.buf@[j] != 10,
            decreases n - i,
        {
            i += 1;
        }
        if i == n {
            proof {
                lemma_find_nl_none(self.buf@);
            }
            return None;
        }
        proof {
            lemma_find_nl_at(self.buf@, i as int);
        }
        let mut line: Vec<u8> = Vec::new();
        let mut j: usize = 0;
        while j < i
            invariant
                j <= i < n,
                n == self.buf@.len(),
                self == old(self),
                line@ == self.buf@.take(j as int),
            decreases i - j,
        {
            line.push(self.buf[j]);
            proof {
                assert(self.buf@.take(j as int).push(self.buf@[j as int]) =~= self.buf@.take(
                    j as int + 1,
                ));
            }
            j += 1;
        }
        let mut rest: Vec<u8> = Vec::new();
        let mut k: usize = i + 1;
        while k < n
            invariant
                i < n,
                i + 1 <= k <= n,
                n == self.buf@.len(),
                self == old(self),
                rest@ == self.buf@.subrange(i as int + 1, k as int),
            decreases n - k,
        {
            rest.push(self.buf[k]);
            proof {
                assert(self.buf@.subrange(i as int + 1, k as int).push(self.buf@[k as int])
                    =~= self.buf@.subrange(i as int + 1, k as int + 1));
            }
            k += 1;
        }
        proof {
            assert(rest@ =~= self.buf@.skip(i as int + 1));
        }
        self.buf = rest;
        Some(line)
    }

    /// Takes the unterminated remainder when the stream has ended: the
    /// whole buffer, or `None` when nothing is pending. The buffer is empty
    /// afterwards either way.
    pub fn take_rest(&mut self) -> (r: Option<Vec<u8>>)
        ensures
            final(self)@ == Seq::<u8>::empty(),
            old(self)@.len() == 0 ==> r is None,
            old(self)@.len() > 0 ==> (r matches Some(rest) && rest@ == old(self)@),
    {
        let n = self.buf.len();
        if n == 0 {
            return None;
        }
        let mut rest: Vec<u8> = Vec::new();
        let mut i: usize = 0;
        while i < n
            invariant
                i <= n,
                n == self.buf@.len(),
                self == old(self),
                rest@ == self.buf@.take(i as int),
            decreases n - i,
        {
            rest.push(self.buf[i]);
            proof {
                assert(self.buf@.take(i as int).push(self.buf@[i as int]) =~= self.buf@.take(
                    i as int + 1,
                ));
            }
            i += 1;
        }
        proof {
            assert(rest@ =~= old(self)@);
        }
        self.buf = Vec::new();
        Some(rest)
    }
}

/// What handling one line of input produced.
pub enum LineOutcome {
    /// A response envelope to write back, to be newline-terminated by the
    /// caller.
    Response(String),
    /// The line was blank: nothing is dispatched and no response is owed.
    Blank,
    /// The line did not decode to a dispatchable request: it is dropped,
    /// observable to the caller for logging, fatal to nothing.
    Malformed,
}

/// Handles one framed line: blank lines produce no response, and every
/// other line is answered exactly as [`crate::server::spec_handle_message`]
/// says — one well-formed response envelope where the trimmed line
/// decodes, `Malformed` where it does not.
pub fn process_line(
    line: &[u8],
    tool_registry: &ToolRegistry,
    resource_registry: &ResourceRegistry,
) -> (r: LineOutcome)
    ensures
        (trimmed(line@).len() == 0) <==> r is Blank,
        r matches LineOutcome::Response(resp) ==> valid_response(resp@),
        trimmed(line@).len() > 0 ==> match r {
            LineOutcome::Response(resp) => crate::server::spec_handle_message(
                tool_registry,
                resource_registry,
                trimmed(line@),
            ) == Some(resp@),
            LineOutcome::Malformed => crate::server::spec_handle_message(
                tool_registry,
                resource_registry,
                trimmed(line@),
            ) is None,
            LineOutcome::Blank => false,
        },
{
    let t = trim_bytes(line);
    if t.len() == 0 {
        LineOutcome::Blank
    } else {
        match McpServer::handle_message(t.as_slice(), tool_registry, resource_registry) {
            Some(resp) => LineOutcome::Response(resp),
            None => LineOutcome::Malformed,
        }
    }
}

} // verus!
