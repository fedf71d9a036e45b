use vstd::prelude::*;

verus! {

/// First position at or after `i` where byte `b` occurs in `s`.
pub open spec fn find_byte_from(s: Seq<u8>, b: u8, i: int) -> Option<int>
    recommends
        0 <= i <= s.len(),
    decreases s.len() - i,
{
    if i < 0 || i >= s.len() {
        None
    } else if s[i] == b {
        Some(i)
    } else {
        find_byte_from(s, b, i + 1)
    }
}

proof fn lemma_find_byte_from_skip(s: Seq<u8>, b: u8, i: int, j: int)
    requires
        0 <= i <= j <= s.len(),
        forall|k: int| i <= k < j ==> s[k] != b,
    ensures
        find_byte_from(s, b, i) == find_byte_from(s, b, j),
    decreases j - i,
{
    if i < j {
        lemma_find_byte_from_skip(s, b, i + 1, j);
    }
}

/// Line framing for the compositor's event socket: bytes go in as they
/// arrive, complete newline-terminated lines come out, and a trailing
/// fragment waits for the rest of its line.  Backlog is bounded only by what
/// the peer has sent.
pub struct LineBuffer {
    pending: Vec<u8>,
}

impl View for LineBuffer {
    type V = Seq<u8>;

    closed spec fn view(&self) -> Seq<u8> {
        self.pending@
    }
}

impl LineBuffer {
    pub fn new() -> (r: LineBuffer)
        ensures
            r@ == Seq::<u8>::empty(),
    {
        LineBuffer { pending: Vec::new() }
    }

    /// Appends one chunk, exactly as read from the socket.
    pub fn push_bytes(&mut self, data: &[u8])
        ensures
            final(self)@ == old(self)@ + data@,
    {
        let mut i: usize = 0;
        while i < data.len()
            invariant
                i <= data@.len(),
                self@ == old(self)@ + data@.take(i as int),
            decreases data@.len() - i,
        {
            let ghost before = self@;
            self.pending.push(data[i]);
            proof {
                assert(data@.take(i + 1) =~= data@.take(i as int).push(data@[i as int]));
                assert(self@ =~= before.push(data@[i as int]));
                assert(self@ =~= old(self)@ + data@.take(i + 1));
            }
            i += 1;
        }
        proof {
            assert(data@.take(data@.len() as int) =~= data@);
        }
    }

    /// Takes the earliest complete line, without its newline, leaving the
    /// rest buffered; `None` when no full line has arrived yet.
    pub fn next_line(&mut self) -> (r: Option<Vec<u8>>)
        ensures
            match r {
                Some(line) => {
                    &&& find_byte_from(old(self)@, 10, 0) matches Some(i)
                    &&& line@ == old(self)@.take(find_byte_from(old(self)@, 10, 0)->Some_0)
                    &&& final(self)@ == old(self)@.skip(
                        find_byte_from(old(self)@, 10, 0)->Some_0 + 1,
                    )
                },
                None => find_byte_from(old(self)@, 10, 0) is None && final(self)@ == old(self)@,
            },
    {
        let n = self.pending.len();
        let mut i: usize = 0;
        while i < n
            invariant
                self@ == old(self)@,
                n == self@.len(),
                i <= n,
                forall|k: int| 0 <= k < i ==> self@[k] != 10,
            decreases n - i,
        {
            if self.pending[i] == 10 {
                proof {
                    lemma_find_byte_from_skip(self@, 10, 0, i as int);
                }
                let mut line: Vec<u8> = Vec::new();
                let mut k: usize = 0;
                while k < i
                    invariant
                        self@ == old(self)@,
                        k <= i < self@.len(),
                        line@ == self@.take(k as int),
                    decreases i - k,
                {
                    let ghost before = line@;
                    line.push(self.pending[k]);
                    proof {
                        assert(self@.take(k + 1) =~= self@.take(k as int).push(self@[k as int]));
                        assert(line@ =~= before.push(self@[k as int]));
                    }
                    k += 1;
                }
                let ghost whole = self@;
                let mut rest: Vec<u8> = Vec::new();
                let mut k: usize = i + 1;
                while k < n
                    invariant
                        self@ == whole,
                        n == self@.len(),
                        i + 1 <= k <= n,
                        rest@ == self@.subrange(i + 1, k as int),
                    decreases n - k,
                {
                    let ghost before = rest@;
                    rest.push(self.pending[k]);
                    proof {
                        assert(self@.subrange(i + 1, k + 1) =~= self@.subrange(
                            i + 1,
                            k as int,
                        ).push(self@[k as int]));
                        assert(rest@ =~= before.push(self@[k as int]));
                    }
                    k += 1;
                }
                proof {
                    assert(rest@ =~= whole.skip(i + 1));
                }
                self.pending = rest;
                return Some(line);
            }
            i += 1;
        }
        proof {
            lemma_find_byte_from_skip(self@, 10, 0, n as int);
        }
        None
    }
}

} // verus!
