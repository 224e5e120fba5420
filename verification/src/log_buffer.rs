//! The bounded in-memory log: an ordered sequence of captured lines, at most
//! `MAX_LOG_LINES` of them. Appending to a full buffer evicts the oldest line
//! and reports that a render surface must rebuild its snapshot; otherwise only
//! the appended delta needs to be drawn.
use std::collections::VecDeque;
use vstd::prelude::*;

verus! {

/// Largest number of log lines the in-memory buffer retains.
pub const MAX_LOG_LINES: usize = 5000;

/// Bounded FIFO of log lines.
pub struct LogBuffer {
    lines: VecDeque<String>,
}

impl View for LogBuffer {
    type V = Seq<Seq<char>>;

    closed spec fn view(&self) -> Seq<Seq<char>> {
        self.lines.deep_view()
    }
}

/// What one append does to the buffer contents: plain push while below
/// capacity, eviction of the oldest line once full.
pub open spec fn push_line_spec(s: Seq<Seq<char>>, line: Seq<char>) -> Seq<Seq<char>> {
    if s.len() >= MAX_LOG_LINES {
        s.subrange(1, s.len() as int).push(line)
    } else {
        s.push(line)
    }
}

/// The buffer contents after appending a whole sequence of lines in order.
pub open spec fn push_all_spec(s: Seq<Seq<char>>, lines: Seq<Seq<char>>) -> Seq<Seq<char>>
    decreases lines.len(),
{
    if lines.len() == 0 {
        s
    } else {
        push_all_spec(push_line_spec(s, lines[0]), lines.drop_first())
    }
}

impl LogBuffer {
    /// The capacity bound that every operation preserves.
    pub open spec fn wf(&self) -> bool {
        self@.len() <= MAX_LOG_LINES
    }

    /// An empty buffer.
    pub fn new() -> (r: LogBuffer)
        ensures
            r@ == Seq::<Seq<char>>::empty(),
            r.wf(),
    {
        let r = LogBuffer { lines: VecDeque::new() };
        proof {
            assert(r@ =~= Seq::<Seq<char>>::empty());
        }
        r
    }

    /// Number of retained lines.
    pub fn len(&self) -> (n: usize)
        ensures
            n == self@.len(),
    {
        self.lines.len()
    }

    /// The line at a position, oldest first.
    pub fn line_at(&self, i: usize) -> (r: &String)
        requires
            i < self@.len(),
        ensures
            r@ == self@[i as int],
    {
        &self.lines[i]
    }

    /// Appends one line, evicting the oldest when the buffer is full. Returns
    /// whether the render surface must rebuild (an eviction happened) rather
    /// than draw only the delta.
    pub fn push_line(&mut self, line: String) -> (rebuild: bool)
        requires
            old(self).wf(),
        ensures
            final(self).wf(),
            final(self)@ == push_line_spec(old(self)@, line@),
            rebuild == (old(self)@.len() >= MAX_LOG_LINES),
    {
        let mut rebuild = false;
        if self.lines.len() >= MAX_LOG_LINES {
            self.lines.pop_front();
            rebuild = true;
        }
        self.lines.push_back(line);
        proof {
            if rebuild {
                assert(self@ =~= push_line_spec(old(self)@, line@));
            } else {
                assert(self@ =~= push_line_spec(old(self)@, line@));
            }
        }
        rebuild
    }

    /// Drops every retained line.
    pub fn clear(&mut self)
        ensures
            final(self)@ == Seq::<Seq<char>>::empty(),
            final(self).wf(),
    {
        self.lines.clear();
        proof {
            assert(self@ =~= Seq::<Seq<char>>::empty());
        }
    }

    /// The retained lines, oldest first, as one snapshot.
    pub fn snapshot(&self) -> (r: Vec<String>)
        ensures
            r.deep_view() == self@,
    {
        let mut out: Vec<String> = Vec::new();
        let n = self.lines.len();
        let mut i: usize = 0;
        while i < n
            invariant
                n == self.lines@.len(),
                0 <= i <= n,
                out@.len() == i,
                forall|j: int| 0 <= j < i ==> out@[j] == self.lines@[j],
            decreases n - i,
        {
            out.push(self.lines[i].clone());
            i += 1;
        }
        proof {
            assert forall|j: int| 0 <= j < n implies out.deep_view()[j] == self@[j] by {
                assert(out@[j] == self.lines@[j]);
            }
            assert(out.deep_view() =~= self@);
        }
        out
    }
}

/// How many of `total` appended lines the buffer keeps: all of them up to its
/// capacity.
pub open spec fn retained_count(total: int) -> int {
    if total <= MAX_LOG_LINES {
        total
    } else {
        MAX_LOG_LINES as int
    }
}

proof fn lemma_push_all_suffix(s: Seq<Seq<char>>, lines: Seq<Seq<char>>)
    requires
        s.len() <= MAX_LOG_LINES,
    ensures
        push_all_spec(s, lines) =~= (s + lines).subrange(
            s.len() + lines.len() - retained_count(s.len() + lines.len() as int),
            s.len() + lines.len() as int,
        ),
    decreases lines.len(),
{
    let total = s.len() + lines.len();
    let keep = retained_count(total as int);
    if lines.len() == 0 {
        assert((s + lines).subrange(total - keep, total as int) =~= s);
    } else {
        let l0 = lines[0];
        let rest = lines.drop_first();
        let s1 = push_line_spec(s, l0);
        if s.len() >= MAX_LOG_LINES {
            assert(s1 =~= (s + lines).subrange(1, s.len() + 1 as int));
            assert(s1 + rest =~= (s + lines).subrange(1, total as int));
            lemma_push_all_suffix(s1, rest);
            let total1 = s1.len() + rest.len();
            let keep1 = retained_count(total1 as int);
            assert(total1 == total - 1);
            assert(keep1 == MAX_LOG_LINES && keep == MAX_LOG_LINES);
            assert(push_all_spec(s, lines) =~= (s1 + rest).subrange(
                total1 - keep1,
                total1 as int,
            ));
            assert((s1 + rest).subrange(total1 - keep1, total1 as int) =~= (s + lines).subrange(
                total - keep,
                total as int,
            ));
        } else {
            assert(s1 + rest =~= s + lines);
            lemma_push_all_suffix(s1, rest);
            assert(push_all_spec(s, lines) =~= (s + lines).subrange(
                total - keep,
                total as int,
            ));
        }
    }
}

/// FIFO retention: filling an empty buffer with any sequence of lines keeps
/// exactly the most recent `MAX_LOG_LINES` of them, in their original
/// relative order; a sequence within capacity is kept whole, in order.
pub proof fn lemma_fifo_retention(lines: Seq<Seq<char>>)
    ensures
        push_all_spec(Seq::empty(), lines) =~= lines.subrange(
            lines.len() - retained_count(lines.len() as int),
            lines.len() as int,
        ),
        lines.len() <= MAX_LOG_LINES ==> push_all_spec(Seq::empty(), lines) =~= lines,
{
    lemma_push_all_suffix(Seq::empty(), lines);
    assert(Seq::<Seq<char>>::empty() + lines =~= lines);
    if lines.len() <= MAX_LOG_LINES {
        assert(lines.subrange(0, lines.len() as int) =~= lines);
    }
}

} // verus!
