//! The log history shown in the terminal view: the most recent lines that the
//! server printed, oldest first, never more than `HISTORY_LIMIT` of them.

use vstd::prelude::*;

verus! {

/// How many lines the history keeps.
pub const HISTORY_LIMIT: usize = 1000;

/// The history after `line` arrives: the line is appended, and when that makes
/// the history longer than `HISTORY_LIMIT` its oldest line is dropped.
pub open spec fn bounded_push(h: Seq<Seq<char>>, line: Seq<char>) -> Seq<Seq<char>> {
    let p = h.push(line);
    if p.len() > HISTORY_LIMIT {
        p.drop_first()
    } else {
        p
    }
}

/// The history after each of `lines` arrives in turn.
pub open spec fn push_all(h: Seq<Seq<char>>, lines: Seq<Seq<char>>) -> Seq<Seq<char>>
    decreases lines.len(),
{
    if lines.len() == 0 {
        h
    } else {
        bounded_push(push_all(h, lines.drop_last()), lines.last())
    }
}

/// The last `min(s.len(), n)` elements of `s`.
pub open spec fn latest(s: Seq<Seq<char>>, n: nat) -> Seq<Seq<char>> {
    if s.len() <= n {
        s
    } else {
        s.subrange(s.len() - n, s.len() as int)
    }
}

/// Lines printed by the running server, oldest first.
pub struct LogHistory {
    lines: Vec<String>,
}

impl View for LogHistory {
    type V = Seq<Seq<char>>;

    closed spec fn view(&self) -> Seq<Seq<char>> {
        self.lines@.map_values(|l: String| l@)
    }
}

impl LogHistory {
    #[verifier::type_invariant]
    closed spec fn bounded(&self) -> bool {
        self.lines@.len() <= HISTORY_LIMIT
    }

    /// An empty history.
    pub fn new() -> (h: LogHistory)
        ensures
            h@ == Seq::<Seq<char>>::empty(),
    {
        let h = LogHistory { lines: Vec::new() };
        assert(h@ =~= Seq::<Seq<char>>::empty());
        h
    }

    /// Number of lines held; never more than `HISTORY_LIMIT`.
    pub fn len(&self) -> (n: usize)
        ensures
            n == self@.len(),
            n <= HISTORY_LIMIT,
    {
        proof {
            use_type_invariant(self);
        }
        self.lines.len()
    }

    /// Records one line of output.
    pub fn push(&mut self, line: String)
        ensures
            final(self)@ == bounded_push(old(self)@, line@),
            final(self)@.len() <= HISTORY_LIMIT,
    {
        proof {
            use_type_invariant(&*self);
        }
        let ghost before = self@;
        let ghost old_lines = self.lines@;
        let mut lines: Vec<String> = Vec::new();
        std::mem::swap(&mut lines, &mut self.lines);
        lines.push(line);
        if lines.len() > HISTORY_LIMIT {
            lines.remove(0);
        }
        self.lines = lines;
        proof {
            let p = before.push(line@);
            if old_lines.len() >= HISTORY_LIMIT {
                assert(self.lines@ == old_lines.push(line).drop_first());
                assert(self@ =~= p.drop_first());
            } else {
                assert(self.lines@ == old_lines.push(line));
                assert(self@ =~= p);
            }
        }
    }

    /// A copy of every line held, oldest first.
    pub fn lines(&self) -> (v: Vec<String>)
        ensures
            v@.map_values(|l: String| l@) == self@,
    {
        let mut v: Vec<String> = Vec::new();
        for i in 0..self.lines.len()
            invariant
                v@.len() == i,
                forall|j: int| 0 <= j < i ==> (#[trigger] v@[j])@ == self.lines@[j]@,
        {
            let line = self.lines[i].clone();
            v.push(line);
        }
        assert(v@.map_values(|l: String| l@) =~= self@);
        v
    }
}

/// Receiving one line after the window of `s` gives the window of `s`
/// extended by that line.
proof fn lemma_window_push(s: Seq<Seq<char>>, line: Seq<char>)
    ensures
        bounded_push(latest(s, HISTORY_LIMIT as nat), line) == latest(s.push(line), HISTORY_LIMIT as nat),
{
    let n = HISTORY_LIMIT as int;
    let t = s.push(line);
    if s.len() < n {
        assert(latest(s, HISTORY_LIMIT as nat) == s);
    } else if s.len() == n {
        assert(latest(s, HISTORY_LIMIT as nat) == s);
        assert(t.drop_first() =~= t.subrange(t.len() - n, t.len() as int));
    } else {
        let w = s.subrange(s.len() - n, s.len() as int);
        assert(latest(s, HISTORY_LIMIT as nat) == w);
        assert(w.push(line).drop_first() =~= t.subrange(t.len() - n, t.len() as int));
    }
}

/// The history is a window on the output: from any history it can hold (at
/// most `HISTORY_LIMIT` lines), after any sequence of lines it holds exactly
/// the most recent `HISTORY_LIMIT` of the old lines followed by the new ones
/// (all of them while there are fewer), in the order they arrived.
pub proof fn lemma_history_window(h: Seq<Seq<char>>, lines: Seq<Seq<char>>)
    requires
        h.len() <= HISTORY_LIMIT,
    ensures
        push_all(h, lines) == latest(h + lines, HISTORY_LIMIT as nat),
    decreases lines.len(),
{
    if lines.len() == 0 {
        assert(h + lines =~= h);
    } else {
        let pre = lines.drop_last();
        lemma_history_window(h, pre);
        lemma_window_push(h + pre, lines.last());
        assert((h + pre).push(lines.last()) =~= h + lines);
    }
}

/// Starting from an empty history, after any sequence of lines the history
/// holds exactly the most recent `HISTORY_LIMIT` of them (all of them while
/// there are fewer), in the order they arrived.
pub proof fn lemma_history_keeps_latest(lines: Seq<Seq<char>>)
    ensures
        push_all(Seq::empty(), lines) == latest(lines, HISTORY_LIMIT as nat),
{
    lemma_history_window(Seq::empty(), lines);
    assert(Seq::<Seq<char>>::empty() + lines =~= lines);
}

} // verus!
