//! Bounded FIFO capture of a subprocess's most recent diagnostic lines.

use vstd::prelude::*;
use vstd::string::StringExecFns;

verus! {

/// Most entries a diagnostic tail ever holds; older entries are evicted first.
pub const TAIL_CAPACITY: usize = 50;

/// A fixed-capacity FIFO of the most recent diagnostic lines of one
/// subprocess. Used only to enrich error responses; never persisted.
pub struct DiagnosticTail {
    entries: Vec<String>,
}

impl View for DiagnosticTail {
    type V = Seq<Seq<char>>;

    closed spec fn view(&self) -> Seq<Seq<char>> {
        self.entries.deep_view()
    }
}

/// What one observed line does to the tail: blank lines are ignored; others
/// are appended, evicting the oldest entry once the capacity is reached.
pub open spec fn observed(t: Seq<Seq<char>>, line: Seq<char>) -> Seq<Seq<char>> {
    if line.len() == 0 {
        t
    } else if t.len() < TAIL_CAPACITY {
        t.push(line)
    } else {
        t.drop_first().push(line)
    }
}

impl DiagnosticTail {
    /// The tail never holds more than its fixed capacity of entries.
    pub open spec fn wf(&self) -> bool {
        self@.len() <= TAIL_CAPACITY
    }

    pub fn new() -> (t: DiagnosticTail)
        ensures
            t.wf(),
            t@ == Seq::<Seq<char>>::empty(),
    {
        let t = DiagnosticTail { entries: Vec::new() };
        proof {
            assert(t@ =~= Seq::<Seq<char>>::empty());
        }
        t
    }

    /// Record one diagnostic line. Empty lines are skipped; a full tail
    /// drops its oldest entry, so the capacity bound holds whatever the
    /// subprocess's verbosity.
    pub fn observe(&mut self, line: String)
        requires
            old(self).wf(),
        ensures
            final(self).wf(),
            final(self)@ == observed(old(self)@, line@),
            final(self)@.len() <= TAIL_CAPACITY,
    {
        if line.as_str().is_empty() {
            return ;
        }
        if self.entries.len() >= TAIL_CAPACITY {
            let ghost before = self.entries.deep_view();
            self.entries.remove(0);
            proof {
                assert(self.entries.deep_view() =~= before.drop_first());
            }
        }
        let ghost mid = self.entries.deep_view();
        self.entries.push(line);
        proof {
            assert(self.entries.deep_view() =~= mid.push(line@));
        }
    }

    /// Number of entries currently held.
    pub fn len(&self) -> (n: usize)
        ensures
            n == self@.len(),
    {
        self.entries.len()
    }

    /// The captured lines, oldest first.
    pub fn lines(&self) -> (r: &Vec<String>)
        ensures
            r.deep_view() == self@,
    {
        &self.entries
    }

    /// Render the tail for an error response: the lines joined by newlines,
    /// or a fixed notice when nothing was captured.
    pub fn render(&self) -> (r: String)
        ensures
            self@.len() == 0 ==> r@ == "no stderr output captured"@,
            self@.len() > 0 ==> r@ == joined(self@),
    {
        if self.entries.len() == 0 {
            return "no stderr output captured".to_owned();
        }
        let mut out = String::new();
        let mut i: usize = 0;
        let n = self.entries.len();
        proof {
            reveal_strlit("\n");
        }
        while i < n
            invariant
                n == self@.len(),
                n == self.entries@.len(),
                i <= n,
                n > 0,
                "\n"@ == seq!['\n'],
                i == 0 ==> out@ == Seq::<char>::empty(),
                i > 0 ==> out@ == joined(self@.subrange(0, i as int)),
            decreases n - i,
        {
            if i > 0 {
                out.append("\n");
            }
            out.append(self.entries[i].as_str());
            proof {
                let full = self@.subrange(0, i + 1);
                assert(full.drop_last() =~= self@.subrange(0, i as int));
                assert(full.last() == self@[i as int]);
                assert(self.entries@[i as int]@ == self@[i as int]);
            }
            i = i + 1;
        }
        proof {
            assert(self@.subrange(0, n as int) =~= self@);
        }
        out
    }
}

/// The lines joined by a newline between each pair.
pub open spec fn joined(lines: Seq<Seq<char>>) -> Seq<char>
    decreases lines.len(),
{
    if lines.len() == 0 {
        Seq::empty()
    } else if lines.len() == 1 {
        lines[0]
    } else {
        joined(lines.drop_last()) + seq!['\n'] + lines.last()
    }
}

/// The tail after observing a whole sequence of lines, oldest first.
pub open spec fn observed_all(t0: Seq<Seq<char>>, lines: Seq<Seq<char>>) -> Seq<Seq<char>>
    decreases lines.len(),
{
    if lines.len() == 0 {
        t0
    } else {
        observed_all(observed(t0, lines[0]), lines.drop_first())
    }
}

/// The lines that are not blank, in order.
pub open spec fn kept_lines(lines: Seq<Seq<char>>) -> Seq<Seq<char>>
    decreases lines.len(),
{
    if lines.len() == 0 {
        lines
    } else if lines[0].len() == 0 {
        kept_lines(lines.drop_first())
    } else {
        seq![lines[0]] + kept_lines(lines.drop_first())
    }
}

/// The last `n` elements of a sequence (all of it when it is shorter).
pub open spec fn suffix_of(s: Seq<Seq<char>>, n: int) -> Seq<Seq<char>> {
    if s.len() <= n {
        s
    } else {
        s.subrange(s.len() - n, s.len() as int)
    }
}

/// Whatever a subprocess prints, the tail never exceeds its capacity.
pub proof fn lemma_tail_bounded(t0: Seq<Seq<char>>, lines: Seq<Seq<char>>)
    requires
        t0.len() <= TAIL_CAPACITY,
    ensures
        observed_all(t0, lines).len() <= TAIL_CAPACITY,
    decreases lines.len(),
{
    if lines.len() > 0 {
        lemma_tail_bounded(observed(t0, lines[0]), lines.drop_first());
    }
}

/// After observing any sequence of lines, the tail holds exactly the last
/// entries — at most the capacity — of what it held before followed by the
/// non-blank lines, oldest evicted first and order kept.
pub proof fn lemma_tail_holds_last_lines(t0: Seq<Seq<char>>, lines: Seq<Seq<char>>)
    requires
        t0.len() <= TAIL_CAPACITY,
    ensures
        observed_all(t0, lines) == suffix_of(t0 + kept_lines(lines), TAIL_CAPACITY as int),
    decreases lines.len(),
{
    if lines.len() == 0 {
        assert(t0 + kept_lines(lines) =~= t0);
        assert(suffix_of(t0, TAIL_CAPACITY as int) =~= t0);
    } else {
        let l = lines[0];
        let rest = lines.drop_first();
        let t1 = observed(t0, l);
        lemma_tail_holds_last_lines(t1, rest);
        if l.len() == 0 {
            assert(t1 + kept_lines(rest) =~= t0 + kept_lines(lines));
        } else if t0.len() < TAIL_CAPACITY {
            assert(t1 + kept_lines(rest) =~= t0 + kept_lines(lines));
        } else {
            let whole = t0 + kept_lines(lines);
            assert(t1 + kept_lines(rest) =~= whole.drop_first());
            let shorter = whole.drop_first();
            assert(suffix_of(shorter, TAIL_CAPACITY as int) =~= suffix_of(
                whole,
                TAIL_CAPACITY as int,
            ));
        }
    }
}

/// Feeding at least a capacity's worth of non-blank lines leaves exactly the
/// last `TAIL_CAPACITY` of them, in order, whatever the tail held before.
pub proof fn lemma_long_feed_keeps_last_capacity(t0: Seq<Seq<char>>, lines: Seq<Seq<char>>)
    requires
        t0.len() <= TAIL_CAPACITY,
        lines.len() >= TAIL_CAPACITY,
        forall|i: int| 0 <= i < lines.len() ==> lines[i].len() > 0,
    ensures
        observed_all(t0, lines) == lines.subrange(
            lines.len() - TAIL_CAPACITY,
            lines.len() as int,
        ),
    decreases lines.len(),
{
    lemma_all_kept(lines);
    lemma_tail_holds_last_lines(t0, lines);
    let whole = t0 + lines;
    assert(suffix_of(whole, TAIL_CAPACITY as int) =~= lines.subrange(
        lines.len() - TAIL_CAPACITY,
        lines.len() as int,
    ));
}

/// A sequence without blank lines is kept whole.
proof fn lemma_all_kept(lines: Seq<Seq<char>>)
    requires
        forall|i: int| 0 <= i < lines.len() ==> lines[i].len() > 0,
    ensures
        kept_lines(lines) == lines,
    decreases lines.len(),
{
    if lines.len() > 0 {
        lemma_all_kept(lines.drop_first());
        assert(seq![lines[0]] + lines.drop_first() =~= lines);
    }
}

} // verus!
