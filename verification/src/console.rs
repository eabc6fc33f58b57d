use vstd::prelude::*;

verus! {

/// The lines joined with a newline between each two of them.
pub open spec fn join_lines(lines: Seq<Seq<char>>) -> Seq<char>
    decreases lines.len(),
{
    if lines.len() == 0 {
        Seq::empty()
    } else if lines.len() == 1 {
        lines[0]
    } else {
        join_lines(lines.drop_last()) + "\n"@ + lines.last()
    }
}

/// The messages of a running flow, as the console of the user interface
/// shows them: every message received so far, oldest first.
pub struct ConsoleLog {
    lines: Vec<String>,
}

impl View for ConsoleLog {
    type V = Seq<Seq<char>>;

    closed spec fn view(&self) -> Seq<Seq<char>> {
        self.lines@.map_values(|l: String| l@)
    }
}

impl ConsoleLog {
    /// An empty console.
    pub fn new() -> (log: ConsoleLog)
        ensures
            log@ == Seq::<Seq<char>>::empty(),
    {
        let log = ConsoleLog { lines: Vec::new() };
        proof {
            assert(log@ =~= Seq::<Seq<char>>::empty());
        }
        log
    }

    /// Adds a message after the others.
    pub fn push(&mut self, line: String)
        ensures
            final(self)@ == old(self)@.push(line@),
    {
        let ghost l = line@;
        self.lines.push(line);
        proof {
            assert(self@ =~= old(self)@.push(l));
        }
    }

    /// The number of messages.
    pub fn len(&self) -> (n: usize)
        ensures
            n == self@.len(),
    {
        self.lines.len()
    }

    /// The text the console shows: the messages joined by newlines.
    pub fn text(&self) -> (text: String)
        ensures
            text@ == join_lines(self@),
    {
        let mut text = String::new();
        let mut i: usize = 0;
        while i < self.lines.len()
            invariant
                i <= self.lines.len(),
                text@ == join_lines(self@.take(i as int)),
            decreases self.lines.len() - i,
        {
            proof {
                assert(self@.take(i + 1).drop_last() =~= self@.take(i as int));
                assert(self@.take(i + 1).last() == self.lines@[i as int]@);
            }
            if i > 0 {
                text.append("\n");
            }
            text.append(self.lines[i].as_str());
            proof {
                if i == 0 {
                    assert(join_lines(self@.take(0)) == Seq::<char>::empty());
                    assert(text@ =~= self.lines@[0]@);
                }
            }
            i = i + 1;
        }
        proof {
            assert(self@.take(self.lines.len() as int) =~= self@);
        }
        text
    }
}

/// Adding a message to a console extends its text by a newline and the
/// message, or makes the message the whole text if the console was empty.
pub proof fn law_push_extends_text(lines: Seq<Seq<char>>, line: Seq<char>)
    ensures
        join_lines(lines.push(line)) == if lines.len() == 0 { line } else { join_lines(lines) + "\n"@ + line },
{
    assert(lines.push(line).drop_last() =~= lines);
}

/// The text of a console ends with the latest message.
pub proof fn law_text_ends_with_last_line(lines: Seq<Seq<char>>)
    requires
        lines.len() > 0,
    ensures
        join_lines(lines).len() >= lines.last().len(),
        join_lines(lines).subrange(join_lines(lines).len() - lines.last().len(), join_lines(lines).len() as int)
            == lines.last(),
{
    let j = join_lines(lines);
    if lines.len() == 1 {
        assert(j.subrange(0, j.len() as int) =~= j);
    } else {
        let pre = join_lines(lines.drop_last()) + "\n"@;
        assert(j == pre + lines.last());
        assert(j.subrange(pre.len() as int, j.len() as int) =~= lines.last());
    }
}

/// Messages are only ever added after the others: the text the console
/// showed when it held its first `k` messages is the start of its text now.
pub proof fn law_text_extends_earlier_text(lines: Seq<Seq<char>>, k: int)
    requires
        0 <= k <= lines.len(),
    ensures
        join_lines(lines.take(k)).len() <= join_lines(lines).len(),
        join_lines(lines).subrange(0, join_lines(lines.take(k)).len() as int) == join_lines(lines.take(k)),
    decreases lines.len(),
{
    let whole = join_lines(lines);
    if k == lines.len() {
        assert(lines.take(k) =~= lines);
        assert(whole.subrange(0, whole.len() as int) =~= whole);
    } else if k == 0 {
        assert(lines.take(0) =~= Seq::<Seq<char>>::empty());
        assert(whole.subrange(0, 0) =~= Seq::<char>::empty());
    } else {
        let front = lines.drop_last();
        law_text_extends_earlier_text(front, k);
        assert(front.take(k) =~= lines.take(k));
        let earlier = join_lines(lines.take(k));
        let mid = join_lines(front);
        assert(lines.len() >= 2);
        assert(whole == mid + "\n"@ + lines.last());
        assert(whole.subrange(0, earlier.len() as int) =~= mid.subrange(0, earlier.len() as int));
    }
}

} // verus!
