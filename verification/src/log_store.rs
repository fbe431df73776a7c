//! The log: the submitted lines, oldest first. Lines are only ever added.

use crate::text::push_char;
use vstd::prelude::*;

verus! {

/// The character that ends every line of the rendered log.
pub const LINE_SEPARATOR: char = '\n';

/// The text that shows `lines`: every line in order, each followed by a
/// line separator.
pub open spec fn rendered(lines: Seq<Seq<char>>) -> Seq<char>
    decreases lines.len(),
{
    if lines.len() == 0 {
        Seq::empty()
    } else {
        rendered(lines.drop_last()) + lines.last().push(LINE_SEPARATOR)
    }
}

/// An append-only sequence of lines.
pub struct LogStore {
    lines: Vec<String>,
}

impl View for LogStore {
    type V = Seq<Seq<char>>;

    closed spec fn view(&self) -> Seq<Seq<char>> {
        Seq::new(self.lines@.len(), |i: int| self.lines@[i]@)
    }
}

impl LogStore {
    /// A log without lines.
    pub fn new() -> (log: LogStore)
        ensures
            log@ == Seq::<Seq<char>>::empty(),
    {
        let log = LogStore { lines: Vec::new() };
        assert(log@ =~= Seq::<Seq<char>>::empty());
        log
    }

    /// Adds `line` behind all lines that the log holds. No line is changed,
    /// dropped or merged with an equal one.
    pub fn append(&mut self, line: String)
        ensures
            final(self)@ == old(self)@.push(line@),
    {
        self.lines.push(line);
        assert(self@ =~= old(self)@.push(line@));
    }

    /// The number of lines in the log.
    pub fn line_count(&self) -> (count: usize)
        ensures
            count == self@.len(),
    {
        self.lines.len()
    }

    /// The line at `index`, counted from the oldest.
    pub fn line(&self, index: usize) -> (line: Option<&String>)
        ensures
            index < self@.len() ==> line.is_some() && line.unwrap()@ == self@[index as int],
            index >= self@.len() ==> line.is_none(),
    {
        if index < self.lines.len() {
            Some(&self.lines[index])
        } else {
            None
        }
    }

    /// The whole log as one text for the drawing surface.
    pub fn render_text(&self) -> (text: String)
        ensures
            text@ == rendered(self@),
    {
        let mut text = String::new();
        let mut i: usize = 0;
        while i < self.lines.len()
            invariant
                i <= self.lines@.len(),
                self@.len() == self.lines@.len(),
                text@ == rendered(self@.take(i as int)),
            decreases self.lines@.len() - i,
        {
            proof {
                let shown = self@.take(i + 1);
                assert(shown.drop_last() =~= self@.take(i as int));
                assert(shown.last() == self.lines@[i as int]@);
            }
            text.append(self.lines[i].as_str());
            push_char(&mut text, LINE_SEPARATOR);
            assert(text@ =~= rendered(self@.take(i + 1)));
            i = i + 1;
        }
        assert(self@.take(i as int) =~= self@);
        text
    }
}

/// Appending a line adds that line and its separator to the end of the
/// rendered text and changes nothing before it.
pub proof fn append_extends_rendering(lines: Seq<Seq<char>>, line: Seq<char>)
    ensures
        rendered(lines.push(line)) == rendered(lines) + line.push(LINE_SEPARATOR),
        lines.push(line).len() == lines.len() + 1,
        lines.push(line).take(lines.len() as int) == lines,
{
    assert(lines.push(line).drop_last() =~= lines);
    assert(lines.push(line).take(lines.len() as int) =~= lines);
}

} // verus!
