use vstd::prelude::*;
use crate::state::GameState;

verus! {

/// How many lines a story screen shows at once: the line being typed and
/// the ones before it.
pub const MAX_VISIBLE_LINES: usize = 5;

/// A story screen that types its lines out one character at a time.
pub struct StorySequence {
    lines: Vec<Vec<char>>,
    current_line: usize,
    char_index: usize,
    next_state: GameState,
}

/// The first line still on screen while line `current` is the newest one.
pub open spec fn first_visible_line(current: nat) -> nat {
    if current >= MAX_VISIBLE_LINES { (current - MAX_VISIBLE_LINES + 1) as nat } else { 0 }
}

/// Lines `from .. to`, each followed by a blank line.
pub open spec fn finished_lines(lines: Seq<Seq<char>>, from: nat, to: nat) -> Seq<char>
    decreases to - from,
{
    if to <= from {
        Seq::empty()
    } else {
        finished_lines(lines, from, (to - 1) as nat) + lines[to - 1] + seq!['\n', '\n']
    }
}

/// The text on screen: the finished lines still visible, then the typed
/// part of the current line.
pub open spec fn shown_text(lines: Seq<Seq<char>>, current: nat, typed: nat) -> Seq<char> {
    finished_lines(lines, first_visible_line(current), current) + (if current < lines.len() {
        lines[current as int].take(typed as int)
    } else {
        Seq::empty()
    })
}

impl StorySequence {
    /// The lines of the story.
    pub closed spec fn lines(&self) -> Seq<Seq<char>> {
        self.lines@.map_values(|l: Vec<char>| l@)
    }

    /// The line being typed; equal to the number of lines once all are done.
    pub closed spec fn line_index(&self) -> nat {
        self.current_line as nat
    }

    /// How many characters of the current line are shown.
    pub closed spec fn typed(&self) -> nat {
        self.char_index as nat
    }

    /// The state the story leads to when it ends or is skipped.
    pub closed spec fn next_state(&self) -> GameState {
        self.next_state
    }

    /// The line index never passes the end of the story, and the typed part
    /// never passes the end of its line.
    pub open spec fn wf(&self) -> bool {
        &&& self.line_index() <= self.lines().len()
        &&& self.line_index() < self.lines().len() ==> self.typed() <= self.lines()[self.line_index() as int].len()
    }

    /// Lines are still being typed.
    pub open spec fn typing(&self) -> bool {
        self.line_index() < self.lines().len()
    }

    /// The length of the line being typed.
    pub open spec fn current_len(&self) -> nat
        recommends
            self.typing(),
    {
        self.lines()[self.line_index() as int].len()
    }

    /// An upper bound on the space presses still needed to finish the story:
    /// two per line left (complete it, then move on), one less when the
    /// current line is already complete.
    pub open spec fn presses_left(&self) -> nat {
        if self.typing() {
            (2 * (self.lines().len() - self.line_index()) - (if self.typed() >= self.current_len() { 1int } else { 0int })) as nat
        } else {
            0
        }
    }

    /// A story that starts on its first line with nothing typed yet.
    pub fn new(lines: Vec<Vec<char>>, next_state: GameState) -> (s: Self)
        ensures
            s.wf(),
            s.lines() == lines@.map_values(|l: Vec<char>| l@),
            s.line_index() == 0,
            s.typed() == 0,
            s.next_state() == next_state,
            s.presses_left() <= 2 * lines@.len(),
    {
        StorySequence { lines, current_line: 0, char_index: 0, next_state }
    }

    /// Whether lines are still being typed (the typing timer runs only then).
    pub fn is_typing(&self) -> (b: bool)
        ensures
            b == self.typing(),
    {
        self.current_line < self.lines.len()
    }

    /// The keys of a frame. Escape skips the story; space first completes the
    /// line being typed, then moves to the next one, and ends the story once
    /// every line is done. Returns the state to switch to when the story ends.
    pub fn handle_keys(&mut self, escape_pressed: bool, space_pressed: bool) -> (next: Option<GameState>)
        requires
            old(self).wf(),
        ensures
            final(self).wf(),
            final(self).lines() == old(self).lines(),
            final(self).next_state() == old(self).next_state(),
            escape_pressed ==> next == Some(old(self).next_state()) && *final(self) == *old(self),
            !escape_pressed && space_pressed && !old(self).typing() ==> next == Some(old(self).next_state())
                && *final(self) == *old(self),
            !escape_pressed && space_pressed && old(self).typing() && old(self).typed() < old(self).current_len()
                ==> next.is_none() && final(self).line_index() == old(self).line_index()
                && final(self).typed() == old(self).current_len(),
            !escape_pressed && space_pressed && old(self).typing() && old(self).typed() >= old(self).current_len()
                ==> next.is_none() && final(self).line_index() == old(self).line_index() + 1
                && final(self).typed() == 0,
            !escape_pressed && !space_pressed ==> next.is_none() && *final(self) == *old(self),
            !escape_pressed && space_pressed && old(self).typing() ==> final(self).presses_left() < old(self).presses_left(),
    {
        if escape_pressed {
            return Some(self.next_state);
        }
        if space_pressed {
            if self.current_line < self.lines.len() {
                let current_len: usize = self.lines[self.current_line].len();
                if self.char_index < current_len {
                    self.char_index = current_len;
                } else {
                    self.current_line = self.current_line + 1;
                    self.char_index = 0;
                }
            } else {
                return Some(self.next_state);
            }
        }
        None
    }

    /// The typing timer fired: show one more character of the current line,
    /// if any is left.
    pub fn type_next_char(&mut self)
        requires
            old(self).wf(),
        ensures
            final(self).wf(),
            final(self).lines() == old(self).lines(),
            final(self).next_state() == old(self).next_state(),
            final(self).line_index() == old(self).line_index(),
            final(self).typed() == (if old(self).typing() && old(self).typed() < old(self).current_len() {
                old(self).typed() + 1
            } else {
                old(self).typed()
            }),
    {
        if self.current_line < self.lines.len() {
            let current_len: usize = self.lines[self.current_line].len();
            if self.char_index < current_len {
                self.char_index = self.char_index + 1;
            }
        }
    }

    /// The text to display.
    pub fn visible_text(&self) -> (text: Vec<char>)
        requires
            self.wf(),
        ensures
            text@ == shown_text(self.lines(), self.line_index(), self.typed()),
    {
        let ghost lines = self.lines();
        let current: usize = self.current_line;
        let start: usize = if current >= MAX_VISIBLE_LINES { current - MAX_VISIBLE_LINES + 1 } else { 0 };
        let mut out: Vec<char> = Vec::new();
        let mut i: usize = start;
        while i < current
            invariant
                lines == self.lines(),
                self.wf(),
                current == self.current_line,
                start <= i <= current,
                start == first_visible_line(current as nat),
                out@ == finished_lines(lines, start as nat, i as nat),
            decreases current - i,
        {
            if i < self.lines.len() {
                append_prefix(&mut out, &self.lines[i], self.lines[i].len());
                out.push('\n');
                out.push('\n');
            }
            proof {
                assert(lines[i as int] == self.lines@[i as int]@);
                assert(self.lines@[i as int]@.take(self.lines@[i as int]@.len() as int) == self.lines@[i as int]@);
            }
            i = i + 1;
        }
        if current < self.lines.len() {
            append_prefix(&mut out, &self.lines[current], self.char_index);
            proof {
                assert(lines[current as int] == self.lines@[current as int]@);
            }
        }
        out
    }
}

/// At most `MAX_VISIBLE_LINES` lines are on screen: the current one and
/// the finished lines just before it.
pub proof fn lemma_visible_line_count(current: nat)
    ensures
        first_visible_line(current) <= current,
        current - first_visible_line(current) < MAX_VISIBLE_LINES,
        current >= MAX_VISIBLE_LINES ==> current - first_visible_line(current) == MAX_VISIBLE_LINES - 1,
{
}

/// Splits off the first of a run of finished lines.
proof fn lemma_finished_lines_front(lines: Seq<Seq<char>>, a: nat, b: nat)
    requires
        a < b,
    ensures
        finished_lines(lines, a, b) == lines[a as int] + seq!['\n', '\n'] + finished_lines(lines, a + 1, b),
    decreases b - a,
{
    if b == a + 1 {
        assert(finished_lines(lines, a, a) == Seq::<char>::empty());
        assert(finished_lines(lines, a + 1, b) == Seq::<char>::empty());
        assert(finished_lines(lines, a, b) =~= lines[a as int] + seq!['\n', '\n'] + finished_lines(lines, a + 1, b));
    } else {
        lemma_finished_lines_front(lines, a, (b - 1) as nat);
        assert(finished_lines(lines, a, b) =~= lines[a as int] + seq!['\n', '\n'] + finished_lines(lines, a + 1, b));
    }
}

/// The screen starts with the first line being typed and nothing before it.
pub proof fn lemma_story_starts_blank(lines: Seq<Seq<char>>, typed: nat)
    requires
        lines.len() > 0,
    ensures
        shown_text(lines, 0, typed) == lines[0].take(typed as int),
{
    assert(shown_text(lines, 0, typed) =~= lines[0].take(typed as int));
}

/// Each typed character is added at the end of the text on screen.
pub proof fn lemma_typing_appends(lines: Seq<Seq<char>>, current: nat, typed: nat)
    requires
        current < lines.len(),
        typed < lines[current as int].len(),
    ensures
        shown_text(lines, current, (typed + 1) as nat) == shown_text(lines, current, typed).push(lines[current as int][typed as int]),
{
    assert(lines[current as int].take(typed + 1int) =~= lines[current as int].take(typed as int).push(
        lines[current as int][typed as int],
    ));
    assert(shown_text(lines, current, (typed + 1) as nat) =~= shown_text(lines, current, typed).push(
        lines[current as int][typed as int],
    ));
}

/// Moving on from a completed line keeps it on screen, followed by a blank
/// line. While fewer than `MAX_VISIBLE_LINES` lines have been reached
/// nothing leaves the screen; after that, exactly the oldest visible line
/// (with its blank line) scrolls away.
pub proof fn lemma_next_line_scrolls(lines: Seq<Seq<char>>, current: nat)
    requires
        current < lines.len(),
    ensures
        current + 1 < MAX_VISIBLE_LINES ==> shown_text(lines, (current + 1) as nat, 0) == shown_text(
            lines,
            current,
            lines[current as int].len(),
        ) + seq!['\n', '\n'],
        current + 1 >= MAX_VISIBLE_LINES ==> shown_text(lines, (current + 1) as nat, 0) == (shown_text(
            lines,
            current,
            lines[current as int].len(),
        ) + seq!['\n', '\n']).skip(lines[current + 1 - MAX_VISIBLE_LINES].len() + 2int),
{
    let c = current;
    let nn = seq!['\n', '\n'];
    let old_text = shown_text(lines, c, lines[c as int].len()) + nn;
    let fc = first_visible_line(c);
    assert(lines[c as int].take(lines[c as int].len() as int) =~= lines[c as int]);
    assert(old_text =~= finished_lines(lines, fc, c + 1));
    let new_text = shown_text(lines, (c + 1) as nat, 0);
    assert(new_text =~= finished_lines(lines, first_visible_line((c + 1) as nat), (c + 1) as nat));
    if c + 1 >= MAX_VISIBLE_LINES {
        assert(fc == first_visible_line((c + 1) as nat) - 1);
        lemma_finished_lines_front(lines, fc, c + 1);
        let head = lines[fc as int] + nn;
        assert(old_text =~= head + finished_lines(lines, fc + 1, c + 1));
        assert((head + finished_lines(lines, fc + 1, c + 1)).skip(head.len() as int) =~= finished_lines(
            lines,
            fc + 1,
            c + 1,
        ));
    }
}

/// Appends the first `count` characters of `src` to `out`.
fn append_prefix(out: &mut Vec<char>, src: &Vec<char>, count: usize)
    requires
        count <= src@.len(),
    ensures
        final(out)@ == old(out)@ + src@.take(count as int),
{
    let mut k: usize = 0;
    while k < count
        invariant
            k <= count <= src@.len(),
            out@ == old(out)@ + src@.take(k as int),
        decreases count - k,
    {
        out.push(src[k]);
        proof {
            assert(src@.take(k + 1) == src@.take(k as int).push(src@[k as int]));
        }
        k = k + 1;
    }
}

} // verus!
