//! The navigation state: where in the history and where in its diff the
//! reader is, and how each key moves them. Every move yields a new state;
//! a move past a bound leaves the state as it was.
use vstd::prelude::*;
use crate::args::Args;
use crate::diff::{
    diff_height, find_on, increasing_on, lemma_find_index_hits, max_index, nearest_pair, next_on,
    number_width, saturating_sub, spec_diff_height, tag_agrees, line_count, shows, ChangeTag,
    DiffLine, Side,
};
use crate::history::{History, TurningPoint};

verus! {

/// A position in the history (0 is the latest point), the index of the diff
/// line at the top of the view, the width kept for line numbers (the largest
/// seen so far), the terminal's height, and whether the view may scroll past
/// the last line.
#[derive(Clone, Copy, Debug, PartialEq, Eq, Structural)]
pub struct State {
    pub point: usize,
    pub line_index: usize,
    pub max_line_number_len: usize,
    pub terminal_height: usize,
    pub beyond_last_line: bool,
}

/// The lines of the diff at position `i` of the history.
pub open spec fn lines_at(h: History, i: int) -> Option<Seq<DiffLine>> {
    h.spec_points()[i].spec_diff().spec_lines()
}

/// A state whose position lies in the history.
pub open spec fn state_in(s: State, h: History) -> bool {
    h.wf() && s.point < h.spec_points().len()
}

/// Where the view starts after moving to another diff: `offset` lines above
/// the line found there, or at the top where none was found.
pub open spec fn moved_index(target: Option<usize>, offset: usize) -> usize {
    match target {
        Some(t) => saturating_sub(t as int, offset as int),
        None => 0,
    }
}

pub open spec fn max_usize(a: usize, b: usize) -> usize {
    if a < b {
        b
    } else {
        a
    }
}

/// The state after moving to the next older point: the line nearest the
/// top of the view that exists in the old text is looked up among the new
/// lines of the older diff (its old text is their new text).
pub open spec fn older_state(s: State, h: History) -> State {
    if s.point + 1 < h.spec_points().len() {
        let pair = nearest_pair(lines_at(h, s.point as int), Side::Old, s.line_index);
        let target = find_on(lines_at(h, s.point + 1), Side::New, pair.1);
        State {
            point: (s.point + 1) as usize,
            line_index: moved_index(target, pair.0),
            max_line_number_len: max_usize(
                s.max_line_number_len,
                number_width(lines_at(h, s.point + 1)) as usize,
            ),
            ..s
        }
    } else {
        s
    }
}

/// The state after moving to the next newer point, symmetric to `older_state`.
pub open spec fn newer_state(s: State, h: History) -> State {
    if 1 <= s.point && s.point - 1 < h.spec_points().len() {
        let pair = nearest_pair(lines_at(h, s.point as int), Side::New, s.line_index);
        let target = find_on(lines_at(h, s.point - 1), Side::Old, pair.1);
        State {
            point: (s.point - 1) as usize,
            line_index: moved_index(target, pair.0),
            max_line_number_len: max_usize(
                s.max_line_number_len,
                number_width(lines_at(h, s.point - 1)) as usize,
            ),
            ..s
        }
    } else {
        s
    }
}

/// The largest line index the view may start at in the current diff.
pub open spec fn current_max_index(s: State, h: History) -> usize {
    max_index(lines_at(h, s.point as int), s.terminal_height, s.beyond_last_line)
}

pub open spec fn min_usize(a: usize, b: usize) -> usize {
    if a < b {
        a
    } else {
        b
    }
}

/// One line up, kept within `[0, largest index]`; at the top, no move.
pub open spec fn line_up_state(s: State, h: History) -> State {
    State {
        line_index: if s.line_index > 0 {
            min_usize((s.line_index - 1) as usize, current_max_index(s, h))
        } else {
            s.line_index
        },
        ..s
    }
}

/// One line down, kept within `[0, largest index]`; at the largest index,
/// no move.
pub open spec fn line_down_state(s: State, h: History) -> State {
    State {
        line_index: if s.line_index < current_max_index(s, h) {
            (s.line_index + 1) as usize
        } else {
            current_max_index(s, h)
        },
        ..s
    }
}

/// One page (the height of the diff panel) up, kept within
/// `[0, largest index]`.
pub open spec fn page_up_state(s: State, h: History) -> State {
    State {
        line_index: min_usize(
            saturating_sub(s.line_index as int, spec_diff_height(s.terminal_height) as int),
            current_max_index(s, h),
        ),
        ..s
    }
}

/// One page down, kept within `[0, largest index]`.
pub open spec fn page_down_state(s: State, h: History) -> State {
    State {
        line_index: if s.line_index + spec_diff_height(s.terminal_height) >= current_max_index(
            s,
            h,
        ) {
            current_max_index(s, h)
        } else {
            (s.line_index + spec_diff_height(s.terminal_height)) as usize
        },
        ..s
    }
}

/// At the top of the diff.
pub open spec fn top_state(s: State) -> State {
    State { line_index: 0, ..s }
}

/// At the largest index.
pub open spec fn bottom_state(s: State, h: History) -> State {
    State { line_index: current_max_index(s, h), ..s }
}

impl State {
    pub fn new(
        point: usize,
        line_index: usize,
        max_line_number_len: usize,
        terminal_height: usize,
        beyond_last_line: bool,
    ) -> (r: Self)
        ensures
            r == (State {
                point,
                line_index,
                max_line_number_len,
                terminal_height,
                beyond_last_line,
            }),
    {
        State { point, line_index, max_line_number_len, terminal_height, beyond_last_line }
    }

    /// The state a session starts in: at the latest point, at the top of
    /// its diff.
    pub fn first(history: &History, terminal_height: usize, args: &Args) -> (r: Self)
        requires
            history.wf(),
        ensures
            r == (State {
                point: 0,
                line_index: 0,
                max_line_number_len: number_width(lines_at(*history, 0)) as usize,
                terminal_height,
                beyond_last_line: args.beyond_last_line,
            }),
    {
        let point = history.latest().unwrap();
        let max_line_number_len = point.diff().max_line_number_len();
        State::new(0, 0, max_line_number_len, terminal_height, args.beyond_last_line)
    }

    /// The current point.
    pub fn point<'a>(&self, history: &'a History) -> (r: &'a TurningPoint)
        requires
            state_in(*self, *history),
        ensures
            *r == history.spec_points()[self.point as int],
    {
        history.get(self.point).unwrap()
    }

    pub fn line_index(&self) -> (r: usize)
        ensures
            r == self.line_index,
    {
        self.line_index
    }

    pub fn max_line_number_len(&self) -> (r: usize)
        ensures
            r == self.max_line_number_len,
    {
        self.max_line_number_len
    }

    pub fn terminal_height(&self) -> (r: usize)
        ensures
            r == self.terminal_height,
    {
        self.terminal_height
    }

    /// Whether the view can scroll up.
    pub fn can_move_up(&self, history: &History) -> (r: bool)
        requires
            state_in(*self, *history),
        ensures
            r == (self.line_index > 0),
    {
        self.point(history).diff().can_move_up(self.line_index)
    }

    /// Whether the view can scroll down.
    pub fn can_move_down(&self, history: &History) -> (r: bool)
        requires
            state_in(*self, *history),
        ensures
            r == (self.line_index < current_max_index(*self, *history)),
    {
        self.point(history).diff().can_move_down(
            self.line_index,
            self.terminal_height,
            self.beyond_last_line,
        )
    }

    /// Moves to the next older point, keeping the view on the same line of
    /// the file where that line is in both diffs.
    pub fn backward_commit(self, history: &History) -> (r: Self)
        requires
            state_in(self, *history),
        ensures
            r == older_state(self, *history),
            state_in(r, *history),
            r.max_line_number_len >= self.max_line_number_len,
    {
        let point = self.point(history);
        match history.backward(point) {
            Some(next_point) => {
                let index_pair = point.diff().nearest_old_index_pair(self.line_index);
                let line_index = match next_point.diff().find_index_from_new_index(
                    index_pair.partial_index(),
                ) {
                    Some(index) => index.saturating_sub(index_pair.relative_index()),
                    None => 0,
                };
                let width = next_point.diff().max_line_number_len();
                let max_line_number_len = if self.max_line_number_len < width {
                    width
                } else {
                    self.max_line_number_len
                };
                State::new(
                    self.point + 1,
                    line_index,
                    max_line_number_len,
                    self.terminal_height,
                    self.beyond_last_line,
                )
            },
            None => self,
        }
    }

    /// Moves to the next newer point, keeping the view on the same line of
    /// the file where that line is in both diffs.
    pub fn forward_commit(self, history: &History) -> (r: Self)
        requires
            state_in(self, *history),
        ensures
            r == newer_state(self, *history),
            state_in(r, *history),
            r.max_line_number_len >= self.max_line_number_len,
    {
        let point = self.point(history);
        match history.forward(point) {
            Some(next_point) => {
                let index_pair = point.diff().nearest_new_index_pair(self.line_index);
                let line_index = match next_point.diff().find_index_from_old_index(
                    index_pair.partial_index(),
                ) {
                    Some(index) => index.saturating_sub(index_pair.relative_index()),
                    None => 0,
                };
                let width = next_point.diff().max_line_number_len();
                let max_line_number_len = if self.max_line_number_len < width {
                    width
                } else {
                    self.max_line_number_len
                };
                State::new(
                    self.point - 1,
                    line_index,
                    max_line_number_len,
                    self.terminal_height,
                    self.beyond_last_line,
                )
            },
            None => self,
        }
    }

    /// One line up, kept within the scroll bounds; at the top, no move.
    pub fn scroll_line_up(self, history: &History) -> (r: Self)
        requires
            state_in(self, *history),
        ensures
            r == line_up_state(self, *history),
    {
        if self.can_move_up(history) {
            let max_index = self.point(history).diff().allowed_max_index(
                self.terminal_height,
                self.beyond_last_line,
            );
            let up = self.line_index - 1;
            State { line_index: if up < max_index { up } else { max_index }, ..self }
        } else {
            self
        }
    }

    /// One line down, kept within the scroll bounds.
    pub fn scroll_line_down(self, history: &History) -> (r: Self)
        requires
            state_in(self, *history),
        ensures
            r == line_down_state(self, *history),
    {
        if self.can_move_down(history) {
            State { line_index: self.line_index + 1, ..self }
        } else {
            let max_index = self.point(history).diff().allowed_max_index(
                self.terminal_height,
                self.beyond_last_line,
            );
            State { line_index: max_index, ..self }
        }
    }

    /// One page (the height of the diff panel) up, kept within the scroll
    /// bounds.
    pub fn scroll_page_up(self, history: &History) -> (r: Self)
        requires
            state_in(self, *history),
        ensures
            r == page_up_state(self, *history),
    {
        let height = diff_height(self.terminal_height);
        let diff = self.point(history).diff();
        let min_index = diff.allowed_min_index();
        let max_index = diff.allowed_max_index(self.terminal_height, self.beyond_last_line);
        let lower = self.line_index.saturating_sub(height);
        let target = if lower < min_index {
            min_index
        } else {
            lower
        };
        let line_index = if target < max_index {
            target
        } else {
            max_index
        };
        State { line_index, ..self }
    }

    /// One page down, kept within the scroll bounds.
    pub fn scroll_page_down(self, history: &History) -> (r: Self)
        requires
            state_in(self, *history),
        ensures
            r == page_down_state(self, *history),
    {
        let height = diff_height(self.terminal_height);
        let max_index = self.point(history).diff().allowed_max_index(
            self.terminal_height,
            self.beyond_last_line,
        );
        let line_index = if self.line_index >= max_index || height >= max_index - self.line_index {
            max_index
        } else {
            self.line_index + height
        };
        State { line_index, ..self }
    }

    /// To the top of the diff.
    pub fn scroll_to_top(self, history: &History) -> (r: Self)
        requires
            state_in(self, *history),
        ensures
            r == (top_state(self)),
    {
        let min_index = self.point(history).diff().allowed_min_index();
        let line_index = if self.line_index < min_index {
            self.line_index
        } else {
            min_index
        };
        State { line_index, ..self }
    }

    /// To the largest index of the scroll bounds.
    pub fn scroll_to_bottom(self, history: &History) -> (r: Self)
        requires
            state_in(self, *history),
        ensures
            r == bottom_state(self, *history),
    {
        let max_index = self.point(history).diff().allowed_max_index(
            self.terminal_height,
            self.beyond_last_line,
        );
        State { line_index: max_index, ..self }
    }

    /// Takes the terminal's new height; the view stays where it is until the
    /// next scroll brings it back within the bounds.
    pub fn update_terminal_height(self, terminal_height: usize) -> (r: Self)
        ensures
            r == (State { terminal_height, ..self }),
    {
        State { terminal_height, ..self }
    }
}

/// A key as the terminal reports it.
#[derive(Clone, Copy, Debug, PartialEq, Eq, Structural)]
pub enum Key {
    Left,
    Right,
    Up,
    Down,
    PageUp,
    PageDown,
    Home,
    End,
    Char(char),
    Other,
}

/// An input event: a key with whether Control was held, or a new terminal
/// height.
#[derive(Clone, Copy, Debug, PartialEq, Eq, Structural)]
pub enum Event {
    Key(Key, bool),
    Resize(usize),
    Other,
}

/// What an input event asks of the session.
#[derive(Clone, Copy, Debug, PartialEq, Eq, Structural)]
pub enum Command {
    MoveOlder,
    MoveNewer,
    LineUp,
    LineDown,
    PageUp,
    PageDown,
    Top,
    Bottom,
    Resize(usize),
    Quit,
    Stay,
}

pub open spec fn spec_command_for(event: Event) -> Command {
    match event {
        Event::Key(Key::Char('q'), _) => Command::Quit,
        Event::Key(Key::Char('c'), true) => Command::Quit,
        Event::Key(Key::Char('d'), true) => Command::Quit,
        Event::Key(Key::Left, _) => Command::MoveOlder,
        Event::Key(Key::Right, _) => Command::MoveNewer,
        Event::Key(Key::Up, _) => Command::LineUp,
        Event::Key(Key::Down, _) => Command::LineDown,
        Event::Key(Key::PageUp, _) => Command::PageUp,
        Event::Key(Key::PageDown, _) => Command::PageDown,
        Event::Key(Key::Home, _) => Command::Top,
        Event::Key(Key::End, _) => Command::Bottom,
        Event::Resize(h) => Command::Resize(h),
        _ => Command::Stay,
    }
}

/// The key bindings: `q`, Ctrl-C and Ctrl-D quit; Left and Right move to the
/// older and the newer point; Up, Down, PageUp, PageDown, Home and End
/// scroll; a resize takes the new height; anything else changes nothing.
pub fn command_for(event: Event) -> (r: Command)
    ensures
        r == spec_command_for(event),
{
    match event {
        Event::Key(Key::Char('q'), _) => Command::Quit,
        Event::Key(Key::Char('c'), true) => Command::Quit,
        Event::Key(Key::Char('d'), true) => Command::Quit,
        Event::Key(Key::Left, _) => Command::MoveOlder,
        Event::Key(Key::Right, _) => Command::MoveNewer,
        Event::Key(Key::Up, _) => Command::LineUp,
        Event::Key(Key::Down, _) => Command::LineDown,
        Event::Key(Key::PageUp, _) => Command::PageUp,
        Event::Key(Key::PageDown, _) => Command::PageDown,
        Event::Key(Key::Home, _) => Command::Top,
        Event::Key(Key::End, _) => Command::Bottom,
        Event::Resize(h) => Command::Resize(h),
        _ => Command::Stay,
    }
}

/// The state that a command leads to, or `None` where it ends the session.
pub open spec fn spec_apply(s: State, h: History, command: Command) -> Option<State> {
    match command {
        Command::MoveOlder => Some(older_state(s, h)),
        Command::MoveNewer => Some(newer_state(s, h)),
        Command::LineUp => Some(line_up_state(s, h)),
        Command::LineDown => Some(line_down_state(s, h)),
        Command::PageUp => Some(page_up_state(s, h)),
        Command::PageDown => Some(page_down_state(s, h)),
        Command::Top => Some(top_state(s)),
        Command::Bottom => Some(bottom_state(s, h)),
        Command::Resize(height) => Some(State { terminal_height: height, ..s }),
        Command::Quit => None,
        Command::Stay => Some(s),
    }
}

impl State {
    /// The next state of the session after `command`, or `None` to quit.
    pub fn apply(self, history: &History, command: Command) -> (r: Option<Self>)
        requires
            state_in(self, *history),
        ensures
            r == spec_apply(self, *history, command),
            r is Some ==> state_in(r.unwrap(), *history),
    {
        match command {
            Command::MoveOlder => Some(self.backward_commit(history)),
            Command::MoveNewer => Some(self.forward_commit(history)),
            Command::LineUp => Some(self.scroll_line_up(history)),
            Command::LineDown => Some(self.scroll_line_down(history)),
            Command::PageUp => Some(self.scroll_page_up(history)),
            Command::PageDown => Some(self.scroll_page_down(history)),
            Command::Top => Some(self.scroll_to_top(history)),
            Command::Bottom => Some(self.scroll_to_bottom(history)),
            Command::Resize(height) => Some(self.update_terminal_height(height)),
            Command::Quit => None,
            Command::Stay => Some(self),
        }
    }
}

/// At the earliest point, moving older changes nothing; at the latest,
/// moving newer changes nothing.
pub proof fn lemma_moves_stop_at_ends(s: State, h: History)
    requires
        state_in(s, h),
    ensures
        s.point + 1 == h.spec_points().len() ==> older_state(s, h) == s,
        s.point == 0 ==> newer_state(s, h) == s,
{
}

/// Moving to the older point and back again returns the view to where it
/// was, when its top line is an equal line (present in the file both before
/// and after the current change) and the older diff has lines.
pub proof fn lemma_older_then_newer(s: State, h: History)
    requires
        state_in(s, h),
        s.point + 1 < h.spec_points().len(),
        lines_at(h, s.point as int) is Some,
        s.line_index < lines_at(h, s.point as int).unwrap().len(),
        lines_at(h, s.point as int).unwrap()[s.line_index as int].spec_tag() == ChangeTag::Equal,
        lines_at(h, s.point + 1) is Some,
    ensures
        newer_state(older_state(s, h), h).point == s.point,
        newer_state(older_state(s, h), h).line_index == s.line_index,
{
    let cur = lines_at(h, s.point as int).unwrap();
    let older = lines_at(h, s.point + 1).unwrap();
    let li = s.line_index as int;
    let pi = s.point as int;
    assert(h.spec_points()[pi].spec_diff().wf());
    assert(h.spec_points()[pi + 1].spec_diff().wf());
    assert(tag_agrees(cur[li]));
    let o = cur[li].index_on(Side::Old).unwrap();
    // The current line exists on the old side: the pair is (0, o).
    assert(next_on(cur, Side::Old, li) == Some(li));
    // Line o of the text before the current change is a line of the older
    // diff's new side, whose text is the same.
    assert(h.spec_points()[pi].spec_diff().spec_old_text() == h.spec_points()[pi
        + 1].spec_diff().spec_new_text());
    assert(o < line_count(h.spec_points()[pi].spec_diff().spec_old_text()));
    assert(shows(older, Side::New, o));
    let k = choose|k: int|
        0 <= k < older.len() && (#[trigger] older[k]).index_on(Side::New) == Some(o);
    lemma_find_index_hits(&h.spec_points()[pi + 1].spec_diff(), Side::New, o, k);
    let t = find_on(lines_at(h, pi + 1), Side::New, o).unwrap();
    let s1 = older_state(s, h);
    assert(s1.line_index == t);
    assert(s1.point == s.point + 1);
    // From the older diff, line t exists on the new side with index o.
    assert(next_on(older, Side::New, t as int) == Some(t as int));
    lemma_find_index_hits(&h.spec_points()[pi].spec_diff(), Side::Old, o, li);
    let back = find_on(lines_at(h, pi), Side::Old, o).unwrap();
    if back < li {
        assert(increasing_on(cur, Side::Old));
        assert(cur[back as int].index_on(Side::Old) is Some);
        assert(cur[li].index_on(Side::Old) is Some);
    }
    assert(back == li);
}

} // verus!
