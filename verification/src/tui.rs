//! The interactive presentation state machine: a row list with a wrapping
//! selection, and a modal detail popup with a bounded scroll. Rendering is
//! left to the caller; every state change goes through [`App::handle_key`].

use vstd::prelude::*;

use crate::model::ViaAdvisory;
use crate::risk::PackageRisk;

verus! {

/// One keyboard input, as the state machine reads it.
#[derive(Debug, Clone, Copy, PartialEq, Eq, Structural)]
pub enum InputKey {
    Up,
    Down,
    Enter,
    Escape,
    Char(char),
    Other,
}

/// The presentation state: the ordered risk list, the highlighted row, and
/// the detail popup's scroll position.
#[derive(Debug)]
pub struct App {
    pub risks: Vec<PackageRisk>,
    pub selected: Option<usize>,
    pub should_quit: bool,
    pub is_popup_open: bool,
    pub popup_scroll: usize,
    pub popup_max_scroll: usize,
}

impl App {
    /// The state is consistent: a row is highlighted exactly when there are
    /// rows, the highlight is in range, the popup scroll never exceeds its
    /// bound, and the popup is only open over a selection.
    pub open spec fn wf(&self) -> bool {
        &&& (self.selected is Some <==> self.risks@.len() > 0)
        &&& (self.selected matches Some(i) ==> i < self.risks@.len())
        &&& self.popup_scroll <= self.popup_max_scroll
        &&& (self.is_popup_open ==> self.selected is Some)
    }
}

/// The state after one forward step in the list: the selection wraps from
/// the last row to row 0; with no rows nothing changes.
pub open spec fn spec_list_down(s: App) -> App {
    match s.selected {
        Some(i) => App {
            selected: Some(
                if i as int + 1 == s.risks@.len() {
                    0usize
                } else {
                    (i + 1) as usize
                },
            ),
            ..s
        },
        None => s,
    }
}

/// The state after one backward step in the list: the selection wraps from
/// row 0 to the last row; with no rows nothing changes.
pub open spec fn spec_list_up(s: App) -> App {
    match s.selected {
        Some(i) => App {
            selected: Some(
                if i == 0 {
                    (s.risks@.len() - 1) as usize
                } else {
                    (i - 1) as usize
                },
            ),
            ..s
        },
        None => s,
    }
}

/// The state after one forward popup scroll: clamped at the bound, no wrap.
pub open spec fn spec_popup_down(s: App) -> App {
    App {
        popup_scroll: if s.popup_scroll < s.popup_max_scroll {
            (s.popup_scroll + 1) as usize
        } else {
            s.popup_scroll
        },
        ..s
    }
}

/// The state after one backward popup scroll: clamped at 0, no wrap.
pub open spec fn spec_popup_up(s: App) -> App {
    App {
        popup_scroll: if s.popup_scroll == 0 {
            0usize
        } else {
            (s.popup_scroll - 1) as usize
        },
        ..s
    }
}

/// The state after the popup is toggled: closing keeps the scroll, opening
/// resets it; with no selection nothing opens.
pub open spec fn spec_toggle_popup(s: App) -> App {
    if s.is_popup_open {
        App { is_popup_open: false, ..s }
    } else if s.selected is Some {
        App { is_popup_open: true, popup_scroll: 0usize, popup_max_scroll: 0usize, ..s }
    } else {
        s
    }
}

/// The state after one key, following the transition table: `q` quits from
/// either view; Escape closes the popup or, from the list, quits; up and
/// down (also `k` and `j`) move the selection or the popup scroll; Enter
/// toggles the popup over the current selection.
pub open spec fn spec_step(s: App, key: InputKey) -> App {
    match key {
        InputKey::Char(c) => if c == 'q' {
            App { should_quit: true, ..s }
        } else if c == 'j' {
            spec_step_down(s)
        } else if c == 'k' {
            spec_step_up(s)
        } else {
            s
        },
        InputKey::Down => spec_step_down(s),
        InputKey::Up => spec_step_up(s),
        InputKey::Enter => spec_toggle_popup(s),
        InputKey::Escape => if s.is_popup_open {
            App { is_popup_open: false, ..s }
        } else {
            App { should_quit: true, ..s }
        },
        InputKey::Other => s,
    }
}

/// A downward key scrolls the open popup, else moves the selection.
pub open spec fn spec_step_down(s: App) -> App {
    if s.is_popup_open {
        spec_popup_down(s)
    } else {
        spec_list_down(s)
    }
}

/// An upward key scrolls the open popup, else moves the selection.
pub open spec fn spec_step_up(s: App) -> App {
    if s.is_popup_open {
        spec_popup_up(s)
    } else {
        spec_list_up(s)
    }
}

impl App {
    /// A fresh session over the given ordered risk list: list view, row 0
    /// highlighted when there are rows, popup closed.
    pub fn new(risks: Vec<PackageRisk>) -> (r: App)
        ensures
            r.wf(),
            r.risks@ == risks@,
            r.selected == (if risks@.len() > 0 {
                Some(0usize)
            } else {
                None::<usize>
            }),
            !r.should_quit,
            !r.is_popup_open,
            r.popup_scroll == 0,
            r.popup_max_scroll == 0,
    {
        let selected: Option<usize> = if risks.len() > 0 {
            Some(0)
        } else {
            None
        };
        App {
            risks,
            selected,
            should_quit: false,
            is_popup_open: false,
            popup_scroll: 0,
            popup_max_scroll: 0,
        }
    }

    /// Moves the selection one row forward, wrapping to the first row.
    pub fn next(&mut self)
        requires
            old(self).wf(),
        ensures
            *final(self) == spec_list_down(*old(self)),
            final(self).wf(),
    {
        match self.selected {
            Some(i) => {
                if i >= self.risks.len() - 1 {
                    self.selected = Some(0);
                } else {
                    self.selected = Some(i + 1);
                }
            },
            None => (),
        }
    }

    /// Moves the selection one row backward, wrapping to the last row.
    pub fn previous(&mut self)
        requires
            old(self).wf(),
        ensures
            *final(self) == spec_list_up(*old(self)),
            final(self).wf(),
    {
        match self.selected {
            Some(i) => {
                if i == 0 {
                    self.selected = Some(self.risks.len() - 1);
                } else {
                    self.selected = Some(i - 1);
                }
            },
            None => (),
        }
    }

    /// Scrolls the popup one line forward, clamped at the bound.
    pub fn scroll_popup_down(&mut self)
        requires
            old(self).wf(),
        ensures
            *final(self) == spec_popup_down(*old(self)),
            final(self).wf(),
    {
        if self.popup_scroll < self.popup_max_scroll {
            self.popup_scroll = self.popup_scroll + 1;
        }
    }

    /// Scrolls the popup one line backward, clamped at 0.
    pub fn scroll_popup_up(&mut self)
        requires
            old(self).wf(),
        ensures
            *final(self) == spec_popup_up(*old(self)),
            final(self).wf(),
    {
        if self.popup_scroll > 0 {
            self.popup_scroll = self.popup_scroll - 1;
        }
    }

    /// Opens the popup over the current selection with its scroll reset, or
    /// closes it; with no selection nothing opens.
    pub fn toggle_popup(&mut self)
        requires
            old(self).wf(),
        ensures
            *final(self) == spec_toggle_popup(*old(self)),
            final(self).wf(),
    {
        if self.is_popup_open {
            self.is_popup_open = false;
        } else if self.selected.is_some() {
            self.is_popup_open = true;
            self.popup_scroll = 0;
            self.popup_max_scroll = 0;
        }
    }

    /// Applies one key to the state, following the transition table.
    pub fn handle_key(&mut self, key: InputKey)
        requires
            old(self).wf(),
        ensures
            *final(self) == spec_step(*old(self), key),
            final(self).wf(),
    {
        match key {
            InputKey::Char(c) => {
                if c == 'q' {
                    self.should_quit = true;
                } else if c == 'j' {
                    self.step_down();
                } else if c == 'k' {
                    self.step_up();
                }
            },
            InputKey::Down => self.step_down(),
            InputKey::Up => self.step_up(),
            InputKey::Enter => self.toggle_popup(),
            InputKey::Escape => {
                if self.is_popup_open {
                    self.is_popup_open = false;
                } else {
                    self.should_quit = true;
                }
            },
            InputKey::Other => (),
        }
    }

    /// Records the scroll bound computed from the rendered content, pulling
    /// the scroll back where the bound shrank below it.
    pub fn set_popup_max_scroll(&mut self, m: usize)
        requires
            old(self).wf(),
        ensures
            final(self).popup_max_scroll == m,
            final(self).popup_scroll == (if old(self).popup_scroll <= m {
                old(self).popup_scroll
            } else {
                m
            }),
            final(self).risks == old(self).risks,
            final(self).selected == old(self).selected,
            final(self).should_quit == old(self).should_quit,
            final(self).is_popup_open == old(self).is_popup_open,
            final(self).wf(),
    {
        self.popup_max_scroll = m;
        if self.popup_scroll > m {
            self.popup_scroll = m;
        }
    }

    fn step_down(&mut self)
        requires
            old(self).wf(),
        ensures
            *final(self) == spec_step_down(*old(self)),
            final(self).wf(),
    {
        if self.is_popup_open {
            self.scroll_popup_down();
        } else {
            self.next();
        }
    }

    fn step_up(&mut self)
        requires
            old(self).wf(),
        ensures
            *final(self) == spec_step_up(*old(self)),
            final(self).wf(),
    {
        if self.is_popup_open {
            self.scroll_popup_up();
        } else {
            self.previous();
        }
    }
}

/// Every step from a consistent state leaves a consistent state over the
/// same risk list: in particular the popup scroll never exceeds its bound.
pub proof fn lemma_step_preserves_wf(s: App, key: InputKey)
    requires
        s.wf(),
    ensures
        spec_step(s, key).wf(),
        spec_step(s, key).risks == s.risks,
{
}

/// The popup scroll is clamped at both ends: scrolling down at the bound
/// stays at the bound, and scrolling up at 0 stays at 0.
pub proof fn lemma_popup_scroll_clamped(s: App)
    requires
        s.wf(),
        s.is_popup_open,
    ensures
        spec_step(s, InputKey::Down).popup_scroll <= spec_step(s, InputKey::Down).popup_max_scroll,
        s.popup_scroll == s.popup_max_scroll ==> spec_step(s, InputKey::Down).popup_scroll
            == s.popup_max_scroll,
        s.popup_scroll == 0 ==> spec_step(s, InputKey::Up).popup_scroll == 0,
{
}

/// In the list view the selection wraps both ways, and with no rows the
/// navigation keys and Enter change nothing.
pub proof fn lemma_selection_wraps(s: App)
    requires
        s.wf(),
        !s.is_popup_open,
    ensures
        (s.selected matches Some(i) && i as int == s.risks@.len() - 1) ==> spec_step(
            s,
            InputKey::Down,
        ).selected == Some(0usize),
        (s.selected matches Some(i) && i == 0) ==> spec_step(s, InputKey::Up).selected == Some(
            ((s.risks@.len() - 1) as usize),
        ),
        s.risks@.len() == 0 ==> spec_step(s, InputKey::Down) == s && spec_step(s, InputKey::Up)
            == s && spec_step(s, InputKey::Enter) == s,
{
}

/// Visual lines that one logical line of display width `w` occupies when
/// wrapped at `width`: the division rounded up, and at least one line even
/// for an empty logical line.
pub open spec fn spec_wrapped_lines(w: int, width: int) -> int
    recommends
        width > 0,
{
    if w == 0 {
        1
    } else {
        (w - 1) / width + 1
    }
}

/// Total visual lines of a sequence of logical line widths wrapped at
/// `width`.
pub open spec fn spec_total_lines(ws: Seq<usize>, width: int) -> int
    decreases ws.len(),
{
    if ws.len() == 0 {
        0
    } else {
        spec_total_lines(ws.drop_last(), width) + spec_wrapped_lines(ws.last() as int, width)
    }
}

/// Counts the visual lines that logical lines of the given display widths
/// occupy when wrapped at `width`, saturating at the machine bound. A zero
/// wrap width fits nothing, and each logical line counts once.
pub fn count_wrapped_lines(widths: &Vec<usize>, width: u16) -> (r: usize)
    ensures
        width == 0 ==> r == widths@.len(),
        width > 0 ==> r as int == (if spec_total_lines(widths@, width as int) <= usize::MAX as int {
            spec_total_lines(widths@, width as int)
        } else {
            usize::MAX as int
        }),
{
    if width == 0 {
        return widths.len();
    }
    let w16: usize = width as usize;
    let mut total: usize = 0;
    let mut i: usize = 0;
    while i < widths.len()
        invariant
            i <= widths@.len(),
            w16 == width as usize,
            width > 0,
            total as int == (if spec_total_lines(widths@.subrange(0, i as int), width as int)
                <= usize::MAX as int {
                spec_total_lines(widths@.subrange(0, i as int), width as int)
            } else {
                usize::MAX as int
            }),
        decreases widths@.len() - i,
    {
        let w = widths[i];
        let term: usize = if w == 0 {
            1
        } else {
            (w - 1) / w16 + 1
        };
        if total > usize::MAX - term {
            total = usize::MAX;
        } else {
            total = total + term;
        }
        proof {
            assert(widths@.subrange(0, i + 1 as int).drop_last() =~= widths@.subrange(0, i as int));
            assert(widths@.subrange(0, i + 1 as int).last() == widths@[i as int]);
            assert(spec_wrapped_lines(widths@[i as int] as int, width as int) == term as int);
        }
        i = i + 1;
    }
    proof {
        assert(widths@.subrange(0, widths@.len() as int) =~= widths@);
    }
    total
}

/// The decimal digit characters, one for each value below ten.
pub open spec fn spec_digit_char(d: int) -> char {
    if d == 0 {
        '0'
    } else if d == 1 {
        '1'
    } else if d == 2 {
        '2'
    } else if d == 3 {
        '3'
    } else if d == 4 {
        '4'
    } else if d == 5 {
        '5'
    } else if d == 6 {
        '6'
    } else if d == 7 {
        '7'
    } else if d == 8 {
        '8'
    } else {
        '9'
    }
}

/// The decimal numeral of a number, most significant digit first, with no
/// leading zeros but a single `0` for zero itself.
pub open spec fn spec_decimal(n: nat) -> Seq<char>
    decreases n,
{
    if n < 10 {
        seq![spec_digit_char(n as int)]
    } else {
        spec_decimal(n / 10).push(spec_digit_char((n % 10) as int))
    }
}

/// One decimal digit as text.
fn digit_str(d: u64) -> (r: &'static str)
    requires
        d < 10,
    ensures
        r@ == seq![spec_digit_char(d as int)],
{
    proof {
        reveal_strlit("0");
        reveal_strlit("1");
        reveal_strlit("2");
        reveal_strlit("3");
        reveal_strlit("4");
        reveal_strlit("5");
        reveal_strlit("6");
        reveal_strlit("7");
        reveal_strlit("8");
        reveal_strlit("9");
    }
    let r: &'static str = match d {
        0 => "0",
        1 => "1",
        2 => "2",
        3 => "3",
        4 => "4",
        5 => "5",
        6 => "6",
        7 => "7",
        8 => "8",
        _ => "9",
    };
    proof {
        assert(r@ =~= seq![spec_digit_char(d as int)]);
    }
    r
}

/// Writes a number as its decimal numeral.
pub fn decimal_string(n: u64) -> (r: String)
    ensures
        r@ == spec_decimal(n as nat),
    decreases n,
{
    if n < 10 {
        digit_str(n).to_owned()
    } else {
        let mut s = decimal_string(n / 10);
        s.append(digit_str(n % 10));
        proof {
            assert(spec_decimal((n / 10) as nat) + seq![spec_digit_char((n % 10) as int)]
                =~= spec_decimal((n / 10) as nat).push(spec_digit_char((n % 10) as int)));
        }
        s
    }
}

/// The views of a sequence of owned strings.
pub open spec fn spec_views(ss: Seq<String>) -> Seq<Seq<char>> {
    ss.map_values(|s: String| s@)
}

/// The two display lines of one advisory: its ordinal and title, then its
/// reference URL.
pub open spec fn spec_advisory_block(a: ViaAdvisory, ordinal: nat) -> Seq<Seq<char>> {
    seq![spec_decimal(ordinal) + ". "@ + a.title@, a.url@]
}

/// The display lines of a sequence of advisories: each advisory's block,
/// numbered from 1, with one blank line between consecutive blocks.
pub open spec fn spec_advisory_lines(advs: Seq<ViaAdvisory>) -> Seq<Seq<char>>
    decreases advs.len(),
{
    if advs.len() == 0 {
        Seq::empty()
    } else if advs.len() == 1 {
        spec_advisory_block(advs[0], 1)
    } else {
        spec_advisory_lines(advs.drop_last()) + seq![Seq::<char>::empty()] + spec_advisory_block(
            advs.last(),
            advs.len() as nat,
        )
    }
}

/// Lays out the detail popup's content: each advisory's numbered title and
/// URL, blank-separated; with no advisory list at all, a single notice.
pub fn formatted_advisory(advisory: Option<Vec<ViaAdvisory>>) -> (r: Vec<String>)
    ensures
        match advisory {
            Some(advs) => spec_views(r@) == spec_advisory_lines(advs@),
            None => spec_views(r@) == seq!["No advisory found"@],
        },
{
    match advisory {
        None => {
            let mut out: Vec<String> = Vec::new();
            out.push(String::from_str("No advisory found"));
            proof {
                assert(spec_views(out@) =~~= seq!["No advisory found"@]);
            }
            out
        },
        Some(advs) => {
            let mut out: Vec<String> = Vec::new();
            let mut i: usize = 0;
            proof {
                assert(spec_views(out@) =~~= spec_advisory_lines(advs@.subrange(0, 0)));
            }
            while i < advs.len()
                invariant
                    i <= advs@.len(),
                    spec_views(out@) == spec_advisory_lines(advs@.subrange(0, i as int)),
                decreases advs@.len() - i,
            {
                let ghost out_entry = out@;
                proof {
                    assert(spec_views(out_entry).len() == out_entry.len());
                    if i == 0 {
                        assert(out_entry.len() == 0);
                    }
                }
                if i > 0 {
                    out.push(String::new());
                }
                let mut line = decimal_string((i as u64) + 1);
                line.append(". ");
                line.append(advs[i].title.as_str());
                proof {
                    assert(line@ =~= spec_decimal((i + 1) as nat) + ". "@ + advs@[i as int].title@);
                }
                out.push(line);
                out.push(advs[i].url.clone());
                proof {
                    let ghost block = spec_advisory_block(advs@[i as int], (i + 1) as nat);
                    assert(advs@.subrange(0, i + 1 as int).drop_last() =~= advs@.subrange(
                        0,
                        i as int,
                    ));
                    assert(advs@.subrange(0, i + 1 as int).last() == advs@[i as int]);
                    if i == 0 {
                        assert(spec_views(out@) =~~= block);
                        assert(spec_advisory_lines(advs@.subrange(0, 1)) == block);
                    } else {
                        assert(spec_views(out@) =~~= spec_views(out_entry) + seq![
                            Seq::<char>::empty(),
                        ] + block);
                        assert(spec_advisory_lines(advs@.subrange(0, i + 1 as int)) == spec_views(
                            out_entry,
                        ) + seq![Seq::<char>::empty()] + block);
                    }
                }
                i = i + 1;
            }
            proof {
                assert(advs@.subrange(0, advs@.len() as int) =~= advs@);
            }
            out
        },
    }
}

/// The scroll bound for content of `total_lines` visual lines shown in a
/// window `visible_height` lines tall: the lines that do not fit.
pub fn compute_max_scroll(total_lines: usize, visible_height: usize) -> (r: usize)
    ensures
        r as int == (if total_lines >= visible_height {
            total_lines - visible_height
        } else {
            0int
        }),
{
    if total_lines >= visible_height {
        total_lines - visible_height
    } else {
        0
    }
}

} // verus!
