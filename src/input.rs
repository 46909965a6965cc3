use vstd::prelude::*;

use crate::viewport::clamp_offset;
use crate::{after_commit, after_navigation, LineNumbers, Pager};

verus! {

/// An input event, already decoded from the terminal.
#[derive(Copy, Clone, Debug, PartialEq, Eq, Structural)]
pub enum InputEvent {
    LineUp,
    LineDown,
    PageUp,
    PageDown,
    Top,
    Bottom,
    BeginSearch,
    SearchChar(char),
    SearchBackspace,
    CommitSearch,
    CancelSearch,
    NextMatch,
    PreviousMatch,
    ToggleLineNumbers,
    Quit,
    Other,
}

/// Whether keys scroll the view or are typed into a search pattern.
#[derive(Clone, Debug)]
pub enum InputMode {
    Normal,
    Capturing(Vec<char>),
}

/// What the loop does after an event.
#[derive(Copy, Clone, Debug, PartialEq, Eq, Structural)]
pub enum Reaction {
    Redraw,
    Idle,
    Quit,
}

/// `b` is `a` with at most its offset changed.
pub open spec fn same_but_offset(a: Pager, b: Pager) -> bool {
    &&& b.content() == a.content()
    &&& b.numbering() == a.numbering()
    &&& b.height() == a.height()
    &&& b.search_state() == a.search_state()
    &&& b.mode() == a.mode()
}

/// The other line-numbering mode.
pub open spec fn toggled(ln: LineNumbers) -> LineNumbers {
    match ln {
        LineNumbers::Disabled => LineNumbers::Enabled,
        LineNumbers::Enabled => LineNumbers::Disabled,
    }
}

/// The offset that a scrolling event leads to from pager `p`, if `ev` is one.
pub open spec fn scroll_target(p: Pager, ev: InputEvent) -> Option<nat> {
    let (o, t, h) = (p.offset() as int, p.total(), p.height());
    match ev {
        InputEvent::LineUp => Some(clamp_offset(o - 1, t, h)),
        InputEvent::LineDown => Some(clamp_offset(o + 1, t, h)),
        InputEvent::PageUp => Some(clamp_offset(o - h, t, h)),
        InputEvent::PageDown => Some(clamp_offset(o + h, t, h)),
        InputEvent::Top => Some(0),
        InputEvent::Bottom => Some(clamp_offset(t as int, t, h)),
        _ => None,
    }
}

/// Applies one input event to the pager, in the given input mode. While a
/// pattern is typed, scrolling keys are ignored; committing starts the
/// search, cancelling leaves the search as it was.
pub fn handle_input(p: &mut Pager, mode: &mut InputMode, ev: InputEvent, case_sensitive: bool) -> (r: Reaction)
    ensures
        ev == InputEvent::Quit ==> r == Reaction::Quit && *final(p) == *old(p) && *final(mode) == *old(mode),
        ev != InputEvent::Quit ==> r != Reaction::Quit,
        match *old(mode) {
            InputMode::Capturing(pat) => match ev {
                InputEvent::SearchChar(c) => {
                    &&& *final(p) == *old(p)
                    &&& *final(mode) matches InputMode::Capturing(q) && q@ == pat@.push(c)
                    &&& r == Reaction::Redraw
                },
                InputEvent::SearchBackspace => {
                    &&& *final(p) == *old(p)
                    &&& *final(mode) matches InputMode::Capturing(q)
                        && q@ == (if pat@.len() > 0 { pat@.drop_last() } else { pat@ })
                    &&& r == Reaction::Redraw
                },
                InputEvent::CommitSearch => {
                    &&& after_commit(*old(p), *final(p), pat@, case_sensitive)
                    &&& *final(mode) == InputMode::Normal
                    &&& r == Reaction::Redraw
                },
                InputEvent::CancelSearch => {
                    &&& *final(p) == *old(p)
                    &&& *final(mode) == InputMode::Normal
                    &&& r == Reaction::Redraw
                },
                InputEvent::Quit => true,
                _ => *final(p) == *old(p) && *final(mode) == *old(mode) && r == Reaction::Idle,
            },
            InputMode::Normal => {
                &&& (if ev == InputEvent::BeginSearch {
                    *final(mode) matches InputMode::Capturing(q) && q@.len() == 0
                } else {
                    *final(mode) == InputMode::Normal
                })
                &&& match scroll_target(*old(p), ev) {
                    Some(o) => {
                        &&& same_but_offset(*old(p), *final(p))
                        &&& final(p).offset() == o
                        &&& r == (if o == old(p).offset() { Reaction::Idle } else { Reaction::Redraw })
                    },
                    None => match ev {
                        InputEvent::BeginSearch => *final(p) == *old(p) && r == Reaction::Redraw,
                        InputEvent::ToggleLineNumbers => {
                            &&& final(p).numbering() == toggled(old(p).numbering())
                            &&& final(p).offset() == old(p).offset()
                            &&& final(p).content() == old(p).content()
                            &&& final(p).height() == old(p).height()
                            &&& final(p).search_state() == old(p).search_state()
                            &&& final(p).mode() == old(p).mode()
                            &&& r == Reaction::Redraw
                        },
                        InputEvent::NextMatch => after_navigation(*old(p), *final(p), true) && r == Reaction::Redraw,
                        InputEvent::PreviousMatch => after_navigation(*old(p), *final(p), false) && r == Reaction::Redraw,
                        InputEvent::Quit => true,
                        _ => *final(p) == *old(p) && r == Reaction::Idle,
                    },
                }
            },
        },
{
    if ev == InputEvent::Quit {
        return Reaction::Quit;
    }
    let capturing = match mode {
        InputMode::Capturing(_) => true,
        InputMode::Normal => false,
    };
    if capturing {
        match ev {
            InputEvent::SearchChar(c) => {
                if let InputMode::Capturing(pat) = mode {
                    pat.push(c);
                }
                Reaction::Redraw
            },
            InputEvent::SearchBackspace => {
                if let InputMode::Capturing(pat) = mode {
                    if pat.len() > 0 {
                        pat.pop();
                    }
                }
                Reaction::Redraw
            },
            InputEvent::CommitSearch => {
                let mut old_mode = InputMode::Normal;
                core::mem::swap(mode, &mut old_mode);
                if let InputMode::Capturing(pat) = old_mode {
                    p.commit_search(pat, case_sensitive);
                }
                Reaction::Redraw
            },
            InputEvent::CancelSearch => {
                *mode = InputMode::Normal;
                Reaction::Redraw
            },
            _ => Reaction::Idle,
        }
    } else {
        let before = p.upper_mark();
        match ev {
            InputEvent::LineUp => p.scroll_by(-1),
            InputEvent::LineDown => p.scroll_by(1),
            InputEvent::PageUp => {
                let rows = p.rows();
                let target: usize = if rows > before { 0 } else { before - rows };
                p.scroll_to(target);
            },
            InputEvent::PageDown => {
                let rows = p.rows();
                let total = p.line_count();
                let target: usize = if rows > total - before { total } else { before + rows };
                p.scroll_to(target);
            },
            InputEvent::Top => p.scroll_to(0),
            InputEvent::Bottom => {
                let total = p.line_count();
                p.scroll_to(total);
            },
            InputEvent::BeginSearch => {
                *mode = InputMode::Capturing(Vec::new());
                return Reaction::Redraw;
            },
            InputEvent::ToggleLineNumbers => {
                let ln = match p.line_numbers() {
                    LineNumbers::Disabled => LineNumbers::Enabled,
                    LineNumbers::Enabled => LineNumbers::Disabled,
                };
                p.set_line_numbers(ln);
                return Reaction::Redraw;
            },
            InputEvent::NextMatch => {
                p.next_match();
                return Reaction::Redraw;
            },
            InputEvent::PreviousMatch => {
                p.previous_match();
                return Reaction::Redraw;
            },
            _ => {
                return Reaction::Idle;
            },
        }
        if p.upper_mark() == before {
            Reaction::Idle
        } else {
            Reaction::Redraw
        }
    }
}

} // verus!
