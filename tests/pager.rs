use minus::input::{handle_input, InputEvent, InputMode, Reaction};
use minus::render::push_decimal;
use minus::search::{compute_matches, select_next, select_previous, MatchPos};
use minus::session::{LoopControl, LoopEvent, LoopPhase, LoopStep, PagerError, StaticPlan};
use minus::text::{chars_of, split_lines};
use minus::viewport::center_on;
use minus::{LineNumbers, Pager, RunMode};

fn numbered(n: usize) -> String {
    let mut s = String::new();
    for i in 0..n {
        s.push_str(&format!("line {}\n", i));
    }
    s
}

fn chars(s: &str) -> Vec<char> {
    s.chars().collect()
}

fn pos(line: usize, col: usize) -> MatchPos {
    MatchPos { line, col }
}

#[test]
fn run_mode_uninitialized() {
    assert!(RunMode::Uninitialized.is_uninitialized());
    assert!(!RunMode::Static.is_uninitialized());
    assert!(!RunMode::Dynamic.is_uninitialized());
}

#[test]
fn new_static_starts_at_top() {
    let p = Pager::new_static("a\nb\nc".to_string(), LineNumbers::Enabled);
    assert_eq!(p.line_count(), 3);
    assert_eq!(p.upper_mark(), 0);
    assert_eq!(p.line_numbers(), LineNumbers::Enabled);
    assert_eq!(p.line(2), &vec!['c']);
    assert!(p.search().is_none());
    assert_eq!(p.run_mode(), RunMode::Static);
}

#[test]
fn default_static_is_empty() {
    let p = Pager::default_static();
    assert_eq!(p.line_count(), 0);
    assert!(p.text().is_empty());
    assert_eq!(p.line_numbers(), LineNumbers::Disabled);
    assert_eq!(p.run_mode(), RunMode::Static);
}

#[test]
fn dynamic_pagers_share_state() {
    let shared = Pager::new_dynamic("x\ny\n".to_string(), LineNumbers::Enabled);
    let other = shared.clone();
    other.lock().unwrap().append_content("z\n");
    let guard = shared.lock().unwrap();
    assert_eq!(guard.line_count(), 3);
    assert_eq!(guard.line_numbers(), LineNumbers::Enabled);
    assert_eq!(guard.run_mode(), RunMode::Dynamic);
    let empty = Pager::default_dynamic();
    let e = empty.lock().unwrap();
    assert_eq!(e.line_count(), 0);
    assert!(e.text().is_empty());
    assert_eq!(e.line_numbers(), LineNumbers::Disabled);
    assert_eq!(e.upper_mark(), 0);
    assert_eq!(e.run_mode(), RunMode::Dynamic);
}

#[test]
fn interleaved_appends_and_reads_see_whole_updates() {
    let shared = Pager::default_dynamic();
    for i in 0..50usize {
        let before = shared.lock().unwrap().line_count();
        assert_eq!(before, i);
        shared.lock().unwrap().append_content("row\n");
        let after = shared.lock().unwrap().line_count();
        assert_eq!(after, i + 1);
    }
}

#[test]
fn rendering_with_numbers() {
    let mut p = Pager::new_static(numbered(20), LineNumbers::Disabled);
    assert_eq!(p.render_line(12), chars("line 12"));
    p.set_line_numbers(LineNumbers::Enabled);
    assert_eq!(p.render_line(12), chars("12 line 12"));
    assert_eq!(p.render_line(0), chars("0 line 0"));
    let mut out = Vec::new();
    push_decimal(1907, &mut out);
    assert_eq!(out, chars("1907"));
}

#[test]
fn splitting_lines() {
    let v = split_lines(&chars_of("a\n\nbc\n"));
    assert_eq!(v, vec![vec!['a'], vec![], vec!['b', 'c']]);
    assert_eq!(split_lines(&chars_of("")).len(), 0);
    assert_eq!(split_lines(&chars_of("ab")), vec![vec!['a', 'b']]);
    assert_eq!(split_lines(&chars_of("\n")), vec![Vec::<char>::new()]);
}

#[test]
fn scroll_to_clamps_to_last_page() {
    let mut p = Pager::new_static(numbered(100), LineNumbers::Disabled);
    p.set_rows(20);
    p.scroll_to(90);
    assert_eq!(p.upper_mark(), 80);
    p.scroll_to(10);
    assert_eq!(p.upper_mark(), 10);
}

#[test]
fn scroll_by_saturates() {
    let mut p = Pager::new_static(numbered(30), LineNumbers::Disabled);
    p.set_rows(10);
    p.scroll_by(-5);
    assert_eq!(p.upper_mark(), 0);
    p.scroll_by(7);
    assert_eq!(p.upper_mark(), 7);
    p.scroll_by(isize::MAX);
    assert_eq!(p.upper_mark(), 20);
    p.scroll_by(isize::MIN);
    assert_eq!(p.upper_mark(), 0);
}

#[test]
fn short_content_never_scrolls() {
    let mut p = Pager::new_static(numbered(5), LineNumbers::Disabled);
    p.set_rows(20);
    p.scroll_to(3);
    assert_eq!(p.upper_mark(), 0);
    p.scroll_by(100);
    assert_eq!(p.upper_mark(), 0);
}

#[test]
fn shrinking_content_reclamps_offset() {
    let mut p = Pager::new_static(numbered(50), LineNumbers::Disabled);
    p.set_rows(10);
    p.scroll_to(40);
    assert_eq!(p.upper_mark(), 40);
    p.set_content(numbered(15));
    assert_eq!(p.upper_mark(), 5);
    p.set_rows(20);
    assert_eq!(p.upper_mark(), 0);
}

#[test]
fn visible_window() {
    let mut p = Pager::new_static(numbered(25), LineNumbers::Disabled);
    p.set_rows(10);
    p.scroll_to(12);
    assert_eq!(p.visible_range(), (12, 22));
    p.scroll_to(100);
    assert_eq!(p.visible_range(), (15, 25));
}

#[test]
fn search_case_insensitive_scenario() {
    let lines = split_lines(&chars_of("a\nb\nab\n"));
    let m = compute_matches(&lines, &chars("A"), false);
    assert_eq!(m, vec![pos(0, 0), pos(2, 0)]);
    assert_eq!(select_next(&m, None), Some(0));
}

#[test]
fn search_case_sensitive_and_empty() {
    let lines = split_lines(&chars_of("Abc\naBa\n"));
    assert_eq!(compute_matches(&lines, &chars("a"), true), vec![pos(1, 0), pos(1, 2)]);
    assert_eq!(compute_matches(&lines, &chars("b"), false), vec![pos(0, 1), pos(1, 1)]);
    assert!(compute_matches(&lines, &Vec::new(), false).is_empty());
    assert_eq!(compute_matches(&lines, &chars("aa"), true), Vec::<MatchPos>::new());
    assert_eq!(compute_matches(&split_lines(&chars_of("aaa")), &chars("aa"), true), vec![pos(0, 0), pos(0, 1)]);
}

#[test]
fn next_and_previous_are_cyclic_and_inverse() {
    let m = vec![pos(0, 0), pos(1, 0), pos(3, 2)];
    for i in 0..3usize {
        let n = select_next(&m, Some(i));
        assert_eq!(select_previous(&m, n), Some(i));
        let p = select_previous(&m, Some(i));
        assert_eq!(select_next(&m, p), Some(i));
    }
    assert_eq!(select_next(&m, Some(2)), Some(0));
    assert_eq!(select_previous(&m, Some(0)), Some(2));
    assert_eq!(select_previous(&m, None), Some(2));
    let none: Vec<MatchPos> = Vec::new();
    assert_eq!(select_next(&none, None), None);
    assert_eq!(select_previous(&none, Some(0)), None);
}

#[test]
fn centering_on_a_line() {
    assert_eq!(center_on(50, 100, 20), 40);
    assert_eq!(center_on(3, 100, 20), 0);
    assert_eq!(center_on(95, 100, 20), 80);
    assert_eq!(center_on(2, 5, 20), 0);
}

#[test]
fn commit_search_jumps_and_navigates() {
    let mut text = String::new();
    for i in 0..100usize {
        if i == 10 || i == 60 {
            text.push_str("needle\n");
        } else {
            text.push_str(&format!("hay {}\n", i));
        }
    }
    let mut p = Pager::new_static(text, LineNumbers::Disabled);
    p.set_rows(20);
    p.scroll_to(30);
    p.commit_search(chars("NEEDLE"), false);
    let s = p.search().as_ref().unwrap();
    assert_eq!(s.matches, vec![pos(10, 0), pos(60, 0)]);
    assert_eq!(s.current, Some(1));
    assert_eq!(p.upper_mark(), 50);
    p.next_match();
    assert_eq!(p.search().as_ref().unwrap().current, Some(0));
    assert_eq!(p.upper_mark(), 0);
    p.previous_match();
    assert_eq!(p.search().as_ref().unwrap().current, Some(1));
    assert_eq!(p.upper_mark(), 50);
    p.clear_search();
    assert!(p.search().is_none());
    assert_eq!(p.upper_mark(), 50);
}

#[test]
fn commit_search_past_last_match_wraps_to_first() {
    let mut p = Pager::new_static("x\ny\n".to_string() + &numbered(40), LineNumbers::Disabled);
    p.set_rows(10);
    p.scroll_to(30);
    p.commit_search(chars("x"), true);
    assert_eq!(p.search().as_ref().unwrap().current, Some(0));
    assert_eq!(p.upper_mark(), 0);
}

#[test]
fn commit_search_without_matches_keeps_view() {
    let mut p = Pager::new_static(numbered(40), LineNumbers::Disabled);
    p.set_rows(10);
    p.scroll_to(7);
    p.commit_search(chars("zzz"), false);
    let s = p.search().as_ref().unwrap();
    assert!(s.matches.is_empty());
    assert_eq!(s.current, None);
    assert_eq!(p.upper_mark(), 7);
    p.next_match();
    assert_eq!(p.search().as_ref().unwrap().current, None);
}

#[test]
fn matches_follow_content_changes() {
    let mut p = Pager::new_static("a\nb\n".to_string(), LineNumbers::Disabled);
    p.commit_search(chars("a"), false);
    assert_eq!(p.search().as_ref().unwrap().matches, vec![pos(0, 0)]);
    p.append_content("ba\nA");
    assert_eq!(p.search().as_ref().unwrap().matches, vec![pos(0, 0), pos(2, 1), pos(3, 0)]);
    assert_eq!(p.search().as_ref().unwrap().current, Some(0));
    p.set_content("bbb\n".to_string());
    let s = p.search().as_ref().unwrap();
    assert!(s.matches.is_empty());
    assert_eq!(s.current, None);
    assert_eq!(s.pattern, chars("a"));
}

#[test]
fn append_joins_unfinished_line() {
    let mut p = Pager::new_static("ab".to_string(), LineNumbers::Disabled);
    p.append_content("cd\nef");
    assert_eq!(p.line_count(), 2);
    assert_eq!(p.line(0), &chars("abcd"));
    assert_eq!(p.text(), &chars("abcd\nef"));
}

#[test]
fn input_scrolling() {
    let mut p = Pager::new_static(numbered(50), LineNumbers::Disabled);
    p.set_rows(10);
    let mut mode = InputMode::Normal;
    assert_eq!(handle_input(&mut p, &mut mode, InputEvent::LineUp, false), Reaction::Idle);
    assert_eq!(handle_input(&mut p, &mut mode, InputEvent::LineDown, false), Reaction::Redraw);
    assert_eq!(p.upper_mark(), 1);
    assert_eq!(handle_input(&mut p, &mut mode, InputEvent::PageDown, false), Reaction::Redraw);
    assert_eq!(p.upper_mark(), 11);
    assert_eq!(handle_input(&mut p, &mut mode, InputEvent::Bottom, false), Reaction::Redraw);
    assert_eq!(p.upper_mark(), 40);
    assert_eq!(handle_input(&mut p, &mut mode, InputEvent::PageDown, false), Reaction::Idle);
    assert_eq!(handle_input(&mut p, &mut mode, InputEvent::PageUp, false), Reaction::Redraw);
    assert_eq!(p.upper_mark(), 30);
    assert_eq!(handle_input(&mut p, &mut mode, InputEvent::Top, false), Reaction::Redraw);
    assert_eq!(p.upper_mark(), 0);
    assert_eq!(handle_input(&mut p, &mut mode, InputEvent::Other, false), Reaction::Idle);
    assert_eq!(handle_input(&mut p, &mut mode, InputEvent::ToggleLineNumbers, false), Reaction::Redraw);
    assert_eq!(p.line_numbers(), LineNumbers::Enabled);
    assert_eq!(handle_input(&mut p, &mut mode, InputEvent::Quit, false), Reaction::Quit);
    assert_eq!(p.run_mode(), RunMode::Static);
}

#[test]
fn input_search_capture() {
    let mut p = Pager::new_static("one\ntwo\nthree\n".to_string(), LineNumbers::Disabled);
    p.set_rows(2);
    let mut mode = InputMode::Normal;
    assert_eq!(handle_input(&mut p, &mut mode, InputEvent::BeginSearch, false), Reaction::Redraw);
    assert_eq!(handle_input(&mut p, &mut mode, InputEvent::SearchChar('t'), false), Reaction::Redraw);
    assert_eq!(handle_input(&mut p, &mut mode, InputEvent::SearchChar('x'), false), Reaction::Redraw);
    assert_eq!(handle_input(&mut p, &mut mode, InputEvent::SearchBackspace, false), Reaction::Redraw);
    assert_eq!(handle_input(&mut p, &mut mode, InputEvent::LineDown, false), Reaction::Idle);
    assert_eq!(p.upper_mark(), 0);
    assert_eq!(handle_input(&mut p, &mut mode, InputEvent::SearchChar('H'), false), Reaction::Redraw);
    assert_eq!(handle_input(&mut p, &mut mode, InputEvent::CommitSearch, false), Reaction::Redraw);
    assert!(matches!(mode, InputMode::Normal));
    let s = p.search().as_ref().unwrap();
    assert_eq!(s.pattern, chars("tH"));
    assert_eq!(s.matches, vec![pos(2, 0)]);
    assert_eq!(p.upper_mark(), 1);
    assert_eq!(handle_input(&mut p, &mut mode, InputEvent::BeginSearch, false), Reaction::Redraw);
    assert_eq!(handle_input(&mut p, &mut mode, InputEvent::SearchChar('o'), false), Reaction::Redraw);
    assert_eq!(handle_input(&mut p, &mut mode, InputEvent::CancelSearch, false), Reaction::Redraw);
    assert!(matches!(mode, InputMode::Normal));
    assert_eq!(p.search().as_ref().unwrap().pattern, chars("tH"));
}

#[test]
fn quit_mid_loop_cancels_and_awaits_producer() {
    let mut c = LoopControl::new();
    assert_eq!(c.next_step(), LoopStep::Draw);
    c.advance(LoopEvent::Tick);
    c.advance(LoopEvent::Reacted { reaction: Reaction::Redraw, capturing: true });
    assert_eq!(c.phase, LoopPhase::Searching);
    c.advance(LoopEvent::Reacted { reaction: Reaction::Quit, capturing: false });
    assert_eq!(c.phase, LoopPhase::Terminating);
    assert_eq!(c.next_step(), LoopStep::RequestCancel);
    c.advance(LoopEvent::CancelSent);
    assert_eq!(c.next_step(), LoopStep::AwaitProducer);
    c.advance(LoopEvent::Tick);
    assert_eq!(c.next_step(), LoopStep::AwaitProducer);
    c.advance(LoopEvent::ProducerEnded { ok: true });
    assert_eq!(c.next_step(), LoopStep::Finish);
}

#[test]
fn loop_failures_are_reported() {
    let mut c = LoopControl::new();
    c.advance(LoopEvent::LockLost);
    assert_eq!(c.next_step(), LoopStep::RequestCancel);
    c.advance(LoopEvent::CancelSent);
    c.advance(LoopEvent::ProducerEnded { ok: true });
    assert_eq!(c.next_step(), LoopStep::Fail(PagerError::LockInconsistent));
    let mut d = LoopControl::new();
    d.advance(LoopEvent::ProducerEnded { ok: false });
    assert_eq!(d.next_step(), LoopStep::Draw);
    d.advance(LoopEvent::Reacted { reaction: Reaction::Quit, capturing: false });
    assert_eq!(d.next_step(), LoopStep::Fail(PagerError::ProducerTaskFailed));
}

#[test]
fn static_short_content_renders_once() {
    let mut p = Pager::new_static(numbered(3), LineNumbers::Disabled);
    p.set_rows(10);
    assert_eq!(p.static_plan(), StaticPlan::RenderOnce);
    let mut q = Pager::new_static(numbered(30), LineNumbers::Disabled);
    q.set_rows(10);
    assert_eq!(q.static_plan(), StaticPlan::Interactive);
}
