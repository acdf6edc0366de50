use debug_core::session::{MAX_INSTRUCTIONS_PER_FRAME, MIN_INSTRUCTIONS_PER_FRAME};
use debug_core::{App, SourceMap};

fn three_line_app() -> App {
    App::new(
        vec![0x8000, 0x8003, 0x8006],
        vec!["lda #1".to_string(), "sta $10".to_string(), "brk".to_string()],
    )
}

/// Runs one frame the way a runner does: check, then run while allowed,
/// reporting each instruction; `next_pc` gives the program counter after it.
fn run_frame(app: &mut App, pc: &mut u16, next_pc: impl Fn(u16) -> u16) -> u32 {
    app.check_breakpoint(*pc);
    let mut executed: u32 = 0;
    while app.may_execute(executed) {
        *pc = next_pc(*pc);
        executed += 1;
        app.instruction_executed(*pc);
    }
    executed
}

#[test]
fn new_session_defaults() {
    let app = three_line_app();
    assert!(!app.is_paused());
    assert!(!app.step_requested());
    assert!(!app.reset_requested());
    assert_eq!(app.instructions_per_frame(), 100);
    assert_eq!(app.ui_scale_percent(), 100);
    assert!(app.breakpoints().is_empty());
    assert!(app.watchpoints().is_empty());
    assert_eq!(app.source_map().len(), 3);
}

#[test]
fn speed_is_clamped() {
    let mut app = three_line_app();
    app.set_instructions_per_frame(0);
    assert_eq!(app.instructions_per_frame(), MIN_INSTRUCTIONS_PER_FRAME);
    app.set_instructions_per_frame(501);
    assert_eq!(app.instructions_per_frame(), MAX_INSTRUCTIONS_PER_FRAME);
    app.set_instructions_per_frame(u32::MAX);
    assert_eq!(app.instructions_per_frame(), 500);
    for n in [1u32, 2, 250, 499, 500] {
        app.set_instructions_per_frame(n);
        assert_eq!(app.instructions_per_frame(), n);
    }
}

#[test]
fn ui_scale_is_clamped() {
    let mut app = three_line_app();
    app.set_ui_scale_percent(10);
    assert_eq!(app.ui_scale_percent(), 50);
    app.set_ui_scale_percent(1000);
    assert_eq!(app.ui_scale_percent(), 300);
    app.set_ui_scale_percent(150);
    assert_eq!(app.ui_scale_percent(), 150);
}

#[test]
fn step_runs_exactly_one_instruction() {
    let mut app = three_line_app();
    app.toggle_pause();
    let mut pc: u16 = 0x8000;
    assert_eq!(run_frame(&mut app, &mut pc, |p| p + 3), 0);
    app.request_step();
    assert!(app.step_requested());
    assert_eq!(run_frame(&mut app, &mut pc, |p| p + 3), 1);
    assert_eq!(pc, 0x8003);
    assert!(!app.step_requested());
    assert!(app.is_paused());
    for _ in 0..5 {
        assert_eq!(run_frame(&mut app, &mut pc, |p| p + 3), 0);
    }
    assert_eq!(pc, 0x8003);
}

#[test]
fn step_request_ignored_while_running() {
    let mut app = three_line_app();
    app.request_step();
    assert!(!app.step_requested());
}

#[test]
fn running_frame_runs_up_to_cap() {
    let mut app = three_line_app();
    app.set_instructions_per_frame(7);
    let mut pc: u16 = 0x9000;
    assert_eq!(run_frame(&mut app, &mut pc, |p| p + 1), 7);
    assert_eq!(pc, 0x9007);
}

#[test]
fn breakpoint_forces_pause() {
    let mut app = three_line_app();
    app.toggle_breakpoint(2);
    assert!(!app.is_paused());
    assert!(app.check_breakpoint(0x8003));
    assert!(app.is_paused());
    app.toggle_pause();
    app.toggle_pause();
    assert!(app.is_paused());
    assert!(app.check_breakpoint(0x8003));
    assert!(app.is_paused());
}

#[test]
fn batch_stops_on_breakpoint() {
    let mut app = three_line_app();
    app.toggle_breakpoint(3);
    let mut pc: u16 = 0x8000;
    assert_eq!(run_frame(&mut app, &mut pc, |p| p + 3), 2);
    assert_eq!(pc, 0x8006);
    assert!(app.is_paused());
}

#[test]
fn unmapped_address_never_fires() {
    let mut app = three_line_app();
    app.toggle_breakpoint(1);
    app.toggle_breakpoint(2);
    app.toggle_breakpoint(3);
    assert_eq!(app.current_line(0x8001), None);
    assert!(!app.check_breakpoint(0x8001));
    assert!(!app.is_paused());
}

#[test]
fn line_of_maps_exact_addresses() {
    let map = SourceMap::new(vec![0x8000, 0x8003, 0x8003], vec![String::new(), String::new(), String::new()]);
    assert_eq!(map.line_of(0x8000), Some(1));
    assert_eq!(map.line_of(0x8003), Some(2));
    assert_eq!(map.line_of(0x8002), None);
    assert_eq!(map.address_of(3), Some(0x8003));
    assert_eq!(map.address_of(0), None);
    assert_eq!(map.address_of(4), None);
    let empty = SourceMap::new(vec![], vec![]);
    assert_eq!(empty.line_of(0), None);
}

#[test]
fn source_lines_are_kept() {
    let app = three_line_app();
    assert_eq!(app.source_map().source_line(2).map(|s| s.as_str()), Some("sta $10"));
    assert_eq!(app.source_map().source_line(0), None);
    assert_eq!(app.source_map().source_line(4), None);
}

#[test]
fn reset_is_peeked_then_consumed() {
    let mut app = three_line_app();
    app.toggle_breakpoint(2);
    app.request_reset();
    assert!(app.reset_requested());
    assert!(app.reset_requested());
    app.consume_reset();
    assert!(!app.reset_requested());
    assert_eq!(app.breakpoints(), &vec![2]);
}

#[test]
fn breakpoint_entry_is_submitted_and_cleared() {
    let mut app = three_line_app();
    app.set_breakpoint_entry("3".to_string());
    assert_eq!(app.breakpoint_entry(), "3");
    app.submit_breakpoint_entry();
    assert!(app.is_breakpoint(3));
    assert_eq!(app.breakpoint_entry(), "");
    app.set_breakpoint_entry("abc".to_string());
    app.submit_breakpoint_entry();
    assert_eq!(app.breakpoints(), &vec![3]);
    assert_eq!(app.breakpoint_entry(), "");
    app.remove_breakpoint(3);
    assert!(app.breakpoints().is_empty());
}

#[test]
fn watchpoint_entry_round_trip() {
    let mut app = three_line_app();
    app.set_watchpoint_entry("00ff".to_string());
    app.submit_watchpoint_entry();
    assert_eq!(app.watchpoint_entry(), "");
    let memory = vec![7u8; 0x10000];
    let list = app.watch_list(|a| memory[a as usize] + 1);
    assert_eq!(list, vec![(0x00ff, 8)]);
    app.remove_watchpoint(0x00ff);
    assert!(app.watch_list(|a| memory[a as usize]).is_empty());
}

#[test]
fn reset_can_clear_points() {
    let mut app = three_line_app();
    assert!(!app.reset_clears_points());
    app.set_reset_clears_points(true);
    assert!(app.reset_clears_points());
    app.toggle_breakpoint(1);
    app.set_watchpoint_entry("10".to_string());
    app.submit_watchpoint_entry();
    assert_eq!(app.watchpoints(), &vec![0x10]);
    app.request_reset();
    app.consume_reset();
    assert!(!app.reset_requested());
    assert!(app.breakpoints().is_empty());
    assert!(app.watchpoints().is_empty());
}
