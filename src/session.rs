//! The debug session: run, pause, single-step and reset directives for the
//! runner that owns the CPU, and the breakpoint check that forces a pause.
use vstd::prelude::*;
use crate::breakpoints::{after_entry, toggled, BreakpointSet};
use crate::text_entry::{parse_address, parse_line_number};
use crate::source_map::{line_at, SourceMap};
use crate::watchpoints::{after_address_entry, WatchpointSet};

verus! {

/// Instructions run per frame when a session starts.
pub const DEFAULT_INSTRUCTIONS_PER_FRAME: u32 = 100;

/// The fewest instructions per frame that the operator can set.
pub const MIN_INSTRUCTIONS_PER_FRAME: u32 = 1;

/// The most instructions per frame that the operator can set.
pub const MAX_INSTRUCTIONS_PER_FRAME: u32 = 500;

/// Display scale when a session starts, in hundredths.
pub const DEFAULT_UI_SCALE_PERCENT: u32 = 100;

/// The smallest display scale, in hundredths.
pub const MIN_UI_SCALE_PERCENT: u32 = 50;

/// The largest display scale, in hundredths.
pub const MAX_UI_SCALE_PERCENT: u32 = 300;

/// `value` brought into `[lo, hi]`.
pub open spec fn clamped(value: u32, lo: u32, hi: u32) -> u32 {
    if value < lo {
        lo
    } else if value > hi {
        hi
    } else {
        value
    }
}

/// What a session holds, as plain values.
pub struct SessionView {
    pub paused: bool,
    /// A single step asked for and not yet taken by the runner.
    pub step: bool,
    /// A reset asked for and not yet carried out by the runner.
    pub reset: bool,
    /// Whether carrying out a reset also takes out every breakpoint and
    /// watchpoint.
    pub reset_clears_points: bool,
    pub instructions_per_frame: u32,
    /// Display scale in hundredths.
    pub ui_scale_percent: u32,
    /// Where each source line begins.
    pub symbols: Seq<u16>,
    pub breakpoints: Seq<usize>,
    pub watchpoints: Seq<u16>,
    pub breakpoint_entry: Seq<char>,
    pub watchpoint_entry: Seq<char>,
}

impl SessionView {
    /// The program counter stands at the start of a line with a breakpoint.
    pub open spec fn breakpoint_hit(self, pc: u16) -> bool {
        match line_at(self.symbols, pc) {
            Some(line) => self.breakpoints.contains(line as usize),
            None => false,
        }
    }

    /// The session after the breakpoint check at `pc`: paused if it was, or
    /// if the check fired.
    pub open spec fn after_check(self, pc: u16) -> SessionView {
        SessionView { paused: self.paused || self.breakpoint_hit(pc), ..self }
    }

    /// The session after the runner has run one instruction and the program
    /// counter has moved to `pc`: any step is used up, then the check runs.
    pub open spec fn after_instruction(self, pc: u16) -> SessionView {
        SessionView { step: false, ..self }.after_check(pc)
    }

    /// The session after breakpoint checks at each of `pcs` in turn, as in
    /// frames where the operator does nothing.
    pub open spec fn after_checks(self, pcs: Seq<u16>) -> SessionView
        decreases pcs.len(),
    {
        if pcs.len() == 0 {
            self
        } else {
            self.after_checks(pcs.drop_last()).after_check(pcs.last())
        }
    }

    /// The runner may run one more instruction in this frame, `executed`
    /// having run already: while paused only a requested step, while running
    /// up to the per-frame cap.
    pub open spec fn may_run(self, executed: nat) -> bool {
        if self.paused {
            self.step
        } else {
            executed < self.instructions_per_frame
        }
    }
}

/// Breakpoint checks never lift a pause nor ask for a step.
pub proof fn checks_keep_paused(s: SessionView, pcs: Seq<u16>)
    requires
        s.paused,
        !s.step,
    ensures
        s.after_checks(pcs).paused,
        !s.after_checks(pcs).step,
    decreases pcs.len(),
{
    if pcs.len() > 0 {
        checks_keep_paused(s, pcs.drop_last());
    }
}

/// While paused with a step requested, the runner may run one instruction;
/// once it has, none more runs, however many frames pass without the operator
/// asking for another step.
pub proof fn step_runs_exactly_one(s: SessionView, pc: u16, later: Seq<u16>, executed: nat)
    requires
        s.paused,
        s.step,
    ensures
        s.may_run(0),
        !s.after_instruction(pc).may_run(executed),
        !s.after_instruction(pc).after_checks(later).may_run(executed),
{
    checks_keep_paused(s.after_instruction(pc), later);
}

/// A breakpoint check that fires leaves the session paused, whatever it was
/// before: from then on only a pending step may run.
pub proof fn breakpoint_forces_pause(s: SessionView, pc: u16, executed: nat)
    requires
        s.breakpoint_hit(pc),
    ensures
        s.after_check(pc).paused,
        s.after_check(pc).may_run(executed) == s.step,
{
}

/// A program counter at which no line begins never fires the check.
pub proof fn unmapped_never_pauses(s: SessionView, pc: u16)
    requires
        line_at(s.symbols, pc).is_none(),
    ensures
        s.after_check(pc) == s,
{
    assert(s.after_check(pc) =~= s);
}

/// The debug session: run state, directives for the runner, the source map,
/// the breakpoints and watchpoints, and the operator's two text entries.
pub struct App {
    paused: bool,
    step: bool,
    reset: bool,
    reset_clears_points: bool,
    instructions_per_frame: u32,
    ui_scale_percent: u32,
    source_map: SourceMap,
    breakpoints: BreakpointSet,
    breakpoints_user_entry: String,
    watchpoints: WatchpointSet,
    watchpoints_user_entry: String,
}

impl View for App {
    type V = SessionView;

    closed spec fn view(&self) -> SessionView {
        SessionView {
            paused: self.paused,
            step: self.step,
            reset: self.reset,
            reset_clears_points: self.reset_clears_points,
            instructions_per_frame: self.instructions_per_frame,
            ui_scale_percent: self.ui_scale_percent,
            symbols: self.source_map@,
            breakpoints: self.breakpoints@,
            watchpoints: self.watchpoints@,
            breakpoint_entry: self.breakpoints_user_entry@,
            watchpoint_entry: self.watchpoints_user_entry@,
        }
    }
}

impl App {
    /// The parts are consistent: one address per source line.
    pub closed spec fn parts_wf(&self) -> bool {
        self.source_map.wf()
    }

    pub open spec fn wf(&self) -> bool {
        &&& self.parts_wf()
        &&& MIN_INSTRUCTIONS_PER_FRAME <= self@.instructions_per_frame <= MAX_INSTRUCTIONS_PER_FRAME
        &&& MIN_UI_SCALE_PERCENT <= self@.ui_scale_percent <= MAX_UI_SCALE_PERCENT
        &&& self@.breakpoints.no_duplicates()
        &&& self@.watchpoints.no_duplicates()
    }

    /// The source lines, for display.
    pub closed spec fn source_lines(&self) -> Seq<String> {
        self.source_map.lines()
    }

    /// A running session with no breakpoints or watchpoints, over source lines
    /// and the address at which each begins.
    pub fn new(debug_symbols: Vec<u16>, source_file: Vec<String>) -> (r: App)
        requires
            debug_symbols@.len() == source_file@.len(),
        ensures
            r.wf(),
            r@ == (SessionView {
                paused: false,
                step: false,
                reset: false,
                reset_clears_points: false,
                instructions_per_frame: DEFAULT_INSTRUCTIONS_PER_FRAME,
                ui_scale_percent: DEFAULT_UI_SCALE_PERCENT,
                symbols: debug_symbols@,
                breakpoints: Seq::empty(),
                watchpoints: Seq::empty(),
                breakpoint_entry: Seq::empty(),
                watchpoint_entry: Seq::empty(),
            }),
            r.source_lines() == source_file@,
    {
        App {
            paused: false,
            step: false,
            reset: false,
            reset_clears_points: false,
            instructions_per_frame: DEFAULT_INSTRUCTIONS_PER_FRAME,
            ui_scale_percent: DEFAULT_UI_SCALE_PERCENT,
            source_map: SourceMap::new(debug_symbols, source_file),
            breakpoints: BreakpointSet::new(),
            breakpoints_user_entry: String::new(),
            watchpoints: WatchpointSet::new(),
            watchpoints_user_entry: String::new(),
        }
    }

    pub fn is_paused(&self) -> (r: bool)
        ensures
            r == self@.paused,
    {
        self.paused
    }

    /// Whether a single step waits for the runner (read without taking it).
    pub fn step_requested(&self) -> (r: bool)
        ensures
            r == self@.step,
    {
        self.step
    }

    /// Whether a reset waits for the runner (read without taking it).
    pub fn reset_requested(&self) -> (r: bool)
        ensures
            r == self@.reset,
    {
        self.reset
    }

    /// Whether carrying out a reset also takes out breakpoints and watchpoints.
    pub fn reset_clears_points(&self) -> (r: bool)
        ensures
            r == self@.reset_clears_points,
    {
        self.reset_clears_points
    }

    pub fn instructions_per_frame(&self) -> (r: u32)
        requires
            self.wf(),
        ensures
            r == self@.instructions_per_frame,
            MIN_INSTRUCTIONS_PER_FRAME <= r <= MAX_INSTRUCTIONS_PER_FRAME,
    {
        self.instructions_per_frame
    }

    /// The display scale in hundredths.
    pub fn ui_scale_percent(&self) -> (r: u32)
        requires
            self.wf(),
        ensures
            r == self@.ui_scale_percent,
            MIN_UI_SCALE_PERCENT <= r <= MAX_UI_SCALE_PERCENT,
    {
        self.ui_scale_percent
    }

    /// Pauses a running session, resumes a paused one.
    pub fn toggle_pause(&mut self)
        requires
            old(self).wf(),
        ensures
            final(self).wf(),
            final(self)@ == (SessionView { paused: !old(self)@.paused, ..old(self)@ }),
    {
        self.paused = !self.paused;
    }

    /// Asks for one instruction to be run; only a paused session takes it.
    pub fn request_step(&mut self)
        requires
            old(self).wf(),
        ensures
            final(self).wf(),
            final(self)@ == (SessionView { step: old(self)@.step || old(self)@.paused, ..old(self)@ }),
    {
        if self.paused {
            self.step = true;
        }
    }

    /// Takes the step request: the runner calls this once it has run the
    /// single instruction.
    pub fn consume_step(&mut self)
        requires
            old(self).wf(),
        ensures
            final(self).wf(),
            final(self)@ == (SessionView { step: false, ..old(self)@ }),
    {
        self.step = false;
    }

    /// Asks the runner to start the program again from scratch.
    pub fn request_reset(&mut self)
        requires
            old(self).wf(),
        ensures
            final(self).wf(),
            final(self)@ == (SessionView { reset: true, ..old(self)@ }),
    {
        self.reset = true;
    }

    /// Chooses whether carrying out a reset also takes out every breakpoint
    /// and watchpoint; a new session keeps them.
    pub fn set_reset_clears_points(&mut self, clears: bool)
        requires
            old(self).wf(),
        ensures
            final(self).wf(),
            final(self)@ == (SessionView { reset_clears_points: clears, ..old(self)@ }),
    {
        self.reset_clears_points = clears;
    }

    /// Takes the reset request: the runner calls this once it has
    /// reinitialised the CPU and memory. Breakpoints and watchpoints are
    /// taken out too where the session was set to do so.
    pub fn consume_reset(&mut self)
        requires
            old(self).wf(),
        ensures
            final(self).wf(),
            !old(self)@.reset_clears_points ==> final(self)@ == (SessionView { reset: false, ..old(self)@ }),
            old(self)@.reset_clears_points ==> final(self)@ == (SessionView {
                reset: false,
                breakpoints: Seq::empty(),
                watchpoints: Seq::empty(),
                ..old(self)@
            }),
    {
        self.reset = false;
        if self.reset_clears_points {
            self.breakpoints.clear();
            self.watchpoints.clear();
        }
    }

    /// Sets the per-frame instruction cap, brought into `[1, 500]`.
    pub fn set_instructions_per_frame(&mut self, n: u32)
        requires
            old(self).wf(),
        ensures
            final(self).wf(),
            final(self)@ == (SessionView {
                instructions_per_frame: clamped(n, MIN_INSTRUCTIONS_PER_FRAME, MAX_INSTRUCTIONS_PER_FRAME),
                ..old(self)@
            }),
            MIN_INSTRUCTIONS_PER_FRAME <= n <= MAX_INSTRUCTIONS_PER_FRAME
                ==> final(self)@.instructions_per_frame == n,
    {
        self.instructions_per_frame = if n < MIN_INSTRUCTIONS_PER_FRAME {
            MIN_INSTRUCTIONS_PER_FRAME
        } else if n > MAX_INSTRUCTIONS_PER_FRAME {
            MAX_INSTRUCTIONS_PER_FRAME
        } else {
            n
        };
    }

    /// Sets the display scale in hundredths, brought into `[50, 300]`.
    pub fn set_ui_scale_percent(&mut self, percent: u32)
        requires
            old(self).wf(),
        ensures
            final(self).wf(),
            final(self)@ == (SessionView {
                ui_scale_percent: clamped(percent, MIN_UI_SCALE_PERCENT, MAX_UI_SCALE_PERCENT),
                ..old(self)@
            }),
    {
        self.ui_scale_percent = if percent < MIN_UI_SCALE_PERCENT {
            MIN_UI_SCALE_PERCENT
        } else if percent > MAX_UI_SCALE_PERCENT {
            MAX_UI_SCALE_PERCENT
        } else {
            percent
        };
    }

    pub fn source_map(&self) -> (r: &SourceMap)
        requires
            self.wf(),
        ensures
            r.wf(),
            r@ == self@.symbols,
            r.lines() == self.source_lines(),
    {
        &self.source_map
    }

    /// The source line at which the program counter `pc` stands, if one
    /// begins exactly there.
    pub fn current_line(&self, pc: u16) -> (r: Option<usize>)
        ensures
            r.is_some() == line_at(self@.symbols, pc).is_some(),
            r.is_some() ==> r.unwrap() as nat == line_at(self@.symbols, pc).unwrap(),
    {
        self.source_map.line_of(pc)
    }

    /// The breakpoint check, made with the current program counter before
    /// any instruction of a frame and after each one: where a line with a
    /// breakpoint begins at `pc` the session is paused, whatever it was.
    /// Returns whether the check fired.
    pub fn check_breakpoint(&mut self, pc: u16) -> (r: bool)
        requires
            old(self).wf(),
        ensures
            final(self).wf(),
            r == old(self)@.breakpoint_hit(pc),
            final(self)@ == old(self)@.after_check(pc),
    {
        let hit = match self.source_map.line_of(pc) {
            Some(line) => self.breakpoints.contains(line),
            None => false,
        };
        if hit {
            self.paused = true;
        }
        assert(self@ =~= old(self)@.after_check(pc));
        hit
    }

    /// Whether the runner may run one more instruction this frame, `executed`
    /// having run already.
    pub fn may_execute(&self, executed: u32) -> (r: bool)
        ensures
            r == self@.may_run(executed as nat),
    {
        if self.paused {
            self.step
        } else {
            executed < self.instructions_per_frame
        }
    }

    /// The runner reports one instruction run, after which the program
    /// counter is `pc`: any step request is used up and the breakpoint check
    /// is made at once, so that a batch stops on the line it reaches.
    pub fn instruction_executed(&mut self, pc: u16) -> (r: bool)
        requires
            old(self).wf(),
        ensures
            final(self).wf(),
            r == old(self)@.breakpoint_hit(pc),
            final(self)@ == old(self)@.after_instruction(pc),
    {
        self.consume_step();
        self.check_breakpoint(pc)
    }

    /// The lines with a breakpoint, in the order they were set.
    pub fn breakpoints(&self) -> (r: &Vec<usize>)
        ensures
            r@ == self@.breakpoints,
    {
        self.breakpoints.lines()
    }

    pub fn is_breakpoint(&self, line: usize) -> (r: bool)
        ensures
            r == self@.breakpoints.contains(line),
    {
        self.breakpoints.contains(line)
    }

    /// Sets or clears the breakpoint on `line`, as a click on the line does.
    pub fn toggle_breakpoint(&mut self, line: usize)
        requires
            old(self).wf(),
        ensures
            final(self).wf(),
            final(self)@.breakpoints.to_set() == toggled(old(self)@.breakpoints.to_set(), line),
            final(self)@ == (SessionView { breakpoints: final(self)@.breakpoints, ..old(self)@ }),
    {
        self.breakpoints.toggle(line);
    }

    pub fn remove_breakpoint(&mut self, line: usize)
        requires
            old(self).wf(),
        ensures
            final(self).wf(),
            final(self)@.breakpoints.to_set() == old(self)@.breakpoints.to_set().remove(line),
            final(self)@ == (SessionView { breakpoints: final(self)@.breakpoints, ..old(self)@ }),
    {
        self.breakpoints.remove(line);
    }

    /// What the operator has typed as a line number so far.
    pub fn breakpoint_entry(&self) -> (r: &String)
        ensures
            r@ == self@.breakpoint_entry,
    {
        &self.breakpoints_user_entry
    }

    pub fn set_breakpoint_entry(&mut self, text: String)
        requires
            old(self).wf(),
        ensures
            final(self).wf(),
            final(self)@ == (SessionView { breakpoint_entry: text@, ..old(self)@ }),
    {
        self.breakpoints_user_entry = text;
    }

    /// Adds the breakpoint that the entry names, if it names one, and empties
    /// the entry either way; done on "Add" and when the entry loses focus.
    pub fn submit_breakpoint_entry(&mut self)
        requires
            old(self).wf(),
        ensures
            final(self).wf(),
            final(self)@.breakpoints.to_set() == after_entry(
                old(self)@.breakpoints.to_set(),
                old(self)@.breakpoint_entry,
            ),
            parse_line_number(old(self)@.breakpoint_entry).is_none() ==> final(self)@.breakpoints
                == old(self)@.breakpoints,
            final(self)@ == (SessionView {
                breakpoints: final(self)@.breakpoints,
                breakpoint_entry: Seq::empty(),
                ..old(self)@
            }),
    {
        self.breakpoints.add_from_text(&mut self.breakpoints_user_entry);
    }

    /// The watched addresses, in the order they were set.
    pub fn watchpoints(&self) -> (r: &Vec<u16>)
        ensures
            r@ == self@.watchpoints,
    {
        self.watchpoints.addresses()
    }

    pub fn remove_watchpoint(&mut self, address: u16)
        requires
            old(self).wf(),
        ensures
            final(self).wf(),
            final(self)@.watchpoints.to_set() == old(self)@.watchpoints.to_set().remove(address),
            final(self)@ == (SessionView { watchpoints: final(self)@.watchpoints, ..old(self)@ }),
    {
        self.watchpoints.remove(address);
    }

    /// What the operator has typed as an address so far.
    pub fn watchpoint_entry(&self) -> (r: &String)
        ensures
            r@ == self@.watchpoint_entry,
    {
        &self.watchpoints_user_entry
    }

    pub fn set_watchpoint_entry(&mut self, text: String)
        requires
            old(self).wf(),
        ensures
            final(self).wf(),
            final(self)@ == (SessionView { watchpoint_entry: text@, ..old(self)@ }),
    {
        self.watchpoints_user_entry = text;
    }

    /// Adds the watchpoint that the entry names in hexadecimal, if it names
    /// one, and empties the entry either way.
    pub fn submit_watchpoint_entry(&mut self)
        requires
            old(self).wf(),
        ensures
            final(self).wf(),
            final(self)@.watchpoints.to_set() == after_address_entry(
                old(self)@.watchpoints.to_set(),
                old(self)@.watchpoint_entry,
            ),
            parse_address(old(self)@.watchpoint_entry).is_none() ==> final(self)@.watchpoints
                == old(self)@.watchpoints,
            final(self)@ == (SessionView {
                watchpoints: final(self)@.watchpoints,
                watchpoint_entry: Seq::empty(),
                ..old(self)@
            }),
    {
        self.watchpoints.add_from_text(&mut self.watchpoints_user_entry);
    }

    /// Each watched address with the byte that `read_byte` gives for it now.
    pub fn watch_list<F: Fn(u16) -> u8>(&self, read_byte: F) -> (r: Vec<(u16, u8)>)
        requires
            forall|a: u16| read_byte.requires((a,)),
        ensures
            r@.len() == self@.watchpoints.len(),
            forall|i: int|
                0 <= i < self@.watchpoints.len() ==> (#[trigger] r@[i]).0 == self@.watchpoints[i]
                    && read_byte.ensures((self@.watchpoints[i],), r@[i].1),
    {
        self.watchpoints.watch_list(read_byte)
    }
}

} // verus!
