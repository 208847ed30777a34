//! The decisions of the control loop that runs one phase, of the prompt
//! between cycles, and of the order of the phases in a cycle.
//!
//! The loop itself, with its sleeping, printing and progress bar, belongs to
//! the program; each pass of it asks the functions here what to do.
use vstd::prelude::*;
use crate::input_handler::Command;
use crate::message_creator::{
    generate_print_message_before_additional_break, generate_print_message_before_break,
    generate_print_message_before_pomodoro, message_before_additional_break, message_before_break,
    message_before_pomodoro,
};
use crate::pomo_info::{pomo_info_of, PomoInfo};
use crate::pomodoro_options::PomodoroOptions;
use crate::text::{decimal, push_decimal};
use crate::timer::{ClockState, Timer};

verus! {

/// Seconds that one skip command adds to the elapsed time.
pub const SKIP_SECS: u64 = 60;

/// What the control loop did with one command, for the notice it prints.
#[derive(PartialEq, Eq, Structural, Debug, Clone, Copy)]
pub enum Reaction {
    Paused,
    Resumed,
    Skipped,
    Quit,
    ForceExit,
    /// The command does nothing in the current state.
    Ignored,
}

/// How a phase ended.
#[derive(PartialEq, Eq, Structural, Debug, Clone, Copy)]
pub enum PhaseOutcome {
    /// The target duration was reached; the completion action is due.
    CompletedNormally,
    /// The user quit the phase; the completion action is skipped.
    QuitRequested,
    /// The user asked to end the program.
    ExitRequested,
}

/// The reaction to `cmd` and the clock after it. Pause acts only on a
/// running clock and resume only on a paused one; a skip acts in either.
pub open spec fn command_effect(s: ClockState, cmd: Command) -> (Reaction, ClockState) {
    match cmd {
        Command::Pause => if s.paused {
            (Reaction::Ignored, s)
        } else {
            (Reaction::Paused, s.pause())
        },
        Command::Resume => if s.paused {
            (Reaction::Resumed, s.resume())
        } else {
            (Reaction::Ignored, s)
        },
        Command::Skip => (Reaction::Skipped, s.skip(SKIP_SECS as nat)),
        Command::Quit => (Reaction::Quit, s),
        Command::ForceExit => (Reaction::ForceExit, s),
        _ => (Reaction::Ignored, s),
    }
}

/// Whether a command ends the phase.
pub open spec fn ends_phase(cmd: Command) -> bool {
    cmd is Quit || cmd is ForceExit
}

/// Commands taken in order until one ends the phase: the reactions, the
/// clock afterwards, and the outcome if the phase ended.
pub open spec fn run_commands(s: ClockState, cmds: Seq<Command>) -> (
    Seq<Reaction>,
    ClockState,
    Option<PhaseOutcome>,
)
    decreases cmds.len(),
{
    if cmds.len() == 0 {
        (Seq::empty(), s, None)
    } else {
        let (r, t) = command_effect(s, cmds[0]);
        match cmds[0] {
            Command::Quit => (seq![r], t, Some(PhaseOutcome::QuitRequested)),
            Command::ForceExit => (seq![r], t, Some(PhaseOutcome::ExitRequested)),
            _ => {
                let rest = run_commands(t, cmds.drop_first());
                (seq![r] + rest.0, rest.1, rest.2)
            },
        }
    }
}

/// Acts on one command.
pub fn handle_user_input(timer: &mut Timer, input: Command) -> (r: Reaction)
    requires
        old(timer)@.elapsed + SKIP_SECS <= u64::MAX,
    ensures
        (r, final(timer)@) == command_effect(old(timer)@, input),
        final(timer)@.wf(),
{
    let paused = timer.is_paused();
    match input {
        Command::Pause => {
            if paused {
                Reaction::Ignored
            } else {
                timer.pause();
                Reaction::Paused
            }
        },
        Command::Resume => {
            if paused {
                timer.resume();
                Reaction::Resumed
            } else {
                Reaction::Ignored
            }
        },
        Command::Skip => {
            timer.skip(SKIP_SECS);
            Reaction::Skipped
        },
        Command::Quit => Reaction::Quit,
        Command::ForceExit => Reaction::ForceExit,
        _ => Reaction::Ignored,
    }
}

/// Acts on the commands that arrived since the last pass, in the order they
/// arrived, up to and including the first that ends the phase; the rest
/// are dropped with the phase.
pub fn handle_pending_input(timer: &mut Timer, inputs: &Vec<Command>) -> (r: (
    Vec<Reaction>,
    Option<PhaseOutcome>,
))
    requires
        old(timer)@.elapsed + SKIP_SECS * inputs@.len() <= u64::MAX,
    ensures
        (r.0@, final(timer)@, r.1) == run_commands(old(timer)@, inputs@),
        final(timer)@.wf(),
{
    let ghost s0 = timer@;
    let mut reactions: Vec<Reaction> = Vec::new();
    let mut outcome: Option<PhaseOutcome> = None;
    let mut i: usize = 0;
    // Brings the clock's well-formedness into the loop invariant.
    let _ = timer.is_paused();
    assert(inputs@.subrange(0, inputs@.len() as int) =~= inputs@);
    assert(Seq::<Reaction>::empty() + run_commands(s0, inputs@).0 =~= run_commands(s0, inputs@).0);
    while i < inputs.len() && outcome.is_none()
        invariant
            i <= inputs@.len(),
            timer@.wf(),
            timer@.elapsed <= s0.elapsed + SKIP_SECS * i,
            s0.elapsed + SKIP_SECS * inputs@.len() <= u64::MAX,
            outcome.is_none() ==> ({
                let rest = run_commands(timer@, inputs@.subrange(i as int, inputs@.len() as int));
                run_commands(s0, inputs@) == (reactions@ + rest.0, rest.1, rest.2)
            }),
            outcome.is_some() ==> run_commands(s0, inputs@) == (reactions@, timer@, outcome),
        decreases inputs@.len() - i,
    {
        let ghost before = timer@;
        let ghost tail = inputs@.subrange(i as int, inputs@.len() as int);
        assert(tail[0] == inputs@[i as int]);
        assert(tail.drop_first() =~= inputs@.subrange(i as int + 1, inputs@.len() as int));
        let input = inputs[i];
        let reaction = handle_user_input(timer, input);
        let ghost prev = reactions@;
        reactions.push(reaction);
        if input == Command::Quit {
            outcome = Some(PhaseOutcome::QuitRequested);
            assert(reactions@ =~= prev + seq![reaction]);
        } else if input == Command::ForceExit {
            outcome = Some(PhaseOutcome::ExitRequested);
            assert(reactions@ =~= prev + seq![reaction]);
        } else {
            proof {
                let rest = run_commands(timer@, tail.drop_first());
                assert(prev + (seq![reaction] + rest.0) =~= reactions@ + rest.0);
            }
        }
        i = i + 1;
    }
    if outcome.is_none() {
        assert(inputs@.subrange(i as int, inputs@.len() as int) =~= Seq::<Command>::empty());
        assert(reactions@ + Seq::<Reaction>::empty() =~= reactions@);
    }
    (reactions, outcome)
}

/// Whether `r` is a reaction that `cmd` can get.
pub open spec fn answers(cmd: Command, r: Reaction) -> bool {
    match cmd {
        Command::Pause => r is Paused || r is Ignored,
        Command::Resume => r is Resumed || r is Ignored,
        Command::Skip => r is Skipped,
        Command::Quit => r is Quit,
        Command::ForceExit => r is ForceExit,
        _ => r is Ignored,
    }
}

/// Commands are acted on in the order in which they arrive: the i-th
/// reaction answers the i-th command, and every command gets one up to the
/// first that ends the phase.
pub proof fn lemma_commands_in_order(s: ClockState, cmds: Seq<Command>)
    ensures
        run_commands(s, cmds).0.len() <= cmds.len(),
        forall|i: int|
            0 <= i < run_commands(s, cmds).0.len() ==> answers(
                cmds[i],
                #[trigger] run_commands(s, cmds).0[i],
            ),
        (forall|j: int| 0 <= j < cmds.len() ==> !ends_phase(#[trigger] cmds[j])) ==> run_commands(
            s,
            cmds,
        ).0.len() == cmds.len(),
        run_commands(s, cmds).0.len() < cmds.len() ==> ends_phase(
            cmds[run_commands(s, cmds).0.len() - 1],
        ),
    decreases cmds.len(),
{
    if cmds.len() > 0 {
        let (r, t) = command_effect(s, cmds[0]);
        let rest = cmds.drop_first();
        lemma_commands_in_order(t, rest);
        if !ends_phase(cmds[0]) {
            let rs = run_commands(s, cmds).0;
            assert(rs == seq![r] + run_commands(t, rest).0);
            assert forall|i: int| 0 <= i < rs.len() implies answers(cmds[i], #[trigger] rs[i]) by {
                if i > 0 {
                    assert(rs[i] == run_commands(t, rest).0[i - 1]);
                    assert(cmds[i] == rest[i - 1]);
                }
            }
            if forall|j: int| 0 <= j < cmds.len() ==> !ends_phase(#[trigger] cmds[j]) {
                assert forall|j: int| 0 <= j < rest.len() implies !ends_phase(#[trigger] rest[j]) by {
                    assert(rest[j] == cmds[j + 1]);
                }
            }
            if rs.len() < cmds.len() {
                assert(cmds[rs.len() - 1] == rest[run_commands(t, rest).0.len() - 1]);
            }
        }
    }
}

/// A quit that arrives before any request to end the program ends the
/// phase as quit, whatever the commands before it did, so the completion
/// action, which only a completed phase earns, is never due.
pub proof fn lemma_quit_bypasses_completion(s: ClockState, cmds: Seq<Command>, k: int)
    requires
        0 <= k < cmds.len(),
        cmds[k] is Quit,
        forall|j: int| 0 <= j < k ==> !ends_phase(#[trigger] cmds[j]),
    ensures
        run_commands(s, cmds).2 == Some(PhaseOutcome::QuitRequested),
        run_commands(s, cmds).2 != Some(PhaseOutcome::CompletedNormally),
    decreases k,
{
    if k > 0 {
        let t = command_effect(s, cmds[0]).1;
        let rest = cmds.drop_first();
        assert(!ends_phase(cmds[0]));
        assert forall|j: int| 0 <= j < k - 1 implies !ends_phase(#[trigger] rest[j]) by {
            assert(rest[j] == cmds[j + 1]);
        }
        lemma_quit_bypasses_completion(t, rest, k - 1);
    }
}

/// Batches the wall time of the control loop into whole seconds for the
/// progress display; time that passes while paused is not counted.
pub struct Progress {
    cumulative_delta: u64,
}

impl View for Progress {
    type V = nat;

    /// Milliseconds counted towards the next whole second.
    closed spec fn view(&self) -> nat {
        self.cumulative_delta as nat
    }
}

impl Progress {
    #[verifier::type_invariant]
    spec fn inv(self) -> bool {
        self.cumulative_delta < 1000
    }

    pub fn new() -> (r: Progress)
        ensures
            r@ == 0,
    {
        Progress { cumulative_delta: 0 }
    }

    /// `delta_ms` milliseconds of the loop have passed; returns by how many
    /// whole seconds the display moves on.
    pub fn advance(&mut self, delta_ms: u32, paused: bool) -> (steps: u64)
        ensures
            paused ==> steps == 0 && final(self)@ == old(self)@,
            !paused ==> steps * 1000 + final(self)@ == old(self)@ + delta_ms,
            final(self)@ < 1000,
    {
        proof {
            use_type_invariant(&*self);
        }
        if paused {
            return 0;
        }
        let total: u64 = self.cumulative_delta + delta_ms as u64;
        self.cumulative_delta = total % 1000;
        total / 1000
    }
}

/// What the prompt between cycles does after one poll of the commands.
#[derive(PartialEq, Eq, Structural, Debug, Clone, Copy)]
pub enum RepeatChoice {
    /// Start another cycle.
    Repeat,
    /// Stop the timer.
    Quit,
    /// End the program.
    Exit,
    /// Fire the reminder and start counting the wait anew.
    Remind,
    /// Keep waiting.
    Wait,
}

/// The prompt's decision: enter repeats and `q` quits; with no command, a
/// reminder is due once the wait reaches the reminder interval, if one is
/// set (a positive number of minutes).
pub open spec fn repeat_choice(input: Option<Command>, waited_secs: nat, reminder_minutes: int) -> RepeatChoice {
    match input {
        Some(Command::Confirm) => RepeatChoice::Repeat,
        Some(Command::Quit) => RepeatChoice::Quit,
        Some(Command::ForceExit) => RepeatChoice::Exit,
        Some(_) => RepeatChoice::Wait,
        None => if reminder_minutes > 0 && waited_secs >= 60 * reminder_minutes {
            RepeatChoice::Remind
        } else {
            RepeatChoice::Wait
        },
    }
}

/// One poll of the prompt that asks whether to run another cycle:
/// `input` is the command that arrived, if any, and `waited_secs` the time
/// since the prompt, or the last reminder, began.
pub fn decide_repeat(input: Option<Command>, waited_secs: u64, reminder_minutes: i32) -> (r:
    RepeatChoice)
    ensures
        r == repeat_choice(input, waited_secs as nat, reminder_minutes as int),
{
    match input {
        Some(Command::Confirm) => RepeatChoice::Repeat,
        Some(Command::Quit) => RepeatChoice::Quit,
        Some(Command::ForceExit) => RepeatChoice::Exit,
        Some(_) => RepeatChoice::Wait,
        None => {
            if reminder_minutes > 0 && waited_secs >= 60 * reminder_minutes as u64 {
                RepeatChoice::Remind
            } else {
                RepeatChoice::Wait
            }
        },
    }
}

/// Whether the prompt comes before the cycle after `counter` completed ones.
pub fn asks_before_cycle(options: &PomodoroOptions, counter: i32) -> (r: bool)
    ensures
        r == (counter != 0 && !options.auto_start_pomodoro),
{
    counter != 0 && !options.auto_start_pomodoro
}

/// Which of the options' end events a phase ends with.
#[derive(PartialEq, Eq, Structural, Debug, Clone, Copy)]
pub enum EventSlot {
    Pomodoro,
    AdditionalPomodoro,
}

/// One phase of a cycle, as the program is to run it.
pub struct PhasePlan {
    /// The status line to print before the phase.
    pub message: String,
    pub duration_secs: u64,
    pub end_event: EventSlot,
    /// When present, print this and wait for enter before the phase.
    pub confirm_prompt: Option<String>,
}

/// The abstract content of a [`PhasePlan`].
pub struct PhaseSpec {
    pub message: Seq<char>,
    pub duration_secs: nat,
    pub end_event: EventSlot,
    pub confirm_prompt: Option<Seq<char>>,
}

impl View for PhasePlan {
    type V = PhaseSpec;

    open spec fn view(&self) -> PhaseSpec {
        PhaseSpec {
            message: self.message@,
            duration_secs: self.duration_secs as nat,
            end_event: self.end_event,
            confirm_prompt: match self.confirm_prompt {
                Some(p) => Some(p@),
                None => None,
            },
        }
    }
}

/// The request to confirm the start of the break.
pub open spec fn break_prompt(pomo_info: PomoInfo) -> Seq<char> {
    (if pomo_info.is_long_break_coming {
        "Press enter to start the long break of "@
    } else {
        "Press enter to start the short break of "@
    }) + decimal(pomo_info.break_duration as int / 60) + " minutes."@
}

/// The phases of the cycle after `counter` completed ones: the work
/// session; the extra session, if it has a length; the break, if it has a
/// length, behind a confirmation unless breaks start on their own.
pub open spec fn cycle_plan(options: PomodoroOptions, counter: int) -> Seq<PhaseSpec> {
    let info = pomo_info_of(options, counter);
    let work = seq![
        PhaseSpec {
            message: message_before_pomodoro(info, options),
            duration_secs: (60 * options.duration_pomodoro) as nat,
            end_event: EventSlot::Pomodoro,
            confirm_prompt: None,
        },
    ];
    let extra = if options.additional_duration != 0 {
        seq![
            PhaseSpec {
                message: message_before_additional_break(info, options),
                duration_secs: (60 * options.additional_duration) as nat,
                end_event: EventSlot::AdditionalPomodoro,
                confirm_prompt: None,
            },
        ]
    } else {
        Seq::empty()
    };
    let rest = if info.break_duration != 0 {
        seq![
            PhaseSpec {
                message: message_before_break(info, options),
                duration_secs: info.break_duration as nat,
                end_event: EventSlot::Pomodoro,
                confirm_prompt: if options.auto_start_break {
                    None
                } else {
                    Some(break_prompt(info))
                },
            },
        ]
    } else {
        Seq::empty()
    };
    work + extra + rest
}

fn break_prompt_text(pomo_info: &PomoInfo) -> (r: String)
    ensures
        r@ == break_prompt(*pomo_info),
{
    let mut s = if pomo_info.is_long_break_coming {
        String::from_str("Press enter to start the long break of ")
    } else {
        String::from_str("Press enter to start the short break of ")
    };
    push_decimal(&mut s, (pomo_info.break_duration / 60) as i128);
    s.append(" minutes.");
    s
}

/// The phases of the cycle after `counter` completed ones, in order.
pub fn plan_cycle(options: &PomodoroOptions, counter: i32) -> (r: Vec<PhasePlan>)
    requires
        options.is_usable(),
        counter >= 0,
    ensures
        r@.len() == cycle_plan(*options, counter as int).len(),
        forall|i: int| 0 <= i < r@.len() ==> #[trigger] r@[i]@ == cycle_plan(*options, counter as int)[i],
{
    let info = PomoInfo::from_options(options, counter);
    let ghost plan = cycle_plan(*options, counter as int);
    let mut phases: Vec<PhasePlan> = Vec::new();
    phases.push(
        PhasePlan {
            message: generate_print_message_before_pomodoro(&info, options),
            duration_secs: options.duration_pomodoro as u64 * 60,
            end_event: EventSlot::Pomodoro,
            confirm_prompt: None,
        },
    );
    if options.additional_duration != 0 {
        phases.push(
            PhasePlan {
                message: generate_print_message_before_additional_break(&info, options),
                duration_secs: options.additional_duration as u64 * 60,
                end_event: EventSlot::AdditionalPomodoro,
                confirm_prompt: None,
            },
        );
    }
    if info.break_duration != 0 {
        let confirm_prompt = if options.auto_start_break {
            None
        } else {
            Some(break_prompt_text(&info))
        };
        phases.push(
            PhasePlan {
                message: generate_print_message_before_break(&info, options),
                duration_secs: info.break_duration,
                end_event: EventSlot::Pomodoro,
                confirm_prompt,
            },
        );
    }
    assert(phases@.len() == plan.len());
    assert forall|i: int| 0 <= i < phases@.len() implies #[trigger] phases@[i]@ == plan[i] by {}
    phases
}

} // verus!
