//! The session machine: from one result of the operating system to the next
//! call that is due.
//!
//! The program around the library asks `command` for the call to make, makes
//! it, and hands its result back to `step` as an `Event`. What is due depends
//! on the session's state alone, so every call is made once per step.

use vstd::prelude::*;
use crate::guard::{elevated_from_token, instance_acquired};
use crate::menu::MenuChoice;
use crate::period::{clamp, plan_of, plan_set_period, SetOutcome, TimerCaps, DEFAULT_PERIOD_MS, TARGET_PERIOD_MS};

verus! {

/// The timer resolutions reported by the system, in units of 100 ns.
#[derive(Clone, Copy, Debug, PartialEq, Eq, Structural)]
pub struct Resolution {
    pub current: u32,
    pub minimum: u32,
    pub maximum: u32,
}

/// What a completed measurement found: the number of sleep samples taken, the
/// sum of their lengths in counter ticks, the counter's frequency in ticks per
/// second, and the last resolution observed.
#[derive(Clone, Copy, Debug, PartialEq, Eq, Structural)]
pub struct Average {
    pub samples: u32,
    pub total_ticks: i128,
    pub frequency: i64,
    pub resolution: Resolution,
}

/// What is shown to the user at the end of an action.
#[derive(Clone, Copy, Debug, PartialEq, Eq, Structural)]
pub enum Report {
    /// A period was requested, by the branch of the policy given.
    SetApplied(SetOutcome),
    /// The timer capabilities could not be read.
    SetFailed,
    /// The system rejected the request for the period of the given branch.
    SetRejected(SetOutcome),
    /// The default period was requested successfully.
    ResetDone,
    /// The request for the default period failed.
    ResetFailed,
    /// The system library could not be loaded.
    LoadFailed,
    /// The resolution entry point is missing from the system library.
    EntryMissing,
    /// The high-resolution counter's frequency could not be read.
    FrequencyFailed,
    /// A query of the current resolution failed during the measurement.
    ResolutionFailed,
    /// The measurement completed.
    Average(Average),
    /// The menu input named no action.
    InvalidOption,
}

/// The operating-system call, or user interaction, that is due next.
#[derive(Clone, Copy, Debug, PartialEq, Eq, Structural)]
pub enum Command {
    /// Create the named instance lock: answer with `Event::Lock`.
    AcquireLock,
    /// Query the process token: answer with `Event::Elevation`.
    CheckElevation,
    /// Tell the user that another instance runs, wait for Enter, then end.
    RefuseRunning,
    /// Tell the user to restart elevated, wait for Enter, then end.
    RefuseUnelevated,
    /// Clear the screen, show the menu and read one line: answer with
    /// `Event::Choice`, or `Event::InputFailed` when no line can be read.
    ShowMenu,
    /// Read the timer capabilities: `Event::CapsRead` or `Event::CapsFailed`.
    QueryCaps,
    /// Begin a timer period of the given milliseconds: `Event::PeriodStatus`.
    BeginPeriod(u32),
    /// End a timer period of the given milliseconds: `Event::Done`.
    EndPeriod(u32),
    /// Load the system library: `Event::Loaded`.
    LoadLibrary,
    /// Look up the resolution entry point in it: `Event::Resolved`.
    ResolveEntry,
    /// Read the counter's frequency: `Event::FrequencyRead` or
    /// `Event::FrequencyFailed`.
    QueryFrequency,
    /// Query the resolutions: `Event::ResolutionRead` or
    /// `Event::ResolutionFailed`.
    QueryResolution,
    /// Sample the counter, sleep one millisecond, sample it again:
    /// `Event::Sampled`.
    SampleSleep,
    /// Unload the system library: `Event::Done`.
    FreeLibrary,
    /// Show the report, then wait for Enter: `Event::Done`.
    ReportAndPause(Report),
    /// Say goodbye, release the instance lock and end.
    Close,
    /// End without a word.
    Exit,
}

/// The result of the last command.
#[derive(Clone, Copy, Debug, PartialEq, Eq, Structural)]
pub enum Event {
    Lock { created: bool, already_existed: bool },
    Elevation { token_opened: bool, queried: bool, token_is_elevated: u32 },
    Choice(MenuChoice),
    InputFailed,
    CapsRead(TimerCaps),
    CapsFailed,
    PeriodStatus(bool),
    Done,
    Loaded(bool),
    Resolved(bool),
    FrequencyRead(i64),
    FrequencyFailed,
    ResolutionRead(Resolution),
    ResolutionFailed,
    Sampled { start: i64, end: i64 },
}

/// Where the session stands.
#[derive(Clone, Copy, Debug, PartialEq, Eq, Structural)]
pub enum Phase {
    Locking,
    Elevating,
    RefusingRunning,
    RefusingUnelevated,
    Menu,
    Reporting(Report),
    SetQuerying,
    SetRequesting(SetOutcome),
    ResetEnding,
    ResetBeginning,
    Loading,
    Resolving,
    Frequency,
    Querying,
    Sampling,
    FinalQuery,
    Freeing(Report),
    Closing,
    Exited,
}

/// The state of one run of the tool.
#[derive(Clone, Copy, Debug, PartialEq, Eq, Structural)]
pub struct Session {
    pub phase: Phase,
    /// Sleep samples that one measurement takes.
    pub rounds: u32,
    /// Samples taken so far in the current measurement.
    pub done: u32,
    /// Sum of the samples taken so far, in counter ticks.
    pub total_ticks: i128,
    /// The counter's frequency, in ticks per second.
    pub frequency: i64,
    /// The resolution seen by the latest successful query.
    pub last: Resolution,
    /// Whether the system library is loaded.
    pub library_loaded: bool,
}

/// The largest magnitude that `n` sample lengths can sum to.
pub open spec fn ticks_bound(n: int) -> int {
    n * 0x1_0000_0000_0000_0000
}

/// Whether the system library is held in `phase`.
pub open spec fn holds_library(phase: Phase) -> bool {
    match phase {
        Phase::Resolving | Phase::Frequency | Phase::Querying | Phase::Sampling
        | Phase::FinalQuery | Phase::Freeing(_) => true,
        _ => false,
    }
}

/// Whether `c` changes the system's timer period.
pub open spec fn is_timer_call(c: Command) -> bool {
    c is BeginPeriod || c is EndPeriod
}

impl Session {
    /// The invariant that every reachable session keeps.
    pub open spec fn wf(self) -> bool {
        &&& self.done <= self.rounds
        &&& -ticks_bound(self.done as int) <= self.total_ticks <= ticks_bound(self.done as int)
        &&& self.library_loaded == holds_library(self.phase)
        &&& (self.phase is Querying || self.phase is Sampling) ==> self.done < self.rounds
        &&& self.phase is FinalQuery ==> self.done == self.rounds
        &&& (self.phase is Querying || self.phase is Sampling || self.phase is FinalQuery)
            ==> self.frequency > 0
        &&& match self.phase {
            Phase::Freeing(Report::Average(a)) => a.samples == self.rounds,
            Phase::Reporting(Report::Average(a)) => a.samples == self.rounds,
            _ => true,
        }
    }

    /// A session that has not yet taken the instance lock, and whose
    /// measurements take `rounds` samples.
    pub open spec fn initial(rounds: u32) -> Session {
        Session {
            phase: Phase::Locking,
            rounds,
            done: 0,
            total_ticks: 0,
            frequency: 0,
            last: Resolution { current: 0, minimum: 0, maximum: 0 },
            library_loaded: false,
        }
    }

    /// The call that is due in this state.
    pub open spec fn command_of(self) -> Command {
        match self.phase {
            Phase::Locking => Command::AcquireLock,
            Phase::Elevating => Command::CheckElevation,
            Phase::RefusingRunning => Command::RefuseRunning,
            Phase::RefusingUnelevated => Command::RefuseUnelevated,
            Phase::Menu => Command::ShowMenu,
            Phase::Reporting(r) => Command::ReportAndPause(r),
            Phase::SetQuerying => Command::QueryCaps,
            Phase::SetRequesting(o) => Command::BeginPeriod(o.spec_period()),
            Phase::ResetEnding => Command::EndPeriod(TARGET_PERIOD_MS),
            Phase::ResetBeginning => Command::BeginPeriod(DEFAULT_PERIOD_MS),
            Phase::Loading => Command::LoadLibrary,
            Phase::Resolving => Command::ResolveEntry,
            Phase::Frequency => Command::QueryFrequency,
            Phase::Querying => Command::QueryResolution,
            Phase::Sampling => Command::SampleSleep,
            Phase::FinalQuery => Command::QueryResolution,
            Phase::Freeing(_) => Command::FreeLibrary,
            Phase::Closing => Command::Close,
            Phase::Exited => Command::Exit,
        }
    }

    /// This session moved to `phase`.
    pub open spec fn with_phase(self, phase: Phase) -> Session {
        Session { phase, library_loaded: holds_library(phase), ..self }
    }

    /// The state after `e` answers the command due in this state. An event
    /// that does not answer it leaves the state as it is, except where the
    /// command has no result to wait for.
    pub open spec fn next(self, e: Event) -> Session {
        match self.phase {
            Phase::Locking => match e {
                Event::Lock { created, already_existed } => self.with_phase(
                    if created && !already_existed {
                        Phase::Elevating
                    } else {
                        Phase::RefusingRunning
                    },
                ),
                _ => self,
            },
            Phase::Elevating => match e {
                Event::Elevation { token_opened, queried, token_is_elevated } => self.with_phase(
                    if token_opened && queried && token_is_elevated != 0 {
                        Phase::Menu
                    } else {
                        Phase::RefusingUnelevated
                    },
                ),
                _ => self,
            },
            Phase::RefusingRunning | Phase::RefusingUnelevated => self.with_phase(Phase::Exited),
            Phase::Menu => match e {
                Event::Choice(c) => match c {
                    MenuChoice::SetCustom => self.with_phase(Phase::SetQuerying),
                    MenuChoice::Measure => self.with_phase(Phase::Loading),
                    MenuChoice::Exit => self.with_phase(Phase::Closing),
                    MenuChoice::Reset => self.with_phase(Phase::ResetEnding),
                    MenuChoice::Invalid => self.with_phase(
                        Phase::Reporting(Report::InvalidOption),
                    ),
                },
                Event::InputFailed => self.with_phase(Phase::Exited),
                _ => self,
            },
            Phase::Reporting(_) => self.with_phase(Phase::Menu),
            Phase::SetQuerying => match e {
                Event::CapsRead(caps) => self.with_phase(
                    Phase::SetRequesting(plan_of(TARGET_PERIOD_MS, caps)),
                ),
                Event::CapsFailed => self.with_phase(Phase::Reporting(Report::SetFailed)),
                _ => self,
            },
            Phase::SetRequesting(o) => match e {
                Event::PeriodStatus(ok) => self.with_phase(
                    Phase::Reporting(
                        if ok {
                            Report::SetApplied(o)
                        } else {
                            Report::SetRejected(o)
                        },
                    ),
                ),
                _ => self,
            },
            Phase::ResetEnding => self.with_phase(Phase::ResetBeginning),
            Phase::ResetBeginning => match e {
                Event::PeriodStatus(ok) => self.with_phase(
                    Phase::Reporting(
                        if ok {
                            Report::ResetDone
                        } else {
                            Report::ResetFailed
                        },
                    ),
                ),
                _ => self,
            },
            Phase::Loading => match e {
                Event::Loaded(ok) => self.with_phase(
                    if ok {
                        Phase::Resolving
                    } else {
                        Phase::Reporting(Report::LoadFailed)
                    },
                ),
                _ => self,
            },
            Phase::Resolving => match e {
                Event::Resolved(ok) => self.with_phase(
                    if ok {
                        Phase::Frequency
                    } else {
                        Phase::Freeing(Report::EntryMissing)
                    },
                ),
                _ => self,
            },
            Phase::Frequency => match e {
                Event::FrequencyRead(f) => if f > 0 {
                    Session {
                        done: 0,
                        total_ticks: 0,
                        frequency: f,
                        ..self.with_phase(
                            if self.rounds == 0 {
                                Phase::FinalQuery
                            } else {
                                Phase::Querying
                            },
                        )
                    }
                } else {
                    self.with_phase(Phase::Freeing(Report::FrequencyFailed))
                },
                Event::FrequencyFailed => self.with_phase(
                    Phase::Freeing(Report::FrequencyFailed),
                ),
                _ => self,
            },
            Phase::Querying => match e {
                Event::ResolutionRead(r) => Session { last: r, ..self.with_phase(Phase::Sampling) },
                Event::ResolutionFailed => self.with_phase(
                    Phase::Freeing(Report::ResolutionFailed),
                ),
                _ => self,
            },
            Phase::Sampling => match e {
                Event::Sampled { start, end } => Session {
                    done: (self.done + 1) as u32,
                    total_ticks: (self.total_ticks + (end - start)) as i128,
                    ..self.with_phase(
                        if self.done + 1 == self.rounds {
                            Phase::FinalQuery
                        } else {
                            Phase::Querying
                        },
                    )
                },
                _ => self,
            },
            Phase::FinalQuery => match e {
                Event::ResolutionRead(r) => Session {
                    last: r,
                    ..self.with_phase(Phase::Freeing(Report::Average(self.average_with(r))))
                },
                Event::ResolutionFailed => self.with_phase(
                    Phase::Freeing(Report::Average(self.average_with(self.last))),
                ),
                _ => self,
            },
            Phase::Freeing(r) => self.with_phase(Phase::Reporting(r)),
            Phase::Closing | Phase::Exited => self,
        }
    }

    /// The report of the measurement taken so far, with resolution `r`.
    pub open spec fn average_with(self, r: Resolution) -> Average {
        Average {
            samples: self.done,
            total_ticks: self.total_ticks,
            frequency: self.frequency,
            resolution: r,
        }
    }
}


impl Session {
    /// A session that has not yet taken the instance lock, and whose
    /// measurements take `rounds` samples.
    pub fn new(rounds: u32) -> (r: Session)
        ensures
            r == Session::initial(rounds),
            r.wf(),
    {
        Session {
            phase: Phase::Locking,
            rounds,
            done: 0,
            total_ticks: 0,
            frequency: 0,
            last: Resolution { current: 0, minimum: 0, maximum: 0 },
            library_loaded: false,
        }
    }

    /// Whether this session keeps the invariant that `step` needs.
    pub fn is_well_formed(&self) -> (r: bool)
        ensures
            r == self.wf(),
    {
        let bound: i128 = self.done as i128 * 0x1_0000_0000_0000_0000i128;
        let holds = match self.phase {
            Phase::Resolving | Phase::Frequency | Phase::Querying | Phase::Sampling
            | Phase::FinalQuery | Phase::Freeing(_) => true,
            _ => false,
        };
        let sampling = match self.phase {
            Phase::Querying | Phase::Sampling => true,
            _ => false,
        };
        let finishing = match self.phase {
            Phase::FinalQuery => true,
            _ => false,
        };
        let samples_ok = match self.phase {
            Phase::Freeing(Report::Average(a)) => a.samples == self.rounds,
            Phase::Reporting(Report::Average(a)) => a.samples == self.rounds,
            _ => true,
        };
        self.done <= self.rounds && -bound <= self.total_ticks && self.total_ticks <= bound
            && self.library_loaded == holds && (!sampling || self.done < self.rounds) && (
        !finishing || self.done == self.rounds) && (!(sampling || finishing) || self.frequency
            > 0) && samples_ok
    }

    /// The call that is due in this state.
    pub fn command(&self) -> (r: Command)
        ensures
            r == self.command_of(),
    {
        match self.phase {
            Phase::Locking => Command::AcquireLock,
            Phase::Elevating => Command::CheckElevation,
            Phase::RefusingRunning => Command::RefuseRunning,
            Phase::RefusingUnelevated => Command::RefuseUnelevated,
            Phase::Menu => Command::ShowMenu,
            Phase::Reporting(r) => Command::ReportAndPause(r),
            Phase::SetQuerying => Command::QueryCaps,
            Phase::SetRequesting(o) => Command::BeginPeriod(o.period()),
            Phase::ResetEnding => Command::EndPeriod(TARGET_PERIOD_MS),
            Phase::ResetBeginning => Command::BeginPeriod(DEFAULT_PERIOD_MS),
            Phase::Loading => Command::LoadLibrary,
            Phase::Resolving => Command::ResolveEntry,
            Phase::Frequency => Command::QueryFrequency,
            Phase::Querying => Command::QueryResolution,
            Phase::Sampling => Command::SampleSleep,
            Phase::FinalQuery => Command::QueryResolution,
            Phase::Freeing(_) => Command::FreeLibrary,
            Phase::Closing => Command::Close,
            Phase::Exited => Command::Exit,
        }
    }

    fn move_to(&mut self, phase: Phase)
        ensures
            *final(self) == old(self).with_phase(phase),
    {
        self.phase = phase;
        self.library_loaded = match phase {
            Phase::Resolving | Phase::Frequency | Phase::Querying | Phase::Sampling
            | Phase::FinalQuery | Phase::Freeing(_) => true,
            _ => false,
        };
    }

    /// Takes in the result of the command that was due.
    pub fn step(&mut self, e: Event)
        requires
            old(self).wf(),
        ensures
            *final(self) == old(self).next(e),
            final(self).wf(),
    {
        match self.phase {
            Phase::Locking => if let Event::Lock { created, already_existed } = e {
                if instance_acquired(created, already_existed) {
                    self.move_to(Phase::Elevating);
                } else {
                    self.move_to(Phase::RefusingRunning);
                }
            },
            Phase::Elevating => if let Event::Elevation { token_opened, queried, token_is_elevated } = e {
                if elevated_from_token(token_opened, queried, token_is_elevated) {
                    self.move_to(Phase::Menu);
                } else {
                    self.move_to(Phase::RefusingUnelevated);
                }
            },
            Phase::RefusingRunning | Phase::RefusingUnelevated => self.move_to(Phase::Exited),
            Phase::Menu => match e {
                Event::Choice(c) => match c {
                    MenuChoice::SetCustom => self.move_to(Phase::SetQuerying),
                    MenuChoice::Measure => self.move_to(Phase::Loading),
                    MenuChoice::Exit => self.move_to(Phase::Closing),
                    MenuChoice::Reset => self.move_to(Phase::ResetEnding),
                    MenuChoice::Invalid => self.move_to(Phase::Reporting(Report::InvalidOption)),
                },
                Event::InputFailed => self.move_to(Phase::Exited),
                _ => {},
            },
            Phase::Reporting(_) => self.move_to(Phase::Menu),
            Phase::SetQuerying => match e {
                Event::CapsRead(caps) => {
                    let o = plan_set_period(TARGET_PERIOD_MS, caps);
                    self.move_to(Phase::SetRequesting(o));
                },
                Event::CapsFailed => self.move_to(Phase::Reporting(Report::SetFailed)),
                _ => {},
            },
            Phase::SetRequesting(o) => if let Event::PeriodStatus(ok) = e {
                if ok {
                    self.move_to(Phase::Reporting(Report::SetApplied(o)));
                } else {
                    self.move_to(Phase::Reporting(Report::SetRejected(o)));
                }
            },
            Phase::ResetEnding => self.move_to(Phase::ResetBeginning),
            Phase::ResetBeginning => if let Event::PeriodStatus(ok) = e {
                if ok {
                    self.move_to(Phase::Reporting(Report::ResetDone));
                } else {
                    self.move_to(Phase::Reporting(Report::ResetFailed));
                }
            },
            Phase::Loading => if let Event::Loaded(ok) = e {
                if ok {
                    self.move_to(Phase::Resolving);
                } else {
                    self.move_to(Phase::Reporting(Report::LoadFailed));
                }
            },
            Phase::Resolving => if let Event::Resolved(ok) = e {
                if ok {
                    self.move_to(Phase::Frequency);
                } else {
                    self.move_to(Phase::Freeing(Report::EntryMissing));
                }
            },
            Phase::Frequency => match e {
                Event::FrequencyRead(f) => {
                    if f > 0 {
                        if self.rounds == 0 {
                            self.move_to(Phase::FinalQuery);
                        } else {
                            self.move_to(Phase::Querying);
                        }
                        self.done = 0;
                        self.total_ticks = 0;
                        self.frequency = f;
                    } else {
                        self.move_to(Phase::Freeing(Report::FrequencyFailed));
                    }
                },
                Event::FrequencyFailed => self.move_to(Phase::Freeing(Report::FrequencyFailed)),
                _ => {},
            },
            Phase::Querying => match e {
                Event::ResolutionRead(r) => {
                    self.move_to(Phase::Sampling);
                    self.last = r;
                },
                Event::ResolutionFailed => self.move_to(Phase::Freeing(Report::ResolutionFailed)),
                _ => {},
            },
            Phase::Sampling => if let Event::Sampled { start, end } = e {
                let elapsed: i128 = end as i128 - start as i128;
                let done: u32 = self.done + 1;
                if done == self.rounds {
                    self.move_to(Phase::FinalQuery);
                } else {
                    self.move_to(Phase::Querying);
                }
                self.done = done;
                self.total_ticks = self.total_ticks + elapsed;
            },
            Phase::FinalQuery => match e {
                Event::ResolutionRead(r) => {
                    let a = self.average(r);
                    self.move_to(Phase::Freeing(Report::Average(a)));
                    self.last = r;
                },
                Event::ResolutionFailed => {
                    let a = self.average(self.last);
                    self.move_to(Phase::Freeing(Report::Average(a)));
                },
                _ => {},
            },
            Phase::Freeing(r) => self.move_to(Phase::Reporting(r)),
            Phase::Closing | Phase::Exited => {},
        }
    }

    fn average(&self, r: Resolution) -> (a: Average)
        ensures
            a == self.average_with(r),
    {
        Average {
            samples: self.done,
            total_ticks: self.total_ticks,
            frequency: self.frequency,
            resolution: r,
        }
    }
}

/// The state reached from `s` by the events `es`, in order.
pub open spec fn run(s: Session, es: Seq<Event>) -> Session
    decreases es.len(),
{
    if es.len() == 0 {
        s
    } else {
        run(s.next(es[0]), es.drop_first())
    }
}

/// A step keeps the invariant and the number of rounds per measurement.
pub proof fn lemma_next_keeps_wf(s: Session, e: Event)
    requires
        s.wf(),
    ensures
        s.next(e).wf(),
        s.next(e).rounds == s.rounds,
{
}

/// Any sequence of events keeps the invariant and the number of rounds per
/// measurement.
pub proof fn lemma_run_keeps_wf(s: Session, es: Seq<Event>)
    requires
        s.wf(),
    ensures
        run(s, es).wf(),
        run(s, es).rounds == s.rounds,
    decreases es.len(),
{
    if es.len() > 0 {
        lemma_next_keeps_wf(s, es[0]);
        lemma_run_keeps_wf(s.next(es[0]), es.drop_first());
    }
}

proof fn lemma_refused_stays(s: Session, es: Seq<Event>)
    requires
        s.phase is RefusingRunning || s.phase is Exited,
    ensures
        run(s, es).phase is RefusingRunning || run(s, es).phase is Exited,
    decreases es.len(),
{
    if es.len() > 0 {
        lemma_refused_stays(s.next(es[0]), es.drop_first());
    }
}

/// When the instance lock already existed, the session refuses to run and,
/// whatever happens after, never asks for a timer period to begin or end.
pub proof fn lemma_second_instance_refused(rounds: u32, created: bool, es: Seq<Event>)
    ensures
        ({
            let s = Session::initial(rounds).next(
                Event::Lock { created, already_existed: true },
            );
            &&& s.command_of() == Command::RefuseRunning
            &&& forall|i: int|
                0 <= i <= es.len() ==> !is_timer_call(#[trigger] run(s, es.take(i)).command_of())
        }),
{
    let s = Session::initial(rounds).next(Event::Lock { created, already_existed: true });
    assert forall|i: int| 0 <= i <= es.len() implies !is_timer_call(
        #[trigger] run(s, es.take(i)).command_of(),
    ) by {
        lemma_refused_stays(s, es.take(i));
    }
}

/// Every completed measurement reports exactly as many samples as the
/// session's measurements take, whatever events led there.
pub proof fn lemma_average_over_rounds(s: Session, es: Seq<Event>)
    requires
        s.wf(),
    ensures
        match run(s, es).phase {
            Phase::Freeing(Report::Average(a)) => a.samples == s.rounds,
            Phase::Reporting(Report::Average(a)) => a.samples == s.rounds,
            _ => true,
        },
{
    lemma_run_keeps_wf(s, es);
}

/// A failed resolution query during a measurement reports no average: the
/// library is unloaded once, the failure is shown, and the menu comes back.
pub proof fn lemma_failed_query_frees_once(s: Session, e1: Event, e2: Event)
    requires
        s.wf(),
        s.phase is Querying,
    ensures
        ({
            let f = s.next(Event::ResolutionFailed);
            let r = f.next(e1);
            &&& f.command_of() == Command::FreeLibrary
            &&& f.library_loaded
            &&& r.command_of() == Command::ReportAndPause(Report::ResolutionFailed)
            &&& !r.library_loaded
            &&& r.next(e2).phase is Menu
            &&& !r.next(e2).library_loaded
        }),
{
}

/// The library is unloaded only while it is loaded, and after the unload the
/// next command unloads nothing; at the menu and at the end it is not loaded.
pub proof fn lemma_free_library_once(s: Session, e: Event)
    requires
        s.wf(),
    ensures
        s.command_of() == Command::FreeLibrary ==> s.library_loaded
            && !s.next(e).library_loaded && s.next(e).command_of() != Command::FreeLibrary,
        (s.phase is Menu || s.phase is Closing || s.phase is Exited) ==> !s.library_loaded,
{
}

/// From the menu, in any state, a reset ends the target period before it
/// begins the default one.
pub proof fn lemma_reset_ends_before_begin(s: Session, e: Event)
    requires
        s.phase is Menu,
    ensures
        s.next(Event::Choice(MenuChoice::Reset)).command_of() == Command::EndPeriod(
            TARGET_PERIOD_MS,
        ),
        s.next(Event::Choice(MenuChoice::Reset)).next(e).command_of() == Command::BeginPeriod(
            DEFAULT_PERIOD_MS,
        ),
{
}

/// An invalid menu choice shows the one invalid-option report, makes no
/// timer call, and returns to the menu.
pub proof fn lemma_invalid_choice_returns(s: Session, e: Event)
    requires
        s.phase is Menu,
    ensures
        s.next(Event::Choice(MenuChoice::Invalid)).command_of() == Command::ReportAndPause(
            Report::InvalidOption,
        ),
        s.next(Event::Choice(MenuChoice::Invalid)).next(e).phase is Menu,
        s.next(Event::Choice(MenuChoice::Invalid)).next(e).library_loaded == false,
{
}

/// Once the capabilities are read, the period requested is the target brought
/// into the supported range, and the report names the branch taken and
/// whether the system accepted the request.
pub proof fn lemma_set_requests_clamp(s: Session, caps: TimerCaps, e: Event)
    requires
        s.phase is SetQuerying,
        caps.min_period <= caps.max_period,
    ensures
        s.next(Event::CapsRead(caps)).command_of() == Command::BeginPeriod(
            clamp(
                TARGET_PERIOD_MS as int,
                caps.min_period as int,
                caps.max_period as int,
            ) as u32,
        ),
        s.next(Event::CapsRead(caps)).next(Event::PeriodStatus(true)).command_of()
            == Command::ReportAndPause(Report::SetApplied(plan_of(TARGET_PERIOD_MS, caps))),
        s.next(Event::CapsRead(caps)).next(Event::PeriodStatus(false)).command_of()
            == Command::ReportAndPause(Report::SetRejected(plan_of(TARGET_PERIOD_MS, caps))),
{
    crate::period::lemma_set_period_clamps(TARGET_PERIOD_MS, caps);
}

/// From the menu, choosing to set the period, then to reset it, then to
/// close makes exactly one request for the clamped target, one end of the
/// target period followed by one request for the default, and closes with
/// the library unloaded, whatever the capabilities and request results.
pub proof fn lemma_set_reset_close(s: Session, caps: TimerCaps, set_ok: bool, reset_ok: bool)
    requires
        s.wf(),
        s.phase is Menu,
        caps.min_period <= caps.max_period,
    ensures
        ({
            let s1 = s.next(Event::Choice(MenuChoice::SetCustom));
            let s2 = s1.next(Event::CapsRead(caps));
            let s3 = s2.next(Event::PeriodStatus(set_ok));
            let s4 = s3.next(Event::Done);
            let s5 = s4.next(Event::Choice(MenuChoice::Reset));
            let s6 = s5.next(Event::Done);
            let s7 = s6.next(Event::PeriodStatus(reset_ok));
            let s8 = s7.next(Event::Done);
            let s9 = s8.next(Event::Choice(MenuChoice::Exit));
            &&& s1.command_of() == Command::QueryCaps
            &&& s2.command_of() == Command::BeginPeriod(
                clamp(
                    TARGET_PERIOD_MS as int,
                    caps.min_period as int,
                    caps.max_period as int,
                ) as u32,
            )
            &&& s3.command_of() == Command::ReportAndPause(
                if set_ok {
                    Report::SetApplied(plan_of(TARGET_PERIOD_MS, caps))
                } else {
                    Report::SetRejected(plan_of(TARGET_PERIOD_MS, caps))
                },
            )
            &&& s4.command_of() == Command::ShowMenu
            &&& s5.command_of() == Command::EndPeriod(TARGET_PERIOD_MS)
            &&& s6.command_of() == Command::BeginPeriod(DEFAULT_PERIOD_MS)
            &&& s7.command_of() == Command::ReportAndPause(
                if reset_ok {
                    Report::ResetDone
                } else {
                    Report::ResetFailed
                },
            )
            &&& s8.command_of() == Command::ShowMenu
            &&& s9.command_of() == Command::Close
            &&& !s9.library_loaded
        }),
{
    crate::period::lemma_set_period_clamps(TARGET_PERIOD_MS, caps);
}

/// One round of a measurement as the system answers it: the resolution read,
/// then the counter before and after the sleep.
pub struct Round {
    pub resolution: Resolution,
    pub start: i64,
    pub end: i64,
}

/// The events that answer the rounds `xs`, in order: a resolution read, then
/// a sample, for each round.
pub open spec fn round_events(xs: Seq<Round>) -> Seq<Event>
    decreases xs.len(),
{
    if xs.len() == 0 {
        Seq::empty()
    } else {
        seq![
            Event::ResolutionRead(xs[0].resolution),
            Event::Sampled { start: xs[0].start, end: xs[0].end },
        ] + round_events(xs.drop_first())
    }
}

/// The sum of the lengths, in ticks, of the rounds `xs`.
pub open spec fn ticks_sum(xs: Seq<Round>) -> int
    decreases xs.len(),
{
    if xs.len() == 0 {
        0
    } else {
        (xs[0].end - xs[0].start) + ticks_sum(xs.drop_first())
    }
}

/// Events taken one after another lead where their concatenation leads.
pub proof fn lemma_run_concat(s: Session, a: Seq<Event>, b: Seq<Event>)
    ensures
        run(s, a + b) == run(run(s, a), b),
    decreases a.len(),
{
    if a.len() == 0 {
        assert(a + b =~= b);
    } else {
        assert((a + b).drop_first() =~= a.drop_first() + b);
        assert((a + b)[0] == a[0]);
        lemma_run_concat(s.next(a[0]), a.drop_first(), b);
    }
}

proof fn lemma_round_events_len(xs: Seq<Round>)
    ensures
        round_events(xs).len() == 2 * xs.len(),
    decreases xs.len(),
{
    if xs.len() > 0 {
        lemma_round_events_len(xs.drop_first());
    }
}

/// Answered rounds from inside a measurement: each round asks first for a
/// resolution query and then for one sleep sample, each sample is counted and
/// added to the tick total, and after the last round the final query is due.
pub proof fn lemma_rounds(s: Session, xs: Seq<Round>)
    requires
        s.wf(),
        s.phase is Querying,
        xs.len() <= s.rounds - s.done,
    ensures
        ({
            let t = run(s, round_events(xs));
            &&& t.wf()
            &&& t.rounds == s.rounds
            &&& t.done == s.done + xs.len()
            &&& t.total_ticks == s.total_ticks + ticks_sum(xs)
            &&& t.frequency == s.frequency
            &&& t.library_loaded
            &&& t.phase == (if s.done + xs.len() == s.rounds {
                Phase::FinalQuery
            } else {
                Phase::Querying
            })
        }),
        forall|i: int|
            0 <= i < xs.len() ==> #[trigger] run(s, round_events(xs).take(2 * i)).command_of()
                == Command::QueryResolution && run(s, round_events(xs).take(2 * i + 1)).command_of()
                == Command::SampleSleep,
    decreases xs.len(),
{
    if xs.len() > 0 {
        let evs = round_events(xs);
        let e0 = Event::ResolutionRead(xs[0].resolution);
        let e1 = Event::Sampled { start: xs[0].start, end: xs[0].end };
        let s2 = s.next(e0).next(e1);
        let rest = round_events(xs.drop_first());
        lemma_round_events_len(xs.drop_first());
        lemma_next_keeps_wf(s, e0);
        lemma_next_keeps_wf(s.next(e0), e1);
        assert(evs =~= seq![e0, e1] + rest);
        assert(seq![e0, e1].drop_first() =~= seq![e1]);
        assert(seq![e1].drop_first() =~= Seq::<Event>::empty());
        assert(run(s, seq![e0, e1]) == s2) by {
            assert(run(s.next(e0), seq![e1]) == run(s2, Seq::<Event>::empty()));
        }
        lemma_run_concat(s, seq![e0, e1], rest);
        if s2.phase is Querying {
            lemma_rounds(s2, xs.drop_first());
        } else {
            assert(xs.drop_first().len() == 0);
            assert(rest =~= Seq::<Event>::empty());
        }
        assert forall|i: int| 0 <= i < xs.len() implies #[trigger] run(
            s,
            evs.take(2 * i),
        ).command_of() == Command::QueryResolution && run(s, evs.take(2 * i + 1)).command_of()
            == Command::SampleSleep by {
            if i == 0 {
                assert(evs.take(0) =~= Seq::<Event>::empty());
                assert(evs.take(1) =~= seq![e0]);
                assert(seq![e0].drop_first() =~= Seq::<Event>::empty());
                assert(run(s, evs.take(0)) == s);
                assert(run(s, evs.take(1)) == run(s.next(e0), Seq::<Event>::empty()));
            } else {
                assert(evs.take(2 * i) =~= seq![e0, e1] + rest.take(2 * (i - 1)));
                assert(evs.take(2 * i + 1) =~= seq![e0, e1] + rest.take(2 * (i - 1) + 1));
                lemma_run_concat(s, seq![e0, e1], rest.take(2 * (i - 1)));
                lemma_run_concat(s, seq![e0, e1], rest.take(2 * (i - 1) + 1));
                assert(run(s2, rest.take(2 * (i - 1))).command_of() == Command::QueryResolution);
                assert(run(s2, rest.take(2 * (i - 1) + 1)).command_of() == Command::SampleSleep);
                assert(run(s, evs.take(2 * i)).command_of() == Command::QueryResolution);
            }
        }
    } else {
        assert(round_events(xs) =~= Seq::<Event>::empty());
    }
}

/// The session after the menu's measure choice, a loaded library, a found
/// entry point and a counter frequency `f`.
pub open spec fn measuring(s: Session, f: i64) -> Session {
    s.next(Event::Choice(MenuChoice::Measure)).next(Event::Loaded(true)).next(
        Event::Resolved(true),
    ).next(Event::FrequencyRead(f))
}

/// A measurement whose every query succeeds asks, for each of its rounds, for
/// one resolution query and then one sleep sample, then for one final query;
/// it reports the mean of exactly as many samples as it takes rounds, with
/// their exact tick sum, after unloading the library once.
pub proof fn lemma_measure_completes(s: Session, f: i64, xs: Seq<Round>, r: Resolution, e: Event)
    requires
        s.wf(),
        s.phase is Menu,
        f > 0,
        xs.len() == s.rounds,
    ensures
        ({
            let m = measuring(s, f);
            let q = run(m, round_events(xs));
            let t = q.next(Event::ResolutionRead(r));
            let a = Average {
                samples: s.rounds,
                total_ticks: ticks_sum(xs) as i128,
                frequency: f,
                resolution: r,
            };
            &&& s.next(Event::Choice(MenuChoice::Measure)).command_of() == Command::LoadLibrary
            &&& m.library_loaded
            &&& (forall|i: int|
                0 <= i < xs.len() ==> #[trigger] run(m, round_events(xs).take(2 * i)).command_of()
                    == Command::QueryResolution && run(
                    m,
                    round_events(xs).take(2 * i + 1),
                ).command_of() == Command::SampleSleep)
            &&& q.command_of() == Command::QueryResolution
            &&& t.command_of() == Command::FreeLibrary
            &&& t.next(e).command_of() == Command::ReportAndPause(Report::Average(a))
            &&& !t.next(e).library_loaded
        }),
{
    let m = measuring(s, f);
    assert(m.wf()) by {
        lemma_next_keeps_wf(s, Event::Choice(MenuChoice::Measure));
        lemma_next_keeps_wf(s.next(Event::Choice(MenuChoice::Measure)), Event::Loaded(true));
        lemma_next_keeps_wf(
            s.next(Event::Choice(MenuChoice::Measure)).next(Event::Loaded(true)),
            Event::Resolved(true),
        );
    }
    if s.rounds == 0 {
        assert(round_events(xs) =~= Seq::<Event>::empty());
    } else {
        lemma_rounds(m, xs);
    }
}

/// A measurement whose query fails on a round, after as many answered rounds
/// as `xs` holds, stops there: no sample follows, no average is reported, the
/// library is unloaded once, the failure is shown and the menu comes back.
pub proof fn lemma_measure_aborts(s: Session, f: i64, xs: Seq<Round>, e1: Event, e2: Event)
    requires
        s.wf(),
        s.phase is Menu,
        f > 0,
        xs.len() < s.rounds,
    ensures
        ({
            let m = measuring(s, f);
            let q = run(m, round_events(xs));
            let t = q.next(Event::ResolutionFailed);
            &&& (forall|i: int|
                0 <= i < xs.len() ==> #[trigger] run(m, round_events(xs).take(2 * i)).command_of()
                    == Command::QueryResolution && run(
                    m,
                    round_events(xs).take(2 * i + 1),
                ).command_of() == Command::SampleSleep)
            &&& q.command_of() == Command::QueryResolution
            &&& q.library_loaded
            &&& t.command_of() == Command::FreeLibrary
            &&& t.next(e1).command_of() == Command::ReportAndPause(Report::ResolutionFailed)
            &&& !t.next(e1).library_loaded
            &&& t.next(e1).next(e2).phase is Menu
        }),
{
    let m = measuring(s, f);
    assert(m.wf()) by {
        lemma_next_keeps_wf(s, Event::Choice(MenuChoice::Measure));
        lemma_next_keeps_wf(s.next(Event::Choice(MenuChoice::Measure)), Event::Loaded(true));
        lemma_next_keeps_wf(
            s.next(Event::Choice(MenuChoice::Measure)).next(Event::Loaded(true)),
            Event::Resolved(true),
        );
    }
    lemma_rounds(m, xs);
}

/// From any state, whatever came before: the reset's request for the default
/// period is entered only from the end of the target period, and that end only
/// from the menu's reset choice. So no request for the default period by a
/// reset comes without an end of the target period just before it.
pub proof fn lemma_reset_entered_only_after_end(s: Session, e: Event)
    ensures
        s.next(e).phase is ResetBeginning ==> s.phase is ResetEnding || s.phase
            is ResetBeginning,
        s.next(e).phase is ResetEnding ==> s.phase is Menu && e == Event::Choice(
            MenuChoice::Reset,
        ),
        s.phase is ResetEnding ==> s.next(e).command_of() == Command::BeginPeriod(
            DEFAULT_PERIOD_MS,
        ),
{
}

} // verus!
