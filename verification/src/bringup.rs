//! Bring-up sequencing: the strict order that takes the processor from reset
//! to the steady state.
//!
//! The sequencer is the decision half of the boot path. The surrounding
//! runtime performs each hardware step (installing exception handlers,
//! enabling memory protection and caching, discovering drivers, initializing
//! them) and reports its outcome; the sequencer admits each step only in the
//! one stage where it is legal, so no step can run, even partially, before
//! every earlier step has completed. Any failure halts the bring-up for good:
//! nothing downstream is correct without the steps before it.

use vstd::prelude::*;

verus! {

use crate::console::{All, Read, Write};
use crate::driver::DriverInitError;
use crate::uart::{char_of, expand, rx_stream};

/// The five bring-up steps, in the only order they may run.
pub enum BringUpStep {
    InstallHandlers,
    EnableProtection,
    DiscoverDrivers,
    InitDrivers,
    EnterSteadyState,
}

/// How far bring-up has come. `Halted` is terminal: a fatal failure.
#[derive(Clone, Copy)]
pub enum Stage {
    Reset,
    HandlersInstalled,
    Protected,
    Discovered,
    Ready,
    Steady,
    Halted,
}

/// The one step a stage admits, if any.
pub open spec fn step_of(s: Stage) -> Option<BringUpStep> {
    match s {
        Stage::Reset => Some(BringUpStep::InstallHandlers),
        Stage::HandlersInstalled => Some(BringUpStep::EnableProtection),
        Stage::Protected => Some(BringUpStep::DiscoverDrivers),
        Stage::Discovered => Some(BringUpStep::InitDrivers),
        Stage::Ready => Some(BringUpStep::EnterSteadyState),
        Stage::Steady => None,
        Stage::Halted => None,
    }
}

/// The stage a successful step leads to.
pub open spec fn next_of(s: Stage) -> Stage {
    match s {
        Stage::Reset => Stage::HandlersInstalled,
        Stage::HandlersInstalled => Stage::Protected,
        Stage::Protected => Stage::Discovered,
        Stage::Discovered => Stage::Ready,
        Stage::Ready => Stage::Steady,
        Stage::Steady => Stage::Steady,
        Stage::Halted => Stage::Halted,
    }
}

/// How many successful steps remain from a stage.
pub open spec fn stage_rank(s: Stage) -> nat {
    match s {
        Stage::Reset => 5,
        Stage::HandlersInstalled => 4,
        Stage::Protected => 3,
        Stage::Discovered => 2,
        Stage::Ready => 1,
        Stage::Steady => 0,
        Stage::Halted => 0,
    }
}

/// Run a sequence of steps from a stage: each step must be the one its stage
/// admits, else the run is impossible.
pub open spec fn run(s: Stage, steps: Seq<BringUpStep>) -> Option<Stage>
    decreases steps.len(),
{
    if steps.len() == 0 {
        Some(s)
    } else if step_of(s) == Some(steps[0]) {
        run(next_of(s), steps.drop_first())
    } else {
        None
    }
}

/// The one sequence of steps a stage admits on the way to steady state.
pub open spec fn canonical_from(s: Stage) -> Seq<BringUpStep>
    decreases stage_rank(s),
{
    match step_of(s) {
        Some(st) => if stage_rank(next_of(s)) < stage_rank(s) {
            seq![st] + canonical_from(next_of(s))
        } else {
            seq![st]
        },
        None => Seq::<BringUpStep>::empty(),
    }
}

/// Any run of steps that reaches steady state is the canonical one.
pub proof fn lemma_run_canonical(s: Stage, steps: Seq<BringUpStep>)
    requires
        run(s, steps) == Some(Stage::Steady),
    ensures
        steps == canonical_from(s),
    decreases steps.len(),
{
    if steps.len() == 0 {
        assert(s is Steady);
        assert(steps =~= canonical_from(s));
    } else {
        assert(step_of(s) == Some(steps[0]));
        lemma_run_canonical(next_of(s), steps.drop_first());
        assert(stage_rank(next_of(s)) < stage_rank(s));
        assert(steps =~= seq![steps[0]] + steps.drop_first());
        assert(steps =~= canonical_from(s));
    }
}

/// From reset, the only order of bring-up steps that can reach steady state
/// is the defined one: install handlers, enable protection and caching,
/// discover drivers, initialize drivers, enter steady state.
pub proof fn lemma_bring_up_order(steps: Seq<BringUpStep>)
    requires
        run(Stage::Reset, steps) == Some(Stage::Steady),
    ensures
        steps == seq![
            BringUpStep::InstallHandlers,
            BringUpStep::EnableProtection,
            BringUpStep::DiscoverDrivers,
            BringUpStep::InitDrivers,
            BringUpStep::EnterSteadyState,
        ],
{
    lemma_run_canonical(Stage::Reset, steps);
    reveal_with_fuel(canonical_from, 6);
    assert(canonical_from(Stage::Reset) =~= seq![
        BringUpStep::InstallHandlers,
        BringUpStep::EnableProtection,
        BringUpStep::DiscoverDrivers,
        BringUpStep::InitDrivers,
        BringUpStep::EnterSteadyState,
    ]);
}

/// The bring-up sequencer: admits each step only in its own stage, and halts
/// for good on the first fatal outcome.
pub struct Sequencer {
    stage: Stage,
}

impl Sequencer {
    /// The current stage, for contracts.
    pub closed spec fn stage(&self) -> Stage {
        self.stage
    }

    /// A sequencer at reset, before any step has run.
    pub fn new() -> (r: Self)
        ensures
            r.stage() is Reset,
    {
        Sequencer { stage: Stage::Reset }
    }

    /// How far bring-up has come.
    pub fn current_stage(&self) -> (r: Stage)
        ensures
            r == self.stage(),
    {
        self.stage
    }

    /// Step one: exception and trap handling tables are installed. Must
    /// precede anything that can fault; installation itself cannot fail.
    pub fn handlers_installed(&mut self)
        requires
            step_of(old(self).stage()) == Some(BringUpStep::InstallHandlers),
        ensures
            final(self).stage() is HandlersInstalled,
            final(self).stage() == next_of(old(self).stage()),
    {
        self.stage = Stage::HandlersInstalled;
    }

    /// Step two: memory protection and data caching were switched on, or
    /// failed to. Coordination primitives are only correct from here on.
    /// A failure is fatal and is handed back to be reported.
    pub fn protection_enabled(&mut self, outcome: Result<(), &'static str>) -> (r: Result<
        (),
        &'static str,
    >)
        requires
            step_of(old(self).stage()) == Some(BringUpStep::EnableProtection),
        ensures
            outcome is Ok <==> r is Ok,
            r is Ok ==> final(self).stage() is Protected && final(self).stage() == next_of(
                old(self).stage(),
            ),
            r matches Err(e) ==> final(self).stage() is Halted && outcome == Err::<
                (),
                &'static str,
            >(e),
    {
        match outcome {
            Ok(()) => {
                self.stage = Stage::Protected;
                Ok(())
            },
            Err(reason) => {
                self.stage = Stage::Halted;
                Err(reason)
            },
        }
    }

    /// Step three: the board-support layer discovered and registered its
    /// drivers, or failed to. A failure is fatal.
    pub fn drivers_discovered(&mut self, outcome: Result<(), &'static str>) -> (r: Result<
        (),
        &'static str,
    >)
        requires
            step_of(old(self).stage()) == Some(BringUpStep::DiscoverDrivers),
        ensures
            outcome is Ok <==> r is Ok,
            r is Ok ==> final(self).stage() is Discovered && final(self).stage() == next_of(
                old(self).stage(),
            ),
            r matches Err(e) ==> final(self).stage() is Halted && outcome == Err::<
                (),
                &'static str,
            >(e),
    {
        match outcome {
            Ok(()) => {
                self.stage = Stage::Discovered;
                Ok(())
            },
            Err(reason) => {
                self.stage = Stage::Halted;
                Err(reason)
            },
        }
    }

    /// Step four: the driver manager ran its initialization pass. A failure
    /// names the driver it stopped on and is fatal.
    pub fn drivers_initialized(&mut self, outcome: Result<(), DriverInitError>) -> (r: Result<
        (),
        DriverInitError,
    >)
        requires
            step_of(old(self).stage()) == Some(BringUpStep::InitDrivers),
        ensures
            outcome is Ok <==> r is Ok,
            r is Ok ==> final(self).stage() is Ready && final(self).stage() == next_of(
                old(self).stage(),
            ),
            r matches Err(e) ==> final(self).stage() is Halted && (outcome matches Err(e2)
                && e == e2),
    {
        match outcome {
            Ok(()) => {
                self.stage = Stage::Ready;
                Ok(())
            },
            Err(fail) => {
                self.stage = Stage::Halted;
                Err(fail)
            },
        }
    }

    /// Step five: hand control to steady-state code. Formatted diagnostic
    /// output is only safe from here on, since it needs a working console.
    pub fn enter_steady_state(&mut self)
        requires
            step_of(old(self).stage()) == Some(BringUpStep::EnterSteadyState),
        ensures
            final(self).stage() is Steady,
            final(self).stage() == next_of(old(self).stage()),
    {
        self.stage = Stage::Steady;
    }
}

/// One turn of the steady-state loop: read one character from the console,
/// blocking, and echo it back.
pub fn echo_once<C: All>(console: &mut C) -> (r: char)
    requires
        rx_stream(old(console).model()).len() > 0,
    ensures
        r == char_of(rx_stream(old(console).model())[0]),
        final(console).model().wire == old(console).model().wire + expand(
            char_of(rx_stream(old(console).model())[0]),
        ),
        rx_stream(final(console).model()) == rx_stream(old(console).model()).drop_first(),
{
    let c = console.read_char();
    console.write_char(c);
    c
}

} // verus!
