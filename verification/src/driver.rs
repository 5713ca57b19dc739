//! The shift register driver: it owns the five hardware handles and decides,
//! for each operation, the exact sequence of commands to perform.

use vstd::prelude::*;
use vstd::slice::slice_to_vec;

use crate::command::{line_level_after, models, Command, CommandModel, Level, Line};
use crate::session::Session;

verus! {

/// Minimum pulse width, in microseconds, that the device needs to register a
/// clear or latch pulse.
pub const PULSE_WIDTH_MICROS: u32 = 1;

/// The level the output-enable line is driven to for a wanted enable state:
/// the line is active low, so logical "enabled" maps to electrical low.
pub open spec fn output_enable_level(enable: bool) -> Level {
    if enable {
        Level::Low
    } else {
        Level::High
    }
}

/// The plan of [`ShiftRegister::output_enable`]: one line transition.
pub open spec fn output_enable_plan(enable: bool) -> Seq<CommandModel> {
    seq![
        CommandModel::SetLine { line: Line::OutputEnable, level: output_enable_level(enable) },
    ]
}

/// The plan of [`ShiftRegister::clear`]: drive the clear line low, hold it
/// there for the minimum pulse width, drive it high again.
pub open spec fn clear_plan() -> Seq<CommandModel> {
    seq![
        CommandModel::SetLine { line: Line::Clear, level: Level::Low },
        CommandModel::WaitMicros { micros: PULSE_WIDTH_MICROS },
        CommandModel::SetLine { line: Line::Clear, level: Level::High },
    ]
}

/// The plan of [`ShiftRegister::latch`]: the clear pulse mirrored, with
/// inverted polarity, on the latch line.
pub open spec fn latch_plan() -> Seq<CommandModel> {
    seq![
        CommandModel::SetLine { line: Line::Latch, level: Level::High },
        CommandModel::WaitMicros { micros: PULSE_WIDTH_MICROS },
        CommandModel::SetLine { line: Line::Latch, level: Level::Low },
    ]
}

/// The plan of [`ShiftRegister::load`]: one write-only bus transfer carrying
/// exactly the caller's bytes.
pub open spec fn load_plan(data: Seq<u8>) -> Seq<CommandModel> {
    seq![CommandModel::Write { data }]
}

/// The plan of [`ShiftRegister::transfer`]: one full-duplex bus transfer
/// carrying exactly the caller's bytes.
pub open spec fn transfer_plan(write: Seq<u8>) -> Seq<CommandModel> {
    seq![CommandModel::Transfer { write }]
}

/// A 74hc595 (compatible) shift register.
///
/// It holds the bus, the three control lines and the delay provider by
/// exclusive ownership: constructing a driver moves the handles in, so no
/// other code can touch the same pins or bus while the driver lives. The
/// layer that executes command plans reaches the handles through the public
/// fields.
pub struct ShiftRegister<SPI, OE, CLR, LATCH, D> {
    /// The bus the register's serial input (and output, when daisy-chained)
    /// hangs off. Must be configured with clock idle low and data sampled on
    /// the rising edge, and must not be shared with other devices.
    pub spi: SPI,
    /// Output-enable line, active low.
    pub not_oe: OE,
    /// Clear line, active low.
    pub not_clr: CLR,
    /// Latch line, active high.
    pub latch: LATCH,
    /// Provider of microsecond-granularity waits.
    pub delay: D,
}

impl<SPI, OE, CLR, LATCH, D> ShiftRegister<SPI, OE, CLR, LATCH, D> {
    /// Creates a new `ShiftRegister`, taking exclusive ownership of the five
    /// handles. No hardware interaction is performed; construction never
    /// fails.
    pub fn new(spi: SPI, not_oe: OE, not_clr: CLR, latch: LATCH, delay: D) -> (r: Self)
        ensures
            r.spi == spi,
            r.not_oe == not_oe,
            r.not_clr == not_clr,
            r.latch == latch,
            r.delay == delay,
    {
        ShiftRegister { spi, not_oe, not_clr, latch, delay }
    }

    /// Enables or disables the shift register output drivers: the plan drives
    /// the active-low output-enable line to the complement of `enable`.
    pub fn output_enable(&self, enable: bool) -> (plan: Vec<Command>)
        ensures
            models(plan@) == output_enable_plan(enable),
    {
        let level = if enable {
            Level::Low
        } else {
            Level::High
        };
        let mut plan: Vec<Command> = Vec::new();
        plan.push(Command::SetLine { line: Line::OutputEnable, level });
        proof {
            assert(models(plan@) =~= output_enable_plan(enable));
        }
        plan
    }

    /// Clears the shift register: the plan pulses the active-low clear line
    /// low for the minimum pulse width.
    ///
    /// This does not change the value of the output latches. Run the plan of
    /// [`Self::latch()`] after clearing if you want the outputs to be reset.
    pub fn clear(&self) -> (plan: Vec<Command>)
        ensures
            models(plan@) == clear_plan(),
    {
        let mut plan: Vec<Command> = Vec::new();
        plan.push(Command::SetLine { line: Line::Clear, level: Level::Low });
        plan.push(Command::WaitMicros { micros: PULSE_WIDTH_MICROS });
        plan.push(Command::SetLine { line: Line::Clear, level: Level::High });
        proof {
            assert(models(plan@) =~= clear_plan());
        }
        plan
    }

    /// Latches the current values in the shift register into the output
    /// latches: the plan pulses the active-high latch line high for the
    /// minimum pulse width.
    pub fn latch(&self) -> (plan: Vec<Command>)
        ensures
            models(plan@) == latch_plan(),
    {
        let mut plan: Vec<Command> = Vec::new();
        plan.push(Command::SetLine { line: Line::Latch, level: Level::High });
        plan.push(Command::WaitMicros { micros: PULSE_WIDTH_MICROS });
        plan.push(Command::SetLine { line: Line::Latch, level: Level::Low });
        proof {
            assert(models(plan@) =~= latch_plan());
        }
        plan
    }

    /// Loads `data` into the shift register: the plan is one write-only bus
    /// transfer carrying the caller's bytes unmodified (an empty `data` gives
    /// a zero-length write). Bit and byte order are the bus's own
    /// configuration; most-significant-bit-first is the conventional wiring
    /// for this device family.
    ///
    /// This does not change the value of the output latches either; run the
    /// plan of [`Self::latch()`] afterward to make the new bits visible.
    pub fn load(&self, data: &[u8]) -> (plan: Vec<Command>)
        ensures
            models(plan@) == load_plan(data@),
    {
        let mut plan: Vec<Command> = Vec::new();
        plan.push(Command::Write { data: slice_to_vec(data) });
        proof {
            assert(models(plan@) =~= load_plan(data@));
        }
        plan
    }

    /// Loads `write` into the shift register while the bits shifted out of
    /// the register go to the executing layer's read buffer: the plan is one
    /// full-duplex bus transfer carrying the caller's bytes unmodified. The
    /// read and write buffers are independent; whether unequal lengths are
    /// padded or truncated is entirely the bus's policy, and no command of
    /// the plan depends on either length.
    pub fn transfer(&self, write: &[u8]) -> (plan: Vec<Command>)
        ensures
            models(plan@) == transfer_plan(write@),
    {
        let mut plan: Vec<Command> = Vec::new();
        plan.push(Command::Transfer { write: slice_to_vec(write) });
        proof {
            assert(models(plan@) =~= transfer_plan(write@));
        }
        plan
    }
}

/// Law: the clear pulse drives its line low, then high again. After the first
/// two commands of the plan — all that completes when the final transition
/// fails — the clear line stands low, whatever level it held before; after
/// the whole plan it stands high.
pub proof fn lemma_clear_pulse_levels(init: Option<Level>)
    ensures
        line_level_after(init, clear_plan().take(2), Line::Clear) == Some(Level::Low),
        line_level_after(init, clear_plan(), Line::Clear) == Some(Level::High),
{
    let p = clear_plan();
    assert(p.take(1).drop_last() =~= Seq::<CommandModel>::empty());
    assert(p.take(2).drop_last() =~= p.take(1));
    assert(p.drop_last() =~= p.take(2));
    assert(line_level_after(init, Seq::<CommandModel>::empty(), Line::Clear) == init);
    assert(line_level_after(init, p.take(1), Line::Clear) == Some(Level::Low));
    assert(line_level_after(init, p.take(2), Line::Clear) == Some(Level::Low));
    assert(line_level_after(init, p, Line::Clear) == Some(Level::High));
}

/// Law: the latch pulse mirrors the clear pulse with inverted polarity: high
/// after its first two commands — so a failed final transition leaves the
/// latch line high — and low again after the whole plan.
pub proof fn lemma_latch_pulse_levels(init: Option<Level>)
    ensures
        line_level_after(init, latch_plan().take(2), Line::Latch) == Some(Level::High),
        line_level_after(init, latch_plan(), Line::Latch) == Some(Level::Low),
{
    let p = latch_plan();
    assert(p.take(1).drop_last() =~= Seq::<CommandModel>::empty());
    assert(p.take(2).drop_last() =~= p.take(1));
    assert(p.drop_last() =~= p.take(2));
    assert(line_level_after(init, Seq::<CommandModel>::empty(), Line::Latch) == init);
    assert(line_level_after(init, p.take(1), Line::Latch) == Some(Level::High));
    assert(line_level_after(init, p.take(2), Line::Latch) == Some(Level::High));
    assert(line_level_after(init, p, Line::Latch) == Some(Level::Low));
}

/// Law: clearing touches only the clear line. Every other control line holds
/// its level through the whole clear plan — in particular the latch line, so
/// the bits already committed to the output latches stay visible until a
/// latch pulse follows.
pub proof fn lemma_clear_preserves_other_lines(init: Option<Level>, line: Line)
    requires
        line != Line::Clear,
    ensures
        line_level_after(init, clear_plan(), line) == init,
{
    let p = clear_plan();
    assert(p.take(1).drop_last() =~= Seq::<CommandModel>::empty());
    assert(p.take(2).drop_last() =~= p.take(1));
    assert(p.drop_last() =~= p.take(2));
    assert(line_level_after(init, Seq::<CommandModel>::empty(), line) == init);
    assert(line_level_after(init, p.take(1), line) == init);
    assert(line_level_after(init, p.take(2), line) == init);
    assert(line_level_after(init, p, line) == init);
}

/// Law: latching touches only the latch line.
pub proof fn lemma_latch_preserves_other_lines(init: Option<Level>, line: Line)
    requires
        line != Line::Latch,
    ensures
        line_level_after(init, latch_plan(), line) == init,
{
    let p = latch_plan();
    assert(p.take(1).drop_last() =~= Seq::<CommandModel>::empty());
    assert(p.take(2).drop_last() =~= p.take(1));
    assert(p.drop_last() =~= p.take(2));
    assert(line_level_after(init, Seq::<CommandModel>::empty(), line) == init);
    assert(line_level_after(init, p.take(1), line) == init);
    assert(line_level_after(init, p.take(2), line) == init);
    assert(line_level_after(init, p, line) == init);
}

/// Law: a write-only load drives no control line at all, whatever the bytes.
pub proof fn lemma_load_preserves_lines(init: Option<Level>, data: Seq<u8>, line: Line)
    ensures
        line_level_after(init, load_plan(data), line) == init,
{
    let p = load_plan(data);
    assert(p.drop_last() =~= Seq::<CommandModel>::empty());
    assert(line_level_after(init, Seq::<CommandModel>::empty(), line) == init);
}

/// Law: a full-duplex transfer drives no control line either.
pub proof fn lemma_transfer_preserves_lines(init: Option<Level>, write: Seq<u8>, line: Line)
    ensures
        line_level_after(init, transfer_plan(write), line) == init,
{
    let p = transfer_plan(write);
    assert(p.drop_last() =~= Seq::<CommandModel>::empty());
    assert(line_level_after(init, Seq::<CommandModel>::empty(), line) == init);
}

/// Law: in a clear run whose final transition failed — two commands
/// completed, the third reported a fault — the clear line is left low. The
/// run's result is that very fault, by [`Session::finish`]'s contract.
pub proof fn lemma_clear_partial_failure<E>(s: &Session<E>, init: Option<Level>)
    requires
        s.plan() == clear_plan(),
        s.failed(),
        s.pos() == 2,
    ensures
        line_level_after(init, s.completed(), Line::Clear) == Some(Level::Low),
{
    lemma_clear_pulse_levels(init);
}

/// Law: in a latch run whose final transition failed, the latch line is left
/// high, and the run's result is the injected fault.
pub proof fn lemma_latch_partial_failure<E>(s: &Session<E>, init: Option<Level>)
    requires
        s.plan() == latch_plan(),
        s.failed(),
        s.pos() == 2,
    ensures
        line_level_after(init, s.completed(), Line::Latch) == Some(Level::High),
{
    lemma_latch_pulse_levels(init);
}

} // verus!
