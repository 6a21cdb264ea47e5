//! The entry/panic control-transfer state machine.
//!
//! The program passes through three phases: `Unstarted` before the loader
//! hands off control, `Running` while useful work proceeds, and `Halted`,
//! the terminal phase with no transition out. Every text handed to the
//! external character-output primitive is recorded in order, so contracts
//! can state exactly what was emitted and when. Only a `Running` machine can
//! emit; both the normal halt and the panic path end in `Halted`, and no
//! operation applies to a `Halted` machine, which makes the halt absorbing.

use vstd::prelude::*;
use crate::display::Displayable;

verus! {

/// The phase of the program's single run.
#[derive(Clone, Copy, PartialEq, Eq, Structural)]
pub enum Phase {
    /// Before the loader transfers control to the entry point.
    Unstarted,
    /// Normal operation after entry.
    Running,
    /// Terminal: entered by normal completion or by the panic path, never left.
    Halted,
}

/// The observable state of one program run: its phase and the texts handed
/// to the output primitive so far, oldest first.
pub struct Machine {
    phase: Phase,
    emitted: Vec<String>,
}

impl Machine {
    /// The current phase.
    pub closed spec fn spec_phase(&self) -> Phase {
        self.phase
    }

    /// The texts handed to the output primitive so far, oldest first.
    pub closed spec fn log(&self) -> Seq<Seq<char>> {
        self.emitted@.map_values(|s: String| s@)
    }

    /// A machine as the loader finds it: control not yet transferred,
    /// nothing emitted.
    pub fn new() -> (m: Machine)
        ensures
            m.spec_phase() is Unstarted,
            m.log() =~= Seq::<Seq<char>>::empty(),
    {
        Machine { phase: Phase::Unstarted, emitted: Vec::new() }
    }

    /// The entry transition: the loader's one-way control transfer into the
    /// program. Only an unstarted machine can be entered, and entry emits
    /// nothing by itself.
    pub fn start(&mut self)
        requires
            old(self).spec_phase() is Unstarted,
        ensures
            final(self).spec_phase() is Running,
            final(self).log() == old(self).log(),
    {
        self.phase = Phase::Running;
    }

    /// Renders one displayable value and hands the text to the output
    /// primitive: the log grows by exactly that text.
    pub fn emit(&mut self, d: &Displayable)
        requires
            old(self).spec_phase() is Running,
        ensures
            final(self).spec_phase() is Running,
            final(self).log() =~= old(self).log().push(d.spec_text()),
    {
        let t = d.to_text();
        self.emitted.push(t);
        proof {
            assert(self.emitted@.map_values(|s: String| s@) =~= old(
                self,
            ).emitted@.map_values(|s: String| s@).push(d.spec_text()));
        }
    }

    /// The output dispatcher: renders each value in order and hands each
    /// resulting text to the output primitive, one call per value.
    pub fn dispatch(&mut self, items: &Vec<Displayable>)
        requires
            old(self).spec_phase() is Running,
        ensures
            final(self).spec_phase() is Running,
            final(self).log() =~= old(self).log() + items@.map_values(
                |d: Displayable| d.spec_text(),
            ),
    {
        let mut i: usize = 0;
        while i < items.len()
            invariant
                i <= items@.len(),
                self.spec_phase() is Running,
                self.log() =~= old(self).log() + items@.take(i as int).map_values(
                    |d: Displayable| d.spec_text(),
                ),
            decreases items@.len() - i,
        {
            self.emit(&items[i]);
            i = i + 1;
            proof {
                assert(items@.take(i as int) =~= items@.take(i as int - 1).push(
                    items@[i as int - 1],
                ));
            }
        }
        proof {
            assert(items@.take(items@.len() as int) =~= items@);
        }
    }

    /// Normal completion: parks the machine in the terminal phase with no
    /// further output.
    pub fn halt(&mut self)
        requires
            old(self).spec_phase() is Running,
        ensures
            final(self).spec_phase() is Halted,
            final(self).log() == old(self).log(),
    {
        self.phase = Phase::Halted;
    }

    /// The panic path: a best-effort diagnostic, then the terminal phase.
    /// Exactly one output call happens when a diagnostic is given, exactly
    /// zero when none is, and nothing can be emitted afterwards, since no
    /// operation accepts a halted machine.
    pub fn fail(&mut self, diagnostic: Option<&Displayable>)
        requires
            old(self).spec_phase() is Running,
        ensures
            final(self).spec_phase() is Halted,
            diagnostic is Some ==> final(self).log() =~= old(self).log().push(
                diagnostic->0.spec_text(),
            ),
            diagnostic is None ==> final(self).log() == old(self).log(),
    {
        match diagnostic {
            Some(d) => self.emit(d),
            None => (),
        }
        self.phase = Phase::Halted;
    }

    /// How many texts have been emitted so far.
    pub fn output_count(&self) -> (n: usize)
        ensures
            n == self.log().len(),
    {
        self.emitted.len()
    }

    /// The text of the output call at position `i`, oldest first.
    pub fn output_at(&self, i: usize) -> (r: &String)
        requires
            i < self.log().len(),
        ensures
            r@ == self.log()[i as int],
    {
        &self.emitted[i]
    }

    /// Whether the machine has reached the terminal phase.
    pub fn is_halted(&self) -> (b: bool)
        ensures
            b == (self.spec_phase() is Halted),
    {
        match self.phase {
            Phase::Halted => true,
            _ => false,
        }
    }
}

} // verus!
