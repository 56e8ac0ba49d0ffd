use crate::end::EndStage;
use crate::event::{Event, KeyEvent};
use crate::round::RoundStage;
use vstd::prelude::*;

verus! {

/// A screen of the program: it is drawn, and each input event turns it into
/// the next screen, or into none when the program is to exit.
pub enum Stage {
    Round(RoundStage),
    End(EndStage),
}

impl Stage {
    pub open spec fn wf(&self) -> bool {
        match self {
            Stage::Round(s) => s.wf(),
            Stage::End(s) => s.wf(),
        }
    }

    /// `next` is what this screen becomes on a keystroke other than Ctrl+C.
    pub open spec fn step(self, key: KeyEvent, next: Stage) -> bool {
        match self {
            Stage::Round(s) => s.step(key, next),
            Stage::End(s) => s.step(key, next),
        }
    }

    /// Consumes a keystroke other than Ctrl+C.
    pub fn handle_key(self, key_event: KeyEvent) -> (r: Stage)
        requires
            self.wf(),
        ensures
            r.wf(),
            self.step(key_event, r),
    {
        match self {
            Stage::Round(s) => s.handle_key(key_event),
            Stage::End(s) => s.handle_key(key_event),
        }
    }

    /// Consumes one input event: Ctrl+C ends the program from any screen,
    /// other keystrokes go to the screen, other events change nothing.
    pub fn handle_event(self, event: Event) -> (r: Option<Stage>)
        requires
            self.wf(),
        ensures
            match event {
                Event::Key(k) => if k.is_interrupt() {
                    r is None
                } else {
                    r is Some && r->Some_0.wf() && self.step(k, r->Some_0)
                },
                Event::Other => r == Some(self),
            },
    {
        match event {
            Event::Key(k) => {
                if k.interrupts() {
                    None
                } else {
                    Some(self.handle_key(k))
                }
            },
            Event::Other => Some(self),
        }
    }
}

} // verus!
