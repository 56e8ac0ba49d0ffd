use crate::event::{KeyCode, KeyEvent};
use crate::game::Game;
use crate::stage::Stage;
use vstd::prelude::*;

verus! {

/// The results screen: the scores so far, and whether they could be saved.
pub struct EndStage {
    pub game: Game,
    pub failed_to_save: bool,
}

impl EndStage {
    pub open spec fn wf(&self) -> bool {
        self.game.wf()
    }

    /// `next` is what this screen becomes on `key`: Enter starts a new round
    /// on the same session; other keys change nothing.
    pub open spec fn step(self, key: KeyEvent, next: Stage) -> bool {
        if key.code == KeyCode::Enter {
            &&& next is Round
            &&& next->Round_0.game == self.game
            &&& next->Round_0.index == 0
            &&& next->Round_0.error@.len() == 0
            &&& next->Round_0.start_time is None
        } else {
            next == Stage::End(self)
        }
    }

    /// Consumes one keystroke.
    pub fn handle_key(self, key_event: KeyEvent) -> (r: Stage)
        requires
            self.wf(),
        ensures
            r.wf(),
            self.step(key_event, r),
    {
        match key_event.code {
            KeyCode::Enter => Stage::Round(self.game.next_round()),
            _ => Stage::End(self),
        }
    }
}

} // verus!
