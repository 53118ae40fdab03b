//! The root of the game state and the dispatch of a tick, or of a draw, to
//! the phase that is active.

use crate::input::InputState;
use crate::scene::Scene;
use crate::screens::battle::{
    can_update_battle_player, render_battle, BattleContext, BattleState, SoundCue,
};
use crate::screens::start::{render_start_screen, StartScreenContext, StartScreenState};
use vstd::prelude::*;

verus! {

/// Why a tick or a draw could not be carried out. Each of these is a
/// programming error of the caller or a missing feature, never a condition
/// to retry.
#[derive(Debug, Clone, Copy, PartialEq, Eq, Structural)]
pub enum GameError {
    /// The active phase is reserved and has no handler yet.
    NotImplemented,
    /// A phase's handler was called while another phase is active.
    WrongPhase,
    /// A frame counter lies beyond its maximum.
    FrameOverrun,
}

/// Player data that outlives a phase. Nothing is kept yet.
#[derive(Debug, Clone, Copy, PartialEq, Eq, Structural)]
pub struct Player {}

/// The phase of the game. Only the start screen and the battle have
/// handlers; the others are reserved.
#[derive(Debug, Clone, Copy, PartialEq, Eq, Structural)]
pub enum GameContext {
    StartScreen(StartScreenContext),
    Walking,
    PartyMenu,
    ForcedAction,
    Conversation,
    Battle(BattleContext),
}

impl GameContext {
    /// Whether the phase has no handler yet.
    pub open spec fn reserved(self) -> bool {
        !(self is StartScreen) && !(self is Battle)
    }

    /// Whether every frame counter of the phase is within its maximum.
    pub open spec fn wf(self) -> bool {
        match self {
            GameContext::StartScreen(context) => context.state.wf(),
            GameContext::Battle(context) => context.player.state.wf(),
            _ => true,
        }
    }

    /// Whether the phase can be drawn: it is not a start screen whose fade
    /// has no length or has run past its end.
    pub open spec fn drawable(self) -> bool {
        self matches GameContext::StartScreen(context) ==> context.state.drawable()
    }
}

/// The single game session: the active phase and the persistent player.
#[derive(Debug, Clone, Copy, PartialEq, Eq, Structural)]
pub struct GameObject {
    pub phase: GameContext,
    pub player: Option<Player>,
}

impl GameObject {
    /// The session after one tick with `input`.
    pub open spec fn after_tick(self, input: InputState) -> GameObject {
        match self.phase {
            GameContext::StartScreen(_) => StartScreenContext::game_after_tick(self, input),
            GameContext::Battle(_) => BattleContext::game_after_tick(self, input),
            _ => self,
        }
    }

    /// What one tick reports: a clip to play, fire and forget, or none; or
    /// the error that kept the tick from running.
    pub open spec fn tick_outcome(self) -> Result<Option<SoundCue>, GameError> {
        match self.phase {
            GameContext::StartScreen(_) => StartScreenContext::game_tick_outcome(self),
            GameContext::Battle(_) => BattleContext::game_tick_outcome(self),
            _ => Err(GameError::NotImplemented),
        }
    }

    /// Whether the step that the player takes on a tick with `input`, if the
    /// session is in a battle, keeps the player's coordinates representable.
    pub open spec fn tick_fits(self, input: InputState) -> bool {
        self.phase matches GameContext::Battle(battle) ==> battle.tick_fits(input)
    }

    /// What is drawn for the session.
    pub open spec fn scene(self) -> Result<Scene, GameError> {
        match self.phase {
            GameContext::StartScreen(context) => Ok(Scene::StartScreen(context.scene())),
            GameContext::Battle(context) => Ok(Scene::Battle(context.player.scene())),
            _ => Err(GameError::NotImplemented),
        }
    }

    /// Whether `handle_tick` can run with `input`: whether the step that the
    /// player would take stays within the range of the coordinates.
    pub fn can_tick(&self, input_state: &InputState) -> (fits: bool)
        ensures
            fits == self.tick_fits(*input_state),
    {
        match self.phase {
            GameContext::Battle(battle) => match battle.state {
                BattleState::Live => can_update_battle_player(&battle.player, input_state),
                _ => true,
            },
            _ => true,
        }
    }

    /// Advances the session by one tick: the active phase's handler runs, and
    /// a reserved phase is refused, never skipped. On an error the session is
    /// left as it was.
    pub fn handle_tick(&mut self, input_state: &InputState) -> (outcome: Result<
        Option<SoundCue>,
        GameError,
    >)
        requires
            old(self).tick_fits(*input_state),
        ensures
            outcome == old(self).tick_outcome(),
            *final(self) == old(self).after_tick(*input_state),
            outcome is Err ==> *final(self) == *old(self),
            old(self).phase.reserved() <==> outcome == Err::<Option<SoundCue>, GameError>(
                GameError::NotImplemented,
            ),
            old(self).phase.wf() ==> final(self).phase.wf(),
            old(self).phase.wf() && !old(self).phase.reserved() ==> outcome is Ok,
    {
        match self.phase {
            GameContext::Battle(_) => BattleContext::handle_tick(self, input_state),
            GameContext::StartScreen(_) => StartScreenContext::handle_tick(self, input_state),
            _ => Err(GameError::NotImplemented),
        }
    }

    /// Whether `render` can run: whether the phase is drawable.
    pub fn can_render(&self) -> (drawable: bool)
        ensures
            drawable == self.phase.drawable(),
    {
        match self.phase {
            GameContext::StartScreen(context) => match context.state {
                StartScreenState::FadeIn(frame, max) => frame <= max && max > 0,
                StartScreenState::FadeOut(frame, max) => frame <= max && max > 0,
                StartScreenState::Waiting => true,
            },
            _ => true,
        }
    }

    /// Describes what to draw for the active phase; a reserved phase is
    /// refused.
    pub fn render(self) -> (scene: Result<Scene, GameError>)
        requires
            self.phase.drawable(),
        ensures
            scene == self.scene(),
            self.phase.reserved() <==> scene == Err::<Scene, GameError>(GameError::NotImplemented),
            scene is Ok <==> !self.phase.reserved(),
    {
        match self.phase {
            GameContext::Battle(battle) => Ok(Scene::Battle(render_battle(&battle.player))),
            GameContext::StartScreen(context) => Ok(
                Scene::StartScreen(render_start_screen(&context)),
            ),
            _ => Err(GameError::NotImplemented),
        }
    }
}

} // verus!
