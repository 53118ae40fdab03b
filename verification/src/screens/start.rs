//! The start screen: a fade in, a wait for the start button, and a fade out
//! that hands the session over to the battle.

use crate::game_context::{GameContext, GameError, GameObject};
use crate::input::InputState;
use crate::scene::{Color, StartScene};
use crate::screens::battle::{BattleContext, SoundCue};
use vstd::prelude::*;

verus! {

/// Ticks a fade lasts after the one that starts it.
pub const FADE_FRAMES: usize = 30;

/// Where the start screen is in its sequence. A pair of counters is the
/// current frame of a fade and its last frame.
#[derive(Debug, Clone, Copy, PartialEq, Eq, Structural)]
pub enum StartScreenState {
    FadeIn(usize, usize),
    Waiting,
    FadeOut(usize, usize),
}

#[derive(Debug, Clone, Copy, PartialEq, Eq, Structural)]
pub struct StartScreenContext {
    pub state: StartScreenState,
}

/// The opacity of an overlay that covers `part` of `whole`: 255 times the
/// fraction, rounded down.
pub open spec fn opacity_of(part: int, whole: int) -> int {
    255 * part / whole
}

impl StartScreenState {
    /// Whether the frame counter, where there is one, is within its maximum.
    pub open spec fn wf(self) -> bool {
        match self {
            StartScreenState::FadeIn(frame, max) => frame <= max,
            StartScreenState::FadeOut(frame, max) => frame <= max,
            StartScreenState::Waiting => true,
        }
    }

    /// Whether an overlay can be computed: a fade has a length and its
    /// counter is within it.
    pub open spec fn drawable(self) -> bool {
        match self {
            StartScreenState::FadeIn(frame, max) => frame <= max && max > 0,
            StartScreenState::FadeOut(frame, max) => frame <= max && max > 0,
            StartScreenState::Waiting => true,
        }
    }

    /// The overlay of the state: black that clears as a fade in proceeds,
    /// white that thickens as a fade out proceeds, none while waiting.
    pub open spec fn overlay(self) -> Option<Color> {
        match self {
            StartScreenState::FadeIn(frame, max) => Some(
                Color { r: 0, g: 0, b: 0, a: opacity_of(max - frame, max as int) as u8 },
            ),
            StartScreenState::FadeOut(frame, max) => Some(
                Color { r: 255, g: 255, b: 255, a: opacity_of(frame as int, max as int) as u8 },
            ),
            StartScreenState::Waiting => None,
        }
    }
}

impl StartScreenContext {
    /// The scene to draw for the start screen.
    pub open spec fn scene(self) -> StartScene {
        StartScene { overlay: self.state.overlay() }
    }

    /// The phase that follows the start screen after one tick.
    ///
    /// A fade counts its frames up to the last. The fade in then gives way
    /// to waiting, and the fade out to a fresh battle. Waiting ends only
    /// when the start button is down, with the first frame of the fade out.
    /// A fade found beyond its last frame stays as it is.
    pub open spec fn after_tick(self, input: InputState) -> GameContext {
        match self.state {
            StartScreenState::FadeIn(frame, max) => {
                if frame == max {
                    GameContext::StartScreen(StartScreenContext { state: StartScreenState::Waiting })
                } else if frame < max {
                    GameContext::StartScreen(
                        StartScreenContext {
                            state: StartScreenState::FadeIn((frame + 1) as usize, max),
                        },
                    )
                } else {
                    GameContext::StartScreen(self)
                }
            },
            StartScreenState::Waiting => {
                if input.btn_start {
                    GameContext::StartScreen(
                        StartScreenContext { state: StartScreenState::FadeOut(0, FADE_FRAMES) },
                    )
                } else {
                    GameContext::StartScreen(self)
                }
            },
            StartScreenState::FadeOut(frame, max) => {
                if frame == max {
                    GameContext::Battle(BattleContext::spawned())
                } else if frame < max {
                    GameContext::StartScreen(
                        StartScreenContext {
                            state: StartScreenState::FadeOut((frame + 1) as usize, max),
                        },
                    )
                } else {
                    GameContext::StartScreen(self)
                }
            },
        }
    }

    /// The session after the start screen's handler ran.
    pub open spec fn game_after_tick(game: GameObject, input: InputState) -> GameObject {
        match game.phase {
            GameContext::StartScreen(context) => GameObject {
                phase: context.after_tick(input),
                ..game
            },
            _ => game,
        }
    }

    /// What the start screen's handler reports for the session: nothing to
    /// play, or an error where another phase is active or a fade is found
    /// beyond its last frame.
    pub open spec fn game_tick_outcome(game: GameObject) -> Result<Option<SoundCue>, GameError> {
        match game.phase {
            GameContext::StartScreen(context) => if context.state.wf() {
                Ok(None)
            } else {
                Err(GameError::FrameOverrun)
            },
            _ => Err(GameError::WrongPhase),
        }
    }

    /// The session after one tick of the start screen for each of `inputs`,
    /// in order.
    pub open spec fn game_after_ticks(game: GameObject, inputs: Seq<InputState>) -> GameObject
        decreases inputs.len(),
    {
        if inputs.len() == 0 {
            game
        } else {
            StartScreenContext::game_after_tick(
                StartScreenContext::game_after_ticks(game, inputs.drop_last()),
                inputs.last(),
            )
        }
    }

    /// A start screen at the first frame of its fade in.
    pub fn new() -> (context: StartScreenContext)
        ensures
            context.state == StartScreenState::FadeIn(0, FADE_FRAMES),
    {
        StartScreenContext { state: StartScreenState::FadeIn(0, FADE_FRAMES) }
    }

    /// Runs one tick of the start screen. Refused with `WrongPhase` while
    /// another phase is active and with `FrameOverrun` where a fade is found
    /// beyond its last frame; on an error the session is left as it was.
    pub fn handle_tick(game_obj: &mut GameObject, input_state: &InputState) -> (outcome: Result<
        Option<SoundCue>,
        GameError,
    >)
        ensures
            outcome == StartScreenContext::game_tick_outcome(*old(game_obj)),
            *final(game_obj) == StartScreenContext::game_after_tick(*old(game_obj), *input_state),
            outcome is Err ==> *final(game_obj) == *old(game_obj),
            !(old(game_obj).phase is StartScreen) <==> outcome == Err::<Option<SoundCue>, GameError>(
                GameError::WrongPhase,
            ),
            old(game_obj).phase.wf() ==> final(game_obj).phase.wf(),
            final(game_obj).player == old(game_obj).player,
    {
        match game_obj.phase {
            GameContext::StartScreen(start_screen_context) => {
                let next: GameContext = match start_screen_context.state {
                    StartScreenState::FadeIn(a, b) => {
                        if a == b {
                            GameContext::StartScreen(
                                StartScreenContext { state: StartScreenState::Waiting },
                            )
                        } else if a > b {
                            return Err(GameError::FrameOverrun);
                        } else {
                            GameContext::StartScreen(
                                StartScreenContext { state: StartScreenState::FadeIn(a + 1, b) },
                            )
                        }
                    },
                    StartScreenState::Waiting => {
                        if input_state.btn_start {
                            GameContext::StartScreen(
                                StartScreenContext {
                                    state: StartScreenState::FadeOut(0, FADE_FRAMES),
                                },
                            )
                        } else {
                            game_obj.phase
                        }
                    },
                    StartScreenState::FadeOut(a, b) => {
                        if a == b {
                            GameContext::Battle(BattleContext::from_game_object(game_obj))
                        } else if a > b {
                            return Err(GameError::FrameOverrun);
                        } else {
                            GameContext::StartScreen(
                                StartScreenContext { state: StartScreenState::FadeOut(a + 1, b) },
                            )
                        }
                    },
                };
                *game_obj = GameObject { phase: next, player: game_obj.player };
                Ok(None)
            },
            _ => Err(GameError::WrongPhase),
        }
    }
}

/// A fade counts exactly one frame per tick, whatever the inputs are, for as
/// long as its last frame is not passed.
pub proof fn lemma_fade_counts_frames(game: GameObject, inputs: Seq<InputState>)
    requires
        game.phase matches GameContext::StartScreen(context) && match context.state {
            StartScreenState::FadeIn(frame, max) => frame + inputs.len() <= max,
            StartScreenState::FadeOut(frame, max) => frame + inputs.len() <= max,
            StartScreenState::Waiting => false,
        },
    ensures
        StartScreenContext::game_after_ticks(game, inputs).player == game.player,
        game.phase matches GameContext::StartScreen(context) && match context.state {
            StartScreenState::FadeIn(frame, max) => StartScreenContext::game_after_ticks(
                game,
                inputs,
            ).phase == GameContext::StartScreen(
                StartScreenContext {
                    state: StartScreenState::FadeIn((frame + inputs.len()) as usize, max),
                },
            ),
            StartScreenState::FadeOut(frame, max) => StartScreenContext::game_after_ticks(
                game,
                inputs,
            ).phase == GameContext::StartScreen(
                StartScreenContext {
                    state: StartScreenState::FadeOut((frame + inputs.len()) as usize, max),
                },
            ),
            StartScreenState::Waiting => false,
        },
    decreases inputs.len(),
{
    if inputs.len() > 0 {
        lemma_fade_counts_frames(game, inputs.drop_last());
    }
}

/// A fade ends on the tick that finds it at its last frame: the fade in
/// gives way to waiting, and the fade out to a fresh battle.
pub proof fn lemma_fade_ends(game: GameObject, inputs: Seq<InputState>)
    requires
        game.phase matches GameContext::StartScreen(context) && match context.state {
            StartScreenState::FadeIn(frame, max) => frame <= max && frame + inputs.len() == max
                + 1,
            StartScreenState::FadeOut(frame, max) => frame <= max && frame + inputs.len() == max
                + 1,
            StartScreenState::Waiting => false,
        },
    ensures
        game.phase matches GameContext::StartScreen(context) && match context.state {
            StartScreenState::FadeIn(_, _) => StartScreenContext::game_after_ticks(
                game,
                inputs,
            ).phase == GameContext::StartScreen(
                StartScreenContext { state: StartScreenState::Waiting },
            ),
            StartScreenState::FadeOut(_, _) => StartScreenContext::game_after_ticks(
                game,
                inputs,
            ).phase == GameContext::Battle(BattleContext::spawned()),
            StartScreenState::Waiting => false,
        },
{
    lemma_fade_counts_frames(game, inputs.drop_last());
}

/// Waiting ignores every input but the start button: as long as it is up,
/// the session does not change.
pub proof fn lemma_waiting_ignores_other_input(game: GameObject, inputs: Seq<InputState>)
    requires
        game.phase == GameContext::StartScreen(
            StartScreenContext { state: StartScreenState::Waiting },
        ),
        forall|i: int| 0 <= i < inputs.len() ==> !(#[trigger] inputs[i]).btn_start,
    ensures
        StartScreenContext::game_after_ticks(game, inputs) == game,
    decreases inputs.len(),
{
    if inputs.len() > 0 {
        lemma_waiting_ignores_other_input(game, inputs.drop_last());
    }
}

/// 255 times `part / whole`, rounded down.
pub fn scaled_opacity(part: usize, whole: usize) -> (alpha: u8)
    requires
        part <= whole,
        whole > 0,
    ensures
        alpha == opacity_of(part as int, whole as int),
{
    let scaled: u128 = 255u128 * (part as u128);
    let quotient: u128 = scaled / (whole as u128);
    assert(quotient <= 255) by (nonlinear_arith)
        requires
            quotient == (255 * part) / (whole as int),
            part <= whole,
            whole > 0,
    ;
    quotient as u8
}

/// Describes the start screen to draw: the overlay that goes with the
/// state of the fade.
pub fn render_start_screen(context: &StartScreenContext) -> (scene: StartScene)
    requires
        context.state.drawable(),
    ensures
        scene == context.scene(),
{
    let overlay = match context.state {
        StartScreenState::Waiting => None,
        StartScreenState::FadeIn(frame_num, frame_max) => Some(
            Color { r: 0, g: 0, b: 0, a: scaled_opacity(frame_max - frame_num, frame_max) },
        ),
        StartScreenState::FadeOut(frame_num, frame_max) => Some(
            Color { r: 255, g: 255, b: 255, a: scaled_opacity(frame_num, frame_max) },
        ),
    };
    StartScene { overlay }
}

} // verus!
