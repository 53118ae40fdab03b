//! The battle phase: the player's motion and action state machine, and the
//! wrapper state that decides whether it runs at all.

use crate::game_context::{GameContext, GameError, GameObject};
use crate::input::{get_player_intent_vector, Heading, InputState};
use crate::motion::step_of;
use crate::scene::{BattleScene, Color, Point};
use vstd::prelude::*;

verus! {

/// Ticks an attack lasts after the one that starts it.
pub const ATTACK_FRAMES: usize = 30;

/// Ticks a dash lasts after the one that starts it.
pub const DASH_FRAMES: usize = 30;

/// Units per tick of a running step.
pub const RUNNING_SPEED: u8 = 2;

/// Units per tick of a dashing step.
pub const DASHING_SPEED: u8 = 5;

/// Where the player enters a battle.
pub const SPAWN_X: i32 = 50;

pub const SPAWN_Y: i32 = 300;

/// Width and height of the rectangle that marks the player.
pub const MARKER_SIZE: u32 = 50;

/// Whether the battle is running. Only a live battle updates the player.
#[derive(Debug, Clone, Copy, PartialEq, Eq, Structural)]
pub enum BattleState {
    Starting,
    Live,
    /// Paused for a quick-menu selection.
    Paused,
    Finished,
}

/// What the player is doing. A pair of counters is the current frame of a
/// fixed-length action and its last frame.
#[derive(Debug, Clone, Copy, PartialEq, Eq, Structural)]
pub enum PlayerState {
    Standing,
    Running,
    Dashing(usize, usize),
    Attacking(usize, usize),
    Blocking,
    Casting(usize, usize),
}

/// A clip that a state plays on the tick it is entered.
#[derive(Debug, Clone, Copy, PartialEq, Eq, Structural)]
pub enum SoundCue {
    /// Played when a dash starts, under the name "chicken".
    Chicken,
    /// Played when an attack starts, under the name "swordswing".
    SwordSwing,
}

#[derive(Debug, Clone, Copy, PartialEq, Eq, Structural)]
pub struct BattlePlayerContext {
    pub position: Point,
    /// The direction of the last step for which the player chose one.
    pub facing_vector: Heading,
    pub state: PlayerState,
}

#[derive(Debug, Clone, Copy, PartialEq, Eq, Structural)]
pub struct BattleContext {
    pub state: BattleState,
    pub player: BattlePlayerContext,
}

impl PlayerState {
    /// Whether the frame counter, where there is one, is within its maximum.
    pub open spec fn wf(self) -> bool {
        match self {
            PlayerState::Dashing(frame, max) => frame <= max,
            PlayerState::Attacking(frame, max) => frame <= max,
            PlayerState::Casting(frame, max) => frame <= max,
            _ => true,
        }
    }

    /// The clip a state plays when a tick finds it in this state.
    pub open spec fn entry_sound(self) -> Option<SoundCue> {
        match self {
            PlayerState::Dashing(frame, _) => if frame == 0 {
                Some(SoundCue::Chicken)
            } else {
                None
            },
            PlayerState::Attacking(frame, _) => if frame == 0 {
                Some(SoundCue::SwordSwing)
            } else {
                None
            },
            _ => None,
        }
    }
}

impl SoundCue {
    /// The name under which the clip is played.
    pub fn name(&self) -> (name: &'static str)
        ensures
            name@ == match *self {
                SoundCue::Chicken => "chicken"@,
                SoundCue::SwordSwing => "swordswing"@,
            },
    {
        match self {
            SoundCue::Chicken => "chicken",
            SoundCue::SwordSwing => "swordswing",
        }
    }
}

impl BattlePlayerContext {
    /// The player as a battle starts: standing at the spawn point, facing
    /// right.
    pub open spec fn spawned() -> BattlePlayerContext {
        BattlePlayerContext {
            position: Point { x: SPAWN_X, y: SPAWN_Y },
            facing_vector: Heading::Eighths(0),
            state: PlayerState::Standing,
        }
    }

    /// What the player does in one tick: the state and the facing after it,
    /// the position left as it is.
    ///
    /// Standing or running, the attack button starts an attack and beats any
    /// movement. Failing that, a movement intent turns the player to face it;
    /// a standing player starts to run, and a running player keeps running,
    /// or starts a dash if the right shoulder is held. A running player
    /// without intent stands still. A dash or an attack counts its frames up
    /// to the last and then ends in standing. Blocking and casting do not
    /// change.
    pub open spec fn acted(self, input: InputState) -> BattlePlayerContext {
        match self.state {
            PlayerState::Standing => {
                if input.btn_down {
                    BattlePlayerContext { state: PlayerState::Attacking(0, ATTACK_FRAMES), ..self }
                } else {
                    match input.intent() {
                        Some(heading) => BattlePlayerContext {
                            facing_vector: heading,
                            state: PlayerState::Running,
                            ..self
                        },
                        None => self,
                    }
                }
            },
            PlayerState::Running => {
                if input.btn_down {
                    BattlePlayerContext { state: PlayerState::Attacking(0, ATTACK_FRAMES), ..self }
                } else {
                    match input.intent() {
                        Some(heading) => BattlePlayerContext {
                            facing_vector: heading,
                            state: if input.right_shoulder {
                                PlayerState::Dashing(0, DASH_FRAMES)
                            } else {
                                PlayerState::Running
                            },
                            ..self
                        },
                        None => BattlePlayerContext { state: PlayerState::Standing, ..self },
                    }
                }
            },
            PlayerState::Dashing(frame, max) => {
                if frame == max {
                    BattlePlayerContext { state: PlayerState::Standing, ..self }
                } else if frame < max {
                    BattlePlayerContext {
                        state: PlayerState::Dashing((frame + 1) as usize, max),
                        ..self
                    }
                } else {
                    self
                }
            },
            PlayerState::Attacking(frame, max) => {
                if frame == max {
                    BattlePlayerContext { state: PlayerState::Standing, ..self }
                } else if frame < max {
                    BattlePlayerContext {
                        state: PlayerState::Attacking((frame + 1) as usize, max),
                        ..self
                    }
                } else {
                    self
                }
            },
            PlayerState::Blocking => self,
            PlayerState::Casting(_, _) => self,
        }
    }

    /// Where the player goes in one tick, in whole units to the right and
    /// upwards: a running step along the intent when a standing or running
    /// player follows it, a dashing step along the facing direction on
    /// every frame of a dash but the last, and nowhere otherwise. A running
    /// player who starts a dash does not move on that tick.
    pub open spec fn tick_step(self, input: InputState) -> (int, int) {
        match self.state {
            PlayerState::Standing => match input.intent() {
                Some(heading) => if input.btn_down {
                    (0, 0)
                } else {
                    heading.step(RUNNING_SPEED)
                },
                None => (0, 0),
            },
            PlayerState::Running => match input.intent() {
                Some(heading) => if input.btn_down || input.right_shoulder {
                    (0, 0)
                } else {
                    heading.step(RUNNING_SPEED)
                },
                None => (0, 0),
            },
            PlayerState::Dashing(frame, max) => if frame < max {
                self.facing_vector.step(DASHING_SPEED)
            } else {
                (0, 0)
            },
            _ => (0, 0),
        }
    }

    /// Whether the step of this tick keeps both coordinates representable.
    pub open spec fn tick_fits(self, input: InputState) -> bool {
        let step = self.tick_step(input);
        &&& i32::MIN <= self.position.x + step.0 <= i32::MAX
        &&& i32::MIN <= self.position.y - step.1 <= i32::MAX
    }

    /// The player one tick later: what `acted` says, moved by `tick_step`.
    /// The screen's y axis points down, so the part of the step that goes up
    /// is subtracted. No fraction of a step is carried over to the next tick.
    pub open spec fn after_tick(self, input: InputState) -> BattlePlayerContext {
        let step = self.tick_step(input);
        BattlePlayerContext {
            position: Point {
                x: (self.position.x + step.0) as i32,
                y: (self.position.y - step.1) as i32,
            },
            ..self.acted(input)
        }
    }

    /// The clip to play on a tick, or the error where a dash or an attack is
    /// found beyond its last frame.
    pub open spec fn tick_outcome(self) -> Result<Option<SoundCue>, GameError> {
        if (self.state is Dashing || self.state is Attacking) && !self.state.wf() {
            Err(GameError::FrameOverrun)
        } else {
            Ok(self.state.entry_sound())
        }
    }

    /// The player after one tick for each of `inputs`, in order.
    pub open spec fn after_ticks(self, inputs: Seq<InputState>) -> BattlePlayerContext
        decreases inputs.len(),
    {
        if inputs.len() == 0 {
            self
        } else {
            self.after_ticks(inputs.drop_last()).after_tick(inputs.last())
        }
    }

    /// The marker to draw for the player.
    pub open spec fn scene(self) -> BattleScene {
        BattleScene {
            marker_center: self.position,
            marker_width: MARKER_SIZE,
            marker_height: MARKER_SIZE,
            marker_color: state_color(self.state),
        }
    }
}

/// The colour that marks a player state: green standing, yellow running,
/// orange dashing, red attacking, magenta casting, dark grey blocking.
pub open spec fn state_color(state: PlayerState) -> Color {
    match state {
        PlayerState::Standing => Color { r: 0, g: 255, b: 0, a: 255 },
        PlayerState::Running => Color { r: 255, g: 255, b: 0, a: 255 },
        PlayerState::Dashing(_, _) => Color { r: 255, g: 165, b: 0, a: 255 },
        PlayerState::Attacking(_, _) => Color { r: 255, g: 0, b: 0, a: 255 },
        PlayerState::Casting(_, _) => Color { r: 255, g: 0, b: 255, a: 255 },
        PlayerState::Blocking => Color { r: 40, g: 40, b: 40, a: 255 },
    }
}

impl BattleContext {
    /// A live battle with the player as spawned.
    pub open spec fn spawned() -> BattleContext {
        BattleContext { state: BattleState::Live, player: BattlePlayerContext::spawned() }
    }

    /// The battle one tick later: the player moves on only while the battle
    /// is live.
    pub open spec fn after_tick(self, input: InputState) -> BattleContext {
        if self.state is Live {
            BattleContext { player: self.player.after_tick(input), ..self }
        } else {
            self
        }
    }

    /// What one tick of the battle reports.
    pub open spec fn tick_outcome(self) -> Result<Option<SoundCue>, GameError> {
        if self.state is Live {
            self.player.tick_outcome()
        } else {
            Ok(None)
        }
    }

    /// Whether the step of this tick, if the battle is live, keeps the
    /// player's coordinates representable.
    pub open spec fn tick_fits(self, input: InputState) -> bool {
        self.state is Live ==> self.player.tick_fits(input)
    }

    /// The session after the battle's handler ran.
    pub open spec fn game_after_tick(game: GameObject, input: InputState) -> GameObject {
        match game.phase {
            GameContext::Battle(battle) => if battle.tick_outcome() is Ok {
                GameObject { phase: GameContext::Battle(battle.after_tick(input)), ..game }
            } else {
                game
            },
            _ => game,
        }
    }

    /// What the battle's handler reports for the session.
    pub open spec fn game_tick_outcome(game: GameObject) -> Result<Option<SoundCue>, GameError> {
        match game.phase {
            GameContext::Battle(battle) => battle.tick_outcome(),
            _ => Err(GameError::WrongPhase),
        }
    }

    /// A fresh battle: live, the player standing at the spawn point and
    /// facing right.
    pub fn new() -> (battle: BattleContext)
        ensures
            battle == BattleContext::spawned(),
    {
        BattleContext {
            state: BattleState::Live,
            player: BattlePlayerContext {
                position: Point { x: SPAWN_X, y: SPAWN_Y },
                facing_vector: Heading::Eighths(0),
                state: PlayerState::Standing,
            },
        }
    }

    /// The battle that a session enters. Nothing is carried over from the
    /// session yet.
    pub fn from_game_object(game_object: &GameObject) -> (battle: BattleContext)
        ensures
            battle == BattleContext::spawned(),
    {
        BattleContext::new()
    }

    /// Runs one tick of the battle phase. Refused with `WrongPhase` while
    /// another phase is active; on any error the session is left as it was.
    pub fn handle_tick(game_obj: &mut GameObject, input_state: &InputState) -> (outcome: Result<
        Option<SoundCue>,
        GameError,
    >)
        requires
            old(game_obj).tick_fits(*input_state),
        ensures
            outcome == BattleContext::game_tick_outcome(*old(game_obj)),
            *final(game_obj) == BattleContext::game_after_tick(*old(game_obj), *input_state),
            outcome is Err ==> *final(game_obj) == *old(game_obj),
            !(old(game_obj).phase is Battle) <==> outcome == Err::<Option<SoundCue>, GameError>(
                GameError::WrongPhase,
            ),
            old(game_obj).phase.wf() ==> final(game_obj).phase.wf(),
    {
        match game_obj.phase {
            GameContext::Battle(battle_context) => {
                match battle_context.state {
                    BattleState::Live => {
                        let mut battle_player = battle_context.player;
                        let outcome = update_battle_player(&mut battle_player, input_state);
                        *game_obj =
                        GameObject {
                            phase: GameContext::Battle(
                                BattleContext { state: battle_context.state, player: battle_player },
                            ),
                            player: game_obj.player,
                        };
                        outcome
                    },
                    BattleState::Starting | BattleState::Paused | BattleState::Finished => Ok(None),
                }
            },
            _ => Err(GameError::WrongPhase),
        }
    }
}

/// Ticks never push a frame counter beyond its maximum: a player whose
/// counter is within range keeps it within range, tick after tick.
pub proof fn lemma_ticks_keep_counter_in_range(player: BattlePlayerContext, inputs: Seq<InputState>)
    requires
        player.state.wf(),
    ensures
        player.after_ticks(inputs).state.wf(),
    decreases inputs.len(),
{
    if inputs.len() > 0 {
        lemma_ticks_keep_counter_in_range(player, inputs.drop_last());
    }
}

/// A dash or an attack counts exactly one frame per tick, whatever the
/// inputs are, for as long as the last frame is not passed, and the player
/// keeps facing the same way meanwhile.
pub proof fn lemma_action_counts_frames(player: BattlePlayerContext, inputs: Seq<InputState>)
    requires
        player.state matches PlayerState::Dashing(frame, max) ==> frame + inputs.len() <= max,
        player.state matches PlayerState::Attacking(frame, max) ==> frame + inputs.len() <= max,
        player.state is Dashing || player.state is Attacking,
    ensures
        player.state matches PlayerState::Dashing(frame, max) ==> player.after_ticks(inputs).state
            == PlayerState::Dashing((frame + inputs.len()) as usize, max),
        player.state matches PlayerState::Attacking(frame, max) ==> player.after_ticks(
            inputs,
        ).state == PlayerState::Attacking((frame + inputs.len()) as usize, max),
        player.after_ticks(inputs).facing_vector == player.facing_vector,
        player.state is Attacking ==> player.after_ticks(inputs).position == player.position,
    decreases inputs.len(),
{
    if inputs.len() > 0 {
        lemma_action_counts_frames(player, inputs.drop_last());
    }
}

/// A dash or an attack ends in standing on the tick that finds it at its
/// last frame: with `frame` of `max` frames done, that is tick number
/// `max - frame + 1`.
pub proof fn lemma_action_ends_standing(player: BattlePlayerContext, inputs: Seq<InputState>)
    requires
        player.state matches PlayerState::Dashing(frame, max) ==> frame + inputs.len() == max + 1,
        player.state matches PlayerState::Attacking(frame, max) ==> frame + inputs.len() == max
            + 1,
        player.state is Dashing || player.state is Attacking,
        player.state.wf(),
    ensures
        player.after_ticks(inputs).state == PlayerState::Standing,
{
    lemma_action_counts_frames(player, inputs.drop_last());
}

/// The sound of a dash or an attack is played once per entry: of the ticks
/// that find the player in the action entered at frame zero, the first one
/// plays it and no later one does.
pub proof fn lemma_entry_sound_once(player: BattlePlayerContext, inputs: Seq<InputState>)
    requires
        player.state matches PlayerState::Dashing(frame, max) ==> frame == 0 && inputs.len()
            <= max,
        player.state matches PlayerState::Attacking(frame, max) ==> frame == 0 && inputs.len()
            <= max,
        player.state is Dashing || player.state is Attacking,
    ensures
        player.after_ticks(inputs).tick_outcome() == Ok::<Option<SoundCue>, GameError>(
            if inputs.len() > 0 {
                None
            } else if player.state is Dashing {
                Some(SoundCue::Chicken)
            } else {
                Some(SoundCue::SwordSwing)
            },
        ),
{
    lemma_action_counts_frames(player, inputs);
}

/// The attack button beats movement: a standing or running player who
/// presses it starts an attack, stays in place and keeps facing as before,
/// whatever the stick and the directional buttons say.
pub proof fn lemma_attack_beats_movement(player: BattlePlayerContext, input: InputState)
    requires
        player.state is Standing || player.state is Running,
        input.btn_down,
    ensures
        player.after_tick(input) == (BattlePlayerContext {
            state: PlayerState::Attacking(0, ATTACK_FRAMES),
            ..player
        }),
        player.tick_outcome() == Ok::<Option<SoundCue>, GameError>(None),
        player.tick_fits(input),
{
}

/// The step that `player` takes on a tick with `input`.
pub fn planned_step(player: &BattlePlayerContext, input: &InputState) -> (step: (i32, i32))
    ensures
        (step.0 as int, step.1 as int) == player.tick_step(*input),
        -(DASHING_SPEED as int) <= step.0 <= DASHING_SPEED,
        -(DASHING_SPEED as int) <= step.1 <= DASHING_SPEED,
{
    match player.state {
        PlayerState::Standing => {
            match get_player_intent_vector(input) {
                Some(heading) => {
                    if input.btn_down {
                        (0, 0)
                    } else {
                        step_of(heading, RUNNING_SPEED)
                    }
                },
                None => (0, 0),
            }
        },
        PlayerState::Running => {
            match get_player_intent_vector(input) {
                Some(heading) => {
                    if input.btn_down || input.right_shoulder {
                        (0, 0)
                    } else {
                        step_of(heading, RUNNING_SPEED)
                    }
                },
                None => (0, 0),
            }
        },
        PlayerState::Dashing(framecount, max_frames) => {
            if framecount < max_frames {
                step_of(player.facing_vector, DASHING_SPEED)
            } else {
                (0, 0)
            }
        },
        _ => (0, 0),
    }
}

/// Whether `update_battle_player` can run on `player` with `input`: whether
/// the step it would take keeps both coordinates representable.
pub fn can_update_battle_player(player: &BattlePlayerContext, input: &InputState) -> (fits: bool)
    ensures
        fits == player.tick_fits(*input),
{
    let (dx, dy) = planned_step(player, input);
    let x: i64 = player.position.x as i64 + dx as i64;
    let y: i64 = player.position.y as i64 - dy as i64;
    -0x8000_0000 <= x && x <= 0x7fff_ffff && -0x8000_0000 <= y && y <= 0x7fff_ffff
}

/// Advances the player by one tick and reports the clip to play. A dash or
/// an attack found beyond its last frame is refused with `FrameOverrun` and
/// the player is left as it was.
pub fn update_battle_player(player: &mut BattlePlayerContext, input: &InputState) -> (outcome:
    Result<Option<SoundCue>, GameError>)
    requires
        old(player).tick_fits(*input),
    ensures
        outcome == old(player).tick_outcome(),
        outcome is Ok ==> *final(player) == old(player).after_tick(*input),
        outcome is Ok ==> final(player).position.x == old(player).position.x + old(player).tick_step(*input).0,
        outcome is Ok ==> final(player).position.y == old(player).position.y - old(player).tick_step(*input).1,
        outcome is Err ==> *final(player) == *old(player),
        outcome is Err <==> (old(player).state is Dashing || old(player).state is Attacking)
            && !old(player).state.wf(),
        outcome matches Ok(sound) ==> sound == old(player).state.entry_sound(),
        old(player).state.wf() ==> final(player).state.wf(),
{
    let (dx, dy) = planned_step(player, input);
    let position = Point { x: player.position.x + dx, y: player.position.y - dy };
    match player.state {
        PlayerState::Standing => {
            if input.btn_down {
                *player =
                BattlePlayerContext {
                    position,
                    state: PlayerState::Attacking(0, ATTACK_FRAMES),
                    ..*player
                };
            } else {
                match get_player_intent_vector(input) {
                    Some(heading) => {
                        *player =
                        BattlePlayerContext {
                            position,
                            facing_vector: heading,
                            state: PlayerState::Running,
                        };
                    },
                    None => {},
                }
            }
            Ok(None)
        },
        PlayerState::Running => {
            if input.btn_down {
                *player =
                BattlePlayerContext {
                    position,
                    state: PlayerState::Attacking(0, ATTACK_FRAMES),
                    ..*player
                };
            } else {
                match get_player_intent_vector(input) {
                    Some(heading) => {
                        let state = if input.right_shoulder {
                            PlayerState::Dashing(0, DASH_FRAMES)
                        } else {
                            PlayerState::Running
                        };
                        *player = BattlePlayerContext { position, facing_vector: heading, state };
                    },
                    None => {
                        *player =
                        BattlePlayerContext { position, state: PlayerState::Standing, ..*player };
                    },
                }
            }
            Ok(None)
        },
        PlayerState::Dashing(framecount, max_frames) => {
            if framecount > max_frames {
                return Err(GameError::FrameOverrun);
            }
            let sound = if framecount == 0 {
                Some(SoundCue::Chicken)
            } else {
                None
            };
            let state = if framecount == max_frames {
                PlayerState::Standing
            } else {
                PlayerState::Dashing(framecount + 1, max_frames)
            };
            *player = BattlePlayerContext { position, state, ..*player };
            Ok(sound)
        },
        PlayerState::Attacking(framecount, max_frames) => {
            if framecount > max_frames {
                return Err(GameError::FrameOverrun);
            }
            let sound = if framecount == 0 {
                Some(SoundCue::SwordSwing)
            } else {
                None
            };
            let state = if framecount == max_frames {
                PlayerState::Standing
            } else {
                PlayerState::Attacking(framecount + 1, max_frames)
            };
            *player = BattlePlayerContext { position, state, ..*player };
            Ok(sound)
        },
        PlayerState::Casting(_, _) => Ok(None),
        PlayerState::Blocking => Ok(None),
    }
}

/// Describes the battle to draw: the player's marker, centred at the
/// player's position and coloured by the player's state.
pub fn render_battle(player: &BattlePlayerContext) -> (scene: BattleScene)
    ensures
        scene == player.scene(),
{
    let marker_color = match player.state {
        PlayerState::Standing => Color::rgb(0, 255, 0),
        PlayerState::Running => Color::rgb(255, 255, 0),
        PlayerState::Dashing(_, _) => Color::rgb(255, 165, 0),
        PlayerState::Attacking(_, _) => Color::rgb(255, 0, 0),
        PlayerState::Casting(_, _) => Color::rgb(255, 0, 255),
        PlayerState::Blocking => Color::rgb(40, 40, 40),
    };
    BattleScene {
        marker_center: player.position,
        marker_width: MARKER_SIZE,
        marker_height: MARKER_SIZE,
        marker_color,
    }
}

} // verus!
