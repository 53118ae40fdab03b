use game_core::game_context::{GameContext, GameError, GameObject, Player};
use game_core::input::{Heading, InputState};
use game_core::pacer::{pace_frame, FramePacing, TARGET_FPS, TARGET_FRAME_MILLIS};
use game_core::scene::{BattleScene, Color, Point, Scene, StartScene};
use game_core::screens::battle::{
    BattleContext, BattlePlayerContext, BattleState, PlayerState, SoundCue,
};
use game_core::screens::start::{StartScreenContext, StartScreenState};

const RESERVED: [GameContext; 4] = [
    GameContext::Walking,
    GameContext::PartyMenu,
    GameContext::ForcedAction,
    GameContext::Conversation,
];

#[test]
fn reserved_phases_refuse_a_tick() {
    let mut input = InputState::new();
    input.btn_start = true;
    for phase in RESERVED {
        let mut game = GameObject { phase, player: Some(Player {}) };
        assert_eq!(game.handle_tick(&input), Err(GameError::NotImplemented));
        assert_eq!(game, GameObject { phase, player: Some(Player {}) });
    }
}

#[test]
fn reserved_phases_refuse_a_draw() {
    for phase in RESERVED {
        let game = GameObject { phase, player: None };
        assert_eq!(game.render(), Err(GameError::NotImplemented));
    }
}

#[test]
fn tick_is_dispatched_to_the_start_screen() {
    let mut game = GameObject {
        phase: GameContext::StartScreen(StartScreenContext::new()),
        player: None,
    };
    assert_eq!(game.handle_tick(&InputState::new()), Ok(None));
    assert_eq!(
        game.phase,
        GameContext::StartScreen(StartScreenContext { state: StartScreenState::FadeIn(1, 30) })
    );
}

#[test]
fn tick_is_dispatched_to_the_battle() {
    let mut game = GameObject { phase: GameContext::Battle(BattleContext::new()), player: None };
    let mut input = InputState::new();
    input.dpad_left = true;
    input.dpad_down = true;
    assert!(game.can_tick(&input));
    assert_eq!(game.handle_tick(&input), Ok(None));
    let expected = BattleContext {
        state: BattleState::Live,
        player: BattlePlayerContext {
            position: Point { x: 49, y: 301 },
            facing_vector: Heading::Eighths(5),
            state: PlayerState::Running,
        },
    };
    assert_eq!(game.phase, GameContext::Battle(expected));
}

#[test]
fn overrun_surfaces_through_the_dispatcher() {
    let mut game = GameObject {
        phase: GameContext::StartScreen(StartScreenContext { state: StartScreenState::FadeOut(9, 8) }),
        player: None,
    };
    assert_eq!(game.handle_tick(&InputState::new()), Err(GameError::FrameOverrun));
}

#[test]
fn from_start_to_first_attack() {
    let mut game = GameObject {
        phase: GameContext::StartScreen(StartScreenContext::new()),
        player: Some(Player {}),
    };
    let mut input = InputState::new();
    for _ in 0..31 {
        game.handle_tick(&input).unwrap();
    }
    input.btn_start = true;
    game.handle_tick(&input).unwrap();
    input.btn_start = false;
    for _ in 0..31 {
        game.handle_tick(&input).unwrap();
    }
    assert_eq!(game.phase, GameContext::Battle(BattleContext::new()));
    input.btn_down = true;
    assert_eq!(game.handle_tick(&input), Ok(None));
    assert_eq!(game.handle_tick(&input), Ok(Some(SoundCue::SwordSwing)));
    for _ in 0..30 {
        assert_eq!(game.handle_tick(&input), Ok(None));
    }
    match game.phase {
        GameContext::Battle(battle) => assert_eq!(battle.player.state, PlayerState::Standing),
        _ => panic!("the battle phase was left"),
    }
}

#[test]
fn draw_is_dispatched_by_phase() {
    let game = GameObject {
        phase: GameContext::StartScreen(StartScreenContext { state: StartScreenState::Waiting }),
        player: None,
    };
    assert_eq!(game.render(), Ok(Scene::StartScreen(StartScene { overlay: None })));
    let game = GameObject { phase: GameContext::Battle(BattleContext::new()), player: None };
    assert_eq!(
        game.render(),
        Ok(Scene::Battle(BattleScene {
            marker_center: Point { x: 50, y: 300 },
            marker_width: 50,
            marker_height: 50,
            marker_color: Color { r: 0, g: 255, b: 0, a: 255 },
        }))
    );
}

#[test]
fn colour_is_opaque() {
    assert_eq!(Color::rgb(1, 2, 3), Color { r: 1, g: 2, b: 3, a: 255 });
}

#[test]
fn can_tick_looks_at_a_live_battle_only() {
    let mut right = InputState::new();
    right.dpad_right = true;
    let edge = BattlePlayerContext {
        position: Point { x: i32::MAX, y: 0 },
        facing_vector: Heading::Eighths(0),
        state: PlayerState::Running,
    };
    let live = BattleContext { state: BattleState::Live, player: edge };
    let game = GameObject { phase: GameContext::Battle(live), player: None };
    assert!(!game.can_tick(&right));
    assert!(game.can_tick(&InputState::new()));
    for state in [BattleState::Starting, BattleState::Paused, BattleState::Finished] {
        let battle = BattleContext { state, player: edge };
        let mut game = GameObject { phase: GameContext::Battle(battle), player: None };
        assert!(game.can_tick(&right));
        assert_eq!(game.handle_tick(&right), Ok(None));
        assert_eq!(game.phase, GameContext::Battle(battle));
    }
    for phase in RESERVED {
        assert!(GameObject { phase, player: None }.can_tick(&right));
    }
    let start = GameObject { phase: GameContext::StartScreen(StartScreenContext::new()), player: None };
    assert!(start.can_tick(&right));
}

#[test]
fn pacing_constants() {
    assert_eq!(TARGET_FPS, 60);
    assert_eq!(TARGET_FRAME_MILLIS, 16);
}

#[test]
fn early_frames_wait_for_the_rest() {
    assert_eq!(pace_frame(0, 16_000_000), FramePacing::Wait(16_000_000));
    assert_eq!(pace_frame(4_000_000, 16_000_000), FramePacing::Wait(12_000_000));
    assert_eq!(pace_frame(15_999_999, 16_000_000), FramePacing::Wait(1));
}

#[test]
fn late_frames_are_dropped() {
    assert_eq!(pace_frame(16_000_000, 16_000_000), FramePacing::Dropped);
    assert_eq!(pace_frame(16_000_001, 16_000_000), FramePacing::Dropped);
    assert_eq!(pace_frame(u128::MAX, 0), FramePacing::Dropped);
    assert_eq!(pace_frame(0, 0), FramePacing::Dropped);
}

#[test]
fn only_fades_with_a_length_and_within_it_are_drawable() {
    let start = |state| GameObject {
        phase: GameContext::StartScreen(StartScreenContext { state }),
        player: None,
    };
    assert!(start(StartScreenState::Waiting).can_render());
    assert!(start(StartScreenState::FadeIn(0, 30)).can_render());
    assert!(start(StartScreenState::FadeOut(30, 30)).can_render());
    assert!(start(StartScreenState::FadeIn(1, 1)).can_render());
    assert!(!start(StartScreenState::FadeIn(0, 0)).can_render());
    assert!(!start(StartScreenState::FadeOut(0, 0)).can_render());
    assert!(!start(StartScreenState::FadeIn(31, 30)).can_render());
    assert!(!start(StartScreenState::FadeOut(2, 1)).can_render());
    assert!(GameObject { phase: GameContext::Battle(BattleContext::new()), player: None }.can_render());
    for phase in RESERVED {
        assert!(GameObject { phase, player: None }.can_render());
    }
}
