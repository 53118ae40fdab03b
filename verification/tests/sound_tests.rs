use game_core::sound_manager::{PlayAction, Playback, SoundManager};

#[test]
fn new_registry_is_empty() {
    let manager = SoundManager::new();
    assert_eq!(manager.len(), 0);
    assert_eq!(manager.get("bg"), None);
}

#[test]
fn first_play_opens_a_handle() {
    let mut manager = SoundManager::new();
    assert_eq!(manager.play("bg", false), Playback { slot: 0, action: PlayAction::Open });
    assert_eq!(manager.play("chicken", true), Playback { slot: 1, action: PlayAction::Open });
    assert_eq!(manager.len(), 2);
    assert_eq!(manager.get("bg"), Some(0));
    assert_eq!(manager.get("chicken"), Some(1));
    assert_eq!(manager.get("swordswing"), None);
}

#[test]
fn replay_replaces_what_is_playing() {
    let mut manager = SoundManager::new();
    assert_eq!(manager.play("x", true), Playback { slot: 0, action: PlayAction::Open });
    assert_eq!(manager.play("x", false), Playback { slot: 0, action: PlayAction::Replace });
    assert_eq!(manager.len(), 1);
    assert_eq!(manager.cleanup(&vec![false]), Vec::<usize>::new());
    assert_eq!(manager.get("x"), Some(0));
    assert_eq!(manager.cleanup(&vec![true]), vec![0]);
    assert_eq!(manager.len(), 0);
    assert_eq!(manager.get("x"), None);
}

#[test]
fn replay_on_an_idle_handle_appends() {
    let mut manager = SoundManager::new();
    manager.play("a", true);
    manager.play("b", true);
    assert_eq!(manager.play("b", true), Playback { slot: 1, action: PlayAction::Append });
    assert_eq!(manager.play("a", true), Playback { slot: 0, action: PlayAction::Append });
    assert_eq!(manager.play("a", false), Playback { slot: 0, action: PlayAction::Replace });
    assert_eq!(manager.len(), 2);
}

#[test]
fn cleanup_with_nothing_idle_changes_nothing() {
    let mut manager = SoundManager::new();
    assert_eq!(manager.cleanup(&vec![]), Vec::<usize>::new());
    assert_eq!(manager.cleanup(&vec![true, true]), Vec::<usize>::new());
    manager.play("a", true);
    manager.play("b", true);
    manager.play("c", true);
    assert_eq!(manager.cleanup(&vec![false, false, false]), Vec::<usize>::new());
    assert_eq!(manager.cleanup(&vec![]), Vec::<usize>::new());
    assert_eq!(manager.cleanup(&vec![false, false, false, true]), Vec::<usize>::new());
    assert_eq!((manager.get("a"), manager.get("b"), manager.get("c")), (Some(0), Some(1), Some(2)));
}

#[test]
fn cleanup_releases_the_idle_slots_and_closes_ranks() {
    let mut manager = SoundManager::new();
    for name in ["a", "b", "c", "d", "e"] {
        manager.play(name, true);
    }
    assert_eq!(manager.cleanup(&vec![true, false, true, true, false]), vec![0, 2, 3]);
    assert_eq!(manager.len(), 2);
    assert_eq!(manager.get("b"), Some(0));
    assert_eq!(manager.get("e"), Some(1));
    assert_eq!(manager.get("a"), None);
    assert_eq!(manager.play("a", false), Playback { slot: 2, action: PlayAction::Open });
}

#[test]
fn cleanup_treats_missing_reports_as_busy() {
    let mut manager = SoundManager::new();
    for name in ["a", "b", "c"] {
        manager.play(name, true);
    }
    assert_eq!(manager.cleanup(&vec![false, true]), vec![1]);
    assert_eq!((manager.get("a"), manager.get("c")), (Some(0), Some(1)));
}

#[test]
fn cleanup_of_everything() {
    let mut manager = SoundManager::new();
    for name in ["a", "b"] {
        manager.play(name, true);
    }
    assert_eq!(manager.cleanup(&vec![true, true, true]), vec![0, 1]);
    assert_eq!(manager.len(), 0);
}

#[test]
fn names_are_compared_exactly() {
    let mut manager = SoundManager::new();
    manager.play("", true);
    manager.play("Chicken", true);
    assert_eq!(manager.get(""), Some(0));
    assert_eq!(manager.get("chicken"), None);
    assert_eq!(manager.get("Chicken "), None);
    assert_eq!(manager.play("chicken", true), Playback { slot: 2, action: PlayAction::Open });
}
