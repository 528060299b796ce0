use sync_primitives::game_state::{Effect, GameEvent, GameState, Item, Player};

fn hero() -> Player {
    Player {
        id: 1,
        name: String::from("Hero"),
        health: 100,
        inventory: vec![
            Item::Weapon { name: String::from("Sword"), damage: 25 },
            Item::Armor { name: String::from("Shield"), defense: 15 },
            Item::Consumable {
                name: String::from("Health Potion"),
                effect: Effect::Heal(50),
            },
        ],
    }
}

#[test]
fn game_state_follows_the_happy_path() {
    let mut game = GameState::Menu;

    game.transition(GameEvent::StartGame(hero()));
    match &game {
        GameState::Playing { level, score, player } => {
            assert_eq!(*level, 1);
            assert_eq!(*score, 0);
            assert_eq!(player.name, "Hero");
            assert_eq!(player.inventory.len(), 3);
        }
        _ => panic!("expected Playing"),
    }

    game.transition(GameEvent::Pause);
    match &game {
        GameState::Paused { level, score } => {
            assert_eq!(*level, 1);
            assert_eq!(*score, 0);
        }
        _ => panic!("expected Paused"),
    }

    game.transition(GameEvent::Resume(hero()));
    assert!(matches!(game, GameState::Playing { .. }));

    game.transition(GameEvent::EndGame(500));
    match &game {
        GameState::GameOver { final_score, high_score } => {
            assert_eq!(*final_score, 0);
            assert_eq!(*high_score, 500);
        }
        _ => panic!("expected GameOver"),
    }
}

#[test]
fn game_state_ignores_events_with_no_arrow() {
    let mut game = GameState::Menu;
    game.transition(GameEvent::Pause);
    assert!(matches!(game, GameState::Menu));

    game.transition(GameEvent::EndGame(9));
    assert!(matches!(game, GameState::Menu));

    let mut over = GameState::GameOver { final_score: 3, high_score: 7 };
    over.transition(GameEvent::StartGame(hero()));
    match &over {
        GameState::GameOver { final_score, high_score } => {
            assert_eq!(*final_score, 3);
            assert_eq!(*high_score, 7);
        }
        _ => panic!("expected GameOver"),
    }
}
