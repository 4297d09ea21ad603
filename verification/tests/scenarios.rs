use gauntlet::game::{Game, GameResult};
use gauntlet::rng::RandomSource;
use gauntlet::text::{greeting_parts, substitute};

fn run_seed(seed: u64) -> (Game, GameResult) {
    let mut rng = RandomSource::new(seed);
    let mut game = Game::from_rng(&mut rng);
    let result = loop {
        match game.play(&mut rng, 1_000_000) {
            Some(r) => break r,
            None => {}
        }
    };
    (game, result)
}

#[test]
fn winning_seed_full_greeting() {
    // Fixture: this seed builds this player, a 36-part template with 36
    // dungeons at levels 1 through 36, survives the whole gauntlet, and the
    // full template is shown with the name substituted.
    let mut rng = RandomSource::new(0);
    let game = Game::from_rng(&mut rng);
    assert_eq!(game.player.max_hp, 32);
    assert_eq!(game.player.attack, 16);
    assert_eq!(game.player.defense, 11);
    assert_eq!(game.player.magic, 13);
    assert_eq!(game.player.wisdom, 6);
    assert_eq!(game.player.speed, 2);
    assert_eq!(game.response_template_parts.len(), 36);
    assert_eq!(game.dungeons.len(), 36);
    for (i, d) in game.dungeons.iter().enumerate() {
        assert_eq!(d.level as usize, i + 1);
    }
    assert_eq!(game.dungeons[0].get_name(), "Geyser of Dubious Lies (lv. 1)");

    let (game, result) = run_seed(0);
    assert_eq!(result, GameResult::Win);
    assert_eq!(game.player.level, 30);
    assert_eq!(game.player.lives, 3);
    assert_eq!(game.player.exp, 76);
    assert_eq!(game.player.max_hp, 989);

    let greeting = substitute(game.response_template.as_str(), "Tester");
    assert!(greeting.starts_with("Hey Tester! Have you ever wondered"));
    assert!(!greeting.contains("{}"));
}

#[test]
fn losing_seed_partial_greeting() {
    // Fixture: this seed runs out of lives in the third dungeon, on its
    // last encounter; the loss reports two dungeons of progress and the
    // greeting shows exactly the first two template parts.
    let (game, result) = run_seed(1);
    assert_eq!(result, GameResult::Loss(2));
    assert_eq!(game.dungeon_index, 2);
    assert_eq!(game.encounter_index, 4);
    assert_eq!(game.player.lives, 0);
    assert_eq!(game.response_template, "Hello, {}! Nice to meet you!");
    assert_eq!(game.response_template_parts.len(), 6);
    let greeting = greeting_parts(&game.response_template_parts, 2, "Tester");
    assert_eq!(greeting, "Hello, Tester!");
}
