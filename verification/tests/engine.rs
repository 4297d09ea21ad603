use gauntlet::creature::{Creature, CreatureType, FightResult, StatPattern};
use gauntlet::game::{Game, GameResult};
use gauntlet::rng::{RandomSource, SimError};

fn run_to_end(game: &mut Game, rng: &mut RandomSource) -> GameResult {
    loop {
        match game.play(rng, 1_000_000) {
            Some(r) => return r,
            None => {}
        }
    }
}

fn creature(
    max_hp: i64,
    attack: i64,
    defense: i64,
    magic: i64,
    wisdom: i64,
    speed: i64,
) -> Creature {
    Creature {
        name: String::from("fixture"),
        max_hp,
        current_hp: max_hp,
        attack,
        defense,
        magic,
        wisdom,
        speed,
        exp: 0,
        level: 1,
        lives: 3,
        stat_pattern: StatPattern::new(100, 100, 100, 100, 100, 100),
    }
}

#[test]
fn same_seed_same_run() {
    for seed in [0u64, 1, 7, 42, 0xDEAD_BEEF, u64::MAX] {
        let mut rng_a = RandomSource::new(seed);
        let mut game_a = Game::from_rng(&mut rng_a);
        let mut rng_b = RandomSource::new(seed);
        let mut game_b = Game::from_rng(&mut rng_b);

        assert_eq!(game_a.player.max_hp, game_b.player.max_hp);
        assert_eq!(game_a.player.attack, game_b.player.attack);
        assert_eq!(game_a.player.defense, game_b.player.defense);
        assert_eq!(game_a.player.magic, game_b.player.magic);
        assert_eq!(game_a.player.wisdom, game_b.player.wisdom);
        assert_eq!(game_a.player.speed, game_b.player.speed);
        assert_eq!(game_a.response_template, game_b.response_template);
        assert_eq!(game_a.dungeons.len(), game_b.dungeons.len());
        for (da, db) in game_a.dungeons.iter().zip(game_b.dungeons.iter()) {
            assert_eq!(da.get_name(), db.get_name());
        }

        let result_a = run_to_end(&mut game_a, &mut rng_a);
        let result_b = run_to_end(&mut game_b, &mut rng_b);
        assert_eq!(result_a, result_b);
        assert_eq!(game_a.player.level, game_b.player.level);
        assert_eq!(game_a.player.current_hp, game_b.player.current_hp);
        assert_eq!(game_a.player.lives, game_b.player.lives);
    }
}

#[test]
fn generated_creatures_respect_floors() {
    for seed in 0..100u64 {
        let mut rng = RandomSource::new(seed);
        let game = Game::from_rng(&mut rng);
        let p = &game.player;
        assert!(p.max_hp >= 5);
        assert!(p.attack >= 1 && p.defense >= 1 && p.magic >= 1 && p.wisdom >= 1 && p.speed >= 1);
        assert_eq!(p.current_hp, p.max_hp);
        assert_eq!(p.level, 1);
        assert_eq!(p.lives, 3);
        assert_eq!(p.exp, 0);
        for (i, d) in game.dungeons.iter().enumerate() {
            assert_eq!(d.level as usize, i + 1);
            let enemy = d.create_enemy(&mut rng, i % 5 == 4);
            assert!(enemy.max_hp >= 5);
            assert!(
                enemy.attack >= 1
                    && enemy.defense >= 1
                    && enemy.magic >= 1
                    && enemy.wisdom >= 1
                    && enemy.speed >= 1
            );
        }
    }
}

#[test]
fn tiny_pattern_still_floored() {
    // A pattern of all-zero weights must still yield the floors, whatever
    // the jitter drew.
    let mut rng = RandomSource::new(99);
    let pattern = StatPattern::new(0, 0, 0, 0, 0, 0);
    let c = Creature::create(CreatureType::Slime, &pattern, 1, false, &mut rng);
    assert_eq!(c.max_hp, 5);
    assert_eq!(c.attack, 1);
    assert_eq!(c.defense, 1);
    assert_eq!(c.magic, 1);
    assert_eq!(c.wisdom, 1);
    assert_eq!(c.speed, 1);
}

#[test]
fn boss_names_carry_prefix() {
    let mut rng = RandomSource::new(3);
    let pattern = StatPattern::new(100, 100, 100, 100, 100, 100);
    let boss = Creature::create(CreatureType::Orc, &pattern, 2, true, &mut rng);
    assert_eq!(boss.name, "Boss Orc");
    let plain = Creature::create(CreatureType::Orc, &pattern, 2, false, &mut rng);
    assert_eq!(plain.name, "Orc");
}

#[test]
fn fight_exact_exchange() {
    // Player is faster: exchanges 6 damage against 1 until the enemy drops.
    let mut p = creature(20, 10, 5, 1, 1, 5);
    let mut e = creature(10, 6, 4, 1, 1, 3);
    let r = p.fight(&mut e);
    assert!(matches!(r, FightResult::Win));
    assert_eq!(p.current_hp, 19);
    assert_eq!(e.current_hp, -2);
}

#[test]
fn fight_speed_tie_favors_initiator() {
    // Equal speed and symmetric one-shot damage: the initiator acts first
    // and wins.
    let mut p = creature(5, 10, 1, 1, 1, 4);
    let mut e = creature(5, 10, 1, 1, 1, 4);
    let r = p.fight(&mut e);
    assert!(matches!(r, FightResult::Win));
    assert_eq!(p.current_hp, 5);
    assert!(e.current_hp <= 0);
}

#[test]
fn fight_terminates_on_stalemate_stats() {
    // Both sides chip a single point per turn: combat still ends.
    let mut p = creature(300, 1, 50, 1, 50, 2);
    let mut e = creature(299, 1, 50, 1, 50, 1);
    let r = p.fight(&mut e);
    assert!(matches!(r, FightResult::Win));
    assert!(e.current_hp <= 0);
}

#[test]
fn award_win_accumulates_experience() {
    let mut p = creature(20, 10, 5, 1, 1, 5);
    let e = creature(10, 6, 4, 1, 1, 3);
    p.award_win(&e);
    assert_eq!(p.exp, 12);
    assert_eq!(p.level, 1);
    assert_eq!(p.max_hp, 20);
}

#[test]
fn award_win_levels_up_and_replenishes_life() {
    let mut p = creature(20, 10, 5, 2, 1, 5);
    p.exp = 95;
    p.lives = 1;
    p.current_hp = 3;
    let e = creature(10, 6, 4, 1, 1, 3);
    p.award_win(&e);
    // 95 + 12 = 107: one level-up, 7 experience kept, one life back.
    assert_eq!(p.level, 2);
    assert_eq!(p.exp, 7);
    assert_eq!(p.lives, 2);
    // Growth: hp +20*1.00, attack +5*1.00, magic +5*1.00 of the pattern.
    assert_eq!(p.max_hp, 40);
    assert_eq!(p.attack, 15);
    assert_eq!(p.magic, 7);
    assert_eq!(p.current_hp, p.max_hp);
}

#[test]
fn lives_cap_at_three() {
    let mut p = creature(20, 10, 5, 1, 1, 5);
    p.exp = 99;
    assert_eq!(p.lives, 3);
    let e = creature(10, 6, 4, 1, 1, 3);
    p.award_win(&e);
    assert_eq!(p.level, 2);
    assert_eq!(p.lives, 3);
}

#[test]
fn empty_choice_set_is_invalid_argument() {
    let mut rng = RandomSource::new(0);
    assert_eq!(rng.choose_index(0), Err(SimError::InvalidArgument));
    // Nothing was drawn: the next draw still matches a fresh source.
    let mut fresh = RandomSource::new(0);
    assert_eq!(rng.next_u64(), fresh.next_u64());
}

#[test]
fn choose_index_stays_in_range() {
    let mut rng = RandomSource::new(5);
    for len in 1..20usize {
        let idx = rng.choose_index(len).unwrap();
        assert!(idx < len);
    }
}

#[test]
fn backtrack_on_first_encounter_loss() {
    // A hopeless player in the second dungeon, first encounter, with lives
    // to spare: one step must move the cursor back to the first dungeon.
    let mut rng = RandomSource::new(11);
    let mut game = Game::from_rng(&mut rng);
    assert!(game.dungeons.len() >= 2);
    game.dungeon_index = 1;
    game.encounter_index = 0;
    game.player = creature(5, 1, 1, 1, 1, 1);
    let stepped = game.step(&mut rng);
    assert_eq!(stepped, None);
    assert_eq!(game.dungeon_index, 0);
    assert_eq!(game.encounter_index, 0);
    assert_eq!(game.player.lives, 2);
    assert_eq!(game.player.current_hp, game.player.max_hp);
}

#[test]
fn same_dungeon_retry_off_first_encounter() {
    // A loss on a later encounter retries the same dungeon from the start.
    let mut rng = RandomSource::new(11);
    let mut game = Game::from_rng(&mut rng);
    assert!(game.dungeons.len() >= 2);
    game.dungeon_index = 1;
    game.encounter_index = 2;
    game.player = creature(5, 1, 1, 1, 1, 1);
    let stepped = game.step(&mut rng);
    assert_eq!(stepped, None);
    assert_eq!(game.dungeon_index, 1);
    assert_eq!(game.encounter_index, 0);
    assert_eq!(game.player.lives, 2);
}

#[test]
fn last_life_loss_ends_run_with_progress() {
    let mut rng = RandomSource::new(11);
    let mut game = Game::from_rng(&mut rng);
    game.dungeon_index = 2;
    game.encounter_index = 3;
    let mut weakling = creature(5, 1, 1, 1, 1, 1);
    weakling.lives = 0;
    game.player = weakling;
    let stepped = game.step(&mut rng);
    assert_eq!(stepped, Some(GameResult::Loss(2)));
    assert_eq!(game.player.lives, 0);
    assert_eq!(game.dungeon_index, 2);
    assert_eq!(game.encounter_index, 3);
}

#[test]
fn chunked_play_matches_full_play() {
    // Resuming the run one encounter at a time decides it exactly as one
    // big budget does.
    for seed in [2u64, 9, 123, 4096] {
        let mut rng_full = RandomSource::new(seed);
        let mut game_full = Game::from_rng(&mut rng_full);
        let result_full = run_to_end(&mut game_full, &mut rng_full);

        let mut rng_chunked = RandomSource::new(seed);
        let mut game_chunked = Game::from_rng(&mut rng_chunked);
        let result_chunked = loop {
            match game_chunked.play(&mut rng_chunked, 1) {
                Some(r) => break r,
                None => {}
            }
        };

        assert_eq!(result_full, result_chunked);
        assert_eq!(game_full.player.level, game_chunked.player.level);
        assert_eq!(game_full.player.current_hp, game_chunked.player.current_hp);
        assert_eq!(game_full.player.exp, game_chunked.player.exp);
    }
}

#[test]
fn lives_stay_in_budget_across_a_run() {
    for seed in 0..30u64 {
        let mut rng = RandomSource::new(seed);
        let mut game = Game::from_rng(&mut rng);
        let mut guard = 0u64;
        loop {
            assert!(game.player.lives >= 0 && game.player.lives <= 3);
            if game.dungeon_index >= game.dungeons.len() {
                break;
            }
            if game.step(&mut rng).is_some() {
                break;
            }
            guard += 1;
            if guard > 2_000_000 {
                panic!("run did not settle within the step budget");
            }
        }
        assert!(game.player.lives >= 0 && game.player.lives <= 3);
    }
}
