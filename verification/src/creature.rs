use vstd::prelude::*;
use vstd::string::StringExecFns;
use vstd::math::{max, min};
use vstd::pervasive::unreached;
use crate::rng::{RandomSource, rng_word};

verus! {

/// Upper bound accepted for a stat-pattern multiplier, in hundredths.
/// Keeps every stat computation inside `i64`.
pub const PATTERN_LIMIT: u32 = 1000000;

/// Upper bound accepted for a scaling level. Keeps every stat computation
/// inside `i64`.
pub const LEVEL_LIMIT: u32 = 1000000;

/// The closed roster of creature archetypes.
#[derive(Clone, Copy, Debug, PartialEq, Eq, Structural)]
pub enum CreatureType {
    Player,
    Bat,
    Dog,
    Goblin,
    Slime,
    Orc,
    Kitsune,
    Pixie,
    HighOrc,
    Golem,
}

/// Relative stat weighting of a creature archetype. Each field is a
/// multiplier in hundredths: 150 stands for a weight of 1.5.
#[derive(Clone, Copy, Debug, PartialEq, Eq, Structural)]
pub struct StatPattern {
    pub hp: u32,
    pub attack: u32,
    pub defense: u32,
    pub magic: u32,
    pub wisdom: u32,
    pub speed: u32,
}

/// Mathematical model of a stat pattern.
pub struct PatternModel {
    pub hp: int,
    pub attack: int,
    pub defense: int,
    pub magic: int,
    pub wisdom: int,
    pub speed: int,
}

impl PatternModel {
    /// Stat weights are never negative.
    pub open spec fn nonneg(self) -> bool {
        &&& self.hp >= 0
        &&& self.attack >= 0
        &&& self.defense >= 0
        &&& self.magic >= 0
        &&& self.wisdom >= 0
        &&& self.speed >= 0
    }

    /// All weights at most `PATTERN_LIMIT` hundredths.
    pub open spec fn bounded(self) -> bool {
        &&& 0 <= self.hp <= PATTERN_LIMIT
        &&& 0 <= self.attack <= PATTERN_LIMIT
        &&& 0 <= self.defense <= PATTERN_LIMIT
        &&& 0 <= self.magic <= PATTERN_LIMIT
        &&& 0 <= self.wisdom <= PATTERN_LIMIT
        &&& 0 <= self.speed <= PATTERN_LIMIT
    }
}

impl View for StatPattern {
    type V = PatternModel;

    open spec fn view(&self) -> PatternModel {
        PatternModel {
            hp: self.hp as int,
            attack: self.attack as int,
            defense: self.defense as int,
            magic: self.magic as int,
            wisdom: self.wisdom as int,
            speed: self.speed as int,
        }
    }
}

impl StatPattern {
    pub fn new(hp: u32, attack: u32, defense: u32, magic: u32, wisdom: u32, speed: u32) -> (p:
        StatPattern)
        ensures
            p == (StatPattern { hp, attack, defense, magic, wisdom, speed }),
    {
        StatPattern { hp, attack, defense, magic, wisdom, speed }
    }

    /// Scales every weight by `multiplier` hundredths, rounding down.
    pub fn multiply(&mut self, multiplier: u32)
        requires
            old(self)@.hp * multiplier <= 100 * (u32::MAX as int),
            old(self)@.attack * multiplier <= 100 * (u32::MAX as int),
            old(self)@.defense * multiplier <= 100 * (u32::MAX as int),
            old(self)@.magic * multiplier <= 100 * (u32::MAX as int),
            old(self)@.wisdom * multiplier <= 100 * (u32::MAX as int),
            old(self)@.speed * multiplier <= 100 * (u32::MAX as int),
        ensures
            final(self)@.hp == old(self)@.hp * multiplier / 100,
            final(self)@.attack == old(self)@.attack * multiplier / 100,
            final(self)@.defense == old(self)@.defense * multiplier / 100,
            final(self)@.magic == old(self)@.magic * multiplier / 100,
            final(self)@.wisdom == old(self)@.wisdom * multiplier / 100,
            final(self)@.speed == old(self)@.speed * multiplier / 100,
    {
        self.hp = ((self.hp as u64 * multiplier as u64) / 100) as u32;
        self.attack = ((self.attack as u64 * multiplier as u64) / 100) as u32;
        self.defense = ((self.defense as u64 * multiplier as u64) / 100) as u32;
        self.magic = ((self.magic as u64 * multiplier as u64) / 100) as u32;
        self.wisdom = ((self.wisdom as u64 * multiplier as u64) / 100) as u32;
        self.speed = ((self.speed as u64 * multiplier as u64) / 100) as u32;
    }
}

/// A combat entity: the player or one spawned enemy.
#[derive(Debug)]
pub struct Creature {
    pub name: String,
    pub max_hp: i64,
    pub current_hp: i64,
    pub attack: i64,
    pub defense: i64,
    pub magic: i64,
    pub wisdom: i64,
    pub speed: i64,
    pub exp: i64,
    pub level: i64,
    pub lives: i64,
    pub stat_pattern: StatPattern,
}

/// Mathematical model of a creature.
pub struct CreatureModel {
    pub name: Seq<char>,
    pub max_hp: int,
    pub current_hp: int,
    pub attack: int,
    pub defense: int,
    pub magic: int,
    pub wisdom: int,
    pub speed: int,
    pub exp: int,
    pub level: int,
    pub lives: int,
    pub stat_pattern: PatternModel,
}

impl View for Creature {
    type V = CreatureModel;

    open spec fn view(&self) -> CreatureModel {
        CreatureModel {
            name: self.name@,
            max_hp: self.max_hp as int,
            current_hp: self.current_hp as int,
            attack: self.attack as int,
            defense: self.defense as int,
            magic: self.magic as int,
            wisdom: self.wisdom as int,
            speed: self.speed as int,
            exp: self.exp as int,
            level: self.level as int,
            lives: self.lives as int,
            stat_pattern: self.stat_pattern@,
        }
    }
}

impl CreatureModel {
    /// The stats a creature fights with, floored as generation guarantees.
    pub open spec fn combat_ready(self) -> bool {
        &&& self.attack >= 1
        &&& self.defense >= 1
        &&& self.magic >= 1
        &&& self.wisdom >= 1
        &&& self.speed >= 1
    }

    /// Well-formedness of a generated creature: every stat at its designed
    /// floor, level at least one, lives within the retry budget, experience
    /// below the level-up threshold.
    pub open spec fn wf(self) -> bool {
        &&& self.max_hp >= 5
        &&& self.combat_ready()
        &&& self.level >= 1
        &&& 0 <= self.lives <= 3
        &&& 0 <= self.exp < 100
        &&& self.stat_pattern.nonneg()
    }
}

/// Two creatures that agree on everything but their current hit points.
pub open spec fn stats_match(a: CreatureModel, b: CreatureModel) -> bool {
    &&& a.name == b.name
    &&& a.max_hp == b.max_hp
    &&& a.attack == b.attack
    &&& a.defense == b.defense
    &&& a.magic == b.magic
    &&& a.wisdom == b.wisdom
    &&& a.speed == b.speed
    &&& a.exp == b.exp
    &&& a.level == b.level
    &&& a.lives == b.lives
    &&& a.stat_pattern == b.stat_pattern
}

/// Clamps an integer into the `i64` range.
pub open spec fn sat64(x: int) -> int {
    if x > i64::MAX {
        i64::MAX as int
    } else if x < i64::MIN {
        i64::MIN as int
    } else {
        x
    }
}

/// `i64` addition, saturating at the ends of the range.
pub fn sat_add_i64(a: i64, b: i64) -> (r: i64)
    ensures
        r == sat64(a + b),
{
    if b >= 0 {
        if a <= i64::MAX - b {
            a + b
        } else {
            i64::MAX
        }
    } else {
        if a >= i64::MIN - b {
            a + b
        } else {
            i64::MIN
        }
    }
}

/// One level-up: level and every stat grow (saturating in `i64`), one life
/// comes back up to the cap of three, one hundred experience is spent, and
/// the creature fully heals.
pub open spec fn grown(c: CreatureModel) -> CreatureModel {
    let new_max_hp = sat64(c.max_hp + 20 * c.stat_pattern.hp / 100);
    CreatureModel {
        max_hp: new_max_hp,
        current_hp: new_max_hp,
        attack: sat64(c.attack + 5 * c.stat_pattern.attack / 100),
        defense: sat64(c.defense + 5 * c.stat_pattern.defense / 100),
        magic: sat64(c.magic + 5 * c.stat_pattern.magic / 100),
        wisdom: sat64(c.wisdom + 5 * c.stat_pattern.wisdom / 100),
        speed: sat64(c.speed + 5 * c.stat_pattern.speed / 100),
        exp: c.exp - 100,
        level: sat64(c.level + 1),
        lives: min(c.lives + 1, 3),
        ..c
    }
}

/// Levels up while at least one hundred experience is accumulated.
pub open spec fn spec_level_loop(c: CreatureModel) -> CreatureModel
    decreases c.exp,
{
    if c.exp < 100 {
        c
    } else {
        spec_level_loop(grown(c))
    }
}

/// The creature after a win over an enemy of level `other_level`: the
/// awarded experience is `max(other_level - (level - 1), 1) * 12`, then every
/// paid-for level-up is applied.
pub open spec fn spec_award(c: CreatureModel, other_level: int) -> CreatureModel {
    let increase = sat64(12 * max(other_level - (c.level - 1), 1));
    spec_level_loop(CreatureModel { exp: sat64(c.exp + increase), ..c })
}

/// Damage of one attack: the better of the physical and the magical
/// exchange, never below one.
pub open spec fn spec_damage(attacker: CreatureModel, defender: CreatureModel) -> int {
    max(max(attacker.attack - defender.defense, 1), max(attacker.magic - defender.wisdom, 1))
}

/// The defender after one attack has landed on it.
pub open spec fn damaged(defender: CreatureModel, attacker: CreatureModel) -> CreatureModel {
    CreatureModel { current_hp: defender.current_hp - spec_damage(attacker, defender), ..defender }
}

/// Outcome of a combat, relative to the creature that started it.
#[derive(Clone, Copy, Debug, PartialEq, Eq, Structural)]
pub enum FightResult {
    Win,
    Loss,
}

/// Whose turn it is inside a combat.
#[derive(Clone, Copy, PartialEq, Eq, Structural)]
pub enum Turn {
    Player,
    Enemy,
}

/// Combat measure: total hit points still above water on both sides.
pub open spec fn hp_measure(p: CreatureModel, e: CreatureModel) -> int {
    max(p.current_hp, 0) + max(e.current_hp, 0)
}

/// The side that acts first: speed decides, ties favour the initiator.
pub open spec fn initial_turn(p: CreatureModel, e: CreatureModel) -> Turn {
    if p.speed >= e.speed {
        Turn::Player
    } else {
        Turn::Enemy
    }
}

/// Combat resolution from a given turn: before anyone acts, a combatant at
/// or below zero hit points loses; otherwise the side to act attacks and the
/// turn passes.
pub open spec fn spec_fight_from(p: CreatureModel, e: CreatureModel, t: Turn) -> (FightResult,
    CreatureModel, CreatureModel)
    decreases hp_measure(p, e),
{
    if p.current_hp <= 0 {
        (FightResult::Loss, p, e)
    } else if e.current_hp <= 0 {
        (FightResult::Win, p, e)
    } else if t == Turn::Player {
        spec_fight_from(p, damaged(e, p), Turn::Enemy)
    } else {
        spec_fight_from(damaged(p, e), e, Turn::Player)
    }
}

/// Full combat resolution: result, final initiator, final opponent.
pub open spec fn spec_fight(p: CreatureModel, e: CreatureModel) -> (FightResult, CreatureModel,
    CreatureModel) {
    spec_fight_from(p, e, initial_turn(p, e))
}

/// Combat never touches anything but current hit points: names, stats,
/// experience, level, lives and patterns of both sides survive a fight
/// unchanged.
pub proof fn lemma_fight_frame(p: CreatureModel, e: CreatureModel, t: Turn)
    ensures
        stats_match(spec_fight_from(p, e, t).1, p),
        stats_match(spec_fight_from(p, e, t).2, e),
    decreases hp_measure(p, e),
{
    if p.current_hp <= 0 {
    } else if e.current_hp <= 0 {
    } else if t == Turn::Player {
        lemma_fight_frame(p, damaged(e, p), Turn::Enemy);
    } else {
        lemma_fight_frame(damaged(p, e), e, Turn::Player);
    }
}

/// Combat always decides, and decides one way: it ends in a loss exactly
/// when the initiator is at or below zero hit points, and in a win exactly
/// when the initiator still stands and the opponent is at or below zero.
pub proof fn lemma_fight_decides(p: CreatureModel, e: CreatureModel, t: Turn)
    ensures
        ({
            let r = spec_fight_from(p, e, t);
            &&& (r.0 == FightResult::Loss <==> r.1.current_hp <= 0)
            &&& (r.0 == FightResult::Win <==> r.1.current_hp > 0 && r.2.current_hp <= 0)
        }),
    decreases hp_measure(p, e),
{
    if p.current_hp <= 0 {
    } else if e.current_hp <= 0 {
    } else if t == Turn::Player {
        lemma_fight_decides(p, damaged(e, p), Turn::Enemy);
    } else {
        lemma_fight_decides(damaged(p, e), e, Turn::Player);
    }
}

/// Levelling up preserves well-formedness, whatever the experience.
pub proof fn lemma_level_loop_wf(c: CreatureModel)
    requires
        c.max_hp >= 5,
        c.combat_ready(),
        c.level >= 1,
        0 <= c.lives <= 3,
        c.exp >= 0,
        c.stat_pattern.nonneg(),
    ensures
        spec_level_loop(c).wf(),
    decreases c.exp,
{
    if c.exp < 100 {
    } else {
        lemma_level_loop_wf(grown(c));
    }
}

/// A win's award preserves well-formedness: the stat floors, the level
/// floor, and the zero-to-three lives budget all survive it.
pub proof fn lemma_award_wf(c: CreatureModel, other_level: int)
    requires
        c.wf(),
    ensures
        spec_award(c, other_level).wf(),
{
    let increase = sat64(12 * max(other_level - (c.level - 1), 1));
    lemma_level_loop_wf(CreatureModel { exp: sat64(c.exp + increase), ..c });
}

/// Every creature that creation yields is well-formed: hit points at least
/// five, every other stat at least one, whatever the jitter and the level.
pub proof fn lemma_create_wf(
    t: CreatureType,
    pat: PatternModel,
    level: int,
    is_boss: bool,
    seed: u64,
    k: nat,
)
    requires
        pat.nonneg(),
    ensures
        spec_create(t, pat, level, is_boss, seed, k).wf(),
        spec_create(t, pat, level, is_boss, seed, k).current_hp == spec_create(t, pat, level,
            is_boss, seed, k).max_hp,
        spec_create(t, pat, level, is_boss, seed, k).level == 1,
{
}

/// One stat drawn at creation: `coeff * pattern-weight * level` plus a
/// jitter of `coeff_jitter * uniform(-1, 1)`, both in hundredths, floored at
/// `least`.
pub open spec fn spec_stat(coeff: int, pat: int, level: int, least: int, word: u64) -> int {
    let draw = (word % 200) as int;
    let raw = coeff * pat * level + 5 * draw - 500;
    if raw <= 0 {
        least
    } else {
        max(raw / 100, least)
    }
}

/// The display name a creature is created with.
pub open spec fn spec_creature_name(t: CreatureType, is_boss: bool) -> Seq<char> {
    (if is_boss {
        "Boss "@
    } else {
        Seq::<char>::empty()
    }) + spec_type_label(t)
}

pub open spec fn spec_type_label(t: CreatureType) -> Seq<char> {
    match t {
        CreatureType::Player => "Player"@,
        CreatureType::Bat => "Bat"@,
        CreatureType::Dog => "Dog"@,
        CreatureType::Goblin => "Goblin"@,
        CreatureType::Slime => "Slime"@,
        CreatureType::Orc => "Orc"@,
        CreatureType::Kitsune => "Kitsune"@,
        CreatureType::Pixie => "Pixie"@,
        CreatureType::HighOrc => "HighOrc"@,
        CreatureType::Golem => "Golem"@,
    }
}

pub fn creature_type_label(t: CreatureType) -> (r: &'static str)
    ensures
        r@ == spec_type_label(t),
{
    match t {
        CreatureType::Player => "Player",
        CreatureType::Bat => "Bat",
        CreatureType::Dog => "Dog",
        CreatureType::Goblin => "Goblin",
        CreatureType::Slime => "Slime",
        CreatureType::Orc => "Orc",
        CreatureType::Kitsune => "Kitsune",
        CreatureType::Pixie => "Pixie",
        CreatureType::HighOrc => "HighOrc",
        CreatureType::Golem => "Golem",
    }
}

/// The creature that creation yields: six stats drawn in a fixed order
/// (hit points, attack, defense, magic, wisdom, speed), full health, no
/// experience, level one, three lives.
pub open spec fn spec_create(
    t: CreatureType,
    pat: PatternModel,
    level: int,
    is_boss: bool,
    seed: u64,
    k: nat,
) -> CreatureModel {
    let max_hp = spec_stat(20, pat.hp, level, 5, rng_word(seed, k));
    CreatureModel {
        name: spec_creature_name(t, is_boss),
        max_hp: max_hp,
        current_hp: max_hp,
        attack: spec_stat(5, pat.attack, level, 1, rng_word(seed, (k + 1) as nat)),
        defense: spec_stat(5, pat.defense, level, 1, rng_word(seed, (k + 2) as nat)),
        magic: spec_stat(5, pat.magic, level, 1, rng_word(seed, (k + 3) as nat)),
        wisdom: spec_stat(5, pat.wisdom, level, 1, rng_word(seed, (k + 4) as nat)),
        speed: spec_stat(5, pat.speed, level, 1, rng_word(seed, (k + 5) as nat)),
        exp: 0,
        level: 1,
        lives: 3,
        stat_pattern: pat,
    }
}

/// Draws one stat from the randomness source.
fn scaled_stat(coeff: u64, pat: u32, level: u32, least: i64, rng: &mut RandomSource) -> (s: i64)
    requires
        coeff <= 20,
        pat <= PATTERN_LIMIT,
        1 <= level <= LEVEL_LIMIT,
        1 <= least <= 5,
    ensures
        final(rng).seed@ == old(rng).seed@,
        final(rng).drawn@ == old(rng).drawn@ + 1,
        s == spec_stat(coeff as int, pat as int, level as int, least as int,
            rng_word(old(rng).seed@, old(rng).drawn@)),
        s >= least,
{
    let draw: u64 = rng.next_below(200);
    assert((coeff as int) * (pat as int) <= 20000000) by (nonlinear_arith)
        requires
            coeff <= 20,
            pat <= 1000000u32,
    ;
    let coeff_pat: u64 = coeff * (pat as u64);
    assert((coeff_pat as int) * (level as int) <= 20000000000000) by (nonlinear_arith)
        requires
            coeff_pat <= 20000000u64,
            level <= 1000000u32,
    ;
    let base: u64 = coeff_pat * (level as u64);
    let with_jitter: u64 = base + 5 * draw;
    let raw: i64 = (with_jitter as i64) - 500;
    if raw <= 0 {
        least
    } else {
        let q: i64 = ((raw as u64) / 100) as i64;
        if q >= least {
            q
        } else {
            least
        }
    }
}

/// The archetypes that spawn as enemies and have a base stat pattern.
pub open spec fn is_enemy_type(t: CreatureType) -> bool {
    match t {
        CreatureType::Bat => true,
        CreatureType::Dog => true,
        CreatureType::Slime => true,
        CreatureType::Orc => true,
        CreatureType::Kitsune => true,
        CreatureType::Pixie => true,
        _ => false,
    }
}

/// Base stat weighting of each enemy archetype, in hundredths.
pub open spec fn spec_base_pattern(t: CreatureType) -> PatternModel {
    match t {
        CreatureType::Bat => PatternModel { hp: 40, attack: 40, defense: 40, magic: 40, wisdom: 40, speed: 200 },
        CreatureType::Dog => PatternModel { hp: 50, attack: 60, defense: 50, magic: 50, wisdom: 50, speed: 200 },
        CreatureType::Slime => PatternModel { hp: 50, attack: 40, defense: 100, magic: 50, wisdom: 30, speed: 50 },
        CreatureType::Orc => PatternModel { hp: 60, attack: 60, defense: 60, magic: 20, wisdom: 20, speed: 40 },
        CreatureType::Kitsune => PatternModel { hp: 70, attack: 20, defense: 70, magic: 100, wisdom: 100, speed: 150 },
        CreatureType::Pixie => PatternModel { hp: 40, attack: 20, defense: 50, magic: 200, wisdom: 200, speed: 150 },
        _ => PatternModel { hp: 0, attack: 0, defense: 0, magic: 0, wisdom: 0, speed: 0 },
    }
}

/// The base pattern of an enemy archetype, scaled by `multiplier` hundredths.
pub open spec fn spec_enemy_pattern(t: CreatureType, multiplier: int) -> PatternModel {
    let base = spec_base_pattern(t);
    PatternModel {
        hp: base.hp * multiplier / 100,
        attack: base.attack * multiplier / 100,
        defense: base.defense * multiplier / 100,
        magic: base.magic * multiplier / 100,
        wisdom: base.wisdom * multiplier / 100,
        speed: base.speed * multiplier / 100,
    }
}

/// Builds the stat pattern an enemy is created from: its archetype's base
/// weighting, scaled by the multiplier (doubled for bosses).
pub fn get_enemy_stat_pattern(enemy_type: CreatureType, multiplier: u32) -> (p: StatPattern)
    requires
        is_enemy_type(enemy_type),
        multiplier <= 200,
    ensures
        p@ == spec_enemy_pattern(enemy_type, multiplier as int),
        p@.bounded(),
{
    let mut stat_pattern: StatPattern = match enemy_type {
        CreatureType::Bat => StatPattern::new(40, 40, 40, 40, 40, 200),
        CreatureType::Dog => StatPattern::new(50, 60, 50, 50, 50, 200),
        CreatureType::Slime => StatPattern::new(50, 40, 100, 50, 30, 50),
        CreatureType::Orc => StatPattern::new(60, 60, 60, 20, 20, 40),
        CreatureType::Kitsune => StatPattern::new(70, 20, 70, 100, 100, 150),
        CreatureType::Pixie => StatPattern::new(40, 20, 50, 200, 200, 150),
        _ => unreached(),
    };
    stat_pattern.multiply(multiplier);
    stat_pattern
}

impl Creature {
    /// Builds a creature from an archetype tag, a stat pattern, a scaling
    /// level and a boss flag, drawing six jitter values in a fixed order.
    pub fn create(
        creature_type: CreatureType,
        stat_pattern: &StatPattern,
        level: u32,
        is_boss: bool,
        rng: &mut RandomSource,
    ) -> (c: Creature)
        requires
            stat_pattern@.bounded(),
            1 <= level <= LEVEL_LIMIT,
        ensures
            final(rng).seed@ == old(rng).seed@,
            final(rng).drawn@ == old(rng).drawn@ + 6,
            c@ == spec_create(creature_type, stat_pattern@, level as int, is_boss,
                old(rng).seed@, old(rng).drawn@),
            c@.wf(),
            c@.current_hp == c@.max_hp,
    {
        let mut name: String = String::new();
        if is_boss {
            name.append("Boss ");
        }
        name.append(creature_type_label(creature_type));
        proof {
            assert(name@ =~= spec_creature_name(creature_type, is_boss));
        }
        let max_hp: i64 = scaled_stat(20, stat_pattern.hp, level, 5, rng);
        let attack: i64 = scaled_stat(5, stat_pattern.attack, level, 1, rng);
        let defense: i64 = scaled_stat(5, stat_pattern.defense, level, 1, rng);
        let magic: i64 = scaled_stat(5, stat_pattern.magic, level, 1, rng);
        let wisdom: i64 = scaled_stat(5, stat_pattern.wisdom, level, 1, rng);
        let speed: i64 = scaled_stat(5, stat_pattern.speed, level, 1, rng);
        Creature {
            name,
            max_hp,
            current_hp: max_hp,
            attack,
            defense,
            magic,
            wisdom,
            speed,
            exp: 0,
            level: 1,
            lives: 3,
            stat_pattern: *stat_pattern,
        }
    }

    /// Awards the experience for a win and applies every level-up it pays
    /// for: each one raises the level, replenishes one life up to the cap of
    /// three, grows every stat by its base coefficient times the stat
    /// pattern, and fully heals.
    pub fn award_win(&mut self, other: &Creature)
        requires
            old(self)@.wf(),
            other@.level >= 1,
        ensures
            final(self)@ == spec_award(old(self)@, other@.level),
            final(self)@.wf(),
    {
        let diff: i64 = other.level - (self.level - 1);
        let clamped: i64 = if diff >= 1 {
            diff
        } else {
            1
        };
        let increase: i64 = if clamped <= 768614336404564650 {
            clamped * 12
        } else {
            i64::MAX
        };
        assert(increase == sat64(12 * max(other@.level - (old(self)@.level - 1), 1)));
        self.exp = sat_add_i64(self.exp, increase);
        let ghost entry = self@;
        while self.exp >= 100
            invariant
                spec_level_loop(self@) == spec_level_loop(entry),
                self@.max_hp >= 5,
                self@.combat_ready(),
                self@.level >= 1,
                0 <= self@.lives <= 3,
                self@.exp >= 0,
            decreases self.exp,
        {
            let ghost before = self@;
            self.level = sat_add_i64(self.level, 1);
            self.lives = if self.lives < 3 {
                self.lives + 1
            } else {
                self.lives
            };
            self.exp = self.exp - 100;
            self.max_hp = sat_add_i64(self.max_hp, ((20u64 * self.stat_pattern.hp as u64)
                / 100) as i64);
            self.attack = sat_add_i64(self.attack, ((5u64 * self.stat_pattern.attack as u64)
                / 100) as i64);
            self.defense = sat_add_i64(self.defense, ((5u64 * self.stat_pattern.defense as u64)
                / 100) as i64);
            self.magic = sat_add_i64(self.magic, ((5u64 * self.stat_pattern.magic as u64)
                / 100) as i64);
            self.wisdom = sat_add_i64(self.wisdom, ((5u64 * self.stat_pattern.wisdom as u64)
                / 100) as i64);
            self.speed = sat_add_i64(self.speed, ((5u64 * self.stat_pattern.speed as u64)
                / 100) as i64);
            self.current_hp = self.max_hp;
            proof {
                assert(self@ =~= grown(before));
            }
        }
    }

    /// One attack: subtracts the damage from the defender's hit points,
    /// which may go below zero.
    pub fn attack(&self, other: &mut Creature)
        requires
            self@.attack >= 1,
            self@.magic >= 1,
            old(other)@.defense >= 1,
            old(other)@.wisdom >= 1,
            old(other)@.current_hp >= 1,
        ensures
            final(other)@ == damaged(old(other)@, self@),
    {
        let physical_gap: i64 = self.attack - other.defense;
        let physical_damage: i64 = if physical_gap >= 1 {
            physical_gap
        } else {
            1
        };
        let magic_gap: i64 = self.magic - other.wisdom;
        let magic_damage: i64 = if magic_gap >= 1 {
            magic_gap
        } else {
            1
        };
        let damage: i64 = if physical_damage >= magic_damage {
            physical_damage
        } else {
            magic_damage
        };
        other.current_hp = other.current_hp - damage;
    }

    /// Combat resolution by strictly alternating attacks; terminates because
    /// every attack removes at least one hit point.
    pub fn fight(&mut self, other: &mut Creature) -> (r: FightResult)
        requires
            old(self)@.combat_ready(),
            old(other)@.combat_ready(),
        ensures
            (r, final(self)@, final(other)@) == spec_fight(old(self)@, old(other)@),
    {
        let mut turn: Turn = if self.speed >= other.speed {
            Turn::Player
        } else {
            Turn::Enemy
        };
        loop
            invariant
                self@.combat_ready(),
                other@.combat_ready(),
                spec_fight_from(self@, other@, turn) == spec_fight(old(self)@, old(other)@),
            decreases hp_measure(self@, other@),
        {
            if self.current_hp <= 0 {
                return FightResult::Loss;
            }
            if other.current_hp <= 0 {
                return FightResult::Win;
            }
            match turn {
                Turn::Player => {
                    self.attack(other);
                    turn = Turn::Enemy;
                },
                Turn::Enemy => {
                    other.attack(self);
                    turn = Turn::Player;
                },
            }
        }
    }
}

} // verus!
