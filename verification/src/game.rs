use vstd::prelude::*;
use vstd::pervasive::unreached;
use vstd::string::StrSliceExecFns;
use crate::creature::{
    Creature, CreatureModel, CreatureType, FightResult, PatternModel, StatPattern,
    get_enemy_stat_pattern, is_enemy_type, lemma_award_wf, lemma_create_wf, lemma_fight_frame,
    spec_award, spec_create, spec_enemy_pattern, spec_fight,
};
use crate::names::{Dungeon, spec_dungeon_of};
use crate::rng::{RandomSource, rng_word};
use crate::text::{spec_split, split_char, views_of, lemma_split_len};

verus! {

/// How many greeting templates the game chooses from.
pub const NUM_TEMPLATES: u64 = 9;

/// The fixed greeting templates; `{}` is the placeholder for the player's
/// name, and the whitespace-delimited parts drive how many dungeons a run
/// has.
pub open spec fn spec_template(i: int) -> Seq<char> {
    if i == 0 {
        "Hello, {}! Nice to meet you!"@
    } else if i == 1 {
        "Nice to meet you {}! You seem like a pleasant person!"@
    } else if i == 2 {
        "Hey {}! Did you see the Mets game last night? Was a real nail-biter!"@
    } else if i == 3 {
        "Greetings {}! It is a pleasure to make your acquaintance."@
    } else if i == 4 {
        "Good morning {}! Isn't it a lovely day today?"@
    } else if i == 5 {
        "How's it going {}? Did you finish that project you were working on?"@
    } else if i == 6 {
        "Greetings fellow human, {}! Tis a great day to have skin and bones, is it not?"@
    } else if i == 7 {
        "Hey {}! Have you ever wondered about what Mario is thinking? Who knows why he crushes turtles? And why do we think about him as fondly as we think of the mythical (nonexistant?) Dr Pepper? Perchance."@
    } else {
        "Creation is an inviolate act, and those searching for the divine need not descend to Hell for fuel. That's why I don't go to Denny's anymore, {}."@
    }
}

/// Every template is short: at most 202 characters.
pub proof fn lemma_template_lengths()
    ensures
        forall|i: int| spec_template(i).len() <= 202,
{
    reveal_strlit("Hello, {}! Nice to meet you!");
    reveal_strlit("Nice to meet you {}! You seem like a pleasant person!");
    reveal_strlit("Hey {}! Did you see the Mets game last night? Was a real nail-biter!");
    reveal_strlit("Greetings {}! It is a pleasure to make your acquaintance.");
    reveal_strlit("Good morning {}! Isn't it a lovely day today?");
    reveal_strlit("How's it going {}? Did you finish that project you were working on?");
    reveal_strlit("Greetings fellow human, {}! Tis a great day to have skin and bones, is it not?");
    reveal_strlit("Hey {}! Have you ever wondered about what Mario is thinking? Who knows why he crushes turtles? And why do we think about him as fondly as we think of the mythical (nonexistant?) Dr Pepper? Perchance.");
    reveal_strlit("Creation is an inviolate act, and those searching for the divine need not descend to Hell for fuel. That's why I don't go to Denny's anymore, {}.");
}

/// The greeting template at a given index.
pub fn template(i: u64) -> (r: &'static str)
    requires
        i < NUM_TEMPLATES,
    ensures
        r@ == spec_template(i as int),
{
    if i == 0 {
        "Hello, {}! Nice to meet you!"
    } else if i == 1 {
        "Nice to meet you {}! You seem like a pleasant person!"
    } else if i == 2 {
        "Hey {}! Did you see the Mets game last night? Was a real nail-biter!"
    } else if i == 3 {
        "Greetings {}! It is a pleasure to make your acquaintance."
    } else if i == 4 {
        "Good morning {}! Isn't it a lovely day today?"
    } else if i == 5 {
        "How's it going {}? Did you finish that project you were working on?"
    } else if i == 6 {
        "Greetings fellow human, {}! Tis a great day to have skin and bones, is it not?"
    } else if i == 7 {
        "Hey {}! Have you ever wondered about what Mario is thinking? Who knows why he crushes turtles? And why do we think about him as fondly as we think of the mythical (nonexistant?) Dr Pepper? Perchance."
    } else {
        "Creation is an inviolate act, and those searching for the divine need not descend to Hell for fuel. That's why I don't go to Denny's anymore, {}."
    }
}

/// Outcome of a full run: a win, or a loss carrying how many dungeons were
/// reached.
#[derive(Clone, Copy, Debug, PartialEq, Eq, Structural)]
pub enum GameResult {
    Win,
    Loss(i32),
}

/// The enemy archetypes a dungeon of the given level spawns, boss encounters
/// apart; levels beyond the third draw from the whole enemy roster.
pub open spec fn spec_enemy_pool(level: u32, is_boss: bool) -> Seq<CreatureType> {
    if level == 1 && !is_boss {
        seq![CreatureType::Bat, CreatureType::Dog, CreatureType::Slime]
    } else if level == 1 && is_boss {
        seq![CreatureType::Orc]
    } else if level == 2 && !is_boss {
        seq![CreatureType::Bat, CreatureType::Dog, CreatureType::Slime, CreatureType::Orc]
    } else if level == 2 && is_boss {
        seq![CreatureType::Kitsune]
    } else if level == 3 && !is_boss {
        seq![CreatureType::Bat, CreatureType::Dog, CreatureType::Slime, CreatureType::Orc,
            CreatureType::Kitsune]
    } else if level == 3 && is_boss {
        seq![CreatureType::Pixie]
    } else {
        seq![CreatureType::Bat, CreatureType::Dog, CreatureType::Slime, CreatureType::Orc,
            CreatureType::Kitsune, CreatureType::Pixie]
    }
}

/// Every pool is non-empty, small, and holds enemy archetypes only.
pub proof fn lemma_enemy_pool(level: u32, is_boss: bool)
    ensures
        1 <= spec_enemy_pool(level, is_boss).len() <= 6,
        forall|k: int|
            0 <= k < spec_enemy_pool(level, is_boss).len() ==> is_enemy_type(
                #[trigger] spec_enemy_pool(level, is_boss)[k],
            ),
{
}

fn enemy_pool(level: u32, is_boss: bool) -> (pool: Vec<CreatureType>)
    ensures
        pool@ == spec_enemy_pool(level, is_boss),
{
    let pool: Vec<CreatureType> = if level == 1 && !is_boss {
        vec![CreatureType::Bat, CreatureType::Dog, CreatureType::Slime]
    } else if level == 1 && is_boss {
        vec![CreatureType::Orc]
    } else if level == 2 && !is_boss {
        vec![CreatureType::Bat, CreatureType::Dog, CreatureType::Slime, CreatureType::Orc]
    } else if level == 2 && is_boss {
        vec![CreatureType::Kitsune]
    } else if level == 3 && !is_boss {
        vec![CreatureType::Bat, CreatureType::Dog, CreatureType::Slime, CreatureType::Orc,
            CreatureType::Kitsune]
    } else if level == 3 && is_boss {
        vec![CreatureType::Pixie]
    } else {
        vec![CreatureType::Bat, CreatureType::Dog, CreatureType::Slime, CreatureType::Orc,
            CreatureType::Kitsune, CreatureType::Pixie]
    };
    proof {
        assert(pool@ =~= spec_enemy_pool(level, is_boss));
    }
    pool
}

/// The enemy a dungeon spawns: one draw picks the archetype from the pool,
/// then six draws build the creature at the dungeon's level plus one, with
/// the pattern doubled for bosses.
pub open spec fn spec_create_enemy(d: Dungeon, is_boss: bool, seed: u64, k: nat) -> CreatureModel {
    let pool = spec_enemy_pool(d.level, is_boss);
    let idx = rng_word(seed, k) % (pool.len() as u64);
    let t = pool[idx as int];
    let pat = spec_enemy_pattern(
        t,
        if is_boss {
            200
        } else {
            100
        },
    );
    spec_create(t, pat, d.level + 1, is_boss, seed, (k + 1) as nat)
}

impl Dungeon {
    /// Spawns one enemy for this dungeon, consuming seven draws.
    pub fn create_enemy(&self, rng: &mut RandomSource, is_boss: bool) -> (c: Creature)
        requires
            self.wf(),
        ensures
            final(rng).seed@ == old(rng).seed@,
            final(rng).drawn@ == old(rng).drawn@ + 7,
            c@ == spec_create_enemy(*self, is_boss, old(rng).seed@, old(rng).drawn@),
            c@.wf(),
            c@.current_hp == c@.max_hp,
            c@.level == 1,
    {
        let pool: Vec<CreatureType> = enemy_pool(self.level, is_boss);
        proof {
            lemma_enemy_pool(self.level, is_boss);
        }
        let idx: usize = match rng.choose_index(pool.len()) {
            Ok(i) => i,
            Err(_) => unreached(),
        };
        let creature_type: CreatureType = pool[idx];
        let multiplier: u32 = if is_boss {
            200
        } else {
            100
        };
        let stat_pattern: StatPattern = get_enemy_stat_pattern(creature_type, multiplier);
        Creature::create(creature_type, &stat_pattern, self.level + 1, is_boss, rng)
    }
}

/// The player's stat pattern: fixed baseline weights, each jittered by up to
/// half a weight, drawn in a fixed order.
pub open spec fn spec_player_pattern(seed: u64, k: nat) -> PatternModel {
    PatternModel {
        hp: 100 + rng_word(seed, k) % 100,
        attack: 150 + rng_word(seed, (k + 1) as nat) % 100,
        defense: 100 + rng_word(seed, (k + 2) as nat) % 100,
        magic: 150 + rng_word(seed, (k + 3) as nat) % 100,
        wisdom: 100 + rng_word(seed, (k + 4) as nat) % 100,
        speed: 100 + rng_word(seed, (k + 5) as nat) % 100,
    }
}

/// The player a seed determines: pattern draws first, then creation draws.
pub open spec fn spec_player(seed: u64, k: nat) -> CreatureModel {
    spec_create(CreatureType::Player, spec_player_pattern(seed, k), 1, false, seed, (k + 6) as nat)
}

/// Which greeting template the thirteenth draw picks.
pub open spec fn spec_template_index(seed: u64, k: nat) -> int {
    (rng_word(seed, (k + 12) as nat) % NUM_TEMPLATES) as int
}

/// One full run's immutable setup and mutable cursor.
pub struct Game {
    pub player: Creature,
    pub dungeons: Vec<Dungeon>,
    pub response_template: String,
    pub response_template_parts: Vec<String>,
    pub dungeon_index: usize,
    pub encounter_index: usize,
}

impl Game {
    /// A game the progression engine can run.
    pub open spec fn wf(self) -> bool {
        &&& self.player@.wf()
        &&& self.dungeons@.len() < 0x8000_0000
        &&& forall|m: int|
            0 <= m < self.dungeons@.len() ==> (#[trigger] self.dungeons@[m]).wf()
        &&& self.dungeon_index <= self.dungeons@.len()
        &&& self.encounter_index <= 4
    }

    /// Builds a run from the randomness source: the player (twelve draws),
    /// the greeting template (one draw), then one dungeon per template part,
    /// at levels counting up from one (one draw each).
    pub fn from_rng(rng: &mut RandomSource) -> (g: Game)
        ensures
            final(rng).seed@ == old(rng).seed@,
            g.player@ == spec_player(old(rng).seed@, old(rng).drawn@),
            g.response_template@ == spec_template(
                spec_template_index(old(rng).seed@, old(rng).drawn@),
            ),
            views_of(g.response_template_parts@) == spec_split(g.response_template@, ' '),
            g.dungeons@.len() == spec_split(g.response_template@, ' ').len(),
            forall|m: int|
                0 <= m < g.dungeons@.len() ==> #[trigger] g.dungeons@[m] == spec_dungeon_of(
                    rng_word(old(rng).seed@, (old(rng).drawn@ + 13 + m) as nat),
                    (m + 1) as u32,
                ),
            g.dungeon_index == 0,
            g.encounter_index == 0,
            final(rng).drawn@ == old(rng).drawn@ + 13 + g.dungeons@.len(),
            g.wf(),
    {
        let hp: u32 = 100 + (rng.next_below(100) as u32);
        let attack: u32 = 150 + (rng.next_below(100) as u32);
        let defense: u32 = 100 + (rng.next_below(100) as u32);
        let magic: u32 = 150 + (rng.next_below(100) as u32);
        let wisdom: u32 = 100 + (rng.next_below(100) as u32);
        let speed: u32 = 100 + (rng.next_below(100) as u32);
        let pattern: StatPattern = StatPattern::new(hp, attack, defense, magic, wisdom, speed);
        let player: Creature = Creature::create(CreatureType::Player, &pattern, 1, false, rng);
        let template_index: u64 = rng.next_below(NUM_TEMPLATES);
        let response_template: String = template(template_index).to_owned();
        let response_template_parts: Vec<String> = split_char(response_template.as_str(), ' ');
        proof {
            lemma_template_lengths();
            lemma_split_len(response_template@, ' ');
        }
        let count: usize = response_template_parts.len();
        let mut dungeons: Vec<Dungeon> = Vec::new();
        let mut m: usize = 0;
        while m < count
            invariant
                m <= count,
                count <= 203,
                dungeons@.len() == m,
                rng.seed@ == old(rng).seed@,
                rng.drawn@ == old(rng).drawn@ + 13 + m,
                forall|j: int|
                    0 <= j < m ==> #[trigger] dungeons@[j] == spec_dungeon_of(
                        rng_word(old(rng).seed@, (old(rng).drawn@ + 13 + j) as nat),
                        (j + 1) as u32,
                    ),
            decreases count - m,
        {
            let hash: u64 = rng.next_u64();
            let dungeon: Dungeon = Dungeon::from_hash(hash, (m as u32) + 1);
            dungeons.push(dungeon);
            m = m + 1;
        }
        Game {
            player,
            dungeons,
            response_template,
            response_template_parts,
            dungeon_index: 0,
            encounter_index: 0,
        }
    }
}

/// The run state the progression engine steps over: the player, the cursor
/// over dungeons and encounters, and the randomness position.
pub struct RunState {
    pub player: CreatureModel,
    pub dungeon_index: int,
    pub encounter_index: int,
    pub drawn: nat,
}

/// What one encounter yields: the next run state, or the run's result with
/// the final player and randomness position.
pub enum StepRes {
    Next(RunState),
    Finish(GameResult, CreatureModel, nat),
}

/// A run state the engine can step: a well-formed player, a cursor inside
/// the dungeon sequence, well-formed dungeon levels.
pub open spec fn state_wf(st: RunState, dungeons: Seq<Dungeon>) -> bool {
    &&& st.player.wf()
    &&& 0 <= st.dungeon_index < dungeons.len()
    &&& 0 <= st.encounter_index <= 4
    &&& dungeons.len() < 0x8000_0000
    &&& forall|m: int| 0 <= m < dungeons.len() ==> (#[trigger] dungeons[m]).wf()
}

/// The creature as it fully heals.
pub open spec fn healed(c: CreatureModel) -> CreatureModel {
    CreatureModel { current_hp: c.max_hp, ..c }
}

/// The player as it enters the encounter: healed on dungeon entry.
pub open spec fn step_entrant(st: RunState) -> CreatureModel {
    if st.encounter_index == 0 {
        healed(st.player)
    } else {
        st.player
    }
}

/// The enemy the encounter spawns; the fifth encounter of a dungeon is its
/// boss.
pub open spec fn step_enemy(st: RunState, dungeons: Seq<Dungeon>, seed: u64) -> CreatureModel {
    spec_create_enemy(dungeons[st.dungeon_index], st.encounter_index == 4, seed, st.drawn)
}

/// One encounter of the run: spawn, fight, then either advance (awarding the
/// win and moving the cursor), retry (losing a life, healing, backtracking
/// one dungeon on a first-encounter loss beyond the first dungeon), or end
/// the run (out of lives, or every dungeon cleared).
pub open spec fn spec_step(st: RunState, dungeons: Seq<Dungeon>, seed: u64) -> StepRes {
    let entrant = step_entrant(st);
    let enemy = step_enemy(st, dungeons, seed);
    let drawn2 = (st.drawn + 7) as nat;
    let outcome = spec_fight(entrant, enemy);
    if outcome.0 == FightResult::Win {
        let rewarded = spec_award(outcome.1, outcome.2.level);
        if st.encounter_index == 4 {
            if st.dungeon_index + 1 == dungeons.len() {
                StepRes::Finish(GameResult::Win, rewarded, drawn2)
            } else {
                StepRes::Next(
                    RunState {
                        player: rewarded,
                        dungeon_index: st.dungeon_index + 1,
                        encounter_index: 0,
                        drawn: drawn2,
                    },
                )
            }
        } else {
            StepRes::Next(
                RunState {
                    player: rewarded,
                    dungeon_index: st.dungeon_index,
                    encounter_index: st.encounter_index + 1,
                    drawn: drawn2,
                },
            )
        }
    } else {
        if outcome.1.lives == 0 {
            StepRes::Finish(GameResult::Loss(st.dungeon_index as i32), outcome.1, drawn2)
        } else {
            let revived = healed(CreatureModel { lives: outcome.1.lives - 1, ..outcome.1 });
            let back = if st.encounter_index == 0 && st.dungeon_index > 0 {
                st.dungeon_index - 1
            } else {
                st.dungeon_index
            };
            StepRes::Next(
                RunState { player: revived, dungeon_index: back, encounter_index: 0, drawn: drawn2 },
            )
        }
    }
}

/// A step from a well-formed state stays well-formed; lives never leave the
/// zero-to-three budget, and the cursor never skips past the end.
pub proof fn lemma_step_wf(st: RunState, dungeons: Seq<Dungeon>, seed: u64)
    requires
        state_wf(st, dungeons),
    ensures
        match spec_step(st, dungeons, seed) {
            StepRes::Next(st2) => state_wf(st2, dungeons) && st2.drawn == st.drawn + 7 && 0
                <= st2.player.lives <= 3,
            StepRes::Finish(r, p, k) => 0 <= p.lives <= 3 && k == st.drawn + 7,
        },
{
    let entrant = step_entrant(st);
    let enemy = step_enemy(st, dungeons, seed);
    let d = dungeons[st.dungeon_index];
    let is_boss = st.encounter_index == 4;
    let pool = spec_enemy_pool(d.level, is_boss);
    let idx = rng_word(seed, st.drawn) % (pool.len() as u64);
    let t = pool[idx as int];
    let pat = spec_enemy_pattern(
        t,
        if is_boss {
            200
        } else {
            100
        },
    );
    lemma_create_wf(t, pat, d.level + 1, is_boss, seed, (st.drawn + 1) as nat);
    let outcome = spec_fight(entrant, enemy);
    lemma_fight_frame(entrant, enemy, crate::creature::initial_turn(entrant, enemy));
    if outcome.0 == FightResult::Win {
        lemma_award_wf(outcome.1, outcome.2.level);
    }
}

/// The run's outcome within `fuel` encounters: the result with the final
/// player and randomness position, or nothing if the run is still going.
pub open spec fn spec_run(st: RunState, dungeons: Seq<Dungeon>, seed: u64, fuel: nat) -> Option<
    (GameResult, CreatureModel, nat),
>
    decreases fuel,
{
    if st.dungeon_index >= dungeons.len() {
        Some((GameResult::Win, st.player, st.drawn))
    } else if fuel == 0 {
        None
    } else {
        match spec_step(st, dungeons, seed) {
            StepRes::Finish(r, p, k) => Some((r, p, k)),
            StepRes::Next(st2) => spec_run(st2, dungeons, seed, (fuel - 1) as nat),
        }
    }
}

/// The run state after exactly `n` encounters, or nothing if the run ends
/// within them.
pub open spec fn spec_advance(st: RunState, dungeons: Seq<Dungeon>, seed: u64, n: nat) -> Option<
    RunState,
>
    decreases n,
{
    if n == 0 {
        Some(st)
    } else if st.dungeon_index >= dungeons.len() {
        None
    } else {
        match spec_step(st, dungeons, seed) {
            StepRes::Finish(r, p, k) => None,
            StepRes::Next(st2) => spec_advance(st2, dungeons, seed, (n - 1) as nat),
        }
    }
}

/// Running `n` encounters and then deciding with `extra` fuel is deciding
/// with `n + extra` fuel.
pub proof fn lemma_advance_run(
    st: RunState,
    dungeons: Seq<Dungeon>,
    seed: u64,
    n: nat,
    extra: nat,
    cur: RunState,
)
    requires
        spec_advance(st, dungeons, seed, n) == Some(cur),
    ensures
        spec_run(st, dungeons, seed, (n + extra) as nat) == spec_run(cur, dungeons, seed, extra),
    decreases n,
{
    if n == 0 {
    } else {
        match spec_step(st, dungeons, seed) {
            StepRes::Finish(r, p, k) => {
                assert(false);
            },
            StepRes::Next(st2) => {
                lemma_advance_run(st2, dungeons, seed, (n - 1) as nat, extra, cur);
            },
        }
    }
}

/// One more encounter extends an unfinished run by the step it takes.
pub proof fn lemma_advance_snoc(
    st: RunState,
    dungeons: Seq<Dungeon>,
    seed: u64,
    n: nat,
    cur: RunState,
    st2: RunState,
)
    requires
        spec_advance(st, dungeons, seed, n) == Some(cur),
        cur.dungeon_index < dungeons.len(),
        spec_step(cur, dungeons, seed) == StepRes::Next(st2),
    ensures
        spec_advance(st, dungeons, seed, (n + 1) as nat) == Some(st2),
    decreases n,
{
    if n == 0 {
        assert(st == cur);
        assert(spec_advance(st, dungeons, seed, 1) == spec_advance(st2, dungeons, seed, 0));
        assert(spec_advance(st2, dungeons, seed, 0) == Some(st2));
    } else {
        match spec_step(st, dungeons, seed) {
            StepRes::Finish(r, p, k) => {
                assert(false);
            },
            StepRes::Next(mid) => {
                lemma_advance_snoc(mid, dungeons, seed, (n - 1) as nat, cur, st2);
                assert(spec_advance(st, dungeons, seed, (n + 1) as nat) == spec_advance(
                    mid,
                    dungeons,
                    seed,
                    n,
                ));
                assert(((n - 1) as nat + 1) as nat == n);
            },
        }
    }
}

/// Determinism of the run: whenever two fuel budgets both suffice to decide
/// a run, they decide it the same way — same result, same final player, same
/// randomness position.
pub proof fn lemma_run_deterministic(
    st: RunState,
    dungeons: Seq<Dungeon>,
    seed: u64,
    fuel1: nat,
    fuel2: nat,
)
    requires
        spec_run(st, dungeons, seed, fuel1) is Some,
        spec_run(st, dungeons, seed, fuel2) is Some,
    ensures
        spec_run(st, dungeons, seed, fuel1) == spec_run(st, dungeons, seed, fuel2),
    decreases fuel1,
{
    if st.dungeon_index >= dungeons.len() {
    } else {
        match spec_step(st, dungeons, seed) {
            StepRes::Finish(r, p, k) => {
            },
            StepRes::Next(st2) => {
                lemma_run_deterministic(st2, dungeons, seed, (fuel1 - 1) as nat, (fuel2 - 1) as nat);
            },
        }
    }
}

/// Losing the last life ends the run at once, reporting the dungeon the
/// player stood in.
pub proof fn lemma_last_life_loss_ends_run(st: RunState, dungeons: Seq<Dungeon>, seed: u64)
    requires
        state_wf(st, dungeons),
        spec_fight(step_entrant(st), step_enemy(st, dungeons, seed)).0 == FightResult::Loss,
        st.player.lives == 0,
    ensures
        spec_step(st, dungeons, seed) matches StepRes::Finish(r, p, k) && r == GameResult::Loss(
            st.dungeon_index as i32,
        ),
{
    let entrant = step_entrant(st);
    let enemy = step_enemy(st, dungeons, seed);
    lemma_fight_frame(entrant, enemy, crate::creature::initial_turn(entrant, enemy));
}

/// Backtrack rule: a loss on the first encounter of any dungeon beyond the
/// first, with lives to spare, retries the previous dungeon from its first
/// encounter.
pub proof fn lemma_backtrack(st: RunState, dungeons: Seq<Dungeon>, seed: u64)
    requires
        state_wf(st, dungeons),
        st.encounter_index == 0,
        st.dungeon_index > 0,
        spec_fight(step_entrant(st), step_enemy(st, dungeons, seed)).0 == FightResult::Loss,
        st.player.lives > 0,
    ensures
        spec_step(st, dungeons, seed) matches StepRes::Next(st2) && st2.dungeon_index
            == st.dungeon_index - 1 && st2.encounter_index == 0,
{
    let entrant = step_entrant(st);
    let enemy = step_enemy(st, dungeons, seed);
    lemma_fight_frame(entrant, enemy, crate::creature::initial_turn(entrant, enemy));
}

/// The run state a game and a randomness position stand for.
pub open spec fn run_state(g: Game, drawn: nat) -> RunState {
    RunState {
        player: g.player@,
        dungeon_index: g.dungeon_index as int,
        encounter_index: g.encounter_index as int,
        drawn,
    }
}

impl Game {
    /// Plays one encounter: heals on dungeon entry, spawns the enemy,
    /// resolves the fight, and moves the run state as the step relation
    /// says. Returns the run's result once it is decided.
    pub fn step(&mut self, rng: &mut RandomSource) -> (r: Option<GameResult>)
        requires
            old(self).wf(),
            old(self).dungeon_index < old(self).dungeons@.len(),
        ensures
            final(self).dungeons == old(self).dungeons,
            final(self).response_template == old(self).response_template,
            final(self).response_template_parts == old(self).response_template_parts,
            final(rng).seed@ == old(rng).seed@,
            final(rng).drawn@ == old(rng).drawn@ + 7,
            final(self).wf(),
            ({
                let st = run_state(*old(self), old(rng).drawn@);
                match spec_step(st, old(self).dungeons@, old(rng).seed@) {
                    StepRes::Next(st2) => {
                        &&& r is None
                        &&& final(self).player@ == st2.player
                        &&& final(self).dungeon_index == st2.dungeon_index
                        &&& final(self).encounter_index == st2.encounter_index
                    },
                    StepRes::Finish(res, p, k) => {
                        &&& r == Some(res)
                        &&& final(self).player@ == p
                        &&& res is Win ==> final(self).dungeon_index == old(self).dungeons@.len()
                            && final(self).encounter_index == 0
                        &&& res is Loss ==> final(self).dungeon_index == old(self).dungeon_index
                            && final(self).encounter_index == old(self).encounter_index
                    },
                }
            }),
    {
        let ghost st = run_state(*old(self), old(rng).drawn@);
        let ghost dgs = self.dungeons@;
        let ghost seed = rng.seed@;
        if self.encounter_index == 0 {
            self.player.current_hp = self.player.max_hp;
        }
        let is_boss: bool = self.encounter_index == 4;
        let mut enemy: Creature = self.dungeons[self.dungeon_index].create_enemy(rng, is_boss);
        proof {
            assert(self.player@ == step_entrant(st));
            assert(enemy@ == step_enemy(st, dgs, seed));
        }
        let ghost entrant = self.player@;
        let ghost foe = enemy@;
        let result: FightResult = self.player.fight(&mut enemy);
        proof {
            lemma_fight_frame(entrant, foe, crate::creature::initial_turn(entrant, foe));
        }
        match result {
            FightResult::Win => {
                self.player.award_win(&enemy);
                if self.encounter_index == 4 {
                    self.dungeon_index = self.dungeon_index + 1;
                    self.encounter_index = 0;
                    if self.dungeon_index == self.dungeons.len() {
                        return Some(GameResult::Win);
                    }
                    None
                } else {
                    self.encounter_index = self.encounter_index + 1;
                    None
                }
            },
            FightResult::Loss => {
                if self.player.lives == 0 {
                    Some(GameResult::Loss(self.dungeon_index as i32))
                } else {
                    self.player.lives = self.player.lives - 1;
                    self.player.current_hp = self.player.max_hp;
                    if self.encounter_index == 0 && self.dungeon_index > 0 {
                        self.dungeon_index = self.dungeon_index - 1;
                    }
                    self.encounter_index = 0;
                    None
                }
            },
        }
    }

    /// Drives the run for at most `max_steps` encounters. Returns the run's
    /// result once decided, or nothing if the budget ran out first — the
    /// game keeps its progress, and another call resumes the run.
    pub fn play(&mut self, rng: &mut RandomSource, max_steps: u64) -> (r: Option<GameResult>)
        requires
            old(self).wf(),
        ensures
            final(self).dungeons == old(self).dungeons,
            final(self).response_template == old(self).response_template,
            final(self).response_template_parts == old(self).response_template_parts,
            final(rng).seed@ == old(rng).seed@,
            final(self).wf(),
            ({
                let st0 = run_state(*old(self), old(rng).drawn@);
                match r {
                    Some(res) => spec_run(st0, old(self).dungeons@, old(rng).seed@,
                        max_steps as nat) == Some(
                        (res, final(self).player@, final(rng).drawn@),
                    ),
                    None => spec_run(st0, old(self).dungeons@, old(rng).seed@, max_steps as nat)
                        is None && spec_advance(st0, old(self).dungeons@, old(rng).seed@,
                        max_steps as nat) == Some(run_state(*final(self), final(rng).drawn@)),
                }
            }),
    {
        let ghost st0 = run_state(*old(self), old(rng).drawn@);
        let ghost dgs = self.dungeons@;
        let ghost seed = rng.seed@;
        let mut k: u64 = 0;
        while k < max_steps
            invariant
                k <= max_steps,
                self.wf(),
                self.dungeons == old(self).dungeons,
                self.response_template == old(self).response_template,
                self.response_template_parts == old(self).response_template_parts,
                dgs == old(self).dungeons@,
                rng.seed@ == seed,
                seed == old(rng).seed@,
                st0 == run_state(*old(self), old(rng).drawn@),
                spec_advance(st0, dgs, seed, k as nat) == Some(run_state(*self, rng.drawn@)),
            decreases max_steps - k,
        {
            let ghost cur = run_state(*self, rng.drawn@);
            if self.dungeon_index >= self.dungeons.len() {
                proof {
                    lemma_advance_run(st0, dgs, seed, k as nat, (max_steps - k) as nat, cur);
                }
                return Some(GameResult::Win);
            }
            let step_result: Option<GameResult> = self.step(rng);
            match step_result {
                Some(res) => {
                    proof {
                        lemma_advance_run(st0, dgs, seed, k as nat, (max_steps - k) as nat, cur);
                    }
                    return Some(res);
                },
                None => {
                    let ghost stepped = run_state(*self, rng.drawn@);
                    proof {
                        lemma_advance_snoc(st0, dgs, seed, k as nat, cur, stepped);
                    }
                    k = k + 1;
                },
            }
        }
        let ghost cur = run_state(*self, rng.drawn@);
        proof {
            lemma_advance_run(st0, dgs, seed, max_steps as nat, 0, cur);
        }
        if self.dungeon_index >= self.dungeons.len() {
            return Some(GameResult::Win);
        }
        None
    }
}

} // verus!
