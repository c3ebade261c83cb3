use vstd::prelude::*;
use vstd::string::*;
use crate::face::{glyph_of, FacialExpression};

verus! {

/// How many of the latest accepted actions the pet remembers.
pub const MEMORY_LEN: usize = 3;

/// The top of the pleasure scale and of the health points.
pub const SCALE_MAX: u32 = 10;

/// Seconds of unbroken sleep that restore one health point.
pub const RECOVERY_SECS: u64 = 20;

/// The abstract state of a pet: its expression, the accepted action tokens it
/// remembers (oldest first), its pleasure and health on a 0..=10 scale, the
/// second at which its current sleep period started, and the light.
pub struct PetState {
    pub face: FacialExpression,
    pub memory: Seq<Seq<char>>,
    pub pleasure: int,
    pub hp: int,
    pub sleep_since: int,
    pub light_on: bool,
}

/// The token of the eat action, in either case.
pub open spec fn is_eat_token(t: Seq<char>) -> bool {
    t == "E"@ || t == "e"@
}

/// The token of the light toggle, in either case.
pub open spec fn is_light_token(t: Seq<char>) -> bool {
    t == "L"@ || t == "l"@
}

/// The token that asks for the health points, in either case.
pub open spec fn is_hp_token(t: Seq<char>) -> bool {
    t == "H"@ || t == "h"@
}

/// The pet refuses a token when it remembers a full history made of that very
/// token alone (compared case-sensitively).
pub open spec fn refuses(memory: Seq<Seq<char>>, t: Seq<char>) -> bool {
    memory.len() >= MEMORY_LEN && forall|i: int| 0 <= i < memory.len() ==> #[trigger] memory[i] == t
}

/// The history after an accepted token: the token goes last, and only the
/// `MEMORY_LEN` most recent tokens are kept.
pub open spec fn remember(memory: Seq<Seq<char>>, t: Seq<char>) -> Seq<Seq<char>> {
    if memory.len() >= MEMORY_LEN {
        memory.subrange(memory.len() - (MEMORY_LEN - 1), memory.len() as int).push(t)
    } else {
        memory.push(t)
    }
}

impl PetState {
    /// Pleasure and health stay on their scale, and the history holds at most
    /// `MEMORY_LEN` eat tokens.
    pub open spec fn wf(self) -> bool {
        &&& 0 <= self.pleasure <= SCALE_MAX
        &&& 0 <= self.hp <= SCALE_MAX
        &&& self.memory.len() <= MEMORY_LEN
        &&& forall|i: int| 0 <= i < self.memory.len() ==> is_eat_token(#[trigger] self.memory[i])
    }

    /// A new pet: calm, no pleasure, full health, light on, nothing remembered,
    /// its sleep clock started at second 0.
    pub open spec fn initial() -> PetState {
        PetState {
            face: FacialExpression::Calm,
            memory: Seq::empty(),
            pleasure: 0,
            hp: SCALE_MAX as int,
            sleep_since: 0,
            light_on: true,
        }
    }

    /// The same state with another expression.
    pub open spec fn with_face(self, face: FacialExpression) -> PetState {
        PetState { face, ..self }
    }

    /// The same state with another history.
    pub open spec fn with_memory(self, memory: Seq<Seq<char>>) -> PetState {
        PetState { memory, ..self }
    }

    /// After eating: calm again once the meal is over, one more point of
    /// pleasure up to the top of the scale.
    pub open spec fn after_eat(self) -> PetState {
        PetState {
            face: FacialExpression::Calm,
            pleasure: if self.pleasure < SCALE_MAX { self.pleasure + 1 } else { SCALE_MAX as int },
            ..self
        }
    }

    /// After the light is flipped at second `now`: turned off, the pet sleeps;
    /// turned on, a sleeping pet wakes calm and any other mood stays. The
    /// sleep clock restarts either way.
    pub open spec fn after_toggle(self, now: int) -> PetState {
        let light_on = !self.light_on;
        PetState {
            light_on,
            face: if !light_on {
                FacialExpression::Sleeping
            } else if self.face == FacialExpression::Sleeping {
                FacialExpression::Calm
            } else {
                self.face
            },
            sleep_since: now,
            ..self
        }
    }

    /// After a refused token: angry, one point of pleasure less down to 0.
    pub open spec fn after_refusal(self) -> PetState {
        PetState {
            face: FacialExpression::Angry,
            pleasure: if self.pleasure > 0 { self.pleasure - 1 } else { 0 },
            ..self
        }
    }

    /// The state after the token `t` is submitted at second `now`.
    pub open spec fn after_action(self, t: Seq<char>, now: int) -> PetState {
        if refuses(self.memory, t) {
            self.after_refusal()
        } else if is_eat_token(t) {
            self.after_eat().with_memory(remember(self.memory, t))
        } else if is_light_token(t) {
            self.after_toggle(now)
        } else {
            self
        }
    }

    /// Whether a pet asleep since `sleep_since` has slept long enough at `now`.
    pub open spec fn recovery_due(self, now: int) -> bool {
        now - self.sleep_since >= RECOVERY_SECS
    }

    /// The state after a recovery tick at second `now`: when due, one more
    /// health point up to the top and the sleep clock restarted; else as is.
    pub open spec fn after_recovery(self, now: int) -> PetState {
        if self.recovery_due(now) {
            PetState {
                hp: if self.hp < SCALE_MAX { self.hp + 1 } else { SCALE_MAX as int },
                sleep_since: now,
                ..self
            }
        } else {
            self
        }
    }

    /// What the pet reports for the token `t`.
    pub open spec fn report_of(self, t: Seq<char>) -> ActionReport {
        if refuses(self.memory, t) {
            ActionReport::Refused
        } else if is_eat_token(t) {
            ActionReport::Ate
        } else if is_light_token(t) {
            if self.light_on {
                ActionReport::LightOff
            } else {
                ActionReport::LightOn
            }
        } else if is_hp_token(t) {
            ActionReport::Hp(self.hp as u32)
        } else {
            ActionReport::Invalid
        }
    }
}

/// What an action did, for the caller to show.
#[derive(PartialEq, Eq, Structural, Clone, Copy, Debug)]
pub enum ActionReport {
    /// The same token came once too often: the pet got angry.
    Refused,
    /// The pet ate (it looked happy during the meal).
    Ate,
    /// The light was turned off and the pet sleeps.
    LightOff,
    /// The light was turned on.
    LightOn,
    /// The current health points.
    Hp(u32),
    /// The token is no action.
    Invalid,
}

/// The result of a recovery tick.
#[derive(PartialEq, Eq, Structural, Clone, Copy, Debug)]
pub enum Recovery {
    /// The pet slept long enough: one health point was restored (up to the top).
    Restored,
    /// The pet has not slept long enough yet.
    NotYetEligible,
}

/// `n` copies of the glyph `g`, one after the other.
pub open spec fn repeat_glyph(g: Seq<char>, n: nat) -> Seq<char>
    decreases n,
{
    if n == 0 {
        Seq::empty()
    } else {
        repeat_glyph(g, (n - 1) as nat) + g
    }
}

/// The pleasure bar: one filled cell per point of pleasure, an empty cell for
/// each point missing to the top, between two border glyphs.
pub open spec fn pleasure_bar(pleasure: nat) -> Seq<char> {
    "┌"@ + repeat_glyph("▓"@, pleasure) + repeat_glyph("░"@, (SCALE_MAX - pleasure) as nat) + "┐"@
}

/// The lines of the action menu; the light line offers what the toggle would do.
pub open spec fn menu_lines(light_on: bool) -> Seq<Seq<char>> {
    seq![
        "Action Window:"@,
        "Press 'E' to eat."@,
        if light_on {
            "Press 'L' to turn off the light."@
        } else {
            "Press 'L' to turn on the light."@
        },
        "Press 'X' to exit."@,
    ]
}

/// What a caller draws after each step.
#[derive(PartialEq, Eq, Structural, Clone, Copy, Debug)]
pub struct RenderSnapshot {
    pub face: FacialExpression,
    pub hp: u32,
    pub pleasure: u32,
    pub light_on: bool,
}

/// The virtual pet.
pub struct Tamagotchi {
    face: FacialExpression,
    memory: Vec<String>,
    pleasure_scale: u32,
    hp: u32,
    sleep_timer: u64,
    light_on: bool,
}

impl View for Tamagotchi {
    type V = PetState;

    closed spec fn view(&self) -> PetState {
        PetState {
            face: self.face,
            memory: self.memory@.map_values(|m: String| m@),
            pleasure: self.pleasure_scale as int,
            hp: self.hp as int,
            sleep_since: self.sleep_timer as int,
            light_on: self.light_on,
        }
    }
}

impl Tamagotchi {
    #[verifier::type_invariant]
    spec fn inv(self) -> bool {
        self@.wf()
    }

    /// A new pet, whose sleep clock starts at second 0.
    pub fn new() -> (r: Tamagotchi)
        ensures
            r@ == PetState::initial(),
    {
        let r = Tamagotchi {
            face: FacialExpression::Calm,
            memory: Vec::new(),
            pleasure_scale: 0,
            hp: SCALE_MAX,
            sleep_timer: 0,
            light_on: true,
        };
        assert(r@.memory =~= Seq::<Seq<char>>::empty());
        r
    }

    /// Sets the expression.
    pub fn change_face(&mut self, new_face: FacialExpression)
        ensures
            final(self)@ == old(self)@.with_face(new_face),
            final(self)@.wf(),
    {
        proof { use_type_invariant(&*self); }
        self.face = new_face;
        proof { use_type_invariant(&*self); }
    }

    /// Eats: happy during the meal, calm after it, one more point of pleasure
    /// up to the top of the scale.
    pub fn eat(&mut self)
        ensures
            final(self)@ == old(self)@.after_eat(),
            final(self)@.wf(),
    {
        proof { use_type_invariant(&*self); }
        self.change_face(FacialExpression::Happy);
        self.change_face(FacialExpression::Calm);
        if self.pleasure_scale < SCALE_MAX {
            self.pleasure_scale = self.pleasure_scale + 1;
        }
        proof { use_type_invariant(&*self); }
    }

    /// Flips the light at second `now` and returns whether it is now on.
    pub fn toggle_light(&mut self, now: u64) -> (r: bool)
        ensures
            final(self)@ == old(self)@.after_toggle(now as int),
            r == final(self)@.light_on,
            final(self)@.wf(),
    {
        proof { use_type_invariant(&*self); }
        self.light_on = !self.light_on;
        self.sleep_timer = now;
        if self.light_on {
            if self.face == FacialExpression::Sleeping {
                self.change_face(FacialExpression::Calm);
            }
        } else {
            if self.face != FacialExpression::Sleeping {
                self.change_face(FacialExpression::Sleeping);
            }
        }
        proof { use_type_invariant(&*self); }
        self.light_on
    }

    /// The current health points.
    pub fn check_hp(&self) -> (r: u32)
        ensures
            r == self@.hp,
            r <= SCALE_MAX,
    {
        proof { use_type_invariant(self); }
        self.hp
    }

    /// A recovery tick at second `now`, for a pet asleep with the light off:
    /// after `RECOVERY_SECS` of sleep one health point comes back (up to the
    /// top) and the sleep clock restarts; before that nothing changes.
    pub fn restore_hp(&mut self, now: u64) -> (r: Recovery)
        requires
            !old(self)@.light_on,
            old(self)@.face == FacialExpression::Sleeping,
        ensures
            final(self)@ == old(self)@.after_recovery(now as int),
            (r == Recovery::Restored) == old(self)@.recovery_due(now as int),
            final(self)@.wf(),
    {
        proof { use_type_invariant(&*self); }
        if now >= self.sleep_timer && now - self.sleep_timer >= RECOVERY_SECS {
            if self.hp < SCALE_MAX {
                self.hp = self.hp + 1;
            }
            self.sleep_timer = now;
            proof { use_type_invariant(&*self); }
            Recovery::Restored
        } else {
            Recovery::NotYetEligible
        }
    }

    /// Whether the pet would refuse `token`: it remembers a full history made
    /// of that token alone.
    fn refuses_token(&self, token: &String) -> (r: bool)
        ensures
            r == refuses(self@.memory, token@),
    {
        proof { use_type_invariant(self); }
        if self.memory.len() < MEMORY_LEN {
            return false;
        }
        let mut i: usize = 0;
        while i < self.memory.len()
            invariant
                0 <= i <= self.memory.len(),
                forall|j: int| 0 <= j < i ==> #[trigger] self@.memory[j] == token@,
            decreases self.memory.len() - i,
        {
            if !(self.memory[i] == *token) {
                assert(self@.memory[i as int] != token@);
                return false;
            }
            i = i + 1;
        }
        true
    }

    /// Appends an accepted eat token to the history, dropping the oldest when
    /// the history is full.
    fn remember_token(&mut self, token: String)
        requires
            is_eat_token(token@),
        ensures
            final(self)@ == old(self)@.with_memory(remember(old(self)@.memory, token@)),
            final(self)@.wf(),
    {
        proof { use_type_invariant(&*self); }
        let ghost m = self@.memory;
        let len = self.memory.len();
        let start: usize = if len >= MEMORY_LEN { len - (MEMORY_LEN - 1) } else { 0 };
        let mut kept: Vec<String> = Vec::new();
        let mut i: usize = start;
        while i < len
            invariant
                start <= i <= len,
                len == self.memory@.len(),
                m == self@.memory,
                kept@.len() == i - start,
                forall|j: int| 0 <= j < kept@.len() ==> #[trigger] kept@[j]@ == m[start + j],
            decreases len - i,
        {
            kept.push(self.memory[i].clone());
            i = i + 1;
        }
        kept.push(token);
        self.memory = kept;
        proof {
            assert(self@.memory =~= remember(m, token@));
            use_type_invariant(&*self);
        }
    }

    /// Submits one action token at second `now`. A token that fills the whole
    /// history already is refused: the pet gets angry and loses a point of
    /// pleasure. Otherwise `E`/`e` eats and is remembered, `L`/`l` flips the
    /// light, `H`/`h` reports the health points, and any other token changes
    /// nothing.
    pub fn process_action(&mut self, action: &str, now: u64) -> (r: ActionReport)
        ensures
            final(self)@ == old(self)@.after_action(action@, now as int),
            r == old(self)@.report_of(action@),
            final(self)@.wf(),
    {
        proof { use_type_invariant(&*self); }
        let token = action.to_owned();
        if self.refuses_token(&token) {
            self.change_face(FacialExpression::Angry);
            if self.pleasure_scale > 0 {
                self.pleasure_scale = self.pleasure_scale - 1;
            }
            proof { use_type_invariant(&*self); }
            ActionReport::Refused
        } else if token == "E".to_owned() || token == "e".to_owned() {
            self.eat();
            self.remember_token(token);
            ActionReport::Ate
        } else if token == "L".to_owned() || token == "l".to_owned() {
            if self.toggle_light(now) {
                ActionReport::LightOn
            } else {
                ActionReport::LightOff
            }
        } else if token == "H".to_owned() || token == "h".to_owned() {
            ActionReport::Hp(self.check_hp())
        } else {
            ActionReport::Invalid
        }
    }
    /// The glyph of the current expression.
    pub fn display_face(&self) -> (r: &'static str)
        ensures
            r@ == glyph_of(self@.face),
    {
        self.face.glyph()
    }

    /// The lines of the action menu.
    pub fn show_action_window(&self) -> (r: Vec<&'static str>)
        ensures
            r@.map_values(|l: &'static str| l@) == menu_lines(self@.light_on),
    {
        let mut r: Vec<&'static str> = Vec::new();
        r.push("Action Window:");
        r.push("Press 'E' to eat.");
        if self.light_on {
            r.push("Press 'L' to turn off the light.");
        } else {
            r.push("Press 'L' to turn on the light.");
        }
        r.push("Press 'X' to exit.");
        assert(r@.map_values(|l: &'static str| l@) =~= menu_lines(self@.light_on));
        r
    }

    /// The pleasure bar.
    pub fn display_pleasure_scale(&self) -> (r: String)
        ensures
            r@ == pleasure_bar(self@.pleasure as nat),
    {
        proof { use_type_invariant(self); }
        let filled = self.pleasure_scale;
        let empty = SCALE_MAX - filled;
        let mut bar = "┌".to_owned();
        let mut i: u32 = 0;
        while i < filled
            invariant
                i <= filled,
                bar@ == "┌"@ + repeat_glyph("▓"@, i as nat),
            decreases filled - i,
        {
            bar.append("▓");
            i = i + 1;
        }
        let mut j: u32 = 0;
        while j < empty
            invariant
                j <= empty,
                bar@ == "┌"@ + repeat_glyph("▓"@, filled as nat) + repeat_glyph("░"@, j as nat),
            decreases empty - j,
        {
            bar.append("░");
            j = j + 1;
        }
        bar.append("┐");
        bar
    }

    /// The current expression.
    pub fn face(&self) -> (r: FacialExpression)
        ensures
            r == self@.face,
    {
        self.face
    }

    /// The current pleasure.
    pub fn pleasure_scale(&self) -> (r: u32)
        ensures
            r == self@.pleasure,
            r <= SCALE_MAX,
    {
        proof { use_type_invariant(self); }
        self.pleasure_scale
    }

    /// Whether the light is on.
    pub fn light_on(&self) -> (r: bool)
        ensures
            r == self@.light_on,
    {
        self.light_on
    }

    /// The second at which the current sleep period started.
    pub fn sleep_since(&self) -> (r: u64)
        ensures
            r == self@.sleep_since,
    {
        self.sleep_timer
    }

    /// The remembered tokens, oldest first.
    pub fn recent_actions(&self) -> (r: Vec<String>)
        ensures
            r@.map_values(|m: String| m@) == self@.memory,
    {
        let mut r: Vec<String> = Vec::new();
        let mut i: usize = 0;
        while i < self.memory.len()
            invariant
                i <= self.memory@.len(),
                r@.len() == i,
                forall|j: int| 0 <= j < i ==> #[trigger] r@[j]@ == self@.memory[j],
            decreases self.memory.len() - i,
        {
            r.push(self.memory[i].clone());
            i = i + 1;
        }
        assert(r@.map_values(|m: String| m@) =~= self@.memory);
        r
    }

    /// What a caller draws: expression, health, pleasure and light.
    pub fn snapshot(&self) -> (r: RenderSnapshot)
        ensures
            r.face == self@.face,
            r.hp == self@.hp,
            r.pleasure == self@.pleasure,
            r.light_on == self@.light_on,
    {
        RenderSnapshot {
            face: self.face,
            hp: self.hp,
            pleasure: self.pleasure_scale,
            light_on: self.light_on,
        }
    }
}

} // verus!
