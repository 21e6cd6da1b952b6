use vstd::prelude::*;
use crate::animation::seed_after;
use crate::IR_ADDRESS;

verus! {

/// Number of segments that flicker independently.
pub const SEGMENTS: usize = 4;

/// The brightest ember level.
pub const MAX_LEVEL: u8 = 7;

/// The warm colours of the embers, dimmest first.
pub const EMBER_PALETTE: [(u8, u8, u8); 8] = [
    (3, 1, 0),
    (7, 3, 0),
    (12, 5, 0),
    (20, 8, 0),
    (28, 10, 0),
    (30, 12, 0),
    (32, 14, 0),
    (40, 16, 0),
];

/// A level after one nudge: the low byte of the generator's state sends it
/// down below 100 and up above 150, within the palette.
pub open spec fn nudge(level: int, seed: int) -> int {
    let draw = seed % 256;
    if draw < 100 {
        if level > 0 { level - 1 } else { 0 }
    } else if draw > 150 {
        if level < MAX_LEVEL { level + 1 } else { MAX_LEVEL as int }
    } else {
        level
    }
}

/// What an ember animator is: the generator's state and one level per segment.
pub struct FireModel {
    pub seed: int,
    pub levels: Seq<int>,
}

impl FireModel {
    /// The generator's state is a residue and every level has a colour.
    pub open spec fn valid(self) -> bool {
        &&& 0 <= self.seed < 0x7fff_ffff
        &&& self.levels.len() == SEGMENTS
        &&& forall|segment: int|
            0 <= segment < SEGMENTS ==> 0 <= #[trigger] self.levels[segment] <= MAX_LEVEL
    }

    /// The animator at start-up.
    pub open spec fn initial() -> FireModel {
        FireModel { seed: 42, levels: Seq::new(SEGMENTS as nat, |segment: int| 0int) }
    }

    /// The animator one tick later: the generator advances once per segment,
    /// and each segment is nudged by the state reached at its turn.
    pub open spec fn flicker(self) -> FireModel {
        FireModel {
            seed: seed_after(self.seed, SEGMENTS as nat),
            levels: Seq::new(
                SEGMENTS as nat,
                |segment: int| nudge(self.levels[segment], seed_after(self.seed, (segment + 1) as nat)),
            ),
        }
    }

    /// The colour of each segment.
    pub open spec fn colors(self) -> Seq<(u8, u8, u8)> {
        Seq::new(SEGMENTS as nat, |segment: int| EMBER_PALETTE[self.levels[segment]])
    }
}

/// Darkness on every segment.
pub open spec fn dark_segments() -> Seq<(u8, u8, u8)> {
    Seq::new(SEGMENTS as nat, |segment: int| (0u8, 0u8, 0u8))
}

/// Four embers that flicker independently of each other.
pub struct Fire {
    seed: usize,
    animation: [u8; 4],
}

impl View for Fire {
    type V = FireModel;

    closed spec fn view(&self) -> FireModel {
        FireModel {
            seed: self.seed as int,
            levels: Seq::new(SEGMENTS as nat, |segment: int| self.animation[segment] as int),
        }
    }
}

impl Fire {
    /// Holds of every animator a program can hold.
    #[verifier::type_invariant]
    pub open spec fn in_range(self) -> bool {
        self@.valid()
    }

    /// The animator at start-up.
    pub fn new() -> (fire: Self)
        ensures
            fire@ == FireModel::initial(),
    {
        let fire = Fire { seed: 42, animation: [0, 0, 0, 0] };
        assert(fire@.levels =~= FireModel::initial().levels);
        fire
    }

    /// Advances the embers by one tick and gives their colours.
    pub fn animate(&mut self) -> (colors: [(u8, u8, u8); 4])
        ensures
            final(self)@ == old(self)@.flicker(),
            colors@ == final(self)@.colors(),
    {
        proof {
            use_type_invariant(&*self);
        }
        let ghost start = self@;
        let mut seed: u64 = self.seed as u64;
        let mut levels: [u8; 4] = self.animation;
        let mut colors: [(u8, u8, u8); 4] = [(0, 0, 0), (0, 0, 0), (0, 0, 0), (0, 0, 0)];
        let mut segment: usize = 0;
        assert forall|any: int| 0 <= any < SEGMENTS implies levels[any] == start.levels[any]
            && levels[any] <= MAX_LEVEL by {
            assert(0 <= start.levels[any] <= MAX_LEVEL);
        }
        while segment < SEGMENTS
            invariant
                start.valid(),
                segment <= SEGMENTS,
                seed == seed_after(start.seed, segment as nat),
                0 <= seed < 0x7fff_ffff,
                forall|done: int|
                    0 <= done < segment ==> levels[done] == nudge(
                        start.levels[done],
                        seed_after(start.seed, (done + 1) as nat),
                    ),
                forall|done: int|
                    0 <= done < segment ==> colors[done] == EMBER_PALETTE[levels[done] as int],
                forall|left: int| segment <= left < SEGMENTS ==> levels[left] == start.levels[left],
                forall|any: int| 0 <= any < SEGMENTS ==> levels[any] <= MAX_LEVEL,
            decreases SEGMENTS - segment,
        {
            seed = seed * 16_807 % 0x7fff_ffff;
            let draw: u8 = (seed % 256) as u8;
            let level: u8 = levels[segment];
            if draw < 100 {
                levels[segment] = if level > 0 { level - 1 } else { 0 };
            } else if draw > 150 {
                levels[segment] = if level < MAX_LEVEL { level + 1 } else { MAX_LEVEL };
            }
            colors[segment] = EMBER_PALETTE[levels[segment] as usize];
            segment += 1;
        }
        self.seed = seed as usize;
        self.animation = levels;
        assert(self@.levels =~= start.flicker().levels);
        assert(colors@ =~= self@.colors());
        colors
    }
}

/// What a lantern is: a switch and its embers.
pub struct LanternModel {
    pub on: bool,
    pub fire: FireModel,
}

impl LanternModel {
    /// The lantern at start-up: lit, embers at rest.
    pub open spec fn initial() -> LanternModel {
        LanternModel { on: true, fire: FireModel::initial() }
    }

    /// The lantern after a raw code of the remote: zero lights it, one puts
    /// it out, any other code changes nothing.
    pub open spec fn command(self, raw: u8) -> LanternModel {
        LanternModel { on: if raw == 0 { true } else if raw == 1 { false } else { self.on }, ..self }
    }

    /// The lantern one tick later: the embers move only while it is lit.
    pub open spec fn tick(self) -> LanternModel {
        LanternModel { fire: if self.on { self.fire.flicker() } else { self.fire }, ..self }
    }

    /// What the lantern shows: its embers while lit, else darkness.
    pub open spec fn colors(self) -> Seq<(u8, u8, u8)> {
        if self.on { self.fire.colors() } else { dark_segments() }
    }
}

/// A lantern of four embers with an on/off switch.
pub struct Lantern {
    on: bool,
    fire: Fire,
}

impl View for Lantern {
    type V = LanternModel;

    closed spec fn view(&self) -> LanternModel {
        LanternModel { on: self.on, fire: self.fire@ }
    }
}

impl Lantern {
    /// The lantern at start-up.
    pub fn new() -> (lantern: Self)
        ensures
            lantern@ == LanternModel::initial(),
    {
        Lantern { on: true, fire: Fire::new() }
    }

    /// Handles a raw code of the remote.
    pub fn command(&mut self, cmd: u8)
        ensures
            final(self)@ == old(self)@.command(cmd),
    {
        match cmd {
            0 => {
                self.on = true;
            },
            1 => {
                self.on = false;
            },
            _ => {},
        }
    }

    /// Handles a code received from a remote: applied if the remote sent
    /// this device's address, ignored otherwise.
    pub fn handle_remote(&mut self, address: u8, cmd: u8) -> (accepted: bool)
        ensures
            accepted == (address == IR_ADDRESS),
            final(self)@ == if accepted {
                old(self)@.command(cmd)
            } else {
                old(self)@
            },
    {
        if address == IR_ADDRESS {
            self.command(cmd);
            true
        } else {
            false
        }
    }

    /// Whether the lantern is lit.
    pub fn on(&self) -> (on: bool)
        ensures
            on == self@.on,
    {
        self.on
    }

    /// Advances the lantern by one tick and gives what it shows.
    pub fn animate(&mut self) -> (colors: [(u8, u8, u8); 4])
        ensures
            final(self)@ == old(self)@.tick(),
            colors@ == final(self)@.colors(),
    {
        if self.on {
            self.fire.animate()
        } else {
            let colors: [(u8, u8, u8); 4] = [(0, 0, 0), (0, 0, 0), (0, 0, 0), (0, 0, 0)];
            assert(colors@ =~= dark_segments());
            colors
        }
    }
}

/// The generator never leaves the residues of its modulus.
pub proof fn seed_stays_residue(seed: int, steps: nat)
    requires
        0 <= seed < 0x7fff_ffff,
    ensures
        0 <= seed_after(seed, steps) < 0x7fff_ffff,
    decreases steps,
{
    if steps > 0 {
        seed_stays_residue(seed, (steps - 1) as nat);
    }
}

/// A tick moves each ember by at most one level and never out of the palette.
pub proof fn flicker_is_gentle(fire: FireModel, segment: int)
    requires
        fire.valid(),
        0 <= segment < SEGMENTS,
    ensures
        fire.flicker().valid(),
        -1 <= fire.flicker().levels[segment] - fire.levels[segment] <= 1,
{
    seed_stays_residue(fire.seed, SEGMENTS as nat);
}

} // verus!
