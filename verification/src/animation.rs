use vstd::prelude::*;
use crate::color::{ColorModel, IndexedColor, Rgb, MAX_LUMA};
use crate::STRIP_SIZE;

verus! {

/// The fixed set of animations.
#[derive(Clone, Copy, Debug, PartialEq, Eq, Structural)]
pub enum AnimationKind {
    Static,
    Flash,
    Strobe,
    Fade,
    Smooth,
    Fire,
    Overheat,
}

/// First palette code of the four warm entries that the fire flickers through.
pub const FIRE_BASE: usize = 21;

/// One step of the multiplicative congruential generator.
pub open spec fn lcg_next(seed: int) -> int {
    seed * 16_807 % 0x7fff_ffff
}

/// The state of the generator after a number of steps.
pub open spec fn seed_after(seed: int, steps: nat) -> int
    decreases steps,
{
    if steps == 0 {
        seed
    } else {
        lcg_next(seed_after(seed, (steps - 1) as nat))
    }
}

/// The byte drawn for a pixel of the fire: the generator is advanced once,
/// and the frame number is added to the state it reaches.
pub open spec fn fire_draw(frame: int, seed: int) -> int {
    (frame + lcg_next(seed)) % 256
}

/// The palette code of the fire at a position of a frame. The generator
/// starts from the frame number and has advanced once for every pixel up to
/// and including this one.
pub open spec fn fire_code(frame: int, position: int) -> int {
    FIRE_BASE + fire_draw(frame, seed_after(frame, position as nat)) % 4
}

/// Luma of the fade at a frame. The fade has a period of twelve frames, in
/// six steps of two frames each: the step's distance from the last one is
/// subtracted, saturating at zero, from a base luma of at least one.
pub open spec fn fade_luma(luma: int, frame: int) -> int {
    let base = if luma < 1 { 1 } else { luma };
    let drop = MAX_LUMA - (frame / 2) % 6;
    if base > drop { base - drop } else { 0 }
}

/// What a render cursor is: the animation it plays, the colour it plays it
/// in, the frame it was made for, the state of its generator and the number
/// of pixels it has yet to give.
pub struct CursorModel {
    pub kind: AnimationKind,
    pub color: ColorModel,
    pub frame: int,
    pub seed: int,
    pub remaining: int,
}

impl CursorModel {
    /// The animation is in a phase that shows the colour rather than
    /// darkness, for the two kinds that blink on a ten-frame cycle.
    pub open spec fn lit_phase(self) -> bool {
        self.frame % 10 < 5
    }

    /// An overheat cursor in its lit phase: the pixel it gives next is
    /// the last one that is lit.
    pub open spec fn burns_out(self) -> bool {
        self.kind == AnimationKind::Overheat && self.lit_phase()
    }

    /// A cursor over a whole strip, as it is made for a frame: the generator
    /// starts from the frame number.
    pub open spec fn fresh(kind: AnimationKind, frame: int, color: ColorModel) -> CursorModel {
        CursorModel { kind, color, frame, seed: frame, remaining: STRIP_SIZE as int }
    }

    /// The indexed colour of the pixel that the cursor gives next.
    pub open spec fn pixel_color(self) -> ColorModel {
        match self.kind {
            AnimationKind::Static => self.color,
            AnimationKind::Flash => if self.lit_phase() { self.color } else { ColorModel::off() },
            AnimationKind::Strobe => if self.frame % 15 < 9 && self.frame % 2 == 0 {
                self.color
            } else {
                ColorModel::off()
            },
            AnimationKind::Smooth => self.color.with_code(((self.frame / 4) % 5) * 3 + 1),
            AnimationKind::Fade => self.color.with_luma(fade_luma(self.color.luma, self.frame)),
            AnimationKind::Fire => self.color.with_code(
                FIRE_BASE + fire_draw(self.frame, self.seed) % 4,
            ),
            AnimationKind::Overheat => if self.lit_phase() { self.color } else { ColorModel::off() },
        }
    }

    /// The cursor after it has given `count` pixels. A cursor that burns
    /// out has lost its colour once it has given one, and the fire has
    /// advanced its generator once for each.
    pub open spec fn advance(self, count: int) -> CursorModel {
        CursorModel {
            kind: self.kind,
            color: if count > 0 && self.burns_out() { ColorModel::off() } else { self.color },
            frame: self.frame,
            seed: if self.kind == AnimationKind::Fire {
                seed_after(self.seed, count as nat)
            } else {
                self.seed
            },
            remaining: self.remaining - count,
        }
    }

    /// The pixel at a position of the sequence that the cursor has yet to give.
    pub open spec fn pixel_at(self, position: int) -> Rgb {
        self.advance(position).pixel_color().rgb()
    }

    /// All pixels that the cursor has yet to give, in order.
    pub open spec fn pixels(self) -> Seq<Rgb> {
        Seq::new(self.remaining as nat, |position: int| self.pixel_at(position))
    }
}

/// A render cursor: gives the pixels of one frame, one by one.
#[derive(Clone, Copy, Debug)]
pub struct Animation {
    kind: AnimationKind,
    color: IndexedColor,
    cursor: usize,
    frame: usize,
    seed: usize,
}

impl View for Animation {
    type V = CursorModel;

    closed spec fn view(&self) -> CursorModel {
        CursorModel {
            kind: self.kind,
            color: self.color@,
            frame: self.frame as int,
            seed: self.seed as int,
            remaining: self.cursor as int,
        }
    }
}

impl Animation {
    #[verifier::type_invariant]
    closed spec fn inv(self) -> bool {
        self.cursor <= STRIP_SIZE
    }

    /// A cursor over a whole strip. The generator starts from the frame
    /// number.
    pub fn new(kind: AnimationKind, frame: usize, color: IndexedColor) -> (animation: Self)
        ensures
            animation@ == CursorModel::fresh(kind, frame as int, color@),
    {
        Animation { cursor: STRIP_SIZE, kind, color, frame, seed: frame }
    }

    /// The number of pixels that the cursor has yet to give.
    pub fn remaining(&self) -> (count: usize)
        ensures
            count == self@.remaining,
            count <= STRIP_SIZE,
    {
        proof {
            use_type_invariant(self);
        }
        self.cursor
    }

    /// Gives the next pixel, or nothing once the strip is covered. The fire
    /// advances its generator with every pixel it gives.
    pub fn next(&mut self) -> (pixel: Option<Rgb>)
        ensures
            old(self)@.remaining <= 0 ==> pixel.is_none() && final(self)@ == old(self)@,
            old(self)@.remaining > 0 ==> pixel == Some(old(self)@.pixel_color().rgb())
                && final(self)@ == old(self)@.advance(1),
    {
        proof {
            use_type_invariant(&*self);
            use_type_invariant(&self.color);
        }
        if self.cursor == 0 {
            return None;
        }
        let color = match self.kind {
            AnimationKind::Static => self.color,
            AnimationKind::Flash => if self.frame % 10 < 5 {
                self.color
            } else {
                IndexedColor::off()
            },
            AnimationKind::Strobe => if self.frame % 15 < 9 && self.frame % 2 == 0 {
                self.color
            } else {
                IndexedColor::off()
            },
            AnimationKind::Smooth => {
                let hue: usize = (self.frame / 4) % 5;
                self.color.with_code(hue * 3 + 1)
            },
            AnimationKind::Fade => {
                let luma: usize = self.color.luma();
                let base: usize = if luma < 1 { 1 } else { luma };
                let drop: usize = MAX_LUMA - (self.frame / 2) % 6;
                self.color.with_luma(if base > drop { base - drop } else { 0 })
            },
            AnimationKind::Fire => {
                let seed: u128 = (self.seed as u128) * 16_807 % 0x7fff_ffff;
                let draw: u128 = (self.frame as u128 + seed) % 256;
                self.seed = seed as usize;
                assert(old(self)@.advance(1).seed == lcg_next(old(self)@.seed)) by {
                    reveal_with_fuel(seed_after, 2);
                }
                self.color.with_code(FIRE_BASE + (draw % 4) as usize)
            },
            AnimationKind::Overheat => if self.frame % 10 < 5 {
                let color = self.color;
                self.color = IndexedColor::off();
                color
            } else {
                IndexedColor::off()
            },
        };
        self.cursor -= 1;
        Some(color.rgb())
    }

    /// Gives all the pixels that are left, in order, and leaves the cursor
    /// exhausted.
    pub fn collect(&mut self) -> (pixels: Vec<Rgb>)
        ensures
            pixels@ == old(self)@.pixels(),
            final(self)@ == old(self)@.advance(old(self)@.remaining),
    {
        let ghost start = self@;
        let mut pixels: Vec<Rgb> = Vec::new();
        proof {
            use_type_invariant(&*self);
        }
        while self.cursor > 0
            invariant
                0 <= pixels.len() <= start.remaining,
                self@ == start.advance(pixels.len() as int),
                forall|position: int|
                    0 <= position < pixels.len() ==> pixels[position] == start.pixel_at(position),
            decreases self.cursor,
        {
            proof {
                advance_one_more(start, pixels.len() as int);
            }
            let pixel = self.next();
            if let Some(pixel) = pixel {
                pixels.push(pixel);
            }
        }
        assert(pixels@ =~= start.pixels());
        pixels
    }
}

/// Giving one more pixel after some is giving one more than those.
pub proof fn advance_one_more(cursor: CursorModel, count: int)
    requires
        0 <= count,
    ensures
        cursor.advance(count).advance(1) == cursor.advance(count + 1),
{
    reveal_with_fuel(seed_after, 2);
}

/// The reserved colour lights nothing, at any luma.
pub proof fn off_is_dark(luma: int)
    ensures
        ColorModel::off().with_luma(luma).rgb() == Rgb::dark(),
        ColorModel::off().rgb() == Rgb::dark(),
{
}

/// Every cursor but the fire and one that burns out gives the same pixel at
/// every position, and that pixel depends on nothing but the cursor's
/// animation, colour and frame.
pub proof fn frame_is_uniform(cursor: CursorModel)
    requires
        cursor.kind != AnimationKind::Fire,
        !cursor.burns_out(),
        cursor.remaining >= 0,
    ensures
        cursor.pixels().len() == cursor.remaining,
        forall|position: int|
            0 <= position < cursor.remaining ==> #[trigger] cursor.pixels()[position]
                == cursor.pixel_color().rgb(),
{
    assert forall|position: int| 0 <= position < cursor.remaining implies
        #[trigger] cursor.pixels()[position] == cursor.pixel_color().rgb() by {
        assert(cursor.advance(position).pixel_color() == cursor.pixel_color());
    }
}

/// A cursor that burns out lights its first pixel in its colour and leaves
/// every later one dark.
pub proof fn overheat_burns_out(cursor: CursorModel)
    requires
        cursor.burns_out(),
        cursor.remaining > 0,
    ensures
        cursor.pixels()[0] == cursor.color.rgb(),
        forall|position: int|
            1 <= position < cursor.remaining ==> #[trigger] cursor.pixels()[position]
                == Rgb::dark(),
{
    off_is_dark(0);
    assert(cursor.advance(0).pixel_color() == cursor.color);
    assert forall|position: int| 1 <= position < cursor.remaining implies
        #[trigger] cursor.pixels()[position] == Rgb::dark() by {
        assert(cursor.advance(position).pixel_color() == ColorModel::off());
    }
}

/// The fire picks one of the four warm palette entries for every pixel,
/// whatever the frame and the state of its generator, and keeps the luma.
pub proof fn fire_stays_warm(cursor: CursorModel)
    requires
        cursor.kind == AnimationKind::Fire,
    ensures
        FIRE_BASE <= cursor.pixel_color().code < FIRE_BASE + 4,
        cursor.pixel_color().luma == cursor.color.luma,
{
}

/// A fire cursor made for a frame draws each pixel anew: the pixel at a
/// position has the cursor's colour with the palette code that the
/// generator, started from the frame number, gives after one step for every
/// pixel up to and including that one. The code is one of the four warm ones.
pub proof fn fire_draws_each_pixel(frame: int, color: ColorModel, position: int)
    requires
        0 <= position < STRIP_SIZE,
    ensures
        CursorModel::fresh(AnimationKind::Fire, frame, color).pixels().len() == STRIP_SIZE,
        CursorModel::fresh(AnimationKind::Fire, frame, color).pixels()[position]
            == color.with_code(fire_code(frame, position)).rgb(),
        FIRE_BASE <= fire_code(frame, position) < FIRE_BASE + 4,
{
}

/// The fade never leaves the six luma levels and never exceeds the base luma.
pub proof fn fade_stays_in_range(luma: int, frame: int)
    requires
        0 <= luma <= MAX_LUMA,
        0 <= frame,
    ensures
        0 <= fade_luma(luma, frame) <= MAX_LUMA,
        fade_luma(luma, frame) <= if luma < 1 { 1 } else { luma },
{
}

} // verus!
