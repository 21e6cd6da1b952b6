use vstd::prelude::*;
use crate::animation::{
    fire_code, fire_draws_each_pixel, frame_is_uniform, off_is_dark, overheat_burns_out,
    Animation, AnimationKind, CursorModel, FIRE_BASE,
};
use crate::color::{ColorModel, IndexedColor, Rgb, MAX_LUMA};
use crate::command::{decode, decode_spec, StripCommand};
use crate::{IR_ADDRESS, STRIP_SIZE};

verus! {

/// What the state of a strip is.
pub struct StripModel {
    pub power: bool,
    pub mode: AnimationKind,
    pub color: ColorModel,
    pub frame: int,
    pub overheat: bool,
}

impl StripModel {
    /// The colour is valid and the frame counter fits a machine word.
    pub open spec fn valid(self) -> bool {
        self.color.valid() && 0 <= self.frame <= usize::MAX
    }

    /// The state at start-up: switched on, playing the fire in the initial
    /// colour, at frame zero, not overheated.
    pub open spec fn initial() -> StripModel {
        StripModel {
            power: true,
            mode: AnimationKind::Fire,
            color: ColorModel::initial(),
            frame: 0,
            overheat: false,
        }
    }

    /// The state after a command.
    pub open spec fn apply(self, command: StripCommand) -> StripModel {
        match command {
            StripCommand::PowerOn => StripModel {
                power: true,
                mode: AnimationKind::Fire,
                color: ColorModel::initial(),
                frame: self.frame,
                overheat: false,
            },
            StripCommand::PowerOff => StripModel { power: false, ..self },
            StripCommand::SetMode(mode) => StripModel { mode, ..self },
            StripCommand::LumaUp => StripModel { color: self.color.brighter(), ..self },
            StripCommand::LumaDown => StripModel { color: self.color.dimmer(), ..self },
            StripCommand::SetColor(code) => StripModel {
                color: self.color.with_code(code as int),
                ..self
            },
        }
    }

    /// The state after a run of commands, applied first to last.
    pub open spec fn apply_all(self, commands: Seq<StripCommand>) -> StripModel
        decreases commands.len(),
    {
        if commands.len() == 0 {
            self
        } else {
            self.apply_all(commands.drop_last()).apply(commands.last())
        }
    }

    /// The state after a frame tick: the counter goes up by one and wraps
    /// to zero after the largest machine word.
    pub open spec fn tick(self) -> StripModel {
        StripModel { frame: if self.frame == usize::MAX { 0 } else { self.frame + 1 }, ..self }
    }

    /// The state after the thermal guard has tripped.
    pub open spec fn overheated(self) -> StripModel {
        StripModel { overheat: true, ..self }
    }

    /// The cursor that renders this state: darkness when switched off, the
    /// overheat warning in red when overheated, else the chosen animation.
    pub open spec fn cursor(self) -> CursorModel {
        if !self.power {
            CursorModel::fresh(AnimationKind::Static, 0, ColorModel::off())
        } else if self.overheat {
            CursorModel::fresh(AnimationKind::Overheat, self.frame, ColorModel::red())
        } else {
            CursorModel::fresh(self.mode, self.frame, self.color)
        }
    }

    /// The pixels that this state renders to, first to last.
    pub open spec fn pixels(self) -> Seq<Rgb> {
        self.cursor().pixels()
    }
}

/// The state of a strip: power, animation, colour, frame counter and the
/// overheat latch.
#[derive(Clone, Copy, Debug)]
pub struct Strip {
    animation_kind: AnimationKind,
    color: IndexedColor,
    frame: usize,
    on: bool,
    overheat: bool,
}

impl View for Strip {
    type V = StripModel;

    closed spec fn view(&self) -> StripModel {
        StripModel {
            power: self.on,
            mode: self.animation_kind,
            color: self.color@,
            frame: self.frame as int,
            overheat: self.overheat,
        }
    }
}

impl Default for Strip {
    fn default() -> (strip: Self)
        ensures
            strip@ == StripModel::initial(),
    {
        Strip::new()
    }
}

impl Strip {
    /// The state at start-up.
    pub fn new() -> (strip: Self)
        ensures
            strip@ == StripModel::initial(),
    {
        Strip {
            animation_kind: AnimationKind::Fire,
            color: IndexedColor::default(),
            on: true,
            frame: 0,
            overheat: false,
        }
    }

    /// Whether the strip is switched on.
    pub fn on(&self) -> (power: bool)
        ensures
            power == self@.power,
    {
        self.on
    }

    /// The chosen animation, whether or not it is the one being shown.
    pub fn mode(&self) -> (mode: AnimationKind)
        ensures
            mode == self@.mode,
    {
        self.animation_kind
    }

    /// The base colour.
    pub fn color(&self) -> (color: IndexedColor)
        ensures
            color@ == self@.color,
            self@.valid(),
    {
        proof {
            use_type_invariant(&self.color);
        }
        self.color
    }

    /// The frame counter.
    pub fn frame(&self) -> (frame: usize)
        ensures
            frame == self@.frame,
    {
        self.frame
    }

    /// Whether the overheat latch is set.
    pub fn overheat(&self) -> (overheat: bool)
        ensures
            overheat == self@.overheat,
    {
        self.overheat
    }

    /// A cursor over the frame that the state shows now.
    pub fn animate(&self) -> (animation: Animation)
        ensures
            animation@ == self@.cursor(),
    {
        if self.on && !self.overheat {
            Animation::new(self.animation_kind, self.frame, self.color)
        } else if self.on {
            Animation::new(AnimationKind::Overheat, self.frame, IndexedColor::red())
        } else {
            Animation::new(AnimationKind::Static, 0, IndexedColor::off())
        }
    }

    /// The pixels of the frame that the state shows now. The state is read
    /// once and not changed.
    pub fn render(&self) -> (pixels: Vec<Rgb>)
        ensures
            pixels@ == self@.pixels(),
            pixels.len() == STRIP_SIZE,
    {
        let mut animation = self.animate();
        animation.collect()
    }

    /// Sets the overheat latch.
    pub fn handle_overheat(&mut self)
        ensures
            final(self)@ == old(self)@.overheated(),
    {
        self.overheat = true;
    }

    /// Advances the frame counter by one, wrapping.
    pub fn handle_frame(&mut self)
        ensures
            final(self)@ == old(self)@.tick(),
    {
        self.frame = if self.frame == usize::MAX { 0 } else { self.frame + 1 };
    }

    /// Applies a command.
    pub fn apply_command(&mut self, command: StripCommand)
        ensures
            final(self)@ == old(self)@.apply(command),
            final(self)@.valid(),
    {
        match command {
            StripCommand::PowerOn => self.switch_on(),
            StripCommand::PowerOff => self.switch_off(),
            StripCommand::SetMode(mode) => {
                self.animation_kind = mode;
            },
            StripCommand::LumaUp => self.luma_up(),
            StripCommand::LumaDown => self.luma_down(),
            StripCommand::SetColor(code) => {
                self.color = self.color.with_code(code);
            },
        }
        proof {
            use_type_invariant(&self.color);
        }
    }

    /// Decodes a raw code of the remote and applies the command.
    pub fn handle_command(&mut self, command: u8)
        ensures
            final(self)@ == old(self)@.apply(decode_spec(command)),
            final(self)@.valid(),
    {
        self.apply_command(decode(command));
    }

    /// Handles a code received from a remote: applied if the remote sent
    /// this device's address, ignored otherwise.
    pub fn handle_remote(&mut self, address: u8, command: u8) -> (accepted: bool)
        ensures
            accepted == (address == IR_ADDRESS),
            final(self)@ == if accepted {
                old(self)@.apply(decode_spec(command))
            } else {
                old(self)@
            },
    {
        if address == IR_ADDRESS {
            self.handle_command(command);
            true
        } else {
            false
        }
    }

    /// The thermal guard: a raw temperature above the threshold sets the
    /// overheat latch; any other changes nothing.
    pub fn handle_temperature(&mut self, raw_temperature: u16, threshold: u16) -> (tripped: bool)
        ensures
            tripped == (raw_temperature > threshold),
            final(self)@ == if tripped {
                old(self)@.overheated()
            } else {
                old(self)@
            },
    {
        if raw_temperature > threshold {
            self.handle_overheat();
            true
        } else {
            false
        }
    }

    /// Switches on and goes back to the initial animation and colour,
    /// clearing the overheat latch.
    pub fn switch_on(&mut self)
        ensures
            final(self)@ == old(self)@.apply(StripCommand::PowerOn),
            final(self)@ == (StripModel { frame: old(self)@.frame, ..StripModel::initial() }),
    {
        self.animation_kind = AnimationKind::Fire;
        self.color = IndexedColor::default();
        self.on = true;
        self.overheat = false;
    }

    /// Switches off; animation and colour stay as they are.
    pub fn switch_off(&mut self)
        ensures
            final(self)@ == old(self)@.apply(StripCommand::PowerOff),
            final(self)@ == (StripModel { power: false, ..old(self)@ }),
    {
        self.on = false;
    }

    /// One luma level brighter, saturating at the brightest.
    pub fn luma_up(&mut self)
        ensures
            final(self)@ == old(self)@.apply(StripCommand::LumaUp),
            final(self)@ == (StripModel { color: old(self)@.color.brighter(), ..old(self)@ }),
            0 <= final(self)@.color.luma <= MAX_LUMA,
            final(self)@.color.code == old(self)@.color.code,
    {
        let luma: usize = self.color.luma();
        if luma < 5 {
            self.color = self.color.with_luma(luma + 1);
        }
    }

    /// One luma level dimmer, saturating at zero.
    pub fn luma_down(&mut self)
        ensures
            final(self)@ == old(self)@.apply(StripCommand::LumaDown),
            final(self)@ == (StripModel { color: old(self)@.color.dimmer(), ..old(self)@ }),
            0 <= final(self)@.color.luma <= MAX_LUMA,
            final(self)@.color.code == old(self)@.color.code,
    {
        let luma: usize = self.color.luma();
        if luma > 0 {
            self.color = self.color.with_luma(luma - 1);
        }
    }
}

/// Saturation: whatever commands arrive, in whatever order, the luma stays
/// one of the six levels and the state stays valid.
pub proof fn luma_stays_in_range(state: StripModel, commands: Seq<StripCommand>)
    requires
        state.valid(),
    ensures
        state.apply_all(commands).valid(),
        0 <= state.apply_all(commands).color.luma <= MAX_LUMA,
    decreases commands.len(),
{
    if commands.len() > 0 {
        luma_stays_in_range(state, commands.drop_last());
    }
}

/// Reset: switching off and on again gives the initial animation and colour
/// with the overheat latch clear, whatever the state was before; only the
/// frame counter is kept.
pub proof fn power_cycle_resets(state: StripModel)
    ensures
        state.apply(StripCommand::PowerOff).apply(StripCommand::PowerOn) == (StripModel {
            frame: state.frame,
            ..StripModel::initial()
        }),
        state.apply(StripCommand::PowerOn).apply(StripCommand::PowerOn) == state.apply(
            StripCommand::PowerOn,
        ),
{
}

/// The overheat latch is sticky: once set, it survives every frame tick,
/// every further trip of the thermal guard and every run of commands that
/// holds no power-on.
pub proof fn overheat_is_sticky(state: StripModel, commands: Seq<StripCommand>)
    requires
        state.overheat,
        forall|at: int| 0 <= at < commands.len() ==> commands[at] != StripCommand::PowerOn,
    ensures
        state.apply_all(commands).overheat,
        state.tick().overheat,
        state.overheated().overheat,
    decreases commands.len(),
{
    if commands.len() > 0 {
        overheat_is_sticky(state, commands.drop_last());
    }
}

/// A command and a frame tick do not touch the same part of the state: in
/// either order they lead to the same state.
pub proof fn command_and_tick_commute(state: StripModel, command: StripCommand)
    ensures
        state.apply(command).tick() == state.tick().apply(command),
        state.overheated().tick() == state.tick().overheated(),
{
}

/// A strip that is switched off renders to darkness, whatever else it holds.
pub proof fn switched_off_is_dark(state: StripModel)
    requires
        !state.power,
    ensures
        state.pixels().len() == STRIP_SIZE,
        forall|position: int|
            0 <= position < STRIP_SIZE ==> #[trigger] state.pixels()[position] == Rgb::dark(),
{
    frame_is_uniform(state.cursor());
    off_is_dark(0);
}

/// The static animation shows the base colour on every pixel at every frame.
pub proof fn static_is_uniform(state: StripModel)
    requires
        state.power,
        !state.overheat,
        state.mode == AnimationKind::Static,
    ensures
        state.pixels().len() == STRIP_SIZE,
        forall|position: int|
            0 <= position < STRIP_SIZE ==> #[trigger] state.pixels()[position]
                == state.color.rgb(),
{
    frame_is_uniform(state.cursor());
}

/// The flash shows the base colour on every pixel for five frames, then
/// darkness for five, and repeats every ten frames.
pub proof fn flash_blinks(state: StripModel)
    requires
        state.power,
        !state.overheat,
        state.mode == AnimationKind::Flash,
    ensures
        forall|position: int|
            0 <= position < STRIP_SIZE ==> #[trigger] state.pixels()[position] == if state.frame
                % 10 < 5 {
                state.color.rgb()
            } else {
                Rgb::dark()
            },
        (StripModel { frame: state.frame + 10, ..state }).pixels() =~= state.pixels(),
{
    let later = StripModel { frame: state.frame + 10, ..state };
    frame_is_uniform(state.cursor());
    frame_is_uniform(later.cursor());
    off_is_dark(0);
    assert(later.cursor().pixel_color() == state.cursor().pixel_color());
}

/// While the strip is on and not overheated, the fire draws every pixel
/// anew: each has the base colour's luma and a palette code of its own, one
/// of the four warm ones, fixed by the frame and the pixel's position.
pub proof fn fire_is_warm(state: StripModel)
    requires
        state.power,
        !state.overheat,
        state.mode == AnimationKind::Fire,
    ensures
        state.pixels().len() == STRIP_SIZE,
        forall|position: int|
            0 <= position < STRIP_SIZE ==> #[trigger] state.pixels()[position]
                == state.color.with_code(fire_code(state.frame, position)).rgb() && FIRE_BASE
                <= fire_code(state.frame, position) < FIRE_BASE + 4,
{
    assert forall|position: int| 0 <= position < STRIP_SIZE implies #[trigger] state.pixels()[position]
        == state.color.with_code(fire_code(state.frame, position)).rgb() && FIRE_BASE <= fire_code(
        state.frame,
        position,
    ) < FIRE_BASE + 4 by {
        fire_draws_each_pixel(state.frame, state.color, position);
    }
}

/// An overheated strip that is switched on ignores the chosen animation and
/// colour: in the lit half of each ten-frame cycle its first pixel is red at
/// the lowest luma and the others are dark; in the other half all are dark.
pub proof fn overheat_overrides_mode(state: StripModel)
    requires
        state.power,
        state.overheat,
    ensures
        state.pixels().len() == STRIP_SIZE,
        state.pixels()[0] == if state.frame % 10 < 5 {
            ColorModel::red().rgb()
        } else {
            Rgb::dark()
        },
        forall|position: int|
            1 <= position < STRIP_SIZE ==> #[trigger] state.pixels()[position] == Rgb::dark(),
{
    off_is_dark(0);
    if state.cursor().burns_out() {
        overheat_burns_out(state.cursor());
    } else {
        frame_is_uniform(state.cursor());
    }
}

/// What can happen to the state between two renders, as far as the remote
/// and the frame timer go.
pub enum StripEvent {
    Command(StripCommand),
    Tick,
}

/// The commands among some events, in the order they came.
pub open spec fn commands_among(events: Seq<StripEvent>) -> Seq<StripCommand>
    decreases events.len(),
{
    if events.len() == 0 {
        Seq::empty()
    } else {
        match events.last() {
            StripEvent::Command(command) => commands_among(events.drop_last()).push(command),
            StripEvent::Tick => commands_among(events.drop_last()),
        }
    }
}

/// The number of frame ticks among some events.
pub open spec fn ticks_among(events: Seq<StripEvent>) -> nat
    decreases events.len(),
{
    if events.len() == 0 {
        0
    } else {
        match events.last() {
            StripEvent::Command(_) => ticks_among(events.drop_last()),
            StripEvent::Tick => ticks_among(events.drop_last()) + 1,
        }
    }
}

impl StripModel {
    /// The state after one event.
    pub open spec fn step(self, event: StripEvent) -> StripModel {
        match event {
            StripEvent::Command(command) => self.apply(command),
            StripEvent::Tick => self.tick(),
        }
    }

    /// The state after a run of events, handled one at a time, first to last.
    pub open spec fn run(self, events: Seq<StripEvent>) -> StripModel
        decreases events.len(),
    {
        if events.len() == 0 {
            self
        } else {
            self.run(events.drop_last()).step(events.last())
        }
    }

    /// The state after a number of frame ticks.
    pub open spec fn ticks(self, count: nat) -> StripModel
        decreases count,
    {
        if count == 0 {
            self
        } else {
            self.ticks((count - 1) as nat).tick()
        }
    }
}

/// A command after some ticks leads where the ticks after the command lead.
pub proof fn command_passes_ticks(state: StripModel, count: nat, command: StripCommand)
    ensures
        state.ticks(count).apply(command) == state.apply(command).ticks(count),
    decreases count,
{
    if count > 0 {
        command_passes_ticks(state, (count - 1) as nat, command);
        command_and_tick_commute(state.ticks((count - 1) as nat), command);
    }
}

/// However commands and frame ticks are interleaved, as long as each is
/// handled whole, the state they lead to is the one that the commands alone
/// lead to, in their order, with the frame counter advanced once per tick:
/// no state holds part of one event's effect without the rest.
pub proof fn interleaving_is_consistent(state: StripModel, events: Seq<StripEvent>)
    ensures
        state.run(events) == state.apply_all(commands_among(events)).ticks(ticks_among(events)),
    decreases events.len(),
{
    if events.len() > 0 {
        let earlier = events.drop_last();
        interleaving_is_consistent(state, earlier);
        let commands = commands_among(earlier);
        match events.last() {
            StripEvent::Command(command) => {
                assert(commands.push(command).drop_last() =~= commands);
                assert(commands.push(command).last() == command);
                command_passes_ticks(state.apply_all(commands), ticks_among(earlier), command);
            },
            StripEvent::Tick => {},
        }
    }
}

} // verus!
