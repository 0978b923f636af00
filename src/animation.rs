//! The colour palette and the transcoder that turns grid transitions into frames.
use vstd::prelude::*;

use crate::color::{black, blue_violet, gradient_inclusive, rgb_gradient, scale_color, scaled, Rgb};

verus! {

/// Number of frames in the animation of one transition.
pub const TRANSITION_STEPS: usize = 50;

/// Brightness scale applied once to every palette colour.
pub const MAX_BRIGHTNESS: u8 = 30;

/// What happened to one cell between two generations.
#[derive(Clone, Copy, Debug, PartialEq, Eq, Structural)]
pub enum Transition {
    StillAlive,
    AliveToDead,
    DeadToAlive,
    StillDead,
}

/// The category of the pair (before, after).
pub open spec fn transition_of(before: bool, after: bool) -> Transition {
    if before && after {
        Transition::StillAlive
    } else if before {
        Transition::AliveToDead
    } else if after {
        Transition::DeadToAlive
    } else {
        Transition::StillDead
    }
}

/// The category of the pair (before, after).
pub fn classify(before: bool, after: bool) -> (t: Transition)
    ensures
        t == transition_of(before, after),
{
    match (before, after) {
        (true, true) => Transition::StillAlive,
        (true, false) => Transition::AliveToDead,
        (false, true) => Transition::DeadToAlive,
        (false, false) => Transition::StillDead,
    }
}

/// The animation step actually shown at step `i`: the last one once `i` runs past the end.
pub open spec fn clamped_step(i: int) -> int {
    if i < TRANSITION_STEPS {
        i
    } else {
        TRANSITION_STEPS - 1
    }
}

/// `colors`, each scaled by `brightness`.
pub open spec fn scaled_all(colors: Seq<Rgb>, brightness: u8) -> Seq<Rgb> {
    Seq::new(colors.len(), |i: int| scaled(colors[i], brightness))
}

/// The table of a category in the palette made of `alive` and `dead` at `brightness`.
pub open spec fn palette_table(alive: Rgb, dead: Rgb, brightness: u8, t: Transition) -> Seq<Rgb> {
    match t {
        Transition::StillAlive => Seq::new(TRANSITION_STEPS as nat, |i: int| scaled(alive, brightness)),
        Transition::AliveToDead => scaled_all(
            rgb_gradient(alive, dead, TRANSITION_STEPS as nat),
            brightness,
        ),
        Transition::DeadToAlive => scaled_all(
            rgb_gradient(dead, alive, TRANSITION_STEPS as nat),
            brightness,
        ),
        Transition::StillDead => Seq::new(TRANSITION_STEPS as nat, |i: int| scaled(dead, brightness)),
    }
}

/// The four colours shown at one animation step, one per category.
#[derive(Clone, Copy, Debug, PartialEq, Eq, Structural)]
pub struct LedstripColor {
    pub current_alive_to_dead: Rgb,
    pub current_dead_to_alive: Rgb,
    pub current_still_alive: Rgb,
    pub current_still_dead: Rgb,
}

/// Four gradients of `TRANSITION_STEPS` colours, one per transition category.
pub struct LedstripColors {
    alive_to_dead: Vec<Rgb>,
    dead_to_alive: Vec<Rgb>,
    still_alive: Vec<Rgb>,
    still_dead: Vec<Rgb>,
}

/// `colors` with each entry scaled by `brightness`.
fn scale_all(colors: &Vec<Rgb>, brightness: u8) -> (r: Vec<Rgb>)
    ensures
        r@ == scaled_all(colors@, brightness),
{
    let mut r: Vec<Rgb> = Vec::with_capacity(colors.len());
    let mut i: usize = 0;
    while i < colors.len()
        invariant
            i <= colors@.len(),
            r@ =~= scaled_all(colors@, brightness).subrange(0, i as int),
        decreases colors@.len() - i,
    {
        r.push(scale_color(colors[i], brightness));
        i = i + 1;
    }
    assert(r@ =~= scaled_all(colors@, brightness));
    r
}

impl LedstripColors {
    /// The table of colours for transition category `t`.
    pub closed spec fn table(&self, t: Transition) -> Seq<Rgb> {
        match t {
            Transition::StillAlive => self.still_alive@,
            Transition::AliveToDead => self.alive_to_dead@,
            Transition::DeadToAlive => self.dead_to_alive@,
            Transition::StillDead => self.still_dead@,
        }
    }

    /// Every table holds one colour per animation step.
    pub open spec fn wf(&self) -> bool {
        &&& self.table(Transition::StillAlive).len() == TRANSITION_STEPS
        &&& self.table(Transition::AliveToDead).len() == TRANSITION_STEPS
        &&& self.table(Transition::DeadToAlive).len() == TRANSITION_STEPS
        &&& self.table(Transition::StillDead).len() == TRANSITION_STEPS
    }

    /// The palette of the installation: live cells blue violet, dead cells black.
    pub fn new() -> (r: Self)
        ensures
            r.wf(),
            forall|t: Transition|
                r.table(t) == palette_table(blue_violet(), black(), MAX_BRIGHTNESS, t),
    {
        LedstripColors::with_colors(Rgb::new(0x8A, 0x2B, 0xE2), Rgb::new(0, 0, 0), MAX_BRIGHTNESS)
    }

    /// The palette whose live cells show `alive`, dead cells `dead`, and whose
    /// changing cells fade between the two, every colour scaled by `brightness`.
    pub fn with_colors(alive: Rgb, dead: Rgb, brightness: u8) -> (r: Self)
        ensures
            r.wf(),
            forall|t: Transition| r.table(t) == palette_table(alive, dead, brightness, t),
    {
        let alive_to_dead = gradient_inclusive(alive, dead, TRANSITION_STEPS);
        let dead_to_alive = gradient_inclusive(dead, alive, TRANSITION_STEPS);
        let still_alive = vec![alive; TRANSITION_STEPS];
        let still_dead = vec![dead; TRANSITION_STEPS];
        let r = LedstripColors {
            alive_to_dead: scale_all(&alive_to_dead, brightness),
            dead_to_alive: scale_all(&dead_to_alive, brightness),
            still_alive: scale_all(&still_alive, brightness),
            still_dead: scale_all(&still_dead, brightness),
        };
        assert(r.still_alive@ =~= palette_table(alive, dead, brightness, Transition::StillAlive));
        assert(r.still_dead@ =~= palette_table(alive, dead, brightness, Transition::StillDead));
        r
    }

    /// The colour of category `t` at animation step `index`, clamped to the last step.
    pub fn color_for(&self, t: Transition, index: usize) -> (c: Rgb)
        requires
            self.wf(),
        ensures
            c == self.table(t)[clamped_step(index as int)],
    {
        let i = if index < TRANSITION_STEPS {
            index
        } else {
            TRANSITION_STEPS - 1
        };
        match t {
            Transition::StillAlive => self.still_alive[i],
            Transition::AliveToDead => self.alive_to_dead[i],
            Transition::DeadToAlive => self.dead_to_alive[i],
            Transition::StillDead => self.still_dead[i],
        }
    }

    /// The colours of the four categories at animation step `index`, clamped to the last step.
    pub fn get_color_at(&self, index: usize) -> (c: LedstripColor)
        requires
            self.wf(),
        ensures
            c.current_alive_to_dead == self.table(Transition::AliveToDead)[clamped_step(
                index as int,
            )],
            c.current_dead_to_alive == self.table(Transition::DeadToAlive)[clamped_step(
                index as int,
            )],
            c.current_still_alive == self.table(Transition::StillAlive)[clamped_step(
                index as int,
            )],
            c.current_still_dead == self.table(Transition::StillDead)[clamped_step(index as int)],
    {
        LedstripColor {
            current_alive_to_dead: self.color_for(Transition::AliveToDead, index),
            current_dead_to_alive: self.color_for(Transition::DeadToAlive, index),
            current_still_alive: self.color_for(Transition::StillAlive, index),
            current_still_dead: self.color_for(Transition::StillDead, index),
        }
    }

    /// The frame shown at animation step `step` of the transition from `before` to `after`:
    /// each LED takes its category's colour at that step.
    pub fn frame(&self, before: &[bool], after: &[bool], step: usize) -> (f: Vec<Rgb>)
        requires
            self.wf(),
            before@.len() == after@.len(),
        ensures
            f@.len() == before@.len(),
            forall|led: int|
                0 <= led < f@.len() ==> f@[led] == self.table(
                    transition_of(before@[led], after@[led]),
                )[clamped_step(step as int)],
    {
        let mut f: Vec<Rgb> = Vec::with_capacity(before.len());
        let mut led: usize = 0;
        while led < before.len()
            invariant
                self.wf(),
                before@.len() == after@.len(),
                led <= before@.len(),
                f@.len() == led,
                forall|j: int|
                    0 <= j < led ==> f@[j] == self.table(
                        transition_of(before@[j], after@[j]),
                    )[clamped_step(step as int)],
            decreases before@.len() - led,
        {
            let t = classify(before[led], after[led]);
            f.push(self.color_for(t, step));
            led = led + 1;
        }
        f
    }
}

impl Default for LedstripColors {
    /// The palette of the installation.
    fn default() -> (r: Self)
        ensures
            r.wf(),
            forall|t: Transition|
                r.table(t) == palette_table(blue_violet(), black(), MAX_BRIGHTNESS, t),
    {
        LedstripColors::new()
    }
}

/// The transcoder's state: the last two grid snapshots and the next animation step.
pub struct Animator {
    palette: LedstripColors,
    previous: Vec<bool>,
    current: Vec<bool>,
    step: usize,
}

impl Animator {
    /// The palette in use.
    pub closed spec fn spec_palette(&self) -> &LedstripColors {
        &self.palette
    }

    /// The snapshot the running animation starts from.
    pub closed spec fn spec_previous(&self) -> Seq<bool> {
        self.previous@
    }

    /// The snapshot the running animation leads to.
    pub closed spec fn spec_current(&self) -> Seq<bool> {
        self.current@
    }

    /// The animation step to show next; `TRANSITION_STEPS` once the animation is over.
    pub closed spec fn spec_step(&self) -> int {
        self.step as int
    }

    /// Both snapshots cover the same LEDs and the step has not run past the end.
    pub open spec fn wf(&self) -> bool {
        &&& self.spec_palette().wf()
        &&& self.spec_previous().len() == self.spec_current().len()
        &&& 0 <= self.spec_step() <= TRANSITION_STEPS
    }

    /// An idle transcoder for `num_leds` LEDs, with an all-dead grid as its last snapshot.
    pub fn new(palette: LedstripColors, num_leds: usize) -> (r: Self)
        requires
            palette.wf(),
        ensures
            r.wf(),
            r.spec_palette() == palette,
            r.spec_previous() == Seq::new(num_leds as nat, |i: int| false),
            r.spec_current() == Seq::new(num_leds as nat, |i: int| false),
            r.spec_step() == TRANSITION_STEPS,
    {
        let r = Animator {
            palette,
            previous: vec![false; num_leds],
            current: vec![false; num_leds],
            step: TRANSITION_STEPS,
        };
        assert(r.previous@ =~= Seq::new(num_leds as nat, |i: int| false));
        assert(r.current@ =~= Seq::new(num_leds as nat, |i: int| false));
        r
    }

    /// Whether the animation of the current transition is over.
    pub fn is_idle(&self) -> (r: bool)
        ensures
            r == (self.spec_step() >= TRANSITION_STEPS),
    {
        self.step >= TRANSITION_STEPS
    }

    /// Decides the next frame. A newer snapshot, when one was published, abandons the
    /// running animation and starts the transition from the current snapshot to it.
    /// Otherwise the running animation moves one step on, or, when it is over, there
    /// is no frame to show.
    pub fn advance(&mut self, newer: Option<Vec<bool>>) -> (f: Option<Vec<Rgb>>)
        requires
            old(self).wf(),
            newer matches Some(g) ==> g@.len() == old(self).spec_current().len(),
        ensures
            final(self).wf(),
            final(self).spec_palette() == old(self).spec_palette(),
            final(self).spec_current().len() == old(self).spec_current().len(),
            match newer {
                Some(g) => {
                    &&& final(self).spec_previous() == old(self).spec_current()
                    &&& final(self).spec_current() == g@
                    &&& final(self).spec_step() == 1
                    &&& f matches Some(frame) && frame_at(
                        old(self).spec_palette(),
                        old(self).spec_current(),
                        g@,
                        0,
                        frame@,
                    )
                },
                None => {
                    &&& final(self).spec_previous() == old(self).spec_previous()
                    &&& final(self).spec_current() == old(self).spec_current()
                    &&& if old(self).spec_step() < TRANSITION_STEPS {
                        &&& final(self).spec_step() == old(self).spec_step() + 1
                        &&& f matches Some(frame) && frame_at(
                            old(self).spec_palette(),
                            old(self).spec_previous(),
                            old(self).spec_current(),
                            old(self).spec_step(),
                            frame@,
                        )
                    } else {
                        &&& final(self).spec_step() == old(self).spec_step()
                        &&& f is None
                    }
                },
            },
    {
        match newer {
            Some(g) => {
                let mut previous = g;
                core::mem::swap(&mut self.current, &mut previous);
                self.previous = previous;
                self.step = 0;
            },
            None => {},
        }
        if self.step < TRANSITION_STEPS {
            let frame = self.palette.frame(self.previous.as_slice(), self.current.as_slice(), self.step);
            self.step = self.step + 1;
            Some(frame)
        } else {
            None
        }
    }
}

/// `frame` is what `palette` shows at step `step` of the transition from `before` to `after`.
pub open spec fn frame_at(
    palette: &LedstripColors,
    before: Seq<bool>,
    after: Seq<bool>,
    step: int,
    frame: Seq<Rgb>,
) -> bool {
    &&& frame.len() == before.len()
    &&& forall|led: int|
        0 <= led < frame.len() ==> frame[led] == palette.table(
            transition_of(before[led], after[led]),
        )[clamped_step(step)]
}

} // verus!
