//! One pass of the render loop.
//!
//! A pass drains the window's events, samples the held keys, and then draws
//! if anything calls for a new picture.  What a pass does to the outside
//! world is returned as a list of effects, in the order in which they are to
//! be carried out; what it does to the viewer's own state happens in place.

use vstd::prelude::*;

verus! {

/// The keys that the viewer reacts to; every other key is `Other`.
#[derive(Clone, Copy, Debug, PartialEq, Eq)]
pub enum Key {
    Escape,
    Space,
    W,
    S,
    A,
    D,
    Equal,
    Minus,
    Period,
    Comma,
    Other,
}

/// What happened to a key.
#[derive(Clone, Copy, Debug, PartialEq, Eq)]
pub enum Action {
    Release,
    Press,
    Repeat,
}

/// An event delivered by the window.
#[derive(Clone, Copy, Debug, PartialEq, Eq)]
pub enum WindowEvent {
    /// The window was resized.
    Size { width: i32, height: i32 },
    /// Something happened to a key.
    Key { key: Key, action: Action },
    /// Any event that the viewer ignores.
    Other,
}

/// Which of the keys that steer the viewer are held down when a pass samples
/// the keyboard.
#[derive(Clone, Copy, Debug, PartialEq, Eq)]
pub struct HeldKeys {
    pub w: bool,
    pub s: bool,
    pub a: bool,
    pub d: bool,
    pub equal: bool,
    pub minus: bool,
    pub period: bool,
    pub comma: bool,
}

/// A direction along an axis.
#[derive(Clone, Copy, Debug, PartialEq, Eq)]
pub enum Direction {
    Negative,
    Positive,
}

/// A direction of zooming.
#[derive(Clone, Copy, Debug, PartialEq, Eq)]
pub enum Zoom {
    /// Towards the picture: the zoom level is divided by the zoom speed.
    In,
    /// Away from the picture: the zoom level is multiplied by the zoom speed.
    Out,
}

/// Something a pass does to the outside world.
#[derive(Clone, Copy, Debug, PartialEq, Eq)]
pub enum Effect {
    /// Map rendering output onto a rectangle of this size.
    Viewport { width: i32, height: i32 },
    /// Ask the window to close.
    Close,
    /// Pan the camera vertically by one step of the pan speed.
    TranslateY { direction: Direction },
    /// Pan the camera horizontally by one step of the pan speed.
    TranslateX { direction: Direction },
    /// Zoom the camera by one step of the zoom speed.
    Zoom { zoom: Zoom },
    /// Advance the time handed to the shader by one tenth.
    AdvanceTime,
    /// Set the uniforms and draw the picture; `ticks` is the time in tenths.
    Draw { ticks: u64, iterations: i32 },
}

/// The viewer's own state.
#[derive(Clone, Copy, Debug, PartialEq, Eq)]
pub struct Viewer {
    /// While paused, time stands still.
    pub paused: bool,
    /// Set by every change that calls for a new picture, cleared by drawing.
    pub rerender: bool,
    /// The iteration count handed to the shader.
    pub iterations: i32,
    /// The time handed to the shader, in tenths.
    pub ticks: u64,
}

/// The passes that the loop aims to make in a second.
pub const PASSES_PER_SECOND: u32 = 60;

/// The nanoseconds to sleep at the end of each pass: a second shared out
/// among the passes, rounded down.  The pacing is fixed; the time a pass
/// itself takes is not made up for.
pub fn pause_nanos() -> (nanos: u32)
    ensures
        nanos == 1_000_000_000int / (PASSES_PER_SECOND as int),
        nanos == 16_666_666,
{
    1_000_000_000u32 / PASSES_PER_SECOND
}

/// The effect of one event on the outside world, if it has one.
pub open spec fn event_effect(event: WindowEvent) -> Option<Effect> {
    match event {
        WindowEvent::Size { width, height } => Some(Effect::Viewport { width, height }),
        WindowEvent::Key { key: Key::Escape, action: Action::Press } => Some(Effect::Close),
        _ => None,
    }
}

/// The effects of a run of events, in order.
pub open spec fn event_effects(events: Seq<WindowEvent>) -> Seq<Effect>
    decreases events.len(),
{
    if events.len() == 0 {
        seq![]
    } else {
        let before = event_effects(events.drop_last());
        match event_effect(events.last()) {
            Some(effect) => before.push(effect),
            None => before,
        }
    }
}

/// The vertical pan that the held keys call for: W pans up, S down, and W
/// wins over S.
pub open spec fn vertical_effects(held: HeldKeys) -> Seq<Effect> {
    if held.w {
        seq![Effect::TranslateY { direction: Direction::Positive }]
    } else if held.s {
        seq![Effect::TranslateY { direction: Direction::Negative }]
    } else {
        seq![]
    }
}

/// The horizontal pan that the held keys call for: A pans left, D right, and
/// A wins over D.
pub open spec fn horizontal_effects(held: HeldKeys) -> Seq<Effect> {
    if held.a {
        seq![Effect::TranslateX { direction: Direction::Negative }]
    } else if held.d {
        seq![Effect::TranslateX { direction: Direction::Positive }]
    } else {
        seq![]
    }
}

/// The zoom that the held keys call for: Equal zooms in, Minus out, and
/// Equal wins over Minus.
pub open spec fn zoom_effects(held: HeldKeys) -> Seq<Effect> {
    if held.equal {
        seq![Effect::Zoom { zoom: Zoom::In }]
    } else if held.minus {
        seq![Effect::Zoom { zoom: Zoom::Out }]
    } else {
        seq![]
    }
}

/// The camera effects of the held keys, in order: vertical pan, horizontal
/// pan, zoom.
pub open spec fn key_effects(held: HeldKeys) -> Seq<Effect> {
    vertical_effects(held) + horizontal_effects(held) + zoom_effects(held)
}

/// Whether any held key changes the picture.
pub open spec fn any_held(held: HeldKeys) -> bool {
    held.w || held.s || held.a || held.d || held.equal || held.minus || held.period || held.comma
}

impl Viewer {
    /// The state after the pause key was pressed: the pause flag is flipped
    /// and a new picture is called for.
    pub open spec fn toggled(self) -> Viewer {
        Viewer { paused: !self.paused, rerender: true, ..self }
    }

    /// The state after one event.
    pub open spec fn after_event(self, event: WindowEvent) -> Viewer {
        match event {
            WindowEvent::Key { key: Key::Space, action: Action::Press } => self.toggled(),
            _ => self,
        }
    }

    /// The state after a run of events.
    pub open spec fn after_events(self, events: Seq<WindowEvent>) -> Viewer
        decreases events.len(),
    {
        if events.len() == 0 {
            self
        } else {
            self.after_events(events.drop_last()).after_event(events.last())
        }
    }

    /// The change that the held keys make to the iteration count.
    pub open spec fn iteration_change(held: HeldKeys) -> int {
        if held.period {
            1
        } else if held.comma {
            -1
        } else {
            0
        }
    }

    /// Whether the keys can be sampled without the iteration count leaving
    /// its range.
    pub open spec fn can_sample(self, held: HeldKeys) -> bool {
        i32::MIN <= self.iterations + Self::iteration_change(held) <= i32::MAX
    }

    /// The state after sampling the held keys.
    pub open spec fn after_keys(self, held: HeldKeys) -> Viewer {
        Viewer {
            iterations: (self.iterations + Self::iteration_change(held)) as i32,
            rerender: self.rerender || any_held(held),
            ..self
        }
    }

    /// Whether a pass draws: always while running, and while paused only if
    /// a new picture was called for.
    pub open spec fn draws(self) -> bool {
        !self.paused || self.rerender
    }

    /// Whether the drawing step can run without the time leaving its range.
    pub open spec fn can_render(self) -> bool {
        !self.paused ==> self.ticks < u64::MAX
    }

    /// The state after the drawing step.
    pub open spec fn after_render(self) -> Viewer {
        if self.draws() {
            Viewer {
                ticks: if self.paused { self.ticks } else { (self.ticks + 1) as u64 },
                rerender: false,
                ..self
            }
        } else {
            self
        }
    }

    /// The effects of the drawing step.
    pub open spec fn render_effects(self) -> Seq<Effect> {
        if !self.draws() {
            seq![]
        } else if self.paused {
            seq![Effect::Draw { ticks: self.ticks, iterations: self.iterations }]
        } else {
            seq![
                Effect::AdvanceTime,
                Effect::Draw { ticks: (self.ticks + 1) as u64, iterations: self.iterations },
            ]
        }
    }

    /// Whether a whole pass can run on these inputs without a number leaving
    /// its range.
    pub open spec fn can_run(self, events: Seq<WindowEvent>, held: HeldKeys) -> bool {
        &&& self.after_events(events).can_sample(held)
        &&& self.after_events(events).after_keys(held).can_render()
    }

    /// The state after a whole pass.
    pub open spec fn after_frame(self, events: Seq<WindowEvent>, held: HeldKeys) -> Viewer {
        self.after_events(events).after_keys(held).after_render()
    }

    /// The effects of a whole pass, in order.
    pub open spec fn frame_effects(self, events: Seq<WindowEvent>, held: HeldKeys) -> Seq<Effect> {
        event_effects(events) + key_effects(held) + self.after_events(events).after_keys(
            held,
        ).render_effects()
    }
}

impl Viewer {
    /// The viewer at start-up: running, at time zero, with thirty
    /// iterations, and with a first picture called for.
    pub fn new() -> (viewer: Viewer)
        ensures
            viewer == (Viewer { paused: false, rerender: true, iterations: 30, ticks: 0 }),
    {
        Viewer { paused: false, rerender: true, iterations: 30, ticks: 0 }
    }

    /// Flips the pause flag and calls for a new picture.
    pub fn toggle_pause(&mut self)
        ensures
            *final(self) == old(self).toggled(),
    {
        self.paused = !self.paused;
        self.rerender = true;
    }

    /// Takes in one event and returns its effect on the outside world, if it
    /// has one: a resize sets the viewport, a press of Escape asks the window
    /// to close, a press of Space toggles the pause.
    pub fn handle_event(&mut self, event: WindowEvent) -> (effect: Option<Effect>)
        ensures
            *final(self) == old(self).after_event(event),
            effect == event_effect(event),
    {
        match event {
            WindowEvent::Size { width, height } => Some(Effect::Viewport { width, height }),
            WindowEvent::Key { key: Key::Escape, action: Action::Press } => Some(Effect::Close),
            WindowEvent::Key { key: Key::Space, action: Action::Press } => {
                self.toggle_pause();
                None
            },
            _ => None,
        }
    }

    /// Takes in a run of events, in order, and appends their effects to
    /// `effects`.
    pub fn handle_events(&mut self, events: &[WindowEvent], effects: &mut Vec<Effect>)
        ensures
            *final(self) == old(self).after_events(events@),
            final(effects)@ == old(effects)@ + event_effects(events@),
    {
        let ghost start = *self;
        let ghost given = effects@;
        let mut i: usize = 0;
        assert(events@.take(0) =~= Seq::<WindowEvent>::empty());
        while i < events.len()
            invariant
                0 <= i <= events@.len(),
                *self == start.after_events(events@.take(i as int)),
                effects@ == given + event_effects(events@.take(i as int)),
            decreases events@.len() - i,
        {
            let ghost seen = events@.take(i as int);
            let ghost next = events@.take(i + 1);
            assert(next.drop_last() =~= seen);
            assert(next.last() == events@[i as int]);
            match self.handle_event(events[i]) {
                Some(effect) => {
                    effects.push(effect);
                    assert(effects@ =~= given + event_effects(next));
                },
                None => {},
            }
            i += 1;
        }
        assert(events@.take(events@.len() as int) =~= events@);
    }

    /// Whether the keys can be sampled without the iteration count leaving
    /// its range.
    pub fn check_sample(&self, held: HeldKeys) -> (ok: bool)
        ensures
            ok == self.can_sample(held),
    {
        if held.period {
            self.iterations < i32::MAX
        } else if held.comma {
            self.iterations > i32::MIN
        } else {
            true
        }
    }

    /// Appends the vertical pan that the held keys call for.
    fn sample_vertical(held: HeldKeys, effects: &mut Vec<Effect>)
        ensures
            final(effects)@ == old(effects)@ + vertical_effects(held),
    {
        if held.w {
            effects.push(Effect::TranslateY { direction: Direction::Positive });
        } else if held.s {
            effects.push(Effect::TranslateY { direction: Direction::Negative });
        }
        assert(effects@ =~= old(effects)@ + vertical_effects(held));
    }

    /// Appends the horizontal pan that the held keys call for.
    fn sample_horizontal(held: HeldKeys, effects: &mut Vec<Effect>)
        ensures
            final(effects)@ == old(effects)@ + horizontal_effects(held),
    {
        if held.a {
            effects.push(Effect::TranslateX { direction: Direction::Negative });
        } else if held.d {
            effects.push(Effect::TranslateX { direction: Direction::Positive });
        }
        assert(effects@ =~= old(effects)@ + horizontal_effects(held));
    }

    /// Appends the zoom that the held keys call for.
    fn sample_zoom(held: HeldKeys, effects: &mut Vec<Effect>)
        ensures
            final(effects)@ == old(effects)@ + zoom_effects(held),
    {
        if held.equal {
            effects.push(Effect::Zoom { zoom: Zoom::In });
        } else if held.minus {
            effects.push(Effect::Zoom { zoom: Zoom::Out });
        }
        assert(effects@ =~= old(effects)@ + zoom_effects(held));
    }

    /// Samples the held keys: appends the camera effects to `effects`,
    /// changes the iteration count, and calls for a new picture if any of
    /// the keys is held.
    pub fn sample_keys(&mut self, held: HeldKeys, effects: &mut Vec<Effect>)
        requires
            old(self).can_sample(held),
        ensures
            *final(self) == old(self).after_keys(held),
            final(effects)@ == old(effects)@ + key_effects(held),
    {
        Self::sample_vertical(held, effects);
        Self::sample_horizontal(held, effects);
        Self::sample_zoom(held, effects);
        assert(effects@ =~= old(effects)@ + key_effects(held));
        if held.period {
            self.iterations = self.iterations + 1;
        } else if held.comma {
            self.iterations = self.iterations - 1;
        }
        if held.w || held.s || held.a || held.d || held.equal || held.minus || held.period
            || held.comma {
            self.rerender = true;
        }
    }

    /// The drawing step: while running, or when a new picture was called
    /// for, appends the drawing effects to `effects` and clears the call for
    /// a new picture; time advances by one tenth unless paused.
    pub fn render(&mut self, effects: &mut Vec<Effect>)
        requires
            old(self).can_render(),
        ensures
            *final(self) == old(self).after_render(),
            final(effects)@ == old(effects)@ + old(self).render_effects(),
    {
        let ghost given = effects@;
        let ghost start = *self;
        if !self.paused || self.rerender {
            if !self.paused {
                self.ticks = self.ticks + 1;
                effects.push(Effect::AdvanceTime);
            }
            effects.push(Effect::Draw { ticks: self.ticks, iterations: self.iterations });
            self.rerender = false;
        }
        assert(effects@ =~= given + start.render_effects());
    }

    /// Whether a whole pass can run on these inputs without a number leaving
    /// its range.
    pub fn check_run(&self, events: &[WindowEvent], held: HeldKeys) -> (ok: bool)
        ensures
            ok == self.can_run(events@, held),
    {
        let mut ahead = *self;
        let mut scratch: Vec<Effect> = Vec::new();
        ahead.handle_events(events, &mut scratch);
        if !ahead.check_sample(held) {
            return false;
        }
        ahead.sample_keys(held, &mut scratch);
        ahead.paused || ahead.ticks < u64::MAX
    }

    /// One whole pass of the loop: the events, then the held keys, then the
    /// drawing step.  Returns the effects on the outside world in the order
    /// in which they are to be carried out.
    pub fn frame(&mut self, events: &[WindowEvent], held: HeldKeys) -> (effects: Vec<Effect>)
        requires
            old(self).can_run(events@, held),
        ensures
            *final(self) == old(self).after_frame(events@, held),
            effects@ == old(self).frame_effects(events@, held),
    {
        let mut effects: Vec<Effect> = Vec::new();
        self.handle_events(events, &mut effects);
        self.sample_keys(held, &mut effects);
        self.render(&mut effects);
        assert(effects@ =~= old(self).frame_effects(events@, held));
        effects
    }

    /// One whole pass of the loop if it can run without a number leaving its
    /// range; otherwise leaves the viewer as it is and returns nothing.
    pub fn try_frame(&mut self, events: &[WindowEvent], held: HeldKeys) -> (effects: Option<
        Vec<Effect>,
    >)
        ensures
            effects is Some <==> old(self).can_run(events@, held),
            effects matches Some(made) ==> {
                &&& *final(self) == old(self).after_frame(events@, held)
                &&& made@ == old(self).frame_effects(events@, held)
            },
            effects is None ==> *final(self) == *old(self),
    {
        if self.check_run(events, held) {
            Some(self.frame(events, held))
        } else {
            None
        }
    }
}

/// The size of the viewport once a run of effects has been carried out,
/// given its size before: the size set by the last `Viewport` effect.
pub open spec fn viewport_after(effects: Seq<Effect>, before: (i32, i32)) -> (i32, i32)
    decreases effects.len(),
{
    if effects.len() == 0 {
        before
    } else {
        match effects.last() {
            Effect::Viewport { width, height } => (width, height),
            _ => viewport_after(effects.drop_last(), before),
        }
    }
}

/// The size that the window has after a run of events, given its size
/// before: the size reported by the last resize.
pub open spec fn size_after(events: Seq<WindowEvent>, before: (i32, i32)) -> (i32, i32)
    decreases events.len(),
{
    if events.len() == 0 {
        before
    } else {
        match events.last() {
            WindowEvent::Size { width, height } => (width, height),
            _ => size_after(events.drop_last(), before),
        }
    }
}

/// Whether a key event is a press of the pause key.
pub open spec fn is_pause_press(event: WindowEvent) -> bool {
    event == (WindowEvent::Key { key: Key::Space, action: Action::Press })
}

/// Pressing pause twice leaves the pause flag, the time and the iteration
/// count as they were.
pub proof fn lemma_pause_twice_restores(viewer: Viewer)
    ensures
        viewer.toggled().toggled().paused == viewer.paused,
        viewer.toggled().toggled().ticks == viewer.ticks,
        viewer.toggled().toggled().iterations == viewer.iterations,
        viewer.toggled().ticks == viewer.ticks,
{
}

/// No run of events changes the time or the iteration count.
pub proof fn lemma_events_keep_time(viewer: Viewer, events: Seq<WindowEvent>)
    ensures
        viewer.after_events(events).ticks == viewer.ticks,
        viewer.after_events(events).iterations == viewer.iterations,
    decreases events.len(),
{
    if events.len() > 0 {
        lemma_events_keep_time(viewer, events.drop_last());
    }
}

/// The pause presses among a run of events.
pub open spec fn pause_presses(events: Seq<WindowEvent>) -> nat
    decreases events.len(),
{
    if events.len() == 0 {
        0
    } else {
        pause_presses(events.drop_last()) + if is_pause_press(events.last()) {
            1nat
        } else {
            0nat
        }
    }
}

/// A run of events flips the pause flag once for each press of the pause
/// key: after an even number of presses the flag is as it was, after an odd
/// number it is flipped.
pub proof fn lemma_events_flip_pause(viewer: Viewer, events: Seq<WindowEvent>)
    ensures
        viewer.after_events(events).paused == (if pause_presses(events) % 2 == 0 {
            viewer.paused
        } else {
            !viewer.paused
        }),
        viewer.after_events(events).rerender == (viewer.rerender || pause_presses(events) > 0),
    decreases events.len(),
{
    if events.len() > 0 {
        lemma_events_flip_pause(viewer, events.drop_last());
    }
}

/// The effects of events are viewport changes and close requests only, and
/// carrying them out leaves the viewport at the size of the last resize.
pub proof fn lemma_event_effects_track_size(events: Seq<WindowEvent>, before: (i32, i32))
    ensures
        viewport_after(event_effects(events), before) == size_after(events, before),
        forall|i: int|
            0 <= i < event_effects(events).len() ==> (#[trigger] event_effects(events)[i]
                is Viewport || event_effects(events)[i] is Close),
    decreases events.len(),
{
    if events.len() > 0 {
        lemma_event_effects_track_size(events.drop_last(), before);
        let earlier = event_effects(events.drop_last());
        match event_effect(events.last()) {
            Some(effect) => {
                assert(earlier.push(effect).drop_last() =~= earlier);
            },
            None => {},
        }
    }
}

/// Effects that set no viewport leave the viewport as it was.
pub proof fn lemma_viewport_kept(head: Seq<Effect>, tail: Seq<Effect>, before: (i32, i32))
    requires
        forall|i: int| 0 <= i < tail.len() ==> !(#[trigger] tail[i] is Viewport),
    ensures
        viewport_after(head + tail, before) == viewport_after(head, before),
    decreases tail.len(),
{
    if tail.len() == 0 {
        assert(head + tail =~= head);
    } else {
        assert(!(tail[tail.len() - 1] is Viewport));
        assert((head + tail).drop_last() =~= head + tail.drop_last());
        assert((head + tail).last() == tail.last());
        lemma_viewport_kept(head, tail.drop_last(), before);
    }
}

/// A resize takes effect before the next draw: when a pass draws, every
/// effect of its events has been carried out by then, and the viewport has
/// the size reported by the last resize among them, or its old size if there
/// was none.  The draw comes last in the pass.
pub proof fn lemma_resize_precedes_draw(
    viewer: Viewer,
    events: Seq<WindowEvent>,
    held: HeldKeys,
    before: (i32, i32),
    j: int,
)
    requires
        0 <= j < viewer.frame_effects(events, held).len(),
        viewer.frame_effects(events, held)[j] is Draw,
    ensures
        j == viewer.frame_effects(events, held).len() - 1,
        j >= event_effects(events).len(),
        viewport_after(viewer.frame_effects(events, held).take(j), before) == size_after(
            events,
            before,
        ),
{
    let effects = viewer.frame_effects(events, held);
    let from_events = event_effects(events);
    let from_keys = key_effects(held);
    let from_render = viewer.after_events(events).after_keys(held).render_effects();
    lemma_event_effects_track_size(events, before);
    assert(effects =~= from_events + (from_keys + from_render));
    if j < from_events.len() {
        assert(effects[j] == from_events[j]);
        assert(false);
    }
    let tail = (from_keys + from_render).take(j - from_events.len());
    assert(effects.take(j) =~= from_events + tail);
    assert forall|i: int| 0 <= i < tail.len() implies !(#[trigger] tail[i] is Viewport) by {
        assert(tail[i] == (from_keys + from_render)[i]);
    }
    lemma_viewport_kept(from_events, tail, before);
}

/// While paused with no picture called for, a pass without a pause press and
/// without a held key changes nothing and draws nothing: its only effects
/// are those of its events.
pub proof fn lemma_idle_pass_is_still(viewer: Viewer, events: Seq<WindowEvent>, held: HeldKeys)
    requires
        viewer.paused,
        !viewer.rerender,
        pause_presses(events) == 0,
        !any_held(held),
    ensures
        viewer.can_run(events, held),
        viewer.after_frame(events, held) == viewer,
        viewer.frame_effects(events, held) == event_effects(events),
{
    lemma_events_flip_pause(viewer, events);
    lemma_events_keep_time(viewer, events);
    let settled = viewer.after_events(events);
    assert(settled == viewer);
    assert(settled.after_keys(held) == viewer);
    assert(viewer.frame_effects(events, held) =~= event_effects(events));
}

/// A pass that ends up running advances the time by exactly one tenth and
/// draws with the new time; a pass that ends up paused leaves the time as it
/// was.  Either way the call for a new picture is answered.
pub proof fn lemma_time_advances_while_running(
    viewer: Viewer,
    events: Seq<WindowEvent>,
    held: HeldKeys,
)
    requires
        viewer.can_run(events, held),
    ensures
        ({
            let after = viewer.after_frame(events, held);
            let paused = viewer.after_events(events).paused;
            &&& after.paused == paused
            &&& after.ticks == if paused { viewer.ticks as int } else { viewer.ticks + 1 }
            &&& !after.rerender
            &&& after.iterations == viewer.iterations + Viewer::iteration_change(held)
        }),
{
    lemma_events_keep_time(viewer, events);
}

} // verus!
