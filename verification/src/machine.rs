//! The stack-based control-flow state machine and the per-dispatch resource
//! context.
//!
//! The machine owns an ordered stack of states and the shared event queue.
//! One dispatch drains queued events into the top state (newest first), falls
//! back to its update hook, and then resolves the resulting transition chain
//! to quiescence.  Popping the last state without a push to replace it is a
//! fatal outcome, reported to the caller rather than swallowed.

use vstd::prelude::*;

use crate::bitmap::Bitmap;
use crate::events::Event;

verus! {

/// The host-chosen types threaded through the machine: the persisted-storage
/// value and the position payload carried by events.
pub trait Game: Sized {
    type Storage;

    type Pos;
}

/// The per-dispatch resource bundle handed to every hook: elapsed time, the
/// unit-conversion ratio, the audio mixing mask, the persisted-storage value,
/// and the process-lifetime game value.
pub struct Context<G: Game> {
    delta_ms: i64,
    rem_ratio: u64,
    sound_mask: Bitmap,
    storage: G::Storage,
    storage_dirty: bool,
    pub game: G,
}

impl<G: Game> Context<G> {
    /// Elapsed time of the current dispatch, in milliseconds.
    pub closed spec fn spec_delta(self) -> i64 {
        self.delta_ms
    }

    /// Unit-conversion ratio of the current dispatch, in thousandths of a
    /// device pixel per base unit.
    pub closed spec fn spec_rem_ratio(self) -> u64 {
        self.rem_ratio
    }

    /// The audio mixing mask.
    pub closed spec fn spec_sound_mask(self) -> Bitmap {
        self.sound_mask
    }

    /// The current persisted-storage value.
    pub closed spec fn spec_storage(self) -> G::Storage {
        self.storage
    }

    /// Whether a storage write since the last commit awaits the host.
    pub closed spec fn spec_dirty(self) -> bool {
        self.storage_dirty
    }

    /// The process-lifetime game value.
    pub closed spec fn spec_game(self) -> G {
        self.game
    }

    /// Elapsed time of the current dispatch, in milliseconds.  The first
    /// dispatch after mounting sees zero.
    pub fn delta_time(&self) -> (r: i64)
        ensures
            r == self.spec_delta(),
    {
        self.delta_ms
    }

    /// The unit-conversion ratio, recomputed by the host from its display
    /// metrics before every dispatch: thousandths of a device pixel per base
    /// unit.
    pub fn rem_ratio(&self) -> (r: u64)
        ensures
            r == self.spec_rem_ratio(),
    {
        self.rem_ratio
    }

    /// The audio mixing mask.
    pub fn sound_mask(&self) -> (r: Bitmap)
        ensures
            r == self.spec_sound_mask(),
    {
        self.sound_mask
    }

    /// Replaces the audio mixing mask.
    pub fn set_sound_mask(&mut self, mask: Bitmap)
        ensures
            final(self).spec_sound_mask() == mask,
            final(self).spec_delta() == old(self).spec_delta(),
            final(self).spec_rem_ratio() == old(self).spec_rem_ratio(),
            final(self).spec_storage() == old(self).spec_storage(),
            final(self).spec_dirty() == old(self).spec_dirty(),
            final(self).spec_game() == old(self).spec_game(),
    {
        self.sound_mask = mask;
    }

    /// The current persisted-storage value.
    pub fn storage(&self) -> (r: &G::Storage)
        ensures
            *r == self.spec_storage(),
    {
        &self.storage
    }

    /// Replaces the persisted-storage value wholesale — never merged — and
    /// marks it for a synchronous durable commit.  The new value is visible
    /// to every later read, in this dispatch and after it.
    pub fn set_storage(&mut self, new_storage: G::Storage)
        ensures
            final(self).spec_storage() == new_storage,
            final(self).spec_dirty(),
            final(self).spec_delta() == old(self).spec_delta(),
            final(self).spec_rem_ratio() == old(self).spec_rem_ratio(),
            final(self).spec_sound_mask() == old(self).spec_sound_mask(),
            final(self).spec_game() == old(self).spec_game(),
    {
        self.storage = new_storage;
        self.storage_dirty = true;
    }
}

/// Whether two context values agree on the per-dispatch timing data, which
/// no hook can change.
pub open spec fn timing_unchanged<G: Game>(a: Context<G>, b: Context<G>) -> bool {
    a.spec_delta() == b.spec_delta() && a.spec_rem_ratio() == b.spec_rem_ratio()
}

/// What a hook asks the machine to do with the state stack.
pub enum StateTransition<S> {
    /// Leave the stack as it is.
    Stay,
    /// Replace the top state in place; the old one is discarded without its
    /// pop hook.
    Replace(S),
    /// Push a new state above the current top.
    Push(S),
    /// Remove the top state, handing it to its pop hook.
    Pop,
}

impl<S> StateTransition<S> {
    /// Whether this transition leaves the stack as it is.
    pub fn is_none(&self) -> (r: bool)
        ensures
            r == (self matches StateTransition::Stay),
    {
        match self {
            StateTransition::Stay => true,
            _ => false,
        }
    }

    /// Whether this transition pushes a new state.
    pub fn is_push(&self) -> (r: bool)
        ensures
            r == (self matches StateTransition::Push(_)),
    {
        match self {
            StateTransition::Push(_) => true,
            _ => false,
        }
    }

    /// A transition that replaces the top state with the given one.
    pub fn set(state: S) -> (r: StateTransition<S>)
        ensures
            r == StateTransition::Replace(state),
    {
        StateTransition::Replace(state)
    }

    /// A transition that pushes the given state.
    pub fn push(state: S) -> (r: StateTransition<S>)
        ensures
            r == StateTransition::Push(state),
    {
        StateTransition::Push(state)
    }
}

/// A state's capability set.  Every hook receives the per-dispatch context
/// and answers with a transition; a hook that is not overridden asks for
/// nothing.  Hooks may change the stored game data, the storage value and
/// the sound mask through the context, but never its timing data.
///
/// Each state also carries a ghost `spec_fuel`, an upper bound on the
/// transition chain its placement or removal can start.  The push and pop
/// hooks spend it: whatever they hand back must fit, together with the
/// state's remaining fuel, under what the state had.  This is what makes
/// every resolution chain provably finite; a cycle of states endlessly
/// pushing one another cannot be given a consistent fuel.
pub trait GameState<G: Game>: Sized {
    /// An upper bound on the transition chain this state can start when it
    /// is placed on or removed from the stack.  A state that never answers
    /// its push and pop hooks with a replacement or a push can leave the
    /// default of zero.
    open spec fn spec_fuel(&self) -> nat {
        0
    }

    /// Called once when this state is placed on the stack, by push or by
    /// replacement.
    fn on_pushed(&mut self, context: &mut Context<G>) -> (t: StateTransition<Self>)
        ensures
            timing_unchanged(*old(context), *final(context)),
            (match t {
                StateTransition::Stay => 0,
                StateTransition::Replace(s) => 1 + s.spec_fuel(),
                StateTransition::Push(s) => 1 + s.spec_fuel(),
                StateTransition::Pop => 1,
            }) + final(self).spec_fuel() <= old(self).spec_fuel(),
    {
        StateTransition::Stay
    }

    /// Called for each event drained while this state is on top.
    fn on_event(&mut self, event: Event<G::Pos>, context: &mut Context<G>) -> (t: StateTransition<
        Self,
    >)
        ensures
            timing_unchanged(*old(context), *final(context)),
    {
        StateTransition::Stay
    }

    /// Called once per dispatch in which no event produced a transition.
    fn on_update(&mut self, context: &mut Context<G>) -> (t: StateTransition<Self>)
        ensures
            timing_unchanged(*old(context), *final(context)),
    {
        StateTransition::Stay
    }

    /// Called with ownership of this state when it is popped, so it can be
    /// wrapped into a replacement.
    fn on_popped(self, context: &mut Context<G>) -> (t: StateTransition<Self>)
        ensures
            timing_unchanged(*old(context), *final(context)),
            (match t {
                StateTransition::Stay => 0,
                StateTransition::Replace(s) => 1 + s.spec_fuel(),
                StateTransition::Push(s) => 1 + s.spec_fuel(),
                StateTransition::Pop => 1,
            }) <= self.spec_fuel(),
    {
        StateTransition::Stay
    }
}

/// The fuel a pending transition needs: one step for itself, plus whatever
/// the state it carries may start.
pub open spec fn transition_fuel<G: Game, S: GameState<G>>(t: StateTransition<S>) -> nat {
    match t {
        StateTransition::Stay => 0,
        StateTransition::Replace(s) => 1 + s.spec_fuel(),
        StateTransition::Push(s) => 1 + s.spec_fuel(),
        StateTransition::Pop => 1,
    }
}

/// The combined fuel of a stack of states.
pub open spec fn stack_fuel<G: Game, S: GameState<G>>(s: Seq<S>) -> nat
    decreases s.len(),
{
    if s.len() == 0 {
        0
    } else {
        stack_fuel::<G, S>(s.drop_last()) + s.last().spec_fuel()
    }
}

proof fn lemma_stack_fuel_push<G: Game, S: GameState<G>>(s: Seq<S>, x: S)
    ensures
        stack_fuel::<G, S>(s.push(x)) == stack_fuel::<G, S>(s) + x.spec_fuel(),
{
    assert(s.push(x).drop_last() =~= s);
}

/// How a dispatch ended.
pub enum DispatchOutcome {
    /// The transition chain reached quiescence; `steps` counts the resolved
    /// transitions — the length of the chain the dispatch records (see
    /// `Engine::spec_chain`), saturating far beyond any constructible
    /// chain.
    Completed { steps: u64 },
    /// The last remaining state was popped and its pop hook supplied no
    /// replacement.  The machine is unusable; the host must treat this as
    /// fatal.
    PoppedLast,
}

impl DispatchOutcome {
    /// Whether the dispatch completed.
    pub fn is_completed(&self) -> (r: bool)
        ensures
            r == (self matches DispatchOutcome::Completed { .. }),
    {
        match self {
            DispatchOutcome::Completed { .. } => true,
            DispatchOutcome::PoppedLast => false,
        }
    }

    /// The number of resolved transitions, if the dispatch completed.
    pub fn steps(&self) -> (r: Option<u64>)
        ensures
            r == (match *self {
                DispatchOutcome::Completed { steps } => Some(steps),
                DispatchOutcome::PoppedLast => None::<u64>,
            }),
    {
        match self {
            DispatchOutcome::Completed { steps } => Some(*steps),
            DispatchOutcome::PoppedLast => None,
        }
    }
}

/// The machine: the state stack, the shared event queue, the resource
/// context, and the frame clock.
pub struct Engine<G: Game, S: GameState<G>> {
    stack: Vec<S>,
    queue: Vec<Event<G::Pos>>,
    context: Context<G>,
    last_time_ms: i64,
    mounted: bool,
    drained: Ghost<Seq<Event<G::Pos>>>,
    chain: Ghost<Seq<ChainStep>>,
}

impl<G: Game, S: GameState<G>> Engine<G, S> {
    /// The state stack, bottom first.
    pub closed spec fn spec_stack(self) -> Seq<S> {
        self.stack@
    }

    /// The pending events, in append order.
    pub closed spec fn spec_queue(self) -> Seq<Event<G::Pos>> {
        self.queue@
    }

    /// The events handed to state hooks so far, in invocation order.
    pub closed spec fn spec_drained(self) -> Seq<Event<G::Pos>> {
        self.drained@
    }

    /// The resolution chain of the most recent dispatch: one `ChainStep`
    /// per resolved transition, in the order they were resolved.  Each
    /// dispatch records its own chain afresh.
    pub closed spec fn spec_chain(self) -> Seq<ChainStep> {
        self.chain@
    }

    /// Whether the machine has been mounted.
    pub closed spec fn spec_mounted(self) -> bool {
        self.mounted
    }

    /// The resource context.
    pub closed spec fn spec_context(self) -> Context<G> {
        self.context
    }

    /// The time of the last dispatched frame, in milliseconds.
    pub closed spec fn spec_last_time(self) -> i64 {
        self.last_time_ms
    }

    /// A machine is well formed when its stack is never empty and its frame
    /// clock holds a host timestamp.
    pub open spec fn wf(self) -> bool {
        self.spec_stack().len() >= 1 && self.spec_last_time() >= 0
    }

    /// A fresh machine holding the game's one initial state, with an empty
    /// queue, an open mixing mask, and the given storage value.  The initial
    /// state's push hook runs on `mount`, not here.
    pub fn new(game: G, storage: G::Storage, initial: S) -> (r: Engine<G, S>)
        ensures
            r.wf(),
            r.spec_stack() =~= seq![initial],
            r.spec_queue() =~= Seq::<Event<G::Pos>>::empty(),
            r.spec_context().spec_delta() == 0,
            r.spec_context().spec_rem_ratio() == 0,
            r.spec_context().spec_sound_mask().bits() == 0xffff_ffffu32,
            r.spec_context().spec_storage() == storage,
            !r.spec_context().spec_dirty(),
            r.spec_context().spec_game() == game,
            r.spec_last_time() == 0,
            r.spec_drained() =~= Seq::<Event<G::Pos>>::empty(),
            r.spec_chain() =~= Seq::<ChainStep>::empty(),
            !r.spec_mounted(),
    {
        let mut stack = Vec::new();
        stack.push(initial);
        Engine {
            stack,
            queue: Vec::new(),
            context: Context {
                delta_ms: 0,
                rem_ratio: 0,
                sound_mask: Bitmap::full(),
                storage,
                storage_dirty: false,
                game,
            },
            last_time_ms: 0,
            mounted: false,
            drained: Ghost(Seq::empty()),
            chain: Ghost(Seq::empty()),
        }
    }

    /// Appends one normalized event to the shared queue.  The producer never
    /// blocks and never reorders: the queue grows by exactly this event.
    pub fn push_event(&mut self, event: Event<G::Pos>)
        ensures
            final(self).spec_queue() == old(self).spec_queue().push(event),
            final(self).spec_stack() == old(self).spec_stack(),
            final(self).spec_context() == old(self).spec_context(),
            final(self).spec_last_time() == old(self).spec_last_time(),
            final(self).spec_drained() == old(self).spec_drained(),
            final(self).spec_chain() == old(self).spec_chain(),
            final(self).spec_mounted() == old(self).spec_mounted(),
    {
        self.queue.push(event);
    }

    /// Resolves a pending transition to quiescence: replacements and pushes
    /// run the new state's push hook, pops hand the removed state to its pop
    /// hook, and each hook's answer becomes the next pending transition.
    /// Popping the last state without a push to recover is the fatal
    /// outcome.
    fn resolve(&mut self, transition: StateTransition<S>) -> (r: DispatchOutcome)
        requires
            old(self).spec_stack().len() >= 1 || transition matches StateTransition::Push(_),
        ensures
            r matches DispatchOutcome::Completed { .. } ==> final(self).spec_stack().len() >= 1,
            r matches DispatchOutcome::PoppedLast ==> final(self).spec_stack().len() == 0,
            final(self).spec_queue() == old(self).spec_queue(),
            timing_unchanged(old(self).spec_context(), final(self).spec_context()),
            final(self).spec_last_time() == old(self).spec_last_time(),
            final(self).spec_drained() == old(self).spec_drained(),
            final(self).spec_mounted() == old(self).spec_mounted(),
            (r matches DispatchOutcome::PoppedLast) <==> !chain_completes(
                old(self).spec_stack().len(),
                final(self).spec_chain(),
            ),
            r matches DispatchOutcome::Completed { steps } ==> steps as nat == (
            if final(self).spec_chain().len() < u64::MAX as nat {
                final(self).spec_chain().len()
            } else {
                u64::MAX as nat
            }),
            r matches DispatchOutcome::Completed { .. } ==> final(self).spec_stack().len()
                == chain_depth(old(self).spec_stack().len(), final(self).spec_chain()),
    {
        self.chain = Ghost(Seq::empty());
        let mut pending = transition;
        let mut steps: u64 = 0;
        loop
            invariant
                self.spec_stack().len() >= 1 || pending matches StateTransition::Push(_),
                self.spec_queue() == old(self).spec_queue(),
                timing_unchanged(old(self).spec_context(), self.spec_context()),
                self.spec_last_time() == old(self).spec_last_time(),
                self.spec_drained() == old(self).spec_drained(),
                self.spec_mounted() == old(self).spec_mounted(),
                chain_ok(old(self).spec_stack().len(), self.spec_chain()),
                chain_depth(old(self).spec_stack().len(), self.spec_chain()) == self.spec_stack().len(),
                steps as nat == (if self.spec_chain().len() < u64::MAX as nat {
                    self.spec_chain().len()
                } else {
                    u64::MAX as nat
                }),
            decreases stack_fuel::<G, S>(self.spec_stack()) + transition_fuel::<G, S>(pending),
        {
            let ghost chain_pre = self.spec_chain();
            match pending {
                StateTransition::Stay => {
                    return DispatchOutcome::Completed { steps };
                },
                StateTransition::Replace(state) => {
                    let _discarded = self.stack.pop().unwrap();
                    let mut state = state;
                    let next = state.on_pushed(&mut self.context);
                    let ghost below = self.spec_stack();
                    self.stack.push(state);
                    self.chain = Ghost(self.chain@.push(ChainStep::ReplaceTop));
                    proof {
                        lemma_stack_fuel_push::<G, S>(below, state);
                        assert(chain_pre.push(ChainStep::ReplaceTop) =~= chain_pre + seq![
                            ChainStep::ReplaceTop,
                        ]);
                        lemma_chain_concat(old(self).spec_stack().len(), chain_pre, seq![ChainStep::ReplaceTop]);
                        lemma_chain_one(chain_depth(old(self).spec_stack().len(), chain_pre), ChainStep::ReplaceTop);
                    }
                    pending = next;
                },
                StateTransition::Push(state) => {
                    let mut state = state;
                    let next = state.on_pushed(&mut self.context);
                    let ghost below = self.spec_stack();
                    self.stack.push(state);
                    self.chain = Ghost(self.chain@.push(ChainStep::PushTop));
                    proof {
                        lemma_stack_fuel_push::<G, S>(below, state);
                        assert(chain_pre.push(ChainStep::PushTop) =~= chain_pre + seq![
                            ChainStep::PushTop,
                        ]);
                        lemma_chain_concat(old(self).spec_stack().len(), chain_pre, seq![ChainStep::PushTop]);
                        lemma_chain_one(chain_depth(old(self).spec_stack().len(), chain_pre), ChainStep::PushTop);
                    }
                    pending = next;
                },
                StateTransition::Pop => {
                    let top = self.stack.pop().unwrap();
                    let next = top.on_popped(&mut self.context);
                    self.chain = Ghost(self.chain@.push(ChainStep::PopTop));
                    proof {
                        assert(chain_pre.push(ChainStep::PopTop) =~= chain_pre + seq![
                            ChainStep::PopTop,
                        ]);
                        lemma_chain_concat(old(self).spec_stack().len(), chain_pre, seq![ChainStep::PopTop]);
                        lemma_chain_one(chain_depth(old(self).spec_stack().len(), chain_pre), ChainStep::PopTop);
                    }
                    if self.stack.len() == 0 && !next.is_push() {
                        return DispatchOutcome::PoppedLast;
                    }
                    pending = next;
                },
            }
            steps = if steps < u64::MAX {
                steps + 1
            } else {
                steps
            };
        }
    }

    /// One dispatch: sets the per-dispatch timing data, drains queued events
    /// into the top state — newest first, stopping at the first transition —
    /// falls back to the update hook when no event produced one, and
    /// resolves the chain.  Events not drained stay queued, in order, for
    /// the next dispatch.
    pub fn dispatch(&mut self, delta_ms: i64, rem_ratio: u64) -> (r: DispatchOutcome)
        requires
            old(self).wf(),
        ensures
            r matches DispatchOutcome::Completed { .. } ==> final(self).wf(),
            r matches DispatchOutcome::PoppedLast ==> final(self).spec_stack().len() == 0,
            final(self).spec_queue().len() <= old(self).spec_queue().len(),
            old(self).spec_queue().len() > 0 ==> final(self).spec_queue().len() < old(
                self,
            ).spec_queue().len(),
            final(self).spec_queue() =~= old(self).spec_queue().take(
                final(self).spec_queue().len() as int,
            ),
            final(self).spec_context().spec_delta() == delta_ms,
            final(self).spec_context().spec_rem_ratio() == rem_ratio,
            final(self).spec_last_time() == old(self).spec_last_time(),
            final(self).spec_mounted() == old(self).spec_mounted(),
            final(self).spec_drained() =~= old(self).spec_drained() + old(self).spec_queue().skip(
                final(self).spec_queue().len() as int,
            ).reverse(),
            (r matches DispatchOutcome::PoppedLast) <==> !chain_completes(
                old(self).spec_stack().len(),
                final(self).spec_chain(),
            ),
            r matches DispatchOutcome::Completed { steps } ==> steps as nat == (
            if final(self).spec_chain().len() < u64::MAX as nat {
                final(self).spec_chain().len()
            } else {
                u64::MAX as nat
            }),
            r matches DispatchOutcome::Completed { .. } ==> final(self).spec_stack().len()
                == chain_depth(old(self).spec_stack().len(), final(self).spec_chain()),
    {
        self.context.delta_ms = delta_ms;
        self.context.rem_ratio = rem_ratio;
        let mut initial: StateTransition<S> = StateTransition::Stay;
        let mut draining = true;
        while draining
            invariant
                self.spec_stack().len() == old(self).spec_stack().len(),
                self.spec_stack().len() >= 1,
                self.spec_queue().len() <= old(self).spec_queue().len(),
                draining || old(self).spec_queue().len() == 0 || self.spec_queue().len() < old(
                    self,
                ).spec_queue().len(),
                self.spec_queue() =~= old(self).spec_queue().take(
                    self.spec_queue().len() as int,
                ),
                self.spec_context().spec_delta() == delta_ms,
                self.spec_context().spec_rem_ratio() == rem_ratio,
                self.spec_last_time() == old(self).spec_last_time(),
                self.spec_mounted() == old(self).spec_mounted(),
                self.spec_drained() =~= old(self).spec_drained() + old(self).spec_queue().skip(
                    self.spec_queue().len() as int,
                ).reverse(),
            decreases self.spec_queue().len() + (if draining { 1int } else { 0int }),
        {
            if self.queue.len() == 0 {
                let mut top = self.stack.pop().unwrap();
                let t = top.on_update(&mut self.context);
                self.stack.push(top);
                initial = t;
                draining = false;
            } else {
                let ghost q_pre = self.spec_queue();
                let event = self.queue.pop().unwrap();
                self.drained = Ghost(self.drained@.push(event));
                proof {
                    assert(self.spec_queue() == q_pre.subrange(0, q_pre.len() - 1));
                    assert(q_pre.subrange(0, q_pre.len() - 1) =~= old(self).spec_queue().take(
                        q_pre.len() - 1,
                    ));
                    assert(self.spec_drained() =~= old(self).spec_drained() + old(
                        self,
                    ).spec_queue().skip(self.spec_queue().len() as int).reverse());
                }
                let mut top = self.stack.pop().unwrap();
                let t = top.on_event(event, &mut self.context);
                self.stack.push(top);
                if !t.is_none() {
                    initial = t;
                    draining = false;
                }
            }
        }
        self.resolve(initial)
    }

    /// Mounts the machine: runs the initial state's push hook — exactly once,
    /// before any frame, with elapsed time zero — resolves its chain, and
    /// starts the frame clock at the given timestamp.
    pub fn mount(&mut self, now_ms: i64, rem_ratio: u64) -> (r: DispatchOutcome)
        requires
            old(self).wf(),
            now_ms >= 0,
            !old(self).spec_mounted(),
        ensures
            r matches DispatchOutcome::Completed { .. } ==> final(self).wf(),
            r matches DispatchOutcome::PoppedLast ==> final(self).spec_stack().len() == 0,
            final(self).spec_queue() == old(self).spec_queue(),
            final(self).spec_drained() == old(self).spec_drained(),
            final(self).spec_mounted(),
            final(self).spec_context().spec_delta() == 0,
            final(self).spec_context().spec_rem_ratio() == rem_ratio,
            r matches DispatchOutcome::Completed { .. } ==> final(self).spec_last_time() == now_ms,
            r matches DispatchOutcome::PoppedLast ==> final(self).spec_last_time() == old(
                self,
            ).spec_last_time(),
            (r matches DispatchOutcome::PoppedLast) <==> !chain_completes(
                old(self).spec_stack().len(),
                final(self).spec_chain(),
            ),
            r matches DispatchOutcome::Completed { steps } ==> steps as nat == (
            if final(self).spec_chain().len() < u64::MAX as nat {
                final(self).spec_chain().len()
            } else {
                u64::MAX as nat
            }),
            r matches DispatchOutcome::Completed { .. } ==> final(self).spec_stack().len()
                == chain_depth(old(self).spec_stack().len(), final(self).spec_chain()),
    {
        self.mounted = true;
        self.context.delta_ms = 0;
        self.context.rem_ratio = rem_ratio;
        let mut top = self.stack.pop().unwrap();
        let t = top.on_pushed(&mut self.context);
        self.stack.push(top);
        let outcome = self.resolve(t);
        if outcome.is_completed() {
            self.last_time_ms = now_ms;
        }
        outcome
    }

    /// One frame: computes the elapsed time from the frame clock — never
    /// clamped, however large — dispatches, and records the frame's
    /// timestamp.
    pub fn frame(&mut self, now_ms: i64, rem_ratio: u64) -> (r: DispatchOutcome)
        requires
            old(self).wf(),
            now_ms >= 0,
            old(self).spec_mounted(),
        ensures
            r matches DispatchOutcome::Completed { .. } ==> final(self).wf(),
            r matches DispatchOutcome::PoppedLast ==> final(self).spec_stack().len() == 0,
            final(self).spec_queue().len() <= old(self).spec_queue().len(),
            old(self).spec_queue().len() > 0 ==> final(self).spec_queue().len() < old(
                self,
            ).spec_queue().len(),
            final(self).spec_queue() =~= old(self).spec_queue().take(
                final(self).spec_queue().len() as int,
            ),
            final(self).spec_context().spec_delta() == now_ms - old(self).spec_last_time(),
            final(self).spec_context().spec_rem_ratio() == rem_ratio,
            final(self).spec_mounted(),
            final(self).spec_drained() =~= old(self).spec_drained() + old(self).spec_queue().skip(
                final(self).spec_queue().len() as int,
            ).reverse(),
            r matches DispatchOutcome::Completed { .. } ==> final(self).spec_last_time() == now_ms,
            r matches DispatchOutcome::PoppedLast ==> final(self).spec_last_time() == old(
                self,
            ).spec_last_time(),
            (r matches DispatchOutcome::PoppedLast) <==> !chain_completes(
                old(self).spec_stack().len(),
                final(self).spec_chain(),
            ),
            r matches DispatchOutcome::Completed { steps } ==> steps as nat == (
            if final(self).spec_chain().len() < u64::MAX as nat {
                final(self).spec_chain().len()
            } else {
                u64::MAX as nat
            }),
            r matches DispatchOutcome::Completed { .. } ==> final(self).spec_stack().len()
                == chain_depth(old(self).spec_stack().len(), final(self).spec_chain()),
    {
        let delta_ms = now_ms - self.last_time_ms;
        let outcome = self.dispatch(delta_ms, rem_ratio);
        if outcome.is_completed() {
            self.last_time_ms = now_ms;
        }
        outcome
    }

    /// The number of states on the stack.
    pub fn stack_len(&self) -> (r: usize)
        ensures
            r == self.spec_stack().len(),
    {
        self.stack.len()
    }

    /// The number of events waiting in the queue.
    pub fn queue_len(&self) -> (r: usize)
        ensures
            r == self.spec_queue().len(),
    {
        self.queue.len()
    }

    /// Whether `mount` has run.  The push hook of the initial state runs in
    /// `mount` and never again, so a machine is mounted at most once.
    pub fn is_mounted(&self) -> (r: bool)
        ensures
            r == self.spec_mounted(),
    {
        self.mounted
    }

    /// Read access to the resource context between dispatches.
    pub fn context(&self) -> (r: &Context<G>)
        ensures
            *r == self.spec_context(),
    {
        &self.context
    }

    /// The current persisted-storage value.
    pub fn storage(&self) -> (r: &G::Storage)
        ensures
            *r == self.spec_context().spec_storage(),
    {
        &self.context.storage
    }

    /// Mutable access to the game value between dispatches.
    pub fn game_mut(&mut self) -> (r: &mut G)
        ensures
            *r == old(self).spec_context().spec_game(),
            final(self).spec_context().spec_game() == *final(r),
            final(self).spec_context().spec_delta() == old(self).spec_context().spec_delta(),
            final(self).spec_context().spec_rem_ratio() == old(self).spec_context().spec_rem_ratio(),
            final(self).spec_context().spec_sound_mask() == old(self).spec_context().spec_sound_mask(),
            final(self).spec_context().spec_storage() == old(self).spec_context().spec_storage(),
            final(self).spec_context().spec_dirty() == old(self).spec_context().spec_dirty(),
            final(self).spec_stack() == old(self).spec_stack(),
            final(self).spec_queue() == old(self).spec_queue(),
            final(self).spec_last_time() == old(self).spec_last_time(),
            final(self).spec_drained() == old(self).spec_drained(),
            final(self).spec_chain() == old(self).spec_chain(),
            final(self).spec_mounted() == old(self).spec_mounted(),
    {
        &mut self.context.game
    }

    /// Clears and reports the pending-write mark.  When it is set, the host
    /// must commit the current storage value to durable storage before the
    /// next dispatch, completing the write-through.  Successive writes
    /// within one dispatch supersede one another: the value committed is
    /// the one the last write left.
    pub fn take_dirty(&mut self) -> (r: bool)
        ensures
            r == old(self).spec_context().spec_dirty(),
            !final(self).spec_context().spec_dirty(),
            final(self).spec_context().spec_storage() == old(self).spec_context().spec_storage(),
            final(self).spec_context().spec_delta() == old(self).spec_context().spec_delta(),
            final(self).spec_context().spec_rem_ratio() == old(self).spec_context().spec_rem_ratio(),
            final(self).spec_context().spec_sound_mask() == old(self).spec_context().spec_sound_mask(),
            final(self).spec_context().spec_game() == old(self).spec_context().spec_game(),
            final(self).spec_stack() == old(self).spec_stack(),
            final(self).spec_queue() == old(self).spec_queue(),
            final(self).spec_last_time() == old(self).spec_last_time(),
            final(self).spec_drained() == old(self).spec_drained(),
            final(self).spec_chain() == old(self).spec_chain(),
            final(self).spec_mounted() == old(self).spec_mounted(),
    {
        let dirty = self.context.storage_dirty;
        self.context.storage_dirty = false;
        dirty
    }
}

/// A scripted step of a resolution chain: the transition that the hook
/// invoked at that point answers with.  A script models one chain; after
/// its last entry the chain answers quiescence.  `Engine::resolve` records
/// the chain it resolves in exactly this form (see `Engine::spec_chain`).
pub enum ChainStep {
    /// Replace the top state in place.
    ReplaceTop,
    /// Push a new state above the top.
    PushTop,
    /// Pop the top state.
    PopTop,
}

/// Whether every step of the scripted chain, started on a stack of `depth`
/// states, finds the stack it needs: a push always does, a replacement or a
/// pop only on a non-empty stack.
pub open spec fn chain_ok(depth: nat, script: Seq<ChainStep>) -> bool
    decreases script.len(),
{
    script.len() == 0 || (match script[0] {
        ChainStep::ReplaceTop => depth >= 1 && chain_ok(depth, script.skip(1)),
        ChainStep::PushTop => chain_ok(depth + 1, script.skip(1)),
        ChainStep::PopTop => depth >= 1 && chain_ok((depth - 1) as nat, script.skip(1)),
    })
}

/// The stack depth after the scripted chain: a push adds a state, a
/// replacement keeps the count, a pop removes one.
pub open spec fn chain_depth(depth: nat, script: Seq<ChainStep>) -> nat
    decreases script.len(),
{
    if script.len() == 0 {
        depth
    } else {
        match script[0] {
            ChainStep::ReplaceTop => chain_depth(depth, script.skip(1)),
            ChainStep::PushTop => chain_depth(depth + 1, script.skip(1)),
            ChainStep::PopTop => chain_depth(
                if depth >= 1 {
                    (depth - 1) as nat
                } else {
                    0
                },
                script.skip(1),
            ),
        }
    }
}

/// Whether the scripted chain resolves to quiescence without the fatal pop:
/// every step finds the stack it needs, and when the chain answers
/// quiescence at its end, at least one state is left.  A pop that empties
/// the stack is recovered exactly when the next step of the chain — the
/// popped state's own answer — pushes a replacement.
pub open spec fn chain_completes(depth: nat, script: Seq<ChainStep>) -> bool {
    chain_ok(depth, script) && chain_depth(depth, script) >= 1
}

/// Splitting a chain anywhere splits its evaluation: the back part runs
/// from the depth the front part left.
pub proof fn lemma_chain_concat(depth: nat, front: Seq<ChainStep>, back: Seq<ChainStep>)
    ensures
        chain_ok(depth, front + back) == (chain_ok(depth, front) && chain_ok(
            chain_depth(depth, front),
            back,
        )),
        chain_depth(depth, front + back) == chain_depth(chain_depth(depth, front), back),
    decreases front.len(),
{
    if front.len() == 0 {
        assert(front + back =~= back);
    } else {
        assert((front + back).skip(1) =~= front.skip(1) + back);
        match front[0] {
            ChainStep::ReplaceTop => {
                lemma_chain_concat(depth, front.skip(1), back);
            },
            ChainStep::PushTop => {
                lemma_chain_concat(depth + 1, front.skip(1), back);
            },
            ChainStep::PopTop => {
                lemma_chain_concat(
                    if depth >= 1 {
                        (depth - 1) as nat
                    } else {
                        0
                    },
                    front.skip(1),
                    back,
                );
            },
        }
    }
}

/// One step of a chain, evaluated directly.
pub proof fn lemma_chain_one(depth: nat, step: ChainStep)
    ensures
        chain_ok(depth, seq![step]) == (step matches ChainStep::PushTop || depth >= 1),
        chain_depth(depth, seq![step]) == (match step {
            ChainStep::ReplaceTop => depth,
            ChainStep::PushTop => depth + 1,
            ChainStep::PopTop => if depth >= 1 {
                (depth - 1) as nat
            } else {
                0 as nat
            },
        }),
{
    let s = seq![step];
    assert(s.skip(1) =~= Seq::<ChainStep>::empty());
    assert(s[0] == step);
    match step {
        ChainStep::ReplaceTop => {
            assert(chain_ok(depth, s) == (depth >= 1 && chain_ok(depth, s.skip(1))));
            assert(chain_depth(depth, s) == chain_depth(depth, s.skip(1)));
        },
        ChainStep::PushTop => {
            assert(chain_ok(depth, s) == chain_ok(depth + 1, s.skip(1)));
            assert(chain_depth(depth, s) == chain_depth(depth + 1, s.skip(1)));
        },
        ChainStep::PopTop => {
            assert(chain_ok(depth, s) == (depth >= 1 && chain_ok((depth - 1) as nat, s.skip(1))));
            assert(chain_depth(depth, s) == chain_depth(
                if depth >= 1 {
                    (depth - 1) as nat
                } else {
                    0
                },
                s.skip(1),
            ));
        },
    }
}

/// Fatal-pop law: a chain that pops the last remaining state and does not
/// follow that pop with a push cannot complete — by the dispatch contract
/// the machine then reports `PoppedLast`, never a silent no-op.
pub proof fn lemma_pop_of_last_without_push_is_fatal(
    depth: nat,
    script: Seq<ChainStep>,
    i: int,
)
    requires
        0 <= i < script.len(),
        script[i] matches ChainStep::PopTop,
        chain_depth(depth, script.take(i)) == 1,
        i + 1 < script.len() ==> !(script[i + 1] matches ChainStep::PushTop),
    ensures
        !chain_completes(depth, script),
{
    let front = script.take(i + 1);
    let back = script.skip(i + 1);
    assert(script =~= front + back);
    assert(front =~= script.take(i) + seq![script[i]]);
    lemma_chain_concat(depth, script.take(i), seq![script[i]]);
    lemma_chain_one(chain_depth(depth, script.take(i)), script[i]);
    lemma_chain_concat(depth, front, back);
    if back.len() > 0 {
        assert(back[0] == script[i + 1]);
        assert(!chain_ok(0, back));
    }
}

} // verus!
