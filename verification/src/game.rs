use vstd::prelude::*;
use crate::buttons::{button_target, click_request};
use crate::events::{ConvLossEvent, ConvWinEvent, FightLossEvent, FightWinEvent};
use crate::level::{Level, LevelOutcome, LevelTracker, max_level_ordinal};
use crate::mode::{AlreadyInMode, Mode, ModeController};
use crate::timer::{AnimationTimer, CountdownTimer, capped_add};

verus! {

/// Number of items in the credits roll.
pub const CREDITS_ITEMS: usize = 8;

/// How long each credits item stays visible, in milliseconds.
pub const CREDITS_ITEM_MS: u64 = 3000;

/// Total length of the credits roll timeline, in milliseconds.
pub const CREDITS_ROLL_MS: u64 = 24000;

/// Length of the level-change animation, after which the game returns to
/// the conversation minigame, in milliseconds.
pub const LEVEL_CHANGE_MS: u64 = 1125;

/// Period of the sprite-sheet frame cycles, in milliseconds.
pub const FRAME_MS: u64 = 125;

/// Frame count of the start-screen sprite sheet.
pub const START_FRAMES: u64 = 46;

/// Frame count of the level-change sprite sheet.
pub const LEVEL_FRAMES: u64 = 25;

/// Mode-local entities the core spawns on entering a mode: the start
/// screen owns its animated backdrop, its title and its four button
/// sprites; the level-change mode owns its animation sprite. The credits
/// items are modeled separately, and the conversation and fight modes
/// delegate their entities to the minigame subsystems.
pub open spec fn spawn_count(m: Mode) -> int {
    match m {
        Mode::Start => 6,
        Mode::Credits => 0,
        Mode::Conversation => 0,
        Mode::Fight => 0,
        Mode::LevelChange => 1,
    }
}

/// `s` with every entity tagged `m` removed, in order: the effect of the
/// exit hook of mode `m` on the entity set.
pub open spec fn without_tag(s: Seq<Mode>, m: Mode) -> Seq<Mode>
    decreases s.len(),
{
    if s.len() == 0 {
        Seq::empty()
    } else if s.last() == m {
        without_tag(s.drop_last(), m)
    } else {
        without_tag(s.drop_last(), m).push(s.last())
    }
}

/// Removing a tag leaves no entity carrying it.
pub proof fn lemma_without_tag_absent(s: Seq<Mode>, m: Mode)
    ensures
        forall|i: int| 0 <= i < without_tag(s, m).len() ==> without_tag(s, m)[i] != m,
    decreases s.len(),
{
    if s.len() > 0 {
        lemma_without_tag_absent(s.drop_last(), m);
    }
}

/// When every entity carries the removed tag, nothing is left.
pub proof fn lemma_without_tag_all(s: Seq<Mode>, m: Mode)
    requires
        forall|i: int| 0 <= i < s.len() ==> s[i] == m,
    ensures
        without_tag(s, m) =~= Seq::<Mode>::empty(),
    decreases s.len(),
{
    if s.len() > 0 {
        assert(forall|i: int| 0 <= i < s.drop_last().len() ==> s.drop_last()[i] == s[i]);
        lemma_without_tag_all(s.drop_last(), m);
    }
}

/// The mode one win request asks for: finishing a level below the last one
/// plays the level-change animation; finishing the last one rolls the
/// credits.
pub open spec fn win_target(k: int) -> Mode {
    if k < max_level_ordinal() {
        Mode::LevelChange
    } else {
        Mode::Credits
    }
}

/// One transition request folded under the one-transition-per-tick rule:
/// a request is applied when no transition was applied yet this tick and
/// its target is not already current; otherwise it has no effect.
pub open spec fn req_step(m: Mode, used: bool, t: Mode) -> (Mode, bool) {
    if used || t == m {
        (m, used)
    } else {
        (t, true)
    }
}

/// A whole sequence of transition requests folded in order under the
/// one-transition-per-tick rule, starting from mode `m` with the tick's
/// transition budget already used iff `used`.
pub open spec fn req_fold(m: Mode, used: bool, ts: Seq<Mode>) -> (Mode, bool)
    decreases ts.len(),
{
    if ts.len() == 0 {
        (m, used)
    } else {
        let p = req_fold(m, used, ts.drop_last());
        req_step(p.0, p.1, ts.last())
    }
}

/// The transition requests an outcome router emits for `losses` loss
/// events followed by `wins` win events, starting from level ordinal `k`:
/// each loss requests `loss_target`; the w-th win requests the target for
/// the level reached after w earlier wins.
pub open spec fn route_targets(loss_target: Mode, k: int, losses: nat, wins: nat) -> Seq<Mode> {
    Seq::new(losses, |i: int| loss_target) + Seq::new(wins, |w: int| win_target(k + w))
}

/// A transition out of a state that differs from `g0` only in its level
/// reshapes the mode-local state exactly as a transition out of `g0` would.
proof fn lemma_effect_compose(g0: Game, s1: Game, s2: Game)
    requires
        Game::cosmetics_unchanged(g0, s1),
        s1.mode() == g0.mode(),
        Game::transition_effect(s1, s2),
    ensures
        Game::transition_effect(g0, s2),
{
}

/// A step that leaves the mode, the tick budget and the mode-local state
/// alone preserves the record of an earlier transition.
proof fn lemma_effect_frozen(g0: Game, s1: Game, s2: Game)
    requires
        Game::transition_effect(g0, s1),
        Game::cosmetics_unchanged(s1, s2),
        s2.mode() == s1.mode(),
        s2.transition_used() == s1.transition_used(),
    ensures
        Game::transition_effect(g0, s2),
{
}

/// Folding requests distributes over concatenation: the second batch
/// starts from where the first one ended.
pub proof fn lemma_req_fold_app(m: Mode, used: bool, a: Seq<Mode>, b: Seq<Mode>)
    ensures
        req_fold(m, used, a + b) == req_fold(req_fold(m, used, a).0, req_fold(m, used, a).1, b),
    decreases b.len(),
{
    if b.len() == 0 {
        assert(a + b =~= a);
    } else {
        lemma_req_fold_app(m, used, a, b.drop_last());
        assert((a + b).drop_last() =~= a + b.drop_last());
        assert((a + b).last() == b.last());
    }
}

/// With the tick's transition budget already used, no request applies.
pub proof fn lemma_req_fold_used(m: Mode, ts: Seq<Mode>)
    ensures
        req_fold(m, true, ts) == (m, true),
    decreases ts.len(),
{
    if ts.len() > 0 {
        lemma_req_fold_used(m, ts.drop_last());
    }
}

/// A fold that ends in the mode it began in applied nothing, and one that
/// ends elsewhere used the budget.
pub proof fn lemma_req_fold_same(m: Mode, used: bool, ts: Seq<Mode>)
    ensures
        req_fold(m, used, ts).0 == m ==> req_fold(m, used, ts).1 == used,
        req_fold(m, used, ts).0 != m ==> req_fold(m, used, ts).1,
    decreases ts.len(),
{
    if ts.len() > 0 {
        lemma_req_fold_same(m, used, ts.drop_last());
    }
}

/// Folding a single request is one step.
pub proof fn lemma_req_fold_one(m: Mode, used: bool, t: Mode)
    ensures
        req_fold(m, used, seq![t]) == req_step(m, used, t),
{
    assert(seq![t].drop_last() =~= Seq::<Mode>::empty());
    assert(req_fold(m, used, Seq::<Mode>::empty()) == (m, used));
}

/// One win event, routed with the tick's transition budget free: from a
/// level below the last, the game is sent into LevelChange; from the last
/// level it is sent into Credits, skipping LevelChange. The loss target
/// plays no part when no loss event arrived.
pub proof fn lemma_win_routing(m: Mode, loss_target: Mode, k: int)
    ensures
        k < max_level_ordinal() ==> req_fold(m, false, route_targets(loss_target, k, 0, 1)).0
            == (if m == Mode::LevelChange {
            m
        } else {
            Mode::LevelChange
        }),
        k >= max_level_ordinal() ==> req_fold(m, false, route_targets(loss_target, k, 0, 1)).0
            == (if m == Mode::Credits {
            m
        } else {
            Mode::Credits
        }),
{
    let ts = route_targets(loss_target, k, 0, 1);
    assert(ts =~= seq![win_target(k)]);
    assert(ts.drop_last() =~= Seq::<Mode>::empty());
    assert(req_fold(m, false, Seq::<Mode>::empty()) == (m, false));
    assert(req_fold(m, false, ts) == req_step(m, false, win_target(k)));
}

/// Loss asymmetry, with the tick's transition budget free: one
/// conversation loss sends the game into the fight, while one fight loss
/// sends it into the credits, whatever the level.
pub proof fn lemma_loss_asymmetry(m: Mode, k: int)
    ensures
        req_fold(m, false, route_targets(Mode::Fight, k, 1, 0)).0 == (if m == Mode::Fight {
            m
        } else {
            Mode::Fight
        }),
        req_fold(m, false, route_targets(Mode::Credits, k, 1, 0)).0 == (if m == Mode::Credits {
            m
        } else {
            Mode::Credits
        }),
{
    let a = route_targets(Mode::Fight, k, 1, 0);
    assert(a =~= seq![Mode::Fight]);
    assert(a.drop_last() =~= Seq::<Mode>::empty());
    let b = route_targets(Mode::Credits, k, 1, 0);
    assert(b =~= seq![Mode::Credits]);
    assert(b.drop_last() =~= Seq::<Mode>::empty());
    assert(req_fold(m, false, Seq::<Mode>::empty()) == (m, false));
    assert(req_fold(m, false, a) == req_step(m, false, Mode::Fight));
    assert(req_fold(m, false, b) == req_step(m, false, Mode::Credits));
}

/// Leaving the mode-local state alone twice over leaves it alone.
proof fn lemma_cosmetics_trans(a: Game, b: Game, c: Game)
    requires
        Game::cosmetics_unchanged(a, b),
        Game::cosmetics_unchanged(b, c),
    ensures
        Game::cosmetics_unchanged(a, c),
{
    assert forall|i: int| 0 <= i < CREDITS_ITEMS implies c.popup_visible(i) == a.popup_visible(
        i,
    ) by {
        assert(b.popup_visible(i) == a.popup_visible(i));
    }
}

/// Folding one more request equals stepping the fold of the prefix.
pub proof fn lemma_req_fold_step(m: Mode, used: bool, ts: Seq<Mode>, i: int)
    requires
        0 <= i < ts.len(),
    ensures
        req_fold(m, used, ts.take(i + 1)) == req_step(
            req_fold(m, used, ts.take(i)).0,
            req_fold(m, used, ts.take(i)).1,
            ts[i],
        ),
{
    assert(ts.take(i + 1).drop_last() =~= ts.take(i));
    assert(ts.take(i + 1).last() == ts[i]);
}

/// Every transition request of one tick's discrete systems, in schedule
/// order: the global restart override first — pre-empting the rest — then
/// the button dispatch, then the conversation router's requests, then the
/// fight router's, each router draining its events in arrival order.
/// `k` is the level ordinal when the tick begins.
pub open spec fn tick_requests(
    k: int,
    restart_pressed: bool,
    clicked: bool,
    cursor: Option<(i64, i64)>,
    conv_losses: nat,
    conv_wins: nat,
    fight_losses: nat,
    fight_wins: nat,
) -> Seq<Mode> {
    (if restart_pressed {
        seq![Mode::Start]
    } else {
        Seq::<Mode>::empty()
    }) + (match click_request(clicked, cursor) {
        Some(t) => seq![t],
        None => Seq::<Mode>::empty(),
    }) + route_targets(Mode::Fight, k, conv_losses, conv_wins) + route_targets(
        Mode::Credits,
        capped_add(k, conv_wins as int, max_level_ordinal()),
        fight_losses,
        fight_wins,
    )
}

/// The whole game core: the mode controller, the level tracker, the
/// mode-local entity set, and the timed state of the credits roll, the
/// level-change animation and the start-screen animation.
pub struct Game {
    controller: ModeController,
    tracker: LevelTracker,
    tags: Vec<Mode>,
    credits_clock_ms: u64,
    credits_visible: Vec<bool>,
    level_countdown: CountdownTimer,
    level_anim: AnimationTimer,
    level_frame: u64,
    start_anim: AnimationTimer,
    start_frame: u64,
    transitioned: bool,
}

impl Game {
    /// The mode currently active.
    pub closed spec fn mode(self) -> Mode {
        self.controller.mode()
    }

    /// The current campaign level.
    pub closed spec fn level(self) -> Level {
        self.tracker.level()
    }

    /// The owning mode of each live mode-local entity, in spawn order.
    pub closed spec fn entity_tags(self) -> Seq<Mode> {
        self.tags@
    }

    /// Time since the credits roll was entered, clamped to its total
    /// length.
    pub closed spec fn credits_clock(self) -> int {
        self.credits_clock_ms as int
    }

    /// Whether the i-th credits item is currently shown.
    pub closed spec fn popup_visible(self, i: int) -> bool {
        self.credits_visible@[i]
    }

    /// Time accumulated by the level-change countdown.
    pub closed spec fn countdown_elapsed(self) -> int {
        self.level_countdown.elapsed()
    }

    /// Current frame of the level-change sprite sheet.
    pub closed spec fn level_frame_ix(self) -> int {
        self.level_frame as int
    }

    /// Current frame of the start-screen sprite sheet.
    pub closed spec fn start_frame_ix(self) -> int {
        self.start_frame as int
    }

    /// Whether a transition has already been applied this tick.
    pub closed spec fn transition_used(self) -> bool {
        self.transitioned
    }

    /// Internal consistency: every live entity belongs to the active mode,
    /// the credits roll has its fixed number of items, and every timer and
    /// frame index is in range.
    pub closed spec fn wf(self) -> bool {
        &&& forall|i: int|
            0 <= i < self.tags@.len() ==> self.tags@[i] == self.controller.mode()
        &&& self.credits_visible@.len() == CREDITS_ITEMS
        &&& self.credits_clock_ms <= CREDITS_ROLL_MS
        &&& self.level_countdown.wf()
        &&& self.level_countdown.duration() == LEVEL_CHANGE_MS
        &&& self.level_anim.wf()
        &&& self.level_anim.period() == FRAME_MS
        &&& self.start_anim.wf()
        &&& self.start_anim.period() == FRAME_MS
        &&& self.level_frame < LEVEL_FRAMES
        &&& self.start_frame < START_FRAMES
    }

    /// How an applied transition reshapes the mode-local state, the exit
    /// hook of the old mode acting before the enter hook of the new one:
    /// the exited mode's entities are despawned, then the entered mode's
    /// are spawned; entering Credits restarts the roll's timeline and
    /// exiting it force-hides every item; entering LevelChange restarts
    /// its countdown and animation; entering Start restarts its animation.
    pub open spec fn transition_effect(pre: Game, post: Game) -> bool {
        let target = post.mode();
        &&& post.transition_used()
        &&& post.entity_tags() == without_tag(pre.entity_tags(), pre.mode()) + Seq::new(
            spawn_count(target) as nat,
            |i: int| target,
        )
        &&& forall|i: int|
            0 <= i < post.entity_tags().len() ==> post.entity_tags()[i] != pre.mode()
        &&& post.credits_clock() == (if target == Mode::Credits {
            0
        } else {
            pre.credits_clock()
        })
        &&& forall|i: int|
            0 <= i < CREDITS_ITEMS ==> post.popup_visible(i) == (if target == Mode::Credits
                || pre.mode() == Mode::Credits {
                false
            } else {
                pre.popup_visible(i)
            })
        &&& post.countdown_elapsed() == (if target == Mode::LevelChange {
            0
        } else {
            pre.countdown_elapsed()
        })
        &&& post.level_frame_ix() == (if target == Mode::LevelChange {
            0
        } else {
            pre.level_frame_ix()
        })
        &&& post.start_frame_ix() == (if target == Mode::Start {
            0
        } else {
            pre.start_frame_ix()
        })
        &&& post.level_anim_elapsed() == (if target == Mode::LevelChange {
            0
        } else {
            pre.level_anim_elapsed()
        })
        &&& post.start_anim_elapsed() == (if target == Mode::Start {
            0
        } else {
            pre.start_anim_elapsed()
        })
    }

    /// The mode-local state (entities, credits roll, timers, frames) of
    /// `post` is that of `pre`, untouched.
    pub open spec fn cosmetics_unchanged(pre: Game, post: Game) -> bool {
        &&& post.entity_tags() == pre.entity_tags()
        &&& post.credits_clock() == pre.credits_clock()
        &&& forall|i: int|
            0 <= i < CREDITS_ITEMS ==> post.popup_visible(i) == pre.popup_visible(i)
        &&& post.countdown_elapsed() == pre.countdown_elapsed()
        &&& post.level_frame_ix() == pre.level_frame_ix()
        &&& post.start_frame_ix() == pre.start_frame_ix()
        &&& post.level_anim_elapsed() == pre.level_anim_elapsed()
        &&& post.start_anim_elapsed() == pre.start_anim_elapsed()
    }

    /// A fresh game: mode Start with the start screen's entities spawned,
    /// level 1, credits hidden, timers at zero, and this tick's transition
    /// budget unused.
    pub fn new() -> (g: Game)
        ensures
            g.wf(),
            g.mode() == Mode::Start,
            g.level() == Level::Level1,
            g.entity_tags() =~= Seq::new(spawn_count(Mode::Start) as nat, |i: int| Mode::Start),
            g.credits_clock() == 0,
            forall|i: int| 0 <= i < CREDITS_ITEMS ==> !g.popup_visible(i),
            g.countdown_elapsed() == 0,
            g.level_frame_ix() == 0,
            g.start_frame_ix() == 0,
            g.level_anim_elapsed() == 0,
            g.start_anim_elapsed() == 0,
            !g.transition_used(),
    {
        let mut g = Game {
            controller: ModeController::new(),
            tracker: LevelTracker::new(),
            tags: Vec::new(),
            credits_clock_ms: 0,
            credits_visible: hidden_flags(),
            level_countdown: CountdownTimer::new(LEVEL_CHANGE_MS),
            level_anim: AnimationTimer::new(FRAME_MS),
            level_frame: 0,
            start_anim: AnimationTimer::new(FRAME_MS),
            start_frame: 0,
            transitioned: false,
        };
        g.spawn_for(Mode::Start);
        g
    }

    /// Opens a new tick: the one-transition-per-tick budget becomes
    /// available again. Everything else is untouched.
    pub fn begin_tick(&mut self)
        ensures
            !final(self).transition_used(),
            final(self).mode() == old(self).mode(),
            final(self).level() == old(self).level(),
            Self::cosmetics_unchanged(*old(self), *final(self)),
            old(self).wf() ==> final(self).wf(),
    {
        self.transitioned = false;
    }

    /// Despawns every entity tagged `m`, keeping the others in order.
    fn despawn_tagged(&mut self, m: Mode)
        ensures
            final(self).tags@ == without_tag(old(self).tags@, m),
            final(self).controller == old(self).controller,
            final(self).tracker == old(self).tracker,
            final(self).credits_clock_ms == old(self).credits_clock_ms,
            final(self).credits_visible == old(self).credits_visible,
            final(self).level_countdown == old(self).level_countdown,
            final(self).level_anim == old(self).level_anim,
            final(self).level_frame == old(self).level_frame,
            final(self).start_anim == old(self).start_anim,
            final(self).start_frame == old(self).start_frame,
            final(self).transitioned == old(self).transitioned,
    {
        let n = self.tags.len();
        let mut kept: Vec<Mode> = Vec::new();
        let mut i: usize = 0;
        while i < n
            invariant
                n == self.tags@.len(),
                i <= n,
                *self == *old(self),
                kept@ == without_tag(self.tags@.take(i as int), m),
            decreases n - i,
        {
            proof {
                assert(self.tags@.take(i + 1).drop_last() =~= self.tags@.take(i as int));
                assert(self.tags@.take(i + 1).last() == self.tags@[i as int]);
            }
            if self.tags[i] != m {
                kept.push(self.tags[i]);
            }
            i = i + 1;
        }
        proof {
            assert(self.tags@.take(n as int) =~= self.tags@);
        }
        self.tags = kept;
    }

    /// Spawns the entities the core owns for mode `m`, after its own tags.
    fn spawn_for(&mut self, m: Mode)
        ensures
            final(self).tags@ == old(self).tags@ + Seq::new(spawn_count(m) as nat, |i: int| m),
            final(self).controller == old(self).controller,
            final(self).tracker == old(self).tracker,
            final(self).credits_clock_ms == old(self).credits_clock_ms,
            final(self).credits_visible == old(self).credits_visible,
            final(self).level_countdown == old(self).level_countdown,
            final(self).level_anim == old(self).level_anim,
            final(self).level_frame == old(self).level_frame,
            final(self).start_anim == old(self).start_anim,
            final(self).start_frame == old(self).start_frame,
            final(self).transitioned == old(self).transitioned,
    {
        let count: usize = match m {
            Mode::Start => 6,
            Mode::LevelChange => 1,
            _ => 0,
        };
        assert(count == spawn_count(m));
        let mut j: usize = 0;
        while j < count
            invariant
                j <= count,
                count == spawn_count(m),
                self.tags@ == old(self).tags@ + Seq::new(j as nat, |i: int| m),
                self.controller == old(self).controller,
                self.tracker == old(self).tracker,
                self.credits_clock_ms == old(self).credits_clock_ms,
                self.credits_visible == old(self).credits_visible,
                self.level_countdown == old(self).level_countdown,
                self.level_anim == old(self).level_anim,
                self.level_frame == old(self).level_frame,
                self.start_anim == old(self).start_anim,
                self.start_frame == old(self).start_frame,
                self.transitioned == old(self).transitioned,
            decreases count - j,
        {
            self.tags.push(m);
            proof {
                assert(self.tags@ =~= old(self).tags@ + Seq::new((j + 1) as nat, |i: int| m));
            }
            j = j + 1;
        }
    }

    /// Requests a transition to `target` and applies it unless `target`
    /// is already current (reported as `AlreadyInMode`) or a transition
    /// was already applied this tick (the earlier one stands and the
    /// request is dropped). An applied transition runs the exit hook of
    /// the old mode and then the enter hook of the new one.
    pub fn request_mode(&mut self, target: Mode) -> (r: Result<(), AlreadyInMode>)
        requires
            old(self).wf(),
        ensures
            final(self).wf(),
            r is Err <==> target == old(self).mode(),
            final(self).level() == old(self).level(),
            (final(self).mode(), final(self).transition_used()) == req_step(
                old(self).mode(),
                old(self).transition_used(),
                target,
            ),
            (old(self).transition_used() || target == old(self).mode()) ==> *final(self) == *old(
                self,
            ),
            (!old(self).transition_used() && target != old(self).mode()) ==> {
                &&& final(self).mode() == target
                &&& Self::transition_effect(*old(self), *final(self))
                &&& final(self).entity_tags() =~= Seq::new(
                    spawn_count(target) as nat,
                    |i: int| target,
                )
            },
    {
        let cur = self.controller.current();
        if target == cur {
            return Err(AlreadyInMode);
        }
        if self.transitioned {
            return Ok(());
        }
        // exit hook of the current mode
        self.despawn_tagged(cur);
        if cur == Mode::Credits {
            self.hide_all_popups();
        }
        // the mode value changes
        let set_result = self.controller.set_mode(target);
        assert(set_result is Ok);
        // enter hook of the new mode
        if target == Mode::Credits {
            self.credits_clock_ms = 0;
            self.hide_all_popups();
        }
        if target == Mode::LevelChange {
            self.level_countdown = CountdownTimer::new(LEVEL_CHANGE_MS);
            self.level_anim = AnimationTimer::new(FRAME_MS);
            self.level_frame = 0;
        }
        if target == Mode::Start {
            self.start_anim = AnimationTimer::new(FRAME_MS);
            self.start_frame = 0;
        }
        self.spawn_for(target);
        self.transitioned = true;
        proof {
            lemma_without_tag_absent(old(self).tags@, cur);
            lemma_without_tag_all(old(self).tags@, cur);
        }
        Ok(())
    }

    /// The common outcome router: requests `loss_target` once per loss
    /// event, then, once per win event, advances the level and requests
    /// the target the reached level calls for.
    fn route_outcomes(&mut self, loss_target: Mode, losses: usize, wins: usize)
        requires
            old(self).wf(),
        ensures
            final(self).wf(),
            final(self).level().ordinal() == capped_add(
                old(self).level().ordinal(),
                wins as int,
                max_level_ordinal(),
            ),
            (final(self).mode(), final(self).transition_used()) == req_fold(
                old(self).mode(),
                old(self).transition_used(),
                route_targets(
                    loss_target,
                    old(self).level().ordinal(),
                    losses as nat,
                    wins as nat,
                ),
            ),
            final(self).mode() == old(self).mode() ==> Self::cosmetics_unchanged(
                *old(self),
                *final(self),
            ),
            final(self).mode() != old(self).mode() ==> Self::transition_effect(
                *old(self),
                *final(self),
            ),
            final(self).mode() != old(self).mode() ==> final(self).entity_tags() =~= Seq::new(
                spawn_count(final(self).mode()) as nat,
                |i: int| final(self).mode(),
            ),
    {
        let ghost m0: Mode = self.mode();
        let ghost b0: bool = self.transition_used();
        let ghost k0: int = self.level().ordinal();
        let ghost ts: Seq<Mode> = route_targets(loss_target, k0, losses as nat, wins as nat);
        let mut i: usize = 0;
        while i < losses
            invariant
                self.wf(),
                i <= losses,
                m0 == old(self).mode(),
                b0 == old(self).transition_used(),
                k0 == old(self).level().ordinal(),
                ts == route_targets(loss_target, k0, losses as nat, wins as nat),
                self.level() == old(self).level(),
                (self.mode(), self.transition_used()) == req_fold(m0, b0, ts.take(i as int)),
                self.mode() == m0 ==> Self::cosmetics_unchanged(*old(self), *self),
                self.mode() != m0 ==> Self::transition_effect(*old(self), *self),
            decreases losses - i,
        {
            proof {
                lemma_req_fold_step(m0, b0, ts, i as int);
                assert(ts[i as int] == loss_target);
            }
            let _ = self.request_mode(loss_target);
            i = i + 1;
        }
        let mut j: usize = 0;
        while j < wins
            invariant
                self.wf(),
                j <= wins,
                m0 == old(self).mode(),
                b0 == old(self).transition_used(),
                k0 == old(self).level().ordinal(),
                ts == route_targets(loss_target, k0, losses as nat, wins as nat),
                self.level().ordinal() == capped_add(k0, j as int, max_level_ordinal()),
                (self.mode(), self.transition_used()) == req_fold(
                    m0,
                    b0,
                    ts.take(losses + j as int),
                ),
                self.mode() == m0 ==> Self::cosmetics_unchanged(*old(self), *self),
                self.mode() != m0 ==> Self::transition_effect(*old(self), *self),
            decreases wins - j,
        {
            let ghost s_iter: Game = *self;
            proof {
                lemma_req_fold_step(m0, b0, ts, losses + j as int);
                assert(ts[losses + j as int] == win_target(k0 + j));
            }
            let outcome = self.tracker.advance();
            let ghost s_mid: Game = *self;
            proof {
                assert(Self::cosmetics_unchanged(s_iter, s_mid));
            }
            match outcome {
                LevelOutcome::Advanced(_) => {
                    let _ = self.request_mode(Mode::LevelChange);
                },
                LevelOutcome::CampaignComplete => {
                    let _ = self.request_mode(Mode::Credits);
                },
            }
            proof {
                if s_iter.mode() == m0 {
                    lemma_cosmetics_trans(*old(self), s_iter, s_mid);
                    if self.mode() != m0 {
                        lemma_effect_compose(*old(self), s_mid, *self);
                    } else {
                        assert(Self::cosmetics_unchanged(s_mid, *self));
                        lemma_cosmetics_trans(*old(self), s_mid, *self);
                    }
                } else {
                    lemma_effect_frozen(*old(self), s_iter, s_mid);
                    assert(Self::cosmetics_unchanged(s_mid, *self));
                    lemma_effect_frozen(*old(self), s_mid, *self);
                }
            }
            j = j + 1;
        }
        proof {
            assert(ts.take(losses + wins as int) =~= ts);
            if self.mode() != m0 {
                lemma_without_tag_all(old(self).tags@, m0);
            }
        }
    }

    /// Routes the conversation minigame's outcome events, in the order
    /// they were drained: each loss sends the player back to the fight;
    /// each win advances the level and requests the level-change
    /// animation, or the credits when the campaign is complete.
    pub fn conv_over(&mut self, losses: &Vec<ConvLossEvent>, wins: &Vec<ConvWinEvent>)
        requires
            old(self).wf(),
        ensures
            final(self).wf(),
            final(self).level().ordinal() == capped_add(
                old(self).level().ordinal(),
                wins@.len() as int,
                max_level_ordinal(),
            ),
            (final(self).mode(), final(self).transition_used()) == req_fold(
                old(self).mode(),
                old(self).transition_used(),
                route_targets(
                    Mode::Fight,
                    old(self).level().ordinal(),
                    losses@.len(),
                    wins@.len(),
                ),
            ),
            final(self).mode() == old(self).mode() ==> Self::cosmetics_unchanged(
                *old(self),
                *final(self),
            ),
            final(self).mode() != old(self).mode() ==> Self::transition_effect(
                *old(self),
                *final(self),
            ),
            final(self).mode() != old(self).mode() ==> final(self).entity_tags() =~= Seq::new(
                spawn_count(final(self).mode()) as nat,
                |i: int| final(self).mode(),
            ),
    {
        self.route_outcomes(Mode::Fight, losses.len(), wins.len());
    }

    /// Routes the fight minigame's outcome events, in the order they were
    /// drained: each loss ends the run into the credits; each win advances
    /// the level and requests the level-change animation, or the credits
    /// when the campaign is complete.
    pub fn fight_over(&mut self, losses: &Vec<FightLossEvent>, wins: &Vec<FightWinEvent>)
        requires
            old(self).wf(),
        ensures
            final(self).wf(),
            final(self).level().ordinal() == capped_add(
                old(self).level().ordinal(),
                wins@.len() as int,
                max_level_ordinal(),
            ),
            (final(self).mode(), final(self).transition_used()) == req_fold(
                old(self).mode(),
                old(self).transition_used(),
                route_targets(
                    Mode::Credits,
                    old(self).level().ordinal(),
                    losses@.len(),
                    wins@.len(),
                ),
            ),
            final(self).mode() == old(self).mode() ==> Self::cosmetics_unchanged(
                *old(self),
                *final(self),
            ),
            final(self).mode() != old(self).mode() ==> Self::transition_effect(
                *old(self),
                *final(self),
            ),
            final(self).mode() != old(self).mode() ==> final(self).entity_tags() =~= Seq::new(
                spawn_count(final(self).mode()) as nat,
                |i: int| final(self).mode(),
            ),
    {
        self.route_outcomes(Mode::Credits, losses.len(), wins.len());
    }

    /// The global override: a dedicated key requests a transition back to
    /// Start from any mode. Scheduled first in a tick, it pre-empts any
    /// other request of the same tick.
    pub fn change_gamestate(&mut self, restart_pressed: bool)
        requires
            old(self).wf(),
        ensures
            final(self).wf(),
            final(self).level() == old(self).level(),
            !restart_pressed ==> *final(self) == *old(self),
            restart_pressed ==> (final(self).mode(), final(self).transition_used()) == req_step(
                old(self).mode(),
                old(self).transition_used(),
                Mode::Start,
            ),
            restart_pressed && (old(self).transition_used() || old(self).mode() == Mode::Start)
                ==> *final(self) == *old(self),
            restart_pressed && !old(self).transition_used() && old(self).mode() != Mode::Start
                ==> {
                &&& final(self).mode() == Mode::Start
                &&& Self::transition_effect(*old(self), *final(self))
            },
    {
        if restart_pressed {
            let _ = self.request_mode(Mode::Start);
        }
    }

    /// Dispatches a primary-button click by its position: inside the
    /// Start button's hit region it requests the conversation minigame,
    /// inside the Credits button's it requests the credits roll, anywhere
    /// else it requests nothing.
    pub fn button_system(&mut self, clicked: bool, cursor: Option<(i64, i64)>)
        requires
            old(self).wf(),
        ensures
            final(self).wf(),
            final(self).level() == old(self).level(),
            click_request(clicked, cursor) is None ==> *final(self) == *old(self),
            click_request(clicked, cursor) matches Some(t) ==> {
                &&& (final(self).mode(), final(self).transition_used()) == req_step(
                    old(self).mode(),
                    old(self).transition_used(),
                    t,
                )
                &&& (old(self).transition_used() || t == old(self).mode()) ==> *final(self)
                    == *old(self)
                &&& (!old(self).transition_used() && t != old(self).mode()) ==> {
                    &&& final(self).mode() == t
                    &&& Self::transition_effect(*old(self), *final(self))
                }
            },
    {
        if clicked {
            match cursor {
                Some(p) => {
                    match button_target(p.0, p.1) {
                        Some(t) => {
                            let _ = self.request_mode(t);
                        },
                        None => {},
                    }
                },
                None => {},
            }
        }
    }

    /// The level-change auto-transition: while the LevelChange mode is
    /// active, advances its countdown; once the countdown has elapsed,
    /// requests the transition back into the conversation minigame.
    /// Outside the LevelChange mode it does nothing.
    pub fn level_change(&mut self, delta_ms: u64)
        requires
            old(self).wf(),
        ensures
            final(self).wf(),
            final(self).level() == old(self).level(),
            old(self).mode() != Mode::LevelChange ==> *final(self) == *old(self),
            old(self).mode() == Mode::LevelChange ==> {
                let after = capped_add(
                    old(self).countdown_elapsed(),
                    delta_ms as int,
                    LEVEL_CHANGE_MS as int,
                );
                let fires = after == LEVEL_CHANGE_MS;
                &&& final(self).countdown_elapsed() == after
                &&& (final(self).mode(), final(self).transition_used()) == (if fires {
                    req_step(Mode::LevelChange, old(self).transition_used(), Mode::Conversation)
                } else {
                    (old(self).mode(), old(self).transition_used())
                })
                &&& final(self).credits_clock() == old(self).credits_clock()
                &&& forall|i: int|
                    0 <= i < CREDITS_ITEMS ==> final(self).popup_visible(i) == old(
                        self,
                    ).popup_visible(i)
                &&& final(self).level_frame_ix() == old(self).level_frame_ix()
                &&& final(self).start_frame_ix() == old(self).start_frame_ix()
                &&& (fires && !old(self).transition_used()) ==> {
                    &&& final(self).mode() == Mode::Conversation
                    &&& final(self).entity_tags() =~= without_tag(
                        old(self).entity_tags(),
                        Mode::LevelChange,
                    )
                    &&& forall|i: int|
                        0 <= i < final(self).entity_tags().len() ==> final(self).entity_tags()[i]
                            != Mode::LevelChange
                }
                &&& !(fires && !old(self).transition_used()) ==> final(self).entity_tags() == old(
                    self,
                ).entity_tags()
            },
    {
        let cur = self.controller.current();
        if cur == Mode::LevelChange {
            let _ = self.level_countdown.tick(delta_ms);
            if self.level_countdown.is_finished() {
                let _ = self.request_mode(Mode::Conversation);
            }
        }
    }

    /// Advances the level-change sprite sheet while the LevelChange mode
    /// is active: each time a frame period elapses, the frame index moves
    /// on by one and wraps around the sheet. Outside that mode it does
    /// nothing.
    pub fn animate_level_change(&mut self, delta_ms: u64)
        requires
            old(self).wf(),
        ensures
            final(self).wf(),
            final(self).level() == old(self).level(),
            old(self).mode() != Mode::LevelChange ==> *final(self) == *old(self),
            old(self).mode() == Mode::LevelChange ==> {
                let fired = old(self).level_anim_elapsed() + delta_ms >= FRAME_MS;
                &&& final(self).level_anim_elapsed() == (old(self).level_anim_elapsed()
                    + delta_ms) % (FRAME_MS as int)
                &&& final(self).level_frame_ix() == (if fired {
                    (old(self).level_frame_ix() + 1) % (LEVEL_FRAMES as int)
                } else {
                    old(self).level_frame_ix()
                })
                &&& final(self).mode() == old(self).mode()
                &&& final(self).transition_used() == old(self).transition_used()
                &&& final(self).entity_tags() == old(self).entity_tags()
                &&& final(self).credits_clock() == old(self).credits_clock()
                &&& forall|i: int|
                    0 <= i < CREDITS_ITEMS ==> final(self).popup_visible(i) == old(
                        self,
                    ).popup_visible(i)
                &&& final(self).countdown_elapsed() == old(self).countdown_elapsed()
                &&& final(self).start_frame_ix() == old(self).start_frame_ix()
            },
    {
        let cur = self.controller.current();
        if cur == Mode::LevelChange {
            let fired = self.level_anim.tick(delta_ms);
            if fired {
                self.level_frame = (self.level_frame + 1) % LEVEL_FRAMES;
            }
        }
    }

    /// Advances the start-screen sprite sheet while the Start mode is
    /// active, wrapping around the sheet. Outside that mode it does
    /// nothing.
    pub fn animate_start(&mut self, delta_ms: u64)
        requires
            old(self).wf(),
        ensures
            final(self).wf(),
            final(self).level() == old(self).level(),
            old(self).mode() != Mode::Start ==> *final(self) == *old(self),
            old(self).mode() == Mode::Start ==> {
                let fired = old(self).start_anim_elapsed() + delta_ms >= FRAME_MS;
                &&& final(self).start_anim_elapsed() == (old(self).start_anim_elapsed()
                    + delta_ms) % (FRAME_MS as int)
                &&& final(self).start_frame_ix() == (if fired {
                    (old(self).start_frame_ix() + 1) % (START_FRAMES as int)
                } else {
                    old(self).start_frame_ix()
                })
                &&& final(self).mode() == old(self).mode()
                &&& final(self).transition_used() == old(self).transition_used()
                &&& final(self).entity_tags() == old(self).entity_tags()
                &&& final(self).credits_clock() == old(self).credits_clock()
                &&& forall|i: int|
                    0 <= i < CREDITS_ITEMS ==> final(self).popup_visible(i) == old(
                        self,
                    ).popup_visible(i)
                &&& final(self).countdown_elapsed() == old(self).countdown_elapsed()
                &&& final(self).level_frame_ix() == old(self).level_frame_ix()
            },
    {
        let cur = self.controller.current();
        if cur == Mode::Start {
            let fired = self.start_anim.tick(delta_ms);
            if fired {
                self.start_frame = (self.start_frame + 1) % START_FRAMES;
            }
        }
    }

    /// The credits sequencer: while the Credits mode is active, advances
    /// the roll's shared timeline and shows exactly the items whose reveal
    /// window contains the new time. The i-th item's window opens at
    /// i times the item length and closes one item length later. Outside
    /// the Credits mode it does nothing.
    pub fn credits_tick(&mut self, delta_ms: u64)
        requires
            old(self).wf(),
        ensures
            final(self).wf(),
            final(self).level() == old(self).level(),
            old(self).mode() != Mode::Credits ==> *final(self) == *old(self),
            old(self).mode() == Mode::Credits ==> {
                &&& final(self).credits_clock() == capped_add(
                    old(self).credits_clock(),
                    delta_ms as int,
                    CREDITS_ROLL_MS as int,
                )
                &&& forall|i: int|
                    0 <= i < CREDITS_ITEMS ==> final(self).popup_visible(i) == (
                    CREDITS_ITEM_MS * i <= final(self).credits_clock() < CREDITS_ITEM_MS * (i
                        + 1))
                &&& final(self).mode() == old(self).mode()
                &&& final(self).transition_used() == old(self).transition_used()
                &&& final(self).entity_tags() == old(self).entity_tags()
                &&& final(self).countdown_elapsed() == old(self).countdown_elapsed()
                &&& final(self).level_frame_ix() == old(self).level_frame_ix()
                &&& final(self).start_frame_ix() == old(self).start_frame_ix()
                &&& final(self).start_anim_elapsed() == old(self).start_anim_elapsed()
                &&& final(self).level_anim_elapsed() == old(self).level_anim_elapsed()
            },
    {
        let cur = self.controller.current();
        if cur == Mode::Credits {
            let room = CREDITS_ROLL_MS - self.credits_clock_ms;
            if delta_ms >= room {
                self.credits_clock_ms = CREDITS_ROLL_MS;
            } else {
                self.credits_clock_ms = self.credits_clock_ms + delta_ms;
            }
            let mut i: usize = 0;
            while i < CREDITS_ITEMS
                invariant
                    i <= CREDITS_ITEMS,
                    self.credits_visible@.len() == CREDITS_ITEMS,
                    forall|k: int|
                        0 <= k < i ==> self.credits_visible@[k] == (CREDITS_ITEM_MS * k
                            <= self.credits_clock_ms < CREDITS_ITEM_MS * (k + 1)),
                    self.controller == old(self).controller,
                    self.tracker == old(self).tracker,
                    self.tags == old(self).tags,
                    self.credits_clock_ms == capped_add(
                        old(self).credits_clock_ms as int,
                        delta_ms as int,
                        CREDITS_ROLL_MS as int,
                    ),
                    self.level_countdown == old(self).level_countdown,
                    self.level_anim == old(self).level_anim,
                    self.level_frame == old(self).level_frame,
                    self.start_anim == old(self).start_anim,
                    self.start_frame == old(self).start_frame,
                    self.transitioned == old(self).transitioned,
                decreases CREDITS_ITEMS - i,
            {
                let start = CREDITS_ITEM_MS * (i as u64);
                let stop = start + CREDITS_ITEM_MS;
                let vis = start <= self.credits_clock_ms && self.credits_clock_ms < stop;
                self.credits_visible.set(i, vis);
                i = i + 1;
            }
        }
    }

    /// Runs one tick of the frame loop: opens the tick's transition
    /// budget, runs the global restart override, the button dispatch and
    /// the two outcome routers in that order, then the timed systems with
    /// the tick's elapsed real time. At most one transition is applied;
    /// the first applicable request of the schedule wins, and the
    /// level-change countdown, once elapsed, sends the game back into the
    /// conversation minigame unless an earlier request of the same tick
    /// pre-empted it.
    pub fn tick(
        &mut self,
        delta_ms: u64,
        restart_pressed: bool,
        clicked: bool,
        cursor: Option<(i64, i64)>,
        conv_losses: &Vec<ConvLossEvent>,
        conv_wins: &Vec<ConvWinEvent>,
        fight_losses: &Vec<FightLossEvent>,
        fight_wins: &Vec<FightWinEvent>,
    )
        requires
            old(self).wf(),
        ensures
            final(self).wf(),
            final(self).level().ordinal() == capped_add(
                old(self).level().ordinal(),
                conv_wins@.len() + fight_wins@.len() as int,
                max_level_ordinal(),
            ),
            ({
                let p = req_fold(
                    old(self).mode(),
                    false,
                    tick_requests(
                        old(self).level().ordinal(),
                        restart_pressed,
                        clicked,
                        cursor,
                        conv_losses@.len(),
                        conv_wins@.len(),
                        fight_losses@.len(),
                        fight_wins@.len(),
                    ),
                );
                let entered = p.0 == Mode::LevelChange && p.0 != old(self).mode();
                let e1 = if entered {
                    0
                } else {
                    old(self).countdown_elapsed()
                };
                let fires = p.0 == Mode::LevelChange && capped_add(
                    e1,
                    delta_ms as int,
                    LEVEL_CHANGE_MS as int,
                ) == LEVEL_CHANGE_MS;
                &&& final(self).mode() == (if fires && !p.1 {
                    Mode::Conversation
                } else {
                    p.0
                })
                &&& final(self).transition_used() == (p.1 || fires)
            }),
    {
        let ghost m0: Mode = self.mode();
        let ghost k0: int = self.level().ordinal();
        let ghost rs: Seq<Mode> = if restart_pressed {
            seq![Mode::Start]
        } else {
            Seq::<Mode>::empty()
        };
        let ghost cs: Seq<Mode> = match click_request(clicked, cursor) {
            Some(t) => seq![t],
            None => Seq::<Mode>::empty(),
        };
        let ghost cts: Seq<Mode> = route_targets(
            Mode::Fight,
            k0,
            conv_losses@.len(),
            conv_wins@.len(),
        );
        let ghost fts: Seq<Mode> = route_targets(
            Mode::Credits,
            capped_add(k0, conv_wins@.len() as int, max_level_ordinal()),
            fight_losses@.len(),
            fight_wins@.len(),
        );
        self.begin_tick();
        self.change_gamestate(restart_pressed);
        proof {
            if restart_pressed {
                lemma_req_fold_one(m0, false, Mode::Start);
            }
            assert((self.mode(), self.transition_used()) == req_fold(m0, false, rs));
        }
        let ghost p1: (Mode, bool) = req_fold(m0, false, rs);
        let ghost s1: Game = *self;
        self.button_system(clicked, cursor);
        proof {
            match click_request(clicked, cursor) {
                Some(t) => lemma_req_fold_one(p1.0, p1.1, t),
                None => {},
            }
            lemma_req_fold_app(m0, false, rs, cs);
            assert((self.mode(), self.transition_used()) == req_fold(m0, false, rs + cs));
        }
        let ghost p2: (Mode, bool) = req_fold(m0, false, rs + cs);
        let ghost s2: Game = *self;
        self.conv_over(conv_losses, conv_wins);
        proof {
            lemma_req_fold_app(m0, false, rs + cs, cts);
            assert((self.mode(), self.transition_used()) == req_fold(m0, false, rs + cs + cts));
        }
        let ghost p3: (Mode, bool) = req_fold(m0, false, rs + cs + cts);
        let ghost s3: Game = *self;
        self.fight_over(fight_losses, fight_wins);
        proof {
            lemma_req_fold_app(m0, false, rs + cs + cts, fts);
            assert((self.mode(), self.transition_used()) == req_fold(
                m0,
                false,
                rs + cs + cts + fts,
            ));
        }
        let ghost p: (Mode, bool) = req_fold(m0, false, rs + cs + cts + fts);
        let ghost s4: Game = *self;
        proof {
            lemma_req_fold_same(m0, false, rs);
            lemma_req_fold_same(p1.0, p1.1, cs);
            lemma_req_fold_same(p2.0, p2.1, cts);
            lemma_req_fold_same(p3.0, p3.1, fts);
            if p1.1 {
                lemma_req_fold_used(p1.0, cs);
            }
            if p2.1 {
                lemma_req_fold_used(p2.0, cts);
            }
            if p3.1 {
                lemma_req_fold_used(p3.0, fts);
            }
            assert(p.0 == Mode::LevelChange ==> s4.countdown_elapsed() == (if p.0 != m0 {
                0
            } else {
                old(self).countdown_elapsed()
            }));
        }
        self.level_change(delta_ms);
        self.animate_start(delta_ms);
        self.animate_level_change(delta_ms);
        self.credits_tick(delta_ms);
    }

    /// Time accumulated inside the current level-change frame cycle.
    pub closed spec fn level_anim_elapsed(self) -> int {
        self.level_anim.elapsed()
    }

    /// Time accumulated inside the current start-screen frame cycle.
    pub closed spec fn start_anim_elapsed(self) -> int {
        self.start_anim.elapsed()
    }

    /// The mode currently active.
    pub fn current_mode(&self) -> (m: Mode)
        ensures
            m == self.mode(),
    {
        self.controller.current()
    }

    /// The current campaign level.
    pub fn current_level(&self) -> (l: Level)
        ensures
            l == self.level(),
    {
        self.tracker.current()
    }

    /// Whether a transition has already been applied this tick.
    pub fn transition_done(&self) -> (b: bool)
        ensures
            b == self.transition_used(),
    {
        self.transitioned
    }

    /// How many mode-local entities are alive.
    pub fn entity_count(&self) -> (n: usize)
        ensures
            n == self.entity_tags().len(),
    {
        self.tags.len()
    }

    /// The owning mode of the i-th live mode-local entity.
    pub fn entity_tag(&self, i: usize) -> (m: Mode)
        requires
            i < self.entity_tags().len(),
        ensures
            m == self.entity_tags()[i as int],
    {
        self.tags[i]
    }

    /// The current frame of the start-screen sprite sheet.
    pub fn start_frame_index(&self) -> (n: u64)
        ensures
            n == self.start_frame_ix(),
    {
        self.start_frame
    }

    /// The current frame of the level-change sprite sheet.
    pub fn level_frame_index(&self) -> (n: u64)
        ensures
            n == self.level_frame_ix(),
    {
        self.level_frame
    }

    /// Whether the i-th credits item is currently shown.
    pub fn popup_shown(&self, i: usize) -> (b: bool)
        requires
            self.wf(),
            i < CREDITS_ITEMS,
        ensures
            b == self.popup_visible(i as int),
    {
        self.credits_visible[i]
    }

    /// Force-hides every credits item.
    fn hide_all_popups(&mut self)
        requires
            old(self).credits_visible@.len() == CREDITS_ITEMS,
        ensures
            final(self).credits_visible@.len() == CREDITS_ITEMS,
            forall|i: int| 0 <= i < CREDITS_ITEMS ==> !final(self).credits_visible@[i],
            final(self).controller == old(self).controller,
            final(self).tracker == old(self).tracker,
            final(self).tags == old(self).tags,
            final(self).credits_clock_ms == old(self).credits_clock_ms,
            final(self).level_countdown == old(self).level_countdown,
            final(self).level_anim == old(self).level_anim,
            final(self).level_frame == old(self).level_frame,
            final(self).start_anim == old(self).start_anim,
            final(self).start_frame == old(self).start_frame,
            final(self).transitioned == old(self).transitioned,
    {
        self.credits_visible = hidden_flags();
    }
}

/// One hidden flag per credits item.
fn hidden_flags() -> (v: Vec<bool>)
    ensures
        v@.len() == CREDITS_ITEMS,
        forall|i: int| 0 <= i < CREDITS_ITEMS ==> !v@[i],
{
    let mut v: Vec<bool> = Vec::new();
    let mut i: usize = 0;
    while i < CREDITS_ITEMS
        invariant
            i <= CREDITS_ITEMS,
            v@.len() == i,
            forall|j: int| 0 <= j < i ==> !v@[j],
        decreases CREDITS_ITEMS - i,
    {
        v.push(false);
        i = i + 1;
    }
    v
}

} // verus!
