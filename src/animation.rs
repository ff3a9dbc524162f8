use vstd::hash_map::HashMapWithView;
use vstd::prelude::*;

verus! {

broadcast use vstd::std_specs::hash::group_hash_axioms;

/// A request to play `clip` on the character `entity`, blended in over
/// `transition_ns`, optionally followed by `play_after` once it finishes.
#[derive(Clone, Copy, Debug, PartialEq, Eq)]
pub struct AnimationTransitionEvent<C> {
    pub entity: u64,
    pub clip: C,
    pub transition_ns: u64,
    pub play_after: Option<C>,
    pub looping: bool,
}

impl<C: Copy> AnimationTransitionEvent<C> {
    /// A looping clip with no follow-up.
    pub fn single(entity: u64, clip: C, transition_ns: u64) -> (e: AnimationTransitionEvent<C>)
        ensures
            e == (AnimationTransitionEvent { entity, clip, transition_ns, play_after: None, looping: true }),
    {
        AnimationTransitionEvent { entity, clip, transition_ns, play_after: None, looping: true }
    }

    /// A one-shot clip followed by `second_clip`.
    pub fn double(entity: u64, clip: C, transition_ns: u64, second_clip: C) -> (e: AnimationTransitionEvent<C>)
        ensures
            e == (AnimationTransitionEvent {
                entity,
                clip,
                transition_ns,
                play_after: Some(second_clip),
                looping: false,
            }),
    {
        AnimationTransitionEvent { entity, clip, transition_ns, play_after: Some(second_clip), looping: false }
    }
}

/// Binding from a character entity to the entity of its animation player.
pub struct AnimationMap {
    map: HashMapWithView<u64, u64>,
}

impl View for AnimationMap {
    type V = Map<u64, u64>;

    closed spec fn view(&self) -> Map<u64, u64> {
        self.map@
    }
}

/// A root tagged for animation binding, with its direct children.
#[derive(Clone, Debug)]
pub struct AnimatedRoot {
    pub entity: u64,
    pub children: Vec<u64>,
}

/// A newly discovered animation player and the entity it hangs under.
#[derive(Clone, Copy, Debug, PartialEq, Eq)]
pub struct NewAnimationPlayer {
    pub entity: u64,
    pub parent: u64,
}

/// `player` sits directly under one of `root`'s children.
pub open spec fn binds(root: AnimatedRoot, player: NewAnimationPlayer) -> bool {
    root.children@.contains(player.parent)
}

impl AnimationMap {
    pub fn new() -> (m: AnimationMap)
        ensures
            m@ == Map::<u64, u64>::empty(),
    {
        AnimationMap { map: HashMapWithView::new() }
    }

    pub fn get(&self, key_entity: u64) -> (r: Option<u64>)
        ensures
            r == (if self@.contains_key(key_entity) { Some(self@[key_entity]) } else { None }),
    {
        match self.map.get(&key_entity) {
            Some(v) => Some(*v),
            None => None,
        }
    }

    pub fn insert(&mut self, key_entity: u64, value_entity: u64)
        ensures
            final(self)@ == old(self)@.insert(key_entity, value_entity),
    {
        self.map.insert(key_entity, value_entity);
    }
}

fn contains_entity(v: &Vec<u64>, e: u64) -> (r: bool)
    ensures
        r == v@.contains(e),
{
    let mut i: usize = 0;
    while i < v.len()
        invariant
            i <= v.len(),
            forall|j: int| 0 <= j < i ==> v@[j] != e,
        decreases v.len() - i,
    {
        if v[i] == e {
            return true;
        }
        i = i + 1;
    }
    false
}

/// Player `p` binds to root `r`, whose entity is `k`.
pub open spec fn matched(players: Seq<NewAnimationPlayer>, roots: Seq<AnimatedRoot>, p: int, r: int, k: u64) -> bool {
    &&& 0 <= p < players.len()
    &&& 0 <= r < roots.len()
    &&& roots[r].entity == k
    &&& binds(roots[r], players[p])
}

spec fn visited(p: int, r: int, i: int, j: int) -> bool {
    p < i || (p == i && r < j)
}

proof fn lemma_push_contains(s: Seq<u64>, x: u64)
    ensures
        forall|k: u64| #[trigger] s.push(x).contains(k) <==> s.contains(k) || k == x,
{
    assert forall|k: u64| #[trigger] s.push(x).contains(k) <==> s.contains(k) || k == x by {
        if s.contains(k) {
            let n = choose|n: int| 0 <= n < s.len() && s[n] == k;
            assert(s.push(x)[n] == k);
        }
        if k == x {
            assert(s.push(x)[s.len() as int] == k);
        }
        if s.push(x).contains(k) {
            let n = choose|n: int| 0 <= n < s.len() + 1 && s.push(x)[n] == k;
            if n < s.len() {
                assert(s[n] == k);
            }
        }
    }
}

/// Binds each newly discovered animation player to every tagged root whose
/// children include the player's parent. Returns the roots that were bound,
/// whose tag is then to be cleared; every other binding is left as it was.
pub fn store_animation_relationships(
    map: &mut AnimationMap,
    players: &Vec<NewAnimationPlayer>,
    roots: &Vec<AnimatedRoot>,
) -> (bound: Vec<u64>)
    ensures
        forall|k: u64| #[trigger] bound@.contains(k) <==> exists|p: int, r: int|
            #[trigger] matched(players@, roots@, p, r, k),
        forall|k: u64| !bound@.contains(k) ==> (
            #[trigger] final(map)@.contains_key(k) == old(map)@.contains_key(k)
                && (old(map)@.contains_key(k) ==> final(map)@[k] == old(map)@[k])),
        forall|k: u64| #[trigger] bound@.contains(k) ==> final(map)@.contains_key(k) && exists|p: int, r: int|
            #[trigger] matched(players@, roots@, p, r, k) && final(map)@[k] == players@[p].entity,
{
    let mut bound: Vec<u64> = Vec::new();
    let mut i: usize = 0;
    while i < players.len()
        invariant
            i <= players.len(),
            forall|k: u64| #[trigger] bound@.contains(k) <==> exists|p: int, r: int|
                #[trigger] matched(players@, roots@, p, r, k) && visited(p, r, i as int, 0),
            forall|k: u64| !bound@.contains(k) ==> (
                #[trigger] map@.contains_key(k) == old(map)@.contains_key(k)
                    && (old(map)@.contains_key(k) ==> map@[k] == old(map)@[k])),
            forall|k: u64| #[trigger] bound@.contains(k) ==> map@.contains_key(k) && exists|p: int, r: int|
                #[trigger] matched(players@, roots@, p, r, k) && visited(p, r, i as int, 0)
                    && map@[k] == players@[p].entity,
        decreases players.len() - i,
    {
        let player = players[i];
        let mut j: usize = 0;
        while j < roots.len()
            invariant
                i < players.len(),
                player == players@[i as int],
                j <= roots.len(),
                forall|k: u64| #[trigger] bound@.contains(k) <==> exists|p: int, r: int|
                    #[trigger] matched(players@, roots@, p, r, k) && visited(p, r, i as int, j as int),
                forall|k: u64| !bound@.contains(k) ==> (
                    #[trigger] map@.contains_key(k) == old(map)@.contains_key(k)
                        && (old(map)@.contains_key(k) ==> map@[k] == old(map)@[k])),
                forall|k: u64| #[trigger] bound@.contains(k) ==> map@.contains_key(k) && exists|p: int, r: int|
                    #[trigger] matched(players@, roots@, p, r, k) && visited(p, r, i as int, j as int)
                        && map@[k] == players@[p].entity,
            decreases roots.len() - j,
        {
            let root = &roots[j];
            let ghost old_bound = bound@;
            let ghost old_map = map@;
            if contains_entity(&root.children, player.parent) {
                let k0 = root.entity;
                map.insert(k0, player.entity);
                bound.push(k0);
                proof {
                    lemma_push_contains(old_bound, k0);
                    assert(matched(players@, roots@, i as int, j as int, k0));
                    assert forall|k: u64| #[trigger] bound@.contains(k) <==> exists|p: int, r: int|
                        #[trigger] matched(players@, roots@, p, r, k) && visited(p, r, i as int, j + 1) by {
                        if bound@.contains(k) && k != k0 {
                            let (p, r) = choose|p: int, r: int|
                                #[trigger] matched(players@, roots@, p, r, k) && visited(p, r, i as int, j as int);
                            assert(visited(p, r, i as int, j + 1));
                        }
                        if k == k0 {
                            assert(visited(i as int, j as int, i as int, j + 1));
                        }
                        if exists|p: int, r: int|
                            #[trigger] matched(players@, roots@, p, r, k) && visited(p, r, i as int, j + 1) {
                            let (p, r) = choose|p: int, r: int|
                                #[trigger] matched(players@, roots@, p, r, k) && visited(p, r, i as int, j + 1);
                            if !(p == i && r == j) {
                                assert(visited(p, r, i as int, j as int));
                            }
                        }
                    }
                    assert forall|k: u64| #[trigger] bound@.contains(k) implies map@.contains_key(k) && exists|p: int, r: int|
                        #[trigger] matched(players@, roots@, p, r, k) && visited(p, r, i as int, j + 1)
                            && map@[k] == players@[p].entity by {
                        if k == k0 {
                            assert(visited(i as int, j as int, i as int, j + 1));
                        } else {
                            assert(old_bound.contains(k));
                            let (p, r) = choose|p: int, r: int|
                                #[trigger] matched(players@, roots@, p, r, k) && visited(p, r, i as int, j as int)
                                    && old_map[k] == players@[p].entity;
                            assert(visited(p, r, i as int, j + 1));
                        }
                    }
                }
            } else {
                proof {
                    assert(!binds(roots@[j as int], players@[i as int]));
                    assert forall|k: u64| #[trigger] bound@.contains(k) <==> exists|p: int, r: int|
                        #[trigger] matched(players@, roots@, p, r, k) && visited(p, r, i as int, j + 1) by {
                        if bound@.contains(k) {
                            let (p, r) = choose|p: int, r: int|
                                #[trigger] matched(players@, roots@, p, r, k) && visited(p, r, i as int, j as int);
                            assert(visited(p, r, i as int, j + 1));
                        }
                        if exists|p: int, r: int|
                            #[trigger] matched(players@, roots@, p, r, k) && visited(p, r, i as int, j + 1) {
                            let (p, r) = choose|p: int, r: int|
                                #[trigger] matched(players@, roots@, p, r, k) && visited(p, r, i as int, j + 1);
                            assert(visited(p, r, i as int, j as int));
                        }
                    }
                    assert forall|k: u64| #[trigger] bound@.contains(k) implies map@.contains_key(k) && exists|p: int, r: int|
                        #[trigger] matched(players@, roots@, p, r, k) && visited(p, r, i as int, j + 1)
                            && map@[k] == players@[p].entity by {
                        let (p, r) = choose|p: int, r: int|
                            #[trigger] matched(players@, roots@, p, r, k) && visited(p, r, i as int, j as int)
                                && map@[k] == players@[p].entity;
                        assert(visited(p, r, i as int, j + 1));
                    }
                }
            }
            j = j + 1;
        }
        i = i + 1;
    }
    bound
}

/// Whether a clip repeats.
#[derive(Clone, Copy, Debug, PartialEq, Eq, Structural)]
pub enum RepeatMode {
    Never,
    Forever,
}

/// What the animation player of a character is asked to do.
#[derive(Clone, Copy, Debug, PartialEq, Eq)]
pub struct PlaybackRequest<C> {
    pub player: u64,
    pub clip: C,
    pub transition_ns: u64,
    pub repeat: RepeatMode,
    pub play_after: Option<C>,
}

/// Resolves a transition request against the bindings: dropped when the
/// character has no animation player bound yet.
pub fn handle_animation_transition_event<C: Copy>(
    map: &AnimationMap,
    event: &AnimationTransitionEvent<C>,
) -> (r: Option<PlaybackRequest<C>>)
    ensures
        r is None <==> !map@.contains_key(event.entity),
        r matches Some(req) ==> req == (PlaybackRequest {
            player: map@[event.entity],
            clip: event.clip,
            transition_ns: event.transition_ns,
            repeat: if event.looping { RepeatMode::Forever } else { RepeatMode::Never },
            play_after: event.play_after,
        }),
{
    match map.get(event.entity) {
        Some(player) => Some(PlaybackRequest {
            player,
            clip: event.clip,
            transition_ns: event.transition_ns,
            repeat: if event.looping { RepeatMode::Forever } else { RepeatMode::Never },
            play_after: event.play_after,
        }),
        None => None,
    }
}

/// What one animation player is doing: nothing yet, playing a clip, or
/// playing a clip with another queued to start when it finishes.
#[derive(Clone, Copy, Debug, PartialEq, Eq)]
pub enum PlaybackSlot<C> {
    Empty,
    Playing { clip: C, repeat: RepeatMode },
    PendingFollowUp { clip: C, repeat: RepeatMode, next: C },
}

impl<C: Copy> PlaybackSlot<C> {
    /// A request replaces whatever was playing or queued.
    pub fn apply(&mut self, req: &PlaybackRequest<C>)
        ensures
            *final(self) == (match req.play_after {
                Some(next) => PlaybackSlot::PendingFollowUp { clip: req.clip, repeat: req.repeat, next },
                None => PlaybackSlot::Playing { clip: req.clip, repeat: req.repeat },
            }),
    {
        *self = match req.play_after {
            Some(next) => PlaybackSlot::PendingFollowUp { clip: req.clip, repeat: req.repeat, next },
            None => PlaybackSlot::Playing { clip: req.clip, repeat: req.repeat },
        };
    }

    /// Once the current clip has finished, the queued clip starts, looping.
    /// Returns the clip to start, if any.
    pub fn play_queued(&mut self, current_finished: bool) -> (r: Option<C>)
        ensures
            (match *old(self) {
                PlaybackSlot::PendingFollowUp { next, .. } => current_finished,
                _ => false,
            }) ==> r == Some(old(self)->next) && *final(self) == (PlaybackSlot::Playing {
                clip: old(self)->next,
                repeat: RepeatMode::Forever,
            }),
            !(match *old(self) {
                PlaybackSlot::PendingFollowUp { next, .. } => current_finished,
                _ => false,
            }) ==> r is None && *final(self) == *old(self),
    {
        match *self {
            PlaybackSlot::PendingFollowUp { next, .. } => {
                if current_finished {
                    *self = PlaybackSlot::Playing { clip: next, repeat: RepeatMode::Forever };
                    Some(next)
                } else {
                    None
                }
            },
            _ => None,
        }
    }
}

} // verus!
