//! The animation state of one pet: which action it plays, which frame of
//! that action is on screen and which actions have frames loaded.

use vstd::prelude::*;
use vstd::string::*;
use crate::config::{Action, Manifest, PetConfig};
use crate::frames::{decode_frames_reporting, decoded_frames, failed_frames, file_bytes, images_view};
use crate::text::{
    same_text, keys_of, first_match, position_of, position_in, lemma_position_of_absent,
    lemma_position_of_none, lemma_position_of_push,
};

verus! {

/// The number of loaded frames that `table` records for `name` (0 when none).
pub open spec fn frame_count(table: Seq<(String, usize)>, name: Seq<char>) -> nat {
    match position_of(keys_of(table), name) {
        Some(i) => table[i].1 as nat,
        None => 0,
    }
}

/// The table of loaded frames built from a manifest's actions, given how many
/// frames of each action (in manifest order) were decoded: the actions with at
/// least one decoded frame, in manifest order, with their counts. A missing
/// count counts as none.
pub open spec fn loaded_table(actions: Seq<(String, Action)>, decoded: Seq<usize>, n: nat) -> Seq<
    (String, usize),
>
    decreases n,
{
    if n == 0 {
        Seq::empty()
    } else {
        let k = (n - 1) as nat;
        let prev = loaded_table(actions, decoded, k);
        let c: usize = if k < decoded.len() { decoded[k as int] } else { 0 };
        if c > 0 {
            prev.push((actions[k as int].0, c))
        } else {
            prev
        }
    }
}

/// The count that `loaded_table` takes for the action at position `i`.
pub open spec fn decoded_count(decoded: Seq<usize>, i: int) -> nat {
    if 0 <= i < decoded.len() {
        decoded[i] as nat
    } else {
        0
    }
}

/// Over the first `n` actions (names distinct): a name that none of them has is
/// absent from the table; the name of the action at position `i` is in the table,
/// with that action's count, exactly when the count is not zero.
proof fn lemma_loaded_table_prefix(actions: Seq<(String, Action)>, decoded: Seq<usize>, n: nat, name: Seq<char>)
    requires
        n <= actions.len(),
        forall|a: int, b: int|
            0 <= a < b < actions.len() ==> #[trigger] keys_of(actions)[a] != #[trigger] keys_of(actions)[b],
    ensures
        (forall|j: int| 0 <= j < n ==> keys_of(actions)[j] != name) ==> position_of(
            keys_of(loaded_table(actions, decoded, n)),
            name,
        ) is None,
        forall|i: int|
            0 <= i < n && #[trigger] keys_of(actions)[i] == name ==> match position_of(
                keys_of(loaded_table(actions, decoded, n)),
                name,
            ) {
                Some(p) => 0 <= p < loaded_table(actions, decoded, n).len() && loaded_table(
                    actions,
                    decoded,
                    n,
                )[p].1 == decoded_count(decoded, i) && decoded_count(decoded, i) > 0,
                None => decoded_count(decoded, i) == 0,
            },
    decreases n,
{
    let keys = keys_of(actions);
    let table = loaded_table(actions, decoded, n);
    if n == 0 {
        assert(keys_of(table) =~= Seq::<Seq<char>>::empty());
        lemma_position_of_absent(keys_of(table), name);
    } else {
        let k = (n - 1) as nat;
        let prev = loaded_table(actions, decoded, k);
        lemma_loaded_table_prefix(actions, decoded, k, name);
        let c: usize = if k < decoded.len() { decoded[k as int] } else { 0 };
        assert(c as nat == decoded_count(decoded, k as int));
        if keys[k as int] == name {
            assert forall|j: int| 0 <= j < k implies keys[j] != name by {
                assert(keys[j] != keys[k as int]);
            }
        }
        if c > 0 {
            let entry = (actions[k as int].0, c);
            assert(table == prev.push(entry));
            assert(keys_of(table) =~= keys_of(prev).push(entry.0@));
            lemma_position_of_push(keys_of(prev), entry.0@, name);
            assert(entry.0@ == keys[k as int]);
            assert forall|p: int| 0 <= p < prev.len() implies table[p] == prev[p] by {}
        } else {
            assert(table == prev);
        }
        assert forall|i: int| 0 <= i < n && #[trigger] keys[i] == name implies match position_of(
            keys_of(table),
            name,
        ) {
            Some(p) => 0 <= p < table.len() && table[p].1 == decoded_count(decoded, i)
                && decoded_count(decoded, i) > 0,
            None => decoded_count(decoded, i) == 0,
        } by {
            if i < k {
                assert(keys[i] != keys[k as int]);
            }
        }
    }
}

/// After loading, an action of the manifest has as many loaded frames as were
/// decoded for it (none when no count was given for it), and a name that the
/// manifest lacks has no loaded frames.
pub proof fn lemma_loaded_frame_count(manifest: Manifest, decoded: Seq<usize>, name: Seq<char>)
    requires
        manifest.wf(),
    ensures
        frame_count(loaded_table(manifest.actions@, decoded, manifest.actions@.len()), name)
            == match manifest.action_position(name) {
            Some(i) => decoded_count(decoded, i),
            None => 0,
        },
{
    let actions = manifest.actions@;
    let keys = keys_of(actions);
    let table = loaded_table(actions, decoded, actions.len());
    assert(keys == manifest.names());
    lemma_loaded_table_prefix(actions, decoded, actions.len(), name);
    match position_of(keys, name) {
        Some(i) => {
            assert(first_match(keys, name, i));
            assert(keys[i] == name);
        },
        None => {
            lemma_position_of_none(keys, name);
        },
    }
}

/// The number of decoded images of each action.
pub open spec fn frame_counts(frames: Seq<Vec<(u32, u32, Vec<u8>)>>) -> Seq<usize> {
    frames.map_values(|f: Vec<(u32, u32, Vec<u8>)>| f@.len() as usize)
}

/// Every entry of a loaded table has at least one frame.
pub open spec fn all_loaded(table: Seq<(String, usize)>) -> bool {
    forall|i: int| 0 <= i < table.len() ==> #[trigger] table[i].1 > 0
}

proof fn lemma_loaded_table_all_loaded(actions: Seq<(String, Action)>, decoded: Seq<usize>, n: nat)
    ensures
        all_loaded(loaded_table(actions, decoded, n)),
    decreases n,
{
    if n > 0 {
        lemma_loaded_table_all_loaded(actions, decoded, (n - 1) as nat);
    }
}

/// A name with an entry in an all-loaded table has frames.
proof fn lemma_frame_count_positive(table: Seq<(String, usize)>, name: Seq<char>)
    requires
        all_loaded(table),
        position_of(keys_of(table), name) is Some,
    ensures
        frame_count(table, name) > 0,
{
    let i = position_of(keys_of(table), name)->0;
    assert(0 <= i < table.len());
    assert(table[i].1 > 0);
}

/// What a pet shows: the plain values of its state.
pub struct PetView {
    pub config: PetConfig,
    pub current_action: Seq<char>,
    pub frame_index: nat,
    pub last_frame_time_ms: u64,
    pub textures: Seq<(String, usize)>,
    pub facing_right: bool,
}

impl PetView {
    /// The number of loaded frames of the current action.
    pub open spec fn current_frames(self) -> nat {
        frame_count(self.textures, self.current_action)
    }

    /// Whether frames are loaded for the action called `name`.
    pub open spec fn has_frames(self, name: Seq<char>) -> bool {
        frame_count(self.textures, name) > 0
    }

    /// The frame duration of the current action, if the manifest has the action.
    pub open spec fn current_duration(self) -> Option<u64> {
        match self.config.manifest.action_position(self.current_action) {
            Some(i) => Some(self.config.manifest.actions@[i].1.frame_duration_ms),
            None => None,
        }
    }

    /// The frame on screen is always one of the current action's loaded frames,
    /// or the first when the action has none.
    pub open spec fn frame_in_bounds(self) -> bool {
        if self.current_frames() > 0 {
            self.frame_index < self.current_frames()
        } else {
            self.frame_index == 0
        }
    }
}

/// A pet after it is asked to play `action`: unchanged when it already plays it;
/// otherwise playing `action` if that action has loaded frames, else `idle`,
/// from the first frame.
pub open spec fn after_set_action(v: PetView, action: Seq<char>) -> PetView {
    if v.current_action == action {
        v
    } else {
        PetView {
            current_action: if v.has_frames(action) {
                action
            } else {
                "idle"@
            },
            frame_index: 0,
            ..v
        }
    }
}

/// Whether the current action's next frame is due at time `now_ms`: the action
/// is in the manifest, has loaded frames, and more than its frame duration has
/// passed since the last frame change.
pub open spec fn frame_due(v: PetView, now_ms: u64) -> bool {
    &&& v.current_duration() is Some
    &&& v.current_frames() > 0
    &&& now_ms > v.last_frame_time_ms
    &&& now_ms - v.last_frame_time_ms > v.current_duration()->0
}

/// A pet after its animation is advanced at time `now_ms`.
pub open spec fn after_update_animation(v: PetView, now_ms: u64) -> PetView {
    if frame_due(v, now_ms) {
        PetView {
            frame_index: (v.frame_index + 1) % v.current_frames(),
            last_frame_time_ms: now_ms,
            ..v
        }
    } else {
        v
    }
}

/// Asking twice for the same action is the same as asking once.
pub proof fn lemma_set_action_idempotent(v: PetView, action: Seq<char>)
    ensures
        after_set_action(after_set_action(v, action), action) == after_set_action(v, action),
{
}

/// After a switch the pet plays the asked action only when it has frames for it,
/// played it already, or the action is `idle`; otherwise it idles.
pub proof fn lemma_set_action_plays_loaded_or_idle(v: PetView, action: Seq<char>)
    ensures
        after_set_action(v, action).current_action == action || after_set_action(
            v,
            action,
        ).current_action == "idle"@,
        after_set_action(v, action).current_action == action ==> (v.has_frames(action)
            || v.current_action == action || action == "idle"@),
{
}

/// Advancing the animation keeps the frame on screen among the current action's
/// frames, and changes nothing but the frame and the time of its change.
pub proof fn lemma_animation_keeps_frame_in_bounds(v: PetView, now_ms: u64)
    requires
        v.frame_in_bounds(),
    ensures
        after_update_animation(v, now_ms).frame_in_bounds(),
        after_update_animation(v, now_ms).current_action == v.current_action,
        after_update_animation(v, now_ms).textures == v.textures,
{
    if frame_due(v, now_ms) {
        vstd::arithmetic::div_mod::lemma_mod_bound((v.frame_index + 1) as int, v.current_frames() as int);
    }
}

/// A due frame change shows the next frame of the current action: the frame
/// after it, or the first again after the last, so that every loaded frame is
/// shown in turn. A change that is not due changes nothing.
pub proof fn lemma_animation_shows_the_next_frame(v: PetView, now_ms: u64)
    requires
        v.frame_in_bounds(),
    ensures
        frame_due(v, now_ms) ==> {
            ||| after_update_animation(v, now_ms).frame_index == v.frame_index + 1
            ||| (after_update_animation(v, now_ms).frame_index == 0 && v.frame_index + 1 == v.current_frames())
        },
        frame_due(v, now_ms) ==> after_update_animation(v, now_ms).frame_index < v.current_frames(),
        frame_due(v, now_ms) ==> after_update_animation(v, now_ms).last_frame_time_ms == now_ms,
        !frame_due(v, now_ms) ==> after_update_animation(v, now_ms) == v,
{
    if frame_due(v, now_ms) {
        let n = v.current_frames();
        if v.frame_index + 1 < n {
            vstd::arithmetic::div_mod::lemma_small_mod((v.frame_index + 1) as nat, n);
        } else {
            assert(v.frame_index + 1 == n);
            vstd::arithmetic::div_mod::lemma_mod_self_0(n as int);
        }
    }
}

/// The animation state of a pet.
///
/// `textures` records, for each action whose frame images were decoded, how
/// many frames were decoded; the images themselves are kept by the caller in
/// the same order.
pub struct PetState {
    config: PetConfig,
    current_action: String,
    frame_index: usize,
    last_frame_time_ms: u64,
    textures: Vec<(String, usize)>,
    facing_right: bool,
}

impl View for PetState {
    type V = PetView;

    closed spec fn view(&self) -> PetView {
        PetView {
            config: self.config,
            current_action: self.current_action@,
            frame_index: self.frame_index as nat,
            last_frame_time_ms: self.last_frame_time_ms,
            textures: self.textures@,
            facing_right: self.facing_right,
        }
    }
}

impl PetState {
    #[verifier::type_invariant]
    spec fn inv(self) -> bool {
        &&& all_loaded(self.textures@)
        &&& self@.frame_in_bounds()
        &&& self.config.manifest.wf()
    }

    /// Starts a pet from its configuration. `frames[i]` holds the decoded frame
    /// images of the `i`-th manifest action (a missing entry counts as none); an
    /// action has as many loaded frames as it has decoded images. The pet starts
    /// idle, on the first frame, facing right.
    pub fn new(config: PetConfig, frames: &Vec<Vec<(u32, u32, Vec<u8>)>>) -> (r: PetState)
        requires
            config.manifest.wf(),
        ensures
            r@.config == config,
            r@.current_action == "idle"@,
            r@.frame_index == 0,
            r@.last_frame_time_ms == 0,
            r@.facing_right,
            r@.textures == loaded_table(config.manifest.actions@, frame_counts(frames@), config.manifest.actions@.len()),
            forall|name: Seq<char>|
                #[trigger] frame_count(r@.textures, name) == match config.manifest.action_position(name) {
                    Some(i) => decoded_count(frame_counts(frames@), i),
                    None => 0,
                },
            r@.frame_in_bounds(),
    {
        let mut textures: Vec<(String, usize)> = Vec::new();
        let n = config.manifest.actions.len();
        let mut i: usize = 0;
        while i < n
            invariant
                i <= n,
                n == config.manifest.actions@.len(),
                textures@ == loaded_table(config.manifest.actions@, frame_counts(frames@), i as nat),
            decreases n - i,
        {
            let c: usize = if i < frames.len() { frames[i].len() } else { 0 };
            if c > 0 {
                textures.push((config.manifest.actions[i].0.clone(), c));
            }
            i = i + 1;
        }
        proof {
            lemma_loaded_table_all_loaded(config.manifest.actions@, frame_counts(frames@), n as nat);
        }
        let current_action = String::from_str("idle");
        let ghost idle = current_action@;
        proof {
            if position_of(keys_of(textures@), idle) is Some {
                lemma_frame_count_positive(textures@, idle);
            }
        }
        proof {
            assert forall|name: Seq<char>|
                #[trigger] frame_count(textures@, name) == match config.manifest.action_position(name) {
                    Some(i) => decoded_count(frame_counts(frames@), i),
                    None => 0,
                } by {
                lemma_loaded_frame_count(config.manifest, frame_counts(frames@), name);
            }
        }
        PetState { config, current_action, frame_index: 0, last_frame_time_ms: 0, textures, facing_right: true }
    }

    /// Starts a pet from its configuration and the bytes of its frame files:
    /// `files[i]` holds the files of the `i`-th manifest action that could be
    /// found. Each action's files are decoded (see `crate::frames::decode_frames_reporting`), the
    /// action has as many loaded frames as decoded images, the images come back in
    /// the same order for display, and for each action the positions of the files
    /// that failed to decode come back too.
    pub fn load(config: PetConfig, files: &Vec<Vec<Vec<u8>>>) -> (r: (
        PetState,
        Vec<Vec<(u32, u32, Vec<u8>)>>,
        Vec<Vec<usize>>,
    ))
        requires
            config.manifest.wf(),
        ensures
            r.1@.len() == files@.len(),
            r.2@.len() == files@.len(),
            forall|i: int|
                0 <= i < files@.len() ==> images_view(#[trigger] r.1@[i]@) == decoded_frames(
                    file_bytes(files@[i]@),
                ),
            forall|i: int|
                0 <= i < files@.len() ==> #[trigger] r.2@[i]@ == failed_frames(
                    file_bytes(files@[i]@),
                ),
            r.0@.config == config,
            r.0@.current_action == "idle"@,
            r.0@.frame_index == 0,
            r.0@.last_frame_time_ms == 0,
            r.0@.facing_right,
            r.0@.textures == loaded_table(config.manifest.actions@, frame_counts(r.1@), config.manifest.actions@.len()),
            forall|name: Seq<char>|
                #[trigger] frame_count(r.0@.textures, name) == match config.manifest.action_position(name) {
                    Some(i) => if i < files@.len() {
                        decoded_frames(file_bytes(files@[i]@)).len()
                    } else {
                        0
                    },
                    None => 0,
                },
    {
        let mut images: Vec<Vec<(u32, u32, Vec<u8>)>> = Vec::new();
        let mut failures: Vec<Vec<usize>> = Vec::new();
        let mut i: usize = 0;
        while i < files.len()
            invariant
                i <= files.len(),
                images@.len() == i,
                failures@.len() == i,
                forall|k: int|
                    0 <= k < i ==> images_view(#[trigger] images@[k]@) == decoded_frames(
                        file_bytes(files@[k]@),
                    ),
                forall|k: int|
                    0 <= k < i ==> #[trigger] failures@[k]@ == failed_frames(file_bytes(files@[k]@)),
            decreases files.len() - i,
        {
            let (decoded, failed) = decode_frames_reporting(&files[i]);
            images.push(decoded);
            failures.push(failed);
            i = i + 1;
        }
        let pet = PetState::new(config, &images);
        proof {
            assert forall|i: int| 0 <= i < files@.len() implies decoded_count(frame_counts(images@), i)
                == decoded_frames(file_bytes(files@[i]@)).len() by {
                assert(images@[i].len() == images@[i]@.len());
                assert(images_view(images@[i]@).len() == images@[i]@.len());
            }
        }
        (pet, images, failures)
    }

    /// The configuration the pet was started from.
    pub fn config(&self) -> (r: &PetConfig)
        ensures
            *r == self@.config,
    {
        &self.config
    }

    /// The action the pet currently plays.
    pub fn current_action(&self) -> (r: &str)
        ensures
            r@ == self@.current_action,
    {
        self.current_action.as_str()
    }

    /// The index of the frame on screen within the current action.
    pub fn frame_index(&self) -> (r: usize)
        ensures
            r == self@.frame_index,
    {
        self.frame_index
    }

    /// Whether the sprite faces right.
    pub fn facing_right(&self) -> (r: bool)
        ensures
            r == self@.facing_right,
    {
        self.facing_right
    }

    /// Turns the sprite; nothing else changes.
    pub fn set_facing_right(&mut self, facing_right: bool)
        ensures
            final(self)@ == (PetView { facing_right, ..old(self)@ }),
    {
        proof {
            use_type_invariant(&*self);
        }
        self.facing_right = facing_right;
    }

    /// Whether frames are loaded for the action called `name`.
    pub fn has_frames(&self, name: &str) -> (r: bool)
        ensures
            r == self@.has_frames(name@),
    {
        proof {
            use_type_invariant(self);
        }
        match position_in(&self.textures, name) {
            Some(i) => {
                assert(self.textures@[i as int].1 > 0);
                true
            },
            None => false,
        }
    }

    /// The number of frames loaded for the action called `name`.
    pub fn frame_count(&self, name: &str) -> (r: usize)
        ensures
            r == frame_count(self@.textures, name@),
    {
        match position_in(&self.textures, name) {
            Some(i) => self.textures[i].1,
            None => 0,
        }
    }

    /// Advances the animation at time `now_ms` (milliseconds). When the current
    /// action is in the manifest and has loaded frames, and more than its frame
    /// duration has passed since the last frame change, the next frame (cyclically)
    /// comes up and the time of the change is recorded. Nothing else changes.
    pub fn update_animation(&mut self, now_ms: u64)
        ensures
            final(self)@ == after_update_animation(old(self)@, now_ms),
            final(self)@.frame_in_bounds(),
            frame_due(old(self)@, now_ms) ==> {
                ||| final(self)@.frame_index == old(self)@.frame_index + 1
                ||| (final(self)@.frame_index == 0 && old(self)@.frame_index + 1 == old(self)@.current_frames())
            },
            frame_due(old(self)@, now_ms) ==> final(self)@.last_frame_time_ms == now_ms,
            !frame_due(old(self)@, now_ms) ==> final(self)@ == old(self)@,
    {
        proof {
            use_type_invariant(&*self);
        }
        let ghost o = self@;
        let duration = match self.config.manifest.get(self.current_action.as_str()) {
            Some(action) => action.frame_duration_ms,
            None => return,
        };
        let n = self.frame_count(self.current_action.as_str());
        if n > 0 {
            if now_ms > self.last_frame_time_ms && now_ms - self.last_frame_time_ms > duration {
                self.frame_index = (self.frame_index + 1) % n;
                self.last_frame_time_ms = now_ms;
            }
            if self.frame_index >= n {
                self.frame_index = 0;
            }
        }
        assert(self@.textures == o.textures);
        proof {
            lemma_animation_shows_the_next_frame(o, now_ms);
        }
    }

    /// The frame to draw: its index among the current action's loaded frames,
    /// or none when the current action has no loaded frames.
    pub fn current_texture(&self) -> (r: Option<usize>)
        ensures
            self@.current_frames() == 0 ==> r is None,
            self@.current_frames() > 0 ==> r == Some(self@.frame_index as usize),
            (r matches Some(i) ==> i as nat == self@.frame_index && i < self@.current_frames()),
            self@.frame_in_bounds(),
    {
        proof {
            use_type_invariant(self);
        }
        let n = self.frame_count(self.current_action.as_str());
        if n == 0 {
            return None;
        }
        let idx = self.frame_index % n;
        proof {
            vstd::arithmetic::div_mod::lemma_small_mod(self.frame_index as nat, n as nat);
        }
        Some(idx)
    }

    /// Switches the pet to the action called `action`. A pet already playing it
    /// is left alone; otherwise it plays `action` when that action has loaded
    /// frames and falls back to `idle` when not, starting on the first frame.
    pub fn set_action(&mut self, action: &str)
        ensures
            final(self)@ == after_set_action(old(self)@, action@),
            final(self)@.frame_in_bounds(),
    {
        proof {
            use_type_invariant(&*self);
        }
        if !same_text(self.current_action.as_str(), action) {
            let next = if self.has_frames(action) {
                String::from_str(action)
            } else {
                String::from_str("idle")
            };
            self.frame_index = 0;
            let ghost name = next@;
            proof {
                if position_of(keys_of(self.textures@), name) is Some {
                    lemma_frame_count_positive(self.textures@, name);
                }
            }
            self.current_action = next;
        }
    }
}

} // verus!
