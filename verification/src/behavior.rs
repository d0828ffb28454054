//! The decisions that drive the pet from frame to frame: what it plays, what it
//! says, when it follows the mouse or patrols, and how the chat with the model
//! goes. The caller runs the frame loop, measures the screen and the pointer,
//! and performs what these decisions ask for; all times are in milliseconds.

use vstd::prelude::*;
use vstd::string::*;
use crate::labels::{action_labels_spec, resource_labels_spec, get_action_label, get_resource_label};
use crate::choice::{eligible_choices, total_weight, picked, choices_view};
use crate::llm::{ChatMessage, LlmConfig, LlmConfigView, messages_view};
use crate::pet::{PetState, PetView, after_set_action, after_update_animation};
use crate::text::{same_text, texts};

verus! {

/// `now_ms` plus `ms`, or the largest time when that does not fit.
pub open spec fn later(now_ms: u64, ms: u64) -> u64 {
    if now_ms + ms > u64::MAX {
        u64::MAX
    } else {
        (now_ms + ms) as u64
    }
}

/// More than `ms` milliseconds have passed from `since_ms` to `now_ms`.
pub open spec fn elapsed_more_than(now_ms: u64, since_ms: u64, ms: u64) -> bool {
    now_ms > since_ms && now_ms - since_ms > ms
}

/// `label` is what the pet says for `action`: one of the action's labels, or the
/// action's own name when it has none.
pub open spec fn said(label: Seq<char>, action: Seq<char>, is_gemmi: bool) -> bool {
    if action_labels_spec(action, is_gemmi).len() == 0 {
        label == action
    } else {
        action_labels_spec(action, is_gemmi).contains(label)
    }
}

/// The pet, if any, after it is asked to play `action`.
pub open spec fn pet_after_action(pet: Option<PetView>, action: Seq<char>) -> Option<PetView> {
    match pet {
        Some(p) => Some(after_set_action(p, action)),
        None => None,
    }
}

/// The pet plays `action`.
pub open spec fn plays(pet: Option<PetView>, action: Seq<char>) -> bool {
    pet matches Some(p) && p.current_action == action
}

/// The plain values of the application state.
pub struct AppView {
    pub pet: Option<PetView>,
    pub available_pets: Seq<Seq<char>>,
    pub current_pet_name: Seq<char>,
    pub last_update_ms: u64,
    pub pending_pet_switch: Option<Seq<char>>,
    pub status_text: Seq<char>,
    pub status_timeout_ms: u64,
    pub mouse_follow: bool,
    pub show_stats: bool,
    pub pending_action: Option<Seq<char>>,
    pub action_timeout_ms: u64,
    pub typing_gauge: u32,
    pub wandering: bool,
    pub was_hovering: bool,
    pub last_auto_behavior_ms: u64,
    pub llm_config: LlmConfigView,
    pub google_api_key: Seq<char>,
    pub show_llm_settings: bool,
    pub available_lm_studio_models: Seq<Seq<char>>,
    pub fetching_models: bool,
    pub last_lm_studio_fetch_ms: u64,
    pub llm_chat_input: Seq<char>,
    pub show_llm_chat: bool,
    pub is_llm_thinking: bool,
    pub llm_response_text: Seq<char>,
    pub llm_response_timeout_ms: u64,
    pub llm_chat_history: Seq<(Seq<char>, Seq<char>)>,
    pub last_llm_chat_history_ms: u64,
    pub last_chat_input_activity_ms: u64,
}

impl AppView {
    /// The current pet is GEMMI-Chan.
    pub open spec fn is_gemmi(self) -> bool {
        self.current_pet_name == "GEMMI-Chan"@
    }
}

/// The state of the application: the pet, what it says and until when, the
/// pending requests from the menus, the typing gauge, and the LLM chat.
///
/// `wandering` records whether a patrol target is set (the target itself is a
/// screen position kept by the caller); `fetching_models` records whether a
/// request for the LM Studio model list is under way.
pub struct PetApp {
    pub pet: Option<PetState>,
    pub available_pets: Vec<String>,
    pub current_pet_name: String,
    pub last_update_ms: u64,
    pub pending_pet_switch: Option<String>,
    pub status_text: String,
    pub status_timeout_ms: u64,
    pub mouse_follow: bool,
    pub show_stats: bool,
    pub pending_action: Option<String>,
    pub action_timeout_ms: u64,
    pub typing_gauge: u32,
    pub wandering: bool,
    pub was_hovering: bool,
    pub last_auto_behavior_ms: u64,
    pub llm_config: LlmConfig,
    pub google_api_key: String,
    pub show_llm_settings: bool,
    pub available_lm_studio_models: Vec<String>,
    pub fetching_models: bool,
    pub last_lm_studio_fetch_ms: u64,
    pub llm_chat_input: String,
    pub show_llm_chat: bool,
    pub is_llm_thinking: bool,
    pub llm_response_text: String,
    pub llm_response_timeout_ms: u64,
    pub llm_chat_history: Vec<ChatMessage>,
    pub last_llm_chat_history_ms: u64,
    pub last_chat_input_activity_ms: u64,
}

/// The view of an optional pet.
pub open spec fn pet_view(pet: Option<PetState>) -> Option<PetView> {
    match pet {
        Some(p) => Some(p@),
        None => None,
    }
}

/// The view of an optional text.
pub open spec fn opt_text(t: Option<String>) -> Option<Seq<char>> {
    match t {
        Some(s) => Some(s@),
        None => None,
    }
}

impl View for PetApp {
    type V = AppView;

    open spec fn view(&self) -> AppView {
        AppView {
            pet: pet_view(self.pet),
            available_pets: texts(self.available_pets@),
            current_pet_name: self.current_pet_name@,
            last_update_ms: self.last_update_ms,
            pending_pet_switch: opt_text(self.pending_pet_switch),
            status_text: self.status_text@,
            status_timeout_ms: self.status_timeout_ms,
            mouse_follow: self.mouse_follow,
            show_stats: self.show_stats,
            pending_action: opt_text(self.pending_action),
            action_timeout_ms: self.action_timeout_ms,
            typing_gauge: self.typing_gauge,
            wandering: self.wandering,
            was_hovering: self.was_hovering,
            last_auto_behavior_ms: self.last_auto_behavior_ms,
            llm_config: self.llm_config@,
            google_api_key: self.google_api_key@,
            show_llm_settings: self.show_llm_settings,
            available_lm_studio_models: texts(self.available_lm_studio_models@),
            fetching_models: self.fetching_models,
            last_lm_studio_fetch_ms: self.last_lm_studio_fetch_ms,
            llm_chat_input: self.llm_chat_input@,
            show_llm_chat: self.show_llm_chat,
            is_llm_thinking: self.is_llm_thinking,
            llm_response_text: self.llm_response_text@,
            llm_response_timeout_ms: self.llm_response_timeout_ms,
            llm_chat_history: messages_view(self.llm_chat_history@),
            last_llm_chat_history_ms: self.last_llm_chat_history_ms,
            last_chat_input_activity_ms: self.last_chat_input_activity_ms,
        }
    }
}


/// What the caller measured for the mouse-following check of a frame.
#[derive(Debug, Clone, Copy)]
pub struct FollowInput {
    /// The window's position on the screen is known.
    pub has_window: bool,
    /// A context menu is open.
    pub menu_open: bool,
    /// `Some(false)` when the pointer is more than 30 px left of the pet's
    /// centre, `Some(true)` when more than 30 px right, else `None`.
    pub turn: Option<bool>,
    /// The pointer is inside the pet's area of the window.
    pub in_window: bool,
    /// The pointer is more than 15 px from the pet's centre.
    pub away: bool,
    /// The pointer is more than 800 px from the pet's centre.
    pub lost: bool,
}

/// What the caller measured for the patrol check of a frame.
#[derive(Debug, Clone, Copy)]
pub struct WanderInput {
    /// The window's position on the screen is known.
    pub has_window: bool,
    /// A context menu is open.
    pub menu_open: bool,
    /// The window is within 5 px of the patrol target.
    pub arrived: bool,
    /// The next step towards the target goes right (or straight up or down).
    pub heading_right: bool,
    /// The next step would leave the visible screen.
    pub hits_edge: bool,
    /// The step reflected off the screen edge goes right (or straight up or down).
    pub bounce_heading_right: bool,
}

/// What the patrol check asks the caller to do with the window.
#[derive(Debug, Clone, Copy, PartialEq, Eq, Structural)]
pub enum WanderMove {
    /// Nothing: no patrol, or it waits.
    Hold,
    /// The patrol ended: forget the target.
    Stop,
    /// Take the next step towards the target.
    Step,
    /// Bounce off the screen edge and pick a new target beyond the bounce.
    Bounce,
}


/// What happened to the pet's sprite under the pointer in a frame.
#[derive(Debug, Clone, Copy)]
pub struct PointerEvents {
    pub dragged: bool,
    pub drag_stopped: bool,
    pub double_clicked: bool,
    pub clicked: bool,
}

/// What pressing "send" in the chat asks of the caller.
#[derive(Debug, Clone, Copy, PartialEq, Eq, Structural)]
pub enum ChatSend {
    /// Nothing to send: the input is empty.
    Nothing,
    /// The chat goes on: send with no system prompt.
    Ready,
    /// A new chat starts: read the pet's system prompt and send with it.
    NeedsPrompt,
}

/// A request to the model: the settings, the Google API key when Google answers,
/// and the whole chat so far.
pub struct ChatRequest {
    pub config: LlmConfig,
    pub api_key: Option<String>,
    pub messages: Vec<ChatMessage>,
}

/// The file holding the system prompt of the pet called `name`, if it has one.
pub open spec fn system_prompt_file_spec(name: Seq<char>) -> Option<Seq<char>> {
    if name == "GEMMI-Chan"@ {
        Some("gemmi.txt"@)
    } else if name == "GP-Chan"@ {
        Some("GPchan.txt"@)
    } else {
        None
    }
}

/// The chat after a send: the system prompt first when the chat is empty and a
/// prompt is given, then the user's input.
pub open spec fn chat_after_send(
    history: Seq<(Seq<char>, Seq<char>)>,
    prompt: Seq<char>,
    input: Seq<char>,
) -> Seq<(Seq<char>, Seq<char>)> {
    let with_prompt = if history.len() == 0 && prompt.len() > 0 {
        history.push(("system"@, prompt))
    } else {
        history
    };
    with_prompt.push(("user"@, input))
}


/// Which system resources are under heavy load (above 90 %).
#[derive(Debug, Clone, Copy)]
pub struct ResourceLoad {
    pub cpu_high: bool,
    pub ram_high: bool,
    pub gpu_high: bool,
    pub vram_high: bool,
}

/// What the pet's own initiative asks of the caller.
#[derive(Debug, Clone, Copy, PartialEq, Eq, Structural)]
pub enum Initiative {
    /// Nothing more to do.
    Nothing,
    /// Start a patrol: pick a target near the window.
    Patrol,
    /// The pet has no choice it could play: the rest of this frame is skipped.
    EndFrame,
}

/// The state after the pet takes up `action` by its own initiative: it plays it
/// and, unless it played it already, says one of its labels for ten seconds.
pub open spec fn took_up(o: AppView, f: AppView, action: Seq<char>, now_ms: u64) -> bool {
    if plays(o.pet, action) {
        f == o
    } else {
        &&& f == (AppView {
            pet: pet_after_action(o.pet, action),
            status_text: f.status_text,
            status_timeout_ms: later(now_ms, 10000),
            ..o
        })
        &&& said(f.status_text, action, o.is_gemmi())
    }
}


/// One outcome of the pet's initiative, for a weighted pick `pick` and a hold
/// time `hold`: the picked action is taken up; a walk starts a patrol when the
/// window's position is known, any other action is held for `hold` milliseconds.
pub open spec fn initiative_outcome(
    o: AppView,
    f: AppView,
    r: Initiative,
    now_ms: u64,
    has_window: bool,
    pick: int,
    hold: u64,
) -> bool {
    let cs = eligible_choices(o.pet->0);
    let timed = AppView { last_auto_behavior_ms: now_ms, ..o };
    let a = cs[picked(cs, pick)].0;
    &&& 0 <= pick < total_weight(cs)
    &&& 3000 <= hold < 7000
    &&& if a == "walk"@ {
        &&& r == (if has_window {
            Initiative::Patrol
        } else {
            Initiative::Nothing
        })
        &&& took_up(AppView { wandering: o.wandering || has_window, ..timed }, f, a, now_ms)
    } else {
        &&& r == Initiative::Nothing
        &&& took_up(AppView { action_timeout_ms: later(now_ms, hold), ..timed }, f, a, now_ms)
    }
}

/// The state `f` after the action requested from the menu (or by a double click)
/// is played at `now_ms` from `o`: the pet plays it, says one of its labels for ten
/// seconds and holds it for five; the request is consumed even without a pet.
pub open spec fn pending_action_applied(o: AppView, f: AppView, now_ms: u64) -> bool {
    match o.pending_action {
        Some(a) => if o.pet is Some {
            &&& f == (AppView {
                pending_action: None,
                pet: pet_after_action(o.pet, a),
                status_text: f.status_text,
                status_timeout_ms: later(now_ms, 10000),
                action_timeout_ms: later(now_ms, 5000),
                ..o
            })
            &&& said(f.status_text, a, o.is_gemmi())
        } else {
            f == (AppView { pending_action: None, ..o })
        },
        None => f == o,
    }
}

/// The state after the held action's time is checked at `now_ms`: once it is
/// over, a pet that neither idles, walks nor types goes idle, and nothing is held.
pub open spec fn after_action_timeout(o: AppView, now_ms: u64) -> AppView {
    if o.action_timeout_ms > 0 && now_ms > o.action_timeout_ms {
        AppView {
            action_timeout_ms: 0,
            pet: if o.pet is Some && !plays(o.pet, "idle"@) && !plays(o.pet, "walk"@) && !plays(
                o.pet,
                "typing"@,
            ) {
                pet_after_action(o.pet, "idle"@)
            } else {
                o.pet
            },
            ..o
        }
    } else {
        o
    }
}

/// The state `f` and the answer `r` after the pet's own initiative at `now_ms`
/// from `o` (see `PetApp::initiative_step`).
pub open spec fn initiative_result(o: AppView, f: AppView, r: Initiative, now_ms: u64, has_window: bool) -> bool {
    let timed = AppView { last_auto_behavior_ms: now_ms, ..o };
    if !PetApp::initiative_due(o, now_ms) {
        r == Initiative::Nothing && f == o
    } else if !plays(o.pet, "idle"@) {
        r == Initiative::Nothing && f == timed
    } else if total_weight(eligible_choices(o.pet->0)) == 0 {
        r == Initiative::EndFrame && f == timed
    } else {
        exists|pick: int, hold: u64| #[trigger] initiative_outcome(o, f, r, now_ms, has_window, pick, hold)
    }
}

/// The state `f` after what the pointer did to the sprite in a frame at `now_ms`
/// from `o` (see `PetApp::pointer_step`).
pub open spec fn pointer_outcome(o: AppView, f: AppView, now_ms: u64, ev: PointerEvents) -> bool {
    let g = o.is_gemmi();
    let dangles = ev.dragged && o.pet is Some && !plays(o.pet, "drag_dangle"@);
    let relieved = !ev.dragged && ev.drag_stopped && plays(o.pet, "drag_dangle"@);
    let s1 = if relieved {
        AppView {
            pet: pet_after_action(o.pet, "idle"@),
            status_text: "살았다!"@,
            status_timeout_ms: later(now_ms, 10000),
            ..o
        }
    } else {
        o
    };
    let chat = !ev.double_clicked && ev.clicked && !ev.dragged;
    let s2 = if ev.double_clicked {
        AppView { pending_action: Some("bonk"@), ..s1 }
    } else if chat && !o.show_llm_chat {
        AppView {
            show_llm_chat: true,
            status_text: "말해봐!"@,
            status_timeout_ms: later(now_ms, 10000),
            last_chat_input_activity_ms: now_ms,
            ..s1
        }
    } else if chat {
        AppView { show_llm_chat: false, ..s1 }
    } else {
        s1
    };
    if o.pet is None {
        f == o
    } else if dangles {
        &&& said(f.status_text, "drag_dangle"@, g)
        &&& if chat && !o.show_llm_chat {
            f == s2
        } else {
            f == (AppView {
                pet: pet_after_action(o.pet, "drag_dangle"@),
                status_text: f.status_text,
                status_timeout_ms: later(now_ms, 10000),
                ..s2
            })
        }
    } else {
        f == s2
    }
}

/// The end of a frame at `now_ms`, from `o` to `f` through the states `a`, `b` and
/// `c`: the requested action is played (`a`), the held action's time is checked
/// (`b`), the pet's own initiative runs (`c`, answering `r`), and unless the frame
/// ends there the pet reacts to the system's load `load` at some hour of the day and
/// some draw out of a thousand.
pub open spec fn end_of_frame(
    o: AppView,
    f: AppView,
    r: Initiative,
    now_ms: u64,
    has_window: bool,
    load: ResourceLoad,
    a: AppView,
    b: AppView,
    c: AppView,
) -> bool {
    &&& pending_action_applied(o, a, now_ms)
    &&& b == after_action_timeout(a, now_ms)
    &&& initiative_result(b, c, r, now_ms, has_window)
    &&& if r == Initiative::EndFrame {
        f == c
    } else {
        exists|hour: u32, draw: u64|
            hour < 24 && draw < 1000 && #[trigger] situation_outcome(c, f, now_ms, load, hour, draw)
    }
}

/// A requested action is played in the frame that takes it up: when a pet is
/// shown and an action is requested, at the end of the frame the pet has been
/// asked to play it (and plays it if it has frames for it), the request is gone,
/// and the pet's own initiative does nothing.
pub proof fn lemma_requested_action_is_played(
    o: AppView,
    f: AppView,
    r: Initiative,
    now_ms: u64,
    has_window: bool,
    load: ResourceLoad,
    a: AppView,
    b: AppView,
    c: AppView,
)
    requires
        end_of_frame(o, f, r, now_ms, has_window, load, a, b, c),
        o.pet is Some,
        o.pending_action is Some,
    ensures
        f.pet == pet_after_action(o.pet, o.pending_action->0),
        f.pending_action is None,
        r == Initiative::Nothing,
{
    assert(b == a);
    assert(c == b);
    let (hour, draw) = choose|hour: u32, draw: u64|
        hour < 24 && draw < 1000 && #[trigger] situation_outcome(c, f, now_ms, load, hour, draw);
    assert(situation_outcome(c, f, now_ms, load, hour, draw));
}

/// A double click on a shown pet makes it bonk in that frame: after the pointer's
/// step and the end of the frame, the pet has been asked to play `bonk` (and plays
/// it if it has frames for it).
pub proof fn lemma_double_click_bonks(
    o: AppView,
    p: AppView,
    f: AppView,
    r: Initiative,
    now_ms: u64,
    ev: PointerEvents,
    has_window: bool,
    load: ResourceLoad,
    a: AppView,
    b: AppView,
    c: AppView,
)
    requires
        o.pet is Some,
        ev.double_clicked,
        pointer_outcome(o, p, now_ms, ev),
        end_of_frame(p, f, r, now_ms, has_window, load, a, b, c),
    ensures
        f.pet == pet_after_action(p.pet, "bonk"@),
        r == Initiative::Nothing,
{
    assert(p.pending_action == Some("bonk"@));
    assert(p.pet is Some);
    lemma_requested_action_is_played(p, f, r, now_ms, has_window, load, a, b, c);
}

/// What the LLM bubble below the pet shows in a frame.
pub struct LlmBubble {
    /// A reply (or the thinking notice) is on show.
    pub show_response: bool,
    /// The text on show: the thinking notice while an answer is awaited, else the reply.
    pub text: String,
}

/// An idle pet falls asleep at night (from 23:00 to 6:00) on a draw of 0.
pub open spec fn falls_asleep_spec(hour: u32, draw: u64, idle: bool) -> bool {
    (hour >= 23 || hour < 6) && draw == 0 && idle
}

/// Whether an idle pet falls asleep at `hour` on the draw `draw`.
pub fn falls_asleep(hour: u32, draw: u64, idle: bool) -> (r: bool)
    ensures
        r == falls_asleep_spec(hour, draw, idle),
{
    (hour >= 23 || hour < 6) && draw == 0 && idle
}

/// The state `f` after the reaction to the system's load at `now_ms` from `o`,
/// with the local hour `hour` and the draw `draw`.
pub open spec fn situation_outcome(
    o: AppView,
    f: AppView,
    now_ms: u64,
    load: ResourceLoad,
    hour: u32,
    draw: u64,
) -> bool {
    let g = o.is_gemmi();
    let fresh = now_ms < o.last_update_ms || now_ms - o.last_update_ms < 100;
    let react = |resource: Seq<char>, action: Seq<char>|
        {
            &&& f == (AppView {
                pet: pet_after_action(o.pet, action),
                status_text: f.status_text,
                status_timeout_ms: later(now_ms, 10000),
                ..o
            })
            &&& resource_labels_spec(resource, g).contains(f.status_text)
        };
    if !(fresh && o.status_timeout_ms < now_ms) {
        f == o
    } else if load.cpu_high {
        react("cpu_high"@, "cheer"@)
    } else if load.ram_high {
        react("ram_high"@, "surprise"@)
    } else if load.gpu_high {
        react("gpu_high"@, "surprise"@)
    } else if load.vram_high {
        react("vram_high"@, "pout"@)
    } else if falls_asleep_spec(hour, draw, plays(o.pet, "idle"@)) {
        react("night"@, "sleep"@)
    } else {
        f == o
    }
}

/// Under a calm load (no resource over 90 %) the reaction changes nothing in the
/// day (from 6:00 to 23:00) or on any draw but 0; what it changes otherwise is an
/// idle pet falling asleep.
pub proof fn lemma_calm_pet_sleeps_only_at_night(
    o: AppView,
    f: AppView,
    now_ms: u64,
    load: ResourceLoad,
    hour: u32,
    draw: u64,
)
    requires
        !load.cpu_high && !load.ram_high && !load.gpu_high && !load.vram_high,
        situation_outcome(o, f, now_ms, load, hour, draw),
    ensures
        6 <= hour < 23 ==> f == o,
        draw != 0 ==> f == o,
        !plays(o.pet, "idle"@) ==> f == o,
        f != o ==> f.pet == pet_after_action(o.pet, "sleep"@),
{
}

/// The pet, if any, turned as `turn` says.
pub open spec fn pet_turned(pet: Option<PetView>, turn: Option<bool>) -> Option<PetView> {
    match (pet, turn) {
        (Some(p), Some(right)) => Some(PetView { facing_right: right, ..p }),
        _ => pet,
    }
}

/// The pet, if any, facing right or not.
pub open spec fn pet_facing(pet: Option<PetView>, right: bool) -> Option<PetView> {
    pet_turned(pet, Some(right))
}

/// Whether the pet follows the pointer in this frame at all: following is on, no
/// patrol, no settings or chat window, no reply on show, no answer awaited, and
/// the window's position is known.
pub open spec fn follow_active(o: AppView, now_ms: u64, input: FollowInput) -> bool {
    &&& o.mouse_follow
    &&& !o.wandering
    &&& !o.show_llm_settings
    &&& !o.show_llm_chat
    &&& o.llm_response_timeout_ms < now_ms
    &&& !o.is_llm_thinking
    &&& input.has_window
    &&& o.pet is Some
}

/// A patrol under way owns the movement: while the pet patrols, following the
/// pointer is off, whatever was measured; and when the pointer is followed, no
/// patrol goes on.
pub proof fn lemma_patrol_owns_movement(o: AppView, now_ms: u64, input: FollowInput)
    ensures
        o.wandering ==> !follow_active(o, now_ms, input),
        follow_active(o, now_ms, input) ==> !o.wandering,
{
}

/// Whether a patrol goes on in this frame at all.
pub open spec fn wander_active(o: AppView, input: WanderInput) -> bool {
    &&& o.wandering
    &&& !input.menu_open
    &&& !o.show_llm_settings
    &&& !o.show_llm_chat
    &&& input.has_window
    &&& o.pet is Some
}

/// How many of the first `n` keys held now were not held in the previous frame.
pub open spec fn new_presses_prefix(current: Seq<u32>, previous: Seq<u32>, n: nat) -> nat
    decreases n,
{
    if n == 0 {
        0
    } else {
        let k = (n - 1) as nat;
        new_presses_prefix(current, previous, k) + if previous.contains(current[k as int]) {
            0nat
        } else {
            1nat
        }
    }
}

/// The number of keys held now (by key code) that were not held in the previous frame.
pub fn count_new_presses(current: &Vec<u32>, previous: &Vec<u32>) -> (r: usize)
    ensures
        r == new_presses_prefix(current@, previous@, current@.len()),
{
    let mut count: usize = 0;
    let mut i: usize = 0;
    while i < current.len()
        invariant
            i <= current.len(),
            count == new_presses_prefix(current@, previous@, i as nat),
            count <= i,
        decreases current.len() - i,
    {
        let key = current[i];
        let mut held = false;
        let mut j: usize = 0;
        while j < previous.len()
            invariant
                j <= previous.len(),
                held == exists|t: int| 0 <= t < j && previous@[t] == key,
            decreases previous.len() - j,
        {
            if previous[j] == key {
                held = true;
            }
            j = j + 1;
        }
        assert(held == previous@.contains(key));
        if !held {
            count = count + 1;
        }
        i = i + 1;
    }
    count
}

/// The typing gauge after a frame with `new_presses` newly pressed keys: it
/// rises by 50 per new key up to 300, and otherwise falls by 2 down to 0.
pub open spec fn gauge_after(gauge: u32, new_presses: usize) -> u32 {
    if new_presses > 0 {
        if gauge + 50 * new_presses >= 300 {
            300
        } else {
            (gauge + 50 * new_presses) as u32
        }
    } else if gauge >= 2 {
        (gauge - 2) as u32
    } else {
        0
    }
}

impl PetApp {
    /// The state at start-up, with the pet that could be loaded (if any), the
    /// saved LLM settings and the stored Google API key. The status says
    /// whether the pet loaded, for five seconds.
    pub fn new(pet: Option<PetState>, llm_config: LlmConfig, google_api_key: String) -> (r: PetApp)
        ensures
            r@.pet == pet_view(pet),
            r@.available_pets == seq!["GP-Chan"@, "GEMMI-Chan"@],
            r@.current_pet_name == "GP-Chan"@,
            r@.last_update_ms == 0,
            r@.pending_pet_switch is None,
            r@.status_text == (if pet is None {
                "로드 실패!"@
            } else {
                "부팅 완료!"@
            }),
            r@.status_timeout_ms == 5000,
            r@.mouse_follow,
            r@.show_stats,
            r@.pending_action is None,
            r@.action_timeout_ms == 0,
            r@.typing_gauge == 0,
            !r@.wandering,
            !r@.was_hovering,
            r@.last_auto_behavior_ms == 0,
            r@.llm_config == llm_config@,
            r@.google_api_key == google_api_key@,
            !r@.show_llm_settings,
            r@.available_lm_studio_models.len() == 0,
            !r@.fetching_models,
            r@.last_lm_studio_fetch_ms == 0,
            r@.llm_chat_input.len() == 0,
            !r@.show_llm_chat,
            !r@.is_llm_thinking,
            r@.llm_response_text.len() == 0,
            r@.llm_response_timeout_ms == 0,
            r@.llm_chat_history.len() == 0,
            r@.last_llm_chat_history_ms == 0,
            r@.last_chat_input_activity_ms == 0,
    {
        let available_pets = crate::config::available_pet_names();
        let status_text = if pet.is_none() {
            String::from_str("로드 실패!")
        } else {
            String::from_str("부팅 완료!")
        };
        let r = PetApp {
            pet,
            available_pets,
            current_pet_name: String::from_str("GP-Chan"),
            last_update_ms: 0,
            pending_pet_switch: None,
            status_text,
            status_timeout_ms: 5000,
            mouse_follow: true,
            show_stats: true,
            pending_action: None,
            action_timeout_ms: 0,
            typing_gauge: 0,
            wandering: false,
            was_hovering: false,
            last_auto_behavior_ms: 0,
            llm_config,
            google_api_key,
            show_llm_settings: false,
            available_lm_studio_models: Vec::new(),
            fetching_models: false,
            last_lm_studio_fetch_ms: 0,
            llm_chat_input: String::new(),
            show_llm_chat: false,
            is_llm_thinking: false,
            llm_response_text: String::new(),
            llm_response_timeout_ms: 0,
            llm_chat_history: Vec::new(),
            last_llm_chat_history_ms: 0,
            last_chat_input_activity_ms: 0,
        };
        assert(r@.available_pets == seq!["GP-Chan"@, "GEMMI-Chan"@]);
        r
    }

    /// Whether the current pet is GEMMI-Chan.
    pub fn is_gemmi(&self) -> (r: bool)
        ensures
            r == self@.is_gemmi(),
    {
        same_text(self.current_pet_name.as_str(), "GEMMI-Chan")
    }

    /// Whether the current pet plays `action`.
    pub fn pet_plays(&self, action: &str) -> (r: bool)
        ensures
            r == plays(self@.pet, action@),
    {
        match &self.pet {
            Some(p) => same_text(p.current_action(), action),
            None => false,
        }
    }

    /// Asks the pet to play `action` and lets it say one of that action's labels
    /// for ten seconds from `now_ms`. Nothing else changes.
    fn act_and_say(&mut self, action: &str, now_ms: u64)
        requires
            old(self)@.pet is Some,
        ensures
            final(self)@ == (AppView {
                pet: pet_after_action(old(self)@.pet, action@),
                status_text: final(self)@.status_text,
                status_timeout_ms: later(now_ms, 10000),
                ..old(self)@
            }),
            said(final(self)@.status_text, action@, old(self)@.is_gemmi()),
    {
        let gemmi = self.is_gemmi();
        if let Some(pet) = &mut self.pet {
            pet.set_action(action);
        }
        self.status_text = get_action_label(action, gemmi);
        self.status_timeout_ms = now_ms.saturating_add(10000);
    }

    /// Asks the pet, if there is one, to play `action`. Nothing else changes.
    pub fn set_pet_action(&mut self, action: &str)
        ensures
            final(self)@ == (AppView { pet: pet_after_action(old(self)@.pet, action@), ..old(self)@ }),
    {
        if let Some(pet) = &mut self.pet {
            pet.set_action(action);
        }
    }

    /// Whether the system statistics are due for a refresh at `now_ms` (more than
    /// two seconds after the last refresh); a due refresh is recorded as made now.
    pub fn refresh_stats_due(&mut self, now_ms: u64) -> (r: bool)
        ensures
            r == elapsed_more_than(now_ms, old(self)@.last_update_ms, 2000),
            r ==> final(self)@ == (AppView { last_update_ms: now_ms, ..old(self)@ }),
            !r ==> final(self)@ == old(self)@,
    {
        if now_ms > self.last_update_ms && now_ms - self.last_update_ms > 2000 {
            self.last_update_ms = now_ms;
            true
        } else {
            false
        }
    }

    /// Advances the pet's animation at `now_ms`.
    pub fn animate(&mut self, now_ms: u64)
        ensures
            final(self)@ == (AppView {
                pet: match old(self)@.pet {
                    Some(p) => Some(after_update_animation(p, now_ms)),
                    None => None,
                },
                ..old(self)@
            }),
    {
        if let Some(pet) = &mut self.pet {
            pet.update_animation(now_ms);
        }
    }

    /// Whether the LLM speech bubble is open at `now_ms`: a reply is on show, an
    /// answer is awaited, or the chat input is open.
    pub open spec fn bubble_open(v: AppView, now_ms: u64) -> bool {
        v.llm_response_timeout_ms > now_ms || v.is_llm_thinking || v.show_llm_chat
    }

    /// The pointer hover check of a frame. `over_pet` and `over_bubble` say whether
    /// the pointer is over the pet area or over the area of the LLM bubble below
    /// it (both false when the window position is unknown). The pointer hovers an
    /// interactive part over the pet, or over the bubble while it is open. Hovering
    /// an open bubble with a reply on show keeps the reply ten more seconds, as
    /// does a non-empty chat input; the chat input closes after a minute without
    /// input activity.
    pub fn hover_step(&mut self, now_ms: u64, over_pet: bool, over_bubble: bool) -> (hovering: bool)
        ensures
            ({
                let o = old(self)@;
                let open = Self::bubble_open(o, now_ms);
                let t1 = if open && over_bubble && o.llm_response_timeout_ms > now_ms {
                    later(now_ms, 10000)
                } else {
                    o.llm_response_timeout_ms
                };
                let t2 = if o.llm_chat_input.len() > 0 && t1 > now_ms {
                    later(now_ms, 10000)
                } else {
                    t1
                };
                let chat = o.show_llm_chat && !elapsed_more_than(
                    now_ms,
                    o.last_chat_input_activity_ms,
                    60000,
                );
                &&& hovering == (over_pet || (open && over_bubble))
                &&& final(self)@ == (AppView {
                    llm_response_timeout_ms: t2,
                    show_llm_chat: chat,
                    ..o
                })
            }),
    {
        let open = self.llm_response_timeout_ms > now_ms || self.is_llm_thinking || self.show_llm_chat;
        let mut hovering = over_pet;
        if open && over_bubble {
            hovering = true;
            if self.llm_response_timeout_ms > now_ms {
                self.llm_response_timeout_ms = now_ms.saturating_add(10000);
            }
        }
        if !self.llm_chat_input.as_str().is_empty() && self.llm_response_timeout_ms > now_ms {
            self.llm_response_timeout_ms = now_ms.saturating_add(10000);
        }
        if self.show_llm_chat && now_ms > self.last_chat_input_activity_ms
            && now_ms - self.last_chat_input_activity_ms > 60000 {
            self.show_llm_chat = false;
        }
        hovering
    }

    /// Whether pointer events pass through the window to what lies below: only
    /// when no menu is open, no interactive part is hovered, and neither the
    /// settings window nor the chat input is open.
    pub fn mouse_passthrough(&self, menu_open: bool, hovering: bool) -> (r: bool)
        ensures
            r == !(menu_open || hovering || self@.show_llm_settings || self@.show_llm_chat),
    {
        !(menu_open || hovering || self.show_llm_settings || self.show_llm_chat)
    }

    /// The typing detection of a frame with `new_presses` newly pressed keys. The
    /// gauge moves (see `gauge_after`); above 100 the pet starts typing (unless it
    /// types already or dangles from the pointer) and says so; below 50 a typing
    /// pet goes idle.
    pub fn typing_step(&mut self, new_presses: usize, now_ms: u64)
        ensures
            ({
                let o = old(self)@;
                let f = final(self)@;
                let g = gauge_after(o.typing_gauge, new_presses);
                if g > 100 && o.pet is Some && !plays(o.pet, "typing"@) && !plays(o.pet, "drag_dangle"@) {
                    &&& f == (AppView {
                        typing_gauge: g,
                        pet: pet_after_action(o.pet, "typing"@),
                        status_text: f.status_text,
                        status_timeout_ms: later(now_ms, 10000),
                        ..o
                    })
                    &&& said(f.status_text, "typing"@, o.is_gemmi())
                } else if g < 50 && plays(o.pet, "typing"@) {
                    f == (AppView { typing_gauge: g, pet: pet_after_action(o.pet, "idle"@), ..o })
                } else {
                    f == (AppView { typing_gauge: g, ..o })
                }
            }),
            old(self)@.typing_gauge <= 300 ==> final(self)@.typing_gauge <= 300,
    {
        let g: u32 = if new_presses > 0 {
            if new_presses >= 6 {
                300
            } else {
                let raised: u64 = self.typing_gauge as u64 + 50 * (new_presses as u64);
                if raised >= 300 {
                    300
                } else {
                    raised as u32
                }
            }
        } else if self.typing_gauge >= 2 {
            self.typing_gauge - 2
        } else {
            0
        };
        self.typing_gauge = g;
        if g > 100 {
            if self.pet.is_some() && !self.pet_plays("typing") && !self.pet_plays("drag_dangle") {
                self.act_and_say("typing", now_ms);
            }
        } else if g < 50 {
            if self.pet_plays("typing") {
                self.set_pet_action("idle");
            }
        }
    }

    /// The scroll check of a frame: scrolling over an interactive part tickles a
    /// pet that has the tickle animation; it says so when the tickle starts, and
    /// stays tickled for 2.5 seconds after the last scroll.
    pub fn scroll_step(&mut self, scrolled: bool, hovering: bool, now_ms: u64)
        ensures
            ({
                let o = old(self)@;
                let f = final(self)@;
                if scrolled && hovering && (o.pet matches Some(p) && p.has_frames("scroll_tickle"@)) {
                    if plays(o.pet, "scroll_tickle"@) {
                        f == (AppView { action_timeout_ms: later(now_ms, 2500), ..o })
                    } else {
                        &&& f == (AppView {
                            pet: pet_after_action(o.pet, "scroll_tickle"@),
                            status_text: f.status_text,
                            status_timeout_ms: later(now_ms, 10000),
                            action_timeout_ms: later(now_ms, 2500),
                            ..o
                        })
                        &&& said(f.status_text, "scroll_tickle"@, o.is_gemmi())
                    }
                } else {
                    f == o
                }
            }),
    {
        if scrolled && hovering {
            let tickles = match &self.pet {
                Some(p) => p.has_frames("scroll_tickle"),
                None => false,
            };
            if tickles {
                if !self.pet_plays("scroll_tickle") {
                    self.act_and_say("scroll_tickle", now_ms);
                }
                self.action_timeout_ms = now_ms.saturating_add(2500);
            }
        }
    }

    /// The reaction when the pointer starts hovering an interactive part: an idle
    /// or walking pet waves (or, without a wave animation, looks surprised), says
    /// so, and keeps the reaction for two seconds.
    pub fn hover_entry_step(&mut self, hovering: bool, now_ms: u64)
        ensures
            ({
                let o = old(self)@;
                let f = final(self)@;
                let reaction = if o.pet matches Some(p) && p.has_frames("wave"@) {
                    "wave"@
                } else {
                    "surprise"@
                };
                if hovering && !o.was_hovering && (plays(o.pet, "idle"@) || plays(o.pet, "walk"@)) {
                    &&& f == (AppView {
                        pet: pet_after_action(o.pet, reaction),
                        status_text: f.status_text,
                        status_timeout_ms: later(now_ms, 10000),
                        action_timeout_ms: later(now_ms, 2000),
                        was_hovering: hovering,
                        ..o
                    })
                    &&& said(f.status_text, reaction, o.is_gemmi())
                } else {
                    f == (AppView { was_hovering: hovering, ..o })
                }
            }),
    {
        if hovering && !self.was_hovering {
            if self.pet_plays("idle") || self.pet_plays("walk") {
                let waves = match &self.pet {
                    Some(p) => p.has_frames("wave"),
                    None => false,
                };
                let reaction = if waves {
                    "wave"
                } else {
                    "surprise"
                };
                self.act_and_say(reaction, now_ms);
                self.action_timeout_ms = now_ms.saturating_add(2000);
            }
        }
        self.was_hovering = hovering;
    }

    /// Turns the pet, if any, as `turn` says.
    fn turn_pet(&mut self, turn: Option<bool>)
        ensures
            final(self)@ == (AppView { pet: pet_turned(old(self)@.pet, turn), ..old(self)@ }),
    {
        if let Some(right) = turn {
            if let Some(pet) = &mut self.pet {
                pet.set_facing_right(right);
            }
        }
    }

    /// Lets the pet say `text` until `timeout_ms`. Nothing else changes.
    fn say(&mut self, text: &str, timeout_ms: u64)
        ensures
            final(self)@ == (AppView { status_text: text@, status_timeout_ms: timeout_ms, ..old(self)@ }),
    {
        self.status_text = String::from_str(text);
        self.status_timeout_ms = timeout_ms;
    }

    /// The mouse-following check of a frame. With a menu open a walking pet stops.
    /// Otherwise, unless the pet types, dangles or holds an action, it turns
    /// towards the pointer; a pointer that is away but not lost makes it walk
    /// (saying so when it starts) and the window moves towards the pointer,
    /// ending any patrol; a lost pointer stops a walking pet, which says so; a
    /// pointer that is reached stops a walking pet, which says so, and an idle
    /// pet greets a pointer inside its area once its last words are over.
    /// Returns whether the window moves towards the pointer.
    pub fn follow_step(&mut self, now_ms: u64, input: FollowInput) -> (moves: bool)
        ensures
            ({
                let o = old(self)@;
                let f = final(self)@;
                let g = o.is_gemmi();
                if !follow_active(o, now_ms, input) {
                    !moves && f == o
                } else if input.menu_open {
                    let p1 = if plays(o.pet, "walk"@) {
                        pet_after_action(o.pet, "idle"@)
                    } else {
                        o.pet
                    };
                    &&& !moves
                    &&& if o.status_text == "추적중..."@ {
                        f == (AppView {
                            pet: p1,
                            status_text: "무엇을 할까요?"@,
                            status_timeout_ms: later(now_ms, 10000),
                            ..o
                        })
                    } else {
                        f == (AppView { pet: p1, ..o })
                    }
                } else if plays(o.pet, "typing"@) || plays(o.pet, "drag_dangle"@) || o.action_timeout_ms != 0 {
                    !moves && f == o
                } else {
                    let p0 = pet_turned(o.pet, input.turn);
                    if !input.in_window && input.away {
                        if input.lost {
                            &&& !moves
                            &&& if plays(o.pet, "walk"@) {
                                f == (AppView {
                                    pet: pet_after_action(p0, "idle"@),
                                    status_text: if g { "놓쳤다!"@ } else { "놓침ㅋ"@ },
                                    status_timeout_ms: later(now_ms, 10000),
                                    ..o
                                })
                            } else {
                                f == (AppView { pet: p0, ..o })
                            }
                        } else {
                            &&& moves
                            &&& if !plays(o.pet, "walk"@) && o.pending_action is None {
                                &&& f == (AppView {
                                    pet: pet_after_action(p0, "walk"@),
                                    status_text: f.status_text,
                                    status_timeout_ms: later(now_ms, 10000),
                                    wandering: false,
                                    ..o
                                })
                                &&& said(f.status_text, "walk"@, g)
                            } else {
                                f == (AppView { pet: p0, wandering: false, ..o })
                            }
                        }
                    } else {
                        &&& !moves
                        &&& if plays(o.pet, "walk"@) && o.pending_action is None {
                            f == (AppView {
                                pet: pet_after_action(p0, "idle"@),
                                status_text: if g { "잡았다!"@ } else { "왔는가"@ },
                                status_timeout_ms: later(now_ms, 10000),
                                ..o
                            })
                        } else if input.in_window && plays(o.pet, "idle"@) && o.status_timeout_ms < now_ms {
                            f == (AppView {
                                pet: p0,
                                status_text: if g { "왔냐!"@ } else { "ㅎㅇㅎㅇ"@ },
                                status_timeout_ms: later(now_ms, 10000),
                                ..o
                            })
                        } else {
                            f == (AppView { pet: p0, ..o })
                        }
                    }
                }
            }),
            old(self)@.wandering ==> !moves && final(self)@ == old(self)@,
            moves ==> !old(self)@.wandering && !final(self)@.wandering,
    {
        if !(self.mouse_follow && !self.wandering && !self.show_llm_settings && !self.show_llm_chat
            && self.llm_response_timeout_ms < now_ms && !self.is_llm_thinking) {
            return false;
        }
        if !input.has_window || self.pet.is_none() {
            return false;
        }
        let gemmi = self.is_gemmi();
        if input.menu_open {
            if self.pet_plays("walk") {
                self.set_pet_action("idle");
            }
            if same_text(self.status_text.as_str(), "추적중...") {
                self.say("무엇을 할까요?", now_ms.saturating_add(10000));
            }
            return false;
        }
        if self.pet_plays("typing") || self.pet_plays("drag_dangle") || self.action_timeout_ms != 0 {
            return false;
        }
        self.turn_pet(input.turn);
        if !input.in_window && input.away {
            if input.lost {
                if self.pet_plays("walk") {
                    self.set_pet_action("idle");
                    self.say(if gemmi { "놓쳤다!" } else { "놓침ㅋ" }, now_ms.saturating_add(10000));
                }
                false
            } else {
                if !self.pet_plays("walk") && self.pending_action.is_none() {
                    self.act_and_say("walk", now_ms);
                }
                self.wandering = false;
                true
            }
        } else {
            if self.pet_plays("walk") && self.pending_action.is_none() && !self.wandering
                && self.action_timeout_ms == 0 {
                self.set_pet_action("idle");
                self.say(if gemmi { "잡았다!" } else { "왔는가" }, now_ms.saturating_add(10000));
            } else if input.in_window && self.pet_plays("idle") && self.status_timeout_ms < now_ms {
                self.say(if gemmi { "왔냐!" } else { "ㅎㅇㅎㅇ" }, now_ms.saturating_add(10000));
            }
            false
        }
    }

    /// The patrol check of a frame. A pet that types, dangles or holds an action
    /// ends the patrol (a walking pet stops); a pet that arrived ends it idle and
    /// says it is back for two seconds. Otherwise the pet walks (saying it is on
    /// patrol when it starts) facing its heading, and either steps towards the
    /// target or, at a screen edge, bounces, faces the new heading and says so.
    pub fn wander_step(&mut self, now_ms: u64, input: WanderInput) -> (m: WanderMove)
        ensures
            ({
                let o = old(self)@;
                let f = final(self)@;
                let g = o.is_gemmi();
                if !wander_active(o, input) {
                    m == WanderMove::Hold && f == o
                } else if plays(o.pet, "typing"@) || plays(o.pet, "drag_dangle"@) || o.action_timeout_ms > 0 {
                    &&& m == WanderMove::Stop
                    &&& f == (AppView {
                        wandering: false,
                        pet: if plays(o.pet, "walk"@) {
                            pet_after_action(o.pet, "idle"@)
                        } else {
                            o.pet
                        },
                        ..o
                    })
                } else if input.arrived {
                    &&& m == WanderMove::Stop
                    &&& f == (AppView {
                        wandering: false,
                        pet: pet_after_action(o.pet, "idle"@),
                        status_text: "복귀완"@,
                        status_timeout_ms: later(now_ms, 2000),
                        ..o
                    })
                } else {
                    let walking = if plays(o.pet, "walk"@) {
                        o
                    } else {
                        AppView {
                            pet: pet_after_action(o.pet, "walk"@),
                            status_text: "순찰중..."@,
                            status_timeout_ms: later(now_ms, 2000),
                            ..o
                        }
                    };
                    if input.hits_edge {
                        &&& m == WanderMove::Bounce
                        &&& f == (AppView {
                            pet: pet_facing(walking.pet, input.bounce_heading_right),
                            status_text: if g { "앗! 반대로!"@ } else { "통! 반대로"@ },
                            status_timeout_ms: later(now_ms, 10000),
                            ..walking
                        })
                    } else {
                        &&& m == WanderMove::Step
                        &&& f == (AppView { pet: pet_facing(walking.pet, input.heading_right), ..walking })
                    }
                }
            }),
    {
        if !(self.wandering && !input.menu_open && !self.show_llm_settings && !self.show_llm_chat) {
            return WanderMove::Hold;
        }
        if !input.has_window || self.pet.is_none() {
            return WanderMove::Hold;
        }
        if self.pet_plays("typing") || self.pet_plays("drag_dangle") || self.action_timeout_ms > 0 {
            self.wandering = false;
            if self.pet_plays("walk") {
                self.set_pet_action("idle");
            }
            return WanderMove::Stop;
        }
        if input.arrived {
            self.wandering = false;
            self.set_pet_action("idle");
            self.say("복귀완", now_ms.saturating_add(2000));
            return WanderMove::Stop;
        }
        if !self.pet_plays("walk") {
            self.set_pet_action("walk");
            self.say("순찰중...", now_ms.saturating_add(2000));
        }
        self.turn_pet(Some(input.heading_right));
        if input.hits_edge {
            self.turn_pet(Some(input.bounce_heading_right));
            let gemmi = self.is_gemmi();
            self.say(if gemmi { "앗! 반대로!" } else { "통! 반대로" }, now_ms.saturating_add(10000));
            WanderMove::Bounce
        } else {
            WanderMove::Step
        }
    }

    /// What the pointer did to the pet's sprite in a frame (the caller reports it
    /// only while the sprite is drawn). Dragging makes the pet dangle, saying so
    /// when it starts; letting go of a dangling pet makes it idle and relieved. A
    /// double click asks for a bonk; a plain click toggles the chat input, and
    /// opening it invites the user to talk.
    pub fn pointer_step(&mut self, now_ms: u64, ev: PointerEvents)
        ensures
            pointer_outcome(old(self)@, final(self)@, now_ms, ev),
    {
        if self.pet.is_none() {
            return;
        }
        if ev.dragged {
            if !self.pet_plays("drag_dangle") {
                self.act_and_say("drag_dangle", now_ms);
            }
        } else if ev.drag_stopped {
            if self.pet_plays("drag_dangle") {
                self.set_pet_action("idle");
                self.say("살았다!", now_ms.saturating_add(10000));
            }
        }
        if ev.double_clicked {
            self.pending_action = Some(String::from_str("bonk"));
        } else if ev.clicked && !ev.dragged {
            self.show_llm_chat = !self.show_llm_chat;
            if self.show_llm_chat {
                self.say("말해봐!", now_ms.saturating_add(10000));
                self.last_chat_input_activity_ms = now_ms;
            }
        }
    }

    /// The file holding the system prompt of the current pet, if it has one.
    pub fn system_prompt_file(&self) -> (r: Option<&'static str>)
        ensures
            match r {
                Some(t) => system_prompt_file_spec(self@.current_pet_name) == Some(t@),
                None => system_prompt_file_spec(self@.current_pet_name) is None,
            },
    {
        if same_text(self.current_pet_name.as_str(), "GEMMI-Chan") {
            Some("gemmi.txt")
        } else if same_text(self.current_pet_name.as_str(), "GP-Chan") {
            Some("GPchan.txt")
        } else {
            None
        }
    }

    /// Ctrl+Enter in the chat input: the newlines it left at the end go.
    pub fn strip_submitted_newlines(&mut self)
        ensures
            final(self)@ == (AppView {
                llm_chat_input: crate::text::trim_end_char(old(self)@.llm_chat_input, '\n'),
                ..old(self)@
            }),
    {
        let trimmed = crate::text::trim_end_matches_char(self.llm_chat_input.as_str(), '\n');
        self.llm_chat_input = trimmed;
    }

    /// Pressing "send" in the chat at `now_ms` counts as input activity. With a
    /// non-empty input, a chat idle for more than half an hour starts afresh, the
    /// time of the chat is updated, and the caller learns whether the chat is new
    /// (and so needs the pet's system prompt).
    pub fn chat_send_pressed(&mut self, now_ms: u64) -> (r: ChatSend)
        ensures
            ({
                let o = old(self)@;
                let f = final(self)@;
                let expired = elapsed_more_than(now_ms, o.last_llm_chat_history_ms, 1800000);
                let history = if expired {
                    Seq::empty()
                } else {
                    o.llm_chat_history
                };
                if o.llm_chat_input.len() == 0 {
                    r == ChatSend::Nothing && f == (AppView { last_chat_input_activity_ms: now_ms, ..o })
                } else {
                    &&& r == (if history.len() == 0 {
                        ChatSend::NeedsPrompt
                    } else {
                        ChatSend::Ready
                    })
                    &&& f == (AppView {
                        last_chat_input_activity_ms: now_ms,
                        llm_chat_history: history,
                        last_llm_chat_history_ms: now_ms,
                        ..o
                    })
                }
            }),
    {
        self.last_chat_input_activity_ms = now_ms;
        if self.llm_chat_input.as_str().is_empty() {
            return ChatSend::Nothing;
        }
        if now_ms > self.last_llm_chat_history_ms && now_ms - self.last_llm_chat_history_ms > 1800000 {
            self.llm_chat_history = Vec::new();
            assert(messages_view(self.llm_chat_history@) =~= Seq::empty());
        }
        self.last_llm_chat_history_ms = now_ms;
        if self.llm_chat_history.len() == 0 {
            ChatSend::NeedsPrompt
        } else {
            ChatSend::Ready
        }
    }

    /// Sends the chat input at `now_ms`: the system prompt opens an empty chat
    /// (when there is one), the input joins the chat as the user's message, the
    /// input clears, the pet goes idle and thinks aloud for up to a minute while
    /// the answer is awaited. The request carries the settings, the Google API key
    /// when Google answers, and the whole chat.
    pub fn send_chat(&mut self, now_ms: u64, system_prompt: &str) -> (r: ChatRequest)
        ensures
            ({
                let o = old(self)@;
                let f = final(self)@;
                let chat = chat_after_send(o.llm_chat_history, system_prompt@, o.llm_chat_input);
                &&& f == (AppView {
                    llm_chat_history: chat,
                    is_llm_thinking: true,
                    llm_chat_input: Seq::empty(),
                    pet: pet_after_action(o.pet, "idle"@),
                    llm_response_text: "생각 중..."@,
                    llm_response_timeout_ms: later(now_ms, 60000),
                    ..o
                })
                &&& r.config@ == o.llm_config
                &&& (match r.api_key {
                    Some(k) => o.llm_config.provider == crate::llm::LlmProvider::Google && k@
                        == o.google_api_key,
                    None => o.llm_config.provider != crate::llm::LlmProvider::Google,
                })
                &&& messages_view(r.messages@) == chat
            }),
    {
        if self.llm_chat_history.len() == 0 && !system_prompt.is_empty() {
            let ghost before = self.llm_chat_history@;
            self.llm_chat_history.push(ChatMessage::new("system", system_prompt));
            assert(messages_view(self.llm_chat_history@) =~= messages_view(before).push(
                ("system"@, system_prompt@),
            ));
        }
        let ghost before = self.llm_chat_history@;
        let user = ChatMessage::new("user", self.llm_chat_input.as_str());
        self.llm_chat_history.push(user);
        assert(messages_view(self.llm_chat_history@) =~= messages_view(before).push(
            ("user"@, self.llm_chat_input@),
        ));
        let api_key = match self.llm_config.provider {
            crate::llm::LlmProvider::Google => Some(self.google_api_key.clone()),
            crate::llm::LlmProvider::LmStudio => None,
        };
        let request = ChatRequest {
            config: self.llm_config.copy(),
            api_key,
            messages: crate::llm::copy_messages(&self.llm_chat_history),
        };
        self.is_llm_thinking = true;
        self.llm_chat_input = String::new();
        self.set_pet_action("idle");
        self.llm_response_text = String::from_str("생각 중...");
        self.llm_response_timeout_ms = now_ms.saturating_add(60000);
        request
    }

    /// The model's answer arrives at `now_ms`. A reply is shown for ten seconds,
    /// joins the chat as the assistant's message, and the pet waves; an error is
    /// shown for ten seconds as `Error: ` and its message, and the pet pouts.
    pub fn receive_chat_reply(&mut self, now_ms: u64, reply: Result<String, String>)
        ensures
            ({
                let o = old(self)@;
                let f = final(self)@;
                match reply {
                    Ok(text) => f == (AppView {
                        is_llm_thinking: false,
                        llm_response_text: text@,
                        llm_response_timeout_ms: later(now_ms, 10000),
                        llm_chat_history: o.llm_chat_history.push(("assistant"@, text@)),
                        pet: pet_after_action(o.pet, "wave"@),
                        ..o
                    }),
                    Err(e) => f == (AppView {
                        is_llm_thinking: false,
                        llm_response_text: "Error: "@ + e@,
                        llm_response_timeout_ms: later(now_ms, 10000),
                        pet: pet_after_action(o.pet, "pout"@),
                        ..o
                    }),
                }
            }),
    {
        self.is_llm_thinking = false;
        match reply {
            Ok(text) => {
                let ghost before = self.llm_chat_history@;
                self.llm_chat_history.push(ChatMessage::new("assistant", text.as_str()));
                assert(messages_view(self.llm_chat_history@) =~= messages_view(before).push(
                    ("assistant"@, text@),
                ));
                self.llm_response_text = text;
                self.llm_response_timeout_ms = now_ms.saturating_add(10000);
                self.set_pet_action("wave");
            },
            Err(e) => {
                let mut shown = String::from_str("Error: ");
                shown.append(e.as_str());
                self.llm_response_text = shown;
                self.llm_response_timeout_ms = now_ms.saturating_add(10000);
                self.set_pet_action("pout");
            },
        }
    }

    /// Whether the LM Studio model list is to be fetched at `now_ms`: LM Studio
    /// answers, the list was never fetched or was fetched more than 30 seconds
    /// ago, and no fetch is under way. A fetch that is due is recorded as started.
    pub fn model_fetch_due(&mut self, now_ms: u64) -> (r: bool)
        ensures
            ({
                let o = old(self)@;
                &&& r == (o.llm_config.provider == crate::llm::LlmProvider::LmStudio
                    && (elapsed_more_than(now_ms, o.last_lm_studio_fetch_ms, 30000)
                    || o.last_lm_studio_fetch_ms == 0) && !o.fetching_models)
                &&& r ==> final(self)@ == (AppView {
                    fetching_models: true,
                    last_lm_studio_fetch_ms: now_ms,
                    ..o
                })
                &&& !r ==> final(self)@ == o
            }),
    {
        if self.llm_config.provider == crate::llm::LlmProvider::LmStudio && (
        (now_ms > self.last_lm_studio_fetch_ms && now_ms - self.last_lm_studio_fetch_ms > 30000)
            || self.last_lm_studio_fetch_ms == 0) && !self.fetching_models {
            self.fetching_models = true;
            self.last_lm_studio_fetch_ms = now_ms;
            true
        } else {
            false
        }
    }

    /// The LM Studio model list arrives: it replaces the offered models, and the
    /// first becomes the chosen model when none was chosen yet.
    pub fn receive_models(&mut self, models: Vec<String>)
        ensures
            ({
                let o = old(self)@;
                let m = texts(models@);
                let config = if o.llm_config.lm_studio_model.len() == 0 && m.len() > 0 {
                    LlmConfigView { lm_studio_model: m[0], ..o.llm_config }
                } else {
                    o.llm_config
                };
                final(self)@ == (AppView {
                    available_lm_studio_models: m,
                    llm_config: config,
                    fetching_models: false,
                    ..o
                })
            }),
    {
        self.available_lm_studio_models = models;
        if self.llm_config.lm_studio_model.as_str().is_empty() && self.available_lm_studio_models.len() > 0 {
            self.llm_config.lm_studio_model = self.available_lm_studio_models[0].clone();
        }
        self.fetching_models = false;
    }

    /// Whether switching to the pet called `name` changes anything: it is not the
    /// current pet.
    pub fn needs_pet_switch(&self, name: &str) -> (r: bool)
        ensures
            r == (self@.current_pet_name != name@),
    {
        !same_text(self.current_pet_name.as_str(), name)
    }

    /// Switches to the pet called `name`, given that pet as it could be loaded.
    /// Nothing changes when it is the current pet or could not be loaded;
    /// otherwise the new pet comes with a fresh chat: no history, no reply on
    /// show and no answer awaited.
    pub fn switch_pet(&mut self, name: &str, loaded: Option<PetState>)
        requires
            loaded matches Some(p) ==> p@.config._name@ == name@,
        ensures
            ({
                let o = old(self)@;
                if o.current_pet_name == name@ || loaded is None {
                    final(self)@ == o
                } else {
                    final(self)@ == (AppView {
                        pet: pet_view(loaded),
                        current_pet_name: name@,
                        llm_chat_history: Seq::empty(),
                        llm_response_text: Seq::empty(),
                        llm_response_timeout_ms: 0,
                        last_llm_chat_history_ms: 0,
                        last_chat_input_activity_ms: 0,
                        is_llm_thinking: false,
                        ..o
                    })
                }
            }),
    {
        if same_text(self.current_pet_name.as_str(), name) {
            return;
        }
        if let Some(pet) = loaded {
            self.pet = Some(pet);
            self.current_pet_name = String::from_str(name);
            self.llm_chat_history = Vec::new();
            assert(messages_view(self.llm_chat_history@) =~= Seq::empty());
            self.llm_response_text = String::new();
            self.llm_response_timeout_ms = 0;
            self.last_llm_chat_history_ms = 0;
            self.last_chat_input_activity_ms = 0;
            self.is_llm_thinking = false;
        }
    }

    /// After a switch to `name` was requested from the menu: the pet announces the
    /// switch for ten seconds (whether or not the pet changed).
    pub fn announce_pet_switch(&mut self, now_ms: u64, name: &str)
        ensures
            final(self)@ == (AppView {
                status_text: name@ + " 로 전환!"@,
                status_timeout_ms: later(now_ms, 10000),
                ..old(self)@
            }),
    {
        let mut text = String::from_str(name);
        text.append(" 로 전환!");
        self.status_text = text;
        self.status_timeout_ms = now_ms.saturating_add(10000);
    }

    /// Plays the action requested from the menu (or by a double click), if any:
    /// the pet plays it, says one of its labels for ten seconds, and holds it for
    /// five. The request is consumed even without a pet.
    pub fn apply_pending_action(&mut self, now_ms: u64)
        ensures
            pending_action_applied(old(self)@, final(self)@, now_ms),
    {
        let pending = self.pending_action.take();
        if let Some(action) = pending {
            if self.pet.is_some() {
                self.act_and_say(action.as_str(), now_ms);
                self.action_timeout_ms = now_ms.saturating_add(5000);
            }
        }
    }

    /// When the held action's time is over, a pet that neither idles, walks nor
    /// types goes idle, and nothing is held any more.
    pub fn action_timeout_step(&mut self, now_ms: u64)
        ensures
            final(self)@ == after_action_timeout(old(self)@, now_ms),
    {
        if self.action_timeout_ms > 0 && now_ms > self.action_timeout_ms {
            if self.pet.is_some() && !self.pet_plays("idle") && !self.pet_plays("walk")
                && !self.pet_plays("typing") {
                self.set_pet_action("idle");
            }
            self.action_timeout_ms = 0;
        }
    }

    /// The pet takes `action` up by its own initiative (see `took_up`).
    fn take_up(&mut self, action: &str, now_ms: u64)
        requires
            old(self)@.pet is Some,
        ensures
            took_up(old(self)@, final(self)@, action@, now_ms),
    {
        if !self.pet_plays(action) {
            self.act_and_say(action, now_ms);
        }
    }

    /// Whether the pet may act on its own at `now_ms`: more than eight seconds since
    /// it last did, nothing requested, no typing and nothing held.
    pub open spec fn initiative_due(o: AppView, now_ms: u64) -> bool {
        &&& elapsed_more_than(now_ms, o.last_auto_behavior_ms, 8000)
        &&& o.pending_action is None
        &&& o.typing_gauge == 0
        &&& o.action_timeout_ms == 0
    }

    /// The pet's own initiative at `now_ms`. When it is due, the time is recorded
    /// and an idle pet picks, at random by weight, one of the actions it has frames
    /// for (with none, the rest of the frame is skipped). A walk starts a patrol
    /// when the window's position is known (`has_window`); any other action is
    /// held for a random time of three to seven seconds. The pet takes the picked
    /// action up.
    pub fn initiative_step(&mut self, now_ms: u64, has_window: bool) -> (r: Initiative)
        ensures
            initiative_result(old(self)@, final(self)@, r, now_ms, has_window),
    {
        let ghost o = self@;
        if !(now_ms > self.last_auto_behavior_ms && now_ms - self.last_auto_behavior_ms > 8000
            && self.pending_action.is_none() && self.typing_gauge == 0 && self.action_timeout_ms == 0) {
            return Initiative::Nothing;
        }
        self.last_auto_behavior_ms = now_ms;
        if !self.pet_plays("idle") {
            return Initiative::Nothing;
        }
        let choices = match &self.pet {
            Some(p) => crate::choice::eligible_auto_actions(p),
            None => Vec::new(),
        };
        proof {
            crate::choice::lemma_eligible_total_at_most_24(self@.pet->0);
        }
        let total = crate::choice::sum_weights(&choices);
        if total == 0 {
            return Initiative::EndFrame;
        }
        let pick = crate::chance::random_in(0, total);
        let i = crate::choice::pick_weighted(&choices, pick);
        let action = choices[i].0;
        assert(choices_view(choices@)[i as int].0 == action@);
        let mut result = Initiative::Nothing;
        let mut hold: u64 = 3000;
        if same_text(action, "walk") {
            if has_window {
                self.wandering = true;
                result = Initiative::Patrol;
            }
        } else {
            hold = crate::chance::random_in(3000, 7000);
            self.action_timeout_ms = now_ms.saturating_add(hold);
        }
        self.take_up(action, now_ms);
        assert(initiative_outcome(o, self@, result, now_ms, has_window, pick as int, hold));
        result
    }

    /// The reaction to the system's load at `now_ms`, given the local hour and a
    /// draw out of a thousand. Only right after the statistics were refreshed and
    /// once the pet's last words are over: a busy CPU makes it cheer, full memory
    /// or a busy graphics card surprises it, full video memory makes it pout, and
    /// it says something fitting for ten seconds. With no heavy load, an idle pet
    /// falls asleep at night (from 23:00 to 6:00) on a draw of 0, saying so.
    pub fn situation_step(&mut self, now_ms: u64, load: ResourceLoad, hour: u32, draw: u64)
        ensures
            situation_outcome(old(self)@, final(self)@, now_ms, load, hour, draw),
    {
        let fresh = now_ms < self.last_update_ms || now_ms - self.last_update_ms < 100;
        if !(fresh && self.status_timeout_ms < now_ms) {
            return;
        }
        let gemmi = self.is_gemmi();
        if load.cpu_high {
            self.status_text = get_resource_label("cpu_high", gemmi);
            self.status_timeout_ms = now_ms.saturating_add(10000);
            self.set_pet_action("cheer");
        } else if load.ram_high {
            self.status_text = get_resource_label("ram_high", gemmi);
            self.status_timeout_ms = now_ms.saturating_add(10000);
            self.set_pet_action("surprise");
        } else if load.gpu_high {
            self.status_text = get_resource_label("gpu_high", gemmi);
            self.status_timeout_ms = now_ms.saturating_add(10000);
            self.set_pet_action("surprise");
        } else if load.vram_high {
            self.status_text = get_resource_label("vram_high", gemmi);
            self.status_timeout_ms = now_ms.saturating_add(10000);
            self.set_pet_action("pout");
        } else if falls_asleep(hour, draw, self.pet_plays("idle")) {
            self.status_text = get_resource_label("night", gemmi);
            self.status_timeout_ms = now_ms.saturating_add(10000);
            self.set_pet_action("sleep");
        }
    }

    /// The reaction to the system's load at `now_ms`, with the local hour read from
    /// the clock and a draw out of a thousand made at random (see `situation_step`).
    pub fn react_to_situation(&mut self, now_ms: u64, load: ResourceLoad)
        ensures
            exists|hour: u32, draw: u64|
                hour < 24 && draw < 1000 && #[trigger] situation_outcome(
                    old(self)@,
                    final(self)@,
                    now_ms,
                    load,
                    hour,
                    draw,
                ),
    {
        let hour = crate::chance::local_hour();
        let draw = crate::chance::random_in(0, 1000);
        self.situation_step(now_ms, load, hour, draw);
    }

    /// The decisions at the end of a frame at `now_ms`: plays the requested action,
    /// ends a held action whose time is over, lets the pet act on its own (with the
    /// window's position known or not, `has_window`), and unless that ends the frame,
    /// reacts to the system's load `load`. What the initiative asks of the caller
    /// comes back.
    pub fn finish_frame(&mut self, now_ms: u64, has_window: bool, load: ResourceLoad) -> (r: Initiative)
        ensures
            exists|a: AppView, b: AppView, c: AppView|
                #[trigger] end_of_frame(old(self)@, final(self)@, r, now_ms, has_window, load, a, b, c),
            (old(self)@.pet is Some && old(self)@.pending_action is Some) ==> {
                &&& final(self)@.pet == pet_after_action(old(self)@.pet, old(self)@.pending_action->0)
                &&& final(self)@.pending_action is None
                &&& r == Initiative::Nothing
            },
    {
        let ghost o = self@;
        self.apply_pending_action(now_ms);
        let ghost a = self@;
        self.action_timeout_step(now_ms);
        let ghost b = self@;
        let r = self.initiative_step(now_ms, has_window);
        let ghost c = self@;
        match r {
            Initiative::EndFrame => {},
            _ => self.react_to_situation(now_ms, load),
        }
        assert(end_of_frame(o, self@, r, now_ms, has_window, load, a, b, c));
        proof {
            if o.pet is Some && o.pending_action is Some {
                lemma_requested_action_is_played(o, self@, r, now_ms, has_window, load, a, b, c);
            }
        }
        r
    }

    /// The LLM bubble at `now_ms`, if it is open (see `bubble_open`).
    pub fn llm_bubble(&self, now_ms: u64) -> (r: Option<LlmBubble>)
        ensures
            r is Some <==> Self::bubble_open(self@, now_ms),
            (r matches Some(b) ==> {
                &&& b.show_response == (now_ms < self@.llm_response_timeout_ms || self@.is_llm_thinking)
                &&& b.text@ == (if self@.is_llm_thinking {
                    "생각 중..."@
                } else {
                    self@.llm_response_text
                })
            }),
    {
        if !(now_ms < self.llm_response_timeout_ms || self.is_llm_thinking || self.show_llm_chat) {
            return None;
        }
        let text = if self.is_llm_thinking {
            String::from_str("생각 중...")
        } else {
            self.llm_response_text.clone()
        };
        Some(LlmBubble { show_response: now_ms < self.llm_response_timeout_ms || self.is_llm_thinking, text })
    }
}

} // verus!
