use rust_pets::behavior::{
    count_new_presses, falls_asleep,
    ChatSend, FollowInput, Initiative, PetApp, PointerEvents, ResourceLoad, WanderInput, WanderMove,
};
use rust_pets::config::{Action, EmbeddedPet, Manifest, PetConfig};
use rust_pets::labels::get_action_labels;
use rust_pets::llm::{LlmConfig, LlmProvider};
use rust_pets::pet::PetState;


fn frames(counts: &[usize]) -> Vec<Vec<(u32, u32, Vec<u8>)>> {
    counts.iter().map(|c| vec![(1u32, 1u32, vec![0u8, 0, 0, 255]); *c]).collect()
}

fn pet_with(actions: &[&str]) -> PetState {
    pet_named("GP-Chan", actions)
}

fn pet_named(name: &str, actions: &[&str]) -> PetState {
    let config = PetConfig {
        _name: name.to_string(),
        manifest: Manifest {
            cell_size: 160,
            actions: actions
                .iter()
                .map(|n| {
                    (
                        n.to_string(),
                        Action {
                            _display_name: n.to_string(),
                            frames: vec!["a.png".to_string(), "b.png".to_string()],
                            frame_duration_ms: 100,
                        },
                    )
                })
                .collect(),
        },
        dir: EmbeddedPet::GpChan,
    };
    let decoded = frames(&vec![2; actions.len()]);
    PetState::new(config, &decoded)
}

fn full_pet() -> PetState {
    pet_with(&[
        "idle", "walk", "wave", "typing", "drag_dangle", "scroll_tickle", "bonk", "surprise", "cheer",
        "pout", "sleep", "think",
    ])
}

fn app() -> PetApp {
    PetApp::new(Some(full_pet()), LlmConfig::default(), String::new())
}

fn action(a: &PetApp) -> String {
    a.pet.as_ref().unwrap().current_action().to_string()
}

fn is_label(text: &str, act: &str, gemmi: bool) -> bool {
    get_action_labels(act, gemmi).contains(&text)
}

#[test]
fn start_up_state() {
    let a = app();
    assert_eq!(a.status_text, "부팅 완료!");
    assert_eq!(a.status_timeout_ms, 5000);
    assert_eq!(a.current_pet_name, "GP-Chan");
    assert_eq!(a.available_pets, vec!["GP-Chan".to_string(), "GEMMI-Chan".to_string()]);
    assert!(a.mouse_follow && a.show_stats);
    let none = PetApp::new(None, LlmConfig::default(), "key".to_string());
    assert_eq!(none.status_text, "로드 실패!");
    assert_eq!(none.google_api_key, "key");
}

#[test]
fn stats_refresh_every_two_seconds() {
    let mut a = app();
    assert!(!a.refresh_stats_due(2000));
    assert!(a.refresh_stats_due(2001));
    assert_eq!(a.last_update_ms, 2001);
    assert!(!a.refresh_stats_due(3000));
    assert!(a.refresh_stats_due(4002));
}

#[test]
fn typing_gauge_rises_and_falls_within_bounds() {
    let mut a = app();
    a.typing_step(1, 0);
    assert_eq!(a.typing_gauge, 50);
    assert_eq!(action(&a), "idle");
    a.typing_step(2, 100);
    assert_eq!(a.typing_gauge, 150);
    assert_eq!(action(&a), "typing");
    assert!(is_label(&a.status_text, "typing", false));
    assert_eq!(a.status_timeout_ms, 10_100);
    a.typing_step(100, 200);
    assert_eq!(a.typing_gauge, 300);
    for _ in 0..100 {
        a.typing_step(0, 300);
    }
    assert_eq!(a.typing_gauge, 100);
    assert_eq!(action(&a), "typing", "between 50 and 100 the pet keeps typing");
    for _ in 0..26 {
        a.typing_step(0, 300);
    }
    assert_eq!(a.typing_gauge, 48);
    assert_eq!(action(&a), "idle");
    for _ in 0..30 {
        a.typing_step(0, 300);
    }
    assert_eq!(a.typing_gauge, 0);
}

#[test]
fn a_dangling_pet_does_not_start_typing() {
    let mut a = app();
    a.set_pet_action("drag_dangle");
    a.typing_step(3, 0);
    assert_eq!(action(&a), "drag_dangle");
}

#[test]
fn hovering_and_the_chat_bubble() {
    let mut a = app();
    assert!(a.hover_step(1000, true, false));
    assert!(!a.hover_step(1000, false, true), "closed bubble is not interactive");
    a.llm_response_timeout_ms = 5000;
    assert!(a.hover_step(1000, false, true));
    assert_eq!(a.llm_response_timeout_ms, 11_000);
    a.llm_chat_input = "typing...".to_string();
    a.hover_step(2000, false, false);
    assert_eq!(a.llm_response_timeout_ms, 12_000);
    a.show_llm_chat = true;
    a.last_chat_input_activity_ms = 0;
    a.hover_step(60_000, false, false);
    assert!(a.show_llm_chat);
    a.hover_step(60_001, false, false);
    assert!(!a.show_llm_chat);
}

#[test]
fn mouse_passthrough_only_when_nothing_needs_the_pointer() {
    let mut a = app();
    assert!(a.mouse_passthrough(false, false));
    assert!(!a.mouse_passthrough(true, false));
    assert!(!a.mouse_passthrough(false, true));
    a.show_llm_settings = true;
    assert!(!a.mouse_passthrough(false, false));
}

#[test]
fn scrolling_tickles() {
    let mut a = app();
    a.scroll_step(true, false, 0);
    assert_eq!(action(&a), "idle");
    a.scroll_step(true, true, 1000);
    assert_eq!(action(&a), "scroll_tickle");
    assert_eq!(a.action_timeout_ms, 3500);
    assert!(is_label(&a.status_text, "scroll_tickle", false));
    a.status_text = "x".to_string();
    a.scroll_step(true, true, 2000);
    assert_eq!(a.action_timeout_ms, 4500);
    assert_eq!(a.status_text, "x", "no new words while already tickled");
    let mut b = PetApp::new(Some(pet_with(&["idle"])), LlmConfig::default(), String::new());
    b.scroll_step(true, true, 1000);
    assert_eq!(b.action_timeout_ms, 0);
}

#[test]
fn hover_entry_waves() {
    let mut a = app();
    a.hover_entry_step(true, 1000);
    assert_eq!(action(&a), "wave");
    assert_eq!(a.action_timeout_ms, 3000);
    assert!(a.was_hovering);
    a.set_pet_action("idle");
    a.hover_entry_step(true, 2000);
    assert_eq!(action(&a), "idle", "only entering the area reacts");
    let mut b = PetApp::new(Some(pet_with(&["idle", "surprise"])), LlmConfig::default(), String::new());
    b.hover_entry_step(true, 0);
    assert_eq!(action(&b), "surprise", "without a wave the pet looks surprised");
    assert!(is_label(&b.status_text, "surprise", false));
    let mut c = PetApp::new(Some(pet_with(&["idle"])), LlmConfig::default(), String::new());
    c.hover_entry_step(true, 0);
    assert_eq!(action(&c), "idle", "without surprise frames the pet stays idle");
}

fn follow(turn: Option<bool>, in_window: bool, away: bool, lost: bool) -> FollowInput {
    FollowInput { has_window: true, menu_open: false, turn, in_window, away, lost }
}

#[test]
fn following_the_mouse() {
    let mut a = app();
    assert!(a.follow_step(100, follow(Some(false), false, true, false)));
    assert_eq!(action(&a), "walk");
    assert!(!a.pet.as_ref().unwrap().facing_right());
    assert!(is_label(&a.status_text, "walk", false));
    assert!(!a.follow_step(200, follow(None, false, true, true)));
    assert_eq!(action(&a), "idle");
    assert_eq!(a.status_text, "놓침ㅋ");
    a.set_pet_action("walk");
    assert!(!a.follow_step(300, follow(Some(true), true, false, false)));
    assert_eq!(action(&a), "idle");
    assert_eq!(a.status_text, "왔는가");
    assert!(a.pet.as_ref().unwrap().facing_right());
    a.status_timeout_ms = 0;
    a.current_pet_name = "GEMMI-Chan".to_string();
    a.follow_step(400, follow(None, true, false, false));
    assert_eq!(a.status_text, "왔냐!");
    a.action_timeout_ms = 1;
    assert!(!a.follow_step(500, follow(Some(false), false, true, false)));
    assert!(a.pet.as_ref().unwrap().facing_right(), "a held action stops following");
}

#[test]
fn a_menu_stops_the_walk() {
    let mut a = app();
    a.set_pet_action("walk");
    a.status_text = "추적중...".to_string();
    let mut input = follow(None, false, true, false);
    input.menu_open = true;
    assert!(!a.follow_step(100, input));
    assert_eq!(action(&a), "idle");
    assert_eq!(a.status_text, "무엇을 할까요?");
}

fn wander(arrived: bool, right: bool, hits: bool, bounce_right: bool) -> WanderInput {
    WanderInput {
        has_window: true,
        menu_open: false,
        arrived,
        heading_right: right,
        hits_edge: hits,
        bounce_heading_right: bounce_right,
    }
}

#[test]
fn patrolling() {
    let mut a = app();
    assert_eq!(a.wander_step(0, wander(false, true, false, false)), WanderMove::Hold);
    a.wandering = true;
    assert_eq!(a.wander_step(100, wander(false, false, false, false)), WanderMove::Step);
    assert_eq!(action(&a), "walk");
    assert_eq!(a.status_text, "순찰중...");
    assert_eq!(a.status_timeout_ms, 2100);
    assert!(!a.pet.as_ref().unwrap().facing_right());
    assert_eq!(a.wander_step(200, wander(false, false, true, true)), WanderMove::Bounce);
    assert!(a.pet.as_ref().unwrap().facing_right());
    assert_eq!(a.status_text, "통! 반대로");
    assert!(a.wandering);
    assert_eq!(a.wander_step(300, wander(true, true, false, false)), WanderMove::Stop);
    assert!(!a.wandering);
    assert_eq!(action(&a), "idle");
    assert_eq!(a.status_text, "복귀완");
    a.wandering = true;
    a.action_timeout_ms = 5;
    a.set_pet_action("walk");
    assert_eq!(a.wander_step(400, wander(false, true, false, false)), WanderMove::Stop);
    assert_eq!(action(&a), "idle");
}

#[test]
fn pointer_on_the_sprite() {
    let mut a = app();
    let drag = PointerEvents { dragged: true, drag_stopped: false, double_clicked: false, clicked: false };
    a.pointer_step(100, drag);
    assert_eq!(action(&a), "drag_dangle");
    assert!(is_label(&a.status_text, "drag_dangle", false));
    let stop = PointerEvents { dragged: false, drag_stopped: true, double_clicked: false, clicked: false };
    a.pointer_step(200, stop);
    assert_eq!(action(&a), "idle");
    assert_eq!(a.status_text, "살았다!");
    let click = PointerEvents { dragged: false, drag_stopped: false, double_clicked: false, clicked: true };
    a.pointer_step(300, click);
    assert!(a.show_llm_chat);
    assert_eq!(a.status_text, "말해봐!");
    assert_eq!(a.last_chat_input_activity_ms, 300);
    a.pointer_step(400, click);
    assert!(!a.show_llm_chat);
    let double = PointerEvents { dragged: false, drag_stopped: false, double_clicked: true, clicked: true };
    a.pointer_step(500, double);
    assert_eq!(a.pending_action.as_deref(), Some("bonk"));
    assert!(!a.show_llm_chat);
}

#[test]
fn chatting_with_the_model() {
    let mut a = app();
    assert_eq!(a.system_prompt_file(), Some("GPchan.txt"));
    assert_eq!(a.chat_send_pressed(1000), ChatSend::Nothing);
    assert_eq!(a.last_chat_input_activity_ms, 1000);
    a.llm_chat_input = "hello\n\n".to_string();
    a.strip_submitted_newlines();
    assert_eq!(a.llm_chat_input, "hello");
    assert_eq!(a.chat_send_pressed(2000), ChatSend::NeedsPrompt);
    let request = a.send_chat(2000, "You are GP-Chan.");
    assert_eq!(request.messages.len(), 2);
    assert_eq!(request.messages[0].role, "system");
    assert_eq!(request.messages[0].content, "You are GP-Chan.");
    assert_eq!(request.messages[1].role, "user");
    assert_eq!(request.messages[1].content, "hello");
    assert!(request.api_key.is_none());
    assert!(a.is_llm_thinking);
    assert_eq!(a.llm_chat_input, "");
    assert_eq!(a.llm_response_text, "생각 중...");
    assert_eq!(a.llm_response_timeout_ms, 62_000);
    a.receive_chat_reply(5000, Ok("Hi **there**".to_string()));
    assert!(!a.is_llm_thinking);
    assert_eq!(a.llm_response_text, "Hi **there**");
    assert_eq!(a.llm_response_timeout_ms, 15_000);
    assert_eq!(a.llm_chat_history.len(), 3);
    assert_eq!(a.llm_chat_history[2].role, "assistant");
    assert_eq!(action(&a), "wave");
    a.llm_chat_input = "again".to_string();
    assert_eq!(a.chat_send_pressed(6000), ChatSend::Ready);
    a.llm_config.provider = LlmProvider::Google;
    a.google_api_key = "g-key".to_string();
    let r2 = a.send_chat(6000, "");
    assert_eq!(r2.messages.len(), 4);
    assert_eq!(r2.api_key.as_deref(), Some("g-key"));
    a.receive_chat_reply(7000, Err("timeout".to_string()));
    assert_eq!(a.llm_response_text, "Error: timeout");
    assert_eq!(action(&a), "pout");
    assert_eq!(a.llm_chat_history.len(), 4);
    a.llm_chat_input = "later".to_string();
    assert_eq!(a.chat_send_pressed(6000 + 1_800_001), ChatSend::NeedsPrompt, "an idle half hour starts afresh");
    assert!(a.llm_chat_history.is_empty());
}

#[test]
fn system_prompt_files_per_pet() {
    let mut a = app();
    a.current_pet_name = "GEMMI-Chan".to_string();
    assert_eq!(a.system_prompt_file(), Some("gemmi.txt"));
    a.current_pet_name = "Other".to_string();
    assert_eq!(a.system_prompt_file(), None);
    a.llm_chat_input = "hi".to_string();
    a.chat_send_pressed(0);
    let r = a.send_chat(0, "");
    assert_eq!(r.messages.len(), 1, "no prompt, no system message");
}

#[test]
fn lm_studio_model_list() {
    let mut a = app();
    assert!(a.model_fetch_due(10));
    assert!(a.fetching_models);
    assert!(!a.model_fetch_due(50_000), "a fetch is under way");
    a.receive_models(vec!["qwen".to_string(), "llama".to_string()]);
    assert!(!a.fetching_models);
    assert_eq!(a.llm_config.lm_studio_model, "qwen");
    assert!(!a.model_fetch_due(30_010));
    assert!(a.model_fetch_due(30_011));
    a.llm_config.lm_studio_model = "llama".to_string();
    a.receive_models(vec!["mistral".to_string()]);
    assert_eq!(a.llm_config.lm_studio_model, "llama");
    a.llm_config.provider = LlmProvider::Google;
    assert!(!a.model_fetch_due(100_000));
}

#[test]
fn switching_pets() {
    let mut a = app();
    a.llm_chat_input = "hi".to_string();
    a.chat_send_pressed(0);
    a.send_chat(0, "p");
    assert!(!a.needs_pet_switch("GP-Chan"));
    assert!(a.needs_pet_switch("GEMMI-Chan"));
    a.switch_pet("GEMMI-Chan", None);
    assert_eq!(a.current_pet_name, "GP-Chan", "a pet that did not load is no switch");
    a.switch_pet("GEMMI-Chan", Some(pet_named("GEMMI-Chan", &["idle"])));
    assert_eq!(a.current_pet_name, "GEMMI-Chan");
    assert!(a.llm_chat_history.is_empty());
    assert!(!a.is_llm_thinking);
    assert_eq!(a.llm_response_timeout_ms, 0);
    a.announce_pet_switch(1000, "GEMMI-Chan");
    assert_eq!(a.status_text, "GEMMI-Chan 로 전환!");
    assert_eq!(a.status_timeout_ms, 11_000);
}

#[test]
fn requested_actions_and_their_time() {
    let mut a = app();
    a.pending_action = Some("bonk".to_string());
    a.apply_pending_action(1000);
    assert!(a.pending_action.is_none());
    assert_eq!(action(&a), "bonk");
    assert_eq!(a.action_timeout_ms, 6000);
    assert!(is_label(&a.status_text, "bonk", false));
    a.action_timeout_step(6000);
    assert_eq!(action(&a), "bonk");
    a.action_timeout_step(6001);
    assert_eq!(action(&a), "idle");
    assert_eq!(a.action_timeout_ms, 0);
    a.set_pet_action("typing");
    a.action_timeout_ms = 10;
    a.action_timeout_step(20);
    assert_eq!(action(&a), "typing");
    assert_eq!(a.action_timeout_ms, 0);
}

#[test]
fn initiative_of_an_idle_pet() {
    let mut a = PetApp::new(Some(pet_with(&["idle", "think"])), LlmConfig::default(), String::new());
    assert_eq!(a.initiative_step(8000, true), Initiative::Nothing);
    assert_eq!(a.initiative_step(8001, true), Initiative::Nothing);
    assert_eq!(a.last_auto_behavior_ms, 8001);
    assert_eq!(action(&a), "think");
    assert!(a.action_timeout_ms >= 11_001 && a.action_timeout_ms < 15_001);
    let mut w = PetApp::new(Some(pet_with(&["idle", "walk"])), LlmConfig::default(), String::new());
    assert_eq!(w.initiative_step(9000, true), Initiative::Patrol);
    assert!(w.wandering);
    assert_eq!(action(&w), "walk");
    let mut n = PetApp::new(Some(pet_with(&["idle"])), LlmConfig::default(), String::new());
    assert_eq!(n.initiative_step(9000, true), Initiative::EndFrame);
    let mut busy = app();
    busy.typing_gauge = 2;
    assert_eq!(busy.initiative_step(9000, true), Initiative::Nothing);
    assert_eq!(busy.last_auto_behavior_ms, 0);
}

#[test]
fn reactions_to_the_load() {
    let mut a = app();
    a.last_update_ms = 20_000;
    a.status_timeout_ms = 0;
    let cpu = ResourceLoad { cpu_high: true, ram_high: true, gpu_high: false, vram_high: false };
    a.situation_step(20_050, cpu, 12, 0);
    assert_eq!(action(&a), "cheer");
    assert_eq!(a.status_timeout_ms, 30_050);
    let before = a.status_text.clone();
    a.situation_step(20_060, cpu, 12, 0);
    assert_eq!(a.status_text, before, "the pet finishes its words first");
    a.status_timeout_ms = 0;
    a.situation_step(20_200, cpu, 12, 0);
    assert_eq!(a.status_text, before, "only right after a refresh");
    let vram = ResourceLoad { cpu_high: false, ram_high: false, gpu_high: false, vram_high: true };
    a.situation_step(20_099, vram, 12, 0);
    assert_eq!(action(&a), "pout");
}

#[test]
fn new_key_presses_are_keys_not_held_before() {
    assert_eq!(count_new_presses(&vec![1, 2, 3], &vec![2]), 2);
    assert_eq!(count_new_presses(&vec![], &vec![2]), 0);
    assert_eq!(count_new_presses(&vec![5, 5], &vec![]), 2);
    assert_eq!(count_new_presses(&vec![4], &vec![4, 7]), 0);
}

#[test]
fn the_llm_bubble_shows_the_reply_or_the_thinking_notice() {
    let mut a = app();
    assert!(a.llm_bubble(0).is_none());
    a.show_llm_chat = true;
    let b = a.llm_bubble(0).unwrap();
    assert!(!b.show_response);
    a.llm_response_text = "answer".to_string();
    a.llm_response_timeout_ms = 100;
    let b = a.llm_bubble(50).unwrap();
    assert!(b.show_response);
    assert_eq!(b.text, "answer");
    a.is_llm_thinking = true;
    assert_eq!(a.llm_bubble(500).unwrap().text, "생각 중...");
}

#[test]
fn held_actions_last_a_random_time() {
    let mut holds = std::collections::BTreeSet::new();
    for _ in 0..100 {
        let mut a = PetApp::new(Some(pet_with(&["idle", "think"])), LlmConfig::default(), String::new());
        a.initiative_step(10_000, true);
        assert!(a.action_timeout_ms >= 13_000 && a.action_timeout_ms < 17_000);
        holds.insert(a.action_timeout_ms);
    }
    assert!(holds.len() > 1);
}

#[test]
fn an_idle_pet_may_fall_asleep_only_at_night() {
    assert!(falls_asleep(23, 0, true));
    assert!(falls_asleep(5, 0, true));
    assert!(!falls_asleep(6, 0, true));
    assert!(!falls_asleep(22, 0, true));
    assert!(!falls_asleep(2, 1, true));
    assert!(!falls_asleep(2, 0, false));
    let calm = ResourceLoad { cpu_high: false, ram_high: false, gpu_high: false, vram_high: false };
    let mut day = app();
    day.status_timeout_ms = 0;
    day.situation_step(50, calm, 14, 0);
    assert_eq!(action(&day), "idle");
    let mut night = app();
    night.status_timeout_ms = 0;
    night.situation_step(50, calm, 1, 0);
    assert_eq!(action(&night), "sleep");
    assert_eq!(night.status_timeout_ms, 10_050);
    let mut unlucky = app();
    unlucky.status_timeout_ms = 0;
    unlucky.situation_step(50, calm, 1, 7);
    assert_eq!(action(&unlucky), "idle");
    let mut live = app();
    live.status_timeout_ms = 0;
    live.react_to_situation(50, calm);
    assert!(action(&live) == "idle" || action(&live) == "sleep");
}

#[test]
fn a_requested_action_is_played_in_its_frame() {
    let mut a = app();
    a.last_update_ms = 20_000;
    a.status_timeout_ms = 0;
    a.pending_action = Some("wave".to_string());
    let cpu = ResourceLoad { cpu_high: true, ram_high: false, gpu_high: false, vram_high: false };
    assert_eq!(a.finish_frame(20_050, true, cpu), Initiative::Nothing);
    assert_eq!(action(&a), "wave");
    assert!(a.pending_action.is_none());
    assert_eq!(a.action_timeout_ms, 25_050);
    assert!(is_label(&a.status_text, "wave", false));
}

#[test]
fn a_double_click_bonks_in_that_frame() {
    let mut a = app();
    let double = PointerEvents { dragged: false, drag_stopped: false, double_clicked: true, clicked: true };
    a.pointer_step(3000, double);
    let calm = ResourceLoad { cpu_high: false, ram_high: false, gpu_high: false, vram_high: false };
    assert_eq!(a.finish_frame(3000, true, calm), Initiative::Nothing);
    assert_eq!(action(&a), "bonk");
    assert_eq!(a.action_timeout_ms, 8000);
}

#[test]
fn the_end_of_a_frame_without_requests() {
    let cpu = ResourceLoad { cpu_high: true, ram_high: false, gpu_high: false, vram_high: false };
    let mut a = app();
    a.last_update_ms = 7950;
    assert_eq!(a.finish_frame(8000, true, cpu), Initiative::Nothing);
    assert_eq!(action(&a), "cheer");
    assert_eq!(a.status_timeout_ms, 18_000);
    let mut n = PetApp::new(Some(pet_with(&["idle", "bonk"])), LlmConfig::default(), String::new());
    n.last_update_ms = 9000;
    n.status_timeout_ms = 0;
    assert_eq!(n.finish_frame(9050, true, cpu), Initiative::EndFrame);
    assert_eq!(n.last_auto_behavior_ms, 9050);
    assert_eq!(n.status_timeout_ms, 0, "the frame ends before the reaction");
    let mut h = app();
    h.set_pet_action("wave");
    h.action_timeout_ms = 100;
    h.last_auto_behavior_ms = 1000;
    assert_eq!(h.finish_frame(200, true, cpu), Initiative::Nothing);
    assert_eq!(action(&h), "idle");
    assert_eq!(h.action_timeout_ms, 0);
}
