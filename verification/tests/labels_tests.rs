use rust_pets::labels::{get_action_label, get_action_labels, get_menu_action_label, get_resource_label};

#[test]
fn action_labels_per_pet() {
    assert_eq!(get_action_labels("idle", true), vec!["나 불렀어?", "심심해", "놀아줘"]);
    assert_eq!(get_action_labels("idle", false), vec!["멍...", "생각중", "대기중"]);
    assert_eq!(get_action_labels("half_right", true), vec!["반만 맞음"]);
    assert_eq!(get_action_labels("bonk", false), vec!["아야", "딱콩!", "너무해"]);
    assert_eq!(get_action_labels("scroll_tickle", false), vec!["아ㅋㅋ", "간지러", "그만ㅋㅋ"]);
    assert!(get_action_labels("dance", true).is_empty());
    assert!(get_action_labels("", false).is_empty());
}

#[test]
fn every_known_action_has_labels_for_both_pets() {
    let actions = [
        "idle", "wave", "think", "typing", "cheer", "sit", "sleep", "pout", "surprise", "sweep",
        "walk", "half_right", "welcome_agi", "agi_box", "drag_dangle", "scroll_tickle", "bonk",
    ];
    for a in actions.iter() {
        assert!(!get_action_labels(a, true).is_empty(), "{}", a);
        assert!(!get_action_labels(a, false).is_empty(), "{}", a);
    }
}

#[test]
fn menu_label_is_the_first_label_or_the_name() {
    assert_eq!(get_menu_action_label("wave", false), "ㅎㅇ");
    assert_eq!(get_menu_action_label("wave", true), "야호!");
    assert_eq!(get_menu_action_label("dance", true), "dance");
}

#[test]
fn action_label_is_one_of_the_labels() {
    for _ in 0..50 {
        let l = get_action_label("walk", false);
        assert!(get_action_labels("walk", false).contains(&l.as_str()));
    }
    assert_eq!(get_action_label("dance", false), "dance");
}

#[test]
fn resource_label_is_one_of_the_situation_labels() {
    let cpu = [
        "CPU 풀가동! 힘내요!",
        "연산량이 엄청나네요",
        "CPU가 열일 중입니다!",
        "성능 한계 돌파!",
        "CPU 온도가 높아요!",
    ];
    for _ in 0..50 {
        let l = get_resource_label("cpu_high", false);
        assert!(cpu.contains(&l.as_str()), "{}", l);
    }
    for _ in 0..20 {
        let l = get_resource_label("unknown", true);
        assert!(["...", "흠?", "어라?"].contains(&l.as_str()));
    }
    let night = get_resource_label("night", true);
    assert!([
        "졸린데... 아직 안 자?",
        "나만 두고 잘 거야?",
        "밤샘은 피부에 안 좋대!",
        "하암... 잠 안 와?",
        "언제 잘 거야? 기다릴게"
    ]
    .contains(&night.as_str()));
}

#[test]
fn labels_are_picked_at_random() {
    let mut seen = std::collections::BTreeSet::new();
    for _ in 0..200 {
        seen.insert(get_action_label("walk", true));
    }
    assert_eq!(seen.len(), 3);
    let mut night = std::collections::BTreeSet::new();
    for _ in 0..200 {
        night.insert(get_resource_label("night", false));
    }
    assert!(night.len() > 1);
}
