use rust_pets::choice::{eligible_auto_actions, pick_weighted, sum_weights};
use rust_pets::config::{Action, EmbeddedPet, Manifest, PetConfig};
use rust_pets::pet::PetState;


fn frames(counts: &[usize]) -> Vec<Vec<(u32, u32, Vec<u8>)>> {
    counts.iter().map(|c| vec![(1u32, 1u32, vec![0u8, 0, 0, 255]); *c]).collect()
}

fn pet_with(actions: &[&str]) -> PetState {
    let config = PetConfig {
        _name: "GP-Chan".to_string(),
        manifest: Manifest {
            cell_size: 160,
            actions: actions
                .iter()
                .map(|n| {
                    (
                        n.to_string(),
                        Action { _display_name: n.to_string(), frames: vec!["a.png".to_string()], frame_duration_ms: 100 },
                    )
                })
                .collect(),
        },
        dir: EmbeddedPet::GpChan,
    };
    let decoded = frames(&vec![1; actions.len()]);
    PetState::new(config, &decoded)
}

#[test]
fn eligible_choices_are_those_with_frames_in_order() {
    let p = pet_with(&["idle", "walk", "think", "bonk", "welcome_agi"]);
    assert_eq!(eligible_auto_actions(&p), vec![("think", 4), ("walk", 3), ("welcome_agi", 1)]);
    let none = pet_with(&["idle"]);
    assert!(eligible_auto_actions(&none).is_empty());
    let all = pet_with(&[
        "think", "wave", "cheer", "sit", "sweep", "pout", "surprise", "walk", "half_right", "welcome_agi",
    ]);
    assert_eq!(sum_weights(&eligible_auto_actions(&all)), 24);
}

#[test]
fn picks_follow_the_weight_bands() {
    let choices = vec![("think", 4u64), ("walk", 3u64), ("welcome_agi", 1u64)];
    assert_eq!(sum_weights(&choices), 8);
    let picks: Vec<usize> = (0..8).map(|p| pick_weighted(&choices, p)).collect();
    assert_eq!(picks, vec![0, 0, 0, 0, 1, 1, 1, 2]);
}
