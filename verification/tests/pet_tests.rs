use rust_pets::config::{Action, EmbeddedPet, Manifest, PetConfig};
use rust_pets::pet::PetState;


fn frames(counts: &[usize]) -> Vec<Vec<(u32, u32, Vec<u8>)>> {
    counts.iter().map(|c| vec![(1u32, 1u32, vec![0u8, 0, 0, 255]); *c]).collect()
}

fn action(ms: u64, frames: usize) -> Action {
    Action {
        _display_name: "action".to_string(),
        frames: (0..frames).map(|i| format!("frame{}.png", i)).collect(),
        frame_duration_ms: ms,
    }
}

fn config(actions: &[(&str, u64, usize)]) -> PetConfig {
    PetConfig {
        _name: "GP-Chan".to_string(),
        manifest: Manifest {
            cell_size: 160,
            actions: actions
                .iter()
                .map(|(n, ms, f)| (n.to_string(), action(*ms, *f)))
                .collect(),
        },
        dir: EmbeddedPet::GpChan,
    }
}

fn pet() -> PetState {
    let c = config(&[("idle", 200, 3), ("wave", 100, 2), ("sleep", 500, 4)]);
    // idle: 3 frames decoded, wave: 2, sleep: none
    PetState::new(c, &frames(&[3, 2, 0]))
}

#[test]
fn new_pet_starts_idle_facing_right() {
    let p = pet();
    assert_eq!(p.current_action(), "idle");
    assert_eq!(p.frame_index(), 0);
    assert!(p.facing_right());
    assert!(p.has_frames("idle"));
    assert!(p.has_frames("wave"));
    assert!(!p.has_frames("sleep"));
    assert_eq!(p.frame_count("idle"), 3);
    assert_eq!(p.frame_count("wave"), 2);
    assert_eq!(p.frame_count("sleep"), 0);
    assert_eq!(p.config().manifest.cell_size, 160);
}

#[test]
fn missing_decode_counts_mean_no_frames() {
    let c = config(&[("idle", 200, 3), ("wave", 100, 2)]);
    let p = PetState::new(c, &frames(&[1]));
    assert!(p.has_frames("idle"));
    assert!(!p.has_frames("wave"));
}

#[test]
fn set_action_falls_back_to_idle() {
    let mut p = pet();
    p.set_action("wave");
    assert_eq!(p.current_action(), "wave");
    p.set_action("sleep");
    assert_eq!(p.current_action(), "idle");
    p.set_action("unknown");
    assert_eq!(p.current_action(), "idle");
}

#[test]
fn set_action_resets_the_frame_only_on_change() {
    let mut p = pet();
    p.update_animation(300);
    assert_eq!(p.frame_index(), 1);
    p.set_action("idle");
    assert_eq!(p.frame_index(), 1);
    p.set_action("wave");
    assert_eq!(p.frame_index(), 0);
}

#[test]
fn animation_advances_after_the_frame_duration_and_cycles() {
    let mut p = pet();
    p.update_animation(200);
    assert_eq!(p.frame_index(), 0, "exactly the duration is not more than it");
    p.update_animation(201);
    assert_eq!(p.frame_index(), 1);
    p.update_animation(300);
    assert_eq!(p.frame_index(), 1, "only 99 ms since the last change");
    p.update_animation(402);
    assert_eq!(p.frame_index(), 2);
    p.update_animation(603);
    assert_eq!(p.frame_index(), 0, "three frames cycle back to the first");
    assert_eq!(p.current_texture(), Some(0));
}

#[test]
fn animation_without_frames_does_nothing() {
    let c = config(&[("idle", 200, 3)]);
    let mut p = PetState::new(c, &frames(&[0]));
    p.update_animation(10_000);
    assert_eq!(p.frame_index(), 0);
    assert_eq!(p.current_texture(), None);
}

#[test]
fn current_texture_is_the_frame_on_screen() {
    let mut p = pet();
    assert_eq!(p.current_texture(), Some(0));
    p.update_animation(1000);
    assert_eq!(p.current_texture(), Some(1));
    p.set_action("wave");
    assert_eq!(p.current_texture(), Some(0));
}

#[test]
fn turning_changes_only_the_facing() {
    let mut p = pet();
    p.set_facing_right(false);
    assert!(!p.facing_right());
    assert_eq!(p.current_action(), "idle");
}

#[test]
fn asking_twice_is_asking_once() {
    let mut once = pet();
    once.set_action("sleep");
    let mut twice = pet();
    twice.set_action("sleep");
    twice.set_action("sleep");
    assert_eq!(once.current_action(), twice.current_action());
    assert_eq!(once.frame_index(), twice.frame_index());
    let mut w = pet();
    w.set_action("wave");
    w.update_animation(500);
    w.set_action("wave");
    assert_eq!(w.current_action(), "wave");
    assert_eq!(w.frame_index(), 1);
}

fn png(width: u32, height: u32) -> Vec<u8> {
    let img = image::RgbaImage::from_pixel(width, height, image::Rgba([10, 20, 30, 255]));
    let mut buf = std::io::Cursor::new(Vec::new());
    img.write_to(&mut buf, image::ImageFormat::Png).unwrap();
    buf.into_inner()
}

#[test]
fn frames_are_decoded_from_their_bytes() {
    let files = vec![png(2, 1), b"not an image".to_vec(), png(1, 3)];
    let (decoded, _) = rust_pets::frames::decode_frames_reporting(&files);
    assert_eq!(decoded.len(), 2);
    assert_eq!((decoded[0].0, decoded[0].1), (2, 1));
    assert_eq!(decoded[0].2, vec![10, 20, 30, 255, 10, 20, 30, 255]);
    assert_eq!((decoded[1].0, decoded[1].1), (1, 3));
    assert!(rust_pets::frames::decode_rgba(b"").is_none());
}

#[test]
fn failed_frames_are_reported_by_position() {
    let files = vec![b"broken".to_vec(), png(2, 2), b"".to_vec(), png(1, 1)];
    let (decoded, failed) = rust_pets::frames::decode_frames_reporting(&files);
    assert_eq!(failed, vec![0, 2]);
    assert_eq!(decoded.len(), 2);
    assert_eq!((decoded[0].0, decoded[0].1), (2, 2));
    assert_eq!((decoded[1].0, decoded[1].1), (1, 1));
    let (none, all_failed) = rust_pets::frames::decode_frames_reporting(&vec![b"x".to_vec()]);
    assert!(none.is_empty());
    assert_eq!(all_failed, vec![0]);
}

#[test]
fn loading_counts_the_frames_that_decode() {
    let c = config(&[("idle", 200, 3), ("wave", 100, 2), ("sleep", 500, 1)]);
    let files = vec![
        vec![png(1, 1), b"broken".to_vec(), png(1, 1)],
        vec![b"broken".to_vec()],
        vec![],
    ];
    let (p, images, failures) = PetState::load(c, &files);
    assert_eq!(p.frame_count("idle"), 2);
    assert_eq!(p.frame_count("wave"), 0);
    assert_eq!(p.frame_count("sleep"), 0);
    assert_eq!(images.iter().map(|v| v.len()).collect::<Vec<_>>(), vec![2, 0, 0]);
    assert_eq!(failures, vec![vec![1], vec![0], vec![]]);
    assert_eq!(p.current_texture(), Some(0));
}
