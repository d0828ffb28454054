use rust_pets::config::{available_pet_names, Action, EmbeddedPet, Manifest, PetConfig};

fn action(ms: u64, frames: usize) -> Action {
    Action {
        _display_name: "action".to_string(),
        frames: (0..frames).map(|i| format!("frame{}.png", i)).collect(),
        frame_duration_ms: ms,
    }
}

fn manifest(names: &[&str]) -> Manifest {
    Manifest {
        cell_size: 160,
        actions: names.iter().map(|n| (n.to_string(), action(100, 2))).collect(),
    }
}

#[test]
fn embedded_pets_are_found_by_name() {
    assert_eq!(EmbeddedPet::for_name("GP-Chan"), Some(EmbeddedPet::GpChan));
    assert_eq!(EmbeddedPet::for_name("GEMMI-Chan"), Some(EmbeddedPet::GemmiChan));
    assert_eq!(EmbeddedPet::for_name("gp-chan"), None);
    assert_eq!(EmbeddedPet::for_name(""), None);
    assert_eq!(EmbeddedPet::GpChan.name(), "GP-Chan");
    assert_eq!(EmbeddedPet::GemmiChan.name(), "GEMMI-Chan");
}

#[test]
fn every_offered_pet_is_embedded() {
    let names = available_pet_names();
    assert_eq!(names, vec!["GP-Chan".to_string(), "GEMMI-Chan".to_string()]);
    for n in names.iter() {
        let pet = EmbeddedPet::for_name(n).unwrap();
        assert_eq!(pet.name(), n.as_str());
    }
}

#[test]
fn load_embedded_needs_a_known_name_and_a_manifest() {
    let m = manifest(&["idle"]);
    let c = PetConfig::load_embedded("GEMMI-Chan", Some(m.clone())).unwrap();
    assert_eq!(c._name, "GEMMI-Chan");
    assert_eq!(c.dir, EmbeddedPet::GemmiChan);
    assert_eq!(c.manifest.cell_size, 160);
    assert!(PetConfig::load_embedded("Other", Some(m)).is_none());
    assert!(PetConfig::load_embedded("GP-Chan", None).is_none());
}

#[test]
fn manifest_lookup_and_names() {
    let m = manifest(&["walk", "idle", "bonk"]);
    assert!(m.contains_action("idle"));
    assert!(!m.contains_action("sleep"));
    assert_eq!(m.get("walk").unwrap().frame_duration_ms, 100);
    assert!(m.get("sleep").is_none());
    assert_eq!(m.action_names(), vec!["walk", "idle", "bonk"]);
    assert_eq!(m.sorted_action_names(), vec!["bonk", "idle", "walk"]);
    assert!(m.has_unique_names());
    assert!(!manifest(&["idle", "walk", "idle"]).has_unique_names());
    assert!(manifest(&[]).has_unique_names());
}
