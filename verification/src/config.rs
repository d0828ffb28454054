//! The configuration of a pet: its manifest of animated actions and the
//! embedded asset directory it comes from.

use vstd::prelude::*;
use vstd::string::*;
use crate::text::{same_text, keys_of, position_of, texts, lex_le, lex_sorted, sorted_texts};

verus! {

/// One animated action of a pet: its display name, the paths of its frame
/// images and how long each frame stays on screen.
#[derive(Debug, Clone)]
pub struct Action {
    pub _display_name: String,
    pub frames: Vec<String>,
    pub frame_duration_ms: u64,
}

/// The manifest of a pet: the size of one sprite cell and the actions by name.
///
/// The actions are kept as a list of `(name, action)` pairs; a manifest is
/// well formed when no name occurs twice (see [`Manifest::wf`]).
#[derive(Debug, Clone)]
pub struct Manifest {
    pub cell_size: u32,
    pub actions: Vec<(String, Action)>,
}

impl Manifest {
    /// The names of the actions, in manifest order.
    pub open spec fn names(&self) -> Seq<Seq<char>> {
        keys_of(self.actions@)
    }

    /// No action name occurs twice.
    pub open spec fn wf(&self) -> bool {
        forall|i: int, j: int|
            0 <= i < j < self.names().len() ==> #[trigger] self.names()[i] != #[trigger] self.names()[j]
    }

    /// The position of the action called `name`, if the manifest has one.
    pub open spec fn action_position(&self, name: Seq<char>) -> Option<int> {
        position_of(self.names(), name)
    }

    /// Finds the action called `name`.
    pub fn get(&self, name: &str) -> (r: Option<&Action>)
        ensures
            match self.action_position(name@) {
                Some(i) => r == Some(&self.actions@[i].1),
                None => r is None,
            },
    {
        match crate::text::position_in(&self.actions, name) {
            Some(i) => Some(&self.actions[i].1),
            None => None,
        }
    }

    /// Whether the manifest has an action called `name`.
    pub fn contains_action(&self, name: &str) -> (r: bool)
        ensures
            r == (self.action_position(name@) is Some),
    {
        crate::text::position_in(&self.actions, name).is_some()
    }

    /// The action names, in manifest order.
    pub fn action_names(&self) -> (r: Vec<String>)
        ensures
            texts(r@) == self.names(),
    {
        let mut r: Vec<String> = Vec::new();
        let mut i: usize = 0;
        while i < self.actions.len()
            invariant
                i <= self.actions.len(),
                texts(r@) == self.names().subrange(0, i as int),
            decreases self.actions.len() - i,
        {
            let ghost before = r@;
            r.push(self.actions[i].0.clone());
            assert(texts(r@) =~= texts(before).push(self.actions@[i as int].0@));
            assert(self.names().subrange(0, i + 1) =~= self.names().subrange(0, i as int).push(
                self.names()[i as int],
            ));
            i = i + 1;
        }
        assert(self.names().subrange(0, i as int) =~= self.names());
        r
    }

    /// The action names in lexicographic order, as the action menu lists them:
    /// each name as many times as the manifest has it.
    pub fn sorted_action_names(&self) -> (r: Vec<String>)
        ensures
            lex_sorted(texts(r@)),
            texts(r@).to_multiset() == self.names().to_multiset(),
    {
        let names = self.action_names();
        sorted_texts(&names)
    }

    /// Whether no action name occurs twice.
    pub fn has_unique_names(&self) -> (r: bool)
        ensures
            r == self.wf(),
    {
        let ghost names = self.names();
        let mut j: usize = 0;
        while j < self.actions.len()
            invariant
                j <= self.actions.len(),
                names == self.names(),
                forall|a: int, b: int| 0 <= a < b < j ==> #[trigger] names[a] != #[trigger] names[b],
            decreases self.actions.len() - j,
        {
            let mut i: usize = 0;
            while i < j
                invariant
                    i <= j < self.actions.len(),
                    names == self.names(),
                    forall|a: int, b: int| 0 <= a < b < j ==> #[trigger] names[a] != #[trigger] names[b],
                    forall|a: int| 0 <= a < i ==> #[trigger] names[a] != names[j as int],
                decreases j - i,
            {
                if same_text(self.actions[i].0.as_str(), self.actions[j].0.as_str()) {
                    assert(names[i as int] == names[j as int]);
                    return false;
                }
                i = i + 1;
            }
            j = j + 1;
        }
        true
    }
}

/// In a well-formed manifest the action menu lists every action exactly once,
/// in strictly increasing order.
pub proof fn lemma_menu_lists_each_action_once(m: Manifest, menu: Seq<Seq<char>>)
    requires
        m.wf(),
        lex_sorted(menu),
        menu.to_multiset() == m.names().to_multiset(),
    ensures
        menu.no_duplicates(),
        menu.len() == m.names().len(),
        forall|i: int, j: int| 0 <= i < j < menu.len() ==> lex_le(menu[i], menu[j]) && menu[i] != menu[j],
        forall|x: Seq<char>| menu.contains(x) <==> m.names().contains(x),
{
    broadcast use vstd::seq_lib::group_to_multiset_ensures;

    let names = m.names();
    assert(names.no_duplicates()) by {
        assert forall|i: int, j: int| 0 <= i < names.len() && 0 <= j < names.len() && i != j implies names[i]
            != names[j] by {
            if i < j {
                assert(names[i] != names[j]);
            } else {
                assert(names[j] != names[i]);
            }
        }
    }
    names.lemma_multiset_has_no_duplicates();
    menu.lemma_multiset_has_no_duplicates_conv();
    vstd::seq_lib::to_multiset_len(menu);
    vstd::seq_lib::to_multiset_len(names);
    assert forall|x: Seq<char>| menu.contains(x) <==> names.contains(x) by {
        assert(menu.to_multiset().contains(x) == menu.contains(x));
        assert(names.to_multiset().contains(x) == names.contains(x));
    }
}

/// The pets whose assets are embedded in the program.
#[derive(Debug, Clone, Copy, PartialEq, Eq, Structural)]
pub enum EmbeddedPet {
    GpChan,
    GemmiChan,
}

/// The name under which each embedded pet is known.
pub open spec fn pet_name_spec(pet: EmbeddedPet) -> Seq<char> {
    match pet {
        EmbeddedPet::GpChan => "GP-Chan"@,
        EmbeddedPet::GemmiChan => "GEMMI-Chan"@,
    }
}

/// The embedded pet that a name selects: exactly the two known names do.
pub open spec fn embedded_pet_spec(name: Seq<char>) -> Option<EmbeddedPet> {
    if name == "GP-Chan"@ {
        Some(EmbeddedPet::GpChan)
    } else if name == "GEMMI-Chan"@ {
        Some(EmbeddedPet::GemmiChan)
    } else {
        None
    }
}

impl EmbeddedPet {
    /// The embedded pet called `name`, if there is one.
    pub fn for_name(name: &str) -> (r: Option<EmbeddedPet>)
        ensures
            r == embedded_pet_spec(name@),
    {
        if same_text(name, "GP-Chan") {
            Some(EmbeddedPet::GpChan)
        } else if same_text(name, "GEMMI-Chan") {
            Some(EmbeddedPet::GemmiChan)
        } else {
            None
        }
    }

    /// The name of the pet.
    pub fn name(&self) -> (r: &'static str)
        ensures
            r@ == pet_name_spec(*self),
    {
        match self {
            EmbeddedPet::GpChan => "GP-Chan",
            EmbeddedPet::GemmiChan => "GEMMI-Chan",
        }
    }
}

/// The names of the pets offered for switching, in menu order.
pub fn available_pet_names() -> (r: Vec<String>)
    ensures
        r@.len() == 2,
        r@[0]@ == "GP-Chan"@,
        r@[1]@ == "GEMMI-Chan"@,
{
    let mut v: Vec<String> = Vec::new();
    v.push(String::from_str("GP-Chan"));
    v.push(String::from_str("GEMMI-Chan"));
    v
}

/// Every pet offered for switching is one of the embedded pets, under its own name.
pub proof fn lemma_available_pets_are_embedded(names: Seq<Seq<char>>, i: int)
    requires
        names.len() == 2,
        names[0] == "GP-Chan"@,
        names[1] == "GEMMI-Chan"@,
        0 <= i < 2,
    ensures
        embedded_pet_spec(names[i]) is Some,
        pet_name_spec(embedded_pet_spec(names[i])->0) == names[i],
{
    reveal_strlit("GP-Chan");
    reveal_strlit("GEMMI-Chan");
}

/// The configuration of one pet: its name, its manifest and the embedded
/// directory its frame images are read from.
#[derive(Debug, Clone)]
pub struct PetConfig {
    pub _name: String,
    pub manifest: Manifest,
    pub dir: EmbeddedPet,
}

impl PetConfig {
    /// Builds the configuration of the embedded pet called `name` from the
    /// manifest read out of that pet's directory (a manifest maps names to
    /// actions, so no name occurs twice in it). There is none for a name
    /// that selects no embedded pet, nor when the manifest could not be read.
    pub fn load_embedded(name: &str, manifest: Option<Manifest>) -> (r: Option<PetConfig>)
        requires
            manifest matches Some(m) ==> m.wf(),
        ensures
            r matches Some(c) ==> c.manifest.wf(),
            r is Some <==> (embedded_pet_spec(name@) is Some && manifest is Some),
            r is Some ==> {
                &&& r->0._name@ == name@
                &&& Some(r->0.dir) == embedded_pet_spec(name@)
                &&& r->0.manifest == manifest->0
            },
    {
        let dir = match EmbeddedPet::for_name(name) {
            Some(d) => d,
            None => return None,
        };
        let manifest = match manifest {
            Some(m) => m,
            None => return None,
        };
        Some(PetConfig { _name: String::from_str(name), manifest, dir })
    }
}

} // verus!
