//! The registry of the platform's programs: a list of named entries, each
//! with the program's address and version, looked up by name.

use crate::keys::{is_same_key, same_key};
use crate::text::{text_equal, text_fits, text_in_bounds};
use anchor_lang::prelude::Pubkey;
use vstd::prelude::*;

verus! {

/// The longest name of a program, in bytes.
pub const MAX_NAME_LEN: usize = 32;

/// The longest version of a program, in bytes.
pub const MAX_VERSION_LEN: usize = 16;

/// Why an operation on the registry is turned down.
#[derive(Clone, Copy, Debug, PartialEq, Eq, Structural)]
pub enum RegistryError {
    /// The caller is not the registry's authority.
    Unauthorized,
    /// No program is registered under the name.
    ProgramNotFound,
    /// The name is empty or longer than 32 bytes.
    InvalidProgramName,
    /// The version is empty or longer than 16 bytes.
    InvalidVersion,
}

/// One registered program.
#[derive(Debug, PartialEq, Eq)]
pub struct ProgramEntry {
    pub name: String,
    pub program_id: Pubkey,
    pub version: String,
}

/// The registry: its entries in the order in which their names were first
/// registered.
#[derive(Debug, PartialEq, Eq)]
pub struct ProgramRegistry {
    /// Who may register programs.
    pub authority: Pubkey,
    pub programs: Vec<ProgramEntry>,
    pub bump: u8,
}

impl Clone for ProgramEntry {
    fn clone(&self) -> (copy: Self)
        ensures
            copy == *self,
    {
        ProgramEntry {
            name: self.name.clone(),
            program_id: self.program_id,
            version: self.version.clone(),
        }
    }
}

/// The place of the first entry named `name` among `entries`, or their
/// number if there is none.
pub open spec fn position_of(entries: Seq<ProgramEntry>, name: Seq<char>) -> int
    decreases entries.len(),
{
    if entries.len() == 0 {
        0
    } else if entries.first().name@ == name {
        0
    } else {
        1 + position_of(entries.drop_first(), name)
    }
}

/// The place that `position_of` gives is within the entries or just behind
/// them; the entry there bears the name, and none before it does.
pub proof fn lemma_position_of(entries: Seq<ProgramEntry>, name: Seq<char>)
    ensures
        0 <= position_of(entries, name) <= entries.len(),
        position_of(entries, name) < entries.len() ==> entries[position_of(entries, name)].name@
            == name,
        forall|i: int| 0 <= i < position_of(entries, name) ==> (#[trigger] entries[i]).name@ != name,
    decreases entries.len(),
{
    if entries.len() > 0 && entries.first().name@ != name {
        let rest = entries.drop_first();
        lemma_position_of(rest, name);
        assert forall|i: int| 0 <= i < position_of(entries, name) implies (
        #[trigger] entries[i]).name@ != name by {
            if i > 0 {
                assert(entries[i] == rest[i - 1]);
            }
        }
        if position_of(entries, name) < entries.len() {
            assert(entries[position_of(entries, name)] == rest[position_of(rest, name)]);
        }
    }
}

/// A place within the entries whose entry bears the name, while none before
/// it does, is the place that `position_of` gives; and so is the number of
/// entries if none of them bears the name.
pub proof fn lemma_position_is(entries: Seq<ProgramEntry>, name: Seq<char>, place: int)
    requires
        0 <= place <= entries.len(),
        place < entries.len() ==> entries[place].name@ == name,
        forall|i: int| 0 <= i < place ==> (#[trigger] entries[i]).name@ != name,
    ensures
        position_of(entries, name) == place,
{
    lemma_position_of(entries, name);
    let found = position_of(entries, name);
    if found < place {
        assert(entries[found].name@ == name);
    } else if found > place {
        assert(entries[place].name@ == name);
    }
}

/// No two entries bear the same name.
pub open spec fn names_distinct(entries: Seq<ProgramEntry>) -> bool {
    forall|i: int, j: int|
        0 <= i < j < entries.len() ==> (#[trigger] entries[i]).name@ != (#[trigger] entries[j]).name@
}

impl ProgramRegistry {
    /// Whether some entry bears the name.
    pub open spec fn registers(self, name: Seq<char>) -> bool {
        position_of(self.programs@, name) < self.programs@.len()
    }

    /// The place of the entry named `name`, or the number of entries if
    /// there is none.
    fn find(&self, name: &str) -> (place: usize)
        ensures
            place == position_of(self.programs@, name@),
            place <= self.programs@.len(),
    {
        let mut place: usize = 0;
        while place < self.programs.len()
            invariant
                place <= self.programs@.len(),
                forall|i: int| 0 <= i < place ==> (#[trigger] self.programs@[i]).name@ != name@,
            decreases self.programs@.len() - place,
        {
            if text_equal(self.programs[place].name.as_str(), name) {
                proof {
                    lemma_position_is(self.programs@, name@, place as int);
                }
                return place;
            }
            place = place + 1;
        }
        proof {
            lemma_position_is(self.programs@, name@, place as int);
        }
        place
    }

    /// Looks a program up by name.
    pub fn get_program_entry(&self, name: &str) -> (found: Result<&ProgramEntry, RegistryError>)
        ensures
            self.registers(name@) ==> found == Ok::<&ProgramEntry, RegistryError>(
                &self.programs@[position_of(self.programs@, name@)],
            ),
            !self.registers(name@) ==> found == Err::<&ProgramEntry, RegistryError>(
                RegistryError::ProgramNotFound,
            ),
    {
        let place = self.find(name);
        if place < self.programs.len() {
            Ok(&self.programs[place])
        } else {
            Err(RegistryError::ProgramNotFound)
        }
    }

    /// Whether a program is registered under the name.
    pub fn has_program(&self, name: &str) -> (registered: bool)
        ensures
            registered == self.registers(name@),
    {
        self.find(name) < self.programs.len()
    }

    /// How many programs are registered.
    pub fn program_count(&self) -> (count: usize)
        ensures
            count == self.programs@.len(),
    {
        self.programs.len()
    }
}

/// Sets up an empty registry.
pub fn initialize_registry(authority: Pubkey, bump: u8) -> (registry: ProgramRegistry)
    ensures
        registry.authority == authority,
        registry.programs@.len() == 0,
        registry.bump == bump,
        names_distinct(registry.programs@),
{
    ProgramRegistry { authority, programs: Vec::new(), bump }
}

/// Why a registration is turned down, if it is: the first check that fails.
pub open spec fn registration_rejection(
    registry: ProgramRegistry,
    authority: Pubkey,
    name: Seq<char>,
    version: Seq<char>,
) -> Option<RegistryError> {
    if !is_same_key(authority, registry.authority) {
        Some(RegistryError::Unauthorized)
    } else if !text_fits(name, MAX_NAME_LEN as nat) {
        Some(RegistryError::InvalidProgramName)
    } else if !text_fits(version, MAX_VERSION_LEN as nat) {
        Some(RegistryError::InvalidVersion)
    } else {
        None
    }
}

/// Registers a program under a name, or gives the entry of that name a new
/// address and version.
///
/// Only the registry's authority registers. The name must hold 1 to 32
/// bytes, the version 1 to 16. A new name is entered behind the others; no
/// other entry changes, and names that were distinct stay so.
pub fn register_program(
    registry: &mut ProgramRegistry,
    authority: Pubkey,
    name: String,
    program_id: Pubkey,
    version: String,
) -> (registered: Result<(), RegistryError>)
    ensures
        final(registry).authority == old(registry).authority,
        final(registry).bump == old(registry).bump,
        names_distinct(old(registry).programs@) ==> names_distinct(final(registry).programs@),
        match registration_rejection(*old(registry), authority, name@, version@) {
            Some(error) => {
                &&& registered == Err::<(), RegistryError>(error)
                &&& final(registry).programs@ == old(registry).programs@
            },
            None => {
                let place = position_of(old(registry).programs@, name@);
                &&& registered is Ok
                &&& final(registry).programs@.len() == if old(registry).registers(name@) {
                    old(registry).programs@.len()
                } else {
                    old(registry).programs@.len() + 1
                }
                &&& final(registry).programs@[place].name@ == name@
                &&& final(registry).programs@[place].program_id == program_id
                &&& final(registry).programs@[place].version@ == version@
                &&& forall|i: int|
                    0 <= i < old(registry).programs@.len() && i != place ==> #[trigger] final(registry).programs@[i]
                        == old(registry).programs@[i]
                &&& position_of(final(registry).programs@, name@) == place
                &&& final(registry).registers(name@)
            },
        },
{
    if !same_key(&authority, &registry.authority) {
        return Err(RegistryError::Unauthorized);
    }
    if !text_in_bounds(name.as_str(), MAX_NAME_LEN) {
        return Err(RegistryError::InvalidProgramName);
    }
    if !text_in_bounds(version.as_str(), MAX_VERSION_LEN) {
        return Err(RegistryError::InvalidVersion);
    }
    let place = registry.find(name.as_str());
    proof {
        lemma_position_of(registry.programs@, name@);
    }
    let ghost before = registry.programs@;
    let ghost wanted = name@;
    let entry = ProgramEntry { name, program_id, version };
    if place < registry.programs.len() {
        registry.programs.set(place, entry);
    } else {
        registry.programs.push(entry);
    }
    proof {
        assert forall|i: int| 0 <= i < place implies (#[trigger] registry.programs@[i]).name@
            != wanted by {
            assert(registry.programs@[i] == before[i]);
        }
        lemma_position_is(registry.programs@, wanted, place as int);
        if names_distinct(before) {
            assert forall|i: int, j: int| 0 <= i < j < registry.programs@.len() implies (
            #[trigger] registry.programs@[i]).name@ != (#[trigger] registry.programs@[j]).name@ by {
                if i != place && i < before.len() {
                    assert(registry.programs@[i] == before[i]);
                }
                if j != place && j < before.len() {
                    assert(registry.programs@[j] == before[j]);
                }
            }
        }
    }
    Ok(())
}

/// Looks up the address of the program registered under a name.
pub fn get_program_address(registry: &ProgramRegistry, name: String) -> (address: Result<
    Pubkey,
    RegistryError,
>)
    ensures
        registry.registers(name@) ==> address == Ok::<Pubkey, RegistryError>(
            registry.programs@[position_of(registry.programs@, name@)].program_id,
        ),
        !registry.registers(name@) ==> address == Err::<Pubkey, RegistryError>(
            RegistryError::ProgramNotFound,
        ),
{
    match registry.get_program_entry(name.as_str()) {
        Ok(entry) => Ok(entry.program_id),
        Err(error) => Err(error),
    }
}

} // verus!
