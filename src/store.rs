use vstd::prelude::*;
use crate::settings::{
    default_settings, default_view, field_of, flip, parse_field, recolor, Settings,
    SettingsView,
};

verus! {

/// What reading the persisted settings record produced.
#[derive(Debug)]
pub enum StoredSettings {
    /// The durable store could not be opened.
    Unavailable,
    /// The store holds no value under the settings key.
    Missing,
    /// A value is there but does not decode into settings.
    Malformed,
    /// A value that decoded into settings.
    Decoded(Settings),
}

/// Failures reported by the settings operations.
#[derive(Debug)]
pub enum StoreError {
    /// The durable write failed; the message is the storage layer's.
    Persistence(String),
    /// The identifier names none of the four sources.
    UnknownField,
    /// A holder of the shared store panicked while it held it.
    Poisoned,
}

/// The settings that a read of durable storage yields: the decoded value,
/// or the default when the store is unavailable, empty or corrupt.
pub open spec fn loaded(stored: StoredSettings) -> SettingsView {
    match stored {
        StoredSettings::Decoded(s) => s@,
        _ => default_view(),
    }
}

/// The settings in force after a replace by `new`, depending on whether
/// the durable write succeeded.
pub open spec fn replaced(cur: SettingsView, new: SettingsView, persisted: bool) -> SettingsView {
    if persisted {
        new
    } else {
        cur
    }
}

/// Turns what was read from durable storage into settings, falling back
/// to the default on a miss or on corrupt data; never fails.
pub fn settings_from_storage(stored: StoredSettings) -> (r: Settings)
    ensures
        r@ == loaded(stored),
{
    match stored {
        StoredSettings::Decoded(s) => s,
        _ => default_settings(),
    }
}

/// The single owner of the settings in force in the process.
#[derive(Debug)]
pub struct SettingsStore {
    current: Settings,
}

impl View for SettingsStore {
    type V = SettingsView;

    closed spec fn view(&self) -> SettingsView {
        self.current@
    }
}

impl SettingsStore {
    /// A store holding the compiled-in default, as before initialization.
    pub fn new() -> (r: SettingsStore)
        ensures
            r@ == default_view(),
    {
        SettingsStore { current: default_settings() }
    }

    /// A store initialized from what durable storage held.
    pub fn load(stored: StoredSettings) -> (r: SettingsStore)
        ensures
            r@ == loaded(stored),
    {
        SettingsStore { current: settings_from_storage(stored) }
    }

    /// The settings in force.
    pub fn get(&self) -> (r: Settings)
        ensures
            r@ == self@,
    {
        self.current.clone()
    }

    /// Swaps in `new` once its durable write has been attempted: on success
    /// the new value is in force, on failure nothing changes and the
    /// storage error is reported.
    pub fn replace(&mut self, new: Settings, persisted: Result<(), String>) -> (r: Result<
        (),
        StoreError,
    >)
        ensures
            final(self)@ == replaced(old(self)@, new@, persisted is Ok),
            r is Ok <==> persisted is Ok,
            persisted is Err ==> r == Err::<(), StoreError>(StoreError::Persistence(persisted->Err_0)),
    {
        match persisted {
            Ok(()) => {
                self.current = new;
                Ok(())
            },
            Err(message) => Err(StoreError::Persistence(message)),
        }
    }

    /// Replaces the settings by `candidate` as `replace` does, and returns
    /// the settings then in force.
    pub fn commit(&mut self, candidate: Settings, persisted: Result<(), String>) -> (r: Result<
        Settings,
        StoreError,
    >)
        ensures
            final(self)@ == replaced(old(self)@, candidate@, persisted is Ok),
            r is Ok <==> persisted is Ok,
            r is Ok ==> r->Ok_0@ == candidate@,
            persisted is Err ==> r == Err::<Settings, StoreError>(
                StoreError::Persistence(persisted->Err_0),
            ),
    {
        let result = candidate.clone();
        match self.replace(candidate, persisted) {
            Ok(()) => Ok(result),
            Err(e) => Err(e),
        }
    }

    /// The settings that toggling the named source would put in force:
    /// exactly that flag negated. Unknown identifiers are refused.
    pub fn plan_toggle(&self, field_id: &str) -> (r: Result<Settings, StoreError>)
        ensures
            field_of(field_id@) is Some ==> r is Ok && r->Ok_0@ == flip(
                self@,
                field_of(field_id@)->Some_0,
            ),
            field_of(field_id@) is None ==> r == Err::<Settings, StoreError>(
                StoreError::UnknownField,
            ),
    {
        match parse_field(field_id) {
            Some(f) => Ok(self.current.toggled(f)),
            None => Err(StoreError::UnknownField),
        }
    }

    /// The settings that setting the background color would put in force.
    pub fn plan_background(&self, color: String) -> (r: Settings)
        ensures
            r@ == recolor(self@, color@),
    {
        self.current.with_background(color)
    }
}

/// A replace whose durable write succeeded puts exactly the new value in
/// force, so a following `get` returns it.
pub proof fn lemma_replace_then_get(cur: SettingsView, new: SettingsView)
    ensures
        replaced(cur, new, true) == new,
{
}

/// A replace whose durable write failed leaves the settings in force as
/// they were.
pub proof fn lemma_failed_replace_keeps(cur: SettingsView, new: SettingsView)
    ensures
        replaced(cur, new, false) == cur,
{
}

/// Whatever durable storage held, the loaded settings are the decoded
/// value or the default; a miss or corrupt data gives the default.
pub proof fn lemma_load_fallback(stored: StoredSettings)
    ensures
        !(stored is Decoded) ==> loaded(stored) == default_view(),
        stored is Decoded ==> loaded(stored) == stored->Decoded_0@,
{
}

} // verus!
