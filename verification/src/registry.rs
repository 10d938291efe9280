//! Bookkeeping for the window class that all windows share: it is
//! registered once, counted per live window, and unregistered when the last
//! window goes.

use vstd::prelude::*;

use crate::error::WindowError;

verus! {

/// The registry as a mathematical value: the atom of the registered class,
/// if it is registered, and the number of live windows.
pub struct RegistryState {
    pub class: Option<u16>,
    pub live: nat,
}

impl RegistryState {
    /// The registry before anything happened: no class, no windows.
    pub open spec fn initial() -> RegistryState {
        RegistryState { class: None, live: 0 }
    }

    /// What always holds: a registered class has a nonzero atom, and while
    /// any window is alive the class is registered.
    pub open spec fn wf(self) -> bool {
        &&& self.class matches Some(atom) ==> atom != 0
        &&& self.live > 0 ==> self.class is Some
    }

    /// The registry after the platform answered a registration attempt with
    /// `atom`. An existing registration stays; a zero atom registers nothing.
    pub open spec fn register(self, atom: u16) -> RegistryState {
        if self.class is None && atom != 0 {
            RegistryState { class: Some(atom), ..self }
        } else {
            self
        }
    }

    /// The registry after a window was created.
    pub open spec fn add_window(self) -> RegistryState {
        RegistryState { live: self.live + 1, ..self }
    }

    /// Whether releasing a window now takes the count from one to zero.
    pub open spec fn releases_last(self) -> bool {
        self.live == 1
    }

    /// The registry after a window was destroyed: one window fewer, and no
    /// class once the last window is gone. With no window alive there is
    /// nothing to release.
    pub open spec fn release(self) -> RegistryState {
        if self.live == 0 {
            self
        } else if self.live == 1 {
            RegistryState { class: None, live: 0 }
        } else {
            RegistryState { live: (self.live - 1) as nat, ..self }
        }
    }

    /// The registry after `count` windows were created one after the other,
    /// each of them registering the class under `atom` if it found none.
    pub open spec fn after_creations(self, atom: u16, count: nat) -> RegistryState
        decreases count,
    {
        if count == 0 {
            self
        } else {
            self.after_creations(atom, (count - 1) as nat).register(atom).add_window()
        }
    }

    /// The registry after `count` windows were destroyed one after the other.
    pub open spec fn after_releases(self, count: nat) -> RegistryState
        decreases count,
    {
        if count == 0 {
            self
        } else {
            self.after_releases((count - 1) as nat).release()
        }
    }

    /// How many of the next `count` releases unregister the class.
    pub open spec fn unregistrations(self, count: nat) -> nat
        decreases count,
    {
        if count == 0 {
            0
        } else {
            let earlier = self.unregistrations((count - 1) as nat);
            if self.after_releases((count - 1) as nat).releases_last() {
                earlier + 1
            } else {
                earlier
            }
        }
    }
}

/// Every step keeps the registry well formed: no step leaves a live window
/// without its class.
pub proof fn lemma_steps_keep_wf(state: RegistryState, atom: u16)
    requires
        state.wf(),
    ensures
        state.register(atom).wf(),
        state.class is Some ==> state.add_window().wf(),
        state.release().wf(),
{
}

/// A release unregisters the class exactly when it takes the count of live
/// windows from one to zero; any other release leaves the class as it was.
pub proof fn lemma_unregister_iff_last(state: RegistryState)
    requires
        state.wf(),
    ensures
        state.releases_last() <==> (state.live > 0 && state.release().live == 0),
        state.releases_last() ==> state.release().class is None,
        !state.releases_last() ==> state.release().class == state.class,
        state.release().live > 0 ==> state.release().class is Some,
{
}

/// Creating `count` windows on a well-formed registry adds `count` to the
/// live windows and leaves the class registered: under the atom it had, or
/// under the new one if it had none.
pub proof fn lemma_after_creations(state: RegistryState, atom: u16, count: nat)
    requires
        state.wf(),
        atom != 0,
        count > 0,
    ensures
        state.after_creations(atom, count).wf(),
        state.after_creations(atom, count).live == state.live + count,
        state.after_creations(atom, count).class == state.register(atom).class,
        state.after_creations(atom, count).class is Some,
    decreases count,
{
    if count > 1 {
        lemma_after_creations(state, atom, (count - 1) as nat);
    } else {
        assert(state.after_creations(atom, 0) == state);
    }
}

/// Releasing `count` of the live windows, with `count` no more than there
/// are, keeps the class registered until the last window is released and
/// unregisters it at that moment, once.
pub proof fn lemma_after_releases(state: RegistryState, count: nat)
    requires
        state.wf(),
        count <= state.live,
    ensures
        state.after_releases(count).wf(),
        state.after_releases(count).live == state.live - count,
        count < state.live ==> state.after_releases(count).class == state.class,
        count < state.live ==> state.unregistrations(count) == 0,
        count == state.live && count > 0 ==> state.after_releases(count).class is None,
        count == state.live && count > 0 ==> state.unregistrations(count) == 1,
    decreases count,
{
    if count > 0 {
        lemma_after_releases(state, (count - 1) as nat);
    }
}

/// The life of `count` windows from first to last: created on an empty
/// registry and then all destroyed, they leave the registry empty again,
/// the class was unregistered exactly once, by the last release, and at
/// every moment before that it was registered.
pub proof fn lemma_lifecycle_unregisters_once(atom: u16, count: nat, destroyed: nat)
    requires
        atom != 0,
        count > 0,
        destroyed < count,
    ensures
        RegistryState::initial().after_creations(atom, count).after_releases(count)
            == RegistryState::initial(),
        RegistryState::initial().after_creations(atom, count).unregistrations(count) == 1,
        RegistryState::initial().after_creations(atom, count).after_releases(destroyed).class
            == Some(atom),
        RegistryState::initial().after_creations(atom, count).unregistrations(destroyed) == 0,
{
    let full = RegistryState::initial().after_creations(atom, count);
    lemma_after_creations(RegistryState::initial(), atom, count);
    lemma_after_releases(full, count);
    lemma_after_releases(full, destroyed);
}

/// Reference-counted registration of the shared window class.
#[derive(Debug)]
pub struct ClassRegistry {
    class: Option<u16>,
    live: usize,
}

impl View for ClassRegistry {
    type V = RegistryState;

    closed spec fn view(&self) -> RegistryState {
        RegistryState { class: self.class, live: self.live as nat }
    }
}

impl ClassRegistry {
    #[verifier::type_invariant]
    closed spec fn inv(self) -> bool {
        self@.wf()
    }

    /// A registry with no class registered and no window alive.
    pub fn new() -> (registry: ClassRegistry)
        ensures
            registry@ == RegistryState::initial(),
    {
        ClassRegistry { class: None, live: 0 }
    }

    /// The atom of the registered class, or `None` while no class is
    /// registered and the next window has to register it first.
    pub fn class_atom(&self) -> (class: Option<u16>)
        ensures
            class == self@.class,
            self@.wf(),
    {
        proof {
            use_type_invariant(self);
        }
        self.class
    }

    /// The number of live windows.
    pub fn live_windows(&self) -> (live: usize)
        ensures
            live == self@.live,
            self@.wf(),
    {
        proof {
            use_type_invariant(self);
        }
        self.live
    }

    /// Takes in the platform's answer to a registration attempt: the atom it
    /// returned, and the error code to report if that atom is zero.
    ///
    /// A class that is already registered stays, and its atom is returned
    /// whatever the answer was. Otherwise a nonzero atom is recorded and
    /// returned, and a zero atom fails with the code and records nothing.
    pub fn register(&mut self, atom: u16, code: u32) -> (class: Result<u16, WindowError>)
        ensures
            final(self)@ == old(self)@.register(atom),
            final(self)@.wf(),
            old(self)@.class matches Some(existing) ==> class == Ok::<u16, WindowError>(existing),
            old(self)@.class is None && atom != 0 ==> class == Ok::<u16, WindowError>(atom),
            old(self)@.class is None && atom == 0 ==> class == Err::<u16, WindowError>(
                WindowError::ClassRegistrationFailed(code),
            ),
    {
        proof {
            use_type_invariant(&*self);
        }
        match self.class {
            Some(existing) => Ok(existing),
            None => {
                if atom == 0 {
                    Err(WindowError::ClassRegistrationFailed(code))
                } else {
                    self.class = Some(atom);
                    Ok(atom)
                }
            },
        }
    }

    /// Counts a window that was just created from the registered class.
    pub fn add_window(&mut self)
        requires
            old(self)@.class is Some,
            old(self)@.live < usize::MAX,
        ensures
            final(self)@ == old(self)@.add_window(),
            final(self)@.wf(),
    {
        proof {
            use_type_invariant(&*self);
        }
        self.live = self.live + 1;
    }

    /// Takes a destroyed window off the count.
    ///
    /// Returns the atom of the class to unregister exactly when this was the
    /// last live window; the registry then holds no class. With no window
    /// alive nothing changes.
    pub fn release(&mut self) -> (unregister: Option<u16>)
        ensures
            final(self)@ == old(self)@.release(),
            final(self)@.wf(),
            unregister is Some <==> old(self)@.releases_last(),
            unregister is Some ==> unregister == old(self)@.class,
    {
        proof {
            use_type_invariant(&*self);
        }
        if self.live == 0 {
            None
        } else if self.live == 1 {
            let class: Option<u16> = self.class;
            self.live = 0;
            self.class = None;
            class
        } else {
            self.live = self.live - 1;
            None
        }
    }
}

} // verus!
