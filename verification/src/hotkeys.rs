//! The hotkey manager: which hotkeys are registered, under which ids, and what
//! the dispatch loop does with each event.
//!
//! The manager never talks to the operating system itself. Its caller binds and
//! releases hotkeys and waits for notifications, and tells the manager how each
//! of these went; the manager keeps the table and decides.

use std::collections::HashMap;
use vstd::prelude::*;
pub use crate::modifiers::KeyModifiers;
use crate::notification::Notification;
use crate::notification::WM_HOTKEY;
use crate::registry::Registry;

verus! {

broadcast use vstd::std_specs::hash::group_hash_axioms;

/// The handle of a registered hotkey: all that a caller gets of a registration.
///
/// Its view is the id under which the operating system knows the hotkey.
#[derive(Clone, Copy, Debug, PartialEq, Eq, Hash, Structural)]
pub struct HotKeyRegister {
    id: i32,
}

impl View for HotKeyRegister {
    type V = i32;

    closed spec fn view(&self) -> i32 {
        self.id
    }
}

impl HotKeyRegister {
    /// The id under which the operating system knows the hotkey.
    pub fn id(&self) -> (id: i32)
        ensures
            id == self@,
    {
        self.id
    }
}

/// What can go wrong between the manager and the operating system.
#[derive(Clone, Copy, Debug, PartialEq, Eq, Structural)]
pub enum HotKeyError {
    /// The operating system refused to bind these modifiers and this key.
    RegistrationFailed(KeyModifiers, u32),
    /// The operating system refused to release this hotkey.
    UnregistrationFailed(HotKeyRegister),
    /// A message that reports a fired hotkey carries a number outside the range
    /// that ids are drawn from: the operating system broke its word.
    UnexpectedNotification,
}

/// What the dispatch loop does with an event.
#[derive(Debug, PartialEq, Eq)]
pub enum Dispatch<T> {
    /// Call this callback, and wait for the next event once it has returned.
    Invoke(T),
    /// Drop the event and wait for the next one.
    Discard,
    /// Leave the loop: the operating system has no more events.
    Terminate,
}

/// Keeps the hotkeys of one thread: hands out their ids and holds the callback of
/// each, of type `C`.
///
/// Ids start at 0, go up by one with each registration and are never used
/// again. A manager is always well-formed ([`Registry::wf`]): every id in its
/// table was handed out before.
///
/// The ids of two managers overlap, and the operating system knows one hotkey
/// per id and thread: keep one manager per thread. A manager is meant for the
/// thread that runs its dispatch loop; to change it from another thread while the
/// loop runs is not supported.
pub struct HotKeys<C> {
    id: i32,
    callbacks: HashMap<i32, C>,
}

impl<C> View for HotKeys<C> {
    type V = Registry<C>;

    closed spec fn view(&self) -> Registry<C> {
        Registry { next_id: self.id as int, callbacks: self.callbacks@ }
    }
}

impl<C> HotKeys<C> {
    #[verifier::type_invariant]
    spec fn valid(&self) -> bool {
        self@.wf()
    }

    /// A manager with no hotkey registered, whose first id is 0.
    pub fn new() -> (hotkeys: Self)
        ensures
            hotkeys@ == Registry::<C>::fresh(),
            hotkeys@.wf(),
    {
        HotKeys { id: 0, callbacks: HashMap::new() }
    }

    /// The id that the next registration gets.
    pub fn next_id(&self) -> (id: i32)
        ensures
            id == self@.next_id,
            self@.wf(),
    {
        proof {
            use_type_invariant(self);
        }
        self.id
    }

    /// The number of registered hotkeys.
    pub fn len(&self) -> (len: usize)
        ensures
            len == self@.callbacks.len(),
            self@.wf(),
    {
        proof {
            use_type_invariant(self);
        }
        self.callbacks.len()
    }

    /// Whether a notification for `register_hotkey` would be dispatched.
    pub fn is_registered(&self, register_hotkey: HotKeyRegister) -> (registered: bool)
        ensures
            registered == self@.callbacks.contains_key(register_hotkey@),
            self@.wf(),
    {
        proof {
            use_type_invariant(self);
        }
        self.callbacks.contains_key(&register_hotkey.id)
    }

    /// Registers a hotkey: uses up the next id and, if the operating system bound
    /// the hotkey to that id, keeps `callback` under it.
    ///
    /// The caller asks the operating system first, to bind `key_modifies` and
    /// `key` to [`next_id`](HotKeys::next_id), and passes the answer as `bound`.
    /// Where the answer was no, the result is
    /// [`HotKeyError::RegistrationFailed`], nothing is kept, and the id is spent
    /// all the same. The same modifiers and key may be registered again: each
    /// call gets an id of its own.
    ///
    /// Ids run out at `i32::MAX`; a manager that has come that far registers no
    /// more.
    pub fn add(
        &mut self,
        key_modifies: KeyModifiers,
        key: u32,
        callback: C,
        bound: bool,
    ) -> (result: Result<HotKeyRegister, HotKeyError>)
        requires
            old(self)@.next_id < i32::MAX,
        ensures
            old(self)@.wf(),
            final(self)@.wf(),
            final(self)@ == old(self)@.add(callback, bound),
            result is Ok <==> bound,
            result matches Ok(register_hotkey) ==> register_hotkey@ == old(self)@.next_id,
            result matches Err(error) ==> error == HotKeyError::RegistrationFailed(
                key_modifies,
                key,
            ),
    {
        proof {
            use_type_invariant(&*self);
        }
        let id = self.id;
        self.id = id + 1;
        if bound {
            // The table leaves the manager while it changes, so that the manager
            // is well-formed at every step.
            let mut callbacks = HashMap::new();
            core::mem::swap(&mut self.callbacks, &mut callbacks);
            callbacks.insert(id, callback);
            core::mem::swap(&mut self.callbacks, &mut callbacks);
            Ok(HotKeyRegister { id })
        } else {
            Err(HotKeyError::RegistrationFailed(key_modifies, key))
        }
    }

    /// Removes a hotkey from the table, whatever the operating system said.
    ///
    /// The caller asks the operating system first, to release the id of
    /// `register_hotkey`, and passes the answer as `unbound`. The result is
    /// [`HotKeyError::UnregistrationFailed`] exactly where the hotkey was in the
    /// table and the answer was no. A hotkey that is not in the table, because it
    /// was removed before or belongs to another manager, changes nothing and is
    /// no error.
    ///
    /// A callback may remove any hotkey, its own too, while the loop dispatches
    /// to it.
    pub fn remove(&mut self, register_hotkey: HotKeyRegister, unbound: bool) -> (result: Result<
        (),
        HotKeyError,
    >)
        ensures
            old(self)@.wf(),
            final(self)@.wf(),
            final(self)@ == old(self)@.remove(register_hotkey@),
            result is Err <==> !unbound && old(self)@.callbacks.contains_key(register_hotkey@),
            result matches Err(error) ==> error == HotKeyError::UnregistrationFailed(
                register_hotkey,
            ),
    {
        proof {
            use_type_invariant(&*self);
        }
        let mut callbacks = HashMap::new();
        core::mem::swap(&mut self.callbacks, &mut callbacks);
        let removed = callbacks.remove(&register_hotkey.id);
        core::mem::swap(&mut self.callbacks, &mut callbacks);
        if unbound || removed.is_none() {
            Ok(())
        } else {
            Err(HotKeyError::UnregistrationFailed(register_hotkey))
        }
    }

    /// One turn of the dispatch loop: what to do with the event that the
    /// operating system just gave, `None` standing for the end of all events.
    ///
    /// The loop waits for an event, asks here, and does as it is told: on
    /// [`Dispatch::Invoke`] it calls the callback and waits again when the
    /// callback has returned, on [`Dispatch::Discard`] it waits again at once, on
    /// [`Dispatch::Terminate`] it ends. A notification of a hotkey that is not in
    /// the table, and a message of any other kind, are discarded. The error is
    /// fatal to the loop. Nothing but the operating system ends the loop.
    pub fn handle(&self, event: Option<Notification>) -> (step: Result<Dispatch<&C>, HotKeyError>)
        ensures
            self@.wf(),
            step == self@.decide(event),
    {
        proof {
            use_type_invariant(self);
        }
        match event {
            None => Ok(Dispatch::Terminate),
            Some(notification) => {
                if notification.message != WM_HOTKEY {
                    Ok(Dispatch::Discard)
                } else if notification.w_param > 0x7FFF_FFFF {
                    Err(HotKeyError::UnexpectedNotification)
                } else {
                    let id = notification.w_param as i32;
                    match self.callbacks.get(&id) {
                        Some(callback) => Ok(Dispatch::Invoke(callback)),
                        None => Ok(Dispatch::Discard),
                    }
                }
            },
        }
    }
}

} // verus!
