//! One stable trigger interface over a hotkey listener that can be replaced
//! at runtime when the configuration changes.

use vstd::prelude::*;
use std::sync::Arc;
use crate::config::HotkeyConfig;
use crate::keys::HotkeyError;

verus! {

/// The user's "hotkey fired" action. It may be called from any thread.
pub trait TriggerHandler: Send + Sync {
    /// Runs the action.
    fn fire(&self);
}

/// A platform hotkey listener.
pub trait HotkeyProvider: Send + Sync {
    /// Starts delivering triggers to `callback`.
    fn on_trigger(&mut self, callback: Arc<Box<dyn TriggerHandler>>);

    /// Stops listening.
    fn stop(&mut self);
}

/// Builds the platform listener for a configuration.
pub trait ProviderFactory: Send + Sync {
    /// The listener type of the platform.
    type Provider: HotkeyProvider;

    /// A new listener for `config`, or why there cannot be one.
    fn create_hotkey_provider(&self, config: &HotkeyConfig) -> Result<Self::Provider, HotkeyError>;
}

/// A listener together with the record of the calls made on it: whether it
/// was stopped, and which callback was last bound to it.
pub struct ListenerSlot<P: HotkeyProvider> {
    provider: P,
    listening: Ghost<bool>,
    bound: Ghost<Option<Arc<Box<dyn TriggerHandler>>>>,
}

impl<P: HotkeyProvider> ListenerSlot<P> {
    /// Whether `stop` has not been called on the listener.
    pub closed spec fn listening(&self) -> bool {
        self.listening@
    }

    /// The callback last handed to the listener's `on_trigger`, if any.
    pub closed spec fn bound(&self) -> Option<Arc<Box<dyn TriggerHandler>>> {
        self.bound@
    }

    /// A freshly built listener: listening, nothing bound.
    pub fn new(provider: P) -> (r: Self)
        ensures
            r.listening(),
            r.bound() is None,
    {
        ListenerSlot { provider, listening: Ghost(true), bound: Ghost(None) }
    }

    /// Binds `callback` to the listener.
    pub fn on_trigger(&mut self, callback: Arc<Box<dyn TriggerHandler>>)
        ensures
            final(self).bound() == Some(callback),
            final(self).listening() == old(self).listening(),
    {
        let ghost cb = callback;
        self.provider.on_trigger(callback);
        self.bound = Ghost(Some(cb));
    }

    /// Stops the listener.
    pub fn stop(&mut self)
        ensures
            !final(self).listening(),
            final(self).bound() == old(self).bound(),
    {
        self.provider.stop();
        self.listening = Ghost(false);
    }
}

/// Hotkey manager: holds the active listener and the stored callback, which
/// survives the replacement of the listener.
pub struct HotkeyManager<F: ProviderFactory> {
    factory: F,
    slot: ListenerSlot<F::Provider>,
    callback: Option<Arc<Box<dyn TriggerHandler>>>,
    previous_stopped: Ghost<bool>,
}

impl<F: ProviderFactory> HotkeyManager<F> {
    /// The stored callback.
    pub closed spec fn stored_callback(&self) -> Option<Arc<Box<dyn TriggerHandler>>> {
        self.callback
    }

    /// Whether the current listener has not been stopped since it was built.
    pub closed spec fn provider_listening(&self) -> bool {
        self.slot.listening()
    }

    /// The callback last bound to the current listener, if any.
    pub closed spec fn provider_handler(&self) -> Option<Arc<Box<dyn TriggerHandler>>> {
        self.slot.bound()
    }

    /// Whether the listener that the last replacement retired had been
    /// stopped before it was dropped.
    pub closed spec fn previous_stopped(&self) -> bool {
        self.previous_stopped@
    }

    /// A manager over the outcome `built` of building a listener with
    /// `factory`: the listener, or the error passed on unchanged.
    pub fn with_provider(factory: F, built: Result<F::Provider, HotkeyError>) -> (r: Result<Self, HotkeyError>)
        ensures
            built is Err ==> r is Err && r->Err_0 == built->Err_0,
            built is Ok ==> r is Ok && {
                &&& r->Ok_0.provider_listening()
                &&& r->Ok_0.stored_callback() is None
                &&& r->Ok_0.provider_handler() is None
                &&& r->Ok_0.previous_stopped()
            },
    {
        match built {
            Ok(provider) => Ok(
                HotkeyManager {
                    factory,
                    slot: ListenerSlot::new(provider),
                    callback: None,
                    previous_stopped: Ghost(true),
                },
            ),
            Err(e) => Err(e),
        }
    }

    /// A manager over the listener that `factory` builds for `config`; the
    /// factory's error is passed on.
    pub fn new(factory: F, config: &HotkeyConfig) -> (r: Result<Self, HotkeyError>)
        ensures
            r is Ok ==> {
                &&& r->Ok_0.provider_listening()
                &&& r->Ok_0.stored_callback() is None
                &&& r->Ok_0.provider_handler() is None
                &&& r->Ok_0.previous_stopped()
            },
    {
        let built = factory.create_hotkey_provider(config);
        Self::with_provider(factory, built)
    }

    /// Stores `callback`, replacing any earlier one, and binds it to the
    /// current listener.
    pub fn on_trigger(&mut self, callback: Arc<Box<dyn TriggerHandler>>)
        ensures
            final(self).stored_callback() == Some(callback),
            final(self).provider_handler() == Some(callback),
            final(self).provider_listening() == old(self).provider_listening(),
            final(self).previous_stopped() == old(self).previous_stopped(),
    {
        self.callback = Some(Arc::clone(&callback));
        self.slot.on_trigger(callback);
    }

    /// Replaces the listener: stops the current one, builds one for `config`,
    /// binds the stored callback to it and swaps it in; the stopped listener
    /// is dropped. If the new listener cannot be built, the old one stays in
    /// place, stopped, and the factory's error is returned.
    pub fn update_config(&mut self, config: &HotkeyConfig) -> (r: Result<(), HotkeyError>)
        ensures
            final(self).stored_callback() == old(self).stored_callback(),
            r is Ok ==> {
                &&& final(self).provider_listening()
                &&& final(self).provider_handler() == old(self).stored_callback()
                &&& final(self).previous_stopped()
            },
            r is Err ==> {
                &&& !final(self).provider_listening()
                &&& final(self).provider_handler() == old(self).provider_handler()
                &&& final(self).previous_stopped() == old(self).previous_stopped()
            },
    {
        self.slot.stop();
        let built = self.factory.create_hotkey_provider(config);
        self.install(built)
    }

    /// Takes the outcome `built` of building a new listener: a listener is
    /// bound to the stored callback, if any, and replaces the current one,
    /// which is dropped; an error is passed on unchanged and changes nothing.
    pub fn install(&mut self, built: Result<F::Provider, HotkeyError>) -> (r: Result<(), HotkeyError>)
        ensures
            final(self).stored_callback() == old(self).stored_callback(),
            built is Ok ==> {
                &&& r is Ok
                &&& final(self).provider_listening()
                &&& final(self).provider_handler() == old(self).stored_callback()
                &&& final(self).previous_stopped() == !old(self).provider_listening()
            },
            built is Err ==> {
                &&& r is Err && r->Err_0 == built->Err_0
                &&& final(self).provider_listening() == old(self).provider_listening()
                &&& final(self).provider_handler() == old(self).provider_handler()
                &&& final(self).previous_stopped() == old(self).previous_stopped()
            },
    {
        let mut new_slot = match built {
            Ok(p) => ListenerSlot::new(p),
            Err(e) => {
                return Err(e);
            },
        };
        match &self.callback {
            Some(cb) => {
                new_slot.on_trigger(Arc::clone(cb));
            },
            None => {},
        }
        let ghost stopped = !self.slot.listening();
        self.slot = new_slot;
        self.previous_stopped = Ghost(stopped);
        Ok(())
    }

    /// Stops the current listener. Stopping again changes nothing.
    pub fn stop(&mut self)
        ensures
            !final(self).provider_listening(),
            final(self).provider_handler() == old(self).provider_handler(),
            final(self).stored_callback() == old(self).stored_callback(),
            final(self).previous_stopped() == old(self).previous_stopped(),
    {
        self.slot.stop();
    }
}

} // verus!
