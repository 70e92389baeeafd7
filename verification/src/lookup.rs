//! The outcome of asking a key/value store for one key.

use vstd::prelude::*;
use vstd::string::*;

verus! {

/// What a store answered. Absence of a value is an answer of its own and no
/// failure: it means that nothing is configured under the key.
#[derive(Debug, PartialEq, Eq)]
pub enum Lookup<T> {
    /// The store holds this value under the key.
    Found(T),
    /// The store was reached and holds nothing under the key.
    NotConfigured,
    /// The store could not be opened or asked; the string says why.
    BackendUnavailable(String),
}

/// A store's answer with its strings as sequences of characters.
pub enum LookupView<V> {
    Found(V),
    NotConfigured,
    BackendUnavailable(Seq<char>),
}

impl<T: View> View for Lookup<T> {
    type V = LookupView<T::V>;

    open spec fn view(&self) -> LookupView<T::V> {
        match self {
            Lookup::Found(value) => LookupView::Found(value@),
            Lookup::NotConfigured => LookupView::NotConfigured,
            Lookup::BackendUnavailable(cause) => LookupView::BackendUnavailable(cause@),
        }
    }
}

impl<T: View> Lookup<T> {
    /// Classifies the reply of a store that was asked for a key: a value is
    /// found, no value is absence of configuration, and a failure leaves the
    /// store unavailable.
    pub fn from_reply(reply: Result<Option<T>, String>) -> (outcome: Lookup<T>)
        ensures
            match reply {
                Ok(Some(value)) => outcome@ == LookupView::Found(value@),
                Ok(None) => outcome@ == LookupView::<T::V>::NotConfigured,
                Err(cause) => outcome@ == LookupView::<T::V>::BackendUnavailable(cause@),
            },
    {
        match reply {
            Ok(Some(value)) => Lookup::Found(value),
            Ok(None) => Lookup::NotConfigured,
            Err(cause) => Lookup::BackendUnavailable(cause),
        }
    }

    /// Classifies the attempt to open a store before it is asked. A store
    /// that is there is handed on. One that is not there, or that failed to
    /// open, is unavailable: unlike a key without a value, a missing store is
    /// a failure.
    pub fn opened<S>(store: Result<Option<S>, String>) -> (opened: Result<S, Lookup<T>>)
        ensures
            match store {
                Ok(Some(handle)) => opened == Ok::<S, Lookup<T>>(handle),
                Ok(None) => opened matches Err(outcome) && outcome@ == LookupView::<
                    T::V,
                >::BackendUnavailable("No KV store found"@),
                Err(cause) => opened matches Err(outcome) && outcome@ == LookupView::<
                    T::V,
                >::BackendUnavailable(cause@),
            },
    {
        match store {
            Ok(Some(handle)) => Ok(handle),
            Ok(None) => Err(Lookup::BackendUnavailable(String::from_str("No KV store found"))),
            Err(cause) => Err(Lookup::BackendUnavailable(cause)),
        }
    }
}

} // verus!
