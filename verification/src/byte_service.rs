//! The capability the application depends on, and its real implementation.

use vstd::prelude::*;
use crate::provider::{functionality, Payload};
use crate::values::{Boolean, Byte};

verus! {

/// Classifies bytes. The application depends on this capability alone, so any
/// implementation can stand in for the one that reaches the provider.
pub trait ByteService {
    /// Whether `result` is an answer that this implementation may give for
    /// `byte`. Each implementation says for itself which answers those are;
    /// one that says nothing may give any answer.
    open spec fn classifies(&self, byte: Byte, result: Boolean) -> bool {
        true
    }

    /// Classifies `byte`. The answer is one that `classifies` admits.
    fn is_zero(&self, byte: Byte) -> (result: Boolean)
        ensures
            self.classifies(byte, result),
    ;
}

/// Implementation of [`ByteService`] that asks the provider. It is the only
/// place where application values and provider values are converted.
pub struct ProviderAdapter;

impl ByteService for ProviderAdapter {
    /// The adapter admits one answer for each byte: the provider's.
    open spec fn classifies(&self, byte: Byte, result: Boolean) -> bool {
        result == Boolean(byte.0 == 0)
    }

    /// Hands the byte to the provider and wraps what comes back: a true
    /// `Boolean` exactly when the byte is zero.
    fn is_zero(&self, byte: Byte) -> (result: Boolean)
        ensures
            result == Boolean(byte.0 == 0),
    {
        let provider_payload = Payload(byte.0);
        let provider_outcome = functionality(provider_payload);
        Boolean(provider_outcome.0)
    }
}

/// The adapter's answer depends on the byte alone: two answers that it may
/// give for the same byte are the same answer.
pub proof fn lemma_adapter_answers_alike(
    adapter: ProviderAdapter,
    byte: Byte,
    first: Boolean,
    second: Boolean,
)
    requires
        adapter.classifies(byte, first),
        adapter.classifies(byte, second),
    ensures
        first == second,
{
}

} // verus!
