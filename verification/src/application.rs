//! The application: holder of the services and of the workflow over them.

use vstd::prelude::*;
use crate::boolean_service::BooleanService;
use crate::byte_service::{ByteService, ProviderAdapter};
use crate::values::{Boolean, Byte};

verus! {

/// Main state holder. It owns the byte service that was handed to it and a
/// boolean service of its own.
///
/// `S` may be a concrete implementation or `dyn ByteService`.
pub struct Application<S: ByteService + ?Sized> {
    pub byte_service: Box<S>,
    pub boolean_service: BooleanService,
}

impl<S: ByteService + ?Sized> Application<S> {
    /// Takes ownership of `byte_service`; the application holds that very
    /// handle and no other.
    pub fn new(byte_service: Box<S>) -> (app: Self)
        ensures
            app.byte_service == byte_service,
            app.boolean_service == BooleanService,
    {
        Self { byte_service, boolean_service: BooleanService }
    }

    /// Classifies `byte` through the held byte service, then reads the answer
    /// through the boolean service. The result is the truth value of an answer
    /// that the held service gives for `byte`.
    pub fn run(&self, byte: Byte) -> (truth: bool)
        ensures
            self.byte_service.classifies(byte, Boolean(truth)),
    {
        let answer = self.byte_service.is_zero(byte);
        self.boolean_service.is_true(answer)
    }
}

/// With the provider adapter as its byte service, the only answer that the
/// workflow can give for a byte is whether that byte is zero.
pub proof fn lemma_run_with_provider(app: Application<ProviderAdapter>, byte: Byte, truth: bool)
    requires
        app.byte_service.classifies(byte, Boolean(truth)),
    ensures
        truth == (byte.0 == 0),
{
}

} // verus!
