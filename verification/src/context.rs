//! The job context: a read-only registry of service handles, built once at
//! process start and shared by every job execution. A handle is an opaque
//! identifier under which the surrounding process keeps the actual service.
//! Lookup of a service that was never registered is a configuration error and
//! is caught by `validate` at startup, never at job-execution time.

use vstd::prelude::*;

verus! {

/// The service families a job execution may resolve from the shared context:
/// the importer service, the miscellaneous (orchestration) service and the
/// exercise service.
#[derive(Clone, Copy, Debug, PartialEq, Eq, Structural)]
pub enum ServiceKind {
    Importer,
    Miscellaneous,
    Exercise,
}

/// Collects service handles during process bootstrap, before any job runs.
pub struct JobContextBuilder {
    importer: Option<u64>,
    miscellaneous: Option<u64>,
    exercise: Option<u64>,
}

/// The validated, read-only registry of service handles. A value of this type
/// can only be obtained through `JobContextBuilder::validate`, so a handle
/// exists for every service kind: resolution is total and cannot fail during
/// job execution.
#[derive(Debug)]
pub struct JobContext {
    importer: u64,
    miscellaneous: u64,
    exercise: u64,
}

impl JobContextBuilder {
    /// The handle registered so far for a service kind, if any.
    pub closed spec fn registered_spec(self, kind: ServiceKind) -> Option<u64> {
        match kind {
            ServiceKind::Importer => self.importer,
            ServiceKind::Miscellaneous => self.miscellaneous,
            ServiceKind::Exercise => self.exercise,
        }
    }

    /// An empty registry: nothing has been registered yet.
    pub fn new() -> (r: Self)
        ensures
            forall|k: ServiceKind| r.registered_spec(k) is None,
    {
        JobContextBuilder { importer: None, miscellaneous: None, exercise: None }
    }

    /// Registers (or replaces) the handle for one service kind.
    pub fn register(&mut self, kind: ServiceKind, handle: u64)
        ensures
            final(self).registered_spec(kind) == Some(handle),
            forall|k: ServiceKind|
                k != kind ==> final(self).registered_spec(k) == old(self).registered_spec(k),
    {
        match kind {
            ServiceKind::Importer => self.importer = Some(handle),
            ServiceKind::Miscellaneous => self.miscellaneous = Some(handle),
            ServiceKind::Exercise => self.exercise = Some(handle),
        }
    }

    /// Startup validation: succeeds exactly when every service kind has been
    /// registered, and then hands out the read-only context. When a kind is
    /// missing it reports the first one, in the order importer,
    /// miscellaneous, exercise — a fatal configuration error, detected here
    /// and never deferred to job-execution time.
    pub fn validate(self) -> (r: Result<JobContext, ServiceKind>)
        ensures
            r is Ok <==> (forall|k: ServiceKind| self.registered_spec(k) is Some),
            r matches Ok(ctx) ==> forall|k: ServiceKind|
                Some(ctx.resolve_spec(k)) == self.registered_spec(k),
            r matches Err(missing) ==> {
                &&& self.registered_spec(missing) is None
                &&& missing == (if self.registered_spec(ServiceKind::Importer) is None {
                    ServiceKind::Importer
                } else if self.registered_spec(ServiceKind::Miscellaneous) is None {
                    ServiceKind::Miscellaneous
                } else {
                    ServiceKind::Exercise
                })
            },
    {
        match (self.importer, self.miscellaneous, self.exercise) {
            (Some(importer), Some(miscellaneous), Some(exercise)) => Ok(JobContext {
                importer,
                miscellaneous,
                exercise,
            }),
            (None, _, _) => Err(ServiceKind::Importer),
            (_, None, _) => Err(ServiceKind::Miscellaneous),
            (_, _, None) => Err(ServiceKind::Exercise),
        }
    }
}

impl JobContext {
    /// The handle a kind resolves to.
    pub closed spec fn resolve_spec(self, kind: ServiceKind) -> u64 {
        match kind {
            ServiceKind::Importer => self.importer,
            ServiceKind::Miscellaneous => self.miscellaneous,
            ServiceKind::Exercise => self.exercise,
        }
    }

    /// Type-indexed lookup of a service handle. Total: a context only exists
    /// after validation, so every kind resolves and no job execution can fail
    /// on a missing service.
    pub fn resolve(&self, kind: ServiceKind) -> (r: u64)
        ensures
            r == self.resolve_spec(kind),
    {
        match kind {
            ServiceKind::Importer => self.importer,
            ServiceKind::Miscellaneous => self.miscellaneous,
            ServiceKind::Exercise => self.exercise,
        }
    }
}

} // verus!
