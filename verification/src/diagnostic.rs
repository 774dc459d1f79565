//! Diagnostics: the records, the collector that one computation writes to,
//! and the sealed set that it leaves behind.

use vstd::prelude::*;
use crate::ids::{ModuleId, SyntaxStablePtrId};

verus! {

/// What a semantic diagnostic complains about.
#[derive(Clone, Copy, Debug, PartialEq, Eq, Hash, Structural)]
pub enum SemanticDiagnosticKind {
    /// A generic parameter without a name.
    MissingGenericParamName,
    /// A generic parameter whose bound could not be understood.
    MalformedGenericParamBound,
}

/// A recoverable problem found during semantic analysis: where it is, and
/// what it is.
#[derive(Clone, Copy, Debug, PartialEq, Eq, Hash, Structural)]
pub struct SemanticDiagnostic {
    pub module_id: ModuleId,
    pub stable_ptr: SyntaxStablePtrId,
    pub kind: SemanticDiagnosticKind,
}

/// Every record of `records` lies in `module_id`.
pub open spec fn all_in_module(records: Seq<SemanticDiagnostic>, module_id: ModuleId) -> bool {
    forall|i: int| 0 <= i < records.len() ==> (#[trigger] records[i]).module_id == module_id
}

/// The collector of one computation. It is bound to one module, takes
/// records one at a time and is never read while it is filled: the only way
/// to get at the records is to seal it with [`SemanticDiagnostics::build`],
/// which consumes it.
///
/// Its view is the sequence of records reported so far, oldest first.
pub struct SemanticDiagnostics {
    module_id: ModuleId,
    records: Vec<SemanticDiagnostic>,
}

impl View for SemanticDiagnostics {
    type V = Seq<SemanticDiagnostic>;

    closed spec fn view(&self) -> Seq<SemanticDiagnostic> {
        self.records@
    }
}

impl SemanticDiagnostics {
    #[verifier::type_invariant]
    spec fn stamped(self) -> bool {
        all_in_module(self.records@, self.module_id)
    }

    /// The module that the collector is bound to.
    pub closed spec fn module(&self) -> ModuleId {
        self.module_id
    }

    /// An empty collector bound to `module_id`.
    pub fn new(module_id: ModuleId) -> (diagnostics: Self)
        ensures
            diagnostics@ == Seq::<SemanticDiagnostic>::empty(),
            diagnostics.module() == module_id,
    {
        SemanticDiagnostics { module_id, records: Vec::new() }
    }

    /// Appends one record. The record is stamped with the collector's module,
    /// so a collector cannot hold a record of another module.
    pub fn report(&mut self, stable_ptr: SyntaxStablePtrId, kind: SemanticDiagnosticKind)
        ensures
            final(self).module() == old(self).module(),
            final(self)@ == old(self)@.push(
                SemanticDiagnostic { module_id: old(self).module(), stable_ptr, kind },
            ),
    {
        proof {
            use_type_invariant(&*self);
        }
        let mut records: Vec<SemanticDiagnostic> = Vec::new();
        std::mem::swap(&mut records, &mut self.records);
        records.push(SemanticDiagnostic { module_id: self.module_id, stable_ptr, kind });
        self.records = records;
    }

    /// Seals the collector. The set holds what was reported, in the order of
    /// the reports, and all of it lies in the collector's module.
    pub fn build(self) -> (sealed: Diagnostics)
        ensures
            sealed@ == self@,
            all_in_module(sealed@, self.module()),
    {
        proof {
            use_type_invariant(&self);
        }
        Diagnostics { records: self.records }
    }
}

/// A sealed set of diagnostics. Nothing can be added to it.
///
/// Its view is the sequence of its records.
#[derive(Clone, Debug, PartialEq, Eq)]
pub struct Diagnostics {
    records: Vec<SemanticDiagnostic>,
}

impl View for Diagnostics {
    type V = Seq<SemanticDiagnostic>;

    closed spec fn view(&self) -> Seq<SemanticDiagnostic> {
        self.records@
    }
}

impl Diagnostics {
    /// The set without records.
    pub fn new() -> (sealed: Self)
        ensures
            sealed@ == Seq::<SemanticDiagnostic>::empty(),
    {
        Diagnostics { records: Vec::new() }
    }

    /// The number of records.
    pub fn len(&self) -> (n: usize)
        ensures
            n == self@.len(),
    {
        self.records.len()
    }

    /// Whether the set has no record.
    pub fn is_empty(&self) -> (empty: bool)
        ensures
            empty == (self@.len() == 0),
    {
        self.records.len() == 0
    }

    /// The records, in the order in which they were reported.
    pub fn get_all(&self) -> (records: Vec<SemanticDiagnostic>)
        ensures
            records@ == self@,
    {
        self.records.clone()
    }
}

impl Default for Diagnostics {
    fn default() -> (sealed: Self)
        ensures
            sealed@ == Seq::<SemanticDiagnostic>::empty(),
    {
        Diagnostics::new()
    }
}

} // verus!
