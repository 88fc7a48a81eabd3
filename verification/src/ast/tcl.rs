//! The statements that control transactions.

use vstd::prelude::*;

verus! {

/// `BEGIN`
#[derive(Clone, Copy, Debug, PartialEq, Eq)]
pub struct Begin(pub TransactionMode);

impl DeepView for Begin {
    type V = Begin;

    open spec fn deep_view(&self) -> Begin {
        *self
    }
}

/// `COMMIT`, however it is spelled.
#[derive(Clone, Copy, Debug, PartialEq, Eq)]
pub struct Commit;

impl DeepView for Commit {
    type V = Commit;

    open spec fn deep_view(&self) -> Commit {
        *self
    }
}

/// `ROLLBACK`, with the savepoint it rolls back to, if any.
#[derive(Clone, Debug, PartialEq)]
pub struct Rollback(pub Option<String>);

/// The mathematical model of [`Rollback`].
pub ghost struct RollbackModel(pub Option<Seq<char>>);

impl DeepView for Rollback {
    type V = RollbackModel;

    open spec fn deep_view(&self) -> RollbackModel {
        RollbackModel(self.0.deep_view())
    }
}

/// `SAVEPOINT`
#[derive(Clone, Debug, PartialEq)]
pub struct Savepoint(pub String);

/// The mathematical model of [`Savepoint`].
pub ghost struct SavepointModel(pub Seq<char>);

impl DeepView for Savepoint {
    type V = SavepointModel;

    open spec fn deep_view(&self) -> SavepointModel {
        SavepointModel(self.0.deep_view())
    }
}

/// `RELEASE`
#[derive(Clone, Debug, PartialEq)]
pub struct Release(pub String);

/// The mathematical model of [`Release`].
pub ghost struct ReleaseModel(pub Seq<char>);

impl DeepView for Release {
    type V = ReleaseModel;

    open spec fn deep_view(&self) -> ReleaseModel {
        ReleaseModel(self.0.deep_view())
    }
}

/// The mode of a transaction. `Deferred` where none is written.
#[derive(Clone, Copy, Debug, PartialEq, Eq)]
pub enum TransactionMode {
    Deferred,
    Immediate,
    Exclusive,
}

impl DeepView for TransactionMode {
    type V = TransactionMode;

    open spec fn deep_view(&self) -> TransactionMode {
        *self
    }
}

} // verus!
