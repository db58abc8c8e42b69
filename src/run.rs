use vstd::prelude::*;

use crate::accounts::{AccountsError, MintNft};
use crate::calls::{plan_call, planned_call, planned_prefix, Call, STEP_COUNT};

verus! {

/// Where a run stands.
#[derive(Clone, Copy, Debug, PartialEq, Eq, Structural)]
pub enum Status {
    /// The last call issued has not been answered yet.
    Running,
    /// All calls were made and succeeded.
    Succeeded,
    /// A call failed; nothing further is issued.
    Failed,
}

/// What the caller is to do next.
#[derive(Debug, PartialEq, Eq)]
pub enum Progress<E> {
    /// Perform this call and hand its outcome to [`MintNftRun::advance`].
    Invoke(Call),
    /// The mint is over, with this outcome.
    Done(Result<(), E>),
}

/// One mint in progress: the calls are issued one at a time, in plan order,
/// and the first failure ends the run.
pub struct MintNftRun {
    name: String,
    symbol: String,
    uri: String,
    issued: usize,
    status: Status,
}

impl MintNftRun {
    /// The metadata name the run was started with.
    pub closed spec fn spec_name(&self) -> String {
        self.name
    }

    /// The metadata symbol the run was started with.
    pub closed spec fn spec_symbol(&self) -> String {
        self.symbol
    }

    /// The metadata URI the run was started with.
    pub closed spec fn spec_uri(&self) -> String {
        self.uri
    }

    /// How many calls have been issued so far.
    pub closed spec fn issued_count(&self) -> nat {
        self.issued as nat
    }

    /// Where the run stands.
    pub closed spec fn spec_status(&self) -> Status {
        self.status
    }

    /// The calls issued so far, in order.
    pub open spec fn issued_calls(&self) -> Seq<Call> {
        planned_prefix(
            self.issued_count() as int,
            self.spec_name(),
            self.spec_symbol(),
            self.spec_uri(),
        )
    }

    /// The calls whose effects the transaction keeps: all of them when the
    /// run succeeded, none otherwise, since a failure rolls back every
    /// earlier call.
    pub open spec fn committed_calls(&self) -> Seq<Call> {
        if self.spec_status() == Status::Succeeded {
            self.issued_calls()
        } else {
            Seq::empty()
        }
    }

    /// At least the first call has been issued, none beyond the plan, and a
    /// success comes only after the whole plan.
    pub open spec fn wf(&self) -> bool {
        &&& 1 <= self.issued_count() <= STEP_COUNT
        &&& self.spec_status() == Status::Succeeded ==> self.issued_count() == STEP_COUNT
    }

    /// The metadata name the run was started with.
    pub fn name(&self) -> (r: &String)
        ensures
            *r == self.spec_name(),
    {
        &self.name
    }

    /// The metadata symbol the run was started with.
    pub fn symbol(&self) -> (r: &String)
        ensures
            *r == self.spec_symbol(),
    {
        &self.symbol
    }

    /// The metadata URI the run was started with.
    pub fn uri(&self) -> (r: &String)
        ensures
            *r == self.spec_uri(),
    {
        &self.uri
    }

    /// Where the run stands.
    pub fn status(&self) -> (r: Status)
        ensures
            r == self.spec_status(),
    {
        self.status
    }

    /// How many calls have been issued so far.
    pub fn issued(&self) -> (r: usize)
        ensures
            r == self.issued_count(),
    {
        self.issued
    }

    /// Takes the outcome of the call last issued and says what comes next:
    /// the next call of the plan, or the end of the run. A failure ends the
    /// run at once and is handed back unchanged.
    pub fn advance<E>(&mut self, outcome: Result<(), E>) -> (r: Progress<E>)
        requires
            old(self).wf(),
            old(self).spec_status() == Status::Running,
        ensures
            final(self).wf(),
            final(self).spec_name() == old(self).spec_name(),
            final(self).spec_symbol() == old(self).spec_symbol(),
            final(self).spec_uri() == old(self).spec_uri(),
            match outcome {
                Err(e) => {
                    &&& r == Progress::<E>::Done(Err(e))
                    &&& final(self).spec_status() == Status::Failed
                    &&& final(self).issued_count() == old(self).issued_count()
                },
                Ok(()) => if old(self).issued_count() < STEP_COUNT {
                    &&& r == Progress::<E>::Invoke(
                        planned_call(
                            old(self).issued_count() as int,
                            old(self).spec_name(),
                            old(self).spec_symbol(),
                            old(self).spec_uri(),
                        ),
                    )
                    &&& final(self).spec_status() == Status::Running
                    &&& final(self).issued_count() == old(self).issued_count() + 1
                } else {
                    &&& r == Progress::<E>::Done(Ok(()))
                    &&& final(self).spec_status() == Status::Succeeded
                    &&& final(self).issued_count() == old(self).issued_count()
                },
            },
    {
        match outcome {
            Err(e) => {
                self.status = Status::Failed;
                Progress::Done(Err(e))
            },
            Ok(()) => {
                if self.issued < STEP_COUNT {
                    let c = plan_call(self.issued, &self.name, &self.symbol, &self.uri);
                    self.issued = self.issued + 1;
                    Progress::Invoke(c)
                } else {
                    self.status = Status::Succeeded;
                    Progress::Done(Ok(()))
                }
            },
        }
    }
}

/// Starts a mint: checks the account bundle and, when it carries every
/// capability, returns the run together with its first call.
pub fn mint_nft(
    ctx: &MintNft,
    metadata_name: String,
    metadata_symbol: String,
    metadata_uri: String,
) -> (r: Result<(MintNftRun, Call), AccountsError>)
    ensures
        r is Ok <==> ctx.capabilities_present(),
        r is Ok <==> ctx.spec_validation() is Ok,
        r matches Err(e) ==> ctx.spec_validation() == Err::<(), AccountsError>(e),
        r matches Ok((run, c)) ==> {
            &&& run.wf()
            &&& run.spec_status() == Status::Running
            &&& run.issued_count() == 1
            &&& run.spec_name() == metadata_name
            &&& run.spec_symbol() == metadata_symbol
            &&& run.spec_uri() == metadata_uri
            &&& c == planned_call(0, metadata_name, metadata_symbol, metadata_uri)
        },
{
    match ctx.validate() {
        Err(e) => Err(e),
        Ok(()) => {
            let c = plan_call(0, &metadata_name, &metadata_symbol, &metadata_uri);
            let run = MintNftRun {
                name: metadata_name,
                symbol: metadata_symbol,
                uri: metadata_uri,
                issued: 1,
                status: Status::Running,
            };
            Ok((run, c))
        },
    }
}

} // verus!
