//! The contract: an owner, the allow-list of code identities that the owner
//! curates, and the workers that proved to run code on that list.
//!
//! Every operation takes the identity of its caller as an argument and the
//! state as `self`; nothing is ambient. An operation that fails leaves the
//! state as it was.

use crate::attestation::{
    bind, quote_verdict, utf8_lossy, verify, AttestationReport, AttestationReportView, Collateral,
    CollateralView,
};
use crate::encoding::{bytes_to_hex, hex_string_bytes, is_hex_string};
use crate::error::{
    AuthorizationError, IdentityMismatch, NotFound, PermissionDenied, RegistrationError,
    ResolutionError, VerificationError,
};
use crate::measurement::{
    resolution, resolve, Codehashes, CodehashesView, TcbDescriptor, TcbEventView,
};
use crate::quote::QuoteBytes;
use crate::registry::{CodehashRegistry, Worker, WorkerRegistry, WorkerView};
use vstd::prelude::*;
use vstd::utf8::{decode_utf8, valid_utf8};

verus! {

/// The state of the contract.
pub struct Contract {
    /// The identity that may approve code identities.
    pub owner_id: String,
    /// The allow-list.
    pub approved_codehashes: CodehashRegistry,
    /// The worker last recorded for each identity.
    pub worker_by_account_id: WorkerRegistry,
}

/// The state of the contract as a mathematical value.
pub struct ContractView {
    pub owner_id: Seq<char>,
    pub approved_codehashes: Set<Seq<char>>,
    pub worker_by_account_id: Map<Seq<char>, WorkerView>,
}

impl View for Contract {
    type V = ContractView;

    open spec fn view(&self) -> ContractView {
        ContractView {
            owner_id: self.owner_id@,
            approved_codehashes: self.approved_codehashes@,
            worker_by_account_id: self.worker_by_account_id@,
        }
    }
}

/// A transfer that a privileged operation asks for. The library decides
/// that it is due; whoever runs the contract schedules it.
#[derive(Debug, PartialEq, Eq)]
pub struct Transfer {
    pub receiver_id: String,
    pub amount: u128,
}

/// A transfer as a mathematical value.
pub struct TransferView {
    pub receiver_id: Seq<char>,
    pub amount: u128,
}

impl View for Transfer {
    type V = TransferView;

    open spec fn view(&self) -> TransferView {
        TransferView { receiver_id: self.receiver_id@, amount: self.amount }
    }
}

impl ContractView {
    /// The state of a new contract owned by `owner_id`.
    pub open spec fn init(owner_id: Seq<char>) -> ContractView {
        ContractView {
            owner_id,
            approved_codehashes: Set::empty(),
            worker_by_account_id: Map::empty(),
        }
    }

    /// What the owner check answers to `caller`.
    pub open spec fn require_owner(self, caller: Seq<char>) -> Result<(), PermissionDenied> {
        if caller == self.owner_id {
            Ok(())
        } else {
            Err(PermissionDenied)
        }
    }

    /// The state after `caller` asked to approve `codehash`.
    pub open spec fn approve_codehash(
        self,
        codehash: Seq<char>,
        caller: Seq<char>,
    ) -> ContractView {
        if caller == self.owner_id {
            ContractView { approved_codehashes: self.approved_codehashes.insert(codehash), ..self }
        } else {
            self
        }
    }

    /// Whether both code identities are on the allow-list.
    pub open spec fn admits(self, codehashes: CodehashesView) -> bool {
        &&& self.approved_codehashes.contains(codehashes.api_image)
        &&& self.approved_codehashes.contains(codehashes.app_image)
    }

    /// Why a caller whose report is bound to it is refused, if it is, given
    /// what the measurement of the report resolved to.
    pub open spec fn admission_error(
        self,
        resolved: Result<CodehashesView, ResolutionError>,
    ) -> Option<RegistrationError> {
        match resolved {
            Err(e) => Some(RegistrationError::Resolution(e)),
            Ok(codehashes) => if self.admits(codehashes) {
                None
            } else {
                Some(RegistrationError::UnauthorizedCode)
            },
        }
    }

    /// The state after `worker` was recorded for `caller`: the record of
    /// `caller` is `worker`, whatever it was before.
    pub open spec fn record(self, caller: Seq<char>, worker: WorkerView) -> ContractView {
        ContractView {
            worker_by_account_id: self.worker_by_account_id.insert(caller, worker),
            ..self
        }
    }

    /// What the last steps of a registration answer and the state they
    /// leave, given what the measurement of a report that is bound to
    /// `caller` resolved to. Where they go through, the worker made of
    /// `checksum` and the code identity of the application image is recorded
    /// for `caller`; where they do not, the state is as it was.
    pub open spec fn register_resolved(
        self,
        resolved: Result<CodehashesView, ResolutionError>,
        checksum: Seq<char>,
        caller: Seq<char>,
    ) -> (Result<bool, RegistrationError>, ContractView) {
        match self.admission_error(resolved) {
            Some(e) => (Err(e), self),
            None => (
                Ok(true),
                self.record(caller, WorkerView { checksum, codehash: resolved->Ok_0.app_image }),
            ),
        }
    }

    /// What a registration answers and the state it leaves, given the
    /// identity that the verified report is bound to and what its
    /// measurement resolved to. The identity is looked at first: a report
    /// that is bound to somebody else is refused whatever its code.
    pub open spec fn register_identified(
        self,
        reported_identity: Seq<char>,
        resolved: Result<CodehashesView, ResolutionError>,
        checksum: Seq<char>,
        caller: Seq<char>,
    ) -> (Result<bool, RegistrationError>, ContractView) {
        if reported_identity != caller {
            (Err(RegistrationError::IdentityMismatch(IdentityMismatch)), self)
        } else {
            self.register_resolved(resolved, checksum, caller)
        }
    }

    /// What the registration of a verified report answers, and the state it
    /// leaves.
    pub open spec fn register_report(
        self,
        report: AttestationReportView,
        checksum: Seq<char>,
        tcb_info: Seq<TcbEventView>,
        caller: Seq<char>,
    ) -> (Result<bool, RegistrationError>, ContractView) {
        self.register_identified(
            utf8_lossy(report.report_data),
            resolution(bytes_to_hex(report.rt_mr3), tcb_info),
            checksum,
            caller,
        )
    }

    /// What the registration of a quote answers, and the state it leaves.
    pub open spec fn register_agent(
        self,
        quote_hex: Seq<char>,
        collateral: CollateralView,
        checksum: Seq<char>,
        tcb_info: Seq<TcbEventView>,
        caller: Seq<char>,
        reference_time: u64,
    ) -> (Result<bool, RegistrationError>, ContractView) {
        if !is_hex_string(quote_hex) {
            (Err(RegistrationError::BadEncoding), self)
        } else {
            match quote_verdict(hex_string_bytes(quote_hex), collateral, reference_time) {
                None => (Err(RegistrationError::Verification(VerificationError)), self),
                Some(report) => self.register_report(report, checksum, tcb_info, caller),
            }
        }
    }

    /// What a lookup of `account_id` answers.
    pub open spec fn get_agent(self, account_id: Seq<char>) -> Result<WorkerView, NotFound> {
        if self.worker_by_account_id.contains_key(account_id) {
            Ok(self.worker_by_account_id[account_id])
        } else {
            Err(NotFound)
        }
    }

    /// What the authorization gate answers to `caller`: the worker of a
    /// caller that is registered with a code identity that is on the
    /// allow-list now.
    pub open spec fn require_approved_codehash(self, caller: Seq<char>) -> Result<
        WorkerView,
        AuthorizationError,
    > {
        if !self.worker_by_account_id.contains_key(caller) {
            Err(AuthorizationError::NotRegistered)
        } else if !self.approved_codehashes.contains(self.worker_by_account_id[caller].codehash) {
            Err(AuthorizationError::CodeRevoked)
        } else {
            Ok(self.worker_by_account_id[caller])
        }
    }
}

impl Contract {
    /// The invariant of the state: that of its two registries.
    pub open spec fn wf(&self) -> bool {
        self.approved_codehashes.wf() && self.worker_by_account_id.wf()
    }

    /// A new contract owned by `owner_id`, with nothing approved and nobody
    /// registered.
    pub fn init(owner_id: String) -> (r: Contract)
        ensures
            r.wf(),
            r@ == ContractView::init(owner_id@),
    {
        Contract {
            owner_id,
            approved_codehashes: CodehashRegistry::new(),
            worker_by_account_id: WorkerRegistry::new(),
        }
    }

    /// Lets the owner through and nobody else.
    pub fn require_owner(&self, caller: &String) -> (r: Result<(), PermissionDenied>)
        ensures
            r == self@.require_owner(caller@),
    {
        if *caller == self.owner_id {
            Ok(())
        } else {
            Err(PermissionDenied)
        }
    }

    /// Puts `codehash` on the allow-list, for the owner only. Approving what
    /// is approved already succeeds and changes nothing; a caller who is not
    /// the owner is refused, and nothing changes.
    pub fn approve_codehash(&mut self, codehash: String, caller: &String) -> (r: Result<
        (),
        PermissionDenied,
    >)
        requires
            old(self).wf(),
        ensures
            final(self).wf(),
            r == old(self)@.require_owner(caller@),
            final(self)@ == old(self)@.approve_codehash(codehash@, caller@),
    {
        match self.require_owner(caller) {
            Ok(()) => {
                self.approved_codehashes.approve(codehash);
                Ok(())
            },
            Err(e) => Err(e),
        }
    }

    /// Whether `codehash` is on the allow-list.
    pub fn is_approved(&self, codehash: &String) -> (r: bool)
        ensures
            r == self@.approved_codehashes.contains(codehash@),
    {
        self.approved_codehashes.is_approved(codehash)
    }

    /// Registers `caller` as a worker on the strength of a quote.
    ///
    /// The quote is decoded from hex and verified against `collateral` at
    /// `reference_time`; the verified report must be bound to `caller`; its
    /// measurement must resolve, under `tcb_info`, to two code identities;
    /// and both must be on the allow-list. Then the worker made of `checksum`
    /// and the code identity of the application image is recorded for
    /// `caller`, in place of any earlier record. The first check that fails
    /// ends the call, and the state stays as it was.
    pub fn register_agent(
        &mut self,
        quote_hex: &String,
        collateral: &Collateral,
        checksum: String,
        tcb_info: &TcbDescriptor,
        caller: &String,
        reference_time: u64,
    ) -> (r: Result<bool, RegistrationError>)
        requires
            old(self).wf(),
        ensures
            final(self).wf(),
            r == old(self)@.register_agent(
                quote_hex@,
                collateral@,
                checksum@,
                tcb_info@,
                caller@,
                reference_time,
            ).0,
            final(self)@ == old(self)@.register_agent(
                quote_hex@,
                collateral@,
                checksum@,
                tcb_info@,
                caller@,
                reference_time,
            ).1,
    {
        let quote = match QuoteBytes::from_hex(quote_hex) {
            Ok(quote) => quote,
            Err(e) => { return Err(e); },
        };
        let report = match verify(&quote, collateral, reference_time) {
            Ok(report) => report,
            Err(e) => { return Err(RegistrationError::Verification(e)); },
        };
        self.register_report(&report, checksum, tcb_info, caller)
    }

    /// Registers `caller` as a worker on the strength of a report that the
    /// quote verifier produced: the steps of `register_agent` from the
    /// binding on.
    pub fn register_report(
        &mut self,
        report: &AttestationReport,
        checksum: String,
        tcb_info: &TcbDescriptor,
        caller: &String,
    ) -> (r: Result<bool, RegistrationError>)
        requires
            old(self).wf(),
        ensures
            final(self).wf(),
            r == old(self)@.register_report(report@, checksum@, tcb_info@, caller@).0,
            final(self)@ == old(self)@.register_report(report@, checksum@, tcb_info@, caller@).1,
            valid_utf8(report@.report_data) ==> (r, final(self)@) == old(self)@.register_identified(
                decode_utf8(report@.report_data),
                resolution(bytes_to_hex(report@.rt_mr3), tcb_info@),
                checksum@,
                caller@,
            ),
    {
        match bind(report, caller) {
            Ok(()) => {},
            Err(e) => { return Err(RegistrationError::IdentityMismatch(e)); },
        }
        let resolved = resolve(report, tcb_info);
        self.register_resolved(resolved, checksum, caller)
    }

    /// Registers `caller` as a worker, given what the measurement of a
    /// report that is bound to `caller` resolved to: the steps of
    /// `register_agent` from the allow-list on.
    pub fn register_resolved(
        &mut self,
        resolved: Result<Codehashes, ResolutionError>,
        checksum: String,
        caller: &String,
    ) -> (r: Result<bool, RegistrationError>)
        requires
            old(self).wf(),
        ensures
            final(self).wf(),
            r == old(self)@.register_resolved(resolved_view(resolved), checksum@, caller@).0,
            final(self)@ == old(self)@.register_resolved(
                resolved_view(resolved),
                checksum@,
                caller@,
            ).1,
    {
        let codehashes = match resolved {
            Ok(codehashes) => codehashes,
            Err(e) => { return Err(RegistrationError::Resolution(e)); },
        };
        if !self.is_approved(&codehashes.api_image) {
            return Err(RegistrationError::UnauthorizedCode);
        }
        if !self.is_approved(&codehashes.app_image) {
            return Err(RegistrationError::UnauthorizedCode);
        }
        self.worker_by_account_id.overwrite(
            caller.clone(),
            Worker { checksum, codehash: codehashes.app_image },
        );
        Ok(true)
    }

    /// The worker recorded for `account_id`.
    pub fn get_agent(&self, account_id: &String) -> (r: Result<Worker, NotFound>)
        requires
            self.wf(),
        ensures
            match r {
                Ok(worker) => self@.get_agent(account_id@) == Ok::<WorkerView, NotFound>(worker@),
                Err(e) => self@.get_agent(account_id@) == Err::<WorkerView, NotFound>(e),
            },
    {
        match self.worker_by_account_id.get(account_id) {
            Some(worker) => Ok(worker.clone()),
            None => Err(NotFound),
        }
    }

    /// The authorization gate. Lets `caller` through, and hands back its
    /// worker, where `caller` is registered and the code identity of its
    /// record is on the allow-list at the time of this call.
    pub fn require_approved_codehash(&self, caller: &String) -> (r: Result<
        Worker,
        AuthorizationError,
    >)
        requires
            self.wf(),
        ensures
            match r {
                Ok(worker) => self@.require_approved_codehash(caller@) == Ok::<
                    WorkerView,
                    AuthorizationError,
                >(worker@),
                Err(e) => self@.require_approved_codehash(caller@) == Err::<
                    WorkerView,
                    AuthorizationError,
                >(e),
            },
    {
        let worker = match self.worker_by_account_id.get(caller) {
            Some(worker) => worker,
            None => { return Err(AuthorizationError::NotRegistered); },
        };
        if !self.is_approved(&worker.codehash) {
            return Err(AuthorizationError::CodeRevoked);
        }
        Ok(worker.clone())
    }

    /// A privileged operation: `caller` asks that `amount` be paid to
    /// `account_id`. Where the authorization gate lets `caller` through, the
    /// transfer is handed back to be scheduled; where it does not, nothing
    /// is.
    pub fn pay_by_agent(&self, account_id: String, amount: u128, caller: &String) -> (r: Result<
        Transfer,
        AuthorizationError,
    >)
        requires
            self.wf(),
        ensures
            match r {
                Ok(transfer) => {
                    &&& self@.require_approved_codehash(caller@) is Ok
                    &&& transfer.receiver_id@ == account_id@
                    &&& transfer.amount == amount
                },
                Err(e) => self@.require_approved_codehash(caller@) == Err::<
                    WorkerView,
                    AuthorizationError,
                >(e),
            },
    {
        match self.require_approved_codehash(caller) {
            Ok(_) => Ok(Transfer { receiver_id: account_id, amount }),
            Err(e) => Err(e),
        }
    }
}

/// A resolution as a mathematical value.
pub open spec fn resolved_view(resolved: Result<Codehashes, ResolutionError>) -> Result<
    CodehashesView,
    ResolutionError,
> {
    match resolved {
        Ok(codehashes) => Ok(codehashes@),
        Err(e) => Err(e),
    }
}

} // verus!
