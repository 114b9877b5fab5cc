//! What holds of the contract whatever its state and whoever calls: the
//! laws that the operations obey, each proved from the definitions that the
//! contracts of the operations are stated in.

use crate::attestation::{quote_verdict, utf8_lossy, AttestationReportView, CollateralView};
use crate::contract::ContractView;
use crate::encoding::{bytes_to_hex, hex_string_bytes, is_hex_string};
use crate::error::{
    AuthorizationError, IdentityMismatch, NotFound, PermissionDenied, RegistrationError,
    ResolutionError,
};
use crate::measurement::{resolution, CodehashesView, TcbEventView};
use crate::registry::WorkerView;
use vstd::prelude::*;

verus! {

/// A registration whose report resolves to a code identity that is not on
/// the allow-list, be it that of the API image or that of the application
/// image, fails with `UnauthorizedCode`, and the state is unchanged. The
/// report is taken to be bound to the caller: a report that is not is
/// refused for that, before its code is looked at.
pub proof fn law_unapproved_code_is_refused(
    state: ContractView,
    quote_hex: Seq<char>,
    collateral: CollateralView,
    checksum: Seq<char>,
    tcb_info: Seq<TcbEventView>,
    caller: Seq<char>,
    reference_time: u64,
    report: AttestationReportView,
    codehashes: CodehashesView,
)
    requires
        is_hex_string(quote_hex),
        quote_verdict(hex_string_bytes(quote_hex), collateral, reference_time) == Some(
            report,
        ),
        utf8_lossy(report.report_data) == caller,
        resolution(bytes_to_hex(report.rt_mr3), tcb_info) == Ok::<CodehashesView, ResolutionError>(
            codehashes,
        ),
        !state.approved_codehashes.contains(codehashes.api_image)
            || !state.approved_codehashes.contains(codehashes.app_image),
    ensures
        state.register_report(report, checksum, tcb_info, caller) == (
            Err::<bool, RegistrationError>(RegistrationError::UnauthorizedCode),
            state,
        ),
        state.register_agent(quote_hex, collateral, checksum, tcb_info, caller, reference_time)
            == (Err::<bool, RegistrationError>(RegistrationError::UnauthorizedCode), state),
{
}

/// A registration whose report is bound to an identity other than the
/// caller's fails with `IdentityMismatch`, whatever the allow-list holds
/// and whatever the measurement resolves to, and the state is unchanged.
pub proof fn law_foreign_report_is_refused(
    state: ContractView,
    quote_hex: Seq<char>,
    collateral: CollateralView,
    checksum: Seq<char>,
    tcb_info: Seq<TcbEventView>,
    caller: Seq<char>,
    reference_time: u64,
    report: AttestationReportView,
)
    requires
        is_hex_string(quote_hex),
        quote_verdict(hex_string_bytes(quote_hex), collateral, reference_time) == Some(
            report,
        ),
        utf8_lossy(report.report_data) != caller,
    ensures
        state.register_report(report, checksum, tcb_info, caller) == (
            Err::<bool, RegistrationError>(RegistrationError::IdentityMismatch(IdentityMismatch)),
            state,
        ),
        state.register_agent(quote_hex, collateral, checksum, tcb_info, caller, reference_time)
            == (
            Err::<bool, RegistrationError>(RegistrationError::IdentityMismatch(IdentityMismatch)),
            state,
        ),
{
}

/// A registration that fails, for whatever reason, leaves the state as it
/// was; one that goes through answers `true`, and changes neither the owner
/// nor the allow-list, nor the record of anybody but the caller.
pub proof fn law_registration_is_all_or_nothing(
    state: ContractView,
    quote_hex: Seq<char>,
    collateral: CollateralView,
    checksum: Seq<char>,
    tcb_info: Seq<TcbEventView>,
    caller: Seq<char>,
    reference_time: u64,
)
    ensures
        ({
            let (result, after) = state.register_agent(
                quote_hex,
                collateral,
                checksum,
                tcb_info,
                caller,
                reference_time,
            );
            &&& result is Err ==> after == state
            &&& result is Ok ==> result == Ok::<bool, RegistrationError>(true)
            &&& after.owner_id == state.owner_id
            &&& after.approved_codehashes == state.approved_codehashes
            &&& forall|other: Seq<char>|
                other != caller ==> after.get_agent(other) == state.get_agent(other)
        }),
{
}

/// Approving is idempotent: approving a code identity a second time gives
/// the state that approving it once gave.
pub proof fn law_approve_is_idempotent(state: ContractView, codehash: Seq<char>, caller: Seq<char>)
    ensures
        state.approve_codehash(codehash, caller).approve_codehash(codehash, caller)
            == state.approve_codehash(codehash, caller),
        state.approve_codehash(codehash, caller).require_owner(caller) == state.require_owner(
            caller,
        ),
{
    if caller == state.owner_id {
        let once = state.approved_codehashes.insert(codehash);
        assert(once.insert(codehash) =~= once);
    }
}

/// The allow-list only grows: what was approved before an approval is
/// approved after it, whoever asked; and after the owner asked, so is the
/// code identity that was asked for.
pub proof fn law_allow_list_only_grows(state: ContractView, codehash: Seq<char>, caller: Seq<char>)
    ensures
        state.approved_codehashes.subset_of(
            state.approve_codehash(codehash, caller).approved_codehashes,
        ),
        caller == state.owner_id ==> state.approve_codehash(
            codehash,
            caller,
        ).approved_codehashes.contains(codehash),
        state.approve_codehash(codehash, caller).worker_by_account_id
            == state.worker_by_account_id,
        state.approve_codehash(codehash, caller).owner_id == state.owner_id,
{
}

/// Somebody who is not the owner cannot approve: the call fails with
/// `PermissionDenied`, and the state, the allow-list with it, is unchanged.
pub proof fn law_only_the_owner_approves(
    state: ContractView,
    codehash: Seq<char>,
    caller: Seq<char>,
)
    requires
        caller != state.owner_id,
    ensures
        state.require_owner(caller) == Err::<(), PermissionDenied>(PermissionDenied),
        state.approve_codehash(codehash, caller) == state,
{
}

/// After a registration that went through, a lookup of the caller gives
/// exactly the worker made of the checksum that was handed in and the code
/// identity that the application image resolved to.
pub proof fn law_registered_worker_is_found(
    state: ContractView,
    quote_hex: Seq<char>,
    collateral: CollateralView,
    checksum: Seq<char>,
    tcb_info: Seq<TcbEventView>,
    caller: Seq<char>,
    reference_time: u64,
)
    requires
        state.register_agent(quote_hex, collateral, checksum, tcb_info, caller, reference_time).0
            is Ok,
    ensures
        ({
            let after = state.register_agent(
                quote_hex,
                collateral,
                checksum,
                tcb_info,
                caller,
                reference_time,
            ).1;
            let report = quote_verdict(
                hex_string_bytes(quote_hex),
                collateral,
                reference_time,
            )->0;
            let resolved = resolution(bytes_to_hex(report.rt_mr3), tcb_info);
            &&& resolved is Ok
            &&& state.admits(resolved->Ok_0)
            &&& after.get_agent(caller) == Ok::<WorkerView, NotFound>(
                WorkerView { checksum, codehash: resolved->Ok_0.app_image },
            )
            &&& after.require_approved_codehash(caller) == Ok::<WorkerView, AuthorizationError>(
                WorkerView { checksum, codehash: resolved->Ok_0.app_image },
            )
        }),
{
}

/// The worker that a registration records where it goes through.
pub open spec fn recorded_worker(
    quote_hex: Seq<char>,
    collateral: CollateralView,
    checksum: Seq<char>,
    tcb_info: Seq<TcbEventView>,
    reference_time: u64,
) -> WorkerView {
    let report = quote_verdict(hex_string_bytes(quote_hex), collateral, reference_time)->0;
    WorkerView {
        checksum,
        codehash: resolution(bytes_to_hex(report.rt_mr3), tcb_info)->Ok_0.app_image,
    }
}

/// A second registration by the same identity overwrites the first: after
/// both went through, a lookup gives the worker of the second, and the
/// records are what they would be had the first never been made.
pub proof fn law_registration_overwrites(
    state: ContractView,
    caller: Seq<char>,
    quote_hex_1: Seq<char>,
    collateral_1: CollateralView,
    checksum_1: Seq<char>,
    tcb_info_1: Seq<TcbEventView>,
    reference_time_1: u64,
    quote_hex_2: Seq<char>,
    collateral_2: CollateralView,
    checksum_2: Seq<char>,
    tcb_info_2: Seq<TcbEventView>,
    reference_time_2: u64,
)
    requires
        state.register_agent(
            quote_hex_1,
            collateral_1,
            checksum_1,
            tcb_info_1,
            caller,
            reference_time_1,
        ).0 is Ok,
        state.register_agent(
            quote_hex_1,
            collateral_1,
            checksum_1,
            tcb_info_1,
            caller,
            reference_time_1,
        ).1.register_agent(
            quote_hex_2,
            collateral_2,
            checksum_2,
            tcb_info_2,
            caller,
            reference_time_2,
        ).0 is Ok,
    ensures
        ({
            let between = state.register_agent(
                quote_hex_1,
                collateral_1,
                checksum_1,
                tcb_info_1,
                caller,
                reference_time_1,
            ).1;
            let after = between.register_agent(
                quote_hex_2,
                collateral_2,
                checksum_2,
                tcb_info_2,
                caller,
                reference_time_2,
            ).1;
            let second = recorded_worker(
                quote_hex_2,
                collateral_2,
                checksum_2,
                tcb_info_2,
                reference_time_2,
            );
            &&& after.get_agent(caller) == Ok::<WorkerView, NotFound>(second)
            &&& after == state.record(caller, second)
        }),
{
    let first = recorded_worker(
        quote_hex_1,
        collateral_1,
        checksum_1,
        tcb_info_1,
        reference_time_1,
    );
    let second = recorded_worker(
        quote_hex_2,
        collateral_2,
        checksum_2,
        tcb_info_2,
        reference_time_2,
    );
    assert(state.worker_by_account_id.insert(caller, first).insert(caller, second)
        =~= state.worker_by_account_id.insert(caller, second));
}

/// The authorization gate looks at the allow-list as it is when it is asked: a
/// worker whose code identity is not on the allow-list of a later state is
/// turned away there with `CodeRevoked`, though its registration went
/// through and its record is still found.
pub proof fn law_gate_rechecks_the_allow_list(
    state: ContractView,
    later: ContractView,
    caller: Seq<char>,
)
    requires
        state.require_approved_codehash(caller) is Ok,
        later.worker_by_account_id == state.worker_by_account_id,
        !later.approved_codehashes.contains(state.worker_by_account_id[caller].codehash),
    ensures
        later.get_agent(caller) == state.get_agent(caller),
        later.get_agent(caller) is Ok,
        later.require_approved_codehash(caller) == Err::<WorkerView, AuthorizationError>(
            AuthorizationError::CodeRevoked,
        ),
{
}

/// Whether every recorded worker has a code identity that is on the
/// allow-list.
pub open spec fn workers_run_approved_code(state: ContractView) -> bool {
    forall|account: Seq<char>| #[trigger]
        state.worker_by_account_id.contains_key(account)
            ==> state.approved_codehashes.contains(state.worker_by_account_id[account].codehash)
}

/// A worker is recorded only with a code identity that was on the allow-list
/// when it registered, and the allow-list never shrinks. So in a new
/// contract, and after whatever approvals and registrations, every recorded
/// worker runs approved code, and the authorization gate lets every one of
/// them through.
pub proof fn law_workers_run_approved_code(
    state: ContractView,
    owner_id: Seq<char>,
    codehash: Seq<char>,
    quote_hex: Seq<char>,
    collateral: CollateralView,
    checksum: Seq<char>,
    tcb_info: Seq<TcbEventView>,
    caller: Seq<char>,
    reference_time: u64,
)
    ensures
        workers_run_approved_code(ContractView::init(owner_id)),
        workers_run_approved_code(state) ==> workers_run_approved_code(
            state.approve_codehash(codehash, caller),
        ),
        workers_run_approved_code(state) ==> workers_run_approved_code(
            state.register_agent(
                quote_hex,
                collateral,
                checksum,
                tcb_info,
                caller,
                reference_time,
            ).1,
        ),
        workers_run_approved_code(state) ==> forall|account: Seq<char>| #[trigger]
            state.worker_by_account_id.contains_key(account)
                ==> state.require_approved_codehash(account) is Ok,
{
    if workers_run_approved_code(state) {
        let approved = state.approve_codehash(codehash, caller);
        assert forall|account: Seq<char>| #[trigger]
            approved.worker_by_account_id.contains_key(account) implies
            approved.approved_codehashes.contains(
            approved.worker_by_account_id[account].codehash,
        ) by {
            assert(state.worker_by_account_id.contains_key(account));
        }
        let registered = state.register_agent(
            quote_hex,
            collateral,
            checksum,
            tcb_info,
            caller,
            reference_time,
        ).1;
        assert forall|account: Seq<char>| #[trigger]
            registered.worker_by_account_id.contains_key(account) implies
            registered.approved_codehashes.contains(
            registered.worker_by_account_id[account].codehash,
        ) by {
            if account != caller {
                assert(state.worker_by_account_id.contains_key(account));
            }
        }
    }
}

} // verus!
