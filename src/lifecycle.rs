//! Laws of the airplane lifecycle, stated over the transition rules.

use vstd::prelude::*;

use crate::schema::{store_consistent, AirplaneModel, AirplaneState, Timestamp, NANOS_PER_SECOND};
use crate::transactions::{
    current_of, AirplaneTransactions, Error, TxEndFlying, TxEndTechnicalCheck, TxRegisterAirplane,
    TxStartFlying, TxStartTechnicalCheck,
};

verus! {

/// Every successful transaction keeps each record under its own key and keeps
/// the phase fields at their sentinels outside the heating phase.
pub proof fn lemma_transaction_keeps_store_consistent(
    store: Map<Seq<u8>, AirplaneModel>,
    tx: AirplaneTransactions,
    now: Timestamp,
)
    requires
        store_consistent(store),
    ensures
        tx.apply(store, now) is Ok ==> store_consistent(tx.apply(store, now)->Ok_0),
{
}

/// A successful transaction changes the record under its own key only, and
/// keeps that record's key and name.
pub proof fn lemma_transaction_keeps_identity(
    store: Map<Seq<u8>, AirplaneModel>,
    tx: AirplaneTransactions,
    now: Timestamp,
    other: Seq<u8>,
)
    requires
        tx.apply(store, now) is Ok,
    ensures
        ({
            let k = tx.spec_pub_key();
            let m = tx.apply(store, now)->Ok_0;
            &&& m.contains_key(k)
            &&& m[k].pub_key == k
            &&& store.contains_key(k) ==> m[k].name == store[k].name
            &&& other != k ==> current_of(m, other) == current_of(store, other)
        }),
{
}

/// Registering an airplane that is not yet known stores a record that waits
/// for its flight, with both phase fields at their sentinels.
pub proof fn lemma_register_then_get(
    store: Map<Seq<u8>, AirplaneModel>,
    tx: TxRegisterAirplane,
    now: Timestamp,
)
    requires
        !store.contains_key(tx.pub_key@),
    ensures
        ({
            let r = AirplaneTransactions::Register(tx).apply(store, now);
            &&& r is Ok
            &&& r->Ok_0.contains_key(tx.pub_key@)
            &&& r->Ok_0[tx.pub_key@] == AirplaneModel::at_rest(
                tx.pub_key@,
                tx.name@,
                AirplaneState::WaitingForFlight,
            )
        }),
{
}

/// A second registration of a key that was just registered is rejected as
/// already existing, and leaves the store as it was.
pub proof fn lemma_register_twice(
    store: Map<Seq<u8>, AirplaneModel>,
    first: TxRegisterAirplane,
    second: TxRegisterAirplane,
    now: Timestamp,
    later: Timestamp,
    after: Map<Seq<u8>, AirplaneModel>,
    r: Result<(), Error>,
)
    requires
        first.pub_key@ == second.pub_key@,
        AirplaneTransactions::Register(first).apply(store, now) is Ok,
        AirplaneTransactions::Register(second).executed(
            AirplaneTransactions::Register(first).apply(store, now)->Ok_0,
            after,
            later,
            r,
        ),
    ensures
        r == Err::<(), Error>(Error::AirplaneAlreadyExists),
        after == AirplaneTransactions::Register(first).apply(store, now)->Ok_0,
{
}

/// From waiting for a flight only the start of a technical check succeeds;
/// ending a check, taking off and landing are not allowed.
pub proof fn lemma_waiting_for_flight(
    store: Map<Seq<u8>, AirplaneModel>,
    start_check: TxStartTechnicalCheck,
    end_check: TxEndTechnicalCheck,
    start_flying: TxStartFlying,
    end_flying: TxEndFlying,
    now: Timestamp,
)
    requires
        store.contains_key(start_check.pub_key@),
        store[start_check.pub_key@].state == AirplaneState::WaitingForFlight,
        end_check.pub_key@ == start_check.pub_key@,
        start_flying.pub_key@ == start_check.pub_key@,
        end_flying.pub_key@ == start_check.pub_key@,
    ensures
        AirplaneTransactions::StartTechnicalCheck(start_check).apply(store, now) is Ok,
        AirplaneTransactions::EndTechnicalCheck(end_check).apply(store, now) == Err::<
            Map<Seq<u8>, AirplaneModel>,
            Error,
        >(Error::TransactionIsNotAllowed),
        AirplaneTransactions::StartFlying(start_flying).apply(store, now) == Err::<
            Map<Seq<u8>, AirplaneModel>,
            Error,
        >(Error::TransactionIsNotAllowed),
        AirplaneTransactions::EndFlying(end_flying).apply(store, now) == Err::<
            Map<Seq<u8>, AirplaneModel>,
            Error,
        >(Error::TransactionIsNotAllowed),
{
}

/// A failed technical check sends the airplane back to waiting for a flight
/// with both phase fields at their sentinels, whatever heating time it names.
pub proof fn lemma_failed_check(
    store: Map<Seq<u8>, AirplaneModel>,
    tx: TxEndTechnicalCheck,
    now: Timestamp,
)
    requires
        store.contains_key(tx.pub_key@),
        store[tx.pub_key@].state == AirplaneState::TechnicalCheck,
        !tx.is_airplane_ok,
    ensures
        AirplaneTransactions::EndTechnicalCheck(tx).apply(store, now) == Ok::<
            Map<Seq<u8>, AirplaneModel>,
            Error,
        >(
            store.insert(
                tx.pub_key@,
                AirplaneModel::at_rest(
                    tx.pub_key@,
                    store[tx.pub_key@].name,
                    AirplaneState::WaitingForFlight,
                ),
            ),
        ),
{
}

/// A passed technical check starts heating the engine at the current instant
/// for the heating time the transaction names.
pub proof fn lemma_passed_check(
    store: Map<Seq<u8>, AirplaneModel>,
    tx: TxEndTechnicalCheck,
    now: Timestamp,
)
    requires
        store.contains_key(tx.pub_key@),
        store[tx.pub_key@].state == AirplaneState::TechnicalCheck,
        tx.is_airplane_ok,
    ensures
        AirplaneTransactions::EndTechnicalCheck(tx).apply(store, now) == Ok::<
            Map<Seq<u8>, AirplaneModel>,
            Error,
        >(
            store.insert(
                tx.pub_key@,
                AirplaneModel {
                    pub_key: tx.pub_key@,
                    name: store[tx.pub_key@].name,
                    state: AirplaneState::HeatingEngine,
                    engine_heating_start_time: now,
                    engine_heating_time_seconds: tx.engine_heating_time_seconds,
                },
            ),
        ),
{
}

/// Taking off before the heating time has fully elapsed is rejected as an
/// unheated engine; once it has elapsed (equality included) the airplane
/// flies, with both phase fields at their sentinels.
pub proof fn lemma_start_flying(store: Map<Seq<u8>, AirplaneModel>, tx: TxStartFlying, now: Timestamp)
    requires
        store.contains_key(tx.pub_key@),
        store[tx.pub_key@].state == AirplaneState::HeatingEngine,
    ensures
        ({
            let a = store[tx.pub_key@];
            let r = AirplaneTransactions::StartFlying(tx).apply(store, now);
            &&& now.as_nanos() - a.engine_heating_start_time.as_nanos()
                < a.engine_heating_time_seconds * NANOS_PER_SECOND ==> r == Err::<
                Map<Seq<u8>, AirplaneModel>,
                Error,
            >(Error::EngineIsNotHeated)
            &&& now.as_nanos() - a.engine_heating_start_time.as_nanos()
                >= a.engine_heating_time_seconds * NANOS_PER_SECOND ==> r == Ok::<
                Map<Seq<u8>, AirplaneModel>,
                Error,
            >(
                store.insert(
                    tx.pub_key@,
                    AirplaneModel::at_rest(tx.pub_key@, a.name, AirplaneState::Flying),
                ),
            )
        }),
{
}

/// A transaction other than a registration that has just succeeded is not
/// allowed a second time in a row: the record has left the state it needs.
pub proof fn lemma_repeat_not_allowed(
    store: Map<Seq<u8>, AirplaneModel>,
    tx: AirplaneTransactions,
    now: Timestamp,
    later: Timestamp,
)
    requires
        !(tx is Register),
        tx.apply(store, now) is Ok,
    ensures
        tx.apply(tx.apply(store, now)->Ok_0, later) == Err::<Map<Seq<u8>, AirplaneModel>, Error>(
            Error::TransactionIsNotAllowed,
        ),
{
}

/// A full cycle of registration, technical check, a passed check with some
/// heating time, take-off once that time has elapsed, and landing ends with
/// the store exactly as it was right after the registration.
pub proof fn lemma_full_cycle(
    store: Map<Seq<u8>, AirplaneModel>,
    register: TxRegisterAirplane,
    start_check: TxStartTechnicalCheck,
    end_check: TxEndTechnicalCheck,
    start_flying: TxStartFlying,
    end_flying: TxEndFlying,
    registered_at: Timestamp,
    check_started_at: Timestamp,
    heating_started_at: Timestamp,
    took_off_at: Timestamp,
    landed_at: Timestamp,
)
    requires
        !store.contains_key(register.pub_key@),
        start_check.pub_key@ == register.pub_key@,
        end_check.pub_key@ == register.pub_key@,
        start_flying.pub_key@ == register.pub_key@,
        end_flying.pub_key@ == register.pub_key@,
        end_check.is_airplane_ok,
        took_off_at.spec_elapsed_at_least(
            heating_started_at,
            end_check.engine_heating_time_seconds as int,
        ),
    ensures
        ({
            let s1 = AirplaneTransactions::Register(register).apply(store, registered_at);
            let s2 = AirplaneTransactions::StartTechnicalCheck(start_check).apply(
                s1->Ok_0,
                check_started_at,
            );
            let s3 = AirplaneTransactions::EndTechnicalCheck(end_check).apply(
                s2->Ok_0,
                heating_started_at,
            );
            let s4 = AirplaneTransactions::StartFlying(start_flying).apply(s3->Ok_0, took_off_at);
            let s5 = AirplaneTransactions::EndFlying(end_flying).apply(s4->Ok_0, landed_at);
            &&& s1 is Ok
            &&& s2 is Ok
            &&& s3 is Ok
            &&& s4 is Ok
            &&& s5 is Ok
            &&& s5->Ok_0 == s1->Ok_0
            &&& s5->Ok_0[register.pub_key@] == AirplaneModel::at_rest(
                register.pub_key@,
                register.name@,
                AirplaneState::WaitingForFlight,
            )
        }),
{
    let k = register.pub_key@;
    let s1 = AirplaneTransactions::Register(register).apply(store, registered_at)->Ok_0;
    let s2 = AirplaneTransactions::StartTechnicalCheck(start_check).apply(s1, check_started_at)->Ok_0;
    let s3 = AirplaneTransactions::EndTechnicalCheck(end_check).apply(s2, heating_started_at)->Ok_0;
    let s4 = AirplaneTransactions::StartFlying(start_flying).apply(s3, took_off_at)->Ok_0;
    let s5 = AirplaneTransactions::EndFlying(end_flying).apply(s4, landed_at)->Ok_0;
    assert(s5 =~= s1);
}

} // verus!
