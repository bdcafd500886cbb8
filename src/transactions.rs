//! The transactions that move an airplane through its lifecycle, and the
//! rules that decide whether each one is allowed.

use vstd::prelude::*;

use crate::schema::{Airplane, AirplaneModel, AirplaneState, PublicKey, Schema, Timestamp};

verus! {

/// Why a transaction was rejected.
#[derive(Clone, Copy, Debug, PartialEq, Eq, Structural)]
pub enum Error {
    AirplaneAlreadyExists,
    AirplaneDoesNotExist,
    TransactionIsNotAllowed,
    EngineIsNotHeated,
}

impl Error {
    pub open spec fn spec_code(self) -> u8 {
        match self {
            Error::AirplaneAlreadyExists => 0,
            Error::AirplaneDoesNotExist => 1,
            Error::TransactionIsNotAllowed => 2,
            Error::EngineIsNotHeated => 3,
        }
    }

    pub open spec fn spec_description(self) -> Seq<char> {
        match self {
            Error::AirplaneAlreadyExists => "Airplane already exists"@,
            Error::AirplaneDoesNotExist => "Airplane does not exist"@,
            Error::TransactionIsNotAllowed => "Transaction is not allowed"@,
            Error::EngineIsNotHeated => "Engine is not heated"@,
        }
    }

    /// The numeric failure code reported for the rejection.
    pub fn code(&self) -> (r: u8)
        ensures
            r == self.spec_code(),
    {
        match *self {
            Error::AirplaneAlreadyExists => 0,
            Error::AirplaneDoesNotExist => 1,
            Error::TransactionIsNotAllowed => 2,
            Error::EngineIsNotHeated => 3,
        }
    }

    /// The human-readable message reported for the rejection.
    pub fn description(&self) -> (r: &'static str)
        ensures
            r@ == self.spec_description(),
    {
        match *self {
            Error::AirplaneAlreadyExists => "Airplane already exists",
            Error::AirplaneDoesNotExist => "Airplane does not exist",
            Error::TransactionIsNotAllowed => "Transaction is not allowed",
            Error::EngineIsNotHeated => "Engine is not heated",
        }
    }
}

/// Registers a new airplane under `pub_key`.
#[derive(Debug)]
pub struct TxRegisterAirplane {
    pub pub_key: PublicKey,
    pub name: String,
}

/// Starts the technical check of a waiting airplane.
#[derive(Clone, Copy, Debug)]
pub struct TxStartTechnicalCheck {
    pub pub_key: PublicKey,
}

/// Ends the technical check: a sound airplane starts heating its engine for
/// the given number of seconds, any other goes back to waiting.
#[derive(Clone, Copy, Debug)]
pub struct TxEndTechnicalCheck {
    pub pub_key: PublicKey,
    pub is_airplane_ok: bool,
    pub engine_heating_time_seconds: u16,
}

/// Takes off once the engine has heated for long enough.
#[derive(Clone, Copy, Debug)]
pub struct TxStartFlying {
    pub pub_key: PublicKey,
}

/// Lands a flying airplane, which then waits for its next flight.
#[derive(Clone, Copy, Debug)]
pub struct TxEndFlying {
    pub pub_key: PublicKey,
}

/// Any of the airplane transactions.
#[derive(Debug)]
pub enum AirplaneTransactions {
    Register(TxRegisterAirplane),
    StartTechnicalCheck(TxStartTechnicalCheck),
    EndTechnicalCheck(TxEndTechnicalCheck),
    StartFlying(TxStartFlying),
    EndFlying(TxEndFlying),
}

/// The record found under a key of the store, if any.
pub open spec fn current_of(store: Map<Seq<u8>, AirplaneModel>, k: Seq<u8>) -> Option<AirplaneModel> {
    if store.contains_key(k) {
        Some(store[k])
    } else {
        None
    }
}

/// The outcome of a transaction that needs `required` as the current state
/// and, when it holds, yields `next`.
pub open spec fn gated(
    current: Option<AirplaneModel>,
    required: AirplaneState,
    next: Result<AirplaneModel, Error>,
) -> Result<AirplaneModel, Error> {
    match current {
        None => Err(Error::AirplaneDoesNotExist),
        Some(a) => if a.state != required {
            Err(Error::TransactionIsNotAllowed)
        } else {
            next
        },
    }
}

impl AirplaneTransactions {
    /// The key of the airplane the transaction is about.
    pub open spec fn spec_pub_key(self) -> Seq<u8> {
        match self {
            AirplaneTransactions::Register(t) => t.pub_key@,
            AirplaneTransactions::StartTechnicalCheck(t) => t.pub_key@,
            AirplaneTransactions::EndTechnicalCheck(t) => t.pub_key@,
            AirplaneTransactions::StartFlying(t) => t.pub_key@,
            AirplaneTransactions::EndFlying(t) => t.pub_key@,
        }
    }

    /// The record that the transaction produces from the current one (if
    /// any) at instant `now`, or the reason it is rejected.
    pub open spec fn next_record(self, current: Option<AirplaneModel>, now: Timestamp) -> Result<
        AirplaneModel,
        Error,
    > {
        let k = self.spec_pub_key();
        match self {
            AirplaneTransactions::Register(t) => match current {
                Some(_) => Err(Error::AirplaneAlreadyExists),
                None => Ok(AirplaneModel::at_rest(k, t.name@, AirplaneState::WaitingForFlight)),
            },
            AirplaneTransactions::StartTechnicalCheck(_) => gated(
                current,
                AirplaneState::WaitingForFlight,
                Ok(AirplaneModel::at_rest(k, current->0.name, AirplaneState::TechnicalCheck)),
            ),
            AirplaneTransactions::EndTechnicalCheck(t) => gated(
                current,
                AirplaneState::TechnicalCheck,
                if t.is_airplane_ok {
                    Ok(
                        AirplaneModel {
                            pub_key: k,
                            name: current->0.name,
                            state: AirplaneState::HeatingEngine,
                            engine_heating_start_time: now,
                            engine_heating_time_seconds: t.engine_heating_time_seconds,
                        },
                    )
                } else {
                    Ok(AirplaneModel::at_rest(k, current->0.name, AirplaneState::WaitingForFlight))
                },
            ),
            AirplaneTransactions::StartFlying(_) => gated(
                current,
                AirplaneState::HeatingEngine,
                if !now.spec_elapsed_at_least(
                    current->0.engine_heating_start_time,
                    current->0.engine_heating_time_seconds as int,
                ) {
                    Err(Error::EngineIsNotHeated)
                } else {
                    Ok(AirplaneModel::at_rest(k, current->0.name, AirplaneState::Flying))
                },
            ),
            AirplaneTransactions::EndFlying(_) => gated(
                current,
                AirplaneState::Flying,
                Ok(AirplaneModel::at_rest(k, current->0.name, AirplaneState::WaitingForFlight)),
            ),
        }
    }

    /// The store after the transaction at instant `now`, or the reason it is
    /// rejected (the store is then left as it was).
    pub open spec fn apply(self, store: Map<Seq<u8>, AirplaneModel>, now: Timestamp) -> Result<
        Map<Seq<u8>, AirplaneModel>,
        Error,
    > {
        let k = self.spec_pub_key();
        match self.next_record(current_of(store, k), now) {
            Ok(r) => Ok(store.insert(k, r)),
            Err(e) => Err(e),
        }
    }

    /// Whether `r` and the store after the call are what `apply` gives.
    pub open spec fn executed(
        self,
        before: Map<Seq<u8>, AirplaneModel>,
        after: Map<Seq<u8>, AirplaneModel>,
        now: Timestamp,
        r: Result<(), Error>,
    ) -> bool {
        match self.apply(before, now) {
            Ok(m) => r is Ok && after == m,
            Err(e) => r == Err::<(), Error>(e) && after == before,
        }
    }
}

/// The content of an optional record.
pub open spec fn model_of(current: Option<&Airplane>) -> Option<AirplaneModel> {
    match current {
        Some(a) => Some(a@),
        None => None,
    }
}

/// Whether an executable decision agrees with the expected outcome.
pub open spec fn decided(r: Result<Airplane, Error>, expected: Result<AirplaneModel, Error>) -> bool {
    match r {
        Ok(a) => expected == Ok::<AirplaneModel, Error>(a@),
        Err(e) => expected == Err::<AirplaneModel, Error>(e),
    }
}

/// Checks that a record exists and is in the `required` state.
fn check_state(current: Option<&Airplane>, required: AirplaneState) -> (r: Result<(), Error>)
    ensures
        match gated(model_of(current), required, Err(Error::EngineIsNotHeated)) {
            Err(Error::EngineIsNotHeated) => r is Ok,
            Err(e) => r == Err::<(), Error>(e),
            Ok(_) => false,
        },
{
    match current {
        None => Err(Error::AirplaneDoesNotExist),
        Some(a) => if a.state != required {
            Err(Error::TransactionIsNotAllowed)
        } else {
            Ok(())
        },
    }
}

/// Replaces the record under the transaction's key by what `decision` holds.
fn commit(schema: &mut Schema, decision: Result<Airplane, Error>) -> (r: Result<(), Error>)
    requires
        old(schema).wf(),
    ensures
        final(schema).wf(),
        match decision {
            Ok(a) => r is Ok && final(schema)@ == old(schema)@.insert(a@.pub_key, a@),
            Err(e) => r == Err::<(), Error>(e) && final(schema)@ == old(schema)@,
        },
{
    match decision {
        Ok(a) => {
            schema.put(a);
            Ok(())
        },
        Err(e) => Err(e),
    }
}

impl TxRegisterAirplane {
    /// The record that registration produces, or why it is rejected.
    pub fn decide(&self, current: Option<&Airplane>) -> (r: Result<Airplane, Error>)
        ensures
            decided(
                r,
                AirplaneTransactions::Register(*self).next_record(
                    model_of(current),
                    Timestamp::spec_epoch(),
                ),
            ),
    {
        match current {
            Some(_) => Err(Error::AirplaneAlreadyExists),
            None => Ok(Airplane::at_rest(&self.pub_key, self.name.as_str(), AirplaneState::WaitingForFlight)),
        }
    }

    pub fn execute(&self, schema: &mut Schema) -> (r: Result<(), Error>)
        requires
            old(schema).wf(),
        ensures
            final(schema).wf(),
            AirplaneTransactions::Register(*self).executed(
                old(schema)@,
                final(schema)@,
                Timestamp::spec_epoch(),
                r,
            ),
    {
        let current = schema.airplane(&self.pub_key);
        let decision = self.decide(current.as_ref());
        commit(schema, decision)
    }
}

impl TxStartTechnicalCheck {
    /// The record that starting the check produces, or why it is rejected.
    pub fn decide(&self, current: Option<&Airplane>) -> (r: Result<Airplane, Error>)
        ensures
            decided(
                r,
                AirplaneTransactions::StartTechnicalCheck(*self).next_record(
                    model_of(current),
                    Timestamp::spec_epoch(),
                ),
            ),
    {
        match check_state(current, AirplaneState::WaitingForFlight) {
            Err(e) => Err(e),
            Ok(()) => {
                let a = current.unwrap();
                Ok(Airplane::at_rest(&self.pub_key, a.name.as_str(), AirplaneState::TechnicalCheck))
            },
        }
    }

    pub fn execute(&self, schema: &mut Schema) -> (r: Result<(), Error>)
        requires
            old(schema).wf(),
        ensures
            final(schema).wf(),
            AirplaneTransactions::StartTechnicalCheck(*self).executed(
                old(schema)@,
                final(schema)@,
                Timestamp::spec_epoch(),
                r,
            ),
    {
        let current = schema.airplane(&self.pub_key);
        let decision = self.decide(current.as_ref());
        commit(schema, decision)
    }
}

impl TxEndTechnicalCheck {
    /// The record that ending the check at `current_time` produces, or why
    /// it is rejected.
    pub fn decide(&self, current: Option<&Airplane>, current_time: Timestamp) -> (r: Result<
        Airplane,
        Error,
    >)
        ensures
            decided(
                r,
                AirplaneTransactions::EndTechnicalCheck(*self).next_record(
                    model_of(current),
                    current_time,
                ),
            ),
    {
        match check_state(current, AirplaneState::TechnicalCheck) {
            Err(e) => Err(e),
            Ok(()) => {
                let a = current.unwrap();
                if self.is_airplane_ok {
                    Ok(
                        Airplane::new(
                            &self.pub_key,
                            a.name.as_str(),
                            AirplaneState::HeatingEngine,
                            current_time,
                            self.engine_heating_time_seconds,
                        ),
                    )
                } else {
                    Ok(Airplane::at_rest(&self.pub_key, a.name.as_str(), AirplaneState::WaitingForFlight))
                }
            },
        }
    }

    pub fn execute(&self, schema: &mut Schema, current_time: Timestamp) -> (r: Result<(), Error>)
        requires
            old(schema).wf(),
        ensures
            final(schema).wf(),
            AirplaneTransactions::EndTechnicalCheck(*self).executed(
                old(schema)@,
                final(schema)@,
                current_time,
                r,
            ),
    {
        let current = schema.airplane(&self.pub_key);
        let decision = self.decide(current.as_ref(), current_time);
        commit(schema, decision)
    }
}

impl TxStartFlying {
    /// The record that taking off at `current_time` produces, or why it is
    /// rejected.
    pub fn decide(&self, current: Option<&Airplane>, current_time: Timestamp) -> (r: Result<
        Airplane,
        Error,
    >)
        ensures
            decided(
                r,
                AirplaneTransactions::StartFlying(*self).next_record(model_of(current), current_time),
            ),
    {
        match check_state(current, AirplaneState::HeatingEngine) {
            Err(e) => Err(e),
            Ok(()) => {
                let a = current.unwrap();
                if !current_time.elapsed_at_least(
                    &a.engine_heating_start_time,
                    a.engine_heating_time_seconds,
                ) {
                    Err(Error::EngineIsNotHeated)
                } else {
                    Ok(Airplane::at_rest(&self.pub_key, a.name.as_str(), AirplaneState::Flying))
                }
            },
        }
    }

    pub fn execute(&self, schema: &mut Schema, current_time: Timestamp) -> (r: Result<(), Error>)
        requires
            old(schema).wf(),
        ensures
            final(schema).wf(),
            AirplaneTransactions::StartFlying(*self).executed(
                old(schema)@,
                final(schema)@,
                current_time,
                r,
            ),
    {
        let current = schema.airplane(&self.pub_key);
        let decision = self.decide(current.as_ref(), current_time);
        commit(schema, decision)
    }
}

impl TxEndFlying {
    /// The record that landing produces, or why it is rejected.
    pub fn decide(&self, current: Option<&Airplane>) -> (r: Result<Airplane, Error>)
        ensures
            decided(
                r,
                AirplaneTransactions::EndFlying(*self).next_record(
                    model_of(current),
                    Timestamp::spec_epoch(),
                ),
            ),
    {
        match check_state(current, AirplaneState::Flying) {
            Err(e) => Err(e),
            Ok(()) => {
                let a = current.unwrap();
                Ok(Airplane::at_rest(&self.pub_key, a.name.as_str(), AirplaneState::WaitingForFlight))
            },
        }
    }

    pub fn execute(&self, schema: &mut Schema) -> (r: Result<(), Error>)
        requires
            old(schema).wf(),
        ensures
            final(schema).wf(),
            AirplaneTransactions::EndFlying(*self).executed(
                old(schema)@,
                final(schema)@,
                Timestamp::spec_epoch(),
                r,
            ),
    {
        let current = schema.airplane(&self.pub_key);
        let decision = self.decide(current.as_ref());
        commit(schema, decision)
    }
}

impl AirplaneTransactions {
    /// The key of the airplane the transaction is about.
    pub fn pub_key(&self) -> (r: &PublicKey)
        ensures
            r@ == self.spec_pub_key(),
    {
        match self {
            AirplaneTransactions::Register(t) => &t.pub_key,
            AirplaneTransactions::StartTechnicalCheck(t) => &t.pub_key,
            AirplaneTransactions::EndTechnicalCheck(t) => &t.pub_key,
            AirplaneTransactions::StartFlying(t) => &t.pub_key,
            AirplaneTransactions::EndFlying(t) => &t.pub_key,
        }
    }

    /// The record that the transaction produces from `current` at
    /// `current_time`, or why it is rejected.
    pub fn decide(&self, current: Option<&Airplane>, current_time: Timestamp) -> (r: Result<
        Airplane,
        Error,
    >)
        ensures
            decided(r, self.next_record(model_of(current), current_time)),
    {
        match self {
            AirplaneTransactions::Register(t) => t.decide(current),
            AirplaneTransactions::StartTechnicalCheck(t) => t.decide(current),
            AirplaneTransactions::EndTechnicalCheck(t) => t.decide(current, current_time),
            AirplaneTransactions::StartFlying(t) => t.decide(current, current_time),
            AirplaneTransactions::EndFlying(t) => t.decide(current),
        }
    }

    /// Applies the transaction to the store at `current_time`: on success the
    /// record under its key is replaced, on rejection nothing changes.
    pub fn execute(&self, schema: &mut Schema, current_time: Timestamp) -> (r: Result<(), Error>)
        requires
            old(schema).wf(),
        ensures
            final(schema).wf(),
            self.executed(old(schema)@, final(schema)@, current_time, r),
    {
        let current = schema.airplane(self.pub_key());
        let decision = self.decide(current.as_ref(), current_time);
        commit(schema, decision)
    }
}

} // verus!
