use airplane::schema::{Airplane, AirplaneState, PublicKey, Schema, Timestamp};
use airplane::service::{AirplaneApi, AirplaneQuery, AirplaneService, ApiError, SERVICE_ID, SERVICE_NAME};
use airplane::transactions::{
    AirplaneTransactions, Error, TxEndFlying, TxEndTechnicalCheck, TxRegisterAirplane,
    TxStartFlying, TxStartTechnicalCheck,
};

fn key(b: u8) -> PublicKey {
    PublicKey::new([b; 32])
}

fn lookup(schema: &Schema, k: PublicKey) -> Option<Airplane> {
    match AirplaneApi::get_airplane(schema, AirplaneQuery { pub_key: k }) {
        Ok(a) => Some(a),
        Err(ApiError::NotFound(_)) => None,
    }
}

fn register(schema: &mut Schema, k: PublicKey, name: &str) -> Result<(), Error> {
    TxRegisterAirplane { pub_key: k, name: name.to_string() }.execute(schema)
}

fn assert_at_rest(a: &Airplane, state: AirplaneState) {
    assert_eq!(a.state(), state);
    assert_eq!(a.engine_heating_start_time(), Timestamp::epoch());
    assert_eq!(a.engine_heating_time_seconds(), 0);
}

fn in_technical_check(schema: &mut Schema, k: PublicKey) {
    register(schema, k, "Boeing").unwrap();
    TxStartTechnicalCheck { pub_key: k }.execute(schema).unwrap();
}

#[test]
fn register_then_get_is_waiting_for_flight() {
    let mut s = Schema::new();
    assert!(register(&mut s, key(1), "Boeing").is_ok());
    let a = lookup(&s, key(1)).unwrap();
    assert_eq!(a.name(), "Boeing");
    assert!(a.pub_key().same_as(&key(1)));
    assert_at_rest(&a, AirplaneState::WaitingForFlight);
    assert_eq!(a.state_number(), 0);
    assert_eq!(a.state_str(), "Waiting for flight");
}

#[test]
fn unknown_airplane_is_not_found() {
    let mut s = Schema::new();
    register(&mut s, key(1), "Boeing").unwrap();
    match AirplaneApi::get_airplane(&s, AirplaneQuery { pub_key: key(2) }) {
        Err(ApiError::NotFound(m)) => assert_eq!(m, "\"Airplane not found\""),
        Ok(_) => panic!("found an airplane that was never registered"),
    }
}

#[test]
fn register_twice_already_exists() {
    let mut s = Schema::new();
    register(&mut s, key(1), "Boeing").unwrap();
    assert_eq!(register(&mut s, key(1), "Airbus"), Err(Error::AirplaneAlreadyExists));
    let a = lookup(&s, key(1)).unwrap();
    assert_eq!(a.name(), "Boeing");
    assert_at_rest(&a, AirplaneState::WaitingForFlight);
}

#[test]
fn other_keys_are_independent() {
    let mut s = Schema::new();
    register(&mut s, key(1), "Boeing").unwrap();
    register(&mut s, key(2), "Airbus").unwrap();
    TxStartTechnicalCheck { pub_key: key(2) }.execute(&mut s).unwrap();
    assert_eq!(lookup(&s, key(1)).unwrap().state(), AirplaneState::WaitingForFlight);
    assert_eq!(lookup(&s, key(2)).unwrap().state(), AirplaneState::TechnicalCheck);
    assert_eq!(lookup(&s, key(2)).unwrap().name(), "Airbus");
}

#[test]
fn unregistered_airplane_does_not_exist() {
    let mut s = Schema::new();
    let now = Timestamp::new(100, 0);
    assert_eq!(TxStartTechnicalCheck { pub_key: key(3) }.execute(&mut s), Err(Error::AirplaneDoesNotExist));
    let end_check = TxEndTechnicalCheck { pub_key: key(3), is_airplane_ok: true, engine_heating_time_seconds: 1 };
    assert_eq!(end_check.execute(&mut s, now), Err(Error::AirplaneDoesNotExist));
    assert_eq!(TxStartFlying { pub_key: key(3) }.execute(&mut s, now), Err(Error::AirplaneDoesNotExist));
    assert_eq!(TxEndFlying { pub_key: key(3) }.execute(&mut s), Err(Error::AirplaneDoesNotExist));
    assert!(lookup(&s, key(3)).is_none());
}

#[test]
fn waiting_for_flight_allows_only_technical_check() {
    let mut s = Schema::new();
    let now = Timestamp::new(100, 0);
    register(&mut s, key(1), "Boeing").unwrap();
    let end_check = TxEndTechnicalCheck { pub_key: key(1), is_airplane_ok: true, engine_heating_time_seconds: 1 };
    assert_eq!(end_check.execute(&mut s, now), Err(Error::TransactionIsNotAllowed));
    assert_eq!(TxStartFlying { pub_key: key(1) }.execute(&mut s, now), Err(Error::TransactionIsNotAllowed));
    assert_eq!(TxEndFlying { pub_key: key(1) }.execute(&mut s), Err(Error::TransactionIsNotAllowed));
    assert_at_rest(&lookup(&s, key(1)).unwrap(), AirplaneState::WaitingForFlight);
    assert!(TxStartTechnicalCheck { pub_key: key(1) }.execute(&mut s).is_ok());
    assert_at_rest(&lookup(&s, key(1)).unwrap(), AirplaneState::TechnicalCheck);
}

#[test]
fn failed_check_returns_to_waiting() {
    let mut s = Schema::new();
    in_technical_check(&mut s, key(1));
    let end_check = TxEndTechnicalCheck { pub_key: key(1), is_airplane_ok: false, engine_heating_time_seconds: 600 };
    assert!(end_check.execute(&mut s, Timestamp::new(1_000, 5)).is_ok());
    let a = lookup(&s, key(1)).unwrap();
    assert_at_rest(&a, AirplaneState::WaitingForFlight);
    assert_eq!(a.name(), "Boeing");
}

#[test]
fn passed_check_starts_heating() {
    let mut s = Schema::new();
    in_technical_check(&mut s, key(1));
    let now = Timestamp::new(1_000, 5);
    let end_check = TxEndTechnicalCheck { pub_key: key(1), is_airplane_ok: true, engine_heating_time_seconds: 30 };
    assert!(end_check.execute(&mut s, now).is_ok());
    let a = lookup(&s, key(1)).unwrap();
    assert_eq!(a.state(), AirplaneState::HeatingEngine);
    assert_eq!(a.engine_heating_start_time(), now);
    assert_eq!(a.engine_heating_time_seconds(), 30);
    assert_eq!(a.state_number(), 2);
    assert_eq!(a.state_str(), "Heating engine");
}

#[test]
fn start_flying_waits_for_heating() {
    let mut s = Schema::new();
    in_technical_check(&mut s, key(1));
    let end_check = TxEndTechnicalCheck { pub_key: key(1), is_airplane_ok: true, engine_heating_time_seconds: 10 };
    end_check.execute(&mut s, Timestamp::new(1_000, 500)).unwrap();
    let start = TxStartFlying { pub_key: key(1) };
    assert_eq!(start.execute(&mut s, Timestamp::new(1_005, 0)), Err(Error::EngineIsNotHeated));
    assert_eq!(start.execute(&mut s, Timestamp::new(1_010, 499)), Err(Error::EngineIsNotHeated));
    assert_eq!(lookup(&s, key(1)).unwrap().state(), AirplaneState::HeatingEngine);
    assert!(start.execute(&mut s, Timestamp::new(1_010, 500)).is_ok());
    let a = lookup(&s, key(1)).unwrap();
    assert_at_rest(&a, AirplaneState::Flying);
    assert_eq!(a.state_str(), "Flying");
}

#[test]
fn zero_heating_time_allows_immediate_take_off() {
    let mut s = Schema::new();
    in_technical_check(&mut s, key(1));
    let now = Timestamp::new(77, 0);
    let end_check = TxEndTechnicalCheck { pub_key: key(1), is_airplane_ok: true, engine_heating_time_seconds: 0 };
    end_check.execute(&mut s, now).unwrap();
    assert!(TxStartFlying { pub_key: key(1) }.execute(&mut s, now).is_ok());
}

#[test]
fn largest_heating_time() {
    let mut s = Schema::new();
    in_technical_check(&mut s, key(1));
    let end_check = TxEndTechnicalCheck { pub_key: key(1), is_airplane_ok: true, engine_heating_time_seconds: u16::MAX };
    end_check.execute(&mut s, Timestamp::new(i64::MIN, 0)).unwrap();
    let start = TxStartFlying { pub_key: key(1) };
    assert_eq!(start.execute(&mut s, Timestamp::new(i64::MIN + 65_534, 999_999_999)), Err(Error::EngineIsNotHeated));
    assert!(start.execute(&mut s, Timestamp::new(i64::MIN + 65_535, 0)).is_ok());
}

#[test]
fn elapsed_time_is_exact() {
    let start = Timestamp::new(10, 900_000_000);
    assert!(Timestamp::new(12, 900_000_000).elapsed_at_least(&start, 2));
    assert!(!Timestamp::new(12, 899_999_999).elapsed_at_least(&start, 2));
    assert!(Timestamp::new(10, 900_000_000).elapsed_at_least(&start, 0));
    assert!(!Timestamp::new(9, 0).elapsed_at_least(&start, 0));
}

#[test]
fn full_cycle_ends_waiting_for_flight() {
    let mut s = Schema::new();
    register(&mut s, key(9), "Tupolev").unwrap();
    let after_register = lookup(&s, key(9)).unwrap();
    TxStartTechnicalCheck { pub_key: key(9) }.execute(&mut s).unwrap();
    let end_check = TxEndTechnicalCheck { pub_key: key(9), is_airplane_ok: true, engine_heating_time_seconds: 5 };
    end_check.execute(&mut s, Timestamp::new(2_000, 0)).unwrap();
    TxStartFlying { pub_key: key(9) }.execute(&mut s, Timestamp::new(2_005, 0)).unwrap();
    TxEndFlying { pub_key: key(9) }.execute(&mut s).unwrap();
    let a = lookup(&s, key(9)).unwrap();
    assert_at_rest(&a, AirplaneState::WaitingForFlight);
    assert_eq!(a.name(), after_register.name());
    assert!(a.pub_key().same_as(after_register.pub_key()));
}

#[test]
fn repeated_transitions_not_allowed() {
    let mut s = Schema::new();
    let k = key(4);
    register(&mut s, k, "Ilyushin").unwrap();
    let start_check = TxStartTechnicalCheck { pub_key: k };
    start_check.execute(&mut s).unwrap();
    assert_eq!(start_check.execute(&mut s), Err(Error::TransactionIsNotAllowed));
    let end_check = TxEndTechnicalCheck { pub_key: k, is_airplane_ok: true, engine_heating_time_seconds: 1 };
    end_check.execute(&mut s, Timestamp::new(0, 0)).unwrap();
    assert_eq!(end_check.execute(&mut s, Timestamp::new(0, 0)), Err(Error::TransactionIsNotAllowed));
    let start_flying = TxStartFlying { pub_key: k };
    start_flying.execute(&mut s, Timestamp::new(1, 0)).unwrap();
    assert_eq!(start_flying.execute(&mut s, Timestamp::new(1, 0)), Err(Error::TransactionIsNotAllowed));
    let end_flying = TxEndFlying { pub_key: k };
    end_flying.execute(&mut s).unwrap();
    assert_eq!(end_flying.execute(&mut s), Err(Error::TransactionIsNotAllowed));
    assert_at_rest(&lookup(&s, k).unwrap(), AirplaneState::WaitingForFlight);
}

#[test]
fn dispatch_through_transaction_enum() {
    let mut s = Schema::new();
    let k = key(5);
    let now = Timestamp::new(50, 0);
    let txs = vec![
        AirplaneTransactions::Register(TxRegisterAirplane { pub_key: k, name: "Sukhoi".to_string() }),
        AirplaneTransactions::StartTechnicalCheck(TxStartTechnicalCheck { pub_key: k }),
        AirplaneTransactions::EndTechnicalCheck(TxEndTechnicalCheck { pub_key: k, is_airplane_ok: true, engine_heating_time_seconds: 3 }),
    ];
    for tx in txs.iter() {
        assert!(tx.pub_key().same_as(&k));
        assert!(tx.execute(&mut s, now).is_ok());
    }
    let fly = AirplaneTransactions::StartFlying(TxStartFlying { pub_key: k });
    assert_eq!(fly.execute(&mut s, Timestamp::new(52, 999_999_999)), Err(Error::EngineIsNotHeated));
    assert!(fly.execute(&mut s, Timestamp::new(53, 0)).is_ok());
    assert_eq!(lookup(&s, k).unwrap().state(), AirplaneState::Flying);
}

#[test]
fn decide_does_not_touch_the_store() {
    let k = key(6);
    let waiting = Airplane::at_rest(&k, "An-2", AirplaneState::WaitingForFlight);
    let next = TxStartTechnicalCheck { pub_key: k }.decide(Some(&waiting)).unwrap();
    assert_at_rest(&next, AirplaneState::TechnicalCheck);
    assert_eq!(next.name(), "An-2");
    assert!(TxRegisterAirplane { pub_key: k, name: "An-2".to_string() }.decide(None).is_ok());
    assert!(TxEndFlying { pub_key: k }.decide(None).is_err());
}

#[test]
fn error_codes_and_descriptions() {
    assert_eq!(Error::AirplaneAlreadyExists.code(), 0);
    assert_eq!(Error::AirplaneDoesNotExist.code(), 1);
    assert_eq!(Error::TransactionIsNotAllowed.code(), 2);
    assert_eq!(Error::EngineIsNotHeated.code(), 3);
    assert_eq!(Error::AirplaneAlreadyExists.description(), "Airplane already exists");
    assert_eq!(Error::AirplaneDoesNotExist.description(), "Airplane does not exist");
    assert_eq!(Error::TransactionIsNotAllowed.description(), "Transaction is not allowed");
    assert_eq!(Error::EngineIsNotHeated.description(), "Engine is not heated");
}

#[test]
fn state_labels_and_numbers() {
    assert_eq!(AirplaneState::WaitingForFlight.to_string(), "Waiting for flight");
    assert_eq!(AirplaneState::TechnicalCheck.to_string(), "Technical check");
    assert_eq!(AirplaneState::HeatingEngine.to_string(), "Heating engine");
    assert_eq!(AirplaneState::Flying.to_string(), "Flying");
    assert_eq!(AirplaneState::TechnicalCheck.number(), 1);
    assert_eq!(AirplaneState::Flying.number(), 3);
}

#[test]
fn service_identity() {
    let service = AirplaneService;
    assert_eq!(service.service_id(), 1);
    assert_eq!(service.service_id(), SERVICE_ID);
    assert_eq!(service.service_name(), "airplane");
    assert_eq!(service.service_name(), SERVICE_NAME);
}

#[test]
fn keys_compare_by_every_byte() {
    let mut bytes = [7u8; 32];
    let a = PublicKey::new(bytes);
    bytes[31] = 8;
    let b = PublicKey::new(bytes);
    assert!(a.same_as(&a));
    assert!(!a.same_as(&b));
}
