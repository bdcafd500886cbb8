//! Data model of the airplane registry: keys, instants, lifecycle states,
//! airplane records and the keyed record store.

use vstd::prelude::*;

verus! {

/// Number of bytes in a public key.
pub const PUBLIC_KEY_LENGTH: usize = 32;

/// Number of nanoseconds in one second.
pub const NANOS_PER_SECOND: i128 = 1_000_000_000;

/// A fixed-size opaque public key: the identity of an airplane and its
/// storage key.
#[derive(Clone, Copy, Debug)]
pub struct PublicKey {
    pub bytes: [u8; 32],
}

impl View for PublicKey {
    type V = Seq<u8>;

    open spec fn view(&self) -> Seq<u8> {
        self.bytes@
    }
}

impl PublicKey {
    pub fn new(bytes: [u8; 32]) -> (r: PublicKey)
        ensures
            r@ == bytes@,
    {
        PublicKey { bytes }
    }

    /// Byte-wise comparison of two keys.
    pub fn same_as(&self, other: &PublicKey) -> (r: bool)
        ensures
            r == (self@ == other@),
    {
        let mut i: usize = 0;
        while i < PUBLIC_KEY_LENGTH
            invariant
                i <= PUBLIC_KEY_LENGTH,
                self@.len() == PUBLIC_KEY_LENGTH,
                other@.len() == PUBLIC_KEY_LENGTH,
                forall|j: int| 0 <= j < i ==> self@[j] == other@[j],
            decreases PUBLIC_KEY_LENGTH - i,
        {
            if self.bytes[i] != other.bytes[i] {
                return false;
            }
            i = i + 1;
        }
        assert(self@ =~= other@);
        true
    }
}

/// An instant on the trusted clock: whole seconds since the Unix epoch and
/// the nanoseconds past that second.
#[derive(Clone, Copy, Debug, PartialEq, Eq, Structural)]
pub struct Timestamp {
    pub secs: i64,
    pub nanos: u32,
}

impl Timestamp {
    /// The instant as a number of nanoseconds since the epoch.
    pub open spec fn as_nanos(self) -> int {
        self.secs * NANOS_PER_SECOND + self.nanos
    }

    /// The epoch itself, used as the "no phase running" sentinel.
    pub open spec fn spec_epoch() -> Timestamp {
        Timestamp { secs: 0, nanos: 0 }
    }

    pub fn epoch() -> (r: Timestamp)
        ensures
            r == Timestamp::spec_epoch(),
    {
        Timestamp { secs: 0, nanos: 0 }
    }

    pub fn new(secs: i64, nanos: u32) -> (r: Timestamp)
        ensures
            r.secs == secs,
            r.nanos == nanos,
    {
        Timestamp { secs, nanos }
    }

    /// Whether at least `seconds` whole seconds have passed from `start` to
    /// `self`.
    pub open spec fn spec_elapsed_at_least(self, start: Timestamp, seconds: int) -> bool {
        self.as_nanos() - start.as_nanos() >= seconds * NANOS_PER_SECOND
    }

    pub fn elapsed_at_least(&self, start: &Timestamp, seconds: u16) -> (r: bool)
        ensures
            r == self.spec_elapsed_at_least(*start, seconds as int),
    {
        let now: i128 = self.secs as i128 * NANOS_PER_SECOND + self.nanos as i128;
        let then: i128 = start.secs as i128 * NANOS_PER_SECOND + start.nanos as i128;
        let needed: i128 = seconds as i128 * NANOS_PER_SECOND;
        now - then >= needed
    }
}

/// The lifecycle state of an airplane.
#[derive(Clone, Copy, Debug, PartialEq, Eq, Structural)]
pub enum AirplaneState {
    WaitingForFlight,
    TechnicalCheck,
    HeatingEngine,
    Flying,
}

impl AirplaneState {
    /// The display form of a state.
    pub open spec fn spec_label(self) -> Seq<char> {
        match self {
            AirplaneState::WaitingForFlight => "Waiting for flight"@,
            AirplaneState::TechnicalCheck => "Technical check"@,
            AirplaneState::HeatingEngine => "Heating engine"@,
            AirplaneState::Flying => "Flying"@,
        }
    }

    /// The ordinal of a state, in lifecycle order.
    pub open spec fn spec_number(self) -> u8 {
        match self {
            AirplaneState::WaitingForFlight => 0,
            AirplaneState::TechnicalCheck => 1,
            AirplaneState::HeatingEngine => 2,
            AirplaneState::Flying => 3,
        }
    }

    pub fn to_string(&self) -> (r: &'static str)
        ensures
            r@ == self.spec_label(),
    {
        match *self {
            AirplaneState::WaitingForFlight => "Waiting for flight",
            AirplaneState::TechnicalCheck => "Technical check",
            AirplaneState::HeatingEngine => "Heating engine",
            AirplaneState::Flying => "Flying",
        }
    }

    pub fn number(&self) -> (r: u8)
        ensures
            r == self.spec_number(),
    {
        match *self {
            AirplaneState::WaitingForFlight => 0,
            AirplaneState::TechnicalCheck => 1,
            AirplaneState::HeatingEngine => 2,
            AirplaneState::Flying => 3,
        }
    }
}

/// The mathematical content of an airplane record.
pub struct AirplaneModel {
    pub pub_key: Seq<u8>,
    pub name: Seq<char>,
    pub state: AirplaneState,
    pub engine_heating_start_time: Timestamp,
    pub engine_heating_time_seconds: u16,
}

impl AirplaneModel {
    /// The phase fields are set only while the engine is heating.
    pub open spec fn wf(self) -> bool {
        self.state != AirplaneState::HeatingEngine ==> {
            &&& self.engine_heating_start_time == Timestamp::spec_epoch()
            &&& self.engine_heating_time_seconds == 0
        }
    }

    /// A record in `state` with both phase fields at their sentinel values.
    pub open spec fn at_rest(pub_key: Seq<u8>, name: Seq<char>, state: AirplaneState) -> AirplaneModel {
        AirplaneModel {
            pub_key,
            name,
            state,
            engine_heating_start_time: Timestamp::spec_epoch(),
            engine_heating_time_seconds: 0,
        }
    }
}

/// The record stored for one airplane. Every transition replaces it whole.
#[derive(Debug)]
pub struct Airplane {
    pub pub_key: PublicKey,
    pub name: String,
    pub state: AirplaneState,
    pub engine_heating_start_time: Timestamp,
    pub engine_heating_time_seconds: u16,
}

impl View for Airplane {
    type V = AirplaneModel;

    open spec fn view(&self) -> AirplaneModel {
        AirplaneModel {
            pub_key: self.pub_key@,
            name: self.name@,
            state: self.state,
            engine_heating_start_time: self.engine_heating_start_time,
            engine_heating_time_seconds: self.engine_heating_time_seconds,
        }
    }
}

impl Airplane {
    pub fn new(
        pub_key: &PublicKey,
        name: &str,
        state: AirplaneState,
        engine_heating_start_time: Timestamp,
        engine_heating_time_seconds: u16,
    ) -> (r: Airplane)
        ensures
            r@ == (AirplaneModel {
                pub_key: pub_key@,
                name: name@,
                state,
                engine_heating_start_time,
                engine_heating_time_seconds,
            }),
    {
        Airplane {
            pub_key: *pub_key,
            name: name.to_string(),
            state,
            engine_heating_start_time,
            engine_heating_time_seconds,
        }
    }

    /// A record in `state` whose phase fields are at their sentinel values.
    pub fn at_rest(pub_key: &PublicKey, name: &str, state: AirplaneState) -> (r: Airplane)
        ensures
            r@ == AirplaneModel::at_rest(pub_key@, name@, state),
            r@.wf(),
    {
        Airplane::new(pub_key, name, state, Timestamp::epoch(), 0)
    }

    /// A copy of the record.
    pub fn duplicate(&self) -> (r: Airplane)
        ensures
            r@ == self@,
    {
        Airplane {
            pub_key: self.pub_key,
            name: self.name.clone(),
            state: self.state,
            engine_heating_start_time: self.engine_heating_start_time,
            engine_heating_time_seconds: self.engine_heating_time_seconds,
        }
    }

    pub fn pub_key(&self) -> (r: &PublicKey)
        ensures
            r@ == self@.pub_key,
    {
        &self.pub_key
    }

    pub fn name(&self) -> (r: &str)
        ensures
            r@ == self@.name,
    {
        self.name.as_str()
    }

    pub fn state(&self) -> (r: AirplaneState)
        ensures
            r == self@.state,
    {
        self.state
    }

    pub fn state_number(&self) -> (r: u8)
        ensures
            r == self@.state.spec_number(),
    {
        self.state.number()
    }

    pub fn state_str(&self) -> (r: &'static str)
        ensures
            r@ == self@.state.spec_label(),
    {
        self.state.to_string()
    }

    pub fn engine_heating_start_time(&self) -> (r: Timestamp)
        ensures
            r == self@.engine_heating_start_time,
    {
        self.engine_heating_start_time
    }

    pub fn engine_heating_time_seconds(&self) -> (r: u16)
        ensures
            r == self@.engine_heating_time_seconds,
    {
        self.engine_heating_time_seconds
    }
}

/// The keyed content of a sequence of records: each record under its own key,
/// a later record replacing an earlier one with the same key.
pub open spec fn records_by_key(s: Seq<AirplaneModel>) -> Map<Seq<u8>, AirplaneModel>
    decreases s.len(),
{
    if s.len() == 0 {
        Map::empty()
    } else {
        records_by_key(s.drop_last()).insert(s.last().pub_key, s.last())
    }
}

/// No two records of the sequence share a key.
pub open spec fn keys_unique(s: Seq<AirplaneModel>) -> bool {
    forall|i: int, j: int| 0 <= i < s.len() && 0 <= j < s.len() && i != j ==> s[i].pub_key != s[j].pub_key
}

proof fn lemma_records_by_key_absent(s: Seq<AirplaneModel>, k: Seq<u8>)
    requires
        forall|i: int| 0 <= i < s.len() ==> s[i].pub_key != k,
    ensures
        !records_by_key(s).contains_key(k),
    decreases s.len(),
{
    if s.len() > 0 {
        lemma_records_by_key_absent(s.drop_last(), k);
    }
}

proof fn lemma_records_by_key_present(s: Seq<AirplaneModel>, i: int)
    requires
        keys_unique(s),
        0 <= i < s.len(),
    ensures
        records_by_key(s).contains_key(s[i].pub_key),
        records_by_key(s)[s[i].pub_key] == s[i],
    decreases s.len(),
{
    if i < s.len() - 1 {
        lemma_records_by_key_present(s.drop_last(), i);
    }
}

proof fn lemma_records_by_key_replace(s: Seq<AirplaneModel>, i: int, a: AirplaneModel)
    requires
        keys_unique(s),
        0 <= i < s.len(),
        a.pub_key == s[i].pub_key,
    ensures
        records_by_key(s.update(i, a)) == records_by_key(s).insert(a.pub_key, a),
    decreases s.len(),
{
    let t = s.update(i, a);
    if i == s.len() - 1 {
        assert(t.drop_last() =~= s.drop_last());
        lemma_records_by_key_absent(s.drop_last(), a.pub_key);
        assert(records_by_key(t) =~= records_by_key(s).insert(a.pub_key, a));
    } else {
        assert(t.drop_last() =~= s.drop_last().update(i, a));
        lemma_records_by_key_replace(s.drop_last(), i, a);
        assert(records_by_key(t) =~= records_by_key(s).insert(a.pub_key, a));
    }
}

/// Every record of the store is kept under its own key and holds its phase
/// fields at the sentinels outside the heating phase.
pub open spec fn store_consistent(store: Map<Seq<u8>, AirplaneModel>) -> bool {
    forall|k: Seq<u8>| #[trigger] store.contains_key(k) ==> store[k].pub_key == k && store[k].wf()
}

/// The store of airplane records, one per public key.
#[derive(Debug)]
pub struct Schema {
    airplanes: Vec<Airplane>,
}

impl Schema {
    pub closed spec fn records(&self) -> Seq<AirplaneModel> {
        self.airplanes@.map_values(|a: Airplane| a@)
    }

    /// At most one record per key.
    pub closed spec fn wf(&self) -> bool {
        keys_unique(self.records())
    }

    pub fn new() -> (r: Schema)
        ensures
            r.wf(),
            r@ == Map::<Seq<u8>, AirplaneModel>::empty(),
    {
        let r = Schema { airplanes: Vec::new() };
        assert(r.records() =~= Seq::<AirplaneModel>::empty());
        assert(r@ =~= Map::<Seq<u8>, AirplaneModel>::empty());
        r
    }

    /// The position of the record stored under `key`, if any.
    fn position(&self, key: &PublicKey) -> (r: Option<usize>)
        requires
            self.wf(),
        ensures
            match r {
                Some(i) => i < self.airplanes@.len() && self.records()[i as int].pub_key == key@,
                None => !self@.contains_key(key@),
            },
    {
        let mut i: usize = 0;
        while i < self.airplanes.len()
            invariant
                i <= self.airplanes@.len(),
                self.records().len() == self.airplanes@.len(),
                forall|j: int| 0 <= j < i ==> self.records()[j].pub_key != key@,
            decreases self.airplanes@.len() - i,
        {
            if self.airplanes[i].pub_key.same_as(key) {
                return Some(i);
            }
            i = i + 1;
        }
        proof {
            lemma_records_by_key_absent(self.records(), key@);
        }
        None
    }

    /// The record stored under `key`, if any.
    pub fn airplane(&self, key: &PublicKey) -> (r: Option<Airplane>)
        requires
            self.wf(),
        ensures
            match r {
                Some(a) => self@.contains_key(key@) && a@ == self@[key@],
                None => !self@.contains_key(key@),
            },
    {
        match self.position(key) {
            Some(i) => {
                proof {
                    lemma_records_by_key_present(self.records(), i as int);
                }
                Some(self.airplanes[i].duplicate())
            },
            None => None,
        }
    }

    /// Stores `airplane` under its own key, replacing any record there.
    pub fn put(&mut self, airplane: Airplane)
        requires
            old(self).wf(),
        ensures
            final(self).wf(),
            final(self)@ == old(self)@.insert(airplane@.pub_key, airplane@),
    {
        let ghost a = airplane@;
        match self.position(&airplane.pub_key) {
            Some(i) => {
                proof {
                    lemma_records_by_key_replace(self.records(), i as int, a);
                }
                self.airplanes.set(i, airplane);
                assert(self.records() =~= old(self).records().update(i as int, a));
            },
            None => {
                proof {
                    assert forall|j: int| 0 <= j < old(self).records().len() implies
                        old(self).records()[j].pub_key != a.pub_key by {
                        if old(self).records()[j].pub_key == a.pub_key {
                            lemma_records_by_key_present(old(self).records(), j);
                        }
                    }
                }
                self.airplanes.push(airplane);
                assert(self.records() =~= old(self).records().push(a));
                assert(self.records().drop_last() =~= old(self).records());
            },
        }
    }
}

impl View for Schema {
    type V = Map<Seq<u8>, AirplaneModel>;

    closed spec fn view(&self) -> Map<Seq<u8>, AirplaneModel> {
        records_by_key(self.records())
    }
}

} // verus!
