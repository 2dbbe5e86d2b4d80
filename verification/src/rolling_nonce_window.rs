//! Replay protection: a window of nonces that moves forward as nonces are used up.
use vstd::prelude::*;

use crate::text::u64_to_string;

verus! {

/// The median of all `u64`: where the responder's nonces begin.
pub const U64_HALF: u64 = 0x7fff_ffff_ffff_ffff;

/// How many nonces a session's window tracks at a time.
pub const WINDOW_SIZE: usize = 100;

/// A fixed number of truth values, each of which can be taken and restored.
pub trait BitStore {
    spec fn bits(&self) -> Seq<bool>;

    /// The number of truth values that fit into this store.
    fn size(&self) -> (n: usize)
        ensures
            n == self.bits().len(),
    ;

    /// Returns the truth value at `index` and sets it to `false`.
    /// An index outside the store counts as `false`.
    fn get_invalidate_at(&mut self, index: usize) -> (was_valid: bool)
        ensures
            index < old(self).bits().len() ==> was_valid == old(self).bits()[index as int]
                && final(self).bits() == old(self).bits().update(index as int, false),
            index >= old(self).bits().len() ==> !was_valid
                && final(self).bits() == old(self).bits(),
    ;

    /// Sets the truth value at `index` to `true` and returns whether that changed it.
    /// Nothing changes for an index outside the store.
    fn validate_at(&mut self, index: usize) -> (changed: bool)
        ensures
            index < old(self).bits().len() ==> changed == !old(self).bits()[index as int]
                && final(self).bits() == old(self).bits().update(index as int, true),
            index >= old(self).bits().len() ==> !changed && final(self).bits() == old(self).bits(),
    ;
}

impl BitStore for Vec<bool> {
    open spec fn bits(&self) -> Seq<bool> {
        self@
    }

    fn size(&self) -> (n: usize) {
        self.len()
    }

    fn get_invalidate_at(&mut self, index: usize) -> (was_valid: bool) {
        if index < self.len() {
            let valid = self[index];
            self.set(index, false);
            valid
        } else {
            false
        }
    }

    fn validate_at(&mut self, index: usize) -> (changed: bool) {
        if index < self.len() {
            let valid = self[index];
            self.set(index, true);
            assert(valid ==> self@ =~= old(self)@.update(index as int, true));
            !valid
        } else {
            false
        }
    }
}

/// Why a nonce was refused.
#[derive(Debug)]
pub enum BitStoreError {
    /// The nonce lies outside the window `min..max` that can be accepted at the moment.
    OutOfBoundsAccess { tried: u64, min: u64, max: u64 },
    /// The nonce was accepted before.
    RepeatedAccess(u64),
}

impl BitStoreError {
    pub open spec fn text(self) -> Seq<char> {
        match self {
            BitStoreError::OutOfBoundsAccess { .. } =>
                "Tried to validate a nonce that was outside the currently valid buffer"@,
            BitStoreError::RepeatedAccess(nonce) =>
                "Tried to invalidate the same nonce more than once: "@ + crate::text::decimal(
                    nonce as nat,
                ),
        }
    }

    pub fn to_text(&self) -> (r: String)
        ensures
            r@ == self.text(),
    {
        match self {
            BitStoreError::OutOfBoundsAccess { .. } =>
                "Tried to validate a nonce that was outside the currently valid buffer".to_owned(),
            BitStoreError::RepeatedAccess(
                nonce,
            ) => "Tried to invalidate the same nonce more than once: ".to_owned()
                .concat(u64_to_string(*nonce).as_str()),
        }
    }
}

/// What a window of nonces knows: the nonces from `lower` up to `lower + capacity` can be
/// accepted, except for those that are `used`.
pub ghost struct WindowState {
    pub lower: nat,
    pub capacity: nat,
    pub used: Set<nat>,
}

impl WindowState {
    pub open spec fn in_bounds(self, nonce: nat) -> bool {
        self.lower <= nonce < self.lower + self.capacity
    }

    pub open spec fn accepts(self, nonce: nat) -> bool {
        self.in_bounds(nonce) && !self.used.contains(nonce)
    }

    /// The window begins at the smallest nonce that is not used.
    pub open spec fn starts_at_first_unused(self) -> bool {
        !self.used.contains(self.lower) && forall|m: nat| m < self.lower ==> self.used.contains(m)
    }

    /// How presenting `nonce` changes the window: an accepted nonce becomes used and the window
    /// moves on to the first nonce that is still missing; a refused one changes nothing.
    pub open spec fn step(self, nonce: nat, accepted: bool, next: WindowState) -> bool {
        &&& accepted == self.accepts(nonce)
        &&& accepted ==> {
            &&& next.capacity == self.capacity
            &&& next.used == self.used.insert(nonce)
            &&& next.starts_at_first_unused()
            &&& self.lower <= next.lower <= self.lower + self.capacity
        }
        &&& !accepted ==> next == self
    }

    /// Why `nonce` is refused.
    pub open spec fn refusal(self, nonce: u64, error: BitStoreError) -> bool {
        match error {
            BitStoreError::OutOfBoundsAccess { tried, min, max } => {
                &&& !self.in_bounds(nonce as nat)
                &&& tried == nonce
                &&& min == self.lower
                &&& max == self.lower + self.capacity
            },
            BitStoreError::RepeatedAccess(repeated) => {
                &&& self.in_bounds(nonce as nat)
                &&& self.used.contains(nonce as nat)
                &&& repeated == nonce
            },
        }
    }
}

/// Accepts each nonce at most once.
pub trait NonceValidator {
    /// The internal representation is consistent.
    spec fn well_formed(&self) -> bool;

    spec fn state(&self) -> WindowState;

    /// Whether `nonce` lies in the window.
    fn is_in_bounds(&self, nonce: u64) -> (r: bool)
        requires
            self.well_formed(),
            self.state().lower + self.state().capacity <= u64::MAX,
        ensures
            r == self.state().in_bounds(nonce as nat),
    ;

    /// Accepts `nonce` if it lies in the window and was not accepted before.
    fn is_valid(&mut self, nonce: u64) -> (r: Result<(), BitStoreError>)
        requires
            old(self).well_formed(),
            old(self).state().lower + old(self).state().capacity <= u64::MAX,
        ensures
            final(self).well_formed(),
            old(self).state().step(nonce as nat, r is Ok, final(self).state()),
            r matches Err(error) ==> old(self).state().refusal(nonce, error),
    ;
}

/// Tracks the validity of an effectively unlimited number of nonces in a store of limited size.
///
/// Nonces are expected to be counted up one by one, but they may arrive out of order. So at any
/// time a window of nonces can be accepted, beginning at the smallest one that was not seen yet.
/// The truth value for nonce `n` stands at index `n` modulo the size of the store, and as the
/// window moves forward a slot stands for a new nonce.
pub struct RollingNonceWindow<T: BitStore = Vec<bool>> {
    lower_bound: u64,
    window: T,
}

/// The slot of `nonce` in a store of `window_size` truth values.
fn modulo(nonce: u64, window_size: usize) -> (slot: usize)
    requires
        window_size > 0,
    ensures
        slot as nat == nonce as nat % window_size as nat,
        slot < window_size,
{
    proof {
        vstd::arithmetic::div_mod::lemma_mod_bound(nonce as int, window_size as int);
    }
    (nonce % (window_size as u64)) as usize
}

/// Two different nonces of one window have different slots.
proof fn lemma_slots_distinct(a: int, b: int, size: int)
    requires
        0 <= a < b < a + size,
    ensures
        a % size != b % size,
{
    if a % size == b % size {
        vstd::arithmetic::div_mod::lemma_fundamental_div_mod(a, size);
        vstd::arithmetic::div_mod::lemma_fundamental_div_mod(b, size);
        let qa = a / size;
        let qb = b / size;
        assert(b - a == size * qb - size * qa);
        assert(size * qb - size * qa == size * (qb - qa)) by (nonlinear_arith);
        assert(qb - qa <= 0 ==> size * (qb - qa) <= 0) by (nonlinear_arith)
            requires
                size > 0,
        ;
        assert(qb - qa >= 1 ==> size * (qb - qa) >= size) by (nonlinear_arith)
            requires
                size > 0,
        ;
    }
}

/// A nonce and the one that lies a whole window later share a slot.
proof fn lemma_slot_wraps(a: int, size: int)
    requires
        size > 0,
    ensures
        (a + size) % size == a % size,
{
    vstd::arithmetic::div_mod::lemma_mod_add_multiples_vanish(a, size);
}

/// The truth value that a store of `bits` holds for nonce `m`.
spec fn bit_of(bits: Seq<bool>, m: int) -> bool {
    bits[m % (bits.len() as int)]
}

/// Changing the truth value of `n` leaves those of the other nonces of a window as they were.
proof fn lemma_update_bit(bits: Seq<bool>, lower: int, n: int, value: bool)
    requires
        0 <= lower <= n < lower + bits.len(),
    ensures
        bit_of(bits.update(n % (bits.len() as int), value), n) == value,
        forall|m: int|
            #![trigger bit_of(bits.update(n % (bits.len() as int), value), m)]
            lower <= m < lower + bits.len() && m != n ==> bit_of(
                bits.update(n % (bits.len() as int), value),
                m,
            ) == bit_of(bits, m),
{
    let len = bits.len() as int;
    let updated = bits.update(n % len, value);
    vstd::arithmetic::div_mod::lemma_mod_bound(n, len);
    assert forall|m: int|
        #![trigger bit_of(updated, m)]
        lower <= m < lower + len && m != n implies bit_of(updated, m) == bit_of(bits, m) by {
        vstd::arithmetic::div_mod::lemma_mod_bound(m, len);
        if m < n {
            lemma_slots_distinct(m, n, len);
        } else {
            lemma_slots_distinct(n, m, len);
        }
    }
}

impl<T: BitStore> NonceValidator for RollingNonceWindow<T> {
    closed spec fn well_formed(&self) -> bool {
        self.window.bits().len() > 0 ==> bit_of(self.window.bits(), self.lower_bound as int)
    }

    closed spec fn state(&self) -> WindowState {
        WindowState {
            lower: self.lower_bound as nat,
            capacity: self.window.bits().len(),
            used: Set::new(
                |m: nat|
                    m < self.lower_bound || (m < self.lower_bound + self.window.bits().len()
                        && !bit_of(self.window.bits(), m as int)),
            ),
        }
    }

    fn is_in_bounds(&self, nonce: u64) -> (r: bool) {
        nonce >= self.lower_bound && nonce < self.lower_bound + self.window.size() as u64
    }

    fn is_valid(&mut self, nonce: u64) -> (r: Result<(), BitStoreError>) {
        let size = self.window.size();
        let lower: u64 = self.lower_bound;
        if !self.is_in_bounds(nonce) {
            return Err(
                BitStoreError::OutOfBoundsAccess {
                    tried: nonce,
                    min: lower,
                    max: lower + size as u64,
                },
            );
        }
        let ghost before = self.window.bits();
        let ghost len = before.len() as int;
        let slot = modulo(nonce, size);
        let is_valid = self.window.get_invalidate_at(slot);
        if !is_valid {
            assert(self.window.bits() =~= before);
            return Err(BitStoreError::RepeatedAccess(nonce));
        }
        let ghost taken = self.window.bits();
        proof {
            lemma_update_bit(before, lower as int, nonce as int, false);
        }
        if nonce == lower {
            let mut next: u64 = nonce;
            // Nonces may arrive out of order: the window moves on to the first one that is
            // still missing, and the slots it passes stand for new nonces.
            let mut passed = self.window.validate_at(modulo(next, size));
            proof {
                lemma_update_bit(taken, lower as int, next as int, true);
            }
            while passed
                invariant
                    size == len,
                    len > 0,
                    lower + len <= u64::MAX,
                    lower <= next <= lower + len,
                    self.lower_bound == lower,
                    self.window.bits().len() == len,
                    taken.len() == len,
                    passed ==> next < lower + len && !bit_of(taken, next as int),
                    !passed ==> next > lower && bit_of(self.window.bits(), next as int),
                    !passed && next < lower + len ==> bit_of(taken, next as int),
                    forall|m: int| lower <= m < next ==> !bit_of(taken, m),
                    forall|m: int|
                        lower <= m < next || (passed && m == next) ==> bit_of(
                            self.window.bits(),
                            m,
                        ),
                    forall|m: int|
                        next < m < lower + len
                            ==> bit_of(self.window.bits(), m) == bit_of(taken, m),
                decreases lower + len - next,
            {
                let ghost current = self.window.bits();
                next = next + 1;
                passed = self.window.validate_at(modulo(next, size));
                proof {
                    if next == lower + len {
                        lemma_slot_wraps(lower as int, len);
                        assert(bit_of(current, lower as int));
                        vstd::arithmetic::div_mod::lemma_mod_bound(next as int, len);
                        assert(self.window.bits() =~= current);
                    } else {
                        assert(bit_of(current, next as int) == bit_of(taken, next as int));
                        lemma_update_bit(current, lower as int, next as int, true);
                    }
                }
            }
            self.lower_bound = next;
            proof {
                assert forall|m: nat|
                    self.state().used.contains(m) == old(self).state().used.insert(
                        nonce as nat,
                    ).contains(m) by {
                    let k = m as int;
                    if lower + len <= k < next + len {
                        lemma_slot_wraps(k - len, len);
                        assert(bit_of(self.window.bits(), k - len));
                    } else if lower <= k < lower + len {
                        assert(k != nonce ==> bit_of(taken, k) == bit_of(before, k));
                    }
                }
                assert(self.state().used =~= old(self).state().used.insert(nonce as nat));
            }
        } else {
            proof {
                assert(bit_of(taken, lower as int) == bit_of(before, lower as int));
                assert(self.state().used =~= old(self).state().used.insert(nonce as nat));
            }
        }
        Ok(())
    }
}

/// Hands out the nonces for sending and checks those of received messages.
///
/// The encryption scheme uses nonces of 96 bits. 64 of these are used, and they are split between
/// the initiator and the responder of a session, so that each side has 63 bits of nonce space.
pub struct NonceGeneratorValidator<T: NonceValidator = RollingNonceWindow> {
    used_nonce_counter: u64,
    is_initiator_session: bool,
    validator: T,
}

#[derive(Debug)]
pub enum NonceGenerationError {
    NonceSpaceExhausted { space_bits: usize },
}

impl NonceGenerationError {
    pub open spec fn text(self) -> Seq<char> {
        match self {
            NonceGenerationError::NonceSpaceExhausted { space_bits } => "Nonce space exhausted: "@
                + crate::text::decimal(space_bits as nat) + " bits"@,
        }
    }

    pub fn to_text(&self) -> (r: String)
        ensures
            r@ == self.text(),
    {
        match self {
            NonceGenerationError::NonceSpaceExhausted {
                space_bits,
            } => "Nonce space exhausted: ".to_owned()
                .concat(u64_to_string(*space_bits as u64).as_str()).concat(" bits"),
        }
    }
}

#[derive(Debug)]
pub enum NonceValidationError {
    NonceValidationError(BitStoreError),
}

impl NonceValidationError {
    pub open spec fn text(self) -> Seq<char> {
        match self {
            NonceValidationError::NonceValidationError(source) =>
                "Nonce was invalid or could not be validated: "@ + source.text(),
        }
    }

    pub fn to_text(&self) -> (r: String)
        ensures
            r@ == self.text(),
    {
        match self {
            NonceValidationError::NonceValidationError(source) =>
                "Nonce was invalid or could not be validated: ".to_owned().concat(
                source.to_text().as_str(),
            ),
        }
    }
}

/// The nonce of the message that a side sends after `count` others.
pub open spec fn send_nonce(is_initiator: bool, count: nat) -> nat {
    if is_initiator {
        count
    } else {
        count + U64_HALF as nat
    }
}

/// The position in the peer's count that a received nonce stands for.
pub open spec fn peer_count(is_initiator: bool, nonce: u64) -> int {
    if is_initiator {
        nonce - U64_HALF
    } else {
        nonce as int
    }
}

impl<T: NonceValidator> NonceGeneratorValidator<T> {
    /// How many nonces were handed out for sending.
    pub closed spec fn sent(&self) -> nat {
        self.used_nonce_counter as nat
    }

    pub closed spec fn is_initiator(&self) -> bool {
        self.is_initiator_session
    }

    /// What is known about the peer's nonces.
    pub closed spec fn received(&self) -> WindowState {
        self.validator.state()
    }

    pub closed spec fn well_formed(&self) -> bool {
        self.used_nonce_counter <= U64_HALF && self.validator.well_formed()
    }

    pub proof fn lemma_sent_is_bounded(self)
        requires
            self.well_formed(),
        ensures
            self.sent() <= U64_HALF,
    {
    }

    /// The next nonce for sending, until this side's half of the nonce space is used up.
    pub fn get_next_send_nonce(&mut self) -> (r: Result<u64, NonceGenerationError>)
        requires
            old(self).well_formed(),
        ensures
            final(self).well_formed(),
            final(self).is_initiator() == old(self).is_initiator(),
            final(self).received() == old(self).received(),
            match r {
                Ok(nonce) => {
                    &&& old(self).sent() < U64_HALF
                    &&& nonce == send_nonce(old(self).is_initiator(), old(self).sent())
                    &&& final(self).sent() == old(self).sent() + 1
                },
                Err(NonceGenerationError::NonceSpaceExhausted { space_bits }) => {
                    &&& old(self).sent() == U64_HALF
                    &&& space_bits == 63
                    &&& final(self).sent() == old(self).sent()
                },
            },
    {
        if self.used_nonce_counter == U64_HALF {
            Err(NonceGenerationError::NonceSpaceExhausted { space_bits: 63 })
        } else {
            let nonce: u64 = self.used_nonce_counter;
            self.used_nonce_counter = self.used_nonce_counter + 1;
            if self.is_initiator_session {
                Ok(nonce)
            } else {
                Ok(nonce + U64_HALF)
            }
        }
    }

    /// Accepts a nonce of the peer once, while it lies in the window.
    pub fn validate(&mut self, nonce: u64) -> (r: Result<(), NonceValidationError>)
        requires
            old(self).well_formed(),
            old(self).is_initiator() ==> nonce >= U64_HALF,
            old(self).received().lower + old(self).received().capacity <= u64::MAX,
        ensures
            final(self).well_formed(),
            final(self).is_initiator() == old(self).is_initiator(),
            final(self).sent() == old(self).sent(),
            old(self).received().step(
                peer_count(old(self).is_initiator(), nonce) as nat,
                r is Ok,
                final(self).received(),
            ),
            r matches Err(NonceValidationError::NonceValidationError(error))
                ==> old(self).received().refusal(
                    peer_count(old(self).is_initiator(), nonce) as u64,
                    error,
                ),
    {
        let count: u64 = if self.is_initiator_session {
            nonce - U64_HALF
        } else {
            nonce
        };
        match self.validator.is_valid(count) {
            Ok(()) => Ok(()),
            Err(error) => Err(NonceValidationError::NonceValidationError(error)),
        }
    }
}

impl NonceGeneratorValidator<RollingNonceWindow> {
    /// Whether a nonce of the peer can be looked at: the responder's are those of the upper half,
    /// and the window has not come to the end of all nonces.
    pub fn can_validate(&self, nonce: u64) -> (r: bool)
        ensures
            r == ((self.is_initiator() ==> nonce >= U64_HALF) && self.received().lower
                + self.received().capacity <= u64::MAX),
    {
        let size: u64 = self.validator.window.len() as u64;
        (!self.is_initiator_session || nonce >= U64_HALF) && self.validator.lower_bound
            <= u64::MAX - size
    }
}

fn new_rolling_nonce_window() -> (r: RollingNonceWindow)
    ensures
        r.well_formed(),
        r.state().lower == 0,
        r.state().capacity == WINDOW_SIZE,
        r.state().used == Set::<nat>::empty(),
{
    let window: Vec<bool> = vec![true; WINDOW_SIZE];
    let r = RollingNonceWindow { lower_bound: 0, window };
    proof {
        assert forall|m: int| 0 <= m implies #[trigger] bit_of(r.window.bits(), m) by {
            vstd::arithmetic::div_mod::lemma_mod_bound(m, r.window.bits().len() as int);
        }
        assert(r.state().used =~= Set::<nat>::empty());
    }
    r
}

/// The nonce state of the side that opened a session.
pub fn new_nonce_generator_validator_for_session_initiator() -> (r: NonceGeneratorValidator)
    ensures
        r.well_formed(),
        r.is_initiator(),
        r.sent() == 0,
        r.received() == (WindowState {
            lower: 0,
            capacity: WINDOW_SIZE as nat,
            used: Set::<nat>::empty(),
        }),
{
    NonceGeneratorValidator {
        used_nonce_counter: 0,
        is_initiator_session: true,
        validator: new_rolling_nonce_window(),
    }
}

/// The nonce state of the side that a session was opened to.
pub fn new_nonce_generator_validator_for_session_responder() -> (r: NonceGeneratorValidator)
    ensures
        r.well_formed(),
        !r.is_initiator(),
        r.sent() == 0,
        r.received() == (WindowState {
            lower: 0,
            capacity: WINDOW_SIZE as nat,
            used: Set::<nat>::empty(),
        }),
{
    NonceGeneratorValidator {
        used_nonce_counter: 0,
        is_initiator_session: false,
        validator: new_rolling_nonce_window(),
    }
}

/// The windows in `states` follow from one another by presenting `nonces` in order.
pub open spec fn is_window_run(
    states: Seq<WindowState>,
    nonces: Seq<nat>,
    accepted: Seq<bool>,
) -> bool {
    &&& states.len() == nonces.len() + 1
    &&& accepted.len() == nonces.len()
    &&& forall|i: int|
        0 <= i < nonces.len() ==> (#[trigger] states[i]).step(nonces[i], accepted[i], states[i + 1])
}

proof fn lemma_used_only_grows(
    states: Seq<WindowState>,
    nonces: Seq<nat>,
    accepted: Seq<bool>,
    i: int,
    j: int,
)
    requires
        is_window_run(states, nonces, accepted),
        0 <= i <= j < states.len(),
    ensures
        states[i].used.subset_of(states[j].used),
        states[i].lower <= states[j].lower,
    decreases j - i,
{
    if i < j {
        lemma_used_only_grows(states, nonces, accepted, i, j - 1);
        assert(states[j - 1].step(nonces[j - 1], accepted[j - 1], states[j]));
    }
}

/// However nonces are presented, none is accepted twice.
pub proof fn law_no_nonce_is_accepted_twice(
    states: Seq<WindowState>,
    nonces: Seq<nat>,
    accepted: Seq<bool>,
    i: int,
    j: int,
)
    requires
        is_window_run(states, nonces, accepted),
        0 <= i < j < nonces.len(),
        accepted[i],
        accepted[j],
    ensures
        nonces[i] != nonces[j],
{
    assert(states[i].step(nonces[i], accepted[i], states[i + 1]));
    assert(states[j].step(nonces[j], accepted[j], states[j + 1]));
    lemma_used_only_grows(states, nonces, accepted, i + 1, j);
}

/// A window never moves backwards: what once was too old stays too old.
pub proof fn law_window_moves_forward(
    states: Seq<WindowState>,
    nonces: Seq<nat>,
    accepted: Seq<bool>,
    i: int,
    j: int,
)
    requires
        is_window_run(states, nonces, accepted),
        0 <= i <= j < states.len(),
    ensures
        states[i].lower <= states[j].lower,
{
    lemma_used_only_grows(states, nonces, accepted, i, j);
}

/// No two messages of a session have the same nonce, whichever side sent them.
pub proof fn law_send_nonces_are_distinct(
    is_initiator_a: bool,
    count_a: nat,
    is_initiator_b: bool,
    count_b: nat,
)
    requires
        count_a < U64_HALF,
        count_b < U64_HALF,
        send_nonce(is_initiator_a, count_a) == send_nonce(is_initiator_b, count_b),
    ensures
        is_initiator_a == is_initiator_b,
        count_a == count_b,
{
}

/// The receiving side counts a nonce as the sending side did.
pub proof fn law_peer_counts_agree(is_initiator: bool, count: nat)
    requires
        count < U64_HALF,
    ensures
        send_nonce(is_initiator, count) <= u64::MAX,
        peer_count(!is_initiator, send_nonce(is_initiator, count) as u64) == count,
{
}

proof fn lemma_only_presented_nonces_are_used(
    states: Seq<WindowState>,
    nonces: Seq<nat>,
    accepted: Seq<bool>,
    j: int,
)
    requires
        is_window_run(states, nonces, accepted),
        states[0].lower == 0,
        states[0].used == Set::<nat>::empty(),
        0 <= j < states.len(),
    ensures
        states[j].capacity == states[0].capacity,
        forall|m: nat| #[trigger]
            states[j].used.contains(m) ==> exists|i: int| 0 <= i < j && #[trigger] nonces[i] == m,
        forall|m: nat| m < states[j].lower ==> #[trigger] states[j].used.contains(m),
    decreases j,
{
    if j > 0 {
        lemma_only_presented_nonces_are_used(states, nonces, accepted, j - 1);
        assert(states[j - 1].step(nonces[j - 1], accepted[j - 1], states[j]));
        assert forall|m: nat| #[trigger] states[j].used.contains(m) implies exists|i: int|
            0 <= i < j && #[trigger] nonces[i] == m by {
            if states[j - 1].used.contains(m) {
                let i = choose|i: int| 0 <= i < j - 1 && #[trigger] nonces[i] == m;
                assert(nonces[i] == m);
            } else {
                assert(nonces[j - 1] == m);
            }
        }
    }
}

/// Nonces may arrive in any order: one that was not presented before is accepted as long as it is
/// not further ahead than the window is long, whatever came before it.
pub proof fn law_new_nonces_are_accepted_in_any_order(
    states: Seq<WindowState>,
    nonces: Seq<nat>,
    accepted: Seq<bool>,
    j: int,
)
    requires
        is_window_run(states, nonces, accepted),
        states[0].lower == 0,
        states[0].used == Set::<nat>::empty(),
        0 <= j < nonces.len(),
        forall|i: int| 0 <= i < j ==> #[trigger] nonces[i] != nonces[j],
        nonces[j] < states[0].capacity,
    ensures
        accepted[j],
{
    lemma_only_presented_nonces_are_used(states, nonces, accepted, j);
    assert(states[j].step(nonces[j], accepted[j], states[j + 1]));
    assert(!states[j].used.contains(nonces[j]));
}

/// The two sides of a new session count their messages apart from each other, have sent none, and
/// take a message that is up to a hundred ahead of the first one that is missing.
pub proof fn law_new_sessions_take_messages_a_hundred_ahead(
    initiator: NonceGeneratorValidator,
    responder: NonceGeneratorValidator,
    nonce: nat,
)
    requires
        call_ensures(new_nonce_generator_validator_for_session_initiator, (), initiator),
        call_ensures(new_nonce_generator_validator_for_session_responder, (), responder),
    ensures
        initiator.is_initiator() && !responder.is_initiator(),
        initiator.sent() == 0 && responder.sent() == 0,
        initiator.received().accepts(nonce) <==> nonce < 100,
        responder.received().accepts(nonce) <==> nonce < 100,
{
}

} // verus!
