//! Random bytes, and changing what an option holds.
use rand::Rng;
use vstd::prelude::*;

verus! {

/// `rand::Rng::gen` of the thread's generator: any byte at all.
#[verifier::external_body]
fn random_byte() -> u8 {
    rand::thread_rng().gen()
}

/// Whether the generator can draw this byte.
pub closed spec fn can_be_drawn(byte: u8) -> bool {
    call_ensures(random_byte, (), byte)
}

/// Whether the generator can draw these bytes, one after another.
pub open spec fn are_drawn(bytes: Seq<u8>) -> bool {
    forall|i: int| 0 <= i < bytes.len() ==> can_be_drawn(#[trigger] bytes[i])
}

/// The given number of random bytes.
pub fn generate_random_bytes(length: usize) -> (r: Vec<u8>)
    ensures
        r@.len() == length,
        are_drawn(r@),
{
    generate_random_bytes_internal(length)
}

fn generate_random_bytes_internal(length: usize) -> (r: Vec<u8>)
    ensures
        r@.len() == length,
        are_drawn(r@),
{
    let mut bytes: Vec<u8> = Vec::new();
    while bytes.len() < length
        invariant
            bytes@.len() <= length,
            are_drawn(bytes@),
        decreases length - bytes@.len(),
    {
        let byte: u8 = random_byte();
        assert(can_be_drawn(byte));
        bytes.push(byte);
    }
    bytes
}

/// How many bytes a challenge has.
pub const CHALLENGE_LENGTH: usize = 32;

/// Bytes that nobody can guess.
pub fn generate_byte_challenge() -> (r: Vec<u8>)
    ensures
        r@.len() == CHALLENGE_LENGTH,
        are_drawn(r@),
{
    generate_random_bytes_internal(CHALLENGE_LENGTH)
}

/// Whether the function accepts the value, to change it in place.
pub open spec fn accepts<T, F: FnOnce(&mut T)>(f: F, value: Option<T>) -> bool {
    forall|place: &mut T|
        value == Some(*place) ==> #[trigger] call_requires(f, (place,))
}

/// Changing the value inside, if there is one, on the way.
pub trait OptionInspectMut<T>: Sized {
    spec fn held(self) -> Option<T>;

    /// Has the function change the value, and goes on with the option.
    fn inspect_mut<F>(self, f: F) -> (r: Self) where F: FnOnce(&mut T)
        requires
            accepts(f, self.held()),
        ensures
            r.held() is Some == self.held() is Some,
            self.held() is Some ==> exists|place: &mut T|
                #![trigger call_ensures(f, (place,), ())]
                self.held() == Some(*place) && r.held() == Some(*final(place)) && call_ensures(
                    f,
                    (place,),
                    (),
                ),
    ;

    /// Has the function change the value, and goes on with the place of the option.
    fn inspect_mut_ref<F>(&mut self, f: F) -> (r: &mut Self) where F: FnOnce(&mut T)
        requires
            accepts(f, old(self).held()),
        ensures
            *final(self) == *final(r),
            r.held() is Some == old(self).held() is Some,
            old(self).held() is Some ==> exists|place: &mut T|
                #![trigger call_ensures(f, (place,), ())]
                old(self).held() == Some(*place) && r.held() == Some(*final(place))
                    && call_ensures(f, (place,), ()),
    ;
}

impl<T> OptionInspectMut<T> for Option<T> {
    open spec fn held(self) -> Option<T> {
        self
    }

    fn inspect_mut<F>(self, f: F) -> (r: Self) where F: FnOnce(&mut T) {
        let mut held = self;
        if let Some(x) = held.as_mut() {
            f(x);
        }
        held
    }

    fn inspect_mut_ref<F>(&mut self, f: F) -> (r: &mut Self) where F: FnOnce(&mut T) {
        if let Some(x) = self.as_mut() {
            f(x);
        }
        self
    }
}

impl<T> OptionInspectMut<T> for &mut Option<T> {
    open spec fn held(self) -> Option<T> {
        *self
    }

    fn inspect_mut<F>(self, f: F) -> (r: Self) where F: FnOnce(&mut T)
        ensures
            *final(self) == *final(r),
    {
        if let Some(x) = self.as_mut() {
            f(x);
        }
        self
    }

    fn inspect_mut_ref<F>(&mut self, f: F) -> (r: &mut Self) where F: FnOnce(&mut T) {
        if let Some(x) = self.as_mut() {
            f(x);
        }
        self
    }
}

} // verus!
