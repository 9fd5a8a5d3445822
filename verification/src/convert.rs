//! Adaptors that read bytes through another adaptor and then turn them into
//! the value that is asked for.

use crate::adaptor::{DeserializeAs, RoundTrip, Same, SerializeAs, Shape};
use crate::text::{decimal, decimal_text};
use crate::wire::{DecodeError, EncodeError, Encoded};
use std::fmt::Display;
use std::marker::PhantomData;
use vstd::prelude::*;
use vstd::string::*;

verus! {

/// The cause given for `len` bytes where `expected` are asked for.
pub open spec fn invalid_array_length(len: nat, expected: nat) -> Seq<char> {
    "invalid array length "@ + decimal_text(len) + ", expecting "@ + decimal_text(expected)
}

/// Whether `out` is the array of the `N` bytes of `value`, or the refusal of
/// any other number of bytes.
pub open spec fn makes_array<const N: usize>(
    value: Seq<u8>,
    out: Result<[u8; N], DecodeError>,
) -> bool {
    match out {
        Ok(array) => value.len() == N && array@ == value,
        Err(e) => value.len() != N && e.detail@ == invalid_array_length(value.len(), N as nat),
    }
}

/// The array of the bytes of `value`, which must be `N` in number.
pub fn to_array<const N: usize>(value: &Vec<u8>) -> (out: Result<[u8; N], DecodeError>)
    ensures
        makes_array(value@, out),
{
    if value.len() != N {
        let mut detail = String::from_str("invalid array length ");
        detail.append(decimal(value.len()).as_str());
        detail.append(", expecting ");
        detail.append(decimal(N).as_str());
        return Err(DecodeError::new(detail));
    }
    let mut array = [0u8; N];
    let mut i: usize = 0;
    while i < N
        invariant
            i <= N,
            value@.len() == N,
            forall|j: int| 0 <= j < i ==> array@[j] == value@[j],
        decreases N - i,
    {
        array[i] = value[i];
        i += 1;
    }
    assert(array@ =~= value@);
    Ok(array)
}

/// Reads bytes through `V` and makes a fixed-width array of them.
pub struct ToArray<V> {
    vec: PhantomData<V>,
}

impl<T, V> SerializeAs<T> for ToArray<V> where V: SerializeAs<T> {
    open spec fn serializes(
        value: &T,
        human_readable: bool,
        out: Result<Encoded, EncodeError>,
    ) -> bool {
        V::serializes(value, human_readable, out)
    }

    fn serialize_as(value: &T, human_readable: bool) -> (out: Result<Encoded, EncodeError>) {
        V::serialize_as(value, human_readable)
    }
}

impl<V, const N: usize> DeserializeAs<[u8; N]> for ToArray<V> where V: DeserializeAs<Vec<u8>> {
    open spec fn spec_expects(human_readable: bool) -> Shape {
        V::spec_expects(human_readable)
    }

    /// `V`'s failure is handed on; of the bytes that `V` read, the array is made.
    open spec fn deserializes(
        input: &Encoded,
        human_readable: bool,
        out: Result<[u8; N], DecodeError>,
    ) -> bool {
        exists|read: Result<Vec<u8>, DecodeError>|
            #![auto]
            V::deserializes(input, human_readable, read) && match read {
                Ok(bytes) => makes_array(bytes@, out),
                Err(e) => out == Err::<[u8; N], DecodeError>(e),
            }
    }

    fn expects(human_readable: bool) -> (shape: Shape) {
        V::expects(human_readable)
    }

    fn deserialize_as(input: &Encoded, human_readable: bool) -> (out: Result<
        [u8; N],
        DecodeError,
    >) {
        let read = V::deserialize_as(input, human_readable);
        match read {
            Ok(bytes) => {
                let out = to_array(&bytes);
                proof {
                    let r: Result<Vec<u8>, DecodeError> = Ok(bytes);
                    assert(V::deserializes(input, human_readable, r) && makes_array(bytes@, out));
                }
                out
            },
            Err(e) => {
                proof {
                    let r: Result<Vec<u8>, DecodeError> = Err(e);
                    assert(V::deserializes(input, human_readable, r));
                }
                Err(e)
            },
        }
    }
}

/// A codec of bytes that reads back, as a vector, the bytes of the array of
/// `N` bytes that it wrote.
pub trait ArrayCodec<const N: usize>: SerializeAs<[u8; N]> + DeserializeAs<Vec<u8>> {
    proof fn reads_back_array(
        value: &[u8; N],
        human_readable: bool,
        encoded: Encoded,
        back: Result<Vec<u8>, DecodeError>,
    )
        requires
            <Self as SerializeAs<[u8; N]>>::serializes(value, human_readable, Ok(encoded)),
            <Self as DeserializeAs<Vec<u8>>>::deserializes(&encoded, human_readable, back),
        ensures
            back matches Ok(v) && v@ == value@,
    ;
}

impl<V, const N: usize> RoundTrip<[u8; N]> for ToArray<V> where V: ArrayCodec<N> {
    proof fn round_trip(
        value: &[u8; N],
        human_readable: bool,
        encoded: Encoded,
        back: Result<[u8; N], DecodeError>,
    ) {
        let read = choose|read: Result<Vec<u8>, DecodeError>|
            #![auto]
            <V as DeserializeAs<Vec<u8>>>::deserializes(&encoded, human_readable, read)
                && match read {
                Ok(bytes) => makes_array(bytes@, back),
                Err(e) => back == Err::<[u8; N], DecodeError>(e),
            };
        V::reads_back_array(value, human_readable, encoded, read);
    }
}

/// Whether `out` is what the target type's own conversion makes of `value`:
/// the value where it succeeds, its error in the error's own words where it
/// fails.
pub open spec fn converts<T: TryFrom<Vec<u8>>>(value: Vec<u8>, out: Result<T, DecodeError>) -> bool
    where <T as TryFrom<Vec<u8>>>::Error: Display
{
    exists|made: Result<T, <T as TryFrom<Vec<u8>>>::Error>|
        #![auto]
        call_ensures(T::try_from, (value,), made) && match made {
            Ok(v) => out == Ok::<T, DecodeError>(v),
            Err(e) => out matches Err(d) && to_string_from_display_ensures(&e, d.detail),
        }
}

/// Turns bytes into a `T` by the conversion that `T` has for them.
pub fn try_from_vec<T: TryFrom<Vec<u8>>>(value: Vec<u8>) -> (out: Result<T, DecodeError>)
    where <T as TryFrom<Vec<u8>>>::Error: Display
    ensures
        converts(value, out),
{
    let made = T::try_from(value);
    match made {
        Ok(v) => {
            assert(call_ensures(T::try_from, (value,), made));
            Ok(v)
        },
        Err(e) => {
            let d = DecodeError::new(e.to_string());
            assert(call_ensures(T::try_from, (value,), made) && to_string_from_display_ensures(
                &e,
                d.detail,
            ));
            Err(d)
        },
    }
}

/// Reads bytes through `V` and turns them into the value by the target
/// type's own conversion from bytes.
pub struct TryFromVec<V> {
    vec: PhantomData<V>,
}

impl<T, V> SerializeAs<T> for TryFromVec<V> where V: SerializeAs<T> {
    open spec fn serializes(
        value: &T,
        human_readable: bool,
        out: Result<Encoded, EncodeError>,
    ) -> bool {
        V::serializes(value, human_readable, out)
    }

    fn serialize_as(value: &T, human_readable: bool) -> (out: Result<Encoded, EncodeError>) {
        V::serialize_as(value, human_readable)
    }
}

impl<T, V> DeserializeAs<T> for TryFromVec<V> where
    V: DeserializeAs<Vec<u8>>,
    T: TryFrom<Vec<u8>>,
    <T as TryFrom<Vec<u8>>>::Error: Display,
 {
    open spec fn spec_expects(human_readable: bool) -> Shape {
        V::spec_expects(human_readable)
    }

    /// `V`'s failure is handed on; the bytes that `V` read are converted.
    open spec fn deserializes(
        input: &Encoded,
        human_readable: bool,
        out: Result<T, DecodeError>,
    ) -> bool {
        exists|read: Result<Vec<u8>, DecodeError>|
            #![auto]
            V::deserializes(input, human_readable, read) && match read {
                Ok(bytes) => converts(bytes, out),
                Err(e) => out == Err::<T, DecodeError>(e),
            }
    }

    fn expects(human_readable: bool) -> (shape: Shape) {
        V::expects(human_readable)
    }

    fn deserialize_as(input: &Encoded, human_readable: bool) -> (out: Result<T, DecodeError>) {
        let read = V::deserialize_as(input, human_readable);
        match read {
            Ok(bytes) => {
                let out = try_from_vec(bytes);
                proof {
                    let r: Result<Vec<u8>, DecodeError> = Ok(bytes);
                    assert(V::deserializes(input, human_readable, r) && converts(bytes, out));
                }
                out
            },
            Err(e) => {
                proof {
                    let r: Result<Vec<u8>, DecodeError> = Err(e);
                    assert(V::deserializes(input, human_readable, r));
                }
                Err(e)
            },
        }
    }
}

/// Where `V` reads bytes back from what it wrote for `value`, and the target
/// type's conversion makes of any such bytes a value that holds the same,
/// then what was written is read back as a value that holds the same.
pub proof fn lemma_try_from_vec_round_trip<T, V>(
    value: &T,
    human_readable: bool,
    encoded: Encoded,
    back: Result<T, DecodeError>,
) where
    T: Same + TryFrom<Vec<u8>>,
    <T as TryFrom<Vec<u8>>>::Error: Display,
    V: SerializeAs<T> + DeserializeAs<Vec<u8>>,

    requires
        <TryFromVec<V> as SerializeAs<T>>::serializes(value, human_readable, Ok(encoded)),
        <TryFromVec<V> as DeserializeAs<T>>::deserializes(&encoded, human_readable, back),
        forall|read: Result<Vec<u8>, DecodeError>|
            #![auto]
            V::deserializes(&encoded, human_readable, read) ==> read is Ok,
        forall|bytes: Vec<u8>, made: Result<T, <T as TryFrom<Vec<u8>>>::Error>|
            #![auto]
            V::deserializes(&encoded, human_readable, Ok(bytes)) && call_ensures(
                T::try_from,
                (bytes,),
                made,
            ) ==> (made matches Ok(v) && value.same(&v)),
    ensures
        back matches Ok(v) && value.same(&v),
{
    let read = choose|read: Result<Vec<u8>, DecodeError>|
        #![auto]
        V::deserializes(&encoded, human_readable, read) && match read {
            Ok(bytes) => converts(bytes, back),
            Err(e) => back == Err::<T, DecodeError>(e),
        };
    assert(read is Ok);
    let bytes = read->Ok_0;
    let made = choose|made: Result<T, <T as TryFrom<Vec<u8>>>::Error>|
        #![auto]
        call_ensures(T::try_from, (bytes,), made) && match made {
            Ok(v) => back == Ok::<T, DecodeError>(v),
            Err(e) => back matches Err(d) && to_string_from_display_ensures(&e, d.detail),
        };
    assert(V::deserializes(&encoded, human_readable, Ok(bytes)));
}

} // verus!
