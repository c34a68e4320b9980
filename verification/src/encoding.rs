//! Consensus encoding: how values travel as bytes.

use std::marker::PhantomData;
use vstd::prelude::*;

verus! {

/// A value that has a consensus encoding.
pub trait Encodable {
    /// The bytes that stand for the value.
    fn consensus_encode_to_vec(&self) -> Vec<u8>;
}

/// What is said of bytes that stand for no value.
#[derive(Debug, PartialEq, Eq)]
pub struct DecodeError {
    pub message: String,
}

/// A value that can be read from its consensus encoding, with the help of the decoders
/// of the modules.
pub trait Decodable<Modules>: Sized {
    /// Reads a value at the start of `bytes`.
    fn consensus_decode(bytes: &[u8], modules: &Modules) -> Result<Self, DecodeError>;
}

/// Creates a struct that can be used to make our module-decodable structs
/// interact with `serde`-based APIs. It creates a wrapper
/// that holds the data as serialized bytes internally.
#[derive(Debug, PartialEq, Eq, Hash)]
pub struct SerdeModuleEncoding<T>(Vec<u8>, PhantomData<T>);

impl<T> View for SerdeModuleEncoding<T> {
    type V = Seq<u8>;

    closed spec fn view(&self) -> Seq<u8> {
        self.0@
    }
}

impl<T> Clone for SerdeModuleEncoding<T> {
    fn clone(&self) -> (copy: Self)
        ensures
            copy@ == self@,
    {
        SerdeModuleEncoding(self.0.clone(), PhantomData)
    }
}

/// Encoding `value` can give `bytes`.
pub open spec fn encodes_to<T: Encodable>(value: T, bytes: Seq<u8>) -> bool {
    exists|encoded: Vec<u8>| #[trigger]
        call_ensures(T::consensus_encode_to_vec, (&value,), encoded) && encoded@ == bytes
}

/// Decoding `bytes` can give `value`.
pub open spec fn decodes_to<T: Decodable<Modules>, Modules>(
    bytes: Seq<u8>,
    modules: Modules,
    value: Result<T, DecodeError>,
) -> bool {
    exists|encoded: &[u8]| #[trigger]
        call_ensures(T::consensus_decode, (encoded, &modules), value) && encoded@ == bytes
}

impl<T> SerdeModuleEncoding<T> {
    /// Holds the encoding of `value`.
    pub fn from(value: &T) -> (wrapped: Self) where T: Encodable
        ensures
            encodes_to(*value, wrapped@),
            exists|encoded: Vec<u8>| #[trigger]
                call_ensures(T::consensus_encode_to_vec, (value,), encoded) && encoded@ == wrapped@,
    {
        let bytes = value.consensus_encode_to_vec();
        SerdeModuleEncoding(bytes, PhantomData)
    }

    /// Holds bytes that came in.
    pub fn from_bytes(bytes: Vec<u8>) -> (wrapped: Self)
        ensures
            wrapped@ == bytes@,
    {
        SerdeModuleEncoding(bytes, PhantomData)
    }

    /// The bytes that it holds.
    pub fn as_bytes(&self) -> (bytes: &[u8])
        ensures
            bytes@ == self@,
    {
        self.0.as_slice()
    }

    /// Reads the value back.
    pub fn try_into_inner<Modules>(&self, modules: &Modules) -> (value: Result<
        T,
        DecodeError,
    >) where T: Decodable<Modules>
        ensures
            decodes_to(self@, *modules, value),
            exists|encoded: &[u8]| #[trigger]
                call_ensures(T::consensus_decode, (encoded, modules), value) && encoded@ == self@,
    {
        T::consensus_decode(self.0.as_slice(), modules)
    }
}

/// The type is one whose values always decode from their own encoding, where a decoder
/// with `modules` is at work.
pub open spec fn survives_encoding<T: Encodable + Decodable<Modules>, Modules>(
    modules: Modules,
) -> bool {
    forall|value: T, bytes: Seq<u8>, decoded: Result<T, DecodeError>| #[trigger]
        encodes_to(value, bytes) && #[trigger] decodes_to(bytes, modules, decoded) ==> decoded == Ok::<
            T,
            DecodeError,
        >(value)
}

/// Of a type whose values decode from their own encoding, whatever was wrapped comes back
/// unchanged.
pub proof fn law_wrapper_gives_the_value_back<T: Encodable + Decodable<Modules>, Modules>(
    value: T,
    modules: Modules,
    wrapped: SerdeModuleEncoding<T>,
    unwrapped: Result<T, DecodeError>,
)
    requires
        survives_encoding::<T, Modules>(modules),
        encodes_to(value, wrapped@),
        decodes_to(wrapped@, modules, unwrapped),
    ensures
        unwrapped == Ok::<T, DecodeError>(value),
{
}

/// Bytes are an encoding of a value exactly if encoding the value gives them all, and a
/// decoding of bytes is what decoding all of them gives.
pub proof fn law_encodings_are_whole<T: Encodable + Decodable<Modules>, Modules>(
    value: T,
    bytes: Seq<u8>,
    modules: Modules,
    decoded: Result<T, DecodeError>,
)
    ensures
        encodes_to(value, bytes) <==> exists|encoded: Vec<u8>| #[trigger]
            call_ensures(T::consensus_encode_to_vec, (&value,), encoded) && encoded@ == bytes,
        decodes_to(bytes, modules, decoded) <==> exists|encoded: &[u8]| #[trigger]
            call_ensures(T::consensus_decode, (encoded, &modules), decoded) && encoded@ == bytes,
{
}

} // verus!
