//! The ABI capability: transaction call data is consumed and produced as
//! opaque bytes with a coarse type tag. Encoding and decoding of argument
//! values is an outside concern; the core only moves selectors and payload
//! bytes around.

use vstd::prelude::*;

verus! {

/// Coarse classification of an ABI-encoded argument payload.
#[derive(Clone, Copy, Debug, PartialEq, Eq, Structural)]
pub enum ABILossyType {
    /// All 256-bit scalar types (unsigned integers, addresses, booleans).
    T256,
    /// All array and tuple types.
    TArray,
    /// All dynamically sized types (strings, byte strings).
    TDynamic,
    /// An empty argument list.
    TEmpty,
    /// An unknown payload that may be of any type.
    TUnknown,
}

/// Cloneable ABI capability, so a boxed payload can be duplicated. The
/// duplicate comes back as the concrete tagged-bytes payload, the one
/// shape the core itself carries.
pub trait CloneABI {
    /// Duplicate the payload.
    fn clone_box(&self) -> AbiBytes;
}

/// The byte-producing/consuming capability an argument payload offers.
/// Duplication is part of the capability so that boxed payloads can be
/// cloned; `dyn` payloads cannot carry a supertrait here.
pub trait ABI {
    /// Duplicate the payload.
    fn clone_box(&self) -> AbiBytes;

    /// Whether the payload has a fixed encoded size.
    fn is_static(&self) -> bool;

    /// The ABI-encoded bytes of the payload.
    fn get_bytes(&self) -> Vec<u8>;

    /// The coarse type of the payload.
    fn get_type(&self) -> ABILossyType;

    /// Replace the payload with freshly decoded bytes; reports acceptance.
    fn set_bytes(&mut self, bytes: Vec<u8>) -> bool;

    /// A readable rendering of the payload.
    fn to_string(&self) -> String;

    /// The encoded size of the payload.
    fn get_size(&self) -> usize;
}

/// The one payload shape the core itself carries: a tagged byte string.
#[derive(Debug)]
pub struct AbiBytes {
    /// Coarse type tag of the payload.
    pub ty: ABILossyType,
    /// The encoded bytes.
    pub bytes: Vec<u8>,
    /// Whether the payload is fixed-size.
    pub fixed_size: bool,
}

impl Clone for AbiBytes {
    fn clone(&self) -> (r: Self)
        ensures
            r.ty == self.ty,
            r.bytes@ == self.bytes@,
            r.fixed_size == self.fixed_size,
    {
        let r = AbiBytes { ty: self.ty, bytes: self.bytes.clone(), fixed_size: self.fixed_size };
        proof {
            assert(r.bytes@ =~= self.bytes@);
        }
        r
    }
}

impl CloneABI for AbiBytes {
    fn clone_box(&self) -> AbiBytes {
        self.clone()
    }
}

impl ABI for AbiBytes {
    fn clone_box(&self) -> AbiBytes {
        self.clone()
    }

    fn is_static(&self) -> bool {
        self.fixed_size
    }

    fn get_bytes(&self) -> Vec<u8> {
        self.bytes.clone()
    }

    fn get_type(&self) -> ABILossyType {
        self.ty
    }

    fn set_bytes(&mut self, bytes: Vec<u8>) -> bool {
        self.bytes = bytes;
        true
    }

    fn to_string(&self) -> String {
        String::new()
    }

    fn get_size(&self) -> usize {
        self.bytes.len()
    }
}

/// A boxed argument payload together with its four-byte function selector.
/// A selector of four zero bytes marks a resume of a leaked call rather
/// than a fresh function call.
pub struct BoxedABI {
    /// The argument payload.
    pub b: Box<dyn ABI>,
    /// The function selector.
    pub function: [u8; 4],
}

impl BoxedABI {
    /// Wrap a payload with the unset selector.
    pub fn new(b: Box<dyn ABI>) -> (r: BoxedABI)
        ensures
            r.function@ =~= seq![0u8, 0u8, 0u8, 0u8],
    {
        BoxedABI { b, function: [0u8, 0u8, 0u8, 0u8] }
    }
}

impl Clone for BoxedABI {
    fn clone(&self) -> (r: Self)
        ensures
            r.function == self.function,
    {
        BoxedABI { b: Box::new(self.b.clone_box()), function: self.function }
    }
}

} // verus!
