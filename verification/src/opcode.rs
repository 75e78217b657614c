//! The one-octet opcodes that head each value, annotations wrapper,
//! version marker, or NOP in a binary stream, and the headers derived from
//! them. Only the opcodes the binary reader currently recognizes are
//! distinguished; every other byte is classified as a boolean opcode until
//! the full table is filled in.

use vstd::prelude::*;

use crate::value::IonType;

verus! {

/// The broad classification of an opcode byte.
#[derive(Clone, Copy, Debug, PartialEq, Eq, Structural)]
pub enum OpcodeType {
    Boolean,
    IonVersionMarker,
    NullNull,
    TypedNull,
    Nop,
}

/// Everything that can be read off the one-octet opcode at the start of an
/// encoded value.
#[derive(Clone, Copy, Debug, PartialEq)]
pub struct Opcode {
    pub opcode_type: OpcodeType,
    pub ion_type: Option<IonType>,
    pub length_code: u8,
}

/// The classification of a byte's high and low nibbles.
pub open spec fn spec_opcode_type_of_byte(byte: u8) -> OpcodeType {
    let high = byte / 16;
    let low = byte % 16;
    if high == 0xE && low == 0x0 {
        OpcodeType::IonVersionMarker
    } else if high == 0xE && low == 0xA {
        OpcodeType::NullNull
    } else if high == 0xE && (low == 0xC || low == 0xD) {
        OpcodeType::Nop
    } else {
        OpcodeType::Boolean
    }
}

/// The value type an opcode type announces, if it announces one.
pub open spec fn spec_ion_type_of(t: OpcodeType) -> Option<IonType> {
    match t {
        OpcodeType::NullNull => Some(IonType::Null),
        OpcodeType::Boolean => Some(IonType::Bool),
        _ => None,
    }
}

/// What `Opcode::from_byte` reads off a byte: the classification, the
/// announced type, and the low nibble as the length code.
pub open spec fn spec_opcode_from_byte(byte: u8) -> Opcode {
    Opcode {
        opcode_type: spec_opcode_type_of_byte(byte),
        ion_type: spec_ion_type_of(spec_opcode_type_of_byte(byte)),
        length_code: byte % 16,
    }
}

/// Builds the jump table a binary reader uses to classify a byte without
/// masking or shifting: entry `b` is the parse of byte `b`.
pub fn init_opcode_cache() -> (v: Vec<Opcode>)
    ensures
        v@.len() == 256,
        forall|b: int| 0 <= b < 256 ==> #[trigger] v@[b] == spec_opcode_from_byte(b as u8),
{
    let mut v: Vec<Opcode> = Vec::new();
    let mut i: usize = 0;
    while i < 256
        invariant
            0 <= i <= 256,
            v@.len() == i,
            forall|b: int| 0 <= b < i ==> #[trigger] v@[b] == spec_opcode_from_byte(b as u8),
        decreases 256 - i,
    {
        v.push(Opcode::from_byte(i as u8));
        i = i + 1;
    }
    v
}

impl Opcode {
    /// Parses the provided byte into its classification, announced type,
    /// and length code.
    pub fn from_byte(byte: u8) -> (r: Opcode)
        ensures
            r == spec_opcode_from_byte(byte),
    {
        let high_nibble = byte / 16;
        let low_nibble = byte % 16;
        let opcode_type = if high_nibble == 0xE && low_nibble == 0x0 {
            OpcodeType::IonVersionMarker
        } else if high_nibble == 0xE && low_nibble == 0xA {
            OpcodeType::NullNull
        } else if high_nibble == 0xE && (low_nibble == 0xC || low_nibble == 0xD) {
            OpcodeType::Nop
        } else {
            OpcodeType::Boolean
        };
        let ion_type = match opcode_type {
            OpcodeType::NullNull => Some(IonType::Null),
            OpcodeType::Boolean => Some(IonType::Bool),
            _ => None,
        };
        Opcode { opcode_type, ion_type, length_code: low_nibble }
    }

    pub fn is_null(&self) -> (r: bool)
        ensures
            r == (self.opcode_type == OpcodeType::NullNull || self.opcode_type
                == OpcodeType::TypedNull),
    {
        self.opcode_type == OpcodeType::NullNull || self.opcode_type == OpcodeType::TypedNull
    }

    pub fn is_nop(&self) -> (r: bool)
        ensures
            r == (self.opcode_type == OpcodeType::Nop),
    {
        self.opcode_type == OpcodeType::Nop
    }

    pub fn is_ivm_start(&self) -> (r: bool)
        ensures
            r == (self.opcode_type == OpcodeType::IonVersionMarker),
    {
        self.opcode_type == OpcodeType::IonVersionMarker
    }

    /// No annotations-wrapper opcode is recognized yet.
    pub fn is_annotation_wrapper(&self) -> (r: bool)
        ensures
            !r,
    {
        false
    }

    /// The value header this opcode announces: present exactly when the
    /// opcode announces a value type (so never for a NOP or a version
    /// marker).
    pub fn to_header(self) -> (r: Option<Header>)
        ensures
            (match self.ion_type {
                Some(t) => r == Some(Header {
                    ion_type: t,
                    ion_type_code: self.opcode_type,
                    length_code: self.length_code,
                }),
                None => r is None,
            }),
    {
        match self.ion_type {
            Some(ion_type) => Some(
                Header { ion_type, ion_type_code: self.opcode_type, length_code: self.length_code },
            ),
            None => None,
        }
    }
}

/// Where an encoded value's length is found: packed into the opcode
/// itself, or in a variable-length unsigned integer that follows it.
#[derive(Clone, Copy, Debug, PartialEq, Eq, Structural)]
pub enum LengthType {
    InOpcode(u8),
    FlexUIntFollows,
}

/// The header of a value (not of a NOP, version marker, or annotations
/// wrapper): unlike `Opcode`, it always announces a value type, so readers
/// that expect a value need not unwrap an option.
#[derive(Clone, Copy, Debug, PartialEq, Eq, Structural)]
pub struct Header {
    pub ion_type: IonType,
    // Kept alongside the value type: some types need the original opcode
    // classification to be told apart when decoding.
    pub ion_type_code: OpcodeType,
    pub length_code: u8,
}

/// Where the length of a value with this header is found.
pub open spec fn spec_length_type(h: Header) -> LengthType {
    if (h.ion_type_code == OpcodeType::Nop && h.length_code == 0xC) || (h.ion_type_code
        == OpcodeType::NullNull && h.length_code == 0xA) {
        LengthType::InOpcode(0)
    } else {
        LengthType::FlexUIntFollows
    }
}

impl Header {
    pub fn length_type(&self) -> (r: LengthType)
        ensures
            r == spec_length_type(*self),
    {
        if self.ion_type_code == OpcodeType::Nop && self.length_code == 0xC {
            LengthType::InOpcode(0)
        } else if self.ion_type_code == OpcodeType::NullNull && self.length_code == 0xA {
            LengthType::InOpcode(0)
        } else {
            LengthType::FlexUIntFollows
        }
    }

    pub fn ion_type(&self) -> (t: IonType)
        ensures
            t == self.ion_type,
    {
        self.ion_type
    }

    pub fn type_code(&self) -> (t: OpcodeType)
        ensures
            t == self.ion_type_code,
    {
        self.ion_type_code
    }

    pub fn length_code(&self) -> (c: u8)
        ensures
            c == self.length_code,
    {
        self.length_code
    }

    pub fn is_null(&self) -> (r: bool)
        ensures
            r == (self.ion_type_code == OpcodeType::NullNull || self.ion_type_code
                == OpcodeType::TypedNull),
    {
        self.ion_type_code == OpcodeType::NullNull || self.ion_type_code == OpcodeType::TypedNull
    }
}

} // verus!
