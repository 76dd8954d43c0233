//! Typed attribute values.
//!
//! When an attribute's raw-value index is the absent sentinel, its value
//! is an 8-byte typed structure: a reserved size and padding byte, a type
//! tag, and 4 bytes of data.  Each known type renders to a canonical
//! textual form; the variants the format leaves without a canonical form
//! render here as the empty string, which is this library's documented
//! choice.

use vstd::prelude::*;

use crate::cursor::{can_read, le32, AxmlCursor};
use crate::error::FormatError;
use crate::text::{push_dec, push_hex, spec_dec_digits, spec_hex_digits};

verus! {

use vstd::string::StringExecFns;

/// Type tags for typed attribute values.
#[derive(Debug, Clone, Copy, PartialEq, Eq, Structural)]
pub enum DataValueType {
    TypeNull,
    TypeReference,
    TypeAttribute,
    TypeString,
    TypeFloat,
    TypeDimension,
    TypeFraction,
    TypeDynamicReference,
    TypeDynamicAttribute,
    TypeIntDec,
    TypeIntHex,
    TypeIntBoolean,
    TypeIntColorArgb8,
    TypeIntColorRgb8,
    TypeIntColorArgb4,
    TypeIntColorRgb4,
}

/// The value type a tag byte stands for, if any.
pub open spec fn value_type_of(code: int) -> Option<DataValueType> {
    if code == 0x00 {
        Some(DataValueType::TypeNull)
    } else if code == 0x01 {
        Some(DataValueType::TypeReference)
    } else if code == 0x02 {
        Some(DataValueType::TypeAttribute)
    } else if code == 0x03 {
        Some(DataValueType::TypeString)
    } else if code == 0x04 {
        Some(DataValueType::TypeFloat)
    } else if code == 0x05 {
        Some(DataValueType::TypeDimension)
    } else if code == 0x06 {
        Some(DataValueType::TypeFraction)
    } else if code == 0x07 {
        Some(DataValueType::TypeDynamicReference)
    } else if code == 0x08 {
        Some(DataValueType::TypeDynamicAttribute)
    } else if code == 0x10 {
        Some(DataValueType::TypeIntDec)
    } else if code == 0x11 {
        Some(DataValueType::TypeIntHex)
    } else if code == 0x12 {
        Some(DataValueType::TypeIntBoolean)
    } else if code == 0x1c {
        Some(DataValueType::TypeIntColorArgb8)
    } else if code == 0x1d {
        Some(DataValueType::TypeIntColorRgb8)
    } else if code == 0x1e {
        Some(DataValueType::TypeIntColorArgb4)
    } else if code == 0x1f {
        Some(DataValueType::TypeIntColorRgb4)
    } else {
        None
    }
}

/// A decoded typed value: its type tag and its 4 data bytes.
#[derive(Debug, Clone, Copy, PartialEq, Eq, Structural)]
pub struct ResValue {
    pub data_type: DataValueType,
    pub data: u32,
}

/// Decoding a typed value at `pos` reads its fixed 8 bytes (reserved
/// size, reserved padding, type tag, then the data word) and either
/// yields the value and the position past them, `TruncatedInput` when
/// fewer than 8 bytes remain, or `UnknownValueType` on a tag outside the
/// known set.
pub open spec fn spec_res_value(b: Seq<u8>, pos: int) -> Result<(ResValue, int), FormatError> {
    if !can_read(b, pos, 8) {
        Err(FormatError::TruncatedInput)
    } else {
        match value_type_of(b[pos + 3] as int) {
            None => Err(FormatError::UnknownValueType(b[pos + 3])),
            Some(t) => Ok((ResValue { data_type: t, data: le32(b, pos + 4) as u32 }, pos + 8)),
        }
    }
}

/// The canonical text for a typed value: `type1/` and the decimal data
/// for references, decimal for `IntDec`, `0x` and lowercase hexadecimal
/// for `IntHex`, `true`/`false` for `IntBoolean` (false exactly on zero),
/// and the empty string for every variant without a canonical form.
pub open spec fn spec_render(v: ResValue) -> Seq<char> {
    match v.data_type {
        DataValueType::TypeReference => "type1/"@ + spec_dec_digits(v.data as int),
        DataValueType::TypeIntDec => spec_dec_digits(v.data as int),
        DataValueType::TypeIntHex => "0x"@ + spec_hex_digits(v.data as int),
        DataValueType::TypeIntBoolean => if v.data == 0 {
            "false"@
        } else {
            "true"@
        },
        _ => Seq::empty(),
    }
}

impl ResValue {
    /// Parse the 8-byte typed value at the current position.  Exact with
    /// respect to [`spec_res_value`].
    pub fn from_buff(axml_buff: &mut AxmlCursor) -> (r: Result<ResValue, FormatError>)
        ensures
            final(axml_buff).data == old(axml_buff).data,
            match spec_res_value(old(axml_buff).data@, old(axml_buff).pos as int) {
                Ok((v, p)) => r == Ok::<ResValue, FormatError>(v) && final(axml_buff).pos == p,
                Err(e) => r == Err::<ResValue, FormatError>(e),
            },
    {
        let _size: u16 = axml_buff.read_u16()?;
        let _res0: u8 = axml_buff.read_u8()?;
        let type_code: u8 = axml_buff.read_u8()?;
        let data: u32 = axml_buff.read_u32()?;
        match Self::type_from_code(type_code) {
            None => Err(FormatError::UnknownValueType(type_code)),
            Some(t) => Ok(ResValue { data_type: t, data }),
        }
    }

    /// The value type a tag byte stands for, if any.
    pub fn type_from_code(code: u8) -> (r: Option<DataValueType>)
        ensures
            r == value_type_of(code as int),
    {
        if code == 0x00 {
            Some(DataValueType::TypeNull)
        } else if code == 0x01 {
            Some(DataValueType::TypeReference)
        } else if code == 0x02 {
            Some(DataValueType::TypeAttribute)
        } else if code == 0x03 {
            Some(DataValueType::TypeString)
        } else if code == 0x04 {
            Some(DataValueType::TypeFloat)
        } else if code == 0x05 {
            Some(DataValueType::TypeDimension)
        } else if code == 0x06 {
            Some(DataValueType::TypeFraction)
        } else if code == 0x07 {
            Some(DataValueType::TypeDynamicReference)
        } else if code == 0x08 {
            Some(DataValueType::TypeDynamicAttribute)
        } else if code == 0x10 {
            Some(DataValueType::TypeIntDec)
        } else if code == 0x11 {
            Some(DataValueType::TypeIntHex)
        } else if code == 0x12 {
            Some(DataValueType::TypeIntBoolean)
        } else if code == 0x1c {
            Some(DataValueType::TypeIntColorArgb8)
        } else if code == 0x1d {
            Some(DataValueType::TypeIntColorRgb8)
        } else if code == 0x1e {
            Some(DataValueType::TypeIntColorArgb4)
        } else if code == 0x1f {
            Some(DataValueType::TypeIntColorRgb4)
        } else {
            None
        }
    }

    /// Render this value to its canonical text.  Exact with respect to
    /// [`spec_render`].
    pub fn render(&self) -> (r: String)
        ensures
            r@ == spec_render(*self),
    {
        let mut out: String = String::new();
        match self.data_type {
            DataValueType::TypeReference => {
                out.append("type1/");
                push_dec(&mut out, self.data);
                proof {
                    assert(Seq::<char>::empty() + "type1/"@ + spec_dec_digits(self.data as int)
                        =~= "type1/"@ + spec_dec_digits(self.data as int));
                }
            },
            DataValueType::TypeIntDec => {
                push_dec(&mut out, self.data);
                proof {
                    assert(Seq::<char>::empty() + spec_dec_digits(self.data as int)
                        =~= spec_dec_digits(self.data as int));
                }
            },
            DataValueType::TypeIntHex => {
                out.append("0x");
                push_hex(&mut out, self.data);
                proof {
                    assert(Seq::<char>::empty() + "0x"@ + spec_hex_digits(self.data as int) =~= "0x"@
                        + spec_hex_digits(self.data as int));
                }
            },
            DataValueType::TypeIntBoolean => {
                if self.data == 0 {
                    out.append("false");
                } else {
                    out.append("true");
                }
                proof {
                    assert(Seq::<char>::empty() + "false"@ =~= "false"@);
                    assert(Seq::<char>::empty() + "true"@ =~= "true"@);
                }
            },
            _ => {},
        }
        out
    }
}

} // verus!
