//! Error taxonomy and the mapping from boundary status codes to errors.
//!
//! Every mutating call across the native boundary reports a status code:
//! one success value, a generic internal-failure value, an invalid-parameter
//! value, and an open range of other codes. The mapping here is checked at
//! every call site and converted immediately; a success status is never
//! converted into an error value.

use vstd::prelude::*;
use vstd::string::StringExecFns;

verus! {

/// Status code the boundary returns on success.
pub const STATUS_OK: u32 = 0;

/// Status code the boundary returns for a generic internal failure.
pub const STATUS_INTERNAL_ERROR: u32 = 20400000;

/// Status code the boundary returns when it rejects a parameter.
pub const STATUS_INVALID_PARAM: u32 = 20400001;

/// The decimal spelling of a number, as ASCII digit bytes, most
/// significant digit first.
pub open spec fn spec_decimal_bytes(n: nat) -> Seq<u8>
    decreases n,
{
    if n < 10 {
        seq![(n + 48) as u8]
    } else {
        spec_decimal_bytes(n / 10).push((n % 10 + 48) as u8)
    }
}

/// The decimal spelling of a number, as characters.
pub open spec fn spec_decimal_chars(n: nat) -> Seq<char> {
    spec_decimal_bytes(n).map(|i: int, b: u8| b as char)
}

/// Every byte of a decimal spelling is an ASCII digit.
proof fn lemma_decimal_bytes_ascii(n: nat)
    ensures
        forall|i: int|
            0 <= i < spec_decimal_bytes(n).len() ==> 48 <= #[trigger] spec_decimal_bytes(n)[i]
                <= 57,
    decreases n,
{
    if n >= 10 {
        lemma_decimal_bytes_ascii(n / 10);
        assert forall|i: int|
            0 <= i < spec_decimal_bytes(n).len() implies 48 <= #[trigger] spec_decimal_bytes(
            n,
        )[i] <= 57 by {
            if i < spec_decimal_bytes(n / 10).len() {
                assert(spec_decimal_bytes(n)[i] == spec_decimal_bytes(n / 10)[i]);
            } else {
                assert(spec_decimal_bytes(n)[i] == (n % 10 + 48) as u8);
            }
        }
    }
}

/// Relies on `String::from_utf8`: a sequence of ASCII bytes is valid
/// UTF-8 and decodes to exactly the characters those bytes spell.
#[verifier::external_body]
fn ascii_to_string(bytes: Vec<u8>) -> (r: String)
    requires
        forall|i: int| 0 <= i < bytes@.len() ==> bytes@[i] < 128,
    ensures
        r@ == bytes@.map(|i: int, b: u8| b as char),
{
    match String::from_utf8(bytes) {
        Ok(s) => s,
        Err(_) => String::new(),
    }
}

/// The decimal spelling of a number, most significant digit first, with
/// no sign, no padding and no leading zero (except for zero itself).
pub fn decimal_string(n: u32) -> (r: String)
    ensures
        r@ == spec_decimal_chars(n as nat),
{
    let mut digits: Vec<u8> = Vec::new();
    let mut m: u32 = n;
    if m == 0 {
        digits.push(48);
        proof {
            assert(digits@ =~= spec_decimal_bytes(0));
        }
    } else {
        while m > 0
            invariant
                m > 0 ==> spec_decimal_bytes(n as nat) =~= spec_decimal_bytes(m as nat)
                    + digits@,
                m == 0 ==> spec_decimal_bytes(n as nat) =~= digits@,
            decreases m,
        {
            let ghost prev = digits@;
            let d: u8 = (m % 10) as u8 + 48;
            digits.insert(0, d);
            proof {
                assert(digits@ =~= seq![d] + prev);
            }
            let next: u32 = m / 10;
            proof {
                if m < 10 {
                    assert(spec_decimal_bytes(m as nat) =~= seq![d]);
                    assert(spec_decimal_bytes(n as nat) =~= digits@);
                } else {
                    assert(spec_decimal_bytes(m as nat) =~= spec_decimal_bytes(
                        next as nat,
                    ) + seq![d]);
                    assert(spec_decimal_bytes(n as nat) =~= spec_decimal_bytes(next as nat)
                        + digits@);
                }
            }
            m = next;
        }
    }
    proof {
        lemma_decimal_bytes_ascii(n as nat);
    }
    ascii_to_string(digits)
}

/// Errors reported by this layer.
#[derive(Clone, Copy, Debug, PartialEq, Eq, Structural)]
pub enum UdmfError {
    /// The boundary reported a generic failure; the payload is the raw
    /// status code, or zero when a constructor returned a null handle.
    InternalError(u32),
    /// Caller-supplied data cannot be marshalled across the boundary, or
    /// the boundary explicitly rejected the parameter.
    InvalidParam,
    /// The boundary returned a status code outside the known set.
    Unknown(u32),
}

impl UdmfError {
    /// The error that a non-success status code denotes.
    pub open spec fn spec_from_code(code: u32) -> UdmfError {
        if code == STATUS_INTERNAL_ERROR {
            UdmfError::InternalError(code)
        } else if code == STATUS_INVALID_PARAM {
            UdmfError::InvalidParam
        } else {
            UdmfError::Unknown(code)
        }
    }

    /// Classify a boundary status code that is known not to be success.
    /// A success code is a caller-level contract violation, not an error.
    pub fn from_code(code: u32) -> (r: UdmfError)
        requires
            code != STATUS_OK,
        ensures
            r == UdmfError::spec_from_code(code),
    {
        if code == STATUS_INTERNAL_ERROR {
            UdmfError::InternalError(code)
        } else if code == STATUS_INVALID_PARAM {
            UdmfError::InvalidParam
        } else {
            UdmfError::Unknown(code)
        }
    }

    /// The human-readable description of this error.
    pub open spec fn spec_message(self) -> Seq<char> {
        match self {
            UdmfError::InternalError(code) => "Internal error: "@ + spec_decimal_chars(
                code as nat,
            ),
            UdmfError::InvalidParam => "Invalid parameter"@,
            UdmfError::Unknown(code) => "Unknown error code: "@ + spec_decimal_chars(
                code as nat,
            ),
        }
    }

    /// Render this error as its human-readable description.
    pub fn message(&self) -> (r: String)
        ensures
            r@ == self.spec_message(),
    {
        match self {
            UdmfError::InternalError(code) => {
                let mut s = String::from_str("Internal error: ");
                s.append(decimal_string(*code).as_str());
                s
            },
            UdmfError::InvalidParam => String::from_str("Invalid parameter"),
            UdmfError::Unknown(code) => {
                let mut s = String::from_str("Unknown error code: ");
                s.append(decimal_string(*code).as_str());
                s
            },
        }
    }
}

/// The unsigned bit pattern of a raw (possibly negative) status code.
pub open spec fn spec_status_bits(code: i32) -> u32 {
    if code >= 0 {
        code as u32
    } else {
        (code + 0x1_0000_0000) as u32
    }
}

/// What `to_result` returns for each raw status code.
pub open spec fn spec_to_result(code: i32) -> Result<(), UdmfError> {
    if code == STATUS_OK as i32 {
        Ok(())
    } else {
        Err(UdmfError::spec_from_code(spec_status_bits(code)))
    }
}

/// Map a raw boundary status code to this layer's result type: the success
/// code maps to `Ok`, every other code to the error it denotes.
pub fn to_result(code: i32) -> (r: Result<(), UdmfError>)
    ensures
        r == spec_to_result(code),
        (r is Ok) <==> (code == STATUS_OK as i32),
{
    if code == 0 {
        Ok(())
    } else {
        let bits: u32 = if code >= 0 {
            code as u32
        } else {
            ((code as i64) + 0x1_0000_0000i64) as u32
        };
        Err(UdmfError::from_code(bits))
    }
}

} // verus!
