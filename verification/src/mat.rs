use vstd::prelude::*;
use vstd::utf8::{decode_utf8, encode_utf8, valid_utf8};

use crate::text::decode_message;

verus! {

/// A handle on a native OpenCV matrix: the native object's address and whether
/// this handle owns it (and so must release it).
pub struct Mat {
    pub ptr: usize,
    pub owned: bool,
}

/// What the native constructor of a matrix hands back: the address of an error
/// message (a C string that the caller must release) and the address of the
/// matrix it made.
pub struct NativeResult {
    pub error_msg: usize,
    pub result: usize,
}

/// The native call counts as failed when its message address, narrowed to a
/// 32-bit integer, is not zero. A null address never counts as a failure; an
/// address whose low 32 bits are all zero does not count as one either.
pub open spec fn native_reports_error(error_msg: usize) -> bool {
    (error_msg as int) % 0x1_0000_0000 != 0
}

/// The native call counts as failed exactly when its message address, read as a
/// 32-bit signed integer (the narrowing the constructor's check performs), is not
/// zero; equivalently, exactly when the low 32 bits of the address are not all zero.
/// Every address with a non-zero low half, however large, is a failure.
pub proof fn lemma_reports_error_is_i32_narrowing(error_msg: usize)
    ensures
        native_reports_error(error_msg) <==> (error_msg as i32) != 0,
        native_reports_error(error_msg) <==> (error_msg as int) % 0x1_0000_0000 != 0,
        (error_msg as int) % 0x1_0000_0000 != 0 ==> native_reports_error(error_msg),
{
    let a: u64 = error_msg as u64;
    assert(((a % 0x1_0000_0000u64) != 0) == ((a as i32) != 0)) by (bit_vector);
    assert((a as i32) == (error_msg as i32)) by (bit_vector)
        requires
            a == error_msg,
    ;
}

/// Whatever the rest of the address holds, a message address counts as a failure
/// as soon as any of its low 32 bits is set, and as a success when all of them
/// are clear: two addresses that agree in their low 32 bits are judged alike, and
/// any address whose low half is not zero is judged a failure.
pub proof fn lemma_reports_error_by_low_half(a: usize, b: usize)
    ensures
        (a as int) % 0x1_0000_0000 == (b as int) % 0x1_0000_0000 ==> (native_reports_error(a)
            <==> native_reports_error(b)),
        (a as int) % 0x1_0000_0000 != 0 ==> native_reports_error(a),
        (a as int) % 0x1_0000_0000 == 0 ==> !native_reports_error(a),
{
    lemma_reports_error_is_i32_narrowing(a);
    lemma_reports_error_is_i32_narrowing(b);
}

impl NativeResult {
    /// Whether the native call reported an error, so that its message must be
    /// read and released and no matrix was made.
    pub fn reports_error(&self) -> (res: bool)
        ensures
            res == native_reports_error(self.error_msg),
            res <==> (self.error_msg as int) % 0x1_0000_0000 != 0,
            res <==> (self.error_msg as i32) != 0,
            self.error_msg == 0 ==> !res,
    {
        proof {
            lemma_reports_error_is_i32_narrowing(self.error_msg);
        }
        (self.error_msg as u64) % 0x1_0000_0000u64 != 0
    }
}

impl Mat {
    /// Turns what the native constructor handed back into the constructor's result.
    ///
    /// When the native call reported an error, the result is `Err` with the text of
    /// the native message, whose bytes the caller read into `message`; it must be
    /// UTF-8 (text that is not cannot be returned). Otherwise the result is a handle
    /// that owns the matrix the native call made, and `message` is not looked at.
    pub fn from_native_result(ret: NativeResult, message: Vec<u8>) -> (res: Result<Mat, String>)
        requires
            native_reports_error(ret.error_msg) ==> valid_utf8(message@),
        ensures
            res is Err <==> native_reports_error(ret.error_msg),
            (ret.error_msg as int) % 0x1_0000_0000 != 0 ==> res is Err,
            (ret.error_msg as i32) != 0 ==> res is Err,
            (ret.error_msg as int) % 0x1_0000_0000 == 0 ==> (res matches Ok(m) && m.ptr == ret.result
                && m.owned),
            res matches Ok(m) ==> m.ptr == ret.result && m.owned,
            res matches Err(s) ==> s@ == decode_utf8(message@) && encode_utf8(s@) == message@,
    {
        proof {
            lemma_reports_error_is_i32_narrowing(ret.error_msg);
        }
        if ret.reports_error() {
            match decode_message(message) {
                Some(text) => Err(text),
                None => {
                    proof {
                        assert(false);
                    }
                    Err(String::new())
                },
            }
        } else {
            Ok(Mat { ptr: ret.result, owned: true })
        }
    }
}

} // verus!
