//! Agreement of element types.

use vstd::prelude::*;
use vstd::string::*;

use crate::dlpack::DLDataType;
use crate::text::push_decimal;

verus! {

/// The class and width of an element type, as messages name them.
pub open spec fn dtype_text(dtype: DLDataType) -> Seq<char> {
    "code="@ + crate::text::decimal(dtype.code as nat) + " bits="@ + crate::text::decimal(dtype.bits as nat)
}

/// Appends the class and width of an element type.
pub fn push_dtype(out: &mut String, dtype: DLDataType)
    ensures
        final(out)@ == old(out)@ + dtype_text(dtype),
{
    out.append("code=");
    push_decimal(out, dtype.code as u64);
    out.append(" bits=");
    push_decimal(out, dtype.bits as u64);
    assert(out@ =~= old(out)@ + dtype_text(dtype));
}

/// Two element types agree in class and width.
pub open spec fn agrees(a: DLDataType, b: DLDataType) -> bool {
    a.code == b.code && a.bits == b.bits
}

/// The message on queries of another element type than that of the index.
pub open spec fn mismatch(index_dtype: DLDataType, query_dtype: DLDataType) -> Seq<char> {
    "queries dtype must match the index dtype exactly: index has "@ + dtype_text(index_dtype) + ", got "@
        + dtype_text(query_dtype)
}

pub fn mismatch_text(index_dtype: DLDataType, query_dtype: DLDataType) -> (r: String)
    ensures
        r@ == mismatch(index_dtype, query_dtype),
{
    let mut text = String::from_str("queries dtype must match the index dtype exactly: index has ");
    push_dtype(&mut text, index_dtype);
    text.append(", got ");
    push_dtype(&mut text, query_dtype);
    text
}

} // verus!
