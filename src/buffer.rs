use vstd::prelude::*;

verus! {

/// The size in bytes of `count` elements of `elem_size` bytes each, as the
/// signed size type the graphics API takes for buffer uploads, or `None`
/// when it does not fit in that type.
pub fn buffer_byte_len(count: usize, elem_size: usize) -> (r: Option<isize>)
    ensures
        r is Some <==> count * elem_size <= isize::MAX,
        r matches Some(n) ==> n == count * elem_size,
{
    match count.checked_mul(elem_size) {
        Some(n) => {
            if n <= isize::MAX as usize {
                Some(n as isize)
            } else {
                None
            }
        },
        None => {
            assert(count * elem_size > isize::MAX);
            None
        },
    }
}

} // verus!
