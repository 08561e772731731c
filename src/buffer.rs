use vstd::prelude::*;

verus! {

/// Appends a copy of every element of `values` to the tail of `buf`.
pub(crate) fn append_all<T: Copy>(buf: &mut Vec<T>, values: &[T])
    ensures
        final(buf)@ == old(buf)@ + values@,
{
    let mut i: usize = 0;
    while i < values.len()
        invariant
            i <= values@.len(),
            buf@ == old(buf)@ + values@.subrange(0, i as int),
        decreases values@.len() - i,
    {
        buf.push(values[i]);
        i = i + 1;
        assert(values@.subrange(0, i as int) =~= values@.subrange(0, i - 1) + seq![values@[i - 1]]);
    }
    assert(values@.subrange(0, values@.len() as int) =~= values@);
}

} // verus!
