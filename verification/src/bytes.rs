//! Small byte-level helpers shared by the field types.
use vstd::prelude::*;

verus! {

/// How an on/off byte reads: exactly the value 1 means "on".
pub open spec fn flag_of(b: u8) -> bool {
    b == 1
}

/// How an on/off value is written.
pub open spec fn flag_byte(on: bool) -> u8 {
    if on {
        1
    } else {
        0
    }
}

/// Reads an on/off byte.
pub fn read_flag(b: u8) -> (on: bool)
    ensures
        on == flag_of(b),
{
    b == 1
}

/// Writes an on/off value as a byte.
pub fn write_flag(on: bool) -> (b: u8)
    ensures
        b == flag_byte(on),
{
    if on {
        1
    } else {
        0
    }
}

/// Copies `N` bytes of `input`, starting at `start`, into an array.
pub fn copy_bytes<const N: usize>(input: &[u8], start: usize) -> (out: [u8; N])
    requires
        start + N <= input@.len(),
    ensures
        out@ == input@.subrange(start as int, start + N),
{
    let mut out = [0u8; N];
    let len = input.len();
    let mut i: usize = 0;
    while i < N
        invariant
            i <= N,
            len == input@.len(),
            start + N <= input@.len(),
            out@.len() == N,
            forall|j: int| 0 <= j < i ==> out@[j] == input@[start + j],
        decreases N - i,
    {
        out[i] = input[start + i];
        i = i + 1;
    }
    assert(out@ =~= input@.subrange(start as int, start + N));
    out
}

/// Appends `bytes` to the end of `out`.
pub fn append_bytes(out: &mut Vec<u8>, bytes: &[u8])
    ensures
        final(out)@ == old(out)@ + bytes@,
{
    let ghost start = out@;
    let mut i: usize = 0;
    while i < bytes.len()
        invariant
            i <= bytes@.len(),
            out@ == start + bytes@.subrange(0, i as int),
        decreases bytes@.len() - i,
    {
        out.push(bytes[i]);
        i = i + 1;
        assert(out@ =~= start + bytes@.subrange(0, i as int));
    }
    assert(bytes@.subrange(0, bytes@.len() as int) =~= bytes@);
}

} // verus!
