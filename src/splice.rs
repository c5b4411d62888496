//! Inserting new text into an existing file's contents at a byte offset.
use vstd::prelude::*;

verus! {

/// `contents` with `data` inserted at byte offset `at`, or `None` when `at` lies past the end.
pub fn splice_bytes(contents: &Vec<u8>, at: usize, data: &Vec<u8>) -> (r: Option<Vec<u8>>)
    ensures
        match r {
            Some(v) => at <= contents@.len() && v@ == contents@.take(at as int) + data@
                + contents@.skip(at as int),
            None => at > contents@.len(),
        },
{
    if at > contents.len() {
        return None;
    }
    let mut out: Vec<u8> = Vec::new();
    let mut i: usize = 0;
    while i < at
        invariant
            at <= contents@.len(),
            i <= at,
            out@ == contents@.take(i as int),
        decreases at - i,
    {
        out.push(contents[i]);
        i = i + 1;
        assert(out@ =~= contents@.take(i as int));
    }
    let mut j: usize = 0;
    while j < data.len()
        invariant
            j <= data@.len(),
            out@ == contents@.take(at as int) + data@.take(j as int),
        decreases data@.len() - j,
    {
        out.push(data[j]);
        j = j + 1;
        assert(out@ =~= contents@.take(at as int) + data@.take(j as int));
    }
    assert(data@.take(j as int) =~= data@);
    let mut k: usize = at;
    while k < contents.len()
        invariant
            at <= k <= contents@.len(),
            out@ == contents@.take(at as int) + data@ + contents@.subrange(at as int, k as int),
        decreases contents@.len() - k,
    {
        out.push(contents[k]);
        k = k + 1;
        assert(out@ =~= contents@.take(at as int) + data@ + contents@.subrange(at as int, k as int));
    }
    assert(contents@.subrange(at as int, k as int) =~= contents@.skip(at as int));
    Some(out)
}

} // verus!
