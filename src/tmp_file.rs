//! Capture files for the library's text output.
use vstd::prelude::*;
use vstd::utf8::{decode_utf8, valid_utf8};

verus! {

/// Relies on `String::from_utf8`: it succeeds exactly on valid UTF-8 and
/// then gives the characters that the bytes encode.
#[verifier::external_body]
pub(crate) fn utf8_to_string(bytes: Vec<u8>) -> (r: Option<String>)
    ensures
        r is Some <==> valid_utf8(bytes@),
        r matches Some(s) ==> s@ == decode_utf8(bytes@),
{
    String::from_utf8(bytes).ok()
}

/// A capture file: what the library wrote to it, in order.
#[derive(Clone, Debug)]
pub struct TmpFile {
    contents: Vec<u8>,
}

impl TmpFile {
    /// The bytes written so far.
    pub closed spec fn written(&self) -> Seq<u8> {
        self.contents@
    }

    /// An empty capture file.
    pub fn new() -> (r: TmpFile)
        ensures
            r.written().len() == 0,
    {
        TmpFile { contents: Vec::new() }
    }

    /// Appends bytes to the file.
    pub fn write(&mut self, bytes: &[u8])
        ensures
            final(self).written() == old(self).written() + bytes@,
    {
        let mut k: usize = 0;
        let ghost start = self.contents@;
        while k < bytes.len()
            invariant
                k <= bytes@.len(),
                self.contents@ == start + bytes@.take(k as int),
            decreases bytes@.len() - k,
        {
            self.contents.push(bytes[k]);
            k = k + 1;
            assert(self.contents@ =~= start + bytes@.take(k as int));
        }
        assert(bytes@.take(k as int) =~= bytes@);
    }

    /// Everything written to the file; the file is gone afterwards.
    pub fn read_and_close(self) -> (r: Vec<u8>)
        ensures
            r@ == self.written(),
    {
        self.contents
    }

    /// Everything written to the file as text; `None` where it is not
    /// valid UTF-8.
    pub fn read_as_string_and_close(self) -> (r: Option<String>)
        ensures
            r is Some <==> valid_utf8(self.written()),
            r matches Some(s) ==> s@ == decode_utf8(self.written()),
    {
        utf8_to_string(self.read_and_close())
    }
}

} // verus!
