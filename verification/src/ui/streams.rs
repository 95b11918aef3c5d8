//! In-memory stand-ins for the standard streams of a simulated program.

use vstd::prelude::*;
use vstd::string::*;

verus! {

/// The characters that bytes stand for when each byte is read as a Unicode
/// code point below 256 (Latin-1).
pub open spec fn latin1(bytes: Seq<u8>) -> Seq<char> {
    bytes.map_values(|b: u8| b as char)
}

/// `String::push`: appends `c` to `s`.
#[verifier::external_body]
pub(crate) fn string_push(s: &mut String, c: char)
    ensures
        final(s)@ == old(s)@.push(c),
{
    s.push(c)
}

/// A standard stream that keeps everything written to it as text.
pub struct StdStream(String);

impl View for StdStream {
    type V = Seq<char>;

    /// The text written so far.
    closed spec fn view(&self) -> Seq<char> {
        self.0@
    }
}

impl Default for StdStream {
    fn default() -> (r: Self)
        ensures
            r@ == Seq::<char>::empty(),
    {
        StdStream(String::new())
    }
}

impl Clone for StdStream {
    fn clone(&self) -> (r: Self)
        ensures
            r@ == self@,
    {
        StdStream(self.0.clone())
    }
}

impl StdStream {
    /// The text written so far.
    pub fn inner(&self) -> (r: &str)
        ensures
            r@ == self@,
    {
        self.0.as_str()
    }

    /// Reading gives nothing: no input is ever available.
    pub fn read(&mut self, buf: &mut [u8]) -> (r: usize)
        ensures
            r == 0,
            final(self)@ == old(self)@,
            final(buf)@ == old(buf)@,
    {
        0
    }

    /// Appends `buf` as Latin-1 text; all of it is always accepted.
    pub fn write(&mut self, buf: &[u8]) -> (r: usize)
        ensures
            r == buf@.len(),
            final(self)@ == old(self)@ + latin1(buf@),
    {
        let mut i: usize = 0;
        while i < buf.len()
            invariant
                i <= buf@.len(),
                self@ == old(self)@ + latin1(buf@.subrange(0, i as int)),
            decreases buf.len() - i,
        {
            string_push(&mut self.0, buf[i] as char);
            proof {
                assert(latin1(buf@.subrange(0, i + 1)) =~= latin1(buf@.subrange(0, i as int)).push(
                    buf@[i as int] as char,
                ));
            }
            i = i + 1;
        }
        proof {
            assert(buf@.subrange(0, buf@.len() as int) =~= buf@);
        }
        buf.len()
    }

    /// Nothing is buffered, so flushing does nothing.
    pub fn flush(&mut self)
        ensures
            final(self)@ == old(self)@,
    {
    }
}

} // verus!
