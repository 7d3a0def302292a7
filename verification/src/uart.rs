//! Console sink: the byte-output primitive every component uses for
//! diagnostics.
//!
//! On the target this is a memory-mapped UART transmit register; here the
//! stream of transmitted bytes is held in the `Console` value itself, so the
//! exact bytes a boot run emits are part of its specification. The console
//! protocol is a raw byte stream in which every `'\n'` is preceded by `'\r'`.

use vstd::prelude::*;

verus! {

/// The low eight bits of a character, as the transmit register takes them.
pub open spec fn byte_of_char(c: char) -> u8 {
    ((c as u32) % 256) as u8
}

/// The bytes one character puts on the wire: `'\n'` becomes `"\r\n"`.
pub open spec fn encode_char(c: char) -> Seq<u8> {
    if c == '\n' {
        seq![13u8, 10u8]
    } else {
        seq![byte_of_char(c)]
    }
}

/// The bytes a whole string puts on the wire.
pub open spec fn encode_str(s: Seq<char>) -> Seq<u8>
    decreases s.len(),
{
    if s.len() == 0 {
        Seq::empty()
    } else {
        encode_str(s.drop_last()) + encode_char(s.last())
    }
}

/// The bytes of one full output line: the string, then `"\r\n"`.
pub open spec fn encode_line(s: Seq<char>) -> Seq<u8> {
    encode_str(s) + seq![13u8, 10u8]
}

/// The console sink. Its view is the sequence of bytes transmitted so far.
pub struct Console {
    out: Vec<u8>,
}

impl View for Console {
    type V = Seq<u8>;

    closed spec fn view(&self) -> Seq<u8> {
        self.out@
    }
}

impl Console {
    /// Bring up the console; nothing has been transmitted yet.
    pub fn init() -> (c: Console)
        ensures
            c@ == Seq::<u8>::empty(),
    {
        Console { out: Vec::new() }
    }

    /// Transmit one character, untranslated.
    pub fn putchar(&mut self, c: char)
        ensures
            final(self)@ == old(self)@.push(byte_of_char(c)),
    {
        let b: u8 = ((c as u32) % 256) as u8;
        self.out.push(b);
    }

    /// Transmit a string, expanding each `'\n'` to `"\r\n"`.
    pub fn print(&mut self, s: &str)
        ensures
            final(self)@ == old(self)@ + encode_str(s@),
    {
        let n = s.unicode_len();
        let mut i: usize = 0;
        while i < n
            invariant
                i <= n,
                n == s@.len(),
                self@ == old(self)@ + encode_str(s@.take(i as int)),
            decreases n - i,
        {
            let c = s.get_char(i);
            if c == '\n' {
                self.putchar('\r');
            }
            self.putchar(c);
            proof {
                let t = s@.take(i + 1 as int);
                assert(t.drop_last() =~= s@.take(i as int));
                assert(t.last() == s@[i as int]);
                if c == '\n' {
                    assert(byte_of_char('\r') == 13u8);
                    assert(byte_of_char('\n') == 10u8);
                }
                assert(self@ =~= old(self)@ + encode_str(s@.take(i + 1 as int)));
            }
            i = i + 1;
        }
        proof {
            assert(s@.take(n as int) =~= s@);
        }
    }

    /// Transmit a string followed by a line ending.
    pub fn println(&mut self, s: &str)
        ensures
            final(self)@ == old(self)@ + encode_line(s@),
    {
        self.print(s);
        self.print("\n");
        proof {
            reveal_strlit("\n");
            assert("\n"@ =~= seq!['\n']);
            assert(seq!['\n'].drop_last() =~= Seq::<char>::empty());
            assert(seq!['\n'].last() == '\n');
            assert(encode_str(Seq::<char>::empty()) =~= Seq::<u8>::empty());
            assert(encode_str(seq!['\n'].drop_last()) =~= Seq::<u8>::empty());
            assert(encode_str(seq!['\n']) =~= seq![13u8, 10u8]);
            assert(self@ =~= old(self)@ + encode_line(s@));
        }
    }

    /// The bytes transmitted so far, for a host to forward or display.
    pub fn transmitted(&self) -> (r: &Vec<u8>)
        ensures
            r@ == self@,
    {
        &self.out
    }
}

} // verus!
