use vstd::prelude::*;
use vstd::string::StringSliceAdditionalSpecFns;

verus! {

/// The ROM console UART, written one byte at a time with `uart_tx_one_char`.
pub struct Uart;

impl Uart {
    /// The bytes that writing `s` sends, in order, one `uart_tx_one_char`
    /// each: the UTF-8 encoding of `s`.
    pub fn write_str(&mut self, s: &str) -> (sent: Vec<u8>)
        ensures
            sent@ == s.spec_bytes(),
    {
        let bytes = s.as_bytes();
        let mut sent: Vec<u8> = Vec::new();
        let mut i: usize = 0;
        while i < bytes.len()
            invariant
                bytes@ == s.spec_bytes(),
                0 <= i <= bytes@.len(),
                sent@ == bytes@.take(i as int),
            decreases bytes@.len() - i,
        {
            sent.push(bytes[i]);
            i = i + 1;
            assert(sent@ =~= bytes@.take(i as int));
        }
        assert(bytes@.take(bytes@.len() as int) =~= bytes@);
        sent
    }
}

} // verus!
