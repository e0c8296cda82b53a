//! PL011 UART console logic.
//!
//! The UART registers are written outside the library; here stands what
//! the console layer computes: the newline translation applied to every
//! outgoing byte, the priority between the UART and the keyboard as input
//! sources, the fill of a caller's buffer from available input, and the
//! echo decision of the receive-interrupt handler.

use vstd::prelude::*;

verus! {

/// The byte stream the UART transmits for console output `s`: every line
/// feed is expanded to carriage return, line feed; every other byte is
/// sent as it is.
pub open spec fn crlf_expand(s: Seq<u8>) -> Seq<u8>
    decreases s.len(),
{
    if s.len() == 0 {
        Seq::empty()
    } else {
        crlf_expand(s.drop_last()) + (if s.last() == 0x0A {
            seq![0x0Du8, 0x0Au8]
        } else {
            seq![s.last()]
        })
    }
}

/// Computes the exact byte sequence the UART transmits for `bytes`.  The
/// caller feeds the result to the transmit register in order.
pub fn write_bytes(bytes: &Vec<u8>) -> (out: Vec<u8>)
    ensures
        out@ == crlf_expand(bytes@),
{
    let mut out: Vec<u8> = Vec::new();
    let n = bytes.len();
    for i in 0..n
        invariant
            n == bytes@.len(),
            out@ == crlf_expand(bytes@.take(i as int)),
    {
        let c = bytes[i];
        proof {
            assert(bytes@.take(i + 1).drop_last() =~= bytes@.take(i as int));
            assert(bytes@.take(i + 1).last() == bytes@[i as int]);
        }
        if c == 0x0A {
            out.push(0x0D);
            out.push(0x0A);
        } else {
            out.push(c);
        }
        proof {
            assert(out@ =~= crlf_expand(bytes@.take(i + 1)));
        }
    }
    proof {
        assert(bytes@.take(n as int) =~= bytes@);
    }
    out
}

/// One console input byte: the UART is polled first, the keyboard is the
/// fallback, and nothing is available only when both are empty.
pub fn getchar(uart: Option<u8>, keyboard: Option<u8>) -> (r: Option<u8>)
    ensures
        r == (if uart is Some {
            uart
        } else {
            keyboard
        }),
{
    if let Some(c) = uart {
        return Some(c);
    }
    if let Some(c) = keyboard {
        return Some(c);
    }
    None
}

/// Fills the caller's buffer from the head of the available input bytes
/// and returns how many were read: reading stops at the first exhausted
/// side, and the tail of the buffer keeps what it held.
pub fn read_bytes(bytes: &mut Vec<u8>, available: &Vec<u8>) -> (n: usize)
    ensures
        final(bytes)@.len() == old(bytes)@.len(),
        n == vstd::math::min(old(bytes)@.len() as int, available@.len() as int),
        forall|j: int| 0 <= j < n ==> final(bytes)@[j] == available@[j],
        forall|j: int| n <= j < old(bytes)@.len() ==> final(bytes)@[j] == old(bytes)@[j],
{
    let mut read_len: usize = 0;
    let cap = bytes.len();
    let avail_len = available.len();
    while read_len < cap && read_len < avail_len
        invariant
            cap == bytes@.len(),
            avail_len == available@.len(),
            bytes@.len() == old(bytes)@.len(),
            read_len <= cap,
            read_len <= avail_len,
            forall|j: int| 0 <= j < read_len ==> bytes@[j] == available@[j],
            forall|j: int| read_len <= j < bytes@.len() ==> bytes@[j] == old(bytes)@[j],
        decreases cap - read_len,
    {
        let c = available[read_len];
        bytes.set(read_len, c);
        read_len += 1;
    }
    read_len
}

/// The receive-interrupt handler's decision: after the interrupt is
/// acknowledged, a receive interrupt echoes every available input byte
/// back to the console, any other interrupt echoes nothing.
pub fn irq_handler(is_receive_interrupt: bool, pending: &Vec<u8>) -> (echo: Vec<u8>)
    ensures
        is_receive_interrupt ==> echo@ == pending@,
        !is_receive_interrupt ==> echo@ == Seq::<u8>::empty(),
{
    let mut echo: Vec<u8> = Vec::new();
    if is_receive_interrupt {
        let n = pending.len();
        for i in 0..n
            invariant
                n == pending@.len(),
                echo@ == pending@.take(i as int),
        {
            echo.push(pending[i]);
            proof {
                assert(echo@ =~= pending@.take(i + 1));
            }
        }
        proof {
            assert(pending@.take(n as int) =~= pending@);
        }
    }
    echo
}

} // verus!
