//! Errors of the capture engine: a status code, and the message that came
//! with it where one could be read.

use vstd::prelude::*;
use vstd::string::StringExecFns;
use crate::text::{c_str_bytes, decode_lossy, has_nul, keeps_well_formed, lossy_utf8, until_nul};

verus! {

/// The length the engine asks of an error buffer.
pub open spec fn errbuf_len() -> nat {
    256
}

/// Trusted: the constant `pcap_sys::PCAP_ERRBUF_SIZE`, which is 256.
#[verifier::external_body]
fn native_errbuf_size() -> (n: usize)
    ensures
        n == errbuf_len(),
{
    pcap_sys::PCAP_ERRBUF_SIZE as usize
}

/// The bytes of an error buffer, as the engine left them after a call.
pub struct ErrBuf {
    buf: Vec<u8>,
}

impl View for ErrBuf {
    type V = Seq<u8>;

    closed spec fn view(&self) -> Seq<u8> {
        self.buf@
    }
}

impl ErrBuf {
    /// A buffer that no call has written to: `errbuf_len()` zero bytes.
    pub fn new() -> (r: ErrBuf)
        ensures
            r@ == Seq::new(errbuf_len(), |i: int| 0u8),
    {
        let n: usize = native_errbuf_size();
        let mut buf: Vec<u8> = Vec::new();
        while buf.len() < n
            invariant
                n == errbuf_len(),
                buf@.len() <= n,
                forall|j: int| 0 <= j < buf@.len() ==> buf@[j] == 0,
            decreases n - buf@.len(),
        {
            buf.push(0u8);
        }
        assert(buf@ =~= Seq::new(errbuf_len(), |i: int| 0u8));
        ErrBuf { buf }
    }

    /// The buffer that holds `bytes`, of whatever length.
    pub fn from_bytes(bytes: Vec<u8>) -> (r: ErrBuf)
        ensures
            r@ == bytes@,
    {
        ErrBuf { buf: bytes }
    }

    /// The bytes held.
    pub fn as_bytes(&self) -> (r: &[u8])
        ensures
            r@ == self@,
    {
        self.buf.as_slice()
    }

    /// The message in the buffer: the text, decoded lossily, of the bytes
    /// before the first zero byte. A buffer without a zero byte holds no
    /// message.
    pub fn read(&self) -> (r: Option<String>)
        ensures
            r is Some <==> has_nul(self@),
            r matches Some(s) ==> s@ == lossy_utf8(until_nul(self@)),
            r matches Some(s) ==> keeps_well_formed(until_nul(self@), s@),
    {
        match c_str_bytes(self.buf.as_slice()) {
            Some(bytes) => Some(decode_lossy(bytes)),
            None => None,
        }
    }
}

/// What an [`Error`] holds, as mathematical values.
pub struct ErrorView {
    pub message: Option<Seq<char>>,
    pub code: int,
}

/// A failure that the engine reported.
#[derive(Debug)]
pub struct Error {
    message: Option<String>,
    code: i32,
}

impl View for Error {
    type V = ErrorView;

    closed spec fn view(&self) -> ErrorView {
        ErrorView {
            message: match self.message {
                Some(m) => Some(m@),
                None => None,
            },
            code: self.code as int,
        }
    }
}

/// The bytes of the message that an error buffer holds: those before the
/// first zero byte, and none where no zero byte ends them.
pub open spec fn errbuf_bytes(buf: Seq<u8>) -> Option<Seq<u8>> {
    if has_nul(buf) {
        Some(until_nul(buf))
    } else {
        None
    }
}

/// The bytes behind what a session's last-error accessor gave.
pub open spec fn bytes_of(last: Option<&[u8]>) -> Option<Seq<u8>> {
    match last {
        Some(bytes) => Some(bytes@),
        None => None,
    }
}

/// The message that is made of the bytes of a message: their lossy
/// decoding, and none where there are no bytes.
pub open spec fn message_of(bytes: Option<Seq<u8>>) -> Option<Seq<char>> {
    match bytes {
        Some(b) => Some(lossy_utf8(b)),
        None => None,
    }
}

/// A message whose bytes are well-formed UTF-8 is the text that they
/// encode.
pub open spec fn message_keeps_well_formed(
    bytes: Option<Seq<u8>>,
    message: Option<Seq<char>>,
) -> bool {
    match bytes {
        Some(b) => message is Some && keeps_well_formed(b, message->0),
        None => message is None,
    }
}

/// `e` is the error with code `code` whose message was made of `bytes`.
pub open spec fn is_error(e: ErrorView, code: int, bytes: Option<Seq<u8>>) -> bool {
    &&& e.code == code
    &&& e.message == message_of(bytes)
    &&& message_keeps_well_formed(bytes, e.message)
}

/// One decimal digit.
pub open spec fn digit_char(d: int) -> char {
    if d == 0 {
        '0'
    } else if d == 1 {
        '1'
    } else if d == 2 {
        '2'
    } else if d == 3 {
        '3'
    } else if d == 4 {
        '4'
    } else if d == 5 {
        '5'
    } else if d == 6 {
        '6'
    } else if d == 7 {
        '7'
    } else if d == 8 {
        '8'
    } else {
        '9'
    }
}

/// The decimal digits of `n`, without leading zeros.
pub open spec fn decimal_digits(n: nat) -> Seq<char>
    decreases n,
{
    if n < 10 {
        seq![digit_char(n as int)]
    } else {
        decimal_digits(n / 10).push(digit_char((n % 10) as int))
    }
}

/// `i` in decimal, with a minus sign where it is negative.
pub open spec fn decimal(i: int) -> Seq<char> {
    if i < 0 {
        seq!['-'] + decimal_digits((-i) as nat)
    } else {
        decimal_digits(i as nat)
    }
}

/// How an error reads: the code, then the message where there is one.
pub open spec fn error_text(e: ErrorView) -> Seq<char> {
    let head = "pcap error "@ + decimal(e.code);
    match e.message {
        Some(m) => head + ": "@ + m,
        None => head,
    }
}

fn digit_str(d: u64) -> (r: &'static str)
    requires
        d < 10,
    ensures
        r@ == seq![digit_char(d as int)],
{
    proof {
        reveal_strlit("0");
        reveal_strlit("1");
        reveal_strlit("2");
        reveal_strlit("3");
        reveal_strlit("4");
        reveal_strlit("5");
        reveal_strlit("6");
        reveal_strlit("7");
        reveal_strlit("8");
        reveal_strlit("9");
    }
    let r = if d == 0 {
        "0"
    } else if d == 1 {
        "1"
    } else if d == 2 {
        "2"
    } else if d == 3 {
        "3"
    } else if d == 4 {
        "4"
    } else if d == 5 {
        "5"
    } else if d == 6 {
        "6"
    } else if d == 7 {
        "7"
    } else if d == 8 {
        "8"
    } else {
        "9"
    };
    assert(r@ =~= seq![digit_char(d as int)]);
    r
}

fn push_decimal_digits(text: &mut String, n: u64)
    ensures
        final(text)@ == old(text)@ + decimal_digits(n as nat),
    decreases n,
{
    if n >= 10 {
        push_decimal_digits(text, n / 10);
    }
    let d: u64 = n % 10;
    text.append(digit_str(d));
    assert(text@ =~= old(text)@ + decimal_digits(n as nat));
}

fn push_decimal(text: &mut String, i: i32)
    ensures
        final(text)@ == old(text)@ + decimal(i as int),
{
    if i < 0 {
        proof {
            reveal_strlit("-");
        }
        text.append("-");
        let magnitude: u64 = (-(i as i64)) as u64;
        push_decimal_digits(text, magnitude);
        assert(text@ =~= old(text)@ + decimal(i as int));
    } else {
        push_decimal_digits(text, i as u64);
    }
}

impl Error {
    /// The error of a call that filled `err_buf` and came back with
    /// `err_code`. The code is kept as it is; the message is what the buffer
    /// holds, if anything.
    pub fn new(err_buf: ErrBuf, err_code: i32) -> (r: Error)
        ensures
            is_error(r@, err_code as int, errbuf_bytes(err_buf@)),
    {
        Error { message: err_buf.read(), code: err_code }
    }

    /// The error of a call on an open session that came back with `code`.
    /// `last` is what the session's last-error accessor gave: the bytes of
    /// its message, or nothing.
    pub fn from_last(last: Option<&[u8]>, code: i32) -> (r: Error)
        ensures
            is_error(r@, code as int, bytes_of(last)),
    {
        let message = match last {
            Some(bytes) => Some(decode_lossy(bytes)),
            None => None,
        };
        Error { message, code }
    }

    /// Turns the status of a call on an open session into a result: zero is
    /// success, anything else the error that `from_last` makes of it.
    pub fn check(last: Option<&[u8]>, code: i32) -> (r: Result<(), Error>)
        ensures
            code == 0 ==> r is Ok,
            code != 0 ==> r is Err && is_error(r->Err_0@, code as int, bytes_of(last)),
    {
        if code != 0 {
            Err(Error::from_last(last, code))
        } else {
            Ok(())
        }
    }

    /// The message, where the engine gave one.
    pub fn message(&self) -> (r: Option<&str>)
        ensures
            r is Some <==> self@.message is Some,
            r matches Some(m) ==> m@ == self@.message->0,
    {
        match &self.message {
            Some(m) => Some(m.as_str()),
            None => None,
        }
    }

    /// The status code.
    pub fn code(&self) -> (r: i32)
        ensures
            r == self@.code,
    {
        self.code
    }

    /// The error as a line of text: `pcap error `, the code in decimal and,
    /// where there is a message, `: ` and the message.
    pub fn to_string(&self) -> (r: String)
        ensures
            r@ == error_text(self@),
    {
        let mut text = String::from_str("pcap error ");
        push_decimal(&mut text, self.code);
        match &self.message {
            Some(m) => {
                text.append(": ");
                text.append(m.as_str());
                assert(text@ =~= error_text(self@));
            },
            None => {},
        }
        text
    }
}

} // verus!
