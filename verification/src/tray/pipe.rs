//! Frames on the protected pairing pipe, and the secrets that travel in them.

use crate::schedule::SECOND;
use crate::text;
use vstd::prelude::*;
use vstd::utf8::{encode_utf8, valid_utf8};

verus! {

/// The four bytes that write a length, the lowest first.
pub open spec fn length_bytes(n: u32) -> Seq<u8> {
    seq![
        (n % 256) as u8,
        (n / 256 % 256) as u8,
        (n / 65536 % 256) as u8,
        (n / 16777216) as u8,
    ]
}

/// The length that four bytes write.
pub open spec fn length_value(header: Seq<u8>) -> int {
    header[0] + 256 * header[1] + 65536 * header[2] + 16777216 * header[3]
}

/// A frame: the length of its body, then the body.
pub open spec fn frame(body: Seq<u8>) -> Seq<u8> {
    length_bytes(body.len() as u32) + body
}

/// The frame around `body`, unless its length does not fit.
pub fn pipe_frame(body: &Vec<u8>) -> (r: Option<Vec<u8>>)
    ensures
        match r {
            Some(framed) => body@.len() <= u32::MAX && framed@ == frame(body@),
            None => body@.len() > u32::MAX,
        },
{
    if body.len() as u64 > u32::MAX as u64 {
        return None;
    }
    let n: u32 = body.len() as u32;
    let mut out: Vec<u8> = Vec::new();
    out.push((n % 256) as u8);
    out.push((n / 256 % 256) as u8);
    out.push((n / 65536 % 256) as u8);
    out.push((n / 16777216) as u8);
    assert(out@ == length_bytes(n));
    let mut i: usize = 0;
    while i < body.len()
        invariant
            i <= body@.len(),
            out@ == length_bytes(n) + body@.take(i as int),
        decreases body@.len() - i,
    {
        out.push(body[i]);
        i += 1;
        assert(out@ == length_bytes(n) + body@.take(i as int));
    }
    assert(body@.take(i as int) == body@);
    Some(out)
}

/// How long the body behind `header` is, unless it exceeds the limit.
pub fn pipe_body_length(header: &Vec<u8>, limit: usize) -> (r: Option<usize>)
    requires
        header@.len() == 4,
    ensures
        match r {
            Some(length) => length == length_value(header@) && length <= limit,
            None => length_value(header@) > limit,
        },
{
    let length: u64 = (header[0] as u64) + 256 * (header[1] as u64) + 65536 * (header[2] as u64)
        + 16777216 * (header[3] as u64);
    if length > limit as u64 {
        None
    } else {
        Some(length as usize)
    }
}

/// A frame is read back as it was written.
pub proof fn a_frame_is_read_back(body: Seq<u8>)
    requires
        body.len() <= u32::MAX,
    ensures
        length_value(frame(body).take(4)) == body.len(),
        frame(body).skip(4) == body,
{
    let n = body.len() as u32;
    let header = frame(body).take(4);
    assert(header == length_bytes(n));
    assert(frame(body).skip(4) == body);
}

// ---------------------------------------------------------------------------
// Secrets
// ---------------------------------------------------------------------------
/// The longest authorization key, in bytes.
pub const MAX_KEY_BYTES: usize = 256;

/// `fill` of a slice of bytes: every byte becomes `value`, and their number stays.
#[verifier::external_body]
fn fill_bytes(bytes: &mut Vec<u8>, value: u8)
    ensures
        final(bytes)@ == Seq::new(old(bytes)@.len(), |i: int| value),
    opens_invariants none
    no_unwind
{
    bytes.fill(value)
}

/// An authorization key in memory, overwritten when it leaves its scope.
pub struct SensitiveActivationCode {
    pub bytes: Vec<u8>,
}

impl SensitiveActivationCode {
    /// The key that `value` writes.
    pub fn new(value: String) -> (r: Self)
        ensures
            r.bytes@ == encode_utf8(value@),
    {
        SensitiveActivationCode { bytes: text::to_bytes(value.as_str()) }
    }

    /// The key's bytes.
    pub fn as_bytes(&self) -> (r: &Vec<u8>)
        ensures
            r@ == self.bytes@,
    {
        &self.bytes
    }

    /// The key as a text.
    pub fn as_text(&self) -> (r: Option<&str>)
        ensures
            r is Some <==> valid_utf8(self.bytes@),
            r matches Some(text) ==> encode_utf8(text@) == self.bytes@,
    {
        text::read_utf8(&self.bytes)
    }

    /// Overwrite the key; only its length is left.
    pub fn wipe(&mut self)
        ensures
            final(self).bytes@ == Seq::new(old(self).bytes@.len(), |i: int| 0u8),
        opens_invariants none
        no_unwind
    {
        fill_bytes(&mut self.bytes, 0);
    }
}

impl Drop for SensitiveActivationCode {
    /// A key that leaves its scope is overwritten first.
    fn drop(&mut self)
        opens_invariants none
        no_unwind
    {
        self.wipe();
    }
}

/// Why no authorization key was received.
#[derive(Debug)]
pub enum KeyFault {
    TooLong,
    NotUtf8,
    /// The key has not the form of one; why.
    Form(String),
}

impl KeyFault {
    /// The words in which the fault is reported; they never hold the key.
    pub open spec fn text(self) -> Seq<char> {
        match self {
            KeyFault::TooLong => "authorization key exceeds the 256-byte limit"@,
            KeyFault::NotUtf8 => "authorization key is not valid UTF-8"@,
            KeyFault::Form(why) => why@,
        }
    }

    /// The words in which the fault is reported.
    pub fn message(&self) -> (r: String)
        ensures
            r@ == self.text(),
    {
        match self {
            KeyFault::TooLong => text::owned("authorization key exceeds the 256-byte limit"),
            KeyFault::NotUtf8 => text::owned("authorization key is not valid UTF-8"),
            KeyFault::Form(why) => why.clone(),
        }
    }
}

/// `received` without one line end behind it.
pub open spec fn without_line_end(received: Seq<u8>) -> Seq<u8> {
    if received.len() > 0 && received.last() == 10 {
        let rest = received.drop_last();
        if rest.len() > 0 && rest.last() == 13 {
            rest.drop_last()
        } else {
            rest
        }
    } else {
        received
    }
}

/// The text in what was received over standard input, whose form is then to be judged. Where none
/// is, the bytes received are overwritten.
pub fn received_key(received: Vec<u8>) -> (r: Result<SensitiveActivationCode, KeyFault>)
    ensures
        match r {
            Ok(code) => {
                &&& code.bytes@ == without_line_end(received@)
                &&& code.bytes@.len() <= MAX_KEY_BYTES
                &&& valid_utf8(code.bytes@)
            },
            Err(KeyFault::TooLong) => without_line_end(received@).len() > MAX_KEY_BYTES,
            Err(KeyFault::NotUtf8) => without_line_end(received@).len() <= MAX_KEY_BYTES
                && !valid_utf8(without_line_end(received@)),
            Err(KeyFault::Form(_)) => false,
        },
{
    let mut bytes = received;
    if bytes.len() > 0 && bytes[bytes.len() - 1] == 10 {
        let _ = bytes.pop();
        assert(bytes@ == received@.drop_last());
        if bytes.len() > 0 && bytes[bytes.len() - 1] == 13 {
            let ghost rest = bytes@;
            let _ = bytes.pop();
            assert(bytes@ == rest.drop_last());
        }
    }
    let code = SensitiveActivationCode { bytes };
    if code.bytes.len() > MAX_KEY_BYTES {
        return Err(KeyFault::TooLong);
    }
    if code.as_text().is_none() {
        return Err(KeyFault::NotUtf8);
    }
    Ok(code)
}

/// The key, where `form`, the judgement of its form, is none against it. Otherwise it is
/// overwritten.
pub fn accept_key(code: SensitiveActivationCode, form: Result<(), String>) -> (r: Result<
    SensitiveActivationCode,
    KeyFault,
>)
    ensures
        r == match form {
            Ok(()) => Ok::<SensitiveActivationCode, KeyFault>(code),
            Err(why) => Err(KeyFault::Form(why)),
        },
{
    match form {
        Ok(()) => Ok(code),
        Err(why) => Err(KeyFault::Form(why)),
    }
}

/// The authorization key in what was received over standard input; `form` is the judgement of the
/// key's form. Where there is no key, the bytes received are overwritten.
pub fn read_tray_activation_code(received: Vec<u8>, form: Result<(), String>) -> (r: Result<
    SensitiveActivationCode,
    KeyFault,
>)
    ensures
        ({
            let key = without_line_end(received@);
            if key.len() > MAX_KEY_BYTES {
                r == Err::<SensitiveActivationCode, KeyFault>(KeyFault::TooLong)
            } else if !valid_utf8(key) {
                r == Err::<SensitiveActivationCode, KeyFault>(KeyFault::NotUtf8)
            } else {
                match form {
                    Err(why) => r == Err::<SensitiveActivationCode, KeyFault>(KeyFault::Form(why)),
                    Ok(()) => r matches Ok(code) && code.bytes@ == key,
                }
            }
        }),
{
    match received_key(received) {
        Err(fault) => Err(fault),
        Ok(code) => accept_key(code, form),
    }
}

// ---------------------------------------------------------------------------
// Asking the tray for the key
// ---------------------------------------------------------------------------
/// How long the helper tries to reach the tray's pipe, in seconds.
pub const CONNECT_SECONDS: u64 = 10;

/// How long it waits for the pipe between two tries, in milliseconds.
pub const CONNECT_WAIT_MILLISECONDS: u32 = 200;

/// Why the pipe could not be opened.
#[derive(Clone, Copy, PartialEq, Eq, Structural, Debug)]
pub enum PipeFault {
    Busy,
    Absent,
    Other,
}

/// What a try that failed leads to.
#[derive(Clone, Copy, PartialEq, Eq, Structural, Debug)]
pub enum ConnectStep {
    /// Wait for the pipe, then try again.
    Wait,
    Fail,
}

/// Until when the helper tries to reach the tray's pipe.
pub fn connect_deadline(now: u64) -> (r: u128)
    ensures
        r == now + CONNECT_SECONDS * SECOND,
{
    (now as u128) + ((CONNECT_SECONDS * SECOND) as u128)
}

/// What a try to open the pipe that failed leads to: a pipe that is busy or not there yet is
/// waited for until the deadline.
pub fn pipe_connect(fault: PipeFault, now: u64, deadline: u128) -> (r: ConnectStep)
    ensures
        r == if (fault == PipeFault::Busy || fault == PipeFault::Absent) && now < deadline {
            ConnectStep::Wait
        } else {
            ConnectStep::Fail
        },
{
    if fault != PipeFault::Other && (now as u128) < deadline {
        ConnectStep::Wait
    } else {
        ConnectStep::Fail
    }
}

/// Why the helper got no key from the tray.
#[derive(Debug)]
pub enum ExchangeFault {
    /// The pipe could not be reached; the system's error.
    Unreachable(String),
    MessageTooLarge,
    NotUtf8,
    /// The key has not the form of one; why.
    Form(String),
}

impl ExchangeFault {
    /// The words in which the fault is reported; they never hold the key.
    pub open spec fn text(self) -> Seq<char> {
        match self {
            ExchangeFault::Unreachable(error) => "could not connect to the protected tray pipe: "@
                + error@,
            ExchangeFault::MessageTooLarge => "pairing IPC message is too large"@,
            ExchangeFault::NotUtf8 => "tray supplied a non-UTF-8 authorization key"@,
            ExchangeFault::Form(why) => why@,
        }
    }

    /// The words in which the fault is reported.
    pub fn message(&self) -> (r: String)
        ensures
            r@ == self.text(),
    {
        match self {
            ExchangeFault::Unreachable(error) => text::cat(
                "could not connect to the protected tray pipe: ",
                error.as_str(),
            ),
            ExchangeFault::MessageTooLarge => text::owned("pairing IPC message is too large"),
            ExchangeFault::NotUtf8 => text::owned("tray supplied a non-UTF-8 authorization key"),
            ExchangeFault::Form(why) => why.clone(),
        }
    }
}

/// Whether a message of this length may be sent to the tray.
pub fn check_message(length: usize, maximum: usize) -> (r: Result<(), ExchangeFault>)
    ensures
        r == if length <= maximum {
            Ok::<(), ExchangeFault>(())
        } else {
            Err(ExchangeFault::MessageTooLarge)
        },
{
    if length <= maximum {
        Ok(())
    } else {
        Err(ExchangeFault::MessageTooLarge)
    }
}

/// The key in the frame with which the tray answers; `form` is the judgement of the key's form.
pub fn exchanged_key(frame: Vec<u8>, form: Result<(), String>) -> (r: Result<
    SensitiveActivationCode,
    ExchangeFault,
>)
    ensures
        if !valid_utf8(frame@) {
            r == Err::<SensitiveActivationCode, ExchangeFault>(ExchangeFault::NotUtf8)
        } else {
            match form {
                Err(why) => r == Err::<SensitiveActivationCode, ExchangeFault>(
                    ExchangeFault::Form(why),
                ),
                Ok(()) => r matches Ok(code) && code.bytes@ == frame@,
            }
        },
{
    let code = SensitiveActivationCode { bytes: frame };
    if code.as_text().is_none() {
        return Err(ExchangeFault::NotUtf8);
    }
    match form {
        Ok(()) => Ok(code),
        Err(why) => Err(ExchangeFault::Form(why)),
    }
}

/// The end of a line is taken off once, as `\n` or `\r\n`; whatever else stands there stays.
pub proof fn one_line_end_is_taken_off(key: Seq<u8>)
    ensures
        without_line_end(key + seq![13u8, 10u8]) == key,
        (key.len() == 0 || key.last() != 13) ==> without_line_end(key.push(10)) == key,
        (key.len() == 0 || key.last() != 10) ==> without_line_end(key) == key,
{
    let both = key + seq![13u8, 10u8];
    assert(both.drop_last().drop_last() =~= key);
    assert(both.drop_last().last() == 13);
    assert(key.push(10).drop_last() =~= key);
}

/// A key is taken as it was written, without the end of its line, where it is no longer than a key
/// may be and is text.
pub proof fn which_keys_are_received(received: Vec<u8>, r: Result<SensitiveActivationCode, KeyFault>)
    requires
        call_ensures(received_key, (received,), r),
    ensures
        r is Ok <==> without_line_end(received@).len() <= 256 && valid_utf8(
            without_line_end(received@),
        ),
        r matches Ok(code) ==> code.bytes@ == without_line_end(received@),
        r == Err::<SensitiveActivationCode, KeyFault>(KeyFault::TooLong) <==> without_line_end(
            received@,
        ).len() > 256,
{
}

/// A key that passed is handed on unchanged; one without the form of a key is refused with the
/// reason.
pub proof fn which_keys_are_accepted(
    code: SensitiveActivationCode,
    form: Result<(), String>,
    r: Result<SensitiveActivationCode, KeyFault>,
)
    requires
        call_ensures(accept_key, (code, form), r),
    ensures
        r is Ok <==> form is Ok,
        r matches Ok(kept) ==> kept == code,
        r matches Err(fault) ==> (form matches Err(why) && fault == KeyFault::Form(why)),
{
}

/// A pipe that is busy or not there yet is waited for until the time is over; any other failure is
/// final.
pub proof fn when_a_pipe_is_waited_for(fault: PipeFault, now: u64, deadline: u128, r: ConnectStep)
    requires
        call_ensures(pipe_connect, (fault, now, deadline), r),
    ensures
        r is Wait <==> !(fault is Other) && now < deadline,
        r is Fail <==> fault is Other || now >= deadline,
{
}

/// A message of the allowed length is sent, one byte more is refused; and a body is read exactly
/// where its announced length is within the limit.
pub proof fn how_long_a_message_may_be(
    length: usize,
    maximum: usize,
    r: Result<(), ExchangeFault>,
    header: Vec<u8>,
    announced: Option<usize>,
)
    requires
        header@.len() == 4,
        call_ensures(check_message, (length, maximum), r),
        call_ensures(pipe_body_length, (&header, maximum), announced),
    ensures
        r is Ok <==> length <= maximum,
        r matches Err(fault) ==> fault is MessageTooLarge,
        announced is Some <==> length_value(header@) <= maximum,
        announced matches Some(bytes) ==> bytes == length_value(header@),
{
}

/// A key that came back through the pipe is the bytes of its frame, where they are text of the form
/// of a key.
pub proof fn which_exchanged_keys_are_accepted(
    frame: Vec<u8>,
    form: Result<(), String>,
    r: Result<SensitiveActivationCode, ExchangeFault>,
)
    requires
        call_ensures(exchanged_key, (frame, form), r),
    ensures
        r is Ok <==> valid_utf8(frame@) && form is Ok,
        r matches Ok(code) ==> code.bytes@ == frame@,
        r == Err::<SensitiveActivationCode, ExchangeFault>(ExchangeFault::NotUtf8) <==> !valid_utf8(
            frame@,
        ),
{
}

/// The length of a frame is written in four bytes, the lowest first.
pub proof fn how_a_length_is_written(n: u32)
    ensures
        length_bytes(n).len() == 4,
        length_bytes(n)[0] + 0x100 * length_bytes(n)[1] + 0x1_0000 * length_bytes(n)[2]
            + 0x100_0000 * length_bytes(n)[3] == n,
{
}

} // verus!
