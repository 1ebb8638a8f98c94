//! The crate's error type and the SDK's HRESULT codes.

use vstd::prelude::*;

verus! {

#[verifier::external_type_specification]
#[verifier::external_body]
pub struct ExCxxException(cxx::Exception);

/// Error type for the crate. Wraps SDK failure messages, path conversion
/// errors, and invariant violations in a single message-carrying value:
/// there isn't much the caller can discriminate on that isn't already in
/// the message.
#[derive(Debug)]
pub struct BrawError {
    message: String,
}

impl View for BrawError {
    type V = Seq<char>;

    /// The error's message.
    closed spec fn view(&self) -> Seq<char> {
        self.message@
    }
}

impl BrawError {
    /// An error carrying `msg` as its message.
    pub fn new(msg: &str) -> (e: BrawError)
        ensures
            e@ == msg@,
    {
        BrawError { message: String::from_str(msg) }
    }

    /// An error carrying `message` as its message.
    pub fn from_message(message: String) -> (e: BrawError)
        ensures
            e@ == message@,
    {
        BrawError { message }
    }

    /// The error's message, exactly as given when it was made.
    pub fn to_string(&self) -> (s: String)
        ensures
            s@ == self@,
    {
        self.message.clone()
    }
}

/// The error raised by a call into the SDK's C++ shim, carrying the
/// exception's `what()` text as its message, so that `?` converts the
/// shim's exceptions as it goes.
impl From<cxx::Exception> for BrawError {
    fn from(e: cxx::Exception) -> (r: BrawError)
        ensures
            r@ == exception_what(e),
    {
        BrawError { message: exception_message(&e) }
    }
}

/// What `From` is claimed to give, for the vstd specification of `from`.
/// Two `String`s with the same text are not known to be the same value,
/// so the conversion does not claim to give this very value
/// (`obeys_from_spec` is `false`); what it states is the message, in the
/// `ensures` of `from` above.
impl vstd::std_specs::convert::FromSpecImpl<cxx::Exception> for BrawError {
    open spec fn obeys_from_spec() -> bool {
        false
    }

    open spec fn from_spec(v: cxx::Exception) -> BrawError {
        choose|r: BrawError| r@ == exception_what(v)
    }
}

/// The text that `cxx::Exception::what` returns for `e`: the message the
/// C++ side threw, which the exception stores and hands back unchanged.
pub uninterp spec fn exception_what(e: cxx::Exception) -> Seq<char>;

/// Calls `cxx::Exception::what` and copies the text into a `String`. The
/// contract claims only that the copy is the exception's stored text, which
/// `what` returns as it is.
#[verifier::external_body]
fn exception_message(e: &cxx::Exception) -> (s: String)
    ensures
        s@ == exception_what(*e),
{
    e.what().to_string()
}

/// The lowercase hexadecimal digit for `d` (taken modulo 16).
pub open spec fn hex_digit(d: int) -> char {
    seq!['0', '1', '2', '3', '4', '5', '6', '7', '8', '9', 'a', 'b', 'c', 'd', 'e', 'f'][d % 16]
}

/// The eight-digit, zero-padded, lowercase hexadecimal rendering of `v`
/// (`0 <= v < 2^32`), most significant digit first.
pub open spec fn hex8(v: int) -> Seq<char> {
    seq![
        hex_digit(v / 0x1000_0000),
        hex_digit(v / 0x100_0000),
        hex_digit(v / 0x10_0000),
        hex_digit(v / 0x1_0000),
        hex_digit(v / 0x1000),
        hex_digit(v / 0x100),
        hex_digit(v / 0x10),
        hex_digit(v),
    ]
}

/// BMD HRESULT code, surfaced to callbacks. `is_ok()` iff `>= 0` per
/// standard COM convention.
#[derive(Debug, Clone, Copy, PartialEq, Eq, Structural)]
pub struct HResult(pub i32);

impl HResult {
    /// The success code, `S_OK`.
    pub fn s_ok() -> (h: HResult)
        ensures
            h == HResult(0),
    {
        HResult(0)
    }

    /// The code's 32 bits read as an unsigned number.
    pub open spec fn bits(self) -> int {
        if self.0 >= 0 {
            self.0 as int
        } else {
            self.0 + 0x1_0000_0000
        }
    }

    /// How a code is shown: `HRESULT=0x` and its bits in eight lowercase
    /// hexadecimal digits.
    pub open spec fn text(self) -> Seq<char> {
        "HRESULT=0x"@ + hex8(self.bits())
    }

    /// Whether the code reports success: a code is a success iff it is
    /// non-negative.
    pub open spec fn succeeded(self) -> bool {
        self.0 >= 0
    }

    pub fn is_ok(self) -> (r: bool)
        ensures
            r == self.succeeded(),
            r == (self.0 >= 0),
    {
        self.0 >= 0
    }

    pub fn is_err(self) -> (r: bool)
        ensures
            r == !self.succeeded(),
            r == (self.0 < 0),
    {
        self.0 < 0
    }

    /// The code rendered as `HRESULT=0x` followed by its 32 bits in eight
    /// lowercase hexadecimal digits, e.g. `HRESULT=0x80004003`.
    pub fn to_string(&self) -> (s: String)
        ensures
            s@ == self.text(),
    {
        let bits: u32 = if self.0 >= 0 {
            self.0 as u32
        } else {
            (self.0 as i64 + 0x1_0000_0000i64) as u32
        };
        let mut s = String::from_str("HRESULT=0x");
        append_hex_digit(&mut s, bits / 0x1000_0000);
        append_hex_digit(&mut s, bits / 0x100_0000);
        append_hex_digit(&mut s, bits / 0x10_0000);
        append_hex_digit(&mut s, bits / 0x1_0000);
        append_hex_digit(&mut s, bits / 0x1000);
        append_hex_digit(&mut s, bits / 0x100);
        append_hex_digit(&mut s, bits / 0x10);
        append_hex_digit(&mut s, bits);
        proof {
            assert(s@ =~= self.text());
        }
        s
    }
}

/// Appends the hexadecimal digit of `v % 16` to `s`.
fn append_hex_digit(s: &mut String, v: u32)
    ensures
        final(s)@ == old(s)@.push(hex_digit(v as int)),
{
    let d = v % 16;
    let digit = if d == 0 {
        proof { reveal_strlit("0"); }
        "0"
    } else if d == 1 {
        proof { reveal_strlit("1"); }
        "1"
    } else if d == 2 {
        proof { reveal_strlit("2"); }
        "2"
    } else if d == 3 {
        proof { reveal_strlit("3"); }
        "3"
    } else if d == 4 {
        proof { reveal_strlit("4"); }
        "4"
    } else if d == 5 {
        proof { reveal_strlit("5"); }
        "5"
    } else if d == 6 {
        proof { reveal_strlit("6"); }
        "6"
    } else if d == 7 {
        proof { reveal_strlit("7"); }
        "7"
    } else if d == 8 {
        proof { reveal_strlit("8"); }
        "8"
    } else if d == 9 {
        proof { reveal_strlit("9"); }
        "9"
    } else if d == 10 {
        proof { reveal_strlit("a"); }
        "a"
    } else if d == 11 {
        proof { reveal_strlit("b"); }
        "b"
    } else if d == 12 {
        proof { reveal_strlit("c"); }
        "c"
    } else if d == 13 {
        proof { reveal_strlit("d"); }
        "d"
    } else if d == 14 {
        proof { reveal_strlit("e"); }
        "e"
    } else {
        proof { reveal_strlit("f"); }
        "f"
    };
    s.append(digit);
    proof {
        assert(digit@ =~= seq![hex_digit(v as int)]);
    }
}

/// COM convention: a code reports success exactly when it is non-negative;
/// every code with the top bit set (`0x8xxx_xxxx`) is a failure.
pub proof fn lemma_succeeded_iff_nonnegative(h: HResult)
    ensures
        h.succeeded() <==> h.0 >= 0,
        h.bits() >= 0x8000_0000 ==> !h.succeeded(),
{
}

} // verus!
