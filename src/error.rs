use vstd::prelude::*;
use vstd::string::StringExecFns;

verus! {

/// What can go wrong around a native resource handle.
#[derive(Debug)]
pub enum HelperError {
    /// A native allocator returned null.
    AllocationFailed { routine: String },
    /// No codec of the requested name is registered.
    LookupFailed { name: String },
    /// A caller-supplied string holds a NUL byte, so it has no C form.
    EncodingFailed,
    /// A native call returned a failing status code.
    NativeStatus { label: String, code: i32, description: Option<String> },
}

/// The ASCII digit for `d` (0 to 9).
pub open spec fn digit_char(d: int) -> char {
    ((d + 48) as u8) as char
}

/// Decimal text of a natural number, without leading zeros.
pub open spec fn nat_decimal(n: nat) -> Seq<char>
    decreases n,
{
    if n < 10 {
        seq![digit_char(n as int)]
    } else {
        nat_decimal(n / 10) + seq![digit_char((n % 10) as int)]
    }
}

/// Decimal text of an integer, with a leading `-` when negative.
pub open spec fn int_decimal(n: int) -> Seq<char> {
    if n < 0 {
        seq!['-'] + nat_decimal((-n) as nat)
    } else {
        nat_decimal(n as nat)
    }
}

/// The text that an error carries, as it would be logged.
pub open spec fn message_of(e: HelperError) -> Seq<char> {
    match e {
        HelperError::AllocationFailed { routine } => "Error in "@ + routine@,
        HelperError::LookupFailed { name } => "CodecNotFound: "@ + name@,
        HelperError::EncodingFailed => "Error in CString"@,
        HelperError::NativeStatus { label, code, description } => match description {
            Some(d) => "EncoderError "@ + label@ + " "@ + d@,
            None => label@ + " Undefined error "@ + int_decimal(code as int),
        },
    }
}

fn digit_str(d: u64) -> (r: &'static str)
    requires
        d < 10,
    ensures
        r@ == seq![digit_char(d as int)],
{
    proof {
        reveal_strlit("0");
        reveal_strlit("1");
        reveal_strlit("2");
        reveal_strlit("3");
        reveal_strlit("4");
        reveal_strlit("5");
        reveal_strlit("6");
        reveal_strlit("7");
        reveal_strlit("8");
        reveal_strlit("9");
    }
    match d {
        0 => "0",
        1 => "1",
        2 => "2",
        3 => "3",
        4 => "4",
        5 => "5",
        6 => "6",
        7 => "7",
        8 => "8",
        _ => "9",
    }
}

fn push_decimal(s: &mut String, n: u64)
    ensures
        final(s)@ == old(s)@ + nat_decimal(n as nat),
    decreases n,
{
    if n >= 10 {
        push_decimal(s, n / 10);
    }
    s.append(digit_str(n % 10));
    proof {
        if n >= 10 {
            assert(final(s)@ =~= old(s)@ + nat_decimal(n as nat));
        } else {
            assert(final(s)@ =~= old(s)@ + nat_decimal(n as nat));
        }
    }
}

/// Appends the decimal text of `n` to `s`.
pub fn push_int_decimal(s: &mut String, n: i32)
    ensures
        final(s)@ == old(s)@ + int_decimal(n as int),
{
    if n < 0 {
        proof {
            reveal_strlit("-");
        }
        s.append("-");
        let m: u64 = (0i64 - n as i64) as u64;
        push_decimal(s, m);
        assert(final(s)@ =~= old(s)@ + int_decimal(n as int));
    } else {
        push_decimal(s, n as u64);
    }
}

impl HelperError {
    /// The human-readable text of this error.
    pub fn message(&self) -> (r: String)
        ensures
            r@ == message_of(*self),
    {
        match self {
            HelperError::AllocationFailed { routine } => {
                let s = String::from_str("Error in ");
                s.concat(routine.as_str())
            },
            HelperError::LookupFailed { name } => {
                let s = String::from_str("CodecNotFound: ");
                s.concat(name.as_str())
            },
            HelperError::EncodingFailed => String::from_str("Error in CString"),
            HelperError::NativeStatus { label, code, description } => match description {
                Some(d) => {
                    let mut s = String::from_str("EncoderError ");
                    s.append(label.as_str());
                    s.append(" ");
                    s.append(d.as_str());
                    s
                },
                None => {
                    let mut s = label.clone();
                    s.append(" Undefined error ");
                    push_int_decimal(&mut s, *code);
                    s
                },
            },
        }
    }
}

} // verus!
