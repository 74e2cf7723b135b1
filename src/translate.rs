use vstd::prelude::*;
use vstd::string::StringExecFns;
use crate::error::{HelperError, int_decimal, message_of};

verus! {

/// Size of the buffer that the native description lookup fills.
pub const DESCRIPTION_BUF_LEN: usize = 200;

/// What `String::from_utf8_lossy` makes of a byte sequence.
pub uninterp spec fn lossy_text(b: Seq<u8>) -> Seq<char>;

/// True when every byte is ASCII.
pub open spec fn all_ascii(b: Seq<u8>) -> bool {
    forall|i: int| 0 <= i < b.len() ==> b[i] < 128
}

/// Relies on `String::from_utf8_lossy`: the text depends on the bytes alone,
/// and valid UTF-8 (ASCII in particular) is kept as it is.
#[verifier::external_body]
fn decode_lossy(b: &[u8]) -> (r: String)
    ensures
        r@ == lossy_text(b@),
        all_ascii(b@) ==> r@ == Seq::new(b@.len(), |i: int| b@[i] as char),
{
    String::from_utf8_lossy(b).into_owned()
}

/// `i` is the position of the first NUL byte of `b`.
pub open spec fn is_first_nul(b: Seq<u8>, i: int) -> bool {
    &&& 0 <= i < b.len()
    &&& b[i] == 0
    &&& forall|j: int| 0 <= j < i ==> b[j] != 0
}

/// True when `b` holds a NUL byte somewhere.
pub open spec fn has_nul(b: Seq<u8>) -> bool {
    exists|i: int| 0 <= i < b.len() && b[i] == 0
}

/// Position of the first NUL byte of `b`, if any.
pub fn first_nul(b: &[u8]) -> (r: Option<usize>)
    ensures
        r is None <==> !has_nul(b@),
        r matches Some(i) ==> is_first_nul(b@, i as int),
{
    let mut i: usize = 0;
    while i < b.len()
        invariant
            i <= b@.len(),
            forall|j: int| 0 <= j < i ==> b@[j] != 0,
        decreases b@.len() - i,
    {
        if b[i] == 0 {
            return Some(i);
        }
        i = i + 1;
    }
    None
}

/// The error that the translator produces for `label` and `code`, given the
/// native description lookup's return value and the buffer it filled.
pub open spec fn translated(
    e: HelperError,
    label: Seq<char>,
    code: i32,
    lookup_status: i32,
    buf: Seq<u8>,
) -> bool {
    &&& e matches HelperError::NativeStatus { label: l, code: c, description: d }
    &&& l@ == label
    &&& c == code
    &&& (d is Some <==> lookup_status == 0 && has_nul(buf))
    &&& forall|i: int|
        #![trigger is_first_nul(buf, i)]
        is_first_nul(buf, i) && d is Some ==> d->0@ == lossy_text(buf.take(i))
}

/// Builds the error for a failing native status `code`, labelled `label`.
/// `lookup_status` and `buf` are what the native description lookup returned
/// and wrote for `code`; the description is the text up to the first NUL,
/// kept only where the lookup returned zero and the text is terminated.
pub fn describe_status(label: &str, code: i32, lookup_status: i32, buf: &[u8]) -> (e: HelperError)
    ensures
        translated(e, label@, code, lookup_status, buf@),
{
    let description = if lookup_status == 0 {
        match first_nul(buf) {
            Some(n) => {
                let text = decode_lossy(vstd::slice::slice_subrange(buf, 0, n));
                Some(text)
            },
            None => None,
        }
    } else {
        None
    };
    HelperError::NativeStatus { label: String::from_str(label), code, description }
}

/// The translated error's text names the label and the decoded description
/// when the description lookup succeeded on a terminated text, and names the
/// label and the raw numeric code otherwise; it is never empty.
pub proof fn lemma_translated_message(
    e: HelperError,
    label: Seq<char>,
    code: i32,
    lookup_status: i32,
    buf: Seq<u8>,
    nul: int,
)
    requires
        translated(e, label, code, lookup_status, buf),
        has_nul(buf) ==> is_first_nul(buf, nul),
    ensures
        lookup_status == 0 && has_nul(buf) ==> message_of(e) == "EncoderError "@ + label + " "@
            + lossy_text(buf.take(nul)),
        !(lookup_status == 0 && has_nul(buf)) ==> message_of(e) == label + " Undefined error "@
            + int_decimal(code as int),
        message_of(e).len() > 0,
{
    reveal_strlit("EncoderError ");
    reveal_strlit(" Undefined error ");
}

} // verus!
