use vstd::prelude::*;
use vstd::string::StringExecFns;
use crate::error::HelperError;
use crate::status::{check_c_text, c_text_ok};

verus! {

/// The native representation of a codec identifier: its low 16 bits,
/// read as a signed 16-bit number.
pub open spec fn sign_extend16(raw: i32) -> int {
    let low = (raw as int) % 65536;
    if low < 32768 {
        low
    } else {
        low - 65536
    }
}

/// Narrows a raw codec identifier through a signed 16-bit width.
pub fn codec_id_from_raw(raw: i32) -> (r: i32)
    ensures
        r as int == sign_extend16(raw),
{
    let u: u64 = (raw as i64 + 4294967296i64) as u64;
    let low: u64 = u % 65536;
    proof {
        vstd::arithmetic::div_mod::lemma_mod_multiples_vanish(65536, raw as int, 65536);
        assert(low as int == (raw as int) % 65536);
    }
    if low < 32768 {
        low as i32
    } else {
        low as i32 - 65536
    }
}

/// A statically registered codec definition found by name. The registry
/// owns the definition: the descriptor never frees anything.
#[derive(Debug)]
pub struct CodecDescriptor {
    addr: usize,
    id: i32,
}

impl CodecDescriptor {
    pub closed spec fn addr_spec(&self) -> usize {
        self.addr
    }

    pub closed spec fn id_spec(&self) -> i32 {
        self.id
    }

    /// Checks a codec name before the native registry is searched.
    pub fn check_name(name: &str) -> (r: Result<(), HelperError>)
        ensures
            r is Ok <==> c_text_ok(name),
            r matches Err(e) ==> e is EncodingFailed,
    {
        check_c_text(name)
    }

    /// Builds the descriptor from a registry search for `name` that returned
    /// `addr`, whose record holds the raw identifier `raw_id`. A null address
    /// means that no codec of that name is registered.
    pub fn from_lookup(name: &str, addr: usize, raw_id: i32) -> (r: Result<CodecDescriptor, HelperError>)
        ensures
            r is Err <==> addr == 0,
            r matches Ok(c) ==> c.addr_spec() == addr && c.id_spec() as int == sign_extend16(
                raw_id,
            ),
            r matches Err(e) ==> (e matches HelperError::LookupFailed { name: n } && n@ == name@),
    {
        if addr == 0 {
            Err(HelperError::LookupFailed { name: String::from_str(name) })
        } else {
            Ok(CodecDescriptor { addr, id: codec_id_from_raw(raw_id) })
        }
    }

    /// The numeric codec identifier.
    pub fn id(&self) -> (r: i32)
        ensures
            r == self.id_spec(),
    {
        self.id
    }

    /// The address of the registry entry.
    pub fn addr(&self) -> (r: usize)
        ensures
            r == self.addr_spec(),
    {
        self.addr
    }
}

} // verus!
