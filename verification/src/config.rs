use vstd::prelude::*;
use crate::codec::{base64_decode_standard, base64_std_decode, lemma_base64_std_decode_encoded};
use crate::text::{chars_of, parse_u64, parse_unsigned, str_equals, string_of, trim_end, CharClass};

verus! {

/// The public base URL without trailing slashes.
pub fn normalize_base_url(text: &str) -> (r: String)
    ensures
        r@ == trim_end(text@, CharClass::Slash),
{
    let v = chars_of(text);
    let mut hi = v.len();
    proof {
        assert(v@.take(hi as int) =~= text@);
    }
    while hi > 0 && v[hi - 1] == '/'
        invariant
            hi <= v@.len(),
            v@ == text@,
            trim_end(text@, CharClass::Slash) == trim_end(v@.take(hi as int), CharClass::Slash),
        decreases hi,
    {
        proof {
            assert(v@.take(hi as int).drop_last() =~= v@.take(hi - 1));
        }
        hi = hi - 1;
    }
    let r = string_of(&v, 0, hi);
    proof {
        assert(v@.subrange(0, hi as int) =~= v@.take(hi as int));
        let t = v@.take(hi as int);
        if hi > 0 {
            assert(t.last() == v@[hi - 1]);
        }
        assert(trim_end(t, CharClass::Slash) == t);
    }
    r
}

/// Reads the master key of the stored credentials: padded standard base64 of
/// exactly 32 bytes.
pub fn parse_master_key(text: &str) -> (r: Result<Vec<u8>, String>)
    ensures
        r is Ok <==> (base64_std_decode(text@) matches Some(b) && b.len() == 32),
        r matches Ok(k) ==> base64_std_decode(text@) == Some(k@),
        base64_std_decode(text@) is None ==> (r matches Err(m) && m@ == "SETTINGS_MASTER_KEY must be base64"@),
        base64_std_decode(text@) matches Some(b) && b.len() != 32 ==> (r matches Err(m) && m@
            == "SETTINGS_MASTER_KEY must decode to exactly 32 bytes"@),
{
    let bytes = match base64_decode_standard(text) {
        Some(b) => b,
        None => return Err("SETTINGS_MASTER_KEY must be base64".to_owned()),
    };
    proof {
        lemma_base64_std_decode_encoded(bytes@);
    }
    if bytes.len() != 32 {
        return Err("SETTINGS_MASTER_KEY must decode to exactly 32 bytes".to_owned());
    }
    Ok(bytes)
}

/// Reads the largest accepted upload, in bytes, as `str::parse::<usize>`
/// reads a number.
pub fn parse_upload_max_bytes(text: &str) -> (r: Result<usize, String>)
    ensures
        r is Ok <==> parse_unsigned(text@, usize::MAX as nat) is Some,
        r matches Ok(n) ==> parse_unsigned(text@, usize::MAX as nat) == Some(n as nat),
        r matches Err(m) ==> m@ == "UPLOAD_MAX_BYTES must be an integer"@,
{
    let v = chars_of(text);
    proof {
        assert(v@.subrange(0, v@.len() as int) =~= text@);
    }
    match parse_u64(&v, 0, v.len()) {
        Some(n) => if n <= usize::MAX as u64 {
            Ok(n as usize)
        } else {
            Err("UPLOAD_MAX_BYTES must be an integer".to_owned())
        },
        None => Err("UPLOAD_MAX_BYTES must be an integer".to_owned()),
    }
}

/// Reads whether the session cookie is marked secure: exactly `true` or
/// `false`, as `str::parse::<bool>` reads it.
pub fn parse_cookie_secure(text: &str) -> (r: Result<bool, String>)
    ensures
        r is Ok <==> (text@ == "true"@ || text@ == "false"@),
        r matches Ok(b) ==> b == (text@ == "true"@),
        r matches Err(m) ==> m@ == "COOKIE_SECURE must be true or false"@,
{
    if str_equals(text, "true") {
        Ok(true)
    } else if str_equals(text, "false") {
        Ok(false)
    } else {
        Err("COOKIE_SECURE must be true or false".to_owned())
    }
}

/// A configuration value that counts only where it is not empty.
pub fn non_empty(value: Option<String>) -> (r: Option<String>)
    ensures
        r == (match value {
            Some(v) => if v@.len() == 0 {
                None
            } else {
                Some(v)
            },
            None => None,
        }),
{
    match value {
        Some(v) => if v.as_str().is_empty() {
            None
        } else {
            Some(v)
        },
        None => None,
    }
}

} // verus!
