//! Wallpaper source resolution: the portable core.
//!
//! Resolving "use the current wallpaper" to a file path takes desktop-
//! specific probing that lives outside this library; the pieces that are
//! pure decisions stand here. [`SessionType::detect`] classifies the
//! desktop identifier, and [`get`] is the resolver for platforms without
//! any probing support: it always reports the platform as unsupported.

use vstd::prelude::*;
use vstd::string::StringExecFns;

use crate::error::Error;

verus! {

/// The desktop session kinds whose wallpaper can be looked for.
#[derive(Clone, Copy, Debug, PartialEq, Eq, Structural)]
pub enum SessionType {
    Kde,
    Gnome,
    Cosmic,
    Cinnamon,
    Xfce,
}

/// The session kind named by the first component of the desktop
/// identifier; anything unrecognized is an `UnsupportedDesktop` error.
pub open spec fn detect_spec(s: Seq<char>) -> Result<SessionType, Error> {
    if s == "KDE"@ {
        Ok(SessionType::Kde)
    } else if s == "GNOME"@ {
        Ok(SessionType::Gnome)
    } else if s == "Cinnamon"@ {
        Ok(SessionType::Cinnamon)
    } else if s == "XFCE"@ {
        Ok(SessionType::Xfce)
    } else if s == "COSMIC"@ {
        Ok(SessionType::Cosmic)
    } else {
        Err(Error::UnsupportedDesktop)
    }
}

impl SessionType {
    /// Classifies the first `:`-separated component of the desktop
    /// identifier reported by the environment.
    pub fn detect(first: &String) -> (r: Result<SessionType, Error>)
        ensures
            r == detect_spec(first@),
    {
        if first.eq(&String::from_str("KDE")) {
            Ok(SessionType::Kde)
        } else if first.eq(&String::from_str("GNOME")) {
            Ok(SessionType::Gnome)
        } else if first.eq(&String::from_str("Cinnamon")) {
            Ok(SessionType::Cinnamon)
        } else if first.eq(&String::from_str("XFCE")) {
            Ok(SessionType::Xfce)
        } else if first.eq(&String::from_str("COSMIC")) {
            Ok(SessionType::Cosmic)
        } else {
            Err(Error::UnsupportedDesktop)
        }
    }
}

/// The wallpaper resolver for platforms without desktop probing support:
/// every request fails with `UnsupportedPlatform`. Platforms with probing
/// support supply their own resolver around the library.
pub fn get(_dark_mode: bool) -> (r: Result<String, Error>)
    ensures
        r == Err::<String, Error>(Error::UnsupportedPlatform),
{
    Err(Error::UnsupportedPlatform)
}

/// What is left of `data` after a prefix: the bytes past it when `data`
/// begins with `prefix`, nothing otherwise.
pub open spec fn strip_prefix_spec(data: Seq<u8>, prefix: Seq<u8>) -> Option<Seq<u8>> {
    if data.len() >= prefix.len() && data.take(prefix.len() as int) == prefix {
        Some(data.skip(prefix.len() as int))
    } else {
        None
    }
}

/// Strips a byte prefix: used on the desktop shell's report lines (the
/// wallpaper path follows an `Image: ` marker) and on `file://` settings
/// values.
pub fn strip_prefix_bytes(data: &Vec<u8>, prefix: &Vec<u8>) -> (r: Option<Vec<u8>>)
    ensures
        match strip_prefix_spec(data@, prefix@) {
            Some(p) => r matches Some(v) && v@ == p,
            None => r is None,
        },
{
    let plen = prefix.len();
    if data.len() < plen {
        return None;
    }
    let mut i: usize = 0;
    while i < plen
        invariant
            i <= plen,
            plen == prefix@.len(),
            data@.len() >= plen,
            forall|j: int| 0 <= j < i ==> data@[j] == prefix@[j],
        decreases plen - i,
    {
        if data[i] != prefix[i] {
            proof {
                assert(data@.take(plen as int)[i as int] != prefix@[i as int]);
            }
            return None;
        }
        i = i + 1;
    }
    proof {
        assert(data@.take(plen as int) =~= prefix@);
    }
    let mut out: Vec<u8> = Vec::new();
    let mut k: usize = plen;
    while k < data.len()
        invariant
            plen <= k <= data@.len(),
            out@ == data@.subrange(plen as int, k as int),
        decreases data@.len() - k,
    {
        out.push(data[k]);
        proof {
            assert(out@ =~= data@.subrange(plen as int, k + 1 as int));
        }
        k = k + 1;
    }
    proof {
        assert(out@ =~= data@.skip(plen as int));
    }
    Some(out)
}

/// Whether `c` is a decimal digit.
pub open spec fn is_digit(c: char) -> bool {
    '0' <= c && c <= '9'
}

/// The number written by a digit sequence.
pub open spec fn digits_val(s: Seq<char>) -> int
    decreases s.len(),
{
    if s.len() == 0 {
        0
    } else {
        digits_val(s.drop_last()) * 10 + (s.last() as int - '0' as int)
    }
}

/// The number a string names: only a nonempty run of decimal digits whose
/// value fits names one.
pub open spec fn parse_u32_spec(s: Seq<char>) -> Option<u32> {
    if s.len() >= 1 && (forall|i: int| 0 <= i < s.len() ==> is_digit(s[i])) && digits_val(s)
        <= 0xFFFF_FFFF {
        Some(digits_val(s) as u32)
    } else {
        None
    }
}

/// A digit sequence names a non-negative number.
proof fn lemma_digits_val_nonneg(s: Seq<char>)
    requires
        forall|i: int| 0 <= i < s.len() ==> is_digit(s[i]),
    ensures
        digits_val(s) >= 0,
    decreases s.len(),
{
    if s.len() > 0 {
        lemma_digits_val_nonneg(s.drop_last());
    }
}

/// A digit sequence names at least what any of its prefixes names.
proof fn lemma_digits_val_monotone(s: Seq<char>, k: int)
    requires
        0 <= k <= s.len(),
        forall|i: int| 0 <= i < s.len() ==> is_digit(s[i]),
    ensures
        digits_val(s) >= digits_val(s.take(k)),
    decreases s.len() - k,
{
    if k < s.len() {
        assert(s.take(k + 1).drop_last() =~= s.take(k));
        lemma_digits_val_nonneg(s.take(k));
        lemma_digits_val_monotone(s, k + 1);
    } else {
        assert(s.take(k) =~= s);
    }
}

/// Parses a nonempty run of decimal digits as a number; anything else,
/// or a value that does not fit, is nothing. Used to check the dimension
/// components of wallpaper file names.
pub fn parse_u32_digits(s: &str) -> (r: Option<u32>)
    ensures
        r == parse_u32_spec(s@),
{
    let n = s.unicode_len();
    if n == 0 {
        return None;
    }
    let mut acc: u64 = 0;
    let mut i: usize = 0;
    while i < n
        invariant
            i <= n,
            n == s@.len(),
            1 <= n,
            forall|j: int| 0 <= j < i ==> is_digit(s@[j]),
            acc == digits_val(s@.take(i as int)),
            acc <= 0xFFFF_FFFF,
        decreases n - i,
    {
        let c = s.get_char(i);
        if !('0' <= c && c <= '9') {
            return None;
        }
        let d: u64 = (c as u8 - 48) as u64;
        let next: u64 = acc * 10 + d;
        proof {
            assert(s@.take(i + 1 as int).drop_last() =~= s@.take(i as int));
        }
        if next > 0xFFFF_FFFF {
            proof {
                if forall|j: int| 0 <= j < s@.len() ==> is_digit(s@[j]) {
                    lemma_digits_val_monotone(s@, i + 1 as int);
                }
            }
            return None;
        }
        acc = next;
        i = i + 1;
    }
    proof {
        assert(s@.take(n as int) =~= s@);
    }
    Some(acc as u32)
}

/// Whether an extension names an image format that can be a wallpaper.
pub open spec fn wallpaper_ext_spec(s: Seq<char>) -> bool {
    ||| s == "jpg"@
    ||| s == "jpeg"@
    ||| s == "png"@
    ||| s == "tif"@
    ||| s == "tiff"@
}

/// Whether a file extension names an image format accepted as a
/// wallpaper.
pub fn wallpaper_extension_ok(ext: &String) -> (r: bool)
    ensures
        r == wallpaper_ext_spec(ext@),
{
    ext.eq(&String::from_str("jpg")) || ext.eq(&String::from_str("jpeg")) || ext.eq(
        &String::from_str("png"),
    ) || ext.eq(&String::from_str("tif")) || ext.eq(&String::from_str("tiff"))
}

/// Whether both dimension components of a wallpaper file name are
/// positive numbers.
pub fn wallpaper_dims_ok(wpart: &str, hpart: &str) -> (r: bool)
    ensures
        r == (match parse_u32_spec(wpart@) {
            Some(w) => w > 0,
            None => false,
        } && match parse_u32_spec(hpart@) {
            Some(h) => h > 0,
            None => false,
        }),
{
    let w = parse_u32_digits(wpart);
    let h = parse_u32_digits(hpart);
    match (w, h) {
        (Some(wv), Some(hv)) => wv > 0 && hv > 0,
        _ => false,
    }
}

} // verus!
