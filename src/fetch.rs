//! Downloads: how a transfer's outcome is read, where a download is kept
//! while it is checked, and where its detached signature lives.
use vstd::prelude::*;
use vstd::string::*;
use crate::text::{chars_of, trim_ws, trim_ws_range, owned, last_segment, last_segment_of, decimal, push_decimal, lemma_decimal_injective};

verus! {

/// Why a download did not complete.
#[derive(Debug, Clone, Copy, PartialEq, Eq, Structural)]
pub enum FetchError {
    /// The server answered with a status outside 200..=299.
    DownloadFailed { status: u16 },
    /// No answer: connection, name resolution or timeout.
    TransportError,
}

/// Whether an HTTP status reports success.
pub open spec fn status_ok(status: u16) -> bool {
    200 <= status <= 299
}

/// Reads a transfer's outcome: a transport failure first, then the status.
pub fn classify_download(connected: bool, status: u16) -> (r: Result<(), FetchError>)
    ensures
        !connected ==> r == Err::<(), FetchError>(FetchError::TransportError),
        connected && !status_ok(status) ==> r == Err::<(), FetchError>(FetchError::DownloadFailed { status }),
        connected && status_ok(status) ==> r is Ok,
{
    if !connected {
        Err(FetchError::TransportError)
    } else if status < 200 || status > 299 {
        Err(FetchError::DownloadFailed { status })
    } else {
        Ok(())
    }
}

/// Whether every character of `s` is an ASCII digit.
pub open spec fn all_digits(s: Seq<char>) -> bool {
    forall|i: int| 0 <= i < s.len() ==> '0' <= #[trigger] s[i] && s[i] <= '9'
}

/// The number that a string of ASCII digits writes in decimal.
pub open spec fn digits_value(s: Seq<char>) -> int
    decreases s.len(),
{
    if s.len() == 0 {
        0
    } else {
        digits_value(s.drop_last()) * 10 + ((s.last() as u32) as int - 48)
    }
}

/// The status code that a transfer tool printed: one decimal number, with
/// white space around it allowed, that fits in 16 bits.
pub open spec fn status_code_spec(s: Seq<char>) -> Option<u16> {
    let t = trim_ws(s);
    if t.len() > 0 && all_digits(t) && digits_value(t) <= 65535 {
        Some(digits_value(t) as u16)
    } else {
        None
    }
}

/// Reads the status code that a transfer tool printed.
pub fn parse_status_code(s: &str) -> (r: Option<u16>)
    ensures
        r == status_code_spec(s@),
{
    let cs = chars_of(s);
    assert(cs@.subrange(0, cs@.len() as int) =~= cs@);
    let (lo, hi) = trim_ws_range(&cs, 0, cs.len());
    let ghost t = cs@.subrange(lo as int, hi as int);
    if lo == hi {
        return None;
    }
    let mut value: u32 = 0;
    let mut big = false;
    let mut i: usize = lo;
    while i < hi
        invariant
            lo <= i <= hi <= cs@.len(),
            t == cs@.subrange(lo as int, hi as int),
            t == trim_ws(s@),
            t.len() > 0,
            all_digits(cs@.subrange(lo as int, i as int)),
            !big ==> value as int == digits_value(cs@.subrange(lo as int, i as int)) && value <= 65535,
            big ==> digits_value(cs@.subrange(lo as int, i as int)) > 65535,
        decreases hi - i,
    {
        let c = cs[i];
        if c < '0' || c > '9' {
            assert(!all_digits(t)) by {
                assert(t[i - lo] == c);
            }
            return None;
        }
        let d = (c as u32) - 48;
        proof {
            let p = cs@.subrange(lo as int, i + 1);
            assert(p.drop_last() =~= cs@.subrange(lo as int, i as int));
            assert(p.last() == c);
            assert forall|k: int| 0 <= k < p.len() implies '0' <= #[trigger] p[k] && p[k] <= '9' by {
                if k < p.len() - 1 {
                    assert(p[k] == cs@.subrange(lo as int, i as int)[k]);
                }
            }
        }
        if !big {
            if value * 10 + d > 65535 {
                big = true;
            } else {
                value = value * 10 + d;
            }
        }
        i = i + 1;
    }
    if big {
        None
    } else {
        Some(value as u16)
    }
}

/// The suffix that turns an artifact's URL into its signature's URL.
pub open spec fn signature_suffix() -> Seq<char> {
    ".asc"@
}

/// The URL of an artifact's detached signature.
pub fn signature_url(url: &str) -> (r: String)
    ensures
        r@ == url@ + signature_suffix(),
{
    let mut r = owned(url);
    r.append(".asc");
    r
}

/// The temporary file name for a download: the URL's last path segment, a
/// dot, and the distinguishing token in decimal.
pub open spec fn temp_file_name_spec(url: Seq<char>, token: nat) -> Seq<char> {
    last_segment(url, '/') + "."@ + decimal(token)
}

/// The temporary file name for a download of `url`, told apart from every
/// other download of it by `token` (a clock reading, say).
pub fn temp_file_name(url: &str, token: u64) -> (r: String)
    ensures
        r@ == temp_file_name_spec(url@, token as nat),
{
    let mut r = last_segment_of(url, '/');
    r.append(".");
    push_decimal(&mut r, token);
    r
}

/// Two downloads of one URL with different tokens never share a temporary
/// file name.
pub proof fn lemma_temp_names_distinct(url: Seq<char>, t1: nat, t2: nat)
    requires
        t1 != t2,
    ensures
        temp_file_name_spec(url, t1) != temp_file_name_spec(url, t2),
{
    let pre = last_segment(url, '/') + "."@;
    let a = temp_file_name_spec(url, t1);
    let b = temp_file_name_spec(url, t2);
    assert(a =~= pre + decimal(t1));
    assert(b =~= pre + decimal(t2));
    if a == b {
        assert(a.subrange(pre.len() as int, a.len() as int) =~= decimal(t1));
        assert(b.subrange(pre.len() as int, b.len() as int) =~= decimal(t2));
        lemma_decimal_injective(t1, t2);
    }
}

} // verus!
