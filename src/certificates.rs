use vstd::prelude::*;
use crate::records::{decimal, decimal_string};

verus! {

/// `s` with each `/` turned into `-`.
pub open spec fn slashes_to_dashes(s: Seq<char>) -> Seq<char> {
    Seq::new(s.len(), |i: int| if s[i] == '/' { '-' } else { s[i] })
}

/// The subject of a certificate of kind `kind` issued at Unix time `timestamp`.
pub open spec fn subject_of(kind: Seq<char>, timestamp: int) -> Seq<char> {
    "/CN=k3s-"@ + slashes_to_dashes(kind) + "@"@ + decimal(timestamp)
}

/// `kind` with each `/` turned into `-`, so that it can stand in a subject name.
pub fn dashed(kind: &str) -> (r: String)
    ensures
        r@ == slashes_to_dashes(kind@),
{
    proof {
        reveal_strlit("-");
    }
    let n = kind.unicode_len();
    let mut out = String::new();
    let mut i: usize = 0;
    while i < n
        invariant
            n == kind@.len(),
            i <= n,
            "-"@ == seq!['-'],
            out@ == slashes_to_dashes(kind@.subrange(0, i as int)),
        decreases n - i,
    {
        let c = kind.get_char(i);
        if c == '/' {
            out.append("-");
        } else {
            out.append(kind.substring_char(i, i + 1));
        }
        assert(out@ =~= slashes_to_dashes(kind@.subrange(0, i as int + 1)));
        i = i + 1;
    }
    assert(kind@.subrange(0, n as int) =~= kind@);
    out
}

/// The subject name for a certificate of kind `kind` issued at `timestamp`.
pub fn certificate_subject(kind: &str, timestamp: i64) -> (r: String)
    ensures
        r@ == subject_of(kind@, timestamp as int),
{
    let mut s = String::from_str("/CN=k3s-");
    let d = dashed(kind);
    s.append(d.as_str());
    s.append("@");
    let t = decimal_string(timestamp);
    s.append(t.as_str());
    s
}

/// The chain handed out with a certificate: the certificate, then the
/// intermediate authority's, then the root's.
pub fn certificate_chain(certificate: &str, intermediate: &str, root: &str) -> (r: String)
    ensures
        r@ == certificate@ + intermediate@ + root@,
{
    let mut s = String::from_str(certificate);
    s.append(intermediate);
    s.append(root);
    s
}

} // verus!
