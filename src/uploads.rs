//! Photo uploads: the boundary of a multipart body, and the public URL of an
//! uploaded object.

use crate::provisioning::opt_view;
use crate::text::{encode_url_component, push_char, url_component};
use vstd::prelude::*;
use vstd::string::*;

verus! {

pub const BOUNDARY: &'static str = "boundary=";

/// `boundary=` starts at `i` in `s`.
pub open spec fn boundary_at(s: Seq<char>, i: int) -> bool {
    0 <= i && i + 9 <= s.len() && s.subrange(i, i + 9) == BOUNDARY@
}

/// The boundary a multipart `Content-Type` names: what follows the first
/// `boundary=`.
pub open spec fn boundary_of(s: Seq<char>) -> Option<Seq<char>> {
    if exists|i: int| boundary_at(s, i) {
        let i = choose|i: int| boundary_at(s, i) && forall|j: int| 0 <= j < i ==> !boundary_at(s, j);
        Some(s.subrange(i + 9, s.len() as int))
    } else {
        None
    }
}

fn boundary_starts_at(s: &str, i: usize) -> (r: bool)
    requires
        i + 9 <= s@.len() <= usize::MAX,
    ensures
        r == boundary_at(s@, i as int),
{
    proof {
        reveal_strlit("boundary=");
    }
    let mut k: usize = 0;
    while k < 9
        invariant
            k <= 9,
            i + 9 <= s@.len() <= usize::MAX,
            BOUNDARY@.len() == 9,
            forall|j: int| 0 <= j < k ==> s@[i + j] == BOUNDARY@[j],
        decreases 9 - k,
    {
        if s.get_char(i + k) != BOUNDARY.get_char(k) {
            assert(s@.subrange(i as int, i + 9)[k as int] != BOUNDARY@[k as int]);
            return false;
        }
        k = k + 1;
    }
    assert(s@.subrange(i as int, i + 9) =~= BOUNDARY@);
    true
}

/// Reads the boundary out of a multipart `Content-Type` header value.
pub fn multipart_boundary(content_type: &str) -> (r: Option<String>)
    ensures
        opt_view(r) == boundary_of(content_type@),
{
    let n = content_type.unicode_len();
    if n < 9 {
        assert(!exists|i: int| boundary_at(content_type@, i));
        return None;
    }
    let mut i: usize = 0;
    while i <= n - 9
        invariant
            n == content_type@.len(),
            n >= 9,
            i <= n - 8,
            forall|j: int| 0 <= j < i ==> !boundary_at(content_type@, j),
        decreases n - 8 - i,
    {
        if boundary_starts_at(content_type, i) {
            let ghost s = content_type@;
            assert(exists|x: int| boundary_at(s, x));
            let ghost c = choose|x: int|
                boundary_at(s, x) && forall|j: int| 0 <= j < x ==> !boundary_at(s, j);
            assert(c == i) by {
                if c < i {
                } else if c > i {
                }
            }
            let rest = content_type.substring_char(i + 9, n);
            return Some(String::from_str(rest));
        }
        i = i + 1;
    }
    assert forall|x: int| !boundary_at(content_type@, x) by {
        if 0 <= x && x + 9 <= n {
            assert(x < i);
        }
    }
    None
}

/// The text without its spaces.
pub open spec fn without_spaces(s: Seq<char>) -> Seq<char>
    decreases s.len(),
{
    if s.len() == 0 {
        s
    } else if s.last() == ' ' {
        without_spaces(s.drop_last())
    } else {
        without_spaces(s.drop_last()).push(s.last())
    }
}

fn remove_spaces(s: &str) -> (r: String)
    ensures
        r@ == without_spaces(s@),
{
    let n = s.unicode_len();
    let mut out = String::new();
    let mut i: usize = 0;
    while i < n
        invariant
            n == s@.len(),
            i <= n,
            out@ == without_spaces(s@.subrange(0, i as int)),
        decreases n - i,
    {
        let c = s.get_char(i);
        assert(s@.subrange(0, i + 1).drop_last() =~= s@.subrange(0, i as int));
        if c != ' ' {
            push_char(&mut out, c);
        }
        i = i + 1;
    }
    assert(s@.subrange(0, n as int) =~= s@);
    out
}

/// The public URL of an object: the key loses its spaces and is encoded as
/// a URL component.
pub open spec fn object_url_of(bucket: Seq<char>, region: Seq<char>, key: Seq<char>) -> Seq<char> {
    "https://"@ + bucket + ".s3."@ + region + ".amazonaws.com/"@ + url_component(without_spaces(key))
}

/// The public URL of the object stored under `key` in `bucket`, in the
/// region named `region`.
pub fn object_url(bucket: &str, region: &str, key: &str) -> (r: String)
    ensures
        r@ == object_url_of(bucket@, region@, key@),
{
    let encoded = encode_url_component(remove_spaces(key));
    let mut r = String::from_str("https://");
    r.append(bucket);
    r.append(".s3.");
    r.append(region);
    r.append(".amazonaws.com/");
    r.append(encoded.as_str());
    r
}

/// The answer to an upload: where the photo can be fetched.
#[derive(Debug, Clone, PartialEq)]
pub struct UploadedPhotoResponse {
    pub photo_url: String,
}

} // verus!
