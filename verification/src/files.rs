use std::io::Write;

use vstd::prelude::*;

verus! {

/// The index of the last slash in a path, or -1 if there is none.
pub open spec fn last_slash_idx(s: Seq<char>) -> int
    decreases s.len(),
{
    if s.len() == 0 {
        -1
    } else if s.last() == '/' {
        s.len() - 1
    } else {
        last_slash_idx(s.drop_last())
    }
}

/// A path with its trailing slashes removed.
pub open spec fn strip_trailing_slashes(s: Seq<char>) -> Seq<char>
    decreases s.len(),
{
    if s.len() > 0 && s.last() == '/' {
        strip_trailing_slashes(s.drop_last())
    } else {
        s
    }
}

/// The file name of a path: its last component, with trailing slashes
/// ignored. A path with no component left, or whose last component is the
/// parent directory, is kept whole.
pub open spec fn spec_file_name_or_full(s: Seq<char>) -> Seq<char> {
    let t = strip_trailing_slashes(s);
    let comp = t.subrange(last_slash_idx(t) + 1, t.len() as int);
    if t.len() == 0 || comp == seq!['.', '.'] {
        s
    } else {
        comp
    }
}

proof fn lemma_last_slash_idx(s: Seq<char>)
    ensures
        -1 <= last_slash_idx(s) < s.len(),
        last_slash_idx(s) >= 0 ==> s[last_slash_idx(s)] == '/',
        forall|i: int| last_slash_idx(s) < i < s.len() ==> s[i] != '/',
    decreases s.len(),
{
    if s.len() > 0 && s.last() != '/' {
        lemma_last_slash_idx(s.drop_last());
        assert forall|i: int| last_slash_idx(s) < i < s.len() implies s[i] != '/' by {
            if i < s.len() - 1 {
                assert(s.drop_last()[i] == s[i]);
            }
        }
    }
}

/// With slashes from position e to the end and none just before, stripping
/// the trailing slashes keeps exactly the first e characters.
proof fn lemma_strip_prefix(s: Seq<char>, e: int)
    requires
        0 <= e <= s.len(),
        forall|k: int| e <= k < s.len() ==> s[k] == '/',
        e > 0 ==> s[e - 1] != '/',
    ensures
        strip_trailing_slashes(s) == s.take(e),
    decreases s.len(),
{
    if s.len() > e {
        assert(s.last() == '/');
        let d = s.drop_last();
        assert forall|k: int| e <= k < d.len() implies d[k] == '/' by {
            assert(d[k] == s[k]);
        }
        if e > 0 {
            assert(d[e - 1] == s[e - 1]);
        }
        lemma_strip_prefix(d, e);
        assert(d.take(e) =~= s.take(e));
    } else {
        if e > 0 {
            assert(s.last() == s[e - 1]);
        }
        assert(s.take(e) =~= s);
    }
}

/// Whether the character at a position is a slash.
fn slash_at(s: &str, i: usize) -> (r: bool)
    requires
        i < s@.len(),
    ensures
        r == (s@[i as int] == '/'),
{
    s.get_char(i) == '/'
}

/// Returns the file name if the path has one. Otherwise, returns the full
/// path.
pub fn file_name_or_full(file_path: &str) -> (r: String)
    ensures
        r@ == spec_file_name_or_full(file_path@),
{
    let len = file_path.unicode_len();
    let mut e: usize = len;
    while e > 0 && slash_at(file_path, e - 1)
        invariant
            e <= len,
            len == file_path@.len(),
            forall|k: int| e <= k < len ==> file_path@[k] == '/',
        decreases e,
    {
        e = e - 1;
    }
    proof {
        lemma_strip_prefix(file_path@, e as int);
    }
    if e == 0 {
        return String::from_str(file_path);
    }
    let mut i: usize = e;
    while i > 0 && !slash_at(file_path, i - 1)
        invariant
            i <= e <= len,
            len == file_path@.len(),
            forall|k: int| i <= k < e ==> file_path@[k] != '/',
        decreases i,
    {
        i = i - 1;
    }
    proof {
        let t = file_path@.take(e as int);
        lemma_last_slash_idx(t);
        assert forall|k: int| i <= k < e implies t[k] != '/' by {
            assert(t[k] == file_path@[k]);
        }
        if i == 0 {
            if last_slash_idx(t) >= 0 {
                assert(t[last_slash_idx(t)] == '/');
            }
            assert(last_slash_idx(t) == -1);
        } else {
            assert(t[i - 1] == file_path@[i - 1]);
            assert(t[i - 1] == '/');
            let j = last_slash_idx(t);
            assert(j == i - 1) by {
                if j > i - 1 {
                    assert(t[j] != '/');
                }
                if j < i - 1 {
                    assert(t[i - 1] != '/');
                }
            }
        }
        assert(t.subrange(i as int, e as int) =~= file_path@.subrange(i as int, e as int));
    }
    let comp = file_path.substring_char(i, e);
    proof {
        reveal_strlit("..");
        assert(".."@ =~= seq!['.', '.']);
    }
    if crate::strutil::str_eq(comp, "..") {
        return String::from_str(file_path);
    }
    String::from_str(comp)
}

/// The name a gzip-compressed copy of a file gets.
pub fn gz_file_name(file_path: &str) -> (r: String)
    ensures
        r@ == file_path@ + ".gz"@,
{
    let mut r = String::from_str(file_path);
    r.append(".gz");
    r
}

/// What flate2 produces for a byte sequence: the gzip encoding with the
/// default compression level and an empty header.
pub uninterp spec fn gzip_of(b: Seq<u8>) -> Seq<u8>;

/// Relies on flate2's `GzBuilder` and `write::GzEncoder` with the default
/// compression level and a zero mtime: the output depends on the input bytes
/// alone, and holds at least the ten header and eight trailer bytes. The sink
/// is a `Vec`, whose `Write` impl never fails, so encoding always succeeds;
/// the fallback arm below cannot be reached.
#[verifier::external_body]
fn gzip_encode(data: &Vec<u8>) -> (r: Vec<u8>)
    ensures
        r@ == gzip_of(data@),
        r@.len() >= 18,
{
    let sink: Vec<u8> = Vec::new();
    let mut encoder = flate2::GzBuilder::new().mtime(0).write(sink, flate2::Compression::default());
    let _ = encoder.write_all(data.as_slice());
    match encoder.finish() {
        Ok(v) => v,
        Err(_) => Vec::new(),
    }
}

/// Compress a file's bytes into a gzip wrapper. Returns the name the
/// compressed copy is stored under and the bytes to store there; encoding
/// into memory cannot fail.
pub fn compress_gzip_bytes(file_path: &str, data: &Vec<u8>) -> (r: (String, Vec<u8>))
    ensures
        r.0@ == file_path@ + ".gz"@,
        r.1@ == gzip_of(data@),
        r.1@.len() >= 18,
{
    let name = gz_file_name(file_path);
    let bytes = gzip_encode(data);
    (name, bytes)
}

} // verus!
