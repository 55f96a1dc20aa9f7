use vstd::prelude::*;

verus! {

/// A directory entry: its name (up to 128 bytes, with the length) and its type code.
#[derive(Copy, Clone)]
pub struct DirEntry {
    pub name: [u8; 128],
    pub name_len: u8,
    pub d_type: u8,
}

/// Newline, carriage return or space.
pub open spec fn is_trailing_ws(b: u8) -> bool {
    b == 0x0A || b == 0x0D || b == 0x20
}

/// The length of `buf[..len]` once trailing newlines, carriage returns and spaces are removed.
pub open spec fn trimmed_len(buf: Seq<u8>, len: int) -> int
    decreases len,
{
    if len <= 0 {
        0
    } else if is_trailing_ws(buf[len - 1]) {
        trimmed_len(buf, len - 1)
    } else {
        len
    }
}

/// A path the kernel can take: non-empty and terminated by a NUL byte.
pub open spec fn is_c_path(path: Seq<u8>) -> bool {
    path.len() > 0 && path[path.len() - 1] == 0
}

/// Whether `path` is non-empty and NUL-terminated, as every path-taking call requires.
pub fn valid_path(path: &[u8]) -> (b: bool)
    ensures
        b == is_c_path(path@),
{
    !(path.len() == 0 || path[path.len() - 1] != 0)
}

/// The length of the first `len` bytes of `buf` without trailing whitespace (see `trimmed_len`).
pub fn trim_trailing(buf: &[u8], len: usize) -> (l: usize)
    requires
        len <= buf@.len(),
    ensures
        l == trimmed_len(buf@, len as int),
{
    let mut l = len;
    while l > 0 && (buf[l - 1] == 0x0A || buf[l - 1] == 0x0D || buf[l - 1] == 0x20)
        invariant
            l <= len <= buf@.len(),
            trimmed_len(buf@, l as int) == trimmed_len(buf@, len as int),
        decreases l,
    {
        l -= 1;
    }
    l
}

} // verus!
