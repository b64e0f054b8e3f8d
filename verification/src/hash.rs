//! The path hash used to name assets: a case-insensitive, separator-agnostic
//! rolling hash over the characters of a path string.

use vstd::prelude::*;

verus! {

/// The first character that `char::to_lowercase` yields for `c`.
pub uninterp spec fn lower_first_of(c: char) -> char;

/// Relies on `char::to_lowercase`: the mapping depends on the character
/// alone; an ASCII capital maps to the corresponding small letter, and an
/// ASCII character with no lowercase form maps to itself.
#[verifier::external_body]
fn lowercase_first(c: char) -> (r: char)
    ensures
        r == lower_first_of(c),
        'A' <= c && c <= 'Z' ==> r == ((c as u8) + 32) as char,
        (c as u32) < 0x80 && !('A' <= c && c <= 'Z') ==> r == c,
{
    // `to_lowercase` always yields at least one character.
    c.to_lowercase().next().unwrap()
}

/// One step of the rolling hash: multiply by 37 and add the character's
/// code, both wrapping, after mapping `\` to `/` and lowercasing.
pub open spec fn afs_step(h: i32, c: char) -> i32 {
    let n = lower_first_of(if c == '\\' { '/' } else { c });
    vstd::wrapping::i32_specs::wrapping_add(
        vstd::wrapping::i32_specs::wrapping_mul(h, 0x25),
        (n as u32) as i32,
    )
}

/// The hash of a character sequence: the rolling hash folded over it from
/// the left, starting at zero.
pub open spec fn afs_hash_spec(s: Seq<char>) -> i32
    decreases s.len(),
{
    if s.len() == 0 {
        0
    } else {
        afs_step(afs_hash_spec(s.drop_last()), s.last())
    }
}

/// Hashes a path string: `\` and `/` hash alike, and case is ignored.
pub fn afs_hash(data: &str) -> (r: i32)
    ensures
        r == afs_hash_spec(data@),
{
    let mut hash: i32 = 0;
    for c in it: data.chars()
        invariant
            it.seq() == data@,
            hash == afs_hash_spec(it.seq().take(it.index() as int)),
    {
        let ch = if c == '\\' {
            '/'
        } else {
            c
        };
        let low = lowercase_first(ch);
        hash = hash.wrapping_mul(0x25);
        hash = hash.wrapping_add(low as u32 as i32);
        proof {
            assert(it.seq().take(it.index() + 1).drop_last() =~= it.seq().take(it.index() as int));
            assert(it.seq().take(it.index() + 1).last() == c);
        }
    }
    proof {
        assert(data@.take(data@.len() as int) =~= data@);
    }
    hash
}

/// A path hash, as stored in asset tables.
#[derive(Debug, Clone, Copy, PartialEq, Eq, Hash, Structural)]
pub struct AfsHash(pub i32);

#[verifier::external_type_specification]
#[verifier::external_body]
pub struct ExPath(std::path::Path);

/// Relies on `Path::to_str`: the path's text when the path is valid Unicode.
/// Falls back to the empty string otherwise, which is how these hashes have
/// always treated unreadable paths.
#[verifier::external_body]
fn path_text(path: &std::path::Path) -> (r: String) {
    path.to_str().unwrap_or_default().to_owned()
}

impl AfsHash {
    /// The hash of the given string.
    pub fn new_from_str(s: &str) -> (r: Self)
        ensures
            r.0 == afs_hash_spec(s@),
    {
        Self(afs_hash(s))
    }

    /// The hash of a path's text. The path itself is opaque here: whatever
    /// text it yields, the value is `new_from_str` of that text.
    pub fn new_from_path(path: &std::path::Path) -> Self {
        let s = path_text(path);
        Self::new_from_str(s.as_str())
    }
}

} // verus!
