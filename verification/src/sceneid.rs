//! Scene identifiers: 16 bytes shaped like a UUID whose last two bytes are a
//! CRC-16/AUG-CCITT checksum of the first fourteen, plus the XOR-and-scatter
//! obfuscation that derives a 16-bit scene number from those bytes, and the
//! reverse construction that forges an identifier for a chosen number.

use vstd::prelude::*;

verus! {

/// A scene identifier: fourteen source bytes, their checksum, and the
/// sixteen final bytes that lay the two out together.
#[derive(Debug, Clone, PartialEq, Eq)]
pub struct SceneID {
    /// The first fourteen bytes of the identifier.
    pub src_bytes: Vec<u8>,
    /// CRC-16/AUG-CCITT checksum of `src_bytes`.
    pub crc16: u16,
    /// The full identifier: `src_bytes`, then the checksum little-endian.
    pub final_id: Vec<u8>,
}

/// Why raw bytes or text failed to validate as a scene identifier.
#[derive(Debug, Clone, Copy, PartialEq, Eq, Structural)]
pub enum SceneIDError {
    InvalidUUID,
    InvalidCRC16,
}

impl SceneIDError {
    /// The human-readable description of the failure.
    pub fn message(&self) -> (r: &'static str)
        ensures
            *self == SceneIDError::InvalidUUID ==> r@ == "Invalid UUID"@,
            *self == SceneIDError::InvalidCRC16 ==> r@ == "Invalid CRC16"@,
    {
        match self {
            SceneIDError::InvalidUUID => "Invalid UUID",
            SceneIDError::InvalidCRC16 => "Invalid CRC16",
        }
    }
}

/// The CRC-16/AUG-CCITT checksum of a byte sequence.
pub uninterp spec fn crc16_aug_ccitt_of(data: Seq<u8>) -> u16;

/// Relies on `crc16::State::<AUG_CCITT>::calculate`: the checksum is a
/// function of the bytes alone.
#[verifier::external_body]
fn crc16_of(data: &Vec<u8>) -> (r: u16)
    ensures
        r == crc16_aug_ccitt_of(data@),
{
    crc16::State::<crc16::AUG_CCITT>::calculate(data)
}

/// The 16 bytes a string denotes when it parses as a UUID, if it does.
pub uninterp spec fn uuid_parse_of(s: Seq<char>) -> Option<Seq<u8>>;

/// Relies on `Uuid::parse_str` and `Uuid::into_bytes`: whether a string
/// parses, and the sixteen bytes it denotes, depend on the string alone.
#[verifier::external_body]
fn parse_uuid_bytes(s: &str) -> (r: Option<Vec<u8>>)
    ensures
        r matches Some(b) ==> uuid_parse_of(s@) == Some(b@) && b@.len() == 16,
        r is None ==> uuid_parse_of(s@) is None,
{
    match uuid::Uuid::parse_str(s) {
        Ok(u) => Some(u.into_bytes().to_vec()),
        Err(_) => None,
    }
}

/// Relies on `Uuid::new_v4`: sixteen fresh random bytes in UUID layout.
/// Nothing is promised of their values beyond the count.
#[verifier::external_body]
fn random_uuid_v4_bytes() -> (r: Vec<u8>)
    ensures
        r@.len() == 16,
{
    uuid::Uuid::new_v4().into_bytes().to_vec()
}

/// Relies on `rand::random`: a fresh random value, of which nothing is
/// promised.
#[verifier::external_body]
fn random_u16() -> u16 {
    rand::random()
}

/// Relies on `rand::random`: a fresh random value, of which nothing is
/// promised.
#[verifier::external_body]
fn random_u8() -> u8 {
    rand::random()
}

/// Relies on `rand::random`: fourteen fresh random bytes.
#[verifier::external_body]
fn random_bytes_14() -> (r: Vec<u8>)
    ensures
        r@.len() == 14,
{
    rand::random::<[u8; 14]>().to_vec()
}

/// The XOR mask applied to the sixteen identifier bytes before scattering.
pub open spec fn uuid_xor_seq() -> Seq<u8> {
    seq![0xB9u8, 0x20, 0x86, 0xBC, 0x3E, 0x8B, 0x4A, 0xDF, 0xA3, 0x01, 0x4D, 0xEE, 0x2F, 0xA3, 0xAB, 0x69]
}

/// The scatter table: for each low-nibble selector, the two byte positions
/// that hold the scene number's low and high byte.
pub open spec fn scatter_seq() -> Seq<(u8, u8)> {
    seq![
        (3u8, 12u8),
        (8u8, 6u8),
        (2u8, 8u8),
        (4u8, 5u8),
        (5u8, 1u8),
        (4u8, 10u8),
        (1u8, 3u8),
        (11u8, 5u8),
        (3u8, 4u8),
        (5u8, 6u8),
        (13u8, 10u8),
        (7u8, 5u8),
        (2u8, 9u8),
        (3u8, 9u8),
        (10u8, 8u8),
        (4u8, 10u8),
    ]
}

fn uuid_xor_at(i: usize) -> (r: u8)
    requires
        i < 16,
    ensures
        r == uuid_xor_seq()[i as int],
{
    match i {
        0 => 0xB9,
        1 => 0x20,
        2 => 0x86,
        3 => 0xBC,
        4 => 0x3E,
        5 => 0x8B,
        6 => 0x4A,
        7 => 0xDF,
        8 => 0xA3,
        9 => 0x01,
        10 => 0x4D,
        11 => 0xEE,
        12 => 0x2F,
        13 => 0xA3,
        14 => 0xAB,
        _ => 0x69,
    }
}

fn scatter_at(i: usize) -> (r: (u8, u8))
    requires
        i < 16,
    ensures
        r == scatter_seq()[i as int],
{
    match i {
        0 => (3, 12),
        1 => (8, 6),
        2 => (2, 8),
        3 => (4, 5),
        4 => (5, 1),
        5 => (4, 10),
        6 => (1, 3),
        7 => (11, 5),
        8 => (3, 4),
        9 => (5, 6),
        10 => (13, 10),
        11 => (7, 5),
        12 => (2, 9),
        13 => (3, 9),
        14 => (10, 8),
        _ => (4, 10),
    }
}

/// The 16-bit scene number hidden in sixteen identifier bytes: XOR with the
/// mask, pick the table row named by the first byte's low nibble, and read
/// the two scattered bytes.
pub open spec fn extract_spec(b: Seq<u8>) -> u16 {
    let x = Seq::new(16, |i: int| (b[i] ^ uuid_xor_seq()[i]) as u8);
    let row = scatter_seq()[(x[0] & 15) as int];
    (x[row.0 as int] as u16) | ((x[row.1 as int] as u16) << 8)
}

/// The checksum condition that sixteen raw bytes must meet to validate: the
/// last two bytes, read little-endian, equal the checksum of the first
/// fourteen.
pub open spec fn scene_bytes_ok(b: Seq<u8>) -> bool {
    b[14] + 256 * b[15] == crc16_aug_ccitt_of(b.subrange(0, 14))
}

impl SceneID {
    /// A structurally sound identifier: the final bytes are the source bytes
    /// followed by their checksum, little-endian.
    pub open spec fn wf(self) -> bool {
        &&& self.src_bytes@.len() == 14
        &&& self.final_id@.len() == 16
        &&& self.final_id@.subrange(0, 14) == self.src_bytes@
        &&& self.final_id@[14] == self.crc16 % 256
        &&& self.final_id@[15] == self.crc16 / 256
        &&& self.crc16 == crc16_aug_ccitt_of(self.src_bytes@)
    }

    /// Creates a fresh random identifier: fourteen random bytes, checksummed.
    pub fn new() -> (r: SceneID)
        ensures
            r.wf(),
    {
        let raw = random_uuid_v4_bytes();
        let mut src: Vec<u8> = Vec::new();
        let mut i: usize = 0;
        while i < 14
            invariant
                i <= 14,
                raw@.len() == 16,
                src@.len() == i,
                src@ == raw@.subrange(0, i as int),
            decreases 14 - i,
        {
            src.push(raw[i]);
            assert(src@ == raw@.subrange(0, i + 1));
            i = i + 1;
        }
        let crc = crc16_of(&src);
        let mut fin = src.clone();
        fin.push((crc % 256) as u8);
        fin.push((crc / 256) as u8);
        let result = SceneID { src_bytes: src, crc16: crc, final_id: fin };
        proof {
            assert(result.final_id@.subrange(0, 14) =~= result.src_bytes@);
        }
        result
    }

    /// Validates sixteen raw bytes: accepted exactly when the trailing
    /// little-endian checksum matches the checksum of the first fourteen
    /// bytes.
    pub fn verify(bytes: &Vec<u8>) -> (r: Result<SceneID, SceneIDError>)
        requires
            bytes@.len() == 16,
        ensures
            scene_bytes_ok(bytes@) ==> (r matches Ok(id) && id.wf() && id.final_id@ == bytes@),
            !scene_bytes_ok(bytes@) ==> (r matches Err(e) && e == SceneIDError::InvalidCRC16),
    {
        let mut src: Vec<u8> = Vec::new();
        let mut i: usize = 0;
        while i < 14
            invariant
                i <= 14,
                bytes@.len() == 16,
                src@.len() == i,
                src@ == bytes@.subrange(0, i as int),
            decreases 14 - i,
        {
            src.push(bytes[i]);
            assert(src@ == bytes@.subrange(0, i + 1));
            i = i + 1;
        }
        let calculated = crc16_of(&src);
        let given: u16 = bytes[14] as u16 + 256 * (bytes[15] as u16);
        if given != calculated {
            return Err(SceneIDError::InvalidCRC16);
        }
        let id = SceneID { src_bytes: src, crc16: given, final_id: bytes.clone() };
        proof {
            assert(id.final_id@.subrange(0, 14) =~= id.src_bytes@);
        }
        Ok(id)
    }

    /// Validates an identifier written as UUID text: rejected as
    /// `InvalidUUID` when the text does not parse, then held to the same
    /// checksum condition as raw bytes.
    pub fn verify_str(string: &str) -> (r: Result<SceneID, SceneIDError>)
        ensures
            uuid_parse_of(string@) is None ==> (r matches Err(e) && e == SceneIDError::InvalidUUID),
            uuid_parse_of(string@) matches Some(b) ==> {
                &&& scene_bytes_ok(b) ==> (r matches Ok(id) && id.wf() && id.final_id@ == b)
                &&& !scene_bytes_ok(b) ==> (r matches Err(e) && e == SceneIDError::InvalidCRC16)
            },
    {
        match parse_uuid_bytes(string) {
            None => Err(SceneIDError::InvalidUUID),
            Some(b) => Self::verify(&b),
        }
    }

    /// The 16-bit scene number hidden in this identifier.
    pub fn extract_scene_id(&self) -> (r: u16)
        requires
            self.final_id@.len() == 16,
        ensures
            r == extract_spec(self.final_id@),
    {
        let mut x: Vec<u8> = Vec::new();
        let mut i: usize = 0;
        while i < 16
            invariant
                i <= 16,
                self.final_id@.len() == 16,
                x@.len() == i,
                forall|j: int|
                    0 <= j < i ==> x@[j] == (self.final_id@[j] ^ uuid_xor_seq()[j]) as u8,
            decreases 16 - i,
        {
            x.push(self.final_id[i] ^ uuid_xor_at(i));
            i = i + 1;
        }
        let x0 = x[0];
        assert((x0 & 15) < 16) by (bit_vector);
        let index = (x0 & 15) as usize;
        let row = scatter_at(index);
        assert(row.0 < 16 && row.1 < 16);
        let lo = x[row.0 as usize] as u16;
        let hi = x[row.1 as usize] as u16;
        lo | (hi << 8u16)
    }

    /// Forges an identifier whose hidden scene number is `target`, carrying
    /// the given checksum (or a random one): two checksummed bytes are
    /// steered to the target through the scatter row that the first byte's
    /// low nibble selects, and two free bytes are searched until the
    /// checksum comes out right. `None` when no such bytes exist.
    pub fn forge(target: u16, target_crc: Option<u16>) -> (r: Option<SceneID>)
        ensures
            r matches Some(id) ==> {
                &&& id.wf()
                &&& extract_spec(id.final_id@) == target
                &&& (target_crc matches Some(c) ==> id.crc16 == c)
            },
    {
        let tcrc = match target_crc {
            Some(c) => c,
            None => random_u16(),
        };
        // The first scatter row whose two positions both fall inside the
        // fourteen checksummed bytes.
        let mut chosen_index: usize = 0;
        let mut found = false;
        let mut i: usize = 0;
        while i < 16
            invariant
                i <= 16,
                !found ==> chosen_index == 0,
                found ==> chosen_index < 16,
                found ==> scatter_seq()[chosen_index as int].0 < 14
                    && scatter_seq()[chosen_index as int].1 < 14,
            decreases 16 - i,
        {
            if !found {
                let row = scatter_at(i);
                if row.0 < 14 && row.1 < 14 {
                    chosen_index = i;
                    found = true;
                }
            }
            i = i + 1;
        }
        let row = scatter_at(chosen_index);
        let p1 = row.0 as usize;
        let p2 = row.1 as usize;
        // Both target bytes, and the selector in byte 0, must live in the
        // checksummed range independently of one another: otherwise the
        // steering writes would collide and no identifier can be built.
        if !(p1 < 14 && p2 < 14 && p1 != 0 && p2 != 0 && p1 != p2) {
            return None;
        }
        let mut uuid_bytes = random_bytes_14();
        let sel = chosen_index as u8;
        let ru = random_u8();
        let upper = ru & 0xF0;
        let desired = sel | upper;
        let x0 = uuid_xor_at(0);
        uuid_bytes[0] = desired ^ x0;
        let t_lo = (target & 0xFF) as u8;
        let t_hi = ((target >> 8) & 0xFF) as u8;
        let xp1 = uuid_xor_at(p1);
        uuid_bytes[p1] = t_lo ^ xp1;
        let xp2 = uuid_xor_at(p2);
        uuid_bytes[p2] = t_hi ^ xp2;
        let mut exclude: Vec<usize> = Vec::new();
        exclude.push(0);
        exclude.push(p1);
        exclude.push(p2);
        proof {
            assert(exclude@.contains(0usize)) by {
                assert(exclude@[0] == 0usize);
            }
            assert(exclude@.contains(p1)) by {
                assert(exclude@[1] == p1);
            }
            assert(exclude@.contains(p2)) by {
                assert(exclude@[2] == p2);
            }
        }
        let ghost steered = uuid_bytes@;
        let ok = forge_bruteforce(&mut uuid_bytes, tcrc, &exclude);
        if !ok {
            return None;
        }
        let mut fin = uuid_bytes.clone();
        fin.push((tcrc % 256) as u8);
        fin.push((tcrc / 256) as u8);
        let id = SceneID { src_bytes: uuid_bytes, crc16: tcrc, final_id: fin };
        proof {
            let f = id.final_id@;
            assert(f.subrange(0, 14) =~= id.src_bytes@);
            // The three steered bytes survived the checksum search.
            assert(f[0] == desired ^ x0);
            assert(f[p1 as int] == t_lo ^ xp1);
            assert(f[p2 as int] == t_hi ^ xp2);
            let xseq = Seq::new(16, |j: int| (f[j] ^ uuid_xor_seq()[j]) as u8);
            assert(((desired ^ x0) ^ x0) == desired) by (bit_vector);
            assert((sel | (ru & 0xF0)) & 15 == sel) by (bit_vector)
                requires
                    sel < 16,
            ;
            assert(xseq[0] & 15 == sel);
            assert((xseq[0] & 15) as int == chosen_index as int);
            assert(((t_lo ^ xp1) ^ xp1) == t_lo) by (bit_vector);
            assert(((t_hi ^ xp2) ^ xp2) == t_hi) by (bit_vector);
            assert(xseq[p1 as int] == t_lo);
            assert(xseq[p2 as int] == t_hi);
            assert((t_lo as u16) | ((t_hi as u16) << 8u16) == target) by (bit_vector)
                requires
                    t_lo == (target & 0xFF) as u8,
                    t_hi == ((target >> 8u16) & 0xFF) as u8,
            ;
            assert(extract_spec(f) == target);
        }
        Some(id)
    }
}

fn contains_usize(v: &Vec<usize>, x: usize) -> (r: bool)
    ensures
        r == v@.contains(x),
{
    let mut i: usize = 0;
    while i < v.len()
        invariant
            i <= v@.len(),
            forall|j: int| 0 <= j < i ==> v@[j] != x,
        decreases v@.len() - i,
    {
        if v[i] == x {
            return true;
        }
        i = i + 1;
    }
    assert(!v@.contains(x));
    false
}

/// Searches two free byte positions (the first two not excluded) for values
/// that give the fourteen bytes the wanted checksum. On failure the bytes
/// are put back exactly as they were; excluded positions are never changed.
fn forge_bruteforce(bytes: &mut Vec<u8>, target_crc: u16, exclude: &Vec<usize>) -> (r: bool)
    requires
        old(bytes)@.len() == 14,
    ensures
        final(bytes)@.len() == 14,
        forall|j: int|
            0 <= j < 14 && exclude@.contains(j as usize) ==> final(bytes)@[j] == old(bytes)@[j],
        r ==> crc16_aug_ccitt_of(final(bytes)@) == target_crc,
        !r ==> final(bytes)@ == old(bytes)@,
{
    let mut modifiable: Vec<usize> = Vec::new();
    let mut i: usize = 0;
    while i < 14
        invariant
            i <= 14,
            forall|k: int|
                0 <= k < modifiable@.len() ==> (#[trigger] modifiable@[k]) < 14 && !exclude@.contains(
                    modifiable@[k],
                ),
        decreases 14 - i,
    {
        if !contains_usize(exclude, i) {
            modifiable.push(i);
        }
        i = i + 1;
    }
    if modifiable.len() < 2 {
        return false;
    }
    let pos_a = modifiable[0];
    let pos_b = modifiable[1];
    let original_a = bytes[pos_a];
    let original_b = bytes[pos_b];
    let mut a: u16 = 0;
    while a < 256
        invariant
            a <= 256,
            pos_a < 14,
            pos_b < 14,
            !exclude@.contains(pos_a),
            !exclude@.contains(pos_b),
            bytes@.len() == 14,
            forall|j: int|
                0 <= j < 14 && j != pos_a as int && j != pos_b as int ==> bytes@[j] == old(
                    bytes,
                )@[j],
            bytes@[pos_a as int] == original_a || a > 0,
            original_a == old(bytes)@[pos_a as int],
            original_b == old(bytes)@[pos_b as int],
        decreases 256 - a,
    {
        let mut b: u16 = 0;
        while b < 256
            invariant
                b <= 256,
                a < 256,
                pos_a < 14,
                pos_b < 14,
                !exclude@.contains(pos_a),
                !exclude@.contains(pos_b),
                bytes@.len() == 14,
                forall|j: int|
                    0 <= j < 14 && j != pos_a as int && j != pos_b as int ==> bytes@[j] == old(
                        bytes,
                    )@[j],
                original_a == old(bytes)@[pos_a as int],
                original_b == old(bytes)@[pos_b as int],
            decreases 256 - b,
        {
            bytes[pos_a] = a as u8;
            bytes[pos_b] = b as u8;
            let crc = crc16_of(bytes);
            if crc == target_crc {
                return true;
            }
            b = b + 1;
        }
        a = a + 1;
    }
    bytes[pos_a] = original_a;
    bytes[pos_b] = original_b;
    assert(bytes@ =~= old(bytes)@);
    false
}

impl Default for SceneID {
    /// A fresh random identifier, as `new` makes it.
    fn default() -> (r: Self)
        ensures
            r.wf(),
    {
        Self::new()
    }
}

/// A well-formed scene identifier always validates: its sixteen final bytes
/// meet the checksum condition that `verify` accepts.
pub proof fn lemma_wf_id_verifies(id: SceneID)
    requires
        id.wf(),
    ensures
        scene_bytes_ok(id.final_id@),
{
}

} // verus!
