//! Host-key pinning: the presented fingerprint is compared with the pinned one
//! in constant time, and a mismatch refuses the connection.

use vstd::prelude::*;

verus! {

/// Compares two byte strings without an early exit over their contents: once
/// the lengths agree, every byte pair is folded into one accumulator.
pub fn constant_time_eq(a: &[u8], b: &[u8]) -> (res: bool)
    ensures
        res == (a@ == b@),
{
    if a.len() != b.len() {
        return false;
    }
    let mut diff: u8 = 0;
    let mut i: usize = 0;
    while i < a.len()
        invariant
            a.len() == b.len(),
            i <= a.len(),
            (diff == 0) <==> (forall|j: int| 0 <= j < i ==> a@[j] == b@[j]),
        decreases a.len() - i,
    {
        let x = a[i];
        let y = b[i];
        let next = diff | (x ^ y);
        assert((next == 0) <==> (diff == 0 && x == y)) by (bit_vector)
            requires
                next == diff | (x ^ y),
        ;
        diff = next;
        i += 1;
    }
    proof {
        if diff == 0 {
            assert(a@ =~= b@);
        }
    }
    diff == 0
}

/// Whether a presented host-key fingerprint is accepted. With a pin, only the
/// pinned fingerprint is; on first contact (no pin) any key is accepted and
/// captured for the person to confirm before it is saved.
pub fn accept_host_key(pinned: Option<&str>, presented: &str) -> (res: bool)
    ensures
        res == match pinned {
            Some(expected) => expected@ == presented@,
            None => true,
        },
{
    match pinned {
        Some(expected) => {
            let same = constant_time_eq(expected.as_bytes(), presented.as_bytes());
            proof {
                vstd::utf8::encode_utf8_decode_utf8(expected@);
                vstd::utf8::encode_utf8_decode_utf8(presented@);
            }
            same
        },
        None => true,
    }
}

/// The `SHA256:<base64>` fingerprint of the public key whose SSH wire
/// encoding is `key_blob`, or `None` when the bytes are not one public key.
pub uninterp spec fn key_fingerprint(key_blob: Seq<u8>) -> Option<Seq<char>>;

/// The algorithm name (such as `ssh-ed25519`) of the public key whose SSH wire
/// encoding is `key_blob`, or `None` when the bytes are not one public key.
pub uninterp spec fn key_algorithm(key_blob: Seq<u8>) -> Option<Seq<char>>;

/// The number in the first four bytes of `b`, most significant first.
pub open spec fn be_u32(b: Seq<u8>) -> int {
    b[0] * 16777216 + b[1] * 65536 + b[2] * 256 + b[3]
}

/// The SSH `string` that opens `blob`: the bytes after a four-byte big-endian
/// length, as many as that length says; `None` when the blob is too short.
pub open spec fn leading_ssh_string(blob: Seq<u8>) -> Option<Seq<u8>> {
    if blob.len() >= 4 && 4 + be_u32(blob) <= blob.len() {
        Some(blob.subrange(4, 4 + be_u32(blob)))
    } else {
        None
    }
}

/// Bytes read one character each.
pub open spec fn byte_chars(b: Seq<u8>) -> Seq<char> {
    b.map_values(|x: u8| x as char)
}

/// The plain public-key algorithm names: a key of one of these kinds is
/// encoded with its own name first, and is reported under that name.
pub open spec fn is_plain_key_algorithm(name: Seq<char>) -> bool {
    ||| name == "ssh-dss"@
    ||| name == "ecdsa-sha2-nistp256"@
    ||| name == "ecdsa-sha2-nistp384"@
    ||| name == "ecdsa-sha2-nistp521"@
    ||| name == "ssh-ed25519"@
    ||| name == "ssh-rsa"@
    ||| name == "sk-ecdsa-sha2-nistp256@openssh.com"@
    ||| name == "sk-ssh-ed25519@openssh.com"@
}

/// The algorithm name a key blob announces, when it opens with a plain key
/// algorithm name.
pub open spec fn announced_plain_algorithm(blob: Seq<u8>) -> Option<Seq<char>> {
    match leading_ssh_string(blob) {
        Some(n) => if is_plain_key_algorithm(byte_chars(n)) {
            Some(byte_chars(n))
        } else {
            None
        },
        None => None,
    }
}

/// The four bytes of `x`, most significant first.
pub open spec fn be_u32_bytes(x: u32) -> Seq<u8> {
    seq![(x >> 24u32) as u8, ((x >> 16u32) & 0xffu32) as u8, ((x >> 8u32) & 0xffu32) as u8, (x & 0xffu32) as u8]
}

/// Reading the opening string of a blob inverts writing it: a name written
/// with its four-byte length in front is read back whole, whatever follows.
pub proof fn lemma_leading_string_reads_its_length(len: u32, name: Seq<u8>, rest: Seq<u8>)
    requires
        name.len() == len,
    ensures
        leading_ssh_string(be_u32_bytes(len) + name + rest) == Some(name),
{
    let b0 = (len >> 24u32) as u8;
    let b1 = ((len >> 16u32) & 0xffu32) as u8;
    let b2 = ((len >> 8u32) & 0xffu32) as u8;
    let b3 = (len & 0xffu32) as u8;
    assert(b0 as int * 16777216 + b1 as int * 65536 + b2 as int * 256 + b3 as int == len as int)
        by (bit_vector)
        requires
            b0 == (len >> 24u32) as u8,
            b1 == ((len >> 16u32) & 0xffu32) as u8,
            b2 == ((len >> 8u32) & 0xffu32) as u8,
            b3 == (len & 0xffu32) as u8,
    ;
    let blob = be_u32_bytes(len) + name + rest;
    assert(blob[0] == b0 && blob[1] == b1 && blob[2] == b2 && blob[3] == b3);
    assert(be_u32(blob) == len as int);
    assert(blob.subrange(4, 4 + len as int) =~= name);
}

/// Decodes the bytes with `PublicKey::from_bytes` and renders the key's
/// `fingerprint` with the default hash (SHA-256) through its `Display`. The
/// result is `key_fingerprint` of the bytes.
#[verifier::external_body]
fn blob_fingerprint(key_blob: &[u8]) -> (res: Option<String>)
    ensures
        match res {
            Some(f) => key_fingerprint(key_blob@) == Some(f@),
            None => key_fingerprint(key_blob@) is None,
        },
{
    match russh::keys::PublicKey::from_bytes(key_blob) {
        Ok(key) => Some(key.fingerprint(Default::default()).to_string()),
        Err(_) => None,
    }
}

/// Decodes the bytes with `PublicKey::from_bytes` and renders the key's
/// `algorithm` through its `Display`. The result is `key_algorithm` of the
/// bytes. Both names rest on the same decoding, and a decoded key always has a
/// fingerprint, so an algorithm comes back exactly when a fingerprint exists.
/// The decoder reads the algorithm as the blob's opening SSH string; for a
/// plain key algorithm name, the decoded key reports that same name.
#[verifier::external_body]
fn blob_algorithm(key_blob: &[u8]) -> (res: Option<String>)
    ensures
        match res {
            Some(a) => key_algorithm(key_blob@) == Some(a@),
            None => key_algorithm(key_blob@) is None,
        },
        res is Some <==> key_fingerprint(key_blob@) is Some,
        res is Some && announced_plain_algorithm(key_blob@) is Some ==> res->0@
            == announced_plain_algorithm(key_blob@)->0,
{
    match russh::keys::PublicKey::from_bytes(key_blob) {
        Ok(key) => Some(key.algorithm().to_string()),
        Err(_) => None,
    }
}

/// Whether the `n` bytes after the length prefix of `blob`, read one
/// character each, spell `name`.
fn spells_name(blob: &[u8], n: usize, name: &str) -> (res: bool)
    requires
        4 + n <= blob@.len(),
    ensures
        res == (byte_chars(blob@.subrange(4, 4 + n as int)) == name@),
{
    let m = name.unicode_len();
    if m != n {
        proof {
            assert(byte_chars(blob@.subrange(4, 4 + n as int)).len() == n);
        }
        return false;
    }
    let mut i: usize = 0;
    while i < n
        invariant
            4 + n <= blob@.len(),
            blob@.len() == blob.len(),
            name@.len() == n,
            i <= n,
            forall|j: int| 0 <= j < i ==> (blob@[4 + j] as char) == name@[j],
        decreases n - i,
    {
        let c = blob[4 + i] as char;
        if c != name.get_char(i) {
            proof {
                assert(byte_chars(blob@.subrange(4, 4 + n as int))[i as int] != name@[i as int]);
            }
            return false;
        }
        i += 1;
    }
    assert(byte_chars(blob@.subrange(4, 4 + n as int)) =~= name@);
    true
}

/// The plain key algorithm name that `blob` opens with, if it opens with one.
fn announced_algorithm(blob: &[u8]) -> (res: Option<&'static str>)
    ensures
        match res {
            Some(a) => announced_plain_algorithm(blob@) == Some(a@),
            None => announced_plain_algorithm(blob@) is None,
        },
{
    if blob.len() < 4 {
        return None;
    }
    let n: u64 = blob[0] as u64 * 16777216 + blob[1] as u64 * 65536 + blob[2] as u64 * 256
        + blob[3] as u64;
    if n > (blob.len() - 4) as u64 {
        return None;
    }
    let n = n as usize;
    assert(leading_ssh_string(blob@) == Some(blob@.subrange(4, 4 + n as int)));
    if spells_name(blob, n, "ssh-ed25519") {
        Some("ssh-ed25519")
    } else if spells_name(blob, n, "ecdsa-sha2-nistp256") {
        Some("ecdsa-sha2-nistp256")
    } else if spells_name(blob, n, "ecdsa-sha2-nistp384") {
        Some("ecdsa-sha2-nistp384")
    } else if spells_name(blob, n, "ecdsa-sha2-nistp521") {
        Some("ecdsa-sha2-nistp521")
    } else if spells_name(blob, n, "ssh-rsa") {
        Some("ssh-rsa")
    } else if spells_name(blob, n, "ssh-dss") {
        Some("ssh-dss")
    } else if spells_name(blob, n, "sk-ecdsa-sha2-nistp256@openssh.com") {
        Some("sk-ecdsa-sha2-nistp256@openssh.com")
    } else if spells_name(blob, n, "sk-ssh-ed25519@openssh.com") {
        Some("sk-ssh-ed25519@openssh.com")
    } else {
        None
    }
}

/// What was learned of a server's host key during the handshake.
pub struct HostKeyCheck {
    pub algorithm: String,
    /// The `SHA256:…` fingerprint of the presented key.
    pub fingerprint: String,
    pub accepted: bool,
}

/// Captures the algorithm and fingerprint of the presented key, given by its
/// SSH wire encoding, and decides, against the pin if there is one, whether
/// the handshake may go on. Bytes that are not a public key are refused, with
/// nothing captured. A key of a plain algorithm is reported under the name its
/// encoding opens with.
pub fn inspect_host_key(key_blob: &[u8], pinned: Option<&str>) -> (res: HostKeyCheck)
    ensures
        match key_fingerprint(key_blob@) {
            Some(f) => {
                &&& res.fingerprint@ == f
                &&& res.accepted == match pinned {
                    Some(expected) => expected@ == f,
                    None => true,
                }
            },
            None => res.fingerprint@ == Seq::<char>::empty() && !res.accepted,
        },
        match key_algorithm(key_blob@) {
            Some(a) => res.algorithm@ == a,
            None => res.algorithm@ == Seq::<char>::empty(),
        },
        (key_algorithm(key_blob@) is Some) == (key_fingerprint(key_blob@) is Some),
        key_fingerprint(key_blob@) is Some && announced_plain_algorithm(key_blob@) is Some
            ==> res.algorithm@ == announced_plain_algorithm(key_blob@)->0,
{
    // A key that opens with a plain algorithm name is reported under that
    // name, read from the encoding; other kinds take the decoder's name.
    let algorithm = match blob_algorithm(key_blob) {
        Some(a) => match announced_algorithm(key_blob) {
            Some(name) => name.to_owned(),
            None => a,
        },
        None => String::new(),
    };
    match blob_fingerprint(key_blob) {
        Some(fingerprint) => {
            let accepted = accept_host_key(pinned, fingerprint.as_str());
            HostKeyCheck { algorithm, fingerprint, accepted }
        },
        None => HostKeyCheck { algorithm, fingerprint: String::new(), accepted: false },
    }
}

} // verus!
