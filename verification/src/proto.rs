//! Protocol constants and the command vocabulary.
//!
//! A command is a 16-bit word carried in a 64-bit slot; its payload is an
//! ordered, fixed-arity sequence of 64-bit words, with no length prefix.
//! The arity is determined entirely by the command word.

use crate::KosError;
use vstd::prelude::*;
use vstd::string::StrSliceExecFns;
use vstd::string::StringSliceAdditionalSpecFns;

verus! {

/// Reserved leading context word; the protocol currently defines only
/// context zero.
pub const KOS_CTX: u64 = 0;

/// Sentinel a device query returns for an unknown name. Never usable as a
/// device handle.
pub const NO_DEVICE: u64 = 0;

/// Sentinel a device command returns when the kernel rejects it (unknown
/// handle, wrong arity, command outside the device's vocabulary).
pub const KOS_ERR: u64 = 0xFFFF_FFFF_FFFF_FFFF;

// Window device command words.
pub const CMD_WIN_CREATE: u64 = 0x6377;
pub const CMD_WIN_DELETE: u64 = 0x6477;
pub const CMD_WIN_CAPTION: u64 = 0x7363;
pub const CMD_WIN_REGISTER_CB: u64 = 0x7263;
pub const CMD_WIN_LOOP: u64 = 0x6C6F;

// Mouse device command words.
pub const CMD_MOUSE_CREATE: u64 = 0x646D;
pub const CMD_MOUSE_UPDATE: u64 = 0x756D;
pub const CMD_MOUSE_POLL_BUTTON: u64 = 0x7062;
pub const CMD_MOUSE_POLL_AXIS: u64 = 0x7061;

/// Callback kinds for `CMD_WIN_REGISTER_CB`; only the draw hook is defined.
pub const CB_DRAW: u64 = 0;

/// The kernel-visible word that stands for the draw trampoline in a
/// callback registration, in place of a raw function address.
pub const DRAW_TRAMPOLINE_ID: u64 = 1;

/// The fixed payload arity of each command of the vocabulary; `None` for a
/// word outside the vocabulary, whose payload the raw dispatch layer passes
/// through without judgment.
pub open spec fn cmd_arity(cmd: u64) -> Option<nat> {
    if cmd == CMD_WIN_CREATE {
        Some(2)
    } else if cmd == CMD_WIN_DELETE {
        Some(1)
    } else if cmd == CMD_WIN_CAPTION {
        Some(2)
    } else if cmd == CMD_WIN_REGISTER_CB {
        Some(4)
    } else if cmd == CMD_WIN_LOOP {
        Some(1)
    } else if cmd == CMD_MOUSE_CREATE {
        Some(0)
    } else if cmd == CMD_MOUSE_UPDATE {
        Some(1)
    } else if cmd == CMD_MOUSE_POLL_BUTTON {
        Some(2)
    } else if cmd == CMD_MOUSE_POLL_AXIS {
        Some(2)
    } else {
        None
    }
}

/// Whether a payload of `n` words fits `cmd`: exact arity for vocabulary
/// commands, anything for words outside the vocabulary.
pub open spec fn arity_ok(cmd: u64, n: nat) -> bool {
    match cmd_arity(cmd) {
        Some(a) => n == a,
        None => true,
    }
}

/// The vocabulary's arity table, executable.
pub fn arity_of(cmd: u64) -> (r: Option<usize>)
    ensures
        match r {
            Some(n) => cmd_arity(cmd) == Some(n as nat),
            None => cmd_arity(cmd) is None,
        },
{
    if cmd == CMD_WIN_CREATE {
        Some(2)
    } else if cmd == CMD_WIN_DELETE {
        Some(1)
    } else if cmd == CMD_WIN_CAPTION {
        Some(2)
    } else if cmd == CMD_WIN_REGISTER_CB {
        Some(4)
    } else if cmd == CMD_WIN_LOOP {
        Some(1)
    } else if cmd == CMD_MOUSE_CREATE {
        Some(0)
    } else if cmd == CMD_MOUSE_UPDATE {
        Some(1)
    } else if cmd == CMD_MOUSE_POLL_BUTTON {
        Some(2)
    } else if cmd == CMD_MOUSE_POLL_AXIS {
        Some(2)
    } else {
        None
    }
}

/// The null-terminated byte encoding of a device name: its UTF-8 bytes
/// followed by one zero byte. Meaningful as a C string only when `name_ok`
/// holds of the name.
pub open spec fn c_string_bytes(s: Seq<char>) -> Seq<u8> {
    vstd::utf8::encode_utf8(s).push(0u8)
}

/// Whether a name can cross the boundary as a C string: its UTF-8 encoding
/// holds no interior zero byte.
pub open spec fn name_ok(s: Seq<char>) -> bool {
    !vstd::utf8::encode_utf8(s).contains(0u8)
}

/// A name of nonzero ASCII characters crosses the boundary cleanly: its
/// UTF-8 encoding holds no interior zero byte.
pub proof fn lemma_ascii_name_ok(s: Seq<char>)
    requires
        vstd::utf8::is_ascii_chars(s),
        forall|i: int| 0 <= i < s.len() ==> s[i] != '\0',
    ensures
        name_ok(s),
{
    vstd::utf8::is_ascii_chars_encode_utf8(s);
    if vstd::utf8::encode_utf8(s).contains(0u8) {
        let j = choose|j: int|
            0 <= j < vstd::utf8::encode_utf8(s).len() && vstd::utf8::encode_utf8(s)[j] == 0u8;
        assert(s[j] as u8 == 0u8);
        assert(s[j] != '\0');
        assert('\0' <= s[j] <= '\u{7f}');
    }
}

/// Encodes a device name as a null-terminated byte vector, refusing names
/// whose encoding holds an interior zero byte.
pub fn encode_c_string(name: &str) -> (r: Result<Vec<u8>, KosError>)
    ensures
        match r {
            Ok(v) => name_ok(name@) && v@ == c_string_bytes(name@),
            Err(e) => e == KosError::BadName && !name_ok(name@),
        },
{
    let mut bytes = name.as_bytes_vec();
    let n = bytes.len();
    let mut i: usize = 0;
    while i < n
        invariant
            i <= n,
            n == bytes@.len(),
            bytes@ == name.spec_bytes(),
            forall|j: int| 0 <= j < i ==> bytes@[j] != 0u8,
        decreases n - i,
    {
        if bytes[i] == 0u8 {
            proof {
                assert(vstd::utf8::encode_utf8(name@).contains(0u8));
            }
            return Err(KosError::BadName);
        }
        i += 1;
    }
    proof {
        assert(!vstd::utf8::encode_utf8(name@).contains(0u8)) by {
            if vstd::utf8::encode_utf8(name@).contains(0u8) {
                let j = choose|j: int|
                    0 <= j < name.spec_bytes().len() && name.spec_bytes()[j] == 0u8;
                assert(bytes@[j] != 0u8);
            }
        }
    }
    bytes.push(0u8);
    Ok(bytes)
}

} // verus!
