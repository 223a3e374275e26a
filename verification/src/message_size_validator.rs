//! Validates message sizes against the platform's limit, so that messages
//! stay within what real-time delivery handles reliably.
use vstd::prelude::*;
use vstd::string::*;
use crate::error::{OddSocketsError, Result};
use crate::text::{decimal, decimal_text, owned};

verus! {

/// Largest message accepted, in bytes (32 KB).
pub const MAX_MESSAGE_SIZE: usize = 32768;

/// Largest message accepted, in KB.
pub const MAX_MESSAGE_SIZE_KB: usize = 32;

/// The explanation carried by a `MessageTooLarge` error for a message of
/// `size_kb` KB.
pub open spec fn too_large_text(size_kb: nat) -> Seq<char> {
    "Message size ("@ + decimal(size_kb) + "KB) exceeds maximum allowed size of "@ + decimal(
        MAX_MESSAGE_SIZE_KB as nat,
    ) + "KB. This limit matches industry standards (PubNub, Socket.IO) for reliable real-time messaging."@
}

/// The size in KB reported for `size` bytes: every started KB counts, so
/// that a message over the limit is reported as larger than the limit.
pub open spec fn size_in_kb(size: nat) -> nat {
    if size % 1024 == 0 {
        size / 1024
    } else {
        size / 1024 + 1
    }
}

/// The error for a message of `size` bytes over the limit.
pub open spec fn too_large(size: nat, e: OddSocketsError) -> bool {
    &&& e matches OddSocketsError::MessageTooLarge { size_kb, max_size_kb, message }
    &&& size_kb == size_in_kb(size)
    &&& max_size_kb == MAX_MESSAGE_SIZE_KB
    &&& message@ == too_large_text(size_in_kb(size))
}

/// Validates the size, in bytes, of a message: its size if within the
/// limit, `MessageTooLarge` otherwise.
pub fn validate_size(message_size: usize) -> (r: Result<usize>)
    ensures
        message_size <= MAX_MESSAGE_SIZE ==> r == Ok::<usize, OddSocketsError>(message_size),
        message_size > MAX_MESSAGE_SIZE ==> (r matches Err(e) && too_large(message_size as nat, e)),
{
    if message_size > MAX_MESSAGE_SIZE {
        let size_kb: usize = if message_size % 1024 == 0 {
            message_size / 1024
        } else {
            message_size / 1024 + 1
        };
        let text = owned("Message size (").concat(decimal_text(size_kb as u64).as_str()).concat(
            "KB) exceeds maximum allowed size of ",
        ).concat(decimal_text(MAX_MESSAGE_SIZE_KB as u64).as_str()).concat(
            "KB. This limit matches industry standards (PubNub, Socket.IO) for reliable real-time messaging.",
        );
        return Err(
            OddSocketsError::MessageTooLarge {
                size_kb,
                max_size_kb: MAX_MESSAGE_SIZE_KB,
                message: text,
            },
        );
    }
    Ok(message_size)
}

/// Validates the size of a message string, measured in UTF-8 bytes.
pub fn validate_string_message_size(message: &str) -> (r: Result<usize>)
    requires
        message.spec_bytes().len() <= usize::MAX,
    ensures
        message.spec_bytes().len() <= MAX_MESSAGE_SIZE ==> r == Ok::<usize, OddSocketsError>(
            message.spec_bytes().len() as usize,
        ),
        message.spec_bytes().len() > MAX_MESSAGE_SIZE ==> (r matches Err(e) && too_large(
            message.spec_bytes().len(),
            e,
        )),
{
    validate_size(message.len())
}

/// Whether a message size is within the limit.
pub fn is_message_size_valid(message_size: usize) -> (r: bool)
    ensures
        r == (message_size <= MAX_MESSAGE_SIZE),
{
    message_size <= MAX_MESSAGE_SIZE
}

/// The maximum allowed message size in bytes.
pub fn get_max_message_size() -> (r: usize)
    ensures
        r == MAX_MESSAGE_SIZE,
{
    MAX_MESSAGE_SIZE
}

/// The maximum allowed message size in KB.
pub fn get_max_message_size_kb() -> (r: usize)
    ensures
        r == MAX_MESSAGE_SIZE_KB,
{
    MAX_MESSAGE_SIZE_KB
}

/// A size passes validation exactly when the validity test accepts it.
pub proof fn lemma_validation_agrees(message_size: usize, r: Result<usize>)
    requires
        message_size <= MAX_MESSAGE_SIZE ==> r == Ok::<usize, OddSocketsError>(message_size),
        message_size > MAX_MESSAGE_SIZE ==> (r matches Err(e) && too_large(message_size as nat, e)),
    ensures
        (r is Ok) == (message_size <= MAX_MESSAGE_SIZE),
{
}

/// A message refused for its size is always reported as larger, in KB, than
/// the limit it broke.
pub proof fn lemma_refused_size_exceeds_limit(size: nat, e: OddSocketsError)
    requires
        size > MAX_MESSAGE_SIZE,
        too_large(size, e),
    ensures
        e matches OddSocketsError::MessageTooLarge { size_kb, max_size_kb, .. } && size_kb
            > max_size_kb,
{
}

} // verus!
