//! Identifiers and bulk-message helpers.
use vstd::prelude::*;
use crate::json::JsonValue;
use crate::text::{concat2, has_prefix};
use crate::types::options::{PublishOptions, publish_options_view};
use crate::types::records::BulkMessage;

verus! {

/// A lowercase hexadecimal digit.
pub open spec fn is_hex_digit(c: char) -> bool {
    ('0' <= c && c <= '9') || ('a' <= c && c <= 'f')
}

/// The simple form of a UUID: 32 lowercase hexadecimal digits.
pub open spec fn is_uuid_simple(s: Seq<char>) -> bool {
    s.len() == 32 && forall|i: int| 0 <= i < 32 ==> is_hex_digit(#[trigger] s[i])
}

/// `prefix` followed by the simple form of a UUID.
pub open spec fn is_prefixed_id(s: Seq<char>, prefix: Seq<char>) -> bool {
    has_prefix(s, prefix) && is_uuid_simple(s.skip(prefix.len() as int))
}

/// `uuid::Uuid::new_v4().simple().to_string()`: a random version-4 UUID in
/// its simple form, 32 lowercase hexadecimal digits.
#[verifier::external_body]
fn random_uuid_simple() -> (s: String)
    ensures
        is_uuid_simple(s@),
{
    uuid::Uuid::new_v4().simple().to_string()
}

fn prefixed_id(prefix: &str) -> (r: String)
    ensures
        is_prefixed_id(r@, prefix@),
{
    let u = random_uuid_simple();
    let r = concat2(prefix, u.as_str());
    proof {
        assert(r@.subrange(0, prefix@.len() as int) =~= prefix@);
        assert(r@.skip(prefix@.len() as int) =~= u@);
    }
    r
}

/// Generates a unique message ID: `msg_` and a random UUID.
pub fn generate_message_id() -> (r: String)
    ensures
        is_prefixed_id(r@, "msg_"@),
{
    prefixed_id("msg_")
}

/// Generates a unique user ID: `user_` and a random UUID.
pub fn generate_user_id() -> (r: String)
    ensures
        is_prefixed_id(r@, "user_"@),
{
    prefixed_id("user_")
}

/// Creates a bulk message.
pub fn bulk_message(channel: &str, message: JsonValue, options: Option<PublishOptions>) -> (r: BulkMessage)
    ensures
        r.channel@ == channel@,
        r.message == message,
        r.options == options,
{
    BulkMessage::new(channel, message, options)
}

/// The view of optional publish options.
pub open spec fn opt_options_view(o: Option<PublishOptions>) -> Option<(Option<u64>, Option<Seq<(Seq<char>, crate::json::Json)>>, bool)> {
    match o {
        Some(p) => Some(publish_options_view(p)),
        None => None,
    }
}

/// One bulk message per element of `messages`, in order, all for `channel`
/// with the same options.
pub fn bulk_messages(channel: &str, messages: Vec<JsonValue>, options: Option<PublishOptions>) -> (r: Vec<BulkMessage>)
    ensures
        r@.len() == messages@.len(),
        forall|i: int| 0 <= i < r@.len() ==> {
            &&& (#[trigger] r@[i]).channel@ == channel@
            &&& r@[i].message == messages@[i]
            &&& opt_options_view(r@[i].options) == opt_options_view(options)
        },
{
    let mut out: Vec<BulkMessage> = Vec::new();
    let ghost all = messages@;
    for m in it: messages.into_iter()
        invariant
            it.seq() == all,
            out@.len() == it.index(),
            forall|i: int| 0 <= i < out@.len() ==> {
                &&& (#[trigger] out@[i]).channel@ == channel@
                &&& out@[i].message == all[i]
                &&& opt_options_view(out@[i].options) == opt_options_view(options)
            },
    {
        let opts = match &options {
            Some(o) => Some(o.duplicate()),
            None => None,
        };
        out.push(BulkMessage::new(channel, m, opts));
    }
    out
}

} // verus!
