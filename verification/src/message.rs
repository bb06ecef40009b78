//! Text that is safe to post in a Discord message, as serenity's
//! `MessageBuilder::push_safe` makes it.
use vstd::prelude::*;

verus! {

/// What `MessageBuilder::push_safe` appends for `content`: the content with
/// invite links, direction marks and mass mentions defused and Markdown
/// emphasis characters escaped.
pub uninterp spec fn safe_text(content: Seq<char>) -> Seq<char>;

/// Appends `content` to `buf` through serenity's `MessageBuilder::push_safe`.
/// Trusted: what is appended is taken to be `safe_text(content)`, and the
/// text already in `buf` is kept; nothing more is stated of it.
#[verifier::external_body]
pub(crate) fn push_safe(buf: &mut String, content: &str)
    ensures
        final(buf)@ == old(buf)@ + safe_text(content@),
{
    let mut builder = serenity::utils::MessageBuilder(std::mem::take(buf));
    builder.push_safe(content);
    *buf = builder.0;
}

} // verus!
