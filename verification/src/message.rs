//! Message content.
//!
//! A message body is an ordered run of segments (text, mentions, faces,
//! images).  The builder collects segments; the content hands them out
//! again.  Text runs together: pushing text onto a body that ends in text
//! extends that final text segment instead of starting a second one, so a
//! body never holds two adjacent text segments that one longer text could
//! stand for.  Wire encoding of segments is the protocol layer's job, not
//! this library's.

use vstd::prelude::*;

verus! {

/// One segment of a message body.
#[derive(Debug, Clone, PartialEq)]
pub enum Segment {
    /// Plain text.
    Text { content: String },
    /// A mention of one group member.
    At { target: i64, display: String },
    /// A small built-in emoticon.
    Face { id: i32, name: String },
    /// An image sent in a friend chat, by upload handle.
    FriendImage { image_id: String, md5: Vec<u8>, size: u32 },
    /// An image sent in a group chat, by upload handle.
    GroupImage { image_id: String, md5: Vec<u8>, size: u32 },
}

/// How pushing the text `t` extends a body: a trailing text segment grows by
/// `t`; otherwise one new text segment holding `t` is appended.
pub open spec fn text_appended(pre: Seq<Segment>, post: Seq<Segment>, t: Seq<char>) -> bool {
    if pre.len() > 0 && pre.last() is Text {
        &&& post.len() == pre.len()
        &&& post.drop_last() == pre.drop_last()
        &&& (post.last() matches Segment::Text { content } && content@ == pre.last()->Text_content@
            + t)
    } else {
        &&& post.len() == pre.len() + 1
        &&& post.drop_last() == pre
        &&& (post.last() matches Segment::Text { content } && content@ == t)
    }
}

/// Message content: an ordered run of segments.
#[derive(Debug, Clone)]
pub struct MessageContent {
    inner: Vec<Segment>,
}

impl MessageContent {
    /// The segments, in order.
    pub closed spec fn segments_spec(&self) -> Seq<Segment> {
        self.inner@
    }

    /// Hands the segments over to the protocol layer for encoding.
    pub fn into_inner(self) -> (r: Vec<Segment>)
        ensures
            r@ == self.segments_spec(),
    {
        self.inner
    }

    /// The segments of this message body.
    pub fn segments(&self) -> (r: &Vec<Segment>)
        ensures
            r@ == self.segments_spec(),
    {
        &self.inner
    }

    /// The segments of this message body, owned.
    pub fn into_segments(self) -> (r: Vec<Segment>)
        ensures
            r@ == self.segments_spec(),
    {
        self.inner
    }
}

/// Collects segments into message content.
#[derive(Debug, Clone)]
pub struct MessageContentBuilder {
    inner: Vec<Segment>,
}

/// A value that can stand in a message body.
pub trait MessageSegment: Sized {
    /// How pushing this value extends a body.
    spec fn appended(&self, pre: Seq<Segment>, post: Seq<Segment>) -> bool;

    /// Adds this value at the end of the body under construction.
    fn push_to(self, builder: &mut MessageContentBuilder)
        ensures
            self.appended(old(builder).segments_spec(), final(builder).segments_spec()),
    ;
}

impl MessageContentBuilder {
    /// The segments collected so far, in order.
    pub closed spec fn segments_spec(&self) -> Seq<Segment> {
        self.inner@
    }

    /// Starts an empty message body.
    pub fn new() -> (r: Self)
        ensures
            r.segments_spec() == Seq::<Segment>::empty(),
    {
        MessageContentBuilder { inner: Vec::new() }
    }

    /// Finishes the body.
    pub fn build(self) -> (r: MessageContent)
        ensures
            r.segments_spec() == self.segments_spec(),
    {
        MessageContent { inner: self.inner }
    }

    /// Adds one segment (or segment-like value) at the end of the body.
    pub fn push<T: MessageSegment>(self, segment: T) -> (r: Self)
        ensures
            segment.appended(self.segments_spec(), r.segments_spec()),
    {
        let mut b = self;
        segment.push_to(&mut b);
        b
    }

    pub(crate) fn append_segment(&mut self, segment: Segment)
        ensures
            final(self).segments_spec() == old(self).segments_spec().push(segment),
    {
        self.inner.push(segment);
    }

    /// Appends text, growing a trailing text segment rather than adding a
    /// second one beside it.
    pub(crate) fn append_text(&mut self, text: String)
        ensures
            text_appended(old(self).segments_spec(), final(self).segments_spec(), text@),
    {
        let ghost pre = self.inner@;
        match self.inner.pop() {
            Some(Segment::Text { content }) => {
                let mut c = content;
                c.append(text.as_str());
                self.inner.push(Segment::Text { content: c });
                proof {
                    assert(pre.drop_last().push(pre.last()) =~= pre);
                    assert(self.inner@.drop_last() =~= pre.drop_last());
                }
            },
            Some(other) => {
                self.inner.push(other);
                self.inner.push(Segment::Text { content: text });
                proof {
                    assert(pre.drop_last().push(pre.last()) =~= pre);
                    assert(self.inner@.drop_last() =~= pre);
                }
            },
            None => {
                self.inner.push(Segment::Text { content: text });
                proof {
                    assert(self.inner@.drop_last() =~= pre);
                }
            },
        }
    }
}

impl MessageSegment for Segment {
    /// A text segment runs together with a trailing text segment; every
    /// other segment is appended as it stands.
    open spec fn appended(&self, pre: Seq<Segment>, post: Seq<Segment>) -> bool {
        match *self {
            Segment::Text { content } => text_appended(pre, post, content@),
            _ => post == pre.push(*self),
        }
    }

    fn push_to(self, builder: &mut MessageContentBuilder) {
        match self {
            Segment::Text { content } => builder.append_text(content),
            other => builder.append_segment(other),
        }
    }
}

impl MessageSegment for String {
    /// A string stands in a message body as text.
    open spec fn appended(&self, pre: Seq<Segment>, post: Seq<Segment>) -> bool {
        text_appended(pre, post, self@)
    }

    fn push_to(self, builder: &mut MessageContentBuilder) {
        builder.append_text(self);
    }
}

impl MessageSegment for &str {
    /// A string slice stands in a message body as text.
    open spec fn appended(&self, pre: Seq<Segment>, post: Seq<Segment>) -> bool {
        text_appended(pre, post, self@)
    }

    fn push_to(self, builder: &mut MessageContentBuilder) {
        builder.append_text(self.to_owned());
    }
}

} // verus!
