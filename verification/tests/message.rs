use awr::message::{MessageContent, MessageContentBuilder, MessageSegment, Segment};

#[test]
fn builder_collects_segments_in_order() {
    let content: MessageContent = MessageContentBuilder::new()
        .push("hello ".to_string())
        .push(Segment::At {
            target: 42,
            display: "@someone".to_string(),
        })
        .push(Segment::Face {
            id: 1,
            name: "smile".to_string(),
        })
        .build();
    let segments = content.segments();
    assert_eq!(segments.len(), 3);
    assert_eq!(
        segments[0],
        Segment::Text {
            content: "hello ".to_string()
        }
    );
    assert_eq!(
        segments[1],
        Segment::At {
            target: 42,
            display: "@someone".to_string()
        }
    );
    let owned = content.into_segments();
    assert_eq!(
        owned[2],
        Segment::Face {
            id: 1,
            name: "smile".to_string()
        }
    );
}

#[test]
fn consecutive_text_pushes_merge() {
    let content = MessageContentBuilder::new()
        .push("hello ".to_string())
        .push("world".to_string())
        .build();
    assert_eq!(content.segments().len(), 1);
    assert_eq!(
        content.segments()[0],
        Segment::Text {
            content: "hello world".to_string()
        }
    );

    let content = MessageContentBuilder::new()
        .push(Segment::Text {
            content: "a".to_string(),
        })
        .push(Segment::At {
            target: 1,
            display: "@x".to_string(),
        })
        .push("b".to_string())
        .push(Segment::Text {
            content: "c".to_string(),
        })
        .build();
    let segments = content.segments();
    assert_eq!(segments.len(), 3);
    assert_eq!(
        segments[0],
        Segment::Text {
            content: "a".to_string()
        }
    );
    assert_eq!(
        segments[2],
        Segment::Text {
            content: "bc".to_string()
        }
    );
}

#[test]
fn slices_and_images_stand_in_a_body() {
    let content = MessageContentBuilder::new()
        .push("see ")
        .push(Segment::FriendImage {
            image_id: "img-1".to_string(),
            md5: vec![1, 2],
            size: 10,
        })
        .push("and ")
        .push("this")
        .build();
    let segments = content.segments();
    assert_eq!(segments.len(), 3);
    assert_eq!(
        segments[0],
        Segment::Text {
            content: "see ".to_string()
        }
    );
    assert_eq!(
        segments[2],
        Segment::Text {
            content: "and this".to_string()
        }
    );
}

#[test]
fn content_hands_its_segments_to_the_encoder() {
    let mut builder = MessageContentBuilder::new();
    Segment::Text {
        content: "x".to_string(),
    }
    .push_to(&mut builder);
    let content = builder.build();
    let inner = content.into_inner();
    assert_eq!(inner.len(), 1);
}
