use todo_schedule::{Id, IdSuppier, WithId};

#[test]
fn id_keeps_its_text() {
    assert_eq!(Id::new("task-1").get(), "task-1");
    assert_eq!(Id::new("a"), Id::new("a"));
    assert_ne!(Id::new("a"), Id::new("b"));
    assert_eq!(Id::new("x").clone(), Id::new("x"));
}

#[test]
fn generated_ids_are_hyphenated_uuids() {
    let id = Id::generate();
    let text = id.get();
    assert_eq!(text.len(), 36);
    for (i, c) in text.chars().enumerate() {
        if [8, 13, 18, 23].contains(&i) {
            assert_eq!(c, '-');
        } else {
            assert!(c.is_ascii_digit() || ('a'..='f').contains(&c));
        }
    }
    assert_eq!(text.chars().nth(14), Some('4'));
    assert_ne!(Id::generate(), Id::generate());
    assert_eq!(IdSuppier.next().get().len(), 36);
}

#[test]
fn with_id_gives_access_to_its_content() {
    let mut stored = WithId::new("item-1".to_owned(), 5u32);
    assert_eq!(stored.id(), "item-1");
    assert_eq!(*stored.content(), 5);
    *stored.content_mut() = 7;
    assert_eq!(*stored.content(), 7);
    assert_eq!(stored.id(), "item-1");
}
