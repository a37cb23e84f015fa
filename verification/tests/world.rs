//! Tests for the environment-resolution surface: sources, raw bytes and
//! the frozen-instant date.

use typst_web::{Date, WebWorld};

#[test]
fn resolved_source_holds_the_document_text() {
    let mut world = WebWorld::new();
    world.source = String::from("= Title");
    let source = world.source(world.main());
    assert_eq!(source.text(), "= Title");
}

#[test]
fn resolved_bytes_are_the_utf8_text() {
    let mut world = WebWorld::new();
    world.source = String::from("héllo");
    let bytes = world.file(world.main());
    assert_eq!(bytes.as_slice(), "héllo".as_bytes());
}

#[test]
fn any_identifier_resolves_to_the_same_document() {
    let mut world = WebWorld::new();
    world.source = String::from("abc");
    let other = typst::syntax::FileId::new(None, typst::syntax::VirtualPath::new("/other.typ"));
    assert_eq!(world.source(other).text(), "abc");
}

#[test]
fn today_at_the_epoch_is_the_first_of_january_1970() {
    let mut world = WebWorld::new();
    world.now = Some(0);
    assert_eq!(
        world.today(Some(0)),
        Some(Date { year: 1970, month: 1, day: 1 })
    );
    assert_eq!(
        world.today(Some(3)),
        Some(Date { year: 1970, month: 1, day: 1 })
    );
    assert_eq!(
        world.today(Some(-1)),
        Some(Date { year: 1969, month: 12, day: 31 })
    );
}

#[test]
fn today_crosses_midnight_with_the_offset() {
    let mut world = WebWorld::new();
    world.now = Some(23 * 3600);
    assert_eq!(
        world.today(Some(0)),
        Some(Date { year: 1970, month: 1, day: 1 })
    );
    assert_eq!(
        world.today(Some(1)),
        Some(Date { year: 1970, month: 1, day: 2 })
    );
}

#[test]
fn today_with_the_machine_offset_resolves_after_capture() {
    let mut world = WebWorld::new();
    world.begin_compile();
    let date = world.today(None);
    assert!(date.is_some());
    let date = date.unwrap();
    assert!((1..=12).contains(&date.month));
    assert!((1..=31).contains(&date.day));
}
