use gui::canvas::{Canvas, Element, HandleError};
use gui::mailbox::Mailbox;
use gui::registry::{Binding, NativeFn, Registry};

#[test]
fn mailbox_starts_empty() {
    let mut m = Mailbox::new();
    assert!(m.take().is_none());
}

#[test]
fn mailbox_last_write_wins() {
    let mut m = Mailbox::new();
    m.deposit("a".to_string());
    m.deposit("b".to_string());
    assert_eq!(m.take(), Some("b".to_string()));
    assert_eq!(m.take(), None);
}

#[test]
fn mailbox_take_empties_slot() {
    let mut m = Mailbox::new();
    m.deposit("x".to_string());
    assert_eq!(m.take(), Some("x".to_string()));
    assert_eq!(m.take(), None);
    m.deposit("y".to_string());
    assert_eq!(m.take(), Some("y".to_string()));
}

#[test]
fn canvas_heading_records_text() {
    let mut c = Canvas::new();
    let h = c.begin_frame();
    let r = c.heading(&h, "Hello");
    assert!(r.is_ok());
    assert!(!r.unwrap().clicked);
    assert_eq!(c.element_count(), 1);
    assert_eq!(c.elements()[0], Element::Heading("Hello".to_string()));
}

#[test]
fn canvas_begin_frame_clears_previous_elements() {
    let mut c = Canvas::new();
    let h = c.begin_frame();
    c.heading(&h, "one").unwrap();
    c.end_frame();
    let h2 = c.begin_frame();
    assert_eq!(c.element_count(), 0);
    c.heading(&h2, "two").unwrap();
    assert_eq!(c.elements()[0], Element::Heading("two".to_string()));
}

#[test]
fn canvas_rejects_handle_after_frame_ends() {
    let mut c = Canvas::new();
    let h = c.begin_frame();
    c.heading(&h, "live").unwrap();
    c.end_frame();
    let r = c.heading(&h, "stale");
    assert_eq!(r, Err(HandleError::Expired));
    // the canvas is untouched by the rejected call
    assert_eq!(c.element_count(), 1);
    assert_eq!(c.elements()[0], Element::Heading("live".to_string()));
}

#[test]
fn canvas_rejects_handle_from_previous_frame() {
    let mut c = Canvas::new();
    let h1 = c.begin_frame();
    c.end_frame();
    let h2 = c.begin_frame();
    // the old handle is dead even though a frame is live
    assert_eq!(c.heading(&h1, "old"), Err(HandleError::Expired));
    // the current handle still works
    assert!(c.heading(&h2, "new").is_ok());
    assert_eq!(c.element_count(), 1);
}

#[test]
fn canvas_rejects_handle_before_any_frame() {
    let mut c = Canvas::new();
    let h = gui::canvas::UiHandle { frame: 0 };
    assert_eq!(c.heading(&h, "early"), Err(HandleError::Expired));
    assert_eq!(c.element_count(), 0);
}

#[test]
fn registry_namespaces_methods_per_type() {
    let mut r = Registry::new();
    r.register(Binding::new(
        "Widget".to_string(),
        "render".to_string(),
        NativeFn::Heading,
    ));
    r.register(Binding::new(
        "Panel".to_string(),
        "render".to_string(),
        NativeFn::DrawHeading,
    ));
    assert_eq!(r.lookup("Widget", "render"), Some(NativeFn::Heading));
    assert_eq!(r.lookup("Panel", "render"), Some(NativeFn::DrawHeading));
    assert_eq!(r.lookup("Widget", "draw"), None);
    assert_eq!(r.lookup("Label", "render"), None);
}

#[test]
fn registry_later_entries_shadow_earlier_ones() {
    let mut r = Registry::new();
    r.register(Binding::new(
        "Ui".to_string(),
        "heading".to_string(),
        NativeFn::Heading,
    ));
    r.register(Binding::new(
        "Ui".to_string(),
        "heading".to_string(),
        NativeFn::DrawHeading,
    ));
    assert_eq!(r.lookup("Ui", "heading"), Some(NativeFn::DrawHeading));
}
