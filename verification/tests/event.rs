use windows::Win32::System::Variant;
use wql_process_monitor::event::{
    event_kind, prop_string, process_image_path, value_kind, EventKind, Extraction, ProcessEvent,
    ProcessImage, Property, Reading, Target, ValueKind, VT_BSTR, VT_EMPTY, VT_NULL, VT_UNKNOWN,
};
use wql_process_monitor::number::parse_u32;

fn text(text: &str) -> Property {
    Property::Text(text.to_string())
}

fn process(name: &str, handle: &str) -> Reading<u8> {
    Reading::Process {
        name: text(name),
        handle: text(handle),
    }
}

fn reach_process(class: &str) -> Extraction<u8> {
    Extraction::Class
        .next(Reading::Class(text(class)))
        .next(Reading::Target(Target::Object(9)))
}

fn finished(extraction: Extraction<u8>) -> Option<ProcessEvent> {
    match extraction {
        Extraction::Finished(event) => event,
        other => panic!("not finished: {:?}", other),
    }
}

#[test]
fn type_codes_are_those_of_the_system() {
    assert_eq!(VT_EMPTY, Variant::VT_EMPTY.0);
    assert_eq!(VT_NULL, Variant::VT_NULL.0);
    assert_eq!(VT_BSTR, Variant::VT_BSTR.0);
    assert_eq!(VT_UNKNOWN, Variant::VT_UNKNOWN.0);
}

#[test]
fn value_kinds() {
    assert_eq!(value_kind(VT_NULL), ValueKind::Null);
    assert_eq!(value_kind(VT_EMPTY), ValueKind::Empty);
    assert_eq!(value_kind(VT_BSTR), ValueKind::Text);
    assert_eq!(value_kind(VT_UNKNOWN), ValueKind::Object);
    assert_eq!(value_kind(3), ValueKind::Other);
}

#[test]
fn properties_as_text() {
    assert_eq!(prop_string(&Property::Unreadable), "");
    assert_eq!(prop_string(&Property::Null), "NULL");
    assert_eq!(prop_string(&Property::Empty), "EMPTY");
    assert_eq!(prop_string(&text("explorer.exe")), "explorer.exe");
    assert_eq!(prop_string(&Property::Other), "");
}

#[test]
fn classes_that_are_reported() {
    let kind = |class: &str| event_kind(&class.to_string());
    assert_eq!(kind("__InstanceCreationEvent"), Some(EventKind::Creation));
    assert_eq!(kind("__InstanceDeletionEvent"), Some(EventKind::Deletion));
    assert_eq!(kind("__InstanceModificationEvent"), None);
    assert_eq!(kind("__InstanceOperationEvent"), None);
    assert_eq!(kind("__instancecreationevent"), None);
    assert_eq!(kind(""), None);
}

#[test]
fn numbers_agree_with_the_standard_library() {
    let texts = [
        "", "0", "7", "+7", "007", "4294967295", "4294967296", "99999999999999999999", "-1", "+",
        "++1", " 1", "1 ", "1a", "NULL", "\u{0661}", "00000000000000000000012", "-0",
    ];
    for text in texts {
        assert_eq!(parse_u32(text), text.parse::<u32>().ok(), "{:?}", text);
    }
}

#[test]
fn image_paths() {
    let units = |path: &str| ProcessImage::Path(path.encode_utf16().collect());
    assert_eq!(process_image_path(&ProcessImage::NotOpened), "");
    assert_eq!(process_image_path(&ProcessImage::NotNamed), "");
    for path in ["", r"C:\a.exe", "C:\\\u{e9}\u{4e2d}\u{1f600}.exe"] {
        assert_eq!(process_image_path(&units(path)), path);
    }
}

#[test]
fn unpaired_surrogates_are_replaced_one_by_one() {
    let path = |units: Vec<u16>| process_image_path(&ProcessImage::Path(units));
    assert_eq!(path(vec![0x61, 0xd800, 0x62]), "a\u{fffd}b");
    assert_eq!(path(vec![0xd800]), "\u{fffd}");
    assert_eq!(path(vec![0xdc00, 0xd800]), "\u{fffd}\u{fffd}");
    assert_eq!(path(vec![0xd800, 0xd83d, 0xde00]), "\u{fffd}\u{1f600}");
    assert_eq!(path(vec![0xd83d, 0xde00, 0xde00]), "\u{1f600}\u{fffd}");
    assert_eq!(path(vec![0xdbff, 0xdfff, 0xd7ff, 0xe000]), "\u{10ffff}\u{d7ff}\u{e000}");
}

#[test]
fn creation_with_image_path() {
    let extraction = reach_process("__InstanceCreationEvent").next(process("a.exe", "4242"));
    assert!(matches!(extraction, Extraction::Image { id: 4242, .. }));
    let image = ProcessImage::Path(r"C:\a.exe".encode_utf16().collect());
    let event = finished(extraction.next(Reading::Image(image))).unwrap();
    assert_eq!(
        event.into_args(),
        (
            "creation",
            "a.exe".to_string(),
            "4242".to_string(),
            r"C:\a.exe".to_string()
        )
    );
}

#[test]
fn creation_of_a_process_that_is_gone() {
    let extraction = reach_process("__InstanceCreationEvent").next(process("a.exe", "1"));
    let event = finished(extraction.next(Reading::Image(ProcessImage::NotOpened))).unwrap();
    assert_eq!(event.event, "creation");
    assert_eq!(event.filepath, "");
}

#[test]
fn no_image_without_a_process_number() {
    for handle in ["0", "", "x", "4294967296"] {
        let extraction = reach_process("__InstanceCreationEvent").next(process("a.exe", handle));
        let event = finished(extraction).unwrap();
        assert_eq!(event.event, "creation");
        assert_eq!(event.pid, handle);
        assert_eq!(event.filepath, "");
    }
}

#[test]
fn deletion_has_no_image_path() {
    let extraction = reach_process("__InstanceDeletionEvent").next(process("a.exe", "4242"));
    let event = finished(extraction).unwrap();
    assert_eq!(event.event, "deletion");
    assert_eq!(event.process, "a.exe");
    assert_eq!(event.pid, "4242");
    assert_eq!(event.filepath, "");
}

#[test]
fn placeholders_stand_in_an_event() {
    let extraction = reach_process("__InstanceDeletionEvent").next(Reading::Process {
        name: Property::Null,
        handle: Property::Empty,
    });
    let event = finished(extraction).unwrap();
    assert_eq!(event.process, "NULL");
    assert_eq!(event.pid, "EMPTY");
}

#[test]
fn other_classes_are_ignored() {
    for class in [text("__InstanceModificationEvent"), Property::Unreadable, Property::Null] {
        let extraction: Extraction<u8> = Extraction::Class.next(Reading::Class(class));
        assert!(finished(extraction).is_none());
    }
}

#[test]
fn objects_without_a_process_are_ignored() {
    for target in [
        Target::Unreadable,
        Target::NoObject,
        Target::NullObject,
        Target::ForeignObject,
    ] {
        let extraction: Extraction<u8> = Extraction::Class
            .next(Reading::Class(text("__InstanceCreationEvent")))
            .next(Reading::Target(target));
        assert!(finished(extraction).is_none());
    }
}

#[test]
fn readings_that_are_not_due_change_nothing() {
    let extraction: Extraction<u8> = Extraction::Class.next(Reading::Target(Target::Object(1)));
    assert!(matches!(extraction, Extraction::Class));
    let done: Extraction<u8> = Extraction::Finished(None);
    assert!(finished(done.next(Reading::Class(text("__InstanceCreationEvent")))).is_none());
}
