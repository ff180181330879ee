//! Process events: what is read from a WMI event object, in what order, and what it becomes.

use vstd::prelude::*;

use crate::number::{decimal_text, lemma_decimal_text_is_read, parse_u32, parsed_u32};
use crate::query::QueryKind;

verus! {

/// A process event as it is handed to the callback.
#[derive(Debug)]
pub struct ProcessEvent {
    /// "creation" | "deletion"
    pub event: &'static str,
    pub process: String,
    /// The process identifier as text (WMI property `Handle`).
    pub pid: String,
    /// Full image path. Only resolved for creation events, may be empty.
    pub filepath: String,
}

/// The texts of a process event.
pub struct EventView {
    pub event: Seq<char>,
    pub process: Seq<char>,
    pub pid: Seq<char>,
    pub filepath: Seq<char>,
}

impl View for ProcessEvent {
    type V = EventView;

    open spec fn view(&self) -> EventView {
        EventView {
            event: self.event@,
            process: self.process@,
            pid: self.pid@,
            filepath: self.filepath@,
        }
    }
}

impl ProcessEvent {
    /// The arguments of the callback, in their order.
    pub fn into_args(self) -> (args: (&'static str, String, String, String))
        ensures
            args == (self.event, self.process, self.pid, self.filepath),
    {
        (self.event, self.process, self.pid, self.filepath)
    }
}

/// What happened to a process.
#[derive(Debug, Clone, Copy, PartialEq, Eq, Structural)]
pub enum EventKind {
    Creation,
    Deletion,
}

impl EventKind {
    pub open spec fn text(self) -> Seq<char> {
        match self {
            EventKind::Creation => "creation"@,
            EventKind::Deletion => "deletion"@,
        }
    }

    /// The name of the event that the callback gets.
    pub fn name(self) -> (name: &'static str)
        ensures
            name@ == self.text(),
    {
        match self {
            EventKind::Creation => "creation",
            EventKind::Deletion => "deletion",
        }
    }
}

/// What an event object of a WMI class reports. Objects of all but two classes are ignored.
pub open spec fn kind_of_class(class: Seq<char>) -> Option<EventKind> {
    if class == "__InstanceCreationEvent"@ {
        Some(EventKind::Creation)
    } else if class == "__InstanceDeletionEvent"@ {
        Some(EventKind::Deletion)
    } else {
        None
    }
}

/// Tells from its class what an event object reports.
pub fn event_kind(class: &String) -> (kind: Option<EventKind>)
    ensures
        kind == kind_of_class(class@),
{
    if *class == "__InstanceCreationEvent".to_owned() {
        Some(EventKind::Creation)
    } else if *class == "__InstanceDeletionEvent".to_owned() {
        Some(EventKind::Deletion)
    } else {
        None
    }
}

/// The type codes that a WMI property value is told by.
pub const VT_EMPTY: u16 = 0;

pub const VT_NULL: u16 = 1;

pub const VT_BSTR: u16 = 8;

pub const VT_UNKNOWN: u16 = 13;

/// What kind of value a property has.
#[derive(Debug, Clone, Copy, PartialEq, Eq, Structural)]
pub enum ValueKind {
    Null,
    Empty,
    Text,
    Object,
    Other,
}

/// Tells the kind of a property value by its type code.
pub fn value_kind(code: u16) -> (kind: ValueKind)
    ensures
        kind == ValueKind::Null <==> code == VT_NULL,
        kind == ValueKind::Empty <==> code == VT_EMPTY,
        kind == ValueKind::Text <==> code == VT_BSTR,
        kind == ValueKind::Object <==> code == VT_UNKNOWN,
{
    if code == VT_NULL {
        ValueKind::Null
    } else if code == VT_EMPTY {
        ValueKind::Empty
    } else if code == VT_BSTR {
        ValueKind::Text
    } else if code == VT_UNKNOWN {
        ValueKind::Object
    } else {
        ValueKind::Other
    }
}

/// The value of a property of a WMI object.
#[derive(Debug)]
pub enum Property {
    /// The property could not be read.
    Unreadable,
    Null,
    Empty,
    Text(String),
    /// A value of any other type.
    Other,
}

impl Property {
    pub open spec fn text(self) -> Seq<char> {
        match self {
            Property::Null => "NULL"@,
            Property::Empty => "EMPTY"@,
            Property::Text(text) => text@,
            _ => Seq::empty(),
        }
    }
}

/// A property as text, with placeholders for the values that are none.
pub fn prop_string(property: &Property) -> (text: String)
    ensures
        text@ == property.text(),
{
    match property {
        Property::Unreadable => String::new(),
        Property::Null => "NULL".to_owned(),
        Property::Empty => "EMPTY".to_owned(),
        Property::Text(text) => text.clone(),
        Property::Other => String::new(),
    }
}

/// The UTF-16 code units of a character.
pub open spec fn utf16_char(c: char) -> Seq<u16> {
    let code = c as int;
    if code < 0x10000 {
        seq![code as u16]
    } else {
        seq![
            (0xD800 + (code - 0x10000) / 0x400) as u16,
            (0xDC00 + (code - 0x10000) % 0x400) as u16,
        ]
    }
}

/// The UTF-16 code units of a text.
pub open spec fn utf16(text: Seq<char>) -> Seq<u16>
    decreases text.len(),
{
    if text.len() == 0 {
        Seq::empty()
    } else {
        utf16_char(text[0]) + utf16(text.drop_first())
    }
}

/// Whether a code unit opens a surrogate pair.
pub open spec fn is_high_surrogate(unit: u16) -> bool {
    0xD800 <= unit <= 0xDBFF
}

/// Whether a code unit closes a surrogate pair.
pub open spec fn is_low_surrogate(unit: u16) -> bool {
    0xDC00 <= unit <= 0xDFFF
}

/// The text of UTF-16 code units, with one replacement character for every surrogate that is
/// not part of a pair.
pub open spec fn decoded(units: Seq<u16>) -> Seq<char>
    decreases units.len(),
{
    if units.len() == 0 {
        Seq::empty()
    } else if !is_high_surrogate(units[0]) && !is_low_surrogate(units[0]) {
        seq![units[0] as char] + decoded(units.skip(1))
    } else if is_high_surrogate(units[0]) && units.len() > 1 && is_low_surrogate(units[1]) {
        seq![(0x10000 + (units[0] - 0xD800) * 0x400 + (units[1] - 0xDC00)) as char] + decoded(
            units.skip(2),
        )
    } else {
        seq!['\u{FFFD}'] + decoded(units.skip(1))
    }
}

/// `String::from_utf16_lossy` decodes UTF-16 code units and puts one replacement character,
/// U+FFFD, in the place of every unpaired surrogate.
#[verifier::external_body]
fn from_utf16_lossy(units: &[u16]) -> (text: String)
    ensures
        text@ == decoded(units@),
{
    String::from_utf16_lossy(units)
}

/// How many code units of an image path are asked for.
pub const IMAGE_PATH_UNITS: usize = 1024;

/// What the system says about the image of a process.
#[derive(Debug)]
pub enum ProcessImage {
    /// The process could not be opened: it is gone, or access is denied.
    NotOpened,
    /// The process was opened, but its image name could not be had.
    NotNamed,
    /// The image path, as UTF-16 code units.
    Path(Vec<u16>),
}

impl ProcessImage {
    pub open spec fn text(self) -> Seq<char> {
        match self {
            ProcessImage::Path(units) => decoded(units@),
            _ => Seq::empty(),
        }
    }
}

/// The image path of a process as text, empty where it is not available.
pub fn process_image_path(image: &ProcessImage) -> (path: String)
    ensures
        path@ == image.text(),
{
    match image {
        ProcessImage::NotOpened => String::new(),
        ProcessImage::NotNamed => String::new(),
        ProcessImage::Path(units) => from_utf16_lossy(units.as_slice()),
    }
}

/// What is read as the property `TargetInstance` of an event object. `O` is a WMI object.
#[derive(Debug)]
pub enum Target<O> {
    /// The property could not be read.
    Unreadable,
    /// Its value is no object.
    NoObject,
    /// Its value is an object reference that refers to nothing.
    NullObject,
    /// The object is no WMI object.
    ForeignObject,
    Object(O),
}

/// How far the reading of an event object has come, and what is to be read next.
#[derive(Debug)]
pub enum Extraction<O> {
    /// The property `__CLASS` of the event object.
    Class,
    /// The property `TargetInstance` of the event object.
    Target(EventKind),
    /// The properties `Name` and `Handle` of this process object.
    Process(EventKind, O),
    /// The image of the process `id`, which was created.
    Image { id: u32, process: String, pid: String },
    /// Nothing more: the object is ignored, or it reports this event.
    Finished(Option<ProcessEvent>),
}

/// What was read from an event object, or about its process.
#[derive(Debug)]
pub enum Reading<O> {
    Class(Property),
    Target(Target<O>),
    Process { name: Property, handle: Property },
    Image(ProcessImage),
}

/// `Extraction` with texts in place of strings.
pub enum ExtractionView<O> {
    Class,
    Target(EventKind),
    Process(EventKind, O),
    Image { id: u32, process: Seq<char>, pid: Seq<char> },
    Finished(Option<EventView>),
}

impl<O> View for Extraction<O> {
    type V = ExtractionView<O>;

    open spec fn view(&self) -> ExtractionView<O> {
        match *self {
            Extraction::Class => ExtractionView::Class,
            Extraction::Target(kind) => ExtractionView::Target(kind),
            Extraction::Process(kind, object) => ExtractionView::Process(kind, object),
            Extraction::Image { id, process, pid } => ExtractionView::Image {
                id,
                process: process@,
                pid: pid@,
            },
            Extraction::Finished(Some(event)) => ExtractionView::Finished(Some(event@)),
            Extraction::Finished(None) => ExtractionView::Finished(None),
        }
    }
}

/// The process whose image is looked up for an event, if any: a created one, whose identifier
/// is a number other than zero.
pub open spec fn image_id(kind: EventKind, pid: Seq<char>) -> Option<u32> {
    match (kind, parsed_u32(pid)) {
        (EventKind::Creation, Some(id)) => if id != 0 {
            Some(id)
        } else {
            None
        },
        _ => None,
    }
}

impl<O> ExtractionView<O> {
    /// Where a reading leads. A reading of another thing than the one that is due changes
    /// nothing.
    pub open spec fn after(self, reading: Reading<O>) -> ExtractionView<O> {
        match (self, reading) {
            (ExtractionView::Class, Reading::Class(class)) => match kind_of_class(class.text()) {
                Some(kind) => ExtractionView::Target(kind),
                None => ExtractionView::Finished(None),
            },
            (ExtractionView::Target(kind), Reading::Target(target)) => match target {
                Target::Object(object) => ExtractionView::Process(kind, object),
                _ => ExtractionView::Finished(None),
            },
            (ExtractionView::Process(kind, _), Reading::Process { name, handle }) => match image_id(
                kind,
                handle.text(),
            ) {
                Some(id) => ExtractionView::Image {
                    id,
                    process: name.text(),
                    pid: handle.text(),
                },
                None => ExtractionView::Finished(
                    Some(
                        EventView {
                            event: kind.text(),
                            process: name.text(),
                            pid: handle.text(),
                            filepath: Seq::empty(),
                        },
                    ),
                ),
            },
            (ExtractionView::Image { id, process, pid }, Reading::Image(image)) =>
                ExtractionView::Finished(
                Some(
                    EventView {
                        event: EventKind::Creation.text(),
                        process,
                        pid,
                        filepath: image.text(),
                    },
                ),
            ),
            _ => self,
        }
    }
}

impl<O> Extraction<O> {
    /// Takes what was read.
    pub fn next(self, reading: Reading<O>) -> (next: Self)
        ensures
            next@ == self@.after(reading),
    {
        match (self, reading) {
            (Extraction::Class, Reading::Class(class)) => {
                let class = prop_string(&class);
                match event_kind(&class) {
                    Some(kind) => Extraction::Target(kind),
                    None => Extraction::Finished(None),
                }
            },
            (Extraction::Target(kind), Reading::Target(target)) => match target {
                Target::Object(object) => Extraction::Process(kind, object),
                _ => Extraction::Finished(None),
            },
            (Extraction::Process(kind, _), Reading::Process { name, handle }) => {
                let process = prop_string(&name);
                let pid = prop_string(&handle);
                if kind == EventKind::Creation {
                    let id: u32 = match parse_u32(pid.as_str()) {
                        Some(id) => id,
                        None => 0,
                    };
                    if id != 0 {
                        return Extraction::Image { id, process, pid };
                    }
                }
                Extraction::Finished(
                    Some(
                        ProcessEvent {
                            event: kind.name(),
                            process,
                            pid,
                            filepath: String::new(),
                        },
                    ),
                )
            },
            (Extraction::Image { id: _, process, pid }, Reading::Image(image)) => {
                Extraction::Finished(
                    Some(
                        ProcessEvent {
                            event: EventKind::Creation.name(),
                            process,
                            pid,
                            filepath: process_image_path(&image),
                        },
                    ),
                )
            },
            (unchanged, _) => unchanged,
        }
    }
}

/// What an event object reports, all in all: the event of its class on the process that it
/// refers to, with the image path where one is looked up.
pub open spec fn extracted<O>(
    class: Property,
    target: Target<O>,
    name: Property,
    handle: Property,
    image: ProcessImage,
) -> Option<EventView> {
    match kind_of_class(class.text()) {
        Some(kind) => if target is Object {
            Some(
                EventView {
                    event: kind.text(),
                    process: name.text(),
                    pid: handle.text(),
                    filepath: if image_id(kind, handle.text()) is Some {
                        image.text()
                    } else {
                        Seq::empty()
                    },
                },
            )
        } else {
            None
        },
        None => None,
    }
}

/// Reading an object step by step gives what the object reports, and gives it after at most
/// four readings, whatever was read.
pub proof fn law_extraction_gives_what_is_reported<O>(
    class: Property,
    target: Target<O>,
    name: Property,
    handle: Property,
    image: ProcessImage,
)
    ensures
        ExtractionView::<O>::Class.after(Reading::Class(class)).after(
            Reading::Target(target),
        ).after(Reading::Process { name, handle }).after(Reading::Image(image))
            == ExtractionView::<O>::Finished(extracted(class, target, name, handle, image)),
{
}

/// A finished extraction stays as it is, whatever else is read.
pub proof fn law_finished_is_final<O>(event: Option<EventView>, reading: Reading<O>)
    ensures
        ExtractionView::Finished(event).after(reading) == ExtractionView::<O>::Finished(event),
{
}

/// Decoding gives back what was encoded in UTF-16.
pub proof fn law_decoding_undoes_encoding(text: Seq<char>)
    ensures
        decoded(utf16(text)) == text,
    decreases text.len(),
{
    if text.len() > 0 {
        let rest = utf16(text.drop_first());
        law_decoding_undoes_encoding(text.drop_first());
        lemma_decoded_char(text[0], rest);
        assert(seq![text[0]] + text.drop_first() =~= text);
    }
}

proof fn lemma_decoded_char(c: char, rest: Seq<u16>)
    ensures
        decoded(utf16_char(c) + rest) == seq![c] + decoded(rest),
{
    let units = utf16_char(c) + rest;
    let code = c as int;
    if code < 0x10000 {
        assert(units[0] == code);
        assert(units.skip(1) =~= rest);
    } else {
        assert(units[0] == 0xD800 + (code - 0x10000) / 0x400);
        assert(units[1] == 0xDC00 + (code - 0x10000) % 0x400);
        assert(units.skip(2) =~= rest);
    }
}

/// The image path of a created process stands in its event as the system has it, whatever its
/// characters are.
pub proof fn law_image_paths_are_kept<O>(
    class: Property,
    target: Target<O>,
    name: Property,
    handle: Property,
    units: Vec<u16>,
    path: Seq<char>,
)
    requires
        units@ == utf16(path),
    ensures
        extracted(class, target, name, handle, ProcessImage::Path(units)) matches Some(event)
            ==> event.filepath == (if image_id(
            kind_of_class(class.text())->Some_0,
            handle.text(),
        ) is Some {
            path
        } else {
            Seq::empty()
        }),
{
    law_decoding_undoes_encoding(path);
}

/// Every event that is reported is named a creation or a deletion, and has the name and the
/// identifier of its process as they were read.
pub proof fn law_events_are_creations_or_deletions<O>(
    class: Property,
    target: Target<O>,
    name: Property,
    handle: Property,
    image: ProcessImage,
)
    ensures
        extracted(class, target, name, handle, image) matches Some(event) ==> {
            &&& event.event == "creation"@ || event.event == "deletion"@
            &&& event.process == name.text()
            &&& event.pid == handle.text()
        },
{
}

/// A deletion never has an image path.
pub proof fn law_deletions_have_no_path<O>(
    class: Property,
    target: Target<O>,
    name: Property,
    handle: Property,
    image: ProcessImage,
)
    requires
        kind_of_class(class.text()) == Some(EventKind::Deletion),
    ensures
        extracted(class, target, name, handle, image) matches Some(event) ==> event.filepath
            == Seq::<char>::empty(),
{
}

/// The image of a process is looked up only for a created process, never for process zero, and
/// only after the process was found.
pub proof fn law_images_are_of_created_processes<O>(state: ExtractionView<O>, reading: Reading<O>)
    requires
        !(state is Image),
        state.after(reading) is Image,
    ensures
        state matches ExtractionView::Process(kind, _) && kind == EventKind::Creation,
        state.after(reading)->id != 0,
{
}

/// Exactly the objects of the two classes that a subscription to creations or to deletions
/// selects from are reported, each as what it is. An object of the class of operation events in
/// general is not.
pub proof fn law_reported_classes(class: Seq<char>)
    ensures
        kind_of_class(class) == Some(EventKind::Creation) <==> class
            == QueryKind::Creation.source_text(),
        kind_of_class(class) == Some(EventKind::Deletion) <==> class
            == QueryKind::Deletion.source_text(),
        class == QueryKind::Operation.source_text() ==> kind_of_class(class) is None,
{
    reveal_strlit("__InstanceCreationEvent");
    reveal_strlit("__InstanceDeletionEvent");
    reveal_strlit("__InstanceOperationEvent");
    assert("__InstanceCreationEvent"@[10] == 'C');
    assert("__InstanceDeletionEvent"@[10] == 'D');
    assert("__InstanceOperationEvent"@[10] == 'O');
}

/// A text is handed on character for character; a value that is no text has its placeholder, or
/// nothing.
pub proof fn law_property_texts(property: Property, text: String)
    requires
        call_ensures(prop_string, (&property,), text),
    ensures
        property matches Property::Text(value) ==> text@ == value@,
        property is Null ==> text@ == "NULL"@,
        property is Empty ==> text@ == "EMPTY"@,
        property is Unreadable || property is Other ==> text@.len() == 0,
{
}

/// A value is told by its type code: 0 for none, 1 for null, 8 for a text, 13 for an object, and
/// nothing else is any of these.
pub proof fn law_value_kinds(code: u16, kind: ValueKind)
    requires
        call_ensures(value_kind, (code,), kind),
    ensures
        kind == ValueKind::Empty <==> code == 0,
        kind == ValueKind::Null <==> code == 1,
        kind == ValueKind::Text <==> code == 8,
        kind == ValueKind::Object <==> code == 13,
        kind == ValueKind::Other <==> code != 0 && code != 1 && code != 8 && code != 13,
{
}

/// The callback gets the texts of an event in one order: what happened, the name of the process,
/// its identifier, its path.
pub proof fn law_callback_arguments(
    event: ProcessEvent,
    args: (&'static str, String, String, String),
)
    requires
        call_ensures(ProcessEvent::into_args, (event,), args),
    ensures
        args.0@ == event.event@,
        args.1@ == event.process@,
        args.2@ == event.pid@,
        args.3@ == event.filepath@,
{
}

/// An object reports a creation or a deletion exactly where its class has the one name that
/// stands for it.
pub proof fn law_class_names(class: String, kind: Option<EventKind>)
    requires
        call_ensures(event_kind, (&class,), kind),
    ensures
        kind == Some(EventKind::Creation) <==> class@ == "__InstanceCreationEvent"@,
        kind == Some(EventKind::Deletion) <==> class@ == "__InstanceDeletionEvent"@,
{
    law_reported_classes(class@);
}

/// Each kind of event has its own name.
pub proof fn law_event_names(kind: EventKind, name: &'static str)
    requires
        call_ensures(EventKind::name, (kind,), name),
    ensures
        kind == EventKind::Creation ==> name@ == "creation"@,
        kind == EventKind::Deletion ==> name@ == "deletion"@,
{
}

/// A path that the system gives in UTF-16 comes out character for character; without one the
/// path is empty.
pub proof fn law_image_path_texts(image: ProcessImage, text: Seq<char>, path: String)
    requires
        call_ensures(process_image_path, (&image,), path),
        image matches ProcessImage::Path(units) ==> units@ == utf16(text),
    ensures
        image is Path ==> path@ == text,
        image is NotOpened || image is NotNamed ==> path@.len() == 0,
{
    law_decoding_undoes_encoding(text);
}

/// A path can be cut between any two code units that are no surrogate pair: its text is the text
/// of the first part, then that of the second.
pub proof fn law_image_path_parts(
    first: Vec<u16>,
    second: Vec<u16>,
    whole: Vec<u16>,
    first_text: String,
    second_text: String,
    text: String,
)
    requires
        call_ensures(process_image_path, (&ProcessImage::Path(first),), first_text),
        call_ensures(process_image_path, (&ProcessImage::Path(second),), second_text),
        call_ensures(process_image_path, (&ProcessImage::Path(whole),), text),
        whole@ == first@ + second@,
        first@.len() > 0 && second@.len() > 0 ==> !(0xD800 <= first@.last() <= 0xDBFF && 0xDC00
            <= second@[0] <= 0xDFFF),
    ensures
        text@ == first_text@ + second_text@,
{
    lemma_decoded_parts(first@, second@);
}

/// A code unit by itself is the character of its code, or the replacement character where it is
/// half of a surrogate pair.
pub proof fn law_image_path_units(unit: u16, units: Vec<u16>, text: String)
    requires
        call_ensures(process_image_path, (&ProcessImage::Path(units),), text),
        units@ == seq![unit],
    ensures
        unit < 0xD800 || unit > 0xDFFF ==> text@ == seq![unit as char],
        0xD800 <= unit <= 0xDFFF ==> text@ == seq!['\u{FFFD}'],
{
    assert(units@.skip(1) =~= Seq::empty());
    assert(decoded(units@.skip(1)) == Seq::<char>::empty());
}

/// A surrogate pair is one character, whose code has ten bits from each of the two.
pub proof fn law_image_path_pairs(high: u16, low: u16, units: Vec<u16>, text: String)
    requires
        call_ensures(process_image_path, (&ProcessImage::Path(units),), text),
        units@ == seq![high, low],
        0xD800 <= high <= 0xDBFF,
        0xDC00 <= low <= 0xDFFF,
    ensures
        text@ == seq![(0x10000 + (high - 0xD800) * 0x400 + (low - 0xDC00)) as char],
{
    assert(units@.skip(2) =~= Seq::empty());
    assert(decoded(units@.skip(2)) == Seq::<char>::empty());
}

proof fn lemma_decoded_parts(first: Seq<u16>, second: Seq<u16>)
    requires
        first.len() > 0 && second.len() > 0 ==> !(is_high_surrogate(first.last())
            && is_low_surrogate(second[0])),
    ensures
        decoded(first + second) == decoded(first) + decoded(second),
    decreases first.len(),
{
    let whole = first + second;
    if first.len() == 0 {
        assert(whole =~= second);
        assert(decoded(first) + decoded(second) =~= decoded(second));
    } else {
        let step: int = if is_high_surrogate(first[0]) && first.len() > 1 && is_low_surrogate(
            first[1],
        ) {
            2
        } else {
            1
        };
        lemma_decoded_parts(first.skip(step), second);
        assert(whole.skip(step) =~= first.skip(step) + second);
        assert(whole[0] == first[0]);
        if first.len() > 1 {
            assert(whole[1] == first[1]);
        } else if second.len() > 0 {
            assert(whole[1] == second[0]);
        }
        assert(decoded(whole) =~= decoded(first) + decoded(second));
    }
}

/// An object of a created process leads to its image and then to its event. For every process
/// identifier from 1 to the largest of 32 bits the image that is looked up is the one of exactly
/// that process, and the event has the name and the identifier as they were read and the path
/// that the system gave.
pub proof fn law_creations_get_the_path_of_their_process<O>(
    class: String,
    object: O,
    name: Property,
    handle: String,
    id: u32,
    image: ProcessImage,
    classed: Extraction<O>,
    targeted: Extraction<O>,
    identified: Extraction<O>,
    finished: Extraction<O>,
    name_text: String,
    path: String,
)
    requires
        class@ == "__InstanceCreationEvent"@,
        handle@ == decimal_text(id as nat),
        id >= 1,
        call_ensures(
            Extraction::<O>::next,
            (Extraction::Class, Reading::Class(Property::Text(class))),
            classed,
        ),
        call_ensures(
            Extraction::<O>::next,
            (classed, Reading::Target(Target::Object(object))),
            targeted,
        ),
        call_ensures(
            Extraction::<O>::next,
            (targeted, Reading::Process { name, handle: Property::Text(handle) }),
            identified,
        ),
        call_ensures(Extraction::<O>::next, (identified, Reading::Image(image)), finished),
        call_ensures(prop_string, (&name,), name_text),
        call_ensures(process_image_path, (&image,), path),
    ensures
        targeted matches Extraction::Process(_, process) && process == object,
        identified matches Extraction::Image { id: found, process, pid } && {
            &&& found == id
            &&& process@ == name_text@
            &&& pid@ == handle@
        },
        finished matches Extraction::Finished(Some(event)) && {
            &&& event.event@ == "creation"@
            &&& event.process@ == name_text@
            &&& event.pid@ == handle@
            &&& event.filepath@ == path@
        },
{
    lemma_decimal_text_is_read(id);
}

/// What a process object leads to rests on the kind of its event and on its identifier as a
/// number: the image of the process for a creation whose identifier is a number other than
/// zero, else the event at once, without a path.
pub proof fn law_processes_are_identified_by_number<O>(
    kind: EventKind,
    object: O,
    name: Property,
    handle: Property,
    name_text: String,
    handle_text: String,
    digits: &str,
    number: Option<u32>,
    next: Extraction<O>,
)
    requires
        call_ensures(
            Extraction::<O>::next,
            (Extraction::Process(kind, object), Reading::Process { name, handle }),
            next,
        ),
        call_ensures(prop_string, (&name,), name_text),
        call_ensures(prop_string, (&handle,), handle_text),
        call_ensures(parse_u32, (digits,), number),
        digits@ == handle_text@,
    ensures
        kind == EventKind::Creation && number is Some && number->Some_0 != 0 ==> (
        next matches Extraction::Image { id, process, pid } && {
            &&& id == number->Some_0
            &&& process@ == name_text@
            &&& pid@ == handle_text@
        }),
        kind == EventKind::Deletion || number is None || number->Some_0 == 0 ==> (
        next matches Extraction::Finished(Some(event)) && {
            &&& event.event@ == (if kind == EventKind::Creation {
                "creation"@
            } else {
                "deletion"@
            })
            &&& event.process@ == name_text@
            &&& event.pid@ == handle_text@
            &&& event.filepath@.len() == 0
        }),
{
}

/// The object of a process that ended is reported at once, without a look at its image, whatever
/// its identifier is.
pub proof fn law_deletions_are_reported_at_once<O>(
    class: String,
    object: O,
    name: Property,
    handle: Property,
    classed: Extraction<O>,
    targeted: Extraction<O>,
    finished: Extraction<O>,
    name_text: String,
    handle_text: String,
)
    requires
        class@ == "__InstanceDeletionEvent"@,
        call_ensures(
            Extraction::<O>::next,
            (Extraction::Class, Reading::Class(Property::Text(class))),
            classed,
        ),
        call_ensures(
            Extraction::<O>::next,
            (classed, Reading::Target(Target::Object(object))),
            targeted,
        ),
        call_ensures(
            Extraction::<O>::next,
            (targeted, Reading::Process { name, handle }),
            finished,
        ),
        call_ensures(prop_string, (&name,), name_text),
        call_ensures(prop_string, (&handle,), handle_text),
    ensures
        targeted matches Extraction::Process(_, process) && process == object,
        finished matches Extraction::Finished(Some(event)) && {
            &&& event.event@ == "deletion"@
            &&& event.process@ == name_text@
            &&& event.pid@ == handle_text@
            &&& event.filepath@.len() == 0
        },
{
    law_reported_classes(class@);
}

/// An object of any other class is ignored, and so is one whose class is no text.
pub proof fn law_other_classes_are_ignored<O>(class: Property, text: String, next: Extraction<O>)
    requires
        call_ensures(Extraction::<O>::next, (Extraction::Class, Reading::Class(class)), next),
        call_ensures(prop_string, (&class,), text),
    ensures
        text@ != "__InstanceCreationEvent"@ && text@ != "__InstanceDeletionEvent"@ ==> next
            == Extraction::<O>::Finished(None),
        !(class is Text) ==> next == Extraction::<O>::Finished(None),
{
    reveal_strlit("__InstanceCreationEvent");
    reveal_strlit("__InstanceDeletionEvent");
    reveal_strlit("NULL");
    reveal_strlit("EMPTY");
    if !(class is Text) {
        assert(text@.len() < 10);
    }
}

/// Without a process object there is nothing to report; with one it is the object that is read
/// next, for the same kind of event.
pub proof fn law_targets<O>(kind: EventKind, target: Target<O>, next: Extraction<O>)
    requires
        call_ensures(
            Extraction::<O>::next,
            (Extraction::Target(kind), Reading::Target(target)),
            next,
        ),
    ensures
        target matches Target::Object(object) ==> next == Extraction::Process(kind, object),
        !(target is Object) ==> next == Extraction::<O>::Finished(None),
{
}

/// A reading that is not due changes nothing.
pub proof fn law_undue_readings_change_nothing<O>(
    state: Extraction<O>,
    reading: Reading<O>,
    next: Extraction<O>,
)
    requires
        call_ensures(Extraction::<O>::next, (state, reading), next),
        reading is Class ==> !(state is Class),
        reading is Target ==> !(state is Target),
        reading is Process ==> !(state is Process),
        reading is Image ==> !(state is Image),
    ensures
        state is Class ==> next is Class,
        state matches Extraction::Target(kind) ==> next == Extraction::<O>::Target(kind),
        state matches Extraction::Process(kind, object) ==> next == Extraction::Process(
            kind,
            object,
        ),
        state matches Extraction::Image { id, process, pid } ==> (
        next matches Extraction::Image { id: later_id, process: later_process, pid: later_pid } && {
            &&& later_id == id
            &&& later_process@ == process@
            &&& later_pid@ == pid@
        }),
        state matches Extraction::Finished(None) ==> next == Extraction::<O>::Finished(None),
        state matches Extraction::Finished(Some(event)) ==> (
        next matches Extraction::Finished(Some(later)) && {
            &&& later.event@ == event.event@
            &&& later.process@ == event.process@
            &&& later.pid@ == event.pid@
            &&& later.filepath@ == event.filepath@
        }),
{
}

} // verus!
