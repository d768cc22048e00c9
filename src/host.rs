//! The values that cross between a presentation layer and the timer: the
//! argument of a command, and the input events from which a new duration is
//! read.
use vstd::prelude::*;

verus! {

/// A dynamically typed value handed across the boundary: undefined, a
/// number of seconds, or a text.
pub struct JsValue {
    number: Option<u32>,
    text: Option<String>,
}

impl JsValue {
    /// The number this value holds, if it is a number.
    pub closed spec fn number_of(&self) -> Option<u32> {
        self.number
    }

    /// The text this value holds, if it is a text.
    pub closed spec fn text_of(&self) -> Option<Seq<char>> {
        match self.text {
            Some(t) => Some(t@),
            None => None,
        }
    }

    /// Whether this is the undefined value.
    pub open spec fn holds_nothing(&self) -> bool {
        self.number_of() is None && self.text_of() is None
    }

    /// A value holds at most one of a number and a text.
    pub open spec fn wf(&self) -> bool {
        !(self.number_of() is Some && self.text_of() is Some)
    }

    /// The undefined value.
    pub fn undefined() -> (r: JsValue)
        ensures
            r.holds_nothing(),
            r.wf(),
    {
        JsValue { number: None, text: None }
    }

    /// A text value.
    pub fn from_str(s: &str) -> (r: JsValue)
        ensures
            r.number_of() is None,
            r.text_of() == Some(s@),
            r.wf(),
    {
        JsValue { number: None, text: Some(s.to_owned()) }
    }

    /// A number value.
    pub fn from(n: u32) -> (r: JsValue)
        ensures
            r.number_of() == Some(n),
            r.text_of() is None,
            r.wf(),
    {
        JsValue { number: Some(n), text: None }
    }

    /// Whether this is the undefined value.
    pub fn is_undefined(&self) -> (r: bool)
        ensures
            r == self.holds_nothing(),
    {
        self.number.is_none() && self.text.is_none()
    }

    /// The number this value holds, if it is a number.
    pub fn as_number(&self) -> (r: Option<u32>)
        ensures
            r == self.number_of(),
    {
        self.number
    }

    /// The text this value holds, if it is a text.
    pub fn as_string(&self) -> (r: Option<String>)
        ensures
            r is Some <==> self.text_of() is Some,
            r matches Some(t) ==> self.text_of() == Some(t@),
    {
        match &self.text {
            Some(t) => Some(t.clone()),
            None => None,
        }
    }

    /// A copy of this value.
    pub fn duplicate(&self) -> (r: JsValue)
        ensures
            r.number_of() == self.number_of(),
            r.text_of() == self.text_of(),
    {
        JsValue { number: self.number, text: self.as_string() }
    }
}

/// A text input field of the presentation layer.
pub struct HtmlInputElement {
    value: String,
}

impl HtmlInputElement {
    /// The text the field holds.
    pub closed spec fn value_of(&self) -> Seq<char> {
        self.value@
    }

    /// A field holding `value`.
    pub fn new(value: &str) -> (r: HtmlInputElement)
        ensures
            r.value_of() == value@,
    {
        HtmlInputElement { value: value.to_owned() }
    }

    /// The text the field holds.
    pub fn value(&self) -> (r: String)
        ensures
            r@ == self.value_of(),
    {
        self.value.clone()
    }
}

/// The element an event was dispatched to: an input field, or an element
/// of another kind.
pub struct EventTarget {
    input: Option<HtmlInputElement>,
}

impl EventTarget {
    /// The text of the input field this target is, if it is one.
    pub closed spec fn input_value_of(&self) -> Option<Seq<char>> {
        match self.input {
            Some(e) => Some(e.value_of()),
            None => None,
        }
    }

    /// A target that is the input field `element`.
    pub fn from_input(element: HtmlInputElement) -> (r: EventTarget)
        ensures
            r.input_value_of() == Some(element.value_of()),
    {
        EventTarget { input: Some(element) }
    }

    /// A target that is no input field.
    pub fn other() -> (r: EventTarget)
        ensures
            r.input_value_of() is None,
    {
        EventTarget { input: None }
    }

    /// This target as an input field, if it is one.
    pub fn as_input(&self) -> (r: Option<HtmlInputElement>)
        ensures
            r is Some <==> self.input_value_of() is Some,
            r matches Some(e) ==> self.input_value_of() == Some(e.value_of()),
    {
        match &self.input {
            Some(e) => Some(HtmlInputElement { value: e.value.clone() }),
            None => None,
        }
    }
}

/// An event of the presentation layer: the element it was dispatched to, if
/// any, and the value it carries.
pub struct Event {
    target: Option<EventTarget>,
    detail: JsValue,
}

impl Event {
    /// The text of the input field the event was dispatched to, if it was
    /// dispatched to one.
    pub closed spec fn input_value_of(&self) -> Option<Seq<char>> {
        match self.target {
            Some(t) => t.input_value_of(),
            None => None,
        }
    }

    /// Whether the event was dispatched to an element.
    pub closed spec fn has_target(&self) -> bool {
        self.target is Some
    }

    /// The value the event carries.
    pub closed spec fn detail_of(&self) -> JsValue {
        self.detail
    }

    /// An event dispatched to `target`, carrying `detail`.
    pub fn new(target: Option<EventTarget>, detail: JsValue) -> (r: Event)
        ensures
            r.has_target() == target is Some,
            r.input_value_of() == (match target {
                Some(t) => t.input_value_of(),
                None => None,
            }),
            r.detail_of() == detail,
    {
        Event { target, detail }
    }

    /// The element the event was dispatched to.
    pub fn target(&self) -> (r: Option<EventTarget>)
        ensures
            r is Some <==> self.has_target(),
            r is None ==> self.input_value_of() is None,
            r matches Some(t) ==> t.input_value_of() == self.input_value_of(),
    {
        match &self.target {
            Some(t) => Some(EventTarget { input: t.as_input() }),
            None => None,
        }
    }

    /// The value the event carries.
    pub fn detail(&self) -> (r: JsValue)
        ensures
            r.number_of() == self.detail_of().number_of(),
            r.text_of() == self.detail_of().text_of(),
    {
        self.detail.duplicate()
    }
}

} // verus!
