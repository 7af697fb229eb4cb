use vstd::prelude::*;

verus! {

/// Event class of Internet events (`'GURL'`).
#[allow(non_upper_case_globals)]
pub const kInternetEventClass: u32 = 0x4755524c;

/// Event id of a request to open a URL (`'GURL'`).
#[allow(non_upper_case_globals)]
pub const kAEGetURL: u32 = 0x4755524c;

/// Keyword of an event's direct-object parameter (`'----'`).
#[allow(non_upper_case_globals)]
pub const keyDirectObject: u32 = 0x2d2d2d2d;

/// The parts of a native Apple event that URL handling reads.
#[derive(Debug, Clone, PartialEq, Eq)]
pub struct AppleEventDescriptor {
    /// The event's class tag.
    pub event_class: u32,
    /// The event's id tag.
    pub event_id: u32,
    /// The string value of the direct-object parameter, if it has one.
    pub direct_object: Option<String>,
}

/// The URL that an event carries, or the empty text when there is no event,
/// the event is not a get-URL event, or it has no direct object.
pub open spec fn url_of(event: Option<AppleEventDescriptor>) -> Seq<char> {
    match event {
        Some(e) => if e.event_class == kInternetEventClass && e.event_id == kAEGetURL {
            match e.direct_object {
                Some(s) => s@,
                None => Seq::empty(),
            }
        } else {
            Seq::empty()
        },
        None => Seq::empty(),
    }
}

/// The URL of a get-URL Apple event. `None` stands for a null event.
pub fn parse_url_event(event: Option<&AppleEventDescriptor>) -> (r: String)
    ensures
        r@ == url_of(
            match event {
                Some(e) => Some(*e),
                None => None,
            },
        ),
{
    match event {
        Some(e) => {
            if e.event_class != kInternetEventClass || e.event_id != kAEGetURL {
                return String::new();
            }
            match &e.direct_object {
                Some(s) => s.clone(),
                None => String::new(),
            }
        },
        None => String::new(),
    }
}

} // verus!
