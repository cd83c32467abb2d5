use vstd::prelude::*;

verus! {

/// The name under which the system sounds session is configured.
pub open spec fn system_sounds_name_spec() -> Seq<char> {
    seq!['S', 'y', 's', 't', 'e', 'm', ' ', 'S', 'o', 'u', 'n', 'd', 's']
}

/// The name under which the system sounds session is configured.
pub fn system_sounds_name() -> (result: String)
    ensures
        result@ == system_sounds_name_spec(),
{
    let name = "System Sounds";
    proof {
        reveal_strlit("System Sounds");
    }
    let result = name.to_owned();
    assert(result@ =~= system_sounds_name_spec());
    result
}

/// Whether a session with this display name is named after its process instead.
pub fn needs_process_name(display_name: &str) -> (result: bool)
    ensures
        result == (display_name@.len() == 0),
{
    display_name.is_empty()
}

/// The name of a session that is not the system sounds session: its display
/// name, or, when that is empty, the name of its process when there is one.
pub open spec fn session_name_spec(display_name: Seq<char>, process_name: Option<Seq<char>>) -> Seq<char> {
    if display_name.len() == 0 {
        match process_name {
            Some(p) => p,
            None => display_name,
        }
    } else {
        display_name
    }
}

/// Picks the name a session is configured under from its display name and,
/// when that is empty, the name of its process.
pub fn session_name(display_name: String, process_name: Option<String>) -> (result: String)
    ensures
        result@ == session_name_spec(
            display_name@,
            match process_name {
                Some(p) => Some(p@),
                None => None,
            },
        ),
        display_name@.len() > 0 ==> result@ == display_name@,
        display_name@.len() == 0 ==> match process_name {
            Some(p) => result@ == p@,
            None => result@.len() == 0,
        },
{
    if display_name.as_str().is_empty() {
        match process_name {
            Some(p) => p,
            None => display_name,
        }
    } else {
        display_name
    }
}

/// A session with a display name is configured under that name, whatever its
/// process is called; a session without one is configured under the name of
/// its process when there is one, and under the empty name otherwise.
pub proof fn law_display_name_first(display_name: Seq<char>, process_name: Option<Seq<char>>)
    ensures
        display_name.len() > 0 ==> session_name_spec(display_name, process_name) == display_name,
        display_name.len() == 0 ==> session_name_spec(display_name, process_name) == (match process_name {
            Some(p) => p,
            None => Seq::<char>::empty(),
        }),
{
    if display_name.len() == 0 {
        assert(display_name =~= Seq::<char>::empty());
    }
}

/// The events handler registered on a session, if any.  `H` is the handler.
pub struct EventHandlerSlot<H> {
    events_handler: Option<H>,
}

impl<H> View for EventHandlerSlot<H> {
    type V = Option<H>;

    closed spec fn view(&self) -> Option<H> {
        self.events_handler
    }
}

impl<H> EventHandlerSlot<H> {
    /// A session with no handler registered.
    pub fn new() -> (result: Self)
        ensures
            result@ is None,
    {
        EventHandlerSlot { events_handler: None }
    }

    /// Whether a handler is to be registered: only while none is.
    pub fn needs_registration(&self) -> (result: bool)
        ensures
            result == self@ is None,
    {
        self.events_handler.is_none()
    }

    /// Keeps the handler that was just registered.
    pub fn store(&mut self, handler: H)
        ensures
            final(self)@ == Some(handler),
    {
        self.events_handler = Some(handler);
    }

    /// The handler that is registered, if any.
    pub fn registered(&self) -> (result: Option<&H>)
        ensures
            match result {
                Some(h) => self@ == Some(*h),
                None => self@ is None,
            },
    {
        match &self.events_handler {
            Some(h) => Some(h),
            None => None,
        }
    }

    /// Forgets the handler once it has been unregistered, and hands it back.
    pub fn take(&mut self) -> (result: Option<H>)
        ensures
            result == old(self)@,
            final(self)@ is None,
    {
        let result = self.events_handler.take();
        result
    }
}

} // verus!
