//! The events that are announced to hooks, and their registration.
use vstd::prelude::*;

verus! {

/// The kinds of events.
#[derive(Clone, Copy, Debug, PartialEq, Eq, Structural)]
pub enum EventKind {
    OnModeSwitch,
    PostInsertChar,
    PostCommand,
    DocumentDidOpen,
    DocumentDidChange,
    DocumentDidClose,
    DocumentFocusLost,
    SelectionDidChange,
    DiagnosticsDidChange,
    LanguageServerInitialized,
    LanguageServerExited,
    ConfigDidChange,
}

/// All kinds, in the order in which they are registered.
pub open spec fn all_events() -> Seq<EventKind> {
    seq![
        EventKind::OnModeSwitch,
        EventKind::PostInsertChar,
        EventKind::PostCommand,
        EventKind::DocumentDidOpen,
        EventKind::DocumentDidChange,
        EventKind::DocumentDidClose,
        EventKind::DocumentFocusLost,
        EventKind::SelectionDidChange,
        EventKind::DiagnosticsDidChange,
        EventKind::LanguageServerInitialized,
        EventKind::LanguageServerExited,
        EventKind::ConfigDidChange,
    ]
}

/// The kinds of events that are known to hooks.
pub struct EventRegistry {
    /// What was registered, in order.
    pub registered: Vec<EventKind>,
    /// Whether [`register`] has run.
    pub done: bool,
}

impl EventRegistry {
    /// No kind is registered twice, and all are registered once [`register`] has run; before
    /// that, none of them is.
    pub open spec fn wf(self) -> bool {
        &&& self.registered@.no_duplicates()
        &&& self.registered@ == (if self.done {
            all_events()
        } else {
            Seq::empty()
        })
    }

    /// A registry without events.
    pub fn new() -> (registry: EventRegistry)
        ensures
            registry.wf(),
            !registry.done,
    {
        EventRegistry { registered: Vec::new(), done: false }
    }

    /// Registers one kind of event, which must not be registered yet.
    fn register_event(&mut self, event: EventKind)
        requires
            !old(self).registered@.contains(event),
        ensures
            final(self).registered@ == old(self).registered@.push(event),
            final(self).done == old(self).done,
    {
        self.registered.push(event);
    }
}

/// How a registration changes the registry, and which kinds it registers: all of them the
/// first time, and none after that.
pub open spec fn registers(
    before: EventRegistry,
    after: EventRegistry,
    registered: Seq<EventKind>,
) -> bool {
    &&& after.wf()
    &&& after.done
    &&& after.registered@ == all_events()
    &&& registered == (if before.done {
        Seq::empty()
    } else {
        all_events()
    })
}

/// Registers all events, unless that was done before: repeated calls do nothing. Returns the
/// kinds that were registered by this call.
pub fn register(registry: &mut EventRegistry) -> (registered: Vec<EventKind>)
    requires
        old(registry).wf(),
    ensures
        registers(*old(registry), *final(registry), registered@),
{
    let mut registered: Vec<EventKind> = Vec::new();
    if registry.done {
        return registered;
    }
    registered.push(EventKind::OnModeSwitch);
    registered.push(EventKind::PostInsertChar);
    registered.push(EventKind::PostCommand);
    registered.push(EventKind::DocumentDidOpen);
    registered.push(EventKind::DocumentDidChange);
    registered.push(EventKind::DocumentDidClose);
    registered.push(EventKind::DocumentFocusLost);
    registered.push(EventKind::SelectionDidChange);
    registered.push(EventKind::DiagnosticsDidChange);
    registered.push(EventKind::LanguageServerInitialized);
    registered.push(EventKind::LanguageServerExited);
    registered.push(EventKind::ConfigDidChange);
    assert(registered@ =~= all_events());
    let mut i: usize = 0;
    while i < registered.len()
        invariant
            i <= registered@.len(),
            registered@ == all_events(),
            registry.registered@ == all_events().take(i as int),
            !registry.done,
        decreases registered@.len() - i,
    {
        registry.register_event(registered[i]);
        i = i + 1;
        assert(all_events().take(i as int) =~= all_events().take(i - 1).push(all_events()[i - 1]));
    }
    assert(all_events().take(i as int) =~= all_events());
    registry.done = true;
    registered
}

/// Repeating the registration does nothing: of any number of calls in a row only the first one
/// registers anything, so that no event is registered twice.
pub proof fn only_the_first_registration_counts(
    registries: Seq<EventRegistry>,
    registered: Seq<Seq<EventKind>>,
    i: int,
)
    requires
        registries.len() == registered.len() + 1,
        forall|k: int|
            0 <= k < registered.len() ==> registers(
                registries[k],
                registries[k + 1],
                #[trigger] registered[k],
            ),
        0 < i < registered.len(),
    ensures
        registered[i] == Seq::<EventKind>::empty(),
        registries[i + 1].registered@ == registries[i].registered@,
        registries[i].registered@.no_duplicates(),
{
    assert(registers(registries[i - 1], registries[i], registered[i - 1]));
    assert(registers(registries[i], registries[i + 1], registered[i]));
}

/// No kind of event is forgotten, and none is registered twice.
pub proof fn every_kind_is_registered(event: EventKind)
    ensures
        all_events().contains(event),
        all_events().no_duplicates(),
{
    let all = all_events();
    assert(all[0] == EventKind::OnModeSwitch && all[1] == EventKind::PostInsertChar);
    assert(all[2] == EventKind::PostCommand && all[3] == EventKind::DocumentDidOpen);
    assert(all[4] == EventKind::DocumentDidChange && all[5] == EventKind::DocumentDidClose);
    assert(all[6] == EventKind::DocumentFocusLost && all[7] == EventKind::SelectionDidChange);
    assert(all[8] == EventKind::DiagnosticsDidChange);
    assert(all[9] == EventKind::LanguageServerInitialized);
    assert(all[10] == EventKind::LanguageServerExited && all[11] == EventKind::ConfigDidChange);
}

/// What a registration does: after it, each kind is registered, whatever was before; it registers
/// each kind itself unless an earlier one has run.
pub proof fn registration_is_complete(
    before: EventRegistry,
    after: EventRegistry,
    registered: Seq<EventKind>,
    event: EventKind,
)
    requires
        registers(before, after, registered),
    ensures
        after.done,
        after.registered@.contains(event),
        after.registered@.no_duplicates(),
        registered.contains(event) <==> !before.done,
        registered.no_duplicates(),
{
    every_kind_is_registered(event);
}

} // verus!
