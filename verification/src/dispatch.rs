//! The event path: classify a raw message into semantic events, resolve the
//! overloaded command notification against the originating control's type,
//! and compute the ordered callback invocation plan for one dispatch.
//!
//! The host glue performs the system calls (window-rectangle and combo-box
//! queries before dispatch, running the registered closures and forwarding
//! the message to the default handler after it) and hands this module plain
//! values.

use vstd::prelude::*;

use crate::constants::{
    BN_CLICKED, BN_KILLFOCUS, BN_SETFOCUS, CBN_CLOSEUP, CBN_DROPDOWN, CBN_KILLFOCUS,
    CBN_SELCHANGE, CBN_SETFOCUS, EN_CHANGE, EN_KILLFOCUS, EN_MAXTEXT, EN_SETFOCUS,
    NWG_DESTROY_NOTICE, STN_CLICKED, WM_ACTIVATEAPP, WM_COMMAND, WM_LBUTTONDOWN, WM_LBUTTONUP,
    WM_MBUTTONDOWN, WM_MBUTTONUP, WM_RBUTTONDOWN, WM_RBUTTONUP, WM_SIZE, WM_SIZING,
};
use crate::events::{ControlType, Event};
use crate::payload::{
    button_mask, handle_btn, handle_sizing, modifier_mask, mouse_x, mouse_y, Rect,
};
use crate::registry::{lemma_lookup_wf, lemma_regs_matching_none, ControlRegistry, ControlTreeEntry};
use crate::text::{decoded_text, get_combobox_selection};

verus! {

/// Typed payload a callback receives, tagged by the shape its event
/// guarantees.  Invoking a callback with a mismatched shape is a
/// programming-contract violation, so the extractors are only reachable
/// for the event kinds they support.
#[derive(Clone, Debug, PartialEq)]
pub enum Payload {
    /// Mouse coordinates, button mask and modifier mask.
    Mouse { x: i32, y: i32, buttons: u32, modifiers: u32 },
    /// Events whose callbacks take no payload.
    Plain,
    /// Focus gained or lost.
    Focus { gained: bool },
    /// Origin and extents after or during a resize.
    Resize { x: i32, y: i32, width: u32, height: u32 },
    /// Selected combo-box index and decoded label text.
    Selection { index: u32, text: String },
}

/// Mathematical model of a payload: text as a character sequence.
pub enum PayloadModel {
    Mouse { x: i32, y: i32, buttons: u32, modifiers: u32 },
    Plain,
    Focus { gained: bool },
    Resize { x: i32, y: i32, width: u32, height: u32 },
    Selection { index: u32, text: Seq<char> },
}

impl View for Payload {
    type V = PayloadModel;

    open spec fn view(&self) -> PayloadModel {
        match self {
            Payload::Mouse { x, y, buttons, modifiers } => PayloadModel::Mouse {
                x: *x,
                y: *y,
                buttons: *buttons,
                modifiers: *modifiers,
            },
            Payload::Plain => PayloadModel::Plain,
            Payload::Focus { gained } => PayloadModel::Focus { gained: *gained },
            Payload::Resize { x, y, width, height } => PayloadModel::Resize {
                x: *x,
                y: *y,
                width: *width,
                height: *height,
            },
            Payload::Selection { index, text } => PayloadModel::Selection {
                index: *index,
                text: text@,
            },
        }
    }
}

/// One planned callback invocation: the registration key the callback was
/// bound under, the owning identifier of the control, the event, and the
/// payload the callback receives.
#[derive(Clone, Debug, PartialEq)]
pub struct Invocation {
    pub key: u64,
    pub owner: u64,
    pub event: Event,
    pub payload: Payload,
}

/// Mathematical model of an invocation.
pub struct InvocationModel {
    pub key: u64,
    pub owner: u64,
    pub event: Event,
    pub payload: PayloadModel,
}

impl View for Invocation {
    type V = InvocationModel;

    open spec fn view(&self) -> InvocationModel {
        InvocationModel { key: self.key, owner: self.owner, event: self.event, payload: self.payload@ }
    }
}

/// Host-queried inputs of one dispatch: the current window rectangle (read
/// from the in-progress resize message's parameters, or queried from the
/// host for a completed resize) and the combo box's selected index and raw
/// label buffer.
pub struct HostContext {
    pub window_rect: Rect,
    pub combo_index: u32,
    pub combo_label: Vec<u16>,
}

/// The command sub-code packed into the high word of the first parameter.
pub open spec fn hiword(w: u64) -> u16 {
    ((w as u32) >> 16u32) as u16
}

/// Whether a raw message that resolved to a Focus event reports the focus as
/// gained: for overloaded commands, by which set-focus sub-code fired; for
/// application activation, by the low bit of the first parameter.
pub open spec fn focus_gained(msg: u32, w: u64) -> bool {
    if msg == WM_COMMAND {
        hiword(w) == BN_SETFOCUS || hiword(w) == EN_SETFOCUS || hiword(w) == CBN_SETFOCUS
    } else {
        w & 1 == 1
    }
}

/// The per-type-family command table: the semantic events a command
/// sub-code resolves to for a control of the given type, or nothing where
/// the sub-code means nothing for that type.
pub open spec fn command_match(ct: ControlType, code: u16) -> Option<Seq<Event>> {
    match ct {
        ControlType::Button | ControlType::CheckBox | ControlType::GroupBox
            | ControlType::RadioButton => if code == BN_SETFOCUS || code == BN_KILLFOCUS {
            Some(seq![Event::Focus])
        } else if code == BN_CLICKED {
            Some(seq![Event::Click])
        } else {
            None
        },
        ControlType::TextInput => if code == EN_SETFOCUS || code == EN_KILLFOCUS {
            Some(seq![Event::Focus])
        } else if code == EN_CHANGE {
            Some(seq![Event::ValueChanged])
        } else if code == EN_MAXTEXT {
            Some(seq![Event::MaxValue])
        } else {
            None
        },
        ControlType::ComboBox => if code == CBN_SETFOCUS || code == CBN_KILLFOCUS {
            Some(seq![Event::Focus])
        } else if code == CBN_CLOSEUP {
            Some(seq![Event::MenuClose])
        } else if code == CBN_DROPDOWN {
            Some(seq![Event::MenuOpen])
        } else if code == CBN_SELCHANGE {
            Some(seq![Event::ValueChanged, Event::SelectionChanged])
        } else {
            None
        },
        ControlType::Label => if code == STN_CLICKED {
            Some(seq![Event::Click])
        } else {
            None
        },
        _ => None,
    }
}

/// Classification of a raw message: the semantic events it resolves to and
/// the handle dispatch resolves them against.  A matched command resolves to
/// the originating control's handle; everything else keeps the message's
/// nominal target.
pub open spec fn classify(reg: ControlRegistry, hwnd: u64, msg: u32, w: u64, l: u64) -> (Seq<
    Event,
>, u64) {
    if msg == WM_COMMAND {
        match reg.spec_lookup(l) {
            None => (seq![Event::Unknown], hwnd),
            Some(entry) => match command_match(entry.control_type, hiword(w)) {
                Some(events) => (events, l),
                None => (seq![Event::Unknown], hwnd),
            },
        }
    } else if msg == WM_LBUTTONUP || msg == WM_RBUTTONUP || msg == WM_MBUTTONUP {
        (seq![Event::MouseUp], hwnd)
    } else if msg == WM_LBUTTONDOWN || msg == WM_RBUTTONDOWN || msg == WM_MBUTTONDOWN {
        (seq![Event::MouseDown], hwnd)
    } else if msg == WM_ACTIVATEAPP {
        (seq![Event::Focus], hwnd)
    } else if msg == WM_SIZING || msg == WM_SIZE {
        (seq![Event::Resize], hwnd)
    } else if msg == NWG_DESTROY_NOTICE {
        (seq![Event::Removed], hwnd)
    } else {
        (seq![Event::Unknown], hwnd)
    }
}

/// The payload a given event carries for the given raw message and host
/// inputs.  The resize payload depends only on the rectangle, never on which
/// of the two resize message kinds fired.
pub open spec fn payload_spec(
    e: Event,
    msg: u32,
    w: u64,
    l: u64,
    rect: Rect,
    sel_index: u32,
    sel_label: Seq<u16>,
) -> PayloadModel {
    match e {
        Event::MouseUp | Event::MouseDown => PayloadModel::Mouse {
            x: mouse_x(l),
            y: mouse_y(l),
            buttons: button_mask(msg, w),
            modifiers: modifier_mask(w),
        },
        Event::Focus => PayloadModel::Focus { gained: focus_gained(msg, w) },
        Event::Resize => PayloadModel::Resize {
            x: rect.left,
            y: rect.top,
            width: (rect.right - rect.left) as u32,
            height: (rect.bottom - rect.top) as u32,
        },
        Event::SelectionChanged => PayloadModel::Selection {
            index: sel_index,
            text: decoded_text(sel_label),
        },
        _ => PayloadModel::Plain,
    }
}

/// The invocations one event contributes: one per key registered under it,
/// in registration order, all carrying that event's payload.
pub open spec fn invocations_for_event(
    entry: ControlTreeEntry,
    e: Event,
    msg: u32,
    w: u64,
    l: u64,
    rect: Rect,
    sel_index: u32,
    sel_label: Seq<u16>,
) -> Seq<InvocationModel> {
    entry.keys_for(e).map_values(
        |k: u64|
            InvocationModel {
                key: k,
                owner: entry.id,
                event: e,
                payload: payload_spec(e, msg, w, l, rect, sel_index, sel_label),
            },
    )
}

/// The invocations a list of events contributes, in classification order.
pub open spec fn invocations_for_events(
    entry: ControlTreeEntry,
    events: Seq<Event>,
    msg: u32,
    w: u64,
    l: u64,
    rect: Rect,
    sel_index: u32,
    sel_label: Seq<u16>,
) -> Seq<InvocationModel>
    decreases events.len(),
{
    if events.len() == 0 {
        Seq::empty()
    } else {
        invocations_for_event(entry, events[0], msg, w, l, rect, sel_index, sel_label)
            + invocations_for_events(
            entry,
            events.drop_first(),
            msg,
            w,
            l,
            rect,
            sel_index,
            sel_label,
        )
    }
}

/// The full invocation plan of one dispatch: classify, resolve the target's
/// registration record, and lay out every matching callback's invocation in
/// order.  A target without a record contributes nothing: that is the normal
/// path for messages on non-application controls.
pub open spec fn plan_spec(
    reg: ControlRegistry,
    hwnd: u64,
    msg: u32,
    w: u64,
    l: u64,
    rect: Rect,
    sel_index: u32,
    sel_label: Seq<u16>,
) -> Seq<InvocationModel> {
    let classified = classify(reg, hwnd, msg, w, l);
    match reg.spec_lookup(classified.1) {
        None => Seq::empty(),
        Some(entry) => invocations_for_events(
            entry,
            classified.0,
            msg,
            w,
            l,
            rect,
            sel_index,
            sel_label,
        ),
    }
}

/// Resolve an overloaded command notification.  The sub-code is only
/// meaningful in light of which control sent it and what kind of control
/// that is, so the originating control's record is consulted; a control
/// whose data was never initialized or was already freed classifies as
/// `Unknown`, never a guess.
pub fn map_command(registry: &ControlRegistry, handle: u64, w: u64, l: u64) -> (r: (
    Vec<Event>,
    u64,
))
    ensures
        r.0@ == classify(*registry, handle, WM_COMMAND, w, l).0,
        r.1 == classify(*registry, handle, WM_COMMAND, w, l).1,
{
    let command: u16 = ((w as u32) >> 16u32) as u16;
    let owner: u64 = l;
    match registry.lookup(owner) {
        None => (vec![Event::Unknown], handle),
        Some(data) => match data.control_type {
            ControlType::Button | ControlType::CheckBox | ControlType::GroupBox
                | ControlType::RadioButton => {
                if command == BN_SETFOCUS || command == BN_KILLFOCUS {
                    (vec![Event::Focus], owner)
                } else if command == BN_CLICKED {
                    (vec![Event::Click], owner)
                } else {
                    (vec![Event::Unknown], handle)
                }
            },
            ControlType::TextInput => {
                if command == EN_SETFOCUS || command == EN_KILLFOCUS {
                    (vec![Event::Focus], owner)
                } else if command == EN_CHANGE {
                    (vec![Event::ValueChanged], owner)
                } else if command == EN_MAXTEXT {
                    (vec![Event::MaxValue], owner)
                } else {
                    (vec![Event::Unknown], handle)
                }
            },
            ControlType::ComboBox => {
                if command == CBN_SETFOCUS || command == CBN_KILLFOCUS {
                    (vec![Event::Focus], owner)
                } else if command == CBN_CLOSEUP {
                    (vec![Event::MenuClose], owner)
                } else if command == CBN_DROPDOWN {
                    (vec![Event::MenuOpen], owner)
                } else if command == CBN_SELCHANGE {
                    (vec![Event::ValueChanged, Event::SelectionChanged], owner)
                } else {
                    (vec![Event::Unknown], handle)
                }
            },
            ControlType::Label => {
                if command == STN_CLICKED {
                    (vec![Event::Click], owner)
                } else {
                    (vec![Event::Unknown], handle)
                }
            },
            _ => (vec![Event::Unknown], handle),
        },
    }
}

/// Map a raw message to its semantic events and the handle dispatch
/// resolves them against.
pub fn map_system_event(registry: &ControlRegistry, handle: u64, msg: u32, w: u64, l: u64) -> (r:
    (Vec<Event>, u64))
    ensures
        r.0@ == classify(*registry, handle, msg, w, l).0,
        r.1 == classify(*registry, handle, msg, w, l).1,
{
    if msg == WM_COMMAND {
        map_command(registry, handle, w, l)
    } else if msg == WM_LBUTTONUP || msg == WM_RBUTTONUP || msg == WM_MBUTTONUP {
        (vec![Event::MouseUp], handle)
    } else if msg == WM_LBUTTONDOWN || msg == WM_RBUTTONDOWN || msg == WM_MBUTTONDOWN {
        (vec![Event::MouseDown], handle)
    } else if msg == WM_ACTIVATEAPP {
        (vec![Event::Focus], handle)
    } else if msg == WM_SIZING || msg == WM_SIZE {
        (vec![Event::Resize], handle)
    } else if msg == NWG_DESTROY_NOTICE {
        (vec![Event::Removed], handle)
    } else {
        (vec![Event::Unknown], handle)
    }
}

/// Compute the payload one callback invocation carries.  The extractors are
/// shape-specific, so the event must be one a callback can be registered
/// under, a Focus event must come from one of the two raw messages that can
/// produce it, and a selection payload is only meaningful for a combo box.
pub fn dispatch_event(
    event: Event,
    control_type: ControlType,
    msg: u32,
    w: u64,
    l: u64,
    host: &HostContext,
) -> (p: Payload)
    requires
        !(event is Unknown),
        event is Focus ==> msg == WM_COMMAND || msg == WM_ACTIVATEAPP,
        event is Resize ==> host.window_rect.wf(),
        event is SelectionChanged ==> control_type is ComboBox,
    ensures
        p@ == payload_spec(event, msg, w, l, host.window_rect, host.combo_index,
            host.combo_label@),
{
    match event {
        Event::MouseUp | Event::MouseDown => {
            let r = handle_btn(msg, w, l);
            Payload::Mouse { x: r.0, y: r.1, buttons: r.2, modifiers: r.3 }
        },
        Event::Focus => {
            let gained: bool = if msg == WM_COMMAND {
                let command: u16 = ((w as u32) >> 16u32) as u16;
                command == BN_SETFOCUS || command == EN_SETFOCUS || command == CBN_SETFOCUS
            } else {
                w & 1 == 1
            };
            Payload::Focus { gained }
        },
        Event::Resize => {
            let r = handle_sizing(&host.window_rect);
            Payload::Resize { x: r.0, y: r.1, width: r.2, height: r.3 }
        },
        Event::SelectionChanged => {
            let r = get_combobox_selection(host.combo_index, &host.combo_label);
            Payload::Selection { index: r.0, text: r.1 }
        },
        Event::Unknown => {
            proof {
                assert(false);
            }
            Payload::Plain
        },
        _ => Payload::Plain,
    }
}

/// The mathematical view of an invocation plan.
pub open spec fn plan_view(p: Seq<Invocation>) -> Seq<InvocationModel> {
    p.map_values(|inv: Invocation| inv@)
}

/// The invocations contributed by the matching registrations of a list, in
/// list order, all carrying the same event and payload.
spec fn invs_of_regs(
    regs: Seq<(Event, u64)>,
    owner: u64,
    e: Event,
    pm: PayloadModel,
) -> Seq<InvocationModel> {
    crate::registry::regs_matching(regs, e).map_values(
        |p: (Event, u64)| InvocationModel { key: p.1, owner: owner, event: e, payload: pm },
    )
}

proof fn lemma_invs_of_regs_empty(regs: Seq<(Event, u64)>, owner: u64, e: Event, pm: PayloadModel)
    requires
        regs.len() == 0,
    ensures
        invs_of_regs(regs, owner, e, pm) =~= Seq::<InvocationModel>::empty(),
{
    reveal(Seq::filter);
}

proof fn lemma_invs_of_regs_step(
    regs: Seq<(Event, u64)>,
    k: int,
    owner: u64,
    e: Event,
    pm: PayloadModel,
)
    requires
        0 <= k < regs.len(),
    ensures
        invs_of_regs(regs.take(k + 1), owner, e, pm) =~= (if regs[k].0 == e {
            invs_of_regs(regs.take(k), owner, e, pm).push(
                InvocationModel { key: regs[k].1, owner: owner, event: e, payload: pm },
            )
        } else {
            invs_of_regs(regs.take(k), owner, e, pm)
        }),
{
    broadcast use Seq::lemma_filter_push;

    assert(regs.take(k + 1) =~= regs.take(k).push(regs[k]));
    assert(crate::registry::regs_matching(regs.take(k).push(regs[k]), e) == crate::registry::regs_matching(
        regs.take(k + 1),
        e,
    ));
}

/// One event's contribution is exactly the invocations of its matching
/// registrations.
proof fn lemma_event_contribution(
    entry: ControlTreeEntry,
    e: Event,
    msg: u32,
    w: u64,
    l: u64,
    rect: Rect,
    sel_index: u32,
    sel_label: Seq<u16>,
)
    ensures
        invocations_for_event(entry, e, msg, w, l, rect, sel_index, sel_label) =~= invs_of_regs(
            entry.callbacks@,
            entry.id,
            e,
            payload_spec(e, msg, w, l, rect, sel_index, sel_label),
        ),
{
}

/// Appending one event appends its contribution to the plan.
proof fn lemma_invocations_events_push(
    entry: ControlTreeEntry,
    events: Seq<Event>,
    e: Event,
    msg: u32,
    w: u64,
    l: u64,
    rect: Rect,
    sel_index: u32,
    sel_label: Seq<u16>,
)
    ensures
        invocations_for_events(entry, events.push(e), msg, w, l, rect, sel_index, sel_label)
            =~= invocations_for_events(entry, events, msg, w, l, rect, sel_index, sel_label)
            + invocations_for_event(entry, e, msg, w, l, rect, sel_index, sel_label),
    decreases events.len(),
{
    if events.len() == 0 {
        assert(events.push(e)[0] == e);
        assert(events.push(e).drop_first() =~= Seq::<Event>::empty());
        assert(invocations_for_events(
            entry,
            events.push(e).drop_first(),
            msg,
            w,
            l,
            rect,
            sel_index,
            sel_label,
        ) =~= Seq::<InvocationModel>::empty());
        assert(invocations_for_events(entry, events, msg, w, l, rect, sel_index, sel_label)
            =~= Seq::<InvocationModel>::empty());
    } else {
        assert(events.push(e)[0] == events[0]);
        assert(events.push(e).drop_first() =~= events.drop_first().push(e));
        lemma_invocations_events_push(
            entry,
            events.drop_first(),
            e,
            msg,
            w,
            l,
            rect,
            sel_index,
            sel_label,
        );
        assert(invocations_for_events(entry, events.push(e), msg, w, l, rect, sel_index, sel_label)
            == invocations_for_event(entry, events[0], msg, w, l, rect, sel_index, sel_label)
            + invocations_for_events(
            entry,
            events.push(e).drop_first(),
            msg,
            w,
            l,
            rect,
            sel_index,
            sel_label,
        ));
        assert(invocations_for_events(entry, events, msg, w, l, rect, sel_index, sel_label)
            == invocations_for_event(entry, events[0], msg, w, l, rect, sel_index, sel_label)
            + invocations_for_events(
            entry,
            events.drop_first(),
            msg,
            w,
            l,
            rect,
            sel_index,
            sel_label,
        ));
    }
}

/// What classification guarantees of each event it yields: a Focus event
/// comes only from a command or an application-activation message, a Resize
/// event only from the two resize message kinds, and a selection change
/// only resolves against a registered combo box's own record.
pub proof fn lemma_classify_constraints(reg: ControlRegistry, hwnd: u64, msg: u32, w: u64, l: u64)
    ensures
        ({
            let classified = classify(reg, hwnd, msg, w, l);
            forall|i: int|
                0 <= i < classified.0.len() ==> {
                    let e = #[trigger] classified.0[i];
                    &&& (e is Focus ==> msg == WM_COMMAND || msg == WM_ACTIVATEAPP)
                    &&& (e is Resize ==> msg == WM_SIZING || msg == WM_SIZE)
                    &&& (e is SelectionChanged ==> msg == WM_COMMAND && (reg.spec_lookup(
                        classified.1,
                    ) matches Some(en) && en.control_type is ComboBox))
                }
        }),
{
    let classified = classify(reg, hwnd, msg, w, l);
    if msg == WM_COMMAND {
        match reg.spec_lookup(l) {
            None => {},
            Some(entry) => {
                match command_match(entry.control_type, hiword(w)) {
                    Some(events) => {
                        assert(reg.spec_lookup(classified.1) == Some(entry));
                    },
                    None => {},
                }
            },
        }
    }
}

/// Transient, non-owning view of the control tree, reconstructed at the
/// start of one dispatch so every callback can see the full tree.  Its
/// release is `detach`: the aliased tree is handed straight back to its
/// owner, and no destruction logic ever runs on the aliased data.
pub struct UiView {
    pub controls: ControlRegistry,
}

impl UiView {
    /// Borrow the persistent tree into a view for one dispatch.
    pub fn attach(controls: ControlRegistry) -> (r: UiView)
        ensures
            r.controls == controls,
    {
        UiView { controls }
    }

    /// Look a handle up in the viewed tree.
    pub fn resolve(&self, handle: u64) -> (r: Option<&ControlTreeEntry>)
        ensures
            match r {
                Some(e) => self.controls.spec_lookup(handle) == Some(*e),
                None => self.controls.spec_lookup(handle) is None,
            },
    {
        self.controls.lookup(handle)
    }

    /// Stop aliasing: give the viewed tree back unchanged.  This is the
    /// view's only teardown; it is infallible and releases nothing.
    pub fn detach(self) -> (r: ControlRegistry)
        ensures
            r == self.controls,
    {
        let UiView { controls } = self;
        controls
    }
}

/// One full dispatch: classify the raw message, resolve the target's
/// registration record through a transient view of the control tree, and
/// lay out one invocation per matching registered callback — registration
/// order within an event, classification order across events.  The
/// persistent control tree comes back exactly as it was: only the transient
/// view is discarded.
pub fn handle_events(
    registry: &mut ControlRegistry,
    hwnd: u64,
    msg: u32,
    w: u64,
    l: u64,
    host: &HostContext,
) -> (plan: Vec<Invocation>)
    requires
        old(registry).wf(),
        host.window_rect.wf(),
    ensures
        *final(registry) == *old(registry),
        plan_view(plan@) == plan_spec(
            *old(registry),
            hwnd,
            msg,
            w,
            l,
            host.window_rect,
            host.combo_index,
            host.combo_label@,
        ),
{
    let ghost reg0 = *registry;
    let ghost rect = host.window_rect;
    let ghost sel_index = host.combo_index;
    let ghost sel_label = host.combo_label@;

    let (events, target) = map_system_event(registry, hwnd, msg, w, l);
    let ghost evs = classify(reg0, hwnd, msg, w, l).0;
    proof {
        lemma_classify_constraints(reg0, hwnd, msg, w, l);
    }

    let mut tree = ControlRegistry::new();
    core::mem::swap(&mut tree, registry);
    let ui = UiView::attach(tree);

    let mut plan: Vec<Invocation> = Vec::new();
    match ui.resolve(target) {
        None => {
            proof {
                assert(plan_view(plan@) =~= Seq::<InvocationModel>::empty());
            }
        },
        Some(entry) => {
            let ghost e_entry = *entry;
            proof {
                lemma_lookup_wf(reg0, target);
                assert(evs.take(0int) =~= Seq::<Event>::empty());
                assert(plan_view(plan@) =~= Seq::<InvocationModel>::empty());
            }
            let n = events.len();
            let mut ei: usize = 0;
            while ei < n
                invariant
                    n == events@.len(),
                    events@ == evs,
                    ei <= n,
                    host.window_rect.wf(),
                    rect == host.window_rect,
                    sel_index == host.combo_index,
                    sel_label == host.combo_label@,
                    e_entry == *entry,
                    e_entry.wf(),
                    reg0.spec_lookup(target) == Some(e_entry),
                    forall|i: int|
                        0 <= i < evs.len() ==> {
                            let e = #[trigger] evs[i];
                            &&& (e is Focus ==> msg == WM_COMMAND || msg == WM_ACTIVATEAPP)
                            &&& (e is Resize ==> msg == WM_SIZING || msg == WM_SIZE)
                            &&& (e is SelectionChanged ==> e_entry.control_type is ComboBox)
                        },
                    plan_view(plan@) =~= invocations_for_events(
                        e_entry,
                        evs.take(ei as int),
                        msg,
                        w,
                        l,
                        rect,
                        sel_index,
                        sel_label,
                    ),
                decreases n - ei,
            {
                let event = events[ei];
                let ghost pm = payload_spec(event, msg, w, l, rect, sel_index, sel_label);
                let ghost before = plan_view(plan@);
                let m = entry.callbacks.len();
                proof {
                    assert(e_entry.callbacks@.take(0int) =~= Seq::<(Event, u64)>::empty());
                    lemma_invs_of_regs_empty(e_entry.callbacks@.take(0int), e_entry.id, event, pm);
                }
                let mut ki: usize = 0;
                while ki < m
                    invariant
                        m == entry.callbacks@.len(),
                        ki <= m,
                        host.window_rect.wf(),
                        rect == host.window_rect,
                        sel_index == host.combo_index,
                        sel_label == host.combo_label@,
                        e_entry == *entry,
                        e_entry.wf(),
                        event is Focus ==> msg == WM_COMMAND || msg == WM_ACTIVATEAPP,
                        event is SelectionChanged ==> e_entry.control_type is ComboBox,
                        pm == payload_spec(event, msg, w, l, rect, sel_index, sel_label),
                        plan_view(plan@) =~= before + invs_of_regs(
                            e_entry.callbacks@.take(ki as int),
                            e_entry.id,
                            event,
                            pm,
                        ),
                    decreases m - ki,
                {
                    let cb = entry.callbacks[ki];
                    proof {
                        lemma_invs_of_regs_step(
                            e_entry.callbacks@,
                            ki as int,
                            e_entry.id,
                            event,
                            pm,
                        );
                    }
                    if cb.0 == event {
                        let p = dispatch_event(event, entry.control_type, msg, w, l, host);
                        let inv = Invocation { key: cb.1, owner: entry.id, event, payload: p };
                        proof {
                            assert(plan_view(plan@.push(inv)) =~= plan_view(plan@).push(inv@));
                        }
                        plan.push(inv);
                    }
                    ki += 1;
                }
                proof {
                    assert(e_entry.callbacks@.take(m as int) =~= e_entry.callbacks@);
                    lemma_event_contribution(e_entry, event, msg, w, l, rect, sel_index, sel_label);
                    assert(evs.take(ei + 1) =~= evs.take(ei as int).push(evs[ei as int]));
                    lemma_invocations_events_push(
                        e_entry,
                        evs.take(ei as int),
                        event,
                        msg,
                        w,
                        l,
                        rect,
                        sel_index,
                        sel_label,
                    );
                }
                ei += 1;
            }
            proof {
                assert(evs.take(n as int) =~= evs);
            }
        },
    }
    let mut restored = ui.detach();
    core::mem::swap(registry, &mut restored);
    plan
}

/// Dispatching a generic-command message whose originating control has no
/// registered record yields exactly one `Unknown` classification and an
/// empty invocation plan: `Unknown` carries no registrable callbacks, so
/// nothing is ever invoked.
pub proof fn lemma_unregistered_command_silent(
    reg: ControlRegistry,
    hwnd: u64,
    w: u64,
    l: u64,
    rect: Rect,
    sel_index: u32,
    sel_label: Seq<u16>,
)
    requires
        reg.wf(),
        reg.spec_lookup(l) is None,
    ensures
        classify(reg, hwnd, WM_COMMAND, w, l).0 =~= seq![Event::Unknown],
        classify(reg, hwnd, WM_COMMAND, w, l).1 == hwnd,
        plan_spec(reg, hwnd, WM_COMMAND, w, l, rect, sel_index, sel_label).len() == 0,
{
    let evs = classify(reg, hwnd, WM_COMMAND, w, l).0;
    assert(evs =~= seq![Event::Unknown]);
    match reg.spec_lookup(hwnd) {
        None => {},
        Some(entry) => {
            lemma_lookup_wf(reg, hwnd);
            assert(evs[0] is Unknown);
            lemma_regs_matching_none(entry.callbacks@, Event::Unknown);
            assert(evs.drop_first() =~= Seq::<Event>::empty());
            assert(invocations_for_events(
                entry,
                evs.drop_first(),
                WM_COMMAND,
                w,
                l,
                rect,
                sel_index,
                sel_label,
            ) =~= Seq::<InvocationModel>::empty());
            assert(invocations_for_event(entry, Event::Unknown, WM_COMMAND, w, l, rect, sel_index,
                sel_label).len() == 0);
        },
    }
}

/// A combo box's selection-changed command classifies to exactly
/// `[ValueChanged, SelectionChanged]`, in that order, and the plan lays out
/// every `ValueChanged` invocation (in registration order) before any
/// `SelectionChanged` invocation.
pub proof fn lemma_selchange_order(
    reg: ControlRegistry,
    hwnd: u64,
    w: u64,
    l: u64,
    rect: Rect,
    sel_index: u32,
    sel_label: Seq<u16>,
)
    requires
        reg.wf(),
        hiword(w) == CBN_SELCHANGE,
        reg.spec_lookup(l) matches Some(entry) && entry.control_type is ComboBox,
    ensures
        classify(reg, hwnd, WM_COMMAND, w, l).0 =~= seq![Event::ValueChanged, Event::SelectionChanged],
        classify(reg, hwnd, WM_COMMAND, w, l).1 == l,
        ({
            let entry = reg.spec_lookup(l).unwrap();
            let plan = plan_spec(reg, hwnd, WM_COMMAND, w, l, rect, sel_index, sel_label);
            let first = invocations_for_event(entry, Event::ValueChanged, WM_COMMAND, w, l, rect,
                sel_index, sel_label);
            let second = invocations_for_event(entry, Event::SelectionChanged, WM_COMMAND, w, l,
                rect, sel_index, sel_label);
            &&& plan =~= first + second
            &&& first.len() == entry.keys_for(Event::ValueChanged).len()
            &&& forall|i: int|
                0 <= i < plan.len() ==> (#[trigger] plan[i]).event == (if i < first.len() {
                    Event::ValueChanged
                } else {
                    Event::SelectionChanged
                })
        }),
{
    let entry = reg.spec_lookup(l).unwrap();
    let evs = classify(reg, hwnd, WM_COMMAND, w, l).0;
    assert(evs =~= seq![Event::ValueChanged, Event::SelectionChanged]);
    let plan = plan_spec(reg, hwnd, WM_COMMAND, w, l, rect, sel_index, sel_label);
    let first = invocations_for_event(entry, Event::ValueChanged, WM_COMMAND, w, l, rect,
        sel_index, sel_label);
    let second = invocations_for_event(entry, Event::SelectionChanged, WM_COMMAND, w, l, rect,
        sel_index, sel_label);
    assert(evs.drop_first() =~= seq![Event::SelectionChanged]);
    assert(evs.drop_first().drop_first() =~= Seq::<Event>::empty());
    assert(invocations_for_events(
        entry,
        evs.drop_first().drop_first(),
        WM_COMMAND,
        w,
        l,
        rect,
        sel_index,
        sel_label,
    ) =~= Seq::<InvocationModel>::empty());
    assert(invocations_for_events(entry, evs.drop_first(), WM_COMMAND, w, l, rect, sel_index,
        sel_label) =~= second);
    assert(plan =~= first + second);
    assert forall|i: int| 0 <= i < plan.len() implies (#[trigger] plan[i]).event == (if i
        < first.len() {
        Event::ValueChanged
    } else {
        Event::SelectionChanged
    }) by {
        if i < first.len() {
            assert(plan[i] == first[i]);
        } else {
            assert(plan[i] == second[i - first.len()]);
        }
    }
}

/// An in-progress and a completed resize notification that stand for the
/// same final geometry carry identical payloads: the resize payload is a
/// function of the rectangle alone, never of which message kind fired.
pub proof fn lemma_resize_payload_message_independent(
    w: u64,
    l: u64,
    rect: Rect,
    sel_index: u32,
    sel_label: Seq<u16>,
)
    ensures
        payload_spec(Event::Resize, WM_SIZING, w, l, rect, sel_index, sel_label) == payload_spec(
            Event::Resize,
            WM_SIZE,
            w,
            l,
            rect,
            sel_index,
            sel_label,
        ),
{
}

} // verus!
