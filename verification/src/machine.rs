//! The focus-aware capture state machine.
//!
//! The machine consumes one windowing-server event at a time, as plain
//! values, and answers with its next state and a list of directives —
//! grab or release the keyboard, inject a synthetic key event, publish a
//! payload to the clipboard — that the embedding event loop carries out.
//!
//! A key press that resolves to a style action with a missing parameter
//! switches the machine to `AwaitingSecondKey`; the very next event, of
//! whatever kind, terminates that capture: a key press resolving to a
//! fully specified single-component style action supplies the missing
//! parameter, anything else leaves the components as authored. Either
//! way the style is published exactly once and a paste key stroke is
//! injected into the target window.
use vstd::prelude::*;

use crate::keybind::Action;
use crate::keybind::ActionView;
use crate::keybind::Keybinds;
use crate::keybind::KeybindView;
use crate::keybind::find_bind;
use crate::keys::Code;
use crate::keys::KeyTable;
use crate::keys::key_of_code;
use crate::keys::key_to_code_spec;
use crate::keys::lemma_code_key_round_trip;
use crate::style::StyleComponent;
use crate::style::StyleComponentView;
use crate::style::all_filled;
use crate::style::all_params_present;
use crate::style::comps_view;
use crate::style::fill_first_missing;
use crate::style::fill_first_missing_vec;
use crate::style::lemma_fill_one_missing_all_filled;
use crate::style::style_payload;
use crate::style::style_payload_string;

verus! {

/// The shift modifier bit of the windowing protocol's key-button mask.
pub const MASK_SHIFT: u16 = 1;

/// The control modifier bit of the windowing protocol's key-button mask.
pub const MASK_CONTROL: u16 = 4;

/// The scan code that the key translation table assigns to the paste key
/// (`Code::V`); `lemma_paste_scan_code` ties it to the table.
pub const PASTE_SCAN_CODE: u8 = 55;

/// The paste key is `Code::V`, and the reverse lookup of `Code::V` finds
/// exactly `PASTE_SCAN_CODE`.
pub proof fn lemma_paste_scan_code()
    ensures
        key_of_code(PASTE_SCAN_CODE) == Code::V,
        key_to_code_spec(Code::V) == Some(PASTE_SCAN_CODE),
{
    lemma_code_key_round_trip(PASTE_SCAN_CODE);
}

/// The plain fields of a key-press event: everything the machine reads
/// from the windowing server's event, and everything it needs to hand
/// back when synthesizing a new event from this one as a template.
#[derive(Copy, Clone, Debug, PartialEq, Eq, Structural)]
pub struct KeyEventFields {
    pub detail: u8,
    pub time: u32,
    pub root: u32,
    pub event: u32,
    pub child: u32,
    pub root_x: i16,
    pub root_y: i16,
    pub event_x: i16,
    pub event_y: i16,
    pub state: u16,
    pub same_screen: bool,
}

/// One windowing-server event, reduced to what the machine decides on.
#[derive(Copy, Clone, Debug, PartialEq, Eq, Structural)]
pub enum Event {
    /// The focused window changed; `target_focused` says whether the
    /// newly focused window belongs to the target application.
    FocusChange { target_focused: bool },
    /// A key press arrived while the keyboard was grabbed.
    KeyPress { fields: KeyEventFields },
    /// Any other event.
    Other,
}

/// The machine's state between events.
pub enum State {
    Idle,
    /// A style action with a missing parameter is pending; the very next
    /// event resolves it. The template is the key press that triggered
    /// the pending action.
    AwaitingSecondKey { pending: Vec<StyleComponent>, template: KeyEventFields },
}

/// The mathematical shadow of a `State`.
pub enum StateView {
    Idle,
    AwaitingSecondKey { pending: Seq<StyleComponentView>, template: KeyEventFields },
}

impl View for State {
    type V = StateView;

    open spec fn view(&self) -> StateView {
        match self {
            State::Idle => StateView::Idle,
            State::AwaitingSecondKey { pending, template } => (StateView::AwaitingSecondKey {
                pending: comps_view(pending@),
                template: *template,
            }),
        }
    }
}

/// One instruction to the embedding event loop.
pub enum Directive {
    /// Intercept all keys on the focused target window.
    Grab,
    /// Stop intercepting.
    Ungrab,
    /// Deliver a synthetic key press built from these fields.
    Inject { event: KeyEventFields },
    /// Publish this payload to the clipboard.
    Publish { payload: String },
}

/// The mathematical shadow of a `Directive`.
pub enum DirectiveView {
    Grab,
    Ungrab,
    Inject { event: KeyEventFields },
    Publish { payload: Seq<char> },
}

impl View for Directive {
    type V = DirectiveView;

    open spec fn view(&self) -> DirectiveView {
        match self {
            Directive::Grab => DirectiveView::Grab,
            Directive::Ungrab => DirectiveView::Ungrab,
            Directive::Inject { event } => (DirectiveView::Inject { event: *event }),
            Directive::Publish { payload } => (DirectiveView::Publish { payload: payload@ }),
        }
    }
}

/// The views of a sequence of directives.
pub open spec fn dirs_view(ds: Seq<Directive>) -> Seq<DirectiveView> {
    ds.map_values(|d: Directive| d@)
}

/// A fatal configuration error: the machine refuses to continue.
#[derive(Copy, Clone, Debug, PartialEq, Eq, Structural)]
pub enum StepError {
    /// A rebind action names a key to which the translation table
    /// assigns no scan code.
    RebindTargetUnknown,
}

/// The template with its key substituted and its modifier state kept.
pub open spec fn with_key(f: KeyEventFields, code: u8) -> KeyEventFields {
    KeyEventFields { detail: code, ..f }
}

/// The template with both its key and its modifier state substituted.
pub open spec fn with_key_and_state(f: KeyEventFields, code: u8, mask: u16) -> KeyEventFields {
    KeyEventFields { detail: code, state: mask, ..f }
}

/// The fixed paste key stroke: the paste scan code with control and
/// shift held, spatial and temporal fields taken from the template.
pub open spec fn paste_fields(f: KeyEventFields) -> KeyEventFields {
    with_key_and_state(f, PASTE_SCAN_CODE, (MASK_CONTROL + MASK_SHIFT) as u16)
}

/// What a focus change makes the loop do: grab while the target
/// application is focused, release otherwise.
pub open spec fn focus_directives(target_focused: bool) -> Seq<DirectiveView> {
    if target_focused {
        seq![DirectiveView::Grab]
    } else {
        seq![DirectiveView::Ungrab]
    }
}

/// What completing a style capture makes the loop do: publish the
/// serialized components, then inject the paste key stroke.
pub open spec fn publish_directives(cs: Seq<StyleComponentView>, template: KeyEventFields) -> Seq<
    DirectiveView,
> {
    seq![
        (DirectiveView::Publish { payload: style_payload(cs) }),
        (DirectiveView::Inject { event: paste_fields(template) }),
    ]
}

/// The parameter a second key press supplies, if it does: the press must
/// resolve, through the translation table and the keybinding table, to a
/// style action with a single, fully specified component.
pub open spec fn second_press_value(ev: Event, binds: Seq<KeybindView>) -> Option<Seq<char>> {
    match ev {
        Event::KeyPress { fields } => match find_bind(binds, key_of_code(fields.detail)) {
            Some(b) => match b.action {
                ActionView::Style { style } => if style.len() == 1 && style[0].value is Some {
                    style[0].value
                } else {
                    None
                },
                ActionView::Rebind { .. } => None,
            },
            None => None,
        },
        _ => None,
    }
}

/// The machine's answer to a key press while idle and grabbed.
pub open spec fn step_idle_key(fields: KeyEventFields, binds: Seq<KeybindView>) -> Result<
    (StateView, Seq<DirectiveView>),
    StepError,
> {
    let key = key_of_code(fields.detail);
    if key == Code::LeftSuper {
        Ok((StateView::Idle, seq![DirectiveView::Ungrab]))
    } else {
        match find_bind(binds, key) {
            None => Ok((StateView::Idle, Seq::empty())),
            Some(b) => match b.action {
                ActionView::Rebind { rebind_to } => match key_to_code_spec(rebind_to) {
                    Some(code) => Ok(
                        (
                            StateView::Idle,
                            seq![(DirectiveView::Inject { event: with_key(fields, code) })],
                        ),
                    ),
                    None => Err(StepError::RebindTargetUnknown),
                },
                ActionView::Style { style } => if all_filled(style) {
                    Ok((StateView::Idle, publish_directives(style, fields)))
                } else {
                    Ok((StateView::AwaitingSecondKey { pending: style, template: fields }, Seq::empty()))
                },
            },
        }
    }
}

/// The machine's full transition: from a state and an event to the next
/// state and the directives the loop must carry out, or a fatal
/// configuration error.
pub open spec fn step_spec(pre: StateView, ev: Event, binds: Seq<KeybindView>) -> Result<
    (StateView, Seq<DirectiveView>),
    StepError,
> {
    match pre {
        StateView::Idle => match ev {
            Event::FocusChange { target_focused } => Ok(
                (StateView::Idle, focus_directives(target_focused)),
            ),
            Event::KeyPress { fields } => step_idle_key(fields, binds),
            Event::Other => Ok((StateView::Idle, Seq::empty())),
        },
        StateView::AwaitingSecondKey { pending, template } => {
            let final_cs = match second_press_value(ev, binds) {
                Some(v) => fill_first_missing(pending, v),
                None => pending,
            };
            Ok((StateView::Idle, publish_directives(final_cs, template)))
        },
    }
}

/// The view of the machine's exec-level answer.
pub open spec fn result_view(r: Result<(State, Vec<Directive>), StepError>) -> Result<
    (StateView, Seq<DirectiveView>),
    StepError,
> {
    match r {
        Ok(p) => Ok((p.0@, dirs_view(p.1@))),
        Err(e) => Err(e),
    }
}

fn duplicate_components(cs: &Vec<StyleComponent>) -> (r: Vec<StyleComponent>)
    ensures
        comps_view(r@) == comps_view(cs@),
{
    let mut out: Vec<StyleComponent> = Vec::new();
    let mut i: usize = 0;
    while i < cs.len()
        invariant
            i <= cs@.len(),
            out@.len() == i,
            forall|j: int| 0 <= j < i ==> comps_view(out@)[j] == comps_view(cs@)[j],
        decreases cs@.len() - i,
    {
        let ghost before = out@;
        out.push(cs[i].duplicate());
        proof {
            assert(out@[i as int]@ == comps_view(cs@)[i as int]);
            assert(forall|j: int| 0 <= j < i ==> out@[j] == before[j]);
        }
        i = i + 1;
    }
    assert(comps_view(out@) =~= comps_view(cs@));
    out
}

fn publish_directives_exec(cs: &Vec<StyleComponent>, template: KeyEventFields, keys: &KeyTable) -> (ds: Vec<Directive>)
    requires
        keys.wf(),
    ensures
        dirs_view(ds@) == publish_directives(comps_view(cs@), template),
{
    let payload = style_payload_string(cs);
    let mut ds: Vec<Directive> = Vec::new();
    ds.push(Directive::Publish { payload });
    proof {
        lemma_paste_scan_code();
    }
    let code = keys.key_to_code(Code::V).unwrap();
    ds.push(
        Directive::Inject {
            event: KeyEventFields { detail: code, state: MASK_CONTROL + MASK_SHIFT, ..template },
        },
    );
    assert(dirs_view(ds@) =~= publish_directives(comps_view(cs@), template));
    ds
}

fn second_press_value_exec(ev: &Event, binds: &Keybinds, keys: &KeyTable) -> (r: Option<String>)
    requires
        keys.wf(),
    ensures
        match r {
            Some(s) => second_press_value(*ev, binds@) == Some(s@),
            None => second_press_value(*ev, binds@) is None,
        },
{
    match ev {
        Event::KeyPress { fields } => {
            let key = match keys.code(fields.detail) {
                Some(k) => k,
                None => Code::Unknown,
            };
            match binds.get_bind_for(key) {
                Some(b) => match &b.action {
                    Action::Style { style } => {
                        if style.len() == 1 && !style[0].value.is_none() {
                            proof {
                                assert(comps_view(style@)[0] == style@[0]@);
                            }
                            match &style[0].value {
                                Some(v) => Some(v.clone()),
                                None => None,
                            }
                        } else {
                            proof {
                                if style.len() == 1 {
                                    assert(comps_view(style@)[0] == style@[0]@);
                                }
                            }
                            None
                        }
                    },
                    Action::Rebind { .. } => None,
                },
                None => None,
            }
        },
        _ => None,
    }
}

fn step_idle_key_exec(fields: KeyEventFields, binds: &Keybinds, keys: &KeyTable) -> (r: Result<
    (State, Vec<Directive>),
    StepError,
>)
    requires
        keys.wf(),
    ensures
        result_view(r) == step_idle_key(fields, binds@),
{
    let key = match keys.code(fields.detail) {
        Some(k) => k,
        None => Code::Unknown,
    };
    if key == Code::LeftSuper {
        let mut ds: Vec<Directive> = Vec::new();
        ds.push(Directive::Ungrab);
        assert(dirs_view(ds@) =~= seq![DirectiveView::Ungrab]);
        return Ok((State::Idle, ds));
    }
    match binds.get_bind_for(key) {
        None => {
            let ds: Vec<Directive> = Vec::new();
            assert(dirs_view(ds@) =~= Seq::<DirectiveView>::empty());
            Ok((State::Idle, ds))
        },
        Some(b) => match &b.action {
            Action::Rebind { rebind_to } => match keys.key_to_code(*rebind_to) {
                Some(code) => {
                    let mut ds: Vec<Directive> = Vec::new();
                    ds.push(Directive::Inject { event: KeyEventFields { detail: code, ..fields } });
                    assert(dirs_view(ds@) =~= seq![
                        (DirectiveView::Inject { event: with_key(fields, code) }),
                    ]);
                    Ok((State::Idle, ds))
                },
                None => Err(StepError::RebindTargetUnknown),
            },
            Action::Style { style } => {
                if all_params_present(style) {
                    let ds = publish_directives_exec(style, fields, keys);
                    Ok((State::Idle, ds))
                } else {
                    let pending = duplicate_components(style);
                    let ds: Vec<Directive> = Vec::new();
                    assert(dirs_view(ds@) =~= Seq::<DirectiveView>::empty());
                    Ok((State::AwaitingSecondKey { pending, template: fields }, ds))
                }
            },
        },
    }
}

/// Advances the machine by one event. The answer is exactly what
/// `step_spec` says of the state's and the tables' mathematical views.
pub fn step(st: State, ev: &Event, binds: &Keybinds, keys: &KeyTable) -> (r: Result<
    (State, Vec<Directive>),
    StepError,
>)
    requires
        keys.wf(),
    ensures
        result_view(r) == step_spec(st@, *ev, binds@),
{
    match st {
        State::Idle => match ev {
            Event::FocusChange { target_focused } => {
                let mut ds: Vec<Directive> = Vec::new();
                if *target_focused {
                    ds.push(Directive::Grab);
                } else {
                    ds.push(Directive::Ungrab);
                }
                assert(dirs_view(ds@) =~= focus_directives(*target_focused));
                Ok((State::Idle, ds))
            },
            Event::KeyPress { fields } => step_idle_key_exec(*fields, binds, keys),
            Event::Other => {
                let ds: Vec<Directive> = Vec::new();
                assert(dirs_view(ds@) =~= Seq::<DirectiveView>::empty());
                Ok((State::Idle, ds))
            },
        },
        State::AwaitingSecondKey { pending, template } => {
            let second = second_press_value_exec(ev, binds, keys);
            let final_cs = match &second {
                Some(v) => fill_first_missing_vec(&pending, v.as_str()),
                None => pending,
            };
            let ds = publish_directives_exec(&final_cs, template, keys);
            Ok((State::Idle, ds))
        },
    }
}

/// Whether the keyboard is grabbed after the loop has carried out the
/// directives, given whether it was grabbed before.
pub open spec fn grab_after(g: bool, ds: Seq<DirectiveView>) -> bool
    decreases ds.len(),
{
    if ds.len() == 0 {
        g
    } else {
        let g1 = match ds[0] {
            DirectiveView::Grab => true,
            DirectiveView::Ungrab => false,
            _ => g,
        };
        grab_after(g1, ds.subrange(1, ds.len() as int))
    }
}

/// The number of publish directives among `ds`.
pub open spec fn publish_count(ds: Seq<DirectiveView>) -> nat
    decreases ds.len(),
{
    if ds.len() == 0 {
        0
    } else {
        (if ds[0] is Publish {
            1nat
        } else {
            0nat
        }) + publish_count(ds.subrange(1, ds.len() as int))
    }
}

/// While idle, a focus change drives the grab to agree exactly with the
/// focused window: grabbed if and only if the target application is
/// focused, whatever the keybinding table and the prior grab state.
///
/// While a capture awaits its second key press, the next event — a focus
/// change included — is consumed to terminate the capture instead, so
/// the grab is left as it was; see `step_spec`.
pub proof fn lemma_grab_follows_focus(t: bool, binds: Seq<KeybindView>, g: bool)
    ensures
        step_spec(StateView::Idle, Event::FocusChange { target_focused: t }, binds) matches Ok(p)
            && grab_after(g, p.1) == t,
{
    reveal_with_fuel(grab_after, 2);
}

proof fn lemma_grab_after_no_grab_dirs(g: bool, ds: Seq<DirectiveView>)
    requires
        forall|i: int| 0 <= i < ds.len() ==> !(#[trigger] ds[i] is Grab) && !(ds[i] is Ungrab),
    ensures
        grab_after(g, ds) == g,
    decreases ds.len(),
{
    if ds.len() > 0 {
        lemma_grab_after_no_grab_dirs(g, ds.subrange(1, ds.len() as int));
    }
}

/// How any step moves the grab: a focus change while idle drives it to
/// agree with the focused window, the sentinel key while idle releases
/// it, and nothing else ever touches it. So the grab is never left
/// active by an event that says the target application lost focus.
pub proof fn lemma_grab_characterization(pre: StateView, ev: Event, binds: Seq<KeybindView>, g: bool)
    ensures
        step_spec(pre, ev, binds) matches Ok(p) ==> grab_after(g, p.1) == (match (pre, ev) {
            (StateView::Idle, Event::FocusChange { target_focused }) => target_focused,
            (StateView::Idle, Event::KeyPress { fields }) => g && key_of_code(fields.detail)
                != Code::LeftSuper,
            _ => g,
        }),
{
    reveal_with_fuel(grab_after, 3);
    let r = step_spec(pre, ev, binds);
    if let Ok(p) = r {
        match pre {
            StateView::Idle => {
                if let Event::KeyPress { fields } = ev {
                    if key_of_code(fields.detail) != Code::LeftSuper {
                        lemma_grab_after_no_grab_dirs(g, p.1);
                    }
                }
            },
            StateView::AwaitingSecondKey { .. } => {
                lemma_grab_after_no_grab_dirs(g, p.1);
            },
        }
    }
}

/// The sentinel release-grab key always releases the grab, regardless of
/// any keybinding table entry bound to it and of the prior grab state.
pub proof fn lemma_sentinel_always_ungrabs(fields: KeyEventFields, binds: Seq<KeybindView>, g: bool)
    requires
        key_of_code(fields.detail) == Code::LeftSuper,
    ensures
        step_spec(StateView::Idle, Event::KeyPress { fields }, binds) matches Ok(p) && p.0
            is Idle && p.1 =~= seq![DirectiveView::Ungrab] && grab_after(g, p.1) == false,
{
    reveal_with_fuel(grab_after, 2);
}

/// A style action whose components all carry their parameters never
/// triggers the second-press wait: the machine publishes at once and
/// stays idle. More generally, the machine only ever leaves `Idle` for a
/// key press that resolves to a style action with a missing parameter.
pub proof fn lemma_full_style_never_awaits(ev: Event, binds: Seq<KeybindView>)
    ensures
        (match step_spec(StateView::Idle, ev, binds) {
            Ok(p) => match p.0 {
                StateView::AwaitingSecondKey { pending, template } => match ev {
                    Event::KeyPress { fields } => {
                        &&& template == fields
                        &&& key_of_code(fields.detail) != Code::LeftSuper
                        &&& match find_bind(binds, key_of_code(fields.detail)) {
                            Some(b) => b.action == (ActionView::Style { style: pending })
                                && !all_filled(pending),
                            None => false,
                        }
                    },
                    _ => false,
                },
                StateView::Idle => true,
            },
            Err(_) => true,
        }),
{
}

/// A pending style with exactly one missing parameter, resolved by a
/// second key press that supplies one, is published with that parameter
/// filled and every component complete.
pub proof fn lemma_second_press_fills(
    pending: Seq<StyleComponentView>,
    template: KeyEventFields,
    ev: Event,
    binds: Seq<KeybindView>,
    i: int,
    v: Seq<char>,
)
    requires
        0 <= i < pending.len(),
        pending[i].value is None,
        forall|j: int| 0 <= j < pending.len() && j != i ==> pending[j].value is Some,
        second_press_value(ev, binds) == Some(v),
    ensures
        step_spec(StateView::AwaitingSecondKey { pending, template }, ev, binds) matches Ok(p) && {
            &&& p.0 is Idle
            &&& p.1 == publish_directives(fill_first_missing(pending, v), template)
            &&& all_filled(fill_first_missing(pending, v))
        },
{
    lemma_fill_one_missing_all_filled(pending, v, i);
}

/// Any event that does not resolve the pending capture — a focus change,
/// a key press with no matching bind, a second style action that is
/// itself incomplete — still terminates the capture: the style is
/// published with its components exactly as authored.
pub proof fn lemma_unresolved_capture_publishes_as_authored(
    pending: Seq<StyleComponentView>,
    template: KeyEventFields,
    ev: Event,
    binds: Seq<KeybindView>,
)
    requires
        second_press_value(ev, binds) is None,
    ensures
        step_spec(StateView::AwaitingSecondKey { pending, template }, ev, binds) == Ok::<
            _,
            StepError,
        >((StateView::Idle, publish_directives(pending, template))),
{
}

/// Whether, from the idle state, the event is a key press resolving to a
/// style action whose components all carry their parameters — the one
/// idle case that publishes.
pub open spec fn resolves_complete_style(ev: Event, binds: Seq<KeybindView>) -> bool {
    match ev {
        Event::KeyPress { fields } => key_of_code(fields.detail) != Code::LeftSuper && match
            find_bind(binds, key_of_code(fields.detail)) {
            Some(b) => match b.action {
                ActionView::Style { style } => all_filled(style),
                ActionView::Rebind { .. } => false,
            },
            None => false,
        },
        _ => false,
    }
}

proof fn lemma_publish_directives_count(cs: Seq<StyleComponentView>, template: KeyEventFields)
    ensures
        publish_count(publish_directives(cs, template)) == 1,
{
    let ds = publish_directives(cs, template);
    assert(ds.subrange(1, 2).len() == 1);
    assert(!(ds.subrange(1, 2)[0] is Publish));
    lemma_publish_count_zero(ds.subrange(1, 2));
}

/// From the idle state the machine publishes exactly once when the key
/// press resolves to a style action with every parameter present, and
/// never otherwise — in particular, a rebind action never publishes.
pub proof fn lemma_idle_publishes_iff_complete_style(ev: Event, binds: Seq<KeybindView>)
    ensures
        step_spec(StateView::Idle, ev, binds) matches Ok(p) ==> publish_count(p.1) == (
        if resolves_complete_style(ev, binds) {
            1nat
        } else {
            0nat
        }),
{
    let r = step_spec(StateView::Idle, ev, binds);
    if let Ok(p) = r {
        if resolves_complete_style(ev, binds) {
            let fields = ev->fields;
            let b = find_bind(binds, key_of_code(fields.detail))->Some_0;
            lemma_publish_directives_count(b.action->style, fields);
        } else {
            lemma_publish_count_zero(p.1);
        }
    }
}

/// Every step out of the second-press wait — resolved or not — publishes
/// the pending style exactly once.
pub proof fn lemma_awaiting_publishes_once(
    pending: Seq<StyleComponentView>,
    template: KeyEventFields,
    ev: Event,
    binds: Seq<KeybindView>,
)
    ensures
        step_spec(StateView::AwaitingSecondKey { pending, template }, ev, binds) matches Ok(p)
            && publish_count(p.1) == 1,
{
    let final_cs = match second_press_value(ev, binds) {
        Some(v) => fill_first_missing(pending, v),
        None => pending,
    };
    lemma_publish_directives_count(final_cs, template);
}

proof fn lemma_publish_count_zero(ds: Seq<DirectiveView>)
    requires
        forall|i: int| 0 <= i < ds.len() ==> !(#[trigger] ds[i] is Publish),
    ensures
        publish_count(ds) == 0,
    decreases ds.len(),
{
    if ds.len() > 0 {
        lemma_publish_count_zero(ds.subrange(1, ds.len() as int));
    }
}

} // verus!
