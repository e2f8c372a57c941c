//! The window-procedure hook's dispatch logic: a state machine over the
//! in-process modifier state and the remembered key, deciding for every
//! intercepted message what is swallowed, what is forwarded, which synthetic
//! modifier transitions are injected, and which side effects the surrounding
//! code must perform.
//!
//! The hook swallows focus-loss and IME messages, tracks the mouse position
//! into shared memory, applies modifier masks by synthesizing real key
//! transitions, and rewrites character messages while a modifier is active,
//! because the platform's own character translation does not know about
//! synthetic modifier state.

use vstd::prelude::*;

use crate::shm::{MemoryManager, SharedMemory};

use crate::messages::{
    key_message_lparam, spec_key_lparam, spec_mouse_x, spec_mouse_y, ForwardedMessage, VK_CONTROL,
    VK_MENU, VK_SHIFT, WI_CONSOLE, WI_DETACH, WI_MODIFIERS, WI_REMAP, WM_CHAR, WM_IME_NOTIFY,
    WM_IME_SETCONTEXT, WM_KEYDOWN, WM_KEYUP, WM_KILLFOCUS, WM_MOUSEMOVE,
};

verus! {

/// Last-known physical state of the three modifier keys, as inferred from
/// the synthetic modifier-change notifications.
#[derive(Clone, Copy, Debug, PartialEq, Eq, Structural)]
pub struct ModifierState {
    pub shift: bool,
    pub ctrl: bool,
    pub alt: bool,
}

impl ModifierState {
    /// True when any modifier is held.
    pub open spec fn spec_any(self) -> bool {
        self.shift || self.ctrl || self.alt
    }

    /// All modifiers released.
    pub fn released() -> (r: ModifierState)
        ensures
            r == (ModifierState { shift: false, ctrl: false, alt: false }),
    {
        ModifierState { shift: false, ctrl: false, alt: false }
    }

    /// True when any modifier is held.
    pub fn any_active(&self) -> (r: bool)
        ensures
            r == self.spec_any(),
    {
        self.shift || self.ctrl || self.alt
    }
}

/// The modifier state encoded in a modifier-change mask: bit 0 shift,
/// bit 1 ctrl, bit 2 alt.
pub open spec fn spec_decode_modifiers(mask: usize) -> ModifierState {
    ModifierState { shift: mask & 1 != 0, ctrl: mask & 2 != 0, alt: mask & 4 != 0 }
}

/// Decodes a modifier-change mask into its (shift, ctrl, alt) bits.
pub fn decode_modifiers(wparam: usize) -> (r: (bool, bool, bool))
    ensures
        r.0 == (wparam & 1 != 0),
        r.1 == (wparam & 2 != 0),
        r.2 == (wparam & 4 != 0),
{
    let shift = (wparam & 1) != 0;
    let ctrl = (wparam & 2) != 0;
    let alt = (wparam & 4) != 0;
    (shift, ctrl, alt)
}

/// The modifier bits of a lookup key: bit 0 shift, bit 1 ctrl, bit 2 alt.
pub open spec fn spec_modifier_bits(shift: bool, ctrl: bool, alt: bool) -> u8 {
    (if shift {
        1u8
    } else {
        0u8
    }) | (if ctrl {
        2u8
    } else {
        0u8
    }) | (if alt {
        4u8
    } else {
        0u8
    })
}

/// A lookup key combining a raw key with modifier bits: modifiers in the
/// high byte, the key in the low byte.
pub open spec fn spec_rebuild_key(key: u8, shift: bool, ctrl: bool, alt: bool) -> u16 {
    ((spec_modifier_bits(shift, ctrl, alt) as u16) << 8) | (key as u16)
}

proof fn lemma_rebuild_key_fields(m: u8, k: u8)
    by (bit_vector)
    ensures
        (((m as u16) << 8) | (k as u16)) & 0xFF == k as u16,
        (((m as u16) << 8) | (k as u16)) >> 8 == m as u16,
{
}

/// Recombines a remembered raw key with the active modifier bits into the
/// lookup key used to re-derive a translated character.
pub fn rebuild_key(key: u8, shift: bool, ctrl: bool, alt: bool) -> (r: u16)
    ensures
        r == spec_rebuild_key(key, shift, ctrl, alt),
        r & 0xFF == key as u16,
        r >> 8 == spec_modifier_bits(shift, ctrl, alt) as u16,
{
    let modifiers: u8 = (if shift {
        1u8
    } else {
        0u8
    }) | (if ctrl {
        2u8
    } else {
        0u8
    }) | (if alt {
        4u8
    } else {
        0u8
    });
    let r = ((modifiers as u16) << 8) | (key as u16);
    proof {
        lemma_rebuild_key_fields(modifiers, key);
    }
    r
}

proof fn lemma_mask_bits_bv(s: u8, c: u8, a: u8)
    by (bit_vector)
    requires
        s == 0 || s == 1,
        c == 0 || c == 2,
        a == 0 || a == 4,
    ensures
        (((s | c | a) as usize) & 1 != 0) == (s == 1),
        (((s | c | a) as usize) & 2 != 0) == (c == 2),
        (((s | c | a) as usize) & 4 != 0) == (a == 4),
{
}

/// Law: the modifier mask the relay builds from a modifier state decodes,
/// on the hook's side, to exactly that state — a posted modifier change
/// applies precisely the state it was built from.
pub proof fn lemma_modifier_mask_roundtrip(shift: bool, ctrl: bool, alt: bool)
    ensures
        spec_decode_modifiers(spec_modifier_bits(shift, ctrl, alt) as usize) == (ModifierState {
            shift,
            ctrl,
            alt,
        }),
{
    let s: u8 = if shift {
        1u8
    } else {
        0u8
    };
    let c: u8 = if ctrl {
        2u8
    } else {
        0u8
    };
    let a: u8 = if alt {
        4u8
    } else {
        0u8
    };
    lemma_mask_bits_bv(s, c, a);
    assert(spec_modifier_bits(shift, ctrl, alt) == (s | c | a));
}

/// Hardware scan codes of the three modifier keys, resolved by the platform
/// once at install time.  A scan code occupies bits 16 to 23 of a key
/// message parameter, so each fits in a byte.
#[derive(Clone, Copy, Debug, PartialEq, Eq, Structural)]
pub struct ModifierScancodes {
    pub shift: u32,
    pub ctrl: u32,
    pub alt: u32,
}

impl ModifierScancodes {
    pub open spec fn wf(self) -> bool {
        &&& self.shift <= 0xFF
        &&& self.ctrl <= 0xFF
        &&& self.alt <= 0xFF
    }
}

/// The synthetic key transition forwarded for one modifier whose state
/// flips: a key-up when the modifier was held, else a key-down.
pub open spec fn spec_modifier_event(vkey: usize, scancode: u32, was_down: bool) -> ForwardedMessage {
    ForwardedMessage {
        msg: if was_down {
            WM_KEYUP
        } else {
            WM_KEYDOWN
        },
        wparam: vkey,
        lparam: spec_key_lparam(scancode, !was_down),
    }
}

/// The synthetic key transitions a modifier-change from `cur` to `new`
/// forwards: one per modifier whose state flips, in shift, ctrl, alt order.
pub open spec fn spec_modifier_events(
    cur: ModifierState,
    new: ModifierState,
    sc: ModifierScancodes,
) -> Seq<ForwardedMessage> {
    (if new.shift != cur.shift {
        seq![spec_modifier_event(VK_SHIFT, sc.shift, cur.shift)]
    } else {
        Seq::empty()
    }) + (if new.ctrl != cur.ctrl {
        seq![spec_modifier_event(VK_CONTROL, sc.ctrl, cur.ctrl)]
    } else {
        Seq::empty()
    }) + (if new.alt != cur.alt {
        seq![spec_modifier_event(VK_MENU, sc.alt, cur.alt)]
    } else {
        Seq::empty()
    })
}

/// How many of the three modifiers flip between two states.
pub open spec fn spec_flip_count(cur: ModifierState, new: ModifierState) -> int {
    (if new.shift != cur.shift {
        1int
    } else {
        0int
    }) + (if new.ctrl != cur.ctrl {
        1int
    } else {
        0int
    }) + (if new.alt != cur.alt {
        1int
    } else {
        0int
    })
}

/// How many messages in a sequence carry the given virtual key.
pub open spec fn count_for_vkey(s: Seq<ForwardedMessage>, vkey: usize) -> int
    decreases s.len(),
{
    if s.len() == 0 {
        0int
    } else {
        (if s[0].wparam == vkey {
            1int
        } else {
            0int
        }) + count_for_vkey(s.drop_first(), vkey)
    }
}

proof fn lemma_count_for_vkey_add(a: Seq<ForwardedMessage>, b: Seq<ForwardedMessage>, vkey: usize)
    ensures
        count_for_vkey(a + b, vkey) == count_for_vkey(a, vkey) + count_for_vkey(b, vkey),
    decreases a.len(),
{
    if a.len() == 0 {
        assert(a + b =~= b);
    } else {
        assert((a + b).drop_first() =~= a.drop_first() + b);
        assert((a + b)[0] == a[0]);
        lemma_count_for_vkey_add(a.drop_first(), b, vkey);
    }
}

proof fn lemma_count_singleton(e: ForwardedMessage, vkey: usize)
    ensures
        count_for_vkey(seq![e], vkey) == (if e.wparam == vkey {
            1int
        } else {
            0int
        }),
{
    let s = seq![e];
    assert(s.drop_first() =~= Seq::<ForwardedMessage>::empty());
    assert(count_for_vkey(Seq::<ForwardedMessage>::empty(), vkey) == 0);
    assert(s[0] == e);
}

/// Law: a modifier change from `cur` to `new` forwards exactly one synthetic
/// key message per modifier whose state flips and none for a modifier whose
/// state is unchanged; each message is a key-up precisely when that modifier
/// was held, with the modifier's own scan code packed into its parameter.
pub proof fn lemma_modifier_change_exact(
    cur: ModifierState,
    new: ModifierState,
    sc: ModifierScancodes,
)
    ensures
        spec_modifier_events(cur, new, sc).len() == spec_flip_count(cur, new),
        count_for_vkey(spec_modifier_events(cur, new, sc), VK_SHIFT) == (if new.shift != cur.shift {
            1int
        } else {
            0int
        }),
        count_for_vkey(spec_modifier_events(cur, new, sc), VK_CONTROL) == (if new.ctrl != cur.ctrl {
            1int
        } else {
            0int
        }),
        count_for_vkey(spec_modifier_events(cur, new, sc), VK_MENU) == (if new.alt != cur.alt {
            1int
        } else {
            0int
        }),
        forall|i: int|
            0 <= i < spec_modifier_events(cur, new, sc).len() ==> {
                let e = #[trigger] spec_modifier_events(cur, new, sc)[i];
                &&& (e.wparam == VK_SHIFT || e.wparam == VK_CONTROL || e.wparam == VK_MENU)
                &&& (e.wparam == VK_SHIFT ==> e == spec_modifier_event(VK_SHIFT, sc.shift, cur.shift)
                    && new.shift != cur.shift)
                &&& (e.wparam == VK_CONTROL ==> e == spec_modifier_event(VK_CONTROL, sc.ctrl, cur.ctrl)
                    && new.ctrl != cur.ctrl)
                &&& (e.wparam == VK_MENU ==> e == spec_modifier_event(VK_MENU, sc.alt, cur.alt)
                    && new.alt != cur.alt)
            },
{
    let cs = if new.shift != cur.shift {
        seq![spec_modifier_event(VK_SHIFT, sc.shift, cur.shift)]
    } else {
        Seq::<ForwardedMessage>::empty()
    };
    let cc = if new.ctrl != cur.ctrl {
        seq![spec_modifier_event(VK_CONTROL, sc.ctrl, cur.ctrl)]
    } else {
        Seq::<ForwardedMessage>::empty()
    };
    let ca = if new.alt != cur.alt {
        seq![spec_modifier_event(VK_MENU, sc.alt, cur.alt)]
    } else {
        Seq::<ForwardedMessage>::empty()
    };
    assert(spec_modifier_events(cur, new, sc) == cs + cc + ca);
    lemma_count_for_vkey_add(cs + cc, ca, VK_SHIFT);
    lemma_count_for_vkey_add(cs, cc, VK_SHIFT);
    lemma_count_for_vkey_add(cs + cc, ca, VK_CONTROL);
    lemma_count_for_vkey_add(cs, cc, VK_CONTROL);
    lemma_count_for_vkey_add(cs + cc, ca, VK_MENU);
    lemma_count_for_vkey_add(cs, cc, VK_MENU);
    if new.shift != cur.shift {
        lemma_count_singleton(spec_modifier_event(VK_SHIFT, sc.shift, cur.shift), VK_SHIFT);
        lemma_count_singleton(spec_modifier_event(VK_SHIFT, sc.shift, cur.shift), VK_CONTROL);
        lemma_count_singleton(spec_modifier_event(VK_SHIFT, sc.shift, cur.shift), VK_MENU);
    }
    if new.ctrl != cur.ctrl {
        lemma_count_singleton(spec_modifier_event(VK_CONTROL, sc.ctrl, cur.ctrl), VK_SHIFT);
        lemma_count_singleton(spec_modifier_event(VK_CONTROL, sc.ctrl, cur.ctrl), VK_CONTROL);
        lemma_count_singleton(spec_modifier_event(VK_CONTROL, sc.ctrl, cur.ctrl), VK_MENU);
    }
    if new.alt != cur.alt {
        lemma_count_singleton(spec_modifier_event(VK_MENU, sc.alt, cur.alt), VK_SHIFT);
        lemma_count_singleton(spec_modifier_event(VK_MENU, sc.alt, cur.alt), VK_CONTROL);
        lemma_count_singleton(spec_modifier_event(VK_MENU, sc.alt, cur.alt), VK_MENU);
    }
}

/// What the hook does with an intercepted message, beyond its own state.
#[derive(Clone, Copy, Debug, PartialEq, Eq, Structural)]
pub enum WndprocDisposition {
    /// Fully handled; never forwarded.  `result` is returned to the sender.
    Handled { result: i64 },
    /// Chain to the original window procedure with the message unchanged.
    Forward,
    /// Ask the platform to translate `vkey` under a simulated keyboard state
    /// with these modifier bits set, then forward the translated character.
    TranslateChar { vkey: u8, shift: bool, ctrl: bool, alt: bool },
}

/// A side effect the surrounding code performs for the hook.
#[derive(Clone, Copy, Debug, PartialEq, Eq, Structural)]
pub enum HookCommand {
    /// Toggle the visibility of the process's console window.
    ToggleConsole,
    /// Close and reopen the shared-memory mapping.
    RemapSharedMemory,
    /// Disable the swap hook, close the mapping, uninstall this hook.
    Detach,
    /// Record the live mouse position in shared memory.
    StoreMousePosition { x: i32, y: i32 },
}

/// Everything one intercepted message produces: synthetic messages to
/// forward first, at most one side effect, and the message's disposition.
pub struct Dispatch {
    pub forwards: Vec<ForwardedMessage>,
    pub command: Option<HookCommand>,
    pub disposition: WndprocDisposition,
}

/// In-process state of the window-procedure hook.
pub struct HookState {
    /// Last-known modifier state, updated only by modifier-change messages.
    pub modifiers: ModifierState,
    /// Raw key of the last key-down seen while a modifier was active; the
    /// platform's character translation does not know about synthetic
    /// modifiers, so the next character message is re-derived from this.
    pub last_key: usize,
}

/// The character-rewrite request a character message produces while a
/// modifier is active: translate the remembered key under the stored
/// modifier state.
pub open spec fn spec_char_rewrite(st: HookState) -> WndprocDisposition {
    WndprocDisposition::TranslateChar {
        vkey: st.last_key as u8,
        shift: st.modifiers.shift,
        ctrl: st.modifiers.ctrl,
        alt: st.modifiers.alt,
    }
}

impl HookState {
    /// Fresh hook state: no modifier held, no remembered key.
    pub fn new() -> (r: HookState)
        ensures
            r.modifiers == (ModifierState { shift: false, ctrl: false, alt: false }),
            r.last_key == 0,
    {
        HookState { modifiers: ModifierState::released(), last_key: 0 }
    }

    /// Applies a modifier-change mask: forwards one synthetic key transition
    /// per modifier whose state flips — key-up if it was held, key-down if
    /// not — and leaves the stored state equal to the new mask.
    pub fn apply_modifier_change(&mut self, sc: &ModifierScancodes, mask: usize) -> (events: Vec<
        ForwardedMessage,
    >)
        requires
            sc.wf(),
        ensures
            events@ == spec_modifier_events(old(self).modifiers, spec_decode_modifiers(mask), *sc),
            final(self).modifiers == spec_decode_modifiers(mask),
            final(self).last_key == old(self).last_key,
    {
        let (nshift, nctrl, nalt) = decode_modifiers(mask);
        let cur = self.modifiers;
        let mut events: Vec<ForwardedMessage> = Vec::new();
        if nshift != cur.shift {
            events.push(
                ForwardedMessage {
                    msg: if cur.shift {
                        WM_KEYUP
                    } else {
                        WM_KEYDOWN
                    },
                    wparam: VK_SHIFT,
                    lparam: key_message_lparam(sc.shift, !cur.shift),
                },
            );
        }
        if nctrl != cur.ctrl {
            events.push(
                ForwardedMessage {
                    msg: if cur.ctrl {
                        WM_KEYUP
                    } else {
                        WM_KEYDOWN
                    },
                    wparam: VK_CONTROL,
                    lparam: key_message_lparam(sc.ctrl, !cur.ctrl),
                },
            );
        }
        if nalt != cur.alt {
            events.push(
                ForwardedMessage {
                    msg: if cur.alt {
                        WM_KEYUP
                    } else {
                        WM_KEYDOWN
                    },
                    wparam: VK_MENU,
                    lparam: key_message_lparam(sc.alt, !cur.alt),
                },
            );
        }
        self.modifiers = ModifierState { shift: nshift, ctrl: nctrl, alt: nalt };
        proof {
            assert(events@ =~= spec_modifier_events(
                old(self).modifiers,
                spec_decode_modifiers(mask),
                *sc,
            ));
        }
        events
    }

    /// Dispatches one intercepted window message.
    ///
    /// Private control messages are fully handled: console toggle, remap,
    /// detach, and modifier changes (which forward their synthetic key
    /// transitions first).  Focus-loss and IME messages are swallowed.  A
    /// key-down while a modifier is active records the raw key; a character
    /// message while a modifier is active asks for a re-derived translation
    /// instead of forwarding the stale character.  A mouse move records the
    /// decoded position.  Everything else is forwarded unchanged.
    pub fn handle_message(
        &mut self,
        sc: &ModifierScancodes,
        msg: u32,
        wparam: usize,
        lparam: u64,
    ) -> (r: Dispatch)
        requires
            sc.wf(),
        ensures
            msg == WI_CONSOLE ==> r.forwards@.len() == 0 && r.command == Some(
                HookCommand::ToggleConsole,
            ) && r.disposition == (WndprocDisposition::Handled { result: 0 }) && *final(self)
                == *old(self),
            msg == WI_REMAP ==> r.forwards@.len() == 0 && r.command == Some(
                HookCommand::RemapSharedMemory,
            ) && r.disposition == (WndprocDisposition::Handled { result: 0 }) && *final(self)
                == *old(self),
            msg == WI_DETACH ==> r.forwards@.len() == 0 && r.command == Some(HookCommand::Detach)
                && r.disposition == (WndprocDisposition::Handled { result: 0 }) && *final(self)
                == *old(self),
            msg == WI_MODIFIERS ==> r.forwards@ == spec_modifier_events(
                old(self).modifiers,
                spec_decode_modifiers(wparam),
                *sc,
            ) && final(self).modifiers == spec_decode_modifiers(wparam) && final(self).last_key
                == old(self).last_key && r.command is None && r.disposition == (
            WndprocDisposition::Handled { result: 0 }),
            msg == WM_KEYDOWN ==> r.forwards@.len() == 0 && r.command is None && r.disposition
                == WndprocDisposition::Forward && final(self).modifiers == old(self).modifiers
                && final(self).last_key == (if old(self).modifiers.spec_any() {
                wparam
            } else {
                old(self).last_key
            }),
            msg == WM_CHAR && old(self).modifiers.spec_any() ==> r.forwards@.len() == 0
                && r.command is None && r.disposition == spec_char_rewrite(*old(self))
                && *final(self) == *old(self),
            msg == WM_CHAR && !old(self).modifiers.spec_any() ==> r.forwards@.len() == 0
                && r.command is None && r.disposition == WndprocDisposition::Forward && *final(self)
                == *old(self),
            msg == WM_KILLFOCUS || msg == WM_IME_SETCONTEXT || msg == WM_IME_NOTIFY
                ==> r.forwards@.len() == 0 && r.command is None && r.disposition == (
            WndprocDisposition::Handled { result: 0 }) && *final(self) == *old(self),
            msg == WM_MOUSEMOVE ==> r.forwards@.len() == 0 && r.command == Some(
                HookCommand::StoreMousePosition {
                    x: spec_mouse_x(lparam),
                    y: spec_mouse_y(lparam),
                },
            ) && r.disposition == WndprocDisposition::Forward && *final(self) == *old(self),
            !(msg == WI_CONSOLE || msg == WI_REMAP || msg == WI_DETACH || msg == WI_MODIFIERS
                || msg == WM_KEYDOWN || msg == WM_CHAR || msg == WM_KILLFOCUS || msg
                == WM_IME_SETCONTEXT || msg == WM_IME_NOTIFY || msg == WM_MOUSEMOVE)
                ==> r.forwards@.len() == 0 && r.command is None && r.disposition
                == WndprocDisposition::Forward && *final(self) == *old(self),
    {
        if msg == WI_CONSOLE {
            Dispatch {
                forwards: Vec::new(),
                command: Some(HookCommand::ToggleConsole),
                disposition: WndprocDisposition::Handled { result: 0 },
            }
        } else if msg == WI_REMAP {
            Dispatch {
                forwards: Vec::new(),
                command: Some(HookCommand::RemapSharedMemory),
                disposition: WndprocDisposition::Handled { result: 0 },
            }
        } else if msg == WI_DETACH {
            Dispatch {
                forwards: Vec::new(),
                command: Some(HookCommand::Detach),
                disposition: WndprocDisposition::Handled { result: 0 },
            }
        } else if msg == WI_MODIFIERS {
            let events = self.apply_modifier_change(sc, wparam);
            Dispatch {
                forwards: events,
                command: None,
                disposition: WndprocDisposition::Handled { result: 0 },
            }
        } else if msg == WM_KEYDOWN {
            if self.modifiers.any_active() {
                self.last_key = wparam;
            }
            Dispatch {
                forwards: Vec::new(),
                command: None,
                disposition: WndprocDisposition::Forward,
            }
        } else if msg == WM_CHAR {
            if self.modifiers.any_active() {
                let key = rebuild_key(
                    #[verifier::truncate] (self.last_key as u8),
                    self.modifiers.shift,
                    self.modifiers.ctrl,
                    self.modifiers.alt,
                );
                let vkey = #[verifier::truncate] ((key & 0xFF) as u8);
                assert(vkey == old(self).last_key as u8);
                Dispatch {
                    forwards: Vec::new(),
                    command: None,
                    disposition: WndprocDisposition::TranslateChar {
                        vkey,
                        shift: self.modifiers.shift,
                        ctrl: self.modifiers.ctrl,
                        alt: self.modifiers.alt,
                    },
                }
            } else {
                Dispatch {
                    forwards: Vec::new(),
                    command: None,
                    disposition: WndprocDisposition::Forward,
                }
            }
        } else if msg == WM_KILLFOCUS || msg == WM_IME_SETCONTEXT || msg == WM_IME_NOTIFY {
            Dispatch {
                forwards: Vec::new(),
                command: None,
                disposition: WndprocDisposition::Handled { result: 0 },
            }
        } else if msg == WM_MOUSEMOVE {
            let x = #[verifier::truncate] ((lparam & 0xFFFF) as i32);
            let y = #[verifier::truncate] (((lparam >> 16) & 0xFFFF) as i32);
            Dispatch {
                forwards: Vec::new(),
                command: Some(HookCommand::StoreMousePosition { x, y }),
                disposition: WndprocDisposition::Forward,
            }
        } else {
            Dispatch {
                forwards: Vec::new(),
                command: None,
                disposition: WndprocDisposition::Forward,
            }
        }
    }
}

/// Builds the corrected character message once the platform has translated
/// the rewrite request: the forwarded message carries exactly the
/// translation, with the original message parameter untouched.
pub fn rewritten_char_message(translated: usize, lparam: u64) -> (r: ForwardedMessage)
    ensures
        r == (ForwardedMessage { msg: WM_CHAR, wparam: translated, lparam }),
{
    ForwardedMessage { msg: WM_CHAR, wparam: translated, lparam }
}

/// Performs the shared-memory side of one hook command.  A mouse store
/// writes the decoded position into a live mapping and is skipped when the
/// mapping is not live; a remap or detach closes the mapping — reattaching
/// after a remap, like the console toggle, is platform work outside the
/// region — and either is safe when the mapping was never acquired.
pub fn apply_hook_command(mem: &mut MemoryManager, cmd: HookCommand)
    requires
        old(mem).attached ==> old(mem).region.wf(),
    ensures
        cmd matches HookCommand::StoreMousePosition { x, y } ==> (if old(mem).spec_mapped() {
            final(mem).attached == old(mem).attached && final(mem).region == (SharedMemory {
                mouse_x: x,
                mouse_y: y,
                ..old(mem).region
            })
        } else {
            *final(mem) == *old(mem)
        }),
        (cmd == HookCommand::RemapSharedMemory || cmd == HookCommand::Detach)
            ==> !final(mem).attached && final(mem).region == old(mem).region,
        cmd == HookCommand::ToggleConsole ==> *final(mem) == *old(mem),
{
    match cmd {
        HookCommand::StoreMousePosition { x, y } => {
            if mem.is_mapped() {
                mem.set_mouse_position(x, y);
            }
        },
        HookCommand::RemapSharedMemory => {
            mem.close_map();
        },
        HookCommand::Detach => {
            mem.close_map();
        },
        HookCommand::ToggleConsole => {},
    }
}

/// Law: for any platform translation table, a character message rewritten
/// while a modifier is active carries exactly the table's entry for the
/// remembered key under the stored modifier state — re-deriving the lookup
/// as the handler does yields the forwarded character.
pub proof fn lemma_char_rewrite_matches_translation(
    st: HookState,
    table: Map<(u8, ModifierState), usize>,
    lparam: u64,
)
    requires
        st.modifiers.spec_any(),
        table.dom().contains((st.last_key as u8, st.modifiers)),
    ensures
        spec_char_rewrite(st) matches WndprocDisposition::TranslateChar { vkey, shift, ctrl, alt }
            && (ForwardedMessage {
            msg: WM_CHAR,
            wparam: table[(vkey, ModifierState { shift, ctrl, alt })],
            lparam,
        }) == (ForwardedMessage {
            msg: WM_CHAR,
            wparam: table[(st.last_key as u8, st.modifiers)],
            lparam,
        }),
{
}

} // verus!
