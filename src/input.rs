use vstd::prelude::*;

use crate::keycode::{KeyCode, KeySendMode, KEYEVENTF_KEYUP};

verus! {

/// One raw keyboard event, as the operating system's injection call takes it.
#[derive(Debug, PartialEq, Eq, Structural, Clone, Copy)]
pub struct KeyboardInput {
    /// Virtual key; 0 where the scan code carries a Unicode code unit.
    pub vk: u16,
    pub scan: u16,
    pub flags: u32,
    /// Always 0: the system stamps the time itself.
    pub time: u32,
    /// Marker of the event's origin.
    pub extra_info: usize,
}

/// The raw event with the given fields.
pub open spec fn key_input(vk: u16, scan: u16, flags: u32, extra_info: usize) -> KeyboardInput {
    KeyboardInput { vk, scan, flags, time: 0, extra_info }
}

/// The press of keystroke `k`.
pub open spec fn press_event(k: KeyCode) -> KeyboardInput {
    key_input(k.vk, k.scan_code, k.flags, k.extra_info)
}

/// The release of keystroke `k`.
pub open spec fn release_event(k: KeyCode) -> KeyboardInput {
    key_input(k.vk, k.scan_code, k.flags | KEYEVENTF_KEYUP, k.extra_info)
}

/// The raw events of one keystroke: press then release, or one of the two.
pub open spec fn keystroke_events(k: KeyCode) -> Seq<KeyboardInput> {
    match k.key_send_mode {
        KeySendMode::Immediate => seq![press_event(k), release_event(k)],
        KeySendMode::KeyDown => seq![press_event(k)],
        KeySendMode::KeyUp => seq![release_event(k)],
    }
}

/// The raw events of a chain: the events of each keystroke in chain order.
pub open spec fn chain_events(chain: Seq<KeyCode>) -> Seq<KeyboardInput>
    decreases chain.len(),
{
    if chain.len() == 0 {
        seq![]
    } else {
        chain_events(chain.drop_last()) + keystroke_events(chain.last())
    }
}

/// Builds the raw event of a key with the given fields.
pub fn keyinput_generator_detail(vk: u16, scan: u16, flags: u32, extra_info: usize) -> (r:
    KeyboardInput)
    ensures
        r == key_input(vk, scan, flags, extra_info),
{
    KeyboardInput { vk, scan, flags, time: 0, extra_info }
}

/// Expands a chain of keystrokes into its raw events.
pub fn chain_to_inputs(chain: &Vec<KeyCode>) -> (r: Vec<KeyboardInput>)
    ensures
        r@ == chain_events(chain@),
{
    let mut inputs: Vec<KeyboardInput> = Vec::new();
    let mut i: usize = 0;
    while i < chain.len()
        invariant
            i <= chain@.len(),
            inputs@ == chain_events(chain@.take(i as int)),
        decreases chain.len() - i,
    {
        let k = chain[i];
        let mode = k.key_send_mode;
        if mode != KeySendMode::KeyUp {
            inputs.push(keyinput_generator_detail(k.vk, k.scan_code, k.flags, k.extra_info));
        }
        if mode != KeySendMode::KeyDown {
            inputs.push(
                keyinput_generator_detail(
                    k.vk,
                    k.scan_code,
                    k.flags | KEYEVENTF_KEYUP,
                    k.extra_info,
                ),
            );
        }
        proof {
            assert(chain@.take(i + 1).drop_last() =~= chain@.take(i as int));
        }
        i = i + 1;
        proof {
            assert(inputs@ =~= chain_events(chain@.take(i as int)));
        }
    }
    proof {
        assert(chain@.take(i as int) =~= chain@);
    }
    inputs
}

/// Serialising a concatenation is serialising each part: events are never
/// reordered across keystrokes.
pub proof fn lemma_chain_events_append(a: Seq<KeyCode>, b: Seq<KeyCode>)
    ensures
        chain_events(a + b) == chain_events(a) + chain_events(b),
    decreases b.len(),
{
    if b.len() == 0 {
        assert(a + b =~= a);
        assert(chain_events(a) + chain_events(b) =~= chain_events(a));
    } else {
        lemma_chain_events_append(a, b.drop_last());
        assert((a + b).drop_last() =~= a + b.drop_last());
        assert((a + b).last() == b.last());
        assert(chain_events(a + b) =~= chain_events(a) + chain_events(b));
    }
}

/// A chain of `n` immediate keystrokes serialises to exactly `2n` events: for
/// each keystroke in order, its press and then its release. The events are a
/// function of the chain alone, so serialising the same chain again gives the
/// same list.
pub proof fn lemma_immediate_chain_events(chain: Seq<KeyCode>)
    requires
        forall|i: int| 0 <= i < chain.len() ==> #[trigger] chain[i].key_send_mode
            == KeySendMode::Immediate,
    ensures
        chain_events(chain).len() == 2 * chain.len(),
        forall|i: int|
            0 <= i < chain.len() ==> chain_events(chain)[2 * i] == press_event(#[trigger] chain[i])
                && chain_events(chain)[2 * i + 1] == release_event(chain[i]),
    decreases chain.len(),
{
    if chain.len() > 0 {
        let init = chain.drop_last();
        assert forall|i: int| 0 <= i < init.len() implies #[trigger] init[i].key_send_mode
            == KeySendMode::Immediate by {
            assert(init[i] == chain[i]);
        }
        lemma_immediate_chain_events(init);
        assert(chain[chain.len() - 1].key_send_mode == KeySendMode::Immediate);
        let ev = chain_events(chain);
        assert(ev == chain_events(init) + keystroke_events(chain.last()));
        assert forall|i: int| 0 <= i < chain.len() implies ev[2 * i] == press_event(
            #[trigger] chain[i],
        ) && ev[2 * i + 1] == release_event(chain[i]) by {
            if i < init.len() {
                assert(init[i] == chain[i]);
            }
        }
    }
}

} // verus!
