use vstd::prelude::*;

use crate::input::{chain_events, chain_to_inputs, KeyboardInput};
use crate::keycode::KeyCode;
use crate::sender::{dispatch_plan, dispatch_steps, SendInputApi, SendInputType, SendStep};

verus! {

/// A chain of keystrokes planned for one injection.
pub trait KeyboardTrait {
    /// The keystrokes of the chain, in the order they are typed.
    spec fn chain(&self) -> Seq<KeyCode>;

    /// The strategy that delivers the chain's events, fixed once configured.
    spec fn delivery(&self) -> SendInputType;

    /// Appends a keystroke at the end of the chain.
    fn append_input_chain(&mut self, key_code: KeyCode)
        ensures
            final(self).chain() == old(self).chain().push(key_code),
            final(self).delivery() == old(self).delivery(),
    ;

    /// Empties the chain.
    fn clear_input_chain(&mut self)
        ensures
            final(self).chain() == Seq::<KeyCode>::empty(),
            final(self).delivery() == old(self).delivery(),
    ;

    /// The raw events of the chain. The chain stays as it is, so it can be
    /// sent again.
    fn input_list(&self) -> (r: Vec<KeyboardInput>)
        ensures
            r@ == chain_events(self.chain()),
    ;
}

/// A keystroke chain together with the strategy that delivers its events.
pub struct KeyboardImpl {
    pub keycode_chain: Vec<KeyCode>,
    pub sender: SendInputType,
}

impl KeyboardImpl {
    /// An empty chain delivered one event at a time.
    pub fn new_impl() -> (r: KeyboardImpl)
        ensures
            r.keycode_chain@ == Seq::<KeyCode>::empty(),
            r.sender == SendInputType::Normal,
    {
        KeyboardImpl { keycode_chain: Vec::new(), sender: SendInputType::Normal }
    }

    /// An empty chain delivered one event at a time, with a pause of
    /// `delay_millis` after each.
    pub fn new_delay_impl(delay_millis: u64) -> (r: KeyboardImpl)
        ensures
            r.keycode_chain@ == Seq::<KeyCode>::empty(),
            r.sender == SendInputType::Slow(delay_millis),
    {
        KeyboardImpl { keycode_chain: Vec::new(), sender: SendInputType::Slow(delay_millis) }
    }

    /// The steps that deliver the chain's raw events.
    pub fn send_plan(&self) -> (r: Vec<SendStep>)
        ensures
            r@ == dispatch_steps(self.sender, chain_events(self.keycode_chain@).len()),
    {
        let inputs = chain_to_inputs(&self.keycode_chain);
        dispatch_plan(self.sender, inputs.len())
    }

    /// Hands the chain's raw events to `sender` in one batch and returns what
    /// it reports. The chain stays as it is. The configured strategy plays no
    /// part here: `sender` decides how the batch is delivered. To deliver as
    /// the strategy asks, follow `send_plan`.
    pub fn send_key<S: SendInputApi>(&self, sender: &S) -> (r: u32) {
        let inputs = chain_to_inputs(&self.keycode_chain);
        sender.send_input(inputs.as_slice())
    }
}

impl KeyboardTrait for KeyboardImpl {
    open spec fn chain(&self) -> Seq<KeyCode> {
        self.keycode_chain@
    }

    open spec fn delivery(&self) -> SendInputType {
        self.sender
    }

    fn append_input_chain(&mut self, key_code: KeyCode) {
        self.keycode_chain.push(key_code);
    }

    fn clear_input_chain(&mut self) {
        self.keycode_chain.clear();
    }

    fn input_list(&self) -> (r: Vec<KeyboardInput>) {
        chain_to_inputs(&self.keycode_chain)
    }
}

/// A keystroke chain and its delivery strategy, configured once.
pub struct Keyboard {
    inner: KeyboardImpl,
}

impl Keyboard {
    /// An empty chain delivered one event at a time.
    pub fn new() -> (r: Keyboard)
        ensures
            r.chain() == Seq::<KeyCode>::empty(),
            r.delivery() == SendInputType::Normal,
    {
        Keyboard { inner: KeyboardImpl::new_impl() }
    }

    /// Adds a pause of `delay_millis` after each event; a delay of 0 leaves
    /// the strategy as it is. The chain is kept.
    pub fn new_delay(&mut self, delay_millis: u64) -> (r: &Self)
        ensures
            final(self).chain() == old(self).chain(),
            delay_millis > 0 ==> final(self).delivery() == SendInputType::Slow(delay_millis),
            delay_millis == 0 ==> final(self).delivery() == old(self).delivery(),
            *r == *final(self),
    {
        if delay_millis > 0 {
            self.inner.sender = KeyboardImpl::new_delay_impl(delay_millis).sender;
        }
        self
    }

    /// The delivery strategy.
    pub fn send_type(&self) -> (r: SendInputType)
        ensures
            r == self.delivery(),
    {
        self.inner.sender
    }

    /// The steps that deliver the chain's raw events.
    pub fn send_plan(&self) -> (r: Vec<SendStep>)
        ensures
            r@ == dispatch_steps(self.delivery(), chain_events(self.chain()).len()),
    {
        self.inner.send_plan()
    }

    /// Hands the chain's raw events to `sender` in one batch and returns what
    /// it reports. The chain stays as it is. The strategy set by `new_delay`
    /// plays no part here: `sender` decides how the batch is delivered. To
    /// deliver as the strategy asks, follow `send_plan`.
    pub fn send_key<S: SendInputApi>(&self, sender: &S) -> (r: u32) {
        self.inner.send_key(sender)
    }
}

impl KeyboardTrait for Keyboard {
    closed spec fn chain(&self) -> Seq<KeyCode> {
        self.inner.keycode_chain@
    }

    closed spec fn delivery(&self) -> SendInputType {
        self.inner.sender
    }

    fn append_input_chain(&mut self, key_code: KeyCode) {
        self.inner.append_input_chain(key_code);
    }

    fn clear_input_chain(&mut self) {
        self.inner.clear_input_chain();
    }

    fn input_list(&self) -> (r: Vec<KeyboardInput>) {
        self.inner.input_list()
    }
}

} // verus!
