//! The single-slot holder through which the callback listener hands the
//! authorization payload to the rest of the process.

use vstd::prelude::*;

verus! {

/// What a read-and-clear hands back from a slot holding `held`.
pub open spec fn taken(held: Option<Seq<char>>) -> Option<Seq<char>> {
    held
}

/// What a slot holds after a read-and-clear.
pub open spec fn after_take(held: Option<Seq<char>>) -> Option<Seq<char>> {
    None
}

/// What a slot holding `held` holds after an unconditional write of `token`.
pub open spec fn after_store(held: Option<Seq<char>>, token: Seq<char>) -> Option<Seq<char>> {
    Some(token)
}

/// What a slot holding `held` holds after `token` was offered to it: the
/// first writer wins, so a held value stays.
pub open spec fn after_offer(held: Option<Seq<char>>, token: Seq<char>) -> Option<Seq<char>> {
    match held {
        Some(_) => held,
        None => Some(token),
    }
}

/// An authorization payload: a query string carrying an authorization code,
/// or the relayed fragment carrying tokens. It is opaque text: nothing in it
/// is parsed here.
pub type AuthToken = String;

/// A holder for at most one unconsumed authorization payload.
///
/// The view is the payload held, if any.
pub struct TokenSlot {
    value: Option<AuthToken>,
}

impl View for TokenSlot {
    type V = Option<Seq<char>>;

    closed spec fn view(&self) -> Option<Seq<char>> {
        match self.value {
            Some(s) => Some(s@),
            None => None,
        }
    }
}

impl TokenSlot {
    /// An empty slot.
    pub fn new() -> (slot: TokenSlot)
        ensures
            slot@ is None,
    {
        TokenSlot { value: None }
    }

    /// Whether nothing is held.
    pub fn is_empty(&self) -> (empty: bool)
        ensures
            empty == (self@ is None),
    {
        self.value.is_none()
    }

    /// Discards whatever is held.
    pub fn clear(&mut self)
        ensures
            final(self)@ is None,
    {
        self.value = None;
    }

    /// Writes `token`, replacing whatever was held.
    pub fn store(&mut self, token: AuthToken)
        ensures
            final(self)@ == after_store(old(self)@, token@),
    {
        self.value = Some(token);
    }

    /// Writes `token` only into an empty slot, and says whether it did.
    pub fn offer(&mut self, token: AuthToken) -> (accepted: bool)
        ensures
            accepted == (old(self)@ is None),
            final(self)@ == after_offer(old(self)@, token@),
    {
        if self.value.is_none() {
            self.value = Some(token);
            true
        } else {
            false
        }
    }

    /// Reads and clears the slot in one step.
    pub fn take(&mut self) -> (token: Option<AuthToken>)
        ensures
            token.deep_view() == taken(old(self)@),
            final(self)@ == after_take(old(self)@),
    {
        self.value.take()
    }
}

/// A payload is consumed at most once: the first read returns what was held,
/// and a second read with no write in between returns nothing.
pub proof fn take_consumes_once(held: Option<Seq<char>>)
    ensures
        taken(held) == held,
        taken(after_take(held)) is None,
        after_take(after_take(held)) is None,
{
}

/// Within a session the first writer wins: once a payload is held, offering
/// another one changes nothing, whatever is offered afterwards.
pub proof fn offer_keeps_first(held: Option<Seq<char>>, first: Seq<char>, later: Seq<char>)
    ensures
        after_offer(after_store(held, first), later) == Some(first),
        after_offer(after_offer(None, first), later) == Some(first),
{
}

} // verus!
