//! The dialogue dispatcher and the conversation state machine it
//! drives.
//!
//! A dialogue dispatcher keeps one state slot per conversation key.
//! For each incoming input it reads the latest stored state (or the
//! initial state for a new key), runs the transition function, and
//! writes the outcome back before the next event for that key is
//! accepted: within one key, transitions are totally ordered. A
//! transition either continues with a new state or exits; exit removes
//! the slot, so the next event for that key starts fresh. A transition
//! that fails (typically because a reply could not be sent) leaves the
//! stored state untouched and the event counts as handled, which gives
//! the user a natural retry path.
//!
//! The state machine here is a three-step intake conversation: ask for
//! a name, then for an age, then for a location, and finish. Each
//! successor state copies the fields it shares with its predecessor
//! and adds only what the new input supplied.

use vstd::prelude::*;

use std::collections::HashMap;

use crate::errors::TransitionError;

verus! {

broadcast use vstd::std_specs::hash::group_hash_axioms;

/// Whether the character is a decimal digit.
pub open spec fn is_digit(c: char) -> bool {
    48 <= c as u32 <= 57
}

/// The numeric value of a decimal digit character.
pub open spec fn digit_val(c: char) -> int {
    c as u32 - 48
}

/// Whether the text consists of decimal digits only.
pub open spec fn all_digits(s: Seq<char>) -> bool {
    forall|i: int| 0 <= i < s.len() ==> is_digit(#[trigger] s[i])
}

/// The number written by a sequence of decimal digits, most
/// significant first.
pub open spec fn decimal_value(s: Seq<char>) -> int
    decreases s.len(),
{
    if s.len() == 0 {
        0
    } else {
        decimal_value(s.drop_last()) * 10 + digit_val(s.last())
    }
}

/// The digits of the text: what follows at most one leading plus sign
/// (code 43).
pub open spec fn digits_of(s: Seq<char>) -> Seq<char> {
    if s.len() > 0 && s[0] as u32 == 43 {
        s.drop_first()
    } else {
        s
    }
}

/// What [`parse_u8`] returns: the value of the text read as a decimal
/// number, if the text is one or more digits after at most one leading
/// plus sign and the value fits in a byte; `None` otherwise.
pub open spec fn spec_parse_u8(s: Seq<char>) -> Option<u8> {
    let d = digits_of(s);
    if d.len() == 0 || !all_digits(d) || decimal_value(d) > 255 {
        None
    } else {
        Some(decimal_value(d) as u8)
    }
}

/// A character whose code is below 128 lies in the ASCII range.
proof fn lemma_small_code_is_ascii(c: char)
    requires
        c as u32 <= 127,
    ensures
        '\0' <= c <= '\u{7f}',
{
}

/// A digit string's value is never negative.
proof fn lemma_decimal_value_nonneg(s: Seq<char>)
    requires
        all_digits(s),
    ensures
        decimal_value(s) >= 0,
    decreases s.len(),
{
    if s.len() > 0 {
        assert(all_digits(s.drop_last())) by {
            assert(forall|i: int| 0 <= i < s.len() - 1 ==> s.drop_last()[i] == s[i]);
        }
        lemma_decimal_value_nonneg(s.drop_last());
        assert(is_digit(s[s.len() - 1]));
    }
}

/// Extending a digit string never shrinks its value, so a prefix that
/// is already too large for a byte decides the whole parse.
proof fn lemma_decimal_value_prefix(s: Seq<char>, i: int)
    requires
        all_digits(s),
        0 <= i <= s.len(),
    ensures
        decimal_value(s) >= decimal_value(s.take(i)),
    decreases s.len() - i,
{
    if i == s.len() {
        assert(s.take(i) =~= s);
    } else {
        assert(all_digits(s.take(i))) by {
            assert(forall|j: int| 0 <= j < i ==> s.take(i)[j] == s[j]);
        }
        lemma_decimal_value_nonneg(s.take(i));
        assert(is_digit(s[i]));
        assert(s.take(i + 1).drop_last() =~= s.take(i));
        assert(s.take(i + 1).last() == s[i]);
        assert(decimal_value(s.take(i + 1)) == decimal_value(s.take(i)) * 10 + digit_val(s[i]));
        assert(decimal_value(s.take(i + 1)) >= decimal_value(s.take(i)));
        lemma_decimal_value_prefix(s, i + 1);
    }
}

/// Reads the text as a decimal byte: an optional leading plus sign,
/// then one or more digits whose value is at most 255. Anything else —
/// an empty text, a minus sign, a letter, a value past 255 — is
/// `None`.
#[verifier::loop_isolation(false)]
pub fn parse_u8(s: &str) -> (r: Option<u8>)
    ensures
        r == spec_parse_u8(s@),
{
    let ghost cs: Seq<char> = s@;
    let ghost d: Seq<char> = digits_of(cs);
    if !s.is_ascii() {
        proof {
            if all_digits(d) {
                assert forall|i: int| 0 <= i < cs.len() implies '\0' <= #[trigger] cs[i]
                    <= '\u{7f}' by {
                    if cs.len() > 0 && cs[0] as u32 == 43 {
                        if i == 0 {
                            lemma_small_code_is_ascii(cs[0]);
                        } else {
                            assert(cs[i] == d[i - 1]);
                            assert(is_digit(d[i - 1]));
                            lemma_small_code_is_ascii(cs[i]);
                        }
                    } else {
                        assert(cs[i] == d[i]);
                        assert(is_digit(d[i]));
                        lemma_small_code_is_ascii(cs[i]);
                    }
                }
                assert(vstd::string::is_ascii(s));
            }
        }
        return None;
    }
    let bytes: &[u8] = s.as_bytes();
    proof {
        vstd::string::is_ascii_spec_bytes(s);
        assert(bytes@ =~= Seq::new(cs.len(), |i: int| cs[i] as u8));
    }
    let n: usize = bytes.len();
    if n == 0 {
        return None;
    }
    let start: usize = if bytes[0] == 43 {
        1
    } else {
        0
    };
    proof {
        assert(bytes@[0] == cs[0] as u8);
        assert('\0' <= cs[0] <= '\u{7f}');
        if start == 1 {
            assert(cs[0] as u32 == 43);
            assert(d =~= cs.drop_first());
        } else {
            assert(cs[0] as u32 != 43);
            assert(d =~= cs);
        }
        assert(d.len() == n - start);
        assert(forall|j: int| 0 <= j < d.len() ==> #[trigger] d[j] == cs[j + start]);
    }
    if start == n {
        return None;
    }
    let mut acc: u32 = 0;
    let mut i: usize = start;
    while i < n
        invariant
            start <= i <= n,
            all_digits(d.take(i as int - start as int)),
            acc as int == decimal_value(d.take(i as int - start as int)),
            acc <= 255,
        decreases n - i,
    {
        let ghost k: int = i as int - start as int;
        let b: u8 = bytes[i];
        proof {
            assert(b == cs[i as int] as u8);
            assert('\0' <= cs[i as int] <= '\u{7f}');
            assert(cs[i as int] == d[k]);
        }
        if b < 48 || b > 57 {
            proof {
                assert(!is_digit(d[k]));
            }
            return None;
        }
        proof {
            assert(is_digit(d[k]));
            assert(d.take(k + 1).drop_last() =~= d.take(k));
            assert(d.take(k + 1).last() == d[k]);
            assert(forall|j: int| 0 <= j < k + 1 ==> #[trigger] d.take(k + 1)[j] == d[j]);
        }
        acc = acc * 10 + ((b - 48) as u32);
        if acc > 255 {
            proof {
                if all_digits(d) {
                    lemma_decimal_value_prefix(d, k + 1);
                }
            }
            return None;
        }
        i = i + 1;
    }
    proof {
        assert(d.take(i as int - start as int) =~= d);
    }
    Some(acc as u8)
}

/// The states one conversation can be in. A conversation starts in
/// [`Dialogue::AwaitingName`]; each later state carries the fields it
/// inherited from its predecessor next to what the newest input added.
#[derive(Clone, Debug, PartialEq)]
pub enum Dialogue {
    /// Waiting for the user's name; the starting state of every
    /// conversation.
    AwaitingName,
    /// The name arrived; waiting for the user's age.
    AwaitingAge {
        /// The name received in the previous step.
        name: String,
    },
    /// Name and age arrived; waiting for the user's location, after
    /// which the conversation ends.
    AwaitingLocation {
        /// The name received two steps ago.
        name: String,
        /// The age received in the previous step.
        age: u8,
    },
}

/// What a transition decides: continue the conversation with a new
/// state, or end it and drop its slot.
#[derive(Clone, Debug, PartialEq)]
pub enum DialogueStage {
    /// Continue with this state.
    Next(Dialogue),
    /// End the conversation.
    Exit,
}

/// Wraps a state as the continue outcome, the uniform way a transition
/// reports its successor regardless of which state is active.
pub fn next(state: Dialogue) -> (r: DialogueStage)
    ensures
        r == DialogueStage::Next(state),
{
    DialogueStage::Next(state)
}

/// The terminate outcome: the conversation's slot is removed.
pub fn exit() -> (r: DialogueStage)
    ensures
        r == DialogueStage::Exit,
{
    DialogueStage::Exit
}

/// The transition function of the intake conversation: which outcome a
/// state reaches on a given input.
///
/// A name is accepted as given; an age must be a decimal byte, and
/// anything else leaves the state where it was; the location ends the
/// conversation.
pub open spec fn spec_transition(state: Dialogue, input: String) -> DialogueStage {
    match state {
        Dialogue::AwaitingName => DialogueStage::Next(Dialogue::AwaitingAge { name: input }),
        Dialogue::AwaitingAge { name } => match spec_parse_u8(input@) {
            Some(age) => DialogueStage::Next(Dialogue::AwaitingLocation { name, age }),
            None => DialogueStage::Next(Dialogue::AwaitingAge { name }),
        },
        Dialogue::AwaitingLocation { .. } => DialogueStage::Exit,
    }
}

/// The reply the transition sends back for a state and an input.
pub open spec fn spec_reply(state: Dialogue, input: String) -> Seq<char> {
    match state {
        Dialogue::AwaitingName => "How old are you?"@,
        Dialogue::AwaitingAge { .. } => match spec_parse_u8(input@) {
            Some(_) => "What's your location?"@,
            None => "Send me a number."@,
        },
        Dialogue::AwaitingLocation { .. } => "Thank you! The conversation is over."@,
    }
}

/// Runs one transition: from the active state and the incoming input,
/// the outcome to store and the reply to send.
pub fn transition(state: &Dialogue, input: String) -> (r: (DialogueStage, String))
    ensures
        r.0 == spec_transition(*state, input),
        r.1@ == spec_reply(*state, input),
{
    match state {
        Dialogue::AwaitingName => (
            DialogueStage::Next(Dialogue::AwaitingAge { name: input }),
            "How old are you?".to_owned(),
        ),
        Dialogue::AwaitingAge { name } => match parse_u8(input.as_str()) {
            Some(age) => (
                DialogueStage::Next(Dialogue::AwaitingLocation { name: name.clone(), age }),
                "What's your location?".to_owned(),
            ),
            None => (
                DialogueStage::Next(Dialogue::AwaitingAge { name: name.clone() }),
                "Send me a number.".to_owned(),
            ),
        },
        Dialogue::AwaitingLocation { .. } => (
            DialogueStage::Exit,
            "Thank you! The conversation is over.".to_owned(),
        ),
    }
}

/// The state a key's next transition observes in a state map: the
/// stored state, or the initial state when the key has no slot.
pub open spec fn observed_state(m: Map<i64, Dialogue>, key: i64) -> Dialogue {
    if m.contains_key(key) {
        m[key]
    } else {
        Dialogue::AwaitingName
    }
}

/// The state map after one input is handled for one key: the observed
/// state's transition outcome is written back — a new state replaces
/// the slot, an exit removes it.
pub open spec fn step_map(m: Map<i64, Dialogue>, key: i64, input: String) -> Map<i64, Dialogue> {
    match spec_transition(observed_state(m, key), input) {
        DialogueStage::Next(s) => m.insert(key, s),
        DialogueStage::Exit => m.remove(key),
    }
}

/// The dialogue dispatcher: one state slot per conversation key. The
/// read-modify-write of a slot is one call, so for a single key no two
/// transitions are ever in flight at once; distinct keys are
/// independent (see [`lemma_keys_independent`]).
pub struct DialogueDispatcher {
    /// The per-conversation state slots, keyed by conversation key.
    pub states: HashMap<i64, Dialogue>,
}

impl DialogueDispatcher {
    /// A dispatcher with no conversation under way.
    pub fn new() -> (r: Self)
        ensures
            r.states@ == Map::<i64, Dialogue>::empty(),
    {
        DialogueDispatcher { states: HashMap::new() }
    }

    /// The stored state of one conversation, or `None` when the key
    /// has no slot (the conversation is new, or its last transition
    /// exited).
    pub fn current_state(&self, key: i64) -> (r: Option<&Dialogue>)
        ensures
            match r {
                Some(d) => self.states@.contains_key(key) && *d == self.states@[key],
                None => !self.states@.contains_key(key),
            },
    {
        self.states.get(&key)
    }

    /// Handles one input for one conversation: reads the latest stored
    /// state, runs the transition, writes the outcome back, and
    /// returns the reply to send. The write-back happens before this
    /// call returns, so the next event for the same key observes
    /// exactly this transition's outcome.
    pub fn handle_input(&mut self, key: i64, input: String) -> (reply: String)
        ensures
            final(self).states@ == step_map(old(self).states@, key, input),
            reply@ == spec_reply(observed_state(old(self).states@, key), input),
    {
        let initial = Dialogue::AwaitingName;
        let current: &Dialogue = match self.states.get(&key) {
            Some(d) => d,
            None => &initial,
        };
        let (stage, reply) = transition(current, input);
        match stage {
            DialogueStage::Next(s) => {
                self.states.insert(key, s);
            },
            DialogueStage::Exit => {
                self.states.remove(&key);
            },
        }
        reply
    }

    /// Writes back the outcome of a transition that ran outside this
    /// call (one that performs its own I/O before deciding). A new
    /// state replaces the slot and an exit removes it; a failed
    /// transition leaves every slot exactly as it was, and the event
    /// counts as handled — it is not retried.
    pub fn apply(&mut self, key: i64, outcome: Result<DialogueStage, TransitionError>)
        ensures
            match outcome {
                Ok(DialogueStage::Next(s)) => final(self).states@ == old(self).states@.insert(
                    key,
                    s,
                ),
                Ok(DialogueStage::Exit) => final(self).states@ == old(self).states@.remove(key),
                Err(_) => final(self).states@ == old(self).states@,
            },
    {
        match outcome {
            Ok(DialogueStage::Next(s)) => {
                self.states.insert(key, s);
            },
            Ok(DialogueStage::Exit) => {
                self.states.remove(&key);
            },
            Err(_) => {},
        }
    }
}

/// Within one conversation key, dispatch is serialized: the transition
/// for the second of two events observes exactly the state the first
/// event's transition produced — the state it stored, or the initial
/// state if it exited — never an older one.
pub proof fn lemma_second_event_observes_first(m: Map<i64, Dialogue>, key: i64, input: String)
    ensures
        match spec_transition(observed_state(m, key), input) {
            DialogueStage::Next(s) => observed_state(step_map(m, key, input), key) == s,
            DialogueStage::Exit => observed_state(step_map(m, key, input), key)
                == Dialogue::AwaitingName,
        },
{
}

/// Exit removes the slot: after a transition that exits, the key has
/// no stored state and its next event is handled from the initial
/// state, as if the key were new.
pub proof fn lemma_exit_resets(m: Map<i64, Dialogue>, key: i64, input: String)
    requires
        spec_transition(observed_state(m, key), input) is Exit,
    ensures
        !step_map(m, key, input).contains_key(key),
        observed_state(step_map(m, key, input), key) == Dialogue::AwaitingName,
{
}

/// Handling an event for one key leaves every other conversation's
/// observed state untouched: distinct keys are independent.
pub proof fn lemma_keys_independent(m: Map<i64, Dialogue>, key: i64, input: String, other: i64)
    requires
        other != key,
    ensures
        observed_state(step_map(m, key, input), other) == observed_state(m, other),
{
}

} // verus!
