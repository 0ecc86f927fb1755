//! Console command interception.
//!
//! Multiplayer console commands get the first chance at a console line
//! before the engine processes it. The line is split on whitespace; its
//! first word, lower-cased, names the command. A command without a handler
//! passes through to the engine.
use vstd::prelude::*;
use crate::text::{chars_of, string_of_chars};

verus! {

/// What a registered console command does with a line.
#[derive(Debug, Clone, Copy, PartialEq, Eq, Structural)]
pub enum ConsoleHandler {
    /// Leaves the line to the engine.
    Pass,
    /// Consumes the line; the engine never sees it.
    Consume,
}

/// Whether a character is white space (Unicode `White_Space`, as
/// `char::is_whitespace` decides).
pub open spec fn is_ws(c: char) -> bool {
    ||| '\t' <= c <= '\r'
    ||| c == ' '
    ||| c == '\u{85}'
    ||| c == '\u{a0}'
    ||| c == '\u{1680}'
    ||| '\u{2000}' <= c <= '\u{200a}'
    ||| c == '\u{2028}'
    ||| c == '\u{2029}'
    ||| c == '\u{202f}'
    ||| c == '\u{205f}'
    ||| c == '\u{3000}'
}

/// Whether a character is white space.
pub fn is_whitespace(c: char) -> (r: bool)
    ensures
        r == is_ws(c),
{
    ('\t' <= c && c <= '\r') || c == ' ' || c == '\u{85}' || c == '\u{a0}' || c == '\u{1680}' || (
    '\u{2000}' <= c && c <= '\u{200a}') || c == '\u{2028}' || c == '\u{2029}' || c == '\u{202f}'
        || c == '\u{205f}' || c == '\u{3000}'
}

/// Index of the first non-white-space character at or after `i`.
pub open spec fn word_start(s: Seq<char>, i: int) -> int
    decreases s.len() - i,
{
    if i >= s.len() || !is_ws(s[i]) {
        i
    } else {
        word_start(s, i + 1)
    }
}

/// Index of the first white-space character at or after `i`.
pub open spec fn word_end(s: Seq<char>, i: int) -> int
    decreases s.len() - i,
{
    if i >= s.len() || is_ws(s[i]) {
        i
    } else {
        word_end(s, i + 1)
    }
}

/// The first whitespace-separated word of a line, if it has one.
pub open spec fn first_word(s: Seq<char>) -> Option<Seq<char>> {
    let a = word_start(s, 0);
    if a >= s.len() {
        None
    } else {
        Some(s.subrange(a, word_end(s, a)))
    }
}

/// Lower-case mapping of a string, as Rust's `str::to_lowercase` defines
/// it (full Unicode case mapping).
pub uninterp spec fn lowercase(s: Seq<char>) -> Seq<char>;

/// `str::to_lowercase`: the lower-case form of `s`, a function of `s` alone.
#[verifier::external_body]
pub(crate) fn to_lowercase(s: &str) -> (r: String)
    ensures
        r@ == lowercase(s@),
{
    s.to_lowercase()
}

/// The registry of console command handlers.
#[derive(Debug, Clone)]
pub struct ConsoleRegistry {
    names: Vec<String>,
    handlers: Vec<ConsoleHandler>,
}

impl ConsoleRegistry {
    /// The registered commands with their handlers.
    pub closed spec fn view(&self) -> Map<Seq<char>, ConsoleHandler> {
        Map::new(
            |k: Seq<char>| exists|i: int| 0 <= i < self.names@.len() && self.names@[i]@ == k,
            |k: Seq<char>|
                self.handlers@[choose|i: int| 0 <= i < self.names@.len() && self.names@[i]@ == k],
        )
    }

    /// Names and handlers line up and no name occurs twice.
    pub closed spec fn wf(&self) -> bool {
        &&& self.names@.len() == self.handlers@.len()
        &&& forall|i: int, j: int|
            0 <= i < j < self.names@.len() ==> self.names@[i]@ != self.names@[j]@
    }

    /// An empty registry.
    pub fn new() -> (r: ConsoleRegistry)
        ensures
            r.wf(),
            r.view() == Map::<Seq<char>, ConsoleHandler>::empty(),
    {
        let r = ConsoleRegistry { names: Vec::new(), handlers: Vec::new() };
        assert(r.view() =~= Map::<Seq<char>, ConsoleHandler>::empty());
        r
    }

    /// Position of `name`, if registered.
    fn position(&self, name: &String) -> (r: Option<usize>)
        ensures
            match r {
                Some(i) => i < self.names@.len() && self.names@[i as int]@ == name@,
                None => forall|i: int| 0 <= i < self.names@.len() ==> self.names@[i]@ != name@,
            },
    {
        let mut i: usize = 0;
        while i < self.names.len()
            invariant
                i <= self.names@.len(),
                forall|j: int| 0 <= j < i ==> self.names@[j]@ != name@,
            decreases self.names@.len() - i,
        {
            if self.names[i] == *name {
                return Some(i);
            }
            i = i + 1;
        }
        None
    }

    /// The handler registered under `name`.
    pub fn get(&self, name: &String) -> (r: Option<ConsoleHandler>)
        requires
            self.wf(),
        ensures
            match r {
                Some(h) => self.view().contains_key(name@) && self.view()[name@] == h,
                None => !self.view().contains_key(name@),
            },
    {
        match self.position(name) {
            Some(i) => {
                proof {
                    let c = choose|j: int| 0 <= j < self.names@.len() && self.names@[j]@ == name@;
                    assert(c == i);
                }
                Some(self.handlers[i])
            },
            None => None,
        }
    }
}

/// Registers (or replaces) the handler of a console command.
pub fn register_command(registry: &mut ConsoleRegistry, name: &str, handler: ConsoleHandler)
    requires
        old(registry).wf(),
    ensures
        final(registry).wf(),
        final(registry).view() == old(registry).view().insert(name@, handler),
{
    let key = name.to_owned();
    let ghost old_names = registry.names@;
    let ghost slot: int;
    match registry.position(&key) {
        Some(i) => {
            registry.handlers.set(i, handler);
            proof {
                slot = i as int;
            }
        },
        None => {
            registry.names.push(key);
            registry.handlers.push(handler);
            proof {
                slot = old_names.len() as int;
            }
        },
    }
    proof {
        let names = registry.names@;
        assert(0 <= slot < names.len() && names[slot]@ == name@ && registry.handlers@[slot]
            == handler);
        assert forall|j: int| 0 <= j < names.len() && j != slot implies names[j] == old_names[j]
            && registry.handlers@[j] == old(registry).handlers@[j] && old_names[j]@ != name@ by {
            if slot < old_names.len() {
                assert(old_names[slot]@ == name@);
            }
        }
        assert forall|a: int, b: int| 0 <= a < b < names.len() implies names[a]@ != names[b]@ by {
            if a != slot && b != slot {
                assert(names[a] == old_names[a] && names[b] == old_names[b]);
            }
        }
        let m = registry.view();
        let expected = old(registry).view().insert(name@, handler);
        assert forall|k: Seq<char>| #[trigger] m.contains_key(k) == expected.contains_key(k) by {
            if k == name@ {
                assert(names[slot]@ == k);
            } else {
                if m.contains_key(k) {
                    let j = choose|j: int| 0 <= j < names.len() && names[j]@ == k;
                    assert(j != slot);
                    assert(old_names[j]@ == k);
                }
                if expected.contains_key(k) {
                    let j = choose|j: int| 0 <= j < old_names.len() && old_names[j]@ == k;
                    assert(j != slot);
                    assert(names[j]@ == k);
                }
            }
        }
        assert forall|k: Seq<char>| m.contains_key(k) implies #[trigger] m[k] == expected[k] by {
            let j = choose|j: int| 0 <= j < names.len() && names[j]@ == k;
            if k == name@ {
                assert(j == slot);
            } else {
                assert(j != slot);
                let c = choose|c: int| 0 <= c < old_names.len() && old_names[c]@ == k;
                assert(names[c]@ == k);
                assert(c == j);
            }
        }
        assert(m =~= expected);
    }
}

/// The first word of a line, if any.
pub fn first_word_of(line: &str) -> (r: Option<String>)
    ensures
        match first_word(line@) {
            Some(w) => r matches Some(s) && s@ == w,
            None => r is None,
        },
{
    let chars = chars_of(line);
    let ghost s = line@;
    let mut a: usize = 0;
    while a < chars.len() && is_whitespace(chars[a])
        invariant
            chars@ == s,
            a <= s.len(),
            word_start(s, 0) == word_start(s, a as int),
        decreases s.len() - a,
    {
        a = a + 1;
    }
    if a >= chars.len() {
        return None;
    }
    let mut b: usize = a;
    let mut word: Vec<char> = Vec::new();
    while b < chars.len() && !is_whitespace(chars[b])
        invariant
            chars@ == s,
            a <= b <= s.len(),
            word_end(s, a as int) == word_end(s, b as int),
            word@ == s.subrange(a as int, b as int),
        decreases s.len() - b,
    {
        word.push(chars[b]);
        b = b + 1;
        assert(word@ =~= s.subrange(a as int, b as int));
    }
    Some(string_of_chars(word))
}

/// Whether a line starting with the (already lower-cased) command `name`
/// is consumed: only by a registered handler that consumes it.
pub fn handle_command(registry: &ConsoleRegistry, name: &String) -> (r: bool)
    requires
        registry.wf(),
    ensures
        r == (registry.view().contains_key(name@) && registry.view()[name@]
            == ConsoleHandler::Consume),
{
    match registry.get(name) {
        Some(ConsoleHandler::Consume) => true,
        _ => false,
    }
}

/// Offers a console line to the registered commands; `true` when a handler
/// consumed it. The first word, lower-cased, names the command.
pub fn try_handle(registry: &ConsoleRegistry, command_line: &str) -> (r: bool)
    requires
        registry.wf(),
    ensures
        match first_word(command_line@) {
            Some(w) => r == (registry.view().contains_key(lowercase(w)) && registry.view()[lowercase(
                w,
            )] == ConsoleHandler::Consume),
            None => !r,
        },
{
    match first_word_of(command_line) {
        Some(word) => {
            let name = to_lowercase(word.as_str());
            handle_command(registry, &name)
        },
        None => false,
    }
}

/// Registers the default multiplayer commands (`kick`, `players`,
/// `ashfall_status`); each passes the line on.
pub fn register_defaults(registry: &mut ConsoleRegistry)
    requires
        old(registry).wf(),
    ensures
        final(registry).wf(),
        final(registry).view() == old(registry).view().insert("kick"@, ConsoleHandler::Pass).insert(
            "players"@,
            ConsoleHandler::Pass,
        ).insert("ashfall_status"@, ConsoleHandler::Pass),
{
    register_command(registry, "kick", ConsoleHandler::Pass);
    register_command(registry, "players", ConsoleHandler::Pass);
    register_command(registry, "ashfall_status", ConsoleHandler::Pass);
}

} // verus!
