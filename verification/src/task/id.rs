//! Task identifiers, and the record of which task is running right now.

use vstd::prelude::*;

verus! {

/// An opaque ID that uniquely identifies a task relative to all other
/// currently running tasks.
///
/// Task IDs are unique relative to other *currently running* tasks: the
/// counter that hands them out wraps around after `u64::MAX` of them, and
/// never hands out zero.
#[derive(Clone, Copy, Debug, Hash, PartialEq, Eq, Structural)]
pub struct Id {
    raw: u64,
}

impl Id {
    /// The number behind the identifier.
    pub closed spec fn spec_raw(&self) -> u64 {
        self.raw
    }

    #[verifier::type_invariant]
    spec fn never_zero(&self) -> bool {
        self.raw >= 1
    }

    /// Returns the number behind the identifier, which is never zero.
    pub fn as_u64(&self) -> (raw: u64)
        ensures
            raw == self.spec_raw(),
            raw >= 1,
    {
        proof {
            use_type_invariant(self);
        }
        self.raw
    }

    /// Prints the identifier as a bare decimal number.
    pub fn to_string(&self) -> (text: String)
        ensures
            text@ == spec_decimal(self.spec_raw() as nat),
    {
        let mut text = String::new();
        push_decimal(self.raw, &mut text);
        text
    }
}

/// The decimal digit `d` as a character.
pub open spec fn spec_digit(d: nat) -> char {
    (48 + d) as char
}

/// The decimal spelling of `n`, without sign or leading zeros.
pub open spec fn spec_decimal(n: nat) -> Seq<char>
    decreases n,
{
    if n < 10 {
        seq![spec_digit(n)]
    } else {
        spec_decimal(n / 10) + seq![spec_digit(n % 10)]
    }
}

/// Spells the decimal digit `d`.
fn digit_text(d: u64) -> (text: &'static str)
    requires
        d < 10,
    ensures
        text@ == seq![spec_digit(d as nat)],
{
    match d {
        0 => {
            proof {
                reveal_strlit("0");
            }
            "0"
        },
        1 => {
            proof {
                reveal_strlit("1");
            }
            "1"
        },
        2 => {
            proof {
                reveal_strlit("2");
            }
            "2"
        },
        3 => {
            proof {
                reveal_strlit("3");
            }
            "3"
        },
        4 => {
            proof {
                reveal_strlit("4");
            }
            "4"
        },
        5 => {
            proof {
                reveal_strlit("5");
            }
            "5"
        },
        6 => {
            proof {
                reveal_strlit("6");
            }
            "6"
        },
        7 => {
            proof {
                reveal_strlit("7");
            }
            "7"
        },
        8 => {
            proof {
                reveal_strlit("8");
            }
            "8"
        },
        _ => {
            proof {
                reveal_strlit("9");
            }
            "9"
        },
    }
}

/// Appends the decimal spelling of `n` to `text`.
fn push_decimal(n: u64, text: &mut String)
    ensures
        final(text)@ == old(text)@ + spec_decimal(n as nat),
    decreases n,
{
    if n >= 10 {
        push_decimal(n / 10, text);
    }
    text.append(digit_text(n % 10));
    proof {
        if n >= 10 {
            assert(final(text)@ =~= old(text)@ + spec_decimal(n as nat));
        } else {
            assert(final(text)@ =~= old(text)@ + spec_decimal(n as nat));
        }
    }
}

/// The identifier that a counter holding `raw` hands out after this one:
/// the next number, starting over at one rather than at zero.
pub open spec fn spec_successor(raw: u64) -> u64 {
    if raw == u64::MAX {
        1
    } else {
        (raw + 1) as u64
    }
}

/// The number behind the `n`-th identifier, counting from zero, that a
/// fresh counter hands out.
pub open spec fn spec_nth_raw(n: nat) -> u64
    decreases n,
{
    if n == 0 {
        1
    } else {
        spec_successor(spec_nth_raw((n - 1) as nat))
    }
}

/// Hands out task identifiers. Tasks are only spawned from the main
/// thread, so one counter there never hands out an identifier that a
/// running task still holds, unless `u64::MAX` tasks were spawned since.
pub struct IdCounter {
    next_raw: u64,
}

impl IdCounter {
    /// The number behind the identifier handed out next.
    pub closed spec fn spec_next_raw(&self) -> u64 {
        self.next_raw
    }

    #[verifier::type_invariant]
    spec fn never_zero(&self) -> bool {
        self.next_raw >= 1
    }

    /// A counter that starts at one.
    pub fn new() -> (counter: IdCounter)
        ensures
            counter.spec_next_raw() == spec_nth_raw(0),
    {
        IdCounter { next_raw: 1 }
    }

    /// Takes the next free task identifier.
    pub fn next(&mut self) -> (id: Id)
        ensures
            id.spec_raw() == old(self).spec_next_raw(),
            final(self).spec_next_raw() == spec_successor(old(self).spec_next_raw()),
    {
        proof {
            use_type_invariant(&*self);
        }
        let raw = self.next_raw;
        // The counter starts at one and skips zero when it wraps.
        self.next_raw = if raw == u64::MAX {
            1
        } else {
            raw + 1
        };
        Id { raw }
    }
}

/// Below `u64::MAX` of them, the `n`-th identifier is `n + 1`.
proof fn lemma_nth_raw_counts_up(n: nat)
    requires
        n < u64::MAX,
    ensures
        spec_nth_raw(n) == n + 1,
    decreases n,
{
    if n > 0 {
        lemma_nth_raw_counts_up((n - 1) as nat);
    }
}

/// A fresh counter hands out `u64::MAX` identifiers that are all different,
/// none of them zero, before it starts over at one.
pub proof fn lemma_fresh_ids_are_distinct(i: nat, j: nat)
    requires
        i < j < u64::MAX,
    ensures
        spec_nth_raw(i) != spec_nth_raw(j),
        spec_nth_raw(i) >= 1,
        spec_nth_raw(u64::MAX as nat) == 1,
{
    lemma_nth_raw_counts_up(i);
    lemma_nth_raw_counts_up(j);
    lemma_nth_raw_counts_up((u64::MAX - 1) as nat);
}

/// Which task is being polled right now, if any. Each thread has one:
/// it is set around each poll of a spawned task, and around the whole
/// closure of a blocking one.
pub struct TaskScope {
    current: Option<Id>,
}

impl TaskScope {
    /// The identifier of the task running right now.
    pub closed spec fn spec_current(&self) -> Option<Id> {
        self.current
    }

    /// The scope outside of any task.
    pub fn new() -> (scope: TaskScope)
        ensures
            scope.spec_current() is None,
    {
        TaskScope { current: None }
    }

    /// Marks `id` as the running task, handing back what was running before.
    pub fn enter(&mut self, id: Id) -> (previous: Option<Id>)
        ensures
            previous == old(self).spec_current(),
            final(self).spec_current() == Some(id),
    {
        let previous = self.current;
        self.current = Some(id);
        previous
    }

    /// Puts back what was running before the matching [`TaskScope::enter`].
    pub fn leave(&mut self, previous: Option<Id>)
        ensures
            final(self).spec_current() == previous,
    {
        self.current = previous;
    }
}

/// Returns the [`Id`] of the currently running task, or `None` if called
/// outside of a task.
pub fn try_id(scope: &TaskScope) -> (id: Option<Id>)
    ensures
        id == scope.spec_current(),
{
    scope.current
}

/// Returns the [`Id`] of the currently running task. Outside of a task
/// there is none, so the call is only made inside one.
pub fn id(scope: &TaskScope) -> (id: Id)
    requires
        scope.spec_current() is Some,
    ensures
        Some(id) == scope.spec_current(),
{
    scope.current.unwrap()
}

} // verus!
