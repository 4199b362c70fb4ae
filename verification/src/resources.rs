//! The four-counter resource economy and the per-turn delta report entries.

use vstd::prelude::*;

verus! {

/// The global resource pool: population, occupied workers, wood and rock.
///
/// The intended invariant, `occupied_people <= total_people`, is stated by
/// [`GlobalResources::wf`] and is preserved by every engine transition.
#[derive(Debug, Clone, Copy, PartialEq, Eq, Structural)]
pub struct GlobalResources {
    pub total_people: u32,
    pub occupied_people: u32,
    pub wood: u32,
    pub rock: u32,
}

impl GlobalResources {
    /// Pool well-formedness: no more workers occupied than people exist, and
    /// wood and rock small enough that a signed per-turn difference fits the
    /// delta report's `i32` payload.
    pub open spec fn wf(self) -> bool {
        &&& self.occupied_people <= self.total_people
        &&& self.wood <= i32::MAX
        &&& self.rock <= i32::MAX
    }

    /// The starting economy: one (unoccupied) inhabitant, no wood, no rock.
    pub fn initialize() -> (r: Self)
        ensures
            r == (GlobalResources { total_people: 1, occupied_people: 0, wood: 0, rock: 0 }),
            r.wf(),
    {
        Self { total_people: 1, occupied_people: 0, wood: 0, rock: 0 }
    }
}

/// One signed resource amount, as listed in a building's cost and in the
/// per-turn delta report.
#[derive(Debug, Clone, Copy, PartialEq, Eq, Structural)]
pub enum Resources {
    WorkingPeople(i32),
    Wood(i32),
    Rock(i32),
}

/// The display symbol of a resource kind.
pub open spec fn spec_symbol_char(r: Resources) -> char {
    match r {
        Resources::WorkingPeople(_) => '\u{1F465}',
        Resources::Wood(_) => '\u{1FAB5}',
        Resources::Rock(_) => '\u{1FAA8}',
    }
}

/// The signed amount a resource entry carries.
pub open spec fn spec_amount(r: Resources) -> int {
    match r {
        Resources::WorkingPeople(n) => n as int,
        Resources::Wood(n) => n as int,
        Resources::Rock(n) => n as int,
    }
}

/// The display symbol of a resource kind, as a character sequence.
pub open spec fn spec_symbol_str(r: Resources) -> Seq<char> {
    match r {
        Resources::WorkingPeople(_) => "\u{1F465}"@,
        Resources::Wood(_) => "\u{1FAB5}"@,
        Resources::Rock(_) => "\u{1FAA8}"@,
    }
}

/// The decimal digit `d` as a character sequence.
pub open spec fn spec_digit(d: int) -> Seq<char> {
    if d == 0 {
        "0"@
    } else if d == 1 {
        "1"@
    } else if d == 2 {
        "2"@
    } else if d == 3 {
        "3"@
    } else if d == 4 {
        "4"@
    } else if d == 5 {
        "5"@
    } else if d == 6 {
        "6"@
    } else if d == 7 {
        "7"@
    } else if d == 8 {
        "8"@
    } else {
        "9"@
    }
}

/// The decimal rendering of a non-negative integer.
pub open spec fn spec_dec(n: int) -> Seq<char>
    decreases n,
{
    if n < 10 {
        spec_digit(n)
    } else {
        spec_dec(n / 10) + spec_digit(n % 10)
    }
}

/// The signed decimal rendering of a non-zero amount: an explicit `+` for
/// gains, the usual `-` for losses.
pub open spec fn spec_signed_dec(v: int) -> Seq<char> {
    if v > 0 {
        "+"@ + spec_dec(v)
    } else {
        "-"@ + spec_dec(-v)
    }
}

/// One delta report entry: symbol, signed amount, and an up or down arrow.
pub open spec fn spec_entry_str(e: Resources) -> Seq<char> {
    spec_symbol_str(e) + " "@ + spec_signed_dec(spec_amount(e)) + " "@ + (if spec_amount(e)
        > 0 {
        "\u{2B06}\u{FE0F}"@
    } else {
        "\u{1F53D}"@
    })
}

/// The entries from index `i` on, separated by `" | "`.
pub open spec fn spec_delta_cat(entries: Seq<Resources>, i: int) -> Seq<char>
    decreases entries.len() - i,
{
    if i < 0 || i >= entries.len() {
        Seq::<char>::empty()
    } else {
        spec_entry_str(entries[i]) + (if i + 1 < entries.len() {
            " | "@
        } else {
            Seq::<char>::empty()
        }) + spec_delta_cat(entries, i + 1)
    }
}

/// The whole delta report line; an empty report reads "no changes".
pub open spec fn spec_delta_string(entries: Seq<Resources>) -> Seq<char> {
    if entries.len() == 0 {
        "no changes"@
    } else {
        spec_delta_cat(entries, 0)
    }
}

/// The decimal digit `d` as a string slice.
fn digit_str(d: u32) -> (r: &'static str)
    requires
        d < 10,
    ensures
        r@ == spec_digit(d as int),
{
    match d {
        0 => "0",
        1 => "1",
        2 => "2",
        3 => "3",
        4 => "4",
        5 => "5",
        6 => "6",
        7 => "7",
        8 => "8",
        _ => "9",
    }
}

/// Renders `n` in decimal.
fn u32_dec(n: u32) -> (r: String)
    ensures
        r@ == spec_dec(n as int),
    decreases n,
{
    if n < 10 {
        digit_str(n).to_owned()
    } else {
        let mut s = u32_dec(n / 10);
        s.append(digit_str(n % 10));
        s
    }
}

impl Resources {
    /// The display symbol of this resource kind.
    pub fn resource_to_symbol(&self) -> (c: char)
        ensures
            c == spec_symbol_char(*self),
    {
        match *self {
            Resources::WorkingPeople(_) => '\u{1F465}',
            Resources::Wood(_) => '\u{1FAB5}',
            Resources::Rock(_) => '\u{1FAA8}',
        }
    }

    /// The display symbol of this resource kind, as a string slice.
    pub fn symbol(&self) -> (r: &'static str)
        ensures
            r@ == spec_symbol_str(*self),
    {
        match *self {
            Resources::WorkingPeople(_) => "\u{1F465}",
            Resources::Wood(_) => "\u{1FAB5}",
            Resources::Rock(_) => "\u{1FAA8}",
        }
    }

    /// The signed amount this entry carries.
    pub fn amount(&self) -> (v: i32)
        ensures
            v as int == spec_amount(*self),
    {
        match *self {
            Resources::WorkingPeople(n) => n,
            Resources::Wood(n) => n,
            Resources::Rock(n) => n,
        }
    }

    /// Renders a delta report: one signed entry per changed resource,
    /// separated by `" | "`. A zero amount is never reported — the engine
    /// never emits one, so such an entry is ruled out here rather than
    /// silently skipped.
    #[verifier::loop_isolation(false)]
    pub fn delta_to_string(delta_production: &[Resources]) -> (r: String)
        requires
            forall|i: int|
                0 <= i < delta_production@.len() ==> spec_amount(#[trigger] delta_production@[i])
                    != 0,
        ensures
            r@ == spec_delta_string(delta_production@),
    {
        let n = delta_production.len();
        if n == 0 {
            return "no changes".to_owned();
        }
        let ghost entries = delta_production@;
        let mut res = String::new();
        let mut i: usize = 0;
        while i < n
            invariant
                i <= n,
                spec_delta_cat(entries, 0) == res@ + spec_delta_cat(entries, i as int),
            decreases n - i,
        {
            let ghost res0 = res@;
            let e = delta_production[i];
            res.append(e.symbol());
            res.append(" ");
            let v = e.amount();
            if v > 0 {
                res.append("+");
                let digits = u32_dec(v as u32);
                res.append(digits.as_str());
            } else {
                res.append("-");
                let m = (-(v as i64)) as u32;
                let digits = u32_dec(m);
                res.append(digits.as_str());
            }
            res.append(" ");
            if v > 0 {
                res.append("\u{2B06}\u{FE0F}");
            } else {
                res.append("\u{1F53D}");
            }
            if i + 1 < n {
                res.append(" | ");
            }
            proof {
                let sep: Seq<char> = if i + 1 < n {
                    " | "@
                } else {
                    Seq::<char>::empty()
                };
                assert(res@ =~= res0 + (spec_entry_str(entries[i as int]) + sep));
                assert(spec_delta_cat(entries, i as int) == spec_entry_str(entries[i as int])
                    + sep + spec_delta_cat(entries, i + 1));
                assert(res0 + spec_delta_cat(entries, i as int) =~= res@ + spec_delta_cat(
                    entries,
                    i + 1,
                ));
            }
            i = i + 1;
        }
        res
    }
}

} // verus!
