//! The texts that events show on the map, and decimal rendering of integers.

use vstd::prelude::*;
use crate::ids::{PlayerId, SectorId};


verus! {

/// The character of a decimal digit `d` (`d < 10`).
pub open spec fn digit_char(d: nat) -> char {
    (d + 48) as char
}

/// The decimal digits of `n`, most significant first, without leading zeros
/// ("0" for zero).
pub open spec fn nat_text(n: nat) -> Seq<char>
    decreases n,
{
    if n < 10 {
        seq![digit_char(n)]
    } else {
        nat_text(n / 10) + seq![digit_char(n % 10)]
    }
}

/// An integer as `{}` formats it: a minus sign before the digits of a negative
/// number.
pub open spec fn int_text(n: int) -> Seq<char> {
    if n < 0 {
        seq!['-'] + nat_text((-n) as nat)
    } else {
        nat_text(n as nat)
    }
}

fn digit_str(d: u32) -> (s: &'static str)
    requires
        d < 10,
    ensures
        s@ == seq![digit_char(d as nat)],
{
    proof {
        reveal_strlit("0");
        reveal_strlit("1");
        reveal_strlit("2");
        reveal_strlit("3");
        reveal_strlit("4");
        reveal_strlit("5");
        reveal_strlit("6");
        reveal_strlit("7");
        reveal_strlit("8");
        reveal_strlit("9");
    }
    match d {
        0 => "0",
        1 => "1",
        2 => "2",
        3 => "3",
        4 => "4",
        5 => "5",
        6 => "6",
        7 => "7",
        8 => "8",
        _ => "9",
    }
}

fn append_nat(s: &mut String, n: u32)
    ensures
        final(s)@ == old(s)@ + nat_text(n as nat),
    decreases n,
{
    if n >= 10 {
        append_nat(s, n / 10);
        s.append(digit_str(n % 10));
        assert(s@ =~= old(s)@ + nat_text(n as nat));
    } else {
        s.append(digit_str(n));
    }
}

/// Appends the decimal text of `n` to `s`.
pub fn append_int(s: &mut String, n: i32)
    ensures
        final(s)@ == old(s)@ + int_text(n as int),
{
    if n < 0 {
        proof {
            reveal_strlit("-");
        }
        s.append("-");
        let m: i64 = -(n as i64);
        append_nat(s, m as u32);
    } else {
        append_nat(s, n as u32);
    }
}

proof fn lemma_digit_char_injective(a: nat, b: nat)
    requires
        a < 10,
        b < 10,
        digit_char(a) == digit_char(b),
    ensures
        a == b,
{
    assert(digit_char(a) as int == a + 48);
    assert(digit_char(b) as int == b + 48);
}

proof fn lemma_nat_text_shape(n: nat)
    ensures
        nat_text(n).len() >= 1,
        n >= 10 ==> nat_text(n).len() >= 2,
        n < 10 <==> nat_text(n).len() == 1,
        nat_text(n)[0] != '-',
    decreases n,
{
    if n >= 10 {
        lemma_nat_text_shape(n / 10);
    } else {
        assert(digit_char(n) as int == n + 48);
    }
}

/// Different numbers have different decimal texts.
pub proof fn lemma_nat_text_injective(a: nat, b: nat)
    requires
        nat_text(a) == nat_text(b),
    ensures
        a == b,
    decreases a,
{
    lemma_nat_text_shape(a);
    lemma_nat_text_shape(b);
    if a < 10 {
        lemma_digit_char_injective(a, b);
    } else {
        let ta = nat_text(a);
        let tb = nat_text(b);
        assert(ta.last() == digit_char(a % 10));
        assert(tb.last() == digit_char(b % 10));
        lemma_digit_char_injective(a % 10, b % 10);
        assert(nat_text(a / 10) =~= ta.drop_last());
        assert(nat_text(b / 10) =~= tb.drop_last());
        lemma_nat_text_injective(a / 10, b / 10);
    }
}

/// Different integers have different texts, so the texts of two events
/// about different sectors, owners or counts never read the same.
pub proof fn lemma_int_text_injective(a: int, b: int)
    requires
        int_text(a) == int_text(b),
    ensures
        a == b,
{
    if a < 0 && b < 0 {
        assert(nat_text((-a) as nat) =~= int_text(a).drop_first());
        assert(nat_text((-b) as nat) =~= int_text(b).drop_first());
        lemma_nat_text_injective((-a) as nat, (-b) as nat);
    } else if a >= 0 && b >= 0 {
        lemma_nat_text_injective(a as nat, b as nat);
    } else if a < 0 {
        lemma_nat_text_shape(b as nat);
        assert(int_text(a)[0] == '-');
    } else {
        lemma_nat_text_shape(a as nat);
        assert(int_text(b)[0] == '-');
    }
}

/// The number a string of decimal digits reads as, most significant first.
pub open spec fn digits_value(s: Seq<char>) -> int
    decreases s.len(),
{
    if s.len() == 0 {
        0
    } else {
        digits_value(s.drop_last()) * 10 + (s.last() as int - 48)
    }
}

/// The decimal text of a number is made of digits only, has no leading zero
/// (but for zero itself), and reads back as that number.
pub proof fn lemma_nat_text_reads_back(n: nat)
    ensures
        digits_value(nat_text(n)) == n,
        forall|i: int| 0 <= i < nat_text(n).len() ==> '0' <= #[trigger] nat_text(n)[i] <= '9',
        n != 0 ==> nat_text(n)[0] != '0',
    decreases n,
{
    if n >= 10 {
        lemma_nat_text_reads_back(n / 10);
        let t = nat_text(n);
        assert(t.drop_last() =~= nat_text(n / 10));
        assert(digit_char(n % 10) as int == n % 10 + 48);
        assert(t.last() == digit_char(n % 10));
        assert((n / 10) * 10 + n % 10 == n) by (nonlinear_arith);
        assert(digits_value(t) == digits_value(nat_text(n / 10)) * 10 + (n % 10));
        assert(t[0] == nat_text(n / 10)[0]);
        assert forall|i: int| 0 <= i < t.len() implies '0' <= #[trigger] t[i] <= '9' by {
            if i < t.len() - 1 {
                assert(t[i] == nat_text(n / 10)[i]);
            }
        }
    } else {
        assert(digit_char(n) as int == n + 48);
        assert(nat_text(n).drop_last() =~= Seq::<char>::empty());
        assert(digits_value(nat_text(n).drop_last()) == 0);
    }
}

/// The text of an integer is its digits, after a minus sign for a negative
/// one, and they read back as its size.
pub proof fn lemma_int_text_reads_back(n: int)
    ensures
        n < 0 ==> int_text(n)[0] == '-' && digits_value(int_text(n).drop_first()) == -n,
        n >= 0 ==> digits_value(int_text(n)) == n,
{
    if n < 0 {
        lemma_nat_text_reads_back((-n) as nat);
        assert(int_text(n).drop_first() =~= nat_text((-n) as nat));
    } else {
        lemma_nat_text_reads_back(n as nat);
    }
}

/// A text that an event shows above a tile of the map.
#[derive(Clone, Copy, Debug, PartialEq, Eq, Structural)]
pub enum Message {
    /// A unit came into sight.
    Spotted,
    /// A unit went out of sight.
    Lost,
    Unloaded,
    Loaded,
    Attached,
    Detached,
    /// A smoke cloud was laid.
    Smoke,
    SmokeCleared,
    /// Shown above an attacker that fired in reaction to a move.
    ReactionFire,
    /// Shown above the target of an attack from ambush.
    Ambushed,
    NormalFireMode,
    HoldFire,
    SectorOwnerChanged { sector_id: SectorId, owner_id: Option<PlayerId> },
    VictoryPoints { count: i32 },
}

/// The characters of the text of `m`.
pub open spec fn message_text(m: Message) -> Seq<char> {
    match m {
        Message::Spotted => "spotted"@,
        Message::Lost => "lost"@,
        Message::Unloaded => "unloaded"@,
        Message::Loaded => "loaded"@,
        Message::Attached => "attached"@,
        Message::Detached => "detached"@,
        Message::Smoke => "smoke"@,
        Message::SmokeCleared => "smoke cleared"@,
        Message::ReactionFire => "reaction fire"@,
        Message::Ambushed => "Ambushed"@,
        Message::NormalFireMode => "Normal fire mode"@,
        Message::HoldFire => "Hold fire"@,
        Message::SectorOwnerChanged { sector_id, owner_id } => match owner_id {
            Some(owner) => "Sector "@ + int_text(sector_id.id as int) + ": owner changed: Player "@
                + int_text(owner.id as int),
            None => "Sector "@ + int_text(sector_id.id as int) + ": owner changed: None"@,
        },
        Message::VictoryPoints { count } => "+"@ + int_text(count as int) + " VP!"@,
    }
}

impl Message {
    /// The text to show.
    pub fn text(&self) -> (s: String)
        ensures
            s@ == message_text(*self),
    {
        match *self {
            Message::Spotted => String::from_str("spotted"),
            Message::Lost => String::from_str("lost"),
            Message::Unloaded => String::from_str("unloaded"),
            Message::Loaded => String::from_str("loaded"),
            Message::Attached => String::from_str("attached"),
            Message::Detached => String::from_str("detached"),
            Message::Smoke => String::from_str("smoke"),
            Message::SmokeCleared => String::from_str("smoke cleared"),
            Message::ReactionFire => String::from_str("reaction fire"),
            Message::Ambushed => String::from_str("Ambushed"),
            Message::NormalFireMode => String::from_str("Normal fire mode"),
            Message::HoldFire => String::from_str("Hold fire"),
            Message::SectorOwnerChanged { sector_id, owner_id } => {
                let mut s = String::from_str("Sector ");
                append_int(&mut s, sector_id.id);
                match owner_id {
                    Some(owner) => {
                        s.append(": owner changed: Player ");
                        append_int(&mut s, owner.id);
                    },
                    None => {
                        s.append(": owner changed: None");
                    },
                }
                s
            },
            Message::VictoryPoints { count } => {
                let mut s = String::from_str("+");
                append_int(&mut s, count);
                s.append(" VP!");
                s
            },
        }
    }
}

} // verus!
