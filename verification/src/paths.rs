//! The conventional sibling paths of the configuration file: the single
//! backup slot and the durable writer's temporary path.

use vstd::prelude::*;

use crate::text::concat2;

verus! {

/// The single backup slot beside `path`.
pub open spec fn backup_path_spec(path: Seq<char>) -> Seq<char> {
    path + ".backup"@
}

/// The path of the backup slot beside `path`.
pub fn backup_path_for(path: &str) -> (r: String)
    ensures
        r@ == backup_path_spec(path@),
{
    concat2(path, ".backup")
}

/// The character of the decimal digit `d`.
pub open spec fn digit_char(d: nat) -> char {
    if d == 0 {
        '0'
    } else if d == 1 {
        '1'
    } else if d == 2 {
        '2'
    } else if d == 3 {
        '3'
    } else if d == 4 {
        '4'
    } else if d == 5 {
        '5'
    } else if d == 6 {
        '6'
    } else if d == 7 {
        '7'
    } else if d == 8 {
        '8'
    } else {
        '9'
    }
}

/// The decimal digits of `n`, most significant first.
pub open spec fn dec_str(n: nat) -> Seq<char>
    decreases n,
{
    if n < 10 {
        seq![digit_char(n)]
    } else {
        dec_str(n / 10).push(digit_char(n % 10))
    }
}

fn digit_str(d: u32) -> (r: &'static str)
    requires
        d < 10,
    ensures
        r@ == seq![digit_char(d as nat)],
{
    proof {
        reveal_strlit("0");
        reveal_strlit("1");
        reveal_strlit("2");
        reveal_strlit("3");
        reveal_strlit("4");
        reveal_strlit("5");
        reveal_strlit("6");
        reveal_strlit("7");
        reveal_strlit("8");
        reveal_strlit("9");
    }
    let r: &'static str = if d == 0 {
        "0"
    } else if d == 1 {
        "1"
    } else if d == 2 {
        "2"
    } else if d == 3 {
        "3"
    } else if d == 4 {
        "4"
    } else if d == 5 {
        "5"
    } else if d == 6 {
        "6"
    } else if d == 7 {
        "7"
    } else if d == 8 {
        "8"
    } else {
        "9"
    };
    proof {
        assert(r@ =~= seq![digit_char(d as nat)]);
    }
    r
}

/// Writes `n` in decimal.
pub fn u32_to_string(n: u32) -> (r: String)
    ensures
        r@ == dec_str(n as nat),
    decreases n,
{
    if n < 10 {
        digit_str(n).to_owned()
    } else {
        let mut s = u32_to_string(n / 10);
        s.append(digit_str(n % 10));
        proof {
            assert(s@ =~= dec_str((n / 10) as nat).push(digit_char((n % 10) as nat)));
        }
        s
    }
}

/// The durable writer's temporary sibling path: the destination plus
/// `.tmp.` and the writing process's identifier.
pub open spec fn temp_path_spec(path: Seq<char>, pid: nat) -> Seq<char> {
    path + ".tmp."@ + dec_str(pid)
}

/// The temporary path the durable writer writes to before renaming over
/// `path`.
pub fn temp_path_for(path: &str, pid: u32) -> (r: String)
    ensures
        r@ == temp_path_spec(path@, pid as nat),
{
    let mut s = concat2(path, ".tmp.");
    let digits = u32_to_string(pid);
    s.append(digits.as_str());
    s
}

} // verus!
