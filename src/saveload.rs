use vstd::prelude::*;
use vstd::string::StringExecFns;

verus! {

/// The character of a decimal digit.
pub open spec fn digit_char(d: nat) -> char {
    ('0' as nat + d) as char
}

/// The decimal digits of `n`, most significant first, with no leading zero.
pub open spec fn decimal(n: nat) -> Seq<char>
    decreases n,
{
    if n < 10 {
        seq![digit_char(n)]
    } else {
        decimal(n / 10).push(digit_char(n % 10))
    }
}

/// The name of the save file of a slot: `save_<slot>.json`.
pub open spec fn save_file_name_spec(slot: u8) -> Seq<char> {
    "save_"@ + decimal(slot as nat) + ".json"@
}

/// The one-character string of a decimal digit.
fn digit_str(d: u8) -> (r: &'static str)
    requires
        d < 10,
    ensures
        r@ == seq![digit_char(d as nat)],
{
    proof {
        reveal_strlit("0");
        reveal_strlit("1");
        reveal_strlit("2");
        reveal_strlit("3");
        reveal_strlit("4");
        reveal_strlit("5");
        reveal_strlit("6");
        reveal_strlit("7");
        reveal_strlit("8");
        reveal_strlit("9");
    }
    let r = match d {
        0 => "0",
        1 => "1",
        2 => "2",
        3 => "3",
        4 => "4",
        5 => "5",
        6 => "6",
        7 => "7",
        8 => "8",
        _ => "9",
    };
    assert(r@ =~= seq![digit_char(d as nat)]);
    r
}

/// The file name, within the game's directory, that the save slot `slot` is kept under.
pub fn save_file_name(slot: u8) -> (r: String)
    ensures
        r@ == save_file_name_spec(slot),
{
    let mut name = String::from_str("save_");
    let ghost prefix = name@;
    let ghost n = slot as nat;
    if slot >= 100 {
        name.append(digit_str(slot / 100));
        name.append(digit_str(slot / 10 % 10));
        assert(n / 10 / 10 == n / 100 && n / 10 >= 10 && n / 100 < 10);
        assert(decimal(n / 10) == decimal(n / 10 / 10).push(digit_char(n / 10 % 10)));
    } else if slot >= 10 {
        name.append(digit_str(slot / 10));
        assert(n / 10 < 10);
    }
    name.append(digit_str(slot % 10));
    assert(decimal(n) == if n < 10 {
        seq![digit_char(n)]
    } else {
        decimal(n / 10).push(digit_char(n % 10))
    });
    assert(name@ =~= prefix + decimal(n));
    name.append(".json");
    name
}

} // verus!
