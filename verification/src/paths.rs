//! Names of the per-entry data files exchanged with the controlling program.
use vstd::prelude::*;

verus! {

/// The character that stands for a decimal digit `d` (`0 <= d < 10`).
pub open spec fn digit_char(d: nat) -> char {
    ((48 + d) as u32) as char
}

/// The shortest decimal spelling of `n`, most significant digit first.
pub open spec fn decimal(n: nat) -> Seq<char>
    decreases n,
{
    if n < 10 {
        seq![digit_char(n)]
    } else {
        decimal(n / 10).push(digit_char(n % 10))
    }
}

fn digit_str(d: u32) -> (s: &'static str)
    requires
        d < 10,
    ensures
        s@ == seq![digit_char(d as nat)],
{
    proof {
        reveal_strlit("0");
        reveal_strlit("1");
        reveal_strlit("2");
        reveal_strlit("3");
        reveal_strlit("4");
        reveal_strlit("5");
        reveal_strlit("6");
        reveal_strlit("7");
        reveal_strlit("8");
        reveal_strlit("9");
    }
    if d == 0 {
        "0"
    } else if d == 1 {
        "1"
    } else if d == 2 {
        "2"
    } else if d == 3 {
        "3"
    } else if d == 4 {
        "4"
    } else if d == 5 {
        "5"
    } else if d == 6 {
        "6"
    } else if d == 7 {
        "7"
    } else if d == 8 {
        "8"
    } else {
        "9"
    }
}

/// Appends the decimal spelling of `n` to `s`.
pub fn push_decimal(s: &mut String, n: u32)
    ensures
        final(s)@ == old(s)@ + decimal(n as nat),
    decreases n,
{
    if n >= 10 {
        push_decimal(s, n / 10);
    }
    s.append(digit_str(n % 10));
    proof {
        assert(decimal(n as nat) == if n < 10 { seq![digit_char(n as nat)] } else {
            decimal((n / 10) as nat).push(digit_char((n % 10) as nat))
        });
    }
}

} // verus!
verus! {

/// The directory that holds every data file.
pub open spec fn data_dir() -> Seq<char> {
    "sd:/libultimate/"@
}

/// The ending of a file name: the ready marker's or the record's.
pub open spec fn file_ending(marker: bool) -> Seq<char> {
    if marker {
        ".ok.json"@
    } else {
        ".json"@
    }
}

/// The full path of the file for entry `id` of the record kind `stem`:
/// `sd:/libultimate/<stem>_<id>.json`, or `..._<id>.ok.json` for the marker
/// that says the record is ready to be read.
pub open spec fn entry_file(stem: Seq<char>, id: nat, marker: bool) -> Seq<char> {
    data_dir() + stem + "_"@ + decimal(id) + file_ending(marker)
}

/// Builds the path of the record (or, with `marker`, of its ready marker) of
/// kind `stem` for entry `entry_id`.
pub fn entry_file_path(stem: &str, entry_id: u32, marker: bool) -> (path: String)
    ensures
        path@ == entry_file(stem@, entry_id as nat, marker),
{
    let mut path = String::from_str("sd:/libultimate/");
    path.append(stem);
    path.append("_");
    push_decimal(&mut path, entry_id);
    if marker {
        path.append(".ok.json");
    } else {
        path.append(".json");
    }
    path
}

/// Path of the controller-state record for entry `entry_id`.
pub fn control_state_path(entry_id: u32) -> (path: String)
    ensures
        path@ == entry_file("control_state"@, entry_id as nat, false),
{
    entry_file_path("control_state", entry_id, false)
}

/// Path of the marker that says the controller-state record of `entry_id`
/// is complete.
pub fn control_state_ok_path(entry_id: u32) -> (path: String)
    ensures
        path@ == entry_file("control_state"@, entry_id as nat, true),
{
    entry_file_path("control_state", entry_id, true)
}

/// Path of the command record for player `player_id`.
pub fn command_path(player_id: u32) -> (path: String)
    ensures
        path@ == entry_file("command"@, player_id as nat, false),
{
    entry_file_path("command", player_id, false)
}

/// Path of the marker that says the command record of `player_id` is complete.
pub fn command_ok_path(player_id: u32) -> (path: String)
    ensures
        path@ == entry_file("command"@, player_id as nat, true),
{
    entry_file_path("command", player_id, true)
}

/// Every decimal spelling is non-empty, consists of digits, and has one
/// character exactly for the numbers below ten.
pub proof fn lemma_decimal_shape(n: nat)
    ensures
        decimal(n).len() >= 1,
        decimal(n).len() == 1 <==> n < 10,
        forall|i: int| 0 <= i < decimal(n).len() ==> '0' <= #[trigger] decimal(n)[i] <= '9',
    decreases n,
{
    if n >= 10 {
        lemma_decimal_shape(n / 10);
    }
}

/// Different numbers are spelled differently.
pub proof fn lemma_decimal_injective(a: nat, b: nat)
    requires
        decimal(a) == decimal(b),
    ensures
        a == b,
    decreases a,
{
    lemma_decimal_shape(a);
    lemma_decimal_shape(b);
    if a >= 10 && b >= 10 {
        let da = decimal(a);
        let db = decimal(b);
        assert(da.last() == digit_char(a % 10));
        assert(db.last() == digit_char(b % 10));
        assert(da.drop_last() =~= decimal(a / 10));
        assert(db.drop_last() =~= decimal(b / 10));
        lemma_decimal_injective(a / 10, b / 10);
        assert(a % 10 == b % 10);
        assert(a == 10 * (a / 10) + a % 10) by (nonlinear_arith);
        assert(b == 10 * (b / 10) + b % 10) by (nonlinear_arith);
    } else if a < 10 && b < 10 {
        assert(decimal(a)[0] == digit_char(a));
        assert(decimal(b)[0] == digit_char(b));
        assert(decimal(a)[0] == decimal(b)[0]);
    } else {
        assert(false);
    }
}

/// Two entries of one kind never share a file: the path names the entry.
pub proof fn lemma_entry_file_injective(stem: Seq<char>, a: nat, b: nat, marker: bool)
    requires
        entry_file(stem, a, marker) == entry_file(stem, b, marker),
    ensures
        a == b,
{
    let p = data_dir() + stem + "_"@;
    let e = file_ending(marker);
    let fa = entry_file(stem, a, marker);
    let fb = entry_file(stem, b, marker);
    assert(fa =~= p + decimal(a) + e);
    assert(fb =~= p + decimal(b) + e);
    assert(fa.len() == fb.len());
    assert(decimal(a).len() == decimal(b).len());
    assert(decimal(a) =~= fa.subrange(p.len() as int, (p.len() + decimal(a).len()) as int));
    assert(decimal(b) =~= fb.subrange(p.len() as int, (p.len() + decimal(b).len()) as int));
    lemma_decimal_injective(a, b);
}

/// A ready marker is never mistaken for a record, whatever the two entries.
pub proof fn lemma_marker_is_not_record(stem: Seq<char>, a: nat, b: nat)
    ensures
        entry_file(stem, a, true) != entry_file(stem, b, false),
{
    reveal_strlit(".ok.json");
    reveal_strlit(".json");
    let p = data_dir() + stem + "_"@;
    let fa = entry_file(stem, a, true);
    let fb = entry_file(stem, b, false);
    lemma_decimal_shape(a);
    lemma_decimal_shape(b);
    if fa == fb {
        let pa = p + decimal(a);
        let pb = p + decimal(b);
        assert(fa =~= pa + ".ok.json"@);
        assert(fb =~= pb + ".json"@);
        let k: int = fa.len() - 6;
        assert(fa[k] == 'k');
        assert(fb[k] == pb[pb.len() - 1]);
        assert(pb[pb.len() - 1] == decimal(b)[decimal(b).len() - 1]);
    }
}

} // verus!
