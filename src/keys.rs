//! Content-addressed worker identity: the string that a worker's key is the
//! 64-bit digest of.

use vstd::prelude::*;

verus! {

/// The character of a decimal digit.
pub open spec fn digit_char(d: nat) -> char {
    if d == 0 { '0' }
    else if d == 1 { '1' }
    else if d == 2 { '2' }
    else if d == 3 { '3' }
    else if d == 4 { '4' }
    else if d == 5 { '5' }
    else if d == 6 { '6' }
    else if d == 7 { '7' }
    else if d == 8 { '8' }
    else { '9' }
}

/// The decimal representation of `n`, without leading zeros.
pub open spec fn decimal(n: nat) -> Seq<char>
    decreases n,
{
    if n < 10 {
        seq![digit_char(n)]
    } else {
        decimal(n / 10).push(digit_char(n % 10))
    }
}

/// The string whose digest is a worker's key: the service path, salted with
/// `"-"` and the timestamp in milliseconds when creation is forced.
pub open spec fn key_input(path: Seq<char>, force_create: bool, now_ms: u64) -> Seq<char> {
    if force_create {
        path + seq!['-'] + decimal(now_ms as nat)
    } else {
        path
    }
}

fn digit_str(d: u64) -> (r: &'static str)
    requires
        d < 10,
    ensures
        r@ == seq![digit_char(d as nat)],
{
    proof {
        reveal_strlit("0");
        reveal_strlit("1");
        reveal_strlit("2");
        reveal_strlit("3");
        reveal_strlit("4");
        reveal_strlit("5");
        reveal_strlit("6");
        reveal_strlit("7");
        reveal_strlit("8");
        reveal_strlit("9");
    }
    if d == 0 { "0" }
    else if d == 1 { "1" }
    else if d == 2 { "2" }
    else if d == 3 { "3" }
    else if d == 4 { "4" }
    else if d == 5 { "5" }
    else if d == 6 { "6" }
    else if d == 7 { "7" }
    else if d == 8 { "8" }
    else { "9" }
}

/// Appends the decimal representation of `n` to `s`.
fn push_decimal(s: &mut String, n: u64)
    ensures
        final(s)@ == old(s)@ + decimal(n as nat),
    decreases n,
{
    if n >= 10 {
        push_decimal(s, n / 10);
    }
    s.append(digit_str(n % 10));
    assert(final(s)@ =~= old(s)@ + decimal(n as nat));
}

/// Derives the string that a worker's key is hashed from. A forced creation
/// salts the path with the timestamp, which gives a fresh key.
pub fn derive_key_input(service_path: &str, force_create: bool, now_ms: u64) -> (r: String)
    ensures
        r@ == key_input(service_path@, force_create, now_ms),
{
    let mut key_input = String::from_str(service_path);
    if force_create {
        proof {
            reveal_strlit("-");
        }
        key_input.append("-");
        push_decimal(&mut key_input, now_ms);
    }
    key_input
}

proof fn lemma_decimal_nonempty(n: nat)
    ensures
        decimal(n).len() >= 1,
    decreases n,
{
    if n >= 10 {
        lemma_decimal_nonempty(n / 10);
    }
}

/// Distinct numbers have distinct decimal representations.
pub proof fn lemma_decimal_injective(n: nat, m: nat)
    requires
        decimal(n) == decimal(m),
    ensures
        n == m,
    decreases n,
{
    let dn = decimal(n);
    let dm = decimal(m);
    if n < 10 && m < 10 {
        assert(dn[0] == dm[0]);
    } else if n < 10 {
        lemma_decimal_nonempty(m / 10);
        assert(dn.len() != dm.len());
    } else if m < 10 {
        lemma_decimal_nonempty(n / 10);
        assert(dn.len() != dm.len());
    } else {
        assert(dn.last() == dm.last());
        assert(n % 10 == m % 10);
        assert(dn.drop_last() =~= decimal(n / 10));
        assert(dm.drop_last() =~= decimal(m / 10));
        lemma_decimal_injective(n / 10, m / 10);
    }
}

/// Two forced creations for one service path at distinct timestamps hash
/// distinct strings, so they address distinct workers unless the 64-bit
/// digest collides.
pub proof fn lemma_force_create_fresh(path: Seq<char>, t1: u64, t2: u64)
    requires
        t1 != t2,
    ensures
        key_input(path, true, t1) != key_input(path, true, t2),
{
    let a = key_input(path, true, t1);
    let b = key_input(path, true, t2);
    if a == b {
        let k = path.len() as int + 1;
        assert(a.subrange(k, a.len() as int) =~= decimal(t1 as nat));
        assert(b.subrange(k, b.len() as int) =~= decimal(t2 as nat));
        lemma_decimal_injective(t1 as nat, t2 as nat);
    }
}

} // verus!
