use vstd::prelude::*;

verus! {

/// The character views of a sequence of strings.
pub open spec fn strs(v: Seq<String>) -> Seq<Seq<char>> {
    v.map_values(|s: String| s@)
}

pub open spec fn digit_char(d: nat) -> char
    recommends
        d < 10,
{
    seq!['0', '1', '2', '3', '4', '5', '6', '7', '8', '9'][d as int]
}

/// Decimal digits of `n`, most significant first, without leading zeros.
pub open spec fn decimal(n: nat) -> Seq<char>
    decreases n,
{
    if n < 10 {
        seq![digit_char(n)]
    } else {
        decimal(n / 10).push(digit_char(n % 10))
    }
}

/// Relies on `usize`'s `ToString`: the decimal digits of the number.
#[verifier::external_body]
pub(crate) fn usize_to_decimal(n: usize) -> (r: String)
    ensures
        r@ == decimal(n as nat),
{
    n.to_string()
}

/// `on` or `off`, as the hypervisor's option syntax writes a flag.
pub open spec fn on_off(b: bool) -> Seq<char> {
    if b { "on"@ } else { "off"@ }
}

pub fn on_off_str(b: bool) -> (r: &'static str)
    ensures
        r@ == on_off(b),
{
    if b { "on" } else { "off" }
}

/// Appends a copy of `s`.
pub fn push_str(v: &mut Vec<String>, s: &str)
    ensures
        strs(final(v)@) == strs(old(v)@).push(s@),
{
    v.push(String::from_str(s));
    assert(strs(v@) =~= strs(old(v)@).push(s@));
}

/// Appends `s`.
pub fn push_string(v: &mut Vec<String>, s: String)
    ensures
        strs(final(v)@) == strs(old(v)@).push(s@),
{
    let ghost sv = s@;
    v.push(s);
    assert(strs(v@) =~= strs(old(v)@).push(sv));
}

/// Appends every string of `w`, in order.
pub fn extend_strings(v: &mut Vec<String>, w: Vec<String>)
    ensures
        strs(final(v)@) == strs(old(v)@) + strs(w@),
{
    let mut i: usize = 0;
    while i < w.len()
        invariant
            i <= w@.len(),
            strs(v@) == strs(old(v)@) + strs(w@.take(i as int)),
        decreases w@.len() - i,
    {
        let s = w[i].clone();
        push_string(v, s);
        assert(strs(w@.take(i + 1)) =~= strs(w@.take(i as int)).push(w@[i as int]@));
        i += 1;
    }
    assert(w@.take(i as int) =~= w@);
}

} // verus!
