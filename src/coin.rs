//! Amounts of a denomination, in the native form (an integer amount) and in
//! the wire form (the amount as decimal text), and emitted events.
use vstd::prelude::*;
use vstd::string::*;
use crate::decimal::{
    all_digits, decimal_text, decimal_value, is_digit, parse_u128, parse_u128_spec, u128_text,
};
use crate::text::{chars_eq, chars_of, pieces_view, split_chars, split_spec, string_of};

verus! {

/// An amount of one denomination.
#[derive(Clone, Debug, PartialEq, Eq)]
pub struct Coin {
    pub denom: String,
    pub amount: u128,
}

impl View for Coin {
    type V = (Seq<char>, u128);

    open spec fn view(&self) -> (Seq<char>, u128) {
        (self.denom@, self.amount)
    }
}

/// An amount of one denomination as it travels in protobuf messages: the
/// amount is decimal text.
#[derive(Clone, Debug, PartialEq, Eq)]
pub struct ProtoCoin {
    pub denom: String,
    pub amount: String,
}

impl View for ProtoCoin {
    type V = (Seq<char>, Seq<char>);

    open spec fn view(&self) -> (Seq<char>, Seq<char>) {
        (self.denom@, self.amount@)
    }
}

pub open spec fn coins_view(v: Seq<Coin>) -> Seq<(Seq<char>, u128)> {
    v.map_values(|c: Coin| c@)
}

pub open spec fn proto_coins_view(v: Seq<ProtoCoin>) -> Seq<(Seq<char>, Seq<char>)> {
    v.map_values(|c: ProtoCoin| c@)
}

/// The wire form of a native coin.
pub open spec fn to_proto_spec(c: (Seq<char>, u128)) -> (Seq<char>, Seq<char>) {
    (c.0, decimal_text(c.1 as nat))
}

/// The native form of a wire coin, when its amount reads as a `u128`.
pub open spec fn from_proto_spec(c: (Seq<char>, Seq<char>)) -> Option<(Seq<char>, u128)> {
    match parse_u128_spec(c.1) {
        Some(a) => Some((c.0, a)),
        None => None,
    }
}

impl Coin {
    pub fn new(amount: u128, denom: &str) -> (r: Coin)
        ensures
            r@ == (denom@, amount),
    {
        Coin { denom: String::from_str(denom), amount }
    }

    /// The wire form of this coin.
    pub fn to_proto(&self) -> (r: ProtoCoin)
        ensures
            r@ == to_proto_spec(self@),
    {
        ProtoCoin { denom: self.denom.clone(), amount: u128_text(self.amount) }
    }
}

impl ProtoCoin {
    /// The native form of this coin; `None` when the amount is not the
    /// decimal text of a `u128`.
    pub fn to_native(&self) -> (r: Option<Coin>)
        ensures
            r matches Some(c) ==> from_proto_spec(self@) == Some(c@),
            r is None <==> from_proto_spec(self@) is None,
    {
        match parse_u128(self.amount.as_str()) {
            Some(a) => Some(Coin { denom: self.denom.clone(), amount: a }),
            None => None,
        }
    }
}

/// The wire forms of `v`, in order.
pub fn coins_to_proto(v: &Vec<Coin>) -> (r: Vec<ProtoCoin>)
    ensures
        proto_coins_view(r@) == coins_view(v@).map_values(|c: (Seq<char>, u128)| to_proto_spec(c)),
{
    let mut r: Vec<ProtoCoin> = Vec::new();
    let mut i: usize = 0;
    while i < v.len()
        invariant
            i <= v@.len(),
            r@.len() == i,
            forall|j: int| 0 <= j < i ==> (#[trigger] r@[j])@ == to_proto_spec(v@[j]@),
        decreases v@.len() - i,
    {
        let p = v[i].to_proto();
        r.push(p);
        i = i + 1;
    }
    assert(proto_coins_view(r@) =~= coins_view(v@).map_values(
        |c: (Seq<char>, u128)| to_proto_spec(c),
    ));
    r
}

/// The native forms of all wire coins in `s`, or `None` when one of them does
/// not read.
pub open spec fn coins_from_proto_spec(s: Seq<(Seq<char>, Seq<char>)>) -> Option<Seq<(Seq<char>, u128)>>
    decreases s.len(),
{
    if s.len() == 0 {
        Some(Seq::empty())
    } else {
        match (coins_from_proto_spec(s.drop_last()), from_proto_spec(s.last())) {
            (Some(init), Some(c)) => Some(init.push(c)),
            _ => None,
        }
    }
}

/// The native forms of `v`, in order; `None` when an amount does not read.
pub fn coins_from_proto(v: &Vec<ProtoCoin>) -> (r: Option<Vec<Coin>>)
    ensures
        r matches Some(cs) ==> coins_from_proto_spec(proto_coins_view(v@)) == Some(coins_view(cs@)),
        r is None <==> coins_from_proto_spec(proto_coins_view(v@)) is None,
{
    let mut r: Vec<Coin> = Vec::new();
    let mut i: usize = 0;
    while i < v.len()
        invariant
            i <= v@.len(),
            coins_from_proto_spec(proto_coins_view(v@.take(i as int))) == Some(coins_view(r@)),
        decreases v@.len() - i,
    {
        assert(proto_coins_view(v@.take(i + 1)).drop_last() =~= proto_coins_view(v@.take(i as int)));
        assert(proto_coins_view(v@.take(i + 1)).last() == v@[i as int]@);
        match v[i].to_native() {
            Some(c) => {
                r.push(c);
                assert(coins_view(r@) =~= coins_view(r@.drop_last()).push(c@));
            },
            None => {
                proof {
                    lemma_coins_from_proto_none(proto_coins_view(v@), i + 1);
                }
                return None;
            },
        }
        i = i + 1;
    }
    assert(v@.take(i as int) =~= v@);
    Some(r)
}

/// Once a prefix of wire coins fails to read, the whole list fails.
proof fn lemma_coins_from_proto_none(s: Seq<(Seq<char>, Seq<char>)>, k: int)
    requires
        0 <= k <= s.len(),
        coins_from_proto_spec(s.take(k)) is None,
    ensures
        coins_from_proto_spec(s) is None,
    decreases s.len() - k,
{
    if k < s.len() {
        assert(s.take(k + 1).drop_last() =~= s.take(k));
        lemma_coins_from_proto_none(s, k + 1);
    } else {
        assert(s.take(k) =~= s);
    }
}

/// Reading back the wire forms of native coins gives the coins.
pub proof fn lemma_coins_round_trip(s: Seq<(Seq<char>, u128)>)
    ensures
        coins_from_proto_spec(s.map_values(|c: (Seq<char>, u128)| to_proto_spec(c))) == Some(s),
    decreases s.len(),
{
    let w = s.map_values(|c: (Seq<char>, u128)| to_proto_spec(c));
    if s.len() > 0 {
        lemma_coins_round_trip(s.drop_last());
        assert(w.drop_last() =~= s.drop_last().map_values(|c: (Seq<char>, u128)| to_proto_spec(c)));
        crate::decimal::lemma_parse_decimal_text(s.last().1 as nat, u128::MAX as nat);
        assert(s.drop_last().push(s.last()) =~= s);
    } else {
        assert(w =~= Seq::<(Seq<char>, Seq<char>)>::empty());
    }
}

/// One key and value of an event.
#[derive(Clone, Debug, PartialEq, Eq)]
pub struct Attribute {
    pub key: String,
    pub value: String,
}

/// An event that the execution of a message emits.
#[derive(Clone, Debug, PartialEq, Eq)]
pub struct Event {
    pub ty: String,
    pub attributes: Vec<Attribute>,
}

impl View for Event {
    type V = (Seq<char>, Seq<(Seq<char>, Seq<char>)>);

    open spec fn view(&self) -> (Seq<char>, Seq<(Seq<char>, Seq<char>)>) {
        (self.ty@, self.attributes@.map_values(|a: Attribute| (a.key@, a.value@)))
    }
}

impl Event {
    /// An event of type `ty` without attributes.
    pub fn new(ty: &str) -> (r: Event)
        ensures
            r@ == (ty@, Seq::<(Seq<char>, Seq<char>)>::empty()),
    {
        let r = Event { ty: String::from_str(ty), attributes: Vec::new() };
        assert(r@.1 =~= Seq::<(Seq<char>, Seq<char>)>::empty());
        r
    }

    /// Adds an attribute after those already there.
    pub fn add_attribute(&mut self, key: &str, value: &str)
        ensures
            final(self)@ == (old(self)@.0, old(self)@.1.push((key@, value@))),
    {
        let a = Attribute { key: String::from_str(key), value: String::from_str(value) };
        self.attributes.push(a);
        assert(final(self)@.1 =~= old(self)@.1.push((key@, value@)));
    }
}

pub open spec fn is_lower(c: char) -> bool {
    'a' <= c && c <= 'z'
}

pub open spec fn is_upper(c: char) -> bool {
    'A' <= c && c <= 'Z'
}

/// The classes of characters that denominations are made of.
pub open spec fn in_class(class: u8, c: char) -> bool {
    if class == LOWER {
        is_lower(c)
    } else if class == UPPER_HEX {
        is_digit(c) || ('A' <= c && c <= 'F')
    } else if class == LOWER_ALNUM {
        is_digit(c) || is_lower(c)
    } else {
        is_digit(c) || is_lower(c) || is_upper(c)
    }
}

pub const LOWER: u8 = 0;

pub const UPPER_HEX: u8 = 1;

pub const LOWER_ALNUM: u8 = 2;

pub const ALNUM: u8 = 3;

pub open spec fn all_chars(s: Seq<char>, class: u8) -> bool {
    forall|i: int| 0 <= i < s.len() ==> in_class(class, #[trigger] s[i])
}

/// A native denomination: lowercase letters.
pub open spec fn native_denom_form(d: Seq<char>) -> bool {
    d.len() > 0 && all_chars(d, LOWER)
}

/// An IBC denomination: `ibc/` or `IBC/` and 64 uppercase hex digits.
pub open spec fn ibc_denom_form(d: Seq<char>) -> bool {
    &&& d.len() == 68
    &&& (d.take(4) == "ibc/"@ || d.take(4) == "IBC/"@)
    &&& all_chars(d.skip(4), UPPER_HEX)
}

/// A token-factory denomination: `factory/{creator}/{subdenom}`, the creator
/// of digits and lowercase letters, the subdenomination of digits and
/// letters.
pub open spec fn factory_denom_form(d: Seq<char>) -> bool {
    let p = split_spec(d, '/');
    &&& p.len() == 3
    &&& p[0] == "factory"@
    &&& p[1].len() > 0 && all_chars(p[1], LOWER_ALNUM)
    &&& p[2].len() > 0 && all_chars(p[2], ALNUM)
}

/// The number of digits that `s` starts with.
pub open spec fn leading_digits(s: Seq<char>) -> nat
    decreases s.len(),
{
    if s.len() > 0 && is_digit(s[0]) {
        1 + leading_digits(s.drop_first())
    } else {
        0
    }
}

/// The coin that an SDK coin string such as `10000000uosmo` writes: an
/// amount of digits followed by a native, IBC or token-factory denomination.
pub open spec fn sdk_coin_spec(s: Seq<char>) -> Option<(Seq<char>, u128)> {
    let k = leading_digits(s) as int;
    let digits = s.take(k);
    let denom = s.skip(k);
    if k > 0 && (native_denom_form(denom) || ibc_denom_form(denom) || factory_denom_form(denom))
        && decimal_value(digits) <= u128::MAX {
        Some((denom, decimal_value(digits) as u128))
    } else {
        None
    }
}

proof fn lemma_leading_digits(s: Seq<char>, i: int)
    requires
        0 <= i <= s.len(),
        forall|j: int| 0 <= j < i ==> is_digit(#[trigger] s[j]),
    ensures
        i == s.len() || !is_digit(s[i]) ==> leading_digits(s) == i,
    decreases i,
{
    if i > 0 {
        lemma_leading_digits(s.drop_first(), i - 1);
    }
}

fn all_in(v: &Vec<char>, from: usize, class: u8) -> (r: bool)
    requires
        from <= v@.len(),
    ensures
        r == all_chars(v@.skip(from as int), class),
{
    let mut i: usize = from;
    while i < v.len()
        invariant
            from <= i <= v@.len(),
            forall|j: int| from <= j < i ==> in_class(class, #[trigger] v@[j]),
        decreases v@.len() - i,
    {
        let c = v[i];
        let ok = if class == LOWER {
            c >= 'a' && c <= 'z'
        } else if class == UPPER_HEX {
            (c >= '0' && c <= '9') || (c >= 'A' && c <= 'F')
        } else if class == LOWER_ALNUM {
            (c >= '0' && c <= '9') || (c >= 'a' && c <= 'z')
        } else {
            (c >= '0' && c <= '9') || (c >= 'a' && c <= 'z') || (c >= 'A' && c <= 'Z')
        };
        if !ok {
            assert(v@.skip(from as int)[i - from] == c);
            return false;
        }
        i = i + 1;
    }
    assert forall|j: int| 0 <= j < v@.skip(from as int).len() implies in_class(class, #[trigger] v@.skip(from as int)[j]) by {
        assert(v@.skip(from as int)[j] == v@[from + j]);
    }
    true
}

/// Reads an SDK coin string such as `10000000uosmo`, `5ibc/27394F...` or
/// `1factory/osmo1abc/token`.
pub fn coin_from_sdk_string(s: &str) -> (r: Option<Coin>)
    ensures
        match sdk_coin_spec(s@) {
            Some(c) => r matches Some(k) && k@ == c,
            None => r is None,
        },
{
    let v = chars_of(s);
    let mut k: usize = 0;
    while k < v.len() && v[k] >= '0' && v[k] <= '9'
        invariant
            v@ == s@,
            k <= v@.len(),
            forall|j: int| 0 <= j < k ==> is_digit(#[trigger] v@[j]),
        decreases v@.len() - k,
    {
        k = k + 1;
    }
    proof {
        lemma_leading_digits(s@, k as int);
    }
    if k == 0 {
        return None;
    }
    let ghost denom = s@.skip(k as int);
    let mut digits: Vec<char> = Vec::new();
    let mut rest: Vec<char> = Vec::new();
    let mut i: usize = 0;
    while i < v.len()
        invariant
            i <= v@.len(),
            k <= v@.len(),
            i <= k ==> digits@ == v@.take(i as int) && rest@.len() == 0,
            i > k ==> digits@ == v@.take(k as int) && rest@ == v@.subrange(k as int, i as int),
        decreases v@.len() - i,
    {
        if i < k {
            digits.push(v[i]);
            assert(digits@ =~= v@.take(i + 1));
        } else {
            rest.push(v[i]);
            assert(rest@ =~= v@.subrange(k as int, i + 1));
        }
        i = i + 1;
    }
    assert(digits@ =~= s@.take(k as int));
    assert(rest@ =~= denom);
    let native = all_in(&rest, 0, LOWER) && rest.len() > 0;
    assert(rest@.skip(0) =~= rest@);
    let mut ibc = false;
    if rest.len() == 68 {
        let head = crate::text::string_of(&rest);
        let prefix = head.as_str().substring_char(0, 4);
        let lower = chars_of("ibc/");
        let upper = chars_of("IBC/");
        let pv = chars_of(prefix);
        assert(pv@ =~= denom.take(4));
        ibc = (chars_eq(&pv, &lower) || chars_eq(&pv, &upper))
            && all_in(&rest, 4, UPPER_HEX);
    }
    let parts = split_chars(&rest, '/');
    let ghost pv = pieces_view(parts@);
    let mut factory = false;
    if parts.len() == 3 {
        assert(pv[0] == parts@[0]@ && pv[1] == parts@[1]@ && pv[2] == parts@[2]@);
        let word = chars_of("factory");
        assert(parts@[1]@.skip(0) =~= parts@[1]@);
        assert(parts@[2]@.skip(0) =~= parts@[2]@);
        factory = chars_eq(&parts[0], &word)
            && parts[1].len() > 0 && all_in(&parts[1], 0, LOWER_ALNUM)
            && parts[2].len() > 0 && all_in(&parts[2], 0, ALNUM);
    }
    if !(native || ibc || factory) {
        return None;
    }
    let digit_text = string_of(&digits);
    assert(all_digits(digits@));
    let amount = match parse_u128(digit_text.as_str()) {
        Some(a) => a,
        None => return None,
    };
    Some(Coin { denom: string_of(&rest), amount })
}

} // verus!
